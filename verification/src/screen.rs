use vstd::prelude::*;
use vstd::utf8::encode_utf8;

use crate::editor::EditorView;
use crate::position::{sat_sub, Position};
use crate::row::{render_column, render_column_fits};
use crate::text::{decimal, lit, spaces};

verus! {

/// The line shown in the middle of the screen when there is no text.
pub open spec fn welcome_message() -> Seq<u8> {
    lit("riko editor -- version 0.0.1")
}

/// The offset that keeps `pos` in view: it moves back to `pos` when `pos` is above (or
/// left of) the window, and forward so that `pos` is the last visible line (column) when
/// it is past the window.
pub open spec fn follow(pos: int, off: int, win: int) -> int {
    let o = if pos < off {
        pos
    } else {
        off
    };
    if pos >= o + win {
        pos - win + 1
    } else {
        o
    }
}

/// `follow` computed in machine integers does not overflow.
pub open spec fn follow_fits(pos: int, off: int, win: int) -> bool {
    let o = if pos < off {
        pos
    } else {
        off
    };
    &&& o + win <= usize::MAX
    &&& (pos >= o + win ==> pos - win + 1 <= usize::MAX)
}

impl EditorView {
    /// The screen column of the cursor: its position in the rendered row, or zero below
    /// the last row.
    pub open spec fn cursor_render_x(self) -> int {
        if self.cursor.y < self.rows.len() {
            render_column(self.rows[self.cursor.y as int].chars, self.cursor.x as int)
        } else {
            0
        }
    }

    /// Scrolling does not panic.
    pub open spec fn can_scroll(self) -> bool {
        &&& (self.cursor.y < self.rows.len() ==> render_column_fits(
            self.rows[self.cursor.y as int].chars,
            self.cursor.x as int,
        ))
        &&& follow_fits(self.cursor.y as int, self.offset.y as int, self.window.y as int)
        &&& follow_fits(self.cursor_render_x(), self.offset.x as int, self.window.x as int)
    }

    /// The editor after scrolling: the render cursor is recomputed and the offset
    /// follows the cursor.
    pub open spec fn scrolled(self) -> EditorView {
        let rx = self.cursor_render_x();
        EditorView {
            render_cursor: Position { x: rx as usize, y: self.render_cursor.y },
            offset: Position {
                x: follow(rx, self.offset.x as int, self.window.x as int) as usize,
                y: follow(self.cursor.y as int, self.offset.y as int, self.window.y as int)
                    as usize,
            },
            ..self
        }
    }

    /// The part of a text row that fits in the window, as `draw_rows` slices it: from
    /// the horizontal offset, at most a window's width, less its last byte.
    pub open spec fn visible_len(self, file_row: int) -> int {
        let l = sat_sub(self.rows[file_row].render.len() as usize, self.offset.x) as int;
        if l > self.window.x {
            self.window.x as int
        } else {
            l
        }
    }

    /// Screen line `i` of the text area, without its leading erase and trailing newline.
    pub open spec fn line_body(self, i: int) -> Seq<u8> {
        let file_row = i + self.offset.y;
        if file_row >= self.rows.len() {
            lit("\x1b[48;5;236m~\x1b[m") + if i >= self.rows.len() {
                if self.rows.len() == 0 && i == self.window.y / 3 {
                    spaces(((self.window.x - welcome_message().len()) / 2) as nat)
                        + welcome_message()
                } else {
                    Seq::<u8>::empty()
                }
            } else {
                self.rows[i].chars
            }
        } else {
            let end = sat_sub(
                (self.offset.x + self.visible_len(file_row)) as usize,
                1,
            ) as int;
            self.rows[file_row].render.subrange(self.offset.x as int, end)
        }
    }

    /// Screen line `i` of the text area.
    pub open spec fn line(self, i: int) -> Seq<u8> {
        lit("\x1b[K") + self.line_body(i) + lit("\r\n")
    }

    /// Drawing screen line `i` does not panic.
    pub open spec fn can_draw_line(self, i: int) -> bool {
        let file_row = i + self.offset.y;
        &&& file_row <= usize::MAX
        &&& (file_row < self.rows.len() && self.offset.x > 0 ==> self.visible_len(file_row)
            >= 1)
        &&& (file_row >= self.rows.len() && self.rows.len() == 0 && i == self.window.y / 3
            ==> self.window.x >= welcome_message().len())
    }

    /// The first `n` screen lines of the text area.
    pub open spec fn lines(self, n: nat) -> Seq<u8>
        decreases n,
    {
        if n == 0 {
            Seq::<u8>::empty()
        } else {
            self.lines((n - 1) as nat) + self.line(n - 1)
        }
    }

    /// `draw_rows` does not panic.
    pub open spec fn can_draw_rows(self) -> bool {
        forall|i: int| 0 <= i < self.window.y ==> #[trigger] self.can_draw_line(i)
    }

    /// The text of the status bar: file name, modification mark, cursor, render cursor
    /// and number of rows.
    pub open spec fn status_text(self) -> Seq<u8> {
        encode_utf8(self.file_name) + (if self.dirty {
            lit("(modified)")
        } else {
            Seq::<u8>::empty()
        }) + lit(": (cx") + decimal(self.cursor.x as nat) + lit(", cy") + decimal(
            self.cursor.y as nat,
        ) + lit("): (rcx") + decimal(self.render_cursor.x as nat) + lit(", rcy") + decimal(
            self.render_cursor.y as nat,
        ) + lit("): lc:") + decimal(self.rows.len())
    }

    /// Drawing the status bar does not panic: its text fits in the window.
    pub open spec fn can_draw_status_bar(self) -> bool {
        self.status_text().len() <= self.window.x
    }

    /// The status bar, padded to the window width, followed by the message line.
    pub open spec fn status_bar(self) -> Seq<u8> {
        lit("\x1b[48;5;245m") + self.status_text() + spaces(
            (self.window.x - self.status_text().len()) as nat,
        ) + lit("\x1b[m") + lit("\r\n") + lit("\x1b[K") + encode_utf8(self.status)
    }

    /// Placing the terminal cursor does not panic: the cursor is not before the offset.
    pub open spec fn can_place_cursor(self) -> bool {
        &&& self.offset.y <= self.cursor.y
        &&& self.cursor.y - self.offset.y + 1 <= usize::MAX
        &&& self.offset.x <= self.render_cursor.x
        &&& self.render_cursor.x - self.offset.x + 1 <= usize::MAX
    }

    /// The escape sequence that puts the terminal cursor on the editor cursor (1-based
    /// line and column within the window).
    pub open spec fn cursor_sequence(self) -> Seq<u8> {
        lit("\x1b[") + decimal((self.cursor.y - self.offset.y + 1) as nat) + lit(";")
            + decimal((self.render_cursor.x - self.offset.x + 1) as nat) + lit("H")
    }

    /// A screen refresh does not panic.
    pub open spec fn can_refresh_screen(self) -> bool {
        &&& self.can_scroll()
        &&& self.scrolled().can_draw_rows()
        &&& self.scrolled().can_draw_status_bar()
        &&& self.scrolled().can_place_cursor()
    }

    /// The bytes a refresh sends to the terminal, for an editor that has already scrolled:
    /// what was buffered, the hidden cursor moved home, the text lines, the status bar,
    /// the cursor placement and the cursor shown again.
    pub open spec fn frame(self) -> Seq<u8> {
        self.buffer + lit("\x1b[?25l\x1b[H") + self.lines(self.window.y as nat)
            + self.status_bar() + self.cursor_sequence() + lit("\x1b[?25h")
    }
}

/// The offset that `follow` gives, or `None` when computing it would overflow.
pub fn follow_checked(pos: usize, off: usize, win: usize) -> (r: Option<usize>)
    ensures
        r is Some <==> follow_fits(pos as int, off as int, win as int),
        r matches Some(o) ==> o == follow(pos as int, off as int, win as int),
{
    let o = if pos < off {
        pos
    } else {
        off
    };
    if o > usize::MAX - win {
        return None;
    }
    if pos >= o + win {
        if win == 0 && pos == usize::MAX {
            return None;
        }
        Some(pos - win + 1)
    } else {
        Some(o)
    }
}

/// What is drawn does not depend on what is already in the output buffer.
pub proof fn lemma_drawing_ignores_buffer(v: EditorView, buffer: Seq<u8>, n: nat)
    ensures
        (EditorView { buffer, ..v }).lines(n) == v.lines(n),
        (EditorView { buffer, ..v }).status_bar() == v.status_bar(),
        (EditorView { buffer, ..v }).can_draw_rows() == v.can_draw_rows(),
        (EditorView { buffer, ..v }).can_draw_status_bar() == v.can_draw_status_bar(),
        (EditorView { buffer, ..v }).can_place_cursor() == v.can_place_cursor(),
        (EditorView { buffer, ..v }).cursor_sequence() == v.cursor_sequence(),
    decreases n,
{
    let w = EditorView { buffer, ..v };
    if n > 0 {
        lemma_drawing_ignores_buffer(v, buffer, (n - 1) as nat);
        assert(w.line(n - 1) == v.line(n - 1));
    }
    if w.can_draw_rows() {
        assert forall|i: int| 0 <= i < v.window.y implies #[trigger] v.can_draw_line(i) by {
            assert(w.can_draw_line(i));
        }
    }
    if v.can_draw_rows() {
        assert forall|i: int| 0 <= i < w.window.y implies #[trigger] w.can_draw_line(i) by {
            assert(v.can_draw_line(i));
        }
    }
}

} // verus!
