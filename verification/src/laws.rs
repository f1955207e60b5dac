use vstd::prelude::*;

use crate::editor::{empty_row, key_q, written_message, EditorView, KeyAction, SaveOutcome};
use crate::key::{first_byte_step, stage_step, EditorKey, KeyStage, KeyStep};
use crate::row::{
    clamped_prefix, expand_byte, expand_tabs, lemma_expand_len, lemma_expand_prefix, render_column, rendered,
    RowView, TAB, TAB_STOP,
};
use crate::position::Position;
use crate::screen::{follow, follow_fits};
use crate::text::{decimal, lit};

verus! {

/// The render position of a text column is where that column's byte is drawn: the
/// expansion of the text before it is exactly that long, and the rendered row holds the
/// byte there (a space for a tab).
pub proof fn law_render_position_locates_byte(chars: Seq<u8>, x: int)
    requires
        0 <= x < chars.len(),
    ensures
        expand_tabs(chars.take(x)).len() == render_column(chars, x),
        render_column(chars, x) < rendered(chars).len(),
        rendered(chars)[render_column(chars, x)] == if chars[x] == TAB {
            32u8
        } else {
            chars[x]
        },
{
    lemma_expand_len(chars.take(x));
    lemma_expand_prefix(chars, x);
    let rest = chars.skip(x);
    assert(rest.take(1) =~= seq![chars[x]]);
    lemma_expand_prefix(rest, 1);
    assert(rest.take(1).drop_last() =~= Seq::<u8>::empty());
    assert(expand_tabs(Seq::<u8>::empty()) =~= Seq::<u8>::empty());
    assert(rest.take(1).last() == chars[x]);
    assert(expand_tabs(rest.take(1)) =~= expand_byte(chars[x]));
    assert(expand_tabs(chars) =~= expand_tabs(chars.take(x)) + expand_byte(chars[x])
        + expand_tabs(rest.skip(1)));
}

/// Deleting the byte just inserted gives back the text, freshly rendered.
pub proof fn law_delete_undoes_insert(r: RowView, c: u8, at: int)
    requires
        0 <= at <= r.chars.len(),
    ensures
        r.after_insert(c, at).after_delete(at) == r.updated(),
{
    assert(r.chars.insert(at, c).remove(at) =~= r.chars);
}

/// Typing a byte and then deleting backwards gives back the text and the cursor of a
/// row that was displayed consistently; the render cursor lands on the screen column of
/// the cursor.
pub proof fn law_backspace_undoes_insert_char(v: EditorView, c: u8)
    requires
        v.can_insert_char(),
        v.after_insert_char(c).fits_in_memory(),
        v.rows[v.cursor.y as int].is_rendered(),
    ensures
        v.after_insert_char(c).can_backspace(),
        v.after_insert_char(c).after_backspace().rows == v.rows,
        v.after_insert_char(c).after_backspace().cursor == v.cursor,
        v.after_insert_char(c).after_backspace().render_cursor.x == render_column(
            v.rows[v.cursor.y as int].chars,
            v.cursor.x as int,
        ),
        v.after_insert_char(c).after_backspace().dirty,
{
    let y = v.cursor.y as int;
    let x = v.cursor.x as int;
    let w = v.after_insert_char(c);
    law_delete_undoes_insert(v.rows[y], c, x);
    assert(v.rows[y].updated() == v.rows[y]);
    assert(w.rows[y] == v.rows[y].after_insert(c, x));
    assert(w.rows[y].chars.len() <= usize::MAX);
    assert(w.cursor.x - 1 == x);
    assert(w.rows[y].after_delete(x) == v.rows[y]);
    assert(clamped_prefix(w.rows[y].after_delete(x).chars, x) == clamped_prefix(
        v.rows[y].chars,
        x,
    ));
    assert(w.after_backspace().rows =~= v.rows);
}

/// Breaking a line loses no text: the row at the cursor and the new row below it hold,
/// one after the other, the text that the row held; rows above and below are unchanged,
/// and the cursor is at the start of the new row.
pub proof fn law_newline_keeps_text(v: EditorView)
    requires
        v.can_insert_newline(),
    ensures
        v.after_insert_newline().rows.len() == v.rows.len() + 1,
        v.after_insert_newline().rows[v.cursor.y as int].chars + v.after_insert_newline().rows[v.cursor.y
            + 1].chars == v.rows[v.cursor.y as int].chars,
        forall|i: int|
            0 <= i < v.cursor.y ==> #[trigger] v.after_insert_newline().rows[i] == v.rows[i],
        forall|i: int|
            v.cursor.y + 1 < i < v.rows.len() + 1 ==> #[trigger] v.after_insert_newline().rows[i]
                == v.rows[i - 1],
        v.after_insert_newline().cursor == (Position { x: 0, y: (v.cursor.y + 1) as usize }),
{
    let y = v.cursor.y as int;
    let x = v.cursor.x as int;
    let row = v.rows[y];
    let w = v.after_insert_newline();
    if row.chars.len() == 0 || x == row.chars.len() {
        assert(w.rows == v.rows.insert(y + 1, empty_row()));
        assert(row.chars + Seq::<u8>::empty() =~= row.chars);
    } else {
        let head = RowView { chars: row.chars.take(x), render: row.render }.updated();
        let tail = RowView { chars: row.chars.skip(x), render: Seq::<u8>::empty() };
        assert(w.rows == v.rows.update(y, head).insert(y + 1, tail.updated()));
        assert(row.chars.take(x) + row.chars.skip(x) =~= row.chars);
    }
}

/// A window that is at least one line high keeps the cursor line in view after a scroll,
/// and a window at least one column wide keeps the cursor column in view.
pub proof fn law_scroll_keeps_cursor_visible(v: EditorView)
    requires
        v.can_scroll(),
    ensures
        v.window.y > 0 ==> v.scrolled().offset.y <= v.cursor.y < v.scrolled().offset.y
            + v.window.y,
        v.window.x > 0 ==> v.scrolled().offset.x <= v.scrolled().render_cursor.x
            < v.scrolled().offset.x + v.window.x,
{
}

/// With unsaved changes one `Ctrl-Q` only warns, and a second one in a row quits; with no
/// unsaved changes one is enough.
pub proof fn law_quit_needs_confirmation(v: EditorView)
    ensures
        v.dirty && !v.last_key_was_quit() ==> {
            let (w, a) = v.after_keypress(EditorKey::Ctrl(key_q()));
            &&& a == KeyAction::Continue
            &&& w.dirty
            &&& w.after_keypress(EditorKey::Ctrl(key_q())).1 == KeyAction::Quit
        },
        !v.dirty ==> v.after_keypress(EditorKey::Ctrl(key_q())).1 == KeyAction::Quit,
{
}

/// Moving right and then left brings the cursor back, when it starts inside its row's
/// text and is not already at the end of the last row.
pub proof fn law_left_undoes_right(v: EditorView)
    requires
        v.fits_in_memory(),
        v.cursor.y < v.rows.len(),
        v.cursor.x <= v.row_len(v.cursor.y as int),
        !(v.cursor.y == v.rows.len() - 1 && v.cursor.x == v.row_len(v.cursor.y as int)),
    ensures
        v.can_move_cursor(EditorKey::ArrowRight),
        v.after_move(EditorKey::ArrowRight).can_move_cursor(EditorKey::ArrowLeft),
        v.after_move(EditorKey::ArrowRight).after_move(EditorKey::ArrowLeft).cursor == v.cursor,
{
}

/// Every printable ASCII byte decodes to itself as a `Char`.
pub proof fn law_printable_bytes_are_chars(b: u8)
    requires
        0x20 <= b <= 0x7e,
    ensures
        first_byte_step(b) == KeyStep::Done(EditorKey::Char(b)),
{
}

/// A control byte other than NUL, backspace and escape decodes to `Ctrl` of the byte 64
/// places above it (`0x11` is `Ctrl(b'Q')`).
pub proof fn law_control_bytes_are_ctrl(b: u8)
    requires
        0x01 <= b < 0x20,
        b != 0x08,
        b != 0x1b,
    ensures
        first_byte_step(b) == KeyStep::Done(EditorKey::Ctrl((b + 64) as u8)),
{
}

/// Decoding a key press reads at most four bytes: the stage after `ESC [` that waits for
/// a function-key code always finishes.
pub proof fn law_decoding_finishes(b: u8)
    ensures
        stage_step(KeyStage::FunctionKey, b) is Done,
{
}

/// A `follow` offset never lies past the followed position when the window is not empty.
pub proof fn law_follow_not_past(pos: int, off: int, win: int)
    requires
        win > 0,
        follow_fits(pos, off, win),
    ensures
        follow(pos, off, win) <= pos < follow(pos, off, win) + win,
{
}

/// The lines a whole save writes: each row's text followed by a line feed.
pub open spec fn saved_lines(v: EditorView) -> Seq<Seq<u8>> {
    v.rows.map_values(|r: RowView| r.chars.push(10u8))
}

/// Preparing the rows for a save one at a time, in order, goes from the editor with the
/// first `k` rows prepared to the one with `k + 1`, and the bytes handed out so far grow
/// by the line of row `k`.
pub proof fn law_save_step(v: EditorView, k: int)
    requires
        0 <= k < v.rows.len(),
    ensures
        v.prepared_for_save(k).after_prepare_row(k) == v.prepared_for_save(k + 1),
        v.prepared_for_save(k).save_line(k) == v.save_line(k),
        v.save_bytes(k as nat) + v.prepared_for_save(k).save_line(k) == v.save_bytes(
            (k + 1) as nat,
        ),
{
    assert(v.prepared_for_save(k).after_prepare_row(k).rows =~= v.prepared_for_save(
        k + 1,
    ).rows);
}

/// The bytes of the first `k` rows are the first `k` saved lines, one after the other.
proof fn lemma_save_bytes_flatten(v: EditorView, k: int)
    requires
        0 <= k <= v.rows.len(),
    ensures
        v.save_bytes(k as nat) == saved_lines(v).take(k).flatten_alt(),
    decreases k,
{
    if k > 0 {
        lemma_save_bytes_flatten(v, k - 1);
        assert(saved_lines(v).take(k).drop_last() =~= saved_lines(v).take(k - 1));
    } else {
        assert(saved_lines(v).take(0) =~= Seq::<Seq<u8>>::empty());
    }
}

/// A whole save: starting from the editor itself and preparing every row in order
/// leaves every row ended by a line feed (render buffers untouched), hands out exactly
/// the rows' lines one after the other, and, once the write has gone through, marks the
/// text unmodified with the message "Written to disk". A failed write leaves the
/// modification mark as it was.
pub proof fn law_complete_save(v: EditorView)
    ensures
        v.prepared_for_save(0) == v,
        forall|i: int|
            0 <= i < v.rows.len() ==> #[trigger] v.prepared_for_save(v.rows.len() as int).rows[i]
                == (RowView { chars: v.rows[i].chars.push(10u8), render: v.rows[i].render }),
        v.prepared_for_save(v.rows.len() as int).rows.len() == v.rows.len(),
        v.save_bytes(v.rows.len()) == saved_lines(v).flatten(),
        !v.prepared_for_save(v.rows.len() as int).after_save(SaveOutcome::Written).dirty,
        v.prepared_for_save(v.rows.len() as int).after_save(SaveOutcome::Written).status
            == written_message(),
        v.after_save(SaveOutcome::Failed).dirty == v.dirty,
{
    assert(v.prepared_for_save(0).rows =~= v.rows);
    assert(v.prepared_for_save(0) =~= v);
    lemma_save_bytes_flatten(v, v.rows.len() as int);
    assert(saved_lines(v).take(v.rows.len() as int) =~= saved_lines(v));
    saved_lines(v).lemma_flatten_and_flatten_alt_are_equivalent();
}

/// The render position of the end of a rendered row is its terminating zero byte, and a
/// tab at column `x` is drawn as four spaces starting at the render position of `x`.
pub proof fn law_render_position_spans(chars: Seq<u8>, x: int)
    requires
        0 <= x <= chars.len(),
    ensures
        render_column(chars, chars.len() as int) == rendered(chars).len() - 1,
        rendered(chars)[render_column(chars, chars.len() as int)] == 0u8,
        x < chars.len() && chars[x] == TAB ==> forall|j: int|
            0 <= j < TAB_STOP ==> #[trigger] rendered(chars)[render_column(chars, x) + j]
                == 32u8,
{
    assert(chars.take(chars.len() as int) =~= chars);
    lemma_expand_len(chars);
    if x < chars.len() && chars[x] == TAB {
        lemma_expand_len(chars.take(x));
        lemma_expand_prefix(chars, x);
        let rest = chars.skip(x);
        lemma_expand_prefix(rest, 1);
        assert(rest.take(1).drop_last() =~= Seq::<u8>::empty());
        assert(expand_tabs(Seq::<u8>::empty()) =~= Seq::<u8>::empty());
        assert(rest.take(1).last() == chars[x]);
        assert(expand_tabs(rest.take(1)) =~= expand_byte(chars[x]));
        assert(expand_tabs(chars) =~= expand_tabs(chars.take(x)) + expand_byte(chars[x])
            + expand_tabs(rest.skip(1)));
        assert(rest.take(1) =~= seq![chars[x]]);
    }
}

/// With unsaved changes, `Ctrl-Q` quits exactly when the key handled just before it
/// was `Ctrl-Q` (byte 81); otherwise it keeps running, keeps the text marked modified and
/// shows the unsaved-changes warning. Any other key in between, a control key such as
/// `Ctrl-M` included, means a following `Ctrl-Q` only warns again.
pub proof fn law_quit_confirmation_is_the_previous_key(v: EditorView, other: EditorKey)
    requires
        v.dirty,
        other != EditorKey::Ctrl(81),
        other != EditorKey::Null,
        v.can_process_keypress(other),
    ensures
        (v.after_keypress(EditorKey::Ctrl(81)).1 == KeyAction::Quit) <==> (v.history.len() > 0
            && v.history[v.history.len() - 1] == EditorKey::Ctrl(81)),
        !(v.history.len() > 0 && v.history[v.history.len() - 1] == EditorKey::Ctrl(81)) ==> {
            let w = v.after_keypress(EditorKey::Ctrl(81)).0;
            &&& w.dirty
            &&& w.status
                == "WARNING!! File has unsaved changes. Press Ctrl-Q again to quit."@
            &&& w.rows == v.rows
            &&& w.cursor == v.cursor
        },
        v.after_keypress(other).0.dirty,
        v.after_keypress(other).0.after_keypress(EditorKey::Ctrl(81)).1 == KeyAction::Continue,
{
    let w = v.after_keypress(other).0;
    assert(w.history == v.after_keypress(other).0.history);
    assert(w.history.len() > 0 && w.history[w.history.len() - 1] == other);
}

/// Page Up puts the cursor on the first visible line, and Page Down on the last visible
/// line (`offset.y + window.y - 1`) or on the line after the text when that comes first;
/// the column is kept. So with at least one visible line, and the first visible line not
/// past the line after the text, Page Down never goes above the first visible line.
pub proof fn law_page_keys_follow_the_window(v: EditorView)
    ensures
        v.after_keypress(EditorKey::PageUp).0.cursor == (Position {
            x: v.cursor.x,
            y: v.offset.y,
        }),
        v.can_process_keypress(EditorKey::PageDown) ==> v.after_keypress(
            EditorKey::PageDown,
        ).0.cursor.x == v.cursor.x,
        v.can_process_keypress(EditorKey::PageDown) ==> v.after_keypress(
            EditorKey::PageDown,
        ).0.cursor.y == if v.offset.y + v.window.y - 1 <= v.rows.len() {
            v.offset.y + v.window.y - 1
        } else {
            v.rows.len() as int
        },
        v.can_process_keypress(EditorKey::PageDown) && v.window.y >= 1 && v.offset.y
            <= v.rows.len() ==> v.offset.y <= v.after_keypress(EditorKey::PageDown).0.cursor.y
            < v.offset.y + v.window.y,
        v.after_keypress(EditorKey::PageDown).0.rows == v.rows,
        v.after_keypress(EditorKey::PageUp).0.rows == v.rows,
{
}

/// A refresh ends by placing the terminal cursor at line `cursor.y - offset.y + 1` and
/// column `render_cursor.x - offset.x + 1` of the scrolled editor and showing it again;
/// that line lies within the window (between 1 and `window.y`) whenever the window has
/// at least one line, so the terminal cursor sits on the screen line where the cursor's
/// text line is drawn.
pub proof fn law_refresh_places_cursor_on_its_line(v: EditorView)
    requires
        v.can_refresh_screen(),
    ensures
        ({
            let s = v.scrolled();
            let tail = lit("\x1b[") + decimal((s.cursor.y - s.offset.y + 1) as nat) + lit(";")
                + decimal((s.render_cursor.x - s.offset.x + 1) as nat) + lit("H") + lit(
                "\x1b[?25h",
            );
            &&& s.frame().len() >= tail.len()
            &&& s.frame().subrange(s.frame().len() - tail.len(), s.frame().len() as int)
                == tail
            &&& v.window.y >= 1 ==> 1 <= s.cursor.y - s.offset.y + 1 <= v.window.y
            &&& v.window.x >= 1 ==> 1 <= s.render_cursor.x - s.offset.x + 1 <= v.window.x
        }),
{
    let s = v.scrolled();
    let tail = lit("\x1b[") + decimal((s.cursor.y - s.offset.y + 1) as nat) + lit(";")
        + decimal((s.render_cursor.x - s.offset.x + 1) as nat) + lit("H") + lit("\x1b[?25h");
    let head = s.buffer + lit("\x1b[?25l\x1b[H") + s.lines(s.window.y as nat) + s.status_bar();
    assert(s.frame() =~= head + tail);
    assert((head + tail).subrange(head.len() as int, (head + tail).len() as int) =~= tail);
}

/// Arrow Down from a row that has a row below moves to that row and keeps the column
/// when the row below is long enough, and otherwise goes to the end of the row below.
/// From the last row (or with no text) it does not move.
pub proof fn law_arrow_down_keeps_column(v: EditorView)
    requires
        v.fits_in_memory(),
    ensures
        v.cursor.y + 1 < v.rows.len() ==> v.after_move(EditorKey::ArrowDown).cursor == (
        Position {
            x: if v.cursor.x <= v.rows[v.cursor.y + 1].chars.len() {
                v.cursor.x
            } else {
                v.rows[v.cursor.y + 1].chars.len() as usize
            },
            y: (v.cursor.y + 1) as usize,
        }),
        v.cursor.y + 1 >= v.rows.len() ==> v.after_move(EditorKey::ArrowDown).cursor
            == v.cursor,
        v.after_move(EditorKey::ArrowDown).rows == v.rows,
{
}

/// Backspace at the start of a row other than the first removes that row, whatever it
/// holds: there is one row fewer, the row above holds its text without its last byte
/// followed by the removed row's text, the other rows keep their order, the cursor goes
/// to the old end of the row above, and the text is marked modified.
pub proof fn law_backspace_joins_rows(v: EditorView)
    requires
        v.cursor.x == 0,
        0 < v.cursor.y < v.rows.len(),
    ensures
        ({
            let y = v.cursor.y as int;
            let w = v.after_keypress(EditorKey::BackSpace).0;
            let above = v.rows[y - 1].chars;
            &&& w.rows.len() == v.rows.len() - 1
            &&& w.rows[y - 1].chars == (if above.len() > 0 {
                above.subrange(0, above.len() - 1)
            } else {
                above
            }) + v.rows[y].chars
            &&& forall|i: int| 0 <= i < y - 1 ==> #[trigger] w.rows[i] == v.rows[i]
            &&& forall|i: int| y <= i < w.rows.len() ==> #[trigger] w.rows[i] == v.rows[i + 1]
            &&& w.cursor == (Position { x: above.len() as usize, y: (y - 1) as usize })
            &&& w.dirty
        }),
{
    let y = v.cursor.y as int;
    let above = v.rows[y - 1].chars;
    if above.len() > 0 {
        assert(above.drop_last() =~= above.subrange(0, above.len() - 1));
    }
}

} // verus!
