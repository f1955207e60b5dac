use vstd::prelude::*;

use crate::key::EditorKey;
use crate::position::{sat_sub, Position};
use crate::row::{clamped_prefix, render_column, render_column_fits, rendered, EditorRow, RowView};
use crate::screen::{follow_checked, lemma_drawing_ignores_buffer};
use crate::text::{push_decimal, push_slice, push_spaces, push_str};

verus! {

/// What the caller has to do after a key press.
#[derive(Clone, Copy, Debug, PartialEq, Eq, Structural)]
pub enum KeyAction {
    /// Keep running.
    Continue,
    /// The editor may exit.
    Quit,
    /// Write the text to disk (see `save_file_name`, `prepare_row_for_save` and
    /// `finish_save`), then keep running.
    Save,
}

/// How a save ended.
#[derive(Clone, Copy, Debug, PartialEq, Eq, Structural)]
pub enum SaveOutcome {
    /// There is no file name, so nothing was written.
    NothingToWrite,
    /// Every row was written.
    Written,
    /// Creating or writing the file failed.
    Failed,
}

/// The state of the editor: the text, the cursor, the visible window and the status line.
pub struct Editor {
    pub(crate) append_buffer: Vec<u8>,
    pub(crate) cursor_position: Position,
    pub(crate) render_cursor_position: Position,
    pub(crate) rows: Vec<EditorRow>,
    pub(crate) offset: Position,
    pub(crate) window_size: Position,
    pub(crate) status_message: String,
    pub(crate) current_file_name: String,
    pub(crate) is_dirty: bool,
    pub(crate) e_key_history: Vec<EditorKey>,
}

/// The mathematical content of an editor.
#[verifier::ext_equal]
pub struct EditorView {
    pub rows: Seq<RowView>,
    pub cursor: Position,
    pub render_cursor: Position,
    pub offset: Position,
    pub window: Position,
    pub status: Seq<char>,
    pub file_name: Seq<char>,
    pub dirty: bool,
    pub history: Seq<EditorKey>,
    pub buffer: Seq<u8>,
}

impl View for Editor {
    type V = EditorView;

    closed spec fn view(&self) -> EditorView {
        EditorView {
            rows: self.rows@.map_values(|r: EditorRow| r@),
            cursor: self.cursor_position,
            render_cursor: self.render_cursor_position,
            offset: self.offset,
            window: self.window_size,
            status: self.status_message@,
            file_name: self.current_file_name@,
            dirty: self.is_dirty,
            history: self.e_key_history@,
            buffer: self.append_buffer@,
        }
    }
}

/// The status message shown when quitting with unsaved changes.
pub open spec fn unsaved_warning() -> Seq<char> {
    "WARNING!! File has unsaved changes. Press Ctrl-Q again to quit."@
}

/// The status message shown after a save that went through.
pub open spec fn written_message() -> Seq<char> {
    "Written to disk"@
}

/// The status message shown after a save that failed.
pub open spec fn save_error_message() -> Seq<char> {
    "Can not save! I/O Error"@
}

/// The file name of an editor that has not opened a file.
pub open spec fn no_name() -> Seq<char> {
    "[NO NAME]"@
}

/// The byte `b'Q'`: `Ctrl(b'Q')` quits.
pub open spec fn key_q() -> u8 {
    81
}

/// The byte `b'S'`: `Ctrl(b'S')` saves.
pub open spec fn key_s() -> u8 {
    83
}

/// A freshly made, empty row as `insert_row` stores it.
pub open spec fn empty_row() -> RowView {
    RowView { chars: Seq::<u8>::empty(), render: Seq::<u8>::empty() }.updated()
}

/// The editor for a terminal of `cols` columns and `lines` lines: two lines are kept
/// for the status bar and the message line.
pub open spec fn initial_view(cols: usize, lines: usize) -> EditorView {
    EditorView {
        rows: Seq::<RowView>::empty(),
        cursor: Position { x: 0, y: 0 },
        render_cursor: Position { x: 0, y: 0 },
        offset: Position { x: 0, y: 0 },
        window: Position { x: cols, y: (lines - 2) as usize },
        status: Seq::<char>::empty(),
        file_name: no_name(),
        dirty: false,
        history: Seq::<EditorKey>::empty(),
        buffer: Seq::<u8>::empty(),
    }
}

impl EditorView {
    /// Every length fits in a `usize`, as it does for an editor held in memory.
    pub open spec fn fits_in_memory(self) -> bool {
        &&& self.rows.len() <= usize::MAX
        &&& forall|i: int| 0 <= i < self.rows.len() ==> #[trigger] self.rows[i].chars.len()
            <= usize::MAX
    }

    /// The length of the text of row `y`.
    pub open spec fn row_len(self, y: int) -> int {
        self.rows[y].chars.len() as int
    }

    /// `insert_row(at, row)`: the row is placed before row `at` with a fresh render
    /// buffer, and the text counts as modified.
    pub open spec fn after_insert_row(self, at: int, row: RowView) -> EditorView {
        EditorView { rows: self.rows.insert(at, row.updated()), dirty: true, ..self }
    }

    /// Typing a byte does not panic: the cursor is on a row, inside or at the end of it,
    /// and the render cursor can still advance.
    pub open spec fn can_insert_char(self) -> bool {
        &&& self.cursor.y < self.rows.len()
        &&& self.rows[self.cursor.y as int].can_insert_at(self.cursor.x as int)
        &&& self.render_cursor.x < usize::MAX
    }

    /// Typing byte `c`: it goes into the current row before the cursor and both cursors
    /// move one column right.
    pub open spec fn after_insert_char(self, c: u8) -> EditorView {
        let y = self.cursor.y as int;
        EditorView {
            rows: self.rows.update(y, self.rows[y].after_insert(c, self.cursor.x as int)),
            cursor: Position { x: (self.cursor.x + 1) as usize, y: self.cursor.y },
            render_cursor: Position {
                x: (self.render_cursor.x + 1) as usize,
                y: self.render_cursor.y,
            },
            dirty: true,
            ..self
        }
    }

    /// Breaking the line does not panic: the cursor is on a row and, unless the row is
    /// empty, not past its end.
    pub open spec fn can_insert_newline(self) -> bool {
        &&& self.cursor.y < self.rows.len()
        &&& (self.row_len(self.cursor.y as int) == 0 || self.cursor.x <= self.row_len(
            self.cursor.y as int,
        ))
    }

    /// Breaking the line at the cursor: at the end of a row (or on an empty row) an empty
    /// row follows it; inside a row the bytes after the cursor move to a new row below.
    /// The cursor goes to the start of the next row.
    pub open spec fn after_insert_newline(self) -> EditorView {
        let y = self.cursor.y as int;
        let x = self.cursor.x as int;
        let row = self.rows[y];
        let next = Position { x: 0, y: (self.cursor.y + 1) as usize };
        if row.chars.len() == 0 || x == row.chars.len() {
            EditorView { cursor: next, ..self.after_insert_row(y + 1, empty_row()) }
        } else {
            let head = RowView { chars: row.chars.take(x), render: row.render }.updated();
            let tail = RowView { chars: row.chars.skip(x), render: Seq::<u8>::empty() };
            EditorView {
                cursor: next,
                ..(EditorView { rows: self.rows.update(y, head), ..self }).after_insert_row(
                    y + 1,
                    tail,
                )
            }
        }
    }

    /// Deleting backwards does not panic.
    pub open spec fn can_backspace(self) -> bool {
        if self.cursor.x >= 1 {
            &&& self.cursor.y < self.rows.len()
            &&& render_column_fits(
                self.rows[self.cursor.y as int].after_delete(self.cursor.x - 1).chars,
                self.cursor.x - 1,
            )
        } else {
            self.cursor.y == 0 || self.cursor.y < self.rows.len()
        }
    }

    /// Deleting backwards: inside a row the byte before the cursor goes; at the start of
    /// a row (other than the first) the row is joined to the one above, after the last
    /// byte of that row has been dropped, and the cursor goes to the old end of that row.
    /// At the very start of the text nothing happens.
    pub open spec fn after_backspace(self) -> EditorView {
        let y = self.cursor.y as int;
        let x = self.cursor.x as int;
        if x >= 1 {
            let row = self.rows[y].after_delete(x - 1);
            EditorView {
                rows: self.rows.update(y, row),
                cursor: Position { x: (x - 1) as usize, y: self.cursor.y },
                render_cursor: Position {
                    x: render_column(row.chars, x - 1) as usize,
                    y: self.render_cursor.y,
                },
                dirty: true,
                ..self
            }
        } else if y == 0 {
            self
        } else {
            let moved = self.rows[y];
            let above = self.rows[y - 1];
            EditorView {
                rows: self.rows.remove(y).update(y - 1, above.after_append(moved.chars)),
                cursor: Position { x: above.chars.len() as usize, y: (y - 1) as usize },
                dirty: true,
                ..self
            }
        }
    }

    /// The key recorded as the last one handled.
    pub open spec fn with_key(self, key: EditorKey) -> EditorView {
        EditorView { history: self.history.push(key), ..self }
    }

    /// The previous key handled was `Ctrl(b'Q')`.
    pub open spec fn last_key_was_quit(self) -> bool {
        self.history.len() > 0 && self.history.last() == EditorKey::Ctrl(key_q())
    }

    /// `process_keypress(key)` does not panic.
    pub open spec fn can_process_keypress(self, key: EditorKey) -> bool {
        match key {
            EditorKey::Enter => self.can_insert_newline(),
            EditorKey::Char(_) => self.can_insert_char(),
            EditorKey::BackSpace => self.can_backspace(),
            EditorKey::PageDown => 1 <= self.offset.y + self.window.y <= usize::MAX,
            EditorKey::End => self.cursor.y != self.rows.len(),
            _ => true,
        }
    }

    /// The editor after `process_keypress(key)`, and what the caller must do next.
    pub open spec fn after_keypress(self, key: EditorKey) -> (EditorView, KeyAction) {
        match key {
            EditorKey::Enter => (self.after_insert_newline().with_key(key), KeyAction::Continue),
            EditorKey::Char(c) => (self.after_insert_char(c).with_key(key), KeyAction::Continue),
            EditorKey::BackSpace => (self.after_backspace().with_key(key), KeyAction::Continue),
            EditorKey::PageUp => (
                EditorView {
                    cursor: Position { x: self.cursor.x, y: self.offset.y },
                    ..self
                }.with_key(key),
                KeyAction::Continue,
            ),
            EditorKey::PageDown => {
                let bottom = self.offset.y + self.window.y - 1;
                let y = if bottom > self.rows.len() {
                    self.rows.len() as int
                } else {
                    bottom
                };
                (
                    EditorView {
                        cursor: Position { x: self.cursor.x, y: y as usize },
                        ..self
                    }.with_key(key),
                    KeyAction::Continue,
                )
            },
            EditorKey::Ctrl(b) => if b == key_q() {
                if !self.dirty || self.last_key_was_quit() {
                    (self.with_key(key), KeyAction::Quit)
                } else {
                    (
                        EditorView { status: unsaved_warning(), ..self }.with_key(key),
                        KeyAction::Continue,
                    )
                }
            } else if b == key_s() {
                (self.with_key(key), KeyAction::Save)
            } else {
                (self.with_key(key), KeyAction::Continue)
            },
            EditorKey::Null => (self, KeyAction::Continue),
            _ => (self.with_key(key), KeyAction::Continue),
        }
    }

    /// The right-most column the cursor may reach on its row in `move_cursor`.
    pub open spec fn limit_x(self) -> int {
        if self.rows.len() == 0 || self.cursor.y == self.rows.len() {
            0
        } else {
            self.row_len(self.cursor.y as int)
        }
    }

    /// The lowest row the cursor may reach with the arrow keys.
    pub open spec fn limit_y(self) -> int {
        if self.rows.len() == 0 {
            0
        } else {
            self.rows.len() - 1
        }
    }

    /// `move_cursor(key)` does not panic: the cursor is not below the line after the last
    /// row, and the row it moves to exists.
    pub open spec fn can_move_cursor(self, key: EditorKey) -> bool {
        let y = self.cursor.y as int;
        &&& (self.rows.len() > 0 ==> y <= self.rows.len())
        &&& (key == EditorKey::ArrowLeft && self.cursor.x == 0 && y > 0 ==> y - 1
            < self.rows.len())
        &&& (key == EditorKey::ArrowUp && y != self.rows.len() ==> sat_sub(self.cursor.y, 1)
            < self.rows.len())
    }

    /// The cursor after an arrow key.
    pub open spec fn moved_cursor(self, key: EditorKey) -> Position {
        let x = self.cursor.x as int;
        let y = self.cursor.y as int;
        let up = sat_sub(self.cursor.y, 1) as int;
        match key {
            EditorKey::ArrowLeft => if x == 0 {
                if y > 0 {
                    Position { x: self.row_len(y - 1) as usize, y: (y - 1) as usize }
                } else {
                    self.cursor
                }
            } else {
                Position { x: (x - 1) as usize, y: self.cursor.y }
            },
            EditorKey::ArrowRight => if y >= self.limit_y() && x >= self.limit_x() {
                self.cursor
            } else if x < self.limit_x() {
                Position { x: (x + 1) as usize, y: self.cursor.y }
            } else {
                Position { x: 0, y: (y + 1) as usize }
            },
            EditorKey::ArrowUp => if self.rows.len() == y {
                Position { x: self.cursor.x, y: up as usize }
            } else if x > self.row_len(up) {
                Position { x: self.row_len(up) as usize, y: up as usize }
            } else {
                Position { x: self.cursor.x, y: up as usize }
            },
            EditorKey::ArrowDown => if y < self.limit_y() {
                let below = y + 1;
                Position {
                    x: if x > self.row_len(below) {
                        self.row_len(below) as usize
                    } else {
                        self.cursor.x
                    },
                    y: below as usize,
                }
            } else {
                self.cursor
            },
            _ => self.cursor,
        }
    }

    /// The editor after `move_cursor(key)`.
    pub open spec fn after_move(self, key: EditorKey) -> EditorView {
        EditorView { cursor: self.moved_cursor(key), ..self }
    }

    /// The editor after `open_file`: the lines follow the rows already there, each with a
    /// fresh render buffer; the file name is set and the text counts as unmodified.
    pub open spec fn after_open(self, name: Seq<char>, lines: Seq<Seq<u8>>) -> EditorView {
        EditorView {
            rows: self.rows + lines.map_values(
                |l: Seq<u8>| RowView { chars: l, render: rendered(l) },
            ),
            file_name: name,
            dirty: false,
            ..self
        }
    }

    /// The bytes a save writes for row `i`: its text and a line feed.
    pub open spec fn save_line(self, i: int) -> Seq<u8> {
        self.rows[i].chars.push(10u8)
    }

    /// The editor after `prepare_row_for_save(i)`: row `i` ends with a line feed and
    /// keeps its render buffer.
    pub open spec fn after_prepare_row(self, i: int) -> EditorView {
        EditorView {
            rows: self.rows.update(
                i,
                RowView { chars: self.save_line(i), render: self.rows[i].render },
            ),
            ..self
        }
    }

    /// The editor after the first `k` rows have been prepared for saving, in order.
    pub open spec fn prepared_for_save(self, k: int) -> EditorView {
        EditorView {
            rows: Seq::new(
                self.rows.len(),
                |i: int|
                    if i < k {
                        RowView { chars: self.save_line(i), render: self.rows[i].render }
                    } else {
                        self.rows[i]
                    },
            ),
            ..self
        }
    }

    /// The bytes written for the first `k` rows, one after the other.
    pub open spec fn save_bytes(self, k: nat) -> Seq<u8>
        decreases k,
    {
        if k == 0 {
            Seq::<u8>::empty()
        } else {
            self.save_bytes((k - 1) as nat) + self.save_line(k - 1)
        }
    }

    /// The editor after a save has ended with `outcome`.
    pub open spec fn after_save(self, outcome: SaveOutcome) -> EditorView {
        match outcome {
            SaveOutcome::NothingToWrite => EditorView { status: written_message(), ..self },
            SaveOutcome::Written => EditorView {
                status: written_message(),
                dirty: false,
                ..self
            },
            SaveOutcome::Failed => EditorView { status: save_error_message(), ..self },
        }
    }
}

impl Editor {
    /// An editor for a terminal of `cols` columns and `lines` lines.
    pub fn new(cols: usize, lines: usize) -> (e: Editor)
        requires
            lines >= 2,
        ensures
            e@ == initial_view(cols, lines),
    {
        let e = Editor {
            append_buffer: Vec::new(),
            cursor_position: Position::new(0, 0),
            render_cursor_position: Position::new(0, 0),
            rows: Vec::new(),
            offset: Position::new(0, 0),
            window_size: Position::new(cols, lines - 2),
            status_message: "".to_owned(),
            current_file_name: "[NO NAME]".to_owned(),
            is_dirty: false,
            e_key_history: Vec::new(),
        };
        proof {
            reveal_strlit("");
        }
        assert(e@.rows =~= Seq::<RowView>::empty());
        assert(e@.status =~= Seq::<char>::empty());
        e
    }

    /// Replaces the message shown below the status bar.
    pub fn set_status_message(&mut self, message: String)
        ensures
            final(self)@ == (EditorView { status: message@, ..old(self)@ }),
    {
        self.status_message = message;
    }

    /// Places `row` before row `at`, renders it and marks the text modified.
    fn insert_row(&mut self, at: usize, row: EditorRow)
        requires
            at <= old(self)@.rows.len(),
        ensures
            final(self)@ == old(self)@.after_insert_row(at as int, row@),
    {
        let ghost before = self.rows@;
        self.rows.insert(at, row);
        self.rows[at].update();
        assert(self.rows@.map_values(|r: EditorRow| r@) =~= before.map_values(
            |r: EditorRow| r@,
        ).insert(at as int, row@.updated()));
        self.is_dirty = true;
    }

    /// Appends the lines of a file as rows and takes its name; the text then counts as
    /// unmodified.
    pub fn open_file(&mut self, filename: String, lines: Vec<Vec<u8>>)
        ensures
            final(self)@ == old(self)@.after_open(filename@, lines@.map_values(|l: Vec<u8>| l@)),
    {
        self.current_file_name = filename;
        let ghost start = self@;
        let ghost texts = lines@.map_values(|l: Vec<u8>| l@);
        let mut lines = lines;
        let n = lines.len();
        let mut i: usize = 0;
        while i < n
            invariant
                0 <= i <= n,
                n == lines.len(),
                n == texts.len(),
                forall|j: int| i <= j < n ==> (#[trigger] lines@[j])@ == texts[j],
                self@.rows =~= start.rows + texts.take(i as int).map_values(
                    |l: Seq<u8>| RowView { chars: l, render: rendered(l) },
                ),
                self@.file_name == start.file_name,
                self@.cursor == start.cursor,
                self@.render_cursor == start.render_cursor,
                self@.offset == start.offset,
                self@.window == start.window,
                self@.status == start.status,
                self@.history == start.history,
                self@.buffer == start.buffer,
            decreases n - i,
        {
            let mut line: Vec<u8> = Vec::new();
            std::mem::swap(&mut line, &mut lines[i]);
            let ghost text = texts[i as int];
            assert(line@ == text);
            let at = self.rows.len();
            self.insert_row(at, EditorRow { chars: line, render: Vec::new() });
            assert(texts.take(i + 1) =~= texts.take(i as int).push(text));
            i = i + 1;
        }
        assert(texts.take(n as int) =~= texts);
        self.is_dirty = false;
    }
}


impl Editor {
    /// Puts byte `char` into the current row before the cursor.
    fn insert_char(&mut self, char: u8)
        requires
            old(self)@.can_insert_char(),
        ensures
            final(self)@ == old(self)@.after_insert_char(char),
    {
        let ghost before = self.rows@;
        let y = self.cursor_position.y;
        let x = self.cursor_position.x;
        assert(self.rows@[y as int]@ == self@.rows[y as int]);
        self.rows[y].insert_char(char, x);
        let new_len = self.rows[y].chars.len();
        assert(x < new_len);
        assert(self.rows@.map_values(|r: EditorRow| r@) =~= before.map_values(
            |r: EditorRow| r@,
        ).update(y as int, before[y as int]@.after_insert(char, x as int)));
        self.cursor_position.x = self.cursor_position.x + 1;
        self.render_cursor_position.x = self.render_cursor_position.x + 1;
        self.is_dirty = true;
    }

    /// Breaks the current row at the cursor and moves to the start of the next row.
    fn insert_newline(&mut self)
        requires
            old(self)@.can_insert_newline(),
        ensures
            final(self)@ == old(self)@.after_insert_newline(),
    {
        let y = self.cursor_position.y;
        let x = self.cursor_position.x;
        let _count = self.rows.len();
        assert(self.rows@[y as int]@ == self@.rows[y as int]);
        if self.rows[y].chars.len() == 0 {
            self.insert_row(y + 1, EditorRow { chars: Vec::new(), render: Vec::new() });
        } else if x == self.rows[y].chars.len() {
            self.insert_row(y + 1, EditorRow { chars: Vec::new(), render: Vec::new() });
        } else {
            let ghost before = self.rows@;
            let r = self.rows[y].split(x);
            if r.chars.len() != 0 {
                self.rows[y].update();
                assert(self.rows@.map_values(|r: EditorRow| r@) =~= before.map_values(
                    |r: EditorRow| r@,
                ).update(
                    y as int,
                    RowView {
                        chars: before[y as int].chars@.take(x as int),
                        render: before[y as int].render@,
                    }.updated(),
                ));
                self.insert_row(y + 1, r);
            }
        }
        self.cursor_position.x = 0;
        self.cursor_position.y = self.cursor_position.y + 1;
    }

    /// Deletes the byte before the cursor, or joins the current row to the one above.
    fn backspace(&mut self)
        requires
            old(self)@.can_backspace(),
        ensures
            final(self)@ == old(self)@.after_backspace(),
    {
        let ghost before = self.rows@;
        if self.cursor_position.x >= 1 {
            let y = self.cursor_position.y;
            let x = self.cursor_position.x;
            assert(self.rows@[y as int]@ == self@.rows[y as int]);
            self.rows[y].delete_char(x - 1);
            assert(self.rows@.map_values(|r: EditorRow| r@) =~= before.map_values(
                |r: EditorRow| r@,
            ).update(y as int, before[y as int]@.after_delete(x - 1)));
            self.cursor_position.x = x - 1;
            self.render_cursor_position.x = self.rows[y].render_position(x - 1);
        } else {
            if self.cursor_position.y == 0 {
                return ;
            }
            let y = self.cursor_position.y;
            assert(self.rows@[y - 1]@ == self@.rows[y - 1]);
            assert(self.rows@[y as int]@ == self@.rows[y as int]);
            let mut mv = self.rows.remove(y);
            self.cursor_position.y = y - 1;
            self.cursor_position.x = self.rows[y - 1].chars.len();
            self.rows[y - 1].append(&mut mv);
            self.rows[y - 1].update();
            assert(self.rows@.map_values(|r: EditorRow| r@) =~= before.map_values(
                |r: EditorRow| r@,
            ).remove(y as int).update(
                y - 1,
                before[y - 1]@.after_append(before[y as int].chars@),
            ));
        }
        self.is_dirty = true;
    }

    /// Handles a key press that edits the text or the editor state and says what the
    /// caller has to do next.
    pub fn process_keypress(&mut self, key: &EditorKey) -> (action: KeyAction)
        requires
            old(self)@.can_process_keypress(*key),
        ensures
            (final(self)@, action) == old(self)@.after_keypress(*key),
    {
        let mut action = KeyAction::Continue;
        match key {
            EditorKey::Enter => self.insert_newline(),
            EditorKey::Char(c) => self.insert_char(*c),
            EditorKey::BackSpace => self.backspace(),
            EditorKey::PageUp => self.cursor_position.y = self.offset.y,
            EditorKey::PageDown => {
                self.cursor_position.y = self.offset.y + self.window_size.y - 1;
                if self.cursor_position.y > self.rows.len() {
                    self.cursor_position.y = self.rows.len();
                }
            },
            EditorKey::End => {
                if self.cursor_position.y == self.rows.len() {
                    self.cursor_position.x = self.rows[self.cursor_position.y].chars.len();
                }
            },
            EditorKey::Ctrl(81) => {
                if self.is_dirty {
                    let n = self.e_key_history.len();
                    if n > 0 && matches!(self.e_key_history[n - 1], EditorKey::Ctrl(81)) {
                        action = KeyAction::Quit;
                    } else {
                        self.set_status_message(
                            "WARNING!! File has unsaved changes. Press Ctrl-Q again to quit.".to_owned(),
                        );
                    }
                } else {
                    action = KeyAction::Quit;
                }
            },
            EditorKey::Ctrl(83) => {
                action = KeyAction::Save;
            },
            EditorKey::Null => return KeyAction::Continue,
            _ => {},
        }
        self.e_key_history.push(*key);
        action
    }

    /// Moves the cursor for an arrow key; other keys leave it where it is.
    pub fn move_cursor(&mut self, key: &EditorKey)
        requires
            old(self)@.can_move_cursor(*key),
        ensures
            final(self)@ == old(self)@.after_move(*key),
    {
        let limit_x: usize;
        let limit_y: usize;
        let len = self.rows.len();
        let y = self.cursor_position.y;
        let x = self.cursor_position.x;
        if len == 0 {
            limit_x = 0;
            limit_y = 0;
        } else {
            limit_x = if y == len {
                0
            } else {
                assert(self.rows@[y as int]@ == self@.rows[y as int]);
                self.rows[y].chars.len()
            };
            limit_y = len - 1;
        }
        assert(limit_x == self@.limit_x());
        assert(limit_y == self@.limit_y());
        match key {
            EditorKey::ArrowLeft => {
                if x == 0 {
                    if y > 0 {
                        assert(self.rows@[y - 1]@ == self@.rows[y - 1]);
                        self.cursor_position.y = y - 1;
                        self.cursor_position.x = self.rows[y - 1].chars.len();
                    }
                } else {
                    self.cursor_position.sub_assign(Position::new(1, 0));
                }
            },
            EditorKey::ArrowRight => {
                if y >= limit_y && x >= limit_x {
                    return ;
                }
                if x < limit_x {
                    self.cursor_position.x = x + 1;
                } else {
                    self.cursor_position.y = y + 1;
                    self.cursor_position.x = 0;
                }
            },
            EditorKey::ArrowUp => {
                if len == y {
                    self.cursor_position.sub_assign(Position::new(0, 1));
                    return ;
                }
                let up = y.saturating_sub(1);
                assert(self.rows@[up as int]@ == self@.rows[up as int]);
                if x > self.rows[up].chars.len() {
                    self.cursor_position.x = self.rows[up].chars.len();
                    self.cursor_position.sub_assign(Position::new(0, 1));
                    return ;
                }
                self.cursor_position.sub_assign(Position::new(0, 1));
            },
            EditorKey::ArrowDown => {
                if y < limit_y {
                    self.cursor_position.y = y + 1;
                    assert(self.rows@[y + 1]@ == self@.rows[y + 1]);
                    if x > self.rows[y + 1].chars.len() {
                        self.cursor_position.x = self.rows[y + 1].chars.len();
                    }
                }
            },
            _ => {},
        }
    }
}

impl Editor {
    /// Recomputes the render cursor and moves the offset so that the cursor is in view.
    fn scroll(&mut self)
        requires
            old(self)@.can_scroll(),
        ensures
            final(self)@ == old(self)@.scrolled(),
    {
        self.render_cursor_position.x = 0;
        if self.cursor_position.y < self.rows.len() {
            assert(self.rows@[self.cursor_position.y as int]@ == self@.rows[self.cursor_position.y as int]);
            self.render_cursor_position.x = self.rows[self.cursor_position.y].render_position(
                self.cursor_position.x,
            );
        }
        if self.cursor_position.y < self.offset.y {
            self.offset.y = self.cursor_position.y;
        }
        if self.cursor_position.y >= self.offset.y + self.window_size.y {
            self.offset.y = self.cursor_position.y - self.window_size.y + 1;
        }
        if self.render_cursor_position.x < self.offset.x {
            self.offset.x = self.render_cursor_position.x;
        }
        if self.render_cursor_position.x >= self.offset.x + self.window_size.x {
            self.offset.x = self.render_cursor_position.x - self.window_size.x + 1;
        }
    }

    /// Appends screen line `i` of the text area to the output buffer.
    fn draw_line(&mut self, i: usize)
        requires
            old(self)@.can_draw_line(i as int),
        ensures
            final(self)@ == (EditorView {
                buffer: old(self)@.buffer + old(self)@.line(i as int),
                ..old(self)@
            }),
    {
        let ghost v = self@;
        push_str(&mut self.append_buffer, "\x1b[K");
        let file_row = i + self.offset.y;
        let count = self.rows.len();
        if file_row >= count {
            push_str(&mut self.append_buffer, "\x1b[48;5;236m~\x1b[m");
            if i >= count {
                if count == 0 && i == self.window_size.y / 3 {
                    let message = "riko editor -- version 0.0.1";
                    let padding = (self.window_size.x - message.len()) / 2;
                    push_spaces(&mut self.append_buffer, padding);
                    push_str(&mut self.append_buffer, message);
                }
            } else {
                assert(self.rows@[i as int]@ == v.rows[i as int]);
                let n = self.rows[i].chars.len();
                push_slice(&mut self.append_buffer, self.rows[i].chars.as_slice(), 0, n);
                assert(self.rows@[i as int].chars@.subrange(0, n as int) =~= v.rows[i as int].chars);
            }
        } else {
            assert(self.rows@[file_row as int]@ == v.rows[file_row as int]);
            let mut len = self.rows[file_row].render.len().saturating_sub(self.offset.x);
            if len > self.window_size.x {
                len = self.window_size.x;
            }
            let end = (self.offset.x + len).saturating_sub(1);
            push_slice(
                &mut self.append_buffer,
                self.rows[file_row].render.as_slice(),
                self.offset.x,
                end,
            );
        }
        push_str(&mut self.append_buffer, "\r\n");
        assert(self@.buffer =~= v.buffer + v.line(i as int));
    }

    /// Appends the text area, one line per window line, to the output buffer.
    pub fn draw_rows(&mut self)
        requires
            old(self)@.can_draw_rows(),
        ensures
            final(self)@ == (EditorView {
                buffer: old(self)@.buffer + old(self)@.lines(old(self)@.window.y as nat),
                ..old(self)@
            }),
    {
        let ghost v = self@;
        let n = self.window_size.y;
        for i in 0..n
            invariant
                n == v.window.y,
                v.can_draw_rows(),
                self@ == (EditorView { buffer: v.buffer + v.lines(i as nat), ..v }),
        {
            assert(v.can_draw_line(i as int));
            self.draw_line(i);
            assert(v.lines((i + 1) as nat) == v.lines(i as nat) + v.line(i as int));
            assert(self@.buffer =~= v.buffer + v.lines((i + 1) as nat));
        }
    }

    /// The text of the status bar.
    fn status_text(&self) -> (text: Vec<u8>)
        ensures
            text@ == self@.status_text(),
    {
        self.status_text_with(self.render_cursor_position.x)
    }

    /// The text of the status bar as it reads with the render cursor at column `render_x`.
    fn status_text_with(&self, render_x: usize) -> (text: Vec<u8>)
        ensures
            text@ == (EditorView {
                render_cursor: Position { x: render_x, y: self@.render_cursor.y },
                ..self@
            }).status_text(),
    {
        let ghost w = EditorView {
            render_cursor: Position { x: render_x, y: self@.render_cursor.y },
            ..self@
        };
        let mut text: Vec<u8> = Vec::new();
        push_str(&mut text, self.current_file_name.as_str());
        if self.is_dirty {
            push_str(&mut text, "(modified)");
        }
        push_str(&mut text, ": (cx");
        push_decimal(&mut text, self.cursor_position.x);
        push_str(&mut text, ", cy");
        push_decimal(&mut text, self.cursor_position.y);
        push_str(&mut text, "): (rcx");
        push_decimal(&mut text, render_x);
        push_str(&mut text, ", rcy");
        push_decimal(&mut text, self.render_cursor_position.y);
        push_str(&mut text, "): lc:");
        push_decimal(&mut text, self.rows.len());
        assert(text@ =~= w.status_text());
        text
    }

    /// Appends the status bar and the message line to the output buffer.
    fn draw_status_bar(&mut self)
        requires
            old(self)@.can_draw_status_bar(),
        ensures
            final(self)@ == (EditorView {
                buffer: old(self)@.buffer + old(self)@.status_bar(),
                ..old(self)@
            }),
    {
        let ghost v = self@;
        push_str(&mut self.append_buffer, "\x1b[48;5;245m");
        let text = self.status_text();
        let n = text.len();
        push_slice(&mut self.append_buffer, text.as_slice(), 0, n);
        assert(text@.subrange(0, n as int) =~= text@);
        push_spaces(&mut self.append_buffer, self.window_size.x - n);
        push_str(&mut self.append_buffer, "\x1b[m");
        push_str(&mut self.append_buffer, "\r\n");
        push_str(&mut self.append_buffer, "\x1b[K");
        push_str(&mut self.append_buffer, self.status_message.as_str());
        assert(self@.buffer =~= v.buffer + v.status_bar());
    }

    /// Scrolls, draws the whole screen, and hands back the bytes to send to the terminal;
    /// the output buffer is left empty.
    #[verifier::rlimit(40)]
    pub fn refresh_screen(&mut self) -> (out: Vec<u8>)
        requires
            old(self)@.can_refresh_screen(),
        ensures
            out@ == old(self)@.scrolled().frame(),
            final(self)@ == (EditorView { buffer: Seq::<u8>::empty(), ..old(self)@.scrolled() }),
            final(self)@.window.y > 0 ==> final(self)@.offset.y <= final(self)@.cursor.y
                < final(self)@.offset.y + final(self)@.window.y,
            final(self)@.window.x > 0 ==> final(self)@.offset.x <= final(self)@.render_cursor.x
                < final(self)@.offset.x + final(self)@.window.x,
    {
        let ghost v = self@;
        self.scroll();
        let ghost s = self@;
        push_str(&mut self.append_buffer, "\x1b[?25l\x1b[H");
        proof {
            lemma_drawing_ignores_buffer(s, self@.buffer, s.window.y as nat);
        }
        self.draw_rows();
        let ghost s2 = self@;
        proof {
            lemma_drawing_ignores_buffer(s, s2.buffer, s.window.y as nat);
        }
        self.draw_status_bar();
        let ghost s3 = self@;
        proof {
            lemma_drawing_ignores_buffer(s, s3.buffer, s.window.y as nat);
        }
        push_str(&mut self.append_buffer, "\x1b[");
        push_decimal(&mut self.append_buffer, self.cursor_position.y - self.offset.y + 1);
        push_str(&mut self.append_buffer, ";");
        push_decimal(&mut self.append_buffer, self.render_cursor_position.x - self.offset.x + 1);
        push_str(&mut self.append_buffer, "H");
        push_str(&mut self.append_buffer, "\x1b[?25h");
        assert(self@.buffer =~= s.frame());
        let mut out: Vec<u8> = Vec::new();
        std::mem::swap(&mut out, &mut self.append_buffer);
        out
    }
}

impl Editor {
    /// The name to save under, or `None` when the editor has no file name.
    pub fn save_file_name(&self) -> (name: Option<String>)
        ensures
            name is None <==> self@.file_name.len() == 0,
            name matches Some(n) ==> n@ == self@.file_name,
    {
        if self.current_file_name.as_str().is_empty() {
            None
        } else {
            Some(self.current_file_name.clone())
        }
    }

    /// Ends row `i` with a line feed, as a save does, and returns the bytes to write for
    /// it. The row's render buffer is left as it was.
    pub fn prepare_row_for_save(&mut self, i: usize) -> (bytes: Vec<u8>)
        requires
            i < old(self)@.rows.len(),
        ensures
            bytes@ == old(self)@.save_line(i as int),
            final(self)@ == old(self)@.after_prepare_row(i as int),
    {
        let ghost before = self.rows@;
        assert(self.rows@[i as int]@ == self@.rows[i as int]);
        self.rows[i].chars.push(10);
        assert(self.rows@.map_values(|r: EditorRow| r@) =~= before.map_values(
            |r: EditorRow| r@,
        ).update(
            i as int,
            RowView { chars: before[i as int].chars@.push(10u8), render: before[i as int].render@ },
        ));
        let n = self.rows[i].chars.len();
        let mut bytes: Vec<u8> = Vec::new();
        push_slice(&mut bytes, self.rows[i].chars.as_slice(), 0, n);
        assert(bytes@ =~= self.rows@[i as int].chars@);
        bytes
    }

    /// Records how a save ended: the status message says so, and a complete write marks
    /// the text unmodified.
    pub fn finish_save(&mut self, outcome: SaveOutcome)
        ensures
            final(self)@ == old(self)@.after_save(outcome),
    {
        match outcome {
            SaveOutcome::NothingToWrite => self.set_status_message("Written to disk".to_owned()),
            SaveOutcome::Written => {
                self.is_dirty = false;
                self.set_status_message("Written to disk".to_owned());
            },
            SaveOutcome::Failed => self.set_status_message("Can not save! I/O Error".to_owned()),
        }
    }
}

impl Editor {
    /// Whether typing a byte can be handled without panicking.
    fn can_insert_char(&self) -> (r: bool)
        ensures
            r == self@.can_insert_char(),
    {
        let y = self.cursor_position.y;
        if y >= self.rows.len() {
            return false;
        }
        assert(self.rows@[y as int]@ == self@.rows[y as int]);
        self.rows[y].can_insert_at(self.cursor_position.x) && self.render_cursor_position.x
            < usize::MAX
    }

    /// Whether deleting backwards can be handled without panicking.
    fn can_backspace(&self) -> (r: bool)
        ensures
            r == self@.can_backspace(),
    {
        let y = self.cursor_position.y;
        let x = self.cursor_position.x;
        if x >= 1 {
            if y >= self.rows.len() {
                return false;
            }
            assert(self.rows@[y as int]@ == self@.rows[y as int]);
            let ghost row = self@.rows[y as int];
            let ghost after = row.after_delete(x - 1);
            assert(clamped_prefix(after.chars, x - 1) =~= clamped_prefix(row.chars, x - 1));
            self.rows[y].render_position_fits(x - 1)
        } else {
            y == 0 || y < self.rows.len()
        }
    }

    /// Whether `process_keypress(key)` can run without panicking.
    pub fn can_process_keypress(&self, key: &EditorKey) -> (r: bool)
        ensures
            r == self@.can_process_keypress(*key),
    {
        match key {
            EditorKey::Enter => {
                let y = self.cursor_position.y;
                if y >= self.rows.len() {
                    return false;
                }
                assert(self.rows@[y as int]@ == self@.rows[y as int]);
                let n = self.rows[y].chars.len();
                n == 0 || self.cursor_position.x <= n
            },
            EditorKey::Char(_) => self.can_insert_char(),
            EditorKey::BackSpace => self.can_backspace(),
            EditorKey::PageDown => {
                let total = self.offset.y as u128 + self.window_size.y as u128;
                1 <= total && total <= usize::MAX as u128
            },
            EditorKey::End => self.cursor_position.y != self.rows.len(),
            _ => true,
        }
    }

    /// Whether `move_cursor(key)` can run without panicking.
    pub fn can_move_cursor(&self, key: &EditorKey) -> (r: bool)
        ensures
            r == self@.can_move_cursor(*key),
    {
        let len = self.rows.len();
        let y = self.cursor_position.y;
        if len > 0 && y > len {
            return false;
        }
        match key {
            EditorKey::ArrowLeft => !(self.cursor_position.x == 0 && y > 0) || y - 1 < len,
            EditorKey::ArrowUp => y == len || y.saturating_sub(1) < len,
            _ => true,
        }
    }

    /// Whether screen line `i` can be drawn with the offset at (`off_x`, `off_y`).
    fn can_draw_line_at(&self, i: usize, off_x: usize, off_y: usize) -> (r: bool)
        ensures
            r == (EditorView { offset: Position { x: off_x, y: off_y }, ..self@ }).can_draw_line(
                i as int,
            ),
    {
        let ghost w = EditorView { offset: Position { x: off_x, y: off_y }, ..self@ };
        if i > usize::MAX - off_y {
            return false;
        }
        let file_row = i + off_y;
        let count = self.rows.len();
        if file_row < count {
            assert(self.rows@[file_row as int]@ == w.rows[file_row as int]);
            let mut len = self.rows[file_row].render.len().saturating_sub(off_x);
            if len > self.window_size.x {
                len = self.window_size.x;
            }
            assert(len == w.visible_len(file_row as int));
            !(off_x > 0) || len >= 1
        } else {
            let message = "riko editor -- version 0.0.1";
            let ml = message.as_bytes().len();
            !(count == 0 && i == self.window_size.y / 3) || self.window_size.x >= ml
        }
    }

    /// Whether `refresh_screen` can run without panicking.
    pub fn can_refresh_screen(&self) -> (r: bool)
        ensures
            r == self@.can_refresh_screen(),
    {
        let ghost v = self@;
        let y = self.cursor_position.y;
        let render_x: usize;
        if y < self.rows.len() {
            assert(self.rows@[y as int]@ == v.rows[y as int]);
            if !self.rows[y].render_position_fits(self.cursor_position.x) {
                return false;
            }
            render_x = self.rows[y].render_position(self.cursor_position.x);
        } else {
            render_x = 0;
        }
        let off_y = match follow_checked(y, self.offset.y, self.window_size.y) {
            Some(o) => o,
            None => return false,
        };
        let off_x = match follow_checked(render_x, self.offset.x, self.window_size.x) {
            Some(o) => o,
            None => return false,
        };
        let ghost s = v.scrolled();
        let ghost w = EditorView { offset: Position { x: off_x, y: off_y }, ..v };
        assert(s == EditorView {
            render_cursor: Position { x: render_x, y: v.render_cursor.y },
            ..w
        });
        let n = self.window_size.y;
        for i in 0..n
            invariant
                n == v.window.y,
                self@ == v,
                w == (EditorView { offset: Position { x: off_x, y: off_y }, ..v }),
                s == (EditorView {
                    render_cursor: Position { x: render_x, y: v.render_cursor.y },
                    ..w
                }),
                s == v.scrolled(),
                forall|j: int| 0 <= j < i ==> #[trigger] s.can_draw_line(j),
        {
            if !self.can_draw_line_at(i, off_x, off_y) {
                assert(!s.can_draw_line(i as int));
                return false;
            }
            assert(s.can_draw_line(i as int));
        }
        assert(s.can_draw_rows());
        let text = self.status_text_with(render_x);
        assert(text@ == s.status_text());
        if text.len() > self.window_size.x {
            return false;
        }
        off_y <= y && y - off_y < usize::MAX && off_x <= render_x && render_x - off_x
            < usize::MAX
    }
}

impl Editor {
    /// The number of rows of text; every length in the editor fits in a `usize`.
    pub fn row_count(&self) -> (n: usize)
        ensures
            n == self@.rows.len(),
            self@.fits_in_memory(),
    {
        let n = self.rows.len();
        for i in 0..n
            invariant
                n == self.rows@.len(),
                forall|j: int| 0 <= j < i ==> #[trigger] self@.rows[j].chars.len() <= usize::MAX,
        {
            let _len = self.rows[i].chars.len();
            assert(self@.rows[i as int] == self.rows@[i as int]@);
        }
        n
    }

    /// Row `i` of the text.
    pub fn row(&self, i: usize) -> (r: &EditorRow)
        requires
            i < self@.rows.len(),
        ensures
            r@ == self@.rows[i as int],
    {
        &self.rows[i]
    }

    /// Where the cursor is in the text (column, row).
    pub fn cursor_position(&self) -> (p: Position)
        ensures
            p == self@.cursor,
    {
        self.cursor_position
    }

    /// The screen column of the cursor as last computed.
    pub fn render_cursor_position(&self) -> (p: Position)
        ensures
            p == self@.render_cursor,
    {
        self.render_cursor_position
    }

    /// The first visible column and row.
    pub fn offset(&self) -> (p: Position)
        ensures
            p == self@.offset,
    {
        self.offset
    }

    /// The size of the text area (columns, lines).
    pub fn window_size(&self) -> (p: Position)
        ensures
            p == self@.window,
    {
        self.window_size
    }

    /// The message shown below the status bar.
    pub fn status_message(&self) -> (m: &String)
        ensures
            m@ == self@.status,
    {
        &self.status_message
    }

    /// The name of the file being edited.
    pub fn file_name(&self) -> (m: &String)
        ensures
            m@ == self@.file_name,
    {
        &self.current_file_name
    }

    /// Whether the text has changed since it was opened or saved.
    pub fn is_dirty(&self) -> (d: bool)
        ensures
            d == self@.dirty,
    {
        self.is_dirty
    }

    /// The keys handled so far, oldest first.
    pub fn key_history(&self) -> (h: &Vec<EditorKey>)
        ensures
            h@ == self@.history,
    {
        &self.e_key_history
    }
}
} // verus!
