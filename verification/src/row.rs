use vstd::prelude::*;

verus! {

/// Number of screen columns a tab character occupies when rendered.
pub const TAB_STOP: usize = 4;

/// The byte value of a horizontal tab.
pub const TAB: u8 = 9;

/// What one byte of text becomes on screen: a tab turns into `TAB_STOP` spaces,
/// every other byte is shown as itself.
pub open spec fn expand_byte(b: u8) -> Seq<u8> {
    if b == TAB {
        seq![32u8, 32u8, 32u8, 32u8]
    } else {
        seq![b]
    }
}

/// The on-screen form of a line of text: each byte expanded by `expand_byte`.
pub open spec fn expand_tabs(s: Seq<u8>) -> Seq<u8>
    decreases s.len(),
{
    if s.len() == 0 {
        Seq::<u8>::empty()
    } else {
        expand_tabs(s.drop_last()) + expand_byte(s.last())
    }
}

/// Number of tab bytes in `s`.
pub open spec fn tab_count(s: Seq<u8>) -> nat
    decreases s.len(),
{
    if s.len() == 0 {
        0
    } else {
        tab_count(s.drop_last()) + if s.last() == TAB {
            1nat
        } else {
            0nat
        }
    }
}

/// The render buffer that `update` builds from the text of a row: the expanded text
/// followed by a terminating zero byte.
pub open spec fn rendered(chars: Seq<u8>) -> Seq<u8> {
    expand_tabs(chars).push(0u8)
}

/// The text prefix that `render_position` inspects: the first `x` bytes, or the whole
/// text when `x` lies past its end.
pub open spec fn clamped_prefix(chars: Seq<u8>, x: int) -> Seq<u8> {
    if chars.len() < x {
        chars
    } else {
        chars.take(x)
    }
}

/// The screen column of text column `x`: every tab before it widens the line by
/// `TAB_STOP - 1` columns.
pub open spec fn render_column(chars: Seq<u8>, x: int) -> int {
    x + (TAB_STOP - 1) * tab_count(clamped_prefix(chars, x))
}

/// `render_position` computes `x + TAB_STOP * tabs - tabs` in machine integers;
/// this holds when the intermediate sum fits in a `usize`.
pub open spec fn render_column_fits(chars: Seq<u8>, x: int) -> bool {
    x + TAB_STOP * tab_count(clamped_prefix(chars, x)) <= usize::MAX
}

/// A line of text together with its rendered (tab-expanded) form.
pub struct EditorRow {
    pub chars: Vec<u8>,
    pub render: Vec<u8>,
}

/// The mathematical content of a row.
#[verifier::ext_equal]
pub struct RowView {
    pub chars: Seq<u8>,
    pub render: Seq<u8>,
}

impl View for EditorRow {
    type V = RowView;

    open spec fn view(&self) -> RowView {
        RowView { chars: self.chars@, render: self.render@ }
    }
}

impl RowView {
    /// The row with its render buffer rebuilt from its text.
    pub open spec fn updated(self) -> RowView {
        RowView { chars: self.chars, render: rendered(self.chars) }
    }

    /// The row is displayed consistently with its text.
    pub open spec fn is_rendered(self) -> bool {
        self.render == rendered(self.chars)
    }

    /// `insert_char` does not panic: the position is inside the text (or at its end),
    /// the screen column fits in a `usize`, and it lies within the render buffer.
    pub open spec fn can_insert_at(self, at: int) -> bool {
        &&& 0 <= at <= self.chars.len()
        &&& render_column_fits(self.chars, at)
        &&& render_column(self.chars, at) <= self.render.len()
    }

    /// The row after `insert_char(c, at)`.
    pub open spec fn after_insert(self, c: u8, at: int) -> RowView {
        RowView { chars: self.chars.insert(at, c), render: self.render }.updated()
    }

    /// The row after `delete_char(at)`: positions past the end change nothing.
    pub open spec fn after_delete(self, at: int) -> RowView {
        if at < self.chars.len() {
            RowView { chars: self.chars.remove(at), render: self.render }.updated()
        } else {
            self
        }
    }

    /// The row after `append(other)`: its last byte is dropped (if any), the other
    /// row's text is added, and the render buffer is rebuilt.
    pub open spec fn after_append(self, other: Seq<u8>) -> RowView {
        let kept = if self.chars.len() > 0 {
            self.chars.drop_last()
        } else {
            self.chars
        };
        RowView { chars: kept + other, render: self.render }.updated()
    }
}

/// The expanded form of a sequence is as long as the sequence plus three columns per tab.
pub proof fn lemma_expand_len(s: Seq<u8>)
    ensures
        expand_tabs(s).len() == s.len() + (TAB_STOP - 1) * tab_count(s),
    decreases s.len(),
{
    if s.len() > 0 {
        lemma_expand_len(s.drop_last());
    }
}

/// Expanding a prefix gives a prefix of the expansion.
pub proof fn lemma_expand_prefix(s: Seq<u8>, k: int)
    requires
        0 <= k <= s.len(),
    ensures
        expand_tabs(s.take(k)).len() <= expand_tabs(s).len(),
        expand_tabs(s) =~= expand_tabs(s.take(k)) + expand_tabs(s.skip(k)),
    decreases s.len(),
{
    if k == s.len() {
        assert(s.take(k) =~= s);
        assert(s.skip(k) =~= Seq::<u8>::empty());
    } else {
        lemma_expand_prefix(s.drop_last(), k);
        assert(s.drop_last().take(k) =~= s.take(k));
        assert(s.skip(k).drop_last() =~= s.drop_last().skip(k));
        assert(s.skip(k).last() == s.last());
        assert(expand_tabs(s.skip(k)) =~= expand_tabs(s.skip(k).drop_last()) + expand_byte(
            s.last(),
        ));
    }
}

impl EditorRow {
    /// Rebuilds the render buffer from the text.
    pub fn update(&mut self)
        ensures
            final(self)@ == old(self)@.updated(),
    {
        self.render = Vec::new();
        let n = self.chars.len();
        for c in 0..n
            invariant
                n == self.chars.len(),
                self.chars@ == old(self).chars@,
                self.render@ == expand_tabs(self.chars@.take(c as int)),
        {
            assert(self.chars@.take(c + 1).drop_last() =~= self.chars@.take(c as int));
            if self.chars[c] == TAB {
                self.render.push(32);
                self.render.push(32);
                self.render.push(32);
                self.render.push(32);
            } else {
                self.render.push(self.chars[c]);
            }
        }
        assert(self.chars@.take(n as int) =~= self.chars@);
        self.render.push(0);
    }
}


impl EditorRow {
    /// The screen column at which text column `cursor_x` is drawn.
    pub fn render_position(&self, cursor_x: usize) -> (r: usize)
        requires
            render_column_fits(self.chars@, cursor_x as int),
        ensures
            r == render_column(self.chars@, cursor_x as int),
    {
        let tabs = self.tabs_before(cursor_x);
        cursor_x + (TAB_STOP * tabs) - tabs
    }

    /// The number of tabs among the first `cursor_x` bytes of the text.
    pub fn tabs_before(&self, cursor_x: usize) -> (tabs: usize)
        ensures
            tabs == tab_count(clamped_prefix(self.chars@, cursor_x as int)),
            tabs <= self.chars@.len(),
    {
        let limit: usize;
        if self.chars.len() < cursor_x {
            limit = self.chars.len();
        } else {
            limit = cursor_x;
        }
        let ghost prefix = clamped_prefix(self.chars@, cursor_x as int);
        assert(prefix =~= self.chars@.take(limit as int));
        let mut tabs: usize = 0;
        for i in 0..limit
            invariant
                limit <= self.chars.len(),
                tabs == tab_count(self.chars@.take(i as int)),
                tabs <= i,
        {
            assert(self.chars@.take(i + 1).drop_last() =~= self.chars@.take(i as int));
            if self.chars[i] == TAB {
                tabs = tabs + 1;
            }
        }
        tabs
    }

    /// Whether `render_position(cursor_x)` can be computed without overflow.
    pub fn render_position_fits(&self, cursor_x: usize) -> (r: bool)
        ensures
            r == render_column_fits(self.chars@, cursor_x as int),
    {
        let tabs = self.tabs_before(cursor_x);
        tabs <= (usize::MAX - cursor_x) / TAB_STOP
    }

    /// Whether `insert_char(_, at)` can run without panicking.
    pub fn can_insert_at(&self, at: usize) -> (r: bool)
        ensures
            r == self@.can_insert_at(at as int),
    {
        if at > self.chars.len() || !self.render_position_fits(at) {
            return false;
        }
        self.render_position(at) <= self.render.len()
    }

    /// Inserts byte `char` into the text before position `at` and re-renders the row.
    pub fn insert_char(&mut self, char: u8, at: usize)
        requires
            old(self)@.can_insert_at(at as int),
        ensures
            final(self)@ == old(self)@.after_insert(char, at as int),
    {
        let ghost before = self.chars@;
        self.chars.insert(at, char);
        assert(self.chars@.take(at as int) =~= before.take(at as int));
        assert(clamped_prefix(self.chars@, at as int) =~= clamped_prefix(before, at as int));
        let p = self.render_position(at);
        assert(p == render_column(old(self).chars@, at as int));
        self.render.insert(p, char);
        self.update();
    }

    /// Removes the byte at position `at`, if there is one, and re-renders the row.
    pub fn delete_char(&mut self, at: usize)
        ensures
            final(self)@ == old(self)@.after_delete(at as int),
    {
        if self.chars.len() > at {
            self.chars.remove(at);
            self.update();
        }
    }

    /// Drops the last byte of this row, adds the text of `append_row`, and re-renders.
    pub fn append(&mut self, append_row: &mut Self)
        ensures
            final(self)@ == old(self)@.after_append(old(append_row).chars@),
            final(append_row)@ == old(append_row)@,
    {
        self.chars.pop();
        let ghost kept = self.chars@;
        let n = append_row.chars.len();
        for i in 0..n
            invariant
                n == append_row.chars.len(),
                append_row@ == old(append_row)@,
                self.chars@ == kept + append_row.chars@.take(i as int),
        {
            assert(append_row.chars@.take(i + 1) =~= append_row.chars@.take(i as int).push(
                append_row.chars@[i as int],
            ));
            self.chars.push(append_row.chars[i]);
        }
        assert(append_row.chars@.take(n as int) =~= append_row.chars@);
        self.update();
    }

    /// Cuts the text at `at`: this row keeps the bytes before it (its render buffer is
    /// left as it was) and the returned row holds the rest, with an empty render buffer.
    pub fn split(&mut self, at: usize) -> (rest: Self)
        requires
            at <= old(self).chars@.len(),
        ensures
            final(self).chars@ == old(self).chars@.take(at as int),
            final(self).render@ == old(self).render@,
            rest.chars@ == old(self).chars@.skip(at as int),
            rest.render@ == Seq::<u8>::empty(),
    {
        EditorRow { chars: self.chars.split_off(at), render: Vec::new() }
    }
}

} // verus!
