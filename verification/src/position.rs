use vstd::prelude::*;

verus! {

/// `a + b`, or `usize::MAX` when the sum does not fit.
pub open spec fn sat_add(a: usize, b: usize) -> usize {
    if a + b > usize::MAX {
        usize::MAX
    } else {
        (a + b) as usize
    }
}

/// `a - b`, or zero when `b` is larger.
pub open spec fn sat_sub(a: usize, b: usize) -> usize {
    if a < b {
        0
    } else {
        (a - b) as usize
    }
}

/// A column/row pair on the screen or in the text.
#[derive(Clone, Copy, Debug, PartialEq, Eq, Structural)]
pub struct Position {
    pub x: usize,
    pub y: usize,
}

impl Position {
    pub fn new(x: usize, y: usize) -> (p: Position)
        ensures
            p == (Position { x, y }),
    {
        Position { x, y }
    }

    /// Component-wise saturating sum.
    pub open spec fn plus(self, rhs: Position) -> Position {
        Position { x: sat_add(self.x, rhs.x), y: sat_add(self.y, rhs.y) }
    }

    /// Component-wise saturating difference.
    pub open spec fn minus(self, rhs: Position) -> Position {
        Position { x: sat_sub(self.x, rhs.x), y: sat_sub(self.y, rhs.y) }
    }
}

impl core::ops::Add<Position> for Position {
    type Output = Position;

    fn add(self, rhs: Position) -> (r: Position) {
        let ret_x = self.x.saturating_add(rhs.x);
        let ret_y = self.y.saturating_add(rhs.y);
        Position { x: ret_x, y: ret_y }
    }
}

impl vstd::std_specs::ops::AddSpecImpl<Position> for Position {
    open spec fn obeys_add_spec() -> bool {
        true
    }

    open spec fn add_req(self, rhs: Position) -> bool {
        true
    }

    open spec fn add_spec(self, rhs: Position) -> Position {
        self.plus(rhs)
    }
}

impl core::ops::Sub<Position> for Position {
    type Output = Position;

    fn sub(self, rhs: Position) -> (r: Position) {
        let ret_x = self.x.saturating_sub(rhs.x);
        let ret_y = self.y.saturating_sub(rhs.y);
        Position { x: ret_x, y: ret_y }
    }
}

impl vstd::std_specs::ops::SubSpecImpl<Position> for Position {
    open spec fn obeys_sub_spec() -> bool {
        true
    }

    open spec fn sub_req(self, rhs: Position) -> bool {
        true
    }

    open spec fn sub_spec(self, rhs: Position) -> Position {
        self.minus(rhs)
    }
}

impl Position {
    /// `self += rhs`, saturating in each component.
    pub fn add_assign(&mut self, rhs: Position)
        ensures
            *final(self) == old(self).plus(rhs),
    {
        *self = Position { x: self.x.saturating_add(rhs.x), y: self.y.saturating_add(rhs.y) };
    }

    /// `self -= rhs`, saturating at zero in each component.
    pub fn sub_assign(&mut self, rhs: Position)
        ensures
            *final(self) == old(self).minus(rhs),
    {
        *self = Position { x: self.x.saturating_sub(rhs.x), y: self.y.saturating_sub(rhs.y) };
    }
}

impl core::ops::AddAssign<Position> for Position {
    fn add_assign(&mut self, rhs: Position)
        ensures
            *final(self) == old(self).plus(rhs),
    {
        Position::add_assign(self, rhs);
    }
}

impl core::ops::SubAssign<Position> for Position {
    fn sub_assign(&mut self, rhs: Position)
        ensures
            *final(self) == old(self).minus(rhs),
    {
        Position::sub_assign(self, rhs);
    }
}

/// Adding and then taking away the same offset gives back the position, as long as the
/// sum did not saturate.
pub proof fn lemma_add_then_sub(p: Position, d: Position)
    requires
        p.x + d.x <= usize::MAX,
        p.y + d.y <= usize::MAX,
    ensures
        p.plus(d).minus(d) == p,
{
}

} // verus!
