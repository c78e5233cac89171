//! Turning pressed keys into signed movement and rotation intents.

use vstd::prelude::*;

verus! {

/// The signed value of one axis controlled by two opposing keys:
/// the negative key contributes -1, the positive key +1, and the two cancel.
pub open spec fn axis_value(negative: bool, positive: bool) -> int {
    (if positive { 1int } else { 0int }) - (if negative { 1int } else { 0int })
}

/// Executable form of [`axis_value`].
pub fn axis(negative: bool, positive: bool) -> (value: i8)
    ensures
        value as int == axis_value(negative, positive),
        -1 <= value <= 1,
{
    let plus: i8 = if positive { 1 } else { 0 };
    let minus: i8 = if negative { 1 } else { 0 };
    plus - minus
}

/// The four directional keys, after merging duplicate bindings.
#[derive(Clone, Copy, Debug, PartialEq, Eq, Structural)]
pub struct MoveKeys {
    pub up: bool,
    pub down: bool,
    pub left: bool,
    pub right: bool,
}

/// The two rotation keys.
#[derive(Clone, Copy, Debug, PartialEq, Eq, Structural)]
pub struct TurnKeys {
    pub increase: bool,
    pub decrease: bool,
}

/// An unnormalised movement direction: each component is -1, 0 or 1.
#[derive(Clone, Copy, Debug, PartialEq, Eq, Structural)]
pub struct Direction {
    pub x: i8,
    pub y: i8,
}

impl Direction {
    /// Both components lie in {-1, 0, 1}.
    pub open spec fn wf(self) -> bool {
        -1 <= self.x <= 1 && -1 <= self.y <= 1
    }
}

impl MoveKeys {
    /// The direction these keys stand for, as a pair of mathematical integers.
    pub open spec fn direction_spec(self) -> (int, int) {
        (axis_value(self.left, self.right), axis_value(self.down, self.up))
    }

    /// Merges two bindings per direction: a direction counts as pressed when
    /// either of its keys is down.
    pub fn from_bindings(
        up: (bool, bool),
        down: (bool, bool),
        left: (bool, bool),
        right: (bool, bool),
    ) -> (keys: MoveKeys)
        ensures
            keys.up == (up.0 || up.1),
            keys.down == (down.0 || down.1),
            keys.left == (left.0 || left.1),
            keys.right == (right.0 || right.1),
    {
        MoveKeys {
            up: up.0 || up.1,
            down: down.0 || down.1,
            left: left.0 || left.1,
            right: right.0 || right.1,
        }
    }

    /// The movement direction: opposing keys cancel, and a diagonal is
    /// deliberately left unnormalised (both components keep magnitude 1).
    pub fn direction(&self) -> (dir: Direction)
        ensures
            dir.wf(),
            (dir.x as int, dir.y as int) == self.direction_spec(),
    {
        Direction { x: axis(self.left, self.right), y: axis(self.down, self.up) }
    }
}

impl TurnKeys {
    /// The rotation intent as a mathematical integer: +1, 0 or -1.
    pub open spec fn intent_spec(self) -> int {
        axis_value(self.decrease, self.increase)
    }

    /// The rotation intent: +1 for "increase", -1 for "decrease", 0 when
    /// neither or both are held.
    pub fn intent(&self) -> (value: i8)
        ensures
            value as int == self.intent_spec(),
            -1 <= value <= 1,
    {
        axis(self.decrease, self.increase)
    }
}

} // verus!
