//! Headings and the per-frame keyboard snapshot, with the
//! direction-change rule and its anti-reversal law.

use vstd::prelude::*;

verus! {

/// The four axis-aligned directions the snake can travel in.
#[derive(Clone, Copy, PartialEq, Eq, Structural, Debug)]
pub enum Heading {
    Left,
    Right,
    Up,
    Down,
}

/// Which of the four direction keys are held down, polled once per update
/// and passed in as a plain snapshot.
#[derive(Clone, Copy, PartialEq, Eq, Structural, Debug)]
pub struct KeySet {
    pub left: bool,
    pub right: bool,
    pub up: bool,
    pub down: bool,
}

/// The direction directly opposite to `h`.
pub open spec fn opposite(h: Heading) -> Heading {
    match h {
        Heading::Left => Heading::Right,
        Heading::Right => Heading::Left,
        Heading::Up => Heading::Down,
        Heading::Down => Heading::Up,
    }
}

/// A snapshot in which only the key for `h` is held down.
pub open spec fn only_key(h: Heading) -> KeySet {
    KeySet {
        left: h is Left,
        right: h is Right,
        up: h is Up,
        down: h is Down,
    }
}

/// The heading after one update, given the current heading and the pressed
/// keys. A key is honoured only if the current heading is not the opposite
/// direction, so the snake can never turn back on itself in one step.
/// When several keys are held at once, the first matching rule wins, in the
/// fixed order left, right, up, down; at most one change is applied.
pub open spec fn new_heading(h: Heading, k: KeySet) -> Heading {
    if k.left && h != Heading::Right {
        Heading::Left
    } else if k.right && h != Heading::Left {
        Heading::Right
    } else if k.up && h != Heading::Down {
        Heading::Up
    } else if k.down && h != Heading::Up {
        Heading::Down
    } else {
        h
    }
}

/// Computes the heading after one update from the pressed-key snapshot.
pub fn next_heading(h: Heading, k: &KeySet) -> (r: Heading)
    ensures
        r == new_heading(h, *k),
{
    if k.left && h != Heading::Right {
        Heading::Left
    } else if k.right && h != Heading::Left {
        Heading::Right
    } else if k.up && h != Heading::Down {
        Heading::Up
    } else if k.down && h != Heading::Up {
        Heading::Down
    } else {
        h
    }
}

/// Anti-reversal law: no key combination ever turns the heading into its
/// direct opposite, and holding only the opposite-direction key leaves the
/// heading unchanged.
pub proof fn lemma_anti_reversal(h: Heading, k: KeySet)
    ensures
        new_heading(h, k) != opposite(h),
        new_heading(h, only_key(opposite(h))) == h,
{
}

} // verus!
