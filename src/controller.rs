//! Which movement keys are held, and the direction they ask the camera to
//! move in.
use vstd::prelude::*;

verus! {

/// The keys the camera controller listens to.
#[derive(Clone, Copy, PartialEq, Eq, Structural, Debug)]
pub enum MoveKey {
    /// `W`
    Forward,
    /// `S`
    Back,
    /// `A`
    Left,
    /// `D`
    Right,
    /// Space
    Up,
    /// Left shift
    Down,
}

/// The movement keys that are held down.
#[derive(Clone, Copy, PartialEq, Eq, Structural, Debug, Default)]
pub struct CameraController {
    pub left: bool,
    pub right: bool,
    pub forward: bool,
    pub back: bool,
    pub up: bool,
    pub down: bool,
}

/// `-1` when the negative key is held, else `1` when the positive one is,
/// else `0`.
pub open spec fn axis(positive: bool, negative: bool) -> i32 {
    if negative {
        -1i32
    } else if positive {
        1i32
    } else {
        0i32
    }
}

pub fn numberify(positive: bool, negative: bool) -> (r: i32)
    ensures
        r == axis(positive, negative),
{
    if negative {
        -1
    } else if positive {
        1
    } else {
        0
    }
}

impl CameraController {
    pub fn new() -> (c: CameraController)
        ensures
            !c.left && !c.right && !c.forward && !c.back && !c.up && !c.down,
    {
        CameraController {
            left: false,
            right: false,
            forward: false,
            back: false,
            up: false,
            down: false,
        }
    }

    /// Records that `key` went down (`pressed`) or up; other keys keep their
    /// state. No key leaves everything as it was.
    pub fn keyboard_event(&mut self, key: Option<MoveKey>, pressed: bool)
        ensures
            final(self).forward == if key == Some(MoveKey::Forward) { pressed } else { old(self).forward },
            final(self).back == if key == Some(MoveKey::Back) { pressed } else { old(self).back },
            final(self).left == if key == Some(MoveKey::Left) { pressed } else { old(self).left },
            final(self).right == if key == Some(MoveKey::Right) { pressed } else { old(self).right },
            final(self).up == if key == Some(MoveKey::Up) { pressed } else { old(self).up },
            final(self).down == if key == Some(MoveKey::Down) { pressed } else { old(self).down },
    {
        match key {
            Some(MoveKey::Forward) => {
                self.forward = pressed;
            },
            Some(MoveKey::Back) => {
                self.back = pressed;
            },
            Some(MoveKey::Left) => {
                self.left = pressed;
            },
            Some(MoveKey::Right) => {
                self.right = pressed;
            },
            Some(MoveKey::Up) => {
                self.up = pressed;
            },
            Some(MoveKey::Down) => {
                self.down = pressed;
            },
            None => {},
        }
    }

    /// The direction of movement in camera space, one of `-1`, `0`, `1` per
    /// axis: x right, y down, z forward.
    pub fn direction(&self) -> (r: (i32, i32, i32))
        ensures
            r == (
                axis(self.right, self.left),
                axis(self.down, self.up),
                axis(self.forward, self.back),
            ),
    {
        (
            numberify(self.right, self.left),
            numberify(self.down, self.up),
            numberify(self.forward, self.back),
        )
    }
}

} // verus!
