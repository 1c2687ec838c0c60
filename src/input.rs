use vstd::prelude::*;

verus! {

/// One of the six movement directions that the keyboard drives.
#[derive(Clone, Copy, Debug, PartialEq, Eq, Structural)]
pub enum Direction {
    Left,
    Right,
    Up,
    Down,
    Forward,
    Backward,
}

/// The keys the camera listens to; every other key is `Other`.
#[derive(Clone, Copy, Debug, PartialEq, Eq, Structural)]
pub enum Key {
    W,
    S,
    A,
    D,
    Space,
    LShift,
    Other,
}

/// Slot of a direction in the held-key table.
pub open spec fn slot_of(d: Direction) -> int {
    match d {
        Direction::Left => 0,
        Direction::Right => 1,
        Direction::Up => 2,
        Direction::Down => 3,
        Direction::Forward => 4,
        Direction::Backward => 5,
    }
}

pub open spec fn direction_spec(key: Key) -> Option<Direction> {
    match key {
        Key::W => Some(Direction::Forward),
        Key::S => Some(Direction::Backward),
        Key::A => Some(Direction::Left),
        Key::D => Some(Direction::Right),
        Key::Space => Some(Direction::Up),
        Key::LShift => Some(Direction::Down),
        Key::Other => None,
    }
}

impl Direction {
    pub fn slot(self) -> (r: usize)
        ensures
            r as int == slot_of(self),
            r < 6,
    {
        match self {
            Direction::Left => 0,
            Direction::Right => 1,
            Direction::Up => 2,
            Direction::Down => 3,
            Direction::Forward => 4,
            Direction::Backward => 5,
        }
    }
}

/// The direction a key drives: W/S forward and backward, A/D left and right,
/// Space up, left Shift down.
pub fn direction_of(key: Key) -> (r: Option<Direction>)
    ensures
        r == direction_spec(key),
{
    match key {
        Key::W => Some(Direction::Forward),
        Key::S => Some(Direction::Backward),
        Key::A => Some(Direction::Left),
        Key::D => Some(Direction::Right),
        Key::Space => Some(Direction::Up),
        Key::LShift => Some(Direction::Down),
        Key::Other => None,
    }
}

/// Signed step of the camera per unit of travel, on each axis: along the
/// view direction, along the sideways vector (view direction crossed with
/// world up, which points to the right), and along world Z (up). Each is
/// -1, 0 or 1.
#[derive(Clone, Copy, Debug, PartialEq, Eq, Structural)]
pub struct Movement {
    pub along_view: i8,
    pub sideways: i8,
    pub vertical: i8,
}

/// Which direction keys are held, by direction slot.
#[derive(Clone, Copy, Debug)]
pub struct KeyState {
    pub held: [bool; 6],
}

pub open spec fn step(plus: bool, minus: bool) -> int {
    (if plus {
        1int
    } else {
        0int
    }) - (if minus {
        1int
    } else {
        0int
    })
}

impl KeyState {
    pub open spec fn is_held(&self, d: Direction) -> bool {
        self.held@[slot_of(d)]
    }

    pub open spec fn movement_spec(&self) -> Movement {
        Movement {
            along_view: step(self.is_held(Direction::Forward), self.is_held(Direction::Backward)) as i8,
            sideways: step(self.is_held(Direction::Right), self.is_held(Direction::Left)) as i8,
            vertical: step(self.is_held(Direction::Up), self.is_held(Direction::Down)) as i8,
        }
    }

    /// Nothing held.
    pub fn new() -> (r: KeyState)
        ensures
            forall|i: int| 0 <= i < 6 ==> !#[trigger] r.held@[i],
    {
        KeyState { held: [false; 6] }
    }

    /// Records a press or release. Keys that drive no direction change
    /// nothing.
    pub fn set(&mut self, key: Key, pressed: bool)
        ensures
            match direction_spec(key) {
                Some(d) => final(self).held@ == old(self).held@.update(slot_of(d), pressed),
                None => *final(self) == *old(self),
            },
    {
        if let Some(d) = direction_of(key) {
            let i = d.slot();
            self.held[i] = pressed;
        }
    }

    /// The camera's step on each axis for the held keys. Forward moves along
    /// the view vector and backward against it; right moves along the
    /// sideways vector and left against it; up raises Z and down lowers it.
    /// Opposite keys held together cancel.
    pub fn movement(&self) -> (r: Movement)
        ensures
            r.along_view as int == step(self.is_held(Direction::Forward), self.is_held(Direction::Backward)),
            r.sideways as int == step(self.is_held(Direction::Right), self.is_held(Direction::Left)),
            r.vertical as int == step(self.is_held(Direction::Up), self.is_held(Direction::Down)),
            r == self.movement_spec(),
    {
        Movement {
            along_view: signed_step(self.held[4], self.held[5]),
            sideways: signed_step(self.held[1], self.held[0]),
            vertical: signed_step(self.held[2], self.held[3]),
        }
    }
}

fn signed_step(plus: bool, minus: bool) -> (r: i8)
    ensures
        r as int == step(plus, minus),
{
    let p: i8 = if plus {
        1
    } else {
        0
    };
    let m: i8 = if minus {
        1
    } else {
        0
    };
    p - m
}

} // verus!
