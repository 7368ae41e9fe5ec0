use vstd::prelude::*;

verus! {

/// The direction an entity (or a bullet) faces.
#[derive(Clone, Copy, Debug, PartialEq, Eq, Structural)]
pub enum Facing {
    Left,
    Right,
}

/// How a sprite is mirrored; `Horizontal` means the entity looks to the left,
/// `Unflipped` that it is drawn as it is.
#[derive(Clone, Copy, Debug, PartialEq, Eq, Structural)]
pub enum Flipped {
    Unflipped,
    Horizontal,
    Vertical,
    Both,
}

/// The sign of a velocity component or of an axis input.
#[derive(Clone, Copy, Debug, PartialEq, Eq, Structural)]
pub enum Sign {
    Negative,
    Zero,
    Positive,
}

/// The side of an entity on which a collision takes place.
#[derive(Clone, Copy, Debug, PartialEq, Eq, Structural)]
pub enum Side {
    Top,
    Bottom,
    Left,
    Right,
    Inner,
}

/// The phase of a collision between two entities.
#[derive(Clone, Copy, Debug, PartialEq, Eq, Structural)]
pub enum CollisionState {
    Enter,
    Steady,
    Leave,
}

/// What the collision detection reports of one colliding pair.
#[derive(Clone, Copy, Debug, PartialEq, Eq, Structural)]
pub struct CollisionData {
    pub side: Side,
    pub state: CollisionState,
}

/// The horizontal direction in which an entity with the given `Flipped` looks:
/// `-1` when mirrored horizontally, `1` otherwise.
pub open spec fn spec_facing_sign(flipped: Flipped) -> int {
    match flipped {
        Flipped::Horizontal => -1,
        _ => 1,
    }
}

/// `-1` when `flipped` is `Horizontal`, `1` otherwise.
pub fn facing_sign(flipped: Flipped) -> (r: i8)
    ensures
        r == spec_facing_sign(flipped),
{
    match flipped {
        Flipped::Horizontal => -1,
        _ => 1,
    }
}

/// The facing of an entity with the given `Flipped`.
pub open spec fn spec_facing_of(flipped: Flipped) -> Facing {
    match flipped {
        Flipped::Horizontal => Facing::Left,
        _ => Facing::Right,
    }
}

/// `Left` when `flipped` is `Horizontal`, `Right` otherwise.
pub fn facing_of(flipped: Flipped) -> (r: Facing)
    ensures
        r == spec_facing_of(flipped),
{
    match flipped {
        Flipped::Horizontal => Facing::Left,
        _ => Facing::Right,
    }
}

/// Which sides of an entity touch a solid.
#[derive(Clone, Copy, Debug, PartialEq, Eq, Structural)]
pub struct SidesTouching {
    pub is_touching_top: bool,
    pub is_touching_bottom: bool,
    pub is_touching_left: bool,
    pub is_touching_right: bool,
}

impl SidesTouching {
    pub open spec fn touching_horizontally(&self) -> bool {
        self.is_touching_left || self.is_touching_right
    }

    pub open spec fn touching_vertically(&self) -> bool {
        self.is_touching_top || self.is_touching_bottom
    }

    /// Touching a solid on the left or on the right.
    pub fn is_touching_horizontally(&self) -> (r: bool)
        ensures
            r == self.touching_horizontally(),
    {
        self.is_touching_left || self.is_touching_right
    }

    /// Touching a solid on the top or on the bottom.
    pub fn is_touching_vertically(&self) -> (r: bool)
        ensures
            r == self.touching_vertically(),
    {
        self.is_touching_top || self.is_touching_bottom
    }
}

} // verus!
