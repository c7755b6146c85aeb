//! The eight compass directions.

use vstd::prelude::*;

verus! {

/// A compass direction.
#[derive(Debug, Clone, Copy, PartialEq, Eq, Hash, Structural)]
pub enum CardinalDirection {
    North,
    South,
    East,
    West,
    NorthEast,
    NorthWest,
    SouthEast,
    SouthWest,
}

/// All eight directions, clockwise from north.
pub open spec fn all_directions() -> Seq<CardinalDirection> {
    seq![
        CardinalDirection::North,
        CardinalDirection::NorthEast,
        CardinalDirection::East,
        CardinalDirection::SouthEast,
        CardinalDirection::South,
        CardinalDirection::SouthWest,
        CardinalDirection::West,
        CardinalDirection::NorthWest,
    ]
}

/// The four main directions, clockwise from north.
pub open spec fn main_directions() -> Seq<CardinalDirection> {
    seq![
        CardinalDirection::North,
        CardinalDirection::East,
        CardinalDirection::South,
        CardinalDirection::West,
    ]
}

impl CardinalDirection {
    /// The direction that points the other way.
    pub open spec fn spec_opposite(self) -> CardinalDirection {
        match self {
            CardinalDirection::North => CardinalDirection::South,
            CardinalDirection::South => CardinalDirection::North,
            CardinalDirection::East => CardinalDirection::West,
            CardinalDirection::West => CardinalDirection::East,
            CardinalDirection::NorthEast => CardinalDirection::SouthWest,
            CardinalDirection::NorthWest => CardinalDirection::SouthEast,
            CardinalDirection::SouthEast => CardinalDirection::NorthWest,
            CardinalDirection::SouthWest => CardinalDirection::NorthEast,
        }
    }

    /// Position of the direction on the compass, in eighths of a turn
    /// clockwise from north.
    pub open spec fn eighths(self) -> int {
        match self {
            CardinalDirection::North => 0,
            CardinalDirection::NorthEast => 1,
            CardinalDirection::East => 2,
            CardinalDirection::SouthEast => 3,
            CardinalDirection::South => 4,
            CardinalDirection::SouthWest => 5,
            CardinalDirection::West => 6,
            CardinalDirection::NorthWest => 7,
        }
    }

    /// All eight directions, clockwise from north.
    pub fn all() -> (directions: &'static [CardinalDirection])
        ensures
            directions@ == all_directions(),
    {
        let directions: &'static [CardinalDirection; 8] = &[
            CardinalDirection::North,
            CardinalDirection::NorthEast,
            CardinalDirection::East,
            CardinalDirection::SouthEast,
            CardinalDirection::South,
            CardinalDirection::SouthWest,
            CardinalDirection::West,
            CardinalDirection::NorthWest,
        ];
        assert(directions@ =~= all_directions());
        directions.as_slice()
    }

    /// The four main directions, clockwise from north.
    pub fn cardinal() -> (directions: &'static [CardinalDirection])
        ensures
            directions@ == main_directions(),
    {
        let directions: &'static [CardinalDirection; 4] = &[
            CardinalDirection::North,
            CardinalDirection::East,
            CardinalDirection::South,
            CardinalDirection::West,
        ];
        assert(directions@ =~= main_directions());
        directions.as_slice()
    }

    /// The direction that points the other way.
    pub fn opposite(&self) -> (other: CardinalDirection)
        ensures
            other == self.spec_opposite(),
    {
        match self {
            CardinalDirection::North => CardinalDirection::South,
            CardinalDirection::South => CardinalDirection::North,
            CardinalDirection::East => CardinalDirection::West,
            CardinalDirection::West => CardinalDirection::East,
            CardinalDirection::NorthEast => CardinalDirection::SouthWest,
            CardinalDirection::NorthWest => CardinalDirection::SouthEast,
            CardinalDirection::SouthEast => CardinalDirection::NorthWest,
            CardinalDirection::SouthWest => CardinalDirection::NorthEast,
        }
    }
}

/// Turning round twice gives the direction one started with, and the
/// opposite lies half a turn away on the compass.
pub proof fn lemma_opposite_is_half_a_turn(direction: CardinalDirection)
    ensures
        direction.spec_opposite().spec_opposite() == direction,
        direction.spec_opposite() != direction,
        direction.spec_opposite().eighths() == (direction.eighths() + 4) % 8,
{
}

/// Every direction occurs exactly once among all eight, at its place on the compass.
pub proof fn lemma_all_directions_complete(direction: CardinalDirection)
    ensures
        all_directions().len() == 8,
        all_directions()[direction.eighths()] == direction,
        forall|i: int, j: int|
            0 <= i < j < 8 ==> all_directions()[i] != all_directions()[j],
{
}

} // verus!
