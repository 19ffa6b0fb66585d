//! The four compass directions and their rotation tables.

use vstd::prelude::*;

use crate::errors::ParseError;

verus! {

/// One of the four compass directions a robot can face.
#[derive(Clone, Copy, Debug, PartialEq, Eq, Structural)]
pub enum Orientation {
    North,
    East,
    South,
    West,
}

/// The direction reached from `o` by a quarter turn to the left.
pub open spec fn spec_rotate_left(o: Orientation) -> Orientation {
    match o {
        Orientation::North => Orientation::West,
        Orientation::East => Orientation::North,
        Orientation::South => Orientation::East,
        Orientation::West => Orientation::South,
    }
}

/// The direction reached from `o` by a quarter turn to the right.
pub open spec fn spec_rotate_right(o: Orientation) -> Orientation {
    match o {
        Orientation::North => Orientation::East,
        Orientation::East => Orientation::South,
        Orientation::South => Orientation::West,
        Orientation::West => Orientation::North,
    }
}

/// The single-letter code of a direction.
pub open spec fn letter_of(o: Orientation) -> char {
    match o {
        Orientation::North => 'N',
        Orientation::East => 'E',
        Orientation::South => 'S',
        Orientation::West => 'W',
    }
}

impl Orientation {
    /// Rotate a quarter turn to the left.
    pub fn rotate_left(self) -> (r: Orientation)
        ensures
            r == spec_rotate_left(self),
    {
        match self {
            Orientation::North => Orientation::West,
            Orientation::East => Orientation::North,
            Orientation::South => Orientation::East,
            Orientation::West => Orientation::South,
        }
    }

    /// Rotate a quarter turn to the right.
    pub fn rotate_right(self) -> (r: Orientation)
        ensures
            r == spec_rotate_right(self),
    {
        match self {
            Orientation::North => Orientation::East,
            Orientation::East => Orientation::South,
            Orientation::South => Orientation::West,
            Orientation::West => Orientation::North,
        }
    }

    /// The direction named by a single-letter code, if the character is one.
    pub fn from_letter(c: char) -> (r: Result<Orientation, ParseError>)
        ensures
            c == 'N' ==> r == Ok::<Orientation, ParseError>(Orientation::North),
            c == 'E' ==> r == Ok::<Orientation, ParseError>(Orientation::East),
            c == 'S' ==> r == Ok::<Orientation, ParseError>(Orientation::South),
            c == 'W' ==> r == Ok::<Orientation, ParseError>(Orientation::West),
            c != 'N' && c != 'E' && c != 'S' && c != 'W' ==> r == Err::<
                Orientation,
                ParseError,
            >(ParseError::InvalidOrientation),
    {
        match c {
            'N' => Ok(Orientation::North),
            'E' => Ok(Orientation::East),
            'S' => Ok(Orientation::South),
            'W' => Ok(Orientation::West),
            _ => Err(ParseError::InvalidOrientation),
        }
    }

    /// The direction named by a one-letter string code.
    pub fn parse(s: &str) -> (r: Result<Orientation, ParseError>)
        ensures
            s@.len() == 1 && s@[0] == 'N' ==> r == Ok::<Orientation, ParseError>(
                Orientation::North,
            ),
            s@.len() == 1 && s@[0] == 'E' ==> r == Ok::<Orientation, ParseError>(Orientation::East),
            s@.len() == 1 && s@[0] == 'S' ==> r == Ok::<Orientation, ParseError>(
                Orientation::South,
            ),
            s@.len() == 1 && s@[0] == 'W' ==> r == Ok::<Orientation, ParseError>(Orientation::West),
            r matches Ok(o) ==> s@ =~= seq![letter_of(o)],
            r matches Err(e) ==> e == ParseError::InvalidOrientation && (s@.len() != 1 || (s@[0]
                != 'N' && s@[0] != 'E' && s@[0] != 'S' && s@[0] != 'W')),
    {
        if s.unicode_len() != 1 {
            return Err(ParseError::InvalidOrientation);
        }
        Orientation::from_letter(s.get_char(0))
    }

    /// The single-letter code of this direction.
    pub fn format(&self) -> (r: &'static str)
        ensures
            r@ =~= seq![letter_of(*self)],
    {
        proof {
            reveal_strlit("N");
            reveal_strlit("E");
            reveal_strlit("S");
            reveal_strlit("W");
        }
        match self {
            Orientation::North => "N",
            Orientation::East => "E",
            Orientation::South => "S",
            Orientation::West => "W",
        }
    }
}

/// A right turn followed by a left turn, and a left turn followed by a
/// right turn, both come back to the starting direction.
pub proof fn lemma_rotate_left_undoes_rotate_right(o: Orientation)
    ensures
        spec_rotate_left(spec_rotate_right(o)) == o,
        spec_rotate_right(spec_rotate_left(o)) == o,
{
}

/// Four left quarter turns come back to the starting direction.
pub proof fn lemma_rotate_left_four_times(o: Orientation)
    ensures
        spec_rotate_left(spec_rotate_left(spec_rotate_left(spec_rotate_left(o)))) == o,
{
}

} // verus!
