//! A robot's position: a coordinate pair and an orientation, read from and
//! rendered to the textual shape "X Y O".

use vstd::prelude::*;

use crate::MAX_COORDINATE_VALUE;
use crate::digits::dec_rep;
use crate::digits::digit_val;
use crate::digits::digits_val;
use crate::digits::is_digit_char;
use crate::digits::is_number_token;
use crate::digits::lemma_dec_rep_val;
use crate::digits::u8_to_string;
use crate::errors::ParseError;
use crate::orientation::Orientation;
use crate::orientation::letter_of;

verus! {

/// A coordinate pair and an orientation.
#[derive(Clone, Copy, Debug, PartialEq, Eq, Structural)]
pub struct Position {
    pub x: u8,
    pub y: u8,
    pub orientation: Orientation,
}

/// The mathematical value of a `Position`.
pub ghost struct PositionModel {
    pub x: int,
    pub y: int,
    pub orientation: Orientation,
}

impl View for Position {
    type V = PositionModel;

    open spec fn view(&self) -> PositionModel {
        PositionModel { x: self.x as int, y: self.y as int, orientation: self.orientation }
    }
}

/// The parts of `s` split on the space character: the separators themselves
/// appear in no part, and splitting a string of `k` spaces yields `k + 1`
/// parts.
pub open spec fn spec_split(s: Seq<char>) -> Seq<Seq<char>>
    decreases s.len(),
{
    if s.len() == 0 {
        seq![Seq::<char>::empty()]
    } else if s.last() == ' ' {
        spec_split(s.drop_last()).push(Seq::<char>::empty())
    } else {
        let p = spec_split(s.drop_last());
        p.update(p.len() - 1, p.last().push(s.last()))
    }
}

/// Splitting yields at least one part.
pub proof fn lemma_split_nonempty(s: Seq<char>)
    ensures
        spec_split(s).len() >= 1,
    decreases s.len(),
{
    if s.len() > 0 {
        lemma_split_nonempty(s.drop_last());
    }
}

/// A string without spaces is a single part.
pub proof fn lemma_split_no_space(s: Seq<char>)
    requires
        forall|i: int| 0 <= i < s.len() ==> s[i] != ' ',
    ensures
        spec_split(s) == seq![s],
    decreases s.len(),
{
    if s.len() == 0 {
        assert(spec_split(s) =~~= seq![s]);
    } else {
        lemma_split_no_space(s.drop_last());
        lemma_split_nonempty(s.drop_last());
        assert(s.last() != ' ');
        assert(s.drop_last().push(s.last()) =~= s);
        assert(spec_split(s) =~~= seq![s]);
    }
}

/// Splitting distributes over a space: the parts of `x + " " + y` are the
/// parts of `x` followed by the parts of `y`.
pub proof fn lemma_split_around_space(x: Seq<char>, y: Seq<char>)
    ensures
        spec_split(x + seq![' '] + y) == spec_split(x) + spec_split(y),
    decreases y.len(),
{
    let s = x + seq![' '] + y;
    if y.len() == 0 {
        assert(s.last() == ' ');
        assert(s.drop_last() =~= x);
        assert(spec_split(s) =~= spec_split(x) + spec_split(y));
    } else {
        lemma_split_around_space(x, y.drop_last());
        lemma_split_nonempty(x);
        lemma_split_nonempty(y.drop_last());
        assert(s.last() == y.last());
        assert(s.drop_last() =~= x + seq![' '] + y.drop_last());
        if y.last() == ' ' {
            assert(spec_split(s) =~= spec_split(x) + spec_split(y));
        } else {
            let p = spec_split(x + seq![' '] + y.drop_last());
            let q = spec_split(y.drop_last());
            assert(p == spec_split(x) + q);
            assert(p.len() == spec_split(x).len() + q.len());
            assert(p.last() == q.last());
            assert(spec_split(y) == q.update(q.len() - 1, q.last().push(y.last())));
            assert(p.update(p.len() - 1, p.last().push(y.last())) =~= spec_split(x)
                + q.update(q.len() - 1, q.last().push(y.last())));
        }
    }
}

/// Splitting a string made of three space-free tokens joined by single
/// spaces gives back exactly those tokens.
pub proof fn lemma_split_three_tokens(a: Seq<char>, b: Seq<char>, c: Seq<char>)
    requires
        forall|i: int| 0 <= i < a.len() ==> a[i] != ' ',
        forall|i: int| 0 <= i < b.len() ==> b[i] != ' ',
        forall|i: int| 0 <= i < c.len() ==> c[i] != ' ',
    ensures
        spec_split(a + seq![' '] + b + seq![' '] + c) == seq![a, b, c],
{
    let bc = b + seq![' '] + c;
    assert(a + seq![' '] + b + seq![' '] + c =~= a + seq![' '] + bc);
    lemma_split_around_space(a, bc);
    lemma_split_around_space(b, c);
    lemma_split_no_space(a);
    lemma_split_no_space(b);
    lemma_split_no_space(c);
    assert(spec_split(a + seq![' '] + bc) =~= seq![a, b, c]);
}

/// What a coordinate token denotes: the number it spells, unless it is not
/// a run of digits or the number exceeds the maximum coordinate.
pub open spec fn spec_coordinate_token(t: Seq<char>) -> Result<nat, ParseError> {
    if !is_number_token(t) {
        Err(ParseError::InvalidCoordinate)
    } else if digits_val(t) > MAX_COORDINATE_VALUE as nat {
        Err(ParseError::CoordinateOutOfRange)
    } else {
        Ok(digits_val(t))
    }
}

/// What an orientation token denotes: a direction, if it is one of the four
/// single-letter codes.
pub open spec fn spec_orientation_token(t: Seq<char>) -> Result<Orientation, ParseError> {
    if t.len() == 1 && t[0] == 'N' {
        Ok(Orientation::North)
    } else if t.len() == 1 && t[0] == 'E' {
        Ok(Orientation::East)
    } else if t.len() == 1 && t[0] == 'S' {
        Ok(Orientation::South)
    } else if t.len() == 1 && t[0] == 'W' {
        Ok(Orientation::West)
    } else {
        Err(ParseError::InvalidOrientation)
    }
}

/// What a position line denotes: the text must split on spaces into exactly
/// three tokens, two coordinates within range and one orientation letter.
pub open spec fn spec_parse_position(s: Seq<char>) -> Result<PositionModel, ParseError> {
    let parts = spec_split(s);
    if parts.len() != 3 {
        Err(ParseError::WrongTokenCount)
    } else {
        match (spec_coordinate_token(parts[0]), spec_coordinate_token(parts[1]),
        spec_orientation_token(parts[2])) {
            (Ok(x), Ok(y), Ok(o)) => Ok(
                PositionModel { x: x as int, y: y as int, orientation: o },
            ),
            (Err(e), _, _) => Err(e),
            (_, Err(e), _) => Err(e),
            (_, _, Err(e)) => Err(e),
        }
    }
}

/// The canonical text of a position: the two coordinates in decimal, then
/// the orientation letter, joined by single spaces.
pub open spec fn spec_format_position(x: nat, y: nat, o: Orientation) -> Seq<char> {
    dec_rep(x) + seq![' '] + dec_rep(y) + seq![' '] + seq![letter_of(o)]
}

/// Reads the number a coordinate token spells, against
/// `spec_coordinate_token`.
fn parse_coordinate_token(t: &str) -> (r: Result<u8, ParseError>)
    ensures
        match r {
            Ok(v) => spec_coordinate_token(t@) == Ok::<nat, ParseError>(v as nat) && v
                <= MAX_COORDINATE_VALUE,
            Err(e) => spec_coordinate_token(t@) == Err::<nat, ParseError>(e),
        },
{
    let n = t.unicode_len();
    if n == 0 {
        return Err(ParseError::InvalidCoordinate);
    }
    let mut i: usize = 0;
    let mut val: u16 = 0;
    let mut exceeded: bool = false;
    while i < n
        invariant
            n == t@.len(),
            0 <= i <= n,
            forall|k: int| 0 <= k < i ==> is_digit_char(#[trigger] t@[k]),
            !exceeded ==> val == digits_val(t@.take(i as int)) && val <= MAX_COORDINATE_VALUE,
            exceeded ==> digits_val(t@.take(i as int)) > MAX_COORDINATE_VALUE,
        decreases n - i,
    {
        let c = t.get_char(i);
        let u = c as u32;
        if u < 48 || u > 57 {
            assert(!is_digit_char(t@[i as int]));
            return Err(ParseError::InvalidCoordinate);
        }
        let d = (u - 48) as u16;
        proof {
            assert(t@.take(i as int + 1).drop_last() =~= t@.take(i as int));
            assert(t@.take(i as int + 1).last() == t@[i as int]);
            assert(digits_val(t@.take(i as int + 1)) == digits_val(t@.take(i as int)) * 10
                + digit_val(t@[i as int]));
        }
        if !exceeded {
            val = val * 10 + d;
            if val > MAX_COORDINATE_VALUE as u16 {
                exceeded = true;
            }
        }
        i += 1;
    }
    proof {
        assert(t@.take(n as int) =~= t@);
        assert(is_number_token(t@));
    }
    if exceeded {
        Err(ParseError::CoordinateOutOfRange)
    } else {
        Ok(val as u8)
    }
}

impl Position {
    /// Reads a position from its textual shape "X Y O", against
    /// `spec_parse_position`.
    pub fn parse(s: &str) -> (r: Result<Position, ParseError>)
        ensures
            match r {
                Ok(p) => spec_parse_position(s@) == Ok::<PositionModel, ParseError>(p@),
                Err(e) => spec_parse_position(s@) == Err::<PositionModel, ParseError>(e),
            },
    {
        let n = s.unicode_len();
        let mut i: usize = 0;
        let mut count: usize = 0;
        let mut sp1: usize = 0;
        let mut sp2: usize = 0;
        while i < n
            invariant
                n == s@.len(),
                0 <= i <= n,
                count <= 2,
                count == 0 ==> forall|k: int| 0 <= k < i ==> s@[k] != ' ',
                count >= 1 ==> sp1 < i && s@[sp1 as int] == ' ',
                count == 1 ==> forall|k: int| 0 <= k < i && k != sp1 ==> s@[k] != ' ',
                count == 2 ==> sp1 < sp2 < i && s@[sp2 as int] == ' ' && forall|k: int|
                    0 <= k < i && k != sp1 && k != sp2 ==> s@[k] != ' ',
            decreases n - i,
        {
            let c = s.get_char(i);
            if c == ' ' {
                if count == 0 {
                    sp1 = i;
                    count = 1;
                } else if count == 1 {
                    sp2 = i;
                    count = 2;
                } else {
                    proof {
                        let a = s@.take(sp1 as int);
                        let b = s@.subrange(sp1 as int + 1, sp2 as int);
                        let m = s@.subrange(sp2 as int + 1, i as int);
                        let rest = s@.subrange(i as int + 1, n as int);
                        assert(s@ =~= a + seq![' '] + b + seq![' '] + m + seq![' '] + rest);
                        let tail = m + seq![' '] + rest;
                        assert(a + seq![' '] + b + seq![' '] + m + seq![' '] + rest =~= a
                            + seq![' '] + b + seq![' '] + tail);
                        lemma_split_three_parts_and_more(a, b, tail);
                    }
                    return Err(ParseError::WrongTokenCount);
                }
            }
            i += 1;
        }
        if count == 0 {
            proof {
                lemma_split_no_space(s@);
            }
            return Err(ParseError::WrongTokenCount);
        }
        if count == 1 {
            proof {
                let a = s@.take(sp1 as int);
                let b = s@.subrange(sp1 as int + 1, n as int);
                assert(s@ =~= a + seq![' '] + b);
                lemma_split_around_space(a, b);
                lemma_split_no_space(a);
                lemma_split_no_space(b);
                assert(spec_split(s@) =~= seq![a, b]);
            }
            return Err(ParseError::WrongTokenCount);
        }
        let t1 = s.substring_char(0, sp1);
        let t2 = s.substring_char(sp1 + 1, sp2);
        let t3 = s.substring_char(sp2 + 1, n);
        proof {
            assert(s@ =~= t1@ + seq![' '] + t2@ + seq![' '] + t3@);
            lemma_split_three_tokens(t1@, t2@, t3@);
        }
        let x = match parse_coordinate_token(t1) {
            Ok(v) => v,
            Err(e) => {
                return Err(e);
            },
        };
        let y = match parse_coordinate_token(t2) {
            Ok(v) => v,
            Err(e) => {
                return Err(e);
            },
        };
        let orientation = match Orientation::parse(t3) {
            Ok(o) => o,
            Err(e) => {
                return Err(e);
            },
        };
        Ok(Position { x, y, orientation })
    }

    /// Renders this position as "X Y O", against `spec_format_position`.
    pub fn format(&self) -> (r: String)
        ensures
            r@ == spec_format_position(self.x as nat, self.y as nat, self.orientation),
    {
        let mut r = u8_to_string(self.x);
        r.append(" ");
        let ys = u8_to_string(self.y);
        r.append(ys.as_str());
        r.append(" ");
        r.append(self.orientation.format());
        proof {
            reveal_strlit(" ");
            assert(" "@ =~= seq![' ']);
            assert(r@ =~= spec_format_position(self.x as nat, self.y as nat, self.orientation));
        }
        r
    }
}

/// Splitting a string that begins with three space-separated space-free
/// tokens and holds at least one more space yields more than three parts.
proof fn lemma_split_three_parts_and_more(a: Seq<char>, b: Seq<char>, tail: Seq<char>)
    requires
        forall|i: int| 0 <= i < a.len() ==> a[i] != ' ',
        forall|i: int| 0 <= i < b.len() ==> b[i] != ' ',
        tail.contains(' '),
    ensures
        spec_split(a + seq![' '] + b + seq![' '] + tail).len() > 3,
{
    assert(a + seq![' '] + b + seq![' '] + tail =~= a + seq![' '] + (b + seq![' '] + tail));
    lemma_split_around_space(a, b + seq![' '] + tail);
    lemma_split_around_space(b, tail);
    lemma_split_no_space(a);
    lemma_split_no_space(b);
    let j = choose|j: int| 0 <= j < tail.len() && tail[j] == ' ';
    let c = tail.take(j);
    let rest = tail.subrange(j + 1, tail.len() as int);
    assert(tail =~= c + seq![' '] + rest);
    lemma_split_around_space(c, rest);
    lemma_split_nonempty(c);
    lemma_split_nonempty(rest);
}

/// Parsing the canonical text of a position within the coordinate bounds
/// gives back exactly that position: format followed by parse round-trips.
pub proof fn lemma_format_then_parse_round_trip(x: nat, y: nat, o: Orientation)
    requires
        x <= MAX_COORDINATE_VALUE,
        y <= MAX_COORDINATE_VALUE,
    ensures
        spec_parse_position(spec_format_position(x, y, o)) == Ok::<PositionModel, ParseError>(
            PositionModel { x: x as int, y: y as int, orientation: o },
        ),
{
    lemma_dec_rep_val(x);
    lemma_dec_rep_val(y);
    let letter = seq![letter_of(o)];
    assert(forall|i: int| 0 <= i < letter.len() ==> letter[i] != ' ');
    assert(spec_format_position(x, y, o) =~= dec_rep(x) + seq![' '] + dec_rep(y) + seq![' ']
        + letter);
    lemma_split_three_tokens(dec_rep(x), dec_rep(y), letter);
    assert(spec_coordinate_token(dec_rep(x)) == Ok::<nat, ParseError>(x));
    assert(spec_coordinate_token(dec_rep(y)) == Ok::<nat, ParseError>(y));
    assert(spec_orientation_token(letter) == Ok::<Orientation, ParseError>(o));
}

/// For every valid position string — the canonical text of a direction and
/// coordinates within bounds — parsing succeeds, and formatting what was
/// parsed gives back the very same string.
pub proof fn lemma_parse_then_format_round_trip(s: Seq<char>, x: nat, y: nat, o: Orientation)
    requires
        x <= MAX_COORDINATE_VALUE,
        y <= MAX_COORDINATE_VALUE,
        s == spec_format_position(x, y, o),
    ensures
        (spec_parse_position(s) matches Ok(p) && spec_format_position(
            p.x as nat,
            p.y as nat,
            p.orientation,
        ) == s),
{
    lemma_format_then_parse_round_trip(x, y, o);
}

} // verus!
