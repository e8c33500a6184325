use vstd::prelude::*;

verus! {

/// How far a face is turned: a quarter turn clockwise, a quarter turn
/// counter-clockwise ("prime"), or a half turn.
#[derive(Clone, Copy, PartialEq, Eq, Structural, Debug)]
pub enum TurnType {
    Clock,
    Prime,
    Double,
}

/// A face turn: which face is rotated, and by how much.
///
/// The faces are named by cube notation: Up (white), Down (yellow),
/// Right (red), Left (orange), Front (green) and Back (blue).
#[derive(Clone, Copy, PartialEq, Eq, Structural, Debug)]
pub enum Turn {
    U(TurnType),
    D(TurnType),
    R(TurnType),
    L(TurnType),
    F(TurnType),
    B(TurnType),
}

impl TurnType {
    /// Position of the amount in the order Clock, Prime, Double.
    pub open spec fn code(self) -> int {
        match self {
            TurnType::Clock => 0,
            TurnType::Prime => 1,
            TurnType::Double => 2,
        }
    }

    /// The amount that undoes this one.
    pub open spec fn inverse(self) -> TurnType {
        match self {
            TurnType::Clock => TurnType::Prime,
            TurnType::Prime => TurnType::Clock,
            TurnType::Double => TurnType::Double,
        }
    }

    /// The notation suffix: nothing, an apostrophe, or the digit 2.
    pub open spec fn suffix_of(self) -> Seq<char> {
        match self {
            TurnType::Clock => seq![],
            TurnType::Prime => seq!['\''],
            TurnType::Double => seq!['2'],
        }
    }

    /// The suffix that follows the face letter in cube notation.
    pub fn suffix(&self) -> (r: &'static str)
        ensures
            r@ == self.suffix_of(),
    {
        match self {
            TurnType::Clock => {
                proof {
                    reveal_strlit("");
                }
                ""
            },
            TurnType::Prime => {
                proof {
                    reveal_strlit("'");
                }
                "'"
            },
            TurnType::Double => {
                proof {
                    reveal_strlit("2");
                }
                "2"
            },
        }
    }
}

impl Turn {
    /// The index of the rotated face among the cube's faces, in the order
    /// green, red, blue, orange, white, yellow.
    pub open spec fn axis(self) -> int {
        match self {
            Turn::U(_) => 4,
            Turn::D(_) => 5,
            Turn::R(_) => 1,
            Turn::L(_) => 3,
            Turn::F(_) => 0,
            Turn::B(_) => 2,
        }
    }

    pub open spec fn amount(self) -> TurnType {
        match self {
            Turn::U(a) => a,
            Turn::D(a) => a,
            Turn::R(a) => a,
            Turn::L(a) => a,
            Turn::F(a) => a,
            Turn::B(a) => a,
        }
    }

    /// The turn of the same face by the amount `a`.
    pub open spec fn with_amount(self, a: TurnType) -> Turn {
        match self {
            Turn::U(_) => Turn::U(a),
            Turn::D(_) => Turn::D(a),
            Turn::R(_) => Turn::R(a),
            Turn::L(_) => Turn::L(a),
            Turn::F(_) => Turn::F(a),
            Turn::B(_) => Turn::B(a),
        }
    }

    /// The turn that undoes this one.
    pub open spec fn inverse(self) -> Turn {
        self.with_amount(self.amount().inverse())
    }

    /// Position of the face in the order U, D, R, L, F, B.
    pub open spec fn face_code(self) -> int {
        match self {
            Turn::U(_) => 0,
            Turn::D(_) => 1,
            Turn::R(_) => 2,
            Turn::L(_) => 3,
            Turn::F(_) => 4,
            Turn::B(_) => 5,
        }
    }

    /// Numbers the eighteen turns from 0 to 17: the face code, plus six
    /// times the amount code.
    pub open spec fn index(self) -> int {
        self.face_code() + 6 * self.amount().code()
    }

    pub open spec fn letter_of(self) -> char {
        match self {
            Turn::U(_) => 'U',
            Turn::D(_) => 'D',
            Turn::R(_) => 'R',
            Turn::L(_) => 'L',
            Turn::F(_) => 'F',
            Turn::B(_) => 'B',
        }
    }

    /// The turn that `index` numbers `i`.
    pub open spec fn numbered(i: int) -> Turn {
        let a = if i / 6 == 0 {
            TurnType::Clock
        } else if i / 6 == 1 {
            TurnType::Prime
        } else {
            TurnType::Double
        };
        let f = i % 6;
        if f == 0 {
            Turn::U(a)
        } else if f == 1 {
            Turn::D(a)
        } else if f == 2 {
            Turn::R(a)
        } else if f == 3 {
            Turn::L(a)
        } else if f == 4 {
            Turn::F(a)
        } else {
            Turn::B(a)
        }
    }

    /// The two-character (or one-character) cube-notation token.
    pub open spec fn notation_of(self) -> Seq<char> {
        seq![self.letter_of()] + self.amount().suffix_of()
    }

    /// The face letter of cube notation.
    pub fn letter(&self) -> (r: char)
        ensures
            r == self.letter_of(),
    {
        match self {
            Turn::U(_) => 'U',
            Turn::D(_) => 'D',
            Turn::R(_) => 'R',
            Turn::L(_) => 'L',
            Turn::F(_) => 'F',
            Turn::B(_) => 'B',
        }
    }

    /// The index of the rotated face, as `axis` gives it.
    pub fn face_index(&self) -> (r: usize)
        ensures
            r == self.axis(),
    {
        match self {
            Turn::U(_) => 4,
            Turn::D(_) => 5,
            Turn::R(_) => 1,
            Turn::L(_) => 3,
            Turn::F(_) => 0,
            Turn::B(_) => 2,
        }
    }

    /// The face's position in the order U, D, R, L, F, B, as `face_code` gives it.
    pub fn face_number(&self) -> (r: u32)
        ensures
            r == self.face_code(),
    {
        match self {
            Turn::U(_) => 0,
            Turn::D(_) => 1,
            Turn::R(_) => 2,
            Turn::L(_) => 3,
            Turn::F(_) => 4,
            Turn::B(_) => 5,
        }
    }

    pub fn turn_type(&self) -> (r: TurnType)
        ensures
            r == self.amount(),
    {
        match self {
            Turn::U(a) => *a,
            Turn::D(a) => *a,
            Turn::R(a) => *a,
            Turn::L(a) => *a,
            Turn::F(a) => *a,
            Turn::B(a) => *a,
        }
    }

    /// The turn numbered `i` by `index`: amount `i / 6`, face `i % 6`.
    /// Drawing `i` uniformly from `0..18` draws a turn uniformly.
    pub fn from_index(i: u32) -> (r: Turn)
        requires
            i < 18,
        ensures
            r == Turn::numbered(i as int),
            r.index() == i,
            r.face_code() == i % 6,
            r.amount().code() == i / 6,
    {
        let turn_type = match i / 6 {
            0 => TurnType::Clock,
            1 => TurnType::Prime,
            _ => TurnType::Double,
        };
        match i % 6 {
            0 => Turn::U(turn_type),
            1 => Turn::D(turn_type),
            2 => Turn::R(turn_type),
            3 => Turn::L(turn_type),
            4 => Turn::F(turn_type),
            _ => Turn::B(turn_type),
        }
    }
}

} // verus!
