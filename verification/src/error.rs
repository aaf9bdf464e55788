//! Schema-construction errors. Both are configuration defects reported
//! synchronously while the schema is built; decoding itself never fails.

use vstd::prelude::*;
use vstd::string::StringExecFns;

verus! {

/// Why a schema could not be built.
#[derive(Debug, Clone, Copy, PartialEq, Eq)]
pub enum ParseError {
    /// Finalization found more declared fields than the record has bytes.
    InvalidLength { expected: usize, actual: usize },
    /// A field's byte range `position == (start, length)` would run past the
    /// record's fixed total length `max`.
    FieldOutOfBound { field: &'static str, position: (usize, usize), max: usize },
}

/// The decimal digit for `d`, expected below ten.
pub open spec fn dec_digit(d: nat) -> char {
    if d == 0 {
        '0'
    } else if d == 1 {
        '1'
    } else if d == 2 {
        '2'
    } else if d == 3 {
        '3'
    } else if d == 4 {
        '4'
    } else if d == 5 {
        '5'
    } else if d == 6 {
        '6'
    } else if d == 7 {
        '7'
    } else if d == 8 {
        '8'
    } else {
        '9'
    }
}

/// The decimal rendering of `n`, most significant digit first.
pub open spec fn dec_str(n: nat) -> Seq<char>
    decreases n,
{
    if n < 10 {
        seq![dec_digit(n)]
    } else {
        dec_str(n / 10).push(dec_digit(n % 10))
    }
}

/// The one-character text of the digit `d`.
fn digit_str(d: usize) -> (r: &'static str)
    requires
        d < 10,
    ensures
        r@ == seq![dec_digit(d as nat)],
{
    let r: &'static str = if d == 0 {
        "0"
    } else if d == 1 {
        "1"
    } else if d == 2 {
        "2"
    } else if d == 3 {
        "3"
    } else if d == 4 {
        "4"
    } else if d == 5 {
        "5"
    } else if d == 6 {
        "6"
    } else if d == 7 {
        "7"
    } else if d == 8 {
        "8"
    } else {
        "9"
    };
    proof {
        reveal_strlit("0");
        reveal_strlit("1");
        reveal_strlit("2");
        reveal_strlit("3");
        reveal_strlit("4");
        reveal_strlit("5");
        reveal_strlit("6");
        reveal_strlit("7");
        reveal_strlit("8");
        reveal_strlit("9");
        assert(r@ =~= seq![dec_digit(d as nat)]);
    }
    r
}

/// Appends the decimal rendering of `n` to `out`.
fn push_decimal(out: &mut String, n: usize)
    ensures
        final(out)@ == old(out)@ + dec_str(n as nat),
    decreases n,
{
    if n >= 10 {
        push_decimal(out, n / 10);
    }
    out.append(digit_str(n % 10));
    proof {
        if n >= 10 {
            assert(old(out)@ + dec_str((n / 10) as nat) + seq![dec_digit((n % 10) as nat)] =~= old(
                out,
            )@ + dec_str(n as nat));
        } else {
            assert(old(out)@ + seq![dec_digit(n as nat)] =~= old(out)@ + dec_str(n as nat));
        }
    }
}

impl ParseError {
    /// The report the error stands for, with the field name and position, so
    /// a layout author can locate the offending declaration.
    pub open spec fn spec_message(self) -> Seq<char> {
        match self {
            ParseError::InvalidLength { expected, actual } => "Invalid length parser, expected "@
                + dec_str(expected as nat) + ", got "@ + dec_str(actual as nat),
            ParseError::FieldOutOfBound { field, position, max } => "Field "@ + field@
                + " out of bound: ("@ + dec_str(position.0 as nat) + ", "@ + dec_str(
                position.1 as nat,
            ) + ")/"@ + dec_str(max as nat),
        }
    }

    /// Renders the error as text.
    pub fn message(&self) -> (r: String)
        ensures
            r@ == self.spec_message(),
    {
        let mut s = String::new();
        match self {
            ParseError::InvalidLength { expected, actual } => {
                s.append("Invalid length parser, expected ");
                push_decimal(&mut s, *expected);
                s.append(", got ");
                push_decimal(&mut s, *actual);
            },
            ParseError::FieldOutOfBound { field, position, max } => {
                s.append("Field ");
                s.append(field);
                s.append(" out of bound: (");
                push_decimal(&mut s, position.0);
                s.append(", ");
                push_decimal(&mut s, position.1);
                s.append(")/");
                push_decimal(&mut s, *max);
            },
        }
        proof {
            assert(s@ =~= self.spec_message());
        }
        s
    }
}

} // verus!
