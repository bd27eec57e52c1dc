//! Error taxonomy: build errors, transport errors, protocol validation
//! errors, and the query error that unions them for callers.

use vstd::prelude::*;
use vstd::string::*;

verus! {

/// The decimal digit character for a value below ten.
pub open spec fn spec_digit_char(d: int) -> char {
    if d == 0 {
        '0'
    } else if d == 1 {
        '1'
    } else if d == 2 {
        '2'
    } else if d == 3 {
        '3'
    } else if d == 4 {
        '4'
    } else if d == 5 {
        '5'
    } else if d == 6 {
        '6'
    } else if d == 7 {
        '7'
    } else if d == 8 {
        '8'
    } else {
        '9'
    }
}

/// The decimal rendering of a non-negative number, most significant digit
/// first.
pub open spec fn spec_decimal(n: int) -> Seq<char>
    decreases n,
{
    if n < 10 {
        seq![spec_digit_char(n)]
    } else {
        spec_decimal(n / 10).push(spec_digit_char(n % 10))
    }
}

/// The one-character string for a decimal digit.
fn digit_literal(d: usize) -> (s: &'static str)
    requires
        d < 10,
    ensures
        s@ =~= seq![spec_digit_char(d as int)],
{
    proof {
        reveal_strlit("0");
        reveal_strlit("1");
        reveal_strlit("2");
        reveal_strlit("3");
        reveal_strlit("4");
        reveal_strlit("5");
        reveal_strlit("6");
        reveal_strlit("7");
        reveal_strlit("8");
        reveal_strlit("9");
    }
    if d == 0 {
        "0"
    } else if d == 1 {
        "1"
    } else if d == 2 {
        "2"
    } else if d == 3 {
        "3"
    } else if d == 4 {
        "4"
    } else if d == 5 {
        "5"
    } else if d == 6 {
        "6"
    } else if d == 7 {
        "7"
    } else if d == 8 {
        "8"
    } else {
        "9"
    }
}

/// Render a number in decimal.
fn decimal_string(n: usize) -> (r: String)
    ensures
        r@ == spec_decimal(n as int),
    decreases n,
{
    if n < 10 {
        let s = digit_literal(n);
        s.to_owned()
    } else {
        let prefix = decimal_string(n / 10);
        let r = prefix.concat(digit_literal(n % 10));
        proof {
            assert(r@ =~= spec_decimal(n as int));
        }
        r
    }
}

/// Which field of a response a validation error refers to: a byte position
/// or a named logical field.
#[derive(Debug)]
pub enum FieldIdentifier {
    Position(usize),
    Logical(String),
}

impl FieldIdentifier {
    /// What `human_readable` returns.
    pub open spec fn spec_human_readable(self) -> Seq<char> {
        match self {
            FieldIdentifier::Position(pos) => "at position "@ + spec_decimal(pos as int),
            FieldIdentifier::Logical(name) => "in '"@ + name@ + "'"@,
        }
    }

    /// A prose rendering of the field reference, for error messages.
    pub fn human_readable(&self) -> (r: String)
        ensures
            r@ == self.spec_human_readable(),
    {
        match self {
            FieldIdentifier::Position(pos) => {
                proof {
                    reveal_strlit("at position ");
                }
                let prefix: String = "at position ".to_owned();
                let digits = decimal_string(*pos);
                prefix.concat(digits.as_str())
            },
            FieldIdentifier::Logical(name) => {
                proof {
                    reveal_strlit("in '");
                    reveal_strlit("'");
                }
                let prefix: String = "in '".to_owned();
                let r = prefix.concat(name.as_str()).concat("'");
                proof {
                    assert(r@ =~= self.spec_human_readable());
                }
                r
            },
        }
    }
}

/// A field's observed or expected value.
#[derive(Clone, Copy, Debug, PartialEq, Eq, Structural)]
pub enum FieldValue {
    Byte(u8),
}

/// Why a response failed validation: wrong payload length, wrong service
/// identifier, or a wrong echoed field value. Each names the offending field
/// with both actual and expected values.
#[derive(Debug)]
pub enum InvalidResponseKind {
    PayloadSize { actual: usize, expected: usize },
    ServiceId { actual: u8, expected: u8 },
    FieldValue { field_id: FieldIdentifier, actual: FieldValue, expected: FieldValue },
}

/// A response that failed validation.
#[derive(Debug)]
pub struct InvalidResponse(pub InvalidResponseKind);

/// Why a socket could not be built: a missing required configuration field,
/// a device name that does not resolve, or another operating-system failure
/// during open.
#[derive(Debug)]
pub enum SocketBuildError {
    MissingRequiredField { field_name: &'static str },
    SocketNotFound,
    Io { message: String },
}

/// A failure of one read or write: an underlying I/O error, or the
/// operation's configured deadline (in milliseconds) elapsing first.
#[derive(Debug)]
pub enum SocketError {
    Io(String),
    Timeout(u64),
}

/// The union of failures surfaced to a discovery caller.
#[derive(Debug)]
pub enum QueryError {
    Initialization(SocketBuildError),
    Io(SocketError),
    InvalidResponse(InvalidResponse),
}

} // verus!
