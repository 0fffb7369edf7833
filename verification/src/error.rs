use vstd::prelude::*;

verus! {

/// Why a lookup failed, carrying the offending offset.
#[derive(Debug, Clone, Copy, PartialEq, Eq, Structural)]
pub enum GetScoreError {
    /// The offset lies outside the plausible timeline span: no data ever
    /// existed at this time.
    OutOfRange(i32),
    /// The offset is plausible, but no snapshot was recorded exactly there.
    NoSuchTimestamp(i32),
}

/// The character of a single decimal digit.
pub open spec fn digit_char(d: int) -> char {
    if d == 0 {
        '0'
    } else if d == 1 {
        '1'
    } else if d == 2 {
        '2'
    } else if d == 3 {
        '3'
    } else if d == 4 {
        '4'
    } else if d == 5 {
        '5'
    } else if d == 6 {
        '6'
    } else if d == 7 {
        '7'
    } else if d == 8 {
        '8'
    } else {
        '9'
    }
}

/// The decimal digits of a non-negative integer, most significant first,
/// without leading zeros.
pub open spec fn decimal_of_nat(n: nat) -> Seq<char>
    decreases n,
{
    if n < 10 {
        seq![digit_char(n as int)]
    } else {
        decimal_of_nat(n / 10) + seq![digit_char((n % 10) as int)]
    }
}

/// The decimal rendering of an integer: a minus sign for negative values,
/// then the digits without leading zeros.
pub open spec fn decimal_of(n: int) -> Seq<char> {
    if n < 0 {
        seq!['-'] + decimal_of_nat((-n) as nat)
    } else {
        decimal_of_nat(n as nat)
    }
}

/// Relies on `format!` with the `Display` implementation of `i32`: the
/// decimal rendering of the value, which depends on the value alone.
#[verifier::external_body]
fn i32_decimal(n: i32) -> (r: String)
    ensures
        r@ == decimal_of(n as int),
{
    format!("{}", n)
}

/// The text a lookup error presents to callers.
pub open spec fn error_text(e: GetScoreError) -> Seq<char> {
    match e {
        GetScoreError::OutOfRange(offset) => "Error: offset is out of range : "@
            + decimal_of(offset as int),
        GetScoreError::NoSuchTimestamp(offset) => "Error: no such timestamp: "@
            + decimal_of(offset as int),
    }
}

impl GetScoreError {
    /// Renders the error as its caller-facing message.
    pub fn message(&self) -> (r: String)
        ensures
            r@ == error_text(*self),
    {
        match self {
            GetScoreError::OutOfRange(offset) => {
                let digits = i32_decimal(*offset);
                String::from_str("Error: offset is out of range : ").concat(digits.as_str())
            },
            GetScoreError::NoSuchTimestamp(offset) => {
                let digits = i32_decimal(*offset);
                String::from_str("Error: no such timestamp: ").concat(digits.as_str())
            },
        }
    }
}

} // verus!
