//! How many calls a method mock expects.

use vstd::prelude::*;
use vstd::string::StringExecFns;

verus! {

/// The calls that a method mock accepts, by count.
#[derive(Clone, Copy, Debug, PartialEq, Eq, Structural)]
pub enum Times {
    /// Exactly this many calls.
    Exact(u64),
    /// Any number of calls.
    Unbounded,
    /// From the first bound (included) up to the second (excluded).
    Range(u64, u64),
    /// At least this many calls.
    RangeFrom(u64),
    /// Fewer than this many calls.
    RangeTo(u64),
    /// At most this many calls.
    RangeToInclusive(u64),
    /// From the first bound up to the second, both included.
    RangeInclusive(u64, u64),
}

impl Times {
    /// Whether `n` calls lie in the set of counts that `self` declares.
    pub open spec fn accepts(self, n: int) -> bool {
        match self {
            Times::Exact(e) => n == e,
            Times::Unbounded => true,
            Times::Range(lo, hi) => lo <= n < hi,
            Times::RangeFrom(lo) => lo <= n,
            Times::RangeTo(hi) => n < hi,
            Times::RangeToInclusive(hi) => n <= hi,
            Times::RangeInclusive(lo, hi) => lo <= n <= hi,
        }
    }

    /// The set of call counts that `self` declares.
    pub open spec fn counts(self) -> Set<nat> {
        Set::new(|n: nat| self.accepts(n as int))
    }

    /// Whether `n_calls` calls meet this expectation.
    pub fn contains(&self, n_calls: u64) -> (r: bool)
        ensures
            r == self.accepts(n_calls as int),
            r == self.counts().contains(n_calls as nat),
    {
        match self {
            Times::Exact(e) => *e == n_calls,
            Times::Unbounded => true,
            Times::Range(lo, hi) => *lo <= n_calls && n_calls < *hi,
            Times::RangeFrom(lo) => *lo <= n_calls,
            Times::RangeTo(hi) => n_calls < *hi,
            Times::RangeToInclusive(hi) => n_calls <= *hi,
            Times::RangeInclusive(lo, hi) => *lo <= n_calls && n_calls <= *hi,
        }
    }

    /// How `self` reads as text, with `x` for the number of calls.
    pub open spec fn text(self) -> Seq<char> {
        match self {
            Times::Exact(e) => "== "@ + decimal(e as nat),
            Times::Unbounded => "0 <= x"@,
            Times::Range(lo, hi) => decimal(lo as nat) + " <= x < "@ + decimal(hi as nat),
            Times::RangeFrom(lo) => decimal(lo as nat) + " <= x"@,
            Times::RangeTo(hi) => "0 <= x < "@ + decimal(hi as nat),
            Times::RangeToInclusive(hi) => "0 <= x <= "@ + decimal(hi as nat),
            Times::RangeInclusive(lo, hi) => decimal(lo as nat) + " <= x <= "@ + decimal(hi as nat),
        }
    }

    /// The expectation as text, such as `2 <= x < 5`.
    pub fn describe(&self) -> (r: String)
        ensures
            r@ == self.text(),
    {
        match self {
            Times::Exact(e) => String::from_str("== ").concat(decimal_text(*e).as_str()),
            Times::Unbounded => String::from_str("0 <= x"),
            Times::Range(lo, hi) => decimal_text(*lo).concat(" <= x < ").concat(
                decimal_text(*hi).as_str(),
            ),
            Times::RangeFrom(lo) => decimal_text(*lo).concat(" <= x"),
            Times::RangeTo(hi) => String::from_str("0 <= x < ").concat(decimal_text(*hi).as_str()),
            Times::RangeToInclusive(hi) => String::from_str("0 <= x <= ").concat(
                decimal_text(*hi).as_str(),
            ),
            Times::RangeInclusive(lo, hi) => decimal_text(*lo).concat(" <= x <= ").concat(
                decimal_text(*hi).as_str(),
            ),
        }
    }
}

impl From<u64> for Times {
    fn from(x: u64) -> (r: Times)
        ensures
            r == Times::Exact(x),
    {
        Times::Exact(x)
    }
}

impl vstd::std_specs::convert::FromSpecImpl<u64> for Times {
    open spec fn obeys_from_spec() -> bool {
        true
    }

    open spec fn from_spec(x: u64) -> Times {
        Times::Exact(x)
    }
}

/// The character of a decimal digit.
pub open spec fn digit_char(d: nat) -> char {
    if d == 0 {
        '0'
    } else if d == 1 {
        '1'
    } else if d == 2 {
        '2'
    } else if d == 3 {
        '3'
    } else if d == 4 {
        '4'
    } else if d == 5 {
        '5'
    } else if d == 6 {
        '6'
    } else if d == 7 {
        '7'
    } else if d == 8 {
        '8'
    } else {
        '9'
    }
}

/// `n` in decimal, most significant digit first, with no leading zeros.
pub open spec fn decimal(n: nat) -> Seq<char>
    decreases n,
{
    if n < 10 {
        seq![digit_char(n)]
    } else {
        decimal(n / 10).push(digit_char(n % 10))
    }
}

/// Relies on `ToString` for `u64` (through its `Display`): the decimal
/// digits of the number, most significant first, with no sign and no leading
/// zeros.
#[verifier::external_body]
fn decimal_text(n: u64) -> (r: String)
    ensures
        r@ == decimal(n as nat),
{
    n.to_string()
}

} // verus!
