//! Stream-relative presentation timestamps and their textual rendering.
//!
//! Every video frame and every metadata record carries a `Timestamp`: a
//! monotonic, stream-relative instant in milliseconds. "Unset" is a valid,
//! distinct state. The overlay renders a timestamp as `<n>ms`, or `unset`
//! when no instant is attached.

use vstd::prelude::*;
use vstd::string::StringExecFns;

verus! {

/// A stream-relative presentation timestamp in milliseconds, or `Unset`
/// when the producing stage attached no instant.
#[derive(Clone, Copy, PartialEq, Eq, Structural, Debug)]
pub enum Timestamp {
    Unset,
    At(u64),
}

impl Timestamp {
    /// Whether an instant is attached.
    pub open spec fn is_set(self) -> bool {
        match self {
            Timestamp::Unset => false,
            Timestamp::At(_) => true,
        }
    }

    /// The attached instant, in milliseconds.
    pub open spec fn spec_millis(self) -> u64
        recommends
            self.is_set(),
    {
        match self {
            Timestamp::Unset => 0,
            Timestamp::At(ms) => ms,
        }
    }

    /// The attached instant, if any.
    pub fn millis(self) -> (r: Option<u64>)
        ensures
            r == (match self {
                Timestamp::Unset => Option::<u64>::None,
                Timestamp::At(ms) => Option::<u64>::Some(ms),
            }),
    {
        match self {
            Timestamp::Unset => None,
            Timestamp::At(ms) => Some(ms),
        }
    }
}

/// The character for a single decimal digit.
pub open spec fn digit_char(d: nat) -> char {
    if d == 0 {
        '0'
    } else if d == 1 {
        '1'
    } else if d == 2 {
        '2'
    } else if d == 3 {
        '3'
    } else if d == 4 {
        '4'
    } else if d == 5 {
        '5'
    } else if d == 6 {
        '6'
    } else if d == 7 {
        '7'
    } else if d == 8 {
        '8'
    } else {
        '9'
    }
}

/// The decimal rendering of a natural number, most significant digit first,
/// with no leading zeros (zero itself renders as the single digit `0`).
pub open spec fn dec_digits(n: nat) -> Seq<char>
    decreases n,
{
    if n < 10 {
        seq![digit_char(n)]
    } else {
        dec_digits(n / 10).push(digit_char(n % 10))
    }
}

/// The one-character string for a decimal digit.
fn digit_str(d: u64) -> (r: &'static str)
    requires
        d < 10,
    ensures
        r@ == seq![digit_char(d as nat)],
{
    let s: &'static str = if d == 0 {
        "0"
    } else if d == 1 {
        "1"
    } else if d == 2 {
        "2"
    } else if d == 3 {
        "3"
    } else if d == 4 {
        "4"
    } else if d == 5 {
        "5"
    } else if d == 6 {
        "6"
    } else if d == 7 {
        "7"
    } else if d == 8 {
        "8"
    } else {
        "9"
    };
    proof {
        reveal_strlit("0");
        reveal_strlit("1");
        reveal_strlit("2");
        reveal_strlit("3");
        reveal_strlit("4");
        reveal_strlit("5");
        reveal_strlit("6");
        reveal_strlit("7");
        reveal_strlit("8");
        reveal_strlit("9");
        assert(s@ =~= seq![digit_char(d as nat)]);
    }
    s
}

/// Renders a number in decimal.
pub fn u64_dec(n: u64) -> (r: String)
    ensures
        r@ == dec_digits(n as nat),
    decreases n,
{
    if n < 10 {
        String::from_str(digit_str(n))
    } else {
        let mut s = u64_dec(n / 10);
        let d = digit_str(n % 10);
        s.append(d);
        proof {
            assert(s@ =~= dec_digits((n / 10) as nat).push(digit_char((n % 10) as nat)));
        }
        s
    }
}

/// The textual rendering of a timestamp: `<n>ms`, or `unset`.
pub open spec fn timestamp_text(t: Timestamp) -> Seq<char> {
    match t {
        Timestamp::Unset => "unset"@,
        Timestamp::At(ms) => dec_digits(ms as nat) + "ms"@,
    }
}

/// Renders a timestamp for diagnostic and overlay output.
pub fn format_timestamp(t: Timestamp) -> (r: String)
    ensures
        r@ == timestamp_text(t),
{
    match t {
        Timestamp::Unset => String::from_str("unset"),
        Timestamp::At(ms) => u64_dec(ms).concat("ms"),
    }
}

} // verus!
