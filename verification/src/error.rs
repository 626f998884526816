//! The library's error type, and the verified decimal formatting its
//! messages are built from.

use vstd::prelude::*;
use vstd::string::StrSliceExecFns;
use vstd::string::StringExecFns;

verus! {

/// What can go wrong in the core. A bar configured for a monitor that was
/// not enumerated is fatal at startup; the message names the offending index
/// and the valid range.
#[derive(Debug, Clone, PartialEq, Eq, Structural)]
pub enum Error {
    Unknown,
    MonitorOutOfRange { index: usize, count: usize },
}

/// The decimal digit character for a value below ten.
pub open spec fn dec_digit(d: nat) -> char {
    if d == 0 {
        '0'
    } else if d == 1 {
        '1'
    } else if d == 2 {
        '2'
    } else if d == 3 {
        '3'
    } else if d == 4 {
        '4'
    } else if d == 5 {
        '5'
    } else if d == 6 {
        '6'
    } else if d == 7 {
        '7'
    } else if d == 8 {
        '8'
    } else {
        '9'
    }
}

/// The decimal representation of `n`, most significant digit first, with no
/// leading zeros (a lone zero for `n == 0`).
pub open spec fn dec_rep(n: nat) -> Seq<char>
    decreases n,
{
    if n < 10 {
        seq![dec_digit(n)]
    } else {
        dec_rep(n / 10).push(dec_digit(n % 10))
    }
}

fn dec_digit_str(d: u64) -> (r: &'static str)
    requires
        d < 10,
    ensures
        r@ == seq![dec_digit(d as nat)],
{
    let r: &'static str = match d {
        0 => "0",
        1 => "1",
        2 => "2",
        3 => "3",
        4 => "4",
        5 => "5",
        6 => "6",
        7 => "7",
        8 => "8",
        _ => "9",
    };
    proof {
        reveal_strlit("0");
        reveal_strlit("1");
        reveal_strlit("2");
        reveal_strlit("3");
        reveal_strlit("4");
        reveal_strlit("5");
        reveal_strlit("6");
        reveal_strlit("7");
        reveal_strlit("8");
        reveal_strlit("9");
        assert(r@ =~= seq![dec_digit(d as nat)]);
    }
    r
}

/// Format `n` in decimal.
pub fn u64_to_string(n: u64) -> (r: String)
    ensures
        r@ == dec_rep(n as nat),
    decreases n,
{
    if n < 10 {
        let r = dec_digit_str(n).to_owned();
        proof {
            assert(r@ =~= dec_rep(n as nat));
        }
        r
    } else {
        let mut r = u64_to_string(n / 10);
        r.append(dec_digit_str(n % 10));
        proof {
            assert(r@ =~= dec_rep(n as nat));
        }
        r
    }
}

impl Error {
    /// The message of this error, character for character.
    pub open spec fn spec_message(self) -> Seq<char> {
        match self {
            Error::Unknown => "unknown"@,
            Error::MonitorOutOfRange { index, count } => "monitor index "@ + dec_rep(
                index as nat,
            ) + " out of range 0.."@ + dec_rep(count as nat),
        }
    }

    /// A human-readable description of the error.
    pub fn message(&self) -> (r: String)
        ensures
            r@ == self.spec_message(),
    {
        match self {
            Error::Unknown => "unknown".to_owned(),
            Error::MonitorOutOfRange { index, count } => {
                let mut r = String::from_str("monitor index ");
                r.append(u64_to_string(*index as u64).as_str());
                r.append(" out of range 0..");
                r.append(u64_to_string(*count as u64).as_str());
                proof {
                    assert(r@ =~= self.spec_message());
                }
                r
            },
        }
    }
}

} // verus!
