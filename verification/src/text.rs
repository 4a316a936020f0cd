//! Decimal rendering of integers and the URL strings derived from an
//! allocated port. Everything the supervisor shows to its callers is
//! built from these, so their contracts pin the exact character
//! sequences down.

use vstd::prelude::*;
use vstd::string::StringExecFns;

verus! {

/// The character for a single decimal digit `d` (`0 <= d <= 9`).
pub open spec fn digit_char(d: nat) -> char {
    if d == 0 {
        '0'
    } else if d == 1 {
        '1'
    } else if d == 2 {
        '2'
    } else if d == 3 {
        '3'
    } else if d == 4 {
        '4'
    } else if d == 5 {
        '5'
    } else if d == 6 {
        '6'
    } else if d == 7 {
        '7'
    } else if d == 8 {
        '8'
    } else {
        '9'
    }
}

/// The decimal digit sequence of `n`, most significant digit first, with
/// no leading zeros (`0` itself is the single character `'0'`).
pub open spec fn dec_digits(n: nat) -> Seq<char>
    decreases n,
{
    if n < 10 {
        seq![digit_char(n)]
    } else {
        dec_digits(n / 10) + seq![digit_char(n % 10)]
    }
}

fn digit_str(d: u64) -> (s: &'static str)
    requires
        d < 10,
    ensures
        s@ == seq![digit_char(d as nat)],
{
    if d == 0 {
        proof {
            reveal_strlit("0");
            assert("0"@ =~= seq![digit_char(0)]);
        }
        "0"
    } else if d == 1 {
        proof {
            reveal_strlit("1");
            assert("1"@ =~= seq![digit_char(1)]);
        }
        "1"
    } else if d == 2 {
        proof {
            reveal_strlit("2");
            assert("2"@ =~= seq![digit_char(2)]);
        }
        "2"
    } else if d == 3 {
        proof {
            reveal_strlit("3");
            assert("3"@ =~= seq![digit_char(3)]);
        }
        "3"
    } else if d == 4 {
        proof {
            reveal_strlit("4");
            assert("4"@ =~= seq![digit_char(4)]);
        }
        "4"
    } else if d == 5 {
        proof {
            reveal_strlit("5");
            assert("5"@ =~= seq![digit_char(5)]);
        }
        "5"
    } else if d == 6 {
        proof {
            reveal_strlit("6");
            assert("6"@ =~= seq![digit_char(6)]);
        }
        "6"
    } else if d == 7 {
        proof {
            reveal_strlit("7");
            assert("7"@ =~= seq![digit_char(7)]);
        }
        "7"
    } else if d == 8 {
        proof {
            reveal_strlit("8");
            assert("8"@ =~= seq![digit_char(8)]);
        }
        "8"
    } else {
        proof {
            reveal_strlit("9");
            assert("9"@ =~= seq![digit_char(9)]);
        }
        "9"
    }
}

/// Renders `n` in decimal, most significant digit first.
pub fn u64_to_dec(n: u64) -> (s: String)
    ensures
        s@ == dec_digits(n as nat),
    decreases n,
{
    if n < 10 {
        digit_str(n).to_owned()
    } else {
        let q: u64 = n / 10;
        let r: u64 = n % 10;
        let prefix = u64_to_dec(q);
        prefix.concat(digit_str(r))
    }
}

/// The base URL a client uses to reach the backend bound to `port`.
pub open spec fn base_url_chars(port: u16) -> Seq<char> {
    "http://127.0.0.1:"@ + dec_digits(port as nat) + "/api"@
}

/// The URL of the backend's readiness endpoint on `port`.
pub open spec fn health_url_chars(port: u16) -> Seq<char> {
    "http://127.0.0.1:"@ + dec_digits(port as nat) + "/api/health"@
}

/// Builds the API base URL for a backend bound to `port`.
pub fn base_url(port: u16) -> (s: String)
    ensures
        s@ == base_url_chars(port),
{
    let origin = "http://127.0.0.1:".to_owned();
    origin.concat(u64_to_dec(port as u64).as_str()).concat("/api")
}

/// Builds the health-endpoint URL for a backend bound to `port`.
pub fn health_url(port: u16) -> (s: String)
    ensures
        s@ == health_url_chars(port),
{
    let origin = "http://127.0.0.1:".to_owned();
    origin.concat(u64_to_dec(port as u64).as_str()).concat("/api/health")
}

} // verus!
