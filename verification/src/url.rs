//! Building the URLs that the registry and its callers use.
//!
//! Every service lives on the local host, so its base URL is determined by
//! its port alone: `http://localhost:{port}`. The health endpoint appends
//! `/health`. Two fixed endpoints serve raw status text: `/status` on port
//! 9999 and `/consciousness` on port 9998.

use vstd::prelude::*;

verus! {

/// The decimal digit character for a value in 0..=9.
pub open spec fn spec_digit_char(d: int) -> char {
    if d == 0 {
        '0'
    } else if d == 1 {
        '1'
    } else if d == 2 {
        '2'
    } else if d == 3 {
        '3'
    } else if d == 4 {
        '4'
    } else if d == 5 {
        '5'
    } else if d == 6 {
        '6'
    } else if d == 7 {
        '7'
    } else if d == 8 {
        '8'
    } else {
        '9'
    }
}

/// The decimal representation of a non-negative integer, without leading
/// zeros (except for the single digit of zero itself).
pub open spec fn spec_decimal(n: int) -> Seq<char>
    decreases n,
{
    if n < 10 {
        seq![spec_digit_char(n)]
    } else {
        spec_decimal(n / 10).push(spec_digit_char(n % 10))
    }
}

/// The base URL of the service on the given local port.
pub open spec fn spec_base_url(port: u16) -> Seq<char> {
    "http://localhost:"@ + spec_decimal(port as int)
}

/// The health endpoint of the service on the given local port.
pub open spec fn spec_health_url(port: u16) -> Seq<char> {
    spec_base_url(port) + "/health"@
}

/// The one-character string for a decimal digit below ten.
fn digit_str(d: u16) -> (s: &'static str)
    requires
        d < 10,
    ensures
        s@ =~= seq![spec_digit_char(d as int)],
{
    proof {
        reveal_strlit("0");
        reveal_strlit("1");
        reveal_strlit("2");
        reveal_strlit("3");
        reveal_strlit("4");
        reveal_strlit("5");
        reveal_strlit("6");
        reveal_strlit("7");
        reveal_strlit("8");
        reveal_strlit("9");
    }
    match d {
        0 => "0",
        1 => "1",
        2 => "2",
        3 => "3",
        4 => "4",
        5 => "5",
        6 => "6",
        7 => "7",
        8 => "8",
        _ => "9",
    }
}

/// Renders a number in decimal.
pub fn decimal_string(n: u16) -> (s: String)
    ensures
        s@ == spec_decimal(n as int),
    decreases n,
{
    if n < 10 {
        let s = String::from_str(digit_str(n));
        proof {
            assert(s@ =~= spec_decimal(n as int));
        }
        s
    } else {
        let mut s = decimal_string(n / 10);
        s.append(digit_str(n % 10));
        proof {
            assert(s@ =~= spec_decimal(n as int));
        }
        s
    }
}

/// The base URL `http://localhost:{port}` of a local service.
pub fn base_url(port: u16) -> (s: String)
    ensures
        s@ == spec_base_url(port),
{
    let mut s = String::from_str("http://localhost:");
    let digits = decimal_string(port);
    s.append(digits.as_str());
    s
}

/// The health endpoint `http://localhost:{port}/health` of a local service.
pub fn health_url(port: u16) -> (s: String)
    ensures
        s@ == spec_health_url(port),
{
    let mut s = base_url(port);
    s.append("/health");
    s
}

} // verus!
