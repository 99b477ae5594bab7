use vstd::prelude::*;
use vstd::string::StringExecFns;
use crate::state::Config;
use crate::token::TransferMsg;

verus! {

/// One key-value pair of descriptive output metadata.
#[derive(Debug)]
pub struct Attribute {
    pub key: String,
    pub value: String,
}

/// The observable output of a successful operation: zero or more transfer
/// instructions plus descriptive attributes.
#[derive(Debug)]
pub struct Response {
    pub messages: Vec<TransferMsg>,
    pub attributes: Vec<Attribute>,
}

/// Answer to the config query: the full stored config record.
#[derive(Debug)]
pub struct ConfigResponse(pub Config);

/// Answer to the has-claimed query.
#[derive(Debug)]
pub struct HasClaimedResponse {
    pub has_claimed: bool,
}

pub open spec fn digit_char(d: nat) -> char {
    if d == 0 {
        '0'
    } else if d == 1 {
        '1'
    } else if d == 2 {
        '2'
    } else if d == 3 {
        '3'
    } else if d == 4 {
        '4'
    } else if d == 5 {
        '5'
    } else if d == 6 {
        '6'
    } else if d == 7 {
        '7'
    } else if d == 8 {
        '8'
    } else {
        '9'
    }
}

/// Decimal representation of a number, most significant digit first, with
/// no leading zeroes (a lone `0` for zero).
pub open spec fn dec_str(n: nat) -> Seq<char>
    decreases n,
{
    if n < 10 {
        seq![digit_char(n)]
    } else {
        dec_str(n / 10) + seq![digit_char(n % 10)]
    }
}

fn digit_str(d: u128) -> (s: &'static str)
    requires
        d < 10,
    ensures
        s@ == seq![digit_char(d as nat)],
{
    let s: &'static str = if d == 0 {
        "0"
    } else if d == 1 {
        "1"
    } else if d == 2 {
        "2"
    } else if d == 3 {
        "3"
    } else if d == 4 {
        "4"
    } else if d == 5 {
        "5"
    } else if d == 6 {
        "6"
    } else if d == 7 {
        "7"
    } else if d == 8 {
        "8"
    } else {
        "9"
    };
    proof {
        reveal_strlit("0");
        reveal_strlit("1");
        reveal_strlit("2");
        reveal_strlit("3");
        reveal_strlit("4");
        reveal_strlit("5");
        reveal_strlit("6");
        reveal_strlit("7");
        reveal_strlit("8");
        reveal_strlit("9");
        assert(s@ =~= seq![digit_char(d as nat)]);
    }
    s
}

/// Formats an amount in decimal, as the attribute values of a response
/// carry it.
pub fn fmt_u128(n: u128) -> (s: String)
    ensures
        s@ == dec_str(n as nat),
    decreases n,
{
    let digit = digit_str(n % 10);
    if n < 10 {
        digit.to_owned()
    } else {
        let mut s = fmt_u128(n / 10);
        s.append(digit);
        s
    }
}

} // verus!
