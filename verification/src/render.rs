use vstd::prelude::*;

use vstd::string::StringExecFns;

verus! {

pub open spec fn spec_digit_char(d: int) -> char {
    seq!['0', '1', '2', '3', '4', '5', '6', '7', '8', '9'][d]
}

/// The decimal rendering of a number, most significant digit first.
pub open spec fn spec_u32_dec(n: int) -> Seq<char>
    decreases n,
{
    if n < 10 {
        seq![spec_digit_char(n)]
    } else {
        spec_u32_dec(n / 10).push(spec_digit_char(n % 10))
    }
}

/// One decimal digit as text.
fn digit_str(d: u32) -> (r: &'static str)
    requires
        d < 10,
    ensures
        r@ =~= seq![spec_digit_char(d as int)],
{
    proof {
        reveal_strlit("0");
        reveal_strlit("1");
        reveal_strlit("2");
        reveal_strlit("3");
        reveal_strlit("4");
        reveal_strlit("5");
        reveal_strlit("6");
        reveal_strlit("7");
        reveal_strlit("8");
        reveal_strlit("9");
    }
    if d == 0 {
        "0"
    } else if d == 1 {
        "1"
    } else if d == 2 {
        "2"
    } else if d == 3 {
        "3"
    } else if d == 4 {
        "4"
    } else if d == 5 {
        "5"
    } else if d == 6 {
        "6"
    } else if d == 7 {
        "7"
    } else if d == 8 {
        "8"
    } else {
        "9"
    }
}

/// Render a number in decimal.
pub fn u32_dec_string(n: u32) -> (r: String)
    ensures
        r@ == spec_u32_dec(n as int),
    decreases n,
{
    if n < 10 {
        let r = digit_str(n).to_owned();
        proof {
            assert(r@ =~= spec_u32_dec(n as int));
        }
        r
    } else {
        let mut r = u32_dec_string(n / 10);
        r.append(digit_str(n % 10));
        proof {
            assert(r@ =~= spec_u32_dec(n as int));
        }
        r
    }
}

/// The decimal rendering of a signed number.
pub open spec fn spec_i32_dec(n: int) -> Seq<char> {
    if n >= 0 {
        spec_u32_dec(n)
    } else {
        seq!['-'] + spec_u32_dec(-n)
    }
}

/// Render a signed number in decimal.
pub fn i32_dec_string(n: i32) -> (r: String)
    ensures
        r@ == spec_i32_dec(n as int),
{
    if n >= 0 {
        u32_dec_string(n as u32)
    } else {
        let mut r = "-".to_owned();
        let m = (-(n as i64)) as u32;
        r.append(u32_dec_string(m).as_str());
        proof {
            reveal_strlit("-");
            assert(r@ =~= spec_i32_dec(n as int));
        }
        r
    }
}

} // verus!
