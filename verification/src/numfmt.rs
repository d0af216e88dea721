use vstd::arithmetic::div_mod::{
    lemma_div_decreases, lemma_fundamental_div_mod, lemma_mod_bound, lemma_small_mod,
};
use vstd::prelude::*;
use vstd::string::StringExecFns;

verus! {

// Decimal rendering of counters and rates for table rows. The broker's
// numbers are formatted without any locale or padding, so the whole
// behaviour fits a short spec function and is proved rather than trusted.

/// The decimal digit character for a value below ten.
pub open spec fn dec_digit(d: nat) -> char
    recommends
        d < 10,
{
    if d == 0 {
        '0'
    } else if d == 1 {
        '1'
    } else if d == 2 {
        '2'
    } else if d == 3 {
        '3'
    } else if d == 4 {
        '4'
    } else if d == 5 {
        '5'
    } else if d == 6 {
        '6'
    } else if d == 7 {
        '7'
    } else if d == 8 {
        '8'
    } else {
        '9'
    }
}

/// The usual decimal rendering of `n`: most significant digit first, no
/// leading zeros (except for zero itself).
pub open spec fn dec_str(n: nat) -> Seq<char>
    decreases n,
{
    if n < 10 {
        seq![dec_digit(n)]
    } else {
        dec_str(n / 10).push(dec_digit(n % 10))
    }
}

/// The one-character string for a digit.
fn digit_literal(d: u64) -> (r: &'static str)
    requires
        d < 10,
    ensures
        r@ == seq![dec_digit(d as nat)],
{
    proof {
        reveal_strlit("0");
        reveal_strlit("1");
        reveal_strlit("2");
        reveal_strlit("3");
        reveal_strlit("4");
        reveal_strlit("5");
        reveal_strlit("6");
        reveal_strlit("7");
        reveal_strlit("8");
        reveal_strlit("9");
    }
    match d {
        0 => "0",
        1 => "1",
        2 => "2",
        3 => "3",
        4 => "4",
        5 => "5",
        6 => "6",
        7 => "7",
        8 => "8",
        _ => "9",
    }
}

/// Render `n` in decimal.
pub fn u64_to_dec_string(n: u64) -> (r: String)
    ensures
        r@ == dec_str(n as nat),
{
    proof {
        lemma_mod_bound(n as int, 10);
    }
    let mut out: String = String::from_str(digit_literal(n % 10));
    let mut m: u64 = n / 10;
    proof {
        if n >= 10 {
            lemma_small_mod(n as nat % 10, 10);
            assert(dec_str(n as nat) == dec_str(n as nat / 10).push(dec_digit(n as nat % 10)));
            assert(dec_str(n as nat) =~= dec_str(m as nat) + out@);
        } else {
            lemma_small_mod(n as nat, 10);
        }
    }
    while m > 0
        invariant
            if m == 0 {
                out@ == dec_str(n as nat)
            } else {
                dec_str(n as nat) == dec_str(m as nat) + out@
            },
        decreases m,
    {
        proof {
            lemma_mod_bound(m as int, 10);
            lemma_div_decreases(m as int, 10);
        }
        let d: u64 = m % 10;
        let next: u64 = m / 10;
        let prefix: String = String::from_str(digit_literal(d));
        let ghost old_out = out@;
        out = prefix.concat(out.as_str());
        proof {
            if next == 0 {
                // m < 10, so dec_str(m) is the single digit just prepended
                lemma_fundamental_div_mod(m as int, 10);
                lemma_small_mod(m as nat, 10);
                assert(out@ =~= dec_str(m as nat) + old_out);
            } else {
                assert(dec_str(m as nat) == dec_str(m as nat / 10).push(dec_digit(m as nat % 10)));
                assert(dec_str(next as nat) + out@ =~= dec_str(m as nat) + old_out);
            }
        }
        m = next;
    }
    out
}

/// Render a rate as the broker's tables show it: the decimal value with a
/// per-second suffix.
pub fn rate_string(n: u64) -> (r: String)
    ensures
        r@ == dec_str(n as nat) + "/s"@,
{
    let num = u64_to_dec_string(n);
    num.concat("/s")
}

} // verus!
