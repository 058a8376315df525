//! Decimal rendering and parsing of nonnegative integers, as ASCII bytes.
//!
//! The launcher passes the parent process id to the helper as a decimal
//! string, and the channel tokens are decimal renderings of descriptor
//! numbers, so both sides of the bootstrap depend on this encoding being
//! exact and invertible.

use vstd::arithmetic::div_mod::lemma_fundamental_div_mod;
use vstd::prelude::*;

verus! {

/// ASCII code of the decimal digit `d`.
pub open spec fn digit_byte(d: int) -> u8 {
    (48 + d) as u8
}

/// Whether `b` is the ASCII code of a decimal digit.
pub open spec fn is_digit_byte(b: u8) -> bool {
    48 <= b && b <= 57
}

/// Whether every byte of `s` is an ASCII decimal digit.
pub open spec fn all_digit_bytes(s: Seq<u8>) -> bool {
    forall|i: int| 0 <= i < s.len() ==> is_digit_byte(#[trigger] s[i])
}

/// The decimal rendering of `n`, most significant digit first, without
/// leading zeros.
pub open spec fn dec_rep(n: int) -> Seq<u8>
    decreases n,
{
    if n < 10 {
        seq![digit_byte(n)]
    } else {
        dec_rep(n / 10).push(digit_byte(n % 10))
    }
}

/// The numeric value of a sequence of ASCII digit bytes.
pub open spec fn dec_val(s: Seq<u8>) -> int
    decreases s.len(),
{
    if s.len() == 0 {
        0
    } else {
        dec_val(s.drop_last()) * 10 + (s.last() - 48)
    }
}

/// Rendering a nonnegative integer yields a nonempty, all-digit sequence
/// whose value is the integer itself: parsing undoes rendering.
pub proof fn lemma_dec_rep_val(n: int)
    requires
        0 <= n,
    ensures
        dec_rep(n).len() >= 1,
        all_digit_bytes(dec_rep(n)),
        dec_val(dec_rep(n)) == n,
    decreases n,
{
    if n < 10 {
        let s = dec_rep(n);
        assert(s =~= seq![digit_byte(n)]);
        assert(s.drop_last() =~= Seq::<u8>::empty());
        assert(s.last() == digit_byte(n));
        assert(digit_byte(n) == 48 + n);
        assert(is_digit_byte(digit_byte(n)));
        assert(dec_val(Seq::<u8>::empty()) == 0);
        assert(dec_val(s) == dec_val(s.drop_last()) * 10 + (s.last() - 48));
    } else {
        lemma_dec_rep_val(n / 10);
        let p = dec_rep(n / 10);
        let d = digit_byte(n % 10);
        let s = dec_rep(n);
        assert(s == p.push(d));
        assert(s.drop_last() =~= p);
        assert(s.last() == d);
        lemma_fundamental_div_mod(n, 10);
        assert(d == 48 + n % 10);
        assert(is_digit_byte(d));
        assert(dec_val(s) == dec_val(s.drop_last()) * 10 + (s.last() - 48));
        assert forall|i: int| 0 <= i < s.len() implies is_digit_byte(#[trigger] s[i]) by {
            if i < p.len() {
                assert(s[i] == p[i]);
            }
        }
    }
}

/// The value of an all-digit sequence is nonnegative.
pub proof fn lemma_dec_val_nonneg(s: Seq<u8>)
    requires
        all_digit_bytes(s),
    ensures
        dec_val(s) >= 0,
    decreases s.len(),
{
    if s.len() > 0 {
        assert forall|i: int| 0 <= i < s.drop_last().len() implies is_digit_byte(
            #[trigger] s.drop_last()[i],
        ) by {
            assert(s.drop_last()[i] == s[i]);
        }
        lemma_dec_val_nonneg(s.drop_last());
        assert(is_digit_byte(s.last()));
    }
}

/// Extending an all-digit sequence never lowers its value.
pub proof fn lemma_dec_val_prefix_le(s: Seq<u8>, i: int)
    requires
        all_digit_bytes(s),
        0 <= i <= s.len(),
    ensures
        dec_val(s.take(i)) <= dec_val(s),
    decreases s.len() - i,
{
    if i < s.len() {
        let t = s.take(i + 1);
        assert(t.drop_last() =~= s.take(i));
        assert(t.last() == s[i]);
        assert forall|j: int| 0 <= j < s.take(i).len() implies is_digit_byte(
            #[trigger] s.take(i)[j],
        ) by {
            assert(s.take(i)[j] == s[j]);
        }
        lemma_dec_val_nonneg(s.take(i));
        assert(is_digit_byte(s[i]));
        assert(dec_val(t) == dec_val(s.take(i)) * 10 + (s[i] - 48));
        assert(dec_val(s.take(i)) <= dec_val(t));
        lemma_dec_val_prefix_le(s, i + 1);
    } else {
        assert(s.take(i) =~= s);
    }
}

/// Renders `n` in decimal, most significant digit first, without leading
/// zeros.
pub fn u32_to_dec(n: u32) -> (r: Vec<u8>)
    ensures
        r@ == dec_rep(n as int),
    decreases n,
{
    if n < 10 {
        let mut v: Vec<u8> = Vec::new();
        v.push(48u8 + (n as u8));
        proof {
            assert(v@ =~= dec_rep(n as int));
        }
        v
    } else {
        let mut v = u32_to_dec(n / 10);
        v.push(48u8 + ((n % 10) as u8));
        proof {
            assert(v@ =~= dec_rep(n as int));
        }
        v
    }
}

/// Parses a decimal rendering. Returns the value exactly when the input is
/// a nonempty, all-digit sequence whose value fits in a `u32`.
pub fn parse_dec(s: &Vec<u8>) -> (r: Option<u32>)
    ensures
        match r {
            Some(v) => s@.len() > 0 && all_digit_bytes(s@) && dec_val(s@) == v as int,
            None => s@.len() == 0 || !all_digit_bytes(s@) || dec_val(s@) > u32::MAX as int,
        },
{
    if s.len() == 0 {
        return None;
    }
    let mut acc: u32 = 0;
    let mut i: usize = 0;
    while i < s.len()
        invariant
            0 <= i <= s@.len(),
            all_digit_bytes(s@.take(i as int)),
            acc as int == dec_val(s@.take(i as int)),
        decreases s@.len() - i,
    {
        let b = s[i];
        if b < 48 || b > 57 {
            return None;
        }
        let d: u32 = (b - 48) as u32;
        proof {
            let t = s@.take(i as int + 1);
            assert(t.drop_last() =~= s@.take(i as int));
            assert(t.last() == s@[i as int]);
            assert(dec_val(t) == acc as int * 10 + d as int);
            assert forall|j: int| 0 <= j < t.len() implies is_digit_byte(#[trigger] t[j]) by {
                assert(t[j] == s@[j]);
            }
            lemma_fundamental_div_mod(u32::MAX as int - d as int, 10);
        }
        if acc > (u32::MAX - d) / 10 {
            proof {
                assert(dec_val(s@.take(i as int + 1)) > u32::MAX as int);
                if all_digit_bytes(s@) {
                    lemma_dec_val_prefix_le(s@, i as int + 1);
                }
            }
            return None;
        }
        acc = acc * 10 + d;
        i = i + 1;
    }
    proof {
        assert(s@.take(i as int) =~= s@);
    }
    Some(acc)
}

} // verus!
