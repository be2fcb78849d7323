//! The decimal length field of a frame header: rendering an unsigned value
//! as ASCII digits and parsing ASCII digits back, with the lemmas that make
//! the two inverse to each other.

use vstd::prelude::*;

verus! {

/// An ASCII decimal digit byte.
pub open spec fn is_digit(b: u8) -> bool {
    48 <= b <= 57
}

/// Every byte of `s` is an ASCII decimal digit.
pub open spec fn is_digit_seq(s: Seq<u8>) -> bool {
    forall|i: int| 0 <= i < s.len() ==> is_digit(#[trigger] s[i])
}

/// The canonical decimal rendering of `n` as ASCII digit bytes.
pub open spec fn dec_rep(n: int) -> Seq<u8>
    decreases n when n >= 0
{
    if n < 10 {
        seq![(48 + n) as u8]
    } else {
        dec_rep(n / 10) + seq![(48 + n % 10) as u8]
    }
}

/// The value of a string of ASCII digit bytes, read as a decimal numeral.
pub open spec fn dec_val(s: Seq<u8>) -> int
    decreases s.len()
{
    if s.len() == 0 {
        0
    } else {
        dec_val(s.drop_last()) * 10 + (s.last() as int - 48)
    }
}

/// A rendering consists of digits and is never empty.
pub proof fn lemma_dec_rep_digits(n: int)
    requires
        n >= 0,
    ensures
        is_digit_seq(dec_rep(n)),
        dec_rep(n).len() >= 1,
    decreases n,
{
    if n >= 10 {
        lemma_dec_rep_digits(n / 10);
    }
}

/// Parsing a canonical rendering gives the value back.
pub proof fn lemma_dec_val_of_rep(n: int)
    requires
        n >= 0,
    ensures
        dec_val(dec_rep(n)) == n,
    decreases n,
{
    if n < 10 {
        let s = dec_rep(n);
        assert(s == seq![(48 + n) as u8]);
        assert(s.drop_last() =~= Seq::<u8>::empty());
        assert(dec_val(Seq::<u8>::empty()) == 0);
        assert(s.last() as int == 48 + n);
        assert(dec_val(s) == dec_val(s.drop_last()) * 10 + (s.last() as int - 48));
    } else {
        lemma_dec_val_of_rep(n / 10);
        let d = (48 + n % 10) as u8;
        assert(0 <= n % 10 < 10);
        assert(d as int - 48 == n % 10);
        assert((dec_rep(n / 10) + seq![d]).drop_last() =~= dec_rep(n / 10));
        assert((dec_rep(n / 10) + seq![d]).last() == d);
        assert(n / 10 * 10 + n % 10 == n);
    }
}

/// The value of a digit string is never negative.
pub proof fn lemma_dec_val_nonneg(s: Seq<u8>)
    requires
        is_digit_seq(s),
    ensures
        dec_val(s) >= 0,
    decreases s.len(),
{
    if s.len() > 0 {
        assert(is_digit_seq(s.drop_last()));
        lemma_dec_val_nonneg(s.drop_last());
    }
}

/// Extending a digit string to the right never shrinks its value.
pub proof fn lemma_dec_val_take_le(s: Seq<u8>, i: int)
    requires
        is_digit_seq(s),
        0 <= i <= s.len(),
    ensures
        dec_val(s.take(i)) <= dec_val(s),
    decreases s.len() - i,
{
    if i < s.len() {
        assert(s.take(i + 1).drop_last() =~= s.take(i));
        assert(s.take(i + 1).last() == s[i]);
        assert(is_digit_seq(s.take(i)));
        lemma_dec_val_nonneg(s.take(i));
        lemma_dec_val_take_le(s, i + 1);
    } else {
        assert(s.take(i) =~= s);
    }
}

/// Renders `n` in decimal, appending the digits to `out`.
fn push_dec(out: &mut Vec<u8>, n: usize)
    ensures
        final(out)@ == old(out)@ + dec_rep(n as int),
    decreases n,
{
    if n < 10 {
        out.push(48 + n as u8);
        proof {
            assert(out@ =~= old(out)@ + dec_rep(n as int));
        }
    } else {
        push_dec(out, n / 10);
        out.push(48 + (n % 10) as u8);
        proof {
            assert(out@ =~= old(out)@ + dec_rep(n as int));
        }
    }
}

/// The canonical decimal rendering of `n`.
pub fn dec_render(n: usize) -> (r: Vec<u8>)
    ensures
        r@ == dec_rep(n as int),
{
    let mut out: Vec<u8> = Vec::new();
    push_dec(&mut out, n);
    proof {
        assert(out@ =~= dec_rep(n as int));
    }
    out
}

/// Parses `s` as an unsigned decimal numeral. `None` when `s` is empty,
/// holds a non-digit, or names a value beyond the machine word.
pub fn parse_dec(s: &Vec<u8>) -> (r: Option<usize>)
    ensures
        match r {
            Some(v) => is_digit_seq(s@) && s@.len() > 0 && dec_val(s@) == v,
            None => !is_digit_seq(s@) || s@.len() == 0 || dec_val(s@) > usize::MAX,
        },
{
    let n: usize = s.len();
    if n == 0 {
        return None;
    }
    let mut acc: usize = 0;
    let mut i: usize = 0;
    while i < n
        invariant
            i <= n,
            n == s@.len(),
            forall|j: int| 0 <= j < i ==> is_digit(#[trigger] s@[j]),
            acc == dec_val(s@.take(i as int)),
        decreases n - i,
    {
        let b = s[i];
        if b < 48 || b > 57 {
            return None;
        }
        let d: usize = (b - 48) as usize;
        proof {
            assert(s@.take((i + 1) as int).drop_last() =~= s@.take(i as int));
            assert(s@.take((i + 1) as int).last() == s@[i as int]);
        }
        if acc > (usize::MAX - d) / 10 {
            proof {
                assert(acc * 10 + d > usize::MAX) by (nonlinear_arith)
                    requires
                        acc > (usize::MAX - d) / 10,
                        d <= usize::MAX,
                        acc >= 0,
                {}
                if is_digit_seq(s@) {
                    lemma_dec_val_take_le(s@, (i + 1) as int);
                }
            }
            return None;
        }
        proof {
            assert(acc * 10 + d <= usize::MAX) by (nonlinear_arith)
                requires
                    acc <= (usize::MAX - d) / 10,
                    d <= usize::MAX,
                    acc >= 0,
            {}
        }
        acc = acc * 10 + d;
        i = i + 1;
    }
    proof {
        assert(s@.take(n as int) =~= s@);
    }
    Some(acc)
}

} // verus!
