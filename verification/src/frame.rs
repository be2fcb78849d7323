//! The on-disk binary contract of an object: the frame
//! `<kind> SP <decimal payload length> NUL <payload>`, hashed whole and
//! stored compressed. Building a frame, splitting one back into its
//! sections, and the lemmas that make the two inverse to each other --
//! including the guarantee that a frame whose declared length disagrees
//! with its payload is rejected.

use vstd::prelude::*;
use vstd::string::StringExecFns;
use crate::errors::ErrorKind;
use crate::errors::WitError;
use crate::errors::encoding_err;
use crate::errors::io_err;
use crate::errors::malformed_object_err;
use crate::numeral::dec_rep;
use crate::numeral::dec_render;
use crate::numeral::dec_val;
use crate::numeral::is_digit_seq;
use crate::numeral::lemma_dec_rep_digits;
use crate::numeral::lemma_dec_val_of_rep;
use crate::numeral::parse_dec;
use crate::scan::Find;
use crate::scan::first_at;
use crate::scan::lemma_first_at_advance;
use crate::scan::lemma_first_at_props;
use crate::scan::push_range;
use crate::scan::sub_bytes;

verus! {

/// The framed byte representation of an object: kind tag, one space, the
/// payload length in ASCII decimal, one NUL, then the payload.
pub open spec fn frame_of(kind: Seq<u8>, payload: Seq<u8>) -> Seq<u8> {
    kind + seq![32u8] + dec_rep(payload.len() as int) + seq![0u8] + payload
}

/// The positions of the first space and of the first NUL at or after that
/// space, when both exist: the frame's header separators.
pub open spec fn header_split(d: Seq<u8>) -> Option<(int, int)> {
    match first_at(d, 32, 0) {
        None => None,
        Some(x) => match first_at(d, 0, x) {
            None => None,
            Some(y) => Some((x, y)),
        },
    }
}

/// Splits a decoded frame into its kind and payload sections, verifying
/// the declared length against the payload on every read. `sha` only names
/// the object in the malformed-length message.
pub fn parse_frame(decoded: &Vec<u8>, sha: &str) -> (r: Result<(Vec<u8>, Vec<u8>), WitError>)
    ensures
        match header_split(decoded@) {
            None => r matches Err(e) && e.kind == ErrorKind::Io,
            Some((x, y)) => ({
                let digits = decoded@.subrange(x + 1, y);
                let good = is_digit_seq(digits) && digits.len() > 0 && dec_val(digits)
                    <= usize::MAX;
                &&& (!good ==> (r matches Err(e) && e.kind == ErrorKind::Encoding))
                &&& (good && dec_val(digits) != decoded@.len() - y - 1 ==> (r matches Err(e)
                    && e.kind == ErrorKind::MalformedObject && e.message@ == "Malformed object "@
                    + sha@ + ": bad length"@))
                &&& (good && dec_val(digits) == decoded@.len() - y - 1 ==> (r matches Ok(kp)
                    && kp.0@ == decoded@.subrange(0, x) && kp.1@ == decoded@.subrange(
                    y + 1,
                    decoded@.len() as int,
                )))
            }),
        },
{
    let x: usize = match decoded.find_some(32, 0) {
        Some(x) => x,
        None => {
            return Err(io_err(String::from_str("byte not found.")));
        },
    };
    let y: usize = match decoded.find_some(0, x) {
        Some(y) => y,
        None => {
            return Err(io_err(String::from_str("byte not found.")));
        },
    };
    proof {
        lemma_first_at_props(decoded@, 32, 0);
        lemma_first_at_props(decoded@, 0, x as int);
    }
    let digits = sub_bytes(decoded, x + 1, y);
    let size: usize = match parse_dec(&digits) {
        Some(v) => v,
        None => {
            return Err(encoding_err(String::from_str("Cannot parse object length.")));
        },
    };
    let total: usize = decoded.len();
    if size != total - y - 1 {
        let mut message = String::from_str("Malformed object ");
        message.append(sha);
        message.append(": bad length");
        return Err(malformed_object_err(message));
    }
    let kind = sub_bytes(decoded, 0, x);
    let payload = sub_bytes(decoded, y + 1, total);
    Ok((kind, payload))
}

/// Builds the frame for a kind tag and a payload.
pub fn build_frame(kind: &Vec<u8>, payload: &Vec<u8>) -> (r: Vec<u8>)
    ensures
        r@ == frame_of(kind@, payload@),
{
    let mut v: Vec<u8> = Vec::new();
    push_range(&mut v, kind, 0, kind.len());
    v.push(32);
    let digits = dec_render(payload.len());
    push_range(&mut v, &digits, 0, digits.len());
    v.push(0);
    push_range(&mut v, payload, 0, payload.len());
    proof {
        assert(kind@.subrange(0, kind@.len() as int) =~= kind@);
        assert(digits@.subrange(0, digits@.len() as int) =~= digits@);
        assert(payload@.subrange(0, payload@.len() as int) =~= payload@);
        assert(v@ =~= frame_of(kind@, payload@));
    }
    v
}

/// Splitting a well-built frame finds exactly the separators the builder
/// wrote: the kind, the length digits and the payload come back unchanged,
/// and the declared length agrees with the payload.
pub proof fn lemma_parse_frame_of(kind: Seq<u8>, payload: Seq<u8>)
    requires
        first_at(kind, 32, 0) is None,
        first_at(kind, 0, 0) is None,
        payload.len() <= usize::MAX,
    ensures
        ({
            let fr = frame_of(kind, payload);
            let x = kind.len() as int;
            let y = x + 1 + dec_rep(payload.len() as int).len() as int;
            &&& header_split(fr) == Some((x, y))
            &&& fr.subrange(0, x) == kind
            &&& fr.subrange(x + 1, y) == dec_rep(payload.len() as int)
            &&& is_digit_seq(fr.subrange(x + 1, y))
            &&& fr.subrange(x + 1, y).len() > 0
            &&& dec_val(fr.subrange(x + 1, y)) == payload.len()
            &&& fr.subrange(y + 1, fr.len() as int) == payload
            &&& fr.len() - y - 1 == payload.len()
        }),
{
    let fr = frame_of(kind, payload);
    let digits = dec_rep(payload.len() as int);
    let x = kind.len() as int;
    let y = x + 1 + digits.len();
    lemma_dec_rep_digits(payload.len() as int);
    lemma_dec_val_of_rep(payload.len() as int);
    lemma_first_at_props(kind, 32, 0);
    lemma_first_at_props(kind, 0, 0);
    assert(fr.len() == kind.len() + 1 + digits.len() + 1 + payload.len());
    assert(forall|j: int| 0 <= j < x ==> fr[j] == kind[j]);
    assert(fr[x] == 32);
    assert(forall|j: int| x + 1 <= j < y ==> fr[j] == digits[j - x - 1]);
    assert(fr[y] == 0);
    assert(forall|j: int| y + 1 <= j < fr.len() ==> fr[j] == payload[j - y - 1]);
    lemma_first_at_advance(fr, 32, 0, x);
    assert(first_at(fr, 32, x) == Some(x));
    assert(forall|j: int| x <= j < y ==> fr[j] != 0);
    lemma_first_at_advance(fr, 0, x, y);
    assert(first_at(fr, 0, y) == Some(y));
    assert(fr.subrange(0, x) =~= kind);
    assert(fr.subrange(x + 1, y) =~= digits);
    assert(fr.subrange(y + 1, fr.len() as int) =~= payload);
}

/// Tamper detection: a frame whose declared length reads as a decimal
/// value different from its payload's length is seen through the same
/// separators, so the length check rejects it. Together with the contract
/// of `parse_frame`, reading such a frame fails as a malformed object.
pub proof fn lemma_tamper_detected(kind: Seq<u8>, digits: Seq<u8>, payload: Seq<u8>)
    requires
        first_at(kind, 32, 0) is None,
        first_at(kind, 0, 0) is None,
        is_digit_seq(digits),
        digits.len() > 0,
        dec_val(digits) <= usize::MAX,
        dec_val(digits) != payload.len(),
    ensures
        ({
            let d = kind + seq![32u8] + digits + seq![0u8] + payload;
            let x = kind.len() as int;
            let y = x + 1 + digits.len() as int;
            &&& header_split(d) == Some((x, y))
            &&& d.subrange(x + 1, y) == digits
            &&& dec_val(d.subrange(x + 1, y)) != d.len() - y - 1
        }),
{
    let d = kind + seq![32u8] + digits + seq![0u8] + payload;
    let x = kind.len() as int;
    let y = x + 1 + digits.len();
    lemma_first_at_props(kind, 32, 0);
    lemma_first_at_props(kind, 0, 0);
    assert(d.len() == kind.len() + 1 + digits.len() + 1 + payload.len());
    assert(forall|j: int| 0 <= j < x ==> d[j] == kind[j]);
    assert(d[x] == 32);
    assert(forall|j: int| x + 1 <= j < y ==> d[j] == digits[j - x - 1]);
    assert(d[y] == 0);
    lemma_first_at_advance(d, 32, 0, x);
    assert(first_at(d, 32, x) == Some(x));
    assert(forall|j: int| x <= j < y ==> d[j] != 0);
    lemma_first_at_advance(d, 0, x, y);
    assert(first_at(d, 0, y) == Some(y));
    assert(d.subrange(x + 1, y) =~= digits);
}

} // verus!
