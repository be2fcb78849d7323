//! The reference resolver: turns a user-supplied name -- a full digest, a
//! hex prefix, the symbolic name HEAD -- into zero, one or many candidate
//! digests, and layers `find` on top, which demands exactly one candidate
//! and optionally checks and follows the object's kind.
//!
//! The filesystem stays with the caller: the HEAD digest and the fan-out
//! directory listing come in as arguments, and `find` hands back which
//! object to read before `find_check` finishes the kind check.

use vstd::prelude::*;
use vstd::string::StrSliceExecFns;
use vstd::string::StringExecFns;
use crate::errors::ErrorKind;
use crate::errors::WitError;
use crate::errors::ambiguous_reference_err;
use crate::errors::unknown_object_err;
use crate::errors::unknown_reference_err;
use crate::object::WitObject;
use crate::object::kvlm_get;
use crate::object::kvlm_lookup;
use crate::object::tag_tree;
use crate::scan::bytes_eq;
use crate::text::ascii_of;
use crate::text::is_blank;
use crate::text::is_blank_chars;
use crate::text::is_hex_name;
use crate::text::is_hex_seq;
use crate::text::lower_hex;
use crate::text::lower_hex_str;
use crate::text::str_eq;
use crate::text::str_starts_with;

verus! {

/// The shape of a user-supplied reference name, in the resolver's
/// priority order.
#[derive(Clone, Copy, Debug, PartialEq, Eq, Structural)]
pub enum NameShape {
    /// Empty or whitespace only: no candidates, not an error.
    Blank,
    /// Exactly `HEAD`: the symbolic-reference mechanism names one digest.
    Head,
    /// 40 hex characters: a fully-specified digest, taken verbatim.
    FullHex,
    /// 4 to 39 hex characters: a prefix, scanned against the fan-out.
    ShortHex,
    /// Anything else: no candidates at this layer.
    Other,
}

/// Classifies a name as the resolver's rules read it.
pub open spec fn name_shape(n: Seq<char>) -> NameShape {
    if is_blank_chars(n) {
        NameShape::Blank
    } else if n == "HEAD"@ {
        NameShape::Head
    } else if 4 <= n.len() <= 40 && is_hex_seq(n) {
        if n.len() == 40 {
            NameShape::FullHex
        } else {
            NameShape::ShortHex
        }
    } else {
        NameShape::Other
    }
}

/// Classifies a name, so the caller knows what the resolver will need:
/// the HEAD digest, a fan-out listing, or nothing.
pub fn classify_name(name: &str) -> (r: NameShape)
    ensures
        r == name_shape(name@),
{
    if is_blank(name) {
        NameShape::Blank
    } else if str_eq(name, "HEAD") {
        NameShape::Head
    } else if is_hex_name(name) {
        if name.unicode_len() == 40 {
            NameShape::FullHex
        } else {
            NameShape::ShortHex
        }
    } else {
        NameShape::Other
    }
}

/// The reconstructed full digests for every fan-out entry that the
/// remaining prefix characters match, in the listing's order.
pub open spec fn prefix_candidates(pre: Seq<char>, rem: Seq<char>, entries: Seq<String>, i: int)
    -> Seq<Seq<char>>
    decreases entries.len() - i when i >= 0
{
    if i >= entries.len() {
        Seq::empty()
    } else {
        let rest = prefix_candidates(pre, rem, entries, i + 1);
        if rem.is_prefix_of(entries[i]@) {
            seq![pre + entries[i]@] + rest
        } else {
            rest
        }
    }
}

/// The candidate strings carry exactly the candidate character sequences.
pub open spec fn cands_match(v: Seq<String>, c: Seq<Seq<char>>) -> bool {
    v.len() == c.len() && forall|i: int| 0 <= i < v.len() ==> v[i]@ == c[i]
}

/// Resolves a name to its candidate digests. `head` is the digest the
/// symbolic-reference mechanism gives for HEAD; `entries` is the fan-out
/// directory listing for the name's first two characters, or `None` when
/// that directory is absent -- which yields zero candidates, not an error.
pub fn resolve(name: &str, head: Option<&String>, entries: Option<&Vec<String>>) -> (r: Result<
    Option<Vec<String>>,
    WitError,
>)
    requires
        name_shape(name@) == NameShape::Head ==> head is Some,
    ensures
        r matches Ok(res) && ({
            let shape = name_shape(name@);
            &&& (shape == NameShape::Blank ==> res is None)
            &&& (shape == NameShape::Head ==> (res matches Some(v) && v@.len() == 1 && (
            head matches Some(h) && v@[0]@ == h@)))
            &&& (shape == NameShape::FullHex ==> (res matches Some(v) && v@.len() == 1 && v@[0]@
                == lower_hex(name@)))
            &&& (shape == NameShape::ShortHex ==> (res matches Some(v) && (match entries {
                Some(es) => cands_match(
                    v@,
                    prefix_candidates(
                        lower_hex(name@).subrange(0, 2),
                        lower_hex(name@).subrange(2, name@.len() as int),
                        es@,
                        0,
                    ),
                ),
                None => v@.len() == 0,
            })))
            &&& (shape == NameShape::Other ==> (res matches Some(v) && v@.len() == 0))
        }),
{
    match classify_name(name) {
        NameShape::Blank => Ok(None),
        NameShape::Head => {
            let h = match head {
                Some(h) => h,
                None => vstd::pervasive::unreached(),
            };
            let v: Vec<String> = vec![h.clone()];
            Ok(Some(v))
        },
        NameShape::FullHex => {
            let lower = lower_hex_str(name);
            let v: Vec<String> = vec![lower];
            Ok(Some(v))
        },
        NameShape::ShortHex => {
            match entries {
                None => Ok(Some(Vec::new())),
                Some(es) => {
                    let lower = lower_hex_str(name);
                    proof {
                        assert forall|i: int| 0 <= i < lower@.len() implies
                            crate::text::is_lower_hex_char(#[trigger] lower@[i]) by {
                            assert(crate::text::is_hex_char(name@[i]));
                        }
                        crate::text::lemma_lower_hex_is_ascii(lower@);
                    }
                    let pre = String::from_str(lower.as_str().substring_ascii(0, 2));
                    let rem = String::from_str(
                        lower.as_str().substring_ascii(2, lower.as_str().unicode_len()),
                    );
                    let mut v: Vec<String> = Vec::new();
                    let n: usize = es.len();
                    let mut i: usize = 0;
                    while i < n
                        invariant
                            i <= n,
                            n == es@.len(),
                            pre@ == lower_hex(name@).subrange(0, 2),
                            rem@ == lower_hex(name@).subrange(2, name@.len() as int),
                            cands_match(v@, prefix_candidates(pre@, rem@, es@, 0).take(
                                prefix_candidates(pre@, rem@, es@, 0).len() - prefix_candidates(
                                    pre@,
                                    rem@,
                                    es@,
                                    i as int,
                                ).len(),
                            )),
                            prefix_candidates(pre@, rem@, es@, 0) =~= prefix_candidates(
                                pre@,
                                rem@,
                                es@,
                                0,
                            ).take(
                                prefix_candidates(pre@, rem@, es@, 0).len() - prefix_candidates(
                                    pre@,
                                    rem@,
                                    es@,
                                    i as int,
                                ).len(),
                            ) + prefix_candidates(pre@, rem@, es@, i as int),
                        decreases n - i,
                    {
                        if str_starts_with(es[i].as_str(), rem.as_str()) {
                            let mut cand = pre.clone();
                            cand.append(es[i].as_str());
                            v.push(cand);
                        }
                        i = i + 1;
                    }
                    Ok(Some(v))
                },
            }
        },
        NameShape::Other => Ok(Some(Vec::new())),
    }
}

/// The enumeration of candidates in an ambiguous-reference message: one
/// line per candidate.
pub open spec fn candidates_text(cands: Seq<String>) -> Seq<char>
    decreases cands.len()
{
    if cands.len() == 0 {
        Seq::empty()
    } else {
        candidates_text(cands.drop_last()) + "\n- "@ + cands.last()@
    }
}

/// Builds the candidate enumeration for the ambiguous-reference message.
fn candidates_message(cands: &Vec<String>) -> (r: String)
    ensures
        r@ == candidates_text(cands@),
{
    let mut out = String::new();
    let n: usize = cands.len();
    let mut i: usize = 0;
    while i < n
        invariant
            i <= n,
            n == cands@.len(),
            out@ == candidates_text(cands@.take(i as int)),
        decreases n - i,
    {
        out.append("\n- ");
        out.append(cands[i].as_str());
        proof {
            assert(cands@.take((i + 1) as int).drop_last() =~= cands@.take(i as int));
            assert(cands@.take((i + 1) as int).last() == cands@[i as int]);
        }
        i = i + 1;
    }
    proof {
        assert(cands@.take(n as int) =~= cands@);
    }
    out
}

/// What `find` decided: either the digest itself, or the digest whose
/// object the caller must read so `find_check` can finish the kind check.
#[derive(Debug)]
pub enum FindOutcome {
    Found(String),
    NeedObject(String),
}

/// Demands exactly one candidate of a resolution: zero raises an
/// unknown-reference error, several an ambiguous-reference error that
/// enumerates every candidate. With no wanted kind the digest is final;
/// with one, the caller reads the object and calls `find_check`.
pub fn find(name: &str, resolved: Option<Vec<String>>, fmt: Option<&Vec<u8>>) -> (r: Result<
    FindOutcome,
    WitError,
>)
    ensures
        match resolved {
            None => r matches Err(e) && e.kind == ErrorKind::UnknownReference && e.message@
                == "Unknown reference "@ + name@ + "."@,
            Some(v) => {
                &&& (v@.len() == 0 ==> (r matches Err(e) && e.kind == ErrorKind::UnknownReference
                    && e.message@ == "Unknown reference "@ + name@ + "."@))
                &&& (v@.len() > 1 ==> (r matches Err(e) && e.kind == ErrorKind::AmbiguousReference
                    && e.message@ == "Ambiguous reference "@ + name@ + ": Candidates are:"@
                    + candidates_text(v@) + "\n"@))
                &&& (v@.len() == 1 ==> match fmt {
                    None => r matches Ok(o) && o matches FindOutcome::Found(s) && s@ == v@[0]@,
                    Some(_) => r matches Ok(o) && o matches FindOutcome::NeedObject(s) && s@
                        == v@[0]@,
                })
            },
        },
{
    let v = match resolved {
        Some(v) => v,
        None => {
            let mut message = String::from_str("Unknown reference ");
            message.append(name);
            message.append(".");
            return Err(unknown_reference_err(message));
        },
    };
    if v.len() == 0 {
        let mut message = String::from_str("Unknown reference ");
        message.append(name);
        message.append(".");
        return Err(unknown_reference_err(message));
    }
    if v.len() > 1 {
        let mut message = String::from_str("Ambiguous reference ");
        message.append(name);
        message.append(": Candidates are:");
        let listing = candidates_message(&v);
        message.append(listing.as_str());
        message.append("\n");
        return Err(ambiguous_reference_err(message));
    }
    let sha = v[0].clone();
    match fmt {
        None => Ok(FindOutcome::Found(sha)),
        Some(_) => Ok(FindOutcome::NeedObject(sha)),
    }
}

/// Finishes `find` once the object is read: a matching kind returns the
/// digest; a mismatch without `follow` is an unknown-object error; with
/// `follow`, a tag is dereferenced one level through its `object` key, and
/// a commit through its `tree` key when a tree was wanted -- any other
/// mismatch is an unknown-object error. The dereferenced digest is not
/// re-checked.
pub fn find_check(sha: &String, obj: &WitObject, fmt: &Vec<u8>, follow: bool) -> (r: Result<
    String,
    WitError,
>)
    requires
        obj matches WitObject::TagObject(t) ==> ((follow && fmt@ != ascii_of("tag"@)) ==> (
        kvlm_lookup(t.kvlm@, "object"@) matches Some(vs) && vs.len() > 0)),
        obj matches WitObject::CommitObject(c) ==> ((follow && fmt@ == ascii_of("tree"@)) ==> (
        kvlm_lookup(c.kvlm@, "tree"@) matches Some(vs) && vs.len() > 0)),
    ensures
        ({
            let k = ascii_of(obj.kind_chars());
            &&& (k == fmt@ ==> (r matches Ok(s) && s@ == sha@))
            &&& (k != fmt@ && !follow ==> (r matches Err(e) && e.kind == ErrorKind::UnknownObject
                && e.message@ == "Unknown object "@ + sha@ + "."@))
            &&& (k != fmt@ && follow ==> match obj {
                WitObject::TagObject(t) => kvlm_lookup(t.kvlm@, "object"@) matches Some(vs) && (
                r matches Ok(s) && s@ == vs[0]@),
                WitObject::CommitObject(c) => if fmt@ == ascii_of("tree"@) {
                    kvlm_lookup(c.kvlm@, "tree"@) matches Some(vs) && (r matches Ok(s) && s@
                        == vs[0]@)
                } else {
                    r matches Err(e) && e.kind == ErrorKind::UnknownObject && e.message@
                        == "Unknown object "@ + sha@ + "."@
                },
                _ => r matches Err(e) && e.kind == ErrorKind::UnknownObject && e.message@
                    == "Unknown object "@ + sha@ + "."@,
            })
        }),
{
    let obj_fmt = obj.fmt();
    if bytes_eq(&obj_fmt, fmt) {
        return Ok(sha.clone());
    }
    if !follow {
        let mut message = String::from_str("Unknown object ");
        message.append(sha.as_str());
        message.append(".");
        return Err(unknown_object_err(message));
    }
    match obj {
        WitObject::TagObject(t) => {
            let vals = match kvlm_get(&t.kvlm, "object") {
                Some(vs) => vs,
                None => vstd::pervasive::unreached(),
            };
            Ok(vals[0].clone())
        },
        WitObject::CommitObject(c) => {
            let want_tree = tag_tree();
            if bytes_eq(fmt, &want_tree) {
                let vals = match kvlm_get(&c.kvlm, "tree") {
                    Some(vs) => vs,
                    None => vstd::pervasive::unreached(),
                };
                Ok(vals[0].clone())
            } else {
                let mut message = String::from_str("Unknown object ");
                message.append(sha.as_str());
                message.append(".");
                Err(unknown_object_err(message))
            }
        },
        _ => {
            let mut message = String::from_str("Unknown object ");
            message.append(sha.as_str());
            message.append(".");
            Err(unknown_object_err(message))
        },
    }
}

} // verus!
