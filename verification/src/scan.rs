//! Generic forward search over a byte sequence for a target value, in the
//! four variants the callers of the core need, and a substring-replace built
//! on repeated scan-and-splice.
//!
//! The replace matches an occurrence of the pattern only by its first byte
//! and does not verify the remaining bytes: a deliberate, preserved
//! limitation of the scanner's contract.

use vstd::prelude::*;
use crate::errors::WitError;
use crate::errors::io_err;
use vstd::string::StringExecFns;

verus! {

/// The position of the first occurrence of `b` in `s` at or after `start`,
/// or `None` when no such occurrence exists.
pub open spec fn first_at(s: Seq<u8>, b: u8, start: int) -> Option<int>
    decreases s.len() - start when start >= 0
{
    if start >= s.len() {
        None
    } else if s[start] == b {
        Some(start)
    } else {
        first_at(s, b, start + 1)
    }
}

/// Scanning from `start` and scanning from `i` agree when no occurrence
/// lies in between.
pub proof fn lemma_first_at_advance(s: Seq<u8>, b: u8, start: int, i: int)
    requires
        0 <= start <= i,
        forall|j: int| start <= j < i ==> s[j] != b,
    ensures
        first_at(s, b, start) == first_at(s, b, i),
    decreases i - start,
{
    if start < i {
        lemma_first_at_advance(s, b, start + 1, i);
    }
}

/// What a successful or failed scan says of the sequence itself.
pub proof fn lemma_first_at_props(s: Seq<u8>, b: u8, start: int)
    requires
        start >= 0,
    ensures
        match first_at(s, b, start) {
            Some(i) => start <= i < s.len() && s[i] == b
                && (forall|j: int| start <= j < i ==> s[j] != b),
            None => forall|j: int| start <= j < s.len() ==> s[j] != b,
        },
    decreases s.len() - start,
{
    if start < s.len() && s[start] != b {
        lemma_first_at_props(s, b, start + 1);
    }
}

/// The result of replacing, from `start` on, every non-overlapping
/// occurrence of `from` (matched by its first byte only) with `to`.
pub open spec fn replace_from(s: Seq<u8>, from: Seq<u8>, to: Seq<u8>, start: int) -> Seq<u8>
    decreases s.len() - start when 0 <= start && from.len() > 0 via replace_from_dec
{
    match first_at(s, from[0], start) {
        None => if start <= s.len() {
            s.subrange(start, s.len() as int)
        } else {
            Seq::empty()
        },
        Some(i) => if i + from.len() <= s.len() {
            s.subrange(start, i) + to + replace_from(s, from, to, i + from.len())
        } else {
            s.subrange(start, i) + to
        },
    }
}

#[via_fn]
proof fn replace_from_dec(s: Seq<u8>, from: Seq<u8>, to: Seq<u8>, start: int) {
    lemma_first_at_props(s, from[0], start);
}

/// The result of replacing every non-overlapping occurrence of `from`
/// (matched by its first byte only) with `to`.
pub open spec fn replace_bytes(s: Seq<u8>, from: Seq<u8>, to: Seq<u8>) -> Seq<u8> {
    replace_from(s, from, to, 0)
}

/// Forward search over a sequence of bytes.
pub trait Find {
    /// The bytes this value is scanned as.
    spec fn contents(&self) -> Seq<u8>;

    /// First occurrence of `element`, from the start; absence is an error.
    fn find(&self, element: u8) -> (r: Result<usize, WitError>)
        ensures
            match r {
                Ok(i) => first_at(self.contents(), element, 0) == Some(i as int),
                Err(e) => first_at(self.contents(), element, 0) is None
                    && e.kind == crate::errors::ErrorKind::Io,
            },
    ;

    /// First occurrence of `element` at or after `start`; absence is an
    /// error carrying a descriptive message.
    fn find_from(&self, element: u8, start: usize) -> (r: Result<usize, WitError>)
        ensures
            match r {
                Ok(i) => first_at(self.contents(), element, start as int) == Some(i as int),
                Err(e) => first_at(self.contents(), element, start as int) is None
                    && e.kind == crate::errors::ErrorKind::Io,
            },
    ;

    /// First occurrence of `element` at or after `start`, or `None`.
    fn find_some(&self, element: u8, start: usize) -> (r: Option<usize>)
        ensures
            match r {
                Some(i) => first_at(self.contents(), element, start as int) == Some(i as int),
                None => first_at(self.contents(), element, start as int) is None,
            },
    ;

    /// First occurrence of `element` at or after `start`, with -1 as the
    /// sentinel for absence, for arithmetic contexts.
    fn find_signed(&self, element: u8, start: usize) -> (r: isize)
        requires
            self.contents().len() <= isize::MAX,
        ensures
            match first_at(self.contents(), element, start as int) {
                Some(i) => r == i,
                None => r == -1,
            },
    ;

    /// First occurrence of `element` at or after `start`, defined only when
    /// the caller has already established presence.
    fn find_exact(&self, element: u8, start: usize) -> (r: usize)
        requires
            first_at(self.contents(), element, start as int) is Some,
        ensures
            first_at(self.contents(), element, start as int) == Some(r as int),
    ;
}

/// Substring-replace over a byte buffer.
pub trait Replace {
    /// The bytes this value holds.
    spec fn buffer(&self) -> Seq<u8>;

    /// Replaces every non-overlapping occurrence of `from` -- matched only
    /// by its first byte, a preserved limitation -- with `to`, leaving the
    /// buffer itself unchanged.
    fn replace(&mut self, from: &Vec<u8>, to: &Vec<u8>) -> (r: Vec<u8>)
        requires
            from@.len() > 0,
        ensures
            final(self).buffer() == old(self).buffer(),
            r@ == replace_bytes(old(self).buffer(), from@, to@),
    ;
}

/// Appends `src[i..j]` to `out`.
pub fn push_range(out: &mut Vec<u8>, src: &Vec<u8>, i: usize, j: usize)
    requires
        i <= j <= src@.len(),
    ensures
        final(out)@ == old(out)@ + src@.subrange(i as int, j as int),
{
    let mut k: usize = i;
    while k < j
        invariant
            i <= k <= j <= src@.len(),
            out@ == old(out)@ + src@.subrange(i as int, k as int),
        decreases j - k,
    {
        out.push(src[k]);
        proof {
            assert(src@.subrange(i as int, (k + 1) as int) =~= src@.subrange(i as int, k as int)
                + seq![src@[k as int]]);
        }
        k = k + 1;
    }
    proof {
        assert(out@ =~= old(out)@ + src@.subrange(i as int, j as int));
    }
}

/// The bytes `src[i..j]`, as a fresh vector.
pub fn sub_bytes(src: &Vec<u8>, i: usize, j: usize) -> (r: Vec<u8>)
    requires
        i <= j <= src@.len(),
    ensures
        r@ == src@.subrange(i as int, j as int),
{
    let mut out: Vec<u8> = Vec::new();
    push_range(&mut out, src, i, j);
    out
}

/// Byte-for-byte equality of two buffers.
pub fn bytes_eq(a: &Vec<u8>, b: &Vec<u8>) -> (r: bool)
    ensures
        r == (a@ == b@),
{
    let na: usize = a.len();
    let nb: usize = b.len();
    if na != nb {
        return false;
    }
    let mut i: usize = 0;
    while i < na
        invariant
            i <= na,
            na == a@.len(),
            nb == b@.len(),
            na == nb,
            forall|j: int| 0 <= j < i ==> a@[j] == b@[j],
        decreases na - i,
    {
        if a[i] != b[i] {
            return false;
        }
        i = i + 1;
    }
    proof {
        assert(a@ =~= b@);
    }
    true
}

/// A fresh copy of the bytes of `src`.
pub fn copy_bytes(src: &Vec<u8>) -> (r: Vec<u8>)
    ensures
        r@ == src@,
{
    let mut out: Vec<u8> = Vec::new();
    push_range(&mut out, src, 0, src.len());
    proof {
        assert(src@.subrange(0, src@.len() as int) =~= src@);
    }
    out
}

impl Find for Vec<u8> {
    open spec fn contents(&self) -> Seq<u8> {
        self@
    }

    fn find(&self, element: u8) -> (r: Result<usize, WitError>)
    {
        self.find_from(element, 0)
    }

    fn find_from(&self, element: u8, start: usize) -> (r: Result<usize, WitError>)
    {
        match self.find_some(element, start) {
            Some(i) => Ok(i),
            None => Err(io_err(String::from_str("byte not found."))),
        }
    }

    fn find_some(&self, element: u8, start: usize) -> (r: Option<usize>)
    {
        let n: usize = self.len();
        let mut i: usize = start;
        while i < n
            invariant
                n == self@.len(),
                i >= start,
                first_at(self@, element, start as int) == first_at(self@, element, i as int),
            decreases n - i,
        {
            if self[i] == element {
                return Some(i);
            }
            i = i + 1;
        }
        None
    }

    fn find_signed(&self, element: u8, start: usize) -> (r: isize)
    {
        proof {
            lemma_first_at_props(self@, element, start as int);
        }
        match self.find_some(element, start) {
            Some(i) => i as isize,
            None => -1,
        }
    }

    fn find_exact(&self, element: u8, start: usize) -> (r: usize)
    {
        match self.find_some(element, start) {
            Some(i) => i,
            None => vstd::pervasive::unreached(),
        }
    }
}

impl Replace for Vec<u8> {
    open spec fn buffer(&self) -> Seq<u8> {
        self@
    }

    fn replace(&mut self, from: &Vec<u8>, to: &Vec<u8>) -> (r: Vec<u8>)
    {
        let mut result: Vec<u8> = Vec::new();
        let mut start: usize = 0;
        let mut done: bool = false;
        let n: usize = self.len();
        while !done
            invariant
                n == self@.len(),
                *self == *old(self),
                from@.len() > 0,
                done ==> result@ == replace_bytes(self@, from@, to@),
                !done ==> start <= n
                    && result@ + replace_from(self@, from@, to@, start as int)
                        == replace_bytes(self@, from@, to@),
            decreases n - start + (if done { 0int } else { 1int }),
        {
            let first: u8 = from[0];
            match self.find_some(first, start) {
                None => {
                    push_range(&mut result, self, start, n);
                    proof {
                        assert(result@ =~= replace_bytes(self@, from@, to@));
                    }
                    done = true;
                },
                Some(end) => {
                    proof {
                        lemma_first_at_props(self@, first, start as int);
                    }
                    push_range(&mut result, self, start, end);
                    push_range(&mut result, to, 0, to.len());
                    proof {
                        assert(to@.subrange(0, to@.len() as int) =~= to@);
                    }
                    if from.len() <= n - end {
                        proof {
                            assert(result@ + replace_from(self@, from@, to@, (end + from@.len()) as int)
                                =~= replace_bytes(self@, from@, to@));
                        }
                        start = end + from.len();
                    } else {
                        proof {
                            assert(result@ =~= replace_bytes(self@, from@, to@));
                        }
                        done = true;
                    }
                },
            }
        }
        result
    }
}

} // verus!
