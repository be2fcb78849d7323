//! Character-level helpers for the reference layer: hex-name recognition,
//! hex lowercasing, string comparison and prefix tests, and the bridge from
//! ASCII character sequences to the bytes they are stored as.

use vstd::prelude::*;
use vstd::string::StrSliceExecFns;
use vstd::string::StringExecFns;

verus! {

/// A hexadecimal digit, either case.
pub open spec fn is_hex_char(c: char) -> bool {
    ('0' <= c && c <= '9') || ('a' <= c && c <= 'f') || ('A' <= c && c <= 'F')
}

/// A lowercase hexadecimal digit.
pub open spec fn is_lower_hex_char(c: char) -> bool {
    ('0' <= c && c <= '9') || ('a' <= c && c <= 'f')
}

/// Every character of `s` is a hexadecimal digit.
pub open spec fn is_hex_seq(s: Seq<char>) -> bool {
    forall|i: int| 0 <= i < s.len() ==> is_hex_char(#[trigger] s[i])
}

/// Every character of `s` is a lowercase hexadecimal digit.
pub open spec fn is_lower_hex_seq(s: Seq<char>) -> bool {
    forall|i: int| 0 <= i < s.len() ==> is_lower_hex_char(#[trigger] s[i])
}

/// A digest: exactly 40 lowercase hexadecimal characters.
pub open spec fn is_digest(s: Seq<char>) -> bool {
    s.len() == 40 && is_lower_hex_seq(s)
}

/// The uppercase hex letters mapped to lowercase; all other characters kept.
pub open spec fn lower_hex_char(c: char) -> char {
    if c == 'A' { 'a' }
    else if c == 'B' { 'b' }
    else if c == 'C' { 'c' }
    else if c == 'D' { 'd' }
    else if c == 'E' { 'e' }
    else if c == 'F' { 'f' }
    else { c }
}

/// `s` with every uppercase hex letter lowercased.
pub open spec fn lower_hex(s: Seq<char>) -> Seq<char> {
    Seq::new(s.len(), |i: int| lower_hex_char(s[i]))
}

/// ASCII whitespace.
pub open spec fn is_space_char(c: char) -> bool {
    c == ' ' || c == '\t' || c == '\n' || c == '\r'
}

/// `s` is empty or consists of whitespace alone.
pub open spec fn is_blank_chars(s: Seq<char>) -> bool {
    forall|i: int| 0 <= i < s.len() ==> is_space_char(#[trigger] s[i])
}

/// The bytes of an ASCII character sequence, character for character.
pub open spec fn ascii_of(s: Seq<char>) -> Seq<u8> {
    Seq::new(s.len(), |i: int| s[i] as u8)
}

/// Character-for-character string equality.
pub fn str_eq(a: &str, b: &str) -> (r: bool)
    ensures
        r == (a@ == b@),
{
    let na: usize = a.unicode_len();
    let nb: usize = b.unicode_len();
    if na != nb {
        return false;
    }
    let mut i: usize = 0;
    while i < na
        invariant
            i <= na,
            na == a@.len(),
            nb == b@.len(),
            na == nb,
            forall|j: int| 0 <= j < i ==> a@[j] == b@[j],
        decreases na - i,
    {
        if a.get_char(i) != b.get_char(i) {
            return false;
        }
        i = i + 1;
    }
    proof {
        assert(a@ =~= b@);
    }
    true
}

/// Whether `p` is a prefix of `s`, character for character.
pub fn str_starts_with(s: &str, p: &str) -> (r: bool)
    ensures
        r == p@.is_prefix_of(s@),
{
    let ns: usize = s.unicode_len();
    let np: usize = p.unicode_len();
    if np > ns {
        return false;
    }
    let mut i: usize = 0;
    while i < np
        invariant
            i <= np,
            ns == s@.len(),
            np == p@.len(),
            np <= ns,
            forall|j: int| 0 <= j < i ==> s@[j] == p@[j],
        decreases np - i,
    {
        if s.get_char(i) != p.get_char(i) {
            proof {
                assert(!(p@ =~= s@.subrange(0, p@.len() as int)));
            }
            return false;
        }
        i = i + 1;
    }
    proof {
        assert(p@ =~= s@.subrange(0, p@.len() as int));
    }
    true
}

/// Whether `s` is empty or whitespace alone.
pub fn is_blank(s: &str) -> (r: bool)
    ensures
        r == is_blank_chars(s@),
{
    let n: usize = s.unicode_len();
    let mut i: usize = 0;
    while i < n
        invariant
            i <= n,
            n == s@.len(),
            forall|j: int| 0 <= j < i ==> is_space_char(#[trigger] s@[j]),
        decreases n - i,
    {
        let c = s.get_char(i);
        if !(c == ' ' || c == '\t' || c == '\n' || c == '\r') {
            return false;
        }
        i = i + 1;
    }
    true
}

/// Whether `s` matches the hex-digest name pattern: 4 to 40 hexadecimal
/// characters, either case.
pub fn is_hex_name(s: &str) -> (r: bool)
    ensures
        r == (4 <= s@.len() <= 40 && is_hex_seq(s@)),
{
    let n: usize = s.unicode_len();
    if n < 4 || n > 40 {
        return false;
    }
    let mut i: usize = 0;
    while i < n
        invariant
            i <= n,
            n == s@.len(),
            4 <= n <= 40,
            forall|j: int| 0 <= j < i ==> is_hex_char(#[trigger] s@[j]),
        decreases n - i,
    {
        let c = s.get_char(i);
        let hex = ('0' <= c && c <= '9') || ('a' <= c && c <= 'f') || ('A' <= c && c <= 'F');
        if !hex {
            return false;
        }
        i = i + 1;
    }
    true
}

/// `s` with every uppercase hex letter lowercased.
pub fn lower_hex_str(s: &str) -> (r: String)
    ensures
        r@ == lower_hex(s@),
{
    let n: usize = s.unicode_len();
    let mut out = String::new();
    let mut i: usize = 0;
    while i < n
        invariant
            i <= n,
            n == s@.len(),
            out@ =~= lower_hex(s@).subrange(0, i as int),
        decreases n - i,
    {
        let c = s.get_char(i);
        if c == 'A' {
            out.append("a");
            proof { reveal_strlit("a"); }
        } else if c == 'B' {
            out.append("b");
            proof { reveal_strlit("b"); }
        } else if c == 'C' {
            out.append("c");
            proof { reveal_strlit("c"); }
        } else if c == 'D' {
            out.append("d");
            proof { reveal_strlit("d"); }
        } else if c == 'E' {
            out.append("e");
            proof { reveal_strlit("e"); }
        } else if c == 'F' {
            out.append("f");
            proof { reveal_strlit("f"); }
        } else {
            let piece = s.substring_char(i, i + 1);
            out.append(piece);
            proof {
                assert(s@.subrange(i as int, (i + 1) as int) =~= seq![s@[i as int]]);
            }
        }
        proof {
            assert(out@ =~= lower_hex(s@).subrange(0, (i + 1) as int));
        }
        i = i + 1;
    }
    proof {
        assert(lower_hex(s@).subrange(0, n as int) =~= lower_hex(s@));
    }
    out
}

/// A lowercase-hex sequence is ASCII.
pub proof fn lemma_lower_hex_is_ascii(s: Seq<char>)
    requires
        is_lower_hex_seq(s),
    ensures
        vstd::utf8::is_ascii_chars(s),
{
}

} // verus!
