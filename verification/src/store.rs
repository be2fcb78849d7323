//! The object store: the read and write paths over framed, compressed,
//! hashed objects. Hashing and stream compression are done by outside
//! code behind trusted wrappers; everything around them -- framing, the
//! length check, dispatch by type tag, the fan-out path -- is verified.
//!
//! Filesystem access stays with the caller: `read` takes the raw bytes of
//! the object file, and `write` hands back what to persist and where.

use vstd::prelude::*;
use vstd::string::StringExecFns;
use vstd::string::StringSliceAdditionalSpecFns;
use crate::errors::ErrorKind;
use crate::errors::WitError;
use crate::errors::repo_not_found_err;
use crate::errors::unknown_object_err;
use crate::frame::build_frame;
use crate::frame::frame_of;
use crate::frame::header_split;
use crate::frame::lemma_parse_frame_of;
use crate::frame::parse_frame;
use crate::numeral::dec_rep;
use crate::numeral::dec_val;
use crate::numeral::is_digit_seq;
use crate::object::Blob;
use crate::object::Commit;
use crate::object::Object;
use crate::object::Tag;
use crate::object::Tree;
use crate::object::WitObject;
use crate::object::build;
use crate::object::lemma_kind_tag_bytes_distinct;
use crate::object::lemma_tag_bytes_clean;
use crate::object::tag_blob;
use crate::object::tag_commit;
use crate::object::tag_tag;
use crate::object::tag_tree;
use crate::repository::Repository;
use crate::scan::bytes_eq;
use crate::text::ascii_of;
use crate::text::is_digest;

verus! {

broadcast use vstd::string::group_string_axioms;

/// The hex digest of `data` under the store's cryptographic hash: a
/// function of the bytes alone.
pub uninterp spec fn sha1_hex_of(data: Seq<u8>) -> Seq<char>;

/// The compressed stream the store writes for `data`, at the default
/// compression level: a function of the bytes alone.
pub uninterp spec fn zlib_deflate_of(data: Seq<u8>) -> Seq<u8>;

/// What decompressing `data` yields: the original input for any stream
/// the compressor produced, `None` for streams no compression produced.
pub uninterp spec fn zlib_inflate_of(data: Seq<u8>) -> Option<Seq<u8>>;

/// Relies on crypto::sha1::Sha1 through crypto::digest::Digest::result_str:
/// the digest depends on the input bytes alone, and result_str renders the
/// 160-bit result as 40 lowercase hexadecimal characters.
#[verifier::external_body]
fn sha1_hex(data: &Vec<u8>) -> (r: String)
    ensures
        r@ == sha1_hex_of(data@),
        is_digest(r@),
{
    let mut h = crypto::sha1::Sha1::new();
    crypto::digest::Digest::input(&mut h, data.as_slice());
    crypto::digest::Digest::result_str(&mut h)
}

/// Relies on flate2::write::ZlibEncoder at Compression::default(): the
/// stream is a function of the input bytes alone, decompressing it yields
/// the input back (zlib is lossless), and writing into an in-memory buffer
/// cannot fail.
#[verifier::external_body]
fn zlib_compress(data: &Vec<u8>) -> (r: Vec<u8>)
    ensures
        r@ == zlib_deflate_of(data@),
        zlib_inflate_of(r@) == Some(data@),
{
    let mut encoder = flate2::write::ZlibEncoder::new(Vec::new(), flate2::Compression::default());
    std::io::Write::write_all(&mut encoder, data.as_slice()).expect("writing to memory");
    encoder.finish().expect("writing to memory")
}

/// Relies on flate2::read::ZlibDecoder: decompression is a function of the
/// input bytes alone; it returns the original input of a compressed stream
/// and fails exactly on streams no compression produced.
#[verifier::external_body]
fn zlib_decompress(data: &Vec<u8>) -> (r: Result<Vec<u8>, WitError>)
    ensures
        match r {
            Ok(d) => zlib_inflate_of(data@) == Some(d@),
            Err(e) => zlib_inflate_of(data@) is None && e.kind == ErrorKind::Io,
        },
{
    let mut out: Vec<u8> = Vec::new();
    let mut decoder = flate2::read::ZlibDecoder::new(data.as_slice());
    match std::io::Read::read_to_end(&mut decoder, &mut out) {
        Ok(_) => Ok(out),
        Err(e) => Err(WitError::new(ErrorKind::Io, e.to_string())),
    }
}

/// Relies on core::str::from_utf8: it succeeds exactly on valid UTF-8, and
/// the parsed string stores the given bytes.
#[verifier::external_body]
fn bytes_to_str<'a>(bytes: &'a Vec<u8>) -> (r: Result<&'a str, WitError>)
    ensures
        match r {
            Ok(s) => s.spec_bytes() == bytes@ && vstd::utf8::valid_utf8(bytes@),
            Err(e) => !vstd::utf8::valid_utf8(bytes@) && e.kind == ErrorKind::Encoding,
        },
{
    match core::str::from_utf8(bytes.as_slice()) {
        Ok(s) => Ok(s),
        Err(_) => Err(WitError::new(
            ErrorKind::Encoding,
            String::from_str("Cannot parse text."),
        )),
    }
}

/// The framed byte representation of an object.
pub open spec fn object_frame(o: WitObject) -> Seq<u8> {
    frame_of(ascii_of(o.kind_chars()), o.payload())
}

/// The digest of an object: the hash of its entire frame, header included.
pub open spec fn object_digest(o: WitObject) -> Seq<char> {
    sha1_hex_of(object_frame(o))
}

/// Reads an object from the raw bytes of its object file: decompress,
/// split the frame, verify the declared length, dispatch on the kind tag.
/// `sha` names the object in error messages; existence is the caller's.
pub fn read(repo: &Repository, sha: &str, raw: &Vec<u8>) -> (r: Result<WitObject, WitError>)
    ensures
        match zlib_inflate_of(raw@) {
            None => r matches Err(e) && e.kind == ErrorKind::Io,
            Some(d) => match header_split(d) {
                None => r matches Err(e) && e.kind == ErrorKind::Io,
                Some((x, y)) => ({
                    let digits = d.subrange(x + 1, y);
                    let k = d.subrange(0, x);
                    let p = d.subrange(y + 1, d.len() as int);
                    let good = is_digit_seq(digits) && digits.len() > 0 && dec_val(digits)
                        <= usize::MAX;
                    &&& (!good ==> (r matches Err(e) && e.kind == ErrorKind::Encoding))
                    &&& (good && dec_val(digits) != p.len() ==> (r matches Err(e) && e.kind
                        == ErrorKind::MalformedObject && e.message@ == "Malformed object "@ + sha@
                        + ": bad length"@))
                    &&& (good && dec_val(digits) == p.len() ==> ({
                        if k == ascii_of("blob"@) {
                            r matches Ok(o) && o matches WitObject::BlobObject(b) && b.data@ == p
                                && b.repo == Some(*repo)
                        } else if k == ascii_of("commit"@) {
                            r matches Ok(o) && o matches WitObject::CommitObject(c) && c.data@.len()
                                == 0 && c.kvlm@.len() == 0 && c.repo == Some(*repo)
                        } else if k == ascii_of("tree"@) {
                            r matches Ok(o) && o matches WitObject::TreeObject(t) && t.data@ == p
                                && t.leaves@.len() == 0 && t.repo is None
                        } else if k == ascii_of("tag"@) {
                            r matches Ok(o) && o matches WitObject::TagObject(t) && t.data@.len()
                                == 0 && t.kvlm@.len() == 0 && t.repo == Some(*repo)
                        } else if vstd::utf8::valid_utf8(k) {
                            r matches Err(e) && e.kind == ErrorKind::UnknownObject
                        } else {
                            r matches Err(e) && e.kind == ErrorKind::Encoding
                        }
                    }))
                }),
            },
        },
{
    let decoded = match zlib_decompress(raw) {
        Ok(d) => d,
        Err(e) => {
            return Err(e);
        },
    };
    proof {
        crate::scan::lemma_first_at_props(decoded@, 32, 0);
        match crate::scan::first_at(decoded@, 32, 0) {
            Some(x) => {
                crate::scan::lemma_first_at_props(decoded@, 0, x);
            },
            None => {},
        }
    }
    let (kind, payload) = match parse_frame(&decoded, sha) {
        Ok(kp) => kp,
        Err(e) => {
            return Err(e);
        },
    };
    proof {
        lemma_kind_tag_bytes_distinct();
    }
    if bytes_eq(&kind, &tag_blob()) {
        Ok(WitObject::BlobObject(Blob::new(Some(repo), payload)))
    } else if bytes_eq(&kind, &tag_commit()) {
        Ok(WitObject::CommitObject(Commit::new(Some(repo))))
    } else if bytes_eq(&kind, &tag_tree()) {
        match Tree::from(&payload) {
            Ok(t) => Ok(WitObject::TreeObject(t)),
            Err(e) => Err(e),
        }
    } else if bytes_eq(&kind, &tag_tag()) {
        Ok(WitObject::TagObject(Tag::new(Some(repo))))
    } else {
        match bytes_to_str(&kind) {
            Ok(s) => {
                let mut message = String::from_str("Unknown object type ");
                message.append(s);
                Err(unknown_object_err(message))
            },
            Err(e) => Err(e),
        }
    }
}

/// What a persisting write asks the caller to put on disk: the compressed
/// frame, at the fan-out path under the repository's directory.
#[derive(Debug)]
pub struct Persist {
    /// The repository directory the object carried.
    pub gitdir: String,
    /// The path components under it: `objects`, then the digest split 2/38.
    pub path: Vec<String>,
    /// The compressed frame.
    pub data: Vec<u8>,
}

/// Serializes the object, frames it, hashes the whole frame, and -- when
/// asked to persist -- compresses the frame and names the fan-out path.
/// The digest comes back whether or not persistence was requested.
pub fn write(obj: &WitObject, actually_write: bool) -> (r: Result<
    (String, Option<Persist>),
    WitError,
>)
    ensures
        is_digest(object_digest(*obj)),
        !actually_write ==> (r matches Ok(t) && t.0@ == object_digest(*obj) && t.1 is None),
        actually_write ==> match obj.repo_ref() {
            None => r matches Err(e) && e.kind == ErrorKind::RepoNotFound && e.message@
                == "No repo found for object"@,
            Some(rep) => r matches Ok(t) && t.0@ == object_digest(*obj) && (t.1 matches Some(p)
                && p.gitdir == rep.gitdir && p.path@.len() == 3 && p.path@[0]@ == "objects"@
                && p.path@[1]@ == object_digest(*obj).subrange(0, 2) && p.path@[2]@
                == object_digest(*obj).subrange(2, 40) && p.data@ == zlib_deflate_of(
                object_frame(*obj),
            ) && zlib_inflate_of(p.data@) == Some(object_frame(*obj))),
        },
{
    let data = match obj.serialize() {
        Ok(d) => d,
        Err(e) => {
            return Err(e);
        },
    };
    let fmt_bytes = obj.fmt();
    let frame = build_frame(&fmt_bytes, &data);
    let sha = sha1_hex(&frame);
    if actually_write {
        match obj.repo() {
            None => Err(repo_not_found_err(String::from_str("No repo found for object"))),
            Some(rep) => {
                let compressed = zlib_compress(&frame);
                let path = rep.object_file(&sha);
                let gitdir = rep.gitdir.clone();
                Ok((sha, Some(Persist { gitdir, path, data: compressed })))
            },
        }
    } else {
        Ok((sha, None))
    }
}

/// Hashes payload bytes as an object of the given kind, writing only when
/// the object carries no repository context -- in which case the write
/// itself reports the missing repository.
pub fn hash(data: Vec<u8>, fmt: &str, repo: Option<&Repository>) -> (r: Result<
    (String, Option<Persist>),
    WitError,
>)
    ensures
        fmt@ == "blob"@ ==> match repo {
            Some(_) => r matches Ok(t) && t.0@ == sha1_hex_of(frame_of(ascii_of("blob"@), data@))
                && t.1 is None,
            None => r matches Err(e) && e.kind == ErrorKind::RepoNotFound,
        },
        fmt@ == "commit"@ ==> match repo {
            Some(_) => r matches Ok(t) && t.0@ == sha1_hex_of(
                frame_of(ascii_of("commit"@), Seq::<u8>::empty()),
            ) && t.1 is None,
            None => r matches Err(e) && e.kind == ErrorKind::RepoNotFound,
        },
        fmt@ == "tree"@ ==> match repo {
            Some(_) => r matches Ok(t) && t.0@ == sha1_hex_of(frame_of(ascii_of("tree"@), data@))
                && t.1 is None,
            None => r matches Err(e) && e.kind == ErrorKind::RepoNotFound,
        },
        fmt@ == "tag"@ ==> match repo {
            Some(_) => r matches Ok(t) && t.0@ == sha1_hex_of(
                frame_of(ascii_of("tag"@), Seq::<u8>::empty()),
            ) && t.1 is None,
            None => r matches Err(e) && e.kind == ErrorKind::RepoNotFound,
        },
        fmt@ != "blob"@ && fmt@ != "commit"@ && fmt@ != "tree"@ && fmt@ != "tag"@ ==> (r matches Err(
            e,
        ) && e.kind == ErrorKind::UnknownObject),
{
    let dry = repo.is_none();
    let obj = match build(fmt, repo, Some(data)) {
        Ok(o) => o,
        Err(e) => {
            return Err(e);
        },
    };
    proof {
        crate::object::lemma_kind_tags_distinct();
        if fmt@ == "commit"@ || fmt@ == "tag"@ {
            assert(obj.payload() =~= Seq::<u8>::empty());
        }
    }
    write(&obj, dry)
}

/// Content addressing: two objects with byte-identical frames produce the
/// same digest, however each was constructed.
pub proof fn lemma_content_addressing(a: WitObject, b: WitObject)
    requires
        object_frame(a) == object_frame(b),
    ensures
        object_digest(a) == object_digest(b),
{
}

/// Round-trip: the frame hashed and stored for an object splits back into
/// exactly the kind tag and payload it was built from, and its declared
/// length agrees with the payload. With the contracts of `write` and
/// `read`, reading back a stored frame returns the stored payload, and
/// writing the same object again yields the same digest.
pub proof fn lemma_write_read_round_trip(o: WitObject)
    requires
        o.payload().len() <= usize::MAX,
    ensures
        ({
            let fr = object_frame(o);
            let x = ascii_of(o.kind_chars()).len() as int;
            let y = x + 1 + dec_rep(o.payload().len() as int).len() as int;
            &&& header_split(fr) == Some((x, y))
            &&& fr.subrange(0, x) == ascii_of(o.kind_chars())
            &&& is_digit_seq(fr.subrange(x + 1, y))
            &&& fr.subrange(x + 1, y).len() > 0
            &&& dec_val(fr.subrange(x + 1, y)) == o.payload().len()
            &&& fr.len() - y - 1 == o.payload().len()
            &&& fr.subrange(y + 1, fr.len() as int) == o.payload()
        }),
{
    lemma_tag_bytes_clean(o.kind_chars());
    lemma_parse_frame_of(ascii_of(o.kind_chars()), o.payload());
}

} // verus!
