//! The object model: a closed, tagged union over the four object kinds,
//! each providing the shared capability set -- serialize, deserialize,
//! type tag, repository association.
//!
//! The internal structure of each kind's payload is owned by an external
//! collaborator: the core consumes and produces raw bytes, and reads only
//! the `parent`, `tree` and `object` keys of the key/value structure that
//! the collaborator parses into a commit or tag.

use vstd::prelude::*;
use vstd::string::StringExecFns;
use crate::errors::ErrorKind;
use crate::errors::WitError;
use crate::errors::missing_data_err;
use crate::errors::unknown_object_err;
use crate::repository::Repository;
use crate::scan::copy_bytes;
use crate::text::ascii_of;
use crate::text::str_eq;

verus! {

broadcast use vstd::string::group_string_axioms;

/// One leaf entry of a tree: a mode, a path segment, and a child digest.
#[derive(Debug)]
pub struct Leaf {
    pub mode: String,
    pub path: String,
    pub sha: String,
}

/// One key of a commit's or tag's key/value structure, with its ordered
/// values. Parsing the payload into entries is the collaborator's work.
#[derive(Debug)]
pub struct KvEntry {
    pub key: String,
    pub values: Vec<String>,
}

/// An opaque byte payload.
#[derive(Debug)]
pub struct Blob {
    pub repo: Option<Repository>,
    pub data: Vec<u8>,
}

/// A key/value structure plus message; built empty and populated by the
/// caller's subsequent deserialize step. The core reads `parent` and `tree`.
#[derive(Debug)]
pub struct Commit {
    pub repo: Option<Repository>,
    pub data: Vec<u8>,
    pub kvlm: Vec<KvEntry>,
}

/// An ordered list of leaf entries.
#[derive(Debug)]
pub struct Tree {
    pub repo: Option<Repository>,
    pub data: Vec<u8>,
    pub leaves: Vec<Leaf>,
}

/// A key/value structure analogous to a commit, with an `object` key
/// pointing at the tagged digest.
#[derive(Debug)]
pub struct Tag {
    pub repo: Option<Repository>,
    pub data: Vec<u8>,
    pub kvlm: Vec<KvEntry>,
}

/// The shared capability set of every object kind.
pub trait Object {
    /// The payload this object serializes to.
    spec fn payload(&self) -> Seq<u8>;

    /// The ASCII type tag of this kind.
    spec fn kind_chars(&self) -> Seq<char>;

    /// The repository context this object carries, if any.
    spec fn repo_ref(&self) -> Option<Repository>;

    /// The payload, as bytes, with no header.
    fn serialize(&self) -> (r: Result<Vec<u8>, WitError>)
        ensures
            r matches Ok(d) && d@ == self.payload(),
    ;

    /// Accepts the payload bytes; structure parsing is the collaborator's.
    fn deserialize(&mut self, data: Vec<u8>) -> (r: Result<(), WitError>)
        ensures
            r is Ok,
            final(self).payload() == data@,
            final(self).kind_chars() == old(self).kind_chars(),
            final(self).repo_ref() == old(self).repo_ref(),
    ;

    /// The type tag, as bytes.
    fn fmt(&self) -> (r: Vec<u8>)
        ensures
            r@ == ascii_of(self.kind_chars()),
    ;

    /// The repository association.
    fn repo(&self) -> (r: Option<&Repository>)
        ensures
            match r {
                Some(rp) => self.repo_ref() == Some(*rp),
                None => self.repo_ref() is None,
            },
    ;
}

impl Object for Blob {
    open spec fn payload(&self) -> Seq<u8> {
        self.data@
    }

    open spec fn kind_chars(&self) -> Seq<char> {
        "blob"@
    }

    open spec fn repo_ref(&self) -> Option<Repository> {
        self.repo
    }

    fn serialize(&self) -> (r: Result<Vec<u8>, WitError>) {
        Ok(copy_bytes(&self.data))
    }

    fn deserialize(&mut self, data: Vec<u8>) -> (r: Result<(), WitError>) {
        self.data = data;
        Ok(())
    }

    fn fmt(&self) -> (r: Vec<u8>) {
        tag_blob()
    }

    fn repo(&self) -> (r: Option<&Repository>) {
        match &self.repo {
            Some(rp) => Some(rp),
            None => None,
        }
    }
}

impl Object for Commit {
    open spec fn payload(&self) -> Seq<u8> {
        self.data@
    }

    open spec fn kind_chars(&self) -> Seq<char> {
        "commit"@
    }

    open spec fn repo_ref(&self) -> Option<Repository> {
        self.repo
    }

    fn serialize(&self) -> (r: Result<Vec<u8>, WitError>) {
        Ok(copy_bytes(&self.data))
    }

    fn deserialize(&mut self, data: Vec<u8>) -> (r: Result<(), WitError>) {
        self.data = data;
        Ok(())
    }

    fn fmt(&self) -> (r: Vec<u8>) {
        tag_commit()
    }

    fn repo(&self) -> (r: Option<&Repository>) {
        match &self.repo {
            Some(rp) => Some(rp),
            None => None,
        }
    }
}

impl Object for Tree {
    open spec fn payload(&self) -> Seq<u8> {
        self.data@
    }

    open spec fn kind_chars(&self) -> Seq<char> {
        "tree"@
    }

    open spec fn repo_ref(&self) -> Option<Repository> {
        self.repo
    }

    fn serialize(&self) -> (r: Result<Vec<u8>, WitError>) {
        Ok(copy_bytes(&self.data))
    }

    fn deserialize(&mut self, data: Vec<u8>) -> (r: Result<(), WitError>) {
        self.data = data;
        Ok(())
    }

    fn fmt(&self) -> (r: Vec<u8>) {
        tag_tree()
    }

    fn repo(&self) -> (r: Option<&Repository>) {
        match &self.repo {
            Some(rp) => Some(rp),
            None => None,
        }
    }
}

impl Object for Tag {
    open spec fn payload(&self) -> Seq<u8> {
        self.data@
    }

    open spec fn kind_chars(&self) -> Seq<char> {
        "tag"@
    }

    open spec fn repo_ref(&self) -> Option<Repository> {
        self.repo
    }

    fn serialize(&self) -> (r: Result<Vec<u8>, WitError>) {
        Ok(copy_bytes(&self.data))
    }

    fn deserialize(&mut self, data: Vec<u8>) -> (r: Result<(), WitError>) {
        self.data = data;
        Ok(())
    }

    fn fmt(&self) -> (r: Vec<u8>) {
        tag_tag()
    }

    fn repo(&self) -> (r: Option<&Repository>) {
        match &self.repo {
            Some(rp) => Some(rp),
            None => None,
        }
    }
}

impl Blob {
    pub fn new(repo: Option<&Repository>, data: Vec<u8>) -> (r: Blob)
        ensures
            r.repo == opt_repo(repo),
            r.data == data,
    {
        Blob { repo: clone_opt_repo(repo), data }
    }
}

impl Commit {
    /// A commit starts empty: container allocation, then the caller's
    /// payload parse.
    pub fn new(repo: Option<&Repository>) -> (r: Commit)
        ensures
            r.repo == opt_repo(repo),
            r.data@.len() == 0,
            r.kvlm@.len() == 0,
    {
        Commit { repo: clone_opt_repo(repo), data: Vec::new(), kvlm: Vec::new() }
    }

    /// The key/value structure the collaborator parsed into this commit.
    pub fn kvlm(&self) -> (r: &Vec<KvEntry>)
        ensures
            r == &self.kvlm,
    {
        &self.kvlm
    }
}

impl Tree {
    /// A tree built from its payload bytes; entry parsing is the
    /// collaborator's, so the leaf list starts empty.
    pub fn from(data: &Vec<u8>) -> (r: Result<Tree, WitError>)
        ensures
            r matches Ok(t) && t.repo is None && t.data@ == data@ && t.leaves@.len() == 0,
    {
        Ok(Tree { repo: None, data: copy_bytes(data), leaves: Vec::new() })
    }

    /// The ordered leaf entries of this tree.
    pub fn leaves(&self) -> (r: &Vec<Leaf>)
        ensures
            r == &self.leaves,
    {
        &self.leaves
    }
}

impl Tag {
    /// A tag starts empty, like a commit.
    pub fn new(repo: Option<&Repository>) -> (r: Tag)
        ensures
            r.repo == opt_repo(repo),
            r.data@.len() == 0,
            r.kvlm@.len() == 0,
    {
        Tag { repo: clone_opt_repo(repo), data: Vec::new(), kvlm: Vec::new() }
    }

    /// The key/value structure the collaborator parsed into this tag.
    pub fn kvlm(&self) -> (r: &Vec<KvEntry>)
        ensures
            r == &self.kvlm,
    {
        &self.kvlm
    }
}

/// The borrowed repository handle, as an owned option.
pub open spec fn opt_repo(repo: Option<&Repository>) -> Option<Repository> {
    match repo {
        Some(rp) => Some(*rp),
        None => None,
    }
}

/// Clones the borrowed repository handle into an owned option.
pub fn clone_opt_repo(repo: Option<&Repository>) -> (r: Option<Repository>)
    ensures
        r == opt_repo(repo),
{
    match repo {
        Some(rp) => Some(rp.clone()),
        None => None,
    }
}

/// The closed union over the four object kinds.
#[derive(Debug)]
pub enum WitObject {
    BlobObject(Blob),
    CommitObject(Commit),
    TreeObject(Tree),
    TagObject(Tag),
}

impl WitObject {
    /// The payload this object serializes to.
    pub open spec fn payload(&self) -> Seq<u8> {
        match self {
            WitObject::BlobObject(b) => b.payload(),
            WitObject::CommitObject(c) => c.payload(),
            WitObject::TreeObject(t) => t.payload(),
            WitObject::TagObject(t) => t.payload(),
        }
    }

    /// The ASCII type tag of this object's kind.
    pub open spec fn kind_chars(&self) -> Seq<char> {
        match self {
            WitObject::BlobObject(b) => b.kind_chars(),
            WitObject::CommitObject(c) => c.kind_chars(),
            WitObject::TreeObject(t) => t.kind_chars(),
            WitObject::TagObject(t) => t.kind_chars(),
        }
    }

    /// The repository context this object carries, if any.
    pub open spec fn repo_ref(&self) -> Option<Repository> {
        match self {
            WitObject::BlobObject(b) => b.repo_ref(),
            WitObject::CommitObject(c) => c.repo_ref(),
            WitObject::TreeObject(t) => t.repo_ref(),
            WitObject::TagObject(t) => t.repo_ref(),
        }
    }

    pub fn serialize(&self) -> (r: Result<Vec<u8>, WitError>)
        ensures
            r matches Ok(d) && d@ == self.payload(),
    {
        match self {
            WitObject::BlobObject(b) => b.serialize(),
            WitObject::CommitObject(c) => c.serialize(),
            WitObject::TreeObject(t) => t.serialize(),
            WitObject::TagObject(t) => t.serialize(),
        }
    }

    pub fn fmt(&self) -> (r: Vec<u8>)
        ensures
            r@ == ascii_of(self.kind_chars()),
    {
        match self {
            WitObject::BlobObject(b) => b.fmt(),
            WitObject::CommitObject(c) => c.fmt(),
            WitObject::TreeObject(t) => t.fmt(),
            WitObject::TagObject(t) => t.fmt(),
        }
    }

    pub fn repo(&self) -> (r: Option<&Repository>)
        ensures
            match r {
                Some(rp) => self.repo_ref() == Some(*rp),
                None => self.repo_ref() is None,
            },
    {
        match self {
            WitObject::BlobObject(b) => b.repo(),
            WitObject::CommitObject(c) => c.repo(),
            WitObject::TreeObject(t) => t.repo(),
            WitObject::TagObject(t) => t.repo(),
        }
    }
}

/// The `blob` tag, as bytes.
pub fn tag_blob() -> (r: Vec<u8>)
    ensures
        r@ == ascii_of("blob"@),
{
    let v: Vec<u8> = vec![98, 108, 111, 98];
    proof {
        reveal_strlit("blob");
        assert(v@ =~= ascii_of("blob"@));
    }
    v
}

/// The `commit` tag, as bytes.
pub fn tag_commit() -> (r: Vec<u8>)
    ensures
        r@ == ascii_of("commit"@),
{
    let v: Vec<u8> = vec![99, 111, 109, 109, 105, 116];
    proof {
        reveal_strlit("commit");
        assert(v@ =~= ascii_of("commit"@));
    }
    v
}

/// The `tree` tag, as bytes.
pub fn tag_tree() -> (r: Vec<u8>)
    ensures
        r@ == ascii_of("tree"@),
{
    let v: Vec<u8> = vec![116, 114, 101, 101];
    proof {
        reveal_strlit("tree");
        assert(v@ =~= ascii_of("tree"@));
    }
    v
}

/// The `tag` tag, as bytes.
pub fn tag_tag() -> (r: Vec<u8>)
    ensures
        r@ == ascii_of("tag"@),
{
    let v: Vec<u8> = vec![116, 97, 103];
    proof {
        reveal_strlit("tag");
        assert(v@ =~= ascii_of("tag"@));
    }
    v
}

/// The byte forms of the four type tags are pairwise distinct, and none
/// holds a space or a NUL byte.
pub proof fn lemma_kind_tag_bytes_distinct()
    ensures
        ascii_of("blob"@) != ascii_of("commit"@),
        ascii_of("blob"@) != ascii_of("tree"@),
        ascii_of("blob"@) != ascii_of("tag"@),
        ascii_of("commit"@) != ascii_of("tree"@),
        ascii_of("commit"@) != ascii_of("tag"@),
        ascii_of("tree"@) != ascii_of("tag"@),
{
    lemma_kind_tags_distinct();
    reveal_strlit("blob");
    reveal_strlit("commit");
    reveal_strlit("tree");
    reveal_strlit("tag");
    assert(ascii_of("blob"@).len() == 4);
    assert(ascii_of("commit"@).len() == 6);
    assert(ascii_of("tree"@).len() == 4);
    assert(ascii_of("tag"@).len() == 3);
    assert(ascii_of("blob"@)[0] == 98);
    assert(ascii_of("tree"@)[0] == 116);
}

/// No type tag holds a space or a NUL byte, so a tag never collides with
/// the frame's separators.
pub proof fn lemma_tag_bytes_clean(k: Seq<char>)
    requires
        k == "blob"@ || k == "commit"@ || k == "tree"@ || k == "tag"@,
    ensures
        crate::scan::first_at(ascii_of(k), 32, 0) is None,
        crate::scan::first_at(ascii_of(k), 0, 0) is None,
{
    reveal_strlit("blob");
    reveal_strlit("commit");
    reveal_strlit("tree");
    reveal_strlit("tag");
    crate::scan::lemma_first_at_props(ascii_of(k), 32, 0);
    crate::scan::lemma_first_at_props(ascii_of(k), 0, 0);
}

/// The four type tags are pairwise distinct.
pub proof fn lemma_kind_tags_distinct()
    ensures
        "blob"@ != "commit"@,
        "blob"@ != "tree"@,
        "blob"@ != "tag"@,
        "commit"@ != "tree"@,
        "commit"@ != "tag"@,
        "tree"@ != "tag"@,
        "blob"@.len() == 4,
        "commit"@.len() == 6,
        "tree"@.len() == 4,
        "tag"@.len() == 3,
{
    reveal_strlit("blob");
    reveal_strlit("commit");
    reveal_strlit("tree");
    reveal_strlit("tag");
    assert("blob"@.len() == 4);
    assert("commit"@.len() == 6);
    assert("tree"@.len() == 4);
    assert("tag"@.len() == 3);
    assert("blob"@[0] == 'b');
    assert("tree"@[0] == 't');
}

/// Constructs the object of the given kind, dispatching on the type tag.
/// Blobs and trees require their payload; commits and tags allocate an
/// empty container for the caller's subsequent deserialize step.
pub fn build(fmt: &str, repo: Option<&Repository>, data: Option<Vec<u8>>) -> (r: Result<
    WitObject,
    WitError,
>)
    ensures
        fmt@ == "blob"@ ==> match data {
            Some(d) => r matches Ok(o) && o matches WitObject::BlobObject(b) && b.data == d
                && b.repo == opt_repo(repo),
            None => r matches Err(e) && e.kind == ErrorKind::MissingData,
        },
        fmt@ == "commit"@ ==> (r matches Ok(o) && o matches WitObject::CommitObject(c)
            && c.data@.len() == 0 && c.kvlm@.len() == 0 && c.repo == opt_repo(repo)),
        fmt@ == "tree"@ ==> match data {
            Some(d) => r matches Ok(o) && o matches WitObject::TreeObject(t) && t.data@ == d@
                && t.leaves@.len() == 0 && t.repo is None,
            None => r matches Err(e) && e.kind == ErrorKind::MissingData,
        },
        fmt@ == "tag"@ ==> (r matches Ok(o) && o matches WitObject::TagObject(t)
            && t.data@.len() == 0 && t.kvlm@.len() == 0 && t.repo == opt_repo(repo)),
        fmt@ != "blob"@ && fmt@ != "commit"@ && fmt@ != "tree"@ && fmt@ != "tag"@ ==> (r matches Err(
            e,
        ) && e.kind == ErrorKind::UnknownObject && e.message@ == "Unknown object type "@ + fmt@),
{
    proof {
        lemma_kind_tags_distinct();
    }
    if str_eq(fmt, "blob") {
        match data {
            Some(d) => Ok(WitObject::BlobObject(Blob::new(repo, d))),
            None => Err(missing_data_err(String::from_str(
                "Data is required to construct a blob.",
            ))),
        }
    } else if str_eq(fmt, "commit") {
        Ok(WitObject::CommitObject(Commit::new(repo)))
    } else if str_eq(fmt, "tree") {
        match data {
            Some(d) => Ok(WitObject::TreeObject(Tree::from(&d)?)),
            None => Err(missing_data_err(String::from_str(
                "Data is required to construct a tree.",
            ))),
        }
    } else if str_eq(fmt, "tag") {
        Ok(WitObject::TagObject(Tag::new(repo)))
    } else {
        let mut message = String::from_str("Unknown object type ");
        message.append(fmt);
        Err(unknown_object_err(message))
    }
}

/// The index of the first entry of `entries`, at or after `i`, whose key
/// reads `key`.
pub open spec fn kvlm_index(entries: Seq<KvEntry>, key: Seq<char>, i: int) -> Option<int>
    decreases entries.len() - i when i >= 0
{
    if i >= entries.len() {
        None
    } else if entries[i].key@ == key {
        Some(i)
    } else {
        kvlm_index(entries, key, i + 1)
    }
}

/// The ordered values under the first entry of `entries` whose key reads
/// `key`, or `None` when no entry has that key.
pub open spec fn kvlm_lookup(entries: Seq<KvEntry>, key: Seq<char>) -> Option<Seq<String>> {
    match kvlm_index(entries, key, 0) {
        None => None,
        Some(i) => Some(entries[i].values@),
    }
}

/// Reads one key of a key/value structure: the core's direct access to the
/// `parent`, `tree` and `object` keys.
pub fn kvlm_get<'a>(entries: &'a Vec<KvEntry>, key: &str) -> (r: Option<&'a Vec<String>>)
    ensures
        match r {
            Some(v) => kvlm_lookup(entries@, key@) == Some(v@),
            None => kvlm_lookup(entries@, key@) is None,
        },
{
    let n: usize = entries.len();
    let mut i: usize = 0;
    while i < n
        invariant
            i <= n,
            n == entries@.len(),
            kvlm_index(entries@, key@, 0) == kvlm_index(entries@, key@, i as int),
        decreases n - i,
    {
        if str_eq(entries[i].key.as_str(), key) {
            return Some(&entries[i].values);
        }
        i = i + 1;
    }
    None
}

} // verus!
