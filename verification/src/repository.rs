//! The repository context: the external collaborator that resolves logical
//! names to filesystem locations. The core never owns the filesystem; it
//! only computes the path components of the two-level fan-out layout, and
//! the caller turns them into real paths.

use vstd::prelude::*;
use vstd::string::StrSliceExecFns;
use vstd::string::StringExecFns;
use crate::text::is_digest;
use crate::text::is_lower_hex_seq;
use crate::text::lemma_lower_hex_is_ascii;

verus! {

/// A handle on one repository. The core reads it only to compute paths;
/// many objects may borrow the same context within one logical operation.
#[derive(Debug)]
pub struct Repository {
    /// The repository's own directory, as the caller supplied it.
    pub gitdir: String,
}

impl Clone for Repository {
    fn clone(&self) -> (r: Self)
        ensures
            r == *self,
    {
        Repository { gitdir: self.gitdir.clone() }
    }
}

impl Repository {
    pub fn new(gitdir: String) -> (r: Repository)
        ensures
            r.gitdir == gitdir,
    {
        Repository { gitdir }
    }

    /// The components, under the repository directory, of the object file
    /// for `sha`: `objects/<first 2 hex chars>/<remaining 38 hex chars>`.
    pub fn object_file(&self, sha: &String) -> (r: Vec<String>)
        requires
            is_digest(sha@),
        ensures
            r@.len() == 3,
            r@[0]@ == "objects"@,
            r@[1]@ == sha@.subrange(0, 2),
            r@[2]@ == sha@.subrange(2, 40),
    {
        proof {
            lemma_lower_hex_is_ascii(sha@);
        }
        let mut r: Vec<String> = Vec::new();
        r.push(String::from_str("objects"));
        r.push(String::from_str(sha.as_str().substring_ascii(0, 2)));
        r.push(String::from_str(sha.as_str().substring_ascii(2, 40)));
        r
    }

    /// The components, under the repository directory, of the fan-out
    /// directory for a two-character digest prefix.
    pub fn object_dir(&self, prefix: &String) -> (r: Vec<String>)
        requires
            is_lower_hex_seq(prefix@),
        ensures
            r@.len() == 2,
            r@[0]@ == "objects"@,
            r@[1]@ == prefix@,
    {
        let mut r: Vec<String> = Vec::new();
        r.push(String::from_str("objects"));
        r.push(prefix.clone());
        r
    }
}

} // verus!
