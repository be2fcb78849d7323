//! The two recursive walks over the object graph, as verified work lists:
//! ancestry export (one edge per commit/parent pair, a seen-set guarding
//! against diamonds and cycles) and tree materialization (checkout). The
//! caller performs the outside work each step names -- reading an object,
//! writing a file, creating a directory, emitting an edge -- and feeds the
//! object back in.

use vstd::prelude::*;
use vstd::string::StrSliceExecFns;
use vstd::string::StringExecFns;
use crate::errors::ErrorKind;
use crate::errors::WitError;
use crate::errors::unknown_object_err;
use crate::object::Leaf;
use crate::object::Tree;
use crate::object::WitObject;
use crate::object::kvlm_get;
use crate::object::kvlm_lookup;
use crate::scan::copy_bytes;
use crate::text::str_eq;

verus! {

/// Work pending in an ancestry walk: visit a commit, or emit the edge
/// from a child to one of its parents.
#[derive(Debug)]
pub enum AncestryTask {
    Visit(String),
    Edge(String, String),
}

/// What the caller must do next: read the named commit and hand it to
/// `graphviz_visit`, or emit one edge line.
#[derive(Debug)]
pub enum AncestryStep {
    Read(String),
    Emit(String, String),
}

/// The state of an ancestry walk: the digests already visited, and the
/// work still pending, top of the stack last.
#[derive(Debug)]
pub struct Ancestry {
    pub seen: Vec<String>,
    pub stack: Vec<AncestryTask>,
}

/// Whether a digest was already visited.
pub open spec fn seen_has(seen: Seq<String>, sha: Seq<char>) -> bool {
    exists|i: int| 0 <= i < seen.len() && seen[i]@ == sha
}

/// What one turn of the walk does: edges at the top are emitted; a visit
/// of an already-seen digest is dropped; an unseen digest is marked seen
/// and read. Returns the step, the new seen-set and the new stack.
pub open spec fn walk_next(seen: Seq<String>, stack: Seq<AncestryTask>) -> (
    Option<AncestryStep>,
    Seq<String>,
    Seq<AncestryTask>,
)
    decreases stack.len()
{
    if stack.len() == 0 {
        (None, seen, stack)
    } else {
        match stack.last() {
            AncestryTask::Edge(c, p) => (
                Some(AncestryStep::Emit(c, p)),
                seen,
                stack.drop_last(),
            ),
            AncestryTask::Visit(s) => if seen_has(seen, s@) {
                walk_next(seen, stack.drop_last())
            } else {
                (Some(AncestryStep::Read(s)), seen.push(s), stack.drop_last())
            },
        }
    }
}

/// The tasks that visiting a commit pushes for its parents, so that the
/// walk emits each edge and then explores that parent depth-first, in the
/// parents' stored order.
pub open spec fn parent_tasks(sha: String, parents: Seq<String>, i: int) -> Seq<AncestryTask>
    decreases parents.len() - i when i >= 0
{
    if i >= parents.len() {
        Seq::empty()
    } else {
        parent_tasks(sha, parents, i + 1) + seq![
            AncestryTask::Visit(parents[i]),
            AncestryTask::Edge(sha, parents[i]),
        ]
    }
}

/// Starts an ancestry walk at one digest, with an empty seen-set.
pub fn graphviz(sha: String) -> (r: Ancestry)
    ensures
        r.seen@.len() == 0,
        r.stack@ =~= seq![AncestryTask::Visit(sha)],
{
    let stack: Vec<AncestryTask> = vec![AncestryTask::Visit(sha)];
    Ancestry { seen: Vec::new(), stack }
}

/// Whether the walk has already visited `sha`.
fn seen_contains(seen: &Vec<String>, sha: &String) -> (r: bool)
    ensures
        r == seen_has(seen@, sha@),
{
    let n: usize = seen.len();
    let mut i: usize = 0;
    while i < n
        invariant
            i <= n,
            n == seen@.len(),
            forall|j: int| 0 <= j < i ==> seen@[j]@ != sha@,
        decreases n - i,
    {
        if str_eq(seen[i].as_str(), sha.as_str()) {
            return true;
        }
        i = i + 1;
    }
    false
}

/// Takes the walk's next step, skipping digests already seen. `None`
/// means the walk has terminated.
pub fn graphviz_next(a: &mut Ancestry) -> (r: Option<AncestryStep>)
    ensures
        ({
            let (step, seen2, stack2) = walk_next(old(a).seen@, old(a).stack@);
            &&& r == step
            &&& final(a).seen@ == seen2
            &&& final(a).stack@ == stack2
        }),
{
    loop
        invariant
            walk_next(a.seen@, a.stack@) == walk_next(old(a).seen@, old(a).stack@),
        decreases a.stack@.len(),
    {
        match a.stack.pop() {
            None => {
                return None;
            },
            Some(task) => {
                match task {
                    AncestryTask::Edge(c, p) => {
                        return Some(AncestryStep::Emit(c, p));
                    },
                    AncestryTask::Visit(s) => {
                        if !seen_contains(&a.seen, &s) {
                            a.seen.push(s.clone());
                            return Some(AncestryStep::Read(s));
                        }
                    },
                }
            },
        }
    }
}

/// Handles the commit the caller just read: a non-commit object aborts
/// the traversal; a commit without parents adds no work; otherwise each
/// (commit, parent) edge and parent visit is queued, parents in order.
pub fn graphviz_visit(a: &mut Ancestry, sha: &String, obj: &WitObject) -> (r: Result<
    (),
    WitError,
>)
    ensures
        old(a).seen == final(a).seen,
        obj matches WitObject::CommitObject(c) ==> (r is Ok && (match kvlm_lookup(
            c.kvlm@,
            "parent"@,
        ) {
            None => final(a).stack == old(a).stack,
            Some(parents) => final(a).stack@ == old(a).stack@ + parent_tasks(*sha, parents, 0),
        })),
        !(obj matches WitObject::CommitObject(_)) ==> (r matches Err(e) && e.kind
            == ErrorKind::UnknownObject && e.message@ == "Cannot log a non-commit object; found "@
            + obj.kind_chars() && final(a).stack == old(a).stack),
{
    let commit = match obj {
        WitObject::CommitObject(c) => c,
        WitObject::BlobObject(_) => {
            let mut message = String::from_str("Cannot log a non-commit object; found ");
            message.append("blob");
            return Err(unknown_object_err(message));
        },
        WitObject::TreeObject(_) => {
            let mut message = String::from_str("Cannot log a non-commit object; found ");
            message.append("tree");
            return Err(unknown_object_err(message));
        },
        WitObject::TagObject(_) => {
            let mut message = String::from_str("Cannot log a non-commit object; found ");
            message.append("tag");
            return Err(unknown_object_err(message));
        },
    };
    let parents: &Vec<String> = match kvlm_get(&commit.kvlm, "parent") {
        Some(vs) => vs,
        None => {
            return Ok(());
        },
    };
    let n: usize = parents.len();
    let mut i: usize = n;
    while i > 0
        invariant
            i <= n,
            n == parents@.len(),
            a.seen == old(a).seen,
            a.stack@ == old(a).stack@ + parent_tasks(*sha, parents@, i as int),
        decreases i,
    {
        i = i - 1;
        a.stack.push(AncestryTask::Visit(parents[i].clone()));
        a.stack.push(AncestryTask::Edge(sha.clone(), parents[i].clone()));
        proof {
            assert(a.stack@ =~= old(a).stack@ + parent_tasks(*sha, parents@, i as int));
        }
    }
    Ok(())
}

/// One edge of the ancestry export, in the emitted textual form.
pub fn edge_line(child: &String, parent: &String) -> (r: String)
    ensures
        r@ == "c_"@ + child@ + " -> c_"@ + parent@,
{
    let mut out = String::from_str("c_");
    out.append(child.as_str());
    out.append(" -> c_");
    out.append(parent.as_str());
    out
}

/// Work pending in a checkout: materialize the object `sha` at the
/// destination path `dest` (components below the checkout root's parent).
#[derive(Debug)]
pub struct CheckoutTask {
    pub dest: Vec<String>,
    pub sha: String,
}

/// What the caller must do for one visited leaf: write the blob's bytes
/// as a file at the path, or create the directory (the subtree's own
/// leaves have been queued).
#[derive(Debug)]
pub enum CheckoutAction {
    WriteFile(Vec<String>, Vec<u8>),
    MakeDir(Vec<String>),
}

/// The state of a checkout: the leaves still to materialize, the next one
/// last.
#[derive(Debug)]
pub struct Checkout {
    pub stack: Vec<CheckoutTask>,
}

/// Whether `t` is the task that materializes `leaf` under `dest`.
pub open spec fn task_for(t: CheckoutTask, dest: Seq<String>, leaf: Leaf) -> bool {
    t.dest@ == dest.push(leaf.path) && t.sha == leaf.sha
}

/// The stack got the tasks for `leaves` under `dest` appended in reverse,
/// so that popping visits them in the tree's stored order.
pub open spec fn queued_leaves(
    stack: Seq<CheckoutTask>,
    before: Seq<CheckoutTask>,
    dest: Seq<String>,
    leaves: Seq<Leaf>,
) -> bool {
    &&& stack.len() == before.len() + leaves.len()
    &&& stack.take(before.len() as int) == before
    &&& forall|j: int|
        0 <= j < leaves.len() ==> task_for(
            #[trigger] stack[before.len() + j],
            dest,
            leaves[leaves.len() - 1 - j],
        )
}

/// A fresh copy of a path's components.
fn clone_strings(src: &Vec<String>) -> (r: Vec<String>)
    ensures
        r@ == src@,
{
    let mut out: Vec<String> = Vec::new();
    let n: usize = src.len();
    let mut i: usize = 0;
    while i < n
        invariant
            i <= n,
            n == src@.len(),
            out@ == src@.take(i as int),
        decreases n - i,
    {
        out.push(src[i].clone());
        proof {
            assert(src@.take((i + 1) as int) =~= src@.take(i as int).push(src@[i as int]));
        }
        i = i + 1;
    }
    proof {
        assert(src@.take(n as int) =~= src@);
    }
    out
}

/// Queues the leaves of one tree under `dest`, in reverse, onto the stack.
fn queue_leaves(stack: &mut Vec<CheckoutTask>, dest: &Vec<String>, leaves: &Vec<Leaf>)
    ensures
        queued_leaves(final(stack)@, old(stack)@, dest@, leaves@),
{
    let n: usize = leaves.len();
    let mut i: usize = 0;
    while i < n
        invariant
            i <= n,
            n == leaves@.len(),
            stack@.len() == old(stack)@.len() + i,
            stack@.take(old(stack)@.len() as int) == old(stack)@,
            forall|j: int|
                0 <= j < i ==> task_for(
                    #[trigger] stack@[old(stack)@.len() + j],
                    dest@,
                    leaves@[n - 1 - j],
                ),
        decreases n - i,
    {
        let leaf = &leaves[n - 1 - i];
        let mut d = clone_strings(dest);
        d.push(leaf.path.clone());
        stack.push(CheckoutTask { dest: d, sha: leaf.sha.clone() });
        proof {
            assert(stack@.take(old(stack)@.len() as int) =~= old(stack)@);
        }
        i = i + 1;
    }
}

/// The destination path, joined for an error message.
pub open spec fn join_path(parts: Seq<String>) -> Seq<char>
    decreases parts.len()
{
    if parts.len() == 0 {
        Seq::empty()
    } else if parts.len() == 1 {
        parts[0]@
    } else {
        join_path(parts.drop_last()) + "/"@ + parts.last()@
    }
}

/// Joins path components with separators, for an error message.
fn join_path_str(parts: &Vec<String>) -> (r: String)
    ensures
        r@ == join_path(parts@),
{
    let mut out = String::new();
    let n: usize = parts.len();
    let mut i: usize = 0;
    while i < n
        invariant
            i <= n,
            n == parts@.len(),
            out@ == join_path(parts@.take(i as int)),
        decreases n - i,
    {
        if i > 0 {
            out.append("/");
        }
        out.append(parts[i].as_str());
        proof {
            assert(parts@.take((i + 1) as int).drop_last() =~= parts@.take(i as int));
            assert(parts@.take((i + 1) as int).last() == parts@[i as int]);
            if i == 0 {
                assert(parts@.take(1).len() == 1);
            }
        }
        i = i + 1;
    }
    proof {
        assert(parts@.take(n as int) =~= parts@);
    }
    out
}

/// Starts a checkout of a tree's leaves into the destination path.
pub fn checkout(tree: &Tree, path: &Vec<String>) -> (r: Checkout)
    ensures
        queued_leaves(r.stack@, Seq::empty(), path@, tree.leaves@),
{
    let mut stack: Vec<CheckoutTask> = Vec::new();
    queue_leaves(&mut stack, path, tree.leaves());
    proof {
        assert(stack@.take(0) =~= Seq::<CheckoutTask>::empty());
    }
    Checkout { stack }
}

/// The next leaf to materialize: the caller reads the object at its
/// digest and hands it to `checkout_visit`. `None` means the checkout is
/// complete.
pub fn checkout_next(c: &mut Checkout) -> (r: Option<CheckoutTask>)
    ensures
        old(c).stack@.len() == 0 ==> (r is None && final(c).stack@ == old(c).stack@),
        old(c).stack@.len() > 0 ==> (r matches Some(t) && t == old(c).stack@.last()
            && final(c).stack@ == old(c).stack@.drop_last()),
{
    c.stack.pop()
}

/// Materializes one leaf: a blob's bytes become a file at the path; a
/// tree becomes a directory whose own leaves are queued; any other kind
/// is a hard error naming the offending path and kind.
pub fn checkout_visit(c: &mut Checkout, dest: Vec<String>, obj: &WitObject) -> (r: Result<
    CheckoutAction,
    WitError,
>)
    ensures
        obj matches WitObject::BlobObject(b) ==> (r matches Ok(a) && a matches
            CheckoutAction::WriteFile(d, bytes) && d == dest && bytes@ == b.data@ && final(c).stack
            == old(c).stack),
        obj matches WitObject::TreeObject(t) ==> (r matches Ok(a) && a matches
            CheckoutAction::MakeDir(d) && d == dest && queued_leaves(
            final(c).stack@,
            old(c).stack@,
            dest@,
            t.leaves@,
        )),
        (obj matches WitObject::CommitObject(_) || obj matches WitObject::TagObject(_)) ==> (
        r matches Err(e) && e.kind == ErrorKind::UnknownObject && e.message@ == "Object "@
            + join_path(dest@) + " of type "@ + obj.kind_chars() + " cannot be checked out."@
            && final(c).stack == old(c).stack),
{
    match obj {
        WitObject::BlobObject(b) => {
            let bytes = copy_bytes(&b.data);
            Ok(CheckoutAction::WriteFile(dest, bytes))
        },
        WitObject::TreeObject(t) => {
            queue_leaves(&mut c.stack, &dest, &t.leaves);
            Ok(CheckoutAction::MakeDir(dest))
        },
        WitObject::CommitObject(_) => {
            let mut message = String::from_str("Object ");
            let joined = join_path_str(&dest);
            message.append(joined.as_str());
            message.append(" of type ");
            message.append("commit");
            message.append(" cannot be checked out.");
            Err(unknown_object_err(message))
        },
        WitObject::TagObject(_) => {
            let mut message = String::from_str("Object ");
            let joined = join_path_str(&dest);
            message.append(joined.as_str());
            message.append(" of type ");
            message.append("tag");
            message.append(" cannot be checked out.");
            Err(unknown_object_err(message))
        },
    }
}

} // verus!
