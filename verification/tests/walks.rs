use wit::errors::ErrorKind;
use wit::object::Blob;
use wit::object::Commit;
use wit::object::KvEntry;
use wit::object::Leaf;
use wit::object::Tree;
use wit::object::WitObject;
use wit::walk::AncestryStep;
use wit::walk::CheckoutAction;
use wit::walk::checkout;
use wit::walk::checkout_next;
use wit::walk::checkout_visit;
use wit::walk::edge_line;
use wit::walk::graphviz;
use wit::walk::graphviz_next;
use wit::walk::graphviz_visit;

fn commit_with_parents(parents: &[&str]) -> WitObject {
    let kvlm = if parents.is_empty() {
        Vec::new()
    } else {
        vec![KvEntry {
            key: String::from("parent"),
            values: parents.iter().map(|p| String::from(*p)).collect(),
        }]
    };
    WitObject::CommitObject(Commit { repo: None, data: Vec::new(), kvlm })
}

fn run_ancestry(start: &str, table: &[(&str, WitObject)]) -> (Vec<String>, Vec<String>) {
    let mut walk = graphviz(String::from(start));
    let mut edges: Vec<String> = Vec::new();
    let mut reads: Vec<String> = Vec::new();
    while let Some(step) = graphviz_next(&mut walk) {
        match step {
            AncestryStep::Emit(child, parent) => edges.push(edge_line(&child, &parent)),
            AncestryStep::Read(sha) => {
                reads.push(sha.clone());
                let obj = &table.iter().find(|(k, _)| *k == sha).unwrap().1;
                graphviz_visit(&mut walk, &sha, obj).unwrap();
            },
        }
    }
    (edges, reads)
}

#[test]
fn linear_history_emits_two_edges() {
    let table = vec![
        ("c1", commit_with_parents(&[])),
        ("c2", commit_with_parents(&["c1"])),
        ("c3", commit_with_parents(&["c2"])),
    ];
    let (edges, reads) = run_ancestry("c3", &table);
    assert_eq!(edges, vec!["c_c3 -> c_c2", "c_c2 -> c_c1"]);
    assert_eq!(reads, vec!["c3", "c2", "c1"]);
}

#[test]
fn merge_history_visits_common_ancestor_once() {
    let table = vec![
        ("root", commit_with_parents(&[])),
        ("a", commit_with_parents(&["root"])),
        ("b", commit_with_parents(&["root"])),
        ("merge", commit_with_parents(&["a", "b"])),
    ];
    let (edges, reads) = run_ancestry("merge", &table);
    assert_eq!(
        edges,
        vec!["c_merge -> c_a", "c_a -> c_root", "c_merge -> c_b", "c_b -> c_root"]
    );
    assert_eq!(reads, vec!["merge", "a", "root", "b"]);
}

#[test]
fn ancestry_rejects_non_commit() {
    let mut walk = graphviz(String::from("b1"));
    let step = graphviz_next(&mut walk).unwrap();
    let sha = match step {
        AncestryStep::Read(sha) => sha,
        _ => panic!("expected a read"),
    };
    let blob = WitObject::BlobObject(Blob { repo: None, data: b"x".to_vec() });
    let err = graphviz_visit(&mut walk, &sha, &blob).unwrap_err();
    assert_eq!(err.kind, ErrorKind::UnknownObject);
    assert_eq!(err.message, "Cannot log a non-commit object; found blob");
}

fn leaf(path: &str, sha: &str) -> Leaf {
    Leaf { mode: String::from("100644"), path: String::from(path), sha: String::from(sha) }
}

#[test]
fn checkout_materializes_blob_and_subtree() {
    let top = Tree {
        repo: None,
        data: Vec::new(),
        leaves: vec![leaf("a.txt", "b1"), leaf("sub", "t2")],
    };
    let sub = Tree { repo: None, data: Vec::new(), leaves: vec![leaf("b.txt", "b2")] };
    let table: Vec<(&str, WitObject)> = vec![
        ("b1", WitObject::BlobObject(Blob { repo: None, data: b"AAA".to_vec() })),
        ("b2", WitObject::BlobObject(Blob { repo: None, data: b"BBB".to_vec() })),
        ("t2", WitObject::TreeObject(sub)),
    ];
    let mut state = checkout(&top, &vec![String::from("dest")]);
    let mut actions: Vec<CheckoutAction> = Vec::new();
    while let Some(task) = checkout_next(&mut state) {
        let obj = &table.iter().find(|(k, _)| *k == task.sha).unwrap().1;
        actions.push(checkout_visit(&mut state, task.dest, obj).unwrap());
    }
    assert_eq!(actions.len(), 3);
    match &actions[0] {
        CheckoutAction::WriteFile(dest, bytes) => {
            assert_eq!(dest, &vec!["dest", "a.txt"]);
            assert_eq!(bytes, &b"AAA".to_vec());
        },
        _ => panic!("expected the blob file first"),
    }
    match &actions[1] {
        CheckoutAction::MakeDir(dest) => assert_eq!(dest, &vec!["dest", "sub"]),
        _ => panic!("expected the subdirectory next"),
    }
    match &actions[2] {
        CheckoutAction::WriteFile(dest, bytes) => {
            assert_eq!(dest, &vec!["dest", "sub", "b.txt"]);
            assert_eq!(bytes, &b"BBB".to_vec());
        },
        _ => panic!("expected the subtree's file last"),
    }
}

#[test]
fn checkout_rejects_commit_leaf() {
    let top = Tree { repo: None, data: Vec::new(), leaves: vec![leaf("bad", "c1")] };
    let mut state = checkout(&top, &vec![String::from("dest")]);
    let task = checkout_next(&mut state).unwrap();
    let obj = commit_with_parents(&[]);
    let err = checkout_visit(&mut state, task.dest, &obj).unwrap_err();
    assert_eq!(err.kind, ErrorKind::UnknownObject);
    assert_eq!(err.message, "Object dest/bad of type commit cannot be checked out.");
}
