use wit::errors::ErrorKind;
use wit::object::Commit;
use wit::object::KvEntry;
use wit::object::Tag;
use wit::object::WitObject;
use wit::object::build;
use wit::object::tag_blob;
use wit::object::tag_tree;
use wit::refs::FindOutcome;
use wit::refs::find;
use wit::refs::find_check;
use wit::refs::resolve;

fn entry(key: &str, values: &[&str]) -> KvEntry {
    KvEntry {
        key: String::from(key),
        values: values.iter().map(|v| String::from(*v)).collect(),
    }
}

#[test]
fn resolve_empty_name_is_not_an_error() {
    let r = resolve("", None, None).unwrap();
    assert!(r.is_none());
    let r = resolve("   ", None, None).unwrap();
    assert!(r.is_none());
}

#[test]
fn resolve_full_digest_verbatim_lowercased() {
    let name = "0123456789ABCDEF0123456789abcdef01234567";
    let r = resolve(name, None, None).unwrap().unwrap();
    assert_eq!(r, vec!["0123456789abcdef0123456789abcdef01234567"]);
}

#[test]
fn resolve_head_delegates() {
    let head = String::from("1111111111111111111111111111111111111111");
    let r = resolve("HEAD", Some(&head), None).unwrap().unwrap();
    assert_eq!(r, vec![head.clone()]);
}

#[test]
fn resolve_prefix_scans_fanout() {
    let entries = vec![
        String::from("cd000000000000000000000000000000000000"),
        String::from("ff000000000000000000000000000000000000"),
    ];
    let r = resolve("ABcd", None, Some(&entries)).unwrap().unwrap();
    assert_eq!(r, vec!["abcd000000000000000000000000000000000000"]);
}

#[test]
fn resolve_prefix_without_fanout_dir_is_empty() {
    let r = resolve("abcd", None, None).unwrap().unwrap();
    assert!(r.is_empty());
}

#[test]
fn resolve_non_hex_name_is_empty() {
    let r = resolve("main", None, None).unwrap().unwrap();
    assert!(r.is_empty());
}

#[test]
fn find_unknown_reference() {
    let resolved = resolve("deadbeef", None, None).unwrap();
    let err = find("deadbeef", resolved, None).unwrap_err();
    assert_eq!(err.kind, ErrorKind::UnknownReference);
    assert_eq!(err.message, "Unknown reference deadbeef.");
}

#[test]
fn find_ambiguous_reference_names_candidates() {
    let entries = vec![
        String::from("cd000000000000000000000000000000000000"),
        String::from("cd111111111111111111111111111111111111"),
    ];
    let resolved = resolve("abcd", None, Some(&entries)).unwrap();
    let err = find("abcd", resolved, None).unwrap_err();
    assert_eq!(err.kind, ErrorKind::AmbiguousReference);
    assert_eq!(
        err.message,
        "Ambiguous reference abcd: Candidates are:\
         \n- abcd000000000000000000000000000000000000\
         \n- abcd111111111111111111111111111111111111\n"
    );
}

#[test]
fn find_without_wanted_kind_returns_digest() {
    let name = "0123456789abcdef0123456789abcdef01234567";
    let resolved = resolve(name, None, None).unwrap();
    match find(name, resolved, None).unwrap() {
        FindOutcome::Found(sha) => assert_eq!(sha, name),
        _ => panic!("expected a final digest"),
    }
}

#[test]
fn find_with_wanted_kind_asks_for_the_object() {
    let name = "0123456789abcdef0123456789abcdef01234567";
    let resolved = resolve(name, None, None).unwrap();
    let fmt = tag_blob();
    match find(name, resolved, Some(&fmt)).unwrap() {
        FindOutcome::NeedObject(sha) => assert_eq!(sha, name),
        _ => panic!("expected a kind check"),
    }
}

#[test]
fn find_check_matching_kind() {
    let sha = String::from("0123456789abcdef0123456789abcdef01234567");
    let obj = build("blob", None, Some(b"x".to_vec())).unwrap();
    let fmt = tag_blob();
    assert_eq!(find_check(&sha, &obj, &fmt, false).unwrap(), sha);
}

#[test]
fn find_check_mismatch_without_follow() {
    let sha = String::from("0123456789abcdef0123456789abcdef01234567");
    let obj = build("commit", None, None).unwrap();
    let fmt = tag_blob();
    let err = find_check(&sha, &obj, &fmt, false).unwrap_err();
    assert_eq!(err.kind, ErrorKind::UnknownObject);
    assert_eq!(
        err.message,
        "Unknown object 0123456789abcdef0123456789abcdef01234567."
    );
}

#[test]
fn find_check_follows_tag_object_key() {
    let sha = String::from("1111111111111111111111111111111111111111");
    let target = "2222222222222222222222222222222222222222";
    let tag = Tag {
        repo: None,
        data: Vec::new(),
        kvlm: vec![entry("object", &[target])],
    };
    let obj = WitObject::TagObject(tag);
    let fmt = tag_blob();
    assert_eq!(find_check(&sha, &obj, &fmt, true).unwrap(), target);
}

#[test]
fn find_check_follows_commit_tree_key() {
    let sha = String::from("1111111111111111111111111111111111111111");
    let target = "3333333333333333333333333333333333333333";
    let commit = Commit {
        repo: None,
        data: Vec::new(),
        kvlm: vec![entry("tree", &[target])],
    };
    let obj = WitObject::CommitObject(commit);
    let fmt = tag_tree();
    assert_eq!(find_check(&sha, &obj, &fmt, true).unwrap(), target);
}

#[test]
fn find_check_commit_toward_blob_cannot_follow() {
    let sha = String::from("1111111111111111111111111111111111111111");
    let commit = Commit {
        repo: None,
        data: Vec::new(),
        kvlm: vec![entry("tree", &["3333333333333333333333333333333333333333"])],
    };
    let obj = WitObject::CommitObject(commit);
    let fmt = tag_blob();
    let err = find_check(&sha, &obj, &fmt, true).unwrap_err();
    assert_eq!(err.kind, ErrorKind::UnknownObject);
}
