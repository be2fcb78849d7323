use wit::errors::ErrorKind;
use wit::frame::build_frame;
use wit::frame::parse_frame;
use wit::object::WitObject;
use wit::object::build;
use wit::repository::Repository;
use wit::store::hash;
use wit::store::read;

fn compress(data: &[u8]) -> Vec<u8> {
    let mut encoder =
        flate2::write::ZlibEncoder::new(Vec::new(), flate2::Compression::default());
    std::io::Write::write_all(&mut encoder, data).unwrap();
    encoder.finish().unwrap()
}

#[test]
fn empty_blob_known_digest() {
    let obj = build("blob", None, Some(Vec::new())).unwrap();
    let (sha, persist) = wit::store::write(&obj, false).unwrap();
    assert_eq!(sha, "e69de29bb2d1d6434b8b29ae775ad8c2e48c5391");
    assert!(persist.is_none());
}

#[test]
fn test_blob_known_digest() {
    let obj = build("blob", None, Some(b"test".to_vec())).unwrap();
    let (sha, _) = wit::store::write(&obj, false).unwrap();
    assert_eq!(sha, "30d74d258442c7c65512eafab474568dd706c430");
}

#[test]
fn empty_tree_known_digest() {
    let obj = build("tree", None, Some(Vec::new())).unwrap();
    let (sha, _) = wit::store::write(&obj, false).unwrap();
    assert_eq!(sha, "4b825dc642cb6eb9a060e54bf8d69288fbee4904");
}

#[test]
fn write_then_read_round_trip() {
    let repo = Repository::new(String::from("repo"));
    let obj = build("blob", Some(&repo), Some(b"abc".to_vec())).unwrap();
    let (sha, persist) = wit::store::write(&obj, true).unwrap();
    assert_eq!(sha, "f2ba8f84ab5c1bce84a7b441cb1959cfc7093b7f");
    let persist = persist.unwrap();
    assert_eq!(persist.gitdir, "repo");
    assert_eq!(persist.path, vec!["objects", "f2", "ba8f84ab5c1bce84a7b441cb1959cfc7093b7f"]);
    let back = read(&repo, &sha, &persist.data).unwrap();
    match back {
        WitObject::BlobObject(b) => assert_eq!(b.data, b"abc".to_vec()),
        _ => panic!("expected a blob"),
    }
}

#[test]
fn write_is_deterministic() {
    let obj1 = build("blob", None, Some(b"same bytes".to_vec())).unwrap();
    let obj2 = build("blob", None, Some(b"same bytes".to_vec())).unwrap();
    let (sha1, _) = wit::store::write(&obj1, false).unwrap();
    let (sha2, _) = wit::store::write(&obj2, false).unwrap();
    assert_eq!(sha1, sha2);
}

#[test]
fn commit_round_trip_reads_empty_container() {
    let repo = Repository::new(String::from("repo"));
    let obj = build("commit", Some(&repo), Some(b"ignored".to_vec())).unwrap();
    let (sha, persist) = wit::store::write(&obj, true).unwrap();
    assert_eq!(sha, "dcf5b16e76cce7425d0beaef62d79a7d10fce1f5");
    let back = read(&repo, &sha, &persist.unwrap().data).unwrap();
    match back {
        WitObject::CommitObject(c) => {
            assert!(c.data.is_empty());
            assert!(c.kvlm.is_empty());
        },
        _ => panic!("expected a commit"),
    }
}

#[test]
fn tamper_detection_in_parse() {
    // The frame for "abc" declares 3; one corrupted digit makes it 9.
    let err = parse_frame(&b"blob 9\x00abc".to_vec(), "somesha").unwrap_err();
    assert_eq!(err.kind, ErrorKind::MalformedObject);
    assert_eq!(err.message, "Malformed object somesha: bad length");
}

#[test]
fn tamper_detection_in_read() {
    let repo = Repository::new(String::from("repo"));
    let raw = compress(b"blob 9\x00abc");
    let err = read(&repo, "somesha", &raw).unwrap_err();
    assert_eq!(err.kind, ErrorKind::MalformedObject);
    assert_eq!(err.message, "Malformed object somesha: bad length");
}

#[test]
fn non_digit_length_is_encoding_error() {
    let err = parse_frame(&b"blob 1x\x00ab".to_vec(), "s").unwrap_err();
    assert_eq!(err.kind, ErrorKind::Encoding);
}

#[test]
fn missing_separator_is_io_error() {
    let err = parse_frame(&b"noheader".to_vec(), "s").unwrap_err();
    assert_eq!(err.kind, ErrorKind::Io);
}

#[test]
fn frame_builder_layout() {
    let frame = build_frame(&b"blob".to_vec(), &b"abc".to_vec());
    assert_eq!(frame, b"blob 3\x00abc".to_vec());
}

#[test]
fn unknown_kind_in_read() {
    let repo = Repository::new(String::from("repo"));
    let raw = compress(b"bloc 3\x00abc");
    let err = read(&repo, "s", &raw).unwrap_err();
    assert_eq!(err.kind, ErrorKind::UnknownObject);
}

#[test]
fn garbage_stream_is_io_error() {
    let repo = Repository::new(String::from("repo"));
    let err = read(&repo, "s", &vec![1u8, 2, 3, 4]).unwrap_err();
    assert_eq!(err.kind, ErrorKind::Io);
}

#[test]
fn blob_without_data_is_missing_data() {
    let err = build("blob", None, None).unwrap_err();
    assert_eq!(err.kind, ErrorKind::MissingData);
    let err = build("tree", None, None).unwrap_err();
    assert_eq!(err.kind, ErrorKind::MissingData);
}

#[test]
fn unknown_kind_in_build() {
    let err = build("woof", None, Some(Vec::new())).unwrap_err();
    assert_eq!(err.kind, ErrorKind::UnknownObject);
    assert_eq!(err.message, "Unknown object type woof");
}

#[test]
fn persisting_without_repo_fails() {
    let obj = build("blob", None, Some(b"x".to_vec())).unwrap();
    let err = wit::store::write(&obj, true).unwrap_err();
    assert_eq!(err.kind, ErrorKind::RepoNotFound);
}

#[test]
fn hash_with_repo_is_dry_run() {
    let repo = Repository::new(String::from("repo"));
    let (sha, persist) = hash(b"test".to_vec(), "blob", Some(&repo)).unwrap();
    assert_eq!(sha, "30d74d258442c7c65512eafab474568dd706c430");
    assert!(persist.is_none());
}

#[test]
fn hash_without_repo_fails_to_persist() {
    let err = hash(b"test".to_vec(), "blob", None).unwrap_err();
    assert_eq!(err.kind, ErrorKind::RepoNotFound);
}

#[test]
fn serialize_and_fmt_dispatch() {
    let obj = build("blob", None, Some(b"xyz".to_vec())).unwrap();
    assert_eq!(obj.serialize().unwrap(), b"xyz".to_vec());
    assert_eq!(obj.fmt(), b"blob".to_vec());
    assert!(obj.repo().is_none());
    let repo = Repository::new(String::from("r"));
    let tag = build("tag", Some(&repo), None).unwrap();
    assert_eq!(tag.fmt(), b"tag".to_vec());
    assert_eq!(tag.repo().unwrap().gitdir, "r");
}
