//! Files that results name: where they may be, what they must hold, and how many are kept.
use muqun_work::digest::bytes_digest;
use muqun_work::work::model::ArtifactRef;
use muqun_work::work::model::FailureCode;
use muqun_work::work::model::WorkError;
use muqun_work::work_artifacts::admit_file;
use muqun_work::work_artifacts::bytes;
use muqun_work::work_artifacts::capture;
use muqun_work::work_artifacts::capture_one;
use muqun_work::work_artifacts::directory;
use muqun_work::work_artifacts::io_failure;
use muqun_work::work_artifacts::lock_file;
use muqun_work::work_artifacts::publish_bytes;
use muqun_work::work_artifacts::publish_locked;
use muqun_work::work_artifacts::quota_lock;
use muqun_work::work_artifacts::quota_usage;
use muqun_work::work_artifacts::relative_path;
use muqun_work::work_artifacts::retrieve;
use muqun_work::work_artifacts::validate_refs;
use muqun_work::work_artifacts::EntryState;
use muqun_work::work_artifacts::FileRead;
use muqun_work::work_artifacts::FileState;
use muqun_work::work_artifacts::IoFailure;
use muqun_work::work_artifacts::LockAttempt;
use muqun_work::work_artifacts::Publication;
use muqun_work::work_artifacts::Usage;
use muqun_work::work_artifacts::MAX_ARTIFACT_BYTES;
use muqun_work::work_artifacts::MAX_SUBMISSION_BYTES;

fn artifact(content: &[u8]) -> ArtifactRef {
    ArtifactRef {
        path: "result.txt".into(),
        sha256: bytes_digest(content),
        size_bytes: content.len() as u64,
    }
}

fn state(size: u64) -> FileState {
    FileState {
        regular: true,
        size,
        device: 1,
        inode: 2,
        modified: 3,
        modified_nanos: 4,
        changed: 5,
        changed_nanos: 6,
    }
}

fn read(content: &[u8]) -> FileRead {
    let size = content.len() as u64;
    FileRead { before: state(size), content: content.to_vec(), after: state(size) }
}

fn entry(size: i64, inode: u64) -> EntryState {
    EntryState { regular: true, size, device: 1, inode }
}

fn missing() -> WorkError {
    io_failure(IoFailure::Missing)
}

#[test]
fn missing_files_and_oversized_claims_fail_closed() {
    let expected = artifact(b"absent");
    assert!(capture("/repo", std::slice::from_ref(&expected)).is_ok());
    assert!(matches!(missing(), WorkError(FailureCode::ArtifactMissing)));
    assert!(matches!(
        retrieve(&expected, Err(missing())),
        Err(WorkError(FailureCode::ArtifactMissing))
    ));
    let mut large = expected;
    large.size_bytes = MAX_ARTIFACT_BYTES + 1;
    assert!(matches!(
        validate_refs("/repo", &[large]),
        Err(WorkError(FailureCode::ResourceLimit))
    ));
}

#[test]
fn digests_are_those_of_the_bytes() {
    assert_eq!(
        bytes_digest(b"abc"),
        "ba7816bf8f01cfea414140de5dae2223b00361a396177a9cb410ff61f20015ad"
    );
    assert_eq!(
        bytes_digest(b""),
        "e3b0c44298fc1c149afbf4c8996fb92427ae41e4649b934ca495991b7852b855"
    );
}

#[test]
fn retrieved_bytes_are_those_that_were_published() {
    let expected = artifact(b"first");
    publish_bytes(&expected, &b"first".to_vec()).unwrap();
    assert_eq!(retrieve(&expected, Ok(read(b"first"))).unwrap(), b"first");
    for other in [&b"second"[..], b"firsT", b"altered"] {
        assert!(matches!(
            retrieve(&expected, Ok(read(other))),
            Err(WorkError(FailureCode::ArtifactChanged))
        ));
    }
    assert!(matches!(
        publish_bytes(&expected, &b"changed".to_vec()),
        Err(WorkError(FailureCode::ArtifactChanged))
    ));
}

#[test]
fn a_file_that_changes_while_it_is_read_is_refused() {
    let expected = artifact(b"first");
    let mut torn = read(b"first");
    torn.after.changed_nanos = 7;
    assert!(matches!(
        bytes(torn, &expected),
        Err(WorkError(FailureCode::ArtifactChanged))
    ));
    let mut swapped = read(b"first");
    swapped.after.inode = 9;
    assert!(matches!(
        bytes(swapped, &expected),
        Err(WorkError(FailureCode::ArtifactChanged))
    ));
    let mut odd = state(5);
    odd.regular = false;
    assert!(matches!(admit_file(&odd), Err(WorkError(FailureCode::ScopeMismatch))));
    assert!(admit_file(&state(5)).is_ok());
}

#[test]
fn paths_stay_below_their_repository() {
    assert_eq!(relative_path("/repo", "a/b.txt").unwrap(), vec!["a", "b.txt"]);
    assert_eq!(relative_path("/repo", "/repo/a/b.txt").unwrap(), vec!["a", "b.txt"]);
    for outside in ["../outside", "a/../../outside", "/other/file", "/repository/x"] {
        assert!(matches!(
            relative_path("/repo", outside),
            Err(WorkError(FailureCode::ScopeMismatch))
        ));
    }
    let mut expected = artifact(b"secret");
    expected.path = "../outside".into();
    assert!(matches!(
        capture("/repo", std::slice::from_ref(&expected)),
        Err(WorkError(FailureCode::ScopeMismatch))
    ));
    assert!(matches!(
        io_failure(IoFailure::Redirected),
        WorkError(FailureCode::ScopeMismatch)
    ));
    assert!(matches!(
        io_failure(IoFailure::Other),
        WorkError(FailureCode::StorageUnavailable)
    ));
    assert!(directory("/repo/a").is_ok());
    assert!(directory("repo/a").is_err());
}

#[test]
fn a_submission_is_captured_up_to_its_size() {
    let first = artifact(b"first");
    let (content, total) = capture_one(0, read(b"first"), &first).unwrap();
    assert_eq!(content, b"first");
    assert_eq!(total, 5);
    assert!(matches!(
        capture_one(MAX_SUBMISSION_BYTES - 4, read(b"first"), &first),
        Err(WorkError(FailureCode::ResourceLimit))
    ));
    assert!(capture_one(MAX_SUBMISSION_BYTES - 5, read(b"first"), &first).is_ok());
}

#[test]
fn orphaned_and_interrupted_bytes_are_charged_before_writing() {
    // A lock, an orphan of three bytes and an interrupted write of five.
    let entries = [entry(0, 1), entry(3, 2), entry(5, 3)];
    let mut usage = quota_usage(&entries, 8, 16).unwrap();
    assert_eq!(usage.bytes, 8);
    let new = artifact(b"new");
    assert!(matches!(
        publish_locked(Err(missing()), &new, 3, &mut usage, 8, 16),
        Err(WorkError(FailureCode::ResourceLimit))
    ));
    assert_eq!(usage.bytes, 8);
    assert_eq!(
        publish_locked(Err(missing()), &new, 3, &mut usage, 11, 16).unwrap(),
        Publication::Write
    );
    assert_eq!(usage.bytes, 11);
}

#[test]
fn stored_bytes_are_free_once_verified_and_links_count_once() {
    let one = artifact(b"one");
    let mut usage = quota_usage(&[entry(0, 1), entry(3, 2), entry(3, 2)], 3, 16).unwrap();
    assert_eq!(usage.bytes, 3);
    let before = Usage { bytes: usage.bytes, entries: usage.entries };
    assert_eq!(
        publish_locked(Ok(read(b"one")), &one, 3, &mut usage, 3, 16).unwrap(),
        Publication::Stored
    );
    assert_eq!(usage, before);
    assert!(matches!(
        publish_locked(Ok(read(b"eno")), &one, 3, &mut usage, 3, 16),
        Err(WorkError(FailureCode::ArtifactChanged))
    ));
}

#[test]
fn entries_without_bytes_are_bounded_too() {
    let entries = [entry(0, 1), entry(0, 2), entry(0, 3)];
    let mut usage = quota_usage(&entries, 16, 3).unwrap();
    assert!(matches!(
        publish_locked(Err(missing()), &artifact(b""), 0, &mut usage, 16, 3),
        Err(WorkError(FailureCode::ResourceLimit))
    ));
    assert!(matches!(
        quota_usage(&[entry(0, 1), entry(0, 2)], 16, 1),
        Err(WorkError(FailureCode::ResourceLimit))
    ));
    let odd = EntryState { regular: false, size: 0, device: 1, inode: 4 };
    assert!(quota_usage(&[odd], 16, 3).is_err());
    assert!(quota_usage(&[entry(-1, 5)], 16, 3).is_err());
}

#[test]
fn the_lock_is_a_file_of_its_own_and_is_waited_for_only_so_long() {
    assert!(lock_file(true, 1).is_ok());
    assert!(lock_file(true, 2).is_err());
    assert!(lock_file(false, 1).is_err());
    assert_eq!(quota_lock(LockAttempt::Taken, false).unwrap(), true);
    assert_eq!(quota_lock(LockAttempt::Contended, false).unwrap(), false);
    assert_eq!(
        quota_lock(LockAttempt::Contended, true).unwrap_err().0,
        FailureCode::ResourceLimit
    );
    assert!(quota_lock(LockAttempt::Failed(IoFailure::Other), false).is_err());
}
