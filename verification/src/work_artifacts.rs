//! Immutable artifact bytes, addressed by content: which paths may be read, which bytes are the
//! ones that were promised, and what the store of them has room for.
use vstd::prelude::*;
use crate::digest::bytes_digest;
use crate::digest::sha256_hex;
use crate::text::absolute;
use crate::text::byte_len;
use crate::text::bytes_in;
use crate::text::has_nul;
use crate::text::is_absolute;
use crate::text::is_digest;
use crate::text::text_eq;
use crate::text::valid_digest;
use crate::value::Replica;
use crate::value::Same;
use crate::value::Text;
use crate::value::add_row;
use crate::value::no_items;
use crate::value::shown;
use crate::work::model::ArtifactRef;
use crate::work::model::ArtifactRefModel;
use crate::work::model::FailureCode;
use crate::work::model::WorkError;
use crate::work::model::WorkResult;
use crate::work::store::records::refuse;
use crate::work::store::records::refused;
use crate::work::store::tables::Stored;

verus! {

broadcast use vstd::string::group_string_axioms;

/// The most bytes of one artifact.
pub const MAX_ARTIFACT_BYTES: u64 = 52_428_800;

/// The most bytes of all artifacts of one submission.
pub const MAX_SUBMISSION_BYTES: u64 = 104_857_600;

/// A fixed budget across all sessions, orphaned and interrupted captures included. Where it is
/// spent new bytes are refused; nothing is removed to make room.
pub const MAX_STORED_BYTES: u64 = 1_073_741_824;

/// The most directory entries that the store of bytes may hold.
pub const MAX_STORED_ENTRIES: usize = 16_384;

/// The most artifacts of one submission.
pub const MAX_ARTIFACTS: usize = 32;

/// The most bytes of a path.
pub const MAX_PATH_BYTES: usize = 4096;

/// What the file system says of an open file.
#[derive(Debug, Clone, Copy, PartialEq, Eq, Structural)]
pub struct FileState {
    pub regular: bool,
    pub size: u64,
    pub device: u64,
    pub inode: u64,
    pub modified: i64,
    pub modified_nanos: i64,
    pub changed: i64,
    pub changed_nanos: i64,
}

impl DeepView for FileState {
    type V = FileState;

    open spec fn deep_view(&self) -> FileState {
        *self
    }
}

/// What the file system says of one directory entry.
#[derive(Debug, Clone, Copy, PartialEq, Eq, Structural)]
pub struct EntryState {
    pub regular: bool,
    pub size: i64,
    pub device: u64,
    pub inode: u64,
}

impl DeepView for EntryState {
    type V = EntryState;

    open spec fn deep_view(&self) -> EntryState {
        *self
    }
}

/// How much of the budget is spent.
#[derive(Debug, Clone, Copy, PartialEq, Eq, Structural)]
pub struct Usage {
    pub bytes: u64,
    pub entries: usize,
}

/// Why a file could not be opened or read.
#[derive(Debug, Clone, Copy, PartialEq, Eq, Structural)]
pub enum IoFailure {
    /// There is no such file.
    Missing,
    /// A link or something other than a directory stands in the way.
    Redirected,
    Other,
}

/// What is to be done with bytes that were found sound.
#[derive(Debug, Clone, Copy, PartialEq, Eq, Structural)]
pub enum Publication {
    /// The store holds them already.
    Stored,
    /// They are to be written.
    Write,
}

impl DeepView for Publication {
    type V = Publication;

    open spec fn deep_view(&self) -> Publication {
        *self
    }
}

/// What an attempt to take the lock on the store of bytes came to.
#[derive(Debug, Clone, Copy, PartialEq, Eq, Structural)]
pub enum LockAttempt {
    Taken,
    /// Another process holds it, or a signal came first.
    Contended,
    Failed(IoFailure),
}

/// The bytes of an open file, and its state before and after they were read.
#[derive(Debug, PartialEq, Eq)]
pub struct FileRead {
    pub before: FileState,
    pub content: Vec<u8>,
    pub after: FileState,
}

/// The value of a `FileRead`.
#[verifier::ext_equal]
pub struct FileReadModel {
    pub before: FileState,
    pub content: Seq<u8>,
    pub after: FileState,
}

impl DeepView for FileRead {
    type V = FileReadModel;

    open spec fn deep_view(&self) -> FileReadModel {
        FileReadModel {
            before: self.before,
            content: self.content@,
            after: self.after,
        }
    }
}

/// The code for a failure of the file system.
pub open spec fn io_code(failure: IoFailure) -> FailureCode {
    match failure {
        IoFailure::Missing => FailureCode::ArtifactMissing,
        IoFailure::Redirected => FailureCode::ScopeMismatch,
        IoFailure::Other => FailureCode::StorageUnavailable,
    }
}

/// The error for a failure of the file system.
pub fn io_failure(failure: IoFailure) -> (res: WorkError)
    ensures
        res == WorkError(io_code(failure)),
{
    WorkError(
        match failure {
            IoFailure::Missing => FailureCode::ArtifactMissing,
            IoFailure::Redirected => FailureCode::ScopeMismatch,
            IoFailure::Other => FailureCode::StorageUnavailable,
        },
    )
}

/// A path cut at its slashes.
pub open spec fn pieces(path: Text) -> Seq<Text>
    decreases path.len(),
{
    if path.len() == 0 {
        Seq::empty().push(Seq::empty())
    } else {
        let rest = pieces(path.drop_last());
        if path.last() == '/' {
            rest.push(Seq::empty())
        } else {
            rest.drop_last().push(rest.last().push(path.last()))
        }
    }
}

/// A piece that names something: neither empty nor a single dot.
pub open spec fn is_name(piece: Text) -> bool {
    piece.len() > 0 && piece != "."@
}

/// The pieces that name something.
pub open spec fn names_in(parts: Seq<Text>) -> Seq<Text>
    decreases parts.len(),
{
    if parts.len() == 0 {
        Seq::empty()
    } else if is_name(parts.last()) {
        names_in(parts.drop_last()).push(parts.last())
    } else {
        names_in(parts.drop_last())
    }
}

/// The names on a path, in order.
pub open spec fn segments(path: Text) -> Seq<Text> {
    names_in(pieces(path))
}

/// Some name on the path leads back up.
pub open spec fn climbs(path: Text) -> bool {
    segments(path).contains(".."@)
}

/// One list of names begins another.
pub open spec fn begins(prefix: Seq<Text>, names: Seq<Text>) -> bool {
    prefix.len() <= names.len() && names.take(prefix.len() as int) == prefix
}

/// The names below a repository that a path leads to. An absolute path has to lie within the
/// repository.
pub open spec fn path_below(repo: Text, raw: Text) -> WorkResult<Seq<Text>> {
    if raw.len() == 0 || byte_len(raw) > MAX_PATH_BYTES || raw.contains('\0') {
        refused(FailureCode::InvalidInput)
    } else if climbs(raw) {
        refused(FailureCode::ScopeMismatch)
    } else if is_absolute(raw) && repo.len() > 0 && !(is_absolute(repo) && begins(
        segments(repo),
        segments(raw),
    )) {
        refused(FailureCode::ScopeMismatch)
    } else {
        let rest = if is_absolute(raw) {
            segments(raw).skip(segments(repo).len() as int)
        } else {
            segments(raw)
        };
        if rest.len() == 0 {
            refused(FailureCode::InvalidInput)
        } else {
            Ok(rest)
        }
    }
}

/// What the artifacts of a submission come to, where each may be read and all fit.
pub open spec fn total_size(repo: Text, artifacts: Seq<ArtifactRefModel>) -> WorkResult<u64>
    decreases artifacts.len(),
{
    if artifacts.len() == 0 {
        Ok(0)
    } else {
        let last = artifacts.last();
        match total_size(repo, artifacts.drop_last()) {
            Err(error) => Err(error),
            Ok(total) => match path_below(repo, last.path) {
                Err(error) => Err(error),
                Ok(_) => if !is_digest(last.sha256) {
                    refused(FailureCode::InvalidInput)
                } else if last.size_bytes > MAX_ARTIFACT_BYTES || total + last.size_bytes
                    > MAX_SUBMISSION_BYTES {
                    refused(FailureCode::ResourceLimit)
                } else {
                    Ok((total + last.size_bytes) as u64)
                },
            },
        }
    }
}

/// Whether the artifacts of a submission are admitted.
pub open spec fn refs_admitted(repo: Text, artifacts: Seq<ArtifactRefModel>) -> WorkResult<()> {
    if artifacts.len() > MAX_ARTIFACTS {
        refused(FailureCode::ResourceLimit)
    } else {
        match total_size(repo, artifacts) {
            Err(error) => Err(error),
            Ok(_) => Ok(()),
        }
    }
}

proof fn nothing_named(path: Text)
    requires
        path.len() == 0,
    ensures
        segments(path).len() == 0,
{
    reveal_with_fuel(names_in, 2);
    assert(pieces(path).drop_last() =~= Seq::<Text>::empty());
}

fn split(path: &str) -> (res: Vec<String>)
    ensures
        res.deep_view() == pieces(path@),
{
    let mut done: Vec<String> = no_items();
    let count: usize = path.unicode_len();
    let mut start: usize = 0;
    let mut at: usize = 0;
    assert(path@.take(0) =~= Seq::<char>::empty());
    assert(path@.subrange(0, 0) =~= Seq::<char>::empty());
    for c in it: path.chars()
        invariant
            it.seq() == path@,
            at == it.index(),
            start <= at,
            count == path@.len(),
            pieces(path@.take(at as int)) == done.deep_view().push(
                path@.subrange(start as int, at as int),
            ),
    {
        let ghost before = path@.take(at as int);
        let ghost now = path@.take(at as int + 1);
        proof {
            assert(c == path@[it.index() as int]);
            assert(now.drop_last() =~= before);
            assert(now.last() == c);
        }
        if c == '/' {
            let piece = path.substring_char(start, at).to_string();
            add_row(&mut done, piece);
            start = at + 1;
            assert(path@.subrange(start as int, at as int + 1) =~= Seq::<char>::empty());
        } else {
            proof {
                let current = path@.subrange(start as int, at as int);
                assert(path@.subrange(start as int, at as int + 1) =~= current.push(c));
                assert(done.deep_view().push(current).drop_last() =~= done.deep_view());
            }
        }
        at += 1;
    }
    assert(path@.take(path@.len() as int) =~= path@);
    let piece = path.substring_char(start, at).to_string();
    add_row(&mut done, piece);
    done
}

/// The names on a path.
pub fn path_names(path: &str) -> (res: Vec<String>)
    ensures
        res.deep_view() == segments(path@),
{
    let parts = split(path);
    let ghost all = parts.deep_view();
    let mut res: Vec<String> = no_items();
    let mut i: usize = 0;
    while i < parts.len()
        invariant
            i <= parts.len(),
            all == parts.deep_view(),
            res.deep_view() == names_in(all.take(i as int)),
        decreases parts.len() - i,
    {
        proof {
            assert(all.take(i as int + 1).drop_last() =~= all.take(i as int));
            assert(all.take(i as int + 1).last() == parts[i as int].deep_view());
        }
        if !parts[i].as_str().is_empty() && !text_eq(parts[i].as_str(), ".") {
            add_row(&mut res, parts[i].replica());
        }
        i += 1;
    }
    assert(all.take(all.len() as int) =~= all);
    res
}

fn names_climb(names: &Vec<String>) -> (res: bool)
    ensures
        res == names.deep_view().contains(".."@),
{
    let mut i: usize = 0;
    while i < names.len()
        invariant
            i <= names.len(),
            forall|k: int| 0 <= k < i ==> (#[trigger] names.deep_view()[k]) != ".."@,
        decreases names.len() - i,
    {
        if text_eq(names[i].as_str(), "..") {
            assert(names.deep_view()[i as int] == ".."@);
            return true;
        }
        i += 1;
    }
    false
}

fn starts_with(prefix: &Vec<String>, names: &Vec<String>) -> (res: bool)
    ensures
        res == begins(prefix.deep_view(), names.deep_view()),
{
    if prefix.len() > names.len() {
        return false;
    }
    let mut i: usize = 0;
    while i < prefix.len()
        invariant
            i <= prefix.len(),
            prefix.len() <= names.len(),
            forall|k: int|
                0 <= k < i ==> (#[trigger] prefix.deep_view()[k]) == names.deep_view()[k],
        decreases prefix.len() - i,
    {
        if !prefix[i].same(&names[i]) {
            proof {
                assert(prefix.deep_view()[i as int] != names.deep_view()[i as int]);
                assert(names.deep_view().take(prefix.len() as int)[i as int]
                    != prefix.deep_view()[i as int]);
            }
            return false;
        }
        i += 1;
    }
    assert(names.deep_view().take(prefix.len() as int) =~= prefix.deep_view());
    true
}

/// The names below a repository that a path leads to.
pub fn relative_path(repo: &str, raw: &str) -> (res: WorkResult<Vec<String>>)
    ensures
        shown(res) == path_below(repo@, raw@),
{
    if raw.is_empty() || bytes_in(raw) > MAX_PATH_BYTES || has_nul(raw) {
        return refuse(FailureCode::InvalidInput);
    }
    let names = path_names(raw);
    if names_climb(&names) {
        return refuse(FailureCode::ScopeMismatch);
    }
    let mut from: usize = 0;
    if absolute(raw) {
        let above = path_names(repo);
        if !repo.is_empty() && !(absolute(repo) && starts_with(&above, &names)) {
            return refuse(FailureCode::ScopeMismatch);
        }
        proof {
            if repo@.len() == 0 {
                nothing_named(repo@);
            }
        }
        from = above.len();
        assert(from == segments(repo@).len());
    }
    let mut rest: Vec<String> = no_items();
    let mut i: usize = from;
    while i < names.len()
        invariant
            from <= i <= names.len(),
            rest.deep_view() == names.deep_view().subrange(from as int, i as int),
        decreases names.len() - i,
    {
        add_row(&mut rest, names[i].replica());
        assert(rest.deep_view() =~= names.deep_view().subrange(from as int, i as int + 1));
        i += 1;
    }
    assert(rest.deep_view() =~= names.deep_view().skip(from as int));
    assert(names.deep_view().skip(0) =~= names.deep_view());
    if rest.len() == 0 {
        return refuse(FailureCode::InvalidInput);
    }
    Ok(rest)
}

/// Whether the artifacts of a submission are admitted: few enough, each within the repository and
/// named by a digest, none too large and all together small enough.
pub fn validate_refs(repo: &str, artifacts: &[ArtifactRef]) -> (res: WorkResult<()>)
    ensures
        res == refs_admitted(repo@, artifacts.deep_view()),
{
    if artifacts.len() > MAX_ARTIFACTS {
        return refuse(FailureCode::ResourceLimit);
    }
    let ghost all = artifacts.deep_view();
    let mut total: u64 = 0;
    let mut i: usize = 0;
    assert(all.take(0) =~= Seq::<ArtifactRefModel>::empty());
    while i < artifacts.len()
        invariant
            i <= artifacts.len(),
            artifacts.len() <= MAX_ARTIFACTS,
            all == artifacts.deep_view(),
            total <= MAX_SUBMISSION_BYTES,
            total_size(repo@, all.take(i as int)) == Ok::<u64, WorkError>(total),
        decreases artifacts.len() - i,
    {
        let artifact = &artifacts[i];
        proof {
            assert(all.take(i as int + 1).drop_last() =~= all.take(i as int));
            assert(all.take(i as int + 1).last() == artifact.deep_view());
        }
        let found = relative_path(repo, artifact.path.as_str());
        let mut failed: Option<WorkError> = None;
        if let Err(error) = found {
            failed = Some(error);
        } else if !valid_digest(artifact.sha256.as_str()) {
            failed = Some(WorkError(FailureCode::InvalidInput));
        } else if artifact.size_bytes > MAX_ARTIFACT_BYTES || total + artifact.size_bytes
            > MAX_SUBMISSION_BYTES {
            failed = Some(WorkError(FailureCode::ResourceLimit));
        }
        if let Some(error) = failed {
            proof {
                total_stays_refused(repo@, all, i as int + 1, error);
            }
            return Err(error);
        }
        total += artifact.size_bytes;
        i += 1;
    }
    assert(all.take(all.len() as int) =~= all);
    Ok(())
}

proof fn total_stays_refused(
    repo: Text,
    artifacts: Seq<ArtifactRefModel>,
    upto: int,
    error: WorkError,
)
    requires
        0 <= upto <= artifacts.len(),
        total_size(repo, artifacts.take(upto)) == Err::<u64, WorkError>(error),
    ensures
        total_size(repo, artifacts) == Err::<u64, WorkError>(error),
    decreases artifacts.len() - upto,
{
    if upto < artifacts.len() {
        assert(artifacts.take(upto + 1).drop_last() =~= artifacts.take(upto));
        total_stays_refused(repo, artifacts, upto + 1, error);
    } else {
        assert(artifacts.take(upto) =~= artifacts);
    }
}

/// The directories on an absolute path, each of which is opened in turn.
pub open spec fn walk(names: Seq<Text>) -> WorkResult<()>
    decreases names.len(),
{
    if names.len() == 0 {
        Ok(())
    } else {
        match walk(names.drop_last()) {
            Err(error) => Err(error),
            Ok(_) => if names.last() == ".."@ {
                refused(FailureCode::ScopeMismatch)
            } else if names.last().contains('\0') {
                refused(FailureCode::InvalidInput)
            } else {
                Ok(())
            },
        }
    }
}

/// The directories that lead to an absolute path.
pub open spec fn directories(path: Text) -> WorkResult<Seq<Text>> {
    if !is_absolute(path) {
        refused(FailureCode::ScopeMismatch)
    } else {
        match walk(segments(path)) {
            Err(error) => Err(error),
            Ok(_) => Ok(segments(path)),
        }
    }
}

/// The directories that lead to an absolute path, from the root down.
pub fn directory(path: &str) -> (res: WorkResult<Vec<String>>)
    ensures
        shown(res) == directories(path@),
{
    if !absolute(path) {
        return refuse(FailureCode::ScopeMismatch);
    }
    let names = path_names(path);
    let ghost all = names.deep_view();
    let mut i: usize = 0;
    while i < names.len()
        invariant
            i <= names.len(),
            all == names.deep_view(),
            all == segments(path@),
            is_absolute(path@),
            walk(all.take(i as int)) == Ok::<(), WorkError>(()),
        decreases names.len() - i,
    {
        proof {
            assert(all.take(i as int + 1).drop_last() =~= all.take(i as int));
            assert(all.take(i as int + 1).last() == names[i as int].deep_view());
        }
        if text_eq(names[i].as_str(), "..") {
            proof {
                walk_stays_refused(all, i as int + 1, WorkError(FailureCode::ScopeMismatch));
            }
            return refuse(FailureCode::ScopeMismatch);
        }
        if has_nul(names[i].as_str()) {
            proof {
                walk_stays_refused(all, i as int + 1, WorkError(FailureCode::InvalidInput));
            }
            return refuse(FailureCode::InvalidInput);
        }
        i += 1;
    }
    assert(all.take(all.len() as int) =~= all);
    Ok(names)
}

proof fn walk_stays_refused(names: Seq<Text>, upto: int, error: WorkError)
    requires
        0 <= upto <= names.len(),
        walk(names.take(upto)) == Err::<(), WorkError>(error),
    ensures
        walk(names) == Err::<(), WorkError>(error),
    decreases names.len() - upto,
{
    if upto < names.len() {
        assert(names.take(upto + 1).drop_last() =~= names.take(upto));
        walk_stays_refused(names, upto + 1, error);
    } else {
        assert(names.take(upto) =~= names);
    }
}

/// Whether an open file may be read.
pub open spec fn readable(state: FileState) -> WorkResult<()> {
    if !state.regular {
        refused(FailureCode::ScopeMismatch)
    } else if state.size > MAX_ARTIFACT_BYTES {
        refused(FailureCode::ResourceLimit)
    } else {
        Ok(())
    }
}

/// Whether an open file may be read.
pub fn admit_file(state: &FileState) -> (res: WorkResult<()>)
    ensures
        res == readable(*state),
{
    if !state.regular {
        return refuse(FailureCode::ScopeMismatch);
    }
    if state.size > MAX_ARTIFACT_BYTES {
        return refuse(FailureCode::ResourceLimit);
    }
    Ok(())
}

/// The file was not exchanged or written to while it was read.
pub open spec fn undisturbed(before: FileState, after: FileState) -> bool {
    before.device == after.device && before.inode == after.inode && before.size == after.size
        && before.modified == after.modified && before.modified_nanos == after.modified_nanos
        && before.changed == after.changed && before.changed_nanos == after.changed_nanos
}

/// The bytes are the ones that an artifact names.
pub open spec fn matches_artifact(content: Seq<u8>, artifact: ArtifactRefModel) -> bool {
    content.len() == artifact.size_bytes && sha256_hex(content) == artifact.sha256
}

/// The bytes of a file, where they are sound: a regular file of allowed size that did not change
/// under the reader and holds exactly what was promised.
pub open spec fn sound(read: FileReadModel, artifact: ArtifactRefModel) -> WorkResult<Seq<u8>> {
    match readable(read.before) {
        Err(error) => Err(error),
        Ok(_) => if read.content.len() > MAX_ARTIFACT_BYTES {
            refused(FailureCode::ResourceLimit)
        } else if !undisturbed(read.before, read.after) || !matches_artifact(
            read.content,
            artifact,
        ) {
            refused(FailureCode::ArtifactChanged)
        } else {
            Ok(read.content)
        },
    }
}

fn holds(content: &Vec<u8>, artifact: &ArtifactRef) -> (res: bool)
    ensures
        res == matches_artifact(content@, artifact.deep_view()),
{
    content.len() as u64 == artifact.size_bytes && text_eq(
        bytes_digest(content.as_slice()).as_str(),
        artifact.sha256.as_str(),
    )
}

/// The bytes of a file, where they are sound.
pub fn bytes(read: FileRead, expected: &ArtifactRef) -> (res: WorkResult<Vec<u8>>)
    ensures
        match res {
            Ok(content) => sound(read.deep_view(), expected.deep_view()) == Ok::<
                Seq<u8>,
                WorkError,
            >(content@),
            Err(error) => sound(read.deep_view(), expected.deep_view()) == Err::<
                Seq<u8>,
                WorkError,
            >(error),
        },
{
    admit_file(&read.before)?;
    let content = read.content;
    if content.len() > MAX_ARTIFACT_BYTES as usize {
        return refuse(FailureCode::ResourceLimit);
    }
    let (before, after) = (read.before, read.after);
    if before.device != after.device || before.inode != after.inode || before.size != after.size
        || before.modified != after.modified || before.modified_nanos != after.modified_nanos
        || before.changed != after.changed || before.changed_nanos != after.changed_nanos {
        return refuse(FailureCode::ArtifactChanged);
    }
    if !holds(&content, expected) {
        return refuse(FailureCode::ArtifactChanged);
    }
    Ok(content)
}

/// The same file stands at an earlier place.
pub open spec fn linked_before(entries: Seq<EntryState>, at: int) -> bool {
    exists|k: int|
        0 <= k < at && (#[trigger] entries[k]).device == entries[at].device && entries[k].inode
            == entries[at].inode
}

/// What the entries of the store come to. A file is charged once, however many names a crash left
/// it with, and every name counts.
pub open spec fn usage_of(
    entries: Seq<EntryState>,
    maximum_bytes: u64,
    maximum_entries: usize,
) -> WorkResult<Usage>
    decreases entries.len(),
{
    if entries.len() == 0 {
        Ok(Usage { bytes: 0, entries: 0 })
    } else {
        match usage_of(entries.drop_last(), maximum_bytes, maximum_entries) {
            Err(error) => Err(error),
            Ok(usage) => {
                let last = entries.last();
                if usage.entries + 1 > maximum_entries {
                    refused(FailureCode::ResourceLimit)
                } else if !last.regular || last.size < 0 {
                    refused(FailureCode::ScopeMismatch)
                } else if linked_before(entries, entries.len() - 1) {
                    Ok(Usage { entries: (usage.entries + 1) as usize, ..usage })
                } else if usage.bytes + last.size > maximum_bytes {
                    refused(FailureCode::ResourceLimit)
                } else {
                    Ok(
                        Usage {
                            bytes: (usage.bytes + last.size) as u64,
                            entries: (usage.entries + 1) as usize,
                        },
                    )
                }
            },
        }
    }
}

/// What the entries of the store come to. An entry past the limit is refused whatever it is.
pub fn quota_usage(entries: &[EntryState], maximum_bytes: u64, maximum_entries: usize) -> (res:
    WorkResult<Usage>)
    ensures
        res == usage_of(entries@, maximum_bytes, maximum_entries),
{
    let mut usage = Usage { bytes: 0, entries: 0 };
    let ghost all = entries@;
    let mut i: usize = 0;
    assert(all.take(0) =~= Seq::<EntryState>::empty());
    while i < entries.len()
        invariant
            i <= entries.len(),
            all == entries@,
            usage.entries == i,
            usage_of(all.take(i as int), maximum_bytes, maximum_entries) == Ok::<Usage, WorkError>(
                usage,
            ),
        decreases entries.len() - i,
    {
        let ghost upto = all.take(i as int + 1);
        proof {
            assert(upto.drop_last() =~= all.take(i as int));
            assert(upto.last() == entries[i as int]);
        }
        if usage.entries + 1 > maximum_entries {
            proof {
                usage_stays_refused(
                    all,
                    maximum_bytes,
                    maximum_entries,
                    i as int + 1,
                    WorkError(FailureCode::ResourceLimit),
                );
            }
            return refuse(FailureCode::ResourceLimit);
        }
        let entry = entries[i];
        if !entry.regular || entry.size < 0 {
            proof {
                usage_stays_refused(
                    all,
                    maximum_bytes,
                    maximum_entries,
                    i as int + 1,
                    WorkError(FailureCode::ScopeMismatch),
                );
            }
            return refuse(FailureCode::ScopeMismatch);
        }
        let mut seen = false;
        let mut k: usize = 0;
        while k < i
            invariant
                k <= i < entries.len(),
                all == entries@,
                entry == entries@[i as int],
                seen == exists|n: int|
                    0 <= n < k && (#[trigger] all[n]).device == entry.device && all[n].inode
                        == entry.inode,
            decreases i - k,
        {
            if entries[k].device == entry.device && entries[k].inode == entry.inode {
                assert(all[k as int].device == entry.device);
                seen = true;
            }
            k += 1;
        }
        proof {
            assert(seen == linked_before(upto, upto.len() - 1)) by {
                if seen {
                    let n = choose|n: int|
                        0 <= n < i && (#[trigger] all[n]).device == entry.device && all[n].inode
                            == entry.inode;
                    assert(upto[n] == all[n]);
                } else {
                    assert forall|n: int| 0 <= n < i implies !((#[trigger] upto[n]).device
                        == entry.device && upto[n].inode == entry.inode) by {
                        assert(upto[n] == all[n]);
                    }
                }
            }
        }
        if !seen {
            if entry.size as u64 > maximum_bytes || usage.bytes > maximum_bytes - entry.size as u64 {
                proof {
                    usage_stays_refused(
                        all,
                        maximum_bytes,
                        maximum_entries,
                        i as int + 1,
                        WorkError(FailureCode::ResourceLimit),
                    );
                }
                return refuse(FailureCode::ResourceLimit);
            }
            usage.bytes = usage.bytes + entry.size as u64;
        }
        usage.entries = usage.entries + 1;
        i += 1;
    }
    assert(all.take(all.len() as int) =~= all);
    Ok(usage)
}

proof fn usage_stays_refused(
    entries: Seq<EntryState>,
    maximum_bytes: u64,
    maximum_entries: usize,
    upto: int,
    error: WorkError,
)
    requires
        0 <= upto <= entries.len(),
        usage_of(entries.take(upto), maximum_bytes, maximum_entries) == Err::<Usage, WorkError>(
            error,
        ),
    ensures
        usage_of(entries, maximum_bytes, maximum_entries) == Err::<Usage, WorkError>(error),
    decreases entries.len() - upto,
{
    if upto < entries.len() {
        assert(entries.take(upto + 1).drop_last() =~= entries.take(upto));
        usage_stays_refused(entries, maximum_bytes, maximum_entries, upto + 1, error);
    } else {
        assert(entries.take(upto) =~= entries);
    }
}

/// What becomes of sound bytes: nothing where the store holds them already, else they are charged
/// and written. Two names are needed while they are written, one of which stays.
pub open spec fn publication(
    existing: WorkResult<FileReadModel>,
    artifact: ArtifactRefModel,
    size: u64,
    usage: Usage,
    maximum_bytes: u64,
    maximum_entries: usize,
) -> WorkResult<(Usage, Publication)> {
    match existing {
        Ok(read) => match sound(read, artifact) {
            Err(error) => Err(error),
            Ok(_) => Ok((usage, Publication::Stored)),
        },
        Err(error) => if error != WorkError(FailureCode::ArtifactMissing) {
            Err(error)
        } else if usage.bytes + size > maximum_bytes || usage.entries + 2 > maximum_entries {
            refused(FailureCode::ResourceLimit)
        } else {
            Ok(
                (
                    Usage {
                        bytes: (usage.bytes + size) as u64,
                        entries: (usage.entries + 1) as usize,
                    },
                    Publication::Write,
                ),
            )
        },
    }
}

/// Decides what becomes of sound bytes and charges for them. What stands under their name, if
/// anything does, was read before.
pub fn publish_locked(
    existing: WorkResult<FileRead>,
    artifact: &ArtifactRef,
    size: u64,
    usage: &mut Usage,
    maximum_bytes: u64,
    maximum_entries: usize,
) -> (res: WorkResult<Publication>)
    ensures
        match publication(
            shown(existing),
            artifact.deep_view(),
            size,
            *old(usage),
            maximum_bytes,
            maximum_entries,
        ) {
            Ok((next, todo)) => res == Ok::<Publication, WorkError>(todo) && *final(usage) == next,
            Err(error) => res == Err::<Publication, WorkError>(error) && *final(usage) == *old(
                usage,
            ),
        },
{
    match existing {
        Ok(read) => {
            bytes(read, artifact)?;
            Ok(Publication::Stored)
        },
        Err(error) => {
            if error.0 != FailureCode::ArtifactMissing {
                return Err(error);
            }
            if size > maximum_bytes || usage.bytes > maximum_bytes - size || maximum_entries < 2
                || usage.entries > maximum_entries - 2 {
                return refuse(FailureCode::ResourceLimit);
            }
            usage.bytes = usage.bytes + size;
            usage.entries = usage.entries + 1;
            Ok(Publication::Write)
        },
    }
}

/// Whether uploaded bytes may be published: the reference is sound and they are what it names.
pub open spec fn publishable(artifact: ArtifactRefModel, content: Seq<u8>) -> WorkResult<()> {
    match refs_admitted("/"@, Seq::empty().push(artifact)) {
        Err(error) => Err(error),
        Ok(_) => if !matches_artifact(content, artifact) {
            refused(FailureCode::ArtifactChanged)
        } else {
            Ok(())
        },
    }
}

/// Whether uploaded bytes may be published: the reference is sound and they are what it names.
pub fn publish_bytes(artifact: &ArtifactRef, content: &Vec<u8>) -> (res: WorkResult<()>)
    ensures
        res == publishable(artifact.deep_view(), content@),
{
    admit_one(artifact)?;
    if !holds(content, artifact) {
        return refuse(FailureCode::ArtifactChanged);
    }
    Ok(())
}

fn admit_one(artifact: &ArtifactRef) -> (res: WorkResult<()>)
    ensures
        res == refs_admitted("/"@, Seq::empty().push(artifact.deep_view())),
{
    let mut one: Vec<ArtifactRef> = no_items();
    add_row(&mut one, artifact.replica());
    validate_refs("/", one.as_slice())
}

/// Where each artifact of a submission is to be read from, below its repository.
pub open spec fn sources(repo: Text, artifacts: Seq<ArtifactRefModel>) -> WorkResult<Seq<Seq<Text>>>
    decreases artifacts.len(),
{
    if artifacts.len() == 0 {
        Ok(Seq::empty())
    } else {
        match sources(repo, artifacts.drop_last()) {
            Err(error) => Err(error),
            Ok(rest) => match path_below(repo, artifacts.last().path) {
                Err(error) => Err(error),
                Ok(names) => Ok(rest.push(names)),
            },
        }
    }
}

/// Where each artifact of a submission is to be read from, once all are admitted.
pub open spec fn capture_plan(repo: Text, artifacts: Seq<ArtifactRefModel>) -> WorkResult<
    Seq<Seq<Text>>,
> {
    match refs_admitted(repo, artifacts) {
        Err(error) => Err(error),
        Ok(_) => sources(repo, artifacts),
    }
}

/// Where each artifact of a submission is to be read from.
pub fn capture(repo: &str, artifacts: &[ArtifactRef]) -> (res: WorkResult<Vec<Vec<String>>>)
    ensures
        shown(res) == capture_plan(repo@, artifacts.deep_view()),
        res is Ok <==> refs_admitted(repo@, artifacts.deep_view()) is Ok,
{
    validate_refs(repo, artifacts)?;
    let ghost all = artifacts.deep_view();
    proof {
        admitted_have_sources(repo@, all);
    }
    let mut res: Vec<Vec<String>> = no_items();
    let mut i: usize = 0;
    assert(all.take(0) =~= Seq::<ArtifactRefModel>::empty());
    while i < artifacts.len()
        invariant
            i <= artifacts.len(),
            all == artifacts.deep_view(),
            refs_admitted(repo@, all) == Ok::<(), WorkError>(()),
            sources(repo@, all) is Ok,
            sources(repo@, all.take(i as int)) == Ok::<Seq<Seq<Text>>, WorkError>(res.deep_view()),
        decreases artifacts.len() - i,
    {
        proof {
            assert(all.take(i as int + 1).drop_last() =~= all.take(i as int));
            assert(all.take(i as int + 1).last() == artifacts[i as int].deep_view());
            sources_of_prefix(repo@, all, i as int + 1);
        }
        let names = relative_path(repo, artifacts[i].path.as_str())?;
        add_row(&mut res, names);
        i += 1;
    }
    assert(all.take(all.len() as int) =~= all);
    Ok(res)
}

proof fn admitted_have_sources(repo: Text, artifacts: Seq<ArtifactRefModel>)
    requires
        total_size(repo, artifacts) is Ok,
    ensures
        sources(repo, artifacts) is Ok,
    decreases artifacts.len(),
{
    if artifacts.len() > 0 {
        admitted_have_sources(repo, artifacts.drop_last());
    }
}

proof fn sources_of_prefix(repo: Text, artifacts: Seq<ArtifactRefModel>, upto: int)
    requires
        0 <= upto <= artifacts.len(),
        sources(repo, artifacts) is Ok,
    ensures
        sources(repo, artifacts.take(upto)) is Ok,
    decreases artifacts.len(),
{
    if upto < artifacts.len() {
        sources_of_prefix(repo, artifacts.drop_last(), upto);
        assert(artifacts.drop_last().take(upto) =~= artifacts.take(upto));
    } else {
        assert(artifacts.take(upto) =~= artifacts);
    }
}

/// The bytes that were read for one artifact of a submission and what all so far come to.
pub open spec fn captured(
    total: u64,
    read: FileReadModel,
    artifact: ArtifactRefModel,
) -> WorkResult<(Seq<u8>, u64)> {
    match sound(read, artifact) {
        Err(error) => Err(error),
        Ok(content) => if total + content.len() > MAX_SUBMISSION_BYTES {
            refused(FailureCode::ResourceLimit)
        } else {
            Ok((content, (total + content.len()) as u64))
        },
    }
}

/// The bytes that were read for one artifact of a submission and what all so far come to.
pub fn capture_one(total: u64, read: FileRead, artifact: &ArtifactRef) -> (res: WorkResult<
    (Vec<u8>, u64),
>)
    ensures
        match res {
            Ok((content, sum)) => captured(total, read.deep_view(), artifact.deep_view()) == Ok::<
                (Seq<u8>, u64),
                WorkError,
            >((content@, sum)),
            Err(error) => captured(total, read.deep_view(), artifact.deep_view()) == Err::<
                (Seq<u8>, u64),
                WorkError,
            >(error),
        },
{
    let content = bytes(read, artifact)?;
    let size: u64 = content.len() as u64;
    if size > MAX_SUBMISSION_BYTES || total > MAX_SUBMISSION_BYTES - size {
        return refuse(FailureCode::ResourceLimit);
    }
    Ok((content, total + size))
}

/// The stored bytes of an artifact. The reference is checked before its digest is used as a name;
/// what stands under that name, if anything does, was read then.
pub open spec fn retrieved(
    artifact: ArtifactRefModel,
    found: WorkResult<FileReadModel>,
) -> WorkResult<
    Seq<u8>,
> {
    match refs_admitted("/"@, Seq::empty().push(artifact)) {
        Err(error) => Err(error),
        Ok(_) => match found {
            Err(error) => Err(error),
            Ok(read) => sound(read, artifact),
        },
    }
}

/// The stored bytes of an artifact.
pub fn retrieve(artifact: &ArtifactRef, found: WorkResult<FileRead>) -> (res: WorkResult<Vec<u8>>)
    ensures
        match res {
            Ok(content) => retrieved(artifact.deep_view(), shown(found)) == Ok::<
                Seq<u8>,
                WorkError,
            >(content@),
            Err(error) => retrieved(artifact.deep_view(), shown(found)) == Err::<
                Seq<u8>,
                WorkError,
            >(error),
        },
{
    admit_one(artifact)?;
    match found {
        Err(error) => Err(error),
        Ok(read) => bytes(read, artifact),
    }
}

/// Whether the file that carries the lock is one that only this store uses.
pub fn lock_file(regular: bool, links: u64) -> (res: WorkResult<()>)
    ensures
        res == (if regular && links == 1 {
            Ok(())
        } else {
            refused(FailureCode::ScopeMismatch)
        }),
{
    if !regular || links != 1 {
        return refuse(FailureCode::ScopeMismatch);
    }
    Ok(())
}

/// Whether the lock is held now: an error ends the wait, and so does the deadline.
pub fn quota_lock(attempt: LockAttempt, late: bool) -> (res: WorkResult<bool>)
    ensures
        res == (match attempt {
            LockAttempt::Taken => Ok::<bool, WorkError>(true),
            LockAttempt::Failed(failure) => refused(io_code(failure)),
            LockAttempt::Contended => if late {
                refused(FailureCode::ResourceLimit)
            } else {
                Ok(false)
            },
        }),
{
    match attempt {
        LockAttempt::Taken => Ok(true),
        LockAttempt::Failed(failure) => Err(io_failure(failure)),
        LockAttempt::Contended => if late {
            refuse(FailureCode::ResourceLimit)
        } else {
            Ok(false)
        },
    }
}

/// The sizes of the files among some entries, each file once.
pub open spec fn distinct_bytes(entries: Seq<EntryState>) -> int
    decreases entries.len(),
{
    if entries.len() == 0 {
        0
    } else {
        distinct_bytes(entries.drop_last()) + (if linked_before(entries, entries.len() - 1) {
            0
        } else {
            entries.last().size as int
        })
    }
}

/// A store that is within its budget holds no more bytes and names than the budget allows, and is
/// charged for each file once.
pub proof fn usage_is_within_budget(
    entries: Seq<EntryState>,
    maximum_bytes: u64,
    maximum_entries: usize,
)
    ensures
        usage_of(entries, maximum_bytes, maximum_entries) matches Ok(usage) ==> usage.bytes
            == distinct_bytes(entries) && usage.entries == entries.len() && usage.bytes
            <= maximum_bytes && usage.entries <= maximum_entries,
    decreases entries.len(),
{
    if entries.len() > 0 {
        usage_is_within_budget(entries.drop_last(), maximum_bytes, maximum_entries);
    }
}

/// Publication never takes the store over its budget, and bytes that it holds already are free.
pub proof fn publication_stays_within_budget(
    existing: WorkResult<FileReadModel>,
    artifact: ArtifactRefModel,
    size: u64,
    usage: Usage,
    maximum_bytes: u64,
    maximum_entries: usize,
)
    requires
        usage.bytes <= maximum_bytes,
        usage.entries <= maximum_entries,
    ensures
        publication(existing, artifact, size, usage, maximum_bytes, maximum_entries) matches Ok(
            (next, todo),
        ) ==> next.bytes <= maximum_bytes && next.entries <= maximum_entries && (todo
            == Publication::Stored ==> next == usage),
{
}

/// Bytes that are read back are exactly the ones that were published under the reference.
pub proof fn retrieval_gives_back_what_was_published(
    artifact: ArtifactRefModel,
    found: WorkResult<FileReadModel>,
)
    ensures
        retrieved(artifact, found) matches Ok(content) ==> content.len() == artifact.size_bytes
            && sha256_hex(content) == artifact.sha256 && content.len() <= MAX_ARTIFACT_BYTES,
{
}

/// Bytes that were published are read back, as long as a regular file that nobody disturbed holds
/// them.
pub proof fn published_bytes_are_retrieved(
    artifact: ArtifactRefModel,
    content: Seq<u8>,
    read: FileReadModel,
)
    requires
        publishable(artifact, content) is Ok,
        read.before.regular,
        read.before.size == content.len(),
        undisturbed(read.before, read.after),
        read.content == content,
    ensures
        retrieved(artifact, Ok(read)) == Ok::<Seq<u8>, WorkError>(content),
{
    let refs = Seq::empty().push(artifact);
    assert(refs.drop_last() =~= Seq::<ArtifactRefModel>::empty());
    assert(refs.last() == artifact);
}

/// No admitted path leads out of its repository: none of its names leads back up, and an absolute
/// path begins with the repository.
pub proof fn admitted_paths_stay_below(repo: Text, raw: Text)
    ensures
        path_below(repo, raw) matches Ok(names) ==> names.len() > 0 && !names.contains(".."@) && (
        is_absolute(raw) && repo.len() > 0 ==> segments(raw) == segments(repo) + names),
{
    if let Ok(names) = path_below(repo, raw) {
        let all = segments(raw);
        if repo.len() == 0 {
            nothing_named(repo);
        }
        if names.contains(".."@) {
            let k = choose|k: int| 0 <= k < names.len() && names[k] == ".."@;
            if is_absolute(raw) {
                assert(all[k + segments(repo).len()] == ".."@);
            }
            assert(all.contains(".."@));
        }
        if is_absolute(raw) && repo.len() > 0 {
            assert(all =~= all.take(segments(repo).len() as int) + all.skip(
                segments(repo).len() as int,
            ));
        }
    }
}

/// The text that pieces make with a slash between each two.
pub open spec fn with_slashes(parts: Seq<Text>) -> Text
    decreases parts.len(),
{
    if parts.len() == 0 {
        Seq::empty()
    } else if parts.len() == 1 {
        parts[0]
    } else {
        with_slashes(parts.drop_last()) + seq!['/'] + parts.last()
    }
}

/// A path is cut at its slashes and nowhere else: no piece holds a slash, and the pieces with
/// slashes between them are the path.
pub proof fn paths_are_cut_at_slashes(path: Text)
    ensures
        pieces(path).len() > 0,
        with_slashes(pieces(path)) == path,
        forall|k: int| 0 <= k < pieces(path).len() ==> !(#[trigger] pieces(path)[k]).contains('/'),
    decreases path.len(),
{
    let parts = pieces(path);
    if path.len() == 0 {
        assert(parts[0] =~= Seq::<char>::empty());
        assert(with_slashes(parts) =~= path);
    } else {
        let before = path.drop_last();
        paths_are_cut_at_slashes(before);
        let rest = pieces(before);
        if path.last() == '/' {
            assert(parts.drop_last() =~= rest);
            assert(parts.last() =~= Seq::<char>::empty());
            assert(with_slashes(parts) =~= path);
            assert forall|k: int| 0 <= k < parts.len() implies !(#[trigger] parts[k]).contains(
                '/',
            ) by {
                if k < rest.len() {
                    assert(parts[k] == rest[k]);
                }
            }
        } else {
            let longer = rest.last().push(path.last());
            assert(parts.drop_last() =~= rest.drop_last());
            assert(parts.last() == longer);
            assert(!rest[rest.len() - 1].contains('/'));
            assert(with_slashes(parts) =~= path) by {
                if rest.len() == 1 {
                    assert(parts.len() == 1 && parts[0] == longer);
                } else {
                    let start = with_slashes(rest.drop_last());
                    assert(before == start + seq!['/'] + rest.last());
                    assert(with_slashes(parts) == start + seq!['/'] + longer);
                    assert(start + seq!['/'] + longer =~= before.push(path.last()));
                }
                assert(before.push(path.last()) =~= path);
            }
            assert forall|k: int| 0 <= k < parts.len() implies !(#[trigger] parts[k]).contains(
                '/',
            ) by {
                if k < parts.len() - 1 {
                    assert(parts[k] == rest[k]);
                } else if parts[k].contains('/') {
                    let j = choose|j: int| 0 <= j < longer.len() && longer[j] == '/';
                    assert(rest.last()[j] == '/');
                }
            }
        }
    }
}

/// The names on a path are its pieces but for the empty ones and the single dots, in order.
pub proof fn names_are_neither_empty_nor_dots(parts: Seq<Text>)
    ensures
        names_in(parts) == parts.filter(|piece: Text| piece.len() > 0 && piece != seq!['.']),
    decreases parts.len(),
{
    reveal(Seq::filter);
    reveal_strlit(".");
    assert("."@ =~= seq!['.']);
    if parts.len() > 0 {
        names_are_neither_empty_nor_dots(parts.drop_last());
    } else {
        assert(names_in(parts) =~= parts.filter(
            |piece: Text| piece.len() > 0 && piece != seq!['.'],
        ));
    }
}

/// A path is admitted exactly where it is 1 to 4096 bytes without a NUL, none of its names leads
/// back up, an absolute one lies within the repository, and it names something there. What is
/// wrong with its text or names nothing is invalid, what leads out is the wrong scope.
pub proof fn paths_are_admitted_exactly(repo: Text, raw: Text)
    ensures
        ({
            let res = path_below(repo, raw);
            let bad = raw.len() == 0 || byte_len(raw) > 4096 || raw.contains('\0');
            let absolute = is_absolute(raw);
            let out = segments(raw).contains(".."@) || (absolute && repo.len() > 0 && !(is_absolute(
                repo,
            ) && segments(repo).len() <= segments(raw).len() && forall|k: int|
                0 <= k < segments(repo).len() ==> segments(repo)[k] == #[trigger] segments(raw)[k]));
            &&& bad ==> (res matches Err(error) && error.0 == FailureCode::InvalidInput)
            &&& !bad && out ==> (res matches Err(error) && error.0 == FailureCode::ScopeMismatch)
            &&& !bad && !out ==> match res {
                Ok(rest) => rest.len() > 0 && (absolute ==> rest == segments(raw).skip(
                    segments(repo).len() as int,
                )) && (!absolute ==> rest == segments(raw)),
                Err(error) => error.0 == FailureCode::InvalidInput && (absolute ==> segments(
                    raw,
                ).skip(segments(repo).len() as int).len() == 0) && (!absolute ==> segments(
                    raw,
                ).len() == 0),
            }
        }),
{
    let prefix = segments(repo);
    let names = segments(raw);
    if prefix.len() <= names.len() {
        assert(begins(prefix, names) <==> forall|k: int|
            0 <= k < prefix.len() ==> prefix[k] == #[trigger] names[k]) by {
            if begins(prefix, names) {
                assert forall|k: int| 0 <= k < prefix.len() implies prefix[k]
                    == #[trigger] names[k] by {
                    assert(names.take(prefix.len() as int)[k] == names[k]);
                }
            }
            if forall|k: int| 0 <= k < prefix.len() ==> prefix[k] == #[trigger] names[k] {
                assert(names.take(prefix.len() as int) =~= prefix);
            }
        }
    }
}

/// The sizes of artifacts taken together.
pub open spec fn all_bytes(artifacts: Seq<ArtifactRefModel>) -> int
    decreases artifacts.len(),
{
    if artifacts.len() == 0 {
        0
    } else {
        artifacts[0].size_bytes + all_bytes(artifacts.drop_first())
    }
}

proof fn bytes_add_up(artifacts: Seq<ArtifactRefModel>)
    requires
        artifacts.len() > 0,
    ensures
        all_bytes(artifacts) == all_bytes(artifacts.drop_last()) + artifacts.last().size_bytes,
        all_bytes(artifacts.drop_last()) >= 0,
    decreases artifacts.len(),
{
    if artifacts.len() == 1 {
        assert(artifacts.drop_first() =~= Seq::empty());
        assert(artifacts.drop_last() =~= Seq::empty());
    } else {
        bytes_add_up(artifacts.drop_first());
        assert(artifacts.drop_first().drop_last() =~= artifacts.drop_last().drop_first());
        assert(artifacts.drop_first().last() == artifacts.last());
        assert(artifacts.drop_last()[0] == artifacts[0]);
    }
}

/// Whether an artifact may be named: its path lies within the repository, its digest is one, and
/// it has no more than 50 MiB.
pub open spec fn may_be_submitted(repo: Text, artifact: ArtifactRefModel) -> bool {
    path_below(repo, artifact.path) is Ok && is_digest(artifact.sha256) && artifact.size_bytes
        <= 52_428_800
}

/// Artifacts are admitted exactly where there are at most 32, each may be named, and all together
/// have no more than 100 MiB.
pub proof fn artifacts_are_admitted_exactly(repo: Text, artifacts: Seq<ArtifactRefModel>)
    ensures
        refs_admitted(repo, artifacts) is Ok <==> {
            &&& artifacts.len() <= 32
            &&& all_bytes(artifacts) <= 104_857_600
            &&& forall|k: int|
                0 <= k < artifacts.len() ==> may_be_submitted(repo, #[trigger] artifacts[k])
        },
        refs_admitted(repo, artifacts) matches Err(error) ==> (error.0 == FailureCode::ResourceLimit
            ==> {
            ||| artifacts.len() > 32
            ||| all_bytes(artifacts) > 104_857_600
            ||| exists|k: int|
                0 <= k < artifacts.len() && (#[trigger] artifacts[k]).size_bytes > 52_428_800
        }),
{
    sizes_are_totalled(repo, artifacts);
}

proof fn sizes_are_totalled(repo: Text, artifacts: Seq<ArtifactRefModel>)
    ensures
        all_bytes(artifacts) >= 0,
        total_size(repo, artifacts) matches Ok(total) ==> total == all_bytes(artifacts),
        total_size(repo, artifacts) is Ok <==> {
            &&& all_bytes(artifacts) <= 104_857_600
            &&& forall|k: int|
                0 <= k < artifacts.len() ==> may_be_submitted(repo, #[trigger] artifacts[k])
        },
        total_size(repo, artifacts) matches Err(error) ==> (error.0 == FailureCode::ResourceLimit
            ==> {
            ||| all_bytes(artifacts) > 104_857_600
            ||| exists|k: int|
                0 <= k < artifacts.len() && (#[trigger] artifacts[k]).size_bytes > 52_428_800
        }),
    decreases artifacts.len(),
{
    if artifacts.len() > 0 {
        let rest = artifacts.drop_last();
        let n = artifacts.len() - 1;
        sizes_are_totalled(repo, rest);
        bytes_add_up(artifacts);
        paths_are_admitted_exactly(repo, artifacts.last().path);
        if forall|k: int|
            0 <= k < artifacts.len() ==> may_be_submitted(repo, #[trigger] artifacts[k]) {
            assert forall|k: int| 0 <= k < rest.len() implies may_be_submitted(
                repo,
                #[trigger] rest[k],
            ) by {
                assert(rest[k] == artifacts[k]);
            }
            assert(may_be_submitted(repo, artifacts[n]));
        }
        if total_size(repo, artifacts) is Ok {
            assert forall|k: int| 0 <= k < artifacts.len() implies may_be_submitted(
                repo,
                #[trigger] artifacts[k],
            ) by {
                if k < n {
                    assert(rest[k] == artifacts[k]);
                }
            }
        } else if total_size(repo, rest) is Err {
            if exists|k: int| 0 <= k < rest.len() && (#[trigger] rest[k]).size_bytes > 52_428_800 {
                let k = choose|k: int|
                    0 <= k < rest.len() && (#[trigger] rest[k]).size_bytes > 52_428_800;
                assert(artifacts[k].size_bytes > 52_428_800);
            }
        } else {
            assert(artifacts[n] == artifacts.last());
        }
    }
}

/// Each artifact of an admitted submission is read from where its own path leads.
pub proof fn artifacts_are_read_from_their_paths(
    repo: Text,
    artifacts: Seq<ArtifactRefModel>,
    k: int,
)
    requires
        0 <= k < artifacts.len(),
    ensures
        capture_plan(repo, artifacts) matches Ok(plan) ==> plan.len() == artifacts.len()
            && path_below(repo, artifacts[k].path) == Ok::<Seq<Text>, WorkError>(plan[k]),
        capture_plan(repo, artifacts) is Ok <==> refs_admitted(repo, artifacts) is Ok,
{
    artifacts_are_admitted_exactly(repo, artifacts);
    each_has_its_source(repo, artifacts, k);
    if refs_admitted(repo, artifacts) is Ok {
        sources_are_given(repo, artifacts);
    }
}

proof fn each_has_its_source(repo: Text, artifacts: Seq<ArtifactRefModel>, k: int)
    requires
        0 <= k < artifacts.len(),
    ensures
        sources(repo, artifacts) matches Ok(plan) ==> plan.len() == artifacts.len() && path_below(
            repo,
            artifacts[k].path,
        ) == Ok::<Seq<Text>, WorkError>(plan[k]),
    decreases artifacts.len(),
{
    let rest = artifacts.drop_last();
    if rest.len() > 0 {
        if k < rest.len() {
            assert(rest[k] == artifacts[k]);
            each_has_its_source(repo, rest, k);
        } else {
            each_has_its_source(repo, rest, 0);
        }
    } else {
        assert(rest =~= Seq::empty());
        assert(sources(repo, rest) == Ok::<Seq<Seq<Text>>, WorkError>(Seq::empty()));
    }
}

proof fn sources_are_given(repo: Text, artifacts: Seq<ArtifactRefModel>)
    requires
        forall|k: int|
            0 <= k < artifacts.len() ==> may_be_submitted(repo, #[trigger] artifacts[k]),
    ensures
        sources(repo, artifacts) is Ok,
    decreases artifacts.len(),
{
    if artifacts.len() > 0 {
        let rest = artifacts.drop_last();
        assert forall|k: int| 0 <= k < rest.len() implies may_be_submitted(
            repo,
            #[trigger] rest[k],
        ) by {
            assert(rest[k] == artifacts[k]);
        }
        sources_are_given(repo, rest);
        assert(may_be_submitted(repo, artifacts[artifacts.len() - 1]));
    }
}

/// The directories on an absolute path are its names, and are walked exactly where none leads back
/// up or holds a NUL.
pub proof fn directories_are_walked_exactly(path: Text)
    ensures
        directories(path) matches Ok(names) ==> names == segments(path),
        directories(path) is Ok <==> is_absolute(path) && forall|k: int|
            0 <= k < segments(path).len() ==> (#[trigger] segments(path)[k]) != ".."@
                && !segments(path)[k].contains('\0'),
        !is_absolute(path) ==> (directories(path) matches Err(error) && error.0
            == FailureCode::ScopeMismatch),
{
    each_is_walked(segments(path));
}

proof fn each_is_walked(names: Seq<Text>)
    ensures
        walk(names) is Ok <==> forall|k: int|
            0 <= k < names.len() ==> (#[trigger] names[k]) != ".."@ && !names[k].contains('\0'),
    decreases names.len(),
{
    if names.len() > 0 {
        let rest = names.drop_last();
        let n = names.len() - 1;
        each_is_walked(rest);
        if walk(names) is Ok {
            assert forall|k: int| 0 <= k < names.len() implies (#[trigger] names[k]) != ".."@
                && !names[k].contains('\0') by {
                if k < n {
                    assert(rest[k] == names[k]);
                }
            }
        }
        if forall|k: int|
            0 <= k < names.len() ==> (#[trigger] names[k]) != ".."@ && !names[k].contains('\0') {
            assert forall|k: int| 0 <= k < rest.len() implies (#[trigger] rest[k]) != ".."@
                && !rest[k].contains('\0') by {
                assert(rest[k] == names[k]);
            }
            assert(names[n] != ".."@ && !names[n].contains('\0'));
        }
    }
}

/// Whether a file stayed the same while it was read: the same file, with the same size and the
/// same times.
pub open spec fn stayed(before: FileState, after: FileState) -> bool {
    &&& before.device == after.device && before.inode == after.inode
    &&& before.size == after.size
    &&& before.modified == after.modified && before.modified_nanos == after.modified_nanos
    &&& before.changed == after.changed && before.changed_nanos == after.changed_nanos
}

/// What was read of an artifact is given exactly where the file is regular and of no more than 50
/// MiB, stayed the same, and holds the bytes that the artifact names; and then these bytes.
/// Another kind of file is the wrong scope, a larger one is over the limit, and anything else has
/// changed.
pub proof fn reads_are_sound_exactly(read: FileReadModel, artifact: ArtifactRefModel)
    ensures
        ({
            let res = sound(read, artifact);
            let large = read.before.size > 52_428_800 || read.content.len() > 52_428_800;
            let right = stayed(read.before, read.after) && read.content.len() == artifact.size_bytes
                && sha256_hex(read.content) == artifact.sha256;
            match res {
                Ok(content) => read.before.regular && !large && right && content == read.content,
                Err(error) => error.0 == (if !read.before.regular {
                    FailureCode::ScopeMismatch
                } else if large {
                    FailureCode::ResourceLimit
                } else {
                    FailureCode::ArtifactChanged
                }) && (read.before.regular && !large ==> !right),
            }
        }),
{
}

/// Bytes that are stored already cost nothing, as long as what is stored is sound. Bytes that are
/// missing are written where their size and two names fit, and cost their size and one name. No
/// other failure is passed over.
pub proof fn publications_cost_exactly(
    existing: WorkResult<FileReadModel>,
    artifact: ArtifactRefModel,
    size: u64,
    usage: Usage,
    maximum_bytes: u64,
    maximum_entries: usize,
)
    ensures
        ({
            let res = publication(existing, artifact, size, usage, maximum_bytes, maximum_entries);
            let fits = usage.bytes + size <= maximum_bytes && usage.entries + 2 <= maximum_entries;
            match existing {
                Ok(read) => match sound(read, artifact) {
                    Ok(_) => res matches Ok((next, todo)) && next == usage && todo
                        == Publication::Stored,
                    Err(error) => res matches Err(other) && other == error,
                },
                Err(error) => if error.0 == FailureCode::ArtifactMissing {
                    if fits {
                        res matches Ok((next, todo)) && next.bytes == usage.bytes + size
                            && next.entries == usage.entries + 1 && todo == Publication::Write
                    } else {
                        res matches Err(other) && other.0 == FailureCode::ResourceLimit
                    }
                } else {
                    res matches Err(other) && other == error
                },
            }
        }),
{
}

/// Uploaded bytes may be published exactly where they are what an admissible reference names.
pub proof fn bytes_are_publishable_exactly(artifact: ArtifactRefModel, content: Seq<u8>)
    ensures
        publishable(artifact, content) is Ok <==> may_be_submitted("/"@, artifact) && content.len()
            == artifact.size_bytes && sha256_hex(content) == artifact.sha256,
{
    let one = Seq::<ArtifactRefModel>::empty().push(artifact);
    artifacts_are_admitted_exactly("/"@, one);
    assert(one[0] == artifact);
    assert(one.drop_first() =~= Seq::empty());
    assert(all_bytes(one) == artifact.size_bytes + all_bytes(Seq::empty()));
}

/// What is captured of a submission is what was read, as long as it is sound and everything so far
/// has no more than 100 MiB; the total grows by what was read.
pub proof fn captures_add_up(total: u64, read: FileReadModel, artifact: ArtifactRefModel)
    ensures
        captured(
            total,
            read,
            artifact,
        ) matches Ok((content, next)) ==> sound(read, artifact) == Ok::<
            Seq<u8>,
            WorkError,
        >(content) && next == total + content.len() && next <= 104_857_600,
        captured(total, read, artifact) matches Err(error) ==> (sound(read, artifact) matches Ok(
            content,
        ) ==> total + content.len() > 104_857_600 && error.0 == FailureCode::ResourceLimit),
{
}

/// What the file system could not do is told apart: a missing file is a missing artifact, a
/// redirected path the wrong scope, and anything else a store that cannot be used.
pub proof fn file_failures_are_told_apart(failure: IoFailure)
    ensures
        io_code(failure) == FailureCode::ArtifactMissing <==> failure == IoFailure::Missing,
        io_code(failure) == FailureCode::ScopeMismatch <==> failure == IoFailure::Redirected,
        io_code(failure) == FailureCode::StorageUnavailable <==> failure == IoFailure::Other,
{
}

/// What a store is charged with grows, entry by entry, by one name each, and by the size of each
/// file that has no earlier name. It is refused only where an entry is no regular file or has no
/// size, or where the names or the bytes are more than allowed.
pub proof fn entries_are_charged_once(
    entries: Seq<EntryState>,
    entry: EntryState,
    maximum_bytes: u64,
    maximum_entries: usize,
)
    requires
        usage_of(entries, maximum_bytes, maximum_entries) is Ok,
    ensures
        ({
            let before = usage_of(entries, maximum_bytes, maximum_entries)->Ok_0;
            let known = exists|k: int|
                0 <= k < entries.len() && (#[trigger] entries[k]).device == entry.device
                    && entries[k].inode == entry.inode;
            let cost: int = if known {
                0
            } else {
                entry.size as int
            };
            let plain = entry.regular && entry.size >= 0;
            match usage_of(entries.push(entry), maximum_bytes, maximum_entries) {
                Ok(after) => plain && after.entries == before.entries + 1 && after.entries
                    <= maximum_entries && after.bytes == before.bytes + cost && (known || after.bytes
                    <= maximum_bytes),
                Err(error) => (error.0 == FailureCode::ResourceLimit && (before.entries + 1
                    > maximum_entries || before.bytes + cost > maximum_bytes)) || (error.0
                    == FailureCode::ScopeMismatch && !plain),
            }
        }),
        usage_of(Seq::empty(), maximum_bytes, maximum_entries) matches Ok(none) && none.bytes == 0
            && none.entries == 0,
{
    let all = entries.push(entry);
    let n = entries.len() as int;
    assert(all.drop_last() =~= entries);
    assert(all.last() == entry);
    if linked_before(all, n) {
        let k = choose|k: int|
            0 <= k < n && (#[trigger] all[k]).device == all[n].device && all[k].inode
                == all[n].inode;
        assert(entries[k].device == entry.device);
    }
    assert forall|k: int|
        0 <= k < entries.len() && (#[trigger] entries[k]).device == entry.device && entries[k].inode
            == entry.inode implies linked_before(all, n) by {
        assert(all[k] == entries[k]);
    }
}

} // verus!
