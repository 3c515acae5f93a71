//! Uploaded inputs: who may use which, for what, and until when.
use vstd::prelude::*;
use crate::digest::digest_of;
use crate::digest::digest_text;
use crate::digest::is_uuid;
use crate::digest::uuid_text;
use crate::json::ToJson;
use crate::json::array;
use crate::json::json_string;
use crate::text::absolute;
use crate::text::bounded;
use crate::text::byte_len;
use crate::text::bytes_in;
use crate::text::file_name;
use crate::text::has_nul;
use crate::text::is_absolute;
use crate::text::is_bounded;
use crate::text::is_digest;
use crate::text::is_file_name;
use crate::text::is_printable;
use crate::text::printable;
use crate::text::text_eq;
use crate::text::valid_digest;
use crate::value::Replica;
use crate::value::Same;
use crate::value::Text;
use crate::value::add_row;
use crate::value::no_items;
use crate::value::set_row;
use crate::value::shown;
use crate::work::model::CreateTask;
use crate::work::model::CreateTaskModel;
use crate::work::model::DelegationFence;
use crate::work::model::DelegationFenceModel;
use crate::work::model::FailureCode;
use crate::work::model::FrozenInputRef;
use crate::work::model::FrozenInputRefModel;
use crate::work::model::InputReceipt;
use crate::work::model::InputReceiptModel;
use crate::work::model::InputRef;
use crate::work::model::InputRefModel;
use crate::work::model::InputShare;
use crate::work::model::InputShareModel;
use crate::work::model::InputUpload;
use crate::work::model::InputUploadModel;
use crate::work::model::InputUse;
use crate::work::model::Task;
use crate::work::model::TaskModel;
use crate::work::model::WorkError;
use crate::work::model::WorkResult;
use crate::work::store::records::listed;
use crate::work::store::records::loaded;
use crate::work::store::records::put;
use crate::work::store::records::refuse;
use crate::work::store::records::refused;
use crate::work::store::rules::is_text;
use crate::work::store::tables::Body;
use crate::work::store::tables::BodyModel;
use crate::work::store::tables::InputRow;
use crate::work::store::tables::InputRowModel;
use crate::work::store::tables::StoreModel;
use crate::work::store::tables::WorkStore;

verus! {

/// How long an upload waits to be claimed: two days.
pub const INPUT_TTL_MS: i64 = 172_800_000;

/// How many uploads are kept.
pub const MAX_INPUTS: usize = 100_000;

/// How many inputs one request may name.
pub const MAX_REFS: usize = 9;

/// The largest upload.
pub const MAX_UPLOAD_BYTES: u64 = 10_485_760;

/// Whether a permission covers a use.
pub open spec fn covers(permission: InputUse, requested: InputUse) -> bool {
    permission == InputUse::MayInclude || requested == InputUse::ReferenceOnly
}

/// Whether a permission covers a use.
pub fn use_allowed(permission: InputUse, requested: InputUse) -> (res: bool)
    ensures
        res == covers(permission, requested),
{
    permission == InputUse::MayInclude || requested == InputUse::ReferenceOnly
}

/// Whether a reference still describes the upload that it names.
pub open spec fn describes(reference: FrozenInputRefModel, receipt: InputReceiptModel) -> bool {
    &&& reference.input_id == receipt.input_id
    &&& reference.sha256 == receipt.sha256
    &&& reference.size_bytes == receipt.size_bytes
    &&& reference.name == receipt.name
    &&& reference.mime == receipt.mime
}

fn same_metadata(reference: &FrozenInputRef, receipt: &InputReceipt) -> (res: bool)
    ensures
        res == describes(reference.deep_view(), receipt.deep_view()),
{
    reference.input_id.same(&receipt.input_id) && reference.sha256.same(&receipt.sha256)
        && reference.size_bytes == receipt.size_bytes && reference.name.same(&receipt.name)
        && reference.mime.same(&receipt.mime)
}

/// References that a request may carry: at most nine, each to another upload.
pub open spec fn valid_refs(refs: Seq<InputRefModel>) -> bool {
    &&& refs.len() <= MAX_REFS
    &&& forall|i: int|
        0 <= i < refs.len() ==> is_uuid(#[trigger] refs[i].input_id) && byte_len(refs[i].caption)
            <= 4096 && !refs[i].caption.contains('\0')
    &&& forall|i: int, j: int| 0 <= i < j < refs.len() ==> refs[i].input_id != refs[j].input_id
}

/// Whether a request may carry these references.
pub fn check_refs(refs: &[InputRef]) -> (res: bool)
    ensures
        res == valid_refs(refs.deep_view()),
{
    let ghost all = refs.deep_view();
    if refs.len() > MAX_REFS {
        return false;
    }
    let mut i: usize = 0;
    while i < refs.len()
        invariant
            i <= refs.len(),
            all == refs.deep_view(),
            refs.len() <= MAX_REFS,
            forall|k: int|
                0 <= k < i ==> is_uuid(#[trigger] all[k].input_id) && byte_len(all[k].caption)
                    <= 4096 && !all[k].caption.contains('\0'),
            forall|k: int, l: int| 0 <= k < l < i ==> all[k].input_id != all[l].input_id,
        decreases refs.len() - i,
    {
        let reference = &refs[i];
        assert(all[i as int].input_id == reference.deep_view().input_id);
        assert(all[i as int] == reference.deep_view());
        if !uuid_text(reference.input_id.as_str()) || bytes_in(reference.caption.as_str()) > 4096
            || has_nul(reference.caption.as_str()) {
            return false;
        }
        let mut j: usize = 0;
        while j < i
            invariant
                j <= i,
                i < refs.len(),
                all == refs.deep_view(),
                all[i as int] == reference.deep_view(),
                forall|k: int| 0 <= k < j ==> all[k].input_id != all[i as int].input_id,
            decreases i - j,
        {
            if refs[j].input_id.same(&reference.input_id) {
                assert(all[j as int].input_id == all[i as int].input_id);
                return false;
            }
            j += 1;
        }
        i += 1;
    }
    true
}

/// Refuses references that a request may not carry.
pub fn validate_refs(refs: &[InputRef]) -> (res: WorkResult<()>)
    ensures
        res == (if valid_refs(refs.deep_view()) {
            Ok(())
        } else {
            refused::<()>(FailureCode::InvalidInput)
        }),
{
    if check_refs(refs) {
        Ok(())
    } else {
        refuse(FailureCode::InvalidInput)
    }
}

/// An upload that may be recorded.
pub open spec fn is_upload(input: InputUploadModel) -> bool {
    &&& is_absolute(input.repo_path)
    &&& is_bounded(input.repo_path, 4096)
    &&& is_file_name(input.name)
    &&& is_bounded(input.mime, 128)
    &&& is_printable(input.mime)
    &&& input.size_bytes <= MAX_UPLOAD_BYTES
    &&& is_digest(input.sha256)
}

/// Whether an upload may be recorded.
pub fn valid_upload(input: &InputUpload) -> (res: bool)
    ensures
        res == is_upload(input.deep_view()),
{
    absolute(input.repo_path.as_str()) && bounded(input.repo_path.as_str(), 4096) && file_name(
        input.name.as_str(),
    ) && bounded(input.mime.as_str(), 128) && printable(input.mime.as_str()) && input.size_bytes
        <= MAX_UPLOAD_BYTES && valid_digest(input.sha256.as_str())
}

/// The digest of several values taken together.
pub open spec fn payload(parts: Seq<Text>) -> Text {
    digest_of(array(parts))
}

/// The digest of a request to create a task.
pub open spec fn create_digest(input: CreateTaskModel, refs: Seq<InputRefModel>) -> Text {
    if refs.len() == 0 {
        digest_of(CreateTask::json(input))
    } else {
        payload(Seq::empty().push(CreateTask::json(input)).push(Vec::<InputRef>::json(refs)))
    }
}

/// The digest of a request to deliver a prompt, its inputs not counted.
pub open spec fn plain_delivery_digest(
    task: Text,
    attempt: Text,
    revision: u64,
    instance: Text,
    text: Text,
    version: Option<Text>,
) -> Text {
    payload(
        Seq::empty()
            .push(json_string(task))
            .push(json_string(attempt))
            .push(u64::json(revision))
            .push(json_string(instance))
            .push(json_string(text))
            .push(Option::<String>::json(version)),
    )
}

/// The digest of a request to deliver a prompt with inputs.
pub open spec fn delivery_digest(
    task: Text,
    attempt: Text,
    revision: u64,
    instance: Text,
    text: Text,
    version: Option<Text>,
    refs: Seq<InputRefModel>,
) -> Text {
    payload(
        Seq::empty()
            .push(json_string(task))
            .push(json_string(attempt))
            .push(u64::json(revision))
            .push(json_string(instance))
            .push(json_string(text))
            .push(Option::<String>::json(version))
            .push(Vec::<InputRef>::json(refs)),
    )
}

/// The digest of a request to create a task.
pub fn create_request_digest(input: &CreateTask, refs: &[InputRef]) -> (res: String)
    ensures
        res@ == create_digest(input.deep_view(), refs.deep_view()),
{
    if refs.len() == 0 {
        digest_text(input)
    } else {
        digest_text(&(input, refs))
    }
}

/// The digest of a request to deliver a prompt, its inputs not counted.
pub fn legacy_delivery_digest(
    task: &str,
    attempt: &str,
    revision: u64,
    instance: &str,
    text: &str,
    version: Option<&str>,
) -> (res: String)
    ensures
        res@ == plain_delivery_digest(
            task@,
            attempt@,
            revision,
            instance@,
            text@,
            version.deep_view(),
        ),
{
    digest_text(&(task, attempt, revision, instance, text, version))
}

/// The digest of a request to deliver a prompt with inputs.
pub fn delivery_request_digest(
    task: &str,
    attempt: &str,
    revision: u64,
    instance: &str,
    text: &str,
    version: Option<&str>,
    refs: &[InputRef],
) -> (res: String)
    ensures
        res@ == delivery_digest(
            task@,
            attempt@,
            revision,
            instance@,
            text@,
            version.deep_view(),
            refs.deep_view(),
        ),
{
    digest_text(&(task, attempt, revision, instance, text, version, refs))
}

/// Where the upload with an identifier stands.
pub open spec fn input_at(inputs: Seq<InputRowModel>, id: Text) -> Option<int>
    decreases inputs.len(),
{
    if inputs.len() == 0 {
        None
    } else if inputs.last().id == id {
        Some(inputs.len() - 1)
    } else {
        input_at(inputs.drop_last(), id)
    }
}

/// The upload with an identifier in a session.
pub open spec fn uploaded(s: StoreModel, session: Text, id: Text) -> Option<InputRowModel> {
    match input_at(s.inputs, id) {
        Some(i) => if s.inputs[i].session == session {
            Some(s.inputs[i])
        } else {
            None
        },
        None => None,
    }
}

/// The first of some frozen references that names an upload.
pub open spec fn reference_to(refs: Seq<FrozenInputRefModel>, id: Text) -> Option<
    FrozenInputRefModel,
>
    decreases refs.len(),
{
    if refs.len() == 0 {
        None
    } else {
        match reference_to(refs.drop_last(), id) {
            Some(reference) => Some(reference),
            None => if refs.last().input_id == id {
                Some(refs.last())
            } else {
                None
            },
        }
    }
}

/// The first of some frozen references that names an upload.
pub fn find_reference<'a>(refs: &'a Vec<FrozenInputRef>, id: &str) -> (res: Option<
    &'a FrozenInputRef,
>)
    ensures
        res.deep_view() == reference_to(refs.deep_view(), id@),
{
    let ghost all = refs.deep_view();
    let mut found: Option<&'a FrozenInputRef> = None;
    let mut i: usize = 0;
    while i < refs.len()
        invariant
            i <= refs.len(),
            all == refs.deep_view(),
            found.deep_view() == reference_to(all.take(i as int), id@),
        decreases refs.len() - i,
    {
        assert(all.take(i + 1).drop_last() =~= all.take(i as int));
        if found.is_none() && text_eq(refs[i].input_id.as_str(), id) {
            found = Some(&refs[i]);
        }
        i += 1;
    }
    assert(all.take(i as int) =~= all);
    found
}

/// The shares of one upload.
pub open spec fn shares_of(shares: Seq<InputShareModel>, id: Text) -> Seq<InputShareModel>
    decreases shares.len(),
{
    if shares.len() == 0 {
        Seq::empty()
    } else if shares.last().input_id == id {
        shares_of(shares.drop_last(), id).push(shares.last())
    } else {
        shares_of(shares.drop_last(), id)
    }
}

fn filter_shares(shares: &Vec<InputShare>, id: &str) -> (res: Vec<InputShare>)
    ensures
        res.deep_view() == shares_of(shares.deep_view(), id@),
{
    let ghost all = shares.deep_view();
    let mut res: Vec<InputShare> = no_items();
    let mut i: usize = 0;
    while i < shares.len()
        invariant
            i <= shares.len(),
            all == shares.deep_view(),
            res.deep_view() == shares_of(all.take(i as int), id@),
        decreases shares.len() - i,
    {
        assert(all.take(i + 1).drop_last() =~= all.take(i as int));
        if text_eq(shares[i].input_id.as_str(), id) {
            add_row(&mut res, shares[i].replica());
        }
        i += 1;
    }
    assert(all.take(i as int) =~= all);
    res
}

/// Whether a share lets a child use an upload of its parent.
pub open spec fn share_permits(
    share: InputShareModel,
    child: TaskModel,
    parent: TaskModel,
    source: FrozenInputRefModel,
    claimed: Option<Text>,
    receipt: InputReceiptModel,
    requested: InputUse,
) -> bool {
    &&& share.recipient_task_id == child.id
    &&& child.parent_task_id == Some(parent.id)
    &&& claimed == Some(parent.id)
    &&& child.repo_path == parent.repo_path
    &&& parent.repo_path == receipt.repo_path
    &&& describes(source, receipt)
    &&& share.source_use == source.use_
    &&& covers(share.source_use, share.permitted_use)
    &&& covers(share.permitted_use, requested)
    &&& share.sha256 == receipt.sha256
    &&& share.size_bytes == receipt.size_bytes
    &&& share.name == receipt.name
    &&& share.mime == receipt.mime
}

/// Whether a task may use an upload that another task has claimed: exactly one share of it
/// is filed under the task, and what the share says still holds.
pub open spec fn share_valid(
    s: StoreModel,
    session: Text,
    task_id: Text,
    receipt: InputReceiptModel,
    requested: InputUse,
) -> WorkResult<()> {
    let matching = shares_of(
        listed::<InputShare>(s.records, session, task_id),
        receipt.input_id,
    );
    if matching.len() != 1 {
        refused(FailureCode::ScopeMismatch)
    } else {
        let share = matching[0];
        match loaded::<Task>(s, session, task_id) {
            Err(error) => Err(error),
            Ok(child) => match loaded::<Task>(s, session, share.source_task_id) {
                Err(error) => Err(error),
                Ok(parent) => match reference_to(parent.input_refs, receipt.input_id) {
                    None => refused(FailureCode::ScopeMismatch),
                    Some(source) => match uploaded(s, session, receipt.input_id) {
                        None => refused(FailureCode::StorageUnavailable),
                        Some(row) => if share_permits(
                            share,
                            child,
                            parent,
                            source,
                            row.claimed_task,
                            receipt,
                            requested,
                        ) {
                            Ok(())
                        } else {
                            refused(FailureCode::ScopeMismatch)
                        },
                    },
                },
            },
        }
    }
}

/// A reference as it is when a request is admitted.
pub open spec fn frozen(
    s: StoreModel,
    actor: Text,
    session: Text,
    repo: Text,
    task: Option<Text>,
    reference: InputRefModel,
    now: i64,
) -> WorkResult<FrozenInputRefModel> {
    match uploaded(s, session, reference.input_id) {
        None => refused(FailureCode::ScopeMismatch),
        Some(row) => if row.repo_path != repo {
            refused(FailureCode::ScopeMismatch)
        } else {
            let kept = FrozenInputRefModel {
                input_id: row.body.input_id,
                caption: reference.caption,
                use_: reference.use_,
                name: row.body.name,
                mime: row.body.mime,
                size_bytes: row.body.size_bytes,
                sha256: row.body.sha256,
            };
            match row.claimed_task {
                Some(claimed) => if task == Some(claimed) {
                    Ok(kept)
                } else {
                    match task {
                        None => refused(FailureCode::ScopeMismatch),
                        Some(target) => match share_valid(
                            s,
                            session,
                            target,
                            row.body,
                            reference.use_,
                        ) {
                            Err(error) => Err(error),
                            Ok(_) => Ok(kept),
                        },
                    }
                },
                None => if row.actor != actor {
                    refused(FailureCode::ScopeMismatch)
                } else if now >= row.body.expires_at_ms {
                    refused(FailureCode::InputExpired)
                } else {
                    Ok(kept)
                },
            }
        },
    }
}

/// References as they are when a request is admitted, or the first refusal.
pub open spec fn frozen_all(
    s: StoreModel,
    actor: Text,
    session: Text,
    repo: Text,
    task: Option<Text>,
    refs: Seq<InputRefModel>,
    now: i64,
) -> WorkResult<Seq<FrozenInputRefModel>>
    decreases refs.len(),
{
    if refs.len() == 0 {
        Ok(Seq::empty())
    } else {
        match frozen_all(s, actor, session, repo, task, refs.drop_last(), now) {
            Err(error) => Err(error),
            Ok(before) => match frozen(s, actor, session, repo, task, refs.last(), now) {
                Err(error) => Err(error),
                Ok(last) => Ok(before.push(last)),
            },
        }
    }
}

/// References as they are when a request is admitted.
pub open spec fn resolved(
    s: StoreModel,
    actor: Text,
    session: Text,
    repo: Text,
    task: Option<Text>,
    refs: Seq<InputRefModel>,
    now: i64,
) -> WorkResult<Seq<FrozenInputRefModel>> {
    if !valid_refs(refs) {
        refused(FailureCode::InvalidInput)
    } else {
        frozen_all(s, actor, session, repo, task, refs, now)
    }
}

/// Whether a parent may share the upload that a reference names: it holds the claim, and its
/// own permission covers the use.
pub open spec fn may_share(
    s: StoreModel,
    session: Text,
    parent: TaskModel,
    reference: InputRefModel,
) -> WorkResult<()> {
    match reference_to(parent.input_refs, reference.input_id) {
        None => refused(FailureCode::ScopeMismatch),
        Some(source) => if !covers(source.use_, reference.use_) {
            refused(FailureCode::ScopeMismatch)
        } else {
            match uploaded(s, session, reference.input_id) {
                None => refused(FailureCode::StorageUnavailable),
                Some(row) => if row.claimed_task != Some(parent.id) {
                    refused(FailureCode::ScopeMismatch)
                } else {
                    Ok(())
                },
            }
        },
    }
}

/// Whether a parent may share the uploads that some references name.
pub open spec fn shareable(
    s: StoreModel,
    session: Text,
    parent: TaskModel,
    refs: Seq<InputRefModel>,
) -> WorkResult<()>
    decreases refs.len(),
{
    if refs.len() == 0 {
        Ok(())
    } else {
        match shareable(s, session, parent, refs.drop_last()) {
            Err(error) => Err(error),
            Ok(_) => may_share(s, session, parent, refs.last()),
        }
    }
}

/// Whether an upload is still what the parent's own reference says.
pub open spec fn still(parent: TaskModel, item: FrozenInputRefModel) -> WorkResult<()> {
    match reference_to(parent.input_refs, item.input_id) {
        None => refused(FailureCode::ScopeMismatch),
        Some(source) => if item.sha256 != source.sha256 || item.size_bytes != source.size_bytes
            || item.mime != source.mime || item.name != source.name {
            refused(FailureCode::ArtifactChanged)
        } else {
            Ok(())
        },
    }
}

/// Whether uploads are still what the parent's own references say.
pub open spec fn unchanged(parent: TaskModel, refs: Seq<FrozenInputRefModel>) -> WorkResult<()>
    decreases refs.len(),
{
    if refs.len() == 0 {
        Ok(())
    } else {
        match unchanged(parent, refs.drop_last()) {
            Err(error) => Err(error),
            Ok(_) => still(parent, refs.last()),
        }
    }
}

/// References to a parent's uploads as they are when a child is admitted.
pub open spec fn parent_shares(
    s: StoreModel,
    actor: Text,
    session: Text,
    parent: TaskModel,
    refs: Seq<InputRefModel>,
    now: i64,
) -> WorkResult<Seq<FrozenInputRefModel>> {
    match shareable(s, session, parent, refs) {
        Err(error) => Err(error),
        Ok(_) => match resolved(s, actor, session, parent.repo_path, Some(parent.id), refs, now) {
            Err(error) => Err(error),
            Ok(kept) => match unchanged(parent, kept) {
                Err(error) => Err(error),
                Ok(_) => Ok(kept),
            },
        },
    }
}

/// The share under which a child uses one upload of its parent.
pub open spec fn share_for(
    id: Text,
    parent: TaskModel,
    child_id: Text,
    fence: DelegationFenceModel,
    source: FrozenInputRefModel,
    reference: FrozenInputRefModel,
    now: i64,
) -> InputShareModel {
    InputShareModel {
        id,
        source_task_id: parent.id,
        recipient_task_id: child_id,
        input_id: reference.input_id,
        source_use: source.use_,
        permitted_use: reference.use_,
        sha256: reference.sha256,
        size_bytes: reference.size_bytes,
        name: reference.name,
        mime: reference.mime,
        coordinator_attempt_id: fence.coordinator_attempt_id,
        coordinator_epoch: fence.coordinator_epoch,
        created_at_ms: now,
    }
}

/// The store after shares were filed for some references, each under its own identifier.
pub open spec fn shares_filed(
    s: StoreModel,
    session: Text,
    parent: TaskModel,
    child_id: Text,
    fence: DelegationFenceModel,
    existing: Seq<InputShareModel>,
    refs: Seq<FrozenInputRefModel>,
    ids: Seq<Text>,
    now: i64,
) -> WorkResult<StoreModel>
    decreases refs.len(),
{
    if refs.len() == 0 {
        Ok(s)
    } else {
        match shares_filed(
            s,
            session,
            parent,
            child_id,
            fence,
            existing,
            refs.drop_last(),
            ids,
            now,
        ) {
            Err(error) => Err(error),
            Ok(before) => {
                let reference = refs.last();
                if shares_of(existing, reference.input_id).len() > 0 {
                    refused(FailureCode::RequestKeyConflict)
                } else {
                    match reference_to(parent.input_refs, reference.input_id) {
                        None => refused(FailureCode::ScopeMismatch),
                        Some(source) => {
                            let id = ids[refs.len() - 1];
                            put(
                                before,
                                session,
                                id,
                                child_id,
                                BodyModel::InputShare(
                                    share_for(id, parent, child_id, fence, source, reference, now),
                                ),
                            )
                        },
                    }
                }
            },
        }
    }
}

/// The store after a parent's uploads were shared with a child.
pub open spec fn shared(
    s: StoreModel,
    session: Text,
    parent: TaskModel,
    child_id: Text,
    fence: DelegationFenceModel,
    refs: Seq<FrozenInputRefModel>,
    ids: Seq<Text>,
    now: i64,
) -> WorkResult<StoreModel> {
    let existing = listed::<InputShare>(s.records, session, child_id);
    if refs.len() > MAX_REFS {
        refused(FailureCode::InvalidInput)
    } else if existing.len() + refs.len() > MAX_REFS {
        refused(FailureCode::ResourceLimit)
    } else {
        shares_filed(s, session, parent, child_id, fence, existing, refs, ids, now)
    }
}

/// The store after a task claimed the uploads that some references name. An upload that
/// another task holds stays with it, and must be shared.
pub open spec fn claimed(
    s: StoreModel,
    session: Text,
    task: Text,
    refs: Seq<FrozenInputRefModel>,
) -> WorkResult<StoreModel>
    decreases refs.len(),
{
    if refs.len() == 0 {
        Ok(s)
    } else {
        match claimed(s, session, task, refs.drop_last()) {
            Err(error) => Err(error),
            Ok(before) => {
                let reference = refs.last();
                match input_at(before.inputs, reference.input_id) {
                    None => refused(FailureCode::StorageUnavailable),
                    Some(i) => {
                        let row = before.inputs[i];
                        if row.session != session {
                            refused(FailureCode::StorageUnavailable)
                        } else if row.claimed_task is None || row.claimed_task == Some(task) {
                            Ok(
                                StoreModel {
                                    inputs: before.inputs.update(
                                        i,
                                        InputRowModel { claimed_task: Some(task), ..row },
                                    ),
                                    ..before
                                },
                            )
                        } else {
                            match share_valid(before, session, task, row.body, reference.use_) {
                                Err(error) => Err(error),
                                Ok(_) => Ok(before),
                            }
                        }
                    },
                }
            },
        }
    }
}

impl WorkStore {
    /// Where the upload with an identifier stands.
    pub(crate) fn find_input(&self, id: &str) -> (res: Option<usize>)
        ensures
            match res {
                Some(i) => i < self.inputs.len() && input_at(self@.inputs, id@) == Some(i as int),
                None => input_at(self@.inputs, id@) is None,
            },
    {
        let ghost all = self@.inputs;
        let mut i: usize = self.inputs.len();
        assert(all.take(i as int) =~= all);
        while i > 0
            invariant
                i <= self.inputs.len(),
                all == self@.inputs,
                input_at(all, id@) == input_at(all.take(i as int), id@),
            decreases i,
        {
            i -= 1;
            assert(all.take(i + 1).drop_last() =~= all.take(i as int));
            if text_eq(self.inputs[i].id.as_str(), id) {
                return Some(i);
            }
        }
        None
    }

    /// The upload with an identifier in a session.
    fn upload_row(&self, session: &str, id: &str) -> (res: Option<&InputRow>)
        ensures
            res.deep_view() == uploaded(self@, session@, id@),
    {
        match self.find_input(id) {
            Some(i) => {
                if text_eq(self.inputs[i].session.as_str(), session) {
                    Some(&self.inputs[i])
                } else {
                    None
                }
            },
            None => None,
        }
    }

    fn validate_share(
        &self,
        session: &str,
        task_id: &str,
        receipt: &InputReceipt,
        requested: InputUse,
    ) -> (res: WorkResult<()>)
        ensures
            res == share_valid(self@, session@, task_id@, receipt.deep_view(), requested),
    {
        let shares = self.records::<InputShare>(session, task_id);
        let matching = filter_shares(&shares, receipt.input_id.as_str());
        if matching.len() != 1 {
            return refuse(FailureCode::ScopeMismatch);
        }
        let share = &matching[0];
        assert(matching.deep_view()[0] == share.deep_view());
        let child = self.load::<Task>(session, task_id)?;
        let parent = self.load::<Task>(session, share.source_task_id.as_str())?;
        let source = match find_reference(&parent.input_refs, receipt.input_id.as_str()) {
            Some(source) => source,
            None => {
                return refuse(FailureCode::ScopeMismatch);
            },
        };
        let row = match self.upload_row(session, receipt.input_id.as_str()) {
            Some(row) => row,
            None => {
                return refuse(FailureCode::StorageUnavailable);
            },
        };
        if share.recipient_task_id.same(&child.id) && is_text(
            &child.parent_task_id,
            parent.id.as_str(),
        ) && is_text(&row.claimed_task, parent.id.as_str()) && child.repo_path.same(
            &parent.repo_path,
        ) && parent.repo_path.same(&receipt.repo_path) && same_metadata(source, receipt)
            && share.source_use == source.use_ && use_allowed(
            share.source_use,
            share.permitted_use,
        ) && use_allowed(share.permitted_use, requested) && share.sha256.same(&receipt.sha256)
            && share.size_bytes == receipt.size_bytes && share.name.same(&receipt.name)
            && share.mime.same(&receipt.mime) {
            Ok(())
        } else {
            refuse(FailureCode::ScopeMismatch)
        }
    }

    fn freeze(
        &self,
        actor: &str,
        session: &str,
        repo: &str,
        task: Option<&str>,
        reference: &InputRef,
        now: i64,
    ) -> (res: WorkResult<FrozenInputRef>)
        ensures
            shown(res) == frozen(
                self@,
                actor@,
                session@,
                repo@,
                task.deep_view(),
                reference.deep_view(),
                now,
            ),
    {
        let row = match self.upload_row(session, reference.input_id.as_str()) {
            Some(row) => row,
            None => {
                return refuse(FailureCode::ScopeMismatch);
            },
        };
        if !text_eq(row.repo_path.as_str(), repo) {
            return refuse(FailureCode::ScopeMismatch);
        }
        match &row.claimed_task {
            Some(holder) => {
                match task {
                    None => {
                        return refuse(FailureCode::ScopeMismatch);
                    },
                    Some(target) => {
                        if !text_eq(target, holder.as_str()) {
                            self.validate_share(session, target, &row.body, reference.use_)?;
                        }
                    },
                }
            },
            None => {
                if !text_eq(row.actor.as_str(), actor) {
                    return refuse(FailureCode::ScopeMismatch);
                }
                if now >= row.body.expires_at_ms {
                    return refuse(FailureCode::InputExpired);
                }
            },
        }
        Ok(
            FrozenInputRef {
                input_id: row.body.input_id.clone(),
                caption: reference.caption.clone(),
                use_: reference.use_,
                name: row.body.name.clone(),
                mime: row.body.mime.clone(),
                size_bytes: row.body.size_bytes,
                sha256: row.body.sha256.clone(),
            },
        )
    }

    /// References as they are when a request is admitted.
    pub(crate) fn resolve(
        &self,
        actor: &str,
        session: &str,
        repo: &str,
        task: Option<&str>,
        refs: &[InputRef],
        now: i64,
    ) -> (res: WorkResult<Vec<FrozenInputRef>>)
        ensures
            shown(res) == resolved(
                self@,
                actor@,
                session@,
                repo@,
                task.deep_view(),
                refs.deep_view(),
                now,
            ),
    {
        validate_refs(refs)?;
        let ghost all = refs.deep_view();
        let mut res: Vec<FrozenInputRef> = no_items();
        let mut i: usize = 0;
        while i < refs.len()
            invariant
                i <= refs.len(),
                all == refs.deep_view(),
                valid_refs(all),
                frozen_all(
                    self@,
                    actor@,
                    session@,
                    repo@,
                    task.deep_view(),
                    all.take(i as int),
                    now,
                ) == Ok::<Seq<FrozenInputRefModel>, WorkError>(res.deep_view()),
            decreases refs.len() - i,
        {
            assert(all.take(i + 1).drop_last() =~= all.take(i as int));
            assert(all.take(i + 1).last() == refs[i as int].deep_view());
            match self.freeze(actor, session, repo, task, &refs[i], now) {
                Ok(item) => {
                    add_row(&mut res, item);
                },
                Err(error) => {
                    proof {
                        refusal_stays(
                            self@,
                            actor@,
                            session@,
                            repo@,
                            task.deep_view(),
                            all,
                            i + 1,
                            now,
                        );
                    }
                    return Err(error);
                },
            }
            i += 1;
        }
        assert(all.take(i as int) =~= all);
        Ok(res)
    }
}

/// Once one reference is refused, the list is.
pub proof fn refusal_stays(
    s: StoreModel,
    actor: Text,
    session: Text,
    repo: Text,
    task: Option<Text>,
    refs: Seq<InputRefModel>,
    n: int,
    now: i64,
)
    requires
        0 <= n <= refs.len(),
        frozen_all(s, actor, session, repo, task, refs.take(n), now) is Err,
    ensures
        frozen_all(s, actor, session, repo, task, refs, now) == frozen_all(
            s,
            actor,
            session,
            repo,
            task,
            refs.take(n),
            now,
        ),
    decreases refs.len() - n,
{
    if n == refs.len() {
        assert(refs.take(n) =~= refs);
    } else {
        assert(refs.take(n + 1).drop_last() =~= refs.take(n));
        refusal_stays(s, actor, session, repo, task, refs, n + 1, now);
    }
}

/// Once one reference may not be shared, none of a longer list may.
proof fn unshareable_stays(
    s: StoreModel,
    session: Text,
    parent: TaskModel,
    refs: Seq<InputRefModel>,
    n: int,
)
    requires
        0 <= n <= refs.len(),
        shareable(s, session, parent, refs.take(n)) is Err,
    ensures
        shareable(s, session, parent, refs) == shareable(s, session, parent, refs.take(n)),
    decreases refs.len() - n,
{
    if n == refs.len() {
        assert(refs.take(n) =~= refs);
    } else {
        assert(refs.take(n + 1).drop_last() =~= refs.take(n));
        unshareable_stays(s, session, parent, refs, n + 1);
    }
}

/// Once one upload has changed, the list has.
proof fn change_stays(parent: TaskModel, refs: Seq<FrozenInputRefModel>, n: int)
    requires
        0 <= n <= refs.len(),
        unchanged(parent, refs.take(n)) is Err,
    ensures
        unchanged(parent, refs) == unchanged(parent, refs.take(n)),
    decreases refs.len() - n,
{
    if n == refs.len() {
        assert(refs.take(n) =~= refs);
    } else {
        assert(refs.take(n + 1).drop_last() =~= refs.take(n));
        change_stays(parent, refs, n + 1);
    }
}

/// Once one share is refused, the list is.
proof fn unfiled_stays(
    s: StoreModel,
    session: Text,
    parent: TaskModel,
    child_id: Text,
    fence: DelegationFenceModel,
    existing: Seq<InputShareModel>,
    refs: Seq<FrozenInputRefModel>,
    ids: Seq<Text>,
    now: i64,
    n: int,
)
    requires
        0 <= n <= refs.len(),
        shares_filed(s, session, parent, child_id, fence, existing, refs.take(n), ids, now) is Err,
    ensures
        shares_filed(s, session, parent, child_id, fence, existing, refs, ids, now)
            == shares_filed(
            s,
            session,
            parent,
            child_id,
            fence,
            existing,
            refs.take(n),
            ids,
            now,
        ),
    decreases refs.len() - n,
{
    if n == refs.len() {
        assert(refs.take(n) =~= refs);
    } else {
        assert(refs.take(n + 1).drop_last() =~= refs.take(n));
        unfiled_stays(s, session, parent, child_id, fence, existing, refs, ids, now, n + 1);
    }
}

/// Once one claim is refused, the list is.
proof fn unclaimed_stays(
    s: StoreModel,
    session: Text,
    task: Text,
    refs: Seq<FrozenInputRefModel>,
    n: int,
)
    requires
        0 <= n <= refs.len(),
        claimed(s, session, task, refs.take(n)) is Err,
    ensures
        claimed(s, session, task, refs) == claimed(s, session, task, refs.take(n)),
    decreases refs.len() - n,
{
    if n == refs.len() {
        assert(refs.take(n) =~= refs);
    } else {
        assert(refs.take(n + 1).drop_last() =~= refs.take(n));
        unclaimed_stays(s, session, task, refs, n + 1);
    }
}

/// Whether an upload is still what the parent's own reference says.
fn check_unchanged(parent: &Task, item: &FrozenInputRef) -> (res: WorkResult<()>)
    ensures
        res == still(parent.deep_view(), item.deep_view()),
{
    match find_reference(&parent.input_refs, item.input_id.as_str()) {
        None => refuse(FailureCode::ScopeMismatch),
        Some(source) => {
            if !item.sha256.same(&source.sha256) || item.size_bytes != source.size_bytes
                || !item.mime.same(&source.mime) || !item.name.same(&source.name) {
                return refuse(FailureCode::ArtifactChanged);
            }
            Ok(())
        },
    }
}

impl WorkStore {
    /// Whether a parent may share the upload that one reference names.
    fn check_shareable(&self, session: &str, parent: &Task, reference: &InputRef) -> (res:
        WorkResult<()>)
        ensures
            res == may_share(self@, session@, parent.deep_view(), reference.deep_view()),
    {
        match find_reference(&parent.input_refs, reference.input_id.as_str()) {
            None => refuse(FailureCode::ScopeMismatch),
            Some(source) => {
                if !use_allowed(source.use_, reference.use_) {
                    return refuse(FailureCode::ScopeMismatch);
                }
                match self.upload_row(session, reference.input_id.as_str()) {
                    None => refuse(FailureCode::StorageUnavailable),
                    Some(row) => {
                        if !is_text(&row.claimed_task, parent.id.as_str()) {
                            return refuse(FailureCode::ScopeMismatch);
                        }
                        Ok(())
                    },
                }
            },
        }
    }

    /// References to a parent's uploads as they are when a child is admitted.
    pub(crate) fn resolve_parent_shares(
        &self,
        actor: &str,
        session: &str,
        parent: &Task,
        refs: &[InputRef],
        now: i64,
    ) -> (res: WorkResult<Vec<FrozenInputRef>>)
        ensures
            shown(res) == parent_shares(
                self@,
                actor@,
                session@,
                parent.deep_view(),
                refs.deep_view(),
                now,
            ),
    {
        let ghost all = refs.deep_view();
        let mut i: usize = 0;
        while i < refs.len()
            invariant
                i <= refs.len(),
                all == refs.deep_view(),
                shareable(self@, session@, parent.deep_view(), all.take(i as int)) is Ok,
            decreases refs.len() - i,
        {
            assert(all.take(i + 1).drop_last() =~= all.take(i as int));
            assert(all.take(i + 1).last() == refs[i as int].deep_view());
            match self.check_shareable(session, parent, &refs[i]) {
                Ok(_) => {},
                Err(error) => {
                    proof {
                        unshareable_stays(self@, session@, parent.deep_view(), all, i + 1);
                    }
                    return Err(error);
                },
            }
            i += 1;
        }
        assert(all.take(i as int) =~= all);
        let kept = self.resolve(
            actor,
            session,
            parent.repo_path.as_str(),
            Some(parent.id.as_str()),
            refs,
            now,
        )?;
        let ghost items = kept.deep_view();
        let mut j: usize = 0;
        while j < kept.len()
            invariant
                j <= kept.len(),
                items == kept.deep_view(),
                shareable(self@, session@, parent.deep_view(), refs.deep_view()) is Ok,
                resolved(
                    self@,
                    actor@,
                    session@,
                    parent.deep_view().repo_path,
                    Some(parent.deep_view().id),
                    refs.deep_view(),
                    now,
                ) == Ok::<Seq<FrozenInputRefModel>, WorkError>(items),
                unchanged(parent.deep_view(), items.take(j as int)) is Ok,
            decreases kept.len() - j,
        {
            assert(items.take(j + 1).drop_last() =~= items.take(j as int));
            assert(items.take(j + 1).last() == kept[j as int].deep_view());
            match check_unchanged(parent, &kept[j]) {
                Ok(_) => {},
                Err(error) => {
                    proof {
                        change_stays(parent.deep_view(), items, j + 1);
                    }
                    return Err(error);
                },
            }
            j += 1;
        }
        assert(items.take(j as int) =~= items);
        Ok(kept)
    }

    /// Shares a parent's uploads with a child. On failure the caller discards the store.
    pub(crate) fn insert_shares(
        &mut self,
        session: &str,
        parent: &Task,
        child_id: &str,
        fence: &DelegationFence,
        refs: &Vec<FrozenInputRef>,
        ids: &Vec<String>,
        now: i64,
    ) -> (res: WorkResult<()>)
        requires
            ids.len() >= MAX_REFS,
        ensures
            match shared(
                old(self)@,
                session@,
                parent.deep_view(),
                child_id@,
                fence.deep_view(),
                refs.deep_view(),
                ids.deep_view(),
                now,
            ) {
                Ok(next) => res is Ok && final(self)@ == next,
                Err(error) => res == Err::<(), WorkError>(error),
            },
    {
        let existing = self.records::<InputShare>(session, child_id);
        if refs.len() > MAX_REFS {
            return refuse(FailureCode::InvalidInput);
        }
        if existing.len() > MAX_REFS || existing.len() + refs.len() > MAX_REFS {
            return refuse(FailureCode::ResourceLimit);
        }
        let ghost all = refs.deep_view();
        let ghost first = self@;
        let mut i: usize = 0;
        while i < refs.len()
            invariant
                i <= refs.len(),
                refs.len() <= MAX_REFS,
                ids.len() >= MAX_REFS,
                first == old(self)@,
                existing.deep_view() == listed::<InputShare>(first.records, session@, child_id@),
                existing.len() + refs.len() <= MAX_REFS,
                all == refs.deep_view(),
                shares_filed(
                    first,
                    session@,
                    parent.deep_view(),
                    child_id@,
                    fence.deep_view(),
                    existing.deep_view(),
                    all.take(i as int),
                    ids.deep_view(),
                    now,
                ) == Ok::<StoreModel, WorkError>(self@),
            decreases refs.len() - i,
        {
            assert(all.take(i + 1).drop_last() =~= all.take(i as int));
            proof {
                if shares_filed(
                    first,
                    session@,
                    parent.deep_view(),
                    child_id@,
                    fence.deep_view(),
                    existing.deep_view(),
                    all.take(i + 1),
                    ids.deep_view(),
                    now,
                ) is Err {
                    unfiled_stays(
                        first,
                        session@,
                        parent.deep_view(),
                        child_id@,
                        fence.deep_view(),
                        existing.deep_view(),
                        all,
                        ids.deep_view(),
                        now,
                        i + 1,
                    );
                }
            }
            let reference = &refs[i];
            let same = filter_shares(&existing, reference.input_id.as_str());
            if same.len() > 0 {
                return refuse(FailureCode::RequestKeyConflict);
            }
            let source = match find_reference(&parent.input_refs, reference.input_id.as_str()) {
                Some(source) => source,
                None => {
                    return refuse(FailureCode::ScopeMismatch);
                },
            };
            let id = ids[i].as_str();
            assert(ids.deep_view()[i as int] == id@);
            let share = InputShare {
                id: id.to_string(),
                source_task_id: parent.id.clone(),
                recipient_task_id: child_id.to_string(),
                input_id: reference.input_id.clone(),
                source_use: source.use_,
                permitted_use: reference.use_,
                sha256: reference.sha256.clone(),
                size_bytes: reference.size_bytes,
                name: reference.name.clone(),
                mime: reference.mime.clone(),
                coordinator_attempt_id: fence.coordinator_attempt_id.clone(),
                coordinator_epoch: fence.coordinator_epoch,
                created_at_ms: now,
            };
            self.put(session, id, child_id, Body::InputShare(share))?;
            i += 1;
        }
        assert(all.take(i as int) =~= all);
        Ok(())
    }

    /// Claims uploads for a task. On failure the caller discards the store.
    pub(crate) fn claim(&mut self, session: &str, task: &str, refs: &Vec<FrozenInputRef>) -> (res:
        WorkResult<()>)
        ensures
            match claimed(old(self)@, session@, task@, refs.deep_view()) {
                Ok(next) => res is Ok && final(self)@ == next,
                Err(error) => res == Err::<(), WorkError>(error),
            },
    {
        let ghost all = refs.deep_view();
        let ghost first = self@;
        let mut i: usize = 0;
        while i < refs.len()
            invariant
                i <= refs.len(),
                first == old(self)@,
                all == refs.deep_view(),
                claimed(first, session@, task@, all.take(i as int)) == Ok::<StoreModel, WorkError>(
                    self@,
                ),
            decreases refs.len() - i,
        {
            assert(all.take(i + 1).drop_last() =~= all.take(i as int));
            proof {
                if claimed(first, session@, task@, all.take(i + 1)) is Err {
                    unclaimed_stays(first, session@, task@, all, i + 1);
                }
            }
            let reference = &refs[i];
            let at = match self.find_input(reference.input_id.as_str()) {
                Some(at) => at,
                None => {
                    return refuse(FailureCode::StorageUnavailable);
                },
            };
            if !text_eq(self.inputs[at].session.as_str(), session) {
                return refuse(FailureCode::StorageUnavailable);
            }
            if self.inputs[at].claimed_task.is_none() || is_text(
                &self.inputs[at].claimed_task,
                task,
            ) {
                let mut row = self.inputs[at].replica();
                row.claimed_task = Some(task.to_string());
                set_row(&mut self.inputs, at, row);
            } else {
                self.validate_share(session, task, &self.inputs[at].body, reference.use_)?;
            }
            i += 1;
        }
        assert(all.take(i as int) =~= all);
        Ok(())
    }
}

/// An upload that was claimed does not expire.
pub proof fn claimed_inputs_do_not_expire(
    s: StoreModel,
    actor: Text,
    session: Text,
    repo: Text,
    task: Option<Text>,
    reference: InputRefModel,
    now: i64,
    other_now: i64,
)
    requires
        uploaded(s, session, reference.input_id) matches Some(row) && row.claimed_task is Some,
    ensures
        frozen(s, actor, session, repo, task, reference, now) == frozen(
            s,
            actor,
            session,
            repo,
            task,
            reference,
            other_now,
        ),
{
}

/// A parent shares no more than it may itself do with an upload.
pub proof fn shares_never_widen(
    s: StoreModel,
    session: Text,
    parent: TaskModel,
    refs: Seq<InputRefModel>,
    i: int,
)
    requires
        shareable(s, session, parent, refs) is Ok,
        0 <= i < refs.len(),
    ensures
        reference_to(parent.input_refs, refs[i].input_id) matches Some(source) && covers(
            source.use_,
            refs[i].use_,
        ),
        uploaded(s, session, refs[i].input_id) matches Some(row) && row.claimed_task == Some(
            parent.id,
        ),
    decreases refs.len(),
{
    if i < refs.len() - 1 {
        assert(refs.drop_last()[i] == refs[i]);
        shares_never_widen(s, session, parent, refs.drop_last(), i);
    }
}

} // verus!
