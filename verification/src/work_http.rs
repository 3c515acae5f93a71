//! The rules at the boundary of the service: what a request must look like before the store is
//! asked, and what a refusal is answered.
use vstd::prelude::*;
use crate::digest::is_uuid;
use crate::json::ToJson;
use crate::text::byte_len;
use crate::text::bytes_in;
use crate::text::has_nul;
use crate::text::text_eq;
use crate::value::Replica;
use crate::value::Text;
use crate::value::shown;
use crate::work::model::ArtifactRef;
use crate::work::model::ArtifactRefModel;
use crate::work::model::ChangePage;
use crate::work::model::CreateTask;
use crate::work::model::CreateTaskModel;
use crate::work::model::FailureCode;
use crate::work::model::FrozenInputRef;
use crate::work::model::FrozenInputRefModel;
use crate::work::model::InputRef;
use crate::work::model::InputRefModel;
use crate::work::model::Mutation;
use crate::work::model::MutationModel;
use crate::work::model::Operation;
use crate::work::model::PauseInput;
use crate::work::model::ResultSubmission;
use crate::work::model::ResultSubmissionModel;
use crate::work::model::Review;
use crate::work::model::ReviewInput;
use crate::work::model::ReviewModel;
use crate::work::model::Task;
use crate::work::model::TaskModel;
use crate::work::model::TaskSummaryPage;
use crate::work::model::WorkError;
use crate::work::model::WorkResult;
use crate::work::store::changes::change_page;
use crate::work::store::growth::listed_is_recorded;
use crate::work::store::growth::recorded_is_listed;
use crate::work::store::history::filed_as_said;
use crate::work::store::history::well_formed;
use crate::work::store::inputs::valid_refs;
use crate::work::store::pagination::PagedDetail;
use crate::work::store::pagination::RecordPage;
use crate::work::store::pagination::ShownRecord;
use crate::work::store::pagination::ShownRecordModel;
use crate::work::store::pagination::immutable_record_of;
use crate::work::store::pagination::paged_detail_of;
use crate::work::store::pagination::records_paged;
use crate::work::store::pagination::tasks_listed;
use crate::work::store::readings::details_are_whole;
use crate::work::store::readings::reads_give_what_is_recorded;
use crate::work::store::records::loaded;
use crate::work::store::records::refuse;
use crate::work::store::records::refused;
use crate::work::store::requests::replayed;
use crate::work::store::results::review_outcome;
use crate::work::store::tables::BodyModel;
use crate::work::store::tables::StoreModel;
use crate::work::store::tables::WorkStore;
use crate::work::store::task_list::summary_page;
use crate::work::store::tasks::create_request;
use crate::work::store::tasks::detail_of;
use crate::work::store::tasks::pause_outcome;
use crate::work::store::transaction::commits;
use crate::work::store::transaction::repeated;
use crate::work::store::uploads::inputs_resolved;
use crate::work_authority::Registry;
use crate::work_authority::Scope;
use crate::work_authority::files_of;
use crate::work_authority::without;
use crate::work_execution::delivery::attempt_in;
use crate::work_execution::delivery::find_attempt;

verus! {

/// The most bytes of an identifier in a path or a query.
pub const MAX_ID_BYTES: usize = 256;

/// The most items of a page.
pub const MAX_PAGE: u32 = 100;

/// The items of a page where a caller does not say.
pub const DEFAULT_PAGE: u32 = 50;

/// The rows and records of a page where a caller does not say.
pub const DEFAULT_ROWS: u32 = 20;

/// A page of tasks.
#[derive(Debug, PartialEq, Eq)]
pub struct TaskPage {
    pub tasks: Vec<Task>,
    pub next_after_id: Option<String>,
}

/// The value of a `TaskPage`.
#[verifier::ext_equal]
pub struct TaskPageModel {
    pub tasks: Seq<TaskModel>,
    pub next_after_id: Option<Text>,
}

impl DeepView for TaskPage {
    type V = TaskPageModel;

    open spec fn deep_view(&self) -> TaskPageModel {
        TaskPageModel {
            tasks: self.tasks.deep_view(),
            next_after_id: self.next_after_id.deep_view(),
        }
    }
}

/// A request for a task.
#[derive(Debug, PartialEq, Eq)]
pub struct CreateRequest {
    pub request_key: String,
    pub input_refs: Vec<InputRef>,
    pub input: CreateTask,
}

/// The value of a `CreateRequest`.
#[verifier::ext_equal]
pub struct CreateRequestModel {
    pub request_key: Text,
    pub input_refs: Seq<InputRefModel>,
    pub input: CreateTaskModel,
}

impl DeepView for CreateRequest {
    type V = CreateRequestModel;

    open spec fn deep_view(&self) -> CreateRequestModel {
        CreateRequestModel {
            request_key: self.request_key.deep_view(),
            input_refs: self.input_refs.deep_view(),
            input: self.input.deep_view(),
        }
    }
}

/// How far a request for a task has come before anything is written.
#[derive(Debug)]
pub enum CreatePlan {
    /// It was carried out before.
    Replayed(Mutation<Task>),
    /// The task's prompt is to be rendered with these inputs first.
    Render { input: CreateTask, inputs: Vec<FrozenInputRef> },
}

/// The value of a `CreatePlan`.
#[verifier::ext_equal]
pub enum CreatePlanModel {
    Replayed(MutationModel<TaskModel>),
    Render { input: CreateTaskModel, inputs: Seq<FrozenInputRefModel> },
}

impl DeepView for CreatePlan {
    type V = CreatePlanModel;

    open spec fn deep_view(&self) -> CreatePlanModel {
        match self {
            CreatePlan::Replayed(value) => CreatePlanModel::Replayed(value.deep_view()),
            CreatePlan::Render { input, inputs } => CreatePlanModel::Render {
                input: input.deep_view(),
                inputs: inputs.deep_view(),
            },
        }
    }
}

/// The status that a refusal is answered with.
pub open spec fn status_of(code: FailureCode) -> u16 {
    match code {
        FailureCode::InvalidInput => 400,
        FailureCode::NotFound => 404,
        FailureCode::ScopeMismatch => 403,
        FailureCode::StorageUnavailable => 503,
        FailureCode::CapabilityUnavailable => 501,
        FailureCode::ResourceLimit => 429,
        _ => 409,
    }
}

/// The word that a refusal is answered with.
pub open spec fn word_of(code: FailureCode) -> Text {
    match code {
        FailureCode::InvalidInput => "invalid_input"@,
        FailureCode::NotFound => "not_found"@,
        FailureCode::ScopeMismatch => "scope_mismatch"@,
        FailureCode::RevisionConflict => "revision_conflict"@,
        FailureCode::RequestKeyConflict => "request_key_conflict"@,
        FailureCode::CapabilityUnavailable => "capability_unavailable"@,
        FailureCode::InstanceChanged => "instance_changed"@,
        FailureCode::NotReady => "not_ready"@,
        FailureCode::ApprovalRequired => "approval_required"@,
        FailureCode::DeliveryUnconfirmed => "delivery_unconfirmed"@,
        FailureCode::ArtifactChanged => "artifact_changed"@,
        FailureCode::ArtifactMissing => "artifact_missing"@,
        FailureCode::InputExpired => "input_expired"@,
        FailureCode::ResourceLimit => "resource_limit"@,
        FailureCode::StorageUnavailable => "storage_unavailable"@,
    }
}

/// The status and the word that a refusal is answered with. Nothing else of it crosses the
/// boundary.
pub fn work_error(error: WorkError) -> (res: (u16, &'static str))
    ensures
        res.0 == status_of(error.0),
        res.1@ == word_of(error.0),
{
    match error.0 {
        FailureCode::InvalidInput => (400, "invalid_input"),
        FailureCode::NotFound => (404, "not_found"),
        FailureCode::ScopeMismatch => (403, "scope_mismatch"),
        FailureCode::RevisionConflict => (409, "revision_conflict"),
        FailureCode::RequestKeyConflict => (409, "request_key_conflict"),
        FailureCode::CapabilityUnavailable => (501, "capability_unavailable"),
        FailureCode::InstanceChanged => (409, "instance_changed"),
        FailureCode::NotReady => (409, "not_ready"),
        FailureCode::ApprovalRequired => (409, "approval_required"),
        FailureCode::DeliveryUnconfirmed => (409, "delivery_unconfirmed"),
        FailureCode::ArtifactChanged => (409, "artifact_changed"),
        FailureCode::ArtifactMissing => (409, "artifact_missing"),
        FailureCode::InputExpired => (409, "input_expired"),
        FailureCode::ResourceLimit => (429, "resource_limit"),
        FailureCode::StorageUnavailable => (503, "storage_unavailable"),
    }
}

/// An identifier that may be looked up.
pub open spec fn is_id(id: Text) -> bool {
    id.len() > 0 && byte_len(id) <= MAX_ID_BYTES && !id.contains('\0')
}

/// Whether an identifier may be looked up.
pub fn validate_id(id: &str) -> (res: WorkResult<()>)
    ensures
        res == (if is_id(id@) {
            Ok(())
        } else {
            refused(FailureCode::InvalidInput)
        }),
{
    if id.is_empty() || bytes_in(id) > MAX_ID_BYTES || has_nul(id) {
        return refuse(FailureCode::InvalidInput);
    }
    Ok(())
}

/// The items of a page.
pub open spec fn page_size(limit: Option<u32>) -> WorkResult<u32> {
    let size = match limit {
        Some(size) => size,
        None => DEFAULT_PAGE,
    };
    if 1 <= size <= MAX_PAGE {
        Ok(size)
    } else {
        refused(FailureCode::InvalidInput)
    }
}

/// The items of a page.
pub fn page_limit(limit: Option<u32>) -> (res: WorkResult<u32>)
    ensures
        res == page_size(limit),
{
    let size: u32 = match limit {
        Some(size) => size,
        None => DEFAULT_PAGE,
    };
    if size < 1 || size > MAX_PAGE {
        return refuse(FailureCode::InvalidInput);
    }
    Ok(size)
}

/// A moment in milliseconds, as records keep it.
pub fn timestamp(unix_ms: u128) -> (res: i64)
    ensures
        res == (if unix_ms > i64::MAX {
            i64::MAX as int
        } else {
            unix_ms as int
        }),
{
    if unix_ms > 9_223_372_036_854_775_807 {
        i64::MAX
    } else {
        unix_ms as i64
    }
}

/// A page of tasks. A full page may be followed by another; the last one ends the walk.
pub open spec fn tasks_told(
    s: StoreModel,
    session: Text,
    after: Option<Text>,
    limit: Option<u32>,
) -> WorkResult<
    TaskPageModel,
> {
    match page_size(limit) {
        Err(error) => Err(error),
        Ok(size) => if after is Some && !is_id(after->0) {
            refused(FailureCode::InvalidInput)
        } else {
            match tasks_listed(s, session, after, size) {
                Err(error) => Err(error),
                Ok(tasks) => Ok(
                    TaskPageModel {
                        tasks,
                        next_after_id: if tasks.len() == size {
                            Some(tasks.last().id)
                        } else {
                            None
                        },
                    },
                ),
            }
        },
    }
}

/// A page of tasks.
pub fn list_tasks(
    store: &WorkStore,
    session: &str,
    after: Option<&str>,
    limit: Option<u32>,
) -> (res:
    WorkResult<TaskPage>)
    ensures
        shown(res) == tasks_told(store@, session@, after.deep_view(), limit),
{
    let size = page_limit(limit)?;
    if let Some(id) = after {
        validate_id(id)?;
    }
    let tasks = store.list_tasks(session, after, size)?;
    let next_after_id = if tasks.len() == size as usize {
        assert(tasks.deep_view().last() == tasks[tasks.len() - 1].deep_view());
        Some(tasks[tasks.len() - 1].id.replica())
    } else {
        None
    };
    Ok(TaskPage { tasks, next_after_id })
}

/// A page of the task list.
pub fn task_summaries(
    store: &WorkStore,
    session: &str,
    limit: Option<u32>,
    after: Option<&str>,
    snapshot_cursor: Option<u64>,
) -> (res: WorkResult<TaskSummaryPage>)
    ensures
        shown(res) == summary_page(
            store@,
            session@,
            match limit {
                Some(size) => size,
                None => DEFAULT_ROWS,
            },
            after.deep_view(),
            snapshot_cursor,
        ),
{
    let size: u32 = match limit {
        Some(size) => size,
        None => DEFAULT_ROWS,
    };
    store.task_summaries(session, size, after, snapshot_cursor)
}

/// A task with the first page of each kind of record.
pub fn task_detail(store: &WorkStore, session: &str, id: &str) -> (res: WorkResult<PagedDetail>)
    ensures
        shown(res) == (if is_id(id@) {
            paged_detail_of(store@, session@, id@)
        } else {
            refused(FailureCode::InvalidInput)
        }),
{
    validate_id(id)?;
    store.paged_detail(session, id)
}

/// A page of a task's records.
pub fn task_records(
    store: &WorkStore,
    session: &str,
    id: &str,
    kind: &str,
    snapshot_revision: u64,
    after: Option<&str>,
    limit: Option<u32>,
) -> (res: WorkResult<RecordPage>)
    ensures
        shown(res) == (if is_id(id@) {
            records_paged(
                store@,
                session@,
                id@,
                kind@,
                snapshot_revision,
                after.deep_view(),
                match limit {
                    Some(size) => size,
                    None => DEFAULT_ROWS,
                },
            )
        } else {
            refused(FailureCode::InvalidInput)
        }),
{
    validate_id(id)?;
    let size: u32 = match limit {
        Some(size) => size,
        None => DEFAULT_ROWS,
    };
    store.task_records(session, id, kind, snapshot_revision, after, size)
}

/// One record that never changes.
pub open spec fn record_told(
    s: StoreModel,
    session: Text,
    task: Text,
    record: Text,
    kind: Text,
) -> WorkResult<ShownRecordModel> {
    if is_id(task) && is_id(record) {
        immutable_record_of(s, session, task, kind, record)
    } else {
        refused(FailureCode::InvalidInput)
    }
}

fn immutable_record(store: &WorkStore, session: &str, task: &str, record: &str, kind: &str) -> (res:
    WorkResult<ShownRecord>)
    ensures
        shown(res) == record_told(store@, session@, task@, record@, kind@),
{
    validate_id(task)?;
    validate_id(record)?;
    store.immutable_record(session, task, kind, record)
}

/// A result.
pub fn get_result(store: &WorkStore, session: &str, task: &str, record: &str) -> (res: WorkResult<
    ShownRecord,
>)
    ensures
        shown(res) == record_told(store@, session@, task@, record@, "result"@),
{
    immutable_record(store, session, task, record, "result")
}

/// A review.
pub fn get_review(store: &WorkStore, session: &str, task: &str, record: &str) -> (res: WorkResult<
    ShownRecord,
>)
    ensures
        shown(res) == record_told(store@, session@, task@, record@, "review"@),
{
    immutable_record(store, session, task, record, "review")
}

/// An operation.
pub fn get_operation(store: &WorkStore, session: &str, id: &str) -> (res: WorkResult<Operation>)
    ensures
        shown(res) == (if is_id(id@) {
            loaded::<Operation>(store@, session@, id@)
        } else {
            refused(FailureCode::InvalidInput)
        }),
{
    validate_id(id)?;
    store.get_operation(session, id)
}

/// A stretch of the change stream.
pub fn changes(
    store: &WorkStore,
    session: &str,
    after_cursor: Option<u64>,
    limit: Option<u32>,
) -> (res:
    WorkResult<ChangePage>)
    ensures
        shown(res) == (match page_size(limit) {
            Err(error) => Err(error),
            Ok(size) => change_page(
                store@,
                session@,
                match after_cursor {
                    Some(cursor) => cursor,
                    None => 0,
                },
                size,
            ),
        }),
{
    let size = page_limit(limit)?;
    let cursor: u64 = match after_cursor {
        Some(cursor) => cursor,
        None => 0,
    };
    store.changes(session, cursor, size)
}

/// Pauses a task or lets it go on.
pub fn set_paused(
    store: &mut WorkStore,
    actor: &str,
    session: &str,
    id: &str,
    key: &str,
    expected_revision: u64,
    input: PauseInput,
    now: i64,
) -> (res: WorkResult<Mutation<Task>>)
    ensures
        !is_id(id@) ==> final(store)@ == old(store)@ && shown(res) == refused::<
            MutationModel<TaskModel>,
        >(FailureCode::InvalidInput),
        is_id(id@) ==> exists|fresh: Text|
            is_uuid(fresh) && commits(
                old(store)@,
                final(store)@,
                #[trigger] pause_outcome(
                    old(store)@,
                    fresh,
                    actor@,
                    session@,
                    id@,
                    key@,
                    expected_revision,
                    input.deep_view(),
                    now,
                ),
                shown(res),
            ),
{
    validate_id(id)?;
    store.set_paused(actor, session, id, key, expected_revision, input, now)
}

/// Records a verdict.
pub fn review_result(
    store: &mut WorkStore,
    actor: &str,
    session: &str,
    id: &str,
    key: &str,
    expected_revision: u64,
    input: ReviewInput,
    now: i64,
) -> (res: WorkResult<Mutation<Review>>)
    ensures
        !is_id(id@) ==> final(store)@ == old(store)@ && shown(res) == refused::<
            MutationModel<ReviewModel>,
        >(FailureCode::InvalidInput),
        is_id(id@) ==> exists|fresh: Text|
            is_uuid(fresh) && commits(
                old(store)@,
                final(store)@,
                #[trigger] review_outcome(
                    old(store)@,
                    fresh,
                    actor@,
                    session@,
                    id@,
                    key@,
                    expected_revision,
                    input.deep_view(),
                    now,
                ),
                shown(res),
            ),
{
    validate_id(id)?;
    store.review_result(actor, session, id, key, expected_revision, input, now)
}

/// Where the submission with an identifier stands.
pub open spec fn submission_in(results: Seq<ResultSubmissionModel>, id: Text) -> Option<int>
    decreases results.len(),
{
    if results.len() == 0 {
        None
    } else {
        match submission_in(results.drop_last(), id) {
            Some(i) => Some(i),
            None => if results.last().id == id {
                Some(results.len() - 1)
            } else {
                None
            },
        }
    }
}

/// An artifact that a recorded result names: a caller gives its place in the result, never a path.
pub open spec fn artifact_told(
    s: StoreModel,
    session: Text,
    task: Text,
    submission: Text,
    index: usize,
) -> WorkResult<ArtifactRefModel> {
    if !is_id(task) || !is_id(submission) {
        refused(FailureCode::InvalidInput)
    } else {
        match detail_of(s, session, task) {
            Err(error) => Err(error),
            Ok(detail) => match submission_in(detail.results, submission) {
                None => refused(FailureCode::NotFound),
                Some(i) => if index < detail.results[i].result.artifacts.len() {
                    Ok(detail.results[i].result.artifacts[index as int])
                } else {
                    refused(FailureCode::NotFound)
                },
            },
        }
    }
}

/// An artifact that a recorded result names.
pub fn artifact_content(
    store: &WorkStore,
    session: &str,
    task: &str,
    submission: &str,
    index: usize,
) -> (res: WorkResult<ArtifactRef>)
    ensures
        shown(res) == artifact_told(store@, session@, task@, submission@, index),
        well_formed(store@) ==> (shown(res) matches Ok(artifact) ==> (loaded::<ResultSubmission>(
            store@,
            session@,
            submission@,
        ) matches Ok(r) && r.task_id == task@ && index < r.result.artifacts.len() && artifact
            == r.result.artifacts[index as int])),
{
    proof {
        if well_formed(store@) {
            artifacts_are_told_as_submitted(store@, session@, task@, submission@, index);
        }
    }
    validate_id(task)?;
    validate_id(submission)?;
    let detail = store.detail(session, task)?;
    let ghost all = detail.results.deep_view();
    let mut found: Option<usize> = None;
    let mut i: usize = 0;
    while i < detail.results.len()
        invariant
            i <= detail.results.len(),
            all == detail.results.deep_view(),
            match submission_in(all.take(i as int), submission@) {
                Some(k) => found is Some && found->0 == k && found->0 < i,
                None => found is None,
            },
        decreases detail.results.len() - i,
    {
        proof {
            assert(all.take(i as int + 1).drop_last() =~= all.take(i as int));
            assert(all.take(i as int + 1).last() == detail.results[i as int].deep_view());
        }
        if found.is_none() && text_eq(detail.results[i].id.as_str(), submission) {
            found = Some(i);
        }
        i += 1;
    }
    assert(all.take(all.len() as int) =~= all);
    match found {
        None => refuse(FailureCode::NotFound),
        Some(k) => {
            let artifacts = &detail.results[k].result.artifacts;
            assert(all[k as int] == detail.results[k as int].deep_view());
            if index < artifacts.len() {
                assert(artifacts.deep_view()[index as int] == artifacts[index as int].deep_view());
                Ok(artifacts[index].replica())
            } else {
                refuse(FailureCode::NotFound)
            }
        },
    }
}

/// Takes the local authority of an attempt away. The attempt has to be one of the task.
pub fn revoke_local_authority(store: &WorkStore, registry: &mut Registry, scope: &Scope) -> (res:
    WorkResult<(bool, Vec<String>)>)
    ensures
        match detail_of(store@, scope.session_id@, scope.task_id@) {
            Err(error) => res == Err::<(bool, Vec<String>), WorkError>(error) && final(registry)@
                == old(registry)@,
            Ok(detail) => if attempt_in(detail.attempts, scope.attempt_id@) is None {
                res == refused::<(bool, Vec<String>)>(FailureCode::ScopeMismatch)
                    && final(registry)@ == old(registry)@
            } else {
                res is Ok && final(registry)@ == without(old(registry)@, scope.deep_view())
                    && res->Ok_0.1.deep_view() == files_of(old(registry)@, scope.deep_view())
                    && res->Ok_0.0 == (res->Ok_0.1.len() > 0)
            },
        },
{
    let detail = store.detail(scope.session_id.as_str(), scope.task_id.as_str())?;
    if find_attempt(&detail.attempts, scope.attempt_id.as_str()).is_none() {
        return refuse(FailureCode::ScopeMismatch);
    }
    Ok(registry.revoke(scope))
}

/// The task that is asked for, in the repository that the service resolved.
pub open spec fn task_in(input: CreateTaskModel, repo_path: Text) -> CreateTaskModel {
    CreateTaskModel { repo_path, ..input }
}

/// How far a request for a task comes before anything is written. Its agents have to be known and
/// its repository one that the service serves.
pub open spec fn create_planned(
    s: StoreModel,
    actor: Text,
    session: Text,
    request: CreateRequestModel,
    agents_known: bool,
    repo: Option<Text>,
    now: i64,
) -> WorkResult<CreatePlanModel> {
    if !agents_known {
        refused(FailureCode::InvalidInput)
    } else {
        match repo {
            None => refused(FailureCode::ScopeMismatch),
            Some(path) => {
                let input = task_in(request.input, path);
                if !valid_refs(request.input_refs) {
                    refused(FailureCode::InvalidInput)
                } else {
                    match repeated(
                        replayed::<Task>(
                            s,
                            create_request(
                                actor,
                                session,
                                request.request_key,
                                input,
                                request.input_refs,
                                None,
                            ),
                        ),
                    ) {
                        Err(error) => Err(error),
                        Ok(Some(found)) => Ok(CreatePlanModel::Replayed(found)),
                        Ok(None) => match inputs_resolved(
                            s,
                            actor,
                            session,
                            path,
                            None,
                            request.input_refs,
                            now,
                        ) {
                            Err(error) => Err(error),
                            Ok(inputs) => Ok(CreatePlanModel::Render { input, inputs }),
                        },
                    }
                }
            },
        }
    }
}

/// How far a request for a task comes before anything is written. Where its prompt can be rendered
/// the task is then created from the input that this gives.
pub fn plan_create(
    store: &WorkStore,
    actor: &str,
    session: &str,
    request: &CreateRequest,
    agents_known: bool,
    repo: Option<&str>,
    now: i64,
) -> (res: WorkResult<CreatePlan>)
    ensures
        shown(res) == create_planned(
            store@,
            actor@,
            session@,
            request.deep_view(),
            agents_known,
            repo.deep_view(),
            now,
        ),
{
    if !agents_known {
        return refuse(FailureCode::InvalidInput);
    }
    let path = match repo {
        Some(path) => path,
        None => {
            return refuse(FailureCode::ScopeMismatch);
        },
    };
    let mut input = request.input.replica();
    input.repo_path = path.to_string();
    let found = store.replay_create_with_inputs(
        actor,
        session,
        request.request_key.as_str(),
        &input,
        request.input_refs.as_slice(),
    )?;
    if let Some(found) = found {
        return Ok(CreatePlan::Replayed(found));
    }
    let inputs = store.resolve_inputs(
        actor,
        session,
        path,
        None,
        request.input_refs.as_slice(),
        now,
    )?;
    Ok(CreatePlan::Render { input, inputs })
}

/// Whether a start may be asked for: its agent is known, its branch has a valid name, and the
/// task's repository is still one that the service serves under that very path.
pub fn admit_start(
    agent_known: bool,
    branch_valid: bool,
    repo: &str,
    resolved: Option<&str>,
) -> (res:
    WorkResult<()>)
    ensures
        res == (if !agent_known || !branch_valid {
            refused(FailureCode::InvalidInput)
        } else if resolved.deep_view() != Some(repo@) {
            refused(FailureCode::ScopeMismatch)
        } else {
            Ok(())
        }),
{
    if !agent_known || !branch_valid {
        return refuse(FailureCode::InvalidInput);
    }
    let same = match resolved {
        Some(path) => text_eq(path, repo),
        None => false,
    };
    if !same {
        return refuse(FailureCode::ScopeMismatch);
    }
    Ok(())
}

/// Every refusal is answered with an error status, and only what the caller cannot help is answered
/// as the service's fault.
pub proof fn refusals_have_error_statuses(code: FailureCode)
    ensures
        400 <= status_of(code) < 600,
        status_of(code) >= 500 <==> code == FailureCode::StorageUnavailable || code
            == FailureCode::CapabilityUnavailable,
{
}

proof fn submissions_are_told_apart(results: Seq<ResultSubmissionModel>, id: Text)
    ensures
        submission_in(results, id) matches Some(i) ==> 0 <= i < results.len() && results[i].id == id,
        submission_in(results, id) is None ==> forall|i: int|
            0 <= i < results.len() ==> (#[trigger] results[i]).id != id,
    decreases results.len(),
{
    if results.len() > 0 {
        let rest = results.drop_last();
        submissions_are_told_apart(rest, id);
        if submission_in(results, id) is None {
            assert forall|i: int| 0 <= i < results.len() implies (#[trigger] results[i]).id != id by {
                if i < rest.len() {
                    assert(rest[i] == results[i]);
                }
            }
        }
    }
}

/// The artifact that is told at a place of a recorded submission is the one that was submitted
/// there, at every place that the submission has. Every other place, submission and task is not
/// found, and only an empty, too long or broken identifier is an invalid input.
pub proof fn artifacts_are_told_as_submitted(
    s: StoreModel,
    session: Text,
    task: Text,
    submission: Text,
    index: usize,
)
    requires
        well_formed(s),
    ensures
        ({
            let told = artifact_told(s, session, task, submission, index);
            let broken = {
                ||| task.len() == 0 || byte_len(task) > 256 || task.contains('\0')
                ||| submission.len() == 0 || byte_len(submission) > 256 || submission.contains('\0')
            };
            let known = loaded::<ResultSubmission>(s, session, submission);
            &&& forall|i: int|
                0 <= i < s.records.len() && (#[trigger] s.records[i]).session == session
                    && s.records[i].task_id == task && s.records[i].id == submission && !broken
                    && loaded::<Task>(s, session, task) is Ok ==> (s.records[i].body matches
                    BodyModel::Result(r) ==> index < r.result.artifacts.len() ==> told == Ok::<
                    ArtifactRefModel,
                    WorkError,
                >(r.result.artifacts[index as int]))
            &&& told matches Ok(artifact) ==> !broken && (known matches Ok(r) && r.task_id == task
                && index < r.result.artifacts.len() && artifact
                == r.result.artifacts[index as int])
            &&& told matches Err(error) ==> error.0 == (if broken {
                FailureCode::InvalidInput
            } else {
                FailureCode::NotFound
            })
        }),
{
    let told = artifact_told(s, session, task, submission, index);
    if is_id(task) && is_id(submission) {
        details_are_whole(s, session, task);
        if let Ok(detail) = detail_of(s, session, task) {
            submissions_are_told_apart(detail.results, submission);
            if let Some(k) = submission_in(detail.results, submission) {
                let found = detail.results[k];
                assert(detail.results.contains(found));
                let at = listed_is_recorded::<ResultSubmission>(
                    s.records,
                    session,
                    task,
                    found,
                );
                assert(filed_as_said(s.records[at]));
                reads_give_what_is_recorded(s, session, submission);
            }
            assert forall|i: int|
                0 <= i < s.records.len() && (#[trigger] s.records[i]).session == session
                    && s.records[i].task_id == task && s.records[i].id == submission
                    && s.records[i].body is Result implies submission_in(
                detail.results,
                submission,
            ) is Some && loaded::<ResultSubmission>(s, session, submission) == Ok::<
                ResultSubmissionModel,
                WorkError,
            >(s.records[i].body->Result_0) by {
                let r = s.records[i].body->Result_0;
                assert(filed_as_said(s.records[i]));
                recorded_is_listed::<ResultSubmission>(s.records, session, task, i, r);
                reads_give_what_is_recorded(s, session, submission);
            }
        }
    }
}

/// The status of a refusal says who is at fault: 400 for a bad request, 403 for the wrong scope,
/// 404 for what is not there, 429, 501 and 503 for what cannot be done now, here or at all, and
/// 409 for everything that another request got in the way of.
pub proof fn statuses_are_told_apart(code: FailureCode)
    ensures
        status_of(code) == 400 <==> code == FailureCode::InvalidInput,
        status_of(code) == 403 <==> code == FailureCode::ScopeMismatch,
        status_of(code) == 404 <==> code == FailureCode::NotFound,
        status_of(code) == 429 <==> code == FailureCode::ResourceLimit,
        status_of(code) == 501 <==> code == FailureCode::CapabilityUnavailable,
        status_of(code) == 503 <==> code == FailureCode::StorageUnavailable,
        status_of(code) == 400 || status_of(code) == 403 || status_of(code) == 404 || status_of(
            code,
        ) == 409 || status_of(code) == 429 || status_of(code) == 501 || status_of(code) == 503,
{
}

/// A page has the asked number of items, from 1 to 100, and 50 where none is asked for.
pub proof fn pages_have_a_size(limit: Option<u32>)
    ensures
        page_size(limit) matches Ok(size) ==> 1 <= size <= 100 && size == (match limit {
            Some(asked) => asked,
            None => 50,
        }),
        page_size(limit) matches Err(error) ==> error.0 == FailureCode::InvalidInput && (limit
            matches Some(asked) && (asked == 0 || asked > 100)),
{
}

/// A refusal is told by the word that its code is written with everywhere else, without the quotes.
pub proof fn refusals_are_told_as_written(code: FailureCode)
    ensures
        FailureCode::json(code) == seq!['"'] + word_of(code) + seq!['"'],
{
    match code {
        FailureCode::InvalidInput => {
            reveal_strlit("invalid_input");
            reveal_strlit("\"invalid_input\"");
        },
        FailureCode::NotFound => {
            reveal_strlit("not_found");
            reveal_strlit("\"not_found\"");
        },
        FailureCode::ScopeMismatch => {
            reveal_strlit("scope_mismatch");
            reveal_strlit("\"scope_mismatch\"");
        },
        FailureCode::RevisionConflict => {
            reveal_strlit("revision_conflict");
            reveal_strlit("\"revision_conflict\"");
        },
        FailureCode::RequestKeyConflict => {
            reveal_strlit("request_key_conflict");
            reveal_strlit("\"request_key_conflict\"");
        },
        FailureCode::CapabilityUnavailable => {
            reveal_strlit("capability_unavailable");
            reveal_strlit("\"capability_unavailable\"");
        },
        FailureCode::InstanceChanged => {
            reveal_strlit("instance_changed");
            reveal_strlit("\"instance_changed\"");
        },
        FailureCode::NotReady => {
            reveal_strlit("not_ready");
            reveal_strlit("\"not_ready\"");
        },
        FailureCode::ApprovalRequired => {
            reveal_strlit("approval_required");
            reveal_strlit("\"approval_required\"");
        },
        FailureCode::DeliveryUnconfirmed => {
            reveal_strlit("delivery_unconfirmed");
            reveal_strlit("\"delivery_unconfirmed\"");
        },
        FailureCode::ArtifactChanged => {
            reveal_strlit("artifact_changed");
            reveal_strlit("\"artifact_changed\"");
        },
        FailureCode::ArtifactMissing => {
            reveal_strlit("artifact_missing");
            reveal_strlit("\"artifact_missing\"");
        },
        FailureCode::InputExpired => {
            reveal_strlit("input_expired");
            reveal_strlit("\"input_expired\"");
        },
        FailureCode::ResourceLimit => {
            reveal_strlit("resource_limit");
            reveal_strlit("\"resource_limit\"");
        },
        FailureCode::StorageUnavailable => {
            reveal_strlit("storage_unavailable");
            reveal_strlit("\"storage_unavailable\"");
        },
    }
    assert(FailureCode::json(code) =~= seq!['"'] + word_of(code) + seq!['"']);
}

/// A page of tasks is the list that was asked for, 50 tasks where no number is named. It leads on
/// to its last task exactly where it is full.
pub proof fn task_pages_lead_on(
    s: StoreModel,
    session: Text,
    after: Option<Text>,
    limit: Option<u32>,
)
    ensures
        ({
            let size: u32 = match limit {
                Some(asked) => asked,
                None => 50,
            };
            let broken = after matches Some(id) && (id.len() == 0 || byte_len(id) > 256
                || id.contains('\0'));
            match tasks_told(s, session, after, limit) {
                Ok(page) => 1 <= size <= 100 && !broken && tasks_listed(s, session, after, size)
                    == Ok::<Seq<TaskModel>, WorkError>(page.tasks) && (page.next_after_id is Some
                    <==> page.tasks.len() == size) && (page.next_after_id matches Some(id) ==> id
                    == page.tasks.last().id),
                Err(error) => error.0 == FailureCode::InvalidInput && (size == 0 || size > 100
                    || broken),
            }
        }),
{
}

/// A single record is told as it is shown to everybody, where both identifiers may be looked up.
pub proof fn records_are_told_as_shown(
    s: StoreModel,
    session: Text,
    task: Text,
    record: Text,
    kind: Text,
)
    ensures
        ({
            let broken = {
                ||| task.len() == 0 || byte_len(task) > 256 || task.contains('\0')
                ||| record.len() == 0 || byte_len(record) > 256 || record.contains('\0')
            };
            &&& !broken ==> record_told(s, session, task, record, kind) == immutable_record_of(
                s,
                session,
                task,
                kind,
                record,
            )
            &&& broken ==> (record_told(s, session, task, record, kind) matches Err(error)
                && error.0 == FailureCode::InvalidInput)
        }),
{
}

/// A task is planned in the repository that the service resolved, as it was asked for, with the
/// inputs that may be named there. A request that was carried out before is answered as before.
/// Unknown agents, a repository that is not served and references that are not admissible are
/// refused before anything else.
pub proof fn creations_are_planned_exactly(
    s: StoreModel,
    actor: Text,
    session: Text,
    request: CreateRequestModel,
    agents_known: bool,
    repo: Option<Text>,
    now: i64,
)
    ensures
        ({
            let res = create_planned(s, actor, session, request, agents_known, repo, now);
            let input = CreateTaskModel { repo_path: repo->0, ..request.input };
            let before = replayed::<Task>(
                s,
                create_request(
                    actor,
                    session,
                    request.request_key,
                    input,
                    request.input_refs,
                    None,
                ),
            );
            let given = inputs_resolved(s, actor, session, repo->0, None, request.input_refs, now);
            let sound_request = agents_known && repo is Some && valid_refs(request.input_refs);
            &&& !agents_known ==> (res matches Err(error) && error.0 == FailureCode::InvalidInput)
            &&& agents_known && repo is None ==> (res matches Err(error) && error.0
                == FailureCode::ScopeMismatch)
            &&& agents_known && repo is Some && !valid_refs(request.input_refs) ==> (res matches Err(
                error,
            ) && error.0 == FailureCode::InvalidInput)
            &&& sound_request ==> match before {
                Err(error) => res matches Err(other) && other == error,
                Ok(Some(task)) => res matches Ok(CreatePlanModel::Replayed(found)) && found.value
                    == task && found.replayed,
                Ok(None) => match given {
                    Err(error) => res matches Err(other) && other == error,
                    Ok(inputs) => res matches Ok(plan) && plan == (CreatePlanModel::Render {
                        input,
                        inputs,
                    }),
                },
            }
        }),
{
}

} // verus!
