//! Every transaction turns a well formed store into a well formed store that follows it.
use vstd::prelude::*;
use crate::value::Text;
use crate::work::model::Attempt;
use crate::work::model::AttemptLifecycleModel;
use crate::work::model::AttemptModel;
use crate::work::model::AttemptRole;
use crate::work::model::CreateTaskModel;
use crate::work::model::DelegationConfigModel;
use crate::work::model::DelegationFenceModel;
use crate::work::model::DelegationStateModel;
use crate::work::model::FailureCode;
use crate::work::model::FrozenInputRefModel;
use crate::work::model::InputReceipt;
use crate::work::model::InputReceiptModel;
use crate::work::model::InputRefModel;
use crate::work::model::InputShare;
use crate::work::model::InputShareModel;
use crate::work::model::InputUploadModel;
use crate::work::model::InterruptInputModel;
use crate::work::model::InterruptionOutcomeModel;
use crate::work::model::LaunchPhase;
use crate::work::model::LifecycleObservation;
use crate::work::model::NativeBindingModel;
use crate::work::model::NativeStartRefusal;
use crate::work::model::NativeStartRefusalModel;
use crate::work::model::Operation;
use crate::work::model::OperationKind;
use crate::work::model::OperationModel;
use crate::work::model::OperationOutcomeModel;
use crate::work::model::OperationState;
use crate::work::model::PauseInputModel;
use crate::work::model::ReconcileInputModel;
use crate::work::model::ReconciliationEvidenceModel;
use crate::work::model::ReconciliationReceipt;
use crate::work::model::ReleaseEvidenceModel;
use crate::work::model::ReleaseReason;
use crate::work::model::ResultInputModel;
use crate::work::model::ResultSubmission;
use crate::work::model::ResultSubmissionModel;
use crate::work::model::Review;
use crate::work::model::ReviewInputModel;
use crate::work::model::ReviewModel;
use crate::work::model::Task;
use crate::work::model::TaskDependencyModel;
use crate::work::model::TaskModel;
use crate::work::model::WorkError;
use crate::work::model::no_delegation;
use crate::work::model::unbound;
use crate::work::store::attempts::StartModel;
use crate::work::store::attempts::both_saved;
use crate::work::store::attempts::dispatch_outcome;
use crate::work::store::attempts::fresh_attempt;
use crate::work::store::attempts::has_lead;
use crate::work::store::attempts::in_phase;
use crate::work::store::attempts::is_lead;
use crate::work::store::attempts::launch_outcome;
use crate::work::store::attempts::launch_ready;
use crate::work::store::attempts::start_admitted;
use crate::work::store::attempts::start_outcome;
use crate::work::store::attempts::start_refusal_outcome;
use crate::work::store::attempts::start_request;
use crate::work::store::authority::DelegatedCreateModel;
use crate::work::store::authority::OperationTargetModel;
use crate::work::store::changes::changed;
use crate::work::store::changes::list_is_current;
use crate::work::store::changes::operation_saved;
use crate::work::store::delegation::configure_outcome;
use crate::work::store::delegation::configure_request;
use crate::work::store::delegation::dependencies_outcome;
use crate::work::store::delegation::dependencies_request;
use crate::work::store::delegation::dependency_origin_noted;
use crate::work::store::deliveries::DeliveryModel;
use crate::work::store::deliveries::PromiseModel;
use crate::work::store::deliveries::delivery_admitted;
use crate::work::store::deliveries::delivery_inputs;
use crate::work::store::deliveries::delivery_operation;
use crate::work::store::deliveries::delivery_outcome;
use crate::work::store::deliveries::delivery_recorded;
use crate::work::store::deliveries::delivery_request;
use crate::work::store::deliveries::delivery_requested;
use crate::work::store::facts::about;
use crate::work::store::facts::fact_recorded;
use crate::work::store::facts::fact_reserved;
use crate::work::store::history::attempt_follows;
use crate::work::store::history::binding_kept;
use crate::work::store::history::changing_grows;
use crate::work::store::history::changing_is_local;
use crate::work::store::history::claiming_grows;
use crate::work::store::history::delivery_found;
use crate::work::store::history::found_only;
use crate::work::store::history::found_where_filed;
use crate::work::store::history::grown;
use crate::work::store::history::growth_is_reflexive;
use crate::work::store::history::growth_is_transitive;
use crate::work::store::history::leads;
use crate::work::store::history::loaded_attempt_is_filed;
use crate::work::store::history::none_released;
use crate::work::store::history::nothing_found;
use crate::work::store::history::operating_grows;
use crate::work::store::history::operation_follows;
use crate::work::store::history::plainly_grown;
use crate::work::store::history::putting_grows;
use crate::work::store::history::putting_is_local;
use crate::work::store::history::quietly_grown;
use crate::work::store::history::record_follows;
use crate::work::store::history::recording_grows;
use crate::work::store::history::released_alike;
use crate::work::store::history::reserving_grows;
use crate::work::store::history::reserving_is_local;
use crate::work::store::history::saving_grows;
use crate::work::store::history::steadiness_is_transitive;
use crate::work::store::history::steady;
use crate::work::store::history::steady_but;
use crate::work::store::history::unled;
use crate::work::store::history::unused;
use crate::work::store::history::upload_found;
use crate::work::store::history::well_formed;
use crate::work::store::inputs::MAX_REFS;
use crate::work::store::inputs::claimed;
use crate::work::store::inputs::parent_shares;
use crate::work::store::inputs::reference_to;
use crate::work::store::inputs::resolved;
use crate::work::store::inputs::share_for;
use crate::work::store::inputs::shared;
use crate::work::store::inputs::shares_filed;
use crate::work::store::interruptions::interrupt_admitted;
use crate::work::store::interruptions::interrupt_ended;
use crate::work::store::interruptions::interrupt_finalized;
use crate::work::store::interruptions::interrupt_outcome;
use crate::work::store::interruptions::interrupt_request;
use crate::work::store::listing::list_untouched;
use crate::work::store::listing::listed_task_stays;
use crate::work::store::listing::neat;
use crate::work::store::listing::rebuilt_list_is_whole;
use crate::work::store::operations::attempt_ended;
use crate::work::store::operations::attempt_informed;
use crate::work::store::operations::begin_outcome;
use crate::work::store::operations::begin_reserved;
use crate::work::store::operations::checkpoint_outcome;
use crate::work::store::operations::finalize_outcome;
use crate::work::store::operations::refusal_noted;
use crate::work::store::operations::refusal_released;
use crate::work::store::operations::refuse_outcome;
use crate::work::store::operations::released_undispatched;
use crate::work::store::reconciliation::attempt_found;
use crate::work::store::reconciliation::attempt_settled;
use crate::work::store::reconciliation::finding_outcome;
use crate::work::store::reconciliation::finding_settled;
use crate::work::store::reconciliation::observed;
use crate::work::store::reconciliation::reconcile_outcome;
use crate::work::store::reconciliation::reconcile_request;
use crate::work::store::reconciliation::reconcile_subject;
use crate::work::store::reconciliation::start_fenced;
use crate::work::store::reconciliation::start_of;
use crate::work::store::records::listed;
use crate::work::store::records::loaded;
use crate::work::store::records::position;
use crate::work::store::records::position_in_range;
use crate::work::store::records::put;
use crate::work::store::recovery::all_recovered;
use crate::work::store::recovery::lost;
use crate::work::store::recovery::opened;
use crate::work::store::requests::MAX_RECEIPTS;
use crate::work::store::requests::RequestModel;
use crate::work::store::requests::receipt_at;
use crate::work::store::requests::replayed;
use crate::work::store::results::result_request;
use crate::work::store::results::review_outcome;
use crate::work::store::results::review_request;
use crate::work::store::results::submit_outcome;
use crate::work::store::rules::fresh_operation;
use crate::work::store::rules::merged;
use crate::work::store::summaries::is_active;
use crate::work::store::summaries::summary_at;
use crate::work::store::tables::BodyModel;
use crate::work::store::tables::ChangeRowModel;
use crate::work::store::tables::DelegatedOriginModel;
use crate::work::store::tables::DependencyOriginModel;
use crate::work::store::tables::FactKind;
use crate::work::store::tables::InputRowModel;
use crate::work::store::tables::InterruptionFactModel;
use crate::work::store::tables::ReceiptBodyModel;
use crate::work::store::tables::ReconciliationIntentModel;
use crate::work::store::tables::RecordModel;
use crate::work::store::tables::StoreModel;
use crate::work::store::tables::Stored;
use crate::work::store::task_list::caught_up;
use crate::work::store::task_list::rebuilt;
use crate::work::store::task_list::summaries_rebuilt;
use crate::work::store::tasks::MAX_TASKS;
use crate::work::store::tasks::child_opened;
use crate::work::store::tasks::create_outcome;
use crate::work::store::tasks::create_request;
use crate::work::store::tasks::creation_admitted;
use crate::work::store::tasks::fresh_task;
use crate::work::store::tasks::inherited_policy;
use crate::work::store::tasks::pause_outcome;
use crate::work::store::tasks::pause_request;
use crate::work::store::tasks::task_count;
use crate::work::store::tasks::task_opened;
use crate::work::store::uploads::upload_outcome;
use crate::work::store::uploads::upload_request;

verus! {

/// Merging a report keeps what was known and what is reported.
pub proof fn merging_keeps(known: NativeBindingModel, report: NativeBindingModel)
    ensures
        merged(known, report) matches Ok(binding) ==> binding_kept(known, binding) && binding_kept(
            report,
            binding,
        ),
{
}

/// Pausing a task, or letting it go on, is growth.
pub proof fn pausing_grows(
    s: StoreModel,
    id: Text,
    actor: Text,
    session: Text,
    task_id: Text,
    key: Text,
    expected_revision: u64,
    input: PauseInputModel,
    now: i64,
)
    requires
        well_formed(s),
        unused(s, id),
    ensures
        pause_outcome(s, id, actor, session, task_id, key, expected_revision, input, now) matches Ok(
            (later, _),
        ) ==> quietly_grown(s, later),
{
    let outcome = pause_outcome(s, id, actor, session, task_id, key, expected_revision, input, now);
    let request = pause_request(actor, session, task_id, key, expected_revision, input);
    growth_is_reflexive(s);
    if outcome is Ok && replayed::<Task>(s, request) == Ok::<Option<TaskModel>, WorkError>(None) {
        let task = loaded::<Task>(s, session, task_id)->Ok_0;
        let op = OperationModel {
            state: OperationState::Acknowledged,
            ..fresh_operation(id, task_id, None, OperationKind::PauseTask, now)
        };
        let body = BodyModel::Operation(op);
        position_in_range(s.records, task_id);
        putting_grows(s, session, id, task_id, body);
        putting_is_local(s, session, id, task_id, body, task_id);
        let filed = put(s, session, id, task_id, body)->Ok_0;
        let paused = TaskModel { paused: input.paused, ..task };
        changing_grows(filed, paused, "delegation_policy_changed"@, id, now);
        let (next, value) = changed(filed, paused, "delegation_policy_changed"@, id, now)->Ok_0;
        saving_grows(next, request, ReceiptBodyModel::Task(value));
        growth_is_transitive(s, filed, next);
        growth_is_transitive(s, next, outcome->Ok_0.0);
    }
}

/// Configuring delegation is growth.
pub proof fn configuring_grows(
    s: StoreModel,
    actor: Text,
    session: Text,
    task_id: Text,
    key: Text,
    expected_revision: u64,
    input: DelegationConfigModel,
    now: i64,
)
    requires
        well_formed(s),
    ensures
        configure_outcome(s, actor, session, task_id, key, expected_revision, input, now) matches Ok(
            (later, _),
        ) ==> quietly_grown(s, later),
{
    let outcome = configure_outcome(
        s,
        actor,
        session,
        task_id,
        key,
        expected_revision,
        input,
        now,
    );
    let request = configure_request(actor, session, task_id, key, expected_revision, input);
    growth_is_reflexive(s);
    if outcome is Ok && replayed::<Task>(s, request) == Ok::<Option<TaskModel>, WorkError>(None) {
        let task = loaded::<Task>(s, session, task_id)->Ok_0;
        position_in_range(s.records, task_id);
        let set = TaskModel {
            delegation: DelegationStateModel {
                policy: input.policy,
                coordinator_attempt_id: input.coordinator_attempt_id,
                coordinator_epoch: (task.delegation.coordinator_epoch + 1) as u64,
            },
            ..task
        };
        changing_grows(s, set, "delegation_configured"@, task_id, now);
        let (next, value) = changed(s, set, "delegation_configured"@, task_id, now)->Ok_0;
        saving_grows(next, request, ReceiptBodyModel::Task(value));
        growth_is_transitive(s, next, outcome->Ok_0.0);
    }
}

/// Setting dependencies is growth.
pub proof fn depending_grows(
    s: StoreModel,
    id: Text,
    actor: Text,
    session: Text,
    task_id: Text,
    key: Text,
    expected_revision: u64,
    dependencies: Seq<TaskDependencyModel>,
    fence: Option<DelegationFenceModel>,
    now: i64,
)
    requires
        well_formed(s),
        unused(s, id),
    ensures
        dependencies_outcome(
            s,
            id,
            actor,
            session,
            task_id,
            key,
            expected_revision,
            dependencies,
            fence,
            now,
        ) matches Ok((later, _)) ==> quietly_grown(s, later),
{
    let outcome = dependencies_outcome(
        s,
        id,
        actor,
        session,
        task_id,
        key,
        expected_revision,
        dependencies,
        fence,
        now,
    );
    let request = dependencies_request(
        actor,
        session,
        task_id,
        key,
        expected_revision,
        dependencies,
        fence,
    );
    growth_is_reflexive(s);
    if outcome is Ok && replayed::<Task>(s, request) == Ok::<Option<TaskModel>, WorkError>(None) {
        let task = loaded::<Task>(s, session, task_id)->Ok_0;
        position_in_range(s.records, task_id);
        let noted = dependency_origin_noted(s, id, actor, session, task_id, key, fence)->Ok_0;
        if fence is Some {
            let body = BodyModel::DependencyOrigin(
                DependencyOriginModel { actor_id: actor, request_key: key, fence: fence->0 },
            );
            putting_grows(s, session, id, task_id, body);
            putting_is_local(s, session, id, task_id, body, task_id);
        }
        let set = TaskModel { dependencies, ..task };
        changing_grows(noted, set, "dependencies_updated"@, task_id, now);
        let (next, value) = changed(noted, set, "dependencies_updated"@, task_id, now)->Ok_0;
        saving_grows(next, request, ReceiptBodyModel::Task(value));
        growth_is_transitive(s, noted, next);
        growth_is_transitive(s, next, outcome->Ok_0.0);
    }
}

/// Submitting a result is growth.
pub proof fn submitting_grows(
    s: StoreModel,
    id: Text,
    actor: Text,
    session: Text,
    task_id: Text,
    key: Text,
    expected_revision: u64,
    input: ResultInputModel,
    now: i64,
)
    requires
        well_formed(s),
        unused(s, id),
    ensures
        submit_outcome(s, id, actor, session, task_id, key, expected_revision, input, now) matches Ok(
            (later, _),
        ) ==> quietly_grown(s, later),
{
    let outcome = submit_outcome(s, id, actor, session, task_id, key, expected_revision, input, now);
    let request = result_request(actor, session, task_id, key, expected_revision, input);
    growth_is_reflexive(s);
    if outcome is Ok && replayed::<ResultSubmission>(s, request) == Ok::<
        Option<ResultSubmissionModel>,
        WorkError,
    >(None) {
        let task = loaded::<Task>(s, session, task_id)->Ok_0;
        position_in_range(s.records, task_id);
        let result = ResultSubmissionModel { id, task_id, result: input, created_at_ms: now };
        let body = BodyModel::Result(result);
        putting_grows(s, session, id, task_id, body);
        putting_is_local(s, session, id, task_id, body, task_id);
        let filed = put(s, session, id, task_id, body)->Ok_0;
        changing_grows(filed, task, "result_submitted"@, id, now);
        let next = changed(filed, task, "result_submitted"@, id, now)->Ok_0.0;
        saving_grows(next, request, ReceiptBodyModel::Result(result));
        growth_is_transitive(s, filed, next);
        growth_is_transitive(s, next, outcome->Ok_0.0);
    }
}

/// Reviewing a result is growth.
pub proof fn reviewing_grows(
    s: StoreModel,
    id: Text,
    actor: Text,
    session: Text,
    task_id: Text,
    key: Text,
    expected_revision: u64,
    input: ReviewInputModel,
    now: i64,
)
    requires
        well_formed(s),
        unused(s, id),
    ensures
        review_outcome(s, id, actor, session, task_id, key, expected_revision, input, now) matches Ok(
            (later, _),
        ) ==> quietly_grown(s, later),
{
    let outcome = review_outcome(s, id, actor, session, task_id, key, expected_revision, input, now);
    let request = review_request(actor, session, task_id, key, expected_revision, input);
    growth_is_reflexive(s);
    if outcome is Ok && replayed::<Review>(s, request) == Ok::<Option<ReviewModel>, WorkError>(
        None,
    ) {
        let task = loaded::<Task>(s, session, task_id)->Ok_0;
        position_in_range(s.records, task_id);
        let review = ReviewModel {
            id,
            task_id,
            actor_id: actor,
            review: input,
            created_at_ms: now,
        };
        let body = BodyModel::Review(review);
        putting_grows(s, session, id, task_id, body);
        putting_is_local(s, session, id, task_id, body, task_id);
        let filed = put(s, session, id, task_id, body)->Ok_0;
        changing_grows(filed, task, "result_reviewed"@, id, now);
        let next = changed(filed, task, "result_reviewed"@, id, now)->Ok_0.0;
        saving_grows(next, request, ReceiptBodyModel::Review(review));
        growth_is_transitive(s, filed, next);
        growth_is_transitive(s, next, outcome->Ok_0.0);
    }
}

/// Recording an upload is growth.
pub proof fn uploading_grows(
    s: StoreModel,
    id: Text,
    actor: Text,
    session: Text,
    key: Text,
    input: InputUploadModel,
    now: i64,
)
    requires
        well_formed(s),
    ensures
        upload_outcome(s, id, actor, session, key, input, now) matches Ok((later, _))
            ==> quietly_grown(s, later),
{
    let outcome = upload_outcome(s, id, actor, session, key, input, now);
    let request = upload_request(actor, session, key, input);
    growth_is_reflexive(s);
    if outcome is Ok && replayed::<InputReceipt>(s, request) == Ok::<
        Option<InputReceiptModel>,
        WorkError,
    >(None) {
        let receipt = outcome->Ok_0.1;
        let next = StoreModel {
            inputs: s.inputs.push(
                InputRowModel {
                    id,
                    actor,
                    session,
                    repo_path: input.repo_path,
                    claimed_task: None,
                    body: receipt,
                },
            ),
            ..s
        };
        assert forall|i: int, j: int| 0 <= i < j < next.inputs.len() implies (
        #[trigger] next.inputs[i]).id != (#[trigger] next.inputs[j]).id by {
            if j == s.inputs.len() && s.inputs[i].id == id {
                upload_found(s.inputs, i);
            }
        }
        list_untouched(s, next);
        assert(grown(s, next));
        saving_grows(next, request, ReceiptBodyModel::Input(receipt));
        growth_is_transitive(s, next, outcome->Ok_0.0);
    }
}

/// Whether an attempt of a task was added, and no other attempt and no task.
pub open spec fn attempt_added(
    s: StoreModel,
    later: StoreModel,
    session: Text,
    task: Text,
    role: AttemptRole,
) -> bool {
    let at = s.records.len() as int;
    &&& at < later.records.len()
    &&& steady_but(s.records, later.records, at)
    &&& later.records[at].session == session
    &&& later.records[at].task_id == task
    &&& later.records[at].body matches BodyModel::Attempt(attempt) && attempt.role == role
}

/// Starting an attempt is growth. Unless it was carried out before, it adds that attempt.
pub proof fn starting_grows(
    s: StoreModel,
    attempt_id: Text,
    op_id: Text,
    fact_id: Text,
    d: StartModel,
    fence: Option<DelegationFenceModel>,
    now: i64,
)
    requires
        well_formed(s),
        unused(s, attempt_id),
        unused(s, op_id),
        unused(s, fact_id),
        attempt_id != op_id,
        attempt_id != fact_id,
        op_id != fact_id,
    ensures
        start_outcome(s, attempt_id, op_id, fact_id, d, fence, now) matches Ok((later, answer))
            ==> {
            &&& well_formed(later)
            &&& grown(s, later)
            &&& none_released(s.records, later.records)
            &&& nothing_found(s.records, later.records)
            &&& answer.replayed ==> steady(s.records, later.records)
            &&& !answer.replayed ==> attempt_added(s, later, d.session, d.task_id, d.input.role)
        },
{
    let outcome = start_outcome(s, attempt_id, op_id, fact_id, d, fence, now);
    let request = start_request(d, fence);
    growth_is_reflexive(s);
    if outcome is Ok && replayed::<Operation>(s, request) == Ok::<
        Option<OperationModel>,
        WorkError,
    >(None) {
        let (task, snapshot) = start_admitted(s, d, fence)->Ok_0;
        position_in_range(s.records, d.task_id);
        let attempt = fresh_attempt(attempt_id, d.task_id, d.input, now);
        let op = OperationModel {
            delegation_fence: fence,
            dependency_snapshot: snapshot,
            ..fresh_operation(
                op_id,
                d.task_id,
                Some(attempt_id),
                OperationKind::StartAttempt,
                now,
            )
        };
        let session = d.session;
        assert(is_lead(attempt) ==> unled(s.records, session, d.task_id)) by {
            assert forall|i: int| 0 <= i < s.records.len() && leads(
                #[trigger] s.records[i],
                session,
                d.task_id,
            ) implies has_lead(listed::<Attempt>(s.records, session, d.task_id)) by {
                let lead = s.records[i].body->Attempt_0;
                recorded_is_listed::<Attempt>(s.records, session, d.task_id, i, lead);
            }
        }
        let first = BodyModel::Attempt(attempt);
        let second = BodyModel::Operation(op);
        putting_grows(s, session, attempt_id, d.task_id, first);
        putting_is_local(s, session, attempt_id, d.task_id, first, op_id);
        putting_is_local(s, session, attempt_id, d.task_id, first, fact_id);
        putting_is_local(s, session, attempt_id, d.task_id, first, d.task_id);
        let held = put(s, session, attempt_id, d.task_id, first)->Ok_0;
        putting_grows(held, session, op_id, d.task_id, second);
        putting_is_local(held, session, op_id, d.task_id, second, fact_id);
        putting_is_local(held, session, op_id, d.task_id, second, d.task_id);
        let filed = put(held, session, op_id, d.task_id, second)->Ok_0;
        reserving_grows(filed, session, op, FactKind::StartRefusal, fact_id);
        reserving_is_local(filed, session, op, FactKind::StartRefusal, fact_id, d.task_id);
        let kept = fact_reserved(filed, session, op, FactKind::StartRefusal, fact_id)->Ok_0;
        changing_grows(kept, task, "attempt_prepared"@, op_id, now);
        let next = changed(kept, task, "attempt_prepared"@, op_id, now)->Ok_0.0;
        let later = outcome->Ok_0.0;
        saving_grows(next, request, ReceiptBodyModel::Operation(op));
        growth_is_transitive(s, held, filed);
        growth_is_transitive(s, filed, kept);
        growth_is_transitive(s, kept, next);
        growth_is_transitive(s, next, later);
        growth_is_transitive(held, filed, kept);
        growth_is_transitive(held, kept, next);
        growth_is_transitive(held, next, later);
        let at = s.records.len() as int;
        steadiness_is_transitive(s, held, later, at);
        assert(record_follows(held.records[at], later.records[at]));
    }
}

/// Filing an attempt and its operation, both as they may become, is growth.
pub proof fn both_saved_grows(
    s: StoreModel,
    session: Text,
    attempt_id: Text,
    attempt: AttemptModel,
    op: OperationModel,
    now: i64,
)
    requires
        well_formed(s),
        loaded::<Attempt>(s, session, attempt_id) is Ok,
        loaded::<Operation>(s, session, op.id) is Ok,
        attempt_follows(loaded::<Attempt>(s, session, attempt_id)->Ok_0, attempt),
        attempt.lifecycle.native_owner_epoch is Some ==> attempt.lifecycle.launch_phase
            == LaunchPhase::LaunchConfirmed,
        attempt.lifecycle.release is Some ==> !is_active(attempt),
        operation_follows(loaded::<Operation>(s, session, op.id)->Ok_0, op),
    ensures
        both_saved(s, session, attempt_id, attempt, op, now) matches Ok((later, _)) ==> plainly_grown(
            s,
            later,
        ) && (is_active(attempt) || released_alike(
            BodyModel::Attempt(loaded::<Attempt>(s, session, attempt_id)->Ok_0),
            BodyModel::Attempt(attempt),
        ) ==> none_released(s.records, later.records)),
{
    if both_saved(s, session, attempt_id, attempt, op, now) is Ok {
        position_in_range(s.records, attempt_id);
        position_in_range(s.records, op.id);
        let body = BodyModel::Attempt(attempt);
        putting_grows(s, session, attempt_id, op.task_id, body);
        putting_is_local(s, session, attempt_id, op.task_id, body, op.id);
        let held = put(s, session, attempt_id, op.task_id, body)->Ok_0;
        operating_grows(held, session, op, now);
        growth_is_transitive(s, held, operation_saved(held, session, op, now)->Ok_0);
    }
}

/// Claiming a dispatch is growth.
pub proof fn dispatching_grows(
    s: StoreModel,
    fact_id: Text,
    session: Text,
    operation_id: Text,
    target: Option<OperationTargetModel>,
    now: i64,
)
    requires
        well_formed(s),
        unused(s, fact_id),
    ensures
        dispatch_outcome(s, fact_id, session, operation_id, target, now) matches Ok((later, _))
            ==> quietly_grown(s, later),
{
    let outcome = dispatch_outcome(s, fact_id, session, operation_id, target, now);
    if outcome is Ok {
        let old_op = loaded::<Operation>(s, session, operation_id)->Ok_0;
        position_in_range(s.records, operation_id);
        let attempt_id = old_op.attempt_id->0;
        let attempt = loaded::<Attempt>(s, session, attempt_id)->Ok_0;
        position_in_range(s.records, attempt_id);
        let op = OperationModel {
            dependency_snapshot: launch_ready(s, session, old_op)->Ok_0,
            updated_at_ms: now,
            ..old_op
        };
        reserving_grows(s, session, op, FactKind::StartRefusal, fact_id);
        reserving_is_local(s, session, op, FactKind::StartRefusal, fact_id, attempt_id);
        reserving_is_local(s, session, op, FactKind::StartRefusal, fact_id, operation_id);
        let kept = fact_reserved(s, session, op, FactKind::StartRefusal, fact_id)->Ok_0;
        let claimed_attempt = in_phase(attempt, LaunchPhase::DispatchClaimed);
        both_saved_grows(kept, session, attempt_id, claimed_attempt, op, now);
        growth_is_transitive(s, kept, outcome->Ok_0.0);
    }
}

/// Recording a launch is growth.
pub proof fn launching_grows(
    s: StoreModel,
    session: Text,
    operation_id: Text,
    resources: NativeBindingModel,
    owner_epoch: Text,
    now: i64,
)
    requires
        well_formed(s),
    ensures
        launch_outcome(s, session, operation_id, resources, owner_epoch, now) matches Ok((later, _))
            ==> quietly_grown(s, later),
{
    let outcome = launch_outcome(s, session, operation_id, resources, owner_epoch, now);
    if outcome is Ok {
        let op = loaded::<Operation>(s, session, operation_id)->Ok_0;
        position_in_range(s.records, operation_id);
        let attempt = loaded::<Attempt>(s, session, op.attempt_id->0)->Ok_0;
        position_in_range(s.records, op.attempt_id->0);
        let known = merged(op.resources, resources)->Ok_0;
        merging_keeps(op.resources, resources);
        merging_keeps(attempt.binding, known);
        let launched = AttemptModel {
            lifecycle: AttemptLifecycleModel {
                launch_phase: LaunchPhase::LaunchConfirmed,
                native_owner_epoch: Some(owner_epoch),
                ..attempt.lifecycle
            },
            binding: merged(attempt.binding, known)->Ok_0,
            ..attempt
        };
        let done = OperationModel { resources: known, updated_at_ms: now, ..op };
        both_saved_grows(s, session, attempt.id, launched, done, now);
    }
}

/// Recording that a start made no process is growth.
pub proof fn refusing_start_grows(
    s: StoreModel,
    session: Text,
    operation_id: Text,
    owner_epoch: Text,
    receipt_id: Text,
    now: i64,
)
    requires
        well_formed(s),
    ensures
        start_refusal_outcome(s, session, operation_id, owner_epoch, receipt_id, now) matches Ok(
            (later, _),
        ) ==> {
            &&& well_formed(later)
            &&& grown(s, later)
            &&& none_released(s.records, later.records)
            &&& steady(s.records, later.records)
            &&& found_only(
                s.records,
                later.records,
                session,
                FactKind::StartRefusal,
                operation_id,
            )
            &&& about::<NativeStartRefusal>(s.records, session, operation_id) is Some ==> later == s
        },
{
    let outcome = start_refusal_outcome(s, session, operation_id, owner_epoch, receipt_id, now);
    growth_is_reflexive(s);
    if outcome is Ok && about::<NativeStartRefusal>(s.records, session, operation_id) is None {
        let op = loaded::<Operation>(s, session, operation_id)->Ok_0;
        position_in_range(s.records, operation_id);
        let body = BodyModel::StartRefusal(
            NativeStartRefusalModel { start_operation_id: operation_id, owner_epoch, receipt_id },
        );
        recording_grows(s, session, op, FactKind::StartRefusal, body);
        let noted = fact_recorded(s, session, op, FactKind::StartRefusal, body)->Ok_0;
        let task = loaded::<Task>(noted, session, op.task_id)->Ok_0;
        position_in_range(noted.records, op.task_id);
        changing_grows(noted, task, "native_start_refused"@, op.id, now);
        growth_is_transitive(s, noted, outcome->Ok_0.0);
    }
}

/// Letting an operation go out is growth.
pub proof fn beginning_grows(
    s: StoreModel,
    fact_id: Text,
    session: Text,
    operation_id: Text,
    target: Option<OperationTargetModel>,
    now: i64,
)
    requires
        well_formed(s),
        unused(s, fact_id),
    ensures
        begin_outcome(s, fact_id, session, operation_id, target, now) matches Ok((later, _))
            ==> quietly_grown(s, later),
{
    let outcome = begin_outcome(s, fact_id, session, operation_id, target, now);
    growth_is_reflexive(s);
    if outcome is Ok {
        let op = loaded::<Operation>(s, session, operation_id)->Ok_0;
        position_in_range(s.records, operation_id);
        reserving_grows(s, session, op, FactKind::Reconciliation, fact_id);
        reserving_is_local(s, session, op, FactKind::Reconciliation, fact_id, operation_id);
        let kept = begin_reserved(s, fact_id, session, op)->Ok_0;
        let begun = OperationModel {
            state: OperationState::Submitting,
            updated_at_ms: now,
            ..op
        };
        operating_grows(kept, session, begun, now);
        growth_is_transitive(s, kept, outcome->Ok_0.0);
    }
}

/// Telling an attempt what its operation knows is growth.
pub proof fn informing_follows(attempt: AttemptModel, op: OperationModel)
    requires
        attempt.lifecycle.native_owner_epoch is Some ==> attempt.lifecycle.launch_phase
            == LaunchPhase::LaunchConfirmed,
    ensures
        attempt_informed(attempt, op) matches Ok(told) ==> attempt_follows(attempt, told)
            && told.lifecycle.reservation == attempt.lifecycle.reservation && told.lifecycle.release
            == attempt.lifecycle.release && (
        told.lifecycle.native_owner_epoch is Some ==> told.lifecycle.launch_phase
            == LaunchPhase::LaunchConfirmed),
{
    merging_keeps(attempt.binding, op.resources);
}

/// Recording native resources is growth.
pub proof fn checkpointing_grows(
    s: StoreModel,
    session: Text,
    operation_id: Text,
    resources: NativeBindingModel,
    now: i64,
)
    requires
        well_formed(s),
    ensures
        checkpoint_outcome(s, session, operation_id, resources, now) matches Ok((later, _))
            ==> quietly_grown(s, later),
{
    let outcome = checkpoint_outcome(s, session, operation_id, resources, now);
    if outcome is Ok {
        let op = loaded::<Operation>(s, session, operation_id)->Ok_0;
        position_in_range(s.records, operation_id);
        merging_keeps(op.resources, resources);
        let known = merged(op.resources, resources)->Ok_0;
        let later_op = OperationModel { resources: known, updated_at_ms: now, ..op };
        match op.attempt_id {
            None => {
                operating_grows(s, session, later_op, now);
            },
            Some(id) => {
                position_in_range(s.records, id);
                let attempt = loaded::<Attempt>(s, session, id)->Ok_0;
                informing_follows(attempt, later_op);
                let told = attempt_informed(attempt, later_op)->Ok_0;
                both_saved_grows(s, session, id, told, later_op, now);
            },
        }
    }
}

/// Whether an end is the refusal of a start that was not dispatched.
pub open spec fn refuses_start(
    s: StoreModel,
    session: Text,
    operation_id: Text,
    end: OperationOutcomeModel,
) -> bool {
    let op = loaded::<Operation>(s, session, operation_id)->Ok_0;
    &&& op.kind == OperationKind::StartAttempt
    &&& end.state == OperationState::Refused
    &&& op.attempt_id matches Some(id) && (loaded::<Attempt>(s, session, id) matches Ok(attempt)
        && attempt.lifecycle.launch_phase == LaunchPhase::NotDispatched)
}

/// Ending an operation is growth. It gives back no reservation but that of a start that was refused
/// before it was dispatched.
pub proof fn finalizing_grows(
    s: StoreModel,
    session: Text,
    operation_id: Text,
    end: OperationOutcomeModel,
    now: i64,
)
    requires
        well_formed(s),
    ensures
        finalize_outcome(s, session, operation_id, end, now) matches Ok((later, _)) ==> {
            &&& plainly_grown(s, later)
            &&& !refuses_start(s, session, operation_id, end) ==> none_released(
                s.records,
                later.records,
            )
        },
{
    let outcome = finalize_outcome(s, session, operation_id, end, now);
    if outcome is Ok {
        let op = loaded::<Operation>(s, session, operation_id)->Ok_0;
        position_in_range(s.records, operation_id);
        merging_keeps(op.resources, end.resources);
        let ended = OperationModel {
            resources: merged(op.resources, end.resources)->Ok_0,
            state: end.state,
            failure_code: end.failure_code,
            updated_at_ms: now,
            ..op
        };
        match op.attempt_id {
            None => {
                operating_grows(s, session, ended, now);
            },
            Some(id) => {
                position_in_range(s.records, id);
                let attempt = loaded::<Attempt>(s, session, id)->Ok_0;
                informing_follows(attempt, ended);
                let last = attempt_ended(attempt, ended, now)->Ok_0;
                both_saved_grows(s, session, id, last, ended, now);
            },
        }
    }
}

/// Cancelling a recorded intent is growth. It gives back no reservation but that of a start.
pub proof fn refusing_grows(
    s: StoreModel,
    session: Text,
    operation_id: Text,
    code: FailureCode,
    now: i64,
)
    requires
        well_formed(s),
    ensures
        refuse_outcome(s, session, operation_id, code, now) matches Ok((later, _)) ==> {
            &&& plainly_grown(s, later)
            &&& loaded::<Operation>(s, session, operation_id)->Ok_0.kind
                != OperationKind::StartAttempt ==> none_released(s.records, later.records)
        },
{
    let outcome = refuse_outcome(s, session, operation_id, code, now);
    growth_is_reflexive(s);
    if outcome is Ok {
        let op = loaded::<Operation>(s, session, operation_id)->Ok_0;
        position_in_range(s.records, operation_id);
        let ended = OperationModel {
            state: OperationState::Refused,
            failure_code: Some(code),
            updated_at_ms: now,
            ..op
        };
        let body = BodyModel::InterruptionFact(
            InterruptionFactModel {
                operation_id: ended.id,
                state: ended.state,
                failure_code: ended.failure_code,
                receipt: None,
            },
        );
        recording_grows(s, session, ended, FactKind::Interruption, body);
        let noted = refusal_noted(s, session, ended)->Ok_0;
        growth_is_reflexive(noted);
        let given = refusal_released(noted, session, ended, now)->Ok_0;
        if op.kind == OperationKind::StartAttempt && op.resources == unbound() {
            let id = op.attempt_id->0;
            position_in_range(s.records, id);
            let attempt = loaded::<Attempt>(s, session, id)->Ok_0;
            if attempt.lifecycle.launch_phase == LaunchPhase::NotDispatched {
                let released = BodyModel::Attempt(released_undispatched(attempt, ended.id, now));
                putting_grows(noted, session, attempt.id, op.task_id, released);
                putting_is_local(noted, session, attempt.id, op.task_id, released, operation_id);
            }
        }
        operating_grows(given, session, ended, now);
        growth_is_transitive(s, noted, given);
        growth_is_transitive(s, given, outcome->Ok_0.0);
    }
}

/// Recording a delivery is growth.
proof fn recording_delivery_grows(
    s: StoreModel,
    id: Text,
    d: DeliveryModel,
    promise: Option<PromiseModel>,
    fence: Option<DelegationFenceModel>,
    now: i64,
)
    requires
        well_formed(s),
        unused(s, id),
    ensures
        delivery_requested(s, id, d, promise, fence, now) matches Ok((later, _)) ==> quietly_grown(s, later),
{
    let outcome = delivery_requested(s, id, d, promise, fence, now);
    let request = delivery_request(d, promise, fence);
    growth_is_reflexive(s);
    if outcome is Ok && replayed::<Operation>(s, request) == Ok::<
        Option<OperationModel>,
        WorkError,
    >(None) {
        let (task, attempt) = delivery_admitted(s, d, fence)->Ok_0;
        position_in_range(s.records, d.task_id);
        let inputs = delivery_inputs(s, d, promise, fence, task, now)->Ok_0;
        let op = delivery_operation(s, id, d, fence, inputs, attempt, now);
        claiming_grows(s, d.session, d.task_id, op.input_refs);
        let held = claimed(s, d.session, d.task_id, op.input_refs)->Ok_0;
        let body = BodyModel::Operation(op);
        loaded_attempt_is_filed(s, d.session, d.attempt_id);
        putting_grows(held, d.session, id, d.task_id, body);
        putting_is_local(held, d.session, id, d.task_id, body, d.task_id);
        let filed = put(held, d.session, id, d.task_id, body)->Ok_0;
        changing_grows(filed, task, "delivery_prepared"@, id, now);
        let next = changed(filed, task, "delivery_prepared"@, id, now)->Ok_0.0;
        let recorded = delivery_recorded(s, d, promise, fence, task, op, now)->Ok_0;
        growth_is_reflexive(next);
        assert(next.deliveries =~= recorded.deliveries.subrange(0, next.deliveries.len() as int));
        assert forall|i: int, j: int| 0 <= i < j < recorded.deliveries.len() implies (
        #[trigger] recorded.deliveries[i]).operation_id != (
        #[trigger] recorded.deliveries[j]).operation_id by {
            if j == next.deliveries.len() && next.deliveries[i].operation_id == id {
                delivery_found(next.deliveries, i);
            }
        }
        list_untouched(next, recorded);
        assert(grown(next, recorded));
        saving_grows(recorded, request, ReceiptBodyModel::Operation(op));
        growth_is_transitive(s, held, filed);
        growth_is_transitive(s, filed, next);
        growth_is_transitive(s, next, recorded);
        growth_is_transitive(s, recorded, outcome->Ok_0.0);
    }
}

/// Delivering a prompt is growth.
pub proof fn delivering_grows(
    s: StoreModel,
    id: Text,
    d: DeliveryModel,
    promise: Option<PromiseModel>,
    fence: Option<DelegationFenceModel>,
    now: i64,
)
    requires
        well_formed(s),
        unused(s, id),
    ensures
        delivery_outcome(s, id, d, promise, fence, now) matches Ok((later, _)) ==> quietly_grown(s, later),
{
    growth_is_reflexive(s);
    recording_delivery_grows(s, id, d, promise, fence, now);
}

/// Interrupting an attempt is growth.
pub proof fn interrupting_grows(
    s: StoreModel,
    id: Text,
    fact_id: Text,
    actor: Text,
    session: Text,
    task_id: Text,
    attempt_id: Text,
    input: InterruptInputModel,
    now: i64,
)
    requires
        well_formed(s),
        unused(s, id),
        unused(s, fact_id),
        id != fact_id,
    ensures
        interrupt_outcome(s, id, fact_id, actor, session, task_id, attempt_id, input, now) matches Ok(
            (later, _),
        ) ==> quietly_grown(s, later),
{
    let outcome = interrupt_outcome(
        s,
        id,
        fact_id,
        actor,
        session,
        task_id,
        attempt_id,
        input,
        now,
    );
    let request = interrupt_request(actor, session, task_id, attempt_id, input);
    growth_is_reflexive(s);
    if outcome is Ok && replayed::<Operation>(s, request) == Ok::<
        Option<OperationModel>,
        WorkError,
    >(None) {
        let (task, op) = interrupt_admitted(s, id, session, task_id, attempt_id, input, now)->Ok_0;
        position_in_range(s.records, task_id);
        let body = BodyModel::Operation(op);
        loaded_attempt_is_filed(s, session, attempt_id);
        putting_grows(s, session, id, task_id, body);
        putting_is_local(s, session, id, task_id, body, fact_id);
        putting_is_local(s, session, id, task_id, body, task_id);
        let filed = put(s, session, id, task_id, body)->Ok_0;
        reserving_grows(filed, session, op, FactKind::Interruption, fact_id);
        reserving_is_local(filed, session, op, FactKind::Interruption, fact_id, task_id);
        let kept = fact_reserved(filed, session, op, FactKind::Interruption, fact_id)->Ok_0;
        changing_grows(kept, task, "operation_changed"@, id, now);
        let next = changed(kept, task, "operation_changed"@, id, now)->Ok_0.0;
        saving_grows(next, request, ReceiptBodyModel::Operation(op));
        growth_is_transitive(s, filed, kept);
        growth_is_transitive(s, kept, next);
        growth_is_transitive(s, next, outcome->Ok_0.0);
    }
}

/// Ending an interrupt is growth.
pub proof fn ending_interrupt_grows(
    s: StoreModel,
    session: Text,
    operation_id: Text,
    end: InterruptionOutcomeModel,
    now: i64,
)
    requires
        well_formed(s),
    ensures
        interrupt_finalized(s, session, operation_id, end, now) matches Ok((later, _))
            ==> quietly_grown(s, later),
{
    let outcome = interrupt_finalized(s, session, operation_id, end, now);
    if outcome is Ok {
        let op = loaded::<Operation>(s, session, operation_id)->Ok_0;
        position_in_range(s.records, operation_id);
        let ended = interrupt_ended(op, end, now);
        let body = BodyModel::InterruptionFact(
            InterruptionFactModel {
                operation_id: ended.id,
                state: ended.state,
                failure_code: ended.failure_code,
                receipt: ended.interruption_receipt,
            },
        );
        recording_grows(s, session, ended, FactKind::Interruption, body);
        let noted = fact_recorded(s, session, ended, FactKind::Interruption, body)->Ok_0;
        operating_grows(noted, session, ended, now);
        growth_is_transitive(s, noted, outcome->Ok_0.0);
    }
}

/// Preparing a reconciliation is growth.
pub proof fn reconciling_grows(
    s: StoreModel,
    id: Text,
    intent_id: Text,
    fact_id: Text,
    actor: Text,
    session: Text,
    task_id: Text,
    attempt_id: Text,
    input: ReconcileInputModel,
    now: i64,
)
    requires
        well_formed(s),
        unused(s, id),
        unused(s, intent_id),
        unused(s, fact_id),
        id != intent_id,
        id != fact_id,
        intent_id != fact_id,
    ensures
        reconcile_outcome(
            s,
            id,
            intent_id,
            fact_id,
            actor,
            session,
            task_id,
            attempt_id,
            input,
            now,
        ) matches Ok((later, _)) ==> quietly_grown(s, later),
{
    let outcome = reconcile_outcome(
        s,
        id,
        intent_id,
        fact_id,
        actor,
        session,
        task_id,
        attempt_id,
        input,
        now,
    );
    let request = reconcile_request(actor, session, task_id, attempt_id, input);
    growth_is_reflexive(s);
    if outcome is Ok && replayed::<Operation>(s, request) == Ok::<
        Option<OperationModel>,
        WorkError,
    >(None) {
        let task = loaded::<Task>(s, session, task_id)->Ok_0;
        position_in_range(s.records, task_id);
        let op = fresh_operation(
            id,
            task_id,
            Some(attempt_id),
            OperationKind::ReconcileAttempt,
            now,
        );
        let first = BodyModel::Operation(op);
        let second = BodyModel::ReconciliationIntent(
            ReconciliationIntentModel { operation_id: id, input },
        );
        loaded_attempt_is_filed(s, session, attempt_id);
        putting_grows(s, session, id, task_id, first);
        putting_is_local(s, session, id, task_id, first, intent_id);
        putting_is_local(s, session, id, task_id, first, fact_id);
        putting_is_local(s, session, id, task_id, first, task_id);
        let filed = put(s, session, id, task_id, first)->Ok_0;
        putting_grows(filed, session, intent_id, task_id, second);
        putting_is_local(filed, session, intent_id, task_id, second, fact_id);
        putting_is_local(filed, session, intent_id, task_id, second, task_id);
        let meant = put(filed, session, intent_id, task_id, second)->Ok_0;
        reserving_grows(meant, session, op, FactKind::Reconciliation, fact_id);
        reserving_is_local(meant, session, op, FactKind::Reconciliation, fact_id, task_id);
        let kept = fact_reserved(meant, session, op, FactKind::Reconciliation, fact_id)->Ok_0;
        changing_grows(kept, task, "reconciliation_prepared"@, id, now);
        let next = changed(kept, task, "reconciliation_prepared"@, id, now)->Ok_0.0;
        saving_grows(next, request, ReceiptBodyModel::Operation(op));
        growth_is_transitive(s, filed, meant);
        growth_is_transitive(s, meant, kept);
        growth_is_transitive(s, kept, next);
        growth_is_transitive(s, next, outcome->Ok_0.0);
    }
}

/// What is listed is recorded.
pub proof fn listed_is_recorded<T: Stored>(
    records: Seq<RecordModel>,
    session: Text,
    task: Text,
    value: T::V,
) -> (at: int)
    requires
        listed::<T>(records, session, task).contains(value),
    ensures
        0 <= at < records.len(),
        T::of(records[at].body) == Some(value),
        records[at].session == session,
        records[at].task_id == task,
    decreases records.len(),
{
    let all = listed::<T>(records, session, task);
    if records.len() == 0 {
        0
    } else {
        let before = listed::<T>(records.drop_last(), session, task);
        if before.contains(value) {
            listed_is_recorded::<T>(records.drop_last(), session, task, value)
        } else {
            let k = choose|k: int| 0 <= k < all.len() && all[k] == value;
            assert(k == before.len()) by {
                if k < before.len() {
                    assert(before[k] == value);
                }
            }
            records.len() - 1
        }
    }
}

/// What is recorded is listed.
pub proof fn recorded_is_listed<T: Stored>(
    records: Seq<RecordModel>,
    session: Text,
    task: Text,
    at: int,
    value: T::V,
)
    requires
        0 <= at < records.len(),
        T::of(records[at].body) == Some(value),
        records[at].session == session,
        records[at].task_id == task,
    ensures
        listed::<T>(records, session, task).contains(value),
    decreases records.len(),
{
    let all = listed::<T>(records, session, task);
    let before = listed::<T>(records.drop_last(), session, task);
    if at < records.len() - 1 {
        assert(records.drop_last()[at] == records[at]);
        recorded_is_listed::<T>(records.drop_last(), session, task, at, value);
        let k = choose|k: int| 0 <= k < before.len() && before[k] == value;
        assert(all[k] == value);
    } else {
        assert(all[before.len() as int] == value);
    }
}

/// The start of an attempt is one of the operations.
pub proof fn start_is_listed(operations: Seq<OperationModel>, attempt_id: Text)
    ensures
        start_of(operations, attempt_id) matches Some(op) ==> operations.contains(op) && op.kind
            == OperationKind::StartAttempt,
    decreases operations.len(),
{
    if operations.len() > 0 {
        let rest = operations.drop_last();
        start_is_listed(rest, attempt_id);
        match start_of(rest, attempt_id) {
            Some(op) => {
                let k = choose|k: int| 0 <= k < rest.len() && rest[k] == op;
                assert(operations[k] == op);
            },
            None => {
                assert(operations[operations.len() - 1] == operations.last());
            },
        }
    }
}

/// Letting a finding take effect is growth.
proof fn settling_grows(
    s: StoreModel,
    session: Text,
    task: TaskModel,
    op: OperationModel,
    attempt: AttemptModel,
    start: OperationModel,
    observation: LifecycleObservation,
    release: Option<(ReleaseReason, ReleaseEvidenceModel)>,
    now: i64,
)
    requires
        well_formed(s),
        loaded::<Task>(s, session, op.task_id) == Ok::<TaskModel, WorkError>(task),
        loaded::<Operation>(s, session, op.id) == Ok::<OperationModel, WorkError>(op),
        loaded::<Attempt>(s, session, attempt.id) == Ok::<AttemptModel, WorkError>(attempt),
        loaded::<Operation>(s, session, start.id) == Ok::<OperationModel, WorkError>(start),
        op.kind == OperationKind::ReconcileAttempt,
        op.state == OperationState::Submitting,
        start.kind == OperationKind::StartAttempt,
        release matches Some((reason, _)) && reason == ReleaseReason::StartupNotDispatched
            ==> start.state != OperationState::Acknowledged && attempt.lifecycle.launch_phase
            == LaunchPhase::NotDispatched,
    ensures
        finding_settled(
            s,
            session,
            task,
            op,
            attempt,
            start,
            observation,
            release,
            now,
        ) matches Ok((later, _)) ==> {
            &&& well_formed(later)
            &&& grown(s, later)
            &&& steady(s.records, later.records)
            &&& found_only(s.records, later.records, session, FactKind::Reconciliation, op.id)
            &&& release is None ==> none_released(s.records, later.records)
        },
{
    reveal(finding_settled);
    let outcome = finding_settled(
        s,
        session,
        task,
        op,
        attempt,
        start,
        observation,
        release,
        now,
    );
    if outcome is Ok {
        position_in_range(s.records, op.task_id);
        position_in_range(s.records, op.id);
        position_in_range(s.records, attempt.id);
        position_in_range(s.records, start.id);
        let task_id = op.task_id;
        let stopped = BodyModel::Operation(
            OperationModel {
                state: OperationState::Refused,
                failure_code: Some(FailureCode::NotReady),
                updated_at_ms: now,
                ..start
            },
        );
        growth_is_reflexive(s);
        let fenced = start_fenced(s, session, task_id, start, release, now)->Ok_0;
        if release matches Some((reason, _)) && reason == ReleaseReason::StartupNotDispatched {
            putting_grows(s, session, start.id, task_id, stopped);
            putting_is_local(s, session, start.id, task_id, stopped, attempt.id);
            putting_is_local(s, session, start.id, task_id, stopped, op.id);
            putting_is_local(s, session, start.id, task_id, stopped, task_id);
        }
        growth_is_reflexive(fenced);
        let found = attempt_found(attempt, op.id, release, now);
        let settled = attempt_settled(fenced, session, task_id, found, release)->Ok_0;
        if release is Some {
            let body = BodyModel::Attempt(found);
            putting_grows(fenced, session, attempt.id, task_id, body);
            putting_is_local(fenced, session, attempt.id, task_id, body, op.id);
            putting_is_local(fenced, session, attempt.id, task_id, body, task_id);
        }
        let ended = OperationModel {
            state: OperationState::Acknowledged,
            updated_at_ms: now,
            ..op
        };
        let body = BodyModel::Operation(ended);
        putting_grows(settled, session, op.id, task_id, body);
        putting_is_local(settled, session, op.id, task_id, body, task_id);
        let filed = put(settled, session, op.id, task_id, body)->Ok_0;
        changing_grows(filed, task, "attempt_reconciled"@, op.id, now);
        let told = changed(filed, task, "attempt_reconciled"@, op.id, now)->Ok_0.0;
        let fact = BodyModel::Reconciliation(outcome->Ok_0.1);
        recording_grows(told, session, ended, FactKind::Reconciliation, fact);
        growth_is_transitive(s, fenced, settled);
        growth_is_transitive(s, settled, filed);
        growth_is_transitive(s, filed, told);
        growth_is_transitive(s, told, outcome->Ok_0.0);
    }
}

/// Recording what a reconciliation found is growth.
pub proof fn finding_grows(
    s: StoreModel,
    session: Text,
    operation_id: Text,
    expected_revision: u64,
    evidence: ReconciliationEvidenceModel,
    now: i64,
)
    requires
        well_formed(s),
    ensures
        finding_outcome(s, session, operation_id, expected_revision, evidence, now) matches Ok(
            (later, _),
        ) ==> {
            &&& well_formed(later)
            &&& grown(s, later)
            &&& steady(s.records, later.records)
            &&& found_only(
                s.records,
                later.records,
                session,
                FactKind::Reconciliation,
                operation_id,
            )
            &&& about::<ReconciliationReceipt>(s.records, session, operation_id) is Some ==> later
                == s
            &&& evidence is Unknown || evidence is Live ==> none_released(s.records, later.records)
        },
{
    let outcome = finding_outcome(s, session, operation_id, expected_revision, evidence, now);
    growth_is_reflexive(s);
    if outcome is Ok && about::<ReconciliationReceipt>(s.records, session, operation_id) is None {
        reveal(reconcile_subject);
        reveal(observed);
        let op = loaded::<Operation>(s, session, operation_id)->Ok_0;
        position_in_range(s.records, operation_id);
        let (task, attempt, start) = reconcile_subject(s, session, op, expected_revision)->Ok_0;
        position_in_range(s.records, op.attempt_id->0);
        let operations = listed::<Operation>(s.records, session, op.task_id);
        start_is_listed(operations, attempt.id);
        let at = listed_is_recorded::<Operation>(s.records, session, op.task_id, start);
        found_where_filed(s.records, at);
        let (observation, release) = observed(s, session, attempt, start, evidence)->Ok_0;
        settling_grows(s, session, task, op, attempt, start, observation, release, now);
    }
}

/// Whether identifiers are fresh: no record bears one of them, and no two are the same.
pub open spec fn fresh_ids(s: StoreModel, ids: Seq<Text>) -> bool {
    &&& forall|k: int| 0 <= k < ids.len() ==> unused(s, #[trigger] ids[k])
    &&& forall|j: int, k: int|
        0 <= j < k < ids.len() ==> (#[trigger] ids[j]) != (#[trigger] ids[k])
}

/// Filing shares is growth, and leaves the other records alone.
pub proof fn sharing_grows(
    s: StoreModel,
    session: Text,
    parent: TaskModel,
    child_id: Text,
    fence: DelegationFenceModel,
    existing: Seq<InputShareModel>,
    refs: Seq<FrozenInputRefModel>,
    ids: Seq<Text>,
    now: i64,
)
    requires
        well_formed(s),
        fresh_ids(s, ids),
        refs.len() <= ids.len(),
    ensures
        shares_filed(s, session, parent, child_id, fence, existing, refs, ids, now) matches Ok(later)
            ==> {
            &&& well_formed(later)
            &&& grown(s, later)
            &&& none_released(s.records, later.records)
            &&& steady(s.records, later.records)
            &&& nothing_found(s.records, later.records)
            &&& later.receipts == s.receipts
            &&& task_count(later.records) == task_count(s.records)
            &&& forall|other: Text|
                (forall|k: int| 0 <= k < refs.len() ==> (#[trigger] ids[k]) != other)
                    ==> #[trigger] position(later.records, other) == position(s.records, other) && (
                position(s.records, other) matches Some(i) ==> 0 <= i < s.records.len()
                    && later.records[i] == s.records[i])
        },
    decreases refs.len(),
{
    growth_is_reflexive(s);
    if refs.len() > 0 {
        if shares_filed(s, session, parent, child_id, fence, existing, refs, ids, now) is Ok {
            let rest = refs.drop_last();
            sharing_grows(s, session, parent, child_id, fence, existing, rest, ids, now);
            let before = shares_filed(
                s,
                session,
                parent,
                child_id,
                fence,
                existing,
                rest,
                ids,
                now,
            )->Ok_0;
            let later = shares_filed(
                s,
                session,
                parent,
                child_id,
                fence,
                existing,
                refs,
                ids,
                now,
            )->Ok_0;
            let id = ids[refs.len() - 1];
            assert(unused(s, id));
            assert forall|k: int| 0 <= k < rest.len() implies (#[trigger] ids[k]) != id by {}
            assert(position(before.records, id) == position(s.records, id));
            let source = reference_to(parent.input_refs, refs.last().input_id)->0;
            let body = BodyModel::InputShare(
                share_for(id, parent, child_id, fence, source, refs.last(), now),
            );
            putting_grows(before, session, id, child_id, body);
            assert(later.records.drop_last() =~= before.records);
            assert forall|other: Text|
                (forall|k: int| 0 <= k < refs.len() ==> (#[trigger] ids[k])
                    != other) implies #[trigger] position(later.records, other) == position(
                s.records,
                other,
            ) && (position(s.records, other) matches Some(i) ==> 0 <= i < s.records.len()
                && later.records[i] == s.records[i]) by {
                assert(ids[refs.len() - 1] != other);
                assert(position(before.records, other) == position(s.records, other));
                putting_is_local(before, session, id, child_id, body, other);
            }
            growth_is_transitive(s, before, later);
        }
    } else {
        assert forall|other: Text| true implies (#[trigger] position(s.records, other) matches Some(
            i,
        ) ==> 0 <= i < s.records.len()) by {
            position_in_range(s.records, other);
        }
    }
}

/// Filing shares leaves a record alone that bears none of their identifiers.
pub proof fn shares_miss(
    s: StoreModel,
    session: Text,
    parent: TaskModel,
    child_id: Text,
    fence: DelegationFenceModel,
    existing: Seq<InputShareModel>,
    refs: Seq<FrozenInputRefModel>,
    ids: Seq<Text>,
    now: i64,
    other: Text,
)
    requires
        forall|k: int| 0 <= k < ids.len() ==> (#[trigger] ids[k]) != other,
        refs.len() <= ids.len(),
    ensures
        shares_filed(s, session, parent, child_id, fence, existing, refs, ids, now) matches Ok(later)
            ==> position(later.records, other) == position(s.records, other) && (position(
            s.records,
            other,
        ) matches Some(i) ==> 0 <= i < s.records.len() && later.records[i] == s.records[i]),
    decreases refs.len(),
{
    position_in_range(s.records, other);
    if refs.len() > 0 && shares_filed(
        s,
        session,
        parent,
        child_id,
        fence,
        existing,
        refs,
        ids,
        now,
    ) is Ok {
        let rest = refs.drop_last();
        shares_miss(s, session, parent, child_id, fence, existing, rest, ids, now, other);
        let before = shares_filed(
            s,
            session,
            parent,
            child_id,
            fence,
            existing,
            rest,
            ids,
            now,
        )->Ok_0;
        let id = ids[refs.len() - 1];
        let source = reference_to(parent.input_refs, refs.last().input_id)->0;
        let share = share_for(id, parent, child_id, fence, source, refs.last(), now);
        putting_is_local(before, session, id, child_id, BodyModel::InputShare(share), other);
    }
}

/// Whether a task was added and put on the task list, and no other task and no attempt was added.
pub open spec fn task_added(
    s: StoreModel,
    later: StoreModel,
    session: Text,
    id: Text,
    parent: Option<Text>,
    at: int,
) -> bool {
    &&& s.records.len() <= at < later.records.len()
    &&& steady_but(s.records, later.records, at)
    &&& later.records[at].session == session
    &&& later.records[at].id == id
    &&& later.records[at].body matches BodyModel::Task(task) && task.parent_task_id == parent
    &&& neat(s) ==> summary_at(later.summaries, session, id) is Some
}

/// Opening a task is growth, and adds that task.
proof fn opening_task_grows(
    s: StoreModel,
    id: Text,
    request: RequestModel,
    input: CreateTaskModel,
    refs: Seq<InputRefModel>,
    now: i64,
)
    requires
        well_formed(s),
        unused(s, id),
        task_count(s.records) < MAX_TASKS,
        receipt_at(s.receipts, request.actor, request.session, request.kind, request.key) is None,
        s.receipts.len() < MAX_RECEIPTS,
    ensures
        task_opened(s, id, request, input, refs, now) matches Ok((later, _)) ==> {
            &&& well_formed(later)
            &&& grown(s, later)
            &&& none_released(s.records, later.records)
            &&& nothing_found(s.records, later.records)
            &&& task_added(
                s,
                later,
                request.session,
                id,
                input.parent_task_id,
                s.records.len() as int,
            )
        },
{
    let outcome = task_opened(s, id, request, input, refs, now);
    if outcome is Ok {
        let task = fresh_task(id, request.session, input, Seq::empty(), no_delegation(), now);
        let inputs = resolved(
            s,
            request.actor,
            request.session,
            input.repo_path,
            None,
            refs,
            now,
        )->Ok_0;
        claiming_grows(s, request.session, id, inputs);
        let held = claimed(s, request.session, id, inputs)->Ok_0;
        let whole = TaskModel { input_refs: inputs, ..task };
        changing_grows(held, whole, "task_created"@, id, now);
        let (next, created) = changed(held, whole, "task_created"@, id, now)->Ok_0;
        saving_grows(next, request, ReceiptBodyModel::Task(created));
        growth_is_transitive(s, held, next);
        growth_is_transitive(s, next, outcome->Ok_0.0);
        let body = BodyModel::Task(created);
        putting_is_local(held, request.session, id, id, body, id);
        list_is_current(held, whole, "task_created"@, id, now);
    }
}

/// Opening a child is growth, and adds that task.
proof fn opening_child_grows(
    s: StoreModel,
    id: Text,
    origin_id: Text,
    share_ids: Seq<Text>,
    request: RequestModel,
    input: CreateTaskModel,
    refs: Seq<InputRefModel>,
    context: DelegatedCreateModel,
    now: i64,
)
    requires
        well_formed(s),
        fresh_ids(s, share_ids.push(id).push(origin_id)),
        share_ids.len() >= MAX_REFS,
        task_count(s.records) < MAX_TASKS,
        receipt_at(s.receipts, request.actor, request.session, request.kind, request.key) is None,
        s.receipts.len() < MAX_RECEIPTS,
    ensures
        child_opened(s, id, origin_id, share_ids, request, input, refs, context, now) matches Ok(
            (later, _),
        ) ==> {
            &&& well_formed(later)
            &&& grown(s, later)
            &&& none_released(s.records, later.records)
            &&& nothing_found(s.records, later.records)
            &&& exists|at: int| #[trigger]
                task_added(s, later, request.session, id, input.parent_task_id, at)
        },
{
    let outcome = child_opened(s, id, origin_id, share_ids, request, input, refs, context, now);
    if outcome is Ok {
        let ids = share_ids.push(id).push(origin_id);
        let n = share_ids.len() as int;
        assert(ids[n] == id && ids[n + 1] == origin_id);
        assert forall|k: int| 0 <= k < share_ids.len() implies share_ids[k] != id && share_ids[k]
            != origin_id && unused(s, #[trigger] share_ids[k]) by {
            assert(ids[k] == share_ids[k]);
        }
        assert forall|j: int, k: int| 0 <= j < k < share_ids.len() implies (#[trigger] share_ids[j])
            != (#[trigger] share_ids[k]) by {
            assert(ids[j] == share_ids[j] && ids[k] == share_ids[k]);
        }
        let session = request.session;
        let parent = loaded::<Task>(s, session, context.fence.coordinator_task_id)->Ok_0;
        let task = fresh_task(
            id,
            session,
            input,
            context.dependencies,
            inherited_policy(parent.delegation.policy),
            now,
        );
        let inputs = parent_shares(s, request.actor, session, parent, refs, now)->Ok_0;
        let existing = listed::<InputShare>(s.records, session, id);
        sharing_grows(
            s,
            session,
            parent,
            id,
            context.fence,
            existing,
            inputs,
            share_ids,
            now,
        );
        let given = shared(s, session, parent, id, context.fence, inputs, share_ids, now)->Ok_0;
        assert(position(given.records, id) == position(s.records, id));
        assert(position(given.records, origin_id) == position(s.records, origin_id));
        let whole = TaskModel { input_refs: inputs, ..task };
        changing_grows(given, whole, "task_created"@, id, now);
        changing_is_local(given, whole, "task_created"@, id, now, origin_id);
        let (made, created) = changed(given, whole, "task_created"@, id, now)->Ok_0;
        let origin = BodyModel::DelegatedOrigin(
            DelegatedOriginModel { actor_id: request.actor, fence: context.fence },
        );
        putting_grows(made, session, origin_id, id, origin);
        let noted = put(made, session, origin_id, id, origin)->Ok_0;
        let above = loaded::<Task>(noted, session, context.fence.coordinator_task_id)->Ok_0;
        position_in_range(noted.records, context.fence.coordinator_task_id);
        changing_grows(noted, above, "child_created"@, id, now);
        let next = changed(noted, above, "child_created"@, id, now)->Ok_0.0;
        saving_grows(next, request, ReceiptBodyModel::Task(created));
        let later = outcome->Ok_0.0;
        growth_is_transitive(s, given, made);
        growth_is_transitive(s, made, noted);
        growth_is_transitive(s, noted, next);
        growth_is_transitive(s, next, later);
        growth_is_transitive(made, noted, next);
        growth_is_transitive(made, next, later);
        putting_is_local(given, session, id, id, BodyModel::Task(created), id);
        let at = given.records.len() as int;
        steadiness_is_transitive(s, given, made, at);
        steadiness_is_transitive(s, made, later, at);
        assert(record_follows(made.records[at], later.records[at]));
        list_is_current(given, whole, "task_created"@, id, now);
        listed_task_stays(s, made, later, session, id);
        assert(task_added(s, later, session, id, input.parent_task_id, at));
    }
}

/// Creating a task is growth. Unless it was carried out before, it adds that task.
pub proof fn creating_grows(
    s: StoreModel,
    id: Text,
    origin_id: Text,
    share_ids: Seq<Text>,
    actor: Text,
    session: Text,
    key: Text,
    input: CreateTaskModel,
    refs: Seq<InputRefModel>,
    context: Option<DelegatedCreateModel>,
    now: i64,
)
    requires
        well_formed(s),
        fresh_ids(s, share_ids.push(id).push(origin_id)),
        share_ids.len() >= MAX_REFS,
    ensures
        create_outcome(
            s,
            id,
            origin_id,
            share_ids,
            actor,
            session,
            key,
            input,
            refs,
            context,
            now,
        ) matches Ok((later, answer)) ==> {
            &&& well_formed(later)
            &&& grown(s, later)
            &&& none_released(s.records, later.records)
            &&& nothing_found(s.records, later.records)
            &&& answer.replayed ==> steady(s.records, later.records)
            &&& !answer.replayed ==> creation_admitted(s, session, input, context) is Ok && exists|
                at: int,
            | #[trigger]
                task_added(s, later, session, id, input.parent_task_id, at)
        },
{
    growth_is_reflexive(s);
    let ids = share_ids.push(id).push(origin_id);
    assert(ids[share_ids.len() as int] == id);
    let request = create_request(actor, session, key, input, refs, context);
    if replayed::<Task>(s, request) == Ok::<Option<TaskModel>, WorkError>(None)
        && creation_admitted(s, session, input, context) is Ok {
        match context {
            None => {
                opening_task_grows(s, id, request, input, refs, now);
            },
            Some(context) => {
                opening_child_grows(
                    s,
                    id,
                    origin_id,
                    share_ids,
                    request,
                    input,
                    refs,
                    context,
                    now,
                );
            },
        }
    }
}

/// Building the task list anew touches nothing but the list.
pub proof fn rebuilding_keeps(s: StoreModel)
    ensures
        summaries_rebuilt(s).0.records == s.records,
        summaries_rebuilt(s).0.receipts == s.receipts,
        summaries_rebuilt(s).0.changes == s.changes,
        summaries_rebuilt(s).0.last_cursor == s.last_cursor,
        summaries_rebuilt(s).0.inputs == s.inputs,
        summaries_rebuilt(s).0.deliveries == s.deliveries,
{
    catching_up_touches_list(s, s.changes);
    let start = StoreModel {
        summaries: Seq::empty(),
        summaries_ready: false,
        ..caught_up(s, s.changes)
    };
    refreshing_touches_list(start, s.records);
}

proof fn catching_up_touches_list(s: StoreModel, changes: Seq<ChangeRowModel>)
    ensures
        caught_up(s, changes).records == s.records,
        caught_up(s, changes).receipts == s.receipts,
        caught_up(s, changes).changes == s.changes,
        caught_up(s, changes).last_cursor == s.last_cursor,
        caught_up(s, changes).inputs == s.inputs,
        caught_up(s, changes).deliveries == s.deliveries,
    decreases changes.len(),
{
    if changes.len() > 0 {
        catching_up_touches_list(s, changes.drop_last());
    }
}

proof fn refreshing_touches_list(s: StoreModel, records: Seq<RecordModel>)
    ensures
        rebuilt(s, records).0.records == s.records,
        rebuilt(s, records).0.receipts == s.receipts,
        rebuilt(s, records).0.changes == s.changes,
        rebuilt(s, records).0.last_cursor == s.last_cursor,
        rebuilt(s, records).0.inputs == s.inputs,
        rebuilt(s, records).0.deliveries == s.deliveries,
    decreases records.len(),
{
    if records.len() > 0 {
        refreshing_touches_list(s, records.drop_last());
    }
}

/// A record that is no operation, or an operation that is not going out.
pub open spec fn is_settled(record: RecordModel) -> bool {
    record.body matches BodyModel::Operation(op) ==> op.state != OperationState::Submitting
}

/// Marking lost operations is growth. Those that were looked at are not going out, and those that
/// were not are as they were.
pub proof fn recovering_grows(s: StoreModel, n: int)
    requires
        well_formed(s),
        0 <= n <= s.records.len(),
    ensures
        all_recovered(s, s.records.take(n)) matches Ok(later) ==> {
            &&& well_formed(later)
            &&& grown(s, later)
            &&& none_released(s.records, later.records)
            &&& steady(s.records, later.records)
            &&& nothing_found(s.records, later.records)
            &&& later.records.len() == s.records.len()
            &&& forall|i: int|
                0 <= i < n ==> is_settled(#[trigger] later.records[i])
            &&& forall|i: int|
                n <= i < s.records.len() && s.records[i].body is Operation ==> #[trigger]
                    later.records[i] == s.records[i]
            &&& forall|i: int|
                0 <= i < s.records.len() ==> (#[trigger] later.records[i]).body is Operation
                    == s.records[i].body is Operation
            &&& forall|i: int|
                0 <= i < s.records.len() && !(s.records[i].body is Operation) && !(
                s.records[i].body is Task) ==> #[trigger] later.records[i] == s.records[i]
        },
    decreases n,
{
    growth_is_reflexive(s);
    if n > 0 && all_recovered(s, s.records.take(n)) is Ok {
        assert(s.records.take(n).drop_last() =~= s.records.take(n - 1));
        recovering_grows(s, n - 1);
        let before = all_recovered(s, s.records.take(n - 1))->Ok_0;
        let later = all_recovered(s, s.records.take(n))->Ok_0;
        let record = s.records[n - 1];
        assert(s.records.take(n).last() == record);
        growth_is_reflexive(before);
        assert(record_follows(record, before.records[n - 1]));
        match record.body {
            BodyModel::Operation(op) => {
                assert(before.records[n - 1] == record);
                if op.state == OperationState::Submitting {
                    found_where_filed(before.records, n - 1);
                    let body = BodyModel::Operation(lost(op));
                    putting_grows(before, record.session, op.id, op.task_id, body);
                    let filed = put(before, record.session, op.id, op.task_id, body)->Ok_0;
                    let task = loaded::<Task>(filed, record.session, op.task_id)->Ok_0;
                    position_in_range(filed.records, op.task_id);
                    changing_grows(filed, task, "operation_recovered"@, op.id, task.updated_at_ms);
                    growth_is_transitive(s, before, filed);
                    growth_is_transitive(s, filed, later);
                }
            },
            _ => {},
        }
    }
}

/// Opening a store is growth, and leaves no operation going out. Records that are no operations and
/// no tasks are as they were.
pub proof fn opening_grows(s: StoreModel)
    requires
        well_formed(s),
    ensures
        opened(s) matches Ok(later) ==> {
            &&& well_formed(later)
            &&& grown(s, later)
            &&& none_released(s.records, later.records)
            &&& steady(s.records, later.records)
            &&& nothing_found(s.records, later.records)
            &&& forall|i: int|
                0 <= i < later.records.len() ==> is_settled(#[trigger] later.records[i])
            &&& later.records.len() == s.records.len()
            &&& forall|i: int|
                0 <= i < s.records.len() && !(s.records[i].body is Operation) && !(
                s.records[i].body is Task) ==> #[trigger] later.records[i] == s.records[i]
        },
{
    rebuilding_keeps(s);
    let start = summaries_rebuilt(s).0;
    growth_is_reflexive(s);
    recovering_grows(start, start.records.len() as int);
    assert(start.records.take(start.records.len() as int) =~= start.records);
    if opened(s) is Ok {
        rebuilt_list_is_whole(s);
        growth_is_transitive(s, start, opened(s)->Ok_0);
    }
}

} // verus!
