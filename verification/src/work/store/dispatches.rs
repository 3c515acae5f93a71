//! What the transactions on attempts and operations leave behind, said of the records themselves.
use vstd::prelude::*;
use crate::text::byte_len;
use crate::text::is_native_identity;
use crate::text::is_said;
use crate::value::Text;
use crate::work::model::Attempt;
use crate::work::model::AttemptLifecycleModel;
use crate::work::model::AttemptModel;
use crate::work::model::AttemptReleaseModel;
use crate::work::model::DelegationFenceModel;
use crate::work::model::DependencyReadiness;
use crate::work::model::DependencySnapshotModel;
use crate::work::model::FailureCode;
use crate::work::model::LaunchPhase;
use crate::work::model::NativeBindingModel;
use crate::work::model::NativeStartRefusal;
use crate::work::model::NativeStartRefusalModel;
use crate::work::model::NewAttemptModel;
use crate::work::model::Operation;
use crate::work::model::OperationKind;
use crate::work::model::OperationModel;
use crate::work::model::OperationOutcomeModel;
use crate::work::model::OperationState;
use crate::work::model::ReleaseEvidenceModel;
use crate::work::model::ReleaseReason;
use crate::work::model::Reservation;
use crate::work::model::Task;
use crate::work::model::TaskModel;
use crate::work::model::WorkError;
use crate::work::model::unbound;
use crate::work::store::attempts::StartModel;
use crate::work::store::attempts::both_saved;
use crate::work::store::attempts::dispatch_outcome;
use crate::work::store::attempts::fresh_attempt;
use crate::work::store::attempts::has_lead;
use crate::work::store::attempts::in_phase;
use crate::work::store::attempts::is_lead;
use crate::work::store::attempts::launch_outcome;
use crate::work::store::attempts::start_admitted;
use crate::work::store::attempts::start_outcome;
use crate::work::store::attempts::start_refusal_outcome;
use crate::work::store::attempts::start_request;
use crate::work::store::authority::OperationTargetModel;
use crate::work::store::changes::changed;
use crate::work::store::changes::operation_saved;
use crate::work::store::dependencies::inspected;
use crate::work::store::effects::change_lands;
use crate::work::store::effects::keys_stand_for_requests;
use crate::work::store::effects::new_key;
use crate::work::store::effects::others_stay;
use crate::work::store::effects::others_stayed;
use crate::work::store::effects::put_lands;
use crate::work::store::effects::remembered;
use crate::work::store::effects::reserve_lands;
use crate::work::store::effects::same_place;
use crate::work::store::effects::standing_is_recorded;
use crate::work::store::facts::about;
use crate::work::store::facts::awaiting;
use crate::work::store::facts::fact_recorded;
use crate::work::store::facts::fact_reserved;
use crate::work::store::freshness::tasks_stand;
use crate::work::store::growth::beginning_grows;
use crate::work::store::growth::checkpointing_grows;
use crate::work::store::growth::dispatching_grows;
use crate::work::store::growth::finalizing_grows;
use crate::work::store::growth::informing_follows;
use crate::work::store::growth::launching_grows;
use crate::work::store::growth::merging_keeps;
use crate::work::store::growth::recorded_is_listed;
use crate::work::store::growth::refusing_grows;
use crate::work::store::growth::starting_grows;
use crate::work::store::history::attempt_follows;
use crate::work::store::history::awaiting_reserve;
use crate::work::store::history::filed_as_said;
use crate::work::store::history::found_where_filed;
use crate::work::store::history::is_fact;
use crate::work::store::history::leads;
use crate::work::store::history::may_put;
use crate::work::store::history::operation_follows;
use crate::work::store::history::putting_grows;
use crate::work::store::history::record_follows;
use crate::work::store::history::recording_grows;
use crate::work::store::history::reserving_grows;
use crate::work::store::history::unled;
use crate::work::store::history::unused;
use crate::work::store::history::well_formed;
use crate::work::store::operations::attempt_ended;
use crate::work::store::operations::attempt_informed;
use crate::work::store::operations::begin_outcome;
use crate::work::store::operations::begin_reserved;
use crate::work::store::operations::checkpoint_outcome;
use crate::work::store::operations::finalize_outcome;
use crate::work::store::operations::refusal_noted;
use crate::work::store::operations::refusal_released;
use crate::work::store::operations::refuse_outcome;
use crate::work::store::operations::released_undispatched;
use crate::work::store::readings::announces;
use crate::work::store::readings::recorded_as;
use crate::work::store::records::listed;
use crate::work::store::records::loaded;
use crate::work::store::records::position;
use crate::work::store::records::position_in_range;
use crate::work::store::records::put;
use crate::work::store::redeliveries::keeps_a_row;
use crate::work::store::redeliveries::rows_are_kept;
use crate::work::store::redeliveries::rows_stay_kept;
use crate::work::store::rules::merged;
use crate::work::store::summaries::is_active;
use crate::work::store::summaries::is_native;
use crate::work::store::tables::BodyModel;
use crate::work::store::tables::FactKind;
use crate::work::store::tables::InterruptionFactModel;
use crate::work::store::tables::ReceiptBodyModel;
use crate::work::store::tables::RecordModel;
use crate::work::store::tables::RequestKind;
use crate::work::store::tables::ReservedFactModel;
use crate::work::store::tables::StoreModel;

verus! {

/// One resource that was reported is kept: what is new is added, what was known stays, and nothing
/// contradicts.
pub open spec fn resource_joined(
    known: Option<Text>,
    report: Option<Text>,
    joined: Option<Text>,
) -> bool {
    &&& report is Some ==> joined == report && (known is None || known == report)
    &&& report is None ==> joined == known
}

/// Every resource that was reported is kept.
pub open spec fn binding_joined(
    known: NativeBindingModel,
    report: NativeBindingModel,
    joined: NativeBindingModel,
) -> bool {
    &&& resource_joined(known.workspace_id, report.workspace_id, joined.workspace_id)
    &&& resource_joined(known.tab_id, report.tab_id, joined.tab_id)
    &&& resource_joined(known.instance_id, report.instance_id, joined.instance_id)
    &&& resource_joined(known.target, report.target, joined.target)
    &&& resource_joined(known.pane_id, report.pane_id, joined.pane_id)
    &&& resource_joined(known.worktree_path, report.worktree_path, joined.worktree_path)
}

/// Whether a reported resource says something and fits.
pub open spec fn resource_fits(report: Option<Text>) -> bool {
    report matches Some(text) ==> is_said(text) && byte_len(text) <= 4096
}

/// Whether a report contradicts what is known.
pub open spec fn resource_clashes(known: Option<Text>, report: Option<Text>) -> bool {
    known is Some && report is Some && known != report
}

/// A report is merged exactly where it says nothing that does not fit or contradicts what is
/// known; and then what is known grows by it. What does not fit is invalid, what contradicts is
/// another process.
pub proof fn merging_is_exact(known: NativeBindingModel, report: NativeBindingModel)
    ensures
        ({
            let fits = resource_fits(report.workspace_id) && resource_fits(report.tab_id)
                && resource_fits(report.instance_id) && resource_fits(report.target)
                && resource_fits(report.pane_id) && resource_fits(report.worktree_path);
            let clashes = resource_clashes(known.workspace_id, report.workspace_id)
                || resource_clashes(known.tab_id, report.tab_id) || resource_clashes(
                known.instance_id,
                report.instance_id,
            ) || resource_clashes(known.target, report.target) || resource_clashes(
                known.pane_id,
                report.pane_id,
            ) || resource_clashes(known.worktree_path, report.worktree_path);
            match merged(known, report) {
                Ok(joined) => fits && !clashes && binding_joined(known, report, joined),
                Err(error) => (error.0 == FailureCode::InvalidInput && !fits) || (error.0
                    == FailureCode::InstanceChanged && clashes),
            }
        }),
{
}

/// An operation that was filed with a change of its task is found as it was filed, its task is one
/// revision further, the change is announced by the operation, and every other record is where it
/// was.
pub proof fn operation_lands(
    s: StoreModel,
    at: StoreModel,
    session: Text,
    op: OperationModel,
    now: i64,
)
    requires
        well_formed(at),
        at.changes == s.changes,
        at.last_cursor == s.last_cursor,
        may_put(at, session, op.id, op.task_id, BodyModel::Operation(op)),
        position(at.records, op.id) matches Some(i) && at.records[i].session == session,
    ensures
        operation_saved(at, session, op, now) matches Ok(later) ==> {
            &&& well_formed(later)
            &&& loaded::<Operation>(later, session, op.id) == Ok::<OperationModel, WorkError>(op)
            &&& loaded::<Task>(at, session, op.task_id) matches Ok(task) && task.revision < u64::MAX
                && loaded::<Task>(later, session, op.task_id) == Ok::<TaskModel, WorkError>(
                TaskModel {
                    revision: (task.revision + 1) as u64,
                    updated_at_ms: now,
                    ..task
                },
            ) && announces(
                s,
                later,
                session,
                op.task_id,
                task.revision + 1,
                "operation_changed"@,
                op.id,
            )
            &&& later.receipts == at.receipts && later.inputs == at.inputs && later.deliveries
                == at.deliveries
            &&& forall|other: Text|
                other != op.id && other != op.task_id ==> #[trigger] same_place(at, later, other)
        },
{
    if operation_saved(at, session, op, now) is Ok {
        let later = operation_saved(at, session, op, now)->Ok_0;
        let body = BodyModel::Operation(op);
        position_in_range(at.records, op.id);
        put_lands(at, session, op.id, op.task_id, body);
        putting_grows(at, session, op.id, op.task_id, body);
        let filed = put(at, session, op.id, op.task_id, body)->Ok_0;
        let task = loaded::<Task>(filed, session, op.task_id)->Ok_0;
        tasks_stand(filed, session, op.task_id);
        position_in_range(filed.records, op.task_id);
        assert(op.id != op.task_id);
        assert(same_place(at, filed, op.task_id));
        change_lands(s, filed, task, "operation_changed"@, op.id, now);
        assert(same_place(filed, later, op.id));
        assert forall|other: Text|
            other != op.id && other != op.task_id implies #[trigger] same_place(
                at,
                later,
                other,
            ) by {
            assert(same_place(at, filed, other) && same_place(filed, later, other));
        }
    }
}

/// An attempt and its operation that were filed together are found as they were filed.
pub proof fn both_land(
    s: StoreModel,
    at: StoreModel,
    session: Text,
    attempt_id: Text,
    attempt: AttemptModel,
    op: OperationModel,
    now: i64,
)
    requires
        well_formed(at),
        at.changes == s.changes,
        at.last_cursor == s.last_cursor,
        loaded::<Attempt>(at, session, attempt_id) is Ok,
        loaded::<Operation>(at, session, op.id) is Ok,
        attempt_follows(loaded::<Attempt>(at, session, attempt_id)->Ok_0, attempt),
        attempt.lifecycle.native_owner_epoch is Some ==> attempt.lifecycle.launch_phase
            == LaunchPhase::LaunchConfirmed,
        attempt.lifecycle.release is Some ==> !is_active(attempt),
        operation_follows(loaded::<Operation>(at, session, op.id)->Ok_0, op),
    ensures
        both_saved(at, session, attempt_id, attempt, op, now) matches Ok((later, told)) ==> {
            &&& told == op
            &&& well_formed(later)
            &&& loaded::<Attempt>(later, session, attempt_id) == Ok::<AttemptModel, WorkError>(
                attempt,
            )
            &&& loaded::<Operation>(later, session, op.id) == Ok::<OperationModel, WorkError>(op)
            &&& loaded::<Task>(at, session, op.task_id) matches Ok(task) && task.revision < u64::MAX
                && loaded::<Task>(later, session, op.task_id) == Ok::<TaskModel, WorkError>(
                TaskModel {
                    revision: (task.revision + 1) as u64,
                    updated_at_ms: now,
                    ..task
                },
            ) && announces(
                s,
                later,
                session,
                op.task_id,
                task.revision + 1,
                "operation_changed"@,
                op.id,
            )
            &&& later.receipts == at.receipts && later.inputs == at.inputs && later.deliveries
                == at.deliveries
            &&& forall|other: Text|
                other != op.id && other != op.task_id && other != attempt_id
                    ==> #[trigger] same_place(at, later, other)
        },
{
    if both_saved(at, session, attempt_id, attempt, op, now) is Ok {
        let later = both_saved(at, session, attempt_id, attempt, op, now)->Ok_0.0;
        position_in_range(at.records, attempt_id);
        position_in_range(at.records, op.id);
        let body = BodyModel::Attempt(attempt);
        put_lands(at, session, attempt_id, op.task_id, body);
        putting_grows(at, session, attempt_id, op.task_id, body);
        let held = put(at, session, attempt_id, op.task_id, body)->Ok_0;
        assert(same_place(at, held, op.id));
        operation_lands(s, held, session, op, now);
        let task = loaded::<Task>(held, session, op.task_id)->Ok_0;
        assert(attempt_id != op.task_id);
        assert(same_place(at, held, op.task_id));
        assert(same_place(held, later, attempt_id));
        assert forall|other: Text|
            other != op.id && other != op.task_id && other
                != attempt_id implies #[trigger] same_place(at, later, other) by {
            assert(same_place(at, held, other) && same_place(held, later, other));
        }
    }
}

/// Whether an attempt stands as it was first recorded: reserved, not dispatched, and bound to
/// nothing.
pub open spec fn is_new_attempt(
    attempt: AttemptModel,
    id: Text,
    task_id: Text,
    input: NewAttemptModel,
    now: i64,
) -> bool {
    &&& attempt.id == id
    &&& attempt.task_id == task_id
    &&& attempt.agent_kind == input.agent_kind
    &&& attempt.role == input.role
    &&& attempt.created_at_ms == now
    &&& attempt.lifecycle.launch_phase == LaunchPhase::NotDispatched
    &&& attempt.lifecycle.reservation == Reservation::Reserved
    &&& attempt.lifecycle.native_owner_epoch is None
    &&& attempt.lifecycle.release is None
    &&& is_unbound(attempt.binding)
}

/// Whether nothing native is known.
pub open spec fn is_unbound(binding: NativeBindingModel) -> bool {
    &&& binding.workspace_id is None
    &&& binding.tab_id is None
    &&& binding.instance_id is None
    &&& binding.target is None
    &&& binding.pane_id is None
    &&& binding.worktree_path is None
}

/// Whether an operation stands as it was first recorded: prepared, and about just this.
pub open spec fn is_new_operation(
    op: OperationModel,
    id: Text,
    task_id: Text,
    attempt_id: Text,
    kind: OperationKind,
    now: i64,
) -> bool {
    &&& op.id == id
    &&& op.task_id == task_id
    &&& op.attempt_id == Some(attempt_id)
    &&& op.kind == kind
    &&& op.state == OperationState::Prepared
    &&& op.failure_code is None
    &&& op.interruption_receipt is None
    &&& op.created_at_ms == now
    &&& op.updated_at_ms == now
}

/// Starting an attempt records a new attempt of the kind and the role that was asked for, a
/// prepared operation that starts it under the fence it was asked under, with the prerequisites
/// that were met, and quota for a refusal. It is announced by the operation. The kind of agent is
/// one that the task allows.
pub proof fn starting_is_exact(
    s: StoreModel,
    attempt_id: Text,
    op_id: Text,
    fact_id: Text,
    d: StartModel,
    fence: Option<DelegationFenceModel>,
    now: i64,
)
    requires
        well_formed(s),
        unused(s, attempt_id),
        unused(s, op_id),
        unused(s, fact_id),
        attempt_id != op_id,
        attempt_id != fact_id,
        op_id != fact_id,
    ensures
        start_outcome(s, attempt_id, op_id, fact_id, d, fence, now) matches Ok((next, answer))
            ==> (!answer.replayed ==> {
            let kind = RequestKind::Work(OperationKind::StartAttempt);
            &&& new_key(s, d.actor, d.session, kind, d.key)
            &&& loaded::<Task>(s, d.session, d.task_id) matches Ok(task) && task.revision
                == d.expected_revision && task.policy.allowed_agents.contains(d.input.agent_kind)
                && !task.paused && inspected(s, d.session, task) == Ok::<
                (DependencyReadiness, Seq<DependencySnapshotModel>),
                WorkError,
            >((DependencyReadiness::Ready, answer.value.dependency_snapshot)) && recorded_as(
                next,
                d.session,
                d.task_id,
                BodyModel::Task(
                    TaskModel {
                        revision: (d.expected_revision + 1) as u64,
                        updated_at_ms: now,
                        ..task
                    },
                ),
            )
            &&& is_new_operation(
                answer.value,
                op_id,
                d.task_id,
                attempt_id,
                OperationKind::StartAttempt,
                now,
            )
            &&& answer.value.delegation_fence == fence && is_unbound(answer.value.resources)
                && answer.value.input_refs.len() == 0 && answer.value.bootstrap_version is None
            &&& recorded_as(next, d.session, op_id, BodyModel::Operation(answer.value))
            &&& loaded::<Attempt>(
                next,
                d.session,
                attempt_id,
            ) matches Ok(attempt) && is_new_attempt(
                attempt,
                attempt_id,
                d.task_id,
                d.input,
                now,
            )
            &&& keeps_a_row(next, d.session, FactKind::StartRefusal, op_id)
            &&& others_stay(s, next, seq![attempt_id, op_id, fact_id, d.task_id])
            &&& announces(
                s,
                next,
                d.session,
                d.task_id,
                d.expected_revision + 1,
                "attempt_prepared"@,
                op_id,
            )
            &&& remembered(
                s,
                next,
                d.actor,
                d.session,
                kind,
                d.key,
                ReceiptBodyModel::Operation(answer.value),
            )
        }),
        start_outcome(s, attempt_id, op_id, fact_id, d, fence, now) matches Ok((next, answer))
            ==> (answer.replayed ==> next == s),
{
    let outcome = start_outcome(s, attempt_id, op_id, fact_id, d, fence, now);
    let request = start_request(d, fence);
    keys_stand_for_requests::<Operation>(s, request);
    if outcome is Ok && !outcome->Ok_0.1.replayed {
        let (task, snapshot) = start_admitted(s, d, fence)->Ok_0;
        let (session, task_id) = (d.session, d.task_id);
        tasks_stand(s, session, task_id);
        position_in_range(s.records, task_id);
        let attempt = fresh_attempt(attempt_id, task_id, d.input, now);
        let op = outcome->Ok_0.1.value;
        let first = BodyModel::Attempt(attempt);
        let second = BodyModel::Operation(op);
        starting_grows(s, attempt_id, op_id, fact_id, d, fence, now);
        assert(is_lead(attempt) ==> unled(s.records, session, task_id)) by {
            assert forall|i: int| 0 <= i < s.records.len() && leads(
                #[trigger] s.records[i],
                session,
                task_id,
            ) implies has_lead(listed::<Attempt>(s.records, session, task_id)) by {
                let lead = s.records[i].body->Attempt_0;
                recorded_is_listed::<Attempt>(s.records, session, task_id, i, lead);
            }
        }
        put_lands(s, session, attempt_id, task_id, first);
        putting_grows(s, session, attempt_id, task_id, first);
        let held = put(s, session, attempt_id, task_id, first)->Ok_0;
        assert(same_place(s, held, op_id));
        assert(same_place(s, held, fact_id));
        assert(same_place(s, held, task_id));
        put_lands(held, session, op_id, task_id, second);
        putting_grows(held, session, op_id, task_id, second);
        let filed = put(held, session, op_id, task_id, second)->Ok_0;
        assert(same_place(held, filed, fact_id));
        assert(same_place(held, filed, task_id));
        assert(same_place(held, filed, attempt_id));
        reserve_lands(filed, session, op, FactKind::StartRefusal, fact_id);
        reserving_grows(filed, session, op, FactKind::StartRefusal, fact_id);
        let kept = fact_reserved(filed, session, op, FactKind::StartRefusal, fact_id)->Ok_0;
        assert(same_place(filed, kept, task_id));
        assert(same_place(filed, kept, attempt_id));
        assert(same_place(filed, kept, op_id));
        change_lands(s, kept, task, "attempt_prepared"@, op_id, now);
        let next = changed(kept, task, "attempt_prepared"@, op_id, now)->Ok_0.0;
        let later = outcome->Ok_0.0;
        assert(same_place(kept, next, attempt_id));
        assert(same_place(kept, next, op_id));
        rows_are_kept(filed, session, op, FactKind::StartRefusal, fact_id);
        rows_stay_kept(kept, next, session, FactKind::StartRefusal, op_id, task_id);
        assert(later.records == next.records);
        let ids = seq![attempt_id, op_id, fact_id, task_id];
        assert(ids[0] == attempt_id && ids[1] == op_id && ids[2] == fact_id && ids[3] == task_id);
        assert forall|other: Text| !ids.contains(other) implies #[trigger] same_place(
            s,
            later,
            other,
        ) by {
            assert(same_place(s, held, other) && same_place(held, filed, other));
            assert(same_place(filed, kept, other) && same_place(kept, next, other));
        }
        others_stayed(s, later, ids);
        assert(later.receipts.take(s.receipts.len() as int) =~= s.receipts);
        standing_is_recorded(next, session, task_id);
        standing_is_recorded(next, session, op_id);
        let k = choose|k: int|
            0 <= k < task.policy.allowed_agents.len() && task.policy.allowed_agents[k]
                == d.input.agent_kind;
        assert(task.policy.allowed_agents[k] == d.input.agent_kind);
    }
}

/// Claiming a dispatch moves the attempt of a start that is going out from not dispatched to
/// claimed, and records the prerequisites that are met now. It changes nothing else of the two.
pub proof fn dispatching_is_exact(
    s: StoreModel,
    fact_id: Text,
    session: Text,
    operation_id: Text,
    target: Option<OperationTargetModel>,
    now: i64,
)
    requires
        well_formed(s),
        unused(s, fact_id),
    ensures
        dispatch_outcome(
            s,
            fact_id,
            session,
            operation_id,
            target,
            now,
        ) matches Ok((later, op)) ==> {
            &&& loaded::<Operation>(s, session, operation_id) matches Ok(was) && was.kind
                == OperationKind::StartAttempt && was.state == OperationState::Submitting && op == (
            OperationModel {
                dependency_snapshot: op.dependency_snapshot,
                updated_at_ms: now,
                ..was
            })
            &&& recorded_as(later, session, operation_id, BodyModel::Operation(op))
            &&& op.attempt_id matches Some(id) && (loaded::<Attempt>(s, session, id) matches Ok(
                attempt,
            ) && attempt.lifecycle.launch_phase == LaunchPhase::NotDispatched
                && attempt.lifecycle.reservation == Reservation::Reserved && attempt.task_id
                == op.task_id && recorded_as(
                later,
                session,
                id,
                BodyModel::Attempt(
                    AttemptModel {
                        lifecycle: AttemptLifecycleModel {
                            launch_phase: LaunchPhase::DispatchClaimed,
                            ..attempt.lifecycle
                        },
                        ..attempt
                    },
                ),
            ) && others_stay(s, later, seq![operation_id, id, fact_id, op.task_id]))
            &&& loaded::<Task>(s, session, op.task_id) matches Ok(task) && !task.paused
                && inspected(s, session, task) == Ok::<
                (DependencyReadiness, Seq<DependencySnapshotModel>),
                WorkError,
            >((DependencyReadiness::Ready, op.dependency_snapshot)) && announces(
                s,
                later,
                session,
                op.task_id,
                task.revision + 1,
                "operation_changed"@,
                operation_id,
            )
            &&& later.receipts == s.receipts
        },
{
    let outcome = dispatch_outcome(s, fact_id, session, operation_id, target, now);
    if outcome is Ok {
        let (later, op) = outcome->Ok_0;
        let was = loaded::<Operation>(s, session, operation_id)->Ok_0;
        position_in_range(s.records, operation_id);
        assert(filed_as_said(s.records[position(s.records, operation_id)->0]));
        let attempt_id = was.attempt_id->0;
        let attempt = loaded::<Attempt>(s, session, attempt_id)->Ok_0;
        position_in_range(s.records, attempt_id);
        assert(filed_as_said(s.records[position(s.records, attempt_id)->0]));
        dispatching_grows(s, fact_id, session, operation_id, target, now);
        reserve_lands(s, session, op, FactKind::StartRefusal, fact_id);
        reserving_grows(s, session, op, FactKind::StartRefusal, fact_id);
        let kept = fact_reserved(s, session, op, FactKind::StartRefusal, fact_id)->Ok_0;
        assert(same_place(s, kept, operation_id));
        assert(same_place(s, kept, attempt_id));
        let claimed_attempt = in_phase(attempt, LaunchPhase::DispatchClaimed);
        both_land(s, kept, session, attempt_id, claimed_attempt, op, now);
        let task = loaded::<Task>(s, session, op.task_id)->Ok_0;
        position_in_range(s.records, op.task_id);
        assert(same_place(s, kept, op.task_id));
        let ids = seq![operation_id, attempt_id, fact_id, op.task_id];
        assert(ids[0] == operation_id && ids[1] == attempt_id && ids[2] == fact_id && ids[3]
            == op.task_id);
        assert forall|other: Text| !ids.contains(other) implies #[trigger] same_place(
            s,
            later,
            other,
        ) by {
            assert(same_place(s, kept, other) && same_place(kept, later, other));
        }
        others_stayed(s, later, ids);
        standing_is_recorded(later, session, operation_id);
        standing_is_recorded(later, session, attempt_id);
    }
}

/// Recording a launch confirms the claimed attempt, with the owner's epoch and the process as they
/// were reported, while no proof stands that nothing was started.
pub proof fn launching_is_exact(
    s: StoreModel,
    session: Text,
    operation_id: Text,
    resources: NativeBindingModel,
    owner_epoch: Text,
    now: i64,
)
    requires
        well_formed(s),
    ensures
        launch_outcome(
            s,
            session,
            operation_id,
            resources,
            owner_epoch,
            now,
        ) matches Ok((later, op))
            ==> {
            &&& is_native_identity(owner_epoch) && resources.instance_id is Some
                && is_native_identity(resources.instance_id->0)
            &&& loaded::<Operation>(s, session, operation_id) matches Ok(was) && was.kind
                == OperationKind::StartAttempt && was.state == OperationState::Submitting && op == (
            OperationModel { resources: op.resources, updated_at_ms: now, ..was }) && binding_joined(
                was.resources,
                resources,
                op.resources,
            )
            &&& about::<NativeStartRefusal>(s.records, session, operation_id) is None
            &&& recorded_as(later, session, operation_id, BodyModel::Operation(op))
            &&& op.attempt_id matches Some(id) && (loaded::<Attempt>(s, session, id) matches Ok(
                attempt,
            ) && attempt.lifecycle.launch_phase == LaunchPhase::DispatchClaimed
                && attempt.lifecycle.reservation == Reservation::Reserved && (loaded::<Attempt>(
                later,
                session,
                id,
            ) matches Ok(launched) && launched == (AttemptModel {
                lifecycle: AttemptLifecycleModel {
                    launch_phase: LaunchPhase::LaunchConfirmed,
                    native_owner_epoch: Some(owner_epoch),
                    ..attempt.lifecycle
                },
                binding: launched.binding,
                ..attempt
            }) && binding_joined(attempt.binding, op.resources, launched.binding)
                && launched.binding.instance_id == resources.instance_id) && others_stay(
                s,
                later,
                seq![operation_id, id, op.task_id],
            ))
            &&& later.receipts == s.receipts
        },
{
    let outcome = launch_outcome(s, session, operation_id, resources, owner_epoch, now);
    if outcome is Ok {
        let (later, op) = outcome->Ok_0;
        let was = loaded::<Operation>(s, session, operation_id)->Ok_0;
        position_in_range(s.records, operation_id);
        assert(filed_as_said(s.records[position(s.records, operation_id)->0]));
        let attempt_id = was.attempt_id->0;
        let attempt = loaded::<Attempt>(s, session, attempt_id)->Ok_0;
        position_in_range(s.records, attempt_id);
        assert(filed_as_said(s.records[position(s.records, attempt_id)->0]));
        merging_is_exact(was.resources, resources);
        merging_is_exact(attempt.binding, op.resources);
        merging_keeps(was.resources, resources);
        merging_keeps(attempt.binding, op.resources);
        launching_grows(s, session, operation_id, resources, owner_epoch, now);
        let launched = AttemptModel {
            lifecycle: AttemptLifecycleModel {
                launch_phase: LaunchPhase::LaunchConfirmed,
                native_owner_epoch: Some(owner_epoch),
                ..attempt.lifecycle
            },
            binding: merged(attempt.binding, op.resources)->Ok_0,
            ..attempt
        };
        both_land(s, s, session, attempt_id, launched, op, now);
        let ids = seq![operation_id, attempt_id, op.task_id];
        assert(ids[0] == operation_id && ids[1] == attempt_id && ids[2] == op.task_id);
        assert forall|other: Text| !ids.contains(other) implies #[trigger] same_place(
            s,
            later,
            other,
        ) by {}
        others_stayed(s, later, ids);
        standing_is_recorded(later, session, operation_id);
    }
}

/// Letting an operation go out takes it from prepared to going out, and changes nothing else of
/// it. The attempt of a native operation holds its reservation, and a start goes out only under a
/// task that is not paused.
pub proof fn beginning_is_exact(
    s: StoreModel,
    fact_id: Text,
    session: Text,
    operation_id: Text,
    target: Option<OperationTargetModel>,
    now: i64,
)
    requires
        well_formed(s),
        unused(s, fact_id),
    ensures
        begin_outcome(s, fact_id, session, operation_id, target, now) matches Ok((later, op)) ==> {
            &&& loaded::<Operation>(s, session, operation_id) matches Ok(was) && was.state
                == OperationState::Prepared && op == (OperationModel {
                state: OperationState::Submitting,
                updated_at_ms: now,
                ..was
            })
            &&& recorded_as(later, session, operation_id, BodyModel::Operation(op))
            &&& op.kind == OperationKind::StartAttempt || op.kind == OperationKind::DeliverPrompt
                || op.kind == OperationKind::InterruptAttempt ==> (op.attempt_id matches Some(id) && (
            loaded::<Attempt>(s, session, id) matches Ok(attempt) && attempt.lifecycle.reservation
                == Reservation::Reserved))
            &&& loaded::<Task>(s, session, op.task_id) matches Ok(task) && (op.kind
                == OperationKind::StartAttempt ==> !task.paused) && announces(
                s,
                later,
                session,
                op.task_id,
                task.revision + 1,
                "operation_changed"@,
                operation_id,
            )
            &&& others_stay(s, later, seq![operation_id, fact_id, op.task_id])
            &&& op.kind != OperationKind::ReconcileAttempt ==> others_stay(
                s,
                later,
                seq![operation_id, op.task_id],
            )
            &&& later.receipts == s.receipts
        },
{
    let outcome = begin_outcome(s, fact_id, session, operation_id, target, now);
    if outcome is Ok {
        let (later, op) = outcome->Ok_0;
        let was = loaded::<Operation>(s, session, operation_id)->Ok_0;
        position_in_range(s.records, operation_id);
        assert(filed_as_said(s.records[position(s.records, operation_id)->0]));
        beginning_grows(s, fact_id, session, operation_id, target, now);
        reserve_lands(s, session, was, FactKind::Reconciliation, fact_id);
        reserving_grows(s, session, was, FactKind::Reconciliation, fact_id);
        assert forall|other: Text| #[trigger] same_place(s, s, other) by {
            position_in_range(s.records, other);
        }
        let kept = begin_reserved(s, fact_id, session, was)->Ok_0;
        assert(same_place(s, kept, operation_id));
        operation_lands(s, kept, session, op, now);
        let task = loaded::<Task>(kept, session, op.task_id)->Ok_0;
        position_in_range(kept.records, op.task_id);
        assert(op.task_id != fact_id || kept == s) by {
            if op.task_id == fact_id && kept != s {
                let body = BodyModel::Reserved(
                    ReservedFactModel {
                        purpose: FactKind::Reconciliation,
                        operation_id: was.id,
                    },
                );
                put_lands(s, session, fact_id, was.task_id, body);
            }
        }
        assert(same_place(s, kept, op.task_id));
        if is_native(op.kind) {
            let id = op.attempt_id->0;
            position_in_range(kept.records, id);
            assert(kept == s);
        }
        let ids = seq![operation_id, fact_id, op.task_id];
        assert(ids[0] == operation_id && ids[1] == fact_id && ids[2] == op.task_id);
        assert forall|other: Text| !ids.contains(other) implies #[trigger] same_place(
            s,
            later,
            other,
        ) by {
            assert(same_place(s, kept, other) && same_place(kept, later, other));
        }
        others_stayed(s, later, ids);
        if op.kind != OperationKind::ReconcileAttempt {
            let two = seq![operation_id, op.task_id];
            assert(two[0] == operation_id && two[1] == op.task_id);
            assert forall|other: Text| !two.contains(other) implies #[trigger] same_place(
                s,
                later,
                other,
            ) by {
                assert(same_place(kept, later, other));
            }
            others_stayed(s, later, two);
        }
        standing_is_recorded(later, session, operation_id);
    }
}

/// What an operation tells its attempt: what is known of the process is added to what was known,
/// and a process that shows up before any dispatch was claimed leaves the launch unknown. Nothing
/// else of the attempt changes.
pub open spec fn attempt_told(
    attempt: AttemptModel,
    op: OperationModel,
    later: AttemptModel,
) -> bool {
    &&& later == (AttemptModel {
        lifecycle: AttemptLifecycleModel {
            launch_phase: later.lifecycle.launch_phase,
            reservation: later.lifecycle.reservation,
            release: later.lifecycle.release,
            ..attempt.lifecycle
        },
        binding: later.binding,
        ..attempt
    })
    &&& binding_joined(attempt.binding, op.resources, later.binding)
    &&& later.lifecycle.launch_phase == if op.kind == OperationKind::StartAttempt
        && op.resources.instance_id is Some && attempt.lifecycle.launch_phase
        == LaunchPhase::NotDispatched {
        LaunchPhase::LegacyUnknown
    } else {
        attempt.lifecycle.launch_phase
    }
}

/// Recording native resources adds them to what the operation and its attempt know, and changes
/// nothing else of the two. It is done while an operation goes out; after that only for the
/// placement of a start that was refused before it was dispatched.
pub proof fn checkpointing_is_exact(
    s: StoreModel,
    session: Text,
    operation_id: Text,
    resources: NativeBindingModel,
    now: i64,
)
    requires
        well_formed(s),
    ensures
        checkpoint_outcome(s, session, operation_id, resources, now) matches Ok((later, op)) ==> {
            &&& loaded::<Operation>(s, session, operation_id) matches Ok(was) && op == (
            OperationModel { resources: op.resources, updated_at_ms: now, ..was }) && binding_joined(
                was.resources,
                resources,
                op.resources,
            ) && op.kind != OperationKind::InterruptAttempt && (op.state
                == OperationState::Submitting || op.state == OperationState::Refused && op.kind
                == OperationKind::StartAttempt && resources.instance_id is None && resources.target
                is None)
            &&& recorded_as(later, session, operation_id, BodyModel::Operation(op))
            &&& op.attempt_id is None ==> others_stay(s, later, seq![operation_id, op.task_id])
            &&& op.attempt_id matches Some(id) ==> (loaded::<Attempt>(s, session, id) matches Ok(
                attempt,
            ) && (loaded::<Attempt>(later, session, id) matches Ok(next) && attempt_told(
                attempt,
                op,
                next,
            ) && next.lifecycle.reservation == attempt.lifecycle.reservation
                && next.lifecycle.release == attempt.lifecycle.release) && others_stay(
                s,
                later,
                seq![operation_id, id, op.task_id],
            ) && (op.state == OperationState::Refused ==> attempt.lifecycle.launch_phase
                == LaunchPhase::NotDispatched && attempt.lifecycle.reservation
                == Reservation::Released))
            &&& later.receipts == s.receipts
        },
{
    let outcome = checkpoint_outcome(s, session, operation_id, resources, now);
    if outcome is Ok {
        let (later, op) = outcome->Ok_0;
        let was = loaded::<Operation>(s, session, operation_id)->Ok_0;
        position_in_range(s.records, operation_id);
        assert(filed_as_said(s.records[position(s.records, operation_id)->0]));
        merging_is_exact(was.resources, resources);
        merging_keeps(was.resources, resources);
        checkpointing_grows(s, session, operation_id, resources, now);
        match op.attempt_id {
            None => {
                operation_lands(s, s, session, op, now);
                let ids = seq![operation_id, op.task_id];
                assert(ids[0] == operation_id && ids[1] == op.task_id);
                assert forall|other: Text| !ids.contains(other) implies #[trigger] same_place(
                    s,
                    later,
                    other,
                ) by {}
                others_stayed(s, later, ids);
            },
            Some(id) => {
                position_in_range(s.records, id);
                assert(filed_as_said(s.records[position(s.records, id)->0]));
                let attempt = loaded::<Attempt>(s, session, id)->Ok_0;
                informing_follows(attempt, op);
                merging_is_exact(attempt.binding, op.resources);
                let next = attempt_informed(attempt, op)->Ok_0;
                both_land(s, s, session, id, next, op, now);
                let ids = seq![operation_id, id, op.task_id];
                assert(ids[0] == operation_id && ids[1] == id && ids[2] == op.task_id);
                assert forall|other: Text| !ids.contains(other) implies #[trigger] same_place(
                    s,
                    later,
                    other,
                ) by {}
                others_stayed(s, later, ids);
            },
        }
        standing_is_recorded(later, session, operation_id);
    }
}

/// Ending an operation that is going out leaves it in the state, with the failure and with the
/// resources that were reported, and changes nothing else of it. Its attempt learns what it knows;
/// it gives its reservation back exactly where a start was refused with nothing made and nothing
/// dispatched, and says so.
pub proof fn finalizing_is_exact(
    s: StoreModel,
    session: Text,
    operation_id: Text,
    end: OperationOutcomeModel,
    now: i64,
)
    requires
        well_formed(s),
    ensures
        finalize_outcome(s, session, operation_id, end, now) matches Ok((later, op)) ==> {
            &&& loaded::<Operation>(s, session, operation_id) matches Ok(was) && was.state
                == OperationState::Submitting && was.kind != OperationKind::InterruptAttempt && op
                == (OperationModel {
                resources: op.resources,
                state: end.state,
                failure_code: end.failure_code,
                updated_at_ms: now,
                ..was
            }) && binding_joined(was.resources, end.resources, op.resources)
            &&& end.state == OperationState::Acknowledged || end.state == OperationState::Refused
                || end.state == OperationState::Unconfirmed
            &&& recorded_as(later, session, operation_id, BodyModel::Operation(op))
            &&& op.attempt_id is None ==> others_stay(s, later, seq![operation_id, op.task_id])
            &&& op.attempt_id matches Some(id) ==> (loaded::<Attempt>(s, session, id) matches Ok(
                attempt,
            ) && (loaded::<Attempt>(later, session, id) matches Ok(next) && attempt_told(
                attempt,
                op,
                next,
            ) && ({
                let given_back = op.kind == OperationKind::StartAttempt && end.state
                    == OperationState::Refused && is_unbound(op.resources)
                    && attempt.lifecycle.launch_phase == LaunchPhase::NotDispatched;
                &&& !given_back ==> next.lifecycle.reservation == attempt.lifecycle.reservation
                    && next.lifecycle.release == attempt.lifecycle.release
                &&& given_back ==> next.lifecycle.reservation == Reservation::Released
                    && next.lifecycle.release == Some(
                    AttemptReleaseModel {
                        reason: ReleaseReason::StartupNotDispatched,
                        evidence: ReleaseEvidenceModel::GatewayDispatchFence {
                            start_operation_id: operation_id,
                        },
                        reconciliation_operation_id: operation_id,
                        released_at_ms: now,
                    },
                )
            })) && others_stay(s, later, seq![operation_id, id, op.task_id]))
            &&& loaded::<Task>(s, session, op.task_id) matches Ok(task) && announces(
                s,
                later,
                session,
                op.task_id,
                task.revision + 1,
                "operation_changed"@,
                operation_id,
            )
            &&& later.receipts == s.receipts
        },
{
    let outcome = finalize_outcome(s, session, operation_id, end, now);
    if outcome is Ok {
        let (later, op) = outcome->Ok_0;
        let was = loaded::<Operation>(s, session, operation_id)->Ok_0;
        position_in_range(s.records, operation_id);
        assert(filed_as_said(s.records[position(s.records, operation_id)->0]));
        merging_is_exact(was.resources, end.resources);
        merging_keeps(was.resources, end.resources);
        finalizing_grows(s, session, operation_id, end, now);
        assert(is_unbound(op.resources) <==> op.resources == unbound());
        match op.attempt_id {
            None => {
                operation_lands(s, s, session, op, now);
                let ids = seq![operation_id, op.task_id];
                assert(ids[0] == operation_id && ids[1] == op.task_id);
                assert forall|other: Text| !ids.contains(other) implies #[trigger] same_place(
                    s,
                    later,
                    other,
                ) by {}
                others_stayed(s, later, ids);
            },
            Some(id) => {
                position_in_range(s.records, id);
                assert(filed_as_said(s.records[position(s.records, id)->0]));
                let attempt = loaded::<Attempt>(s, session, id)->Ok_0;
                informing_follows(attempt, op);
                merging_is_exact(attempt.binding, op.resources);
                let next = attempt_ended(attempt, op, now)->Ok_0;
                both_land(s, s, session, id, next, op, now);
                let ids = seq![operation_id, id, op.task_id];
                assert(ids[0] == operation_id && ids[1] == id && ids[2] == op.task_id);
                assert forall|other: Text| !ids.contains(other) implies #[trigger] same_place(
                    s,
                    later,
                    other,
                ) by {}
                others_stayed(s, later, ids);
            },
        }
        standing_is_recorded(later, session, operation_id);
    }
}

/// The rows that await a fact keep quota for it under the task of its operation.
proof fn awaiting_rows_are_kept(
    records: Seq<RecordModel>,
    session: Text,
    purpose: FactKind,
    op: OperationModel,
)
    ensures
        forall|k: int|
            0 <= k < awaiting(records, session, purpose, op).len() ==> {
                let at = #[trigger] awaiting(records, session, purpose, op)[k];
                &&& 0 <= at < records.len()
                &&& records[at].session == session
                &&& records[at].task_id == op.task_id
                &&& records[at].body == BodyModel::Reserved(
                    ReservedFactModel { purpose, operation_id: op.id },
                )
            },
    decreases records.len(),
{
    if records.len() > 0 {
        let rest = records.drop_last();
        awaiting_rows_are_kept(rest, session, purpose, op);
        let (a, b) = (
            awaiting(rest, session, purpose, op),
            awaiting(records, session, purpose, op),
        );
        assert forall|k: int| 0 <= k < b.len() implies {
            let at = #[trigger] b[k];
            &&& 0 <= at < records.len()
            &&& records[at].session == session
            &&& records[at].task_id == op.task_id
            &&& records[at].body == BodyModel::Reserved(
                ReservedFactModel { purpose, operation_id: op.id },
            )
        } by {
            if k < a.len() {
                assert(b[k] == a[k]);
                assert(rest[a[k]] == records[a[k]]);
            }
        }
    }
}

/// What one fact that was recorded leaves of the other records.
pub proof fn record_lands(
    s: StoreModel,
    session: Text,
    op: OperationModel,
    purpose: FactKind,
    body: BodyModel,
)
    requires
        well_formed(s),
        is_fact(purpose, op.id, body),
    ensures
        fact_recorded(s, session, op, purpose, body) matches Ok(later) ==> {
            &&& later == (StoreModel { records: later.records, ..s })
            &&& later.records.len() == s.records.len()
            &&& exists|at: int|
                0 <= at < s.records.len() && (#[trigger] s.records[at]).session == session
                    && s.records[at].task_id == op.task_id && s.records[at].body
                    == BodyModel::Reserved(ReservedFactModel { purpose, operation_id: op.id })
                    && later.records[at] == (RecordModel { body, wire: None, ..s.records[at] })
                    && forall|i: int|
                    0 <= i < s.records.len() && i != at ==> later.records[i] == s.records[i]
            &&& forall|other: Text|
                !(position(s.records, other) matches Some(i) && s.records[i].body is Reserved)
                    ==> #[trigger] same_place(s, later, other)
        },
{
    recording_grows(s, session, op, purpose, body);
    if fact_recorded(s, session, op, purpose, body) is Ok {
        let later = fact_recorded(s, session, op, purpose, body)->Ok_0;
        let rows = awaiting(s.records, session, purpose, op);
        awaiting_reserve(s.records, session, purpose, op);
        awaiting_rows_are_kept(s.records, session, purpose, op);
        assert(s.records[rows[0]].session == session);
        assert(later.records[rows[0]] == (RecordModel { body, wire: None, ..s.records[rows[0]] }));
        assert forall|other: Text|
            !(position(s.records, other) matches Some(i)
                && s.records[i].body is Reserved) implies #[trigger] same_place(
            s,
            later,
            other,
        ) by {
            position_in_range(s.records, other);
            assert(position(later.records, other) == position(s.records, other));
        }
    }
}

/// Cancelling an operation that was only prepared leaves it refused with the code that was given,
/// and changes nothing else of it. A start with nothing made and nothing dispatched gives the
/// reservation of its attempt back, and says so; nothing else does.
pub proof fn cancelling_is_exact(
    s: StoreModel,
    session: Text,
    operation_id: Text,
    code: FailureCode,
    now: i64,
)
    requires
        well_formed(s),
    ensures
        refuse_outcome(s, session, operation_id, code, now) matches Ok((later, op)) ==> {
            &&& loaded::<Operation>(s, session, operation_id) matches Ok(was) && was.state
                == OperationState::Prepared && op == (OperationModel {
                state: OperationState::Refused,
                failure_code: Some(code),
                updated_at_ms: now,
                ..was
            })
            &&& recorded_as(later, session, operation_id, BodyModel::Operation(op))
            &&& op.kind == OperationKind::StartAttempt && is_unbound(op.resources) ==> (
            op.attempt_id matches Some(id) && (loaded::<Attempt>(s, session, id) matches Ok(attempt)
                && loaded::<Attempt>(later, session, id) == Ok::<AttemptModel, WorkError>(
                if attempt.lifecycle.launch_phase == LaunchPhase::NotDispatched {
                    AttemptModel {
                        lifecycle: AttemptLifecycleModel {
                            reservation: Reservation::Released,
                            release: Some(
                                AttemptReleaseModel {
                                    reason: ReleaseReason::StartupNotDispatched,
                                    evidence: ReleaseEvidenceModel::GatewayDispatchFence {
                                        start_operation_id: operation_id,
                                    },
                                    reconciliation_operation_id: operation_id,
                                    released_at_ms: now,
                                },
                            ),
                            ..attempt.lifecycle
                        },
                        ..attempt
                    }
                } else {
                    attempt
                },
            )))
            &&& op.kind != OperationKind::StartAttempt && op.kind != OperationKind::InterruptAttempt
                ==> others_stay(s, later, seq![operation_id, op.task_id])
            &&& loaded::<Task>(s, session, op.task_id) matches Ok(task) && announces(
                s,
                later,
                session,
                op.task_id,
                task.revision + 1,
                "operation_changed"@,
                operation_id,
            )
            &&& later.receipts == s.receipts
        },
{
    let outcome = refuse_outcome(s, session, operation_id, code, now);
    if outcome is Ok {
        let (later, op) = outcome->Ok_0;
        let was = loaded::<Operation>(s, session, operation_id)->Ok_0;
        position_in_range(s.records, operation_id);
        assert(filed_as_said(s.records[position(s.records, operation_id)->0]));
        refusing_grows(s, session, operation_id, code, now);
        assert(is_unbound(op.resources) <==> op.resources == unbound());
        let body = BodyModel::InterruptionFact(
            InterruptionFactModel {
                operation_id: op.id,
                state: op.state,
                failure_code: op.failure_code,
                receipt: None,
            },
        );
        record_lands(s, session, op, FactKind::Interruption, body);
        recording_grows(s, session, op, FactKind::Interruption, body);
        assert forall|other: Text| #[trigger] same_place(s, s, other) by {
            position_in_range(s.records, other);
        }
        let noted = refusal_noted(s, session, op)->Ok_0;
        assert(same_place(s, noted, operation_id));
        let given = refusal_released(noted, session, op, now)->Ok_0;
        let id = op.attempt_id->0;
        let attempt = loaded::<Attempt>(s, session, id)->Ok_0;
        let frees = op.kind == OperationKind::StartAttempt && op.resources == unbound()
            && attempt.lifecycle.launch_phase == LaunchPhase::NotDispatched;
        if op.kind == OperationKind::StartAttempt && op.resources == unbound() {
            position_in_range(s.records, id);
            assert(filed_as_said(s.records[position(s.records, id)->0]));
            assert(noted == s);
        }
        if frees {
            let released = BodyModel::Attempt(released_undispatched(attempt, op.id, now));
            put_lands(s, session, id, op.task_id, released);
            putting_grows(s, session, id, op.task_id, released);
            assert(given == put(s, session, id, op.task_id, released)->Ok_0);
            assert(same_place(s, given, operation_id));
        } else {
            assert(given == noted);
        }
        operation_lands(s, given, session, op, now);
        let task = loaded::<Task>(given, session, op.task_id)->Ok_0;
        position_in_range(given.records, op.task_id);
        if frees {
            assert(id != op.task_id);
            assert(same_place(s, given, op.task_id));
            assert(same_place(given, later, id));
        } else {
            if op.kind == OperationKind::StartAttempt && op.resources == unbound() {
                assert(id != op.task_id);
                assert(same_place(given, later, id));
            }
            if noted != s {
                position_in_range(s.records, op.task_id);
                assert(position(noted.records, op.task_id) == position(s.records, op.task_id));
                if s.records[position(s.records, op.task_id)->0].body is Reserved {
                    let i = position(s.records, op.task_id)->0;
                    assert(!(noted.records[i].body is Task)) by {
                        assert(record_follows(s.records[i], noted.records[i]));
                    }
                }
                assert(same_place(s, noted, op.task_id));
            }
        }
        if op.kind != OperationKind::StartAttempt && op.kind != OperationKind::InterruptAttempt {
            let ids = seq![operation_id, op.task_id];
            assert(ids[0] == operation_id && ids[1] == op.task_id);
            assert forall|other: Text| !ids.contains(other) implies #[trigger] same_place(
                s,
                later,
                other,
            ) by {
                assert(same_place(given, later, other));
            }
            others_stayed(s, later, ids);
        }
        standing_is_recorded(later, session, operation_id);
    }
}

/// Proof that a start made no process is taken for a claimed attempt without a process, once, in
/// the words in which it was given; the attempt and its start are as they were.
pub proof fn start_refusals_are_exact(
    s: StoreModel,
    session: Text,
    operation_id: Text,
    owner_epoch: Text,
    receipt_id: Text,
    now: i64,
)
    requires
        well_formed(s),
    ensures
        start_refusal_outcome(s, session, operation_id, owner_epoch, receipt_id, now) matches Ok(
            (later, _),
        ) ==> {
            let told = NativeStartRefusalModel {
                start_operation_id: operation_id,
                owner_epoch,
                receipt_id,
            };
            &&& is_native_identity(owner_epoch) && is_native_identity(receipt_id)
            &&& about::<NativeStartRefusal>(s.records, session, operation_id) is Some ==> later == s
                && about::<NativeStartRefusal>(s.records, session, operation_id) == Some(told)
            &&& about::<NativeStartRefusal>(s.records, session, operation_id) is None ==> {
                &&& loaded::<Operation>(s, session, operation_id) matches Ok(op) && op.kind
                    == OperationKind::StartAttempt && op.state == OperationState::Submitting && (
                op.attempt_id matches Some(id) && (loaded::<Attempt>(s, session, id) matches Ok(
                    attempt,
                ) && attempt.lifecycle.launch_phase == LaunchPhase::DispatchClaimed
                    && attempt.lifecycle.reservation == Reservation::Reserved
                    && attempt.binding.instance_id is None && loaded::<Attempt>(later, session, id)
                    == Ok::<AttemptModel, WorkError>(attempt))) && loaded::<Operation>(
                    later,
                    session,
                    operation_id,
                ) == Ok::<OperationModel, WorkError>(op) && (loaded::<Task>(
                    s,
                    session,
                    op.task_id,
                ) matches Ok(task) && announces(
                    s,
                    later,
                    session,
                    op.task_id,
                    task.revision + 1,
                    "native_start_refused"@,
                    operation_id,
                ))
                &&& exists|i: int|
                    0 <= i < later.records.len() && (#[trigger] later.records[i]).session == session
                        && later.records[i].body == BodyModel::StartRefusal(told)
            }
        },
{
    let outcome = start_refusal_outcome(s, session, operation_id, owner_epoch, receipt_id, now);
    if outcome is Ok && about::<NativeStartRefusal>(s.records, session, operation_id) is None {
        let later = outcome->Ok_0.0;
        let op = loaded::<Operation>(s, session, operation_id)->Ok_0;
        position_in_range(s.records, operation_id);
        assert(filed_as_said(s.records[position(s.records, operation_id)->0]));
        let id = op.attempt_id->0;
        position_in_range(s.records, id);
        let told = NativeStartRefusalModel {
            start_operation_id: operation_id,
            owner_epoch,
            receipt_id,
        };
        let body = BodyModel::StartRefusal(told);
        record_lands(s, session, op, FactKind::StartRefusal, body);
        recording_grows(s, session, op, FactKind::StartRefusal, body);
        let noted = fact_recorded(s, session, op, FactKind::StartRefusal, body)->Ok_0;
        let at = choose|at: int|
            0 <= at < s.records.len() && (#[trigger] s.records[at]).session == session
                && s.records[at].task_id == op.task_id && s.records[at].body
                == BodyModel::Reserved(
                ReservedFactModel { purpose: FactKind::StartRefusal, operation_id: op.id },
            ) && noted.records[at] == (RecordModel { body, wire: None, ..s.records[at] })
                && forall|i: int|
                0 <= i < s.records.len() && i != at ==> noted.records[i] == s.records[i];
        let task = loaded::<Task>(noted, session, op.task_id)->Ok_0;
        tasks_stand(noted, session, op.task_id);
        position_in_range(noted.records, op.task_id);
        position_in_range(s.records, op.task_id);
        assert(position(noted.records, op.task_id) == position(s.records, op.task_id));
        assert(same_place(s, noted, operation_id));
        assert(same_place(s, noted, id));
        assert(same_place(s, noted, op.task_id));
        change_lands(s, noted, task, "native_start_refused"@, op.id, now);
        assert(same_place(noted, later, operation_id));
        assert(same_place(noted, later, id));
        found_where_filed(noted.records, at);
        assert(same_place(noted, later, noted.records[at].id));
        assert(later.records[at].body == body);
    }
}

} // verus!
