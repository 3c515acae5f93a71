//! What evidence shows of an attempt, and what a finding leaves behind.
use vstd::prelude::*;
use crate::text::is_native_identity;
use crate::value::Text;
use crate::work::model::Attempt;
use crate::work::model::AttemptModel;
use crate::work::model::AttemptReleaseModel;
use crate::work::model::FailureCode;
use crate::work::model::LaunchPhase;
use crate::work::model::LifecycleObservation;
use crate::work::model::NativeStartRefusal;
use crate::work::model::NativeStartRefusalModel;
use crate::work::model::Operation;
use crate::work::model::OperationKind;
use crate::work::model::OperationModel;
use crate::work::model::OperationState;
use crate::work::model::ReconciliationEvidenceModel;
use crate::work::model::ReconciliationReceipt;
use crate::work::model::ReleaseEvidenceModel;
use crate::work::model::ReleaseReason;
use crate::work::model::Reservation;
use crate::work::model::Task;
use crate::work::model::TaskModel;
use crate::work::model::WorkError;
use crate::work::store::changes::changed;
use crate::work::store::dispatches::record_lands;
use crate::work::store::effects::change_lands;
use crate::work::store::effects::put_lands;
use crate::work::store::effects::same_place;
use crate::work::store::facts::about;
use crate::work::store::freshness::tasks_stand;
use crate::work::store::growth::listed_is_recorded;
use crate::work::store::growth::start_is_listed;
use crate::work::store::history::filed_as_said;
use crate::work::store::history::found_where_filed;
use crate::work::store::history::putting_grows;
use crate::work::store::history::well_formed;
use crate::work::store::readings::announces;
use crate::work::store::reconciliation::attempt_found;
use crate::work::store::reconciliation::attempt_settled;
use crate::work::store::reconciliation::finding_outcome;
use crate::work::store::reconciliation::finding_settled;
use crate::work::store::reconciliation::observed;
use crate::work::store::reconciliation::reconcile_subject;
use crate::work::store::reconciliation::start_fenced;
use crate::work::store::reconciliation::start_of;
use crate::work::store::records::listed;
use crate::work::store::records::loaded;
use crate::work::store::records::position;
use crate::work::store::records::position_in_range;
use crate::work::store::records::put;
use crate::work::store::tables::BodyModel;
use crate::work::store::tables::FactKind;
use crate::work::store::tables::ReconciliationIntent;
use crate::work::store::tables::RecordModel;
use crate::work::store::tables::ReservedFactModel;
use crate::work::store::tables::StoreModel;

verus! {

/// Whether evidence bears on an attempt: where it says that nothing was dispatched, that no
/// process was made, or that one process lives or has exited, the records agree.
pub open spec fn bears_on(
    s: StoreModel,
    session: Text,
    attempt: AttemptModel,
    start: OperationModel,
    evidence: ReconciliationEvidenceModel,
) -> bool {
    let phase = attempt.lifecycle.launch_phase;
    match evidence {
        ReconciliationEvidenceModel::Unknown => true,
        ReconciliationEvidenceModel::NotDispatched => phase == LaunchPhase::NotDispatched
            && attempt.binding.instance_id is None && start.state != OperationState::Acknowledged,
        ReconciliationEvidenceModel::NativeNotStarted { start_operation_id, owner_epoch, receipt_id } =>
        start_operation_id == start.id && phase == LaunchPhase::DispatchClaimed
            && attempt.binding.instance_id is None && about::<NativeStartRefusal>(
            s.records,
            session,
            start.id,
        ) == Some(NativeStartRefusalModel { start_operation_id, owner_epoch, receipt_id }),
        ReconciliationEvidenceModel::Live { instance_id, owner_epoch } => is_native_identity(
            instance_id,
        ) && is_native_identity(owner_epoch) && phase == LaunchPhase::LaunchConfirmed
            && attempt.binding.instance_id == Some(instance_id)
            && attempt.lifecycle.native_owner_epoch == Some(owner_epoch),
        ReconciliationEvidenceModel::Exited { instance_id, owner_epoch, receipt_id } =>
        is_native_identity(instance_id) && is_native_identity(owner_epoch) && is_native_identity(
            receipt_id,
        ) && phase == LaunchPhase::LaunchConfirmed && attempt.binding.instance_id == Some(
            instance_id,
        ) && attempt.lifecycle.native_owner_epoch == Some(owner_epoch),
    }
}

/// Evidence about an attempt that holds its place is heard exactly where it bears on it. It then
/// shows what it says: that it was never started, that it lives, that it exited, or nothing. The
/// place is given back exactly where no process can be left, for the reason and with the proof
/// that the evidence gives. Of an attempt that gave its place back, nothing more is shown.
pub proof fn evidence_shows_exactly(
    s: StoreModel,
    session: Text,
    attempt: AttemptModel,
    start: OperationModel,
    evidence: ReconciliationEvidenceModel,
)
    ensures
        ({
            let res = observed(s, session, attempt, start, evidence);
            let held = attempt.lifecycle.reservation == Reservation::Reserved;
            &&& res is Ok <==> !held || bears_on(s, session, attempt, start, evidence)
            &&& res matches Ok((observation, release)) ==> {
                &&& !held ==> observation == LifecycleObservation::AlreadyReleased && release is None
                &&& held ==> match evidence {
                    ReconciliationEvidenceModel::Unknown => observation
                        == LifecycleObservation::Unknown && release is None,
                    ReconciliationEvidenceModel::Live { .. } => observation
                        == LifecycleObservation::Live && release is None,
                    ReconciliationEvidenceModel::NotDispatched => observation
                        == LifecycleObservation::NotStarted && release == Some(
                        (
                            ReleaseReason::StartupNotDispatched,
                            ReleaseEvidenceModel::GatewayDispatchFence {
                                start_operation_id: start.id,
                            },
                        ),
                    ),
                    ReconciliationEvidenceModel::NativeNotStarted {
                        start_operation_id,
                        owner_epoch,
                        receipt_id,
                    } => observation == LifecycleObservation::NotStarted && release == Some(
                        (
                            ReleaseReason::StartupRefusedWithoutProcess,
                            ReleaseEvidenceModel::NativeStartRefusal {
                                start_operation_id: start.id,
                                native_owner_epoch: owner_epoch,
                                native_receipt_id: receipt_id,
                            },
                        ),
                    ),
                    ReconciliationEvidenceModel::Exited { instance_id, owner_epoch, receipt_id } =>
                    observation == LifecycleObservation::Exited && release == Some(
                        (
                            ReleaseReason::OwnedProcessExited,
                            ReleaseEvidenceModel::NativeExitTombstone {
                                instance_id,
                                native_owner_epoch: owner_epoch,
                                native_receipt_id: receipt_id,
                            },
                        ),
                    ),
                }
            }
            &&& res matches Err(error) ==> match evidence {
                ReconciliationEvidenceModel::Live { .. } => error.0 == FailureCode::InvalidInput
                    || error.0 == FailureCode::InstanceChanged,
                ReconciliationEvidenceModel::Exited { .. } => error.0 == FailureCode::InvalidInput
                    || error.0 == FailureCode::InstanceChanged,
                _ => error.0 == FailureCode::NotReady,
            }
        }),
{
    reveal(observed);
}

/// Whether an operation is the first start of an attempt among some operations.
pub open spec fn is_first_start(
    operations: Seq<OperationModel>,
    attempt_id: Text,
    at: int,
) -> bool {
    &&& 0 <= at < operations.len()
    &&& operations[at].kind == OperationKind::StartAttempt && operations[at].attempt_id == Some(
        attempt_id,
    )
    &&& forall|j: int|
        0 <= j < at ==> !((#[trigger] operations[j]).kind == OperationKind::StartAttempt
            && operations[j].attempt_id == Some(attempt_id))
}

/// The start of an attempt is the first operation that starts it.
pub proof fn starts_are_the_first(operations: Seq<OperationModel>, attempt_id: Text)
    ensures
        start_of(operations, attempt_id) matches Some(op) ==> exists|at: int| #[trigger]
            is_first_start(operations, attempt_id, at) && operations[at] == op,
        start_of(operations, attempt_id) is None ==> forall|j: int|
            0 <= j < operations.len() ==> !((#[trigger] operations[j]).kind
                == OperationKind::StartAttempt && operations[j].attempt_id == Some(attempt_id)),
    decreases operations.len(),
{
    if operations.len() > 0 {
        let rest = operations.drop_last();
        let n = operations.len() - 1;
        starts_are_the_first(rest, attempt_id);
        if start_of(rest, attempt_id) is Some {
            let at = choose|at: int| #[trigger]
                is_first_start(rest, attempt_id, at) && rest[at] == start_of(rest, attempt_id)->0;
            assert(rest[at] == operations[at]);
            assert forall|j: int| 0 <= j < at implies !((#[trigger] operations[j]).kind
                == OperationKind::StartAttempt && operations[j].attempt_id == Some(
                attempt_id,
            )) by {
                assert(rest[j] == operations[j]);
            }
            assert(is_first_start(operations, attempt_id, at));
        } else {
            assert forall|j: int| 0 <= j < n implies !((#[trigger] operations[j]).kind
                == OperationKind::StartAttempt && operations[j].attempt_id == Some(
                attempt_id,
            )) by {
                assert(rest[j] == operations[j]);
            }
            if start_of(operations, attempt_id) is Some {
                assert(is_first_start(operations, attempt_id, n));
            }
        }
    }
}

/// A reconciliation finds for the attempt that it was prepared for: it is under way, its task
/// stands at the revision that the finder saw, and the attempt belongs to the task and runs as was
/// expected when the reconciliation was asked for.
pub proof fn findings_have_their_subject(
    s: StoreModel,
    session: Text,
    op: OperationModel,
    expected_revision: u64,
)
    ensures
        reconcile_subject(
            s,
            session,
            op,
            expected_revision,
        ) matches Ok((task, attempt, start)) ==> {
            &&& op.kind == OperationKind::ReconcileAttempt && op.state == OperationState::Submitting
            &&& loaded::<Task>(s, session, op.task_id) == Ok::<TaskModel, WorkError>(task)
            &&& task.revision == expected_revision
            &&& op.attempt_id matches Some(id) && loaded::<Attempt>(s, session, id) == Ok::<
                AttemptModel,
                WorkError,
            >(attempt)
            &&& attempt.task_id == op.task_id
            &&& about::<ReconciliationIntent>(s.records, session, op.id) matches Some(intent)
                && attempt.binding.instance_id == intent.input.expected_instance_id
                && attempt.lifecycle.native_owner_epoch == intent.input.expected_native_owner_epoch
            &&& ({
                let operations = listed::<Operation>(s.records, session, op.task_id);
                exists|at: int| #[trigger]
                    is_first_start(operations, attempt.id, at) && operations[at] == start
            })
        },
        reconcile_subject(s, session, op, expected_revision) matches Err(error) ==> {
            &&& op.kind != OperationKind::ReconcileAttempt || op.state != OperationState::Submitting
                ==> error.0 == FailureCode::RevisionConflict
            &&& error.0 == FailureCode::RevisionConflict ==> op.kind
                != OperationKind::ReconcileAttempt || op.state != OperationState::Submitting || (
            loaded::<Task>(s, session, op.task_id) matches Ok(task) && task.revision
                != expected_revision) || loaded::<Task>(s, session, op.task_id) is Err || (
            op.attempt_id matches Some(id) && loaded::<Attempt>(s, session, id) is Err)
            &&& error.0 == FailureCode::InstanceChanged && loaded::<Task>(s, session, op.task_id)
                is Ok && (op.attempt_id matches Some(id) && loaded::<Attempt>(s, session, id) is Ok)
                ==> (about::<ReconciliationIntent>(s.records, session, op.id) matches Some(intent)
                && (op.attempt_id matches Some(id) && (loaded::<Attempt>(s, session, id) matches Ok(
                attempt,
            ) && (attempt.binding.instance_id != intent.input.expected_instance_id
                || attempt.lifecycle.native_owner_epoch
                != intent.input.expected_native_owner_epoch))))
        },
{
    reveal(reconcile_subject);
    if let Ok((task, attempt, start)) = reconcile_subject(s, session, op, expected_revision) {
        starts_are_the_first(listed::<Operation>(s.records, session, op.task_id), attempt.id);
    }
}

/// A finding that was made before is answered again, and changes nothing. A new one says of the
/// attempt what the evidence shows and what place it has from then on; the attempt gives its place
/// back exactly where the evidence proves it may, for that reason; a start that never went out is
/// refused as not ready; the reconciliation is acknowledged, the finding is filed in the row that
/// was kept for it, and the stream says that the attempt was reconciled.
#[verifier::rlimit(60)]
#[verifier::spinoff_prover]
pub proof fn finding_is_exact(
    s: StoreModel,
    session: Text,
    operation_id: Text,
    expected_revision: u64,
    evidence: ReconciliationEvidenceModel,
    now: i64,
)
    requires
        well_formed(s),
    ensures
        finding_outcome(s, session, operation_id, expected_revision, evidence, now) matches Ok(
            (later, receipt),
        ) ==> {
            let before = about::<ReconciliationReceipt>(s.records, session, operation_id);
            &&& before is Some ==> later == s && receipt == before->0
            &&& before is None ==> (loaded::<Operation>(s, session, operation_id) matches Ok(op) && (
            op.attempt_id matches Some(attempt_id) && (loaded::<Attempt>(s, session, attempt_id) matches Ok(
                attempt,
            ) && (loaded::<Task>(s, session, op.task_id) matches Ok(task) && (start_of(
                listed::<Operation>(s.records, session, op.task_id),
                attempt_id,
            ) matches Some(start) && (observed(
                s,
                session,
                attempt,
                start,
                evidence,
            ) matches Ok((observation, release)) && {
                &&& receipt.operation_id == operation_id
                &&& receipt.attempt_id == attempt_id
                &&& receipt.observation == observation
                &&& receipt.task_revision == expected_revision + 1 && task.revision
                    == expected_revision
                &&& release is None ==> receipt.reservation == attempt.lifecycle.reservation
                    && receipt.release == attempt.lifecycle.release && loaded::<Attempt>(
                    later,
                    session,
                    attempt_id,
                ) == Ok::<AttemptModel, WorkError>(attempt)
                &&& release matches Some((reason, proof_)) ==> ({
                    let given = AttemptReleaseModel {
                        reason,
                        evidence: proof_,
                        reconciliation_operation_id: operation_id,
                        released_at_ms: now,
                    };
                    &&& receipt.reservation == Reservation::Released
                    &&& receipt.release == Some(given)
                    &&& loaded::<Attempt>(later, session, attempt_id) matches Ok(next)
                        && next.lifecycle.reservation == Reservation::Released
                        && next.lifecycle.release == Some(given) && next.id == attempt.id
                        && next.task_id == attempt.task_id && next.role == attempt.role
                        && next.agent_kind == attempt.agent_kind && next.binding == attempt.binding
                        && next.lifecycle.launch_phase == attempt.lifecycle.launch_phase
                        && next.lifecycle.native_owner_epoch
                        == attempt.lifecycle.native_owner_epoch
                })
                &&& (release matches Some((reason, _)) && reason
                    == ReleaseReason::StartupNotDispatched) ==> (loaded::<Operation>(
                    later,
                    session,
                    start.id,
                ) matches Ok(fenced) && fenced == (OperationModel {
                    state: OperationState::Refused,
                    failure_code: Some(FailureCode::NotReady),
                    updated_at_ms: now,
                    ..start
                }))
                &&& !(release matches Some((reason, _)) && reason
                    == ReleaseReason::StartupNotDispatched) ==> loaded::<Operation>(
                    later,
                    session,
                    start.id,
                ) == Ok::<OperationModel, WorkError>(start)
                &&& loaded::<Operation>(later, session, operation_id) == Ok::<
                    OperationModel,
                    WorkError,
                >(
                    OperationModel {
                        state: OperationState::Acknowledged,
                        updated_at_ms: now,
                        ..op
                    },
                )
                &&& announces(
                    s,
                    later,
                    session,
                    op.task_id,
                    expected_revision + 1,
                    "attempt_reconciled"@,
                    operation_id,
                )
                &&& exists|i: int|
                    0 <= i < later.records.len() && (#[trigger] later.records[i]).session == session
                        && later.records[i].task_id == op.task_id && later.records[i].body
                        == BodyModel::Reconciliation(receipt)
                &&& later.receipts == s.receipts && later.inputs == s.inputs
            }))))))
        },
{
    let outcome = finding_outcome(s, session, operation_id, expected_revision, evidence, now);
    if outcome is Ok && about::<ReconciliationReceipt>(s.records, session, operation_id) is None {
        reveal(reconcile_subject);
        let (later, receipt) = outcome->Ok_0;
        let op = loaded::<Operation>(s, session, operation_id)->Ok_0;
        position_in_range(s.records, operation_id);
        assert(filed_as_said(s.records[position(s.records, operation_id)->0]));
        let (task, attempt, start) = reconcile_subject(s, session, op, expected_revision)->Ok_0;
        let attempt_id = op.attempt_id->0;
        position_in_range(s.records, attempt_id);
        assert(filed_as_said(s.records[position(s.records, attempt_id)->0]));
        tasks_stand(s, session, op.task_id);
        position_in_range(s.records, op.task_id);
        let operations = listed::<Operation>(s.records, session, op.task_id);
        start_is_listed(operations, attempt.id);
        let at = listed_is_recorded::<Operation>(s.records, session, op.task_id, start);
        found_where_filed(s.records, at);
        assert(filed_as_said(s.records[at]));
        let (observation, release) = observed(s, session, attempt, start, evidence)->Ok_0;
        evidence_shows_exactly(s, session, attempt, start, evidence);
        settled_exactly(s, session, task, op, attempt, start, observation, release, now);
    }
}

/// What settling a finding leaves behind.
#[verifier::rlimit(60)]
#[verifier::spinoff_prover]
proof fn settled_exactly(
    s: StoreModel,
    session: Text,
    task: TaskModel,
    op: OperationModel,
    attempt: AttemptModel,
    start: OperationModel,
    observation: LifecycleObservation,
    release: Option<(ReleaseReason, ReleaseEvidenceModel)>,
    now: i64,
)
    requires
        well_formed(s),
        loaded::<Task>(s, session, op.task_id) == Ok::<TaskModel, WorkError>(task),
        loaded::<Operation>(s, session, op.id) == Ok::<OperationModel, WorkError>(op),
        loaded::<Attempt>(s, session, attempt.id) == Ok::<AttemptModel, WorkError>(attempt),
        loaded::<Operation>(s, session, start.id) == Ok::<OperationModel, WorkError>(start),
        op.kind == OperationKind::ReconcileAttempt,
        op.state == OperationState::Submitting,
        start.kind == OperationKind::StartAttempt,
        (release matches Some((reason, _)) && reason == ReleaseReason::StartupNotDispatched)
            ==> (start.state != OperationState::Acknowledged && attempt.lifecycle.launch_phase
            == LaunchPhase::NotDispatched),
    ensures
        finding_settled(
            s,
            session,
            task,
            op,
            attempt,
            start,
            observation,
            release,
            now,
        ) matches Ok((later, receipt)) ==> {
            let found = attempt_found(attempt, op.id, release, now);
            &&& receipt.operation_id == op.id && receipt.attempt_id == attempt.id
                && receipt.observation == observation && receipt.reservation
                == found.lifecycle.reservation && receipt.release == found.lifecycle.release
                && receipt.task_revision == task.revision + 1
            &&& loaded::<Attempt>(
                later,
                session,
                attempt.id,
            ) == Ok::<AttemptModel, WorkError>(found)
            &&& loaded::<Operation>(later, session, start.id) == Ok::<OperationModel, WorkError>(
                if release matches Some((reason, _)) && reason
                    == ReleaseReason::StartupNotDispatched {
                    OperationModel {
                        state: OperationState::Refused,
                        failure_code: Some(FailureCode::NotReady),
                        updated_at_ms: now,
                        ..start
                    }
                } else {
                    start
                },
            )
            &&& loaded::<Operation>(later, session, op.id) == Ok::<OperationModel, WorkError>(
                OperationModel { state: OperationState::Acknowledged, updated_at_ms: now, ..op },
            )
            &&& announces(
                s,
                later,
                session,
                op.task_id,
                task.revision + 1,
                "attempt_reconciled"@,
                op.id,
            )
            &&& exists|i: int|
                0 <= i < later.records.len() && (#[trigger] later.records[i]).session == session
                    && later.records[i].task_id == op.task_id && later.records[i].body
                    == BodyModel::Reconciliation(receipt)
            &&& later.receipts == s.receipts && later.inputs == s.inputs
        },
{
    reveal(finding_settled);
    let outcome = finding_settled(
        s,
        session,
        task,
        op,
        attempt,
        start,
        observation,
        release,
        now,
    );
    if outcome is Ok {
        let (later, receipt) = outcome->Ok_0;
        let task_id = op.task_id;
        position_in_range(s.records, task_id);
        position_in_range(s.records, op.id);
        position_in_range(s.records, attempt.id);
        position_in_range(s.records, start.id);
        tasks_stand(s, session, task_id);
        let stopped = BodyModel::Operation(
            OperationModel {
                state: OperationState::Refused,
                failure_code: Some(FailureCode::NotReady),
                updated_at_ms: now,
                ..start
            },
        );
        let fenced = start_fenced(s, session, task_id, start, release, now)->Ok_0;
        let fences = release matches Some((reason, _)) && reason
            == ReleaseReason::StartupNotDispatched;
        if fences {
            put_lands(s, session, start.id, task_id, stopped);
            putting_grows(s, session, start.id, task_id, stopped);
            assert(same_place(s, fenced, attempt.id));
            assert(same_place(s, fenced, op.id));
            assert(same_place(s, fenced, task_id));
        }
        let found = attempt_found(attempt, op.id, release, now);
        let settled = attempt_settled(fenced, session, task_id, found, release)->Ok_0;
        if release is Some {
            let body = BodyModel::Attempt(found);
            put_lands(fenced, session, attempt.id, task_id, body);
            putting_grows(fenced, session, attempt.id, task_id, body);
            assert(same_place(fenced, settled, op.id));
            assert(same_place(fenced, settled, task_id));
            assert(same_place(fenced, settled, start.id));
        }
        let ended = OperationModel {
            state: OperationState::Acknowledged,
            updated_at_ms: now,
            ..op
        };
        let body = BodyModel::Operation(ended);
        put_lands(settled, session, op.id, task_id, body);
        putting_grows(settled, session, op.id, task_id, body);
        let filed = put(settled, session, op.id, task_id, body)->Ok_0;
        assert(same_place(settled, filed, task_id));
        assert(same_place(settled, filed, start.id));
        assert(same_place(settled, filed, attempt.id));
        change_lands(s, filed, task, "attempt_reconciled"@, op.id, now);
        let told = changed(filed, task, "attempt_reconciled"@, op.id, now)->Ok_0.0;
        assert(same_place(filed, told, op.id));
        assert(same_place(filed, told, start.id));
        assert(same_place(filed, told, attempt.id));
        let fact = BodyModel::Reconciliation(receipt);
        record_lands(told, session, ended, FactKind::Reconciliation, fact);
        assert(same_place(told, later, op.id));
        assert(same_place(told, later, start.id));
        assert(same_place(told, later, attempt.id));
        let at = choose|at: int|
            0 <= at < told.records.len() && (#[trigger] told.records[at]).session == session
                && told.records[at].task_id == ended.task_id && told.records[at].body
                == BodyModel::Reserved(
                ReservedFactModel { purpose: FactKind::Reconciliation, operation_id: ended.id },
            ) && later.records[at] == (RecordModel { body: fact, wire: None, ..told.records[at] })
                && forall|i: int|
                0 <= i < told.records.len() && i != at ==> later.records[i] == told.records[i];
        assert(later.records[at].body == fact);
    }
}

} // verus!
