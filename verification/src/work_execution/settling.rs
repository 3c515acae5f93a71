//! What a reconciliation asks, and what it answers.
use vstd::prelude::*;
use crate::value::Text;
use crate::work::model::Attempt;
use crate::work::model::AttemptModel;
use crate::work::model::FailureCode;
use crate::work::model::LaunchPhase;
use crate::work::model::MutationModel;
use crate::work::model::NativeBindingModel;
use crate::work::model::NativeStartRefusal;
use crate::work::model::NativeStartRefusalModel;
use crate::work::model::Operation;
use crate::work::model::OperationModel;
use crate::work::model::OperationOutcomeModel;
use crate::work::model::OperationState;
use crate::work::model::ReconcileInputModel;
use crate::work::model::ReconciliationEvidenceModel;
use crate::work::model::ReconciliationReceipt;
use crate::work::model::ReconciliationReceiptModel;
use crate::work::model::Reservation;
use crate::work::model::Task;
use crate::work::model::WorkError;
use crate::work::store::evidence::is_first_start;
use crate::work::store::evidence::starts_are_the_first;
use crate::work::store::facts::about;
use crate::work::store::growth::listed_is_recorded;
use crate::work::store::history::filed_as_said;
use crate::work::store::history::well_formed;
use crate::work::store::operations::begin_outcome;
use crate::work::store::operations::finalize_outcome;
use crate::work::store::readings::reads_give_what_is_recorded;
use crate::work::store::reconciliation::finding_outcome;
use crate::work::store::reconciliation::reconcile_outcome;
use crate::work::store::reconciliation::start_of;
use crate::work::store::records::listed;
use crate::work::store::records::loaded;
use crate::work::store::tables::StoreModel;
use crate::work::store::tasks::detail_of;
use crate::work_actor::IdsModel;
use crate::work_authority::GrantModel;
use crate::work_authority::ScopeModel;
use crate::work_authority::keeping::revoking_takes_its_scope;
use crate::work_execution::ExecutionModel;
use crate::work_execution::delivery::attempt_in;
use crate::work_execution::delivery::attempts_are_found;
use crate::work_execution::op_refused;
use crate::work_execution::reconcile::EvidenceModel;
use crate::work_execution::reconcile::LifecycleModel;
use crate::work_execution::reconcile::ReconcileNextModel;
use crate::work_execution::reconcile::ReconcileStageModel;
use crate::work_execution::reconcile::evidence_given;
use crate::work_execution::reconcile::evidence_of;
use crate::work_execution::reconcile::finding_recorded;
use crate::work_execution::reconcile::finding_repeated;
use crate::work_execution::reconcile::reconcile_begun;
use crate::work_execution::reconcile::reconcile_ended;
use crate::work_execution::reconcile::reconcile_intended;
use crate::work_execution::reconcile::reconcile_started;
use crate::work_execution::reconcile::recorded_evidence;

verus! {

/// Of an attempt that gave its place back nothing more is asked. One that was not dispatched, or
/// whose start was provably refused, made no process. Otherwise the native side is asked about the
/// process that is recorded, and where none is, nothing is known.
pub proof fn records_say_what_they_know(
    attempt: AttemptModel,
    refusal: Option<NativeStartRefusalModel>,
)
    ensures
        ({
            let told = evidence_of(attempt, refusal);
            let held = attempt.lifecycle.reservation == Reservation::Reserved;
            let dispatched = attempt.lifecycle.launch_phase != LaunchPhase::NotDispatched;
            let known = attempt.binding.instance_id is Some && attempt.lifecycle.native_owner_epoch
                is Some;
            &&& !held ==> told == EvidenceModel::Known(ReconciliationEvidenceModel::Unknown)
            &&& held && !dispatched ==> told == EvidenceModel::Known(
                ReconciliationEvidenceModel::NotDispatched,
            )
            &&& held && dispatched ==> (refusal matches Some(shown) ==> told == EvidenceModel::Known(
                ReconciliationEvidenceModel::NativeNotStarted {
                    start_operation_id: shown.start_operation_id,
                    owner_epoch: shown.owner_epoch,
                    receipt_id: shown.receipt_id,
                },
            ))
            &&& held && dispatched && refusal is None && known ==> told == (EvidenceModel::Look {
                instance_id: attempt.binding.instance_id->0,
                owner_epoch: attempt.lifecycle.native_owner_epoch->0,
            })
            &&& held && dispatched && refusal is None && !known ==> told == EvidenceModel::Known(
                ReconciliationEvidenceModel::Unknown,
            )
        }),
{
}

/// What the native side saw counts for the process that it was asked about, and for nothing that
/// the records know by themselves.
pub proof fn sights_count_for_what_was_asked(evidence: EvidenceModel, seen: LifecycleModel)
    ensures
        evidence matches EvidenceModel::Known(known) ==> evidence_given(evidence, seen) == known,
        evidence matches EvidenceModel::Look { instance_id, owner_epoch } ==> match evidence_given(
            evidence,
            seen,
        ) {
            ReconciliationEvidenceModel::Live { instance_id: a, owner_epoch: b } => seen is Live && a
                == instance_id && b == owner_epoch,
            ReconciliationEvidenceModel::Exited { instance_id: a, owner_epoch: b, receipt_id } => seen
                is Exited && a == instance_id && b == owner_epoch && seen->Exited_receipt_id
                == receipt_id,
            ReconciliationEvidenceModel::Unknown => seen is Unknown,
            _ => false,
        },
{
}

/// A reconciliation asks about the attempt that it was asked for, as the records say: with the
/// revision of its task, and with the refusal of its first start where there is one.
pub proof fn questions_are_about_the_attempt(s: StoreModel, session: Text, op: OperationModel)
    requires
        well_formed(s),
    ensures
        recorded_evidence(s, session, op) matches Ok(stage) ==> {
            &&& stage.operation_id == op.id
            &&& loaded::<Task>(s, session, op.task_id) matches Ok(task) && stage.revision
                == task.revision
            &&& op.attempt_id matches Some(id) && (loaded::<Attempt>(s, session, id) matches Ok(
                attempt,
            ) && attempt.task_id == op.task_id && ({
                let operations = listed::<Operation>(s.records, session, op.task_id);
                exists|at: int| #[trigger]
                    is_first_start(operations, id, at) && stage.evidence == evidence_of(
                        attempt,
                        about::<NativeStartRefusal>(s.records, session, operations[at].id),
                    )
            }))
        },
        recorded_evidence(s, session, op) matches Err(error) ==> error.0 == FailureCode::NotFound,
{
    reveal(recorded_evidence);
    reads_give_what_is_recorded(s, session, op.task_id);
    if let Ok(detail) = detail_of(s, session, op.task_id) {
        if let Some(id) = op.attempt_id {
            attempts_are_found(detail.attempts, id);
            starts_are_the_first(detail.operations, id);
            if let Some(i) = attempt_in(detail.attempts, id) {
                let found = detail.attempts[i];
                assert(detail.attempts.contains(found));
                let at = listed_is_recorded::<Attempt>(s.records, session, op.task_id, found);
                assert(filed_as_said(s.records[at]));
                reads_give_what_is_recorded(s, session, id);
                if let Some(start) = start_of(detail.operations, id) {
                    let k = choose|k: int| #[trigger]
                        is_first_start(detail.operations, id, k) && detail.operations[k] == start;
                    reads_give_what_is_recorded(s, session, start.id);
                }
            }
        }
    }
}

/// A human asks for a reconciliation in their own name. It is recorded and begun, and goes on with
/// what the records know. One that was asked for before is answered with its finding, or that none
/// is known.
pub proof fn reconciliations_are_asked_for(
    run: ExecutionModel,
    s: StoreModel,
    ids: IdsModel,
    actor: Text,
    task_id: Text,
    attempt_id: Text,
    input: ReconcileInputModel,
    now: i64,
)
    ensures
        ({
            let (later, next) = reconcile_begun(
                run,
                s,
                ids,
                actor,
                task_id,
                attempt_id,
                input,
                now,
            );
            if run.actor.authority is LocalLead || run.actor.id != actor {
                later == s && next == ReconcileNextModel::Finished(
                    Err(WorkError(FailureCode::ScopeMismatch)),
                )
            } else {
                match reconcile_outcome(
                    s,
                    ids.first,
                    ids.second,
                    ids.third,
                    actor,
                    run.session,
                    task_id,
                    attempt_id,
                    input,
                    now,
                ) {
                    Err(error) => later == s && next == ReconcileNextModel::Finished(Err(error)),
                    Ok((recorded, mutation)) => if mutation.replayed {
                        later == recorded && match about::<ReconciliationReceipt>(
                            recorded.records,
                            run.session,
                            mutation.value.id,
                        ) {
                            Some(found) => next == ReconcileNextModel::Finished(
                                Ok(MutationModel { value: found, replayed: true }),
                            ),
                            None => next == ReconcileNextModel::Finished(
                                Err(WorkError(FailureCode::DeliveryUnconfirmed)),
                            ),
                        }
                    } else {
                        match begin_outcome(
                            recorded,
                            ids.fourth,
                            run.session,
                            mutation.value.id,
                            None,
                            now,
                        ) {
                            Err(error) => later == recorded && next == ReconcileNextModel::Finished(
                                Err(error),
                            ),
                            Ok((begun, op)) => later == begun && match recorded_evidence(
                                begun,
                                run.session,
                                op,
                            ) {
                                Ok(stage) => next == ReconcileNextModel::Await(stage),
                                Err(error) => next == ReconcileNextModel::Finished(Err(error)),
                            },
                        }
                    },
                }
            }
        }),
{
    reveal(reconcile_intended);
    reveal(reconcile_started);
    reveal(finding_repeated);
}

/// A reconciliation ends with what the evidence shows at the revision that it saw. Where the
/// attempt's place is given back, its grants are gone, and their files are named; otherwise every
/// grant stays. Where the task moved on in the meantime the operation is refused for the conflict,
/// which is the answer.
pub proof fn reconciliations_end_exactly(
    run: ExecutionModel,
    grants: Seq<GrantModel>,
    s: StoreModel,
    task_id: Text,
    attempt_id: Text,
    stage: ReconcileStageModel,
    seen: LifecycleModel,
    now: i64,
)
    ensures
        ({
            let (then, later, files, res) = reconcile_ended(
                run,
                grants,
                s,
                task_id,
                attempt_id,
                stage,
                seen,
                now,
            );
            let scope = ScopeModel { session_id: run.session, task_id, attempt_id };
            match finding_outcome(
                s,
                run.session,
                stage.operation_id,
                stage.revision,
                evidence_given(stage.evidence, seen),
                now,
            ) {
                Ok((store, receipt)) => {
                    &&& later == store
                    &&& res == Ok::<MutationModel<ReconciliationReceiptModel>, WorkError>(
                        MutationModel { value: receipt, replayed: false },
                    )
                    &&& receipt.reservation == Reservation::Released ==> then == grants.filter(
                        |g: GrantModel| g.scope != scope,
                    ) && files == grants.filter(|g: GrantModel| g.scope == scope).map_values(
                        |g: GrantModel| g.context_file,
                    )
                    &&& receipt.reservation == Reservation::Reserved ==> then == grants
                        && files.len() == 0
                },
                Err(error) => {
                    &&& then == grants && files.len() == 0 && res is Err
                    &&& error.0 != FailureCode::RevisionConflict ==> later == s && res->Err_0 == error
                    &&& error.0 == FailureCode::RevisionConflict ==> match finalize_outcome(
                        s,
                        run.session,
                        stage.operation_id,
                        (OperationOutcomeModel {
                            state: OperationState::Refused,
                            resources: NativeBindingModel {
                                workspace_id: None,
                                tab_id: None,
                                instance_id: None,
                                target: None,
                                pane_id: None,
                                worktree_path: None,
                            },
                            failure_code: Some(FailureCode::RevisionConflict),
                        }),
                        now,
                    ) {
                        Ok((store, _)) => later == store && res->Err_0 == error,
                        Err(worse) => later == s && res->Err_0 == worse,
                    }
                },
            }
        }),
{
    reveal(finding_recorded);
    reveal(op_refused);
    revoking_takes_its_scope(
        grants,
        ScopeModel { session_id: run.session, task_id, attempt_id },
    );
}

} // verus!
