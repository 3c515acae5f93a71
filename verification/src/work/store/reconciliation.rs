//! Reconciling an attempt with what became of its process.
use vstd::prelude::*;
use crate::digest::digest_text;
use crate::digest::is_uuid;
use crate::digest::new_id;
use crate::json::ToJson;
use crate::json::json_string;
use crate::text::is_native_identity;
use crate::text::native_identity;
use crate::value::Replica;
use crate::value::Same;
use crate::value::Text;
use crate::value::shown;
use crate::work::model::Attempt;
use crate::work::model::AttemptLifecycleModel;
use crate::work::model::AttemptModel;
use crate::work::model::AttemptRelease;
use crate::work::model::AttemptReleaseModel;
use crate::work::model::FailureCode;
use crate::work::model::LaunchPhase;
use crate::work::model::LifecycleObservation;
use crate::work::model::Mutation;
use crate::work::model::MutationModel;
use crate::work::model::NativeStartRefusal;
use crate::work::model::NativeStartRefusalModel;
use crate::work::model::Operation;
use crate::work::model::OperationKind;
use crate::work::model::OperationModel;
use crate::work::model::OperationState;
use crate::work::model::ReconcileInput;
use crate::work::model::ReconcileInputModel;
use crate::work::model::ReconciliationEvidence;
use crate::work::model::ReconciliationEvidenceModel;
use crate::work::model::ReconciliationReceipt;
use crate::work::model::ReconciliationReceiptModel;
use crate::work::model::ReleaseEvidence;
use crate::work::model::ReleaseEvidenceModel;
use crate::work::model::ReleaseReason;
use crate::work::model::Reservation;
use crate::work::model::Task;
use crate::work::model::TaskModel;
use crate::work::model::WorkError;
use crate::work::model::WorkResult;
use crate::work::store::changes::changed;
use crate::work::store::facts::about;
use crate::work::store::facts::fact_recorded;
use crate::work::store::facts::fact_reserved;
use crate::work::store::inputs::payload;
use crate::work::store::records::listed;
use crate::work::store::records::loaded;
use crate::work::store::records::put;
use crate::work::store::records::refuse;
use crate::work::store::records::refused;
use crate::work::store::requests::Request;
use crate::work::store::requests::RequestModel;
use crate::work::store::requests::replayed;
use crate::work::store::requests::saved;
use crate::work::store::rules::confirmed_binding;
use crate::work::store::rules::expected_binding;
use crate::work::store::rules::fresh_operation;
use crate::work::store::rules::is_text;
use crate::work::store::rules::match_native_binding;
use crate::work::store::rules::new_operation;
use crate::work::store::rules::reconcile_binding;
use crate::work::store::rules::revision;
use crate::work::store::summaries::is_active;
use crate::work::store::summaries::reservation_active;
use crate::work::store::tables::Body;
use crate::work::store::tables::BodyModel;
use crate::work::store::tables::FactKind;
use crate::work::store::tables::ReceiptBody;
use crate::work::store::tables::ReceiptBodyModel;
use crate::work::store::tables::ReconciliationIntent;
use crate::work::store::tables::ReconciliationIntentModel;
use crate::work::store::tables::RequestKind;
use crate::work::store::tables::StoreModel;
use crate::work::store::tables::WorkStore;
use crate::work::store::transaction::commits;
use crate::work::store::transaction::first_time;
use crate::work::store::transaction::once_more;

verus! {

/// The identities that a reconciliation may expect.
pub open spec fn reconcilable(input: ReconcileInputModel) -> bool {
    &&& input.expected_instance_id matches Some(id) ==> is_native_identity(id)
    &&& input.expected_native_owner_epoch matches Some(epoch) ==> is_native_identity(epoch)
}

fn check_reconcilable(input: &ReconcileInput) -> (res: bool)
    ensures
        res == reconcilable(input.deep_view()),
{
    let instance = match &input.expected_instance_id {
        Some(id) => native_identity(id.as_str()),
        None => true,
    };
    let epoch = match &input.expected_native_owner_epoch {
        Some(epoch) => native_identity(epoch.as_str()),
        None => true,
    };
    instance && epoch
}

/// The request that a reconciliation is filed under.
pub open spec fn reconcile_request(
    actor: Text,
    session: Text,
    task_id: Text,
    attempt_id: Text,
    input: ReconcileInputModel,
) -> RequestModel {
    RequestModel {
        actor,
        session,
        key: input.request_key,
        kind: RequestKind::Work(OperationKind::ReconcileAttempt),
        digest: payload(
            Seq::empty()
                .push(json_string(task_id))
                .push(json_string(attempt_id))
                .push(ReconcileInput::json(input)),
        ),
    }
}

/// The store after a reconciliation was recorded.
pub open spec fn reconcile_recorded(
    s: StoreModel,
    intent_id: Text,
    fact_id: Text,
    session: Text,
    task: TaskModel,
    op: OperationModel,
    input: ReconcileInputModel,
    now: i64,
) -> WorkResult<StoreModel> {
    match put(s, session, op.id, op.task_id, BodyModel::Operation(op)) {
        Err(error) => Err(error),
        Ok(filed) => match put(
            filed,
            session,
            intent_id,
            op.task_id,
            BodyModel::ReconciliationIntent(
                ReconciliationIntentModel { operation_id: op.id, input },
            ),
        ) {
            Err(error) => Err(error),
            Ok(meant) => match fact_reserved(
                meant,
                session,
                op,
                FactKind::Reconciliation,
                fact_id,
            ) {
                Err(error) => Err(error),
                Ok(kept) => match changed(kept, task, "reconciliation_prepared"@, op.id, now) {
                    Err(error) => Err(error),
                    Ok((next, _)) => Ok(next),
                },
            },
        },
    }
}

/// What becomes of a request to reconcile an attempt, where the operation, the intent and the
/// row that is kept for the finding are given these identifiers.
pub open spec fn reconcile_outcome(
    s: StoreModel,
    id: Text,
    intent_id: Text,
    fact_id: Text,
    actor: Text,
    session: Text,
    task_id: Text,
    attempt_id: Text,
    input: ReconcileInputModel,
    now: i64,
) -> WorkResult<(StoreModel, MutationModel<OperationModel>)> {
    let request = reconcile_request(actor, session, task_id, attempt_id, input);
    if !reconcilable(input) {
        refused(FailureCode::InvalidInput)
    } else {
        match replayed::<Operation>(s, request) {
            Err(error) => Err(error),
            Ok(Some(found)) => match loaded::<Operation>(s, session, found.id) {
                Err(error) => Err(error),
                Ok(op) => Ok((s, once_more(op))),
            },
            Ok(None) => match loaded::<Task>(s, session, task_id) {
                Err(error) => Err(error),
                Ok(task) => if task.revision != input.expected_revision {
                    refused(FailureCode::RevisionConflict)
                } else {
                    match loaded::<Attempt>(s, session, attempt_id) {
                        Err(error) => Err(error),
                        Ok(attempt) => match expected_binding(attempt, task_id, input) {
                            Err(error) => Err(error),
                            Ok(_) => {
                                let op = fresh_operation(
                                    id,
                                    task_id,
                                    Some(attempt_id),
                                    OperationKind::ReconcileAttempt,
                                    now,
                                );
                                match reconcile_recorded(
                                    s,
                                    intent_id,
                                    fact_id,
                                    session,
                                    task,
                                    op,
                                    input,
                                    now,
                                ) {
                                    Err(error) => Err(error),
                                    Ok(next) => Ok(
                                        (
                                            saved(
                                                next,
                                                request,
                                                ReceiptBodyModel::Operation(op),
                                            ),
                                            first_time(op),
                                        ),
                                    ),
                                }
                            },
                        },
                    }
                },
            },
        }
    }
}

/// The first start operation of an attempt.
pub open spec fn start_of(operations: Seq<OperationModel>, attempt_id: Text) -> Option<
    OperationModel,
>
    decreases operations.len(),
{
    if operations.len() == 0 {
        None
    } else {
        match start_of(operations.drop_last(), attempt_id) {
            Some(op) => Some(op),
            None => if operations.last().kind == OperationKind::StartAttempt
                && operations.last().attempt_id == Some(attempt_id) {
                Some(operations.last())
            } else {
                None
            },
        }
    }
}

/// What evidence shows of an attempt, and the proof under which its reservation is given back
/// where the evidence proves that no process is left.
#[verifier::opaque]
pub open spec fn observed(
    s: StoreModel,
    session: Text,
    attempt: AttemptModel,
    start: OperationModel,
    evidence: ReconciliationEvidenceModel,
) -> WorkResult<(LifecycleObservation, Option<(ReleaseReason, ReleaseEvidenceModel)>)> {
    if !is_active(attempt) {
        Ok((LifecycleObservation::AlreadyReleased, None))
    } else {
        match evidence {
            ReconciliationEvidenceModel::Unknown => Ok((LifecycleObservation::Unknown, None)),
            ReconciliationEvidenceModel::NotDispatched => if attempt.lifecycle.launch_phase
                != LaunchPhase::NotDispatched || attempt.binding.instance_id is Some || start.state
                == OperationState::Acknowledged {
                refused(FailureCode::NotReady)
            } else {
                Ok(
                    (
                        LifecycleObservation::NotStarted,
                        Some(
                            (
                                ReleaseReason::StartupNotDispatched,
                                ReleaseEvidenceModel::GatewayDispatchFence {
                                    start_operation_id: start.id,
                                },
                            ),
                        ),
                    ),
                )
            },
            ReconciliationEvidenceModel::NativeNotStarted {
                start_operation_id,
                owner_epoch,
                receipt_id,
            } => if start_operation_id != start.id || attempt.lifecycle.launch_phase
                != LaunchPhase::DispatchClaimed || attempt.binding.instance_id is Some || about::<
                NativeStartRefusal,
            >(s.records, session, start.id) != Some(
                NativeStartRefusalModel { start_operation_id, owner_epoch, receipt_id },
            ) {
                refused(FailureCode::NotReady)
            } else {
                Ok(
                    (
                        LifecycleObservation::NotStarted,
                        Some(
                            (
                                ReleaseReason::StartupRefusedWithoutProcess,
                                ReleaseEvidenceModel::NativeStartRefusal {
                                    start_operation_id: start.id,
                                    native_owner_epoch: owner_epoch,
                                    native_receipt_id: receipt_id,
                                },
                            ),
                        ),
                    ),
                )
            },
            ReconciliationEvidenceModel::Live { instance_id, owner_epoch } => {
                match confirmed_binding(attempt, instance_id, owner_epoch) {
                    Err(error) => Err(error),
                    Ok(_) => Ok((LifecycleObservation::Live, None)),
                }
            },
            ReconciliationEvidenceModel::Exited { instance_id, owner_epoch, receipt_id } => {
                match confirmed_binding(attempt, instance_id, owner_epoch) {
                    Err(error) => Err(error),
                    Ok(_) => if !is_native_identity(receipt_id) {
                        refused(FailureCode::InvalidInput)
                    } else {
                        Ok(
                            (
                                LifecycleObservation::Exited,
                                Some(
                                    (
                                        ReleaseReason::OwnedProcessExited,
                                        ReleaseEvidenceModel::NativeExitTombstone {
                                            instance_id,
                                            native_owner_epoch: owner_epoch,
                                            native_receipt_id: receipt_id,
                                        },
                                    ),
                                ),
                            ),
                        )
                    },
                }
            },
        }
    }
}

/// The store after a start that never went out was refused on account of a finding.
pub open spec fn start_fenced(
    s: StoreModel,
    session: Text,
    task_id: Text,
    start: OperationModel,
    release: Option<(ReleaseReason, ReleaseEvidenceModel)>,
    now: i64,
) -> WorkResult<StoreModel> {
    if release matches Some((reason, _)) && reason == ReleaseReason::StartupNotDispatched {
        put(
            s,
            session,
            start.id,
            task_id,
            BodyModel::Operation(
                OperationModel {
                    state: OperationState::Refused,
                    failure_code: Some(FailureCode::NotReady),
                    updated_at_ms: now,
                    ..start
                },
            ),
        )
    } else {
        Ok(s)
    }
}

/// An attempt after a finding: its reservation is given back where there is proof for it.
pub open spec fn attempt_found(
    attempt: AttemptModel,
    op_id: Text,
    release: Option<(ReleaseReason, ReleaseEvidenceModel)>,
    now: i64,
) -> AttemptModel {
    match release {
        None => attempt,
        Some((reason, evidence)) => AttemptModel {
            lifecycle: AttemptLifecycleModel {
                reservation: Reservation::Released,
                release: Some(
                    AttemptReleaseModel {
                        reason,
                        evidence,
                        reconciliation_operation_id: op_id,
                        released_at_ms: now,
                    },
                ),
                ..attempt.lifecycle
            },
            ..attempt
        },
    }
}

/// The store after a finding was filed with the attempt, where it changed it.
pub open spec fn attempt_settled(
    s: StoreModel,
    session: Text,
    task_id: Text,
    attempt: AttemptModel,
    release: Option<(ReleaseReason, ReleaseEvidenceModel)>,
) -> WorkResult<StoreModel> {
    if release is Some {
        put(s, session, attempt.id, task_id, BodyModel::Attempt(attempt))
    } else {
        Ok(s)
    }
}

/// The store and the receipt after a finding was recorded.
pub open spec fn finding_recorded(
    s: StoreModel,
    session: Text,
    task: TaskModel,
    op: OperationModel,
    attempt: AttemptModel,
    observation: LifecycleObservation,
    now: i64,
) -> WorkResult<(StoreModel, ReconciliationReceiptModel)> {
    match put(s, session, op.id, op.task_id, BodyModel::Operation(op)) {
        Err(error) => Err(error),
        Ok(filed) => match changed(filed, task, "attempt_reconciled"@, op.id, now) {
            Err(error) => Err(error),
            Ok((told, later)) => {
                let receipt = ReconciliationReceiptModel {
                    operation_id: op.id,
                    attempt_id: attempt.id,
                    observation,
                    reservation: attempt.lifecycle.reservation,
                    release: attempt.lifecycle.release,
                    task_revision: later.revision,
                };
                match fact_recorded(
                    told,
                    session,
                    op,
                    FactKind::Reconciliation,
                    BodyModel::Reconciliation(receipt),
                ) {
                    Err(error) => Err(error),
                    Ok(next) => Ok((next, receipt)),
                }
            },
        },
    }
}

/// The task, the attempt and its start that a reconciliation is about, where they are still the
/// ones that it was prepared for.
#[verifier::opaque]
pub open spec fn reconcile_subject(
    s: StoreModel,
    session: Text,
    op: OperationModel,
    expected_revision: u64,
) -> WorkResult<(TaskModel, AttemptModel, OperationModel)> {
    if op.kind != OperationKind::ReconcileAttempt || op.state != OperationState::Submitting {
        refused(FailureCode::RevisionConflict)
    } else {
        match loaded::<Task>(s, session, op.task_id) {
            Err(error) => Err(error),
            Ok(task) => if task.revision != expected_revision {
                refused(FailureCode::RevisionConflict)
            } else {
                match op.attempt_id {
                    None => refused(FailureCode::InvalidInput),
                    Some(id) => match loaded::<Attempt>(s, session, id) {
                        Err(error) => Err(error),
                        Ok(attempt) => match about::<ReconciliationIntent>(
                            s.records,
                            session,
                            op.id,
                        ) {
                            None => refused(FailureCode::InvalidInput),
                            Some(intent) => match expected_binding(
                                attempt,
                                op.task_id,
                                intent.input,
                            ) {
                                Err(error) => Err(error),
                                Ok(_) => match start_of(
                                    listed::<Operation>(s.records, session, op.task_id),
                                    attempt.id,
                                ) {
                                    None => refused(FailureCode::InvalidInput),
                                    Some(start) => Ok((task, attempt, start)),
                                },
                            },
                        },
                    },
                }
            },
        }
    }
}

/// The store and the receipt after a finding took effect.
#[verifier::opaque]
pub open spec fn finding_settled(
    s: StoreModel,
    session: Text,
    task: TaskModel,
    op: OperationModel,
    attempt: AttemptModel,
    start: OperationModel,
    observation: LifecycleObservation,
    release: Option<(ReleaseReason, ReleaseEvidenceModel)>,
    now: i64,
) -> WorkResult<(StoreModel, ReconciliationReceiptModel)> {
    match start_fenced(s, session, op.task_id, start, release, now) {
        Err(error) => Err(error),
        Ok(fenced) => {
            let found = attempt_found(attempt, op.id, release, now);
            match attempt_settled(fenced, session, op.task_id, found, release) {
                Err(error) => Err(error),
                Ok(settled) => finding_recorded(
                    settled,
                    session,
                    task,
                    OperationModel {
                        state: OperationState::Acknowledged,
                        updated_at_ms: now,
                        ..op
                    },
                    found,
                    observation,
                    now,
                ),
            }
        },
    }
}

/// What becomes of the evidence that was gathered for a reconciliation. A finding is recorded
/// once; later evidence is answered with the first finding.
pub open spec fn finding_outcome(
    s: StoreModel,
    session: Text,
    operation_id: Text,
    expected_revision: u64,
    evidence: ReconciliationEvidenceModel,
    now: i64,
) -> WorkResult<(StoreModel, ReconciliationReceiptModel)> {
    match about::<ReconciliationReceipt>(s.records, session, operation_id) {
        Some(receipt) => Ok((s, receipt)),
        None => match loaded::<Operation>(s, session, operation_id) {
            Err(error) => Err(error),
            Ok(op) => match reconcile_subject(s, session, op, expected_revision) {
                Err(error) => Err(error),
                Ok((task, attempt, start)) => match observed(
                    s,
                    session,
                    attempt,
                    start,
                    evidence,
                ) {
                    Err(error) => Err(error),
                    Ok((observation, release)) => finding_settled(
                        s,
                        session,
                        task,
                        op,
                        attempt,
                        start,
                        observation,
                        release,
                        now,
                    ),
                },
            },
        },
    }
}

/// The first start operation of an attempt.
pub(crate) fn find_start(operations: &Vec<Operation>, attempt_id: &str) -> (res: Option<Operation>)
    ensures
        res.deep_view() == start_of(operations.deep_view(), attempt_id@),
{
    let ghost all = operations.deep_view();
    let mut found: Option<Operation> = None;
    let mut i: usize = 0;
    while i < operations.len()
        invariant
            i <= operations.len(),
            all == operations.deep_view(),
            found.deep_view() == start_of(all.take(i as int), attempt_id@),
        decreases operations.len() - i,
    {
        assert(all.take(i + 1).drop_last() =~= all.take(i as int));
        let op = &operations[i];
        if found.is_none() && op.kind == OperationKind::StartAttempt && is_text(
            &op.attempt_id,
            attempt_id,
        ) {
            found = Some(op.replica());
        }
        i += 1;
    }
    assert(all.take(i as int) =~= all);
    found
}

/// The proof under which a reservation is given back.
type Release = Option<(ReleaseReason, ReleaseEvidence)>;

/// An attempt after a finding.
fn settle(attempt: Attempt, op_id: &str, release: &Release, now: i64) -> (res: Attempt)
    ensures
        res.deep_view() == attempt_found(
            attempt.deep_view(),
            op_id@,
            release.deep_view(),
            now,
        ),
{
    let mut attempt = attempt;
    match release {
        None => {},
        Some((reason, evidence)) => {
            attempt.lifecycle.reservation = Reservation::Released;
            attempt.lifecycle.release = Some(
                AttemptRelease {
                    reason: *reason,
                    evidence: evidence.replica(),
                    reconciliation_operation_id: op_id.to_string(),
                    released_at_ms: now,
                },
            );
        },
    }
    attempt
}

impl WorkStore {
    /// Carries out a request to reconcile an attempt under the identifiers given.
    pub fn prepare_reconciliation_as(
        &mut self,
        id: &str,
        intent_id: &str,
        fact_id: &str,
        actor: &str,
        session: &str,
        task_id: &str,
        attempt_id: &str,
        input: ReconcileInput,
        now: i64,
    ) -> (res: WorkResult<Mutation<Operation>>)
        ensures
            commits(
                old(self)@,
                final(self)@,
                reconcile_outcome(
                    old(self)@,
                    id@,
                    intent_id@,
                    fact_id@,
                    actor@,
                    session@,
                    task_id@,
                    attempt_id@,
                    input.deep_view(),
                    now,
                ),
                shown(res),
            ),
    {
        if !check_reconcilable(&input) {
            return refuse(FailureCode::InvalidInput);
        }
        let request = Request {
            actor,
            session,
            key: input.request_key.as_str(),
            kind: RequestKind::Work(OperationKind::ReconcileAttempt),
            digest: digest_text(&(task_id, attempt_id, &input)),
        };
        match self.replay::<Operation>(&request)? {
            Some(found) => {
                let value = self.load::<Operation>(session, found.id.as_str())?;
                return Ok(Mutation { value, replayed: true });
            },
            None => {},
        }
        let task = self.load::<Task>(session, task_id)?;
        revision(&task, input.expected_revision)?;
        let attempt = self.load::<Attempt>(session, attempt_id)?;
        reconcile_binding(&attempt, task_id, &input)?;
        let op = new_operation(
            id,
            task_id,
            Some(attempt_id.to_string()),
            OperationKind::ReconcileAttempt,
            now,
        );
        let mut next = self.replica();
        next.put(session, op.id.as_str(), op.task_id.as_str(), Body::Operation(op.replica()))?;
        let intent = ReconciliationIntent { operation_id: op.id.clone(), input: input.replica() };
        next.put(session, intent_id, op.task_id.as_str(), Body::ReconciliationIntent(intent))?;
        next.reserve_fact(session, &op, FactKind::Reconciliation, fact_id)?;
        let _ = next.change(task, "reconciliation_prepared", op.id.as_str(), now)?;
        next.save(&request, ReceiptBody::Operation(op.replica()));
        *self = next;
        Ok(Mutation { value: op, replayed: false })
    }

    /// Records the intent to reconcile an attempt.
    pub fn prepare_reconciliation(
        &mut self,
        actor: &str,
        session: &str,
        task_id: &str,
        attempt_id: &str,
        input: ReconcileInput,
        now: i64,
    ) -> (res: WorkResult<Mutation<Operation>>)
        ensures
            exists|id: Text, intent_id: Text, fact_id: Text|
                is_uuid(id) && is_uuid(intent_id) && is_uuid(fact_id) && commits(
                    old(self)@,
                    final(self)@,
                    #[trigger] reconcile_outcome(
                        old(self)@,
                        id,
                        intent_id,
                        fact_id,
                        actor@,
                        session@,
                        task_id@,
                        attempt_id@,
                        input.deep_view(),
                        now,
                    ),
                    shown(res),
                ),
    {
        let id = new_id();
        let intent_id = new_id();
        let fact_id = new_id();
        self.prepare_reconciliation_as(
            id.as_str(),
            intent_id.as_str(),
            fact_id.as_str(),
            actor,
            session,
            task_id,
            attempt_id,
            input,
            now,
        )
    }

    fn reconciliation_subject(&self, session: &str, op: &Operation, expected_revision: u64) -> (res:
        WorkResult<(Task, Attempt, Operation)>)
        ensures
            shown(res) == reconcile_subject(self@, session@, op.deep_view(), expected_revision),
    {
        reveal(reconcile_subject);
        if op.kind != OperationKind::ReconcileAttempt || op.state != OperationState::Submitting {
            return refuse(FailureCode::RevisionConflict);
        }
        let task = self.load::<Task>(session, op.task_id.as_str())?;
        revision(&task, expected_revision)?;
        let attempt = match &op.attempt_id {
            None => {
                return refuse(FailureCode::InvalidInput);
            },
            Some(id) => self.load::<Attempt>(session, id.as_str())?,
        };
        let intent = match self.record_by_operation::<ReconciliationIntent>(
            session,
            op.id.as_str(),
        ) {
            None => {
                return refuse(FailureCode::InvalidInput);
            },
            Some(intent) => intent,
        };
        reconcile_binding(&attempt, op.task_id.as_str(), &intent.input)?;
        let operations = self.records::<Operation>(session, op.task_id.as_str());
        match find_start(&operations, attempt.id.as_str()) {
            None => refuse(FailureCode::InvalidInput),
            Some(start) => Ok((task, attempt, start)),
        }
    }

    fn observe(
        &self,
        session: &str,
        attempt: &Attempt,
        start: &Operation,
        evidence: ReconciliationEvidence,
    ) -> (res: WorkResult<(LifecycleObservation, Release)>)
        ensures
            shown(res) == observed(
                self@,
                session@,
                attempt.deep_view(),
                start.deep_view(),
                evidence.deep_view(),
            ),
    {
        reveal(observed);
        if !reservation_active(attempt) {
            return Ok((LifecycleObservation::AlreadyReleased, None));
        }
        match evidence {
            ReconciliationEvidence::Unknown => Ok((LifecycleObservation::Unknown, None)),
            ReconciliationEvidence::NotDispatched => {
                if attempt.lifecycle.launch_phase != LaunchPhase::NotDispatched
                    || attempt.binding.instance_id.is_some() || start.state
                    == OperationState::Acknowledged {
                    return refuse(FailureCode::NotReady);
                }
                Ok(
                    (
                        LifecycleObservation::NotStarted,
                        Some(
                            (
                                ReleaseReason::StartupNotDispatched,
                                ReleaseEvidence::GatewayDispatchFence {
                                    start_operation_id: start.id.clone(),
                                },
                            ),
                        ),
                    ),
                )
            },
            ReconciliationEvidence::NativeNotStarted {
                start_operation_id,
                owner_epoch,
                receipt_id,
            } => {
                let refusal = NativeStartRefusal { start_operation_id, owner_epoch, receipt_id };
                let known = match self.record_by_operation::<NativeStartRefusal>(
                    session,
                    start.id.as_str(),
                ) {
                    Some(known) => known.same(&refusal),
                    None => false,
                };
                if !refusal.start_operation_id.same(&start.id) || attempt.lifecycle.launch_phase
                    != LaunchPhase::DispatchClaimed || attempt.binding.instance_id.is_some()
                    || !known {
                    return refuse(FailureCode::NotReady);
                }
                Ok(
                    (
                        LifecycleObservation::NotStarted,
                        Some(
                            (
                                ReleaseReason::StartupRefusedWithoutProcess,
                                ReleaseEvidence::NativeStartRefusal {
                                    start_operation_id: start.id.clone(),
                                    native_owner_epoch: refusal.owner_epoch,
                                    native_receipt_id: refusal.receipt_id,
                                },
                            ),
                        ),
                    ),
                )
            },
            ReconciliationEvidence::Live { instance_id, owner_epoch } => {
                match_native_binding(attempt, instance_id.as_str(), owner_epoch.as_str())?;
                Ok((LifecycleObservation::Live, None))
            },
            ReconciliationEvidence::Exited { instance_id, owner_epoch, receipt_id } => {
                match_native_binding(attempt, instance_id.as_str(), owner_epoch.as_str())?;
                if !native_identity(receipt_id.as_str()) {
                    return refuse(FailureCode::InvalidInput);
                }
                Ok(
                    (
                        LifecycleObservation::Exited,
                        Some(
                            (
                                ReleaseReason::OwnedProcessExited,
                                ReleaseEvidence::NativeExitTombstone {
                                    instance_id,
                                    native_owner_epoch: owner_epoch,
                                    native_receipt_id: receipt_id,
                                },
                            ),
                        ),
                    ),
                )
            },
        }
    }

    /// Refuses a start that never went out. On failure the caller discards the store.
    fn fence_start(
        &mut self,
        session: &str,
        task_id: &str,
        start: Operation,
        release: &Release,
        now: i64,
    ) -> (res: WorkResult<()>)
        ensures
            match start_fenced(
                old(self)@,
                session@,
                task_id@,
                start.deep_view(),
                release.deep_view(),
                now,
            ) {
                Ok(next) => res is Ok && final(self)@ == next,
                Err(error) => res == Err::<(), WorkError>(error),
            },
    {
        let undispatched = match release {
            Some((reason, _)) => *reason == ReleaseReason::StartupNotDispatched,
            None => false,
        };
        if undispatched {
            let id = start.id.clone();
            let mut start = start;
            start.state = OperationState::Refused;
            start.failure_code = Some(FailureCode::NotReady);
            start.updated_at_ms = now;
            return self.put(session, id.as_str(), task_id, Body::Operation(start));
        }
        Ok(())
    }

    /// Records a finding. On failure the caller discards the store.
    fn record_finding(
        &mut self,
        session: &str,
        task: Task,
        op: &Operation,
        attempt: Attempt,
        observation: LifecycleObservation,
        now: i64,
    ) -> (res: WorkResult<ReconciliationReceipt>)
        ensures
            match finding_recorded(
                old(self)@,
                session@,
                task.deep_view(),
                op.deep_view(),
                attempt.deep_view(),
                observation,
                now,
            ) {
                Ok((next, receipt)) => final(self)@ == next && shown(res) == Ok::<
                    ReconciliationReceiptModel,
                    WorkError,
                >(receipt),
                Err(error) => res == Err::<ReconciliationReceipt, WorkError>(error),
            },
    {
        self.put(session, op.id.as_str(), op.task_id.as_str(), Body::Operation(op.replica()))?;
        let later = self.change(task, "attempt_reconciled", op.id.as_str(), now)?;
        let receipt = ReconciliationReceipt {
            operation_id: op.id.clone(),
            attempt_id: attempt.id,
            observation,
            reservation: attempt.lifecycle.reservation,
            release: attempt.lifecycle.release,
            task_revision: later.revision,
        };
        self.fulfill_fact(
            session,
            op,
            FactKind::Reconciliation,
            Body::Reconciliation(receipt.replica()),
        )?;
        Ok(receipt)
    }

    /// Lets a finding take effect. On failure the caller discards the store.
    fn settle_finding(
        &mut self,
        session: &str,
        task: Task,
        op: Operation,
        attempt: Attempt,
        start: Operation,
        observation: LifecycleObservation,
        release: &Release,
        now: i64,
    ) -> (res: WorkResult<ReconciliationReceipt>)
        ensures
            match finding_settled(
                old(self)@,
                session@,
                task.deep_view(),
                op.deep_view(),
                attempt.deep_view(),
                start.deep_view(),
                observation,
                release.deep_view(),
                now,
            ) {
                Ok((next, receipt)) => final(self)@ == next && shown(res) == Ok::<
                    ReconciliationReceiptModel,
                    WorkError,
                >(receipt),
                Err(error) => res == Err::<ReconciliationReceipt, WorkError>(error),
            },
    {
        reveal(finding_settled);
        let mut op = op;
        self.fence_start(session, op.task_id.as_str(), start, release, now)?;
        let found = settle(attempt, op.id.as_str(), release, now);
        if release.is_some() {
            let copy = found.replica();
            self.put(session, found.id.as_str(), op.task_id.as_str(), Body::Attempt(copy))?;
        }
        op.state = OperationState::Acknowledged;
        op.updated_at_ms = now;
        self.record_finding(session, task, &op, found, observation, now)
    }

    /// Records what became of an attempt's process. The caller holds the grant's guard while
    /// this transaction runs.
    pub fn finish_reconciliation(
        &mut self,
        session: &str,
        operation_id: &str,
        expected_revision: u64,
        evidence: ReconciliationEvidence,
        now: i64,
    ) -> (res: WorkResult<ReconciliationReceipt>)
        ensures
            commits(
                old(self)@,
                final(self)@,
                finding_outcome(
                    old(self)@,
                    session@,
                    operation_id@,
                    expected_revision,
                    evidence.deep_view(),
                    now,
                ),
                shown(res),
            ),
    {
        match self.record_by_operation::<ReconciliationReceipt>(session, operation_id) {
            Some(receipt) => {
                return Ok(receipt);
            },
            None => {},
        }
        let op = self.load::<Operation>(session, operation_id)?;
        let (task, attempt, start) = self.reconciliation_subject(session, &op, expected_revision)?;
        let (observation, release) = self.observe(session, &attempt, &start, evidence)?;
        let mut next = self.replica();
        let receipt = next.settle_finding(
            session,
            task,
            op,
            attempt,
            start,
            observation,
            &release,
            now,
        )?;
        *self = next;
        Ok(receipt)
    }

    /// Reads what a reconciliation found.
    pub fn get_reconciliation(&self, session: &str, operation_id: &str) -> (res: WorkResult<
        ReconciliationReceipt,
    >)
        ensures
            shown(res) == (match about::<ReconciliationReceipt>(
                self@.records,
                session@,
                operation_id@,
            ) {
                Some(receipt) => Ok(receipt),
                None => refused(FailureCode::NotFound),
            }),
    {
        match self.record_by_operation::<ReconciliationReceipt>(session, operation_id) {
            Some(receipt) => Ok(receipt),
            None => refuse(FailureCode::NotFound),
        }
    }
}

} // verus!
