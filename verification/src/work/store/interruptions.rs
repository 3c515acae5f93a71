//! Interrupting an attempt: one interrupt at a time, and only of the process that was meant.
use vstd::prelude::*;
use crate::digest::digest_text;
use crate::digest::is_uuid;
use crate::digest::new_id;
use crate::json::ToJson;
use crate::json::json_string;
use crate::text::is_native_identity;
use crate::text::native_identity;
use crate::text::text_eq;
use crate::value::Replica;
use crate::value::Same;
use crate::value::Text;
use crate::value::shown;
use crate::work::model::Attempt;
use crate::work::model::AttemptModel;
use crate::work::model::FailureCode;
use crate::work::model::InterruptInput;
use crate::work::model::InterruptInputModel;
use crate::work::model::InterruptionOutcome;
use crate::work::model::InterruptionOutcomeModel;
use crate::work::model::InterruptionReceipt;
use crate::work::model::InterruptionReceiptModel;
use crate::work::model::Mutation;
use crate::work::model::MutationModel;
use crate::work::model::Operation;
use crate::work::model::OperationKind;
use crate::work::model::OperationModel;
use crate::work::model::OperationState;
use crate::work::model::Task;
use crate::work::model::TaskModel;
use crate::work::model::WorkResult;
use crate::work::store::attempts::renewed;
use crate::work::store::changes::changed;
use crate::work::store::changes::operation_saved;
use crate::work::store::facts::fact_recorded;
use crate::work::store::facts::fact_reserved;
use crate::work::store::inputs::payload;
use crate::work::store::records::listed;
use crate::work::store::records::loaded;
use crate::work::store::records::put;
use crate::work::store::records::refuse;
use crate::work::store::records::refused;
use crate::work::store::requests::Request;
use crate::work::store::requests::RequestModel;
use crate::work::store::requests::replayed;
use crate::work::store::requests::saved;
use crate::work::store::rules::confirmed_binding;
use crate::work::store::rules::fresh_operation;
use crate::work::store::rules::is_text;
use crate::work::store::rules::match_native_binding;
use crate::work::store::rules::new_operation;
use crate::work::store::rules::revision;
use crate::work::store::summaries::is_active;
use crate::work::store::summaries::is_open;
use crate::work::store::summaries::open_state;
use crate::work::store::summaries::reservation_active;
use crate::work::store::tables::Body;
use crate::work::store::tables::BodyModel;
use crate::work::store::tables::FactKind;
use crate::work::store::tables::InterruptionFact;
use crate::work::store::tables::InterruptionFactModel;
use crate::work::store::tables::ReceiptBody;
use crate::work::store::tables::ReceiptBodyModel;
use crate::work::store::tables::RequestKind;
use crate::work::store::tables::StoreModel;
use crate::work::store::tables::WorkStore;
use crate::work::store::transaction::commits;
use crate::work::store::transaction::first_time;
use crate::work::store::transaction::once_more;

verus! {

/// Whether an interrupt still finds the process that it means.
pub open spec fn interruptible(s: StoreModel, session: Text, op: OperationModel) -> WorkResult<()> {
    match op.attempt_id {
        None => refused(FailureCode::InvalidInput),
        Some(id) => match loaded::<Attempt>(s, session, id) {
            Err(error) => Err(error),
            Ok(attempt) => if attempt.task_id != op.task_id {
                refused(FailureCode::ScopeMismatch)
            } else if !is_active(attempt) {
                refused(FailureCode::NotReady)
            } else {
                match (op.resources.instance_id, op.interruption_owner_epoch) {
                    (Some(instance), Some(epoch)) => if attempt.binding.instance_id
                        != op.resources.instance_id || attempt.lifecycle.native_owner_epoch
                        != op.interruption_owner_epoch {
                        refused(FailureCode::InstanceChanged)
                    } else {
                        confirmed_binding(attempt, instance, epoch)
                    },
                    _ => refused(FailureCode::InstanceChanged),
                }
            },
        },
    }
}

/// Whether a request to interrupt names a process.
pub open spec fn names_process(input: InterruptInputModel) -> bool {
    is_native_identity(input.expected_instance_id) && is_native_identity(
        input.expected_native_owner_epoch,
    )
}

/// The request that an interrupt is filed under.
pub open spec fn interrupt_request(
    actor: Text,
    session: Text,
    task: Text,
    attempt: Text,
    input: InterruptInputModel,
) -> RequestModel {
    RequestModel {
        actor,
        session,
        key: input.request_key,
        kind: RequestKind::Work(OperationKind::InterruptAttempt),
        digest: payload(
            Seq::empty()
                .push(json_string(task))
                .push(json_string(attempt))
                .push(InterruptInput::json(input)),
        ),
    }
}

/// An interrupt of an attempt that has not ended.
pub open spec fn interrupting(op: OperationModel, attempt_id: Text) -> bool {
    op.attempt_id == Some(attempt_id) && op.kind == OperationKind::InterruptAttempt && is_open(
        op.state,
    )
}

/// Whether an attempt is being interrupted already.
pub open spec fn any_interrupt(operations: Seq<OperationModel>, attempt_id: Text) -> bool {
    exists|i: int| 0 <= i < operations.len() && interrupting(#[trigger] operations[i], attempt_id)
}

/// An interrupt as it is first recorded.
pub open spec fn fresh_interrupt(
    id: Text,
    task_id: Text,
    attempt: AttemptModel,
    attempt_id: Text,
    input: InterruptInputModel,
    now: i64,
) -> OperationModel {
    OperationModel {
        resources: attempt.binding,
        interruption_owner_epoch: Some(input.expected_native_owner_epoch),
        ..fresh_operation(id, task_id, Some(attempt_id), OperationKind::InterruptAttempt, now)
    }
}

/// What becomes of a request to interrupt an attempt, where the operation and the row that is
/// kept for its end are given these identifiers.
pub open spec fn interrupt_outcome(
    s: StoreModel,
    id: Text,
    fact_id: Text,
    actor: Text,
    session: Text,
    task_id: Text,
    attempt_id: Text,
    input: InterruptInputModel,
    now: i64,
) -> WorkResult<(StoreModel, MutationModel<OperationModel>)> {
    let request = interrupt_request(actor, session, task_id, attempt_id, input);
    if !names_process(input) {
        refused(FailureCode::InvalidInput)
    } else {
        match replayed::<Operation>(s, request) {
            Err(error) => Err(error),
            Ok(Some(found)) => match loaded::<Operation>(s, session, found.id) {
                Err(error) => Err(error),
                Ok(op) => Ok((s, once_more(op))),
            },
            Ok(None) => match interrupt_admitted(
                s,
                id,
                session,
                task_id,
                attempt_id,
                input,
                now,
            ) {
                Err(error) => Err(error),
                Ok((task, op)) => match interrupt_recorded(s, fact_id, session, task, op, now) {
                    Err(error) => Err(error),
                    Ok(next) => Ok(
                        (saved(next, request, ReceiptBodyModel::Operation(op)), first_time(op)),
                    ),
                },
            },
        }
    }
}

/// The task and the interrupt that is recorded under it, where one may be.
pub open spec fn interrupt_admitted(
    s: StoreModel,
    id: Text,
    session: Text,
    task_id: Text,
    attempt_id: Text,
    input: InterruptInputModel,
    now: i64,
) -> WorkResult<(TaskModel, OperationModel)> {
    match loaded::<Task>(s, session, task_id) {
        Err(error) => Err(error),
        Ok(task) => if task.revision != input.expected_revision {
            refused(FailureCode::RevisionConflict)
        } else {
            match loaded::<Attempt>(s, session, attempt_id) {
                Err(error) => Err(error),
                Ok(attempt) => {
                    let op = fresh_interrupt(id, task_id, attempt, attempt_id, input, now);
                    if op.resources.instance_id != Some(input.expected_instance_id) {
                        refused(FailureCode::InstanceChanged)
                    } else {
                        match interruptible(s, session, op) {
                            Err(error) => Err(error),
                            Ok(_) => if any_interrupt(
                                listed::<Operation>(s.records, session, task_id),
                                attempt_id,
                            ) {
                                refused(FailureCode::NotReady)
                            } else {
                                Ok((task, op))
                            },
                        }
                    }
                },
            }
        },
    }
}

/// The store after an interrupt was recorded.
pub open spec fn interrupt_recorded(
    s: StoreModel,
    fact_id: Text,
    session: Text,
    task: TaskModel,
    op: OperationModel,
    now: i64,
) -> WorkResult<StoreModel> {
    match put(s, session, op.id, op.task_id, BodyModel::Operation(op)) {
        Err(error) => Err(error),
        Ok(filed) => match fact_reserved(filed, session, op, FactKind::Interruption, fact_id) {
            Err(error) => Err(error),
            Ok(kept) => match changed(kept, task, "operation_changed"@, op.id, now) {
                Err(error) => Err(error),
                Ok((next, _)) => Ok(next),
            },
        },
    }
}

/// Whether a native receipt proves that this interrupt was written.
pub open spec fn receipt_proves(op: OperationModel, receipt: InterruptionReceiptModel) -> bool {
    &&& receipt.operation_id == op.id
    &&& op.resources.instance_id == Some(receipt.launch_id)
    &&& op.interruption_owner_epoch == Some(receipt.owner_epoch)
    &&& is_native_identity(receipt.receipt_id)
    &&& receipt.key == "Escape"@
    &&& receipt.bytes_written == 1
    &&& receipt.input_disposition == "written"@
}

/// The refusals that a native interrupt may report.
pub open spec fn is_native_refusal(code: FailureCode) -> bool {
    code == FailureCode::ResourceLimit || code == FailureCode::InstanceChanged || code
        == FailureCode::CapabilityUnavailable
}

/// An interrupt at its end. Evidence that does not prove a write is kept as uncertainty.
pub open spec fn interrupt_ended(
    op: OperationModel,
    outcome: InterruptionOutcomeModel,
    now: i64,
) -> OperationModel {
    let unconfirmed = OperationModel {
        state: OperationState::Unconfirmed,
        failure_code: Some(FailureCode::DeliveryUnconfirmed),
        interruption_receipt: None,
        updated_at_ms: now,
        ..op
    };
    match outcome {
        InterruptionOutcomeModel::Acknowledged(receipt) => if receipt_proves(op, receipt) {
            OperationModel {
                state: OperationState::Acknowledged,
                failure_code: None,
                interruption_receipt: Some(receipt),
                updated_at_ms: now,
                ..op
            }
        } else {
            unconfirmed
        },
        InterruptionOutcomeModel::Refused(code) => if is_native_refusal(code) {
            OperationModel {
                state: OperationState::Refused,
                failure_code: Some(code),
                interruption_receipt: None,
                updated_at_ms: now,
                ..op
            }
        } else {
            unconfirmed
        },
        InterruptionOutcomeModel::Unconfirmed => unconfirmed,
    }
}

/// What becomes of an interrupt that is said to have ended.
pub open spec fn interrupt_finalized(
    s: StoreModel,
    session: Text,
    operation_id: Text,
    outcome: InterruptionOutcomeModel,
    now: i64,
) -> WorkResult<(StoreModel, OperationModel)> {
    match loaded::<Operation>(s, session, operation_id) {
        Err(error) => Err(error),
        Ok(op) => if op.kind != OperationKind::InterruptAttempt || op.state
            != OperationState::Submitting {
            refused(FailureCode::RevisionConflict)
        } else {
            let ended = interrupt_ended(op, outcome, now);
            match fact_recorded(
                s,
                session,
                ended,
                FactKind::Interruption,
                BodyModel::InterruptionFact(
                    InterruptionFactModel {
                        operation_id: ended.id,
                        state: ended.state,
                        failure_code: ended.failure_code,
                        receipt: ended.interruption_receipt,
                    },
                ),
            ) {
                Err(error) => Err(error),
                Ok(noted) => match operation_saved(noted, session, ended, now) {
                    Err(error) => Err(error),
                    Ok(next) => Ok((next, ended)),
                },
            }
        },
    }
}

fn valid_receipt(op: &Operation, receipt: &InterruptionReceipt) -> (res: bool)
    ensures
        res == receipt_proves(op.deep_view(), receipt.deep_view()),
{
    receipt.operation_id.same(&op.id) && is_text(
        &op.resources.instance_id,
        receipt.launch_id.as_str(),
    ) && is_text(&op.interruption_owner_epoch, receipt.owner_epoch.as_str()) && native_identity(
        receipt.receipt_id.as_str(),
    ) && text_eq(receipt.key.as_str(), "Escape") && receipt.bytes_written == 1 && text_eq(
        receipt.input_disposition.as_str(),
        "written",
    )
}

fn end_interrupt(op: Operation, outcome: InterruptionOutcome, now: i64) -> (res: Operation)
    ensures
        res.deep_view() == interrupt_ended(op.deep_view(), outcome.deep_view(), now),
{
    let mut op = op;
    let mut state = OperationState::Unconfirmed;
    let mut code = Some(FailureCode::DeliveryUnconfirmed);
    let mut receipt: Option<InterruptionReceipt> = None;
    match outcome {
        InterruptionOutcome::Acknowledged(shown) => {
            if valid_receipt(&op, &shown) {
                state = OperationState::Acknowledged;
                code = None;
                receipt = Some(shown);
            }
        },
        InterruptionOutcome::Refused(reason) => {
            if reason == FailureCode::ResourceLimit || reason == FailureCode::InstanceChanged
                || reason == FailureCode::CapabilityUnavailable {
                state = OperationState::Refused;
                code = Some(reason);
            }
        },
        InterruptionOutcome::Unconfirmed => {},
    }
    op.state = state;
    op.failure_code = code;
    op.interruption_receipt = receipt;
    op.updated_at_ms = now;
    op
}

fn check_interrupt(operations: &Vec<Operation>, attempt_id: &str) -> (res: bool)
    ensures
        res == any_interrupt(operations.deep_view(), attempt_id@),
{
    let ghost all = operations.deep_view();
    let mut i: usize = 0;
    while i < operations.len()
        invariant
            i <= operations.len(),
            all == operations.deep_view(),
            forall|k: int| 0 <= k < i ==> !interrupting(#[trigger] all[k], attempt_id@),
        decreases operations.len() - i,
    {
        let op = &operations[i];
        assert(all[i as int] == op.deep_view());
        if is_text(&op.attempt_id, attempt_id) && op.kind == OperationKind::InterruptAttempt
            && open_state(op.state) {
            assert(interrupting(all[i as int], attempt_id@));
            return true;
        }
        i += 1;
    }
    false
}

fn interrupt_request_of<'a>(
    actor: &'a str,
    session: &'a str,
    task: &str,
    attempt: &str,
    input: &'a InterruptInput,
) -> (res: WorkResult<Request<'a>>)
    ensures
        shown(res) == (if names_process(input.deep_view()) {
            Ok(interrupt_request(actor@, session@, task@, attempt@, input.deep_view()))
        } else {
            refused(FailureCode::InvalidInput)
        }),
{
    if !native_identity(input.expected_instance_id.as_str()) || !native_identity(
        input.expected_native_owner_epoch.as_str(),
    ) {
        return refuse(FailureCode::InvalidInput);
    }
    Ok(
        Request {
            actor,
            session,
            key: input.request_key.as_str(),
            kind: RequestKind::Work(OperationKind::InterruptAttempt),
            digest: digest_text(&(task, attempt, input)),
        },
    )
}

impl WorkStore {
    /// Whether an interrupt still finds the process that it means.
    pub(crate) fn check_binding(&self, session: &str, op: &Operation) -> (res: WorkResult<()>)
        ensures
            res == interruptible(self@, session@, op.deep_view()),
    {
        let id = match &op.attempt_id {
            Some(id) => id,
            None => {
                return refuse(FailureCode::InvalidInput);
            },
        };
        let attempt = self.load::<Attempt>(session, id.as_str())?;
        if !attempt.task_id.same(&op.task_id) {
            return refuse(FailureCode::ScopeMismatch);
        }
        if !reservation_active(&attempt) {
            return refuse(FailureCode::NotReady);
        }
        match (&op.resources.instance_id, &op.interruption_owner_epoch) {
            (Some(instance), Some(epoch)) => {
                if !attempt.binding.instance_id.same(&op.resources.instance_id)
                    || !attempt.lifecycle.native_owner_epoch.same(&op.interruption_owner_epoch) {
                    return refuse(FailureCode::InstanceChanged);
                }
                match_native_binding(&attempt, instance.as_str(), epoch.as_str())
            },
            _ => refuse(FailureCode::InstanceChanged),
        }
    }

    /// Answers a request to interrupt that was carried out before.
    pub fn replay_interrupt(
        &self,
        actor: &str,
        session: &str,
        task: &str,
        attempt: &str,
        input: &InterruptInput,
    ) -> (res: WorkResult<Option<Mutation<Operation>>>)
        ensures
            shown(res) == (if !names_process(input.deep_view()) {
                refused(FailureCode::InvalidInput)
            } else {
                renewed(
                    self@,
                    session@,
                    replayed::<Operation>(
                        self@,
                        interrupt_request(actor@, session@, task@, attempt@, input.deep_view()),
                    ),
                )
            }),
    {
        let request = interrupt_request_of(actor, session, task, attempt, input)?;
        match self.replay::<Operation>(&request)? {
            Some(found) => {
                let value = self.load::<Operation>(session, found.id.as_str())?;
                Ok(Some(Mutation { value, replayed: true }))
            },
            None => Ok(None),
        }
    }

    fn admit_interrupt(
        &self,
        id: &str,
        session: &str,
        task_id: &str,
        attempt_id: &str,
        input: &InterruptInput,
        now: i64,
    ) -> (res: WorkResult<(Task, Operation)>)
        ensures
            shown(res) == interrupt_admitted(
                self@,
                id@,
                session@,
                task_id@,
                attempt_id@,
                input.deep_view(),
                now,
            ),
    {
        let task = self.load::<Task>(session, task_id)?;
        revision(&task, input.expected_revision)?;
        let attempt = self.load::<Attempt>(session, attempt_id)?;
        let mut op = new_operation(
            id,
            task_id,
            Some(attempt_id.to_string()),
            OperationKind::InterruptAttempt,
            now,
        );
        op.resources = attempt.binding;
        op.interruption_owner_epoch = Some(input.expected_native_owner_epoch.clone());
        if !is_text(&op.resources.instance_id, input.expected_instance_id.as_str()) {
            return refuse(FailureCode::InstanceChanged);
        }
        self.check_binding(session, &op)?;
        let operations = self.records::<Operation>(session, task_id);
        if check_interrupt(&operations, attempt_id) {
            return refuse(FailureCode::NotReady);
        }
        Ok((task, op))
    }

    /// Carries out a request to interrupt an attempt under the identifiers given.
    pub fn prepare_interrupt_as(
        &mut self,
        id: &str,
        fact_id: &str,
        actor: &str,
        session: &str,
        task_id: &str,
        attempt_id: &str,
        input: InterruptInput,
        now: i64,
    ) -> (res: WorkResult<Mutation<Operation>>)
        ensures
            commits(
                old(self)@,
                final(self)@,
                interrupt_outcome(
                    old(self)@,
                    id@,
                    fact_id@,
                    actor@,
                    session@,
                    task_id@,
                    attempt_id@,
                    input.deep_view(),
                    now,
                ),
                shown(res),
            ),
    {
        let request = interrupt_request_of(actor, session, task_id, attempt_id, &input)?;
        match self.replay::<Operation>(&request)? {
            Some(found) => {
                let value = self.load::<Operation>(session, found.id.as_str())?;
                return Ok(Mutation { value, replayed: true });
            },
            None => {},
        }
        let (task, op) = self.admit_interrupt(id, session, task_id, attempt_id, &input, now)?;
        let mut next = self.replica();
        next.put(session, op.id.as_str(), op.task_id.as_str(), Body::Operation(op.replica()))?;
        next.reserve_fact(session, &op, FactKind::Interruption, fact_id)?;
        let _ = next.change(task, "operation_changed", op.id.as_str(), now)?;
        next.save(&request, ReceiptBody::Operation(op.replica()));
        *self = next;
        Ok(Mutation { value: op, replayed: false })
    }

    /// Admits an interrupt. The authority of a paired device must guard this transaction; no
    /// local grant admits an interrupt.
    pub fn prepare_interrupt(
        &mut self,
        actor: &str,
        session: &str,
        task_id: &str,
        attempt_id: &str,
        input: InterruptInput,
        now: i64,
    ) -> (res: WorkResult<Mutation<Operation>>)
        ensures
            exists|id: Text, fact_id: Text|
                is_uuid(id) && is_uuid(fact_id) && commits(
                    old(self)@,
                    final(self)@,
                    #[trigger] interrupt_outcome(
                        old(self)@,
                        id,
                        fact_id,
                        actor@,
                        session@,
                        task_id@,
                        attempt_id@,
                        input.deep_view(),
                        now,
                    ),
                    shown(res),
                ),
    {
        let id = new_id();
        let fact_id = new_id();
        self.prepare_interrupt_as(
            id.as_str(),
            fact_id.as_str(),
            actor,
            session,
            task_id,
            attempt_id,
            input,
            now,
        )
    }

    /// Records how an interrupt ended. Authority and lifecycle are not looked at again after
    /// the native step.
    pub fn finalize_interrupt(
        &mut self,
        session: &str,
        operation_id: &str,
        outcome: InterruptionOutcome,
        now: i64,
    ) -> (res: WorkResult<Operation>)
        ensures
            commits(
                old(self)@,
                final(self)@,
                interrupt_finalized(
                    old(self)@,
                    session@,
                    operation_id@,
                    outcome.deep_view(),
                    now,
                ),
                shown(res),
            ),
    {
        let op = self.load::<Operation>(session, operation_id)?;
        if op.kind != OperationKind::InterruptAttempt || op.state != OperationState::Submitting {
            return refuse(FailureCode::RevisionConflict);
        }
        let op = end_interrupt(op, outcome, now);
        let mut next = self.replica();
        let fact = InterruptionFact {
            operation_id: op.id.clone(),
            state: op.state,
            failure_code: op.failure_code,
            receipt: op.interruption_receipt.replica(),
        };
        next.fulfill_fact(session, &op, FactKind::Interruption, Body::InterruptionFact(fact))?;
        next.save_operation(session, &op, now)?;
        *self = next;
        Ok(op)
    }
}

/// An interrupt is acknowledged only by a receipt that proves it, and that receipt is kept. Any other
/// claim of success is kept as uncertainty.
pub proof fn only_proof_acknowledges(
    s: StoreModel,
    session: Text,
    operation_id: Text,
    end: InterruptionOutcomeModel,
    now: i64,
)
    ensures
        interrupt_finalized(s, session, operation_id, end, now) matches Ok((_, op)) ==> {
            &&& op.state == OperationState::Acknowledged <==> (
            end matches InterruptionOutcomeModel::Acknowledged(receipt) && receipt_proves(
                loaded::<Operation>(s, session, operation_id)->Ok_0,
                receipt,
            ) && op.interruption_receipt == Some(receipt))
            &&& end is Acknowledged && op.state != OperationState::Acknowledged ==> op.state
                == OperationState::Unconfirmed
        },
{
}

} // verus!
