//! Recorded execution: every native effect follows a durable intent, and an effect whose outcome is
//! not known is never tried again.
use vstd::prelude::*;
use crate::json::ObjectWriter;
use crate::json::ToJson;
use crate::json::object;
use crate::text::text_eq;
use crate::value::Replica;
use crate::value::Text;
use crate::value::shown;
use crate::work::model::AttemptRole;
use crate::work::model::FailureCode;
use crate::work::model::InputRef;
use crate::work::model::InputRefModel;
use crate::work::model::Mutation;
use crate::work::model::MutationModel;
use crate::work::model::NativeBinding;
use crate::work::model::NativeBindingModel;
use crate::work::model::Operation;
use crate::work::model::OperationModel;
use crate::work::model::OperationOutcome;
use crate::work::model::OperationOutcomeModel;
use crate::work::model::OperationState;
use crate::work::model::Task;
use crate::work::model::WorkResult;
use crate::work::model::unbound;
use crate::work::store::operations::checkpoint_outcome;
use crate::work::store::operations::finalize_outcome;
use crate::work::store::operations::refuse_outcome;
use crate::work::store::records::loaded;
use crate::work::store::rules::launchable;
use crate::work::store::tables::StoreModel;
use crate::work::store::tables::WorkStore;
use crate::work::store::transaction::after;
use crate::work::store::transaction::answer;
use crate::work::store::transaction::commits;
use crate::work::store::transaction::first_time;
use crate::work_actor::WorkActor;
use crate::work_actor::WorkActorModel;

pub mod delivery;
pub mod prompting;
pub mod reconcile;
pub mod session;
pub mod settling;
pub mod start;
pub mod starting;

verus! {

/// What a caller asks for when it starts an attempt.
#[derive(Debug, PartialEq, Eq)]
pub struct StartRequest {
    pub request_key: String,
    pub expected_revision: u64,
    pub agent_kind: String,
    pub role: AttemptRole,
    pub branch_name: Option<String>,
}

/// The value of a `StartRequest`.
#[verifier::ext_equal]
pub struct StartRequestModel {
    pub request_key: Text,
    pub expected_revision: u64,
    pub agent_kind: Text,
    pub role: AttemptRole,
    pub branch_name: Option<Text>,
}

impl DeepView for StartRequest {
    type V = StartRequestModel;

    open spec fn deep_view(&self) -> StartRequestModel {
        StartRequestModel {
            request_key: self.request_key.deep_view(),
            expected_revision: self.expected_revision,
            agent_kind: self.agent_kind.deep_view(),
            role: self.role,
            branch_name: self.branch_name.deep_view(),
        }
    }
}

impl Replica for StartRequest {
    fn replica(&self) -> (res: Self) {
        StartRequest {
            request_key: self.request_key.replica(),
            expected_revision: self.expected_revision,
            agent_kind: self.agent_kind.replica(),
            role: self.role,
            branch_name: self.branch_name.replica(),
        }
    }
}

impl Clone for StartRequest {
    fn clone(&self) -> (res: Self)
        ensures
            res.deep_view() == self.deep_view(),
    {
        self.replica()
    }
}

/// What a caller asks for when it sends a prompt.
#[derive(Debug, PartialEq, Eq)]
pub struct DeliveryRequest {
    pub request_key: String,
    pub expected_revision: u64,
    pub expected_instance_id: String,
    pub text: String,
    pub input_refs: Vec<InputRef>,
}

/// The value of a `DeliveryRequest`.
#[verifier::ext_equal]
pub struct DeliveryRequestModel {
    pub request_key: Text,
    pub expected_revision: u64,
    pub expected_instance_id: Text,
    pub text: Text,
    pub input_refs: Seq<InputRefModel>,
}

impl DeepView for DeliveryRequest {
    type V = DeliveryRequestModel;

    open spec fn deep_view(&self) -> DeliveryRequestModel {
        DeliveryRequestModel {
            request_key: self.request_key.deep_view(),
            expected_revision: self.expected_revision,
            expected_instance_id: self.expected_instance_id.deep_view(),
            text: self.text.deep_view(),
            input_refs: self.input_refs.deep_view(),
        }
    }
}

impl Replica for DeliveryRequest {
    fn replica(&self) -> (res: Self) {
        DeliveryRequest {
            request_key: self.request_key.replica(),
            expected_revision: self.expected_revision,
            expected_instance_id: self.expected_instance_id.replica(),
            text: self.text.replica(),
            input_refs: self.input_refs.replica(),
        }
    }
}

impl Clone for DeliveryRequest {
    fn clone(&self) -> (res: Self)
        ensures
            res.deep_view() == self.deep_view(),
    {
        self.replica()
    }
}

/// Why a native step failed.
#[derive(Debug, PartialEq, Eq)]
pub enum NativeFailure {
    /// The native side proves that a start made no process.
    StartNotStarted { operation_id: String, owner_epoch: String, receipt_id: String, code: Option<String> },
    Unsupported,
    Refused { code: Option<String> },
    /// Nothing is known of the effect.
    Other,
}

/// The value of a `NativeFailure`.
#[verifier::ext_equal]
pub enum NativeFailureModel {
    StartNotStarted { operation_id: Text, owner_epoch: Text, receipt_id: Text, code: Option<Text> },
    Unsupported,
    Refused { code: Option<Text> },
    Other,
}

impl DeepView for NativeFailure {
    type V = NativeFailureModel;

    open spec fn deep_view(&self) -> NativeFailureModel {
        match self {
            NativeFailure::StartNotStarted { operation_id, owner_epoch, receipt_id, code } => NativeFailureModel::StartNotStarted {
                operation_id: operation_id.deep_view(),
                owner_epoch: owner_epoch.deep_view(),
                receipt_id: receipt_id.deep_view(),
                code: code.deep_view(),
            },
            NativeFailure::Unsupported => NativeFailureModel::Unsupported,
            NativeFailure::Refused { code } => NativeFailureModel::Refused {
                code: code.deep_view(),
            },
            NativeFailure::Other => NativeFailureModel::Other,
        }
    }
}

impl Replica for NativeFailure {
    fn replica(&self) -> (res: Self) {
        match self {
            NativeFailure::StartNotStarted { operation_id, owner_epoch, receipt_id, code } => NativeFailure::StartNotStarted {
                operation_id: operation_id.replica(),
                owner_epoch: owner_epoch.replica(),
                receipt_id: receipt_id.replica(),
                code: code.replica(),
            },
            NativeFailure::Unsupported => NativeFailure::Unsupported,
            NativeFailure::Refused { code } => NativeFailure::Refused {
                code: code.replica(),
            },
            NativeFailure::Other => NativeFailure::Other,
        }
    }
}

impl Clone for NativeFailure {
    fn clone(&self) -> (res: Self)
        ensures
            res.deep_view() == self.deep_view(),
    {
        self.replica()
    }
}

/// What a native step without a result of its own came to.
#[derive(Debug, PartialEq, Eq)]
pub enum NativeAnswer {
    Done,
    Failed(NativeFailure),
}

/// The value of a `NativeAnswer`.
#[verifier::ext_equal]
pub enum NativeAnswerModel {
    Done,
    Failed(NativeFailureModel),
}

impl DeepView for NativeAnswer {
    type V = NativeAnswerModel;

    open spec fn deep_view(&self) -> NativeAnswerModel {
        match self {
            NativeAnswer::Done => NativeAnswerModel::Done,
            NativeAnswer::Failed(value) => NativeAnswerModel::Failed(value.deep_view()),
        }
    }
}

impl ToJson for StartRequest {
    open spec fn json(v: StartRequestModel) -> Text {
        object(
            Seq::empty()
                .push(("request_key"@, String::json(v.request_key)))
                .push(("expected_revision"@, u64::json(v.expected_revision)))
                .push(("agent_kind"@, String::json(v.agent_kind)))
                .push(("role"@, AttemptRole::json(v.role)))
                .push(("branch_name"@, Option::<String>::json(v.branch_name))),
        )
    }

    fn to_json(&self) -> (res: String) {
        ObjectWriter::new()
            .with("request_key", self.request_key.to_json())
            .with("expected_revision", self.expected_revision.to_json())
            .with("agent_kind", self.agent_kind.to_json())
            .with("role", self.role.to_json())
            .with("branch_name", self.branch_name.to_json())
            .finish()
    }
}

/// A code is one of the agreed words.
pub open spec fn says(code: Option<Text>, word: Text) -> bool {
    code == Some(word)
}

pub(crate) fn code_is(code: &Option<String>, word: &str) -> (res: bool)
    ensures
        res == says(code.deep_view(), word@),
{
    match code {
        Some(code) => text_eq(code.as_str(), word),
        None => false,
    }
}

/// How an operation ends after a native step. A step whose effect is not known leaves the operation
/// unconfirmed; only a step that surely had none refuses it.
pub open spec fn ending(answer: NativeAnswerModel) -> (OperationState, Option<FailureCode>) {
    match answer {
        NativeAnswerModel::Done => (OperationState::Acknowledged, None),
        NativeAnswerModel::Failed(failure) => match failure {
            NativeFailureModel::StartNotStarted { operation_id: _, owner_epoch: _, receipt_id: _, code } => (
                OperationState::Refused,
                Some(
                    if says(code, "unsupported_agent_kind"@) {
                        FailureCode::CapabilityUnavailable
                    } else if says(code, "resource_limit"@) {
                        FailureCode::ResourceLimit
                    } else {
                        FailureCode::NotReady
                    },
                ),
            ),
            NativeFailureModel::Unsupported => (
                OperationState::Refused,
                Some(FailureCode::CapabilityUnavailable),
            ),
            NativeFailureModel::Refused { code } => (
                OperationState::Refused,
                Some(
                    if says(code, "unsupported_agent_kind"@) {
                        FailureCode::CapabilityUnavailable
                    } else if says(code, "instance_changed"@) || says(code, "launch_changed"@)
                        || says(code, "stale_launch"@) {
                        FailureCode::InstanceChanged
                    } else if says(code, "approval_required"@) || says(code, "agent_blocked"@) {
                        FailureCode::ApprovalRequired
                    } else {
                        FailureCode::NotReady
                    },
                ),
            ),
            NativeFailureModel::Other => (
                OperationState::Unconfirmed,
                Some(FailureCode::DeliveryUnconfirmed),
            ),
        },
    }
}

/// How an operation ends after a native step.
pub fn ending_of(answer: &NativeAnswer) -> (res: (OperationState, Option<FailureCode>))
    ensures
        res == ending(answer.deep_view()),
{
    match answer {
        NativeAnswer::Done => (OperationState::Acknowledged, None),
        NativeAnswer::Failed(failure) => match failure {
            NativeFailure::StartNotStarted { operation_id: _, owner_epoch: _, receipt_id: _, code } => (
                OperationState::Refused,
                Some(
                    if code_is(code, "unsupported_agent_kind") {
                        FailureCode::CapabilityUnavailable
                    } else if code_is(code, "resource_limit") {
                        FailureCode::ResourceLimit
                    } else {
                        FailureCode::NotReady
                    },
                ),
            ),
            NativeFailure::Unsupported => (
                OperationState::Refused,
                Some(FailureCode::CapabilityUnavailable),
            ),
            NativeFailure::Refused { code } => (
                OperationState::Refused,
                Some(
                    if code_is(code, "unsupported_agent_kind") {
                        FailureCode::CapabilityUnavailable
                    } else if code_is(code, "instance_changed") || code_is(code, "launch_changed")
                        || code_is(code, "stale_launch") {
                        FailureCode::InstanceChanged
                    } else if code_is(code, "approval_required") || code_is(code, "agent_blocked") {
                        FailureCode::ApprovalRequired
                    } else {
                        FailureCode::NotReady
                    },
                ),
            ),
            NativeFailure::Other => (
                OperationState::Unconfirmed,
                Some(FailureCode::DeliveryUnconfirmed),
            ),
        },
    }
}

/// An operation's answer as that of a request that was carried out just now.
pub open spec fn told<T>(res: WorkResult<T>) -> WorkResult<MutationModel<T>> {
    match res {
        Ok(value) => Ok(first_time(value)),
        Err(error) => Err(error),
    }
}

/// The end of an operation that is refused.
#[verifier::opaque]
pub open spec fn op_refused(
    s: StoreModel,
    session: Text,
    id: Text,
    code: FailureCode,
    now: i64,
) -> WorkResult<(StoreModel, OperationModel)> {
    finalize_outcome(
        s,
        session,
        id,
        OperationOutcomeModel {
            state: OperationState::Refused,
            resources: unbound(),
            failure_code: Some(code),
        },
        now,
    )
}

/// The end of an operation after a native step.
#[verifier::opaque]
pub open spec fn op_finished(
    s: StoreModel,
    session: Text,
    id: Text,
    answer: NativeAnswerModel,
    now: i64,
) -> WorkResult<(StoreModel, OperationModel)> {
    finalize_outcome(
        s,
        session,
        id,
        OperationOutcomeModel {
            state: ending(answer).0,
            resources: unbound(),
            failure_code: ending(answer).1,
        },
        now,
    )
}

/// The end of an operation that was only prepared.
#[verifier::opaque]
pub open spec fn prepared_refused(
    s: StoreModel,
    session: Text,
    id: Text,
    code: FailureCode,
    now: i64,
) -> WorkResult<(StoreModel, OperationModel)> {
    refuse_outcome(s, session, id, code, now)
}

/// An operation with the resources that it has gained.
#[verifier::opaque]
pub open spec fn checkpointed(
    s: StoreModel,
    session: Text,
    id: Text,
    resources: NativeBindingModel,
    now: i64,
) -> WorkResult<(StoreModel, OperationModel)> {
    checkpoint_outcome(s, session, id, resources, now)
}

/// Whether launches under a task are allowed.
#[verifier::opaque]
pub open spec fn launch_open(s: StoreModel, session: Text, task_id: Text) -> WorkResult<()> {
    match loaded::<Task>(s, session, task_id) {
        Err(error) => Err(error),
        Ok(task) => launchable(s, task.session_id, task, Seq::empty()),
    }
}

/// Adds the resources that an operation has gained.
pub(crate) fn checkpoint(
    store: &mut WorkStore,
    session: &str,
    id: &str,
    resources: NativeBinding,
    now: i64,
) -> (res: WorkResult<Operation>)
    ensures
        commits(
            old(store)@,
            final(store)@,
            checkpointed(old(store)@, session@, id@, resources.deep_view(), now),
            shown(res),
        ),
{
    reveal(checkpointed);
    store.checkpoint_operation(session, id, resources, now)
}

/// Whether launches under a task are allowed.
pub(crate) fn check_launch(store: &WorkStore, session: &str, task_id: &str) -> (res: WorkResult<()>)
    ensures
        res == launch_open(store@, session@, task_id@),
{
    reveal(launch_open);
    store.assert_launch_allowed(session, task_id)
}

/// Refuses an operation that was begun.
pub(crate) fn refuse_op(
    store: &mut WorkStore,
    session: &str,
    id: &str,
    code: FailureCode,
    now: i64,
) -> (res: WorkResult<Mutation<Operation>>)
    ensures
        final(store)@ == after(old(store)@, op_refused(old(store)@, session@, id@, code, now)),
        shown(res) == told(answer(op_refused(old(store)@, session@, id@, code, now))),
{
    reveal(op_refused);
    let value = store.finalize_operation(
        session,
        id,
        OperationOutcome {
            state: OperationState::Refused,
            resources: NativeBinding::default(),
            failure_code: Some(code),
        },
        now,
    )?;
    Ok(Mutation { value, replayed: false })
}

/// Refuses an operation that was only prepared.
pub(crate) fn refuse_prepared(
    store: &mut WorkStore,
    session: &str,
    id: &str,
    code: FailureCode,
    now: i64,
) -> (res: WorkResult<Mutation<Operation>>)
    ensures
        final(store)@ == after(
            old(store)@,
            prepared_refused(old(store)@, session@, id@, code, now),
        ),
        shown(res) == told(answer(prepared_refused(old(store)@, session@, id@, code, now))),
{
    reveal(prepared_refused);
    let value = store.refuse_prepared_operation(session, id, code, now)?;
    Ok(Mutation { value, replayed: false })
}

/// Ends an operation after a native step.
pub(crate) fn finish_op(
    store: &mut WorkStore,
    session: &str,
    id: &str,
    outcome: &NativeAnswer,
    now: i64,
) -> (res: WorkResult<Mutation<Operation>>)
    ensures
        final(store)@ == after(
            old(store)@,
            op_finished(old(store)@, session@, id@, outcome.deep_view(), now),
        ),
        shown(res) == told(
            answer(op_finished(old(store)@, session@, id@, outcome.deep_view(), now)),
        ),
{
    reveal(op_finished);
    let (state, failure_code) = ending_of(outcome);
    let value = store.finalize_operation(
        session,
        id,
        OperationOutcome { state, resources: NativeBinding::default(), failure_code },
        now,
    )?;
    Ok(Mutation { value, replayed: false })
}

/// One actor's requests in one session.
#[derive(Debug)]
pub struct Execution {
    pub actor: WorkActor,
    pub session: String,
}

/// The value of an `Execution`.
#[verifier::ext_equal]
pub struct ExecutionModel {
    pub actor: WorkActorModel,
    pub session: Text,
}

impl DeepView for Execution {
    type V = ExecutionModel;

    open spec fn deep_view(&self) -> ExecutionModel {
        ExecutionModel { actor: self.actor.deep_view(), session: self.session.deep_view() }
    }
}

/// Only a native step that surely had no effect refuses an operation; a step that may have had one
/// is never reported as refused or done.
pub proof fn unknown_effects_stay_unconfirmed(answer: NativeAnswerModel)
    ensures
        ending(answer).0 == OperationState::Acknowledged <==> answer is Done,
        ending(answer).0 == OperationState::Unconfirmed <==> answer == NativeAnswerModel::Failed(
            NativeFailureModel::Other,
        ),
        ending(answer).0 == OperationState::Acknowledged <==> ending(answer).1 is None,
{
}

} // verus!
