//! The delivery of a prompt, step by step, to exactly the process that the caller expects.
use vstd::utf8::encode_utf8;
use vstd::prelude::*;
use crate::digest::bytes_digest;
use crate::digest::sha256_hex;
use crate::text::text_eq;
use crate::value::Replica;
use crate::value::Same;
use crate::value::Text;
use crate::value::shown;
use crate::work::model::Attempt;
use crate::work::model::AttemptModel;
use crate::work::model::FailureCode;
use crate::work::model::FrozenInputRef;
use crate::work::model::FrozenInputRefModel;
use crate::work::model::Mutation;
use crate::work::model::MutationModel;
use crate::work::model::Operation;
use crate::work::model::OperationModel;
use crate::work::model::Reservation;
use crate::work::model::TaskDetail;
use crate::work::model::TaskDetailModel;
use crate::work::model::WorkError;
use crate::work::model::WorkResult;
use crate::work::store::deliveries::any_prompt;
use crate::work::store::deliveries::check_prompt;
use crate::work::store::deliveries::redelivered;
use crate::work::store::records::refuse;
use crate::work::store::records::refused;
use crate::work::store::tables::StoreModel;
use crate::work::store::tables::WorkStore;
use crate::work::store::transaction::after;
use crate::work::store::transaction::answer;
use crate::work_actor::Ids;
use crate::work_actor::IdsModel;
use crate::work_actor::Moment;
use crate::work_actor::admitted;
use crate::work_actor::delivery_of;
use crate::work_actor::delivery_prepared;
use crate::work_actor::detail_seen;
use crate::work_actor::inputs_seen;
use crate::work_actor::looked_at;
use crate::work_actor::step_taken;
use crate::work_authority::GrantModel;
use crate::work_authority::Registry;
use crate::work_execution::DeliveryRequest;
use crate::work_execution::DeliveryRequestModel;
use crate::work_execution::Execution;
use crate::work_execution::ExecutionModel;
use crate::work_execution::NativeAnswer;
use crate::work_execution::NativeAnswerModel;
use crate::work_execution::NativeFailure;
use crate::work_execution::NativeFailureModel;
use crate::work_execution::code_is;
use crate::work_execution::finish_op;
use crate::work_execution::op_finished;
use crate::work_execution::prepared_refused;
use crate::work_execution::refuse_prepared;
use crate::work_execution::says;
use crate::work_execution::told;

verus! {

broadcast use vstd::string::group_string_axioms;

/// How far a delivery has come, by what is awaited.
#[derive(Debug)]
pub enum DeliveryStage {
    /// Whether the native side can bind starts and prompts.
    Asked,
    /// Whether the expected process would take a prompt.
    Vetted { owner_epoch: Option<String>, bootstrap: bool, inputs: Vec<FrozenInputRef> },
    /// The prompt, rendered with its inputs.
    Checked { bootstrap: bool, inputs: Vec<FrozenInputRef> },
    /// A look at the coordinator, before the intent is recorded.
    Rendered { inputs: Vec<FrozenInputRef>, prompt: String },
    /// A look at the coordinator, before the operation is begun.
    Prepared { op: Operation, prompt: String },
    /// The native delivery.
    Begun { op: Operation, prompt: String },
}

/// The value of a `DeliveryStage`.
#[verifier::ext_equal]
pub enum DeliveryStageModel {
    Asked,
    Vetted { owner_epoch: Option<Text>, bootstrap: bool, inputs: Seq<FrozenInputRefModel> },
    Checked { bootstrap: bool, inputs: Seq<FrozenInputRefModel> },
    Rendered { inputs: Seq<FrozenInputRefModel>, prompt: Text },
    Prepared { op: OperationModel, prompt: Text },
    Begun { op: OperationModel, prompt: Text },
}

impl DeepView for DeliveryStage {
    type V = DeliveryStageModel;

    open spec fn deep_view(&self) -> DeliveryStageModel {
        match self {
            DeliveryStage::Asked => DeliveryStageModel::Asked,
            DeliveryStage::Vetted { owner_epoch, bootstrap, inputs } => DeliveryStageModel::Vetted {
                owner_epoch: owner_epoch.deep_view(),
                bootstrap: *bootstrap,
                inputs: inputs.deep_view(),
            },
            DeliveryStage::Checked { bootstrap, inputs } => DeliveryStageModel::Checked {
                bootstrap: *bootstrap,
                inputs: inputs.deep_view(),
            },
            DeliveryStage::Rendered { inputs, prompt } => DeliveryStageModel::Rendered {
                inputs: inputs.deep_view(),
                prompt: prompt.deep_view(),
            },
            DeliveryStage::Prepared { op, prompt } => DeliveryStageModel::Prepared {
                op: op.deep_view(),
                prompt: prompt.deep_view(),
            },
            DeliveryStage::Begun { op, prompt } => DeliveryStageModel::Begun {
                op: op.deep_view(),
                prompt: prompt.deep_view(),
            },
        }
    }
}

/// What came of the thing that was awaited.
#[derive(Debug)]
pub enum DeliveryEvent {
    Support { supported: bool },
    Preflight(NativeAnswer),
    Render(WorkResult<String>),
    /// The coordinator was looked at.
    Observed,
    Prompt(NativeAnswer),
}

/// The value of a `DeliveryEvent`.
#[verifier::ext_equal]
pub enum DeliveryEventModel {
    Support { supported: bool },
    Preflight(NativeAnswerModel),
    Render(WorkResult<Text>),
    Observed,
    Prompt(NativeAnswerModel),
}

impl DeepView for DeliveryEvent {
    type V = DeliveryEventModel;

    open spec fn deep_view(&self) -> DeliveryEventModel {
        match self {
            DeliveryEvent::Support { supported } => DeliveryEventModel::Support {
                supported: *supported,
            },
            DeliveryEvent::Preflight(value) => DeliveryEventModel::Preflight(value.deep_view()),
            DeliveryEvent::Render(value) => DeliveryEventModel::Render(shown(*value)),
            DeliveryEvent::Observed => DeliveryEventModel::Observed,
            DeliveryEvent::Prompt(value) => DeliveryEventModel::Prompt(value.deep_view()),
        }
    }
}

/// What follows.
#[derive(Debug)]
pub enum DeliveryNext {
    Await(DeliveryStage),
    Finished(WorkResult<Mutation<Operation>>),
}

/// The value of a `DeliveryNext`.
#[verifier::ext_equal]
pub enum DeliveryNextModel {
    Await(DeliveryStageModel),
    Finished(WorkResult<MutationModel<OperationModel>>),
}

impl DeepView for DeliveryNext {
    type V = DeliveryNextModel;

    open spec fn deep_view(&self) -> DeliveryNextModel {
        match self {
            DeliveryNext::Await(value) => DeliveryNextModel::Await(value.deep_view()),
            DeliveryNext::Finished(value) => DeliveryNextModel::Finished(shown(*value)),
        }
    }
}

/// Where the attempt with an identifier stands.
pub open spec fn attempt_in(attempts: Seq<AttemptModel>, id: Text) -> Option<int>
    decreases attempts.len(),
{
    if attempts.len() == 0 {
        None
    } else {
        match attempt_in(attempts.drop_last(), id) {
            Some(i) => Some(i),
            None => if attempts.last().id == id {
                Some(attempts.len() - 1)
            } else {
                None
            },
        }
    }
}

/// Where the attempt with an identifier stands.
pub(crate) fn find_attempt(attempts: &Vec<Attempt>, id: &str) -> (res: Option<usize>)
    ensures
        match attempt_in(attempts.deep_view(), id@) {
            Some(i) => res is Some && res->0 == i && res->0 < attempts.len(),
            None => res is None,
        },
{
    let ghost all = attempts.deep_view();
    let mut found: Option<usize> = None;
    let mut i: usize = 0;
    while i < attempts.len()
        invariant
            i <= attempts.len(),
            all == attempts.deep_view(),
            match attempt_in(all.take(i as int), id@) {
                Some(k) => found is Some && found->0 == k && found->0 < i,
                None => found is None,
            },
        decreases attempts.len() - i,
    {
        proof {
            assert(all.take(i as int + 1).drop_last() =~= all.take(i as int));
            assert(all.take(i as int + 1).last() == attempts[i as int].deep_view());
        }
        if found.is_none() && text_eq(attempts[i].id.as_str(), id) {
            found = Some(i);
        }
        i += 1;
    }
    assert(all.take(all.len() as int) =~= all);
    found
}

/// The recorded attempt is the one that the caller expects: its owner's epoch, and whether this is
/// the first prompt to it, which then carries the instructions.
pub open spec fn vetted(
    detail: TaskDetailModel,
    attempt_id: Text,
    request: DeliveryRequestModel,
) -> WorkResult<(Option<Text>, bool)> {
    if detail.task.revision != request.expected_revision {
        refused(FailureCode::RevisionConflict)
    } else {
        match attempt_in(detail.attempts, attempt_id) {
            None => refused(FailureCode::ScopeMismatch),
            Some(i) => {
                let attempt = detail.attempts[i];
                if attempt.binding.instance_id != Some(request.expected_instance_id)
                    || attempt.lifecycle.reservation == Reservation::Released {
                    refused(FailureCode::InstanceChanged)
                } else {
                    Ok(
                        (
                            attempt.lifecycle.native_owner_epoch,
                            !any_prompt(detail.operations, attempt_id),
                        ),
                    )
                }
            },
        }
    }
}

fn vet(detail: &TaskDetail, attempt_id: &str, request: &DeliveryRequest) -> (res: WorkResult<
    (Option<String>, bool),
>)
    ensures
        match vetted(detail.deep_view(), attempt_id@, request.deep_view()) {
            Ok((epoch, bootstrap)) => res is Ok && res->Ok_0.0.deep_view() == epoch && res->Ok_0.1
                == bootstrap,
            Err(error) => res == Err::<(Option<String>, bool), WorkError>(error),
        },
{
    if detail.task.revision != request.expected_revision {
        return refuse(FailureCode::RevisionConflict);
    }
    let at = match find_attempt(&detail.attempts, attempt_id) {
        Some(at) => at,
        None => {
            return refuse(FailureCode::ScopeMismatch);
        },
    };
    let attempt = &detail.attempts[at];
    assert(detail.deep_view().attempts[at as int] == attempt.deep_view());
    let expected = match &attempt.binding.instance_id {
        Some(id) => id.same(&request.expected_instance_id),
        None => false,
    };
    if !expected || attempt.lifecycle.reservation == Reservation::Released {
        return refuse(FailureCode::InstanceChanged);
    }
    Ok(
        (
            attempt.lifecycle.native_owner_epoch.replica(),
            !check_prompt(&detail.operations, attempt_id),
        ),
    )
}

/// Why a process would not take a prompt.
pub open spec fn preflight_code(failure: NativeFailureModel) -> FailureCode {
    match failure {
        NativeFailureModel::Refused { code } => if says(code, "agent_blocked"@) {
            FailureCode::ApprovalRequired
        } else {
            FailureCode::NotReady
        },
        NativeFailureModel::Unsupported => FailureCode::CapabilityUnavailable,
        _ => FailureCode::NotReady,
    }
}

fn preflight_error(failure: &NativeFailure) -> (res: FailureCode)
    ensures
        res == preflight_code(failure.deep_view()),
{
    match failure {
        NativeFailure::Refused { code } => if code_is(code, "agent_blocked") {
            FailureCode::ApprovalRequired
        } else {
            FailureCode::NotReady
        },
        NativeFailure::Unsupported => FailureCode::CapabilityUnavailable,
        _ => FailureCode::NotReady,
    }
}

/// A request for a delivery: one that was carried out before ends at once.
#[verifier::opaque]
pub open spec fn delivery_begun(
    run: ExecutionModel,
    grants: Seq<GrantModel>,
    s: StoreModel,
    actor: Text,
    task: Text,
    attempt: Text,
    request: DeliveryRequestModel,
    instructions: Text,
    at: Moment,
) -> DeliveryNextModel {
    if run.actor.id != actor {
        DeliveryNextModel::Finished(refused(FailureCode::ScopeMismatch))
    } else {
        match admitted(run.actor, grants, s, run.session, at) {
            Err(error) => DeliveryNextModel::Finished(Err(error)),
            Ok(commit) => match redelivered(
                s,
                delivery_of(commit, run.session, task, attempt, request, instructions),
                commit.fence,
            ) {
                Err(error) => DeliveryNextModel::Finished(Err(error)),
                Ok(Some(found)) => DeliveryNextModel::Finished(Ok(found)),
                Ok(None) => DeliveryNextModel::Await(DeliveryStageModel::Asked),
            },
        }
    }
}

/// The native side can bind prompts: the attempt and the inputs are looked up.
#[verifier::opaque]
pub open spec fn delivery_vetted(
    run: ExecutionModel,
    grants: Seq<GrantModel>,
    s: StoreModel,
    task: Text,
    attempt: Text,
    request: DeliveryRequestModel,
    supported: bool,
    at: Moment,
) -> DeliveryNextModel {
    if !supported {
        DeliveryNextModel::Finished(refused(FailureCode::CapabilityUnavailable))
    } else {
        match admitted(run.actor, grants, s, run.session, at) {
            Err(error) => DeliveryNextModel::Finished(Err(error)),
            Ok(commit) => match detail_seen(s, run.session, commit.fence, task) {
                Err(error) => DeliveryNextModel::Finished(Err(error)),
                Ok(detail) => match vetted(detail, attempt, request) {
                    Err(error) => DeliveryNextModel::Finished(Err(error)),
                    Ok((owner_epoch, bootstrap)) => match inputs_seen(
                        s,
                        run.session,
                        commit,
                        detail.task,
                        request.input_refs,
                        at.now,
                    ) {
                        Err(error) => DeliveryNextModel::Finished(Err(error)),
                        Ok(inputs) => DeliveryNextModel::Await(
                            DeliveryStageModel::Vetted { owner_epoch, bootstrap, inputs },
                        ),
                    },
                },
            },
        }
    }
}

/// The intent is recorded. A request that was carried out before has no further effect.
pub open spec fn prompt_recorded(
    s: StoreModel,
    prompt: Text,
    outcome: WorkResult<(StoreModel, MutationModel<OperationModel>)>,
) -> (StoreModel, DeliveryNextModel) {
    (
        after(s, outcome),
        match answer(outcome) {
            Err(error) => DeliveryNextModel::Finished(Err(error)),
            Ok(mutation) => if mutation.replayed {
                DeliveryNextModel::Finished(Ok(mutation))
            } else {
                DeliveryNextModel::Await(
                    DeliveryStageModel::Prepared { op: mutation.value, prompt },
                )
            },
        },
    )
}

/// The operation is begun, or refused where it cannot be.
pub open spec fn prompt_begun(
    s: StoreModel,
    session: Text,
    prepared: OperationModel,
    prompt: Text,
    outcome: WorkResult<(StoreModel, OperationModel)>,
    now: i64,
) -> (StoreModel, DeliveryNextModel) {
    match outcome {
        Err(error) => {
            let end = prepared_refused(s, session, prepared.id, error.0, now);
            (after(s, end), DeliveryNextModel::Finished(told(answer(end))))
        },
        Ok((next, op)) => (
            next,
            DeliveryNextModel::Await(DeliveryStageModel::Begun { op, prompt }),
        ),
    }
}

/// One step of a delivery.
pub open spec fn delivery_step(
    run: ExecutionModel,
    grants: Seq<GrantModel>,
    s: StoreModel,
    ids: IdsModel,
    task: Text,
    attempt: Text,
    request: DeliveryRequestModel,
    instructions: Text,
    stage: DeliveryStageModel,
    event: DeliveryEventModel,
    at: Moment,
) -> (Seq<GrantModel>, StoreModel, DeliveryNextModel) {
    match (stage, event) {
        (DeliveryStageModel::Asked, DeliveryEventModel::Support { supported }) => (
            grants,
            s,
            delivery_vetted(run, grants, s, task, attempt, request, supported, at),
        ),
        (
            DeliveryStageModel::Vetted { owner_epoch: _, bootstrap, inputs },
            DeliveryEventModel::Preflight(answer),
        ) => (
            grants,
            s,
            match answer {
                NativeAnswerModel::Done => DeliveryNextModel::Await(
                    DeliveryStageModel::Checked { bootstrap, inputs },
                ),
                NativeAnswerModel::Failed(failure) => DeliveryNextModel::Finished(
                    refused(preflight_code(failure)),
                ),
            },
        ),
        (
            DeliveryStageModel::Checked { bootstrap: _, inputs },
            DeliveryEventModel::Render(rendered),
        ) => (
            grants,
            s,
            match rendered {
                Err(error) => DeliveryNextModel::Finished(Err(error)),
                Ok(prompt) => DeliveryNextModel::Await(
                    DeliveryStageModel::Rendered { inputs, prompt },
                ),
            },
        ),
        (DeliveryStageModel::Rendered { inputs, prompt }, DeliveryEventModel::Observed) => {
            let (next, stage) = prompt_recorded(
                s,
                prompt,
                delivery_prepared(
                    run.actor,
                    grants,
                    s,
                    ids.first,
                    run.session,
                    task,
                    attempt,
                    request,
                    instructions,
                    inputs,
                    sha256_hex(encode_utf8(prompt)),
                    at,
                ),
            );
            (looked_at(run.actor, grants, at.seen).0, next, stage)
        },
        (DeliveryStageModel::Prepared { op, prompt }, DeliveryEventModel::Observed) => {
            let (next, stage) = prompt_begun(
                s,
                run.session,
                op,
                prompt,
                step_taken(run.actor, grants, s, ids.first, run.session, op, false, at),
                at.now,
            );
            (looked_at(run.actor, grants, at.seen).0, next, stage)
        },
        (DeliveryStageModel::Begun { op, prompt: _ }, DeliveryEventModel::Prompt(outcome)) => {
            let end = op_finished(s, run.session, op.id, outcome, at.now);
            (grants, after(s, end), DeliveryNextModel::Finished(told(answer(end))))
        },
        _ => (grants, s, DeliveryNextModel::Finished(refused(FailureCode::InvalidInput))),
    }
}

fn fail(error: WorkError) -> (res: DeliveryNext)
    ensures
        res.deep_view() == DeliveryNextModel::Finished(Err(error)),
{
    DeliveryNext::Finished(Err(error))
}

fn stop(code: FailureCode) -> (res: DeliveryNext)
    ensures
        res.deep_view() == DeliveryNextModel::Finished(refused(code)),
{
    DeliveryNext::Finished(refuse(code))
}

impl Execution {
    /// Takes a request for a delivery.
    pub fn begin_delivery(
        &self,
        registry: &Registry,
        store: &WorkStore,
        actor: &str,
        task: &str,
        attempt: &str,
        request: &DeliveryRequest,
        instructions: &str,
        at: &Moment,
    ) -> (res: DeliveryNext)
        ensures
            res.deep_view() == delivery_begun(
                self.deep_view(),
                registry@,
                store@,
                actor@,
                task@,
                attempt@,
                request.deep_view(),
                instructions@,
                *at,
            ),
    {
        reveal(delivery_begun);
        if let Err(error) = self.actor.assert_actor(actor) {
            return fail(error);
        }
        let found = self.actor.replay_delivery(
            registry,
            store,
            self.session.as_str(),
            task,
            attempt,
            request,
            instructions,
            at,
        );
        match found {
            Err(error) => fail(error),
            Ok(Some(found)) => DeliveryNext::Finished(Ok(found)),
            Ok(None) => DeliveryNext::Await(DeliveryStage::Asked),
        }
    }

    fn vet_delivery(
        &self,
        registry: &Registry,
        store: &WorkStore,
        task: &str,
        attempt: &str,
        request: &DeliveryRequest,
        supported: bool,
        at: &Moment,
    ) -> (res: DeliveryNext)
        ensures
            res.deep_view() == delivery_vetted(
                self.deep_view(),
                registry@,
                store@,
                task@,
                attempt@,
                request.deep_view(),
                supported,
                *at,
            ),
    {
        reveal(delivery_vetted);
        if !supported {
            return stop(FailureCode::CapabilityUnavailable);
        }
        let session = self.session.as_str();
        let detail = match self.actor.detail(registry, store, session, task, at) {
            Ok(detail) => detail,
            Err(error) => {
                return fail(error);
            },
        };
        let (owner_epoch, bootstrap) = match vet(&detail, attempt, request) {
            Ok(found) => found,
            Err(error) => {
                return fail(error);
            },
        };
        match self.actor.inputs(
            registry,
            store,
            session,
            &detail.task,
            request.input_refs.as_slice(),
            at,
        ) {
            Ok(inputs) => DeliveryNext::Await(
                DeliveryStage::Vetted { owner_epoch, bootstrap, inputs },
            ),
            Err(error) => fail(error),
        }
    }

    fn record_prompt(
        &self,
        registry: &mut Registry,
        store: &mut WorkStore,
        ids: &Ids,
        task: &str,
        attempt: &str,
        request: &DeliveryRequest,
        instructions: &str,
        inputs: Vec<FrozenInputRef>,
        prompt: String,
        at: &Moment,
    ) -> (res: DeliveryNext)
        ensures
            final(registry)@ == looked_at(self.deep_view().actor, old(registry)@, at.seen).0,
            (final(store)@, res.deep_view()) == prompt_recorded(
                old(store)@,
                prompt@,
                delivery_prepared(
                    self.deep_view().actor,
                    old(registry)@,
                    old(store)@,
                    ids.first@,
                    self.deep_view().session,
                    task@,
                    attempt@,
                    request.deep_view(),
                    instructions@,
                    inputs.deep_view(),
                    sha256_hex(encode_utf8(prompt@)),
                    *at,
                ),
            ),
    {
        let digest = bytes_digest(prompt.as_str().as_bytes());
        match self.actor.prepare_delivery(
            registry,
            store,
            ids,
            self.session.as_str(),
            task,
            attempt,
            request,
            instructions,
            inputs.as_slice(),
            digest.as_str(),
            at,
        ) {
            Err(error) => fail(error),
            Ok(mutation) => if mutation.replayed {
                DeliveryNext::Finished(Ok(mutation))
            } else {
                DeliveryNext::Await(DeliveryStage::Prepared { op: mutation.value, prompt })
            },
        }
    }

    fn begin_prompt(
        &self,
        registry: &mut Registry,
        store: &mut WorkStore,
        ids: &Ids,
        op: Operation,
        prompt: String,
        at: &Moment,
    ) -> (res: DeliveryNext)
        ensures
            final(registry)@ == looked_at(self.deep_view().actor, old(registry)@, at.seen).0,
            (final(store)@, res.deep_view()) == prompt_begun(
                old(store)@,
                self.deep_view().session,
                op.deep_view(),
                prompt@,
                step_taken(
                    self.deep_view().actor,
                    old(registry)@,
                    old(store)@,
                    ids.first@,
                    self.deep_view().session,
                    op.deep_view(),
                    false,
                    *at,
                ),
                at.now,
            ),
    {
        let session = self.session.as_str();
        match self.actor.advance(registry, store, ids, session, &op, false, at) {
            Err(error) => DeliveryNext::Finished(
                refuse_prepared(store, session, op.id.as_str(), error.0, at.now),
            ),
            Ok(op) => DeliveryNext::Await(DeliveryStage::Begun { op, prompt }),
        }
    }

    /// One step of a delivery: takes what came of the thing that was awaited, writes what has to be
    /// written and says what is awaited next.
    pub fn deliver(
        &self,
        registry: &mut Registry,
        store: &mut WorkStore,
        ids: &Ids,
        task: &str,
        attempt: &str,
        request: &DeliveryRequest,
        instructions: &str,
        stage: DeliveryStage,
        event: DeliveryEvent,
        at: &Moment,
    ) -> (res: DeliveryNext)
        ensures
            (final(registry)@, final(store)@, res.deep_view()) == delivery_step(
                self.deep_view(),
                old(registry)@,
                old(store)@,
                ids.deep_view(),
                task@,
                attempt@,
                request.deep_view(),
                instructions@,
                stage.deep_view(),
                event.deep_view(),
                *at,
            ),
    {
        match (stage, event) {
            (DeliveryStage::Asked, DeliveryEvent::Support { supported }) => self.vet_delivery(
                registry,
                store,
                task,
                attempt,
                request,
                supported,
                at,
            ),
            (
                DeliveryStage::Vetted { owner_epoch: _, bootstrap, inputs },
                DeliveryEvent::Preflight(answer),
            ) => match answer {
                NativeAnswer::Done => DeliveryNext::Await(
                    DeliveryStage::Checked { bootstrap, inputs },
                ),
                NativeAnswer::Failed(failure) => stop(preflight_error(&failure)),
            },
            (
                DeliveryStage::Checked { bootstrap: _, inputs },
                DeliveryEvent::Render(rendered),
            ) => match rendered {
                Err(error) => fail(error),
                Ok(prompt) => DeliveryNext::Await(DeliveryStage::Rendered { inputs, prompt }),
            },
            (DeliveryStage::Rendered { inputs, prompt }, DeliveryEvent::Observed) => {
                self.record_prompt(
                    registry,
                    store,
                    ids,
                    task,
                    attempt,
                    request,
                    instructions,
                    inputs,
                    prompt,
                    at,
                )
            },
            (DeliveryStage::Prepared { op, prompt }, DeliveryEvent::Observed) => self.begin_prompt(
                registry,
                store,
                ids,
                op,
                prompt,
                at,
            ),
            (DeliveryStage::Begun { op, prompt: _ }, DeliveryEvent::Prompt(outcome)) => {
                DeliveryNext::Finished(
                    finish_op(store, self.session.as_str(), op.id.as_str(), &outcome, at.now),
                )
            },
            _ => stop(FailureCode::InvalidInput),
        }
    }
}

/// How far along a stage is.
pub open spec fn delivery_rank(stage: DeliveryStageModel) -> int {
    match stage {
        DeliveryStageModel::Asked => 0,
        DeliveryStageModel::Vetted { .. } => 1,
        DeliveryStageModel::Checked { .. } => 2,
        DeliveryStageModel::Rendered { .. } => 3,
        DeliveryStageModel::Prepared { .. } => 4,
        DeliveryStageModel::Begun { .. } => 5,
    }
}

/// A delivery only ever goes on to the very next stage, so a prompt is sent at most once, and only
/// after its operation was begun in the store.
pub proof fn delivery_goes_on(
    run: ExecutionModel,
    grants: Seq<GrantModel>,
    s: StoreModel,
    ids: IdsModel,
    task: Text,
    attempt: Text,
    request: DeliveryRequestModel,
    instructions: Text,
    stage: DeliveryStageModel,
    event: DeliveryEventModel,
    at: Moment,
)
    ensures
        delivery_step(
            run,
            grants,
            s,
            ids,
            task,
            attempt,
            request,
            instructions,
            stage,
            event,
            at,
        ).2 matches DeliveryNextModel::Await(next) ==> delivery_rank(next) == delivery_rank(stage)
            + 1 && (next matches DeliveryStageModel::Begun { op, prompt } ==> (stage matches
            DeliveryStageModel::Prepared { op: held, prompt: text } && text == prompt && step_taken(
            run.actor,
            grants,
            s,
            ids.first,
            run.session,
            held,
            false,
            at,
        ) == Ok::<(StoreModel, OperationModel), WorkError>(
            (
                delivery_step(
                    run,
                    grants,
                    s,
                    ids,
                    task,
                    attempt,
                    request,
                    instructions,
                    stage,
                    event,
                    at,
                ).1,
                op,
            ),
        ))),
{
    reveal(delivery_vetted);
}

/// Until the intent is recorded a delivery writes nothing: whatever is refused on the way leaves no
/// trace.
pub proof fn early_refusals_leave_no_trace(
    run: ExecutionModel,
    grants: Seq<GrantModel>,
    s: StoreModel,
    ids: IdsModel,
    task: Text,
    attempt: Text,
    request: DeliveryRequestModel,
    instructions: Text,
    stage: DeliveryStageModel,
    event: DeliveryEventModel,
    at: Moment,
)
    requires
        delivery_rank(stage) < 3,
    ensures
        delivery_step(
            run,
            grants,
            s,
            ids,
            task,
            attempt,
            request,
            instructions,
            stage,
            event,
            at,
        ).1 == s,
{
}

/// The attempt that is found under an identifier bears it, and one that bears it is found.
pub proof fn attempts_are_found(attempts: Seq<AttemptModel>, id: Text)
    ensures
        attempt_in(attempts, id) matches Some(i) ==> 0 <= i < attempts.len() && attempts[i].id == id,
        attempt_in(attempts, id) is None ==> forall|i: int|
            0 <= i < attempts.len() ==> (#[trigger] attempts[i]).id != id,
    decreases attempts.len(),
{
    if attempts.len() > 0 {
        let rest = attempts.drop_last();
        attempts_are_found(rest, id);
        if attempt_in(attempts, id) is None {
            assert forall|i: int| 0 <= i < attempts.len() implies (#[trigger] attempts[i]).id
                != id by {
                if i < rest.len() {
                    assert(rest[i] == attempts[i]);
                }
            }
        }
    }
}

} // verus!
