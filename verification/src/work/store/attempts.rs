//! Starting attempts: admission, the dispatch claim, and what came of the launch.
use vstd::prelude::*;
use crate::digest::digest_text;
use crate::digest::is_uuid;
use crate::digest::new_id;
use crate::json::ToJson;
use crate::json::json_string;
use crate::text::bounded;
use crate::text::is_bounded;
use crate::text::is_native_identity;
use crate::text::native_identity;
use crate::value::Replica;
use crate::value::Same;
use crate::value::Text;
use crate::value::shown;
use crate::work::model::Attempt;
use crate::work::model::AttemptLifecycle;
use crate::work::model::AttemptLifecycleModel;
use crate::work::model::AttemptModel;
use crate::work::model::AttemptRole;
use crate::work::model::DelegationFence;
use crate::work::model::DelegationFenceModel;
use crate::work::model::DependencySnapshot;
use crate::work::model::DependencySnapshotModel;
use crate::work::model::FailureCode;
use crate::work::model::LaunchPhase;
use crate::work::model::Mutation;
use crate::work::model::MutationModel;
use crate::work::model::NativeBinding;
use crate::work::model::NativeBindingModel;
use crate::work::model::NativeStartRefusal;
use crate::work::model::NativeStartRefusalModel;
use crate::work::model::NewAttempt;
use crate::work::model::NewAttemptModel;
use crate::work::model::Operation;
use crate::work::model::OperationKind;
use crate::work::model::OperationModel;
use crate::work::model::OperationState;
use crate::work::model::Reservation;
use crate::work::model::Task;
use crate::work::model::TaskModel;
use crate::work::model::WorkError;
use crate::work::model::WorkResult;
use crate::work::model::unbound;
use crate::work::store::authority::OperationTarget;
use crate::work::store::authority::OperationTargetModel;
use crate::work::store::authority::governs_id;
use crate::work::store::authority::targeted_if;
use crate::work::store::changes::changed;
use crate::work::store::changes::operation_saved;
use crate::work::store::deliveries::governed_if;
use crate::work::store::dependencies::snapshot_of;
use crate::work::store::facts::about;
use crate::work::store::facts::fact_recorded;
use crate::work::store::facts::fact_reserved;
use crate::work::store::inputs::payload;
use crate::work::store::records::listed;
use crate::work::store::records::loaded;
use crate::work::store::records::put;
use crate::work::store::records::refuse;
use crate::work::store::records::refused;
use crate::work::store::requests::Request;
use crate::work::store::requests::RequestModel;
use crate::work::store::requests::replayed;
use crate::work::store::requests::saved;
use crate::work::store::rules::budgeted;
use crate::work::store::rules::fresh_operation;
use crate::work::store::rules::has_name;
use crate::work::store::rules::launchable;
use crate::work::store::rules::merge_binding;
use crate::work::store::rules::merged;
use crate::work::store::rules::names;
use crate::work::store::rules::new_operation;
use crate::work::store::rules::revision;
use crate::work::store::rules::started_attempt;
use crate::work::store::summaries::is_active;
use crate::work::store::summaries::reservation_active;
use crate::work::store::tables::Body;
use crate::work::store::tables::BodyModel;
use crate::work::store::tables::FactKind;
use crate::work::store::tables::ReceiptBody;
use crate::work::store::tables::ReceiptBodyModel;
use crate::work::store::tables::RequestKind;
use crate::work::store::tables::StoreModel;
use crate::work::store::tables::WorkStore;
use crate::work::store::transaction::commits;
use crate::work::store::transaction::first_time;
use crate::work::store::transaction::once_more;

verus! {

/// A request to start an attempt.
pub struct Start<'a> {
    pub actor: &'a str,
    pub session: &'a str,
    pub task_id: &'a str,
    pub key: &'a str,
    pub expected_revision: u64,
    pub input: &'a NewAttempt,
    pub digest: &'a str,
}

/// The value of a `Start`.
#[verifier::ext_equal]
pub struct StartModel {
    pub actor: Text,
    pub session: Text,
    pub task_id: Text,
    pub key: Text,
    pub expected_revision: u64,
    pub input: NewAttemptModel,
    pub digest: Text,
}

impl<'a> DeepView for Start<'a> {
    type V = StartModel;

    open spec fn deep_view(&self) -> StartModel {
        StartModel {
            actor: self.actor@,
            session: self.session@,
            task_id: self.task_id@,
            key: self.key@,
            expected_revision: self.expected_revision,
            input: self.input.deep_view(),
            digest: self.digest@,
        }
    }
}

/// The request that the start of an attempt is filed under.
pub open spec fn start_request(d: StartModel, fence: Option<DelegationFenceModel>) -> RequestModel {
    let parts = Seq::empty()
        .push(json_string(d.task_id))
        .push(u64::json(d.expected_revision))
        .push(NewAttempt::json(d.input))
        .push(json_string(d.digest));
    RequestModel {
        actor: d.actor,
        session: d.session,
        key: d.key,
        kind: RequestKind::Work(OperationKind::StartAttempt),
        digest: match fence {
            Some(fence) => payload(parts.push(DelegationFence::json(fence))),
            None => payload(parts),
        },
    }
}

/// An active lead whose process is known.
pub open spec fn is_bound_lead(attempt: AttemptModel) -> bool {
    is_active(attempt) && attempt.role == AttemptRole::Lead && attempt.binding.instance_id is Some
}

/// An active lead.
pub open spec fn is_lead(attempt: AttemptModel) -> bool {
    is_active(attempt) && attempt.role == AttemptRole::Lead
}

/// Whether a task has an active lead whose process is known.
pub open spec fn has_bound_lead(attempts: Seq<AttemptModel>) -> bool {
    exists|i: int| 0 <= i < attempts.len() && is_bound_lead(#[trigger] attempts[i])
}

/// Whether a task has an active lead.
pub open spec fn has_lead(attempts: Seq<AttemptModel>) -> bool {
    exists|i: int| 0 <= i < attempts.len() && is_lead(#[trigger] attempts[i])
}

/// How many active workers a task has.
pub open spec fn worker_count(attempts: Seq<AttemptModel>) -> nat
    decreases attempts.len(),
{
    if attempts.len() == 0 {
        0
    } else if is_active(attempts.last()) && attempts.last().role == AttemptRole::Worker {
        worker_count(attempts.drop_last()) + 1
    } else {
        worker_count(attempts.drop_last())
    }
}

/// Whether a task has a place for an attempt of a role: one lead, and workers under a lead whose
/// process is known.
pub open spec fn role_admitted(
    attempts: Seq<AttemptModel>,
    role: AttemptRole,
    max_workers: u32,
) -> WorkResult<()> {
    if role == AttemptRole::Worker && !has_bound_lead(attempts) {
        refused(FailureCode::NotReady)
    } else if role == AttemptRole::Worker && worker_count(attempts) >= max_workers {
        refused(FailureCode::ResourceLimit)
    } else if role == AttemptRole::Lead && has_lead(attempts) {
        refused(FailureCode::ResourceLimit)
    } else {
        Ok(())
    }
}

/// The task that an attempt is started under, and the dependencies that it starts with, where it
/// may be started.
pub open spec fn start_admitted(
    s: StoreModel,
    d: StartModel,
    fence: Option<DelegationFenceModel>,
) -> WorkResult<(TaskModel, Seq<DependencySnapshotModel>)> {
    match loaded::<Task>(s, d.session, d.task_id) {
        Err(error) => Err(error),
        Ok(task) => if task.revision != d.expected_revision {
            refused(FailureCode::RevisionConflict)
        } else {
            match governed_if(s, d.session, fence, task) {
                Err(error) => Err(error),
                Ok(_) => match launchable(s, task.session_id, task, Seq::empty()) {
                    Err(error) => Err(error),
                    Ok(_) => match snapshot_of(s, d.session, task) {
                        Err(error) => Err(error),
                        Ok(snapshot) => if !names(task.policy.allowed_agents, d.input.agent_kind) {
                            refused(FailureCode::ScopeMismatch)
                        } else {
                            match budgeted(s, task, d.input.role) {
                                Err(error) => Err(error),
                                Ok(_) => match role_admitted(
                                    listed::<Attempt>(s.records, d.session, d.task_id),
                                    d.input.role,
                                    task.policy.max_workers,
                                ) {
                                    Err(error) => Err(error),
                                    Ok(_) => Ok((task, snapshot)),
                                },
                            }
                        },
                    },
                },
            }
        },
    }
}

/// An attempt as it is first recorded.
pub open spec fn fresh_attempt(
    id: Text,
    task_id: Text,
    input: NewAttemptModel,
    now: i64,
) -> AttemptModel {
    AttemptModel {
        lifecycle: AttemptLifecycleModel {
            launch_phase: LaunchPhase::NotDispatched,
            reservation: Reservation::Reserved,
            native_owner_epoch: None,
            release: None,
        },
        id,
        task_id,
        agent_kind: input.agent_kind,
        role: input.role,
        binding: unbound(),
        created_at_ms: now,
    }
}

/// The store after an attempt and the operation that starts it were recorded.
pub open spec fn start_recorded(
    s: StoreModel,
    fact_id: Text,
    session: Text,
    task: TaskModel,
    attempt: AttemptModel,
    op: OperationModel,
    now: i64,
) -> WorkResult<StoreModel> {
    match put(s, session, attempt.id, attempt.task_id, BodyModel::Attempt(attempt)) {
        Err(error) => Err(error),
        Ok(held) => match put(held, session, op.id, op.task_id, BodyModel::Operation(op)) {
            Err(error) => Err(error),
            Ok(filed) => match fact_reserved(filed, session, op, FactKind::StartRefusal, fact_id) {
                Err(error) => Err(error),
                Ok(kept) => match changed(kept, task, "attempt_prepared"@, op.id, now) {
                    Err(error) => Err(error),
                    Ok((next, _)) => Ok(next),
                },
            },
        },
    }
}

/// What becomes of a request to start an attempt, where the attempt, the operation and the row
/// that is kept for a refusal are given these identifiers.
pub open spec fn start_outcome(
    s: StoreModel,
    attempt_id: Text,
    op_id: Text,
    fact_id: Text,
    d: StartModel,
    fence: Option<DelegationFenceModel>,
    now: i64,
) -> WorkResult<(StoreModel, MutationModel<OperationModel>)> {
    if !is_bounded(d.input.agent_kind, 64) || !is_bounded(d.digest, 128) {
        refused(FailureCode::InvalidInput)
    } else {
        match replayed::<Operation>(s, start_request(d, fence)) {
            Err(error) => Err(error),
            Ok(Some(found)) => match loaded::<Operation>(s, d.session, found.id) {
                Err(error) => Err(error),
                Ok(op) => Ok((s, once_more(op))),
            },
            Ok(None) => match start_admitted(s, d, fence) {
                Err(error) => Err(error),
                Ok((task, snapshot)) => {
                    let attempt = fresh_attempt(attempt_id, d.task_id, d.input, now);
                    let op = OperationModel {
                        delegation_fence: fence,
                        dependency_snapshot: snapshot,
                        ..fresh_operation(
                            op_id,
                            d.task_id,
                            Some(attempt_id),
                            OperationKind::StartAttempt,
                            now,
                        )
                    };
                    match start_recorded(s, fact_id, d.session, task, attempt, op, now) {
                        Err(error) => Err(error),
                        Ok(next) => Ok(
                            (
                                saved(
                                    next,
                                    start_request(d, fence),
                                    ReceiptBodyModel::Operation(op),
                                ),
                                first_time(op),
                            ),
                        ),
                    }
                },
            },
        }
    }
}

/// An attempt was started, or refused, under some identifiers.
pub open spec fn start_commits(
    before: StoreModel,
    later: StoreModel,
    d: StartModel,
    fence: Option<DelegationFenceModel>,
    now: i64,
    res: WorkResult<MutationModel<OperationModel>>,
) -> bool {
    exists|attempt_id: Text, op_id: Text, fact_id: Text|
        is_uuid(attempt_id) && is_uuid(op_id) && is_uuid(fact_id) && commits(
            before,
            later,
            #[trigger] start_outcome(before, attempt_id, op_id, fact_id, d, fence, now),
            res,
        )
}

/// What becomes of a claim to dispatch a start. It is the only permission to call the native
/// start, and it is given once.
pub open spec fn dispatch_outcome(
    s: StoreModel,
    fact_id: Text,
    session: Text,
    operation_id: Text,
    target: Option<OperationTargetModel>,
    now: i64,
) -> WorkResult<(StoreModel, OperationModel)> {
    match loaded::<Operation>(s, session, operation_id) {
        Err(error) => Err(error),
        Ok(op) => match targeted_if(s, session, op, target) {
            Err(error) => Err(error),
            Ok(_) => match started_attempt(s, session, op) {
                Err(error) => Err(error),
                Ok(attempt) => if op.state != OperationState::Submitting || !is_active(attempt)
                    || attempt.lifecycle.launch_phase != LaunchPhase::NotDispatched {
                    refused(FailureCode::RevisionConflict)
                } else {
                    match launch_ready(s, session, op) {
                        Err(error) => Err(error),
                        Ok(snapshot) => dispatch_recorded(
                            s,
                            fact_id,
                            session,
                            OperationModel {
                                dependency_snapshot: snapshot,
                                updated_at_ms: now,
                                ..op
                            },
                            attempt,
                            now,
                        ),
                    }
                },
            },
        },
    }
}

/// The dependencies that a start goes out with, where its task may be launched now.
pub open spec fn launch_ready(s: StoreModel, session: Text, op: OperationModel) -> WorkResult<
    Seq<DependencySnapshotModel>,
> {
    match loaded::<Task>(s, session, op.task_id) {
        Err(error) => Err(error),
        Ok(task) => match governed_if(s, session, op.delegation_fence, task) {
            Err(error) => Err(error),
            Ok(_) => match launchable(s, task.session_id, task, Seq::empty()) {
                Err(error) => Err(error),
                Ok(_) => snapshot_of(s, session, task),
            },
        },
    }
}

/// The store and the operation after a dispatch was claimed.
pub open spec fn dispatch_recorded(
    s: StoreModel,
    fact_id: Text,
    session: Text,
    op: OperationModel,
    attempt: AttemptModel,
    now: i64,
) -> WorkResult<(StoreModel, OperationModel)> {
    match fact_reserved(s, session, op, FactKind::StartRefusal, fact_id) {
        Err(error) => Err(error),
        Ok(kept) => match put(
            kept,
            session,
            attempt.id,
            op.task_id,
            BodyModel::Attempt(in_phase(attempt, LaunchPhase::DispatchClaimed)),
        ) {
            Err(error) => Err(error),
            Ok(held) => match operation_saved(held, session, op, now) {
                Err(error) => Err(error),
                Ok(next) => Ok((next, op)),
            },
        },
    }
}

/// An attempt in another launch phase.
pub open spec fn in_phase(attempt: AttemptModel, phase: LaunchPhase) -> AttemptModel {
    AttemptModel {
        lifecycle: AttemptLifecycleModel { launch_phase: phase, ..attempt.lifecycle },
        ..attempt
    }
}

/// What becomes of the report that a claimed start was launched.
pub open spec fn launch_outcome(
    s: StoreModel,
    session: Text,
    operation_id: Text,
    resources: NativeBindingModel,
    owner_epoch: Text,
    now: i64,
) -> WorkResult<(StoreModel, OperationModel)> {
    if !is_native_identity(owner_epoch) || !(resources.instance_id matches Some(id)
        && is_native_identity(id)) {
        refused(FailureCode::InvalidInput)
    } else {
        match loaded::<Operation>(s, session, operation_id) {
            Err(error) => Err(error),
            Ok(op) => match started_attempt(s, session, op) {
                Err(error) => Err(error),
                Ok(attempt) => if op.state != OperationState::Submitting || !is_active(attempt)
                    || attempt.lifecycle.launch_phase != LaunchPhase::DispatchClaimed || about::<
                    NativeStartRefusal,
                >(s.records, session, operation_id) is Some {
                    refused(FailureCode::RevisionConflict)
                } else {
                    match merged(op.resources, resources) {
                        Err(error) => Err(error),
                        Ok(known) => match merged(attempt.binding, known) {
                            Err(error) => Err(error),
                            Ok(binding) => {
                                let launched = AttemptModel {
                                    lifecycle: AttemptLifecycleModel {
                                        launch_phase: LaunchPhase::LaunchConfirmed,
                                        native_owner_epoch: Some(owner_epoch),
                                        ..attempt.lifecycle
                                    },
                                    binding,
                                    ..attempt
                                };
                                let done = OperationModel {
                                    resources: known,
                                    updated_at_ms: now,
                                    ..op
                                };
                                both_saved(s, session, attempt.id, launched, done, now)
                            },
                        },
                    }
                },
            },
        }
    }
}

/// The store and the operation after an attempt and its operation were filed.
pub open spec fn both_saved(
    s: StoreModel,
    session: Text,
    attempt_id: Text,
    attempt: AttemptModel,
    op: OperationModel,
    now: i64,
) -> WorkResult<(StoreModel, OperationModel)> {
    match put(s, session, attempt_id, op.task_id, BodyModel::Attempt(attempt)) {
        Err(error) => Err(error),
        Ok(held) => match operation_saved(held, session, op, now) {
            Err(error) => Err(error),
            Ok(next) => Ok((next, op)),
        },
    }
}

/// What becomes of the report that a claimed start made no process. The same report may come
/// again; another one may not.
pub open spec fn start_refusal_outcome(
    s: StoreModel,
    session: Text,
    operation_id: Text,
    owner_epoch: Text,
    receipt_id: Text,
    now: i64,
) -> WorkResult<(StoreModel, ())> {
    if !is_native_identity(owner_epoch) || !is_native_identity(receipt_id) {
        refused(FailureCode::InvalidInput)
    } else {
        match loaded::<Operation>(s, session, operation_id) {
            Err(error) => Err(error),
            Ok(op) => match started_attempt(s, session, op) {
                Err(error) => Err(error),
                Ok(attempt) => {
                    let proof_of = NativeStartRefusalModel {
                        start_operation_id: operation_id,
                        owner_epoch,
                        receipt_id,
                    };
                    match about::<NativeStartRefusal>(s.records, session, operation_id) {
                        Some(known) => if known == proof_of {
                            Ok((s, ()))
                        } else {
                            refused(FailureCode::InstanceChanged)
                        },
                        None => if op.state != OperationState::Submitting
                            || attempt.lifecycle.launch_phase != LaunchPhase::DispatchClaimed
                            || attempt.binding.instance_id is Some || !is_active(attempt) {
                            refused(FailureCode::RevisionConflict)
                        } else {
                            match fact_recorded(
                                s,
                                session,
                                op,
                                FactKind::StartRefusal,
                                BodyModel::StartRefusal(proof_of),
                            ) {
                                Err(error) => Err(error),
                                Ok(noted) => match loaded::<Task>(noted, session, op.task_id) {
                                    Err(error) => Err(error),
                                    Ok(task) => match changed(
                                        noted,
                                        task,
                                        "native_start_refused"@,
                                        op.id,
                                        now,
                                    ) {
                                        Err(error) => Err(error),
                                        Ok((next, _)) => Ok((next, ())),
                                    },
                                },
                            }
                        },
                    }
                },
            },
        }
    }
}

fn any_bound_lead(attempts: &Vec<Attempt>) -> (res: bool)
    ensures
        res == has_bound_lead(attempts.deep_view()),
{
    let ghost all = attempts.deep_view();
    let mut i: usize = 0;
    while i < attempts.len()
        invariant
            i <= attempts.len(),
            all == attempts.deep_view(),
            forall|k: int| 0 <= k < i ==> !is_bound_lead(#[trigger] all[k]),
        decreases attempts.len() - i,
    {
        let attempt = &attempts[i];
        assert(all[i as int] == attempt.deep_view());
        if reservation_active(attempt) && attempt.role == AttemptRole::Lead
            && attempt.binding.instance_id.is_some() {
            assert(is_bound_lead(all[i as int]));
            return true;
        }
        i += 1;
    }
    false
}

fn any_lead(attempts: &Vec<Attempt>) -> (res: bool)
    ensures
        res == has_lead(attempts.deep_view()),
{
    let ghost all = attempts.deep_view();
    let mut i: usize = 0;
    while i < attempts.len()
        invariant
            i <= attempts.len(),
            all == attempts.deep_view(),
            forall|k: int| 0 <= k < i ==> !is_lead(#[trigger] all[k]),
        decreases attempts.len() - i,
    {
        let attempt = &attempts[i];
        assert(all[i as int] == attempt.deep_view());
        if reservation_active(attempt) && attempt.role == AttemptRole::Lead {
            assert(is_lead(all[i as int]));
            return true;
        }
        i += 1;
    }
    false
}

fn count_workers(attempts: &Vec<Attempt>) -> (res: u64)
    ensures
        res == worker_count(attempts.deep_view()),
{
    let ghost all = attempts.deep_view();
    let mut count: u64 = 0;
    let mut i: usize = 0;
    while i < attempts.len()
        invariant
            i <= attempts.len(),
            count <= i,
            all == attempts.deep_view(),
            count == worker_count(all.take(i as int)),
        decreases attempts.len() - i,
    {
        assert(all.take(i + 1).drop_last() =~= all.take(i as int));
        if reservation_active(&attempts[i]) && attempts[i].role == AttemptRole::Worker {
            count += 1;
        }
        i += 1;
    }
    assert(all.take(i as int) =~= all);
    count
}

fn admit_role(attempts: &Vec<Attempt>, role: AttemptRole, max_workers: u32) -> (res: WorkResult<()>)
    ensures
        res == role_admitted(attempts.deep_view(), role, max_workers),
{
    if role == AttemptRole::Worker && !any_bound_lead(attempts) {
        return refuse(FailureCode::NotReady);
    }
    if role == AttemptRole::Worker && count_workers(attempts) >= max_workers as u64 {
        return refuse(FailureCode::ResourceLimit);
    }
    if role == AttemptRole::Lead && any_lead(attempts) {
        return refuse(FailureCode::ResourceLimit);
    }
    Ok(())
}

impl<'a> Start<'a> {
    /// The request that the start of an attempt is filed under.
    pub(crate) fn request(&self, fence: Option<&DelegationFence>) -> (res: Request<'a>)
        ensures
            res.deep_view() == start_request(self.deep_view(), fence.deep_view()),
    {
        let digest = match fence {
            Some(fence) => digest_text(
                &(self.task_id, self.expected_revision, self.input, self.digest, fence),
            ),
            None => digest_text(&(self.task_id, self.expected_revision, self.input, self.digest)),
        };
        Request {
            actor: self.actor,
            session: self.session,
            key: self.key,
            kind: RequestKind::Work(OperationKind::StartAttempt),
            digest,
        }
    }
}

/// A fence that is lent.
pub fn lent_fence(fence: &Option<DelegationFence>) -> (res: Option<&DelegationFence>)
    ensures
        res.deep_view() == fence.deep_view(),
{
    match fence {
        Some(fence) => Some(fence),
        None => None,
    }
}

impl WorkStore {
    fn admit_start(&self, d: &Start<'_>, fence: &Option<DelegationFence>) -> (res: WorkResult<
        (Task, Vec<DependencySnapshot>),
    >)
        ensures
            shown(res) == start_admitted(self@, d.deep_view(), fence.deep_view()),
    {
        let task = self.load::<Task>(d.session, d.task_id)?;
        revision(&task, d.expected_revision)?;
        self.authorize_if(d.session, fence, &task)?;
        self.launch_allowed(&task)?;
        let snapshot = self.dependency_snapshot(d.session, &task)?;
        if !has_name(&task.policy.allowed_agents, d.input.agent_kind.as_str()) {
            return refuse(FailureCode::ScopeMismatch);
        }
        self.delegation_budget(&task, d.input.role)?;
        let attempts = self.records::<Attempt>(d.session, d.task_id);
        admit_role(&attempts, d.input.role, task.policy.max_workers)?;
        Ok((task, snapshot))
    }

    /// Records an attempt and the operation that starts it. On failure the caller discards the
    /// store.
    fn record_start(
        &mut self,
        fact_id: &str,
        session: &str,
        task: Task,
        attempt: Attempt,
        op: &Operation,
        now: i64,
    ) -> (res: WorkResult<()>)
        ensures
            match start_recorded(
                old(self)@,
                fact_id@,
                session@,
                task.deep_view(),
                attempt.deep_view(),
                op.deep_view(),
                now,
            ) {
                Ok(next) => res is Ok && final(self)@ == next,
                Err(error) => res == Err::<(), WorkError>(error),
            },
    {
        let copy = attempt.replica();
        self.put(session, attempt.id.as_str(), attempt.task_id.as_str(), Body::Attempt(copy))?;
        self.put(session, op.id.as_str(), op.task_id.as_str(), Body::Operation(op.replica()))?;
        self.reserve_fact(session, op, FactKind::StartRefusal, fact_id)?;
        let _ = self.change(task, "attempt_prepared", op.id.as_str(), now)?;
        Ok(())
    }

    /// Carries out a request to start an attempt under the identifiers given.
    pub fn prepare_attempt_as(
        &mut self,
        attempt_id: &str,
        op_id: &str,
        fact_id: &str,
        d: &Start<'_>,
        fence: Option<DelegationFence>,
        now: i64,
    ) -> (res: WorkResult<Mutation<Operation>>)
        ensures
            commits(
                old(self)@,
                final(self)@,
                start_outcome(
                    old(self)@,
                    attempt_id@,
                    op_id@,
                    fact_id@,
                    d.deep_view(),
                    fence.deep_view(),
                    now,
                ),
                shown(res),
            ),
    {
        if !bounded(d.input.agent_kind.as_str(), 64) || !bounded(d.digest, 128) {
            return refuse(FailureCode::InvalidInput);
        }
        let request = d.request(lent_fence(&fence));
        match self.replay::<Operation>(&request)? {
            Some(found) => {
                let value = self.load::<Operation>(d.session, found.id.as_str())?;
                return Ok(Mutation { value, replayed: true });
            },
            None => {},
        }
        let (task, snapshot) = self.admit_start(d, &fence)?;
        let attempt = Attempt {
            lifecycle: AttemptLifecycle {
                launch_phase: LaunchPhase::NotDispatched,
                reservation: Reservation::Reserved,
                native_owner_epoch: None,
                release: None,
            },
            id: attempt_id.to_string(),
            task_id: d.task_id.to_string(),
            agent_kind: d.input.agent_kind.clone(),
            role: d.input.role,
            binding: NativeBinding::default(),
            created_at_ms: now,
        };
        let mut op = new_operation(
            op_id,
            d.task_id,
            Some(attempt_id.to_string()),
            OperationKind::StartAttempt,
            now,
        );
        op.delegation_fence = fence;
        op.dependency_snapshot = snapshot;
        let mut next = self.replica();
        next.record_start(fact_id, d.session, task, attempt, &op, now)?;
        next.save(&request, ReceiptBody::Operation(op.replica()));
        *self = next;
        Ok(Mutation { value: op, replayed: false })
    }

    fn prepare_attempt_inner(
        &mut self,
        d: &Start<'_>,
        fence: Option<DelegationFence>,
        now: i64,
    ) -> (res: WorkResult<Mutation<Operation>>)
        ensures
            start_commits(
                old(self)@,
                final(self)@,
                d.deep_view(),
                fence.deep_view(),
                now,
                shown(res),
            ),
    {
        let attempt_id = new_id();
        let op_id = new_id();
        let fact_id = new_id();
        self.prepare_attempt_as(
            attempt_id.as_str(),
            op_id.as_str(),
            fact_id.as_str(),
            d,
            fence,
            now,
        )
    }

    /// Admits an attempt and records the operation that starts it.
    pub fn prepare_attempt(
        &mut self,
        actor: &str,
        session: &str,
        task_id: &str,
        key: &str,
        expected_revision: u64,
        input: NewAttempt,
        digest: &str,
        now: i64,
    ) -> (res: WorkResult<Mutation<Operation>>)
        ensures
            start_commits(
                old(self)@,
                final(self)@,
                (StartModel {
                    actor: actor@,
                    session: session@,
                    task_id: task_id@,
                    key: key@,
                    expected_revision,
                    input: input.deep_view(),
                    digest: digest@,
                }),
                None,
                now,
                shown(res),
            ),
    {
        let d = Start { actor, session, task_id, key, expected_revision, input: &input, digest };
        self.prepare_attempt_inner(&d, None, now)
    }

    /// Admits an attempt of a child on behalf of a coordinator.
    pub fn prepare_delegated_attempt(
        &mut self,
        actor: &str,
        session: &str,
        task_id: &str,
        key: &str,
        expected_revision: u64,
        input: NewAttempt,
        digest: &str,
        fence: &DelegationFence,
        now: i64,
    ) -> (res: WorkResult<Mutation<Operation>>)
        ensures
            start_commits(
                old(self)@,
                final(self)@,
                (StartModel {
                    actor: actor@,
                    session: session@,
                    task_id: task_id@,
                    key: key@,
                    expected_revision,
                    input: input.deep_view(),
                    digest: digest@,
                }),
                Some(fence.deep_view()),
                now,
                shown(res),
            ),
    {
        let d = Start { actor, session, task_id, key, expected_revision, input: &input, digest };
        self.prepare_attempt_inner(&d, Some(fence.replica()), now)
    }

    fn ready_to_launch(&self, session: &str, op: &Operation) -> (res: WorkResult<
        Vec<DependencySnapshot>,
    >)
        ensures
            shown(res) == launch_ready(self@, session@, op.deep_view()),
    {
        let task = self.load::<Task>(session, op.task_id.as_str())?;
        self.authorize_if(session, &op.delegation_fence, &task)?;
        self.launch_allowed(&task)?;
        self.dependency_snapshot(session, &task)
    }

    /// Claims the dispatch of a start, keeping quota for a refusal under `fact_id`.
    pub fn claim_start_dispatch_as(
        &mut self,
        fact_id: &str,
        session: &str,
        operation_id: &str,
        target: Option<OperationTarget>,
        now: i64,
    ) -> (res: WorkResult<Operation>)
        ensures
            commits(
                old(self)@,
                final(self)@,
                dispatch_outcome(
                    old(self)@,
                    fact_id@,
                    session@,
                    operation_id@,
                    target.deep_view(),
                    now,
                ),
                shown(res),
            ),
    {
        let mut op = self.load::<Operation>(session, operation_id)?;
        self.validate_operation_target(session, &op, &target)?;
        let mut attempt = self.start_attempt(session, &op)?;
        if op.state != OperationState::Submitting || !reservation_active(&attempt)
            || attempt.lifecycle.launch_phase != LaunchPhase::NotDispatched {
            return refuse(FailureCode::RevisionConflict);
        }
        op.dependency_snapshot = self.ready_to_launch(session, &op)?;
        op.updated_at_ms = now;
        let mut next = self.replica();
        next.reserve_fact(session, &op, FactKind::StartRefusal, fact_id)?;
        attempt.lifecycle.launch_phase = LaunchPhase::DispatchClaimed;
        let copy = attempt.replica();
        next.put(session, attempt.id.as_str(), op.task_id.as_str(), Body::Attempt(copy))?;
        next.save_operation(session, &op, now)?;
        *self = next;
        Ok(op)
    }

    /// Claims the dispatch of a start.
    pub fn claim_start_dispatch(&mut self, session: &str, operation_id: &str, now: i64) -> (res:
        WorkResult<Operation>)
        ensures
            exists|fact_id: Text|
                is_uuid(fact_id) && commits(
                    old(self)@,
                    final(self)@,
                    #[trigger] dispatch_outcome(
                        old(self)@,
                        fact_id,
                        session@,
                        operation_id@,
                        None,
                        now,
                    ),
                    shown(res),
                ),
    {
        let fact_id = new_id();
        self.claim_start_dispatch_as(fact_id.as_str(), session, operation_id, None, now)
    }

    /// Claims the dispatch of a child's start on behalf of a coordinator.
    pub fn claim_delegated_start_dispatch(
        &mut self,
        session: &str,
        operation_id: &str,
        task_id: &str,
        attempt_id: &str,
        fence: &DelegationFence,
        now: i64,
    ) -> (res: WorkResult<Operation>)
        ensures
            exists|fact_id: Text|
                is_uuid(fact_id) && commits(
                    old(self)@,
                    final(self)@,
                    #[trigger] dispatch_outcome(
                        old(self)@,
                        fact_id,
                        session@,
                        operation_id@,
                        Some(
                            (OperationTargetModel {
                                task_id: task_id@,
                                attempt_id: attempt_id@,
                                kind: OperationKind::StartAttempt,
                                fence: fence.deep_view(),
                            }),
                        ),
                        now,
                    ),
                    shown(res),
                ),
    {
        let fact_id = new_id();
        let target = OperationTarget {
            task_id: task_id.to_string(),
            attempt_id: attempt_id.to_string(),
            kind: OperationKind::StartAttempt,
            fence: fence.replica(),
        };
        self.claim_start_dispatch_as(fact_id.as_str(), session, operation_id, Some(target), now)
    }

    /// Records that a claimed start was launched.
    pub fn confirm_start_launch(
        &mut self,
        session: &str,
        operation_id: &str,
        resources: NativeBinding,
        owner_epoch: &str,
        now: i64,
    ) -> (res: WorkResult<Operation>)
        ensures
            commits(
                old(self)@,
                final(self)@,
                launch_outcome(
                    old(self)@,
                    session@,
                    operation_id@,
                    resources.deep_view(),
                    owner_epoch@,
                    now,
                ),
                shown(res),
            ),
    {
        let known_instance = match &resources.instance_id {
            Some(id) => native_identity(id.as_str()),
            None => false,
        };
        if !native_identity(owner_epoch) || !known_instance {
            return refuse(FailureCode::InvalidInput);
        }
        let mut op = self.load::<Operation>(session, operation_id)?;
        let mut attempt = self.start_attempt(session, &op)?;
        if op.state != OperationState::Submitting || !reservation_active(&attempt)
            || attempt.lifecycle.launch_phase != LaunchPhase::DispatchClaimed
            || self.record_by_operation::<NativeStartRefusal>(session, operation_id).is_some() {
            return refuse(FailureCode::RevisionConflict);
        }
        op.resources = merge_binding(&op.resources, resources)?;
        attempt.binding = merge_binding(&attempt.binding, op.resources.replica())?;
        attempt.lifecycle.launch_phase = LaunchPhase::LaunchConfirmed;
        attempt.lifecycle.native_owner_epoch = Some(owner_epoch.to_string());
        op.updated_at_ms = now;
        let mut next = self.replica();
        let copy = attempt.replica();
        next.put(session, attempt.id.as_str(), op.task_id.as_str(), Body::Attempt(copy))?;
        next.save_operation(session, &op, now)?;
        *self = next;
        Ok(op)
    }

    /// Records that a claimed start made no process.
    pub fn record_start_refusal(
        &mut self,
        session: &str,
        operation_id: &str,
        owner_epoch: &str,
        receipt_id: &str,
        now: i64,
    ) -> (res: WorkResult<()>)
        ensures
            commits(
                old(self)@,
                final(self)@,
                start_refusal_outcome(
                    old(self)@,
                    session@,
                    operation_id@,
                    owner_epoch@,
                    receipt_id@,
                    now,
                ),
                res,
            ),
    {
        if !native_identity(owner_epoch) || !native_identity(receipt_id) {
            return refuse(FailureCode::InvalidInput);
        }
        let op = self.load::<Operation>(session, operation_id)?;
        let attempt = self.start_attempt(session, &op)?;
        let refusal = NativeStartRefusal {
            start_operation_id: operation_id.to_string(),
            owner_epoch: owner_epoch.to_string(),
            receipt_id: receipt_id.to_string(),
        };
        match self.record_by_operation::<NativeStartRefusal>(session, operation_id) {
            Some(known) => {
                return if known.same(&refusal) {
                    Ok(())
                } else {
                    refuse(FailureCode::InstanceChanged)
                };
            },
            None => {},
        }
        if op.state != OperationState::Submitting || attempt.lifecycle.launch_phase
            != LaunchPhase::DispatchClaimed || attempt.binding.instance_id.is_some()
            || !reservation_active(&attempt) {
            return refuse(FailureCode::RevisionConflict);
        }
        let mut next = self.replica();
        next.fulfill_fact(session, &op, FactKind::StartRefusal, Body::StartRefusal(refusal))?;
        let task = next.load::<Task>(session, op.task_id.as_str())?;
        let _ = next.change(task, "native_start_refused", op.id.as_str(), now)?;
        *self = next;
        Ok(())
    }

    /// Reads the report that a start made no process.
    pub fn get_start_refusal(&self, session: &str, operation_id: &str) -> (res: WorkResult<
        Option<NativeStartRefusal>,
    >)
        ensures
            shown(res) == (match loaded::<Operation>(self@, session@, operation_id@) {
                Err(error) => Err(error),
                Ok(_) => Ok(about::<NativeStartRefusal>(self@.records, session@, operation_id@)),
            }),
    {
        let _ = self.load::<Operation>(session, operation_id)?;
        Ok(self.record_by_operation::<NativeStartRefusal>(session, operation_id))
    }

    /// Answers a coordinator's request to start an attempt that was carried out before.
    pub fn replay_delegated_attempt(
        &self,
        actor: &str,
        session: &str,
        task_id: &str,
        key: &str,
        expected_revision: u64,
        input: &NewAttempt,
        digest: &str,
        fence: &DelegationFence,
    ) -> (res: WorkResult<Option<Mutation<Operation>>>)
        ensures
            shown(res) == (match governs_id(self@, session@, fence.deep_view(), task_id@) {
                Err(error) => Err(error),
                Ok(_) => renewed(
                    self@,
                    session@,
                    replayed::<Operation>(
                        self@,
                        start_request(
                            (StartModel {
                                actor: actor@,
                                session: session@,
                                task_id: task_id@,
                                key: key@,
                                expected_revision,
                                input: input.deep_view(),
                                digest: digest@,
                            }),
                            Some(fence.deep_view()),
                        ),
                    ),
                ),
            }),
    {
        self.authorize_child_id(session, fence, task_id)?;
        let d = Start { actor, session, task_id, key, expected_revision, input, digest };
        let request = d.request(Some(fence));
        match self.replay::<Operation>(&request)? {
            Some(found) => {
                let value = self.load::<Operation>(session, found.id.as_str())?;
                Ok(Some(Mutation { value, replayed: true }))
            },
            None => Ok(None),
        }
    }
}

/// The answer to a request that may have been carried out before, with the operation as it now
/// stands.
pub open spec fn renewed(
    s: StoreModel,
    session: Text,
    found: WorkResult<Option<OperationModel>>,
) -> WorkResult<Option<MutationModel<OperationModel>>> {
    match found {
        Err(error) => Err(error),
        Ok(None) => Ok(None),
        Ok(Some(original)) => match loaded::<Operation>(s, session, original.id) {
            Err(error) => Err(error),
            Ok(op) => Ok(Some(once_more(op))),
        },
    }
}

} // verus!
