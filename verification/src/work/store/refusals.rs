//! When an operation is admitted, and why it is refused.
use vstd::utf8::encode_utf8;
use vstd::prelude::*;
use crate::digest::sha256_hex;
use crate::json::ToJson;
use crate::json::array;
use crate::json::json_string;
use crate::text::byte_len;
use crate::text::is_hex_digest;
use crate::text::is_native_identity;
use crate::text::is_said;
use crate::value::Text;
use crate::work::model::Attempt;
use crate::work::model::AttemptModel;
use crate::work::model::AttemptRole;
use crate::work::model::CreateTask;
use crate::work::model::CreateTaskModel;
use crate::work::model::DelegationConfig;
use crate::work::model::DelegationConfigModel;
use crate::work::model::DelegationFence;
use crate::work::model::DelegationFenceModel;
use crate::work::model::DelegationStateModel;
use crate::work::model::DependencyReadiness;
use crate::work::model::FailureCode;
use crate::work::model::FrozenInputRef;
use crate::work::model::FrozenInputRefModel;
use crate::work::model::InputRef;
use crate::work::model::InputRefModel;
use crate::work::model::InputUpload;
use crate::work::model::InputUploadModel;
use crate::work::model::InputUse;
use crate::work::model::InterruptInput;
use crate::work::model::InterruptInputModel;
use crate::work::model::LaunchPhase;
use crate::work::model::NewAttempt;
use crate::work::model::Operation;
use crate::work::model::OperationKind;
use crate::work::model::OperationModel;
use crate::work::model::OperationOutcomeModel;
use crate::work::model::OperationState;
use crate::work::model::PauseInput;
use crate::work::model::PauseInputModel;
use crate::work::model::ReconcileInput;
use crate::work::model::ReconcileInputModel;
use crate::work::model::Reservation;
use crate::work::model::ResultInput;
use crate::work::model::ResultInputModel;
use crate::work::model::ResultSubmission;
use crate::work::model::ResultSubmissionModel;
use crate::work::model::Review;
use crate::work::model::ReviewInput;
use crate::work::model::ReviewInputModel;
use crate::work::model::ReviewModel;
use crate::work::model::Task;
use crate::work::model::TaskDependency;
use crate::work::model::TaskDependencyModel;
use crate::work::model::TaskModel;
use crate::work::model::WorkError;
use crate::work::store::attempts::StartModel;
use crate::work::store::attempts::dispatch_outcome;
use crate::work::store::attempts::fresh_attempt;
use crate::work::store::attempts::has_bound_lead;
use crate::work::store::attempts::has_lead;
use crate::work::store::attempts::in_phase;
use crate::work::store::attempts::is_bound_lead;
use crate::work::store::attempts::is_lead;
use crate::work::store::attempts::launch_ready;
use crate::work::store::attempts::role_admitted;
use crate::work::store::attempts::start_admitted;
use crate::work::store::attempts::start_outcome;
use crate::work::store::attempts::start_recorded;
use crate::work::store::attempts::start_request;
use crate::work::store::attempts::worker_count;
use crate::work::store::authority::DelegatedCreate;
use crate::work::store::authority::DelegatedCreateModel;
use crate::work::store::authority::OperationTargetModel;
use crate::work::store::authority::child_inputs;
use crate::work::store::authority::governs;
use crate::work::store::authority::governs_id;
use crate::work::store::authority::permitted;
use crate::work::store::authority::targeted;
use crate::work::store::changes::changed;
use crate::work::store::changes::operation_saved;
use crate::work::store::changes::revised;
use crate::work::store::delegation::configure_outcome;
use crate::work::store::delegation::configure_request;
use crate::work::store::delegation::dependencies_request;
use crate::work::store::delegation::may_enable;
use crate::work::store::deliveries::DeliveryModel;
use crate::work::store::deliveries::PromiseModel;
use crate::work::store::deliveries::any_pending;
use crate::work::store::deliveries::candidates;
use crate::work::store::deliveries::client_digest;
use crate::work::store::deliveries::delivery_admitted;
use crate::work::store::deliveries::delivery_inputs;
use crate::work::store::deliveries::delivery_request;
use crate::work::store::deliveries::delivery_texts;
use crate::work::store::deliveries::pending_on;
use crate::work::store::deliveries::versions;
use crate::work::store::dependencies::inspected;
use crate::work::store::effects::keys_stand_for_requests;
use crate::work::store::effects::new_key;
use crate::work::store::effects::put_lands;
use crate::work::store::effects::reserve_lands;
use crate::work::store::effects::same_place;
use crate::work::store::facts::fact_reserved;
use crate::work::store::freshness::tasks_stand;
use crate::work::store::history::putting_grows;
use crate::work::store::history::unused;
use crate::work::store::history::well_formed;
use crate::work::store::inputs::covers;
use crate::work::store::inputs::payload;
use crate::work::store::inputs::reference_to;
use crate::work::store::inputs::resolved;
use crate::work::store::interruptions::any_interrupt;
use crate::work::store::interruptions::interrupt_admitted;
use crate::work::store::interruptions::interrupt_request;
use crate::work::store::interruptions::interrupting;
use crate::work::store::operations::attempt_ended;
use crate::work::store::operations::begin_outcome;
use crate::work::store::operations::begin_reserved;
use crate::work::store::operations::finalize_outcome;
use crate::work::store::operations::may_begin;
use crate::work::store::operations::refusal_noted;
use crate::work::store::operations::refusal_released;
use crate::work::store::operations::refuse_outcome;
use crate::work::store::operations::released_undispatched;
use crate::work::store::readings::filing_is_exact;
use crate::work::store::readings::reads_give_what_is_recorded;
use crate::work::store::readings::records_under;
use crate::work::store::reconciliation::reconcile_request;
use crate::work::store::records::listed;
use crate::work::store::records::loaded;
use crate::work::store::records::position;
use crate::work::store::records::position_in_range;
use crate::work::store::records::put;
use crate::work::store::requests::named;
use crate::work::store::requests::receipt_in_range;
use crate::work::store::requests::replayed;
use crate::work::store::results::is_result;
use crate::work::store::results::result_request;
use crate::work::store::results::review_outcome;
use crate::work::store::results::review_request;
use crate::work::store::results::submit_outcome;
use crate::work::store::rules::budgeted;
use crate::work::store::rules::fresh_operation;
use crate::work::store::rules::launchable;
use crate::work::store::rules::merged;
use crate::work::store::rules::started_attempt;
use crate::work::store::summaries::is_native;
use crate::work::store::summaries::is_open;
use crate::work::store::tables::BodyModel;
use crate::work::store::tables::FactKind;
use crate::work::store::tables::RequestKind;
use crate::work::store::tables::ReservedFactModel;
use crate::work::store::tables::StoreModel;
use crate::work::store::tasks::create_request;
use crate::work::store::tasks::pause_outcome;
use crate::work::store::tasks::pause_request;
use crate::work::store::uploads::upload_request;

verus! {

/// Filing a change of a recorded task fails for want of room alone.
proof fn changing_fails_for_room(
    s: StoreModel,
    task: TaskModel,
    kind: Text,
    entity: Text,
    now: i64,
)
    requires
        well_formed(s),
        loaded::<Task>(s, task.session_id, task.id) is Ok,
    ensures
        changed(s, task, kind, entity, now) matches Err(error) ==> error.0
            == FailureCode::StorageUnavailable && (task.revision >= 0x7fff_ffff_ffff_ffff
            || s.last_cursor >= 0x7fff_ffff_ffff_ffff),
{
    let next = revised(task, now);
    let body = BodyModel::Task(next);
    put_lands(s, next.session_id, next.id, next.id, body);
    position_in_range(s.records, task.id);
    filing_is_exact(s, next.session_id, next.id, next.id, body);
    let i = position(s.records, task.id)->0;
    assert(s.records[i].id == task.id);
}

/// How many attempts of a role hold their places.
pub open spec fn held_places(attempts: Seq<AttemptModel>, role: AttemptRole) -> nat {
    attempts.filter(
        |a: AttemptModel| a.role == role && a.lifecycle.reservation == Reservation::Reserved,
    ).len()
}

proof fn workers_are_counted(attempts: Seq<AttemptModel>)
    ensures
        worker_count(attempts) == held_places(attempts, AttemptRole::Worker),
    decreases attempts.len(),
{
    reveal(Seq::filter);
    if attempts.len() > 0 {
        workers_are_counted(attempts.drop_last());
    }
}

/// A task has a place for a lead exactly where no lead holds one, and for a worker exactly where a
/// lead that runs in a known process holds one and fewer workers do than the policy allows.
pub proof fn places_are_given_exactly(
    attempts: Seq<AttemptModel>,
    role: AttemptRole,
    max_workers: u32,
)
    ensures
        ({
            let led = exists|i: int|
                0 <= i < attempts.len() && (#[trigger] attempts[i]).role == AttemptRole::Lead
                    && attempts[i].lifecycle.reservation == Reservation::Reserved;
            let bound = exists|i: int|
                0 <= i < attempts.len() && (#[trigger] attempts[i]).role == AttemptRole::Lead
                    && attempts[i].lifecycle.reservation == Reservation::Reserved
                    && attempts[i].binding.instance_id is Some;
            let res = role_admitted(attempts, role, max_workers);
            &&& role == AttemptRole::Lead ==> (res is Ok <==> !led)
            &&& role == AttemptRole::Worker ==> (res is Ok <==> bound && held_places(
                attempts,
                AttemptRole::Worker,
            ) < max_workers)
            &&& res matches Err(error) ==> error.0 == (if role == AttemptRole::Worker && !bound {
                FailureCode::NotReady
            } else {
                FailureCode::ResourceLimit
            })
        }),
{
    workers_are_counted(attempts);
    if has_lead(attempts) {
        let i = choose|i: int| 0 <= i < attempts.len() && is_lead(#[trigger] attempts[i]);
        assert(attempts[i].role == AttemptRole::Lead);
    }
    if has_bound_lead(attempts) {
        let i = choose|i: int| 0 <= i < attempts.len() && is_bound_lead(#[trigger] attempts[i]);
        assert(attempts[i].role == AttemptRole::Lead);
    }
    assert forall|i: int|
        0 <= i < attempts.len() && (#[trigger] attempts[i]).role == AttemptRole::Lead
            && attempts[i].lifecycle.reservation == Reservation::Reserved implies has_lead(
        attempts,
    ) by {
        assert(is_lead(attempts[i]));
    }
    assert forall|i: int|
        0 <= i < attempts.len() && (#[trigger] attempts[i]).role == AttemptRole::Lead
            && attempts[i].lifecycle.reservation == Reservation::Reserved
            && attempts[i].binding.instance_id is Some implies has_bound_lead(attempts) by {
        assert(is_bound_lead(attempts[i]));
    }
}

/// An attempt may be started exactly where its task is recorded and stands at the revision that
/// the caller knows, a coordinator governs it, launches are open, its prerequisites are met, its
/// policy names the agent, and there is room and a place for it.
pub proof fn starts_are_admitted_exactly(
    s: StoreModel,
    d: StartModel,
    fence: Option<DelegationFenceModel>,
)
    requires
        well_formed(s),
    ensures
        ({
            let res = start_admitted(s, d, fence);
            let task = loaded::<Task>(s, d.session, d.task_id)->Ok_0;
            let attempts = listed::<Attempt>(s.records, d.session, d.task_id);
            let governed = fence is None || governs(s, d.session, fence->0, task) is Ok;
            let open = launchable(s, d.session, task, Seq::empty());
            let ready = inspected(s, d.session, task);
            let known = loaded::<Task>(s, d.session, d.task_id) is Ok;
            let current = task.revision == d.expected_revision;
            &&& res is Ok <==> known && current && governed && open is Ok && (ready matches Ok((how, _))
                && how == DependencyReadiness::Ready) && task.policy.allowed_agents.contains(
                d.input.agent_kind,
            ) && budgeted(s, task, d.input.role) is Ok && role_admitted(
                attempts,
                d.input.role,
                task.policy.max_workers,
            ) is Ok
            &&& res matches Ok((found, snapshot)) ==> found == task && snapshot == ready->Ok_0.1
            &&& res matches Err(error) ==> {
                &&& !known ==> error.0 == FailureCode::NotFound
                &&& known && !current ==> error.0 == FailureCode::RevisionConflict
                &&& known && current && governed && open is Err ==> error == open->Err_0
                &&& known && current && governed && open is Ok ==> (ready matches Ok((how, _)) ==> (how
                    != DependencyReadiness::Ready ==> error.0 == FailureCode::NotReady))
            }
        }),
{
    reads_give_what_is_recorded(s, d.session, d.task_id);
    tasks_stand(s, d.session, d.task_id);
}

/// A start is refused only for a reason: the agent or the digest is no admissible text, its key is
/// taken or unfit, it may not be started, or there is no room to record it.
pub proof fn refused_starts_have_reasons(
    s: StoreModel,
    attempt_id: Text,
    op_id: Text,
    fact_id: Text,
    d: StartModel,
    fence: Option<DelegationFenceModel>,
    now: i64,
)
    requires
        well_formed(s),
        unused(s, attempt_id),
        unused(s, op_id),
        unused(s, fact_id),
        attempt_id != op_id,
        attempt_id != fact_id,
        op_id != fact_id,
    ensures
        start_outcome(s, attempt_id, op_id, fact_id, d, fence, now) matches Err(error) ==> {
            let kind = RequestKind::Work(OperationKind::StartAttempt);
            ||| error.0 == FailureCode::InvalidInput && (!is_said(d.input.agent_kind) || byte_len(
                d.input.agent_kind,
            ) > 64 || !is_said(d.digest) || byte_len(d.digest) > 128)
            ||| error.0 == FailureCode::InvalidInput && !named(d.actor, d.session, d.key)
            ||| !new_key(s, d.actor, d.session, kind, d.key)
            ||| start_admitted(s, d, fence) matches Err(other) && other == error
            ||| error.0 == FailureCode::ResourceLimit || error.0 == FailureCode::StorageUnavailable
        },
{
    let request = start_request(d, fence);
    keys_stand_for_requests::<Operation>(s, request);
    let outcome = start_outcome(s, attempt_id, op_id, fact_id, d, fence, now);
    if outcome is Err && replayed::<Operation>(s, request) == Ok::<
        Option<OperationModel>,
        WorkError,
    >(None) && start_admitted(s, d, fence) is Ok {
        let (task, snapshot) = start_admitted(s, d, fence)->Ok_0;
        let attempt = fresh_attempt(attempt_id, d.task_id, d.input, now);
        let op = OperationModel {
            delegation_fence: fence,
            dependency_snapshot: snapshot,
            ..fresh_operation(
                op_id,
                d.task_id,
                Some(attempt_id),
                OperationKind::StartAttempt,
                now,
            )
        };
        tasks_stand(s, d.session, d.task_id);
        position_in_range(s.records, d.task_id);
        places_are_given_exactly(
            listed::<Attempt>(s.records, d.session, d.task_id),
            d.input.role,
            task.policy.max_workers,
        );
        starting_rows_grow(s, fact_id, d.session, task, attempt, op, now);
    }
}

proof fn starting_rows_grow(
    s: StoreModel,
    fact_id: Text,
    session: Text,
    task: TaskModel,
    attempt: AttemptModel,
    op: OperationModel,
    now: i64,
)
    requires
        loaded::<Task>(s, session, task.id) == Ok::<TaskModel, WorkError>(task),
        task.session_id == session,
        attempt.id != task.id,
        op.id != task.id,
        fact_id != task.id,
    ensures
        start_recorded(s, fact_id, session, task, attempt, op, now) matches Err(error) ==> error.0
            == FailureCode::ResourceLimit || error.0 == FailureCode::StorageUnavailable,
{
    position_in_range(s.records, task.id);
    put_fails_for_room(s, session, attempt.id, attempt.task_id, BodyModel::Attempt(attempt));
    put_lands(s, session, attempt.id, attempt.task_id, BodyModel::Attempt(attempt));
    if let Ok(held) = put(s, session, attempt.id, attempt.task_id, BodyModel::Attempt(attempt)) {
        assert(same_place(s, held, task.id));
        put_fails_for_room(held, session, op.id, op.task_id, BodyModel::Operation(op));
        put_lands(held, session, op.id, op.task_id, BodyModel::Operation(op));
        if let Ok(filed) = put(held, session, op.id, op.task_id, BodyModel::Operation(op)) {
            assert(same_place(held, filed, task.id));
            let body = BodyModel::Reserved(
                ReservedFactModel { purpose: FactKind::StartRefusal, operation_id: op.id },
            );
            put_fails_for_room(filed, session, fact_id, op.task_id, body);
            reserve_lands(filed, session, op, FactKind::StartRefusal, fact_id);
            if let Ok(kept) = fact_reserved(filed, session, op, FactKind::StartRefusal, fact_id) {
                assert(same_place(filed, kept, task.id));
                change_fails_for_room(kept, task, "attempt_prepared"@, op.id, now);
            }
        }
    }
}

proof fn put_fails_for_room(s: StoreModel, session: Text, id: Text, task: Text, body: BodyModel)
    ensures
        put(
            s,
            session,
            id,
            task,
            body,
        ) matches Err(error) ==> error.0 == FailureCode::ResourceLimit,
{
}

proof fn change_fails_for_room(
    s: StoreModel,
    task: TaskModel,
    kind: Text,
    entity: Text,
    now: i64,
)
    requires
        loaded::<Task>(s, task.session_id, task.id) is Ok,
    ensures
        changed(s, task, kind, entity, now) matches Err(error) ==> error.0
            == FailureCode::StorageUnavailable || error.0 == FailureCode::ResourceLimit,
{
    let next = revised(task, now);
    put_lands(s, next.session_id, next.id, next.id, BodyModel::Task(next));
    put_fails_for_room(s, next.session_id, next.id, next.id, BodyModel::Task(next));
    position_in_range(s.records, task.id);
}

/// A prompt may be recorded exactly where its task is recorded and stands at the revision that the
/// caller knows, the attempt belongs to it, holds its place and runs as the instance that the
/// caller knows, a coordinator governs the task, and no start, prompt or interrupt of the attempt
/// is open.
pub proof fn prompts_are_admitted_exactly(
    s: StoreModel,
    d: DeliveryModel,
    fence: Option<DelegationFenceModel>,
)
    requires
        well_formed(s),
    ensures
        ({
            let res = delivery_admitted(s, d, fence);
            let task = loaded::<Task>(s, d.session, d.task_id);
            let attempt = loaded::<Attempt>(s, d.session, d.attempt_id);
            let known = task is Ok && attempt is Ok;
            let current = task->Ok_0.revision == d.expected_revision;
            let governed = fence is None || governs(s, d.session, fence->0, task->Ok_0) is Ok;
            let own = attempt->Ok_0.task_id == d.task_id;
            let same = attempt->Ok_0.lifecycle.reservation == Reservation::Reserved
                && attempt->Ok_0.binding.instance_id == Some(d.expected_instance);
            let all = listed::<Operation>(s.records, d.session, d.task_id);
            let busy = exists|i: int|
                0 <= i < all.len() && (#[trigger] all[i]).attempt_id == Some(d.attempt_id) && (
                all[i].kind == OperationKind::StartAttempt || all[i].kind
                    == OperationKind::DeliverPrompt || all[i].kind
                    == OperationKind::InterruptAttempt) && (all[i].state == OperationState::Prepared
                    || all[i].state == OperationState::Submitting || all[i].state
                    == OperationState::Unconfirmed);
            &&& res is Ok <==> known && current && governed && own && same && !busy
            &&& res matches Ok((t, a)) ==> t == task->Ok_0 && a == attempt->Ok_0
            &&& res matches Err(error) ==> {
                &&& task is Err ==> error.0 == FailureCode::NotFound
                &&& task is Ok && !current ==> error.0 == FailureCode::RevisionConflict
                &&& known && current && governed && !own ==> error.0 == FailureCode::ScopeMismatch
                &&& known && current && governed && own && !same ==> error.0
                    == FailureCode::InstanceChanged
                &&& known && current && governed && own && same ==> error.0 == FailureCode::NotReady
            }
        }),
{
    reads_give_what_is_recorded(s, d.session, d.task_id);
    let all = listed::<Operation>(s.records, d.session, d.task_id);
    if any_pending(all, d.attempt_id) {
        let i = choose|i: int| 0 <= i < all.len() && pending_on(#[trigger] all[i], d.attempt_id);
        assert(all[i].attempt_id == Some(d.attempt_id));
    }
    assert forall|i: int|
        0 <= i < all.len() && (#[trigger] all[i]).attempt_id == Some(d.attempt_id) && is_native(
            all[i].kind,
        ) && is_open(all[i].state) implies any_pending(all, d.attempt_id) by {
        assert(pending_on(all[i], d.attempt_id));
    }
}

/// The inputs of a prompt are those that may be named, and where the sender promised some, exactly
/// those.
pub proof fn promised_inputs_are_kept(
    s: StoreModel,
    d: DeliveryModel,
    promise: Option<PromiseModel>,
    fence: Option<DelegationFenceModel>,
    task: TaskModel,
    now: i64,
)
    ensures
        ({
            let res = delivery_inputs(s, d, promise, fence, task, now);
            let found = if fence is Some {
                child_inputs(s, d.actor, d.session, fence->0, task, d.input_refs, now)
            } else {
                resolved(
                    s,
                    d.actor,
                    d.session,
                    task.repo_path,
                    Some(d.task_id),
                    d.input_refs,
                    now,
                )
            };
            match found {
                Err(error) => res matches Err(other) && other == error,
                Ok(inputs) => if promise is None || promise->0.expected_inputs == inputs {
                    res == Ok::<Seq<FrozenInputRefModel>, WorkError>(inputs)
                } else {
                    res matches Err(error) && error.0 == FailureCode::ArtifactChanged
                },
            }
        }),
{
}

/// The texts of a prompt are admissible exactly where the prompt has up to 65536 bytes, the
/// instance up to 512, and a version, if there is one, up to 64, none blank or with a NUL.
pub proof fn prompt_texts_have_bounds(d: DeliveryModel)
    ensures
        delivery_texts(d) <==> {
            &&& is_said(d.text) && byte_len(d.text) <= 65536
            &&& is_said(d.expected_instance) && byte_len(d.expected_instance) <= 512
            &&& d.instruction_version matches Some(version) ==> is_said(version) && byte_len(version)
                <= 64
        },
{
}

/// What a child may be given: what it was given when it was created, with a use that covers what
/// is asked, by a coordinator that governs it.
pub proof fn children_are_given_what_they_have(
    s: StoreModel,
    actor: Text,
    session: Text,
    fence: DelegationFenceModel,
    child: TaskModel,
    refs: Seq<InputRefModel>,
    now: i64,
)
    ensures
        ({
            let res = child_inputs(s, actor, session, fence, child, refs, now);
            let covered = forall|i: int|
                0 <= i < refs.len() ==> (reference_to(
                    child.input_refs,
                    (#[trigger] refs[i]).input_id,
                ) matches Some(own) && (refs[i].use_ == InputUse::MayInclude ==> own.use_
                    == InputUse::MayInclude));
            &&& governs(s, session, fence, child) is Ok && covered ==> res == resolved(
                s,
                actor,
                session,
                child.repo_path,
                Some(child.id),
                refs,
                now,
            )
            &&& governs(s, session, fence, child) is Ok && !covered ==> (res matches Err(error)
                && error.0 == FailureCode::ScopeMismatch)
            &&& governs(s, session, fence, child) is Err ==> res is Err
        }),
{
    let covered = forall|i: int|
        0 <= i < refs.len() ==> (reference_to(child.input_refs, (#[trigger] refs[i]).input_id) matches Some(
            own,
        ) && (refs[i].use_ == InputUse::MayInclude ==> own.use_ == InputUse::MayInclude));
    if permitted(child, refs) {
        assert forall|i: int| 0 <= i < refs.len() implies (reference_to(
            child.input_refs,
            (#[trigger] refs[i]).input_id,
        ) matches Some(own) && (refs[i].use_ == InputUse::MayInclude ==> own.use_
            == InputUse::MayInclude)) by {
            let id = refs[i].input_id;
        }
    }
    if covered {
        assert forall|i: int| 0 <= i < refs.len() implies match reference_to(
            child.input_refs,
            #[trigger] refs[i].input_id,
        ) {
            Some(initial) => covers(initial.use_, refs[i].use_),
            None => false,
        } by {
            let reference = refs[i];
        }
    }
}

/// An interrupt may be recorded exactly where its task is recorded and stands at the revision that
/// the caller knows, the attempt belongs to it, holds its place and runs, confirmed, as the caller
/// knows, and no other interrupt of it is open.
pub proof fn interrupts_are_admitted_exactly(
    s: StoreModel,
    id: Text,
    session: Text,
    task_id: Text,
    attempt_id: Text,
    input: InterruptInputModel,
    now: i64,
)
    requires
        well_formed(s),
        is_native_identity(input.expected_instance_id),
        is_native_identity(input.expected_native_owner_epoch),
    ensures
        ({
            let res = interrupt_admitted(s, id, session, task_id, attempt_id, input, now);
            let task = loaded::<Task>(s, session, task_id);
            let attempt = loaded::<Attempt>(s, session, attempt_id);
            let known = task is Ok && attempt is Ok;
            let current = task->Ok_0.revision == input.expected_revision;
            let own = attempt->Ok_0.task_id == task_id;
            let held = attempt->Ok_0.lifecycle.reservation == Reservation::Reserved;
            let same = attempt->Ok_0.binding.instance_id == Some(input.expected_instance_id)
                && attempt->Ok_0.lifecycle.native_owner_epoch == Some(
                input.expected_native_owner_epoch,
            ) && attempt->Ok_0.lifecycle.launch_phase == LaunchPhase::LaunchConfirmed;
            let all = listed::<Operation>(s.records, session, task_id);
            let busy = exists|i: int|
                0 <= i < all.len() && (#[trigger] all[i]).attempt_id == Some(attempt_id)
                    && all[i].kind == OperationKind::InterruptAttempt && (all[i].state
                    == OperationState::Prepared || all[i].state == OperationState::Submitting
                    || all[i].state == OperationState::Unconfirmed);
            &&& res is Ok <==> known && current && own && held && same && !busy
            &&& res matches Ok((t, op)) ==> t == task->Ok_0
            &&& res matches Err(error) ==> {
                &&& !known && (task is Err || current) ==> error.0 == FailureCode::NotFound
                &&& task is Ok && !current ==> error.0 == FailureCode::RevisionConflict
                &&& known && current && own && held && !same ==> error.0
                    == FailureCode::InstanceChanged
                &&& known && current && own && held && same ==> error.0 == FailureCode::NotReady
            }
        }),
{
    reads_give_what_is_recorded(s, session, task_id);
    reads_give_what_is_recorded(s, session, attempt_id);
    let all = listed::<Operation>(s.records, session, task_id);
    if any_interrupt(all, attempt_id) {
        let i = choose|i: int| 0 <= i < all.len() && interrupting(#[trigger] all[i], attempt_id);
        assert(all[i].attempt_id == Some(attempt_id));
    }
    assert forall|i: int|
        0 <= i < all.len() && (#[trigger] all[i]).attempt_id == Some(attempt_id) && all[i].kind
            == OperationKind::InterruptAttempt && is_open(all[i].state) implies any_interrupt(
        all,
        attempt_id,
    ) by {
        assert(interrupting(all[i], attempt_id));
    }
}

/// An operation may go out exactly where its coordinator, if it has one, still governs its task,
/// and the attempt that it reaches for holds its place; an interrupt also has to find the process
/// that it means.
pub proof fn operations_go_out_exactly(s: StoreModel, session: Text, op: OperationModel)
    ensures
        ({
            let res = may_begin(s, session, op);
            let governed = op.delegation_fence is None || governs_id(
                s,
                session,
                op.delegation_fence->0,
                op.task_id,
            ) is Ok;
            let reaches = op.kind == OperationKind::StartAttempt || op.kind
                == OperationKind::DeliverPrompt || op.kind == OperationKind::InterruptAttempt;
            let held = op.attempt_id matches Some(id) && (loaded::<Attempt>(s, session, id) matches Ok(
                attempt,
            ) && attempt.lifecycle.reservation == Reservation::Reserved);
            let found = op.attempt_id matches Some(id) && (loaded::<Attempt>(s, session, id) matches Ok(
                attempt,
            ) && attempt.task_id == op.task_id && attempt.lifecycle.launch_phase
                == LaunchPhase::LaunchConfirmed && op.resources.instance_id is Some
                && op.interruption_owner_epoch is Some && attempt.binding.instance_id
                == op.resources.instance_id && attempt.lifecycle.native_owner_epoch
                == op.interruption_owner_epoch && is_native_identity(op.resources.instance_id->0)
                && is_native_identity(op.interruption_owner_epoch->0));
            &&& res is Ok <==> governed && (reaches ==> held) && (op.kind
                == OperationKind::InterruptAttempt ==> found)
            &&& res matches Err(error) ==> (governed && reaches && !held && (op.attempt_id matches Some(
                id,
            ) && loaded::<Attempt>(s, session, id) is Ok) ==> error.0 == FailureCode::NotReady)
        }),
{
}

/// A result is admissible exactly where its summary has up to 16384 bytes and it names up to 32
/// files and up to 32 texts of evidence of up to 4096 bytes each; none blank or with a NUL. A file
/// is named by a path of up to 4096 bytes, a digest of 64 hexadecimal digits, and a size of up to
/// 50 MiB.
pub proof fn results_have_bounds(input: ResultInputModel)
    ensures
        is_result(input) <==> {
            &&& is_said(input.summary) && byte_len(input.summary) <= 16384
            &&& input.artifacts.len() <= 32
            &&& input.evidence.len() <= 32
            &&& forall|i: int|
                0 <= i < input.evidence.len() ==> is_said(#[trigger] input.evidence[i]) && byte_len(
                    input.evidence[i],
                ) <= 4096
            &&& forall|i: int|
                0 <= i < input.artifacts.len() ==> is_said((#[trigger] input.artifacts[i]).path)
                    && byte_len(input.artifacts[i].path) <= 4096
                    && is_hex_digest(input.artifacts[i].sha256) && input.artifacts[i].size_bytes
                    <= 52_428_800
        },
{
}

/// A result or a review is refused only for a reason: its words, its key, a task that is not there
/// or has moved on, an attempt or a result that is not there or another task's, or want of room.
pub proof fn refused_results_have_reasons(
    s: StoreModel,
    id: Text,
    actor: Text,
    session: Text,
    task_id: Text,
    key: Text,
    expected_revision: u64,
    input: ResultInputModel,
    review: ReviewInputModel,
    now: i64,
)
    requires
        well_formed(s),
        unused(s, id),
    ensures
        submit_outcome(
            s,
            id,
            actor,
            session,
            task_id,
            key,
            expected_revision,
            input,
            now,
        ) matches Err(
            error,
        ) ==> {
            let kind = RequestKind::Work(OperationKind::SubmitResult);
            let task = loaded::<Task>(s, session, task_id);
            let attempt = loaded::<Attempt>(s, session, input.attempt_id);
            ||| error.0 == FailureCode::InvalidInput && (!is_result(input) || !named(
                actor,
                session,
                key,
            ))
            ||| !new_key(s, actor, session, kind, key)
            ||| error.0 == FailureCode::NotFound && (task is Err || attempt is Err)
            ||| error.0 == FailureCode::RevisionConflict && task is Ok && task->Ok_0.revision
                != expected_revision
            ||| error.0 == FailureCode::ScopeMismatch && attempt is Ok && attempt->Ok_0.task_id
                != task_id
            ||| error.0 == FailureCode::ResourceLimit && records_under(s, session, task_id) >= 1024
            ||| error.0 == FailureCode::StorageUnavailable && (expected_revision
                >= 0x7fff_ffff_ffff_ffff || s.last_cursor >= 0x7fff_ffff_ffff_ffff)
        },
        review_outcome(
            s,
            id,
            actor,
            session,
            task_id,
            key,
            expected_revision,
            review,
            now,
        ) matches Err(
            error,
        ) ==> {
            let kind = RequestKind::Work(OperationKind::ReviewResult);
            let task = loaded::<Task>(s, session, task_id);
            let result = loaded::<ResultSubmission>(s, session, review.submission_id);
            ||| error.0 == FailureCode::InvalidInput && ((review.message matches Some(message) && (
            !is_said(message) || byte_len(message) > 16384)) || !named(actor, session, key))
            ||| !new_key(s, actor, session, kind, key)
            ||| error.0 == FailureCode::NotFound && (task is Err || result is Err)
            ||| error.0 == FailureCode::RevisionConflict && task is Ok && task->Ok_0.revision
                != expected_revision
            ||| error.0 == FailureCode::ScopeMismatch && result is Ok && result->Ok_0.task_id
                != task_id
            ||| error.0 == FailureCode::ResourceLimit && records_under(s, session, task_id) >= 1024
            ||| error.0 == FailureCode::StorageUnavailable && (expected_revision
                >= 0x7fff_ffff_ffff_ffff || s.last_cursor >= 0x7fff_ffff_ffff_ffff)
        },
{
    keys_stand_for_requests::<ResultSubmission>(
        s,
        result_request(actor, session, task_id, key, expected_revision, input),
    );
    keys_stand_for_requests::<Review>(
        s,
        review_request(actor, session, task_id, key, expected_revision, review),
    );
    reads_give_what_is_recorded(s, session, task_id);
    reads_give_what_is_recorded(s, session, input.attempt_id);
    reads_give_what_is_recorded(s, session, review.submission_id);
    tasks_stand(s, session, task_id);
    position_in_range(s.records, task_id);
    if let Ok(task) = loaded::<Task>(s, session, task_id) {
        let result = BodyModel::Result(
            ResultSubmissionModel { id, task_id, result: input, created_at_ms: now },
        );
        let verdict = BodyModel::Review(
            ReviewModel { id, task_id, actor_id: actor, review, created_at_ms: now },
        );
        filing_is_exact(s, session, id, task_id, result);
        filing_is_exact(s, session, id, task_id, verdict);
        put_lands(s, session, id, task_id, result);
        put_lands(s, session, id, task_id, verdict);
        putting_grows(s, session, id, task_id, result);
        putting_grows(s, session, id, task_id, verdict);
        if let Ok(filed) = put(s, session, id, task_id, result) {
            assert(same_place(s, filed, task_id));
            changing_fails_for_room(filed, task, "result_submitted"@, id, now);
        }
        if let Ok(filed) = put(s, session, id, task_id, verdict) {
            assert(same_place(s, filed, task_id));
            changing_fails_for_room(filed, task, "result_reviewed"@, id, now);
        }
    }
}

/// Pausing is refused only for a reason: its key, a task that is not there or has moved on, or
/// want of room. So is configuring delegation, where its policy has more than 64 children or more
/// than one level, or may not be enabled.
pub proof fn refused_settings_have_reasons(
    s: StoreModel,
    id: Text,
    actor: Text,
    session: Text,
    task_id: Text,
    key: Text,
    expected_revision: u64,
    pause: PauseInputModel,
    input: DelegationConfigModel,
    now: i64,
)
    requires
        well_formed(s),
        unused(s, id),
    ensures
        pause_outcome(
            s,
            id,
            actor,
            session,
            task_id,
            key,
            expected_revision,
            pause,
            now,
        ) matches Err(
            error,
        ) ==> {
            let kind = RequestKind::Work(OperationKind::PauseTask);
            let task = loaded::<Task>(s, session, task_id);
            ||| error.0 == FailureCode::InvalidInput && !named(actor, session, key)
            ||| !new_key(s, actor, session, kind, key)
            ||| error.0 == FailureCode::NotFound && task is Err
            ||| error.0 == FailureCode::RevisionConflict && task is Ok && task->Ok_0.revision
                != expected_revision
            ||| error.0 == FailureCode::ResourceLimit && records_under(s, session, task_id) >= 1024
            ||| error.0 == FailureCode::StorageUnavailable && (expected_revision
                >= 0x7fff_ffff_ffff_ffff || s.last_cursor >= 0x7fff_ffff_ffff_ffff)
        },
        configure_outcome(
            s,
            actor,
            session,
            task_id,
            key,
            expected_revision,
            input,
            now,
        ) matches Err(
            error,
        ) ==> {
            let kind = RequestKind::Work(OperationKind::ConfigureDelegation);
            let task = loaded::<Task>(s, session, task_id);
            ||| error.0 == FailureCode::InvalidInput && (input.policy.max_children > 64
                || input.policy.max_depth > 1 || !named(actor, session, key))
            ||| !new_key(s, actor, session, kind, key)
            ||| error.0 == FailureCode::NotFound && task is Err
            ||| error.0 == FailureCode::RevisionConflict && task is Ok && task->Ok_0.revision
                != expected_revision
            ||| input.policy.enabled && (may_enable(
                s,
                session,
                task->Ok_0,
                task_id,
                input.coordinator_attempt_id,
            ) matches Err(other) && other == error)
            ||| error.0 == FailureCode::InvalidInput && task is Ok
                && task->Ok_0.delegation.coordinator_epoch == u64::MAX
            ||| error.0 == FailureCode::StorageUnavailable && (expected_revision
                >= 0x7fff_ffff_ffff_ffff || s.last_cursor >= 0x7fff_ffff_ffff_ffff)
        },
        configure_outcome(s, actor, session, task_id, key, expected_revision, input, now) is Ok
            ==> input.policy.max_children <= 64 && input.policy.max_depth <= 1,
{
    keys_stand_for_requests::<Task>(
        s,
        pause_request(actor, session, task_id, key, expected_revision, pause),
    );
    keys_stand_for_requests::<Task>(
        s,
        configure_request(actor, session, task_id, key, expected_revision, input),
    );
    reads_give_what_is_recorded(s, session, task_id);
    tasks_stand(s, session, task_id);
    position_in_range(s.records, task_id);
    if let Ok(task) = loaded::<Task>(s, session, task_id) {
        let op = BodyModel::Operation(
            OperationModel {
                state: OperationState::Acknowledged,
                ..fresh_operation(id, task_id, None, OperationKind::PauseTask, now)
            },
        );
        filing_is_exact(s, session, id, task_id, op);
        put_lands(s, session, id, task_id, op);
        putting_grows(s, session, id, task_id, op);
        let paused = TaskModel { paused: pause.paused, ..task };
        if let Ok(filed) = put(s, session, id, task_id, op) {
            assert(same_place(s, filed, task_id));
            changing_fails_for_room(filed, paused, "delegation_policy_changed"@, id, now);
        }
        if task.delegation.coordinator_epoch < u64::MAX {
            let set = TaskModel {
                delegation: DelegationStateModel {
                    policy: input.policy,
                    coordinator_attempt_id: input.coordinator_attempt_id,
                    coordinator_epoch: (task.delegation.coordinator_epoch + 1) as u64,
                },
                ..task
            };
            changing_fails_for_room(s, set, "delegation_configured"@, task_id, now);
        }
    }
}

/// Whether a code says that a store has no room for what is to be recorded.
pub open spec fn is_want_of_room(code: FailureCode) -> bool {
    code == FailureCode::ResourceLimit || code == FailureCode::StorageUnavailable
}

/// The attempt of a start is found exactly where the operation is a start, names it, and both
/// belong to one task.
pub proof fn started_attempts_are_found_exactly(s: StoreModel, session: Text, op: OperationModel)
    requires
        well_formed(s),
    ensures
        ({
            let res = started_attempt(s, session, op);
            let is_start = op.kind == OperationKind::StartAttempt && op.attempt_id is Some;
            let attempt = loaded::<Attempt>(s, session, op.attempt_id->0);
            &&& res is Ok <==> is_start && attempt is Ok && attempt->Ok_0.task_id == op.task_id
            &&& res is Ok ==> res == attempt
            &&& res matches Err(error) ==> error.0 == (if !is_start {
                FailureCode::InvalidInput
            } else if attempt is Err {
                FailureCode::NotFound
            } else {
                FailureCode::ScopeMismatch
            })
        }),
{
    if let Some(id) = op.attempt_id {
        reads_give_what_is_recorded(s, session, id);
    }
}

/// A dispatch is refused only for a reason: the operation is not there or not meant, it is no
/// start of an attempt of its task, it is not under way, its attempt gave its place back or was
/// dispatched before, its task may not be launched now, or there is no room.
pub proof fn refused_dispatches_have_reasons(
    s: StoreModel,
    fact_id: Text,
    session: Text,
    operation_id: Text,
    target: Option<OperationTargetModel>,
    now: i64,
)
    requires
        well_formed(s),
    ensures
        dispatch_outcome(s, fact_id, session, operation_id, target, now) matches Err(error) ==> {
            let op = loaded::<Operation>(s, session, operation_id);
            let attempt = started_attempt(s, session, op->Ok_0);
            let task = loaded::<Task>(s, session, op->Ok_0.task_id);
            ||| error.0 == FailureCode::NotFound
            ||| target matches Some(meant) && (targeted(s, session, op->Ok_0, meant) matches Err(
                other,
            ) && other == error)
            ||| attempt matches Err(other) && other == error
            ||| error.0 == FailureCode::RevisionConflict && (op->Ok_0.state
                != OperationState::Submitting || attempt->Ok_0.lifecycle.reservation
                == Reservation::Released || attempt->Ok_0.lifecycle.launch_phase
                != LaunchPhase::NotDispatched)
            ||| op->Ok_0.delegation_fence matches Some(fence) && (governs(
                s,
                session,
                fence,
                task->Ok_0,
            ) matches Err(other) && other == error)
            ||| launchable(
                s,
                session,
                task->Ok_0,
                Seq::empty(),
            ) matches Err(other) && other == error
            ||| inspected(s, session, task->Ok_0) matches Err(other) && other == error
            ||| error.0 == FailureCode::NotReady && (inspected(s, session, task->Ok_0) matches Ok(
                (how, _),
            ) && how != DependencyReadiness::Ready)
            ||| is_want_of_room(error.0)
        },
{
    let op = loaded::<Operation>(s, session, operation_id);
    reads_give_what_is_recorded(s, session, operation_id);
    if op is Ok {
        let task_id = op->Ok_0.task_id;
        reads_give_what_is_recorded(s, session, task_id);
        tasks_stand(s, session, task_id);
        position_in_range(s.records, operation_id);
        if let Ok(attempt) = started_attempt(s, session, op->Ok_0) {
            if let Ok(snapshot) = launch_ready(s, session, op->Ok_0) {
                let next = OperationModel {
                    dependency_snapshot: snapshot,
                    updated_at_ms: now,
                    ..op->Ok_0
                };
                let body = BodyModel::Reserved(
                    ReservedFactModel {
                        purpose: FactKind::StartRefusal,
                        operation_id: next.id,
                    },
                );
                put_fails_for_room(s, session, fact_id, next.task_id, body);
                if let Ok(kept) = fact_reserved(
                    s,
                    session,
                    next,
                    FactKind::StartRefusal,
                    fact_id,
                ) {
                    let claimed_body = BodyModel::Attempt(
                        in_phase(attempt, LaunchPhase::DispatchClaimed),
                    );
                    put_fails_for_room(kept, session, attempt.id, next.task_id, claimed_body);
                    if let Ok(held) = put(kept, session, attempt.id, next.task_id, claimed_body) {
                        saving_fails(held, session, next, now);
                    }
                }
            }
        }
    }
}

proof fn saving_fails(s: StoreModel, session: Text, op: OperationModel, now: i64)
    ensures
        operation_saved(s, session, op, now) matches Err(error) ==> is_want_of_room(error.0)
            || error.0 == FailureCode::NotFound,
{
    put_fails_for_room(s, session, op.id, op.task_id, BodyModel::Operation(op));
    if let Ok(filed) = put(s, session, op.id, op.task_id, BodyModel::Operation(op)) {
        if let Ok(task) = loaded::<Task>(filed, session, op.task_id) {
            change_fails(filed, task, "operation_changed"@, op.id, now);
        }
    }
}

proof fn change_fails(s: StoreModel, task: TaskModel, kind: Text, entity: Text, now: i64)
    ensures
        changed(s, task, kind, entity, now) matches Err(error) ==> is_want_of_room(error.0)
            || error.0 == FailureCode::NotFound,
{
    let next = revised(task, now);
    put_lands(s, next.session_id, next.id, next.id, BodyModel::Task(next));
    put_fails_for_room(s, next.session_id, next.id, next.id, BodyModel::Task(next));
    position_in_range(s.records, task.id);
}

/// An operation is kept from going out only for a reason: it is not there or not meant, it was
/// begun or ended before, its task may not be launched where it starts an attempt, it may not go
/// out, or there is no room.
pub proof fn refused_beginnings_have_reasons(
    s: StoreModel,
    fact_id: Text,
    session: Text,
    operation_id: Text,
    target: Option<OperationTargetModel>,
    now: i64,
)
    requires
        well_formed(s),
    ensures
        begin_outcome(s, fact_id, session, operation_id, target, now) matches Err(error) ==> {
            let op = loaded::<Operation>(s, session, operation_id);
            let task = loaded::<Task>(s, session, op->Ok_0.task_id);
            ||| error.0 == FailureCode::NotFound
            ||| target matches Some(meant) && (targeted(s, session, op->Ok_0, meant) matches Err(
                other,
            ) && other == error)
            ||| error.0 == FailureCode::RevisionConflict && op->Ok_0.state != OperationState::Prepared
            ||| op->Ok_0.kind == OperationKind::StartAttempt && (launchable(
                s,
                session,
                task->Ok_0,
                Seq::empty(),
            ) matches Err(other) && other == error)
            ||| op->Ok_0.kind == OperationKind::ReconcileAttempt && op->Ok_0.delegation_fence is Some
            ||| op->Ok_0.kind != OperationKind::ReconcileAttempt && (may_begin(
                s,
                session,
                op->Ok_0,
            ) matches Err(other) && other == error)
            ||| is_want_of_room(error.0)
        },
{
    let op = loaded::<Operation>(s, session, operation_id);
    reads_give_what_is_recorded(s, session, operation_id);
    if op is Ok {
        reads_give_what_is_recorded(s, session, op->Ok_0.task_id);
        tasks_stand(s, session, op->Ok_0.task_id);
        let body = BodyModel::Reserved(
            ReservedFactModel {
                purpose: FactKind::Reconciliation,
                operation_id: op->Ok_0.id,
            },
        );
        put_fails_for_room(s, session, fact_id, op->Ok_0.task_id, body);
        if let Ok(kept) = begin_reserved(s, fact_id, session, op->Ok_0) {
            let begun = OperationModel {
                state: OperationState::Submitting,
                updated_at_ms: now,
                ..op->Ok_0
            };
            saving_fails(kept, session, begun, now);
        }
    }
}

/// The end of an operation is refused only for a reason: it is not there or an interrupt, it is
/// not under way or the end is none, what was made contradicts what is known or is no admissible
/// text, or there is no room. Cancelling is refused only where the operation is not merely
/// prepared, its records are missing, or there is no room.
pub proof fn refused_ends_have_reasons(
    s: StoreModel,
    session: Text,
    operation_id: Text,
    end: OperationOutcomeModel,
    code: FailureCode,
    now: i64,
)
    requires
        well_formed(s),
    ensures
        finalize_outcome(s, session, operation_id, end, now) matches Err(error) ==> {
            let op = loaded::<Operation>(s, session, operation_id);
            ||| error.0 == FailureCode::NotFound
            ||| error.0 == FailureCode::InvalidInput && op->Ok_0.kind
                == OperationKind::InterruptAttempt
            ||| error.0 == FailureCode::RevisionConflict && (op->Ok_0.state
                != OperationState::Submitting || end.state == OperationState::Prepared || end.state
                == OperationState::Submitting)
            ||| merged(op->Ok_0.resources, end.resources) matches Err(other) && other == error
            ||| op->Ok_0.attempt_id matches Some(id) && (merged(
                loaded::<Attempt>(s, session, id)->Ok_0.binding,
                merged(op->Ok_0.resources, end.resources)->Ok_0,
            ) matches Err(other) && other == error)
            ||| is_want_of_room(error.0)
        },
        refuse_outcome(s, session, operation_id, code, now) matches Err(error) ==> {
            let op = loaded::<Operation>(s, session, operation_id);
            ||| error.0 == FailureCode::NotFound
            ||| error.0 == FailureCode::RevisionConflict && op->Ok_0.state != OperationState::Prepared
            ||| op->Ok_0.kind == OperationKind::StartAttempt && error.0 != FailureCode::RevisionConflict
            ||| is_want_of_room(error.0)
        },
{
    let op = loaded::<Operation>(s, session, operation_id);
    reads_give_what_is_recorded(s, session, operation_id);
    if op is Ok {
        if let Ok(known) = merged(op->Ok_0.resources, end.resources) {
            let ended = OperationModel {
                resources: known,
                state: end.state,
                failure_code: end.failure_code,
                updated_at_ms: now,
                ..op->Ok_0
            };
            saving_fails(s, session, ended, now);
            if let Some(id) = op->Ok_0.attempt_id {
                reads_give_what_is_recorded(s, session, id);
                if let Ok(attempt) = loaded::<Attempt>(s, session, id) {
                    if let Ok(last) = attempt_ended(attempt, ended, now) {
                        let body = BodyModel::Attempt(last);
                        put_fails_for_room(s, session, id, ended.task_id, body);
                        if let Ok(held) = put(s, session, id, ended.task_id, body) {
                            saving_fails(held, session, ended, now);
                        }
                    }
                }
            }
        }
        let given_up = OperationModel {
            state: OperationState::Refused,
            failure_code: Some(code),
            updated_at_ms: now,
            ..op->Ok_0
        };
        if let Ok(noted) = refusal_noted(s, session, given_up) {
            if given_up.kind == OperationKind::StartAttempt {
                if let Ok(attempt) = started_attempt(noted, session, given_up) {
                    let body = BodyModel::Attempt(
                        released_undispatched(attempt, given_up.id, now),
                    );
                    put_fails_for_room(noted, session, attempt.id, given_up.task_id, body);
                }
            }
            if let Ok(given) = refusal_released(noted, session, given_up, now) {
                saving_fails(given, session, given_up, now);
            }
        }
    }
}

/// The digest of a request covers everything that was asked for: it is that of the JSON array of
/// its parts, in this order.
pub proof fn digests_cover_what_was_asked(
    actor: Text,
    session: Text,
    task_id: Text,
    attempt_id: Text,
    key: Text,
    revision: u64,
    d: StartModel,
    fence: Option<DelegationFenceModel>,
    pause: PauseInputModel,
    result: ResultInputModel,
    review: ReviewInputModel,
    config: DelegationConfigModel,
    dependencies: Seq<TaskDependencyModel>,
    interrupt: InterruptInputModel,
    reconcile: ReconcileInputModel,
    upload: InputUploadModel,
)
    ensures
        pause_request(actor, session, task_id, key, revision, pause).digest == of_three(
            json_string(task_id),
            u64::json(revision),
            PauseInput::json(pause),
        ),
        result_request(actor, session, task_id, key, revision, result).digest == of_three(
            json_string(task_id),
            u64::json(revision),
            ResultInput::json(result),
        ),
        review_request(actor, session, task_id, key, revision, review).digest == of_three(
            json_string(task_id),
            u64::json(revision),
            ReviewInput::json(review),
        ),
        configure_request(actor, session, task_id, key, revision, config).digest == of_three(
            json_string(task_id),
            u64::json(revision),
            DelegationConfig::json(config),
        ),
        interrupt_request(actor, session, task_id, attempt_id, interrupt).digest == of_three(
            json_string(task_id),
            json_string(attempt_id),
            InterruptInput::json(interrupt),
        ),
        reconcile_request(actor, session, task_id, attempt_id, reconcile).digest == of_three(
            json_string(task_id),
            json_string(attempt_id),
            ReconcileInput::json(reconcile),
        ),
        dependencies_request(actor, session, task_id, key, revision, dependencies, fence).digest
            == of_three(
            json_string(task_id),
            u64::json(revision),
            Vec::<TaskDependency>::json(dependencies) + seq![','] + Option::<DelegationFence>::json(
                fence,
            ),
        ),
        start_request(d, fence).digest == of_three(
            json_string(d.task_id),
            u64::json(d.expected_revision),
            NewAttempt::json(d.input) + seq![','] + json_string(d.digest) + (if fence is Some {
                seq![','] + DelegationFence::json(fence->0)
            } else {
                Seq::empty()
            }),
        ),
        upload_request(actor, session, key, upload).digest == sha256_hex(
            encode_utf8(InputUpload::json(upload)),
        ),
{
    let revision_text = u64::json(revision);
    of_three_is_payload(json_string(task_id), revision_text, PauseInput::json(pause));
    of_three_is_payload(json_string(task_id), revision_text, ResultInput::json(result));
    of_three_is_payload(json_string(task_id), revision_text, ReviewInput::json(review));
    of_three_is_payload(json_string(task_id), revision_text, DelegationConfig::json(config));
    of_three_is_payload(
        json_string(task_id),
        json_string(attempt_id),
        InterruptInput::json(interrupt),
    );
    of_three_is_payload(
        json_string(task_id),
        json_string(attempt_id),
        ReconcileInput::json(reconcile),
    );
    of_three_and_more(
        json_string(task_id),
        revision_text,
        Vec::<TaskDependency>::json(dependencies),
        Option::<DelegationFence>::json(fence),
    );
    let start_revision = u64::json(d.expected_revision);
    of_three_and_more(
        json_string(d.task_id),
        start_revision,
        NewAttempt::json(d.input),
        json_string(d.digest),
    );
    if let Some(fence) = fence {
        of_three_and_two_more(
            json_string(d.task_id),
            start_revision,
            NewAttempt::json(d.input),
            json_string(d.digest),
            DelegationFence::json(fence),
        );
    }
    assert(NewAttempt::json(d.input) + seq![','] + json_string(d.digest) + Seq::<char>::empty()
        =~= NewAttempt::json(d.input) + seq![','] + json_string(d.digest));
}

/// The digest of an array of three texts.
pub open spec fn of_three(a: Text, b: Text, c: Text) -> Text {
    sha256_hex(encode_utf8(seq!['['] + a + seq![','] + b + seq![','] + c + seq![']']))
}

proof fn of_three_is_payload(a: Text, b: Text, c: Text)
    ensures
        payload(Seq::empty().push(a).push(b).push(c)) == of_three(a, b, c),
{
    let parts = Seq::<Text>::empty().push(a).push(b).push(c);
    three_are_listed(parts, a, b, c);
    assert(array(parts) =~= seq!['['] + a + seq![','] + b + seq![','] + c + seq![']']);
}

proof fn three_are_listed(parts: Seq<Text>, a: Text, b: Text, c: Text)
    requires
        parts == Seq::<Text>::empty().push(a).push(b).push(c),
    ensures
        crate::json::listed(parts) == a + seq![','] + b + seq![','] + c,
        "["@ == seq!['['],
        "]"@ == seq![']'],
{
    reveal_strlit("[");
    reveal_strlit("]");
    reveal_strlit(",");
    assert("["@ =~= seq!['[']);
    assert("]"@ =~= seq![']']);
    assert(","@ =~= seq![',']);
    reveal_with_fuel(crate::json::listed, 4);
    let two = Seq::<Text>::empty().push(a).push(b);
    let one = Seq::<Text>::empty().push(a);
    assert(parts.drop_last() =~= two);
    assert(two.drop_last() =~= one);
    assert(one.drop_last() =~= Seq::<Text>::empty());
    assert(crate::json::listed(one) =~= a);
    assert(crate::json::listed(two) =~= a + seq![','] + b);
    assert(crate::json::listed(parts) =~= a + seq![','] + b + seq![','] + c);
}

proof fn of_three_and_more(a: Text, b: Text, c: Text, d: Text)
    ensures
        payload(Seq::empty().push(a).push(b).push(c).push(d)) == of_three(a, b, c + seq![','] + d),
{
    let parts = Seq::<Text>::empty().push(a).push(b).push(c);
    three_are_listed(parts, a, b, c);
    reveal_strlit(",");
    assert(","@ =~= seq![',']);
    assert(parts.push(d).drop_last() =~= parts);
    assert(array(parts.push(d)) =~= seq!['['] + a + seq![','] + b + seq![','] + (c + seq![','] + d)
        + seq![']']);
}

proof fn of_three_and_two_more(a: Text, b: Text, c: Text, d: Text, e: Text)
    ensures
        payload(Seq::empty().push(a).push(b).push(c).push(d).push(e)) == of_three(
            a,
            b,
            c + seq![','] + d + (seq![','] + e),
        ),
{
    let parts = Seq::<Text>::empty().push(a).push(b).push(c);
    three_are_listed(parts, a, b, c);
    reveal_strlit(",");
    assert(","@ =~= seq![',']);
    let four = parts.push(d);
    assert(four.drop_last() =~= parts);
    assert(crate::json::listed(four) =~= a + seq![','] + b + seq![','] + c + seq![','] + d);
    assert(four.push(e).drop_last() =~= four);
    assert(array(four.push(e)) =~= seq!['['] + a + seq![','] + b + seq![','] + (c + seq![','] + d + (
    seq![','] + e)) + seq![']']);
}

/// The digest of the JSON array of some texts.
pub open spec fn of_array(parts: Seq<Text>) -> Text {
    sha256_hex(encode_utf8(array(parts)))
}

/// The digest of a request to create a task covers the task, its inputs where it has some, and
/// what its coordinator knows. The digest of a prompt covers where it goes, what its sender knows,
/// its text, its instructions and its inputs; a coordinator's covers its fence too, and a promise
/// covers the inputs and the final prompt that were promised.
pub proof fn digests_of_tasks_and_prompts_cover_what_was_asked(
    actor: Text,
    session: Text,
    key: Text,
    input: CreateTaskModel,
    refs: Seq<InputRefModel>,
    context: DelegatedCreateModel,
    d: DeliveryModel,
    promise: PromiseModel,
    fence: DelegationFenceModel,
)
    ensures
        refs.len() == 0 ==> create_request(actor, session, key, input, refs, None).digest
            == sha256_hex(encode_utf8(CreateTask::json(input))),
        refs.len() > 0 ==> create_request(
            actor,
            session,
            key,
            input,
            refs,
            None,
        ).digest == of_array(
            seq![CreateTask::json(input), Vec::<InputRef>::json(refs)],
        ),
        create_request(actor, session, key, input, refs, Some(context)).digest == of_array(
            seq![
                CreateTask::json(input),
                Vec::<InputRef>::json(refs),
                DelegatedCreate::json(context),
            ],
        ),
        ({
            let where_to = seq![
                json_string(d.task_id),
                json_string(d.attempt_id),
                u64::json(d.expected_revision),
                json_string(d.expected_instance),
                json_string(d.text),
                Option::<String>::json(d.instruction_version),
            ];
            let with_inputs = of_array(where_to.push(Vec::<InputRef>::json(d.input_refs)));
            let fenced = of_array(seq![json_string(with_inputs), DelegationFence::json(fence)]);
            &&& client_digest(d, None) == with_inputs
            &&& client_digest(d, Some(fence)) == fenced
            &&& delivery_request(d, None, None).digest == of_array(where_to)
            &&& delivery_request(d, None, Some(fence)).digest == of_array(
                where_to.push(DelegationFence::json(fence)),
            )
            &&& delivery_request(d, Some(promise), None).digest == of_array(
                seq![
                    json_string(with_inputs),
                    Vec::<FrozenInputRef>::json(promise.expected_inputs),
                    json_string(promise.final_prompt_digest),
                ],
            )
            &&& delivery_request(d, Some(promise), Some(fence)).digest == of_array(
                seq![
                    json_string(fenced),
                    Vec::<FrozenInputRef>::json(promise.expected_inputs),
                    json_string(promise.final_prompt_digest),
                ],
            )
        }),
{
    let version = Option::<String>::json(d.instruction_version);
    let where_to = seq![
        json_string(d.task_id),
        json_string(d.attempt_id),
        u64::json(d.expected_revision),
        json_string(d.expected_instance),
        json_string(d.text),
        version,
    ];
    one_by_one2(CreateTask::json(input), Vec::<InputRef>::json(refs));
    one_by_one3(
        CreateTask::json(input),
        Vec::<InputRef>::json(refs),
        DelegatedCreate::json(context),
    );
    assert(where_to =~= Seq::empty()
        .push(json_string(d.task_id))
        .push(json_string(d.attempt_id))
        .push(u64::json(d.expected_revision))
        .push(json_string(d.expected_instance))
        .push(json_string(d.text))
        .push(version));
    let with_inputs = of_array(where_to.push(Vec::<InputRef>::json(d.input_refs)));
    one_by_one2(json_string(with_inputs), DelegationFence::json(fence));
    let fenced = of_array(seq![json_string(with_inputs), DelegationFence::json(fence)]);
    one_by_one3(
        json_string(with_inputs),
        Vec::<FrozenInputRef>::json(promise.expected_inputs),
        json_string(promise.final_prompt_digest),
    );
    one_by_one3(
        json_string(fenced),
        Vec::<FrozenInputRef>::json(promise.expected_inputs),
        json_string(promise.final_prompt_digest),
    );
}

proof fn one_by_one2(a: Text, b: Text)
    ensures
        Seq::empty().push(a).push(b) == seq![a, b],
{
    assert(Seq::empty().push(a).push(b) =~= seq![a, b]);
}

proof fn one_by_one3(a: Text, b: Text, c: Text)
    ensures
        Seq::empty().push(a).push(b).push(c) == seq![a, b, c],
{
    assert(Seq::empty().push(a).push(b).push(c) =~= seq![a, b, c]);
}

/// Whether a version is one that a key without a stored version may have been used with: the
/// caller's, the first that there was, or none.
pub open spec fn may_have_been(current: Option<Text>, version: Option<Text>) -> bool {
    version == current || version == Some("result-reporting-v1"@) || version is None
}

/// A key that is new is tried with the caller's version alone. One that was used is tried with the
/// version that was stored for it; only where none was stored, with every version that it may have
/// been used with, the caller's first and each once.
pub proof fn keys_are_tried_with_their_versions(
    s: StoreModel,
    actor: Text,
    session: Text,
    key: Text,
    current: Option<Text>,
)
    ensures
        new_key(s, actor, session, RequestKind::Work(OperationKind::DeliverPrompt), key)
            ==> versions(s, actor, session, key, current) == Ok::<Seq<Option<Text>>, WorkError>(
            seq![current],
        ),
        candidates(current)[0] == current,
        forall|k: int|
            0 <= k < candidates(current).len() ==> may_have_been(
                current,
                #[trigger] candidates(current)[k],
            ),
        forall|version: Option<Text>|
            may_have_been(current, version) ==> #[trigger] candidates(current).contains(version),
        forall|i: int, j: int|
            0 <= i < j < candidates(current).len() ==> candidates(current)[i] != candidates(
                current,
            )[j],
{
    receipt_in_range(
        s.receipts,
        actor,
        session,
        RequestKind::Work(OperationKind::DeliverPrompt),
        key,
    );
    let all = candidates(current);
    let legacy = Some("result-reporting-v1"@);
    assert forall|version: Option<Text>| may_have_been(
        current,
        version,
    ) implies #[trigger] all.contains(
        version,
    ) by {
        assert(all[0] == current);
        if current != legacy {
            assert(all[1] == legacy);
        }
        if current is Some {
            assert(all[all.len() - 1] is None);
        }
    }
}

} // verus!
