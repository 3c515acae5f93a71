//! What each transaction leaves behind, said of the records, the answers and the stream themselves.
use vstd::prelude::*;
use crate::text::byte_len;
use crate::text::is_said;
use crate::value::Text;
use crate::work::model::Attempt;
use crate::work::model::AttemptRole;
use crate::work::model::DelegationConfigModel;
use crate::work::model::DelegationFenceModel;
use crate::work::model::DelegationStateModel;
use crate::work::model::FailureCode;
use crate::work::model::LaunchPhase;
use crate::work::model::Operation;
use crate::work::model::OperationKind;
use crate::work::model::OperationModel;
use crate::work::model::OperationState;
use crate::work::model::PauseInputModel;
use crate::work::model::Reservation;
use crate::work::model::ResultInputModel;
use crate::work::model::ResultSubmission;
use crate::work::model::Review;
use crate::work::model::ReviewInputModel;
use crate::work::model::Task;
use crate::work::model::TaskDependencyModel;
use crate::work::model::TaskModel;
use crate::work::model::WorkError;
use crate::work::store::changes::change_page;
use crate::work::store::changes::changed;
use crate::work::store::delegation::configure_outcome;
use crate::work::store::delegation::configure_request;
use crate::work::store::delegation::dependencies_outcome;
use crate::work::store::delegation::dependencies_request;
use crate::work::store::delegation::dependency_origin_noted;
use crate::work::store::facts::fact_reserved;
use crate::work::store::freshness::tasks_stand;
use crate::work::store::growth::configuring_grows;
use crate::work::store::growth::depending_grows;
use crate::work::store::growth::pausing_grows;
use crate::work::store::growth::recorded_is_listed;
use crate::work::store::growth::reviewing_grows;
use crate::work::store::growth::submitting_grows;
use crate::work::store::history::changing_grows;
use crate::work::store::history::found_where_filed;
use crate::work::store::history::grown;
use crate::work::store::history::may_put;
use crate::work::store::history::putting_grows;
use crate::work::store::history::putting_is_local;
use crate::work::store::history::same_key;
use crate::work::store::history::unused;
use crate::work::store::history::well_formed;
use crate::work::store::readings::announcements_are_read;
use crate::work::store::readings::announces;
use crate::work::store::readings::changes_are_announced;
use crate::work::store::readings::fails;
use crate::work::store::readings::filed_as;
use crate::work::store::readings::recorded_as;
use crate::work::store::records::listed;
use crate::work::store::records::loaded;
use crate::work::store::records::position;
use crate::work::store::records::position_in_range;
use crate::work::store::records::put;
use crate::work::store::requests::RequestModel;
use crate::work::store::requests::named;
use crate::work::store::requests::receipt_at;
use crate::work::store::requests::receipt_in_range;
use crate::work::store::requests::replayed;
use crate::work::store::results::result_request;
use crate::work::store::results::review_outcome;
use crate::work::store::results::review_request;
use crate::work::store::results::submit_outcome;
use crate::work::store::rules::fresh_operation;
use crate::work::store::tables::Answer;
use crate::work::store::tables::BodyModel;
use crate::work::store::tables::DependencyOriginModel;
use crate::work::store::tables::FactKind;
use crate::work::store::tables::ReceiptBodyModel;
use crate::work::store::tables::ReceiptRowModel;
use crate::work::store::tables::RequestKind;
use crate::work::store::tables::ReservedFactModel;
use crate::work::store::tables::StoreModel;
use crate::work::store::tables::Stored;
use crate::work::store::tasks::pause_outcome;
use crate::work::store::tasks::pause_request;

verus! {

/// Whether a record stands where it stood, as it was, or there is none as before.
pub open spec fn same_place(before: StoreModel, later: StoreModel, id: Text) -> bool {
    position(later.records, id) == position(before.records, id) && (position(
        before.records,
        id,
    ) matches Some(i) ==> 0 <= i < before.records.len() && later.records[i] == before.records[i])
}

/// Whether no record but those under some identifiers was changed or added.
pub open spec fn others_stay(before: StoreModel, later: StoreModel, ids: Seq<Text>) -> bool {
    &&& before.records.len() <= later.records.len()
    &&& forall|i: int|
        0 <= i < before.records.len() && !ids.contains(before.records[i].id)
            ==> #[trigger] later.records[i] == before.records[i]
    &&& forall|i: int|
        before.records.len() <= i < later.records.len() ==> ids.contains(
            (#[trigger] later.records[i]).id,
        )
}

/// Whether the answer to a request was remembered under its key, after all others.
pub open spec fn remembered(
    before: StoreModel,
    later: StoreModel,
    actor: Text,
    session: Text,
    kind: RequestKind,
    key: Text,
    body: ReceiptBodyModel,
) -> bool {
    let n = before.receipts.len() as int;
    &&& later.receipts.len() == n + 1
    &&& later.receipts.take(n) == before.receipts
    &&& later.receipts[n].actor == actor
    &&& later.receipts[n].session == session
    &&& later.receipts[n].kind == kind
    &&& later.receipts[n].request_key == key
    &&& later.receipts[n].body == body
}

/// Whether no request of a kind was answered under a key, and one more can be remembered.
pub open spec fn new_key(
    s: StoreModel,
    actor: Text,
    session: Text,
    kind: RequestKind,
    key: Text,
) -> bool {
    &&& s.receipts.len() < 100000
    &&& forall|i: int|
        0 <= i < s.receipts.len() ==> !((#[trigger] s.receipts[i]).actor == actor
            && s.receipts[i].session == session && s.receipts[i].kind == kind
            && s.receipts[i].request_key == key)
}

/// A key under which nothing is found is new.
pub proof fn unanswered_is_new(
    receipts: Seq<ReceiptRowModel>,
    actor: Text,
    session: Text,
    kind: RequestKind,
    key: Text,
)
    requires
        receipt_at(receipts, actor, session, kind, key) is None,
    ensures
        forall|i: int|
            0 <= i < receipts.len() ==> !((#[trigger] receipts[i]).actor == actor
                && receipts[i].session == session && receipts[i].kind == kind
                && receipts[i].request_key == key),
    decreases receipts.len(),
{
    if receipts.len() > 0 {
        let rest = receipts.drop_last();
        unanswered_is_new(rest, actor, session, kind, key);
        assert forall|i: int| 0 <= i < receipts.len() implies !((#[trigger] receipts[i]).actor
            == actor && receipts[i].session == session && receipts[i].kind == kind
            && receipts[i].request_key == key) by {
            if i < rest.len() {
                assert(rest[i] == receipts[i]);
            }
        }
    }
}

/// A request is carried out where its key is new, answered again where it was answered before with
/// the same digest, and a conflict where it was answered with another. Its names have to fit.
pub proof fn keys_stand_for_requests<T: Answer>(s: StoreModel, request: RequestModel)
    requires
        well_formed(s),
    ensures
        replayed::<T>(s, request) matches Ok(None) ==> new_key(
            s,
            request.actor,
            request.session,
            request.kind,
            request.key,
        ),
        forall|i: int|
            0 <= i < s.receipts.len() && (#[trigger] s.receipts[i]).actor == request.actor
                && s.receipts[i].session == request.session && s.receipts[i].kind == request.kind
                && s.receipts[i].request_key == request.key && named(
                request.actor,
                request.session,
                request.key,
            ) ==> {
                &&& s.receipts[i].digest != request.digest ==> fails(
                    replayed::<T>(s, request),
                    FailureCode::RequestKeyConflict,
                )
                &&& s.receipts[i].digest == request.digest ==> (match T::of(s.receipts[i].body) {
                    Some(value) => replayed::<T>(s, request) == Ok::<Option<T::V>, WorkError>(
                        Some(value),
                    ),
                    None => fails(replayed::<T>(s, request), FailureCode::StorageUnavailable),
                })
            },
        new_key(s, request.actor, request.session, request.kind, request.key) && named(
            request.actor,
            request.session,
            request.key,
        ) ==> replayed::<T>(s, request) == Ok::<Option<T::V>, WorkError>(None),
        fails(replayed::<T>(s, request), FailureCode::InvalidInput) <==> !named(
            request.actor,
            request.session,
            request.key,
        ),
{
    let at = receipt_at(s.receipts, request.actor, request.session, request.kind, request.key);
    receipt_in_range(s.receipts, request.actor, request.session, request.kind, request.key);
    if at is None {
        unanswered_is_new(
            s.receipts,
            request.actor,
            request.session,
            request.kind,
            request.key,
        );
    } else {
        assert forall|i: int|
            0 <= i < s.receipts.len() && (#[trigger] s.receipts[i]).actor == request.actor
                && s.receipts[i].session == request.session && s.receipts[i].kind == request.kind
                && s.receipts[i].request_key == request.key implies at == Some(i) by {
            let j = at->0;
            if i < j {
                assert(!same_key(s.receipts[i], s.receipts[j]));
            } else if j < i {
                assert(!same_key(s.receipts[j], s.receipts[i]));
            }
        }
    }
}

/// The names of a request say something, hold no NUL and fit: 256 bytes for an actor and a session,
/// 128 for a key.
pub proof fn names_fit(actor: Text, session: Text, key: Text)
    ensures
        named(actor, session, key) <==> {
            &&& is_said(actor) && byte_len(actor) <= 256
            &&& is_said(session) && byte_len(session) <= 256
            &&& is_said(key) && byte_len(key) <= 128
        },
{
}

/// What was filed is found, and every other record is where it was.
pub proof fn put_lands(s: StoreModel, session: Text, id: Text, task: Text, body: BodyModel)
    ensures
        put(s, session, id, task, body) matches Ok(later) ==> {
            &&& later == (StoreModel { records: later.records, ..s })
            &&& position(later.records, id) matches Some(i) && 0 <= i < later.records.len()
                && later.records[i].id == id && later.records[i].body == body
            &&& position(s.records, id) is None ==> later.records[position(
                later.records,
                id,
            )->0].session == session && later.records[position(later.records, id)->0].task_id
                == task
            &&& position(s.records, id) matches Some(i) ==> position(later.records, id) == Some(i)
                && later.records[i].session == s.records[i].session && later.records[i].task_id
                == s.records[i].task_id
            &&& forall|other: Text| other != id ==> #[trigger] same_place(s, later, other)
        },
{
    if put(s, session, id, task, body) is Ok {
        let later = put(s, session, id, task, body)->Ok_0;
        putting_is_local(s, session, id, task, body, id);
        assert forall|other: Text| other != id implies #[trigger] same_place(s, later, other) by {
            putting_is_local(s, session, id, task, body, other);
            position_in_range(s.records, other);
        }
    }
}

/// Quota that is kept for a fact leaves every other record where it was.
pub proof fn reserve_lands(
    s: StoreModel,
    session: Text,
    op: OperationModel,
    purpose: FactKind,
    id: Text,
)
    ensures
        fact_reserved(s, session, op, purpose, id) matches Ok(later) ==> {
            &&& later == (StoreModel { records: later.records, ..s })
            &&& forall|other: Text| other != id ==> #[trigger] same_place(s, later, other)
        },
{
    let body = BodyModel::Reserved(ReservedFactModel { purpose, operation_id: op.id });
    put_lands(s, session, id, op.task_id, body);
    assert forall|other: Text| #[trigger] same_place(s, s, other) by {
        position_in_range(s.records, other);
    }
}

/// A task that was changed is found as it was answered, the change is announced, and every other
/// record is where it was.
pub proof fn change_lands(
    s: StoreModel,
    filed: StoreModel,
    task: TaskModel,
    kind: Text,
    entity: Text,
    now: i64,
)
    requires
        well_formed(filed),
        filed.changes == s.changes,
        filed.last_cursor == s.last_cursor,
        position(filed.records, task.id) matches Some(i) ==> filed.records[i].session
            == task.session_id,
        may_put(filed, task.session_id, task.id, task.id, BodyModel::Task(task)),
    ensures
        changed(filed, task, kind, entity, now) matches Ok((later, next)) ==> {
            &&& well_formed(later)
            &&& next == (TaskModel {
                revision: (task.revision + 1) as u64,
                updated_at_ms: now,
                ..task
            })
            &&& task.revision < u64::MAX
            &&& loaded::<Task>(later, task.session_id, task.id) == Ok::<TaskModel, WorkError>(next)
            &&& recorded_as(later, task.session_id, task.id, BodyModel::Task(next))
            &&& announces(s, later, task.session_id, task.id, task.revision + 1, kind, entity)
            &&& later.receipts == filed.receipts && later.inputs == filed.inputs
                && later.deliveries == filed.deliveries
            &&& forall|other: Text| other != task.id ==> #[trigger] same_place(filed, later, other)
        },
{
    if changed(filed, task, kind, entity, now) is Ok {
        let (later, next) = changed(filed, task, kind, entity, now)->Ok_0;
        changes_are_announced(filed, task, kind, entity, now);
        changing_grows(filed, task, kind, entity, now);
        put_lands(filed, task.session_id, task.id, task.id, BodyModel::Task(next));
        let put_in = put(filed, task.session_id, task.id, task.id, BodyModel::Task(next))->Ok_0;
        assert(later.records == put_in.records);
        assert forall|other: Text| other != task.id implies #[trigger] same_place(
            filed,
            later,
            other,
        ) by {
            assert(same_place(filed, put_in, other));
        }
        let i = position(later.records, task.id)->0;
        assert(later.records[i].body == BodyModel::Task(next));
    }
}

/// Where every other record is where it was, none but those named was changed or added.
pub proof fn others_stayed(before: StoreModel, later: StoreModel, ids: Seq<Text>)
    requires
        well_formed(before),
        well_formed(later),
        grown(before, later),
        forall|other: Text| !ids.contains(other) ==> #[trigger] same_place(before, later, other),
    ensures
        others_stay(before, later, ids),
{
    assert forall|i: int|
        0 <= i < before.records.len() && !ids.contains(
            before.records[i].id,
        ) implies #[trigger] later.records[i] == before.records[i] by {
        found_where_filed(before.records, i);
        assert(same_place(before, later, before.records[i].id));
    }
    assert forall|i: int| before.records.len() <= i < later.records.len() implies ids.contains(
        (#[trigger] later.records[i]).id,
    ) by {
        let id = later.records[i].id;
        found_where_filed(later.records, i);
        if !ids.contains(id) {
            assert(same_place(before, later, id));
            position_in_range(before.records, id);
        }
    }
}

/// What stands under an identifier is recorded there.
pub proof fn standing_is_recorded(s: StoreModel, session: Text, id: Text)
    ensures
        loaded::<Operation>(s, session, id) matches Ok(v) ==> recorded_as(
            s,
            session,
            id,
            BodyModel::Operation(v),
        ),
        loaded::<Attempt>(s, session, id) matches Ok(v) ==> recorded_as(
            s,
            session,
            id,
            BodyModel::Attempt(v),
        ),
        loaded::<Task>(s, session, id) matches Ok(v) ==> recorded_as(
            s,
            session,
            id,
            BodyModel::Task(v),
        ),
        loaded::<ResultSubmission>(s, session, id) matches Ok(v) ==> recorded_as(
            s,
            session,
            id,
            BodyModel::Result(v),
        ),
        loaded::<Review>(s, session, id) matches Ok(v) ==> recorded_as(
            s,
            session,
            id,
            BodyModel::Review(v),
        ),
{
    position_in_range(s.records, id);
}

/// Pausing a task, or letting it go on, sets just that on the task that stood at the revision that
/// was expected, and keeps an operation that says so.
pub proof fn pausing_is_exact(
    s: StoreModel,
    id: Text,
    actor: Text,
    session: Text,
    task_id: Text,
    key: Text,
    expected_revision: u64,
    input: PauseInputModel,
    now: i64,
)
    requires
        well_formed(s),
        unused(s, id),
    ensures
        pause_outcome(
            s,
            id,
            actor,
            session,
            task_id,
            key,
            expected_revision,
            input,
            now,
        ) matches Ok(
            (next, answer),
        ) ==> (!answer.replayed ==> {
            let kind = RequestKind::Work(OperationKind::PauseTask);
            &&& new_key(s, actor, session, kind, key)
            &&& loaded::<Task>(s, session, task_id) matches Ok(task) && task.revision
                == expected_revision && answer.value == (TaskModel {
                paused: input.paused,
                revision: (expected_revision + 1) as u64,
                updated_at_ms: now,
                ..task
            })
            &&& recorded_as(next, session, task_id, BodyModel::Task(answer.value))
            &&& loaded::<Operation>(next, session, id) matches Ok(op) && op.kind
                == OperationKind::PauseTask && op.state == OperationState::Acknowledged && op.task_id
                == task_id && op.attempt_id is None && op.id == id && op.created_at_ms == now
            &&& others_stay(s, next, seq![id, task_id])
            &&& announces(
                s,
                next,
                session,
                task_id,
                expected_revision + 1,
                "delegation_policy_changed"@,
                id,
            )
            &&& remembered(s, next, actor, session, kind, key, ReceiptBodyModel::Task(answer.value))
        }),
        pause_outcome(
            s,
            id,
            actor,
            session,
            task_id,
            key,
            expected_revision,
            input,
            now,
        ) matches Ok(
            (next, answer),
        ) ==> (answer.replayed ==> next == s),
{
    let outcome = pause_outcome(s, id, actor, session, task_id, key, expected_revision, input, now);
    let request = pause_request(actor, session, task_id, key, expected_revision, input);
    keys_stand_for_requests::<Task>(s, request);
    if outcome is Ok && !outcome->Ok_0.1.replayed {
        let task = loaded::<Task>(s, session, task_id)->Ok_0;
        tasks_stand(s, session, task_id);
        let op = OperationModel {
            state: OperationState::Acknowledged,
            ..fresh_operation(id, task_id, None, OperationKind::PauseTask, now)
        };
        let body = BodyModel::Operation(op);
        put_lands(s, session, id, task_id, body);
        putting_grows(s, session, id, task_id, body);
        let filed = put(s, session, id, task_id, body)->Ok_0;
        assert(same_place(s, filed, task_id));
        let paused = TaskModel { paused: input.paused, ..task };
        change_lands(s, filed, paused, "delegation_policy_changed"@, id, now);
        let next = changed(filed, paused, "delegation_policy_changed"@, id, now)->Ok_0.0;
        let later = outcome->Ok_0.0;
        assert(same_place(filed, next, id));
        pausing_grows(s, id, actor, session, task_id, key, expected_revision, input, now);
        let ids = seq![id, task_id];
        assert(ids[0] == id && ids[1] == task_id);
        assert forall|other: Text| !ids.contains(other) implies #[trigger] same_place(
            s,
            later,
            other,
        ) by {
            assert(same_place(s, filed, other) && same_place(filed, next, other));
        }
        others_stayed(s, later, ids);
        assert(later.receipts.take(s.receipts.len() as int) =~= s.receipts);
        assert(recorded_as(next, session, task_id, BodyModel::Task(outcome->Ok_0.1.value)));
    }
}

/// Configuring delegation sets the policy and the coordinator as they were asked for, and starts
/// the next epoch. Delegation is switched on only for a task without a parent, under a coordinator
/// that is its lead, holds its reservation, and whose confirmed launch is known by its process and
/// its owner's epoch.
pub proof fn configuring_is_exact(
    s: StoreModel,
    actor: Text,
    session: Text,
    task_id: Text,
    key: Text,
    expected_revision: u64,
    input: DelegationConfigModel,
    now: i64,
)
    requires
        well_formed(s),
    ensures
        configure_outcome(
            s,
            actor,
            session,
            task_id,
            key,
            expected_revision,
            input,
            now,
        ) matches Ok(
            (next, answer),
        ) ==> (!answer.replayed ==> {
            let kind = RequestKind::Work(OperationKind::ConfigureDelegation);
            &&& new_key(s, actor, session, kind, key)
            &&& input.policy.max_children <= 64 && input.policy.max_depth <= 1
            &&& loaded::<Task>(s, session, task_id) matches Ok(task) && task.revision
                == expected_revision && answer.value == (TaskModel {
                delegation: DelegationStateModel {
                    policy: input.policy,
                    coordinator_attempt_id: input.coordinator_attempt_id,
                    coordinator_epoch: (task.delegation.coordinator_epoch + 1) as u64,
                },
                revision: (expected_revision + 1) as u64,
                updated_at_ms: now,
                ..task
            }) && task.delegation.coordinator_epoch < u64::MAX && (input.policy.enabled
                ==> task.parent_task_id is None && input.coordinator_attempt_id is Some && (
            loaded::<Attempt>(s, session, input.coordinator_attempt_id->0) matches Ok(attempt)
                && attempt.task_id == task_id && attempt.role == AttemptRole::Lead
                && attempt.lifecycle.reservation == Reservation::Reserved
                && attempt.lifecycle.launch_phase == LaunchPhase::LaunchConfirmed
                && attempt.binding.instance_id is Some && attempt.lifecycle.native_owner_epoch
                is Some))
            &&& recorded_as(next, session, task_id, BodyModel::Task(answer.value))
            &&& others_stay(s, next, seq![task_id])
            &&& announces(
                s,
                next,
                session,
                task_id,
                expected_revision + 1,
                "delegation_configured"@,
                task_id,
            )
            &&& remembered(s, next, actor, session, kind, key, ReceiptBodyModel::Task(answer.value))
        }),
        configure_outcome(
            s,
            actor,
            session,
            task_id,
            key,
            expected_revision,
            input,
            now,
        ) matches Ok(
            (next, answer),
        ) ==> (answer.replayed ==> next == s),
{
    let outcome = configure_outcome(
        s,
        actor,
        session,
        task_id,
        key,
        expected_revision,
        input,
        now,
    );
    let request = configure_request(actor, session, task_id, key, expected_revision, input);
    keys_stand_for_requests::<Task>(s, request);
    if outcome is Ok && !outcome->Ok_0.1.replayed {
        let task = loaded::<Task>(s, session, task_id)->Ok_0;
        tasks_stand(s, session, task_id);
        position_in_range(s.records, task_id);
        let set = TaskModel {
            delegation: DelegationStateModel {
                policy: input.policy,
                coordinator_attempt_id: input.coordinator_attempt_id,
                coordinator_epoch: (task.delegation.coordinator_epoch + 1) as u64,
            },
            ..task
        };
        change_lands(s, s, set, "delegation_configured"@, task_id, now);
        let next = changed(s, set, "delegation_configured"@, task_id, now)->Ok_0.0;
        let later = outcome->Ok_0.0;
        configuring_grows(s, actor, session, task_id, key, expected_revision, input, now);
        let ids = seq![task_id];
        assert(ids[0] == task_id);
        assert forall|other: Text| !ids.contains(other) implies #[trigger] same_place(
            s,
            later,
            other,
        ) by {
            assert(same_place(s, next, other));
        }
        others_stayed(s, later, ids);
        assert(later.receipts.take(s.receipts.len() as int) =~= s.receipts);
        assert(recorded_as(next, session, task_id, BodyModel::Task(outcome->Ok_0.1.value)));
    }
}

/// Setting the dependencies of a task sets just those, on a task none of whose attempts was
/// dispatched. A coordinator's change is noted with its actor, its key and its fence.
pub proof fn depending_is_exact(
    s: StoreModel,
    id: Text,
    actor: Text,
    session: Text,
    task_id: Text,
    key: Text,
    expected_revision: u64,
    dependencies: Seq<TaskDependencyModel>,
    fence: Option<DelegationFenceModel>,
    now: i64,
)
    requires
        well_formed(s),
        unused(s, id),
    ensures
        dependencies_outcome(
            s,
            id,
            actor,
            session,
            task_id,
            key,
            expected_revision,
            dependencies,
            fence,
            now,
        ) matches Ok((next, answer)) ==> (!answer.replayed ==> {
            let kind = RequestKind::Work(OperationKind::SetDependencies);
            &&& new_key(s, actor, session, kind, key)
            &&& loaded::<Task>(s, session, task_id) matches Ok(task) && task.revision
                == expected_revision && answer.value == (TaskModel {
                dependencies,
                revision: (expected_revision + 1) as u64,
                updated_at_ms: now,
                ..task
            })
            &&& forall|i: int|
                0 <= i < s.records.len() && (#[trigger] s.records[i]).session == session
                    && s.records[i].task_id == task_id ==> (s.records[i].body matches
                    BodyModel::Attempt(attempt) ==> attempt.lifecycle.launch_phase
                    == LaunchPhase::NotDispatched)
            &&& recorded_as(next, session, task_id, BodyModel::Task(answer.value))
            &&& fence matches Some(fence) ==> filed_as(
                next,
                session,
                task_id,
                id,
                BodyModel::DependencyOrigin(
                    DependencyOriginModel { actor_id: actor, request_key: key, fence },
                ),
            )
            &&& fence is None ==> others_stay(s, next, seq![task_id])
            &&& others_stay(s, next, seq![id, task_id])
            &&& announces(
                s,
                next,
                session,
                task_id,
                expected_revision + 1,
                "dependencies_updated"@,
                task_id,
            )
            &&& remembered(s, next, actor, session, kind, key, ReceiptBodyModel::Task(answer.value))
        }),
        dependencies_outcome(
            s,
            id,
            actor,
            session,
            task_id,
            key,
            expected_revision,
            dependencies,
            fence,
            now,
        ) matches Ok((next, answer)) ==> (answer.replayed ==> next == s),
{
    let outcome = dependencies_outcome(
        s,
        id,
        actor,
        session,
        task_id,
        key,
        expected_revision,
        dependencies,
        fence,
        now,
    );
    let request = dependencies_request(
        actor,
        session,
        task_id,
        key,
        expected_revision,
        dependencies,
        fence,
    );
    keys_stand_for_requests::<Task>(s, request);
    if outcome is Ok && !outcome->Ok_0.1.replayed {
        let task = loaded::<Task>(s, session, task_id)->Ok_0;
        tasks_stand(s, session, task_id);
        position_in_range(s.records, task_id);
        let attempts = listed::<Attempt>(s.records, session, task_id);
        assert forall|i: int|
            0 <= i < s.records.len() && (#[trigger] s.records[i]).session == session
                && s.records[i].task_id == task_id implies (s.records[i].body matches
            BodyModel::Attempt(attempt) ==> attempt.lifecycle.launch_phase
            == LaunchPhase::NotDispatched) by {
            if let BodyModel::Attempt(attempt) = s.records[i].body {
                recorded_is_listed::<Attempt>(s.records, session, task_id, i, attempt);
                let k = choose|k: int| 0 <= k < attempts.len() && attempts[k] == attempt;
                assert(attempts[k].lifecycle.launch_phase == LaunchPhase::NotDispatched);
            }
        }
        let noted = dependency_origin_noted(s, id, actor, session, task_id, key, fence)->Ok_0;
        assert forall|other: Text| #[trigger] same_place(s, s, other) by {
            position_in_range(s.records, other);
        }
        if fence is Some {
            let body = BodyModel::DependencyOrigin(
                DependencyOriginModel { actor_id: actor, request_key: key, fence: fence->0 },
            );
            put_lands(s, session, id, task_id, body);
            putting_grows(s, session, id, task_id, body);
        }
        assert(same_place(s, noted, task_id));
        let set = TaskModel { dependencies, ..task };
        change_lands(s, noted, set, "dependencies_updated"@, task_id, now);
        let next = changed(noted, set, "dependencies_updated"@, task_id, now)->Ok_0.0;
        let later = outcome->Ok_0.0;
        depending_grows(
            s,
            id,
            actor,
            session,
            task_id,
            key,
            expected_revision,
            dependencies,
            fence,
            now,
        );
        assert(same_place(noted, next, id));
        let ids = seq![id, task_id];
        assert(ids[0] == id && ids[1] == task_id);
        assert forall|other: Text| !ids.contains(other) implies #[trigger] same_place(
            s,
            later,
            other,
        ) by {
            assert(same_place(s, noted, other) && same_place(noted, next, other));
        }
        others_stayed(s, later, ids);
        if fence is None {
            let only = seq![task_id];
            assert(only[0] == task_id);
            assert forall|other: Text| !only.contains(other) implies #[trigger] same_place(
                s,
                later,
                other,
            ) by {
                assert(same_place(s, noted, other) && same_place(noted, next, other));
            }
            others_stayed(s, later, only);
        }
        assert(later.receipts.take(s.receipts.len() as int) =~= s.receipts);
        assert(recorded_as(next, session, task_id, BodyModel::Task(outcome->Ok_0.1.value)));
    }
}

/// A result that is submitted is filed under its task as it was given, for an attempt of that
/// task, and announced by its own identifier.
pub proof fn submitting_is_exact(
    s: StoreModel,
    id: Text,
    actor: Text,
    session: Text,
    task_id: Text,
    key: Text,
    expected_revision: u64,
    input: ResultInputModel,
    now: i64,
)
    requires
        well_formed(s),
        unused(s, id),
    ensures
        submit_outcome(
            s,
            id,
            actor,
            session,
            task_id,
            key,
            expected_revision,
            input,
            now,
        ) matches Ok(
            (next, answer),
        ) ==> (!answer.replayed ==> {
            let kind = RequestKind::Work(OperationKind::SubmitResult);
            &&& new_key(s, actor, session, kind, key)
            &&& answer.value.id == id && answer.value.task_id == task_id && answer.value.result
                == input && answer.value.created_at_ms == now
            &&& loaded::<Task>(s, session, task_id) matches Ok(task) && task.revision
                == expected_revision && recorded_as(
                next,
                session,
                task_id,
                BodyModel::Task(
                    TaskModel {
                        revision: (expected_revision + 1) as u64,
                        updated_at_ms: now,
                        ..task
                    },
                ),
            )
            &&& loaded::<Attempt>(s, session, input.attempt_id) matches Ok(attempt)
                && attempt.task_id == task_id
            &&& filed_as(next, session, task_id, id, BodyModel::Result(answer.value))
            &&& others_stay(s, next, seq![id, task_id])
            &&& announces(
                s,
                next,
                session,
                task_id,
                expected_revision + 1,
                "result_submitted"@,
                id,
            )
            &&& remembered(
                s,
                next,
                actor,
                session,
                kind,
                key,
                ReceiptBodyModel::Result(answer.value),
            )
        }),
        submit_outcome(
            s,
            id,
            actor,
            session,
            task_id,
            key,
            expected_revision,
            input,
            now,
        ) matches Ok(
            (next, answer),
        ) ==> (answer.replayed ==> next == s),
{
    let outcome = submit_outcome(
        s,
        id,
        actor,
        session,
        task_id,
        key,
        expected_revision,
        input,
        now,
    );
    let request = result_request(actor, session, task_id, key, expected_revision, input);
    keys_stand_for_requests::<ResultSubmission>(s, request);
    if outcome is Ok && !outcome->Ok_0.1.replayed {
        let task = loaded::<Task>(s, session, task_id)->Ok_0;
        tasks_stand(s, session, task_id);
        position_in_range(s.records, task_id);
        let body = BodyModel::Result(outcome->Ok_0.1.value);
        put_lands(s, session, id, task_id, body);
        putting_grows(s, session, id, task_id, body);
        let filed = put(s, session, id, task_id, body)->Ok_0;
        assert(same_place(s, filed, task_id));
        change_lands(s, filed, task, "result_submitted"@, id, now);
        let next = changed(filed, task, "result_submitted"@, id, now)->Ok_0.0;
        let later = outcome->Ok_0.0;
        assert(same_place(filed, next, id));
        submitting_grows(s, id, actor, session, task_id, key, expected_revision, input, now);
        let ids = seq![id, task_id];
        assert(ids[0] == id && ids[1] == task_id);
        assert forall|other: Text| !ids.contains(other) implies #[trigger] same_place(
            s,
            later,
            other,
        ) by {
            assert(same_place(s, filed, other) && same_place(filed, next, other));
        }
        others_stayed(s, later, ids);
        assert(later.receipts.take(s.receipts.len() as int) =~= s.receipts);
        standing_is_recorded(next, session, task_id);
    }
}

/// A review is filed under its task as it was given, by the actor who gave it, about a result of
/// that task, and announced by its own identifier.
pub proof fn reviewing_is_exact(
    s: StoreModel,
    id: Text,
    actor: Text,
    session: Text,
    task_id: Text,
    key: Text,
    expected_revision: u64,
    input: ReviewInputModel,
    now: i64,
)
    requires
        well_formed(s),
        unused(s, id),
    ensures
        review_outcome(
            s,
            id,
            actor,
            session,
            task_id,
            key,
            expected_revision,
            input,
            now,
        ) matches Ok(
            (next, answer),
        ) ==> (!answer.replayed ==> {
            let kind = RequestKind::Work(OperationKind::ReviewResult);
            &&& new_key(s, actor, session, kind, key)
            &&& answer.value.id == id && answer.value.task_id == task_id && answer.value.review
                == input && answer.value.actor_id == actor && answer.value.created_at_ms == now
            &&& loaded::<Task>(s, session, task_id) matches Ok(task) && task.revision
                == expected_revision && recorded_as(
                next,
                session,
                task_id,
                BodyModel::Task(
                    TaskModel {
                        revision: (expected_revision + 1) as u64,
                        updated_at_ms: now,
                        ..task
                    },
                ),
            )
            &&& loaded::<ResultSubmission>(s, session, input.submission_id) matches Ok(result)
                && result.task_id == task_id
            &&& filed_as(next, session, task_id, id, BodyModel::Review(answer.value))
            &&& others_stay(s, next, seq![id, task_id])
            &&& announces(
                s,
                next,
                session,
                task_id,
                expected_revision + 1,
                "result_reviewed"@,
                id,
            )
            &&& remembered(
                s,
                next,
                actor,
                session,
                kind,
                key,
                ReceiptBodyModel::Review(answer.value),
            )
        }),
        review_outcome(
            s,
            id,
            actor,
            session,
            task_id,
            key,
            expected_revision,
            input,
            now,
        ) matches Ok(
            (next, answer),
        ) ==> (answer.replayed ==> next == s),
{
    let outcome = review_outcome(
        s,
        id,
        actor,
        session,
        task_id,
        key,
        expected_revision,
        input,
        now,
    );
    let request = review_request(actor, session, task_id, key, expected_revision, input);
    keys_stand_for_requests::<Review>(s, request);
    if outcome is Ok && !outcome->Ok_0.1.replayed {
        let task = loaded::<Task>(s, session, task_id)->Ok_0;
        tasks_stand(s, session, task_id);
        position_in_range(s.records, task_id);
        let body = BodyModel::Review(outcome->Ok_0.1.value);
        put_lands(s, session, id, task_id, body);
        putting_grows(s, session, id, task_id, body);
        let filed = put(s, session, id, task_id, body)->Ok_0;
        assert(same_place(s, filed, task_id));
        change_lands(s, filed, task, "result_reviewed"@, id, now);
        let next = changed(filed, task, "result_reviewed"@, id, now)->Ok_0.0;
        let later = outcome->Ok_0.0;
        assert(same_place(filed, next, id));
        reviewing_grows(s, id, actor, session, task_id, key, expected_revision, input, now);
        let ids = seq![id, task_id];
        assert(ids[0] == id && ids[1] == task_id);
        assert forall|other: Text| !ids.contains(other) implies #[trigger] same_place(
            s,
            later,
            other,
        ) by {
            assert(same_place(s, filed, other) && same_place(filed, next, other));
        }
        others_stayed(s, later, ids);
        assert(later.receipts.take(s.receipts.len() as int) =~= s.receipts);
        standing_is_recorded(next, session, task_id);
    }
}

/// A reader that had read all there was reads, after a result was submitted, one entry more: that a
/// result was submitted, and which one.
pub proof fn submissions_are_read_in_the_stream(
    s: StoreModel,
    id: Text,
    actor: Text,
    session: Text,
    task_id: Text,
    key: Text,
    expected_revision: u64,
    input: ResultInputModel,
    now: i64,
    limit: u32,
)
    requires
        well_formed(s),
        unused(s, id),
        0 < limit <= 100,
        submit_outcome(
            s,
            id,
            actor,
            session,
            task_id,
            key,
            expected_revision,
            input,
            now,
        ) matches Ok(
            (_, answer),
        ) && !answer.replayed,
    ensures
        ({
            let next = submit_outcome(
                s,
                id,
                actor,
                session,
                task_id,
                key,
                expected_revision,
                input,
                now,
            )->Ok_0.0;
            change_page(next, session, s.last_cursor, limit) matches Ok(page) && page.changes.len()
                == 1 && page.changes[0].entity_id == id && page.changes[0].kind
                == "result_submitted"@ && page.changes[0].task_id == task_id
                && page.changes[0].revision == expected_revision + 1
        }),
{
    submitting_is_exact(s, id, actor, session, task_id, key, expected_revision, input, now);
    submitting_grows(s, id, actor, session, task_id, key, expected_revision, input, now);
    let next = submit_outcome(
        s,
        id,
        actor,
        session,
        task_id,
        key,
        expected_revision,
        input,
        now,
    )->Ok_0.0;
    announcements_are_read(
        s,
        next,
        session,
        task_id,
        expected_revision + 1,
        "result_submitted"@,
        id,
        limit,
    );
}

} // verus!
