//! A reconciliation from its intent to its finding.
use vstd::prelude::*;
use crate::value::Text;
use crate::work::model::Attempt;
use crate::work::model::AttemptModel;
use crate::work::model::LifecycleObservation;
use crate::work::model::NativeStartRefusal;
use crate::work::model::Operation;
use crate::work::model::OperationKind;
use crate::work::model::OperationModel;
use crate::work::model::OperationState;
use crate::work::model::ReconcileInputModel;
use crate::work::model::ReconciliationEvidenceModel;
use crate::work::model::ReconciliationReceipt;
use crate::work::model::ReconciliationReceiptModel;
use crate::work::model::ReleaseEvidenceModel;
use crate::work::model::ReleaseReason;
use crate::work::model::Task;
use crate::work::model::TaskModel;
use crate::work::model::WorkError;
use crate::work::store::changes::MAX_ROW_NUMBER;
use crate::work::store::changes::changed;
use crate::work::store::changes::revised;
use crate::work::store::facts::about;
use crate::work::store::facts::awaiting;
use crate::work::store::facts::fact_reserved;
use crate::work::store::facts::reserved;
use crate::work::store::facts::reserves;
use crate::work::store::facts::subject;
use crate::work::store::growth::beginning_grows;
use crate::work::store::growth::finding_grows;
use crate::work::store::growth::fresh_ids;
use crate::work::store::growth::reconciling_grows;
use crate::work::store::history::found_where_filed;
use crate::work::store::history::grown;
use crate::work::store::history::putting_grows;
use crate::work::store::history::putting_is_local;
use crate::work::store::history::record_follows;
use crate::work::store::history::same_ids_same_places;
use crate::work::store::history::unused;
use crate::work::store::history::well_formed;
use crate::work::store::operations::begin_outcome;
use crate::work::store::reconciliation::attempt_found;
use crate::work::store::reconciliation::attempt_settled;
use crate::work::store::reconciliation::finding_outcome;
use crate::work::store::reconciliation::finding_settled;
use crate::work::store::reconciliation::observed;
use crate::work::store::reconciliation::reconcilable;
use crate::work::store::reconciliation::reconcile_outcome;
use crate::work::store::reconciliation::reconcile_subject;
use crate::work::store::reconciliation::start_of;
use crate::work::store::records::MAX_RECORDS;
use crate::work::store::records::filed;
use crate::work::store::records::listed;
use crate::work::store::records::loaded;
use crate::work::store::records::position;
use crate::work::store::records::position_in_range;
use crate::work::store::records::put;
use crate::work::store::requests::MAX_RECEIPTS;
use crate::work::store::requests::named;
use crate::work::store::requests::receipt_at;
use crate::work::store::rules::expected_binding;
use crate::work::store::rules::fresh_operation;
use crate::work::store::tables::BodyModel;
use crate::work::store::tables::FactKind;
use crate::work::store::tables::ReconciliationIntent;
use crate::work::store::tables::ReconciliationIntentModel;
use crate::work::store::tables::RecordModel;
use crate::work::store::tables::RequestKind;
use crate::work::store::tables::ReservedFactModel;
use crate::work::store::tables::StoreModel;
use crate::work::store::tables::Stored;

verus! {

/// Whether nothing that is recorded speaks of an operation.
pub open spec fn unmentioned(s: StoreModel, operation_id: Text) -> bool {
    forall|i: int|
        0 <= i < s.records.len() ==> subject((#[trigger] s.records[i]).body) != Some(operation_id)
            && !reserves(
            s.records[i],
            s.records[i].session,
            FactKind::Reconciliation,
            operation_id,
        )
}

/// The first value about an operation is the one that is found.
pub proof fn first_is_found<T: Stored>(
    records: Seq<RecordModel>,
    session: Text,
    operation_id: Text,
    at: int,
    value: T::V,
)
    requires
        0 <= at < records.len(),
        records[at].session == session,
        subject(records[at].body) == Some(operation_id),
        T::of(records[at].body) == Some(value),
        forall|i: int|
            0 <= i < at ==> subject((#[trigger] records[i]).body) != Some(operation_id)
                || T::of(records[i].body) is None,
    ensures
        about::<T>(records, session, operation_id) == Some(value),
    decreases records.len(),
{
    let rest = records.drop_last();
    if at < records.len() - 1 {
        assert(rest[at] == records[at]);
        assert forall|i: int| 0 <= i < at implies subject((#[trigger] rest[i]).body) != Some(
            operation_id,
        ) || T::of(rest[i].body) is None by {
            assert(rest[i] == records[i]);
        }
        first_is_found::<T>(rest, session, operation_id, at, value);
    } else {
        assert forall|i: int| 0 <= i < rest.len() implies subject((#[trigger] rest[i]).body) != Some(
            operation_id,
        ) || T::of(rest[i].body) is None by {
            assert(rest[i] == records[i]);
        }
        nothing_is_found::<T>(rest, session, operation_id);
    }
}

/// Nothing is found about an operation that nothing speaks of.
pub proof fn nothing_is_found<T: Stored>(
    records: Seq<RecordModel>,
    session: Text,
    operation_id: Text,
)
    requires
        forall|i: int|
            0 <= i < records.len() ==> subject((#[trigger] records[i]).body) != Some(operation_id)
                || T::of(records[i].body) is None,
    ensures
        about::<T>(records, session, operation_id) is None,
    decreases records.len(),
{
    if records.len() > 0 {
        let rest = records.drop_last();
        assert forall|i: int| 0 <= i < rest.len() implies subject((#[trigger] rest[i]).body) != Some(
            operation_id,
        ) || T::of(rest[i].body) is None by {
            assert(rest[i] == records[i]);
        }
        nothing_is_found::<T>(rest, session, operation_id);
        assert(records.last() == records[records.len() - 1]);
    }
}

/// The one row that is kept for a fact is the one that it takes.
pub proof fn one_row_awaits(
    records: Seq<RecordModel>,
    session: Text,
    purpose: FactKind,
    op: OperationModel,
    at: int,
)
    requires
        at < records.len(),
        forall|i: int|
            0 <= i < records.len() ==> (reserves(
                #[trigger] records[i],
                session,
                purpose,
                op.id,
            ) <==> i == at),
        0 <= at ==> records[at].task_id == op.task_id,
    ensures
        awaiting(records, session, purpose, op) == if 0 <= at {
            Seq::empty().push(at)
        } else {
            Seq::empty()
        },
    decreases records.len(),
{
    if records.len() > 0 {
        let rest = records.drop_last();
        let last = records.len() - 1;
        assert(records.last() == records[last]);
        let before = if at < last {
            at
        } else {
            -1
        };
        assert forall|i: int| 0 <= i < rest.len() implies (reserves(
            #[trigger] rest[i],
            session,
            purpose,
            op.id,
        ) <==> i == before) by {
            assert(rest[i] == records[i]);
        }
        if rest.len() > 0 || before < 0 {
            one_row_awaits(rest, session, purpose, op, before);
        }
    }
}

/// The records after a reconciliation was recorded and begun: the operation, its intent and the row
/// that is kept for its finding are added, its task is changed, and nothing else.
pub open spec fn begun_records(
    s: StoreModel,
    later: StoreModel,
    session: Text,
    task_id: Text,
    op: OperationModel,
    input: ReconcileInputModel,
) -> bool {
    let n = s.records.len() as int;
    let j = position(s.records, task_id)->0;
    &&& later.records.len() == n + 3
    &&& later.records[n].body == BodyModel::Operation(op) && later.records[n].id == op.id
        && later.records[n].session == session && later.records[n].task_id == task_id
    &&& later.records[n + 1].body == BodyModel::ReconciliationIntent(
        ReconciliationIntentModel { operation_id: op.id, input },
    ) && later.records[n + 1].session == session && later.records[n + 1].task_id == task_id
    &&& reserves(later.records[n + 2], session, FactKind::Reconciliation, op.id)
        && later.records[n + 2].task_id == task_id
    &&& position(s.records, task_id) is Some && 0 <= j < n && later.records[j].body is Task
    &&& forall|i: int| 0 <= i < n && i != j ==> #[trigger] later.records[i] == s.records[i]
}

/// A reconciliation that was recorded and begun is going out, with its intent and one row that is
/// kept for its finding, and the attempt is as it was.
pub proof fn reconciliation_is_under_way(
    s: StoreModel,
    id: Text,
    intent_id: Text,
    fact_id: Text,
    spare_id: Text,
    actor: Text,
    session: Text,
    task_id: Text,
    attempt_id: Text,
    input: ReconcileInputModel,
    now: i64,
)
    requires
        well_formed(s),
        fresh_ids(s, Seq::empty().push(id).push(intent_id).push(fact_id).push(spare_id)),
        unmentioned(s, id),
        reconcile_outcome(
            s,
            id,
            intent_id,
            fact_id,
            actor,
            session,
            task_id,
            attempt_id,
            input,
            now,
        ) matches Ok((next, answer)) && !answer.replayed && begin_outcome(
            next,
            spare_id,
            session,
            id,
            None,
            now,
        ) is Ok,
    ensures
        ({
            let next = reconcile_outcome(
                s,
                id,
                intent_id,
                fact_id,
                actor,
                session,
                task_id,
                attempt_id,
                input,
                now,
            )->Ok_0.0;
            let (later, op) = begin_outcome(next, spare_id, session, id, None, now)->Ok_0;
            &&& well_formed(next) && grown(s, next)
            &&& well_formed(later) && grown(next, later)
            &&& op.id == id && op.task_id == task_id && op.attempt_id == Some(attempt_id) && op.kind
                == OperationKind::ReconcileAttempt && op.state == OperationState::Submitting
            &&& loaded::<Operation>(later, session, id) == Ok::<OperationModel, WorkError>(op)
            &&& loaded::<Attempt>(s, session, attempt_id) is Ok && loaded::<Attempt>(
                later,
                session,
                attempt_id,
            ) == loaded::<Attempt>(s, session, attempt_id)
            &&& reconcilable(input) && expected_binding(
                loaded::<Attempt>(s, session, attempt_id)->Ok_0,
                task_id,
                input,
            ) is Ok
            &&& begun_records(s, later, session, task_id, op, input)
        }),
{
    let ids = Seq::empty().push(id).push(intent_id).push(fact_id).push(spare_id);
    assert(ids[0] == id && ids[1] == intent_id && ids[2] == fact_id && ids[3] == spare_id);
    assert(unused(s, ids[0]) && unused(s, ids[1]) && unused(s, ids[2]) && unused(s, ids[3]));
    let (next, answer) = reconcile_outcome(
        s,
        id,
        intent_id,
        fact_id,
        actor,
        session,
        task_id,
        attempt_id,
        input,
        now,
    )->Ok_0;
    let (later, op) = begin_outcome(next, spare_id, session, id, None, now)->Ok_0;
    reconciling_grows(
        s,
        id,
        intent_id,
        fact_id,
        actor,
        session,
        task_id,
        attempt_id,
        input,
        now,
    );
    let n = s.records.len() as int;
    let fresh = answer.value;
    let task = loaded::<Task>(s, session, task_id)->Ok_0;
    position_in_range(s.records, task_id);
    position_in_range(s.records, attempt_id);
    let j = position(s.records, task_id)->0;
    let first = BodyModel::Operation(fresh);
    let second = BodyModel::ReconciliationIntent(
        ReconciliationIntentModel { operation_id: id, input },
    );
    putting_is_local(s, session, id, task_id, first, intent_id);
    putting_is_local(s, session, id, task_id, first, fact_id);
    putting_is_local(s, session, id, task_id, first, spare_id);
    putting_is_local(s, session, id, task_id, first, task_id);
    putting_is_local(s, session, id, task_id, first, attempt_id);
    let filed = put(s, session, id, task_id, first)->Ok_0;
    putting_is_local(filed, session, intent_id, task_id, second, id);
    putting_is_local(filed, session, intent_id, task_id, second, fact_id);
    putting_is_local(filed, session, intent_id, task_id, second, spare_id);
    putting_is_local(filed, session, intent_id, task_id, second, task_id);
    putting_is_local(filed, session, intent_id, task_id, second, attempt_id);
    let meant = put(filed, session, intent_id, task_id, second)->Ok_0;
    assert(!reserved(meant.records, session, FactKind::Reconciliation, id)) by {
        assert forall|i: int| 0 <= i < meant.records.len() implies !reserves(
            #[trigger] meant.records[i],
            session,
            FactKind::Reconciliation,
            id,
        ) by {
            if i < n {
                assert(meant.records[i] == s.records[i]);
            }
        }
    }
    let third = BodyModel::Reserved(
        ReservedFactModel { purpose: FactKind::Reconciliation, operation_id: id },
    );
    putting_is_local(meant, session, fact_id, task_id, third, id);
    putting_is_local(meant, session, fact_id, task_id, third, spare_id);
    putting_is_local(meant, session, fact_id, task_id, third, task_id);
    putting_is_local(meant, session, fact_id, task_id, third, attempt_id);
    let kept = put(meant, session, fact_id, task_id, third)->Ok_0;
    assert(fact_reserved(meant, session, fresh, FactKind::Reconciliation, fact_id) == Ok::<
        StoreModel,
        WorkError,
    >(kept));
    let fourth = BodyModel::Task(revised(task, now));
    putting_is_local(kept, session, task_id, task_id, fourth, id);
    putting_is_local(kept, session, task_id, task_id, fourth, attempt_id);
    putting_is_local(kept, session, task_id, task_id, fourth, spare_id);
    let told = put(kept, session, task_id, task_id, fourth)->Ok_0;
    assert(next.records == told.records);
    assert(next.records[n + 2].body == third);
    beginning_grows(next, spare_id, session, id, None, now);
    assert(reserves(next.records[n + 2], session, FactKind::Reconciliation, id));
    assert(reserved(next.records, session, FactKind::Reconciliation, id));
    let body = BodyModel::Operation(op);
    putting_is_local(next, session, id, task_id, body, task_id);
    putting_is_local(next, session, id, task_id, body, attempt_id);
    let sent = put(next, session, id, task_id, body)->Ok_0;
    let then = loaded::<Task>(sent, session, task_id)->Ok_0;
    position_in_range(sent.records, task_id);
    let last = BodyModel::Task(revised(then, now));
    putting_is_local(sent, session, task_id, task_id, last, id);
    putting_is_local(sent, session, task_id, task_id, last, attempt_id);
    let end = put(sent, session, task_id, task_id, last)->Ok_0;
    assert(later.records == end.records);
}

/// Whether a reconciliation can be asked for: the request is well named and its key unused, the task
/// stands at the revision that was expected, the attempt is bound as expected, and there is room for
/// the receipt, for three records and for three changes.
pub open spec fn reconcile_ready(
    s: StoreModel,
    actor: Text,
    session: Text,
    task_id: Text,
    attempt_id: Text,
    input: ReconcileInputModel,
) -> bool {
    let kind = RequestKind::Work(OperationKind::ReconcileAttempt);
    &&& reconcilable(input)
    &&& named(actor, session, input.request_key)
    &&& receipt_at(s.receipts, actor, session, kind, input.request_key) is None
    &&& s.receipts.len() < MAX_RECEIPTS
    &&& loaded::<Task>(s, session, task_id) matches Ok(task) && task.revision
        == input.expected_revision && task.revision + 3 <= MAX_ROW_NUMBER
    &&& loaded::<Attempt>(s, session, attempt_id) matches Ok(attempt) && expected_binding(
        attempt,
        task_id,
        input,
    ) is Ok
    &&& filed(s.records, session, task_id) + 3 <= MAX_RECORDS
    &&& s.last_cursor + 3 <= MAX_ROW_NUMBER
}

/// A task that is recorded can be changed while its revision and the cursor have room.
proof fn change_is_made(
    s: StoreModel,
    session: Text,
    id: Text,
    kind: Text,
    entity: Text,
    now: i64,
)
    requires
        well_formed(s),
        loaded::<Task>(s, session, id) matches Ok(task) && task.revision < MAX_ROW_NUMBER,
        s.last_cursor < MAX_ROW_NUMBER,
    ensures
        ({
            let task = loaded::<Task>(s, session, id)->Ok_0;
            changed(s, task, kind, entity, now) matches Ok((later, told)) && {
                &&& told == revised(task, now)
                &&& later.last_cursor == s.last_cursor + 1
                &&& later.receipts == s.receipts
                &&& put(s, session, id, id, BodyModel::Task(told)) matches Ok(next)
                    && later.records == next.records
                &&& loaded::<Task>(later, session, id) == Ok::<TaskModel, WorkError>(told)
            }
        }),
{
    let task = loaded::<Task>(s, session, id)->Ok_0;
    position_in_range(s.records, id);
    putting_is_local(s, session, id, id, BodyModel::Task(revised(task, now)), id);
}

/// A reconciliation that can be asked for is recorded and begun.
pub proof fn reconciliation_begins(
    s: StoreModel,
    id: Text,
    intent_id: Text,
    fact_id: Text,
    spare_id: Text,
    actor: Text,
    session: Text,
    task_id: Text,
    attempt_id: Text,
    input: ReconcileInputModel,
    now: i64,
)
    requires
        well_formed(s),
        fresh_ids(s, Seq::empty().push(id).push(intent_id).push(fact_id).push(spare_id)),
        unmentioned(s, id),
        reconcile_ready(s, actor, session, task_id, attempt_id, input),
    ensures
        reconcile_outcome(
            s,
            id,
            intent_id,
            fact_id,
            actor,
            session,
            task_id,
            attempt_id,
            input,
            now,
        ) matches Ok((next, answer)) && !answer.replayed && answer.value.id == id && (
        begin_outcome(next, spare_id, session, id, None, now) matches Ok((later, _)) && {
            &&& later.last_cursor == s.last_cursor + 2
            &&& loaded::<Task>(later, session, task_id) matches Ok(task) && task.revision
                == input.expected_revision + 2
        }),
{
    let ids = Seq::empty().push(id).push(intent_id).push(fact_id).push(spare_id);
    assert(ids[0] == id && ids[1] == intent_id && ids[2] == fact_id && ids[3] == spare_id);
    assert(unused(s, ids[0]) && unused(s, ids[1]) && unused(s, ids[2]) && unused(s, ids[3]));
    let n = s.records.len() as int;
    let task = loaded::<Task>(s, session, task_id)->Ok_0;
    position_in_range(s.records, task_id);
    position_in_range(s.records, attempt_id);
    let fresh = fresh_operation(
        id,
        task_id,
        Some(attempt_id),
        OperationKind::ReconcileAttempt,
        now,
    );
    let first = BodyModel::Operation(fresh);
    let second = BodyModel::ReconciliationIntent(
        ReconciliationIntentModel { operation_id: id, input },
    );
    putting_is_local(s, session, id, task_id, first, intent_id);
    putting_is_local(s, session, id, task_id, first, fact_id);
    putting_is_local(s, session, id, task_id, first, task_id);
    let one = put(s, session, id, task_id, first)->Ok_0;
    assert(one.records.drop_last() =~= s.records);
    putting_is_local(one, session, intent_id, task_id, second, id);
    putting_is_local(one, session, intent_id, task_id, second, fact_id);
    putting_is_local(one, session, intent_id, task_id, second, task_id);
    let two = put(one, session, intent_id, task_id, second)->Ok_0;
    assert(two.records.drop_last() =~= one.records);
    assert(!reserved(two.records, session, FactKind::Reconciliation, id)) by {
        assert forall|i: int| 0 <= i < two.records.len() implies !reserves(
            #[trigger] two.records[i],
            session,
            FactKind::Reconciliation,
            id,
        ) by {
            if i < n {
                assert(two.records[i] == s.records[i]);
            }
        }
    }
    let third = BodyModel::Reserved(
        ReservedFactModel { purpose: FactKind::Reconciliation, operation_id: id },
    );
    putting_is_local(two, session, fact_id, task_id, third, id);
    putting_is_local(two, session, fact_id, task_id, third, task_id);
    let three = put(two, session, fact_id, task_id, third)->Ok_0;
    assert(fact_reserved(two, session, fresh, FactKind::Reconciliation, fact_id) == Ok::<
        StoreModel,
        WorkError,
    >(three));
    putting_grows(s, session, id, task_id, first);
    putting_grows(one, session, intent_id, task_id, second);
    putting_grows(two, session, fact_id, task_id, third);
    change_is_made(three, session, task_id, "reconciliation_prepared"@, id, now);
    let told = BodyModel::Task(revised(task, now));
    putting_is_local(three, session, task_id, task_id, told, id);
    reconciling_grows(
        s,
        id,
        intent_id,
        fact_id,
        actor,
        session,
        task_id,
        attempt_id,
        input,
        now,
    );
    let next = reconcile_outcome(
        s,
        id,
        intent_id,
        fact_id,
        actor,
        session,
        task_id,
        attempt_id,
        input,
        now,
    )->Ok_0.0;
    assert(next.records[n + 2].body == third);
    assert(reserves(next.records[n + 2], session, FactKind::Reconciliation, id));
    assert(reserved(next.records, session, FactKind::Reconciliation, id));
    let begun = OperationModel {
        state: OperationState::Submitting,
        updated_at_ms: now,
        ..fresh
    };
    let body = BodyModel::Operation(begun);
    position_in_range(next.records, id);
    putting_is_local(next, session, id, task_id, body, task_id);
    putting_grows(next, session, id, task_id, body);
    let sent = put(next, session, id, task_id, body)->Ok_0;
    position_in_range(sent.records, task_id);
    change_is_made(sent, session, task_id, "operation_changed"@, id, now);
}

/// What a finding says, where evidence shows so much of an attempt.
pub open spec fn finding_of(
    op: OperationModel,
    attempt: AttemptModel,
    observation: LifecycleObservation,
    release: Option<(ReleaseReason, ReleaseEvidenceModel)>,
    task_revision: u64,
    now: i64,
) -> ReconciliationReceiptModel {
    let found = attempt_found(attempt, op.id, release, now);
    ReconciliationReceiptModel {
        operation_id: op.id,
        attempt_id: attempt.id,
        observation,
        reservation: found.lifecycle.reservation,
        release: found.lifecycle.release,
        task_revision,
    }
}

/// A reconciliation that is under way is answered with what the evidence shows, as long as the
/// task's revision and the stream have room: the attempt is settled accordingly, and the finding is
/// found from then on.
pub proof fn finding_is_made(
    s: StoreModel,
    under_way: StoreModel,
    session: Text,
    op: OperationModel,
    attempt_id: Text,
    input: ReconcileInputModel,
    evidence: ReconciliationEvidenceModel,
    now: i64,
)
    requires
        well_formed(under_way),
        unmentioned(s, op.id),
        begun_records(s, under_way, session, op.task_id, op, input),
        op.kind == OperationKind::ReconcileAttempt,
        op.state == OperationState::Submitting,
        op.attempt_id == Some(attempt_id),
        loaded::<Operation>(under_way, session, op.id) == Ok::<OperationModel, WorkError>(op),
        loaded::<Attempt>(under_way, session, attempt_id) matches Ok(attempt) && expected_binding(
            attempt,
            op.task_id,
            input,
        ) is Ok,
        loaded::<Task>(under_way, session, op.task_id) matches Ok(task) && task.revision
            < MAX_ROW_NUMBER,
        under_way.last_cursor < MAX_ROW_NUMBER,
        start_of(
            listed::<Operation>(under_way.records, session, op.task_id),
            attempt_id,
        ) matches Some(start) && (observed(
            under_way,
            session,
            loaded::<Attempt>(under_way, session, attempt_id)->Ok_0,
            start,
            evidence,
        ) matches Ok((_, release)) && (release matches Some((reason, _)) ==> reason
            != ReleaseReason::StartupNotDispatched)),
    ensures
        ({
            let attempt = loaded::<Attempt>(under_way, session, attempt_id)->Ok_0;
            let task = loaded::<Task>(under_way, session, op.task_id)->Ok_0;
            let start = start_of(
                listed::<Operation>(under_way.records, session, op.task_id),
                attempt_id,
            )->0;
            let (observation, release) = observed(
                under_way,
                session,
                attempt,
                start,
                evidence,
            )->Ok_0;
            finding_outcome(
                under_way,
                session,
                op.id,
                task.revision,
                evidence,
                now,
            ) matches Ok((next, receipt)) && {
                &&& receipt == finding_of(
                    op,
                    attempt,
                    observation,
                    release,
                    (task.revision + 1) as u64,
                    now,
                )
                &&& loaded::<Attempt>(next, session, attempt_id) == Ok::<AttemptModel, WorkError>(
                    attempt_found(attempt, op.id, release, now),
                )
                &&& well_formed(next) && grown(under_way, next)
                &&& next.records.len() == under_way.records.len()
                &&& next.records[s.records.len() as int + 2].body == BodyModel::Reconciliation(receipt)
                &&& next.records[s.records.len() as int + 2].session == session
                &&& forall|i: int|
                    0 <= i < s.records.len() + 2 ==> subject((#[trigger] next.records[i]).body)
                        != Some(op.id) || next.records[i].body is ReconciliationIntent
                &&& forall|i: int|
                    0 <= i < s.records.len() + 2 ==> !reserves(
                        #[trigger] next.records[i],
                        next.records[i].session,
                        FactKind::Reconciliation,
                        op.id,
                    )
            }
        }),
{
    reveal(reconcile_subject);
    reveal(finding_settled);
    let n = s.records.len() as int;
    let j = position(s.records, op.task_id)->0;
    let rows = under_way.records;
    let attempt = loaded::<Attempt>(under_way, session, attempt_id)->Ok_0;
    let task = loaded::<Task>(under_way, session, op.task_id)->Ok_0;
    let start = start_of(listed::<Operation>(rows, session, op.task_id), attempt_id)->0;
    let (observation, release) = observed(under_way, session, attempt, start, evidence)->Ok_0;
    position_in_range(rows, op.id);
    position_in_range(rows, attempt_id);
    position_in_range(rows, op.task_id);
    found_where_filed(rows, n);
    assert forall|i: int| 0 <= i < rows.len() && i != n + 1 implies subject(
        (#[trigger] rows[i]).body,
    ) != Some(op.id) by {
        if i < n && i != j {
            assert(rows[i] == s.records[i]);
        }
    }
    assert forall|i: int| 0 <= i < rows.len() implies (reserves(
        #[trigger] rows[i],
        session,
        FactKind::Reconciliation,
        op.id,
    ) <==> i == n + 2) by {
        if i < n && i != j {
            assert(rows[i] == s.records[i]);
        }
    }
    nothing_is_found::<ReconciliationReceipt>(rows, session, op.id);
    first_is_found::<ReconciliationIntent>(
        rows,
        session,
        op.id,
        n + 1,
        ReconciliationIntentModel { operation_id: op.id, input },
    );
    assert(reconcile_subject(under_way, session, op, task.revision) == Ok::<
        (TaskModel, AttemptModel, OperationModel),
        WorkError,
    >((task, attempt, start)));
    let found = attempt_found(attempt, op.id, release, now);
    let first = BodyModel::Attempt(found);
    putting_is_local(under_way, session, attempt_id, op.task_id, first, op.id);
    putting_is_local(under_way, session, attempt_id, op.task_id, first, op.task_id);
    let settled = attempt_settled(under_way, session, op.task_id, found, release)->Ok_0;
    let ended = OperationModel { state: OperationState::Acknowledged, updated_at_ms: now, ..op };
    let second = BodyModel::Operation(ended);
    putting_is_local(settled, session, op.id, op.task_id, second, op.task_id);
    putting_is_local(settled, session, op.id, op.task_id, second, attempt_id);
    let filed = put(settled, session, op.id, op.task_id, second)->Ok_0;
    let third = BodyModel::Task(revised(task, now));
    putting_is_local(filed, session, op.task_id, op.task_id, third, attempt_id);
    putting_is_local(filed, session, op.task_id, op.task_id, third, op.task_id);
    let noted = put(filed, session, op.task_id, op.task_id, third)->Ok_0;
    assert(changed(filed, task, "attempt_reconciled"@, op.id, now) is Ok);
    let told = changed(filed, task, "attempt_reconciled"@, op.id, now)->Ok_0.0;
    assert(told.records == noted.records);
    assert forall|i: int| 0 <= i < rows.len() implies (reserves(
        #[trigger] told.records[i],
        session,
        FactKind::Reconciliation,
        op.id,
    ) <==> i == n + 2) by {
        assert(told.records[i] == rows[i] || told.records[i].body is Attempt
            || told.records[i].body is Operation || told.records[i].body is Task);
        assert(i == n + 2 ==> told.records[i] == rows[i]);
    }
    one_row_awaits(told.records, session, FactKind::Reconciliation, ended, n + 2);
    assert(awaiting(told.records, session, FactKind::Reconciliation, ended)[0] == n + 2);
    finding_grows(under_way, session, op.id, task.revision, evidence, now);
    let (next, receipt) = finding_outcome(
        under_way,
        session,
        op.id,
        task.revision,
        evidence,
        now,
    )->Ok_0;
    let last = BodyModel::Reconciliation(receipt);
    assert(next.records == told.records.update(
        n + 2,
        RecordModel { body: last, wire: None, ..told.records[n + 2] },
    ));
    same_ids_same_places(told.records, next.records, attempt_id);
}

/// A finding is found for good.
pub proof fn finding_stays(
    next: StoreModel,
    later: StoreModel,
    session: Text,
    operation_id: Text,
    at: int,
    receipt: ReconciliationReceiptModel,
)
    requires
        grown(next, later),
        0 <= at < next.records.len(),
        next.records[at].body == BodyModel::Reconciliation(receipt),
        next.records[at].session == session,
        receipt.operation_id == operation_id,
        forall|i: int|
            0 <= i < at ==> (subject((#[trigger] next.records[i]).body) != Some(operation_id)
                || next.records[i].body is ReconciliationIntent) && !reserves(
                next.records[i],
                next.records[i].session,
                FactKind::Reconciliation,
                operation_id,
            ),
    ensures
        about::<ReconciliationReceipt>(later.records, session, operation_id) == Some(receipt),
{
    assert(record_follows(next.records[at], later.records[at]));
    assert forall|i: int| 0 <= i < at implies subject((#[trigger] later.records[i]).body) != Some(
        operation_id,
    ) || <ReconciliationReceipt as Stored>::of(later.records[i].body) is None by {
        assert(record_follows(next.records[i], later.records[i]));
    }
    first_is_found::<ReconciliationReceipt>(later.records, session, operation_id, at, receipt);
}

/// Records of one kind are listed and found alike where the records differ in others only.
proof fn kinds_are_apart<T: Stored>(
    a: Seq<RecordModel>,
    b: Seq<RecordModel>,
    session: Text,
    task: Text,
    operation_id: Text,
)
    requires
        a.len() == b.len(),
        forall|i: int|
            0 <= i < a.len() ==> #[trigger] a[i] == b[i] || T::of(a[i].body) is None && T::of(
                b[i].body,
            ) is None,
    ensures
        listed::<T>(a, session, task) == listed::<T>(b, session, task),
        about::<T>(a, session, operation_id) == about::<T>(b, session, operation_id),
    decreases a.len(),
{
    if a.len() > 0 {
        let (x, y) = (a.drop_last(), b.drop_last());
        assert forall|i: int| 0 <= i < x.len() implies #[trigger] x[i] == y[i] || T::of(x[i].body)
            is None && T::of(y[i].body) is None by {
            assert(x[i] == a[i] && y[i] == b[i]);
        }
        kinds_are_apart::<T>(x, y, session, task, operation_id);
        assert(a[a.len() - 1] == b[a.len() - 1] || T::of(a.last().body) is None && T::of(
            b.last().body,
        ) is None);
    }
}

/// A reconciliation that was recorded and begun adds its operation to those of the task, and leaves
/// the attempts and the refusals of starts as they were.
pub proof fn reconciliation_adds_its_operation(
    s: StoreModel,
    later: StoreModel,
    session: Text,
    task_id: Text,
    op: OperationModel,
    input: ReconcileInputModel,
    start_id: Text,
)
    requires
        begun_records(s, later, session, task_id, op, input),
        loaded::<Task>(s, session, task_id) is Ok,
    ensures
        listed::<Attempt>(later.records, session, task_id) == listed::<Attempt>(
            s.records,
            session,
            task_id,
        ),
        listed::<Operation>(later.records, session, task_id) == listed::<Operation>(
            s.records,
            session,
            task_id,
        ).push(op),
        about::<NativeStartRefusal>(later.records, session, start_id)
            == about::<NativeStartRefusal>(s.records, session, start_id),
{
    let n = s.records.len() as int;
    let old_part = later.records.take(n);
    kinds_are_apart::<Attempt>(s.records, old_part, session, task_id, start_id);
    kinds_are_apart::<Operation>(s.records, old_part, session, task_id, start_id);
    kinds_are_apart::<NativeStartRefusal>(s.records, old_part, session, task_id, start_id);
    let two = later.records.drop_last();
    let one = two.drop_last();
    assert(one.drop_last() =~= old_part);
    assert(one.last() == later.records[n]);
    assert(two.last() == later.records[n + 1]);
    assert(later.records.last() == later.records[n + 2]);
    reveal_with_fuel(listed, 4);
    reveal_with_fuel(about, 4);
}

} // verus!
