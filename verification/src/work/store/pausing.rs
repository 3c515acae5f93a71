//! Pausing a task stops launches, and nothing else.
use vstd::prelude::*;
use crate::value::Text;
use crate::work::model::Operation;
use crate::work::model::OperationKind;
use crate::work::model::OperationModel;
use crate::work::model::OperationState;
use crate::work::model::PauseInputModel;
use crate::work::model::Task;
use crate::work::model::TaskModel;
use crate::work::store::changes::revised;
use crate::work::store::deliveries::DeliveryModel;
use crate::work::store::deliveries::any_pending;
use crate::work::store::deliveries::delivery_admitted;
use crate::work::store::deliveries::pending_on;
use crate::work::store::growth::listed_is_recorded;
use crate::work::store::growth::pausing_grows;
use crate::work::store::growth::recorded_is_listed;
use crate::work::store::history::putting_is_local;
use crate::work::store::history::unused;
use crate::work::store::history::well_formed;
use crate::work::store::lasting::records_stay;
use crate::work::store::lasting::tasks_last;
use crate::work::store::records::listed;
use crate::work::store::records::loaded;
use crate::work::store::records::position;
use crate::work::store::records::position_in_range;
use crate::work::store::records::put;
use crate::work::store::rules::fresh_operation;
use crate::work::store::tables::BodyModel;
use crate::work::store::tables::StoreModel;
use crate::work::store::tasks::pause_outcome;

verus! {

/// What pausing a task leaves of the other records, and what it adds.
proof fn pausing_is_local(
    s: StoreModel,
    id: Text,
    actor: Text,
    session: Text,
    task_id: Text,
    key: Text,
    expected_revision: u64,
    input: PauseInputModel,
    now: i64,
)
    requires
        well_formed(s),
        unused(s, id),
    ensures
        pause_outcome(s, id, actor, session, task_id, key, expected_revision, input, now) matches Ok(
            (later, answer),
        ) ==> !answer.replayed ==> {
            let at = position(s.records, task_id)->0;
            &&& position(s.records, task_id) is Some && 0 <= at < s.records.len()
            &&& s.records[at].body is Task
            &&& later.records.len() == s.records.len() + 1
            &&& forall|i: int|
                0 <= i < s.records.len() && i != at ==> #[trigger] later.records[i] == s.records[i]
            &&& later.records[at].body is Task
            &&& later.records[s.records.len() as int].body matches BodyModel::Operation(op)
                && op.attempt_id is None
        },
{
    let outcome = pause_outcome(s, id, actor, session, task_id, key, expected_revision, input, now);
    if outcome is Ok && !outcome->Ok_0.1.replayed {
        let task = loaded::<Task>(s, session, task_id)->Ok_0;
        position_in_range(s.records, task_id);
        let op = OperationModel {
            state: OperationState::Acknowledged,
            ..fresh_operation(id, task_id, None, OperationKind::PauseTask, now)
        };
        let body = BodyModel::Operation(op);
        putting_is_local(s, session, id, task_id, body, task_id);
        let filed = put(s, session, id, task_id, body)->Ok_0;
        let next = revised(TaskModel { paused: input.paused, ..task }, now);
        position_in_range(filed.records, task_id);
        assert(next.id == task_id);
    }
}

/// A prompt that could be sent to an attempt can still be sent once a task was paused, whichever
/// task it was: it names the task's new revision, and nothing else changes.
pub proof fn pausing_keeps_prompts_available(
    s: StoreModel,
    id: Text,
    actor: Text,
    session: Text,
    task_id: Text,
    key: Text,
    expected_revision: u64,
    input: PauseInputModel,
    now: i64,
    d: DeliveryModel,
)
    requires
        well_formed(s),
        unused(s, id),
        pause_outcome(s, id, actor, session, task_id, key, expected_revision, input, now) is Ok,
        delivery_admitted(s, d, None) is Ok,
    ensures
        ({
            let later = pause_outcome(
                s,
                id,
                actor,
                session,
                task_id,
                key,
                expected_revision,
                input,
                now,
            )->Ok_0.0;
            loaded::<Task>(later, d.session, d.task_id) matches Ok(task) && delivery_admitted(
                later,
                DeliveryModel { expected_revision: task.revision, ..d },
                None,
            ) is Ok
        }),
{
    pausing_grows(s, id, actor, session, task_id, key, expected_revision, input, now);
    pausing_is_local(s, id, actor, session, task_id, key, expected_revision, input, now);
    let (later, answer) = pause_outcome(
        s,
        id,
        actor,
        session,
        task_id,
        key,
        expected_revision,
        input,
        now,
    )->Ok_0;
    tasks_last(s, later, d.session, d.task_id);
    if !answer.replayed {
        records_stay(s, later, d.attempt_id);
        position_in_range(s.records, d.attempt_id);
        let before = listed::<Operation>(s.records, d.session, d.task_id);
        let after = listed::<Operation>(later.records, d.session, d.task_id);
        if any_pending(after, d.attempt_id) {
            let k = choose|k: int|
                0 <= k < after.len() && pending_on(#[trigger] after[k], d.attempt_id);
            assert(after.contains(after[k]));
            let at = listed_is_recorded::<Operation>(
                later.records,
                d.session,
                d.task_id,
                after[k],
            );
            assert(at < s.records.len());
            assert(later.records[at] == s.records[at]);
            recorded_is_listed::<Operation>(s.records, d.session, d.task_id, at, after[k]);
            let n = choose|n: int| 0 <= n < before.len() && before[n] == after[k];
            assert(pending_on(before[n], d.attempt_id));
        }
    }
}

} // verus!
