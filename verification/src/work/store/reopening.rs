//! What opening a store does to what was under way, and that doing it again does nothing.
use vstd::prelude::*;
use crate::value::Text;
use crate::work::model::Operation;
use crate::work::model::OperationState;
use crate::work::model::Task;
use crate::work::model::TaskModel;
use crate::work::model::WorkError;
use crate::work::store::changes::revised;
use crate::work::store::growth::is_settled;
use crate::work::store::growth::opening_grows;
use crate::work::store::growth::rebuilding_keeps;
use crate::work::store::growth::recovering_grows;
use crate::work::store::history::found_where_filed;
use crate::work::store::history::putting_grows;
use crate::work::store::history::well_formed;
use crate::work::store::records::loaded;
use crate::work::store::records::position;
use crate::work::store::records::position_in_range;
use crate::work::store::records::put;
use crate::work::store::recovery::all_recovered;
use crate::work::store::recovery::lost;
use crate::work::store::recovery::opened;
use crate::work::store::tables::BodyModel;
use crate::work::store::tables::RecordModel;
use crate::work::store::tables::StoreModel;
use crate::work::store::task_list::summaries_rebuilt;

verus! {

/// Whether a record is an operation of a task that was going out.
pub open spec fn under_way(record: RecordModel, session: Text, task: Text) -> bool {
    record.session == session && (record.body matches BodyModel::Operation(op) && op.task_id == task
        && op.state == OperationState::Submitting)
}

/// How many operations of a task were going out.
pub open spec fn lost_count(records: Seq<RecordModel>, session: Text, task: Text) -> nat
    decreases records.len(),
{
    if records.len() == 0 {
        0
    } else {
        let before = lost_count(records.drop_last(), session, task);
        if under_way(records.last(), session, task) {
            before + 1
        } else {
            before
        }
    }
}

/// A record once those in another table were looked at: an operation that was going out is lost, a
/// task was changed once for each of its operations that was, and nothing else changed.
pub open spec fn reopened(record: RecordModel, seen: bool, lost_of: nat) -> RecordModel {
    match record.body {
        BodyModel::Operation(op) => if seen && op.state == OperationState::Submitting {
            RecordModel { body: BodyModel::Operation(lost(op)), wire: None, ..record }
        } else {
            record
        },
        BodyModel::Task(task) => RecordModel {
            body: BodyModel::Task(
                TaskModel { revision: (task.revision + lost_of) as u64, ..task },
            ),
            wire: if lost_of > 0 {
                None
            } else {
                record.wire
            },
            ..record
        },
        _ => record,
    }
}

proof fn recovery_is_exact(s: StoreModel, n: int)
    requires
        well_formed(s),
        0 <= n <= s.records.len(),
    ensures
        all_recovered(s, s.records.take(n)) matches Ok(later) ==> {
            &&& later.records.len() == s.records.len()
            &&& forall|i: int|
                0 <= i < s.records.len() ==> #[trigger] later.records[i] == reopened(
                    s.records[i],
                    i < n,
                    lost_count(s.records.take(n), s.records[i].session, s.records[i].id),
                )
            &&& forall|i: int|
                0 <= i < s.records.len() && (#[trigger] s.records[i]).body is Task
                    ==> s.records[i].body->Task_0.revision + lost_count(
                    s.records.take(n),
                    s.records[i].session,
                    s.records[i].id,
                ) <= u64::MAX
        },
    decreases n,
{
    if n > 0 && all_recovered(s, s.records.take(n)) is Ok {
        assert(s.records.take(n).drop_last() =~= s.records.take(n - 1));
        recovery_is_exact(s, n - 1);
        recovering_grows(s, n - 1);
        let before = all_recovered(s, s.records.take(n - 1))->Ok_0;
        let later = all_recovered(s, s.records.take(n))->Ok_0;
        let record = s.records[n - 1];
        assert(s.records.take(n).last() == record);
        assert(before.records[n - 1] == reopened(
            record,
            false,
            lost_count(s.records.take(n - 1), record.session, record.id),
        ));
        if record.body is Operation && record.body->Operation_0.state
            == OperationState::Submitting {
            let op = record.body->Operation_0;
            found_where_filed(before.records, n - 1);
            let body = BodyModel::Operation(lost(op));
            putting_grows(before, record.session, op.id, op.task_id, body);
            let filed = put(before, record.session, op.id, op.task_id, body)->Ok_0;
            let task = loaded::<Task>(filed, record.session, op.task_id)->Ok_0;
            position_in_range(filed.records, op.task_id);
            let j = position(filed.records, op.task_id)->0;
            assert(filed.records[j].id == op.task_id && filed.records[j].session
                == record.session);
            assert(task.id == op.task_id && task.session_id == record.session);
            let next = revised(task, task.updated_at_ms);
            assert(later.records == filed.records.update(
                j,
                RecordModel { body: BodyModel::Task(next), wire: None, ..filed.records[j] },
            ));
            assert forall|i: int| 0 <= i < s.records.len() implies #[trigger] later.records[i]
                == reopened(
                s.records[i],
                i < n,
                lost_count(s.records.take(n), s.records[i].session, s.records[i].id),
            ) by {
                assert(before.records[i] == reopened(
                    s.records[i],
                    i < n - 1,
                    lost_count(s.records.take(n - 1), s.records[i].session, s.records[i].id),
                ));
                if i != j && s.records[i].id == op.task_id {
                    assert(filed.records[i].id == filed.records[j].id);
                    if i < j {
                        assert(filed.records[i].id != filed.records[j].id);
                    } else {
                        assert(filed.records[j].id != filed.records[i].id);
                    }
                }
            }
            assert forall|i: int| 0 <= i < s.records.len() && (
            #[trigger] s.records[i]).body is Task implies s.records[i].body->Task_0.revision
                + lost_count(
                s.records.take(n),
                s.records[i].session,
                s.records[i].id,
            ) <= u64::MAX by {
                assert(before.records[i] == reopened(
                    s.records[i],
                    i < n - 1,
                    lost_count(s.records.take(n - 1), s.records[i].session, s.records[i].id),
                ));
                if i != j && s.records[i].id == op.task_id {
                    if i < j {
                        assert(filed.records[i].id != filed.records[j].id);
                    } else {
                        assert(filed.records[j].id != filed.records[i].id);
                    }
                }
            }
        } else {
            assert forall|i: int| 0 <= i < s.records.len() implies #[trigger] later.records[i]
                == reopened(
                s.records[i],
                i < n,
                lost_count(s.records.take(n), s.records[i].session, s.records[i].id),
            ) by {
                assert(before.records[i] == reopened(
                    s.records[i],
                    i < n - 1,
                    lost_count(s.records.take(n - 1), s.records[i].session, s.records[i].id),
                ));
            }
        }
    } else if n == 0 {
        assert(s.records.take(0) =~= Seq::empty());
    }
}

/// Opening a store marks each operation that was going out as lost and keeps the rest of it, changes
/// its task once for it, and leaves every other operation and every attempt, result, review and fact
/// as it was.
pub proof fn opening_is_exact(s: StoreModel)
    requires
        well_formed(s),
    ensures
        opened(s) matches Ok(later) ==> {
            &&& later.records.len() == s.records.len()
            &&& forall|i: int|
                0 <= i < s.records.len() ==> #[trigger] later.records[i] == reopened(
                    s.records[i],
                    true,
                    lost_count(s.records, s.records[i].session, s.records[i].id),
                )
            &&& forall|i: int|
                0 <= i < s.records.len() && (#[trigger] s.records[i]).body is Task
                    ==> s.records[i].body->Task_0.revision + lost_count(
                    s.records,
                    s.records[i].session,
                    s.records[i].id,
                ) <= u64::MAX
        },
{
    rebuilding_keeps(s);
    let start = summaries_rebuilt(s).0;
    recovery_is_exact(start, start.records.len() as int);
    assert(start.records.take(start.records.len() as int) =~= start.records);
}

proof fn settled_stays(s: StoreModel, records: Seq<RecordModel>)
    requires
        forall|i: int| 0 <= i < records.len() ==> is_settled(#[trigger] records[i]),
    ensures
        all_recovered(s, records) == Ok::<StoreModel, WorkError>(s),
    decreases records.len(),
{
    if records.len() > 0 {
        assert forall|i: int| 0 <= i < records.len() - 1 implies is_settled(
            #[trigger] records.drop_last()[i],
        ) by {
            assert(is_settled(records[i]));
        }
        settled_stays(s, records.drop_last());
        assert(is_settled(records[records.len() - 1]));
    }
}

/// Opening a store that was opened changes no record, no answer, no entry of the stream, no upload
/// and no delivery: nothing is ever sent again.
pub proof fn opening_again_changes_nothing(s: StoreModel)
    requires
        well_formed(s),
    ensures
        opened(s) matches Ok(later) ==> (opened(later) matches Ok(again) && again.records
            == later.records && again.receipts == later.receipts && again.changes == later.changes
            && again.last_cursor == later.last_cursor && again.inputs == later.inputs
            && again.deliveries == later.deliveries),
{
    opening_grows(s);
    if opened(s) is Ok {
        let later = opened(s)->Ok_0;
        rebuilding_keeps(later);
        let start = summaries_rebuilt(later).0;
        settled_stays(start, start.records);
    }
}

} // verus!
