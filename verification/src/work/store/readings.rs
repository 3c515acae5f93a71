//! What is read is what is recorded: the laws of the reads, stated of the rows themselves.
use vstd::prelude::*;
use crate::value::Text;
use crate::work::model::Attempt;
use crate::work::model::AttemptModel;
use crate::work::model::FailureCode;
use crate::work::model::InputShare;
use crate::work::model::NativeStartRefusal;
use crate::work::model::Operation;
use crate::work::model::OperationModel;
use crate::work::model::ReconciliationReceipt;
use crate::work::model::ResultSubmission;
use crate::work::model::ResultSubmissionModel;
use crate::work::model::Review;
use crate::work::model::ReviewModel;
use crate::work::model::Task;
use crate::work::model::TaskChangeModel;
use crate::work::model::TaskModel;
use crate::work::model::WorkError;
use crate::work::model::WorkResult;
use crate::work::store::changes::KEPT_CHANGES;
use crate::work::store::changes::above;
use crate::work::store::changes::change_page;
use crate::work::store::changes::changed;
use crate::work::store::changes::entries;
use crate::work::store::changes::max_cursor;
use crate::work::store::changes::min_cursor;
use crate::work::store::history::ascending;
use crate::work::store::history::found_where_filed;
use crate::work::store::history::last_is_largest;
use crate::work::store::history::well_formed;
use crate::work::store::records::filed;
use crate::work::store::records::listed;
use crate::work::store::records::loaded;
use crate::work::store::records::position;
use crate::work::store::records::position_in_range;
use crate::work::store::records::put;
use crate::work::store::tables::BodyModel;
use crate::work::store::tables::ChangeRowModel;
use crate::work::store::tables::RecordModel;
use crate::work::store::tables::StoreModel;
use crate::work::store::tables::Stored;
use crate::work::store::tasks::detail_of;

verus! {

/// Whether a request failed with a code.
pub open spec fn fails<T>(res: WorkResult<T>, code: FailureCode) -> bool {
    res matches Err(error) && error.0 == code
}

/// Whether a body stands under an identifier in a session.
pub open spec fn recorded_as(s: StoreModel, session: Text, id: Text, body: BodyModel) -> bool {
    exists|i: int|
        0 <= i < s.records.len() && (#[trigger] s.records[i]).id == id && s.records[i].session
            == session && s.records[i].body == body
}

/// Whether a body stands under an identifier in a session, filed under a task.
pub open spec fn filed_as(
    s: StoreModel,
    session: Text,
    task_id: Text,
    id: Text,
    body: BodyModel,
) -> bool {
    exists|i: int|
        0 <= i < s.records.len() && (#[trigger] s.records[i]).id == id && s.records[i].session
            == session && s.records[i].task_id == task_id && s.records[i].body == body
}

/// A value is read exactly where it stands under its identifier in its session; whatever else
/// stands there, or nothing, is not found.
pub proof fn reads_give_what_is_recorded(s: StoreModel, session: Text, id: Text)
    requires
        well_formed(s),
    ensures
        loaded::<Task>(s, session, id) matches Ok(value) ==> recorded_as(
            s,
            session,
            id,
            BodyModel::Task(value),
        ),
        loaded::<Task>(s, session, id) is Err ==> fails(
            loaded::<Task>(s, session, id),
            FailureCode::NotFound,
        ),
        loaded::<Attempt>(s, session, id) matches Ok(value) ==> recorded_as(
            s,
            session,
            id,
            BodyModel::Attempt(value),
        ),
        loaded::<Attempt>(s, session, id) is Err ==> fails(
            loaded::<Attempt>(s, session, id),
            FailureCode::NotFound,
        ),
        loaded::<Operation>(s, session, id) matches Ok(value) ==> recorded_as(
            s,
            session,
            id,
            BodyModel::Operation(value),
        ),
        loaded::<Operation>(s, session, id) is Err ==> fails(
            loaded::<Operation>(s, session, id),
            FailureCode::NotFound,
        ),
        loaded::<ResultSubmission>(s, session, id) matches Ok(value) ==> recorded_as(
            s,
            session,
            id,
            BodyModel::Result(value),
        ),
        loaded::<ResultSubmission>(s, session, id) is Err ==> fails(
            loaded::<ResultSubmission>(s, session, id),
            FailureCode::NotFound,
        ),
        loaded::<Review>(s, session, id) matches Ok(value) ==> recorded_as(
            s,
            session,
            id,
            BodyModel::Review(value),
        ),
        loaded::<Review>(s, session, id) is Err ==> fails(
            loaded::<Review>(s, session, id),
            FailureCode::NotFound,
        ),
        forall|i: int|
            0 <= i < s.records.len() && (#[trigger] s.records[i]).id == id && s.records[i].session
                == session ==> match s.records[i].body {
                BodyModel::Task(value) => loaded::<Task>(s, session, id) == Ok::<TaskModel, WorkError>(value),
                BodyModel::Attempt(value) => loaded::<Attempt>(s, session, id) == Ok::<AttemptModel, WorkError>(value),
                BodyModel::Operation(value) => loaded::<Operation>(s, session, id) == Ok::<OperationModel, WorkError>(value),
                BodyModel::Result(value) => loaded::<ResultSubmission>(s, session, id) == Ok::<ResultSubmissionModel, WorkError>(value),
                BodyModel::Review(value) => loaded::<Review>(s, session, id) == Ok::<ReviewModel, WorkError>(value),
                _ => true,
            },
{
    position_in_range(s.records, id);
    assert forall|i: int| 0 <= i < s.records.len() && (#[trigger] s.records[i]).id == id implies position(
        s.records,
        id,
    ) == Some(i) by {
        found_where_filed(s.records, i);
    }
}

/// Whether a record is of a kind, in a session and under a task.
pub open spec fn is_filed<T: Stored>(record: RecordModel, session: Text, task: Text) -> bool {
    record.session == session && record.task_id == task && T::of(record.body) is Some
}

/// What is listed under a task are the values of that kind that are filed under it in its session,
/// all of them, in the order of the records.
pub proof fn lists_give_what_is_filed<T: Stored>(
    records: Seq<RecordModel>,
    session: Text,
    task: Text,
)
    ensures
        listed::<T>(records, session, task) == records.filter(
            |r: RecordModel| is_filed::<T>(r, session, task),
        ).map_values(|r: RecordModel| T::of(r.body)->0),
    decreases records.len(),
{
    reveal(Seq::filter);
    let pick = |r: RecordModel| is_filed::<T>(r, session, task);
    let value = |r: RecordModel| T::of(r.body)->0;
    if records.len() > 0 {
        let rest = records.drop_last();
        lists_give_what_is_filed::<T>(rest, session, task);
        let found = rest.filter(pick);
        if pick(records.last()) {
            assert(found.push(records.last()).map_values(value) =~= found.map_values(value).push(
                value(records.last()),
            ));
        }
    } else {
        assert(records.filter(pick).map_values(value) =~= Seq::<T::V>::empty());
    }
}

/// The kinds of body are told apart, and each holds its own value.
pub proof fn kinds_are_told_apart(body: BodyModel)
    ensures
        body matches BodyModel::Task(v) ==> Task::of(body) == Some(v),
        body matches BodyModel::Attempt(v) ==> Attempt::of(body) == Some(v),
        body matches BodyModel::Operation(v) ==> Operation::of(body) == Some(v),
        body matches BodyModel::Result(v) ==> ResultSubmission::of(body) == Some(v),
        body matches BodyModel::Review(v) ==> Review::of(body) == Some(v),
        body matches BodyModel::Reconciliation(v) ==> ReconciliationReceipt::of(body) == Some(v),
        body matches BodyModel::StartRefusal(v) ==> NativeStartRefusal::of(body) == Some(v),
        body matches BodyModel::InputShare(v) ==> InputShare::of(body) == Some(v),
        !(body is Task) ==> Task::of(body) is None,
        !(body is Attempt) ==> Attempt::of(body) is None,
        !(body is Operation) ==> Operation::of(body) is None,
        !(body is Result) ==> ResultSubmission::of(body) is None,
        !(body is Review) ==> Review::of(body) is None,
        !(body is Reconciliation) ==> ReconciliationReceipt::of(body) is None,
        !(body is StartRefusal) ==> NativeStartRefusal::of(body) is None,
        !(body is InputShare) ==> InputShare::of(body) is None,
{
}

/// How many records a session has under a task is how many there are.
pub proof fn filed_counts_records(records: Seq<RecordModel>, session: Text, task: Text)
    ensures
        filed(records, session, task) == records.filter(
            |r: RecordModel| r.session == session && r.task_id == task,
        ).len(),
    decreases records.len(),
{
    reveal(Seq::filter);
    if records.len() > 0 {
        filed_counts_records(records.drop_last(), session, task);
    }
}

/// A body that is filed under a new identifier becomes the last record, as it was given; under a
/// known one it takes the place of the old body, and the record stays where it was. No other
/// record changes, and nothing but the records. It is refused only for want of room, where a task
/// has its 1024 records.
pub proof fn filing_is_exact(s: StoreModel, session: Text, id: Text, task: Text, body: BodyModel)
    requires
        well_formed(s),
    ensures
        ({
            let held = records_under(s, session, task);
            let known = exists|i: int| 0 <= i < s.records.len() && (#[trigger] s.records[i]).id == id;
            match put(s, session, id, task, body) {
                Err(error) => error.0 == FailureCode::ResourceLimit && !known && held >= 1024,
                Ok(later) => {
                    let n = s.records.len() as int;
                    &&& later == (StoreModel { records: later.records, ..s })
                    &&& known ==> later.records.len() == n && forall|i: int|
                        0 <= i < n ==> (#[trigger] later.records[i]).id == s.records[i].id
                            && later.records[i].session == s.records[i].session
                            && later.records[i].task_id == s.records[i].task_id && (
                        later.records[i].body == if s.records[i].id == id {
                            body
                        } else {
                            s.records[i].body
                        })
                    &&& !known ==> held < 1024 && later.records.len() == n + 1 && later.records.take(
                        n,
                    ) == s.records && later.records[n].id == id && later.records[n].session
                        == session && later.records[n].task_id == task && later.records[n].body
                        == body
                },
            }
        }),
{
    filed_counts_records(s.records, session, task);
    position_in_range(s.records, id);
    assert forall|i: int| 0 <= i < s.records.len() && (#[trigger] s.records[i]).id == id implies position(
        s.records,
        id,
    ) == Some(i) by {
        found_where_filed(s.records, i);
    }
    if put(s, session, id, task, body) is Ok {
        let later = put(s, session, id, task, body)->Ok_0;
        if position(s.records, id) is None {
            assert(later.records.take(s.records.len() as int) =~= s.records);
        }
    }
}

/// How many records a session has under a task.
pub open spec fn records_under(s: StoreModel, session: Text, task: Text) -> nat {
    s.records.filter(|r: RecordModel| r.session == session && r.task_id == task).len()
}

/// A task is read with everything that is filed under it, and with the last cursor of the stream.
pub proof fn details_are_whole(s: StoreModel, session: Text, task_id: Text)
    requires
        well_formed(s),
    ensures
        detail_of(s, session, task_id) matches Ok(detail) ==> {
            &&& recorded_as(s, session, task_id, BodyModel::Task(detail.task))
            &&& detail.attempts == s.records.filter(
                |r: RecordModel| is_filed::<Attempt>(r, session, task_id),
            ).map_values(|r: RecordModel| Attempt::of(r.body)->0)
            &&& detail.operations == s.records.filter(
                |r: RecordModel| is_filed::<Operation>(r, session, task_id),
            ).map_values(|r: RecordModel| Operation::of(r.body)->0)
            &&& detail.results == s.records.filter(
                |r: RecordModel| is_filed::<ResultSubmission>(r, session, task_id),
            ).map_values(|r: RecordModel| ResultSubmission::of(r.body)->0)
            &&& detail.reviews == s.records.filter(
                |r: RecordModel| is_filed::<Review>(r, session, task_id),
            ).map_values(|r: RecordModel| Review::of(r.body)->0)
            &&& s.changes.len() > 0 ==> detail.cursor == s.changes.last().cursor
            &&& s.changes.len() == 0 ==> detail.cursor == 0
        },
        detail_of(s, session, task_id) is Err ==> fails(
            detail_of(s, session, task_id),
            FailureCode::NotFound,
        ) && forall|i: int|
            0 <= i < s.records.len() && (#[trigger] s.records[i]).id == task_id
                && s.records[i].session == session ==> !(s.records[i].body is Task),
{
    reads_give_what_is_recorded(s, session, task_id);
    lists_give_what_is_filed::<Attempt>(s.records, session, task_id);
    lists_give_what_is_filed::<Operation>(s.records, session, task_id);
    lists_give_what_is_filed::<ResultSubmission>(s.records, session, task_id);
    lists_give_what_is_filed::<Review>(s.records, session, task_id);
    if s.changes.len() > 0 {
        last_is_largest(s.changes, s.last_cursor);
    }
}

/// Whether an entry shows a change row of a session, field by field.
pub open spec fn tells_of(item: TaskChangeModel, row: ChangeRowModel, session: Text) -> bool {
    &&& row.session == session
    &&& item.cursor == row.cursor
    &&& item.task_id == row.task_id
    &&& item.revision == row.revision
    &&& item.kind == row.kind
    &&& item.entity_id == row.entity_id
}

/// The entries of a stretch are the first rows of the session after the cursor, field by field.
proof fn entries_tell_of_rows(
    changes: Seq<ChangeRowModel>,
    session: Text,
    after: u64,
    limit: nat,
)
    ensures
        ({
            let found = entries(changes, session, after, limit);
            let asked = changes.filter(
                |r: ChangeRowModel| r.session == session && r.cursor > after,
            );
            &&& found.len() == if asked.len() < limit {
                asked.len()
            } else {
                limit
            }
            &&& forall|k: int|
                0 <= k < found.len() ==> tells_of(#[trigger] found[k], asked[k], session)
        }),
    decreases changes.len(),
{
    reveal(Seq::filter);
    if changes.len() > 0 {
        entries_tell_of_rows(changes.drop_last(), session, after, limit);
    }
}

/// A page of the stream shows the first changes of its session after the reader's cursor, as many
/// as were asked for, each with the cursor, the task, the revision, the kind and the entity of its
/// row. It leads on to its last entry, or to the end of the stream where it has none. A reader
/// starts over exactly where the stream never gave out its cursor or has dropped the change after
/// it. Between 1 and 100 entries may be asked for.
pub proof fn stream_pages_tell_of_rows(s: StoreModel, session: Text, after: u64, limit: u32)
    requires
        well_formed(s),
    ensures
        fails(change_page(s, session, after, limit), FailureCode::InvalidInput) <==> (limit == 0
            || limit > 100),
        change_page(s, session, after, limit) is Err ==> limit == 0 || limit > 100,
        change_page(s, session, after, limit) matches Ok(page) ==> {
            let latest = if s.changes.len() > 0 {
                s.changes.last().cursor
            } else {
                0
            };
            let asked = s.changes.filter(
                |r: ChangeRowModel| r.session == session && r.cursor > after,
            );
            &&& page.reset_required <==> after > latest || (after > 0 && s.changes.len() > 0 && after
                + 1 < s.changes[0].cursor)
            &&& page.reset_required ==> page.changes.len() == 0 && page.cursor == latest
            &&& !page.reset_required ==> {
                &&& page.changes.len() == if asked.len() < limit {
                    asked.len()
                } else {
                    limit as nat
                }
                &&& forall|k: int|
                    0 <= k < page.changes.len() ==> tells_of(
                        #[trigger] page.changes[k],
                        asked[k],
                        session,
                    )
                &&& page.cursor == if page.changes.len() > 0 {
                    page.changes.last().cursor
                } else {
                    latest
                }
            }
        },
{
    if s.changes.len() > 0 {
        last_is_largest(s.changes, s.last_cursor);
        first_is_smallest(s.changes, s.last_cursor);
    }
    entries_tell_of_rows(s.changes, session, after, limit as nat);
}

/// The first change of an ascending stream has the smallest cursor.
proof fn first_is_smallest(changes: Seq<ChangeRowModel>, last_cursor: u64)
    requires
        ascending(changes, last_cursor),
        changes.len() > 0,
    ensures
        min_cursor(changes) == changes[0].cursor,
    decreases changes.len(),
{
    if changes.len() > 1 {
        let rest = changes.drop_last();
        assert forall|i: int, j: int| 0 <= i < j < rest.len() implies (#[trigger] rest[i]).cursor < (
        #[trigger] rest[j]).cursor by {
            assert(changes[i].cursor < changes[j].cursor);
        }
        first_is_smallest(rest, last_cursor);
        assert(changes[0].cursor < changes[changes.len() - 1].cursor);
    }
}

/// Whether a store ends with the announcement of a change of a task: one entry more, with the next
/// cursor, of this kind and about this entity.
pub open spec fn announces(
    before: StoreModel,
    later: StoreModel,
    session: Text,
    task_id: Text,
    revision: int,
    kind: Text,
    entity: Text,
) -> bool {
    &&& later.last_cursor == before.last_cursor + 1
    &&& later.changes.len() > 0
    &&& later.changes.last().cursor == later.last_cursor
    &&& later.changes.last().session == session
    &&& later.changes.last().task_id == task_id
    &&& later.changes.last().revision == revision
    &&& later.changes.last().kind == kind
    &&& later.changes.last().entity_id == entity
    &&& forall|r: ChangeRowModel|
        before.changes.contains(r) && r.cursor + 10000 > later.last_cursor
            ==> #[trigger] later.changes.contains(r)
    &&& forall|r: ChangeRowModel|
        #[trigger] later.changes.contains(r) ==> r.cursor + 10000 > later.last_cursor && (
        before.changes.contains(r) || r.cursor == later.last_cursor)
}

/// What is above a floor keeps its last entry.
proof fn last_stays_above(changes: Seq<ChangeRowModel>, floor: int)
    requires
        changes.len() > 0,
        changes.last().cursor > floor,
    ensures
        above(changes, floor).len() > 0,
        above(changes, floor).last() == changes.last(),
{
}

/// What is left above a floor is above it.
proof fn rest_is_above(changes: Seq<ChangeRowModel>, floor: int)
    ensures
        forall|r: ChangeRowModel| #[trigger]
            above(changes, floor).contains(r) <==> changes.contains(r) && r.cursor > floor,
    decreases changes.len(),
{
    if changes.len() > 0 {
        let rest = changes.drop_last();
        rest_is_above(rest, floor);
        let last = changes.last();
        assert forall|r: ChangeRowModel| changes.contains(r) <==> rest.contains(r) || r == last by {
            if rest.contains(r) {
                let k = choose|k: int| 0 <= k < rest.len() && rest[k] == r;
                assert(changes[k] == r);
            }
            if r == last {
                assert(changes[changes.len() - 1] == r);
            }
            if changes.contains(r) && r != last {
                let k = choose|k: int| 0 <= k < changes.len() && changes[k] == r;
                assert(rest[k] == r);
            }
        }
        let (a, b) = (above(rest, floor), above(changes, floor));
        if last.cursor > floor {
            assert forall|r: ChangeRowModel| b.contains(r) <==> a.contains(r) || r == last by {
                if a.contains(r) {
                    let k = choose|k: int| 0 <= k < a.len() && a[k] == r;
                    assert(b[k] == r);
                }
                assert(b[a.len() as int] == last);
                if b.contains(r) && r != last {
                    let k = choose|k: int| 0 <= k < b.len() && b[k] == r;
                    assert(a[k] == r);
                }
            }
        }
    } else {
        assert(above(changes, floor) =~= changes);
    }
}

/// A change of a task raises its revision by one, dates it, leaves the rest of it as it was given,
/// files it, and announces it. The stream keeps the last 10000 cursors.
pub proof fn changes_are_announced(
    s: StoreModel,
    task: TaskModel,
    kind: Text,
    entity: Text,
    now: i64,
)
    requires
        well_formed(s),
    ensures
        changed(s, task, kind, entity, now) matches Ok((later, next)) ==> {
            &&& next.revision == task.revision + 1
            &&& next.updated_at_ms == now
            &&& next == (TaskModel {
                revision: next.revision,
                updated_at_ms: next.updated_at_ms,
                ..task
            })
            &&& announces(s, later, task.session_id, task.id, next.revision as int, kind, entity)
            &&& put(s, task.session_id, task.id, task.id, BodyModel::Task(next)) matches Ok(filed)
                && later.records == filed.records
            &&& later.receipts == s.receipts && later.inputs == s.inputs && later.deliveries
                == s.deliveries
        },
{
    if changed(s, task, kind, entity, now) is Ok {
        let (later, next) = changed(s, task, kind, entity, now)->Ok_0;
        let cursor = later.last_cursor;
        let row = ChangeRowModel {
            cursor,
            session: next.session_id,
            task_id: next.id,
            revision: next.revision,
            kind,
            entity_id: entity,
        };
        let all = s.changes.push(row);
        assert(ascending(all, cursor));
        last_is_largest(all, cursor);
        assert(later.changes == above(all, max_cursor(all) - KEPT_CHANGES));
        last_stays_above(all, max_cursor(all) - KEPT_CHANGES);
        rest_is_above(all, max_cursor(all) - KEPT_CHANGES);
        assert forall|r: ChangeRowModel| all.contains(r) <==> s.changes.contains(r) || r == row by {
            if s.changes.contains(r) {
                let k = choose|k: int| 0 <= k < s.changes.len() && s.changes[k] == r;
                assert(all[k] == r);
            }
            assert(all[s.changes.len() as int] == row);
            if all.contains(r) && r != row {
                let k = choose|k: int| 0 <= k < all.len() && all[k] == r;
                assert(s.changes[k] == r);
            }
        }
    }
}

/// Rows that are all too early are not asked for.
proof fn early_rows_are_not_asked(changes: Seq<ChangeRowModel>, session: Text, after: u64)
    requires
        forall|i: int| 0 <= i < changes.len() ==> (#[trigger] changes[i]).cursor <= after,
    ensures
        changes.filter(|r: ChangeRowModel| r.session == session && r.cursor > after).len() == 0,
    decreases changes.len(),
{
    reveal(Seq::filter);
    if changes.len() > 0 {
        let rest = changes.drop_last();
        assert forall|i: int| 0 <= i < rest.len() implies (#[trigger] rest[i]).cursor <= after by {
            assert(rest[i] == changes[i]);
        }
        early_rows_are_not_asked(rest, session, after);
        assert(changes[changes.len() - 1].cursor <= after);
    }
}

/// A reader that had read all there was reads the one change that was announced since, and nothing
/// else, whoever else was reading.
pub proof fn announcements_are_read(
    before: StoreModel,
    later: StoreModel,
    session: Text,
    task_id: Text,
    revision: int,
    kind: Text,
    entity: Text,
    limit: u32,
)
    requires
        well_formed(before),
        well_formed(later),
        announces(before, later, session, task_id, revision, kind, entity),
        0 < limit <= 100,
    ensures
        change_page(later, session, before.last_cursor, limit) matches Ok(page) && {
            &&& !page.reset_required
            &&& page.changes.len() == 1
            &&& page.changes[0].cursor == later.last_cursor
            &&& page.changes[0].task_id == task_id
            &&& page.changes[0].revision == revision
            &&& page.changes[0].kind == kind
            &&& page.changes[0].entity_id == entity
            &&& page.cursor == later.last_cursor
        },
{
    let after = before.last_cursor;
    let pick = |r: ChangeRowModel| r.session == session && r.cursor > after;
    let rest = later.changes.drop_last();
    stream_pages_tell_of_rows(later, session, after, limit);
    reveal(Seq::filter);
    assert forall|i: int| 0 <= i < rest.len() implies (#[trigger] rest[i]).cursor <= after by {
        assert(later.changes[i].cursor < later.changes[later.changes.len() - 1].cursor);
    }
    early_rows_are_not_asked(rest, session, after);
    assert(rest.filter(pick) =~= Seq::<ChangeRowModel>::empty());
    assert(later.changes.filter(pick) =~= Seq::empty().push(later.changes.last()));
    assert(later.changes[0].cursor <= later.last_cursor);
}

} // verus!
