//! The change stream.
use vstd::prelude::*;
use crate::text::text_eq;
use crate::value::Replica;
use crate::value::Text;
use crate::value::add_row;
use crate::value::no_items;
use crate::value::shown;
use crate::work::model::ChangePage;
use crate::work::model::ChangePageModel;
use crate::work::model::FailureCode;
use crate::work::model::Operation;
use crate::work::model::OperationModel;
use crate::work::model::Task;
use crate::work::model::TaskActivity;
use crate::work::model::TaskActivityModel;
use crate::work::model::TaskChange;
use crate::work::model::TaskChangeModel;
use crate::work::model::TaskModel;
use crate::work::model::TaskSummaryModel;
use crate::work::model::WorkError;
use crate::work::model::WorkResult;
use crate::work::store::history::ascending;
use crate::work::store::history::last_is_largest;
use crate::work::store::history::putting_is_local;
use crate::work::store::history::well_formed;
use crate::work::store::records::loaded;
use crate::work::store::records::put;
use crate::work::store::records::refuse;
use crate::work::store::records::refused;
use crate::work::store::summaries::marked;
use crate::work::store::summaries::projected;
use crate::work::store::summaries::summarized;
use crate::work::store::summaries::summary_at;
use crate::work::store::summaries::summary_of;
use crate::work::store::summaries::watermark_at;
use crate::work::store::tables::Body;
use crate::work::store::tables::BodyModel;
use crate::work::store::tables::ChangeRow;
use crate::work::store::tables::ChangeRowModel;
use crate::work::store::tables::StoreModel;
use crate::work::store::tables::SummaryRowModel;
use crate::work::store::tables::WatermarkRowModel;
use crate::work::store::tables::WorkStore;
use crate::work::store::task_list::labelled;
use crate::work::store::task_list::summarizing_keeps_labels;
use crate::work::store::task_list::watermark_of;
use crate::work_http::changes;

verus! {

/// How far back the stream reaches.
pub const KEPT_CHANGES: u64 = 10000;

/// The largest cursor and revision that a row can hold.
pub const MAX_ROW_NUMBER: u64 = 0x7fff_ffff_ffff_ffff;

/// The largest cursor in the stream, zero for an empty one.
pub open spec fn max_cursor(changes: Seq<ChangeRowModel>) -> u64
    decreases changes.len(),
{
    if changes.len() == 0 {
        0
    } else {
        let before = max_cursor(changes.drop_last());
        if changes.last().cursor > before {
            changes.last().cursor
        } else {
            before
        }
    }
}

/// The smallest cursor in the stream, zero for an empty one.
pub open spec fn min_cursor(changes: Seq<ChangeRowModel>) -> u64
    decreases changes.len(),
{
    if changes.len() == 0 {
        0
    } else if changes.len() == 1 {
        changes[0].cursor
    } else {
        let before = min_cursor(changes.drop_last());
        if changes.last().cursor < before {
            changes.last().cursor
        } else {
            before
        }
    }
}

/// The changes above a cursor.
pub open spec fn above(changes: Seq<ChangeRowModel>, floor: int) -> Seq<ChangeRowModel>
    decreases changes.len(),
{
    if changes.len() == 0 {
        Seq::empty()
    } else if changes.last().cursor > floor {
        above(changes.drop_last(), floor).push(changes.last())
    } else {
        above(changes.drop_last(), floor)
    }
}

/// The task as a change leaves it.
pub open spec fn revised(task: TaskModel, now: i64) -> TaskModel {
    TaskModel { revision: (task.revision + 1) as u64, updated_at_ms: now, ..task }
}

/// The store after a task was changed, with the task as it then stands: its revision is one
/// higher, the stream has one entry more and reaches back no further than it may.
pub open spec fn changed(
    s: StoreModel,
    task: TaskModel,
    kind: Text,
    entity: Text,
    now: i64,
) -> WorkResult<(StoreModel, TaskModel)> {
    if task.revision == u64::MAX {
        refused(FailureCode::StorageUnavailable)
    } else {
        let next = revised(task, now);
        match put(s, next.session_id, next.id, next.id, BodyModel::Task(next)) {
            Err(error) => Err(error),
            Ok(filed) => if next.revision > MAX_ROW_NUMBER || filed.last_cursor >= MAX_ROW_NUMBER {
                refused(FailureCode::StorageUnavailable)
            } else {
                let cursor = (filed.last_cursor + 1) as u64;
                let streamed = StoreModel {
                    changes: filed.changes.push(
                        ChangeRowModel {
                            cursor,
                            session: next.session_id,
                            task_id: next.id,
                            revision: next.revision,
                            kind,
                            entity_id: entity,
                        },
                    ),
                    last_cursor: cursor,
                    ..filed
                };
                match projected(
                    streamed,
                    next.session_id,
                    next.id,
                    TaskActivityModel { cursor, kind, entity_id: entity },
                ) {
                    Err(error) => Err(error),
                    Ok(shown) => Ok(
                        (
                            StoreModel {
                                changes: above(
                                    shown.changes,
                                    max_cursor(shown.changes) - KEPT_CHANGES,
                                ),
                                ..shown
                            },
                            next,
                        ),
                    ),
                }
            },
        }
    }
}

/// The store after an operation was filed and its task changed on its account.
pub open spec fn operation_saved(
    s: StoreModel,
    session: Text,
    op: OperationModel,
    now: i64,
) -> WorkResult<StoreModel> {
    match put(s, session, op.id, op.task_id, BodyModel::Operation(op)) {
        Err(error) => Err(error),
        Ok(filed) => match loaded::<Task>(filed, session, op.task_id) {
            Err(error) => Err(error),
            Ok(task) => match changed(filed, task, "operation_changed"@, op.id, now) {
                Err(error) => Err(error),
                Ok((next, _)) => Ok(next),
            },
        },
    }
}

/// The entry that a change row shows to its session.
pub open spec fn entry(row: ChangeRowModel) -> TaskChangeModel {
    TaskChangeModel {
        cursor: row.cursor,
        task_id: row.task_id,
        revision: row.revision,
        kind: row.kind,
        entity_id: row.entity_id,
    }
}

/// The first entries of a session's stream after a cursor.
pub open spec fn entries(
    changes: Seq<ChangeRowModel>,
    session: Text,
    after: u64,
    limit: nat,
) -> Seq<TaskChangeModel>
    decreases changes.len(),
{
    if changes.len() == 0 {
        Seq::empty()
    } else {
        let before = entries(changes.drop_last(), session, after, limit);
        let last = changes.last();
        if before.len() < limit && last.session == session && last.cursor > after {
            before.push(entry(last))
        } else {
            before
        }
    }
}

/// A stretch of a session's stream. A cursor that the stream never gave out, or that it no
/// longer reaches back to, asks the reader to start over.
pub open spec fn change_page(s: StoreModel, session: Text, after: u64, limit: u32) -> WorkResult<
    ChangePageModel,
> {
    let latest = max_cursor(s.changes);
    let oldest = min_cursor(s.changes);
    if limit == 0 || limit > 100 {
        refused(FailureCode::InvalidInput)
    } else if after > latest || (after > 0 && after < oldest - 1) {
        Ok(ChangePageModel { changes: Seq::empty(), cursor: latest, reset_required: true })
    } else {
        let changes = entries(s.changes, session, after, limit as nat);
        Ok(
            ChangePageModel {
                changes,
                cursor: if changes.len() > 0 {
                    changes.last().cursor
                } else {
                    latest
                },
                reset_required: false,
            },
        )
    }
}

impl WorkStore {
    /// The largest cursor in the stream.
    pub(crate) fn cursor(&self) -> (res: u64)
        ensures
            res == max_cursor(self@.changes),
    {
        let ghost all = self@.changes;
        let mut res: u64 = 0;
        let mut i: usize = 0;
        while i < self.changes.len()
            invariant
                i <= self.changes.len(),
                all == self@.changes,
                res == max_cursor(all.take(i as int)),
            decreases self.changes.len() - i,
        {
            assert(all.take(i + 1).drop_last() =~= all.take(i as int));
            let cursor: u64 = self.changes[i].cursor;
            if cursor > res {
                res = cursor;
            }
            i += 1;
        }
        assert(all.take(i as int) =~= all);
        res
    }

    fn oldest(&self) -> (res: u64)
        ensures
            res == min_cursor(self@.changes),
    {
        let ghost all = self@.changes;
        if self.changes.len() == 0 {
            return 0;
        }
        let mut res: u64 = self.changes[0].cursor;
        let mut i: usize = 1;
        while i < self.changes.len()
            invariant
                1 <= i <= self.changes.len(),
                all == self@.changes,
                res == min_cursor(all.take(i as int)),
            decreases self.changes.len() - i,
        {
            assert(all.take(i + 1).drop_last() =~= all.take(i as int));
            let cursor: u64 = self.changes[i].cursor;
            if cursor < res {
                res = cursor;
            }
            i += 1;
        }
        assert(all.take(i as int) =~= all);
        res
    }

    fn prune(&mut self)
        ensures
            final(self)@ == (StoreModel {
                changes: above(
                    old(self)@.changes,
                    max_cursor(old(self)@.changes) - KEPT_CHANGES,
                ),
                ..old(self)@
            }),
    {
        let latest: u64 = self.cursor();
        let ghost all = self@.changes;
        let ghost floor = latest - KEPT_CHANGES;
        let mut kept: Vec<ChangeRow> = no_items();
        let mut i: usize = 0;
        while i < self.changes.len()
            invariant
                i <= self.changes.len(),
                all == self@.changes,
                self@ == old(self)@,
                floor == latest - KEPT_CHANGES,
                kept.deep_view() == above(all.take(i as int), floor),
            decreases self.changes.len() - i,
        {
            assert(all.take(i + 1).drop_last() =~= all.take(i as int));
            let cursor: u64 = self.changes[i].cursor;
            if latest < KEPT_CHANGES || cursor > latest - KEPT_CHANGES {
                add_row(&mut kept, self.changes[i].replica());
            }
            i += 1;
        }
        assert(all.take(i as int) =~= all);
        self.changes = kept;
    }

    /// Changes a task. On failure the caller discards the store.
    pub(crate) fn change(&mut self, task: Task, kind: &str, entity: &str, now: i64) -> (res:
        WorkResult<Task>)
        ensures
            match changed(old(self)@, task.deep_view(), kind@, entity@, now) {
                Ok((next, value)) => final(self)@ == next && shown(res) == Ok::<
                    TaskModel,
                    WorkError,
                >(value),
                Err(error) => res == Err::<Task, WorkError>(error),
            },
    {
        if task.revision == u64::MAX {
            return refuse(FailureCode::StorageUnavailable);
        }
        let mut task = task;
        task.revision = task.revision + 1;
        task.updated_at_ms = now;
        let copy = task.replica();
        self.put(task.session_id.as_str(), task.id.as_str(), task.id.as_str(), Body::Task(copy))?;
        if task.revision > MAX_ROW_NUMBER || self.last_cursor >= MAX_ROW_NUMBER {
            return refuse(FailureCode::StorageUnavailable);
        }
        let cursor: u64 = self.last_cursor + 1;
        add_row(
            &mut self.changes,
            ChangeRow {
                cursor,
                session: task.session_id.clone(),
                task_id: task.id.clone(),
                revision: task.revision,
                kind: kind.to_string(),
                entity_id: entity.to_string(),
            },
        );
        self.last_cursor = cursor;
        let activity = TaskActivity {
            cursor,
            kind: kind.to_string(),
            entity_id: entity.to_string(),
        };
        self.project(task.session_id.as_str(), task.id.as_str(), activity)?;
        self.prune();
        Ok(task)
    }

    /// Files an operation and changes its task on its account. On failure the caller discards
    /// the store.
    pub(crate) fn save_operation(&mut self, session: &str, op: &Operation, now: i64) -> (res:
        WorkResult<()>)
        ensures
            match operation_saved(old(self)@, session@, op.deep_view(), now) {
                Ok(next) => res is Ok && final(self)@ == next,
                Err(error) => res == Err::<(), WorkError>(error),
            },
    {
        self.put(session, op.id.as_str(), op.task_id.as_str(), Body::Operation(op.replica()))?;
        let task = self.load::<Task>(session, op.task_id.as_str())?;
        let _ = self.change(task, "operation_changed", op.id.as_str(), now)?;
        Ok(())
    }

    /// Reads a stretch of a session's change stream.
    pub fn changes(&self, session: &str, after_cursor: u64, limit: u32) -> (res: WorkResult<
        ChangePage,
    >)
        ensures
            shown(res) == change_page(self@, session@, after_cursor, limit),
    {
        if limit == 0 || limit > 100 {
            return refuse(FailureCode::InvalidInput);
        }
        let latest: u64 = self.cursor();
        let oldest: u64 = self.oldest();
        if after_cursor > latest || (after_cursor > 0 && oldest > 0 && after_cursor < oldest - 1) {
            return Ok(ChangePage { changes: no_items(), cursor: latest, reset_required: true });
        }
        let ghost all = self@.changes;
        let mut changes: Vec<TaskChange> = no_items();
        let mut i: usize = 0;
        while i < self.changes.len()
            invariant
                i <= self.changes.len(),
                all == self@.changes,
                changes.deep_view() == entries(
                    all.take(i as int),
                    session@,
                    after_cursor,
                    limit as nat,
                ),
            decreases self.changes.len() - i,
        {
            assert(all.take(i + 1).drop_last() =~= all.take(i as int));
            let row = &self.changes[i];
            if changes.len() < limit as usize && text_eq(row.session.as_str(), session)
                && row.cursor > after_cursor {
                add_row(
                    &mut changes,
                    TaskChange {
                        cursor: row.cursor,
                        task_id: row.task_id.clone(),
                        revision: row.revision,
                        kind: row.kind.clone(),
                        entity_id: row.entity_id.clone(),
                    },
                );
            }
            i += 1;
        }
        assert(all.take(i as int) =~= all);
        let cursor: u64 = if changes.len() > 0 {
            changes[changes.len() - 1].cursor
        } else {
            latest
        };
        Ok(ChangePage { changes, cursor, reset_required: false })
    }
}

/// Whether a change row is one that a reader of a session asks for.
pub open spec fn is_asked(row: ChangeRowModel, session: Text, after: u64) -> bool {
    row.session == session && row.cursor > after
}

/// The entries of a stretch are in order and among those asked for; one that is asked for and is
/// missing comes after all of them, and only where the limit is reached.
proof fn entries_in_order(changes: Seq<ChangeRowModel>, session: Text, after: u64, limit: nat, last: u64)
    requires
        ascending(changes, last),
        limit > 0,
    ensures
        ({
            let found = entries(changes, session, after, limit);
            &&& found.len() <= limit
            &&& forall|i: int| 0 <= i < found.len() ==> (#[trigger] found[i]).cursor > after
                && found[i].cursor <= last
            &&& forall|i: int, j: int|
                0 <= i < j < found.len() ==> (#[trigger] found[i]).cursor < (
                #[trigger] found[j]).cursor
            &&& forall|i: int, k: int|
                0 <= i < found.len() && k == changes.len() - 1 ==> (#[trigger] found[i]).cursor
                    <= (#[trigger] changes[k]).cursor
            &&& forall|k: int|
                0 <= k < changes.len() && is_asked(#[trigger] changes[k], session, after)
                    ==> found.contains(entry(changes[k])) || (found.len() == limit
                    && found.last().cursor < changes[k].cursor)
        }),
    decreases changes.len(),
{
    if changes.len() > 0 {
        let rest = changes.drop_last();
        let row = changes.last();
        assert(row == changes[changes.len() - 1]);
        assert forall|i: int, j: int| 0 <= i < j < rest.len() implies (#[trigger] rest[i]).cursor < (
        #[trigger] rest[j]).cursor by {
            assert(changes[i].cursor < changes[j].cursor);
        }
        entries_in_order(rest, session, after, limit, last);
        let before = entries(rest, session, after, limit);
        let found = entries(changes, session, after, limit);
        assert forall|i: int| 0 <= i < before.len() implies (#[trigger] before[i]).cursor
            < row.cursor by {
            if rest.len() > 0 {
                assert(before[i].cursor <= rest[rest.len() - 1].cursor);
                assert(changes[rest.len() - 1] == rest[rest.len() - 1]);
            }
        }
        assert forall|k: int| 0 <= k < changes.len() && is_asked(
            #[trigger] changes[k],
            session,
            after,
        ) implies found.contains(entry(changes[k])) || (found.len() == limit && found.last().cursor
            < changes[k].cursor) by {
            if k < rest.len() {
                assert(rest[k] == changes[k]);
                if before.contains(entry(changes[k])) {
                    let n = choose|n: int| 0 <= n < before.len() && before[n] == entry(changes[k]);
                    assert(found[n] == entry(changes[k]));
                }
            } else if before.len() < limit {
                assert(found[before.len() as int] == entry(row));
            } else {
                assert(before[before.len() - 1].cursor < row.cursor);
            }
        }
    }
}

/// The entries of a page are in the order of their cursors, after the reader's and up to the
/// page's.
pub proof fn pages_are_ordered(s: StoreModel, session: Text, after: u64, limit: u32)
    requires
        well_formed(s),
    ensures
        change_page(s, session, after, limit) matches Ok(page) ==> {
            &&& page.changes.len() <= limit
            &&& forall|i: int|
                0 <= i < page.changes.len() ==> after < (#[trigger] page.changes[i]).cursor
                    && page.changes[i].cursor <= page.cursor
            &&& forall|i: int, j: int|
                0 <= i < j < page.changes.len() ==> (#[trigger] page.changes[i]).cursor < (
                #[trigger] page.changes[j]).cursor
        },
{
    if 0 < limit {
        entries_in_order(s.changes, session, after, limit as nat, s.last_cursor);
    }
}

/// A page skips nothing: every change of the session after the reader's cursor and up to the
/// page's is in it.
pub proof fn pages_skip_nothing(
    s: StoreModel,
    session: Text,
    after: u64,
    limit: u32,
    row: ChangeRowModel,
)
    requires
        well_formed(s),
        s.changes.contains(row),
        is_asked(row, session, after),
    ensures
        change_page(s, session, after, limit) matches Ok(page) ==> (!page.reset_required
            && row.cursor <= page.cursor ==> page.changes.contains(entry(row))),
{
    if 0 < limit {
        entries_in_order(s.changes, session, after, limit as nat, s.last_cursor);
        let k = choose|k: int| 0 <= k < s.changes.len() && s.changes[k] == row;
        assert(is_asked(s.changes[k], session, after));
    }
}

/// A reader whose cursor the stream gave out and still reaches back to need not start over.
pub proof fn readers_that_keep_up_go_on(s: StoreModel, session: Text, after: u64, limit: u32)
    requires
        well_formed(s),
        0 < limit <= 100,
        exists|i: int| 0 <= i < s.changes.len() && (#[trigger] s.changes[i]).cursor == after,
    ensures
        change_page(s, session, after, limit) matches Ok(page) && !page.reset_required,
{
    let i = choose|i: int| 0 <= i < s.changes.len() && (#[trigger] s.changes[i]).cursor == after;
    last_is_largest(s.changes, s.last_cursor);
    assert(s.changes.last() == s.changes[s.changes.len() - 1]);
    smallest_is_least(s.changes, i);
}

proof fn smallest_is_least(changes: Seq<ChangeRowModel>, i: int)
    requires
        0 <= i < changes.len(),
    ensures
        min_cursor(changes) <= changes[i].cursor,
    decreases changes.len(),
{
    if changes.len() > 1 {
        if i < changes.len() - 1 {
            assert(changes.drop_last()[i] == changes[i]);
            smallest_is_least(changes.drop_last(), i);
        }
    }
}

/// After a task was changed, its row in the task list is what its records give, and the list of
/// its session stands at the cursor of the change.
pub proof fn list_is_current(s: StoreModel, task: TaskModel, kind: Text, entity: Text, now: i64)
    ensures
        changed(s, task, kind, entity, now) matches Ok((later, next)) ==> {
            &&& summary_at(later.summaries, next.session_id, next.id) matches Some(i)
                && later.summaries[i].body == summary_of(later, next.session_id, next)
            &&& watermark_of(later, next.session_id) == later.last_cursor
        },
{
    if changed(s, task, kind, entity, now) is Ok {
        let (later, next) = changed(s, task, kind, entity, now)->Ok_0;
        let body = BodyModel::Task(next);
        putting_is_local(s, next.session_id, next.id, next.id, body, next.id);
        summary_is_written(
            s.summaries,
            next.session_id,
            next.id,
            summary_of(later, next.session_id, next),
        );
        mark_is_written(s.watermarks, next.session_id, later.last_cursor);
        let filed = put(s, next.session_id, next.id, next.id, body)->Ok_0;
        assert(later.records == filed.records);
        assert(loaded::<Task>(later, next.session_id, next.id) == Ok::<TaskModel, WorkError>(next));
    }
}

proof fn summary_is_written(
    rows: Seq<SummaryRowModel>,
    session: Text,
    task: Text,
    body: TaskSummaryModel,
)
    ensures
        ({
            let later = summarized(rows, session, task, body);
            summary_at(later, session, task) matches Some(i) && 0 <= i < later.len()
                && later[i].body == body
        }),
{
    summary_in_range(rows, session, task);
    match summary_at(rows, session, task) {
        Some(i) => {
            summaries_alike(rows, rows.update(i, SummaryRowModel { body, ..rows[i] }), session, task);
        },
        None => {},
    }
}

/// A summary that is found is in its place, and of its task.
pub proof fn summary_in_range(rows: Seq<SummaryRowModel>, session: Text, task: Text)
    ensures
        summary_at(rows, session, task) matches Some(i) ==> 0 <= i < rows.len() && rows[i].session
            == session && rows[i].task_id == task,
    decreases rows.len(),
{
    if rows.len() > 0 {
        summary_in_range(rows.drop_last(), session, task);
    }
}

/// Changing a task leaves the rows of the task list labelled.
pub proof fn changing_keeps_labels(
    s: StoreModel,
    task: TaskModel,
    kind: Text,
    entity: Text,
    now: i64,
)
    requires
        labelled(s.summaries),
    ensures
        changed(s, task, kind, entity, now) matches Ok((later, _)) ==> labelled(later.summaries),
{
    if changed(s, task, kind, entity, now) is Ok {
        let (later, next) = changed(s, task, kind, entity, now)->Ok_0;
        list_is_current(s, task, kind, entity, now);
        summarizing_keeps_labels(
            s.summaries,
            next.session_id,
            next.id,
            summary_of(later, next.session_id, next),
        );
        putting_is_local(s, next.session_id, next.id, next.id, BodyModel::Task(next), next.id);
    }
}

pub proof fn summaries_alike(
    a: Seq<SummaryRowModel>,
    b: Seq<SummaryRowModel>,
    session: Text,
    task: Text,
)
    requires
        a.len() == b.len(),
        forall|i: int|
            0 <= i < a.len() ==> (#[trigger] a[i]).session == b[i].session && a[i].task_id
                == b[i].task_id,
    ensures
        summary_at(a, session, task) == summary_at(b, session, task),
    decreases a.len(),
{
    if a.len() > 0 {
        assert(a.last() == a[a.len() - 1]);
        summaries_alike(a.drop_last(), b.drop_last(), session, task);
    }
}

proof fn mark_is_written(rows: Seq<WatermarkRowModel>, session: Text, cursor: u64)
    ensures
        ({
            let later = marked(rows, session, cursor);
            watermark_at(later, session) matches Some(i) && 0 <= i < later.len()
                && later[i].cursor == cursor
        }),
    decreases rows.len(),
{
    mark_in_range(rows, session);
    match watermark_at(rows, session) {
        Some(i) => {
            marks_alike(rows, rows.update(i, WatermarkRowModel { cursor, ..rows[i] }), session);
        },
        None => {},
    }
}

pub proof fn mark_in_range(rows: Seq<WatermarkRowModel>, session: Text)
    ensures
        watermark_at(rows, session) matches Some(i) ==> 0 <= i < rows.len(),
    decreases rows.len(),
{
    if rows.len() > 0 {
        mark_in_range(rows.drop_last(), session);
    }
}

pub proof fn marks_alike(a: Seq<WatermarkRowModel>, b: Seq<WatermarkRowModel>, session: Text)
    requires
        a.len() == b.len(),
        forall|i: int| 0 <= i < a.len() ==> (#[trigger] a[i]).session == b[i].session,
    ensures
        watermark_at(a, session) == watermark_at(b, session),
    decreases a.len(),
{
    if a.len() > 0 {
        assert(a.last() == a[a.len() - 1]);
        marks_alike(a.drop_last(), b.drop_last(), session);
    }
}

} // verus!
