//! Reading the task list in pages, and building it anew.
use vstd::prelude::*;
use crate::digest::is_uuid;
use crate::digest::uuid_text;
use crate::json::ToJson;
use crate::text::bounded;
use crate::text::byte_len;
use crate::text::bytes_in;
use crate::text::is_bounded;
use crate::text::order_is_strict;
use crate::text::order_is_total;
use crate::text::order_is_transitive;
use crate::text::precedes;
use crate::text::text_before;
use crate::text::text_eq;
use crate::value::Replica;
use crate::value::Text;
use crate::value::add_row;
use crate::value::no_items;
use crate::value::pop_row;
use crate::value::set_row;
use crate::value::shown;
use crate::work::model::FailureCode;
use crate::work::model::Task;
use crate::work::model::TaskActivity;
use crate::work::model::TaskActivityModel;
use crate::work::model::TaskModel;
use crate::work::model::TaskSummary;
use crate::work::model::TaskSummaryModel;
use crate::work::model::TaskSummaryPage;
use crate::work::model::TaskSummaryPageModel;
use crate::work::model::WorkError;
use crate::work::model::WorkResult;
use crate::work::store::changes::summary_in_range;
use crate::work::store::pagination::after_or_start;
use crate::work::store::records::loaded;
use crate::work::store::records::refuse;
use crate::work::store::records::refused;
use crate::work::store::summaries::active_rows;
use crate::work::store::summaries::activity_at;
use crate::work::store::summaries::marked;
use crate::work::store::summaries::refreshed;
use crate::work::store::summaries::summarized;
use crate::work::store::summaries::summary_at;
use crate::work::store::summaries::summary_of;
use crate::work::store::summaries::watermark_at;
use crate::work::store::tables::ActivityRow;
use crate::work::store::tables::Body;
use crate::work::store::tables::ChangeRowModel;
use crate::work::store::tables::RecordModel;
use crate::work::store::tables::StoreModel;
use crate::work::store::tables::SummaryRowModel;
use crate::work::store::tables::WatermarkRow;
use crate::work::store::tables::WorkStore;

verus! {

/// How many bytes a page of the task list may hold.
pub const MAX_LIST_BYTES: usize = 131_072;

/// The largest number that every reader can hold exactly.
pub const MAX_EXACT: u64 = 9_007_199_254_740_991;

/// Whether a summary row belongs to a session and comes after a task.
pub open spec fn row_follows(row: SummaryRowModel, session: Text, after: Text) -> bool {
    row.session == session && precedes(after, row.task_id)
}

/// Where the first summary row of a session after a task stands.
pub open spec fn first_row_after(rows: Seq<SummaryRowModel>, session: Text, after: Text) -> Option<
    int,
>
    decreases rows.len(),
{
    if rows.len() == 0 {
        None
    } else {
        let at = rows.len() - 1;
        match first_row_after(rows.drop_last(), session, after) {
            None => if row_follows(rows[at], session, after) {
                Some(at)
            } else {
                None
            },
            Some(best) => if row_follows(rows[at], session, after) && precedes(
                rows[at].task_id,
                rows[best].task_id,
            ) {
                Some(at)
            } else {
                Some(best)
            },
        }
    }
}

/// The summaries of a session after a task, in the order of identifiers, up to a limit.
pub open spec fn ordered_summaries(
    rows: Seq<SummaryRowModel>,
    session: Text,
    after: Text,
    limit: nat,
) -> Seq<TaskSummaryModel>
    decreases limit,
{
    if limit == 0 {
        Seq::empty()
    } else {
        match first_row_after(rows, session, after) {
            None => Seq::empty(),
            Some(i) => Seq::empty().push(rows[i].body) + ordered_summaries(
                rows,
                session,
                rows[i].task_id,
                (limit - 1) as nat,
            ),
        }
    }
}

/// Whether a summary may be shown: it is of the session and every number in it is exact.
pub open spec fn is_sound(item: TaskSummaryModel, session: Text, watermark: u64) -> bool {
    &&& item.session_id == session
    &&& item.task_revision <= MAX_EXACT
    &&& item.reserved_attempts <= 1024
    &&& item.unresolved_native_operations <= 1024
    &&& item.unreviewed_results <= 1024
    &&& item.last_activity matches Some(event) ==> event.cursor <= watermark
}

/// The page that would be sent with some items.
pub open spec fn page_with(items: Seq<TaskSummaryModel>, watermark: u64) -> TaskSummaryPageModel {
    TaskSummaryPageModel {
        items,
        snapshot_cursor: watermark,
        next_after_id: if items.len() > 0 {
            Some(items.last().task_id)
        } else {
            None
        },
    }
}

/// The items of a page, and whether the bytes cut it short.
pub open spec fn summaries_filled(
    rows: Seq<TaskSummaryModel>,
    session: Text,
    watermark: u64,
    items: Seq<TaskSummaryModel>,
) -> WorkResult<(Seq<TaskSummaryModel>, bool)>
    decreases rows.len(),
{
    if rows.len() == 0 {
        Ok((items, false))
    } else if !is_sound(rows[0], session, watermark) {
        refused(FailureCode::StorageUnavailable)
    } else {
        let longer = items.push(rows[0]);
        if byte_len(TaskSummaryPage::json(page_with(longer, watermark))) > MAX_LIST_BYTES {
            if items.len() == 0 {
                refused(FailureCode::ResourceLimit)
            } else {
                Ok((items, true))
            }
        } else {
            summaries_filled(rows.drop_first(), session, watermark, longer)
        }
    }
}

/// Whether a request for a page of the task list is admissible.
pub open spec fn list_request(
    session: Text,
    limit: u32,
    after: Option<Text>,
    snapshot: Option<u64>,
) -> bool {
    &&& is_bounded(session, 256)
    &&& 0 < limit <= 20
    &&& snapshot matches Some(cursor) ==> cursor <= MAX_EXACT
    &&& (after is Some) == (snapshot is Some)
    &&& after matches Some(id) ==> is_uuid(id)
}

/// The cursor that a session's task list stands at.
pub open spec fn watermark_of(s: StoreModel, session: Text) -> u64 {
    match watermark_at(s.watermarks, session) {
        Some(i) => s.watermarks[i].cursor,
        None => 0,
    }
}

/// A page of the task list. Further pages are pinned to the cursor of the first.
pub open spec fn summary_page(
    s: StoreModel,
    session: Text,
    limit: u32,
    after: Option<Text>,
    snapshot: Option<u64>,
) -> WorkResult<TaskSummaryPageModel> {
    let watermark = watermark_of(s, session);
    if !s.summaries_ready {
        refused(FailureCode::CapabilityUnavailable)
    } else if !list_request(session, limit, after, snapshot) {
        refused(FailureCode::InvalidInput)
    } else if watermark > MAX_EXACT {
        refused(FailureCode::ResourceLimit)
    } else if snapshot is Some && snapshot != Some(watermark) {
        refused(FailureCode::RevisionConflict)
    } else {
        let rows = ordered_summaries(
            s.summaries,
            session,
            after_or_start(after),
            limit as nat + 1,
        );
        let more = rows.len() > limit;
        let shown_rows = if more {
            rows.take(limit as int)
        } else {
            rows
        };
        match summaries_filled(shown_rows, session, watermark, Seq::empty()) {
            Err(error) => Err(error),
            Ok((items, cut)) => Ok(
                if cut || more {
                    page_with(items, watermark)
                } else {
                    TaskSummaryPageModel { next_after_id: None, ..page_with(items, watermark) }
                },
            ),
        }
    }
}

/// The store with its watermarks and activity brought up to the stream: neither falls back.
pub open spec fn caught_up(s: StoreModel, changes: Seq<ChangeRowModel>) -> StoreModel
    decreases changes.len(),
{
    if changes.len() == 0 {
        s
    } else {
        let before = caught_up(s, changes.drop_last());
        let change = changes.last();
        StoreModel {
            watermarks: match watermark_at(before.watermarks, change.session) {
                Some(i) => if before.watermarks[i].cursor >= change.cursor {
                    before.watermarks
                } else {
                    marked(before.watermarks, change.session, change.cursor)
                },
                None => marked(before.watermarks, change.session, change.cursor),
            },
            activity: match activity_at(before.activity, change.session, change.task_id) {
                Some(i) => if before.activity[i].activity.cursor >= change.cursor {
                    before.activity
                } else {
                    active_rows(
                        before.activity,
                        change.session,
                        change.task_id,
                        activity_of(change),
                    )
                },
                None => active_rows(
                    before.activity,
                    change.session,
                    change.task_id,
                    activity_of(change),
                ),
            },
            ..before
        }
    }
}

/// The activity that a change is.
pub open spec fn activity_of(change: ChangeRowModel) -> TaskActivityModel {
    TaskActivityModel {
        cursor: change.cursor,
        kind: change.kind,
        entity_id: change.entity_id,
    }
}

/// The store after the summaries of some tasks were computed, up to the first that cannot be.
pub open spec fn rebuilt(s: StoreModel, records: Seq<RecordModel>) -> (StoreModel, WorkResult<()>)
    decreases records.len(),
{
    if records.len() == 0 {
        (s, Ok(()))
    } else {
        let (before, res) = rebuilt(s, records.drop_last());
        let last = records.last();
        if res is Err || !(last.body is Task) {
            (before, res)
        } else {
            match refreshed(before, last.session, last.id) {
                Ok(next) => (next, Ok(())),
                Err(error) => (before, Err(error)),
            }
        }
    }
}

/// The store after the task list was built anew. A list that could not be finished is not shown.
pub open spec fn summaries_rebuilt(s: StoreModel) -> (StoreModel, WorkResult<()>) {
    let start = StoreModel {
        summaries: Seq::empty(),
        summaries_ready: false,
        ..caught_up(s, s.changes)
    };
    let (next, res) = rebuilt(start, s.records);
    (StoreModel { summaries_ready: res is Ok, ..next }, res)
}

fn sound(item: &TaskSummary, session: &str, watermark: u64) -> (res: bool)
    ensures
        res == is_sound(item.deep_view(), session@, watermark),
{
    let current = match &item.last_activity {
        Some(event) => event.cursor <= watermark,
        None => true,
    };
    text_eq(item.session_id.as_str(), session) && item.task_revision <= MAX_EXACT
        && item.reserved_attempts <= 1024 && item.unresolved_native_operations <= 1024
        && item.unreviewed_results <= 1024 && current
}

fn make_page(items: Vec<TaskSummary>, watermark: u64) -> (res: TaskSummaryPage)
    ensures
        res.deep_view() == page_with(items.deep_view(), watermark),
{
    let next_after_id = if items.len() > 0 {
        let last = &items[items.len() - 1];
        assert(items.deep_view().last() == last.deep_view());
        Some(last.task_id.clone())
    } else {
        None
    };
    TaskSummaryPage { items, snapshot_cursor: watermark, next_after_id }
}

fn fill_summaries(rows: Vec<TaskSummary>, session: &str, watermark: u64) -> (res: WorkResult<
    (Vec<TaskSummary>, bool),
>)
    ensures
        shown(res) == summaries_filled(rows.deep_view(), session@, watermark, Seq::empty()),
{
    let ghost all = rows.deep_view();
    let mut items: Vec<TaskSummary> = no_items();
    let mut i: usize = 0;
    assert(all.skip(0) =~= all);
    while i < rows.len()
        invariant
            i <= rows.len(),
            all == rows.deep_view(),
            summaries_filled(all, session@, watermark, Seq::empty()) == summaries_filled(
                all.skip(i as int),
                session@,
                watermark,
                items.deep_view(),
            ),
        decreases rows.len() - i,
    {
        assert(all.skip(i as int).drop_first() =~= all.skip(i + 1));
        assert(all.skip(i as int)[0] == rows[i as int].deep_view());
        if !sound(&rows[i], session, watermark) {
            return refuse(FailureCode::StorageUnavailable);
        }
        let mut longer = items.replica();
        add_row(&mut longer, rows[i].replica());
        let text = make_page(longer, watermark).to_json();
        if bytes_in(text.as_str()) > MAX_LIST_BYTES {
            if items.len() == 0 {
                return refuse(FailureCode::ResourceLimit);
            }
            return Ok((items, true));
        }
        add_row(&mut items, rows[i].replica());
        i += 1;
    }
    assert(all.skip(i as int) =~= Seq::<TaskSummaryModel>::empty());
    Ok((items, false))
}

impl WorkStore {
    /// Whether the task list can be read.
    pub fn summaries_ready(&self) -> (res: bool)
        ensures
            res == self@.summaries_ready,
    {
        self.summaries_ready
    }

    fn find_row_after(&self, session: &str, after: &str) -> (res: Option<usize>)
        ensures
            match res {
                Some(i) => i < self.summaries.len() && first_row_after(
                    self@.summaries,
                    session@,
                    after@,
                ) == Some(i as int),
                None => first_row_after(self@.summaries, session@, after@) is None,
            },
    {
        let ghost all = self@.summaries;
        let mut best: Option<usize> = None;
        let mut i: usize = 0;
        while i < self.summaries.len()
            invariant
                i <= self.summaries.len(),
                all == self@.summaries,
                match best {
                    Some(b) => b < i && first_row_after(all.take(i as int), session@, after@)
                        == Some(b as int),
                    None => first_row_after(all.take(i as int), session@, after@) is None,
                },
            decreases self.summaries.len() - i,
        {
            assert(all.take(i + 1).drop_last() =~= all.take(i as int));
            assert(all.take(i + 1)[i as int] == all[i as int]);
            let row = &self.summaries[i];
            if text_eq(row.session.as_str(), session) && text_before(after, row.task_id.as_str()) {
                match best {
                    Some(b) => {
                        assert(all.take(i + 1)[b as int] == all[b as int]);
                        if text_before(row.task_id.as_str(), self.summaries[b].task_id.as_str()) {
                            best = Some(i);
                        }
                    },
                    None => {
                        best = Some(i);
                    },
                }
            }
            i += 1;
        }
        assert(all.take(i as int) =~= all);
        best
    }

    fn select_summaries(&self, session: &str, after: &str, limit: usize) -> (res: Vec<TaskSummary>)
        ensures
            res.deep_view() == ordered_summaries(
                self@.summaries,
                session@,
                after@,
                limit as nat,
            ),
    {
        let ghost all = ordered_summaries(self@.summaries, session@, after@, limit as nat);
        let mut res: Vec<TaskSummary> = no_items();
        let mut last = after.to_string();
        let mut left: usize = limit;
        assert(all =~= res.deep_view() + all);
        while left > 0
            invariant_except_break
                all == res.deep_view() + ordered_summaries(
                    self@.summaries,
                    session@,
                    last@,
                    left as nat,
                ),
            ensures
                all == res.deep_view(),
            decreases left,
        {
            match self.find_row_after(session, last.as_str()) {
                None => {
                    assert(all =~= res.deep_view());
                    break;
                },
                Some(i) => {
                    let ghost before = res.deep_view();
                    let row = &self.summaries[i];
                    add_row(&mut res, row.body.replica());
                    last = row.task_id.clone();
                    left -= 1;
                    proof {
                        let rest = ordered_summaries(
                            self@.summaries,
                            session@,
                            last@,
                            left as nat,
                        );
                        let found = self@.summaries[i as int].body;
                        assert(before + (Seq::empty().push(found) + rest) =~= before.push(found)
                            + rest);
                        if left == 0 {
                            assert(all =~= res.deep_view());
                        }
                    }
                },
            }
        }
        res
    }

    fn list_admissible(
        session: &str,
        limit: u32,
        after: Option<&str>,
        snapshot: Option<u64>,
    ) -> (res: bool)
        ensures
            res == list_request(session@, limit, after.deep_view(), snapshot),
    {
        let exact = match snapshot {
            Some(cursor) => cursor <= MAX_EXACT,
            None => true,
        };
        let known = match after {
            Some(id) => uuid_text(id),
            None => true,
        };
        bounded(session, 256) && 0 < limit && limit <= 20 && exact && after.is_some()
            == snapshot.is_some() && known
    }

    /// Reads a page of the task list.
    pub fn task_summaries(
        &self,
        session: &str,
        limit: u32,
        after_id: Option<&str>,
        snapshot_cursor: Option<u64>,
    ) -> (res: WorkResult<TaskSummaryPage>)
        ensures
            shown(res) == summary_page(
                self@,
                session@,
                limit,
                after_id.deep_view(),
                snapshot_cursor,
            ),
    {
        if !self.summaries_ready {
            return refuse(FailureCode::CapabilityUnavailable);
        }
        if !Self::list_admissible(session, limit, after_id, snapshot_cursor) {
            return refuse(FailureCode::InvalidInput);
        }
        let watermark: u64 = match self.find_watermark(session) {
            Some(i) => self.watermarks[i].cursor,
            None => 0,
        };
        if watermark > MAX_EXACT {
            return refuse(FailureCode::ResourceLimit);
        }
        match snapshot_cursor {
            Some(cursor) => {
                if cursor != watermark {
                    return refuse(FailureCode::RevisionConflict);
                }
            },
            None => {},
        }
        let start = match after_id {
            Some(id) => id,
            None => "",
        };
        let mut rows = self.select_summaries(session, start, limit as usize + 1);
        let ghost fetched = rows.deep_view();
        let more = rows.len() > limit as usize;
        if more {
            proof {
                ordered_summaries_bounded(
                    self@.summaries,
                    session@,
                    start@,
                    limit as nat + 1,
                );
            }
            let _ = pop_row(&mut rows);
            assert(rows.deep_view() =~= fetched.take(limit as int));
        }
        let (items, cut) = fill_summaries(rows, session, watermark)?;
        let mut page = make_page(items, watermark);
        if !cut && !more {
            page.next_after_id = None;
        }
        Ok(page)
    }

    /// Brings watermarks and activity up to the stream.
    fn catch_up(&mut self)
        ensures
            final(self)@ == caught_up(old(self)@, old(self)@.changes),
    {
        let ghost all = self@.changes;
        let ghost first = self@;
        let mut i: usize = 0;
        while i < self.changes.len()
            invariant
                i <= self.changes.len(),
                all == first.changes,
                first == old(self)@,
                self@.changes == all,
                self@ == caught_up(first, all.take(i as int)),
            decreases self.changes.len() - i,
        {
            assert(all.take(i + 1).drop_last() =~= all.take(i as int));
            let session = self.changes[i].session.clone();
            let task_id = self.changes[i].task_id.clone();
            let cursor: u64 = self.changes[i].cursor;
            let activity = TaskActivity {
                cursor,
                kind: self.changes[i].kind.clone(),
                entity_id: self.changes[i].entity_id.clone(),
            };
            match self.find_watermark(session.as_str()) {
                Some(at) => {
                    if self.watermarks[at].cursor < cursor {
                        let row = WatermarkRow {
                            session: self.watermarks[at].session.clone(),
                            cursor,
                        };
                        set_row(&mut self.watermarks, at, row);
                    }
                },
                None => {
                    let row = WatermarkRow { session: session.clone(), cursor };
                    add_row(&mut self.watermarks, row);
                },
            }
            match self.find_activity(session.as_str(), task_id.as_str()) {
                Some(at) => {
                    if self.activity[at].activity.cursor < cursor {
                        let row = ActivityRow {
                            session: self.activity[at].session.clone(),
                            task_id: self.activity[at].task_id.clone(),
                            activity,
                        };
                        set_row(&mut self.activity, at, row);
                    }
                },
                None => {
                    add_row(&mut self.activity, ActivityRow { session, task_id, activity });
                },
            }
            i += 1;
        }
        assert(all.take(i as int) =~= all);
    }

    /// Builds the task list anew.
    pub fn rebuild_summaries(&mut self) -> (res: WorkResult<()>)
        ensures
            final(self)@ == summaries_rebuilt(old(self)@).0,
            res == summaries_rebuilt(old(self)@).1,
    {
        let ghost first = self@;
        self.catch_up();
        proof {
            catching_up_keeps_records(first, first.changes);
        }
        self.summaries = no_items();
        self.summaries_ready = false;
        let ghost start = self@;
        let ghost all = start.records;
        let mut i: usize = 0;
        while i < self.records.len()
            invariant
                i <= self.records.len(),
                first == old(self)@,
                all == first.records,
                start == (StoreModel {
                    summaries: Seq::empty(),
                    summaries_ready: false,
                    ..caught_up(first, first.changes)
                }),
                self@.records == all,
                !self@.summaries_ready,
                rebuilt(start, all.take(i as int)) == (self@, Ok::<(), WorkError>(())),
            decreases self.records.len() - i,
        {
            assert(all.take(i + 1).drop_last() =~= all.take(i as int));
            let is_task = match &self.records[i].body {
                Body::Task(_) => true,
                _ => false,
            };
            if is_task {
                let session = self.records[i].session.clone();
                let id = self.records[i].id.clone();
                let ghost before = self@;
                match self.refresh(session.as_str(), id.as_str()) {
                    Ok(_) => {},
                    Err(error) => {
                        proof {
                            failed_rebuild_stays(start, all, i + 1);
                        }
                        return Err(error);
                    },
                }
            }
            i += 1;
        }
        assert(all.take(i as int) =~= all);
        self.summaries_ready = true;
        Ok(())
    }
}

/// Catching up leaves records and the stream as they are.
pub proof fn catching_up_keeps_records(s: StoreModel, changes: Seq<ChangeRowModel>)
    ensures
        caught_up(s, changes).records == s.records,
        caught_up(s, changes).changes == s.changes,
    decreases changes.len(),
{
    if changes.len() > 0 {
        catching_up_keeps_records(s, changes.drop_last());
    }
}

/// Once one summary cannot be computed, no later one is.
proof fn failed_rebuild_stays(s: StoreModel, records: Seq<RecordModel>, n: int)
    requires
        0 <= n <= records.len(),
        rebuilt(s, records.take(n)).1 is Err,
    ensures
        rebuilt(s, records) == rebuilt(s, records.take(n)),
    decreases records.len() - n,
{
    if n == records.len() {
        assert(records.take(n) =~= records);
    } else {
        assert(records.take(n + 1).drop_last() =~= records.take(n));
        failed_rebuild_stays(s, records, n + 1);
    }
}

/// A listing is no longer than its limit.
pub proof fn ordered_summaries_bounded(
    rows: Seq<SummaryRowModel>,
    session: Text,
    after: Text,
    limit: nat,
)
    ensures
        ordered_summaries(rows, session, after, limit).len() <= limit,
    decreases limit,
{
    if limit > 0 {
        match first_row_after(rows, session, after) {
            None => {},
            Some(i) => {
                ordered_summaries_bounded(rows, session, rows[i].task_id, (limit - 1) as nat);
            },
        }
    }
}

/// Rows of which each is labelled with the task that it shows, and no two are of one task.
pub open spec fn labelled(rows: Seq<SummaryRowModel>) -> bool {
    &&& forall|i: int| 0 <= i < rows.len() ==> (#[trigger] rows[i]).body.task_id == rows[i].task_id
    &&& forall|i: int, j: int|
        0 <= i < j < rows.len() ==> (#[trigger] rows[i]).session != (#[trigger] rows[j]).session
            || rows[i].task_id != rows[j].task_id
}

pub proof fn first_row_follows(rows: Seq<SummaryRowModel>, session: Text, after: Text)
    ensures
        first_row_after(rows, session, after) matches Some(i) ==> 0 <= i < rows.len()
            && row_follows(rows[i], session, after),
    decreases rows.len(),
{
    if rows.len() > 0 {
        first_row_follows(rows.drop_last(), session, after);
    }
}

pub proof fn first_row_is_least(rows: Seq<SummaryRowModel>, session: Text, after: Text, j: int)
    requires
        0 <= j < rows.len(),
        row_follows(rows[j], session, after),
    ensures
        first_row_after(rows, session, after) matches Some(i) && !precedes(
            rows[j].task_id,
            rows[i].task_id,
        ),
    decreases rows.len(),
{
    let rest = rows.drop_last();
    let at = rows.len() - 1;
    first_row_follows(rest, session, after);
    order_is_strict(rows[j].task_id);
    if j < at {
        first_row_is_least(rest, session, after, j);
        let best = first_row_after(rest, session, after)->0;
        if precedes(rows[at].task_id, rows[best].task_id) && precedes(
            rows[j].task_id,
            rows[at].task_id,
        ) {
            order_is_transitive(rows[j].task_id, rows[at].task_id, rows[best].task_id);
        }
    }
}

/// The summaries of a session come in the order of their tasks, after the one that they start
/// after, and are those of the list.
pub proof fn summaries_are_ordered(
    rows: Seq<SummaryRowModel>,
    session: Text,
    after: Text,
    limit: nat,
)
    requires
        labelled(rows),
    ensures
        ({
            let found = ordered_summaries(rows, session, after, limit);
            &&& found.len() <= limit
            &&& forall|k: int|
                0 <= k < found.len() ==> precedes(after, (#[trigger] found[k]).task_id)
                    && exists|i: int|
                    0 <= i < rows.len() && (#[trigger] rows[i]).session == session && rows[i].body
                        == found[k]
            &&& forall|i: int, j: int|
                0 <= i < j < found.len() ==> precedes(
                    (#[trigger] found[i]).task_id,
                    (#[trigger] found[j]).task_id,
                )
        }),
    decreases limit,
{
    if limit > 0 {
        first_row_follows(rows, session, after);
        match first_row_after(rows, session, after) {
            None => {},
            Some(first) => {
                let start = rows[first].task_id;
                summaries_are_ordered(rows, session, start, (limit - 1) as nat);
                let rest = ordered_summaries(rows, session, start, (limit - 1) as nat);
                let found = ordered_summaries(rows, session, after, limit);
                assert(found[0] == rows[first].body);
                assert forall|k: int| 0 <= k < found.len() implies precedes(
                    after,
                    (#[trigger] found[k]).task_id,
                ) && exists|i: int|
                    0 <= i < rows.len() && (#[trigger] rows[i]).session == session && rows[i].body
                        == found[k] by {
                    if k > 0 {
                        assert(found[k] == rest[k - 1]);
                        order_is_transitive(after, start, found[k].task_id);
                    }
                }
                assert forall|i: int, j: int| 0 <= i < j < found.len() implies precedes(
                    (#[trigger] found[i]).task_id,
                    (#[trigger] found[j]).task_id,
                ) by {
                    assert(found[j] == rest[j - 1]);
                    if i > 0 {
                        assert(found[i] == rest[i - 1]);
                    }
                }
            },
        }
    }
}

/// The summaries of a session leave none out: a row that belongs to them is among them, or comes
/// after all of them where the limit is reached.
pub proof fn summaries_are_complete(
    rows: Seq<SummaryRowModel>,
    session: Text,
    after: Text,
    limit: nat,
    j: int,
)
    requires
        labelled(rows),
        limit > 0,
        0 <= j < rows.len(),
        row_follows(rows[j], session, after),
    ensures
        ({
            let found = ordered_summaries(rows, session, after, limit);
            found.contains(rows[j].body) || (found.len() == limit && precedes(
                found.last().task_id,
                rows[j].task_id,
            ))
        }),
    decreases limit,
{
    first_row_follows(rows, session, after);
    first_row_is_least(rows, session, after, j);
    let first = first_row_after(rows, session, after)->0;
    let start = rows[first].task_id;
    let rest = ordered_summaries(rows, session, start, (limit - 1) as nat);
    let found = ordered_summaries(rows, session, after, limit);
    assert(found[0] == rows[first].body);
    if j != first {
        if j < first {
            assert(rows[j].task_id != rows[first].task_id);
        } else {
            assert(rows[first].task_id != rows[j].task_id);
        }
        order_is_total(start, rows[j].task_id);
        if limit > 1 {
            summaries_are_complete(rows, session, start, (limit - 1) as nat, j);
            if rest.contains(rows[j].body) {
                let k = choose|k: int| 0 <= k < rest.len() && rest[k] == rows[j].body;
                assert(found[k + 1] == rows[j].body);
            } else {
                assert(found.last() == rest.last());
            }
        }
    }
}

pub proof fn filling_is_a_beginning(
    rows: Seq<TaskSummaryModel>,
    session: Text,
    watermark: u64,
    items: Seq<TaskSummaryModel>,
)
    ensures
        summaries_filled(rows, session, watermark, items) matches Ok((all, cut)) ==> {
            &&& items.len() <= all.len() <= items.len() + rows.len()
            &&& all == items + rows.take(all.len() - items.len())
            &&& cut ==> 0 < all.len() < items.len() + rows.len()
            &&& !cut ==> all == items + rows
        },
    decreases rows.len(),
{
    if rows.len() == 0 {
        assert(items =~= items + rows.take(0));
        assert(items =~= items + rows);
    } else if summaries_filled(rows, session, watermark, items) is Ok {
        let longer = items.push(rows[0]);
        if byte_len(TaskSummaryPage::json(page_with(longer, watermark))) > MAX_LIST_BYTES {
            assert(items =~= items + rows.take(0));
        } else {
            filling_is_a_beginning(rows.drop_first(), session, watermark, longer);
            let all = summaries_filled(rows, session, watermark, items)->Ok_0.0;
            let n = all.len() - longer.len();
            assert(longer + rows.drop_first().take(n) =~= items + rows.take(n + 1));
            assert(longer + rows.drop_first() =~= items + rows);
        }
    }
}

/// Pages of the task list skip nothing: a task of the session after the one that a page starts
/// after is on the page, or comes after the task that the next page starts after.
pub proof fn summary_pages_skip_nothing(
    s: StoreModel,
    session: Text,
    limit: u32,
    after: Option<Text>,
    snapshot: Option<u64>,
    j: int,
)
    requires
        labelled(s.summaries),
        0 <= j < s.summaries.len(),
        row_follows(s.summaries[j], session, after_or_start(after)),
    ensures
        summary_page(s, session, limit, after, snapshot) matches Ok(page) ==> page.items.contains(
            s.summaries[j].body,
        ) || (page.next_after_id matches Some(next) && precedes(next, s.summaries[j].task_id)),
{
    if summary_page(s, session, limit, after, snapshot) is Ok {
        let start = after_or_start(after);
        let row = s.summaries[j];
        let watermark = watermark_of(s, session);
        let found = ordered_summaries(s.summaries, session, start, limit as nat + 1);
        summaries_are_ordered(s.summaries, session, start, limit as nat + 1);
        summaries_are_complete(s.summaries, session, start, limit as nat + 1, j);
        let rows = if found.len() > limit {
            found.take(limit as int)
        } else {
            found
        };
        filling_is_a_beginning(rows, session, watermark, Seq::empty());
        let items = summaries_filled(rows, session, watermark, Seq::empty())->Ok_0.0;
        assert(items =~= rows.take(items.len() as int));
        if found.contains(row.body) {
            let k = choose|k: int| 0 <= k < found.len() && found[k] == row.body;
            if k < items.len() {
                assert(items[k] == row.body);
            } else {
                assert(items.last() == found[items.len() - 1]);
            }
        } else {
            assert(items.last() == found[items.len() - 1]);
            if items.len() - 1 < found.len() - 1 {
                order_is_transitive(
                    items.last().task_id,
                    found.last().task_id,
                    row.task_id,
                );
            }
        }
    }
}

/// Writing the row of a task leaves the rows labelled.
pub proof fn summarizing_keeps_labels(
    rows: Seq<SummaryRowModel>,
    session: Text,
    task: Text,
    body: TaskSummaryModel,
)
    requires
        labelled(rows),
        body.task_id == task,
    ensures
        labelled(summarized(rows, session, task, body)),
{
    summary_in_range(rows, session, task);
    let later = summarized(rows, session, task, body);
    assert forall|i: int, j: int| 0 <= i < j < later.len() implies (#[trigger] later[i]).session != (
    #[trigger] later[j]).session || later[i].task_id != later[j].task_id by {
        if j == rows.len() && rows[i].session == session && rows[i].task_id == task {
            row_is_found(rows, i);
        }
    }
}

pub proof fn row_is_found(rows: Seq<SummaryRowModel>, i: int)
    requires
        0 <= i < rows.len(),
    ensures
        summary_at(rows, rows[i].session, rows[i].task_id) is Some,
    decreases rows.len(),
{
    if i < rows.len() - 1 {
        assert(rows.drop_last()[i] == rows[i]);
        row_is_found(rows.drop_last(), i);
    }
}

proof fn rebuilding_labels(s: StoreModel, records: Seq<RecordModel>)
    requires
        labelled(s.summaries),
    ensures
        labelled(rebuilt(s, records).0.summaries),
    decreases records.len(),
{
    if records.len() > 0 {
        rebuilding_labels(s, records.drop_last());
        let (before, res) = rebuilt(s, records.drop_last());
        let last = records.last();
        if res is Ok && last.body is Task && loaded::<Task>(before, last.session, last.id) is Ok {
            let task = loaded::<Task>(before, last.session, last.id)->Ok_0;
            summarizing_keeps_labels(
                before.summaries,
                last.session,
                last.id,
                summary_of(before, last.session, TaskModel { id: last.id, ..task }),
            );
        }
    }
}

/// A task list that was built anew is labelled.
pub proof fn rebuilt_list_is_labelled(s: StoreModel)
    ensures
        labelled(summaries_rebuilt(s).0.summaries),
{
    let start = StoreModel {
        summaries: Seq::empty(),
        summaries_ready: false,
        ..caught_up(s, s.changes)
    };
    rebuilding_labels(start, s.records);
}

} // verus!
