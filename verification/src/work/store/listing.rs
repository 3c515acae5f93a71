//! The task list: one row for every task, and pages that together show each row once.
use vstd::prelude::*;
use crate::digest::is_uuid;
use crate::json::ToJson;
use crate::text::byte_len;
use crate::text::nothing_precedes_empty;
use crate::text::order_is_strict;
use crate::text::order_is_total;
use crate::text::order_is_transitive;
use crate::text::precedes;
use crate::value::Text;
use crate::work::model::CreateTaskModel;
use crate::work::model::FailureCode;
use crate::work::model::InputRefModel;
use crate::work::model::Task;
use crate::work::model::TaskModel;
use crate::work::model::TaskSummaryModel;
use crate::work::model::TaskSummaryPage;
use crate::work::model::TaskSummaryPageModel;
use crate::work::model::WorkResult;
use crate::work::store::allowance::known;
use crate::work::store::authority::DelegatedCreateModel;
use crate::work::store::changes::changed;
use crate::work::store::changes::list_is_current;
use crate::work::store::changes::mark_in_range;
use crate::work::store::changes::marks_alike;
use crate::work::store::changes::summaries_alike;
use crate::work::store::changes::summary_in_range;
use crate::work::store::growth::creating_grows;
use crate::work::store::growth::fresh_ids;
use crate::work::store::growth::rebuilding_keeps;
use crate::work::store::growth::recovering_grows;
use crate::work::store::growth::task_added;
use crate::work::store::history::ascending;
use crate::work::store::history::changing_grows;
use crate::work::store::history::found_where_filed;
use crate::work::store::history::grown;
use crate::work::store::history::may_put;
use crate::work::store::history::putting_is_local;
use crate::work::store::history::record_follows;
use crate::work::store::history::records_follow;
use crate::work::store::history::tidy;
use crate::work::store::history::well_formed;
use crate::work::store::inputs::MAX_REFS;
use crate::work::store::pagination::after_or_start;
use crate::work::store::records::loaded;
use crate::work::store::records::position;
use crate::work::store::records::position_in_range;
use crate::work::store::records::put;
use crate::work::store::records::refused;
use crate::work::store::recovery::opened;
use crate::work::store::summaries::marked;
use crate::work::store::summaries::summarized;
use crate::work::store::summaries::summary_at;
use crate::work::store::summaries::summary_of;
use crate::work::store::summaries::watermark_at;
use crate::work::store::tables::BodyModel;
use crate::work::store::tables::RecordModel;
use crate::work::store::tables::StoreModel;
use crate::work::store::tables::SummaryRowModel;
use crate::work::store::tables::WatermarkRowModel;
use crate::work::store::task_list::MAX_EXACT;
use crate::work::store::task_list::MAX_LIST_BYTES;
use crate::work::store::task_list::caught_up;
use crate::work::store::task_list::filling_is_a_beginning;
use crate::work::store::task_list::first_row_after;
use crate::work::store::task_list::first_row_follows;
use crate::work::store::task_list::first_row_is_least;
use crate::work::store::task_list::is_sound;
use crate::work::store::task_list::labelled;
use crate::work::store::task_list::list_request;
use crate::work::store::task_list::ordered_summaries;
use crate::work::store::task_list::page_with;
use crate::work::store::task_list::rebuilt;
use crate::work::store::task_list::row_follows;
use crate::work::store::task_list::summaries_are_ordered;
use crate::work::store::task_list::summaries_filled;
use crate::work::store::task_list::summaries_rebuilt;
use crate::work::store::task_list::summarizing_keeps_labels;
use crate::work::store::task_list::summary_page;
use crate::work::store::task_list::summary_pages_skip_nothing;
use crate::work::store::task_list::watermark_of;
use crate::work::store::tasks::create_outcome;

verus! {

/// Whether the rows of the task list are labelled, each shows a task that is recorded, and no
/// session's list stands at a cursor that was not given out.
pub open spec fn neat(s: StoreModel) -> bool {
    &&& labelled(s.summaries)
    &&& forall|i: int|
        0 <= i < s.summaries.len() ==> known(
            s.records,
            (#[trigger] s.summaries[i]).session,
            s.summaries[i].task_id,
        )
    &&& forall|session: Text| #[trigger] watermark_of(s, session) <= s.last_cursor
}

/// What may become of a neat task list: it stays neat, no task is taken off it, and no session's
/// list goes back.
#[verifier::opaque]
pub open spec fn list_follows(before: StoreModel, later: StoreModel) -> bool {
    neat(before) ==> {
        &&& neat(later)
        &&& forall|session: Text, task: Text|
            summary_at(before.summaries, session, task) is Some ==> (#[trigger] summary_at(
                later.summaries,
                session,
                task,
            )) is Some
        &&& forall|session: Text|
            watermark_of(before, session) <= #[trigger] watermark_of(later, session)
    }
}

/// Whether every recorded task is on the task list.
pub open spec fn complete(s: StoreModel) -> bool {
    forall|i: int|
        0 <= i < s.records.len() && (#[trigger] s.records[i]).body is Task ==> summary_at(
            s.summaries,
            s.records[i].session,
            s.records[i].id,
        ) is Some
}

/// A task list with exactly one row for every task.
pub open spec fn whole_list(s: StoreModel) -> bool {
    neat(s) && complete(s)
}

/// Whether a row shows its task as the records give it.
pub open spec fn is_current(s: StoreModel, row: SummaryRowModel) -> bool {
    loaded::<Task>(s, row.session, row.task_id) matches Ok(task) && row.body == summary_of(
        s,
        row.session,
        task,
    )
}

/// A task that is known stays known.
pub proof fn tasks_stay_known(
    before: Seq<RecordModel>,
    later: Seq<RecordModel>,
    session: Text,
    id: Text,
)
    requires
        tidy(later),
        records_follow(before, later),
        known(before, session, id),
    ensures
        known(later, session, id),
{
    position_in_range(before, id);
    let i = position(before, id)->0;
    assert(record_follows(before[i], later[i]));
    found_where_filed(later, i);
}

/// A list that nobody touched follows itself.
pub proof fn list_untouched(before: StoreModel, later: StoreModel)
    requires
        tidy(later.records),
        records_follow(before.records, later.records),
        later.summaries == before.summaries,
        later.watermarks == before.watermarks,
        before.last_cursor <= later.last_cursor,
    ensures
        list_follows(before, later),
{
    reveal(list_follows);
    if neat(before) {
        assert forall|i: int| 0 <= i < later.summaries.len() implies known(
            later.records,
            (#[trigger] later.summaries[i]).session,
            later.summaries[i].task_id,
        ) by {
            let row = before.summaries[i];
            tasks_stay_known(before.records, later.records, row.session, row.task_id);
        }
        assert forall|session: Text| #[trigger] watermark_of(later, session)
            <= later.last_cursor by {
            assert(watermark_of(before, session) <= before.last_cursor);
        }
    }
}

/// What is found under a task after a row was written.
proof fn rows_stay(
    rows: Seq<SummaryRowModel>,
    session: Text,
    task: Text,
    body: TaskSummaryModel,
    other_session: Text,
    other: Text,
)
    ensures
        summary_at(rows, other_session, other) is Some || (other_session == session && other
            == task) <==> summary_at(
            summarized(rows, session, task, body),
            other_session,
            other,
        ) is Some,
{
    summary_in_range(rows, session, task);
    let later = summarized(rows, session, task, body);
    match summary_at(rows, session, task) {
        Some(i) => {
            summaries_alike(rows, later, other_session, other);
        },
        None => {
            assert(later.drop_last() =~= rows);
        },
    }
}

/// What a session's list stands at after one was moved.
pub proof fn marks_stay(rows: Seq<WatermarkRowModel>, session: Text, cursor: u64, other: Text)
    ensures
        ({
            let later = marked(rows, session, cursor);
            &&& other != session ==> (watermark_at(later, other) == watermark_at(rows, other) && (
            watermark_at(rows, other) matches Some(i) ==> later[i] == rows[i]))
            &&& other == session ==> (watermark_at(later, other) matches Some(i)
                && later[i].cursor == cursor)
        }),
{
    mark_in_range(rows, session);
    mark_in_range(rows, other);
    let later = marked(rows, session, cursor);
    match watermark_at(rows, session) {
        Some(i) => {
            marks_alike(rows, later, other);
            found_mark(rows, other);
            found_mark(rows, session);
        },
        None => {
            assert(later.drop_last() =~= rows);
        },
    }
}

/// A mark that is found is that of its session.
proof fn found_mark(rows: Seq<WatermarkRowModel>, session: Text)
    ensures
        watermark_at(rows, session) matches Some(i) ==> 0 <= i < rows.len() && rows[i].session
            == session,
    decreases rows.len(),
{
    if rows.len() > 0 {
        found_mark(rows.drop_last(), session);
    }
}

/// Writing the row of a recorded task and moving its session's list on leaves a neat list neat.
pub proof fn list_moves_on(
    before: StoreModel,
    later: StoreModel,
    session: Text,
    task: Text,
    body: TaskSummaryModel,
)
    requires
        tidy(later.records),
        records_follow(before.records, later.records),
        known(later.records, session, task),
        body.task_id == task,
        later.summaries == summarized(before.summaries, session, task, body),
        later.watermarks == marked(before.watermarks, session, later.last_cursor),
        before.last_cursor <= later.last_cursor,
    ensures
        list_follows(before, later),
{
    reveal(list_follows);
    if neat(before) {
        summarizing_keeps_labels(before.summaries, session, task, body);
        summary_in_range(before.summaries, session, task);
        assert forall|i: int| 0 <= i < later.summaries.len() implies known(
            later.records,
            (#[trigger] later.summaries[i]).session,
            later.summaries[i].task_id,
        ) by {
            if i < before.summaries.len() {
                let row = before.summaries[i];
                tasks_stay_known(before.records, later.records, row.session, row.task_id);
            }
        }
        assert forall|x: Text, y: Text| summary_at(before.summaries, x, y) is Some implies (
        #[trigger] summary_at(later.summaries, x, y)) is Some by {
            rows_stay(before.summaries, session, task, body, x, y);
        }
        assert forall|x: Text| watermark_of(before, x) <= #[trigger] watermark_of(later, x)
            && watermark_of(later, x) <= later.last_cursor by {
            marks_stay(before.watermarks, session, later.last_cursor, x);
            assert(watermark_of(before, x) <= before.last_cursor);
        }
    }
}

/// What follows a list that follows another follows the other.
pub proof fn list_following_is_transitive(a: StoreModel, b: StoreModel, c: StoreModel)
    requires
        list_follows(a, b),
        list_follows(b, c),
    ensures
        list_follows(a, c),
{
    reveal(list_follows);
    if neat(a) {
        assert forall|x: Text, y: Text| summary_at(a.summaries, x, y) is Some implies (
        #[trigger] summary_at(c.summaries, x, y)) is Some by {
            assert(summary_at(b.summaries, x, y) is Some);
        }
        assert forall|x: Text| watermark_of(a, x) <= #[trigger] watermark_of(c, x) by {
            assert(watermark_of(a, x) <= watermark_of(b, x));
        }
    }
}

/// Bringing the list up to the stream moves no session's list back, and none beyond the last
/// cursor.
proof fn catching_up_moves_on(s: StoreModel, n: int, session: Text)
    requires
        ascending(s.changes, s.last_cursor),
        0 <= n <= s.changes.len(),
    ensures
        ({
            let later = caught_up(s, s.changes.take(n));
            &&& watermark_of(s, session) <= watermark_of(later, session)
            &&& watermark_of(s, session) <= s.last_cursor ==> watermark_of(later, session)
                <= s.last_cursor
            &&& later.records == s.records
            &&& later.summaries == s.summaries
            &&& later.last_cursor == s.last_cursor
        }),
    decreases n,
{
    if n > 0 {
        assert(s.changes.take(n).drop_last() =~= s.changes.take(n - 1));
        catching_up_moves_on(s, n - 1, session);
        let before = caught_up(s, s.changes.take(n - 1));
        let change = s.changes[n - 1];
        assert(s.changes.take(n).last() == change);
        mark_in_range(before.watermarks, change.session);
        marks_stay(before.watermarks, change.session, change.cursor, session);
    }
}

/// Whether the rows of a task list that is being built are labelled, each is of a recorded task and
/// shows it as the records give it, and each task so far has one.
spec fn built_up_to(s: StoreModel, n: int) -> bool {
    &&& labelled(s.summaries)
    &&& forall|i: int|
        0 <= i < s.summaries.len() ==> known(
            s.records,
            (#[trigger] s.summaries[i]).session,
            s.summaries[i].task_id,
        ) && is_current(s, s.summaries[i])
    &&& forall|i: int|
        0 <= i < n && (#[trigger] s.records[i]).body is Task ==> summary_at(
            s.summaries,
            s.records[i].session,
            s.records[i].id,
        ) is Some
}

proof fn building_goes_on(s: StoreModel, n: int)
    requires
        tidy(s.records),
        s.summaries.len() == 0,
        0 <= n <= s.records.len(),
    ensures
        ({
            let (later, res) = rebuilt(s, s.records.take(n));
            &&& res is Ok
            &&& later == (StoreModel { summaries: later.summaries, ..s })
            &&& built_up_to(later, n)
        }),
    decreases n,
{
    if n > 0 {
        building_goes_on(s, n - 1);
        assert(s.records.take(n).drop_last() =~= s.records.take(n - 1));
        let before = rebuilt(s, s.records.take(n - 1)).0;
        let last = s.records[n - 1];
        assert(s.records.take(n).last() == last);
        let later = rebuilt(s, s.records.take(n)).0;
        if last.body is Task {
            found_where_filed(s.records, n - 1);
            let task = loaded::<Task>(before, last.session, last.id)->Ok_0;
            assert(task == TaskModel { id: last.id, ..task });
            let body = summary_of(before, last.session, task);
            assert(later.summaries == summarized(before.summaries, last.session, last.id, body));
            summarizing_keeps_labels(before.summaries, last.session, last.id, body);
            summary_in_range(before.summaries, last.session, last.id);
            assert forall|i: int| 0 <= i < later.summaries.len() implies known(
                later.records,
                (#[trigger] later.summaries[i]).session,
                later.summaries[i].task_id,
            ) && is_current(later, later.summaries[i]) by {
                if i < before.summaries.len() && later.summaries[i] == before.summaries[i] {
                    assert(is_current(before, before.summaries[i]));
                }
            }
            assert forall|i: int| 0 <= i < n && (#[trigger] later.records[i]).body is Task implies summary_at(
                later.summaries,
                later.records[i].session,
                later.records[i].id,
            ) is Some by {
                let record = later.records[i];
                rows_stay(
                    before.summaries,
                    last.session,
                    last.id,
                    body,
                    record.session,
                    record.id,
                );
                if i < n - 1 {
                    assert(before.records[i].body is Task);
                }
            }
        }
    }
}

/// A task list that was built anew can be read, has exactly one row for every task, shows each task
/// as its records give it, and moves no session's list back.
pub proof fn rebuilt_list_is_whole(s: StoreModel)
    requires
        well_formed(s),
    ensures
        ({
            let (later, res) = summaries_rebuilt(s);
            &&& res is Ok
            &&& later.summaries_ready
            &&& labelled(later.summaries)
            &&& complete(later)
            &&& forall|i: int|
                0 <= i < later.summaries.len() ==> known(
                    later.records,
                    (#[trigger] later.summaries[i]).session,
                    later.summaries[i].task_id,
                ) && is_current(later, later.summaries[i])
            &&& later.records == s.records
            &&& list_follows(s, later)
            &&& neat(s) ==> whole_list(later)
        }),
{
    reveal(list_follows);
    let all = caught_up(s, s.changes);
    let start = StoreModel { summaries: Seq::empty(), summaries_ready: false, ..all };
    let later = summaries_rebuilt(s).0;
    assert(s.changes.take(s.changes.len() as int) =~= s.changes);
    catching_up_moves_on(s, s.changes.len() as int, Seq::empty());
    assert(s.records.take(s.records.len() as int) =~= s.records);
    building_goes_on(start, s.records.len() as int);
    let built = rebuilt(start, s.records).0;
    assert forall|i: int| 0 <= i < later.summaries.len() implies known(
        later.records,
        (#[trigger] later.summaries[i]).session,
        later.summaries[i].task_id,
    ) && is_current(later, later.summaries[i]) by {
        assert(is_current(built, built.summaries[i]));
    }
    assert forall|i: int|
        0 <= i < later.records.len() && (#[trigger] later.records[i]).body is Task implies summary_at(
        later.summaries,
        later.records[i].session,
        later.records[i].id,
    ) is Some by {
        assert(built.records[i].body is Task);
    }
    if neat(s) {
        assert forall|x: Text| watermark_of(s, x) <= #[trigger] watermark_of(later, x)
            && watermark_of(later, x) <= later.last_cursor by {
            catching_up_moves_on(s, s.changes.len() as int, x);
            assert(watermark_of(s, x) <= s.last_cursor);
        }
        assert forall|x: Text, y: Text| summary_at(s.summaries, x, y) is Some implies (
        #[trigger] summary_at(later.summaries, x, y)) is Some by {
            summary_in_range(s.summaries, x, y);
            let row = s.summaries[summary_at(s.summaries, x, y)->0];
            position_in_range(s.records, y);
            let i = position(s.records, y)->0;
            assert(later.records[i].body is Task);
        }
    }
}

/// A whole list stays whole while no task is added. Every transaction is such growth, but for
/// creating a task.
pub proof fn steady_growth_keeps_the_list_whole(before: StoreModel, later: StoreModel)
    requires
        grown(before, later),
        forall|i: int|
            before.records.len() <= i < later.records.len() ==> !((
            #[trigger] later.records[i]).body is Task),
        whole_list(before),
    ensures
        whole_list(later),
{
    reveal(list_follows);
    assert forall|i: int|
        0 <= i < later.records.len() && (#[trigger] later.records[i]).body is Task implies summary_at(
        later.summaries,
        later.records[i].session,
        later.records[i].id,
    ) is Some by {
        assert(i < before.records.len());
        assert(record_follows(before.records[i], later.records[i]));
        assert(before.records[i].body is Task);
    }
}

/// A task that is on the list stays on it.
pub proof fn listed_task_stays(
    s: StoreModel,
    before: StoreModel,
    later: StoreModel,
    session: Text,
    id: Text,
)
    requires
        grown(s, before),
        grown(before, later),
        summary_at(before.summaries, session, id) is Some,
    ensures
        neat(s) ==> summary_at(later.summaries, session, id) is Some,
{
    reveal(list_follows);
}

/// Creating a task leaves a whole list whole: the new task is put on it.
pub proof fn creation_keeps_the_list_whole(
    s: StoreModel,
    id: Text,
    origin_id: Text,
    share_ids: Seq<Text>,
    actor: Text,
    session: Text,
    key: Text,
    input: CreateTaskModel,
    refs: Seq<InputRefModel>,
    context: Option<DelegatedCreateModel>,
    now: i64,
)
    requires
        well_formed(s),
        whole_list(s),
        fresh_ids(s, share_ids.push(id).push(origin_id)),
        share_ids.len() >= MAX_REFS,
    ensures
        create_outcome(
            s,
            id,
            origin_id,
            share_ids,
            actor,
            session,
            key,
            input,
            refs,
            context,
            now,
        ) matches Ok((later, _)) ==> whole_list(later),
{
    let outcome = create_outcome(
        s,
        id,
        origin_id,
        share_ids,
        actor,
        session,
        key,
        input,
        refs,
        context,
        now,
    );
    creating_grows(s, id, origin_id, share_ids, actor, session, key, input, refs, context, now);
    if outcome is Ok {
        let (later, answer) = outcome->Ok_0;
        if answer.replayed {
            steady_growth_keeps_the_list_whole(s, later);
        } else {
            let parent = input.parent_task_id;
            let at = choose|at: int| #[trigger] task_added(s, later, session, id, parent, at);
            reveal(list_follows);
            assert forall|i: int|
                0 <= i < later.records.len() && (
                #[trigger] later.records[i]).body is Task implies summary_at(
                later.summaries,
                later.records[i].session,
                later.records[i].id,
            ) is Some by {
                if i < s.records.len() {
                    assert(record_follows(s.records[i], later.records[i]));
                    assert(s.records[i].body is Task);
                }
            }
        }
    }
}

/// A store that was opened has a whole list.
pub proof fn opening_makes_the_list_whole(s: StoreModel)
    requires
        well_formed(s),
        neat(s),
    ensures
        opened(s) matches Ok(later) ==> whole_list(later),
{
    if opened(s) is Ok {
        rebuilt_list_is_whole(s);
        rebuilding_keeps(s);
        let start = summaries_rebuilt(s).0;
        recovering_grows(start, start.records.len() as int);
        assert(start.records.take(start.records.len() as int) =~= start.records);
        steady_growth_keeps_the_list_whole(start, opened(s)->Ok_0);
    }
}

/// What fills a page is sound and fits.
proof fn filling_fits(
    rows: Seq<TaskSummaryModel>,
    session: Text,
    watermark: u64,
    items: Seq<TaskSummaryModel>,
)
    requires
        items.len() > 0 ==> byte_len(TaskSummaryPage::json(page_with(items, watermark)))
            <= MAX_LIST_BYTES,
        forall|k: int| 0 <= k < items.len() ==> is_sound(#[trigger] items[k], session, watermark),
    ensures
        summaries_filled(rows, session, watermark, items) matches Ok((all, _)) ==> {
            &&& all.len() > 0 ==> byte_len(TaskSummaryPage::json(page_with(all, watermark)))
                <= MAX_LIST_BYTES
            &&& forall|k: int| 0 <= k < all.len() ==> is_sound(#[trigger] all[k], session, watermark)
        },
    decreases rows.len(),
{
    if rows.len() > 0 && is_sound(rows[0], session, watermark) {
        let longer = items.push(rows[0]);
        if byte_len(TaskSummaryPage::json(page_with(longer, watermark))) <= MAX_LIST_BYTES {
            filling_fits(rows.drop_first(), session, watermark, longer);
        }
    }
}

/// A page holds no more items than were asked for and no more bytes than a page may, shows only
/// tasks of its session, says at which cursor the list stands, and names the task that the next page
/// starts after exactly where it is its last one and a further page follows. The bytes are those of
/// the page with that name in it, which the last page leaves out.
pub proof fn pages_are_bounded(
    s: StoreModel,
    session: Text,
    limit: u32,
    after: Option<Text>,
    snapshot: Option<u64>,
)
    ensures
        summary_page(s, session, limit, after, snapshot) matches Ok(page) ==> {
            &&& page.items.len() <= limit
            &&& page.snapshot_cursor == watermark_of(s, session)
            &&& page.items.len() > 0 ==> byte_len(
                TaskSummaryPage::json(page_with(page.items, page.snapshot_cursor)),
            ) <= MAX_LIST_BYTES
            &&& forall|k: int|
                0 <= k < page.items.len() ==> (#[trigger] page.items[k]).session_id == session
            &&& page.next_after_id matches Some(next) ==> page.items.len() > 0 && next
                == page.items.last().task_id && page == page_with(page.items, page.snapshot_cursor)
        },
{
    if summary_page(s, session, limit, after, snapshot) is Ok {
        let watermark = watermark_of(s, session);
        let rows = page_rows(s, session, limit, after);
        filling_fits(rows, session, watermark, Seq::empty());
        filling_is_a_beginning(rows, session, watermark, Seq::empty());
        let page = summary_page(s, session, limit, after, snapshot)->Ok_0;
        assert forall|k: int| 0 <= k < page.items.len() implies (
        #[trigger] page.items[k]).session_id == session by {
            assert(is_sound(page.items[k], session, watermark));
        }
    }
}

/// The rows that a page is filled from.
spec fn page_rows(s: StoreModel, session: Text, limit: u32, after: Option<Text>) -> Seq<
    TaskSummaryModel,
> {
    let found = ordered_summaries(s.summaries, session, after_or_start(after), limit as nat + 1);
    if found.len() > limit {
        found.take(limit as int)
    } else {
        found
    }
}

/// The items of a page are the first of those that follow; there are more of them exactly where
/// the page says so.
proof fn pages_begin(
    s: StoreModel,
    session: Text,
    limit: u32,
    after: Option<Text>,
    snapshot: Option<u64>,
)
    requires
        summary_page(s, session, limit, after, snapshot) is Ok,
    ensures
        ({
            let page = summary_page(s, session, limit, after, snapshot)->Ok_0;
            let found = ordered_summaries(
                s.summaries,
                session,
                after_or_start(after),
                limit as nat + 1,
            );
            &&& page.items.len() <= found.len()
            &&& page.items == found.take(page.items.len() as int)
            &&& page.next_after_id is Some <==> page.items.len() < found.len()
            &&& page.next_after_id is Some ==> page.items.len() > 0
        }),
{
    let watermark = watermark_of(s, session);
    let rows = page_rows(s, session, limit, after);
    filling_is_a_beginning(rows, session, watermark, Seq::empty());
    let page = summary_page(s, session, limit, after, snapshot)->Ok_0;
    let found = ordered_summaries(s.summaries, session, after_or_start(after), limit as nat + 1);
    assert(page.items =~= rows.take(page.items.len() as int));
    assert(page.items =~= found.take(page.items.len() as int));
}

/// The task that a page ends with, or starts after where it is empty.
pub open spec fn page_end(page: TaskSummaryPageModel, after: Option<Text>) -> Text {
    if page.items.len() > 0 {
        page.items.last().task_id
    } else {
        after_or_start(after)
    }
}

/// No further page is named exactly where no row of the session comes after the page.
pub proof fn last_pages_say_so(
    s: StoreModel,
    session: Text,
    limit: u32,
    after: Option<Text>,
    snapshot: Option<u64>,
)
    requires
        labelled(s.summaries),
    ensures
        summary_page(s, session, limit, after, snapshot) matches Ok(page) ==> (page.next_after_id
            is None <==> forall|j: int|
            0 <= j < s.summaries.len() ==> !row_follows(
                #[trigger] s.summaries[j],
                session,
                page_end(page, after),
            )),
{
    if summary_page(s, session, limit, after, snapshot) is Ok {
        let page = summary_page(s, session, limit, after, snapshot)->Ok_0;
        let start = after_or_start(after);
        let found = ordered_summaries(s.summaries, session, start, limit as nat + 1);
        let end = page_end(page, after);
        pages_begin(s, session, limit, after, snapshot);
        summaries_are_ordered(s.summaries, session, start, limit as nat + 1);
        if page.items.len() > 0 {
            assert(page.items.last() == found[page.items.len() - 1]);
        }
        if page.next_after_id is None {
            assert forall|j: int| 0 <= j < s.summaries.len() implies !row_follows(
                #[trigger] s.summaries[j],
                session,
                end,
            ) by {
                let row = s.summaries[j];
                if row_follows(row, session, end) {
                    if page.items.len() > 0 {
                        order_is_transitive(start, end, row.task_id);
                    }
                    summary_pages_skip_nothing(s, session, limit, after, snapshot, j);
                    let k = choose|k: int| 0 <= k < page.items.len() && page.items[k] == row.body;
                    order_is_strict(end);
                    if k < page.items.len() - 1 {
                        assert(precedes(found[k].task_id, found[page.items.len() - 1].task_id));
                        order_is_transitive(end, row.task_id, end);
                    }
                }
            }
        } else {
            let next = found[page.items.len() as int];
            let j = choose|j: int|
                0 <= j < s.summaries.len() && (#[trigger] s.summaries[j]).session == session
                    && s.summaries[j].body == next;
            assert(precedes(found[page.items.len() - 1].task_id, next.task_id));
            assert(row_follows(s.summaries[j], session, end));
        }
    }
}

/// What the pages after a task show together, when each is asked for with what the one before said,
/// within so many turns.
pub open spec fn all_pages(
    s: StoreModel,
    session: Text,
    limit: u32,
    after: Option<Text>,
    snapshot: Option<u64>,
    turns: nat,
) -> WorkResult<Seq<TaskSummaryModel>>
    decreases turns,
{
    match summary_page(s, session, limit, after, snapshot) {
        Err(error) => Err(error),
        Ok(page) => match page.next_after_id {
            None => Ok(page.items),
            Some(next) => if turns == 0 {
                refused(FailureCode::ResourceLimit)
            } else {
                match all_pages(
                    s,
                    session,
                    limit,
                    Some(next),
                    Some(page.snapshot_cursor),
                    (turns - 1) as nat,
                ) {
                    Err(error) => Err(error),
                    Ok(rest) => Ok(page.items + rest),
                }
            },
        },
    }
}

/// Pages together show the rows of a session after a task, each once and in order.
pub proof fn pages_show_every_row(
    s: StoreModel,
    session: Text,
    limit: u32,
    after: Option<Text>,
    snapshot: Option<u64>,
    turns: nat,
)
    requires
        labelled(s.summaries),
    ensures
        all_pages(s, session, limit, after, snapshot, turns) matches Ok(all) ==> {
            &&& forall|i: int, j: int|
                0 <= i < j < all.len() ==> precedes(
                    (#[trigger] all[i]).task_id,
                    (#[trigger] all[j]).task_id,
                )
            &&& forall|k: int|
                0 <= k < all.len() ==> precedes(after_or_start(after), (#[trigger] all[k]).task_id)
                    && all[k].session_id == session && exists|j: int|
                    0 <= j < s.summaries.len() && (#[trigger] s.summaries[j]).session == session
                        && s.summaries[j].body == all[k]
            &&& forall|j: int|
                0 <= j < s.summaries.len() && row_follows(
                    #[trigger] s.summaries[j],
                    session,
                    after_or_start(after),
                ) ==> all.contains(s.summaries[j].body)
        },
    decreases turns,
{
    if all_pages(s, session, limit, after, snapshot, turns) is Ok {
        let all = all_pages(s, session, limit, after, snapshot, turns)->Ok_0;
        let page = summary_page(s, session, limit, after, snapshot)->Ok_0;
        let start = after_or_start(after);
        let found = ordered_summaries(s.summaries, session, start, limit as nat + 1);
        pages_begin(s, session, limit, after, snapshot);
        pages_are_bounded(s, session, limit, after, snapshot);
        summaries_are_ordered(s.summaries, session, start, limit as nat + 1);
        let n = page.items.len() as int;
        assert forall|k: int| 0 <= k < n implies #[trigger] page.items[k] == found[k] by {}
        match page.next_after_id {
            None => {
                assert forall|j: int|
                    0 <= j < s.summaries.len() && row_follows(
                        #[trigger] s.summaries[j],
                        session,
                        start,
                    ) implies all.contains(s.summaries[j].body) by {
                    summary_pages_skip_nothing(s, session, limit, after, snapshot, j);
                }
            },
            Some(next) => {
                let cursor = Some(page.snapshot_cursor);
                let fewer = (turns - 1) as nat;
                pages_show_every_row(s, session, limit, Some(next), cursor, fewer);
                let rest = all_pages(s, session, limit, Some(next), cursor, fewer)->Ok_0;
                assert(all == page.items + rest);
                assert(next == found[n - 1].task_id);
                assert forall|k: int| 0 <= k < all.len() implies precedes(
                    start,
                    (#[trigger] all[k]).task_id,
                ) && all[k].session_id == session && exists|j: int|
                    0 <= j < s.summaries.len() && (#[trigger] s.summaries[j]).session == session
                        && s.summaries[j].body == all[k] by {
                    if k < n {
                        assert(all[k] == page.items[k]);
                    } else {
                        assert(all[k] == rest[k - n]);
                        order_is_transitive(start, next, all[k].task_id);
                    }
                }
                assert forall|i: int, j: int| 0 <= i < j < all.len() implies precedes(
                    (#[trigger] all[i]).task_id,
                    (#[trigger] all[j]).task_id,
                ) by {
                    if j < n {
                        assert(all[i] == found[i] && all[j] == found[j]);
                    } else if i >= n {
                        assert(all[i] == rest[i - n] && all[j] == rest[j - n]);
                    } else {
                        assert(all[i] == found[i] && all[j] == rest[j - n]);
                        if i < n - 1 {
                            assert(precedes(found[i].task_id, found[n - 1].task_id));
                            order_is_transitive(all[i].task_id, next, all[j].task_id);
                        }
                    }
                }
                assert forall|j: int|
                    0 <= j < s.summaries.len() && row_follows(
                        #[trigger] s.summaries[j],
                        session,
                        start,
                    ) implies all.contains(s.summaries[j].body) by {
                    let body = s.summaries[j].body;
                    summary_pages_skip_nothing(s, session, limit, after, snapshot, j);
                    if page.items.contains(body) {
                        let k = choose|k: int| 0 <= k < n && page.items[k] == body;
                        assert(all[k] == body);
                    } else {
                        let k = choose|k: int| 0 <= k < rest.len() && rest[k] == body;
                        assert(all[n + k] == body);
                    }
                }
            },
        }
    }
}

/// How many rows of a session come after a task.
pub open spec fn rows_after(rows: Seq<SummaryRowModel>, session: Text, after: Text) -> nat
    decreases rows.len(),
{
    if rows.len() == 0 {
        0
    } else if row_follows(rows.last(), session, after) {
        rows_after(rows.drop_last(), session, after) + 1
    } else {
        rows_after(rows.drop_last(), session, after)
    }
}

/// Fewer rows come after a later task, where the row of that task no longer does.
proof fn fewer_rows_after(
    rows: Seq<SummaryRowModel>,
    session: Text,
    start: Text,
    next: Text,
)
    requires
        precedes(start, next),
    ensures
        rows_after(rows, session, next) <= rows_after(rows, session, start),
        (exists|j: int|
            0 <= j < rows.len() && (#[trigger] rows[j]).session == session && rows[j].task_id
                == next) ==> rows_after(rows, session, next) < rows_after(rows, session, start),
    decreases rows.len(),
{
    if rows.len() > 0 {
        let rest = rows.drop_last();
        let last = rows.last();
        fewer_rows_after(rest, session, start, next);
        if precedes(next, last.task_id) {
            order_is_transitive(start, next, last.task_id);
        }
        order_is_strict(next);
        if exists|j: int|
            0 <= j < rows.len() && (#[trigger] rows[j]).session == session && rows[j].task_id
                == next {
            let j = choose|j: int|
                0 <= j < rows.len() && (#[trigger] rows[j]).session == session && rows[j].task_id
                    == next;
            if j < rows.len() - 1 {
                assert(rest[j].session == session && rest[j].task_id == next);
            }
        }
    }
}

/// As many turns as rows follow are enough to see the last page: more change nothing.
pub proof fn pages_come_to_an_end(
    s: StoreModel,
    session: Text,
    limit: u32,
    after: Option<Text>,
    snapshot: Option<u64>,
    turns: nat,
)
    requires
        labelled(s.summaries),
        turns >= rows_after(s.summaries, session, after_or_start(after)),
    ensures
        all_pages(s, session, limit, after, snapshot, turns) == all_pages(
            s,
            session,
            limit,
            after,
            snapshot,
            turns + 1,
        ),
    decreases turns,
{
    if summary_page(s, session, limit, after, snapshot) is Ok {
        let page = summary_page(s, session, limit, after, snapshot)->Ok_0;
        let start = after_or_start(after);
        let found = ordered_summaries(s.summaries, session, start, limit as nat + 1);
        pages_begin(s, session, limit, after, snapshot);
        pages_are_bounded(s, session, limit, after, snapshot);
        summaries_are_ordered(s.summaries, session, start, limit as nat + 1);
        if let Some(next) = page.next_after_id {
            let last = found[page.items.len() - 1];
            assert(page.items.last() == last);
            let j = choose|j: int|
                0 <= j < s.summaries.len() && (#[trigger] s.summaries[j]).session == session
                    && s.summaries[j].body == last;
            assert(s.summaries[j].task_id == next);
            fewer_rows_after(s.summaries, session, start, next);
            pages_come_to_an_end(
                s,
                session,
                limit,
                Some(next),
                Some(page.snapshot_cursor),
                (turns - 1) as nat,
            );
        }
    }
}

/// Whether every row of a session can be shown: its numbers are exact, it fits on a page by itself,
/// and a page can start after it.
pub open spec fn showable(s: StoreModel, session: Text) -> bool {
    let watermark = watermark_of(s, session);
    forall|j: int|
        0 <= j < s.summaries.len() && (#[trigger] s.summaries[j]).session == session ==> is_sound(
            s.summaries[j].body,
            session,
            watermark,
        ) && byte_len(
            TaskSummaryPage::json(
                page_with(Seq::empty().push(s.summaries[j].body), watermark),
            ),
        ) <= MAX_LIST_BYTES && is_uuid(s.summaries[j].task_id)
}

/// A page is filled where every row is sound and the first one fits.
proof fn filling_succeeds(
    rows: Seq<TaskSummaryModel>,
    session: Text,
    watermark: u64,
    items: Seq<TaskSummaryModel>,
)
    requires
        forall|k: int| 0 <= k < rows.len() ==> is_sound(#[trigger] rows[k], session, watermark),
        items.len() > 0 || rows.len() == 0 || byte_len(
            TaskSummaryPage::json(page_with(items.push(rows[0]), watermark)),
        ) <= MAX_LIST_BYTES,
    ensures
        summaries_filled(rows, session, watermark, items) is Ok,
    decreases rows.len(),
{
    if rows.len() > 0 {
        assert(is_sound(rows[0], session, watermark));
        let rest = rows.drop_first();
        assert forall|k: int| 0 <= k < rest.len() implies is_sound(
            #[trigger] rest[k],
            session,
            watermark,
        ) by {
            assert(rest[k] == rows[k + 1]);
        }
        filling_succeeds(rest, session, watermark, items.push(rows[0]));
    }
}

/// Pages are given as long as the list can be read, what is asked for is admissible, and every row of
/// the session can be shown.
pub proof fn pages_are_given(
    s: StoreModel,
    session: Text,
    limit: u32,
    after: Option<Text>,
    snapshot: Option<u64>,
    turns: nat,
)
    requires
        labelled(s.summaries),
        s.summaries_ready,
        list_request(session, limit, after, snapshot),
        watermark_of(s, session) <= MAX_EXACT,
        snapshot is Some ==> snapshot == Some(watermark_of(s, session)),
        showable(s, session),
        turns >= rows_after(s.summaries, session, after_or_start(after)),
    ensures
        all_pages(s, session, limit, after, snapshot, turns) is Ok,
    decreases turns,
{
    let start = after_or_start(after);
    let watermark = watermark_of(s, session);
    let found = ordered_summaries(s.summaries, session, start, limit as nat + 1);
    let rows = page_rows(s, session, limit, after);
    summaries_are_ordered(s.summaries, session, start, limit as nat + 1);
    assert forall|k: int| 0 <= k < rows.len() implies is_sound(
        #[trigger] rows[k],
        session,
        watermark,
    ) && byte_len(TaskSummaryPage::json(page_with(Seq::empty().push(rows[k]), watermark)))
        <= MAX_LIST_BYTES && is_uuid(rows[k].task_id) by {
        assert(rows[k] == found[k]);
        let j = choose|j: int|
            0 <= j < s.summaries.len() && (#[trigger] s.summaries[j]).session == session
                && s.summaries[j].body == found[k];
        assert(s.summaries[j].task_id == rows[k].task_id);
    }
    if rows.len() > 0 {
        assert(is_sound(rows[0], session, watermark));
    }
    filling_succeeds(rows, session, watermark, Seq::empty());
    pages_begin(s, session, limit, after, snapshot);
    pages_are_bounded(s, session, limit, after, snapshot);
    let page = summary_page(s, session, limit, after, snapshot)->Ok_0;
    if let Some(next) = page.next_after_id {
        let last = rows[page.items.len() - 1];
        assert(page.items.last() == found[page.items.len() - 1]);
        assert(is_sound(last, session, watermark));
        let j = choose|j: int|
            0 <= j < s.summaries.len() && (#[trigger] s.summaries[j]).session == session
                && s.summaries[j].body == last;
        assert(s.summaries[j].task_id == next);
        fewer_rows_after(s.summaries, session, start, next);
        pages_are_given(
            s,
            session,
            limit,
            Some(next),
            Some(page.snapshot_cursor),
            (turns - 1) as nat,
        );
    }
}

/// Pages from the start show every task of a session exactly once, in the order of their
/// identifiers, and no task of another session.
pub proof fn pages_show_every_task_once(s: StoreModel, session: Text, limit: u32, turns: nat)
    requires
        well_formed(s),
        whole_list(s),
    ensures
        all_pages(s, session, limit, None, None, turns) matches Ok(all) ==> {
            &&& forall|i: int, j: int|
                0 <= i < j < all.len() ==> precedes(
                    (#[trigger] all[i]).task_id,
                    (#[trigger] all[j]).task_id,
                )
            &&& forall|k: int|
                0 <= k < all.len() ==> (#[trigger] all[k]).session_id == session && loaded::<Task>(
                    s,
                    session,
                    all[k].task_id,
                ) is Ok
            &&& forall|id: Text|
                id.len() > 0 && (#[trigger] loaded::<Task>(s, session, id)) is Ok ==> exists|k: int|
                    0 <= k < all.len() && (#[trigger] all[k]).task_id == id
        },
{
    if all_pages(s, session, limit, None, None, turns) is Ok {
        let all = all_pages(s, session, limit, None, None, turns)->Ok_0;
        pages_show_every_row(s, session, limit, None, None, turns);
        assert forall|k: int| 0 <= k < all.len() implies (#[trigger] all[k]).session_id == session
            && loaded::<Task>(s, session, all[k].task_id) is Ok by {
            let j = choose|j: int|
                0 <= j < s.summaries.len() && (#[trigger] s.summaries[j]).session == session
                    && s.summaries[j].body == all[k];
            assert(known(s.records, session, s.summaries[j].task_id));
        }
        assert forall|id: Text|
            id.len() > 0 && (#[trigger] loaded::<Task>(s, session, id)) is Ok implies exists|k: int|
            0 <= k < all.len() && (#[trigger] all[k]).task_id == id by {
            position_in_range(s.records, id);
            let i = position(s.records, id)->0;
            assert(s.records[i].body is Task);
            let j = summary_at(s.summaries, session, id)->0;
            summary_in_range(s.summaries, session, id);
            nothing_precedes_empty(id);
            assert(row_follows(s.summaries[j], session, after_or_start(None)));
            let body = s.summaries[j].body;
            let k = choose|k: int| 0 <= k < all.len() && all[k] == body;
            assert(all[k].task_id == id);
        }
    }
}

/// Once a task of a session was changed, a page that is pinned to the cursor before is refused, for
/// good.
pub proof fn old_cursors_conflict(
    s: StoreModel,
    task: TaskModel,
    kind: Text,
    entity: Text,
    now: i64,
    later: StoreModel,
    limit: u32,
    after: Text,
)
    requires
        well_formed(s),
        neat(s),
        may_put(s, task.session_id, task.id, task.id, BodyModel::Task(task)),
        changed(s, task, kind, entity, now) matches Ok((next, _)) && grown(next, later),
        later.summaries_ready,
        list_request(task.session_id, limit, Some(after), Some(watermark_of(s, task.session_id))),
        watermark_of(later, task.session_id) <= MAX_EXACT,
    ensures
        summary_page(
            later,
            task.session_id,
            limit,
            Some(after),
            Some(watermark_of(s, task.session_id)),
        ) == refused::<TaskSummaryPageModel>(FailureCode::RevisionConflict),
{
    reveal(list_follows);
    let next = changed(s, task, kind, entity, now)->Ok_0.0;
    changing_grows(s, task, kind, entity, now);
    list_is_current(s, task, kind, entity, now);
    let session = task.session_id;
    assert(watermark_of(s, session) <= s.last_cursor);
    assert(watermark_of(next, session) <= watermark_of(later, session));
}

/// Whether two stores hold the same list of a session, at the same cursor.
pub open spec fn same_list(a: StoreModel, b: StoreModel, session: Text) -> bool {
    &&& a.summaries_ready == b.summaries_ready
    &&& watermark_of(a, session) == watermark_of(b, session)
    &&& forall|i: int|
        0 <= i < a.summaries.len() && (#[trigger] a.summaries[i]).session == session
            ==> b.summaries.contains(a.summaries[i])
    &&& forall|i: int|
        0 <= i < b.summaries.len() && (#[trigger] b.summaries[i]).session == session
            ==> a.summaries.contains(b.summaries[i])
}

/// The first row of a session after a task is the same in two lists that hold the same rows of it.
proof fn same_first_row(
    a: Seq<SummaryRowModel>,
    b: Seq<SummaryRowModel>,
    session: Text,
    after: Text,
)
    requires
        labelled(a),
        labelled(b),
        forall|i: int|
            0 <= i < a.len() && (#[trigger] a[i]).session == session ==> b.contains(a[i]),
        forall|i: int|
            0 <= i < b.len() && (#[trigger] b[i]).session == session ==> a.contains(b[i]),
    ensures
        match (first_row_after(a, session, after), first_row_after(b, session, after)) {
            (Some(i), Some(j)) => a[i] == b[j],
            (None, None) => true,
            _ => false,
        },
{
    first_row_follows(a, session, after);
    first_row_follows(b, session, after);
    if let Some(i) = first_row_after(a, session, after) {
        let k = choose|k: int| 0 <= k < b.len() && b[k] == a[i];
        first_row_is_least(b, session, after, k);
    }
    if let Some(j) = first_row_after(b, session, after) {
        let k = choose|k: int| 0 <= k < a.len() && a[k] == b[j];
        first_row_is_least(a, session, after, k);
        let i = first_row_after(a, session, after)->0;
        let m = choose|m: int| 0 <= m < b.len() && b[m] == a[i];
        first_row_is_least(b, session, after, m);
        if a[i].task_id != b[j].task_id {
            order_is_total(a[i].task_id, b[j].task_id);
        }
        if k != i {
            if k < i {
                assert(a[k].task_id != a[i].task_id);
            } else {
                assert(a[i].task_id != a[k].task_id);
            }
        }
    }
}

/// A session's summaries are the same in two lists that hold the same rows of it.
proof fn same_summaries(
    a: Seq<SummaryRowModel>,
    b: Seq<SummaryRowModel>,
    session: Text,
    after: Text,
    limit: nat,
)
    requires
        labelled(a),
        labelled(b),
        forall|i: int|
            0 <= i < a.len() && (#[trigger] a[i]).session == session ==> b.contains(a[i]),
        forall|i: int|
            0 <= i < b.len() && (#[trigger] b[i]).session == session ==> a.contains(b[i]),
    ensures
        ordered_summaries(a, session, after, limit) == ordered_summaries(b, session, after, limit),
    decreases limit,
{
    if limit > 0 {
        same_first_row(a, b, session, after);
        if let Some(i) = first_row_after(a, session, after) {
            same_summaries(a, b, session, a[i].task_id, (limit - 1) as nat);
        }
    }
}

/// A page depends on its own session alone: two stores with the same list of a session give the same
/// pages of it, whatever else they hold.
pub proof fn pages_depend_on_their_session(
    a: StoreModel,
    b: StoreModel,
    session: Text,
    limit: u32,
    after: Option<Text>,
    snapshot: Option<u64>,
)
    requires
        labelled(a.summaries),
        labelled(b.summaries),
        same_list(a, b, session),
    ensures
        summary_page(a, session, limit, after, snapshot) == summary_page(
            b,
            session,
            limit,
            after,
            snapshot,
        ),
{
    same_summaries(a.summaries, b.summaries, session, after_or_start(after), limit as nat + 1);
}

/// A change of a task leaves the list of every other session as it was.
pub proof fn changes_leave_other_sessions(
    s: StoreModel,
    task: TaskModel,
    kind: Text,
    entity: Text,
    now: i64,
    session: Text,
)
    requires
        session != task.session_id,
    ensures
        changed(s, task, kind, entity, now) matches Ok((later, _)) ==> same_list(s, later, session),
{
    if changed(s, task, kind, entity, now) is Ok {
        let (later, next) = changed(s, task, kind, entity, now)->Ok_0;
        let (x, y) = (next.session_id, next.id);
        let body = BodyModel::Task(next);
        let filed = put(s, x, y, y, body)->Ok_0;
        putting_is_local(s, x, y, y, body, y);
        summary_in_range(s.summaries, x, y);
        marks_stay(s.watermarks, x, later.last_cursor, session);
        assert forall|i: int|
            0 <= i < s.summaries.len() && (
            #[trigger] s.summaries[i]).session == session implies later.summaries.contains(
            s.summaries[i],
        ) by {
            assert(later.summaries[i] == s.summaries[i]);
        }
        assert forall|i: int|
            0 <= i < later.summaries.len() && (
            #[trigger] later.summaries[i]).session == session implies s.summaries.contains(
            later.summaries[i],
        ) by {
            assert(i < s.summaries.len() && s.summaries[i] == later.summaries[i]);
        }
    }
}

/// The task list reads through. Pages from the start on, each asked for with what the one before
/// said, are all given, and together show every task of the session exactly once, in the order of
/// identifiers, and no task of another session.
pub proof fn task_list_reads_through(s: StoreModel, session: Text, limit: u32)
    requires
        well_formed(s),
        whole_list(s),
        s.summaries_ready,
        list_request(session, limit, None, None),
        watermark_of(s, session) <= MAX_EXACT,
        showable(s, session),
    ensures
        all_pages(
            s,
            session,
            limit,
            None,
            None,
            rows_after(s.summaries, session, after_or_start(None)),
        ) matches Ok(all) && {
            &&& forall|i: int, j: int|
                0 <= i < j < all.len() ==> precedes(
                    (#[trigger] all[i]).task_id,
                    (#[trigger] all[j]).task_id,
                )
            &&& forall|k: int|
                0 <= k < all.len() ==> (#[trigger] all[k]).session_id == session && loaded::<Task>(
                    s,
                    session,
                    all[k].task_id,
                ) is Ok
            &&& forall|id: Text|
                id.len() > 0 && (#[trigger] loaded::<Task>(s, session, id)) is Ok ==> exists|k: int|
                    0 <= k < all.len() && (#[trigger] all[k]).task_id == id
        },
{
    let turns = rows_after(s.summaries, session, after_or_start(None));
    pages_are_given(s, session, limit, None, None, turns);
    pages_show_every_task_once(s, session, limit, turns);
}

} // verus!
