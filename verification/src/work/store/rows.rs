//! What a row of the task list says of its task.
use vstd::prelude::*;
use crate::digest::is_uuid;
use crate::json::ToJson;
use crate::text::byte_len;
use crate::text::is_space;
use crate::value::Text;
use crate::work::model::Attempt;
use crate::work::model::AttemptModel;
use crate::work::model::FailureCode;
use crate::work::model::Operation;
use crate::work::model::OperationKind;
use crate::work::model::OperationModel;
use crate::work::model::OperationState;
use crate::work::model::Reservation;
use crate::work::model::ResultSubmission;
use crate::work::model::ResultSubmissionModel;
use crate::work::model::Review;
use crate::work::model::ReviewModel;
use crate::work::model::Task;
use crate::work::model::TaskActivityModel;
use crate::work::model::TaskModel;
use crate::work::model::TaskSummaryModel;
use crate::work::model::TaskSummaryPage;
use crate::work::model::TaskSummaryPageModel;
use crate::work::store::changes::changed;
use crate::work::store::dependencies::is_last_review;
use crate::work::store::dependencies::last_reviews_count;
use crate::work::store::effects::put_lands;
use crate::work::store::freshness::labelled_rows_are_found;
use crate::work::store::freshness::row_of;
use crate::work::store::freshness::shown_right;
use crate::work::store::freshness::up_to_date;
use crate::work::store::history::well_formed;
use crate::work::store::listing::pages_are_bounded;
use crate::work::store::pagination::after_or_start;
use crate::work::store::reaching::StepModel;
use crate::work::store::reaching::all_fresh;
use crate::work::store::reaching::reached;
use crate::work::store::reaching::reached_stores_are_sound;
use crate::work::store::readings::reads_give_what_is_recorded;
use crate::work::store::readings::recorded_as;
use crate::work::store::records::listed;
use crate::work::store::records::loaded;
use crate::work::store::records::put;
use crate::work::store::summaries::active_count;
use crate::work::store::summaries::active_rows;
use crate::work::store::summaries::activity_at;
use crate::work::store::summaries::is_active;
use crate::work::store::summaries::is_unresolved;
use crate::work::store::summaries::marked;
use crate::work::store::summaries::summarized;
use crate::work::store::summaries::summary_at;
use crate::work::store::summaries::summary_of;
use crate::work::store::summaries::unresolved_count;
use crate::work::store::summaries::unreviewed_count;
use crate::work::store::tables::ActivityRowModel;
use crate::work::store::tables::BodyModel;
use crate::work::store::tables::ChangeRowModel;
use crate::work::store::tables::StoreModel;
use crate::work::store::tables::SummaryRowModel;
use crate::work::store::task_list::filling_is_a_beginning;
use crate::work::store::task_list::labelled;
use crate::work::store::task_list::ordered_summaries;
use crate::work::store::task_list::summaries_are_ordered;
use crate::work::store::task_list::summaries_filled;
use crate::work::store::task_list::summary_page;
use crate::work::store::task_list::watermark_of;

verus! {

/// Whether an attempt still holds its place: its reservation was not released.
pub open spec fn holds_its_place(attempt: AttemptModel) -> bool {
    attempt.lifecycle.reservation == Reservation::Reserved
}

/// Whether an operation reached for a native process on behalf of an attempt that still holds its
/// place, and nobody knows yet how it ended.
pub open spec fn is_in_the_air(op: OperationModel, attempts: Seq<AttemptModel>) -> bool {
    &&& op.kind == OperationKind::StartAttempt || op.kind == OperationKind::DeliverPrompt || op.kind
        == OperationKind::InterruptAttempt
    &&& op.state == OperationState::Prepared || op.state == OperationState::Submitting || op.state
        == OperationState::Unconfirmed
    &&& op.attempt_id is Some
    &&& exists|i: int|
        0 <= i < attempts.len() && (#[trigger] attempts[i]).id == op.attempt_id->0
            && holds_its_place(attempts[i])
}

/// Whether no review speaks of a result.
pub open spec fn is_unread(result: ResultSubmissionModel, reviews: Seq<ReviewModel>) -> bool {
    forall|j: int|
        0 <= j < reviews.len() ==> (#[trigger] reviews[j]).review.submission_id != result.id
}

/// Whether a row tells of a task what its records say.
pub open spec fn row_tells_of(
    s: StoreModel,
    session: Text,
    task: TaskModel,
    row: TaskSummaryModel,
) -> bool {
    let attempts = listed::<Attempt>(s.records, session, task.id);
    let operations = listed::<Operation>(s.records, session, task.id);
    let results = listed::<ResultSubmission>(s.records, session, task.id);
    let reviews = listed::<Review>(s.records, session, task.id);
    &&& row.task_id == task.id
    &&& row.session_id == task.session_id
    &&& row.parent_task_id == task.parent_task_id
    &&& row.task_revision == task.revision
    &&& row.title == task.title
    &&& row.repo_path == task.repo_path
    &&& row.paused == task.paused
    &&& row.reserved_attempts == attempts.filter(
        |a: AttemptModel| holds_its_place(a),
    ).len() as u64
    &&& row.unresolved_native_operations == operations.filter(
        |op: OperationModel| is_in_the_air(op, attempts),
    ).len() as u64
    &&& row.unreviewed_results == results.filter(
        |r: ResultSubmissionModel| is_unread(r, reviews),
    ).len() as u64
    &&& row.latest_result is Some <==> results.len() > 0
    &&& row.latest_result matches Some(latest) ==> {
        &&& latest.submission_id == results.last().id
        &&& latest.review is None <==> is_unread(results.last(), reviews)
        &&& latest.review matches Some(told) ==> exists|at: int| #[trigger]
            is_last_review(reviews, results.last().id, at) && told.review_id == reviews[at].id
                && told.decision == reviews[at].review.decision
    }
}

proof fn active_attempts_are_counted(attempts: Seq<AttemptModel>)
    ensures
        active_count(attempts) == attempts.filter(|a: AttemptModel| holds_its_place(a)).len(),
    decreases attempts.len(),
{
    reveal(Seq::filter);
    if attempts.len() > 0 {
        active_attempts_are_counted(attempts.drop_last());
    }
}

proof fn unresolved_operations_are_counted(
    operations: Seq<OperationModel>,
    attempts: Seq<AttemptModel>,
)
    ensures
        unresolved_count(operations, attempts) == operations.filter(
            |op: OperationModel| is_in_the_air(op, attempts),
        ).len(),
    decreases operations.len(),
{
    reveal(Seq::filter);
    if operations.len() > 0 {
        unresolved_operations_are_counted(operations.drop_last(), attempts);
        let op = operations.last();
        assert(is_unresolved(op, attempts) == is_in_the_air(op, attempts)) by {
            if is_unresolved(op, attempts) {
                let i = choose|i: int|
                    0 <= i < attempts.len() && #[trigger] attempts[i].id == op.attempt_id->0
                        && is_active(attempts[i]);
                assert(attempts[i].id == op.attempt_id->0 && holds_its_place(attempts[i]));
            }
            if is_in_the_air(op, attempts) {
                let i = choose|i: int|
                    0 <= i < attempts.len() && (#[trigger] attempts[i]).id == op.attempt_id->0
                        && holds_its_place(attempts[i]);
                assert(attempts[i].id == op.attempt_id->0 && is_active(attempts[i]));
            }
        }
    }
}

proof fn unreviewed_results_are_counted(
    results: Seq<ResultSubmissionModel>,
    reviews: Seq<ReviewModel>,
)
    ensures
        unreviewed_count(results, reviews) == results.filter(
            |r: ResultSubmissionModel| is_unread(r, reviews),
        ).len(),
    decreases results.len(),
{
    reveal(Seq::filter);
    if results.len() > 0 {
        unreviewed_results_are_counted(results.drop_last(), reviews);
        last_reviews_count(reviews, results.last().id);
    }
}

/// The summary of a task tells what its records say: its title, repository, parent, revision and
/// whether it is paused; how many attempts hold their places, how many of their operations are in
/// the air, and how many results nobody reviewed; and the last result with its last review.
pub proof fn summaries_tell_of_their_tasks(s: StoreModel, session: Text, task: TaskModel)
    ensures
        row_tells_of(s, session, task, summary_of(s, session, task)),
{
    let attempts = listed::<Attempt>(s.records, session, task.id);
    let operations = listed::<Operation>(s.records, session, task.id);
    let results = listed::<ResultSubmission>(s.records, session, task.id);
    let reviews = listed::<Review>(s.records, session, task.id);
    active_attempts_are_counted(attempts);
    unresolved_operations_are_counted(operations, attempts);
    unreviewed_results_are_counted(results, reviews);
    if results.len() > 0 {
        last_reviews_count(reviews, results.last().id);
    }
}

/// Each row of a page of the task list tells of the recorded task that it names: its title,
/// repository, parent and revision, whether it is paused, and what is filed under it.
pub proof fn rows_tell_of_recorded_tasks(
    s: StoreModel,
    session: Text,
    limit: u32,
    after: Option<Text>,
    snapshot: Option<u64>,
)
    requires
        well_formed(s),
        labelled(s.summaries),
        up_to_date(s),
    ensures
        summary_page(s, session, limit, after, snapshot) matches Ok(page) ==> forall|k: int|
            0 <= k < page.items.len() ==> {
                let row = #[trigger] page.items[k];
                loaded::<Task>(s, session, row.task_id) matches Ok(task) && recorded_as(
                    s,
                    session,
                    row.task_id,
                    BodyModel::Task(task),
                ) && row.title == task.title && row.repo_path == task.repo_path
                    && row.parent_task_id == task.parent_task_id && row.task_revision
                    == task.revision && row.paused == task.paused && row_tells_of(
                    s,
                    session,
                    task,
                    row,
                )
            },
{
    if let Ok(page) = summary_page(s, session, limit, after, snapshot) {
        let rows = ordered_summaries(s.summaries, session, after_or_start(after), limit as nat + 1);
        let shown_rows = if rows.len() > limit {
            rows.take(limit as int)
        } else {
            rows
        };
        summaries_are_ordered(s.summaries, session, after_or_start(after), limit as nat + 1);
        filling_is_a_beginning(shown_rows, session, watermark_of(s, session), Seq::empty());
        assert forall|k: int| 0 <= k < page.items.len() implies {
            let row = #[trigger] page.items[k];
            loaded::<Task>(s, session, row.task_id) matches Ok(task) && recorded_as(
                s,
                session,
                row.task_id,
                BodyModel::Task(task),
            ) && row.title == task.title && row.repo_path == task.repo_path && row.parent_task_id
                == task.parent_task_id && row.task_revision == task.revision && row.paused
                == task.paused && row_tells_of(s, session, task, row)
        } by {
            assert(page.items[k] == rows[k]);
            let i = choose|i: int|
                0 <= i < s.summaries.len() && (#[trigger] s.summaries[i]).session == session
                    && s.summaries[i].body == rows[k];
            labelled_rows_are_found(s.summaries, i);
            let id = s.summaries[i].task_id;
            assert(shown_right(s, session, id));
            reads_give_what_is_recorded(s, session, id);
            summaries_tell_of_their_tasks(s, session, loaded::<Task>(s, session, id)->Ok_0);
        }
    }
}

/// In every store that the operations reach, each row of a page tells of the recorded task that it
/// names.
pub proof fn reached_rows_tell_of_recorded_tasks(
    steps: Seq<StepModel>,
    session: Text,
    limit: u32,
    after: Option<Text>,
    snapshot: Option<u64>,
)
    requires
        all_fresh(steps),
    ensures
        ({
            let s = reached(steps);
            summary_page(s, session, limit, after, snapshot) matches Ok(page) ==> forall|k: int|
                0 <= k < page.items.len() ==> {
                    let row = #[trigger] page.items[k];
                    loaded::<Task>(s, session, row.task_id) matches Ok(task) && row.title
                        == task.title && row.repo_path == task.repo_path && row.parent_task_id
                        == task.parent_task_id && row.task_revision == task.revision && row.paused
                        == task.paused && row_tells_of(s, session, task, row)
                }
        }),
{
    reached_stores_are_sound(steps);
    rows_tell_of_recorded_tasks(reached(steps), session, limit, after, snapshot);
}

/// A page of the task list is refused only for a reason: the list was not built; the request names
/// no admissible session, asks for none or more than 20 rows, or goes on without saying from which
/// state; the list moved on since; or a row or a cursor is too large to be told.
pub proof fn list_refusals_have_reasons(
    s: StoreModel,
    session: Text,
    limit: u32,
    after: Option<Text>,
    snapshot: Option<u64>,
)
    ensures
        summary_page(s, session, limit, after, snapshot) matches Err(error) ==> {
            let mark = watermark_of(s, session);
            &&& error.0 == FailureCode::CapabilityUnavailable ==> !s.summaries_ready
            &&& error.0 == FailureCode::InvalidInput ==> {
                ||| limit == 0 || limit > 20
                ||| snapshot is Some && snapshot->0 > 9_007_199_254_740_991
                ||| after is Some && snapshot is None
                ||| after is None && snapshot is Some
                ||| after is Some && !is_uuid(after->0)
                ||| byte_len(session) > 256 || session.contains('\0')
                ||| forall|i: int| 0 <= i < session.len() ==> is_space(#[trigger] session[i])
            }
            &&& error.0 == FailureCode::RevisionConflict ==> snapshot is Some && snapshot->0 != mark
            &&& {
                ||| error.0 == FailureCode::CapabilityUnavailable
                ||| error.0 == FailureCode::InvalidInput
                ||| error.0 == FailureCode::RevisionConflict
                ||| error.0 == FailureCode::ResourceLimit
                ||| error.0 == FailureCode::StorageUnavailable
            }
        },
        summary_page(s, session, limit, after, snapshot) matches Ok(page) ==> {
            &&& s.summaries_ready
            &&& 0 < limit <= 20
            &&& snapshot matches Some(cursor) ==> cursor == watermark_of(s, session)
            &&& after matches Some(id) ==> is_uuid(id) && snapshot is Some
            &&& page.items.len() <= limit
            &&& page.items.len() > 0 ==> byte_len(
                TaskSummaryPage::json(
                    TaskSummaryPageModel {
                        items: page.items,
                        snapshot_cursor: page.snapshot_cursor,
                        next_after_id: Some(page.items.last().task_id),
                    },
                ),
            ) <= 131_072
        },
{
    pages_are_bounded(s, session, limit, after, snapshot);
    let mark = watermark_of(s, session);
    let rows = ordered_summaries(s.summaries, session, after_or_start(after), limit as nat + 1);
    let shown_rows = if rows.len() > limit {
        rows.take(limit as int)
    } else {
        rows
    };
    filling_fails_for_size(shown_rows, session, mark, Seq::empty());
}

proof fn filling_fails_for_size(
    rows: Seq<TaskSummaryModel>,
    session: Text,
    watermark: u64,
    items: Seq<TaskSummaryModel>,
)
    ensures
        summaries_filled(rows, session, watermark, items) matches Err(error) ==> error.0
            == FailureCode::ResourceLimit || error.0 == FailureCode::StorageUnavailable,
    decreases rows.len(),
{
    if rows.len() > 0 {
        filling_fails_for_size(rows.drop_first(), session, watermark, items.push(rows[0]));
    }
}

/// A change of a task is what its row then shows last.
pub proof fn changes_show_as_activity(
    s: StoreModel,
    task: TaskModel,
    kind: Text,
    entity: Text,
    now: i64,
)
    ensures
        changed(s, task, kind, entity, now) matches Ok((later, _)) ==> (row_of(
            later,
            task.session_id,
            task.id,
        ) matches Some(row) && (row.last_activity matches Some(activity) && activity.cursor
            == later.last_cursor && activity.kind == kind && activity.entity_id == entity
            && row.task_revision == task.revision + 1 && row.paused == task.paused && row.title
            == task.title)),
{
    if let Ok((later, next)) = changed(s, task, kind, entity, now) {
        let filed = put(s, next.session_id, next.id, next.id, BodyModel::Task(next))->Ok_0;
        let cursor = later.last_cursor;
        let activity = TaskActivityModel { cursor, kind, entity_id: entity };
        let rows = active_rows(filed.activity, next.session_id, next.id, activity);
        activity_is_found(filed.activity, next.session_id, next.id, activity);
        let mid = StoreModel {
            changes: filed.changes.push(
                ChangeRowModel {
                    cursor,
                    session: next.session_id,
                    task_id: next.id,
                    revision: next.revision,
                    kind,
                    entity_id: entity,
                },
            ),
            last_cursor: cursor,
            watermarks: marked(filed.watermarks, next.session_id, cursor),
            activity: rows,
            ..filed
        };
        let body = summary_of(
            mid,
            next.session_id,
            TaskModel { id: next.id, ..loaded::<Task>(mid, next.session_id, next.id)->Ok_0 },
        );
        assert(put(s, next.session_id, next.id, next.id, BodyModel::Task(next)) is Ok);
        put_is_loaded(s, next);
        summary_is_found(filed.summaries, next.session_id, next.id, body);
        assert(later.summaries == summarized(filed.summaries, next.session_id, next.id, body));
    }
}

proof fn activity_is_found(
    rows: Seq<ActivityRowModel>,
    session: Text,
    task: Text,
    activity: TaskActivityModel,
)
    ensures
        activity_at(active_rows(rows, session, task, activity), session, task) matches Some(i)
            && 0 <= i < active_rows(rows, session, task, activity).len() && active_rows(
            rows,
            session,
            task,
            activity,
        )[i].activity == activity,
        activity_at(rows, session, task) matches Some(i) ==> 0 <= i < rows.len(),
    decreases rows.len(),
{
    let later = active_rows(rows, session, task, activity);
    if rows.len() == 0 {
        assert(later.last() == (ActivityRowModel { session, task_id: task, activity }));
    } else if rows.last().session == session && rows.last().task_id == task {
        assert(later.last().activity == activity);
    } else {
        activity_is_found(rows.drop_last(), session, task, activity);
        let shorter = active_rows(rows.drop_last(), session, task, activity);
        if activity_at(rows, session, task) is Some {
            assert(later.drop_last() =~= shorter);
            assert(later.last() == rows.last());
        } else {
            assert(later.last() == (ActivityRowModel { session, task_id: task, activity }));
        }
    }
}

proof fn summary_is_found(
    rows: Seq<SummaryRowModel>,
    session: Text,
    task: Text,
    body: TaskSummaryModel,
)
    ensures
        summary_at(summarized(rows, session, task, body), session, task) matches Some(i)
            && 0 <= i < summarized(rows, session, task, body).len() && summarized(
            rows,
            session,
            task,
            body,
        )[i].body == body,
        summary_at(rows, session, task) matches Some(i) ==> 0 <= i < rows.len(),
    decreases rows.len(),
{
    let later = summarized(rows, session, task, body);
    if rows.len() == 0 {
        assert(later.last() == (SummaryRowModel { session, task_id: task, body }));
    } else if rows.last().session == session && rows.last().task_id == task {
        assert(later.last().body == body);
    } else {
        summary_is_found(rows.drop_last(), session, task, body);
        let shorter = summarized(rows.drop_last(), session, task, body);
        if summary_at(rows, session, task) is Some {
            assert(later.drop_last() =~= shorter);
            assert(later.last() == rows.last());
        } else {
            assert(later.last() == (SummaryRowModel { session, task_id: task, body }));
        }
    }
}

proof fn put_is_loaded(s: StoreModel, task: TaskModel)
    ensures
        put(s, task.session_id, task.id, task.id, BodyModel::Task(task)) matches Ok(filed) ==> (
        loaded::<Task>(filed, task.session_id, task.id) matches Ok(found) ==> found == task),
{
    if let Ok(filed) = put(s, task.session_id, task.id, task.id, BodyModel::Task(task)) {
        put_lands(s, task.session_id, task.id, task.id, BodyModel::Task(task));
    }
}

} // verus!
