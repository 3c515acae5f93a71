//! The task list: one summary row per task, kept up to date with every change.
use vstd::prelude::*;
use crate::text::text_eq;
use crate::value::add_row;
use crate::value::set_row;
use crate::value::Replica;
use crate::value::Text;
use crate::work::model::Attempt;
use crate::work::model::AttemptModel;
use crate::work::model::Operation;
use crate::work::model::OperationKind;
use crate::work::model::OperationModel;
use crate::work::model::OperationState;
use crate::work::model::Reservation;
use crate::work::model::ResultSubmission;
use crate::work::model::ResultSubmissionModel;
use crate::work::model::Review;
use crate::work::model::ReviewModel;
use crate::work::model::SummaryResult;
use crate::work::model::SummaryResultModel;
use crate::work::model::SummaryReview;
use crate::work::model::SummaryReviewModel;
use crate::work::model::Task;
use crate::work::model::TaskActivity;
use crate::work::model::TaskActivityModel;
use crate::work::model::TaskModel;
use crate::work::model::TaskSummary;
use crate::work::model::TaskSummaryModel;
use crate::work::model::WorkError;
use crate::work::model::WorkResult;
use crate::work::store::records::listed;
use crate::work::store::records::loaded;
use crate::work::store::tables::ActivityRow;
use crate::work::store::tables::ActivityRowModel;
use crate::work::store::tables::StoreModel;
use crate::work::store::tables::SummaryRow;
use crate::work::store::tables::SummaryRowModel;
use crate::work::store::tables::WatermarkRow;
use crate::work::store::tables::WatermarkRowModel;
use crate::work::store::tables::WorkStore;

verus! {

/// An attempt that still counts against its task's allowance.
pub open spec fn is_active(attempt: AttemptModel) -> bool {
    attempt.lifecycle.reservation != Reservation::Released
}

/// Whether an attempt still counts against its task's allowance.
pub fn reservation_active(attempt: &Attempt) -> (res: bool)
    ensures
        res == is_active(attempt.deep_view()),
{
    attempt.lifecycle.reservation != Reservation::Released
}

/// How many attempts are active.
pub open spec fn active_count(attempts: Seq<AttemptModel>) -> nat
    decreases attempts.len(),
{
    if attempts.len() == 0 {
        0
    } else if is_active(attempts.last()) {
        active_count(attempts.drop_last()) + 1
    } else {
        active_count(attempts.drop_last())
    }
}

/// The kinds of operation that reach into a native process.
pub open spec fn is_native(kind: OperationKind) -> bool {
    kind == OperationKind::StartAttempt || kind == OperationKind::DeliverPrompt || kind
        == OperationKind::InterruptAttempt
}

pub fn native_kind(kind: OperationKind) -> (res: bool)
    ensures
        res == is_native(kind),
{
    kind == OperationKind::StartAttempt || kind == OperationKind::DeliverPrompt || kind
        == OperationKind::InterruptAttempt
}

/// The states in which an operation may still have an effect that is not known.
pub open spec fn is_open(state: OperationState) -> bool {
    state == OperationState::Prepared || state == OperationState::Submitting || state
        == OperationState::Unconfirmed
}

pub fn open_state(state: OperationState) -> (res: bool)
    ensures
        res == is_open(state),
{
    state == OperationState::Prepared || state == OperationState::Submitting || state
        == OperationState::Unconfirmed
}

/// Whether one of the attempts bears an identifier and is active.
pub open spec fn holds(attempts: Seq<AttemptModel>, id: Text) -> bool {
    exists|i: int| 0 <= i < attempts.len() && #[trigger] attempts[i].id == id && is_active(
        attempts[i],
    )
}

/// An operation of an active attempt whose native effect is still open.
pub open spec fn is_unresolved(op: OperationModel, attempts: Seq<AttemptModel>) -> bool {
    is_native(op.kind) && is_open(op.state) && (op.attempt_id matches Some(id) && holds(
        attempts,
        id,
    ))
}

/// How many operations are unresolved.
pub open spec fn unresolved_count(
    operations: Seq<OperationModel>,
    attempts: Seq<AttemptModel>,
) -> nat
    decreases operations.len(),
{
    if operations.len() == 0 {
        0
    } else if is_unresolved(operations.last(), attempts) {
        unresolved_count(operations.drop_last(), attempts) + 1
    } else {
        unresolved_count(operations.drop_last(), attempts)
    }
}

/// The last review of a submission.
pub open spec fn last_review(reviews: Seq<ReviewModel>, submission: Text) -> Option<ReviewModel>
    decreases reviews.len(),
{
    if reviews.len() == 0 {
        None
    } else if reviews.last().review.submission_id == submission {
        Some(reviews.last())
    } else {
        last_review(reviews.drop_last(), submission)
    }
}

/// How many submissions no review speaks of.
pub open spec fn unreviewed_count(
    results: Seq<ResultSubmissionModel>,
    reviews: Seq<ReviewModel>,
) -> nat
    decreases results.len(),
{
    if results.len() == 0 {
        0
    } else if last_review(reviews, results.last().id) is None {
        unreviewed_count(results.drop_last(), reviews) + 1
    } else {
        unreviewed_count(results.drop_last(), reviews)
    }
}

/// The latest submission with its latest review. Order of filing decides, never a clock.
pub open spec fn latest_result(
    results: Seq<ResultSubmissionModel>,
    reviews: Seq<ReviewModel>,
) -> Option<SummaryResultModel> {
    if results.len() == 0 {
        None
    } else {
        Some(
            SummaryResultModel {
                submission_id: results.last().id,
                review: match last_review(reviews, results.last().id) {
                    Some(review) => Some(
                        SummaryReviewModel {
                            review_id: review.id,
                            decision: review.review.decision,
                        },
                    ),
                    None => None,
                },
            },
        )
    }
}

/// Where the activity row of a task stands.
pub open spec fn activity_at(rows: Seq<ActivityRowModel>, session: Text, task: Text) -> Option<int>
    decreases rows.len(),
{
    if rows.len() == 0 {
        None
    } else if rows.last().session == session && rows.last().task_id == task {
        Some(rows.len() - 1)
    } else {
        activity_at(rows.drop_last(), session, task)
    }
}

/// Where the summary row of a task stands.
pub open spec fn summary_at(rows: Seq<SummaryRowModel>, session: Text, task: Text) -> Option<int>
    decreases rows.len(),
{
    if rows.len() == 0 {
        None
    } else if rows.last().session == session && rows.last().task_id == task {
        Some(rows.len() - 1)
    } else {
        summary_at(rows.drop_last(), session, task)
    }
}

/// Where the watermark of a session stands.
pub open spec fn watermark_at(rows: Seq<WatermarkRowModel>, session: Text) -> Option<int>
    decreases rows.len(),
{
    if rows.len() == 0 {
        None
    } else if rows.last().session == session {
        Some(rows.len() - 1)
    } else {
        watermark_at(rows.drop_last(), session)
    }
}

/// The summary of a task as its records give it.
pub open spec fn summary_of(s: StoreModel, session: Text, task: TaskModel) -> TaskSummaryModel {
    let attempts = listed::<Attempt>(s.records, session, task.id);
    let operations = listed::<Operation>(s.records, session, task.id);
    let results = listed::<ResultSubmission>(s.records, session, task.id);
    let reviews = listed::<Review>(s.records, session, task.id);
    TaskSummaryModel {
        task_id: task.id,
        session_id: task.session_id,
        parent_task_id: task.parent_task_id,
        task_revision: task.revision,
        title: task.title,
        repo_path: task.repo_path,
        paused: task.paused,
        last_activity: match activity_at(s.activity, session, task.id) {
            Some(i) => Some(s.activity[i].activity),
            None => None,
        },
        reserved_attempts: active_count(attempts) as u64,
        unresolved_native_operations: unresolved_count(operations, attempts) as u64,
        unreviewed_results: unreviewed_count(results, reviews) as u64,
        latest_result: latest_result(results, reviews),
    }
}

/// The summary rows with one of them written.
pub open spec fn summarized(
    rows: Seq<SummaryRowModel>,
    session: Text,
    task: Text,
    body: TaskSummaryModel,
) -> Seq<SummaryRowModel> {
    match summary_at(rows, session, task) {
        Some(i) => rows.update(i, SummaryRowModel { body, ..rows[i] }),
        None => rows.push(SummaryRowModel { session, task_id: task, body }),
    }
}

/// The store after the summary of a task was computed anew.
pub open spec fn refreshed(s: StoreModel, session: Text, task_id: Text) -> WorkResult<StoreModel> {
    match loaded::<Task>(s, session, task_id) {
        Err(error) => Err(error),
        Ok(task) => Ok(
            StoreModel {
                summaries: summarized(
                    s.summaries,
                    session,
                    task_id,
                    summary_of(s, session, TaskModel { id: task_id, ..task }),
                ),
                ..s
            },
        ),
    }
}

/// The watermarks with one of them moved.
pub open spec fn marked(rows: Seq<WatermarkRowModel>, session: Text, cursor: u64) -> Seq<
    WatermarkRowModel,
> {
    match watermark_at(rows, session) {
        Some(i) => rows.update(i, WatermarkRowModel { cursor, ..rows[i] }),
        None => rows.push(WatermarkRowModel { session, cursor }),
    }
}

/// The activity rows with one of them written.
pub open spec fn active_rows(
    rows: Seq<ActivityRowModel>,
    session: Text,
    task: Text,
    activity: TaskActivityModel,
) -> Seq<ActivityRowModel> {
    match activity_at(rows, session, task) {
        Some(i) => rows.update(i, ActivityRowModel { activity, ..rows[i] }),
        None => rows.push(ActivityRowModel { session, task_id: task, activity }),
    }
}

/// The store after a change was projected onto the task list.
pub open spec fn projected(
    s: StoreModel,
    session: Text,
    task_id: Text,
    activity: TaskActivityModel,
) -> WorkResult<StoreModel> {
    refreshed(
        StoreModel {
            watermarks: marked(s.watermarks, session, activity.cursor),
            activity: active_rows(s.activity, session, task_id, activity),
            ..s
        },
        session,
        task_id,
    )
}

fn count_active(attempts: &Vec<Attempt>) -> (res: u64)
    ensures
        res == active_count(attempts.deep_view()),
{
    let ghost all = attempts.deep_view();
    let mut count: u64 = 0;
    let mut i: usize = 0;
    while i < attempts.len()
        invariant
            i <= attempts.len(),
            count <= i,
            all == attempts.deep_view(),
            count == active_count(all.take(i as int)),
        decreases attempts.len() - i,
    {
        assert(all.take(i + 1).drop_last() =~= all.take(i as int));
        if reservation_active(&attempts[i]) {
            count += 1;
        }
        i += 1;
    }
    assert(all.take(i as int) =~= all);
    count
}

fn held(attempts: &Vec<Attempt>, id: &str) -> (res: bool)
    ensures
        res == holds(attempts.deep_view(), id@),
{
    let ghost all = attempts.deep_view();
    let mut i: usize = 0;
    while i < attempts.len()
        invariant
            i <= attempts.len(),
            all == attempts.deep_view(),
            forall|k: int| 0 <= k < i ==> !(#[trigger] all[k].id == id@ && is_active(all[k])),
        decreases attempts.len() - i,
    {
        if text_eq(attempts[i].id.as_str(), id) && reservation_active(&attempts[i]) {
            assert(all[i as int].id == id@);
            return true;
        }
        i += 1;
    }
    false
}

fn unresolved(op: &Operation, attempts: &Vec<Attempt>) -> (res: bool)
    ensures
        res == is_unresolved(op.deep_view(), attempts.deep_view()),
{
    if !native_kind(op.kind) || !open_state(op.state) {
        return false;
    }
    match &op.attempt_id {
        Some(id) => held(attempts, id.as_str()),
        None => false,
    }
}

fn count_unresolved(operations: &Vec<Operation>, attempts: &Vec<Attempt>) -> (res: u64)
    ensures
        res == unresolved_count(operations.deep_view(), attempts.deep_view()),
{
    let ghost all = operations.deep_view();
    let mut count: u64 = 0;
    let mut i: usize = 0;
    while i < operations.len()
        invariant
            i <= operations.len(),
            count <= i,
            all == operations.deep_view(),
            count == unresolved_count(all.take(i as int), attempts.deep_view()),
        decreases operations.len() - i,
    {
        assert(all.take(i + 1).drop_last() =~= all.take(i as int));
        if unresolved(&operations[i], attempts) {
            count += 1;
        }
        i += 1;
    }
    assert(all.take(i as int) =~= all);
    count
}

/// The last review of a submission.
pub fn review_of<'a>(reviews: &'a Vec<Review>, submission: &str) -> (res: Option<&'a Review>)
    ensures
        res.deep_view() == last_review(reviews.deep_view(), submission@),
{
    let ghost all = reviews.deep_view();
    let mut i: usize = reviews.len();
    assert(all.take(i as int) =~= all);
    while i > 0
        invariant
            i <= reviews.len(),
            all == reviews.deep_view(),
            last_review(all, submission@) == last_review(all.take(i as int), submission@),
        decreases i,
    {
        i -= 1;
        assert(all.take(i + 1).drop_last() =~= all.take(i as int));
        if text_eq(reviews[i].review.submission_id.as_str(), submission) {
            return Some(&reviews[i]);
        }
    }
    None
}

fn count_unreviewed(results: &Vec<ResultSubmission>, reviews: &Vec<Review>) -> (res: u64)
    ensures
        res == unreviewed_count(results.deep_view(), reviews.deep_view()),
{
    let ghost all = results.deep_view();
    let mut count: u64 = 0;
    let mut i: usize = 0;
    while i < results.len()
        invariant
            i <= results.len(),
            count <= i,
            all == results.deep_view(),
            count == unreviewed_count(all.take(i as int), reviews.deep_view()),
        decreases results.len() - i,
    {
        assert(all.take(i + 1).drop_last() =~= all.take(i as int));
        if review_of(reviews, results[i].id.as_str()).is_none() {
            count += 1;
        }
        i += 1;
    }
    assert(all.take(i as int) =~= all);
    count
}

fn latest(results: &Vec<ResultSubmission>, reviews: &Vec<Review>) -> (res: Option<SummaryResult>)
    ensures
        res.deep_view() == latest_result(results.deep_view(), reviews.deep_view()),
{
    if results.len() == 0 {
        return None;
    }
    let last = &results[results.len() - 1];
    let review = match review_of(reviews, last.id.as_str()) {
        Some(review) => Some(
            SummaryReview { review_id: review.id.clone(), decision: review.review.decision },
        ),
        None => None,
    };
    Some(SummaryResult { submission_id: last.id.clone(), review })
}

impl WorkStore {
    pub(crate) fn find_activity(&self, session: &str, task: &str) -> (res: Option<usize>)
        ensures
            match res {
                Some(i) => i < self.activity.len() && activity_at(self@.activity, session@, task@)
                    == Some(i as int),
                None => activity_at(self@.activity, session@, task@) is None,
            },
    {
        let ghost all = self@.activity;
        let mut i: usize = self.activity.len();
        assert(all.take(i as int) =~= all);
        while i > 0
            invariant
                i <= self.activity.len(),
                all == self@.activity,
                activity_at(all, session@, task@) == activity_at(
                    all.take(i as int),
                    session@,
                    task@,
                ),
            decreases i,
        {
            i -= 1;
            assert(all.take(i + 1).drop_last() =~= all.take(i as int));
            let row = &self.activity[i];
            if text_eq(row.session.as_str(), session) && text_eq(row.task_id.as_str(), task) {
                return Some(i);
            }
        }
        None
    }

    pub(crate) fn find_summary(&self, session: &str, task: &str) -> (res: Option<usize>)
        ensures
            match res {
                Some(i) => i < self.summaries.len() && summary_at(self@.summaries, session@, task@)
                    == Some(i as int),
                None => summary_at(self@.summaries, session@, task@) is None,
            },
    {
        let ghost all = self@.summaries;
        let mut i: usize = self.summaries.len();
        assert(all.take(i as int) =~= all);
        while i > 0
            invariant
                i <= self.summaries.len(),
                all == self@.summaries,
                summary_at(all, session@, task@) == summary_at(all.take(i as int), session@, task@),
            decreases i,
        {
            i -= 1;
            assert(all.take(i + 1).drop_last() =~= all.take(i as int));
            let row = &self.summaries[i];
            if text_eq(row.session.as_str(), session) && text_eq(row.task_id.as_str(), task) {
                return Some(i);
            }
        }
        None
    }

    pub(crate) fn find_watermark(&self, session: &str) -> (res: Option<usize>)
        ensures
            match res {
                Some(i) => i < self.watermarks.len() && watermark_at(self@.watermarks, session@)
                    == Some(i as int),
                None => watermark_at(self@.watermarks, session@) is None,
            },
    {
        let ghost all = self@.watermarks;
        let mut i: usize = self.watermarks.len();
        assert(all.take(i as int) =~= all);
        while i > 0
            invariant
                i <= self.watermarks.len(),
                all == self@.watermarks,
                watermark_at(all, session@) == watermark_at(all.take(i as int), session@),
            decreases i,
        {
            i -= 1;
            assert(all.take(i + 1).drop_last() =~= all.take(i as int));
            if text_eq(self.watermarks[i].session.as_str(), session) {
                return Some(i);
            }
        }
        None
    }

    fn summarize(&self, session: &str, task_id: &str, task: Task) -> (res: TaskSummary)
        ensures
            res.deep_view() == summary_of(
                self@,
                session@,
                (TaskModel { id: task_id@, ..task.deep_view() }),
            ),
    {
        let attempts = self.records::<Attempt>(session, task_id);
        let operations = self.records::<Operation>(session, task_id);
        let results = self.records::<ResultSubmission>(session, task_id);
        let reviews = self.records::<Review>(session, task_id);
        TaskSummary {
            task_id: task_id.to_string(),
            session_id: task.session_id,
            parent_task_id: task.parent_task_id,
            task_revision: task.revision,
            title: task.title,
            repo_path: task.repo_path,
            paused: task.paused,
            last_activity: match self.find_activity(session, task_id) {
                Some(i) => Some(self.activity[i].activity.replica()),
                None => None,
            },
            reserved_attempts: count_active(&attempts),
            unresolved_native_operations: count_unresolved(&operations, &attempts),
            unreviewed_results: count_unreviewed(&results, &reviews),
            latest_result: latest(&results, &reviews),
        }
    }

    /// Computes the summary of a task anew. Fails without effect.
    pub(crate) fn refresh(&mut self, session: &str, task_id: &str) -> (res: WorkResult<()>)
        ensures
            match refreshed(old(self)@, session@, task_id@) {
                Ok(next) => res is Ok && final(self)@ == next,
                Err(error) => res == Err::<(), WorkError>(error) && final(self)@ == old(self)@,
            },
    {
        let task = self.load::<Task>(session, task_id)?;
        let body = self.summarize(session, task_id, task);
        match self.find_summary(session, task_id) {
            Some(i) => {
                let row = SummaryRow {
                    session: self.summaries[i].session.clone(),
                    task_id: self.summaries[i].task_id.clone(),
                    body,
                };
                set_row(&mut self.summaries, i, row);
            },
            None => {
                let row = SummaryRow {
                    session: session.to_string(),
                    task_id: task_id.to_string(),
                    body,
                };
                add_row(&mut self.summaries, row);
            },
        }
        Ok(())
    }

    /// Projects a change onto the task list. On failure the caller discards the store.
    pub(crate) fn project(
        &mut self,
        session: &str,
        task_id: &str,
        activity: TaskActivity,
    ) -> (res: WorkResult<()>)
        ensures
            match projected(old(self)@, session@, task_id@, activity.deep_view()) {
                Ok(next) => res is Ok && final(self)@ == next,
                Err(error) => res == Err::<(), WorkError>(error),
            },
    {
        let cursor: u64 = activity.cursor;
        match self.find_watermark(session) {
            Some(i) => {
                let row = WatermarkRow { session: self.watermarks[i].session.clone(), cursor };
                set_row(&mut self.watermarks, i, row);
            },
            None => {
                add_row(&mut self.watermarks, WatermarkRow { session: session.to_string(), cursor });
            },
        }
        match self.find_activity(session, task_id) {
            Some(i) => {
                let row = ActivityRow {
                    session: self.activity[i].session.clone(),
                    task_id: self.activity[i].task_id.clone(),
                    activity,
                };
                set_row(&mut self.activity, i, row);
            },
            None => {
                let row = ActivityRow {
                    session: session.to_string(),
                    task_id: task_id.to_string(),
                    activity,
                };
                add_row(&mut self.activity, row);
            },
        }
        self.refresh(session, task_id)
    }
}

} // verus!
