//! The task list is up to date: every row shows its task as the records give it, and every change
//! in the stream has reached the list.
use vstd::prelude::*;
use crate::value::Text;
use crate::work::model::Attempt;
use crate::work::model::AttemptLifecycleModel;
use crate::work::model::AttemptModel;
use crate::work::model::CreateTaskModel;
use crate::work::model::DelegationConfigModel;
use crate::work::model::DelegationFenceModel;
use crate::work::model::DelegationStateModel;
use crate::work::model::FailureCode;
use crate::work::model::FrozenInputRefModel;
use crate::work::model::InputRefModel;
use crate::work::model::InputShare;
use crate::work::model::InputShareModel;
use crate::work::model::InputUploadModel;
use crate::work::model::InterruptInputModel;
use crate::work::model::InterruptionOutcomeModel;
use crate::work::model::LaunchPhase;
use crate::work::model::LifecycleObservation;
use crate::work::model::NativeBindingModel;
use crate::work::model::NativeStartRefusal;
use crate::work::model::NativeStartRefusalModel;
use crate::work::model::Operation;
use crate::work::model::OperationKind;
use crate::work::model::OperationModel;
use crate::work::model::OperationOutcomeModel;
use crate::work::model::OperationState;
use crate::work::model::PauseInputModel;
use crate::work::model::ReconcileInputModel;
use crate::work::model::ReconciliationEvidenceModel;
use crate::work::model::ReconciliationReceipt;
use crate::work::model::ReleaseEvidenceModel;
use crate::work::model::ReleaseReason;
use crate::work::model::ResultInputModel;
use crate::work::model::ResultSubmission;
use crate::work::model::ResultSubmissionModel;
use crate::work::model::Review;
use crate::work::model::ReviewInputModel;
use crate::work::model::ReviewModel;
use crate::work::model::Task;
use crate::work::model::TaskActivityModel;
use crate::work::model::TaskDependencyModel;
use crate::work::model::TaskModel;
use crate::work::model::TaskSummaryModel;
use crate::work::model::TaskSummaryPageModel;
use crate::work::model::WorkError;
use crate::work::model::no_delegation;
use crate::work::model::unbound;
use crate::work::store::attempts::StartModel;
use crate::work::store::attempts::both_saved;
use crate::work::store::attempts::dispatch_outcome;
use crate::work::store::attempts::fresh_attempt;
use crate::work::store::attempts::in_phase;
use crate::work::store::attempts::launch_outcome;
use crate::work::store::attempts::launch_ready;
use crate::work::store::attempts::start_admitted;
use crate::work::store::attempts::start_outcome;
use crate::work::store::attempts::start_refusal_outcome;
use crate::work::store::attempts::start_request;
use crate::work::store::authority::DelegatedCreateModel;
use crate::work::store::authority::OperationTargetModel;
use crate::work::store::changes::KEPT_CHANGES;
use crate::work::store::changes::changed;
use crate::work::store::changes::list_is_current;
use crate::work::store::changes::max_cursor;
use crate::work::store::changes::operation_saved;
use crate::work::store::changes::summaries_alike;
use crate::work::store::changes::summary_in_range;
use crate::work::store::delegation::configure_outcome;
use crate::work::store::delegation::configure_request;
use crate::work::store::delegation::dependencies_outcome;
use crate::work::store::delegation::dependencies_request;
use crate::work::store::delegation::dependency_origin_noted;
use crate::work::store::deliveries::DeliveryModel;
use crate::work::store::deliveries::PromiseModel;
use crate::work::store::deliveries::delivery_admitted;
use crate::work::store::deliveries::delivery_inputs;
use crate::work::store::deliveries::delivery_operation;
use crate::work::store::deliveries::delivery_outcome;
use crate::work::store::deliveries::delivery_request;
use crate::work::store::deliveries::delivery_requested;
use crate::work::store::facts::about;
use crate::work::store::facts::awaiting;
use crate::work::store::facts::fact_recorded;
use crate::work::store::facts::fact_reserved;
use crate::work::store::growth::fresh_ids;
use crate::work::store::growth::listed_is_recorded;
use crate::work::store::growth::rebuilding_keeps;
use crate::work::store::growth::recovering_grows;
use crate::work::store::growth::sharing_grows;
use crate::work::store::growth::start_is_listed;
use crate::work::store::history::above_selects;
use crate::work::store::history::ascending;
use crate::work::store::history::awaiting_reserve;
use crate::work::store::history::changing_grows;
use crate::work::store::history::changing_is_local;
use crate::work::store::history::filed_as_said;
use crate::work::store::history::found_where_filed;
use crate::work::store::history::loaded_attempt_is_filed;
use crate::work::store::history::paired;
use crate::work::store::history::putting_grows;
use crate::work::store::history::putting_is_local;
use crate::work::store::history::record_follows;
use crate::work::store::history::reserving_is_local;
use crate::work::store::history::same_ids_same_places;
use crate::work::store::history::tidy;
use crate::work::store::history::unused;
use crate::work::store::history::well_formed;
use crate::work::store::inputs::MAX_REFS;
use crate::work::store::inputs::claimed;
use crate::work::store::inputs::parent_shares;
use crate::work::store::inputs::reference_to;
use crate::work::store::inputs::resolved;
use crate::work::store::inputs::share_for;
use crate::work::store::inputs::shared;
use crate::work::store::inputs::shares_filed;
use crate::work::store::interruptions::interrupt_admitted;
use crate::work::store::interruptions::interrupt_ended;
use crate::work::store::interruptions::interrupt_finalized;
use crate::work::store::interruptions::interrupt_outcome;
use crate::work::store::interruptions::interrupt_request;
use crate::work::store::listing::complete;
use crate::work::store::listing::is_current;
use crate::work::store::listing::marks_stay;
use crate::work::store::listing::pages_depend_on_their_session;
use crate::work::store::listing::rebuilt_list_is_whole;
use crate::work::store::listing::same_list;
use crate::work::store::listing::whole_list;
use crate::work::store::operations::attempt_ended;
use crate::work::store::operations::attempt_informed;
use crate::work::store::operations::begin_outcome;
use crate::work::store::operations::begin_reserved;
use crate::work::store::operations::checkpoint_outcome;
use crate::work::store::operations::finalize_outcome;
use crate::work::store::operations::refusal_noted;
use crate::work::store::operations::refusal_released;
use crate::work::store::operations::refuse_outcome;
use crate::work::store::operations::released_undispatched;
use crate::work::store::pagination::tasks_listed;
use crate::work::store::reconciliation::attempt_found;
use crate::work::store::reconciliation::attempt_settled;
use crate::work::store::reconciliation::finding_outcome;
use crate::work::store::reconciliation::finding_settled;
use crate::work::store::reconciliation::observed;
use crate::work::store::reconciliation::reconcile_outcome;
use crate::work::store::reconciliation::reconcile_request;
use crate::work::store::reconciliation::reconcile_subject;
use crate::work::store::reconciliation::start_fenced;
use crate::work::store::records::listed;
use crate::work::store::records::loaded;
use crate::work::store::records::position;
use crate::work::store::records::position_in_range;
use crate::work::store::records::put;
use crate::work::store::records::refused;
use crate::work::store::recovery::all_recovered;
use crate::work::store::recovery::lost;
use crate::work::store::recovery::opened;
use crate::work::store::requests::MAX_RECEIPTS;
use crate::work::store::requests::RequestModel;
use crate::work::store::requests::receipt_at;
use crate::work::store::requests::replayed;
use crate::work::store::results::result_request;
use crate::work::store::results::review_outcome;
use crate::work::store::results::review_request;
use crate::work::store::results::submit_outcome;
use crate::work::store::rules::fresh_operation;
use crate::work::store::rules::merged;
use crate::work::store::summaries::active_rows;
use crate::work::store::summaries::activity_at;
use crate::work::store::summaries::marked;
use crate::work::store::summaries::summarized;
use crate::work::store::summaries::summary_at;
use crate::work::store::summaries::summary_of;
use crate::work::store::summaries::watermark_at;
use crate::work::store::tables::ActivityRowModel;
use crate::work::store::tables::BodyModel;
use crate::work::store::tables::ChangeRowModel;
use crate::work::store::tables::DelegatedOriginModel;
use crate::work::store::tables::DependencyOriginModel;
use crate::work::store::tables::FactKind;
use crate::work::store::tables::InterruptionFactModel;
use crate::work::store::tables::ReconciliationIntentModel;
use crate::work::store::tables::RecordModel;
use crate::work::store::tables::ReservedFactModel;
use crate::work::store::tables::StoreModel;
use crate::work::store::tables::Stored;
use crate::work::store::tables::SummaryRowModel;
use crate::work::store::task_list::activity_of;
use crate::work::store::task_list::caught_up;
use crate::work::store::task_list::labelled;
use crate::work::store::task_list::rebuilt;
use crate::work::store::task_list::row_is_found;
use crate::work::store::task_list::summaries_rebuilt;
use crate::work::store::task_list::summary_page;
use crate::work::store::task_list::watermark_of;
use crate::work::store::tasks::MAX_TASKS;
use crate::work::store::tasks::child_opened;
use crate::work::store::tasks::create_outcome;
use crate::work::store::tasks::create_request;
use crate::work::store::tasks::creation_admitted;
use crate::work::store::tasks::fresh_task;
use crate::work::store::tasks::inherited_policy;
use crate::work::store::tasks::pause_outcome;
use crate::work::store::tasks::pause_request;
use crate::work::store::tasks::task_count;
use crate::work::store::tasks::task_opened;
use crate::work::store::uploads::upload_outcome;

verus! {

/// What the list shows of a task.
pub open spec fn row_of(s: StoreModel, session: Text, task: Text) -> Option<TaskSummaryModel> {
    match summary_at(s.summaries, session, task) {
        Some(i) => Some(s.summaries[i].body),
        None => None,
    }
}

/// What the list knows of the last activity of a task.
pub open spec fn activity_seen(s: StoreModel, session: Text, task: Text) -> Option<
    TaskActivityModel,
> {
    match activity_at(s.activity, session, task) {
        Some(i) => Some(s.activity[i].activity),
        None => None,
    }
}

/// Whether two stores say the same of a task: its record, what is filed under it, its activity and
/// its row.
pub open spec fn alike(a: StoreModel, b: StoreModel, session: Text, task: Text) -> bool {
    &&& loaded::<Task>(a, session, task) == loaded::<Task>(b, session, task)
    &&& same_filed(a.records, b.records, session, task)
    &&& activity_seen(a, session, task) == activity_seen(b, session, task)
    &&& row_of(a, session, task) == row_of(b, session, task)
}

/// Whether what a summary counts is the same under a task.
pub open spec fn same_filed(
    a: Seq<RecordModel>,
    b: Seq<RecordModel>,
    session: Text,
    task: Text,
) -> bool {
    &&& listed::<Attempt>(a, session, task) == listed::<Attempt>(b, session, task)
    &&& listed::<Operation>(a, session, task) == listed::<Operation>(b, session, task)
    &&& listed::<ResultSubmission>(a, session, task) == listed::<ResultSubmission>(
        b,
        session,
        task,
    )
    &&& listed::<Review>(a, session, task) == listed::<Review>(b, session, task)
}

/// Whether the row of a task, where it has one, shows it as the records give it.
pub open spec fn shown_right(s: StoreModel, session: Text, task: Text) -> bool {
    row_of(s, session, task) matches Some(row) ==> (loaded::<Task>(s, session, task) matches Ok(
        found,
    ) && found.id == task && row == summary_of(s, session, found))
}

/// Whether a change has reached the list.
pub open spec fn heard(s: StoreModel, change: ChangeRowModel) -> bool {
    &&& watermark_at(s.watermarks, change.session) matches Some(i) && s.watermarks[i].cursor
        >= change.cursor
    &&& activity_at(s.activity, change.session, change.task_id) matches Some(i)
        && s.activity[i].activity.cursor >= change.cursor
}

/// Whether every change in the stream has reached the list.
pub open spec fn told(s: StoreModel) -> bool {
    forall|i: int| 0 <= i < s.changes.len() ==> heard(s, #[trigger] s.changes[i])
}

/// Whether the task list can be read and is up to date.
pub open spec fn up_to_date(s: StoreModel) -> bool {
    &&& s.summaries_ready
    &&& told(s)
    &&& forall|session: Text, task: Text| #[trigger] shown_right(s, session, task)
}

/// Whether a task, where it is recorded, stands in its session and under itself.
pub open spec fn stands(s: StoreModel, session: Text, task: Text) -> bool {
    position(s.records, task) matches Some(i) ==> 0 <= i < s.records.len() && s.records[i].session
        == session && s.records[i].task_id == task
}

/// Whether two stores differ in what is filed under one task only, and not in the task itself.
pub open spec fn filed_under(a: StoreModel, b: StoreModel, session: Text, task: Text) -> bool {
    &&& forall|x: Text, y: Text| !(x == session && y == task) ==> #[trigger] alike(a, b, x, y)
    &&& loaded::<Task>(a, session, task) == loaded::<Task>(b, session, task)
    &&& stands(a, session, task) ==> stands(b, session, task)
    &&& row_of(a, session, task) == row_of(b, session, task)
    &&& a.changes == b.changes
    &&& a.last_cursor == b.last_cursor
    &&& a.summaries_ready == b.summaries_ready
    &&& told(a) ==> told(b)
}

/// A row that shows its task shows it where two stores say the same of it.
proof fn alike_shows_right(a: StoreModel, b: StoreModel, session: Text, task: Text)
    requires
        alike(a, b, session, task),
        shown_right(a, session, task),
    ensures
        shown_right(b, session, task),
{
}

/// What was filed under a task in two steps was filed under it.
proof fn filing_is_transitive(
    a: StoreModel,
    b: StoreModel,
    c: StoreModel,
    session: Text,
    task: Text,
)
    requires
        filed_under(a, b, session, task),
        filed_under(b, c, session, task),
    ensures
        filed_under(a, c, session, task),
{
    assert forall|x: Text, y: Text| !(x == session && y == task) implies #[trigger] alike(
        a,
        c,
        x,
        y,
    ) by {
        assert(alike(a, b, x, y) && alike(b, c, x, y));
    }
}

/// A store whose records, list and stream are those of another says the same.
proof fn same_tables_stay(a: StoreModel, b: StoreModel)
    requires
        b.records == a.records,
        b.summaries == a.summaries,
        b.activity == a.activity,
        b.watermarks == a.watermarks,
        b.changes == a.changes,
        b.summaries_ready == a.summaries_ready,
    ensures
        up_to_date(a) ==> up_to_date(b),
        b.last_cursor == a.last_cursor ==> forall|session: Text, task: Text| #[trigger]
            filed_under(a, b, session, task),
{
    assert forall|x: Text, y: Text| #[trigger] alike(a, b, x, y) by {}
    if told(a) {
        assert forall|i: int| 0 <= i < b.changes.len() implies heard(
            b,
            #[trigger] b.changes[i],
        ) by {
            assert(heard(a, a.changes[i]));
        }
    }
    if up_to_date(a) {
        assert forall|x: Text, y: Text| #[trigger] shown_right(b, x, y) by {
            assert(shown_right(a, x, y));
            alike_shows_right(a, b, x, y);
        }
    }
}

/// Whether a body is none that a summary counts.
pub open spec fn uncounted(body: BodyModel) -> bool {
    !(body is Attempt) && !(body is Operation) && !(body is Result) && !(body is Review)
}

/// Whether a record is none that the summary of a task counts.
pub open spec fn elsewhere(record: RecordModel, session: Text, task: Text) -> bool {
    record.session != session || record.task_id != task || uncounted(record.body)
}

/// What is listed under a task does not depend on records elsewhere.
proof fn listing_skips_others<T: Stored>(
    a: Seq<RecordModel>,
    b: Seq<RecordModel>,
    session: Text,
    task: Text,
)
    requires
        a.len() == b.len(),
        forall|r: RecordModel| #[trigger] elsewhere(r, session, task) ==> r.session != session
            || r.task_id != task || T::of(r.body) is None,
        forall|i: int|
            0 <= i < a.len() ==> #[trigger] a[i] == b[i] || elsewhere(a[i], session, task)
                && elsewhere(b[i], session, task),
    ensures
        listed::<T>(a, session, task) == listed::<T>(b, session, task),
    decreases a.len(),
{
    if a.len() > 0 {
        let (x, y) = (a.drop_last(), b.drop_last());
        assert forall|i: int| 0 <= i < x.len() implies #[trigger] x[i] == y[i] || elsewhere(
            x[i],
            session,
            task,
        ) && elsewhere(y[i], session, task) by {
            assert(x[i] == a[i] && y[i] == b[i]);
        }
        listing_skips_others::<T>(x, y, session, task);
        assert(a[a.len() - 1] == b[a.len() - 1] || elsewhere(a.last(), session, task)
            && elsewhere(b.last(), session, task));
    }
}

/// What a summary counts does not depend on records elsewhere.
proof fn counting_skips_others(
    a: Seq<RecordModel>,
    b: Seq<RecordModel>,
    session: Text,
    task: Text,
)
    requires
        a.len() == b.len(),
        forall|i: int|
            0 <= i < a.len() ==> #[trigger] a[i] == b[i] || elsewhere(a[i], session, task)
                && elsewhere(b[i], session, task),
    ensures
        same_filed(a, b, session, task),
{
    listing_skips_others::<Attempt>(a, b, session, task);
    listing_skips_others::<Operation>(a, b, session, task);
    listing_skips_others::<ResultSubmission>(a, b, session, task);
    listing_skips_others::<Review>(a, b, session, task);
}

/// What a summary counts does not change where a record elsewhere is added.
proof fn adding_elsewhere(records: Seq<RecordModel>, record: RecordModel, session: Text, task: Text)
    requires
        elsewhere(record, session, task),
    ensures
        same_filed(records, records.push(record), session, task),
{
    assert(records.push(record).drop_last() =~= records);
}

/// What a summary counts under a task changes only by what is filed under it.
proof fn putting_counts(
    s: StoreModel,
    session: Text,
    id: Text,
    task: Text,
    body: BodyModel,
    x: Text,
    y: Text,
)
    requires
        put(s, session, id, task, body) is Ok,
        position(s.records, id) matches Some(i) ==> elsewhere(s.records[i], x, y) && (
        s.records[i].session != x || s.records[i].task_id != y || uncounted(body)),
        position(s.records, id) is None ==> session != x || task != y || uncounted(body),
    ensures
        same_filed(s.records, put(s, session, id, task, body)->Ok_0.records, x, y),
{
    position_in_range(s.records, id);
    let later = put(s, session, id, task, body)->Ok_0;
    match position(s.records, id) {
        Some(i) => {
            counting_skips_others(s.records, later.records, x, y);
        },
        None => {
            adding_elsewhere(
                s.records,
                RecordModel { id, session, task_id: task, body, wire: None },
                x,
                y,
            );
        },
    }
}

/// Filing a body that is no task under a task is filing under that task.
proof fn putting_files(s: StoreModel, session: Text, id: Text, task: Text, body: BodyModel)
    requires
        id != task,
        !(body is Task),
        position(s.records, id) matches Some(i) ==> s.records[i].session == session
            && s.records[i].task_id == task && !(s.records[i].body is Task),
    ensures
        put(s, session, id, task, body) matches Ok(later) ==> filed_under(s, later, session, task),
{
    if put(s, session, id, task, body) is Ok {
        let later = put(s, session, id, task, body)->Ok_0;
        position_in_range(s.records, id);
        assert forall|x: Text, y: Text| !(x == session && y == task) implies #[trigger] alike(
            s,
            later,
            x,
            y,
        ) by {
            putting_counts(s, session, id, task, body, x, y);
            putting_is_local(s, session, id, task, body, y);
            position_in_range(s.records, y);
        }
        putting_is_local(s, session, id, task, body, task);
        if told(s) {
            assert forall|i: int| 0 <= i < later.changes.len() implies heard(
                later,
                #[trigger] later.changes[i],
            ) by {
                assert(heard(s, s.changes[i]));
            }
        }
    }
}

/// Filing what no summary counts, in place of what none counts or anew, changes nothing that the
/// list shows.
proof fn uncounted_stays(s: StoreModel, session: Text, id: Text, task: Text, body: BodyModel)
    requires
        uncounted(body) && !(body is Task),
        position(s.records, id) matches Some(i) ==> uncounted(s.records[i].body) && !(
        s.records[i].body is Task),
    ensures
        put(s, session, id, task, body) matches Ok(later) ==> {
            &&& up_to_date(s) ==> up_to_date(later)
            &&& forall|x: Text, y: Text| y != id ==> #[trigger] filed_under(s, later, x, y)
            &&& forall|x: Text, y: Text| #[trigger]
                loaded::<Task>(later, x, y) == loaded::<Task>(s, x, y)
        },
{
    if put(s, session, id, task, body) is Ok {
        let later = put(s, session, id, task, body)->Ok_0;
        position_in_range(s.records, id);
        assert forall|x: Text, y: Text| #[trigger] alike(s, later, x, y) by {
            putting_counts(s, session, id, task, body, x, y);
            putting_is_local(s, session, id, task, body, y);
            position_in_range(s.records, y);
        }
        if told(s) {
            assert forall|i: int| 0 <= i < later.changes.len() implies heard(
                later,
                #[trigger] later.changes[i],
            ) by {
                assert(heard(s, s.changes[i]));
            }
        }
        if up_to_date(s) {
            assert forall|x: Text, y: Text| #[trigger] shown_right(later, x, y) by {
                assert(shown_right(s, x, y));
                assert(alike(s, later, x, y));
                alike_shows_right(s, later, x, y);
            }
        }
        assert forall|x: Text, y: Text| y != id implies #[trigger] filed_under(s, later, x, y) by {
            putting_is_local(s, session, id, task, body, y);
            assert(alike(s, later, x, y));
        }
        assert forall|x: Text, y: Text| #[trigger] loaded::<Task>(later, x, y) == loaded::<Task>(
            s,
            x,
            y,
        ) by {
            assert(alike(s, later, x, y));
        }
    }
}

/// Activity that is found is in its place, and of its task.
proof fn activity_in_range(rows: Seq<ActivityRowModel>, session: Text, task: Text)
    ensures
        activity_at(rows, session, task) matches Some(i) ==> 0 <= i < rows.len() && rows[i].session
            == session && rows[i].task_id == task,
    decreases rows.len(),
{
    if rows.len() > 0 {
        activity_in_range(rows.drop_last(), session, task);
    }
}

/// Rows that are labelled alike are found in the same places.
proof fn activities_alike(
    a: Seq<ActivityRowModel>,
    b: Seq<ActivityRowModel>,
    session: Text,
    task: Text,
)
    requires
        a.len() == b.len(),
        forall|i: int|
            0 <= i < a.len() ==> (#[trigger] a[i]).session == b[i].session && a[i].task_id
                == b[i].task_id,
    ensures
        activity_at(a, session, task) == activity_at(b, session, task),
    decreases a.len(),
{
    if a.len() > 0 {
        let (x, y) = (a.drop_last(), b.drop_last());
        assert forall|i: int| 0 <= i < x.len() implies (#[trigger] x[i]).session == y[i].session
            && x[i].task_id == y[i].task_id by {
            assert(x[i] == a[i] && y[i] == b[i]);
        }
        activities_alike(x, y, session, task);
        assert(a[a.len() - 1].session == b[a.len() - 1].session);
    }
}

/// What is known of the activity of tasks after that of one was written.
proof fn activities_stay(
    rows: Seq<ActivityRowModel>,
    session: Text,
    task: Text,
    activity: TaskActivityModel,
    x: Text,
    y: Text,
)
    ensures
        ({
            let later = active_rows(rows, session, task, activity);
            &&& !(x == session && y == task) ==> activity_at(later, x, y) == activity_at(rows, x, y)
                && (activity_at(rows, x, y) matches Some(i) ==> later[i] == rows[i])
            &&& x == session && y == task ==> (activity_at(later, x, y) matches Some(i)
                && later[i].activity == activity)
        }),
{
    activity_in_range(rows, session, task);
    activity_in_range(rows, x, y);
    let later = active_rows(rows, session, task, activity);
    match activity_at(rows, session, task) {
        Some(i) => {
            activities_alike(rows, later, x, y);
        },
        None => {
            assert(later.drop_last() =~= rows);
        },
    }
}

/// What the list shows of other tasks after a row was written.
proof fn other_rows_stay(
    rows: Seq<SummaryRowModel>,
    session: Text,
    task: Text,
    body: TaskSummaryModel,
    x: Text,
    y: Text,
)
    requires
        !(x == session && y == task),
    ensures
        ({
            let later = summarized(rows, session, task, body);
            summary_at(later, x, y) == summary_at(rows, x, y) && (summary_at(rows, x, y) matches Some(
                i,
            ) ==> later[i] == rows[i])
        }),
{
    summary_in_range(rows, session, task);
    summary_in_range(rows, x, y);
    let later = summarized(rows, session, task, body);
    match summary_at(rows, session, task) {
        Some(i) => {
            summaries_alike(rows, later, x, y);
        },
        None => {
            assert(later.drop_last() =~= rows);
        },
    }
}

/// A change of a task brings the list up to date with what was filed under that task before.
proof fn changing_brings_up_to_date(
    s: StoreModel,
    filed: StoreModel,
    task: TaskModel,
    kind: Text,
    entity: Text,
    now: i64,
)
    requires
        up_to_date(s),
        ascending(s.changes, s.last_cursor),
        filed_under(s, filed, task.session_id, task.id),
        stands(filed, task.session_id, task.id),
        loaded::<Task>(filed, task.session_id, task.id) is Ok || position(filed.records, task.id)
            is None,
    ensures
        changed(filed, task, kind, entity, now) matches Ok((later, _)) ==> up_to_date(later),
{
    if changed(filed, task, kind, entity, now) is Ok {
        let (later, next) = changed(filed, task, kind, entity, now)->Ok_0;
        let (session, id) = (next.session_id, next.id);
        let body = BodyModel::Task(next);
        let put_in = put(filed, session, id, id, body)->Ok_0;
        list_is_current(filed, task, kind, entity, now);
        putting_is_local(filed, session, id, id, body, id);
        assert(later.records == put_in.records);
        assert(loaded::<Task>(later, session, id) == Ok::<TaskModel, WorkError>(next));
        let cursor = later.last_cursor;
        let activity = TaskActivityModel { cursor, kind, entity_id: entity };
        let row = summary_of(later, session, next);
        assert(later.activity == active_rows(filed.activity, session, id, activity));
        assert(later.watermarks == marked(filed.watermarks, session, cursor));
        assert(later.summaries == summarized(filed.summaries, session, id, row));
        assert forall|x: Text, y: Text| #[trigger] shown_right(later, x, y) by {
            if !(x == session && y == id) {
                assert(alike(s, filed, x, y));
                assert(shown_right(s, x, y));
                alike_shows_right(s, filed, x, y);
                position_in_range(filed.records, id);
                position_in_range(filed.records, y);
                putting_counts(filed, session, id, id, body, x, y);
                putting_is_local(filed, session, id, id, body, y);
                activities_stay(filed.activity, session, id, activity, x, y);
                other_rows_stay(filed.summaries, session, id, row, x, y);
                assert(alike(filed, later, x, y));
                alike_shows_right(filed, later, x, y);
            }
        }
        let change = ChangeRowModel {
            cursor,
            session,
            task_id: id,
            revision: next.revision,
            kind,
            entity_id: entity,
        };
        let changes = filed.changes.push(change);
        assert(ascending(changes, cursor));
        above_selects(changes, max_cursor(changes) - KEPT_CHANGES, cursor);
        assert forall|k: int| 0 <= k < later.changes.len() implies heard(
            later,
            #[trigger] later.changes[k],
        ) by {
            let r = later.changes[k];
            assert(later.changes.contains(r));
            assert(changes.contains(r));
            let j = choose|j: int| 0 <= j < changes.len() && changes[j] == r;
            marks_stay(filed.watermarks, session, cursor, r.session);
            activities_stay(filed.activity, session, id, activity, r.session, r.task_id);
            if j < filed.changes.len() {
                assert(filed.changes[j] == r);
                assert(heard(filed, filed.changes[j]));
            }
        }
    }
}

/// A task that is recorded stands where it says.
pub proof fn tasks_stand(s: StoreModel, session: Text, id: Text)
    requires
        tidy(s.records),
    ensures
        loaded::<Task>(s, session, id) matches Ok(task) ==> task.id == id && task.session_id
            == session && stands(s, session, id) && position(s.records, id) is Some,
        position(s.records, id) is None ==> stands(s, session, id),
{
    position_in_range(s.records, id);
    if loaded::<Task>(s, session, id) is Ok {
        assert(filed_as_said(s.records[position(s.records, id)->0]));
    }
}

/// Whether a task is recorded where it says.
spec fn task_stands(s: StoreModel, session: Text, id: Text) -> bool {
    &&& stands(s, session, id)
    &&& loaded::<Task>(s, session, id) matches Ok(task) ==> task.id == id && task.session_id
        == session
}

/// Whether a record of one kind stands under a task.
spec fn body_stands<T: Stored>(s: StoreModel, session: Text, task: Text, id: Text) -> bool {
    position(s.records, id) matches Some(i) && 0 <= i < s.records.len() && s.records[i].session
        == session && s.records[i].task_id == task && T::of(s.records[i].body) is Some
}

/// An operation stands under its task, and so does its attempt.
proof fn operations_stand(s: StoreModel, session: Text, id: Text)
    requires
        tidy(s.records),
    ensures
        loaded::<Operation>(s, session, id) matches Ok(op) ==> {
            &&& op.id == id
            &&& body_stands::<Operation>(s, session, op.task_id, id)
            &&& loaded::<Task>(s, session, op.task_id) is Ok ==> task_stands(s, session, op.task_id)
            &&& op.attempt_id matches Some(attempt_id) ==> body_stands::<Attempt>(
                s,
                session,
                op.task_id,
                attempt_id,
            )
        },
{
    position_in_range(s.records, id);
    if loaded::<Operation>(s, session, id) is Ok {
        let op = loaded::<Operation>(s, session, id)->Ok_0;
        let i = position(s.records, id)->0;
        assert(filed_as_said(s.records[i]));
        assert(paired(s.records, i));
        tasks_stand(s, session, op.task_id);
        position_in_range(s.records, op.task_id);
        if let Some(attempt_id) = op.attempt_id {
            let j = choose|j: int|
                0 <= j < s.records.len() && (#[trigger] s.records[j]).id == attempt_id
                    && s.records[j].session == session && s.records[j].task_id == op.task_id
                    && s.records[j].body is Attempt;
            found_where_filed(s.records, j);
        }
    }
}

/// An operation is filed only where its task is recorded.
proof fn operating_needs_its_task(s: StoreModel, session: Text, op: OperationModel, now: i64)
    requires
        body_stands::<Operation>(s, session, op.task_id, op.id),
    ensures
        operation_saved(s, session, op, now) is Ok ==> loaded::<Task>(s, session, op.task_id) is Ok,
{
    let body = BodyModel::Operation(op);
    putting_is_local(s, session, op.id, op.task_id, body, op.task_id);
}

/// An attempt is filed with its operation only where their task is recorded.
proof fn both_saving_needs_their_task(
    s: StoreModel,
    session: Text,
    attempt_id: Text,
    attempt: AttemptModel,
    op: OperationModel,
    now: i64,
)
    requires
        body_stands::<Operation>(s, session, op.task_id, op.id),
        body_stands::<Attempt>(s, session, op.task_id, attempt_id),
    ensures
        both_saved(s, session, attempt_id, attempt, op, now) is Ok ==> loaded::<Task>(
            s,
            session,
            op.task_id,
        ) is Ok,
{
    if both_saved(s, session, attempt_id, attempt, op, now) is Ok {
        let body = BodyModel::Attempt(attempt);
        putting_is_local(s, session, attempt_id, op.task_id, body, op.id);
        putting_is_local(s, session, attempt_id, op.task_id, body, op.task_id);
        let held = put(s, session, attempt_id, op.task_id, body)->Ok_0;
        operating_needs_its_task(held, session, op, now);
    }
}

/// Filing an operation and changing its task leaves the list up to date.
proof fn operating_keeps_up(
    s: StoreModel,
    at: StoreModel,
    session: Text,
    op: OperationModel,
    now: i64,
)
    requires
        up_to_date(s),
        ascending(s.changes, s.last_cursor),
        filed_under(s, at, session, op.task_id),
        loaded::<Task>(at, session, op.task_id) is Ok ==> task_stands(at, session, op.task_id),
        body_stands::<Operation>(at, session, op.task_id, op.id),
    ensures
        operation_saved(at, session, op, now) matches Ok(later) ==> up_to_date(later),
{
    if operation_saved(at, session, op, now) is Ok {
        let body = BodyModel::Operation(op);
        putting_is_local(at, session, op.id, op.task_id, body, op.task_id);
        let filed = put(at, session, op.id, op.task_id, body)->Ok_0;
        putting_files(at, session, op.id, op.task_id, body);
        filing_is_transitive(s, at, filed, session, op.task_id);
        let task = loaded::<Task>(filed, session, op.task_id)->Ok_0;
        changing_brings_up_to_date(s, filed, task, "operation_changed"@, op.id, now);
    }
}

/// Filing an attempt and its operation and changing their task leaves the list up to date.
proof fn both_saving_keeps_up(
    s: StoreModel,
    at: StoreModel,
    session: Text,
    attempt_id: Text,
    attempt: AttemptModel,
    op: OperationModel,
    now: i64,
)
    requires
        up_to_date(s),
        ascending(s.changes, s.last_cursor),
        filed_under(s, at, session, op.task_id),
        loaded::<Task>(at, session, op.task_id) is Ok ==> task_stands(at, session, op.task_id),
        body_stands::<Operation>(at, session, op.task_id, op.id),
        body_stands::<Attempt>(at, session, op.task_id, attempt_id),
    ensures
        both_saved(at, session, attempt_id, attempt, op, now) matches Ok((later, _)) ==> up_to_date(
            later,
        ),
{
    if both_saved(at, session, attempt_id, attempt, op, now) is Ok {
        let body = BodyModel::Attempt(attempt);
        putting_is_local(at, session, attempt_id, op.task_id, body, op.id);
        putting_is_local(at, session, attempt_id, op.task_id, body, op.task_id);
        let held = put(at, session, attempt_id, op.task_id, body)->Ok_0;
        if attempt_id == op.task_id {
            putting_is_local(
                held,
                session,
                op.id,
                op.task_id,
                BodyModel::Operation(op),
                op.task_id,
            );
        } else {
            putting_files(at, session, attempt_id, op.task_id, body);
            filing_is_transitive(s, at, held, session, op.task_id);
            operating_keeps_up(s, held, session, op, now);
        }
    }
}

/// Pausing a task leaves the list up to date.
pub proof fn pausing_keeps_up(
    s: StoreModel,
    id: Text,
    actor: Text,
    session: Text,
    task_id: Text,
    key: Text,
    expected_revision: u64,
    input: PauseInputModel,
    now: i64,
)
    requires
        well_formed(s),
        unused(s, id),
        up_to_date(s),
    ensures
        pause_outcome(
            s,
            id,
            actor,
            session,
            task_id,
            key,
            expected_revision,
            input,
            now,
        ) matches Ok(
            (later, _),
        ) ==> up_to_date(later),
{
    let outcome = pause_outcome(s, id, actor, session, task_id, key, expected_revision, input, now);
    let request = pause_request(actor, session, task_id, key, expected_revision, input);
    if outcome is Ok && replayed::<Task>(s, request) == Ok::<Option<TaskModel>, WorkError>(None) {
        let task = loaded::<Task>(s, session, task_id)->Ok_0;
        let op = OperationModel {
            state: OperationState::Acknowledged,
            ..fresh_operation(id, task_id, None, OperationKind::PauseTask, now)
        };
        let body = BodyModel::Operation(op);
        tasks_stand(s, session, task_id);
        putting_files(s, session, id, task_id, body);
        let filed = put(s, session, id, task_id, body)->Ok_0;
        let paused = TaskModel { paused: input.paused, ..task };
        changing_brings_up_to_date(s, filed, paused, "delegation_policy_changed"@, id, now);
        let next = changed(filed, paused, "delegation_policy_changed"@, id, now)->Ok_0.0;
        same_tables_stay(next, outcome->Ok_0.0);
    }
}

/// Configuring delegation leaves the list up to date.
pub proof fn configuring_keeps_up(
    s: StoreModel,
    actor: Text,
    session: Text,
    task_id: Text,
    key: Text,
    expected_revision: u64,
    input: DelegationConfigModel,
    now: i64,
)
    requires
        well_formed(s),
        up_to_date(s),
    ensures
        configure_outcome(
            s,
            actor,
            session,
            task_id,
            key,
            expected_revision,
            input,
            now,
        ) matches Ok(
            (later, _),
        ) ==> up_to_date(later),
{
    let outcome = configure_outcome(
        s,
        actor,
        session,
        task_id,
        key,
        expected_revision,
        input,
        now,
    );
    let request = configure_request(actor, session, task_id, key, expected_revision, input);
    if outcome is Ok && replayed::<Task>(s, request) == Ok::<Option<TaskModel>, WorkError>(None) {
        let task = loaded::<Task>(s, session, task_id)->Ok_0;
        tasks_stand(s, session, task_id);
        let set = TaskModel {
            delegation: DelegationStateModel {
                policy: input.policy,
                coordinator_attempt_id: input.coordinator_attempt_id,
                coordinator_epoch: (task.delegation.coordinator_epoch + 1) as u64,
            },
            ..task
        };
        same_tables_stay(s, s);
        assert(filed_under(s, s, session, task_id));
        changing_brings_up_to_date(s, s, set, "delegation_configured"@, task_id, now);
        let next = changed(s, set, "delegation_configured"@, task_id, now)->Ok_0.0;
        same_tables_stay(next, outcome->Ok_0.0);
    }
}

/// Setting dependencies leaves the list up to date.
pub proof fn depending_keeps_up(
    s: StoreModel,
    id: Text,
    actor: Text,
    session: Text,
    task_id: Text,
    key: Text,
    expected_revision: u64,
    dependencies: Seq<TaskDependencyModel>,
    fence: Option<DelegationFenceModel>,
    now: i64,
)
    requires
        well_formed(s),
        unused(s, id),
        up_to_date(s),
    ensures
        dependencies_outcome(
            s,
            id,
            actor,
            session,
            task_id,
            key,
            expected_revision,
            dependencies,
            fence,
            now,
        ) matches Ok((later, _)) ==> up_to_date(later),
{
    let outcome = dependencies_outcome(
        s,
        id,
        actor,
        session,
        task_id,
        key,
        expected_revision,
        dependencies,
        fence,
        now,
    );
    let request = dependencies_request(
        actor,
        session,
        task_id,
        key,
        expected_revision,
        dependencies,
        fence,
    );
    if outcome is Ok && replayed::<Task>(s, request) == Ok::<Option<TaskModel>, WorkError>(None) {
        let task = loaded::<Task>(s, session, task_id)->Ok_0;
        tasks_stand(s, session, task_id);
        same_tables_stay(s, s);
        assert(filed_under(s, s, session, task_id));
        let noted = dependency_origin_noted(s, id, actor, session, task_id, key, fence)->Ok_0;
        if fence is Some {
            let body = BodyModel::DependencyOrigin(
                DependencyOriginModel { actor_id: actor, request_key: key, fence: fence->0 },
            );
            uncounted_stays(s, session, id, task_id, body);
            assert(filed_under(s, noted, session, task_id));
        }
        let set = TaskModel { dependencies, ..task };
        changing_brings_up_to_date(s, noted, set, "dependencies_updated"@, task_id, now);
        let next = changed(noted, set, "dependencies_updated"@, task_id, now)->Ok_0.0;
        same_tables_stay(next, outcome->Ok_0.0);
    }
}

/// Submitting a result leaves the list up to date.
pub proof fn submitting_keeps_up(
    s: StoreModel,
    id: Text,
    actor: Text,
    session: Text,
    task_id: Text,
    key: Text,
    expected_revision: u64,
    input: ResultInputModel,
    now: i64,
)
    requires
        well_formed(s),
        unused(s, id),
        up_to_date(s),
    ensures
        submit_outcome(
            s,
            id,
            actor,
            session,
            task_id,
            key,
            expected_revision,
            input,
            now,
        ) matches Ok(
            (later, _),
        ) ==> up_to_date(later),
{
    let outcome = submit_outcome(
        s,
        id,
        actor,
        session,
        task_id,
        key,
        expected_revision,
        input,
        now,
    );
    let request = result_request(actor, session, task_id, key, expected_revision, input);
    if outcome is Ok && replayed::<ResultSubmission>(s, request) == Ok::<
        Option<ResultSubmissionModel>,
        WorkError,
    >(None) {
        let task = loaded::<Task>(s, session, task_id)->Ok_0;
        tasks_stand(s, session, task_id);
        let result = ResultSubmissionModel { id, task_id, result: input, created_at_ms: now };
        let body = BodyModel::Result(result);
        putting_files(s, session, id, task_id, body);
        let filed = put(s, session, id, task_id, body)->Ok_0;
        changing_brings_up_to_date(s, filed, task, "result_submitted"@, id, now);
        let next = changed(filed, task, "result_submitted"@, id, now)->Ok_0.0;
        same_tables_stay(next, outcome->Ok_0.0);
    }
}

/// Reviewing a result leaves the list up to date.
pub proof fn reviewing_keeps_up(
    s: StoreModel,
    id: Text,
    actor: Text,
    session: Text,
    task_id: Text,
    key: Text,
    expected_revision: u64,
    input: ReviewInputModel,
    now: i64,
)
    requires
        well_formed(s),
        unused(s, id),
        up_to_date(s),
    ensures
        review_outcome(
            s,
            id,
            actor,
            session,
            task_id,
            key,
            expected_revision,
            input,
            now,
        ) matches Ok(
            (later, _),
        ) ==> up_to_date(later),
{
    let outcome = review_outcome(
        s,
        id,
        actor,
        session,
        task_id,
        key,
        expected_revision,
        input,
        now,
    );
    let request = review_request(actor, session, task_id, key, expected_revision, input);
    if outcome is Ok && replayed::<Review>(s, request) == Ok::<Option<ReviewModel>, WorkError>(
        None,
    ) {
        let task = loaded::<Task>(s, session, task_id)->Ok_0;
        tasks_stand(s, session, task_id);
        let review = ReviewModel {
            id,
            task_id,
            actor_id: actor,
            review: input,
            created_at_ms: now,
        };
        let body = BodyModel::Review(review);
        putting_files(s, session, id, task_id, body);
        let filed = put(s, session, id, task_id, body)->Ok_0;
        changing_brings_up_to_date(s, filed, task, "result_reviewed"@, id, now);
        let next = changed(filed, task, "result_reviewed"@, id, now)->Ok_0.0;
        same_tables_stay(next, outcome->Ok_0.0);
    }
}

/// Recording an upload leaves the list up to date.
pub proof fn uploading_keeps_up(
    s: StoreModel,
    id: Text,
    actor: Text,
    session: Text,
    key: Text,
    input: InputUploadModel,
    now: i64,
)
    requires
        up_to_date(s),
    ensures
        upload_outcome(
            s,
            id,
            actor,
            session,
            key,
            input,
            now,
        ) matches Ok((later, _)) ==> up_to_date(
            later,
        ),
{
    let outcome = upload_outcome(s, id, actor, session, key, input, now);
    if outcome is Ok {
        same_tables_stay(s, outcome->Ok_0.0);
    }
}

/// Starting an attempt leaves the list up to date.
pub proof fn starting_keeps_up(
    s: StoreModel,
    attempt_id: Text,
    op_id: Text,
    fact_id: Text,
    d: StartModel,
    fence: Option<DelegationFenceModel>,
    now: i64,
)
    requires
        well_formed(s),
        unused(s, attempt_id),
        unused(s, op_id),
        unused(s, fact_id),
        attempt_id != op_id,
        attempt_id != fact_id,
        op_id != fact_id,
        up_to_date(s),
    ensures
        start_outcome(s, attempt_id, op_id, fact_id, d, fence, now) matches Ok((later, _))
            ==> up_to_date(later),
{
    let outcome = start_outcome(s, attempt_id, op_id, fact_id, d, fence, now);
    let request = start_request(d, fence);
    if outcome is Ok && replayed::<Operation>(s, request) == Ok::<
        Option<OperationModel>,
        WorkError,
    >(None) {
        let (task, snapshot) = start_admitted(s, d, fence)->Ok_0;
        let (session, task_id) = (d.session, d.task_id);
        tasks_stand(s, session, task_id);
        let attempt = fresh_attempt(attempt_id, task_id, d.input, now);
        let op = OperationModel {
            delegation_fence: fence,
            dependency_snapshot: snapshot,
            ..fresh_operation(op_id, task_id, Some(attempt_id), OperationKind::StartAttempt, now)
        };
        let first = BodyModel::Attempt(attempt);
        let second = BodyModel::Operation(op);
        putting_files(s, session, attempt_id, task_id, first);
        putting_is_local(s, session, attempt_id, task_id, first, op_id);
        putting_is_local(s, session, attempt_id, task_id, first, fact_id);
        let held = put(s, session, attempt_id, task_id, first)->Ok_0;
        putting_files(held, session, op_id, task_id, second);
        putting_is_local(held, session, op_id, task_id, second, fact_id);
        let filed = put(held, session, op_id, task_id, second)->Ok_0;
        filing_is_transitive(s, held, filed, session, task_id);
        let kept = fact_reserved(filed, session, op, FactKind::StartRefusal, fact_id)->Ok_0;
        reserving_files(filed, session, op, FactKind::StartRefusal, fact_id);
        filing_is_transitive(s, filed, kept, session, task_id);
        changing_brings_up_to_date(s, kept, task, "attempt_prepared"@, op_id, now);
        let next = changed(kept, task, "attempt_prepared"@, op_id, now)->Ok_0.0;
        same_tables_stay(next, outcome->Ok_0.0);
    }
}

/// Keeping quota for a fact is filing under the task of its operation.
proof fn reserving_files(
    s: StoreModel,
    session: Text,
    op: OperationModel,
    purpose: FactKind,
    id: Text,
)
    requires
        unused(s, id),
    ensures
        fact_reserved(s, session, op, purpose, id) matches Ok(later) ==> {
            &&& forall|x: Text, y: Text| y != id ==> #[trigger] filed_under(s, later, x, y)
            &&& forall|x: Text, y: Text| #[trigger]
                loaded::<Task>(later, x, y) == loaded::<Task>(s, x, y)
        },
{
    same_tables_stay(s, s);
    let body = BodyModel::Reserved(ReservedFactModel { purpose, operation_id: op.id });
    uncounted_stays(s, session, id, op.task_id, body);
}

/// Records that each have their own identifier.
spec fn distinct(records: Seq<RecordModel>) -> bool {
    forall|i: int, j: int|
        0 <= i < j < records.len() ==> (#[trigger] records[i]).id != (#[trigger] records[j]).id
}

/// A record with its own identifier is found under it.
proof fn distinct_are_found(records: Seq<RecordModel>, i: int)
    requires
        distinct(records),
        0 <= i < records.len(),
    ensures
        position(records, records[i].id) == Some(i),
    decreases records.len(),
{
    let rest = records.drop_last();
    if i < records.len() - 1 {
        assert(rest[i] == records[i]);
        assert forall|j: int, k: int| 0 <= j < k < rest.len() implies (#[trigger] rest[j]).id != (
        #[trigger] rest[k]).id by {
            assert(rest[j] == records[j] && rest[k] == records[k]);
        }
        distinct_are_found(rest, i);
        assert(records[i].id != records[records.len() - 1].id);
    }
}

/// Recording a fact changes nothing that the list shows.
proof fn recording_stays(
    s: StoreModel,
    session: Text,
    op: OperationModel,
    purpose: FactKind,
    body: BodyModel,
)
    requires
        distinct(s.records),
        uncounted(body) && !(body is Task),
    ensures
        fact_recorded(s, session, op, purpose, body) matches Ok(later) ==> {
            &&& up_to_date(s) ==> up_to_date(later)
            &&& forall|x: Text, y: Text|
                loaded::<Task>(s, x, y) is Ok ==> #[trigger] filed_under(s, later, x, y)
            &&& forall|x: Text, y: Text| #[trigger]
                loaded::<Task>(later, x, y) == loaded::<Task>(s, x, y)
            &&& forall|id: Text| #[trigger] position(later.records, id) == position(s.records, id)
            &&& later.records.len() == s.records.len()
            &&& forall|i: int|
                0 <= i < s.records.len() && !(s.records[i].body is Reserved)
                    ==> #[trigger] later.records[i] == s.records[i]
        },
{
    let rows = awaiting(s.records, session, purpose, op);
    awaiting_reserve(s.records, session, purpose, op);
    if rows.len() == 1 {
        let at = rows[0];
        let record = s.records[at];
        distinct_are_found(s.records, at);
        uncounted_stays(s, record.session, record.id, record.task_id, body);
        let later = put(s, record.session, record.id, record.task_id, body)->Ok_0;
        assert forall|id: Text| #[trigger] position(later.records, id) == position(
            s.records,
            id,
        ) by {
            same_ids_same_places(s.records, later.records, id);
        }
        assert forall|x: Text, y: Text| loaded::<Task>(s, x, y) is Ok implies #[trigger] filed_under(
            s,
            later,
            x,
            y,
        ) by {}
    }
}

/// Claiming uploads touches nothing but uploads.
pub proof fn claiming_touches_uploads(
    s: StoreModel,
    session: Text,
    task: Text,
    refs: Seq<FrozenInputRefModel>,
)
    ensures
        claimed(s, session, task, refs) matches Ok(later) ==> later == (StoreModel {
            inputs: later.inputs,
            ..s
        }),
    decreases refs.len(),
{
    if refs.len() > 0 {
        claiming_touches_uploads(s, session, task, refs.drop_last());
    }
}

/// Claiming a dispatch leaves the list up to date.
pub proof fn dispatching_keeps_up(
    s: StoreModel,
    fact_id: Text,
    session: Text,
    operation_id: Text,
    target: Option<OperationTargetModel>,
    now: i64,
)
    requires
        well_formed(s),
        unused(s, fact_id),
        up_to_date(s),
    ensures
        dispatch_outcome(
            s,
            fact_id,
            session,
            operation_id,
            target,
            now,
        ) matches Ok((later, _)) ==> up_to_date(later),
{
    let outcome = dispatch_outcome(s, fact_id, session, operation_id, target, now);
    if outcome is Ok {
        let old_op = loaded::<Operation>(s, session, operation_id)->Ok_0;
        operations_stand(s, session, operation_id);
        let attempt_id = old_op.attempt_id->0;
        let attempt = loaded::<Attempt>(s, session, attempt_id)->Ok_0;
        position_in_range(s.records, attempt_id);
        assert(filed_as_said(s.records[position(s.records, attempt_id)->0]));
        let op = OperationModel {
            dependency_snapshot: launch_ready(s, session, old_op)->Ok_0,
            updated_at_ms: now,
            ..old_op
        };
        reserving_files(s, session, op, FactKind::StartRefusal, fact_id);
        reserving_is_local(s, session, op, FactKind::StartRefusal, fact_id, attempt_id);
        reserving_is_local(s, session, op, FactKind::StartRefusal, fact_id, operation_id);
        let kept = fact_reserved(s, session, op, FactKind::StartRefusal, fact_id)->Ok_0;
        let claimed_attempt = in_phase(attempt, LaunchPhase::DispatchClaimed);
        both_saving_needs_their_task(kept, session, attempt_id, claimed_attempt, op, now);
        assert(loaded::<Task>(s, session, op.task_id) is Ok);
        tasks_stand(s, session, op.task_id);
        assert(filed_under(s, kept, session, op.task_id));
        both_saving_keeps_up(s, kept, session, attempt_id, claimed_attempt, op, now);
    }
}

/// Recording a launch leaves the list up to date.
pub proof fn launching_keeps_up(
    s: StoreModel,
    session: Text,
    operation_id: Text,
    resources: NativeBindingModel,
    owner_epoch: Text,
    now: i64,
)
    requires
        well_formed(s),
        up_to_date(s),
    ensures
        launch_outcome(
            s,
            session,
            operation_id,
            resources,
            owner_epoch,
            now,
        ) matches Ok((later, _)) ==> up_to_date(later),
{
    let outcome = launch_outcome(s, session, operation_id, resources, owner_epoch, now);
    if outcome is Ok {
        let op = loaded::<Operation>(s, session, operation_id)->Ok_0;
        operations_stand(s, session, operation_id);
        let attempt = loaded::<Attempt>(s, session, op.attempt_id->0)->Ok_0;
        loaded_attempt_is_filed(s, session, op.attempt_id->0);
        position_in_range(s.records, op.attempt_id->0);
        let known = merged(op.resources, resources)->Ok_0;
        let launched = AttemptModel {
            lifecycle: AttemptLifecycleModel {
                launch_phase: LaunchPhase::LaunchConfirmed,
                native_owner_epoch: Some(owner_epoch),
                ..attempt.lifecycle
            },
            binding: merged(attempt.binding, known)->Ok_0,
            ..attempt
        };
        let done = OperationModel { resources: known, updated_at_ms: now, ..op };
        same_tables_stay(s, s);
        assert(filed_under(s, s, session, op.task_id));
        both_saving_keeps_up(s, s, session, attempt.id, launched, done, now);
    }
}

/// Recording that a start made no process leaves the list up to date.
pub proof fn refusing_start_keeps_up(
    s: StoreModel,
    session: Text,
    operation_id: Text,
    owner_epoch: Text,
    receipt_id: Text,
    now: i64,
)
    requires
        well_formed(s),
        up_to_date(s),
    ensures
        start_refusal_outcome(
            s,
            session,
            operation_id,
            owner_epoch,
            receipt_id,
            now,
        ) matches Ok((later, _)) ==> up_to_date(later),
{
    let outcome = start_refusal_outcome(s, session, operation_id, owner_epoch, receipt_id, now);
    if outcome is Ok && about::<NativeStartRefusal>(s.records, session, operation_id) is None {
        let op = loaded::<Operation>(s, session, operation_id)->Ok_0;
        operations_stand(s, session, operation_id);
        let body = BodyModel::StartRefusal(
            NativeStartRefusalModel { start_operation_id: operation_id, owner_epoch, receipt_id },
        );
        recording_stays(s, session, op, FactKind::StartRefusal, body);
        let noted = fact_recorded(s, session, op, FactKind::StartRefusal, body)->Ok_0;
        let task = loaded::<Task>(noted, session, op.task_id)->Ok_0;
        position_in_range(s.records, op.task_id);
        assert(loaded::<Task>(s, session, op.task_id) is Ok);
        tasks_stand(s, session, op.task_id);
        assert(filed_under(s, noted, session, op.task_id));
        changing_brings_up_to_date(s, noted, task, "native_start_refused"@, op.id, now);
    }
}

/// Letting an operation go out leaves the list up to date.
pub proof fn beginning_keeps_up(
    s: StoreModel,
    fact_id: Text,
    session: Text,
    operation_id: Text,
    target: Option<OperationTargetModel>,
    now: i64,
)
    requires
        well_formed(s),
        unused(s, fact_id),
        up_to_date(s),
    ensures
        begin_outcome(
            s,
            fact_id,
            session,
            operation_id,
            target,
            now,
        ) matches Ok((later, _)) ==> up_to_date(later),
{
    let outcome = begin_outcome(s, fact_id, session, operation_id, target, now);
    if outcome is Ok {
        let op = loaded::<Operation>(s, session, operation_id)->Ok_0;
        operations_stand(s, session, operation_id);
        reserving_files(s, session, op, FactKind::Reconciliation, fact_id);
        reserving_is_local(s, session, op, FactKind::Reconciliation, fact_id, operation_id);
        same_tables_stay(s, s);
        assert(filed_under(s, s, session, op.task_id));
        let kept = begin_reserved(s, fact_id, session, op)->Ok_0;
        position_in_range(s.records, op.task_id);
        let begun = OperationModel {
            state: OperationState::Submitting,
            updated_at_ms: now,
            ..op
        };
        operating_needs_its_task(kept, session, begun, now);
        assert(loaded::<Task>(s, session, op.task_id) is Ok);
        tasks_stand(s, session, op.task_id);
        assert(filed_under(s, kept, session, op.task_id));
        operating_keeps_up(s, kept, session, begun, now);
    }
}

/// Recording native resources leaves the list up to date.
pub proof fn checkpointing_keeps_up(
    s: StoreModel,
    session: Text,
    operation_id: Text,
    resources: NativeBindingModel,
    now: i64,
)
    requires
        well_formed(s),
        up_to_date(s),
    ensures
        checkpoint_outcome(
            s,
            session,
            operation_id,
            resources,
            now,
        ) matches Ok((later, _)) ==> up_to_date(later),
{
    let outcome = checkpoint_outcome(s, session, operation_id, resources, now);
    if outcome is Ok {
        let op = loaded::<Operation>(s, session, operation_id)->Ok_0;
        operations_stand(s, session, operation_id);
        let known = merged(op.resources, resources)->Ok_0;
        let later_op = OperationModel { resources: known, updated_at_ms: now, ..op };
        same_tables_stay(s, s);
        assert(filed_under(s, s, session, op.task_id));
        match op.attempt_id {
            None => {
                operating_keeps_up(s, s, session, later_op, now);
            },
            Some(id) => {
                let attempt = loaded::<Attempt>(s, session, id)->Ok_0;
                let informed = attempt_informed(attempt, later_op)->Ok_0;
                both_saving_keeps_up(s, s, session, id, informed, later_op, now);
            },
        }
    }
}

/// Ending an operation leaves the list up to date.
pub proof fn finalizing_keeps_up(
    s: StoreModel,
    session: Text,
    operation_id: Text,
    end: OperationOutcomeModel,
    now: i64,
)
    requires
        well_formed(s),
        up_to_date(s),
    ensures
        finalize_outcome(
            s,
            session,
            operation_id,
            end,
            now,
        ) matches Ok((later, _)) ==> up_to_date(later),
{
    let outcome = finalize_outcome(s, session, operation_id, end, now);
    if outcome is Ok {
        let op = loaded::<Operation>(s, session, operation_id)->Ok_0;
        operations_stand(s, session, operation_id);
        let ended = OperationModel {
            resources: merged(op.resources, end.resources)->Ok_0,
            state: end.state,
            failure_code: end.failure_code,
            updated_at_ms: now,
            ..op
        };
        same_tables_stay(s, s);
        assert(filed_under(s, s, session, op.task_id));
        match op.attempt_id {
            None => {
                operating_keeps_up(s, s, session, ended, now);
            },
            Some(id) => {
                let attempt = loaded::<Attempt>(s, session, id)->Ok_0;
                let last = attempt_ended(attempt, ended, now)->Ok_0;
                both_saving_keeps_up(s, s, session, id, last, ended, now);
            },
        }
    }
}

/// Cancelling a recorded intent leaves the list up to date.
pub proof fn refusing_keeps_up(
    s: StoreModel,
    session: Text,
    operation_id: Text,
    code: FailureCode,
    now: i64,
)
    requires
        well_formed(s),
        up_to_date(s),
    ensures
        refuse_outcome(
            s,
            session,
            operation_id,
            code,
            now,
        ) matches Ok((later, _)) ==> up_to_date(later),
{
    let outcome = refuse_outcome(s, session, operation_id, code, now);
    if outcome is Ok {
        let op = loaded::<Operation>(s, session, operation_id)->Ok_0;
        operations_stand(s, session, operation_id);
        let ended = OperationModel {
            state: OperationState::Refused,
            failure_code: Some(code),
            updated_at_ms: now,
            ..op
        };
        let body = BodyModel::InterruptionFact(
            InterruptionFactModel {
                operation_id: ended.id,
                state: ended.state,
                failure_code: ended.failure_code,
                receipt: None,
            },
        );
        same_tables_stay(s, s);
        assert(filed_under(s, s, session, op.task_id));
        recording_stays(s, session, ended, FactKind::Interruption, body);
        let noted = refusal_noted(s, session, ended)->Ok_0;
        let given = refusal_released(noted, session, ended, now)->Ok_0;
        let task_id = op.task_id;
        let attempt_id = op.attempt_id->0;
        let frees = op.kind == OperationKind::StartAttempt && op.resources == unbound() && loaded::<
            Attempt,
        >(s, session, attempt_id)->Ok_0.lifecycle.launch_phase == LaunchPhase::NotDispatched;
        if frees {
            position_in_range(s.records, attempt_id);
            let attempt = loaded::<Attempt>(s, session, attempt_id)->Ok_0;
            assert(filed_as_said(s.records[position(s.records, attempt_id)->0]));
            let released = BodyModel::Attempt(released_undispatched(attempt, ended.id, now));
            assert(body_stands::<Attempt>(noted, session, task_id, attempt_id));
            assert(given == put(noted, session, attempt_id, task_id, released)->Ok_0);
            putting_is_local(noted, session, attempt_id, task_id, released, operation_id);
            putting_is_local(noted, session, attempt_id, task_id, released, task_id);
            operating_needs_its_task(given, session, ended, now);
            putting_files(noted, session, attempt_id, task_id, released);
        } else {
            assert(given == noted);
            operating_needs_its_task(given, session, ended, now);
        }
        assert(loaded::<Task>(s, session, task_id) is Ok);
        tasks_stand(s, session, task_id);
        assert(filed_under(s, noted, session, task_id));
        if frees {
            filing_is_transitive(s, noted, given, session, task_id);
        }
        operating_keeps_up(s, given, session, ended, now);
    }
}

/// Recording a delivery leaves the list up to date.
proof fn recording_delivery_keeps_up(
    s: StoreModel,
    id: Text,
    d: DeliveryModel,
    promise: Option<PromiseModel>,
    fence: Option<DelegationFenceModel>,
    now: i64,
)
    requires
        well_formed(s),
        unused(s, id),
        up_to_date(s),
    ensures
        delivery_requested(
            s,
            id,
            d,
            promise,
            fence,
            now,
        ) matches Ok((later, _)) ==> up_to_date(later),
{
    let outcome = delivery_requested(s, id, d, promise, fence, now);
    let request = delivery_request(d, promise, fence);
    if outcome is Ok && replayed::<Operation>(s, request) == Ok::<
        Option<OperationModel>,
        WorkError,
    >(None) {
        let (task, attempt) = delivery_admitted(s, d, fence)->Ok_0;
        tasks_stand(s, d.session, d.task_id);
        let inputs = delivery_inputs(s, d, promise, fence, task, now)->Ok_0;
        let op = delivery_operation(s, id, d, fence, inputs, attempt, now);
        claiming_touches_uploads(s, d.session, d.task_id, op.input_refs);
        let held = claimed(s, d.session, d.task_id, op.input_refs)->Ok_0;
        same_tables_stay(s, held);
        assert(filed_under(s, held, d.session, d.task_id));
        let body = BodyModel::Operation(op);
        putting_files(held, d.session, id, d.task_id, body);
        let filed = put(held, d.session, id, d.task_id, body)->Ok_0;
        filing_is_transitive(s, held, filed, d.session, d.task_id);
        changing_brings_up_to_date(s, filed, task, "delivery_prepared"@, id, now);
        let next = changed(filed, task, "delivery_prepared"@, id, now)->Ok_0.0;
        same_tables_stay(next, outcome->Ok_0.0);
    }
}

/// Delivering a prompt leaves the list up to date.
pub proof fn delivering_keeps_up(
    s: StoreModel,
    id: Text,
    d: DeliveryModel,
    promise: Option<PromiseModel>,
    fence: Option<DelegationFenceModel>,
    now: i64,
)
    requires
        well_formed(s),
        unused(s, id),
        up_to_date(s),
    ensures
        delivery_outcome(
            s,
            id,
            d,
            promise,
            fence,
            now,
        ) matches Ok((later, _)) ==> up_to_date(later),
{
    let outcome = delivery_outcome(s, id, d, promise, fence, now);
    recording_delivery_keeps_up(s, id, d, promise, fence, now);
}

/// Interrupting an attempt leaves the list up to date.
pub proof fn interrupting_keeps_up(
    s: StoreModel,
    id: Text,
    fact_id: Text,
    actor: Text,
    session: Text,
    task_id: Text,
    attempt_id: Text,
    input: InterruptInputModel,
    now: i64,
)
    requires
        well_formed(s),
        unused(s, id),
        unused(s, fact_id),
        id != fact_id,
        up_to_date(s),
    ensures
        interrupt_outcome(
            s,
            id,
            fact_id,
            actor,
            session,
            task_id,
            attempt_id,
            input,
            now,
        ) matches Ok((later, _)) ==> up_to_date(later),
{
    let outcome = interrupt_outcome(
        s,
        id,
        fact_id,
        actor,
        session,
        task_id,
        attempt_id,
        input,
        now,
    );
    let request = interrupt_request(actor, session, task_id, attempt_id, input);
    if outcome is Ok && replayed::<Operation>(s, request) == Ok::<
        Option<OperationModel>,
        WorkError,
    >(None) {
        let (task, op) = interrupt_admitted(s, id, session, task_id, attempt_id, input, now)->Ok_0;
        tasks_stand(s, session, task_id);
        let body = BodyModel::Operation(op);
        putting_files(s, session, id, task_id, body);
        putting_is_local(s, session, id, task_id, body, fact_id);
        let filed = put(s, session, id, task_id, body)->Ok_0;
        reserving_files(filed, session, op, FactKind::Interruption, fact_id);
        let kept = fact_reserved(filed, session, op, FactKind::Interruption, fact_id)->Ok_0;
        assert(filed_under(filed, kept, session, task_id));
        filing_is_transitive(s, filed, kept, session, task_id);
        changing_brings_up_to_date(s, kept, task, "operation_changed"@, id, now);
        let next = changed(kept, task, "operation_changed"@, id, now)->Ok_0.0;
        same_tables_stay(next, outcome->Ok_0.0);
    }
}

/// Ending an interrupt leaves the list up to date.
pub proof fn ending_interrupt_keeps_up(
    s: StoreModel,
    session: Text,
    operation_id: Text,
    end: InterruptionOutcomeModel,
    now: i64,
)
    requires
        well_formed(s),
        up_to_date(s),
    ensures
        interrupt_finalized(
            s,
            session,
            operation_id,
            end,
            now,
        ) matches Ok((later, _)) ==> up_to_date(later),
{
    let outcome = interrupt_finalized(s, session, operation_id, end, now);
    if outcome is Ok {
        let op = loaded::<Operation>(s, session, operation_id)->Ok_0;
        operations_stand(s, session, operation_id);
        let ended = interrupt_ended(op, end, now);
        let body = BodyModel::InterruptionFact(
            InterruptionFactModel {
                operation_id: ended.id,
                state: ended.state,
                failure_code: ended.failure_code,
                receipt: ended.interruption_receipt,
            },
        );
        recording_stays(s, session, ended, FactKind::Interruption, body);
        let noted = fact_recorded(s, session, ended, FactKind::Interruption, body)->Ok_0;
        let task_id = op.task_id;
        position_in_range(s.records, task_id);
        operating_needs_its_task(noted, session, ended, now);
        assert(loaded::<Task>(s, session, task_id) is Ok);
        tasks_stand(s, session, task_id);
        assert(filed_under(s, noted, session, task_id));
        operating_keeps_up(s, noted, session, ended, now);
    }
}

/// Preparing a reconciliation leaves the list up to date.
pub proof fn reconciling_keeps_up(
    s: StoreModel,
    id: Text,
    intent_id: Text,
    fact_id: Text,
    actor: Text,
    session: Text,
    task_id: Text,
    attempt_id: Text,
    input: ReconcileInputModel,
    now: i64,
)
    requires
        well_formed(s),
        unused(s, id),
        unused(s, intent_id),
        unused(s, fact_id),
        id != intent_id,
        id != fact_id,
        intent_id != fact_id,
        up_to_date(s),
    ensures
        reconcile_outcome(
            s,
            id,
            intent_id,
            fact_id,
            actor,
            session,
            task_id,
            attempt_id,
            input,
            now,
        ) matches Ok((later, _)) ==> up_to_date(later),
{
    let outcome = reconcile_outcome(
        s,
        id,
        intent_id,
        fact_id,
        actor,
        session,
        task_id,
        attempt_id,
        input,
        now,
    );
    let request = reconcile_request(actor, session, task_id, attempt_id, input);
    if outcome is Ok && replayed::<Operation>(s, request) == Ok::<
        Option<OperationModel>,
        WorkError,
    >(None) {
        let task = loaded::<Task>(s, session, task_id)->Ok_0;
        tasks_stand(s, session, task_id);
        let op = fresh_operation(
            id,
            task_id,
            Some(attempt_id),
            OperationKind::ReconcileAttempt,
            now,
        );
        let first = BodyModel::Operation(op);
        let second = BodyModel::ReconciliationIntent(
            ReconciliationIntentModel { operation_id: id, input },
        );
        putting_files(s, session, id, task_id, first);
        putting_is_local(s, session, id, task_id, first, intent_id);
        putting_is_local(s, session, id, task_id, first, fact_id);
        let filed = put(s, session, id, task_id, first)->Ok_0;
        putting_files(filed, session, intent_id, task_id, second);
        putting_is_local(filed, session, intent_id, task_id, second, fact_id);
        let meant = put(filed, session, intent_id, task_id, second)->Ok_0;
        filing_is_transitive(s, filed, meant, session, task_id);
        reserving_files(meant, session, op, FactKind::Reconciliation, fact_id);
        let kept = fact_reserved(meant, session, op, FactKind::Reconciliation, fact_id)->Ok_0;
        assert(filed_under(meant, kept, session, task_id));
        filing_is_transitive(s, meant, kept, session, task_id);
        changing_brings_up_to_date(s, kept, task, "reconciliation_prepared"@, id, now);
        let next = changed(kept, task, "reconciliation_prepared"@, id, now)->Ok_0.0;
        same_tables_stay(next, outcome->Ok_0.0);
    }
}

/// Letting a finding take effect leaves the list up to date.
proof fn settling_keeps_up(
    s: StoreModel,
    session: Text,
    task: TaskModel,
    op: OperationModel,
    attempt: AttemptModel,
    start: OperationModel,
    observation: LifecycleObservation,
    release: Option<(ReleaseReason, ReleaseEvidenceModel)>,
    now: i64,
)
    requires
        well_formed(s),
        loaded::<Task>(s, session, op.task_id) == Ok::<TaskModel, WorkError>(task),
        body_stands::<Operation>(s, session, op.task_id, op.id),
        body_stands::<Operation>(s, session, op.task_id, start.id),
        body_stands::<Attempt>(s, session, op.task_id, attempt.id),
        up_to_date(s),
    ensures
        finding_settled(
            s,
            session,
            task,
            op,
            attempt,
            start,
            observation,
            release,
            now,
        ) matches Ok((later, _)) ==> up_to_date(later),
{
    let outcome = finding_settled(s, session, task, op, attempt, start, observation, release, now);
    if outcome is Ok {
        reveal(finding_settled);
        let task_id = op.task_id;
        tasks_stand(s, session, task_id);
        let stopped = BodyModel::Operation(
            OperationModel {
                state: OperationState::Refused,
                failure_code: Some(FailureCode::NotReady),
                updated_at_ms: now,
                ..start
            },
        );
        same_tables_stay(s, s);
        assert(filed_under(s, s, session, task_id));
        let fenced = start_fenced(s, session, task_id, start, release, now)->Ok_0;
        if release matches Some((reason, _)) && reason == ReleaseReason::StartupNotDispatched {
            putting_files(s, session, start.id, task_id, stopped);
            putting_is_local(s, session, start.id, task_id, stopped, attempt.id);
            putting_is_local(s, session, start.id, task_id, stopped, op.id);
        }
        assert(filed_under(s, fenced, session, task_id));
        let found = attempt_found(attempt, op.id, release, now);
        let settled = attempt_settled(fenced, session, task_id, found, release)->Ok_0;
        if release is Some {
            let body = BodyModel::Attempt(found);
            putting_files(fenced, session, attempt.id, task_id, body);
            putting_is_local(fenced, session, attempt.id, task_id, body, op.id);
            filing_is_transitive(s, fenced, settled, session, task_id);
        }
        assert(filed_under(s, settled, session, task_id));
        let ended = OperationModel {
            state: OperationState::Acknowledged,
            updated_at_ms: now,
            ..op
        };
        let body = BodyModel::Operation(ended);
        putting_files(settled, session, op.id, task_id, body);
        let filed = put(settled, session, op.id, task_id, body)->Ok_0;
        filing_is_transitive(s, settled, filed, session, task_id);
        changing_brings_up_to_date(s, filed, task, "attempt_reconciled"@, op.id, now);
        let next = changed(filed, task, "attempt_reconciled"@, op.id, now)->Ok_0.0;
        let fact = BodyModel::Reconciliation(outcome->Ok_0.1);
        assert(next.records.len() == s.records.len());
        assert forall|i: int| 0 <= i < s.records.len() implies (#[trigger] next.records[i]).id
            == s.records[i].id by {
            assert(fenced.records[i].id == s.records[i].id);
            assert(settled.records[i].id == fenced.records[i].id);
            assert(filed.records[i].id == settled.records[i].id);
        }
        recording_stays(next, session, ended, FactKind::Reconciliation, fact);
    }
}

/// Recording what a reconciliation found leaves the list up to date.
pub proof fn finding_keeps_up(
    s: StoreModel,
    session: Text,
    operation_id: Text,
    expected_revision: u64,
    evidence: ReconciliationEvidenceModel,
    now: i64,
)
    requires
        well_formed(s),
        up_to_date(s),
    ensures
        finding_outcome(
            s,
            session,
            operation_id,
            expected_revision,
            evidence,
            now,
        ) matches Ok((later, _)) ==> up_to_date(later),
{
    let outcome = finding_outcome(s, session, operation_id, expected_revision, evidence, now);
    if outcome is Ok && about::<ReconciliationReceipt>(s.records, session, operation_id) is None {
        reveal(reconcile_subject);
        let op = loaded::<Operation>(s, session, operation_id)->Ok_0;
        operations_stand(s, session, operation_id);
        let (task, attempt, start) = reconcile_subject(s, session, op, expected_revision)->Ok_0;
        position_in_range(s.records, op.attempt_id->0);
        assert(filed_as_said(s.records[position(s.records, op.attempt_id->0)->0]));
        let operations = listed::<Operation>(s.records, session, op.task_id);
        start_is_listed(operations, attempt.id);
        let at = listed_is_recorded::<Operation>(s.records, session, op.task_id, start);
        found_where_filed(s.records, at);
        assert(filed_as_said(s.records[at]));
        let (observation, release) = observed(s, session, attempt, start, evidence)->Ok_0;
        settling_keeps_up(s, session, task, op, attempt, start, observation, release, now);
    }
}

/// Opening a task leaves the list up to date.
proof fn opening_task_keeps_up(
    s: StoreModel,
    id: Text,
    request: RequestModel,
    input: CreateTaskModel,
    refs: Seq<InputRefModel>,
    now: i64,
)
    requires
        well_formed(s),
        unused(s, id),
        up_to_date(s),
    ensures
        task_opened(s, id, request, input, refs, now) matches Ok((later, _)) ==> up_to_date(later),
{
    let outcome = task_opened(s, id, request, input, refs, now);
    if outcome is Ok {
        let task = fresh_task(id, request.session, input, Seq::empty(), no_delegation(), now);
        let inputs = resolved(
            s,
            request.actor,
            request.session,
            input.repo_path,
            None,
            refs,
            now,
        )->Ok_0;
        claiming_touches_uploads(s, request.session, id, inputs);
        let held = claimed(s, request.session, id, inputs)->Ok_0;
        same_tables_stay(s, held);
        assert(filed_under(s, held, request.session, id));
        let whole = TaskModel { input_refs: inputs, ..task };
        changing_brings_up_to_date(s, held, whole, "task_created"@, id, now);
        let next = changed(held, whole, "task_created"@, id, now)->Ok_0.0;
        same_tables_stay(next, outcome->Ok_0.0);
    }
}

/// Filing shares leaves the list up to date, and touches nothing but records.
proof fn sharing_keeps_up(
    s: StoreModel,
    session: Text,
    parent: TaskModel,
    child_id: Text,
    fence: DelegationFenceModel,
    existing: Seq<InputShareModel>,
    refs: Seq<FrozenInputRefModel>,
    ids: Seq<Text>,
    now: i64,
)
    requires
        well_formed(s),
        fresh_ids(s, ids),
        refs.len() <= ids.len(),
        up_to_date(s),
    ensures
        shares_filed(
            s,
            session,
            parent,
            child_id,
            fence,
            existing,
            refs,
            ids,
            now,
        ) matches Ok(later)
            ==> up_to_date(later) && later == (StoreModel { records: later.records, ..s }),
    decreases refs.len(),
{
    if refs.len() > 0 && shares_filed(
        s,
        session,
        parent,
        child_id,
        fence,
        existing,
        refs,
        ids,
        now,
    ) is Ok {
        let rest = refs.drop_last();
        sharing_keeps_up(s, session, parent, child_id, fence, existing, rest, ids, now);
        sharing_grows(s, session, parent, child_id, fence, existing, rest, ids, now);
        let before = shares_filed(
            s,
            session,
            parent,
            child_id,
            fence,
            existing,
            rest,
            ids,
            now,
        )->Ok_0;
        let id = ids[refs.len() - 1];
        assert(unused(s, id));
        assert forall|k: int| 0 <= k < rest.len() implies (#[trigger] ids[k]) != id by {}
        assert(position(before.records, id) == position(s.records, id));
        let source = reference_to(parent.input_refs, refs.last().input_id)->0;
        let body = BodyModel::InputShare(
            share_for(id, parent, child_id, fence, source, refs.last(), now),
        );
        uncounted_stays(before, session, id, child_id, body);
    }
}

/// Opening a child leaves the list up to date.
proof fn opening_child_keeps_up(
    s: StoreModel,
    id: Text,
    origin_id: Text,
    share_ids: Seq<Text>,
    request: RequestModel,
    input: CreateTaskModel,
    refs: Seq<InputRefModel>,
    context: DelegatedCreateModel,
    now: i64,
)
    requires
        up_to_date(s),
        well_formed(s),
        fresh_ids(s, share_ids.push(id).push(origin_id)),
        share_ids.len() >= MAX_REFS,
        task_count(s.records) < MAX_TASKS,
        receipt_at(s.receipts, request.actor, request.session, request.kind, request.key) is None,
        s.receipts.len() < MAX_RECEIPTS,
    ensures
        child_opened(s, id, origin_id, share_ids, request, input, refs, context, now) matches Ok(
            (later, _),
        ) ==> up_to_date(later),
{
    let outcome = child_opened(s, id, origin_id, share_ids, request, input, refs, context, now);
    if outcome is Ok {
        let ids = share_ids.push(id).push(origin_id);
        let n = share_ids.len() as int;
        assert(ids[n] == id && ids[n + 1] == origin_id);
        assert forall|k: int| 0 <= k < share_ids.len() implies share_ids[k] != id && share_ids[k]
            != origin_id && unused(s, #[trigger] share_ids[k]) by {
            assert(ids[k] == share_ids[k]);
        }
        assert forall|j: int, k: int| 0 <= j < k < share_ids.len() implies (#[trigger] share_ids[j])
            != (#[trigger] share_ids[k]) by {
            assert(ids[j] == share_ids[j] && ids[k] == share_ids[k]);
        }
        let session = request.session;
        let parent = loaded::<Task>(s, session, context.fence.coordinator_task_id)->Ok_0;
        let task = fresh_task(
            id,
            session,
            input,
            context.dependencies,
            inherited_policy(parent.delegation.policy),
            now,
        );
        let inputs = parent_shares(s, request.actor, session, parent, refs, now)->Ok_0;
        let existing = listed::<InputShare>(s.records, session, id);
        sharing_grows(
            s,
            session,
            parent,
            id,
            context.fence,
            existing,
            inputs,
            share_ids,
            now,
        );
        sharing_keeps_up(
            s,
            session,
            parent,
            id,
            context.fence,
            existing,
            inputs,
            share_ids,
            now,
        );
        let given = shared(s, session, parent, id, context.fence, inputs, share_ids, now)->Ok_0;
        assert(position(given.records, id) == position(s.records, id));
        assert(position(given.records, origin_id) == position(s.records, origin_id));
        let whole = TaskModel { input_refs: inputs, ..task };
        changing_grows(given, whole, "task_created"@, id, now);
        same_tables_stay(given, given);
        assert(filed_under(given, given, session, id));
        changing_brings_up_to_date(given, given, whole, "task_created"@, id, now);
        changing_is_local(given, whole, "task_created"@, id, now, origin_id);
        let (made, created) = changed(given, whole, "task_created"@, id, now)->Ok_0;
        let origin = BodyModel::DelegatedOrigin(
            DelegatedOriginModel { actor_id: request.actor, fence: context.fence },
        );
        putting_grows(made, session, origin_id, id, origin);
        uncounted_stays(made, session, origin_id, id, origin);
        let noted = put(made, session, origin_id, id, origin)->Ok_0;
        let above = loaded::<Task>(noted, session, context.fence.coordinator_task_id)->Ok_0;
        tasks_stand(noted, session, context.fence.coordinator_task_id);
        same_tables_stay(noted, noted);
        assert(filed_under(noted, noted, session, context.fence.coordinator_task_id));
        changing_brings_up_to_date(noted, noted, above, "child_created"@, id, now);
        let next = changed(noted, above, "child_created"@, id, now)->Ok_0.0;
        same_tables_stay(next, outcome->Ok_0.0);
    }
}

/// Creating a task leaves the list up to date.
pub proof fn creating_keeps_up(
    s: StoreModel,
    id: Text,
    origin_id: Text,
    share_ids: Seq<Text>,
    actor: Text,
    session: Text,
    key: Text,
    input: CreateTaskModel,
    refs: Seq<InputRefModel>,
    context: Option<DelegatedCreateModel>,
    now: i64,
)
    requires
        well_formed(s),
        fresh_ids(s, share_ids.push(id).push(origin_id)),
        share_ids.len() >= MAX_REFS,
        up_to_date(s),
    ensures
        create_outcome(
            s,
            id,
            origin_id,
            share_ids,
            actor,
            session,
            key,
            input,
            refs,
            context,
            now,
        ) matches Ok((later, _)) ==> up_to_date(later),
{
    let ids = share_ids.push(id).push(origin_id);
    assert(ids[share_ids.len() as int] == id);
    let request = create_request(actor, session, key, input, refs, context);
    if replayed::<Task>(s, request) == Ok::<Option<TaskModel>, WorkError>(None)
        && creation_admitted(s, session, input, context) is Ok {
        match context {
            None => {
                opening_task_keeps_up(s, id, request, input, refs, now);
            },
            Some(context) => {
                opening_child_keeps_up(
                    s,
                    id,
                    origin_id,
                    share_ids,
                    request,
                    input,
                    refs,
                    context,
                    now,
                );
            },
        }
    }
}

/// Marking lost operations leaves the list up to date.
proof fn recovering_keeps_up(s: StoreModel, n: int)
    requires
        well_formed(s),
        0 <= n <= s.records.len(),
        up_to_date(s),
    ensures
        all_recovered(s, s.records.take(n)) matches Ok(later) ==> up_to_date(later),
    decreases n,
{
    if n > 0 && all_recovered(s, s.records.take(n)) is Ok {
        assert(s.records.take(n).drop_last() =~= s.records.take(n - 1));
        recovering_keeps_up(s, n - 1);
        recovering_grows(s, n - 1);
        let before = all_recovered(s, s.records.take(n - 1))->Ok_0;
        let record = s.records[n - 1];
        assert(s.records.take(n).last() == record);
        assert(record_follows(record, before.records[n - 1]));
        if let BodyModel::Operation(op) = record.body {
            assert(before.records[n - 1] == record);
            if op.state == OperationState::Submitting {
                let (session, task_id) = (record.session, op.task_id);
                found_where_filed(before.records, n - 1);
                assert(filed_as_said(record));
                let body = BodyModel::Operation(lost(op));
                putting_is_local(before, session, op.id, task_id, body, task_id);
                let filed = put(before, session, op.id, task_id, body)->Ok_0;
                let task = loaded::<Task>(filed, session, task_id)->Ok_0;
                tasks_stand(before, session, task_id);
                putting_files(before, session, op.id, task_id, body);
                changing_brings_up_to_date(
                    before,
                    filed,
                    task,
                    "operation_recovered"@,
                    op.id,
                    task.updated_at_ms,
                );
            }
        }
    }
}

/// Bringing the list up to the stream has every change in it reach the list, and leaves alone a
/// list that every change has reached.
proof fn catching_up_tells(s: StoreModel, n: int)
    requires
        0 <= n <= s.changes.len(),
    ensures
        ({
            let later = caught_up(s, s.changes.take(n));
            &&& forall|i: int| 0 <= i < n ==> heard(later, #[trigger] s.changes[i])
            &&& told(s) ==> later == s
            &&& later == (StoreModel {
                watermarks: later.watermarks,
                activity: later.activity,
                ..s
            })
        }),
    decreases n,
{
    if n > 0 {
        assert(s.changes.take(n).drop_last() =~= s.changes.take(n - 1));
        catching_up_tells(s, n - 1);
        let before = caught_up(s, s.changes.take(n - 1));
        let later = caught_up(s, s.changes.take(n));
        let change = s.changes[n - 1];
        assert(s.changes.take(n).last() == change);
        assert forall|i: int| 0 <= i < n implies heard(later, #[trigger] s.changes[i]) by {
            let r = s.changes[i];
            if i < n - 1 {
                assert(heard(before, s.changes[i]));
            }
            marks_stay(before.watermarks, change.session, change.cursor, r.session);
            activities_stay(
                before.activity,
                change.session,
                change.task_id,
                activity_of(change),
                r.session,
                r.task_id,
            );
        }
        if told(s) {
            assert(heard(s, s.changes[n - 1]));
        }
    }
}

/// A task list that was built anew is up to date.
pub proof fn rebuilding_brings_up_to_date(s: StoreModel)
    requires
        well_formed(s),
    ensures
        up_to_date(summaries_rebuilt(s).0),
{
    let later = summaries_rebuilt(s).0;
    let all = caught_up(s, s.changes);
    assert(s.changes.take(s.changes.len() as int) =~= s.changes);
    catching_up_tells(s, s.changes.len() as int);
    rebuilding_keeps(s);
    rebuilding_touches_rows(s);
    rebuilt_list_is_whole(s);
    assert forall|i: int| 0 <= i < later.changes.len() implies heard(
        later,
        #[trigger] later.changes[i],
    ) by {
        assert(heard(all, s.changes[i]));
    }
    assert forall|x: Text, y: Text| #[trigger] shown_right(later, x, y) by {
        summary_in_range(later.summaries, x, y);
        if summary_at(later.summaries, x, y) is Some {
            let row = later.summaries[summary_at(later.summaries, x, y)->0];
            assert(is_current(later, row));
            tasks_stand(later, x, y);
        }
    }
}

/// Building the rows of the list touches nothing else.
proof fn rebuilding_touches_rows(s: StoreModel)
    ensures
        summaries_rebuilt(s).0.watermarks == caught_up(s, s.changes).watermarks,
        summaries_rebuilt(s).0.activity == caught_up(s, s.changes).activity,
{
    let start = StoreModel {
        summaries: Seq::empty(),
        summaries_ready: false,
        ..caught_up(s, s.changes)
    };
    building_touches_rows(start, s.records);
}

proof fn building_touches_rows(s: StoreModel, records: Seq<RecordModel>)
    ensures
        rebuilt(s, records).0.watermarks == s.watermarks,
        rebuilt(s, records).0.activity == s.activity,
    decreases records.len(),
{
    if records.len() > 0 {
        building_touches_rows(s, records.drop_last());
    }
}

/// A store that was opened has its list up to date.
pub proof fn opening_brings_up_to_date(s: StoreModel)
    requires
        well_formed(s),
    ensures
        opened(s) matches Ok(later) ==> up_to_date(later),
{
    let start = summaries_rebuilt(s).0;
    rebuilding_keeps(s);
    rebuilding_brings_up_to_date(s);
    assert(start.records.take(start.records.len() as int) =~= start.records);
    recovering_keeps_up(start, start.records.len() as int);
}

/// A row of one up-to-date list is a row of another over the same records and activity.
proof fn rows_agree(a: StoreModel, b: StoreModel, i: int)
    requires
        tidy(a.records),
        a.records == b.records,
        forall|x: Text, y: Text| #[trigger] activity_seen(a, x, y) == activity_seen(b, x, y),
        labelled(a.summaries),
        complete(b),
        up_to_date(a),
        up_to_date(b),
        0 <= i < a.summaries.len(),
    ensures
        b.summaries.contains(a.summaries[i]),
{
    let row = a.summaries[i];
    let (session, id) = (row.session, row.task_id);
    labelled_rows_are_found(a.summaries, i);
    assert(shown_right(a, session, id));
    let task = loaded::<Task>(a, session, id)->Ok_0;
    position_in_range(a.records, id);
    let k = position(a.records, id)->0;
    assert(b.records[k].body is Task);
    summary_in_range(b.summaries, session, id);
    let j = summary_at(b.summaries, session, id)->0;
    assert(shown_right(b, session, id));
    assert(activity_seen(a, session, id) == activity_seen(b, session, id));
    assert(b.summaries[j] == row);
}

/// Two up-to-date lists over the same records and activity, at the same cursors, are the same.
proof fn lists_agree(a: StoreModel, b: StoreModel, session: Text)
    requires
        tidy(a.records),
        a.records == b.records,
        forall|x: Text, y: Text| #[trigger] activity_seen(a, x, y) == activity_seen(b, x, y),
        watermark_of(a, session) == watermark_of(b, session),
        labelled(a.summaries),
        labelled(b.summaries),
        complete(a),
        complete(b),
        up_to_date(a),
        up_to_date(b),
    ensures
        same_list(a, b, session),
{
    assert forall|i: int|
        0 <= i < a.summaries.len() && (
        #[trigger] a.summaries[i]).session == session implies b.summaries.contains(
        a.summaries[i],
    ) by {
        rows_agree(a, b, i);
    }
    assert forall|i: int|
        0 <= i < b.summaries.len() && (
        #[trigger] b.summaries[i]).session == session implies a.summaries.contains(
        b.summaries[i],
    ) by {
        rows_agree(b, a, i);
    }
}

/// Building an up-to-date list anew changes nothing that can be read of it: every page of every
/// session is what it was, at the same cursor. That holds whatever part of the stream is left.
pub proof fn rebuilding_changes_no_page(
    s: StoreModel,
    kept: Seq<ChangeRowModel>,
    session: Text,
    limit: u32,
    after: Option<Text>,
    snapshot: Option<u64>,
)
    requires
        well_formed(s),
        whole_list(s),
        up_to_date(s),
        ascending(kept, s.last_cursor),
        forall|i: int| 0 <= i < kept.len() ==> s.changes.contains(#[trigger] kept[i]),
    ensures
        ({
            let (later, res) = summaries_rebuilt(StoreModel { changes: kept, ..s });
            &&& res is Ok
            &&& same_list(s, later, session)
            &&& summary_page(later, session, limit, after, snapshot) == summary_page(
                s,
                session,
                limit,
                after,
                snapshot,
            )
        }),
{
    let pruned = StoreModel { changes: kept, ..s };
    assert(told(pruned)) by {
        assert forall|i: int| 0 <= i < kept.len() implies heard(pruned, #[trigger] kept[i]) by {
            let j = choose|j: int| 0 <= j < s.changes.len() && s.changes[j] == kept[i];
            assert(heard(s, s.changes[j]));
        }
    }
    let later = summaries_rebuilt(pruned).0;
    assert(kept.take(kept.len() as int) =~= kept);
    catching_up_tells(pruned, kept.len() as int);
    rebuilding_keeps(pruned);
    rebuilding_touches_rows(pruned);
    rebuilt_list_is_whole(pruned);
    rebuilding_brings_up_to_date(pruned);
    lists_agree(s, later, session);
    pages_depend_on_their_session(s, later, session, limit, after, snapshot);
}

/// Whether the changes that the list stands at are still in the stream.
pub open spec fn unpruned(s: StoreModel) -> bool {
    &&& forall|x: Text, y: Text|
        (#[trigger] activity_seen(s, x, y)) matches Some(activity) ==> exists|i: int|
            0 <= i < s.changes.len() && (#[trigger] s.changes[i]).session == x
                && s.changes[i].task_id == y && activity_of(s.changes[i]) == activity
    &&& forall|x: Text|
        (#[trigger] watermark_at(s.watermarks, x)) matches Some(k) ==> exists|i: int|
            0 <= i < s.changes.len() && (#[trigger] s.changes[i]).session == x
                && s.changes[i].cursor == s.watermarks[k].cursor
}

/// Whether what the list knows comes from changes in a stream.
spec fn drawn_from(s: StoreModel, changes: Seq<ChangeRowModel>, n: int) -> bool {
    &&& forall|x: Text, y: Text|
        (#[trigger] activity_seen(s, x, y)) matches Some(activity) ==> exists|i: int|
            0 <= i < n && (#[trigger] changes[i]).session == x && changes[i].task_id == y
                && activity_of(changes[i]) == activity
    &&& forall|x: Text|
        (#[trigger] watermark_at(s.watermarks, x)) matches Some(k) ==> exists|i: int|
            0 <= i < n && (#[trigger] changes[i]).session == x && changes[i].cursor
                == s.watermarks[k].cursor
}

/// A list that was empty learns only what is in the stream.
proof fn catching_up_draws(s: StoreModel, n: int)
    requires
        0 <= n <= s.changes.len(),
        s.activity.len() == 0,
        s.watermarks.len() == 0,
    ensures
        drawn_from(caught_up(s, s.changes.take(n)), s.changes, n),
    decreases n,
{
    if n > 0 {
        assert(s.changes.take(n).drop_last() =~= s.changes.take(n - 1));
        catching_up_draws(s, n - 1);
        let before = caught_up(s, s.changes.take(n - 1));
        let later = caught_up(s, s.changes.take(n));
        let change = s.changes[n - 1];
        assert(s.changes.take(n).last() == change);
        assert forall|x: Text, y: Text|
            (#[trigger] activity_seen(later, x, y)) is Some implies exists|i: int|
            0 <= i < n && (#[trigger] s.changes[i]).session == x && s.changes[i].task_id == y
                && activity_of(s.changes[i]) == activity_seen(later, x, y)->0 by {
            activities_stay(
                before.activity,
                change.session,
                change.task_id,
                activity_of(change),
                x,
                y,
            );
            if activity_seen(later, x, y) == activity_seen(before, x, y) {
                let i = choose|i: int|
                    0 <= i < n - 1 && (#[trigger] s.changes[i]).session == x
                        && s.changes[i].task_id == y && activity_of(s.changes[i])
                        == activity_seen(before, x, y)->0;
                assert(s.changes[i].session == x);
            } else {
                assert(s.changes[n - 1].session == x);
            }
        }
        assert forall|x: Text|
            (#[trigger] watermark_at(later.watermarks, x)) is Some implies exists|i: int|
            0 <= i < n && (#[trigger] s.changes[i]).session == x && s.changes[i].cursor
                == later.watermarks[watermark_at(later.watermarks, x)->0].cursor by {
            marks_stay(before.watermarks, change.session, change.cursor, x);
            if x != change.session || later.watermarks == before.watermarks {
                let k = watermark_at(before.watermarks, x)->0;
                let i = choose|i: int|
                    0 <= i < n - 1 && (#[trigger] s.changes[i]).session == x && s.changes[i].cursor
                        == before.watermarks[k].cursor;
                assert(s.changes[i].session == x);
            } else {
                assert(s.changes[n - 1].session == x);
            }
        }
    }
}

/// A task list whose tables were lost is regained from the records and the stream, as long as the
/// changes that it stood at are still in the stream: every page of every session is what it was.
pub proof fn lost_lists_are_regained(
    s: StoreModel,
    session: Text,
    limit: u32,
    after: Option<Text>,
    snapshot: Option<u64>,
)
    requires
        well_formed(s),
        whole_list(s),
        up_to_date(s),
        unpruned(s),
    ensures
        ({
            let bare = StoreModel {
                summaries: Seq::empty(),
                activity: Seq::empty(),
                watermarks: Seq::empty(),
                summaries_ready: false,
                ..s
            };
            let (later, res) = summaries_rebuilt(bare);
            &&& res is Ok
            &&& same_list(s, later, session)
            &&& summary_page(later, session, limit, after, snapshot) == summary_page(
                s,
                session,
                limit,
                after,
                snapshot,
            )
        }),
{
    let bare = StoreModel {
        summaries: Seq::empty(),
        activity: Seq::empty(),
        watermarks: Seq::empty(),
        summaries_ready: false,
        ..s
    };
    let later = summaries_rebuilt(bare).0;
    let n = s.changes.len() as int;
    assert(bare.changes.take(n) =~= bare.changes);
    catching_up_tells(bare, n);
    catching_up_draws(bare, n);
    rebuilding_keeps(bare);
    rebuilding_touches_rows(bare);
    rebuilt_list_is_whole(bare);
    rebuilding_brings_up_to_date(bare);
    let caught = caught_up(bare, bare.changes);
    assert(drawn_from(later, s.changes, n)) by {
        assert forall|x: Text, y: Text| #[trigger] activity_seen(later, x, y) == activity_seen(
            caught,
            x,
            y,
        ) by {}
    }
    assert forall|x: Text, y: Text| #[trigger] activity_seen(s, x, y) == activity_seen(
        later,
        x,
        y,
    ) by {
        activity_in_range(s.activity, x, y);
        activity_in_range(later.activity, x, y);
        if activity_seen(s, x, y) is Some {
            let i = choose|i: int|
                0 <= i < n && (#[trigger] s.changes[i]).session == x && s.changes[i].task_id == y
                    && activity_of(s.changes[i]) == activity_seen(s, x, y)->0;
            assert(heard(later, later.changes[i]));
        }
        if activity_seen(later, x, y) is Some {
            let j = choose|j: int|
                0 <= j < n && (#[trigger] s.changes[j]).session == x && s.changes[j].task_id == y
                    && activity_of(s.changes[j]) == activity_seen(later, x, y)->0;
            assert(heard(s, s.changes[j]));
        }
    }
    assert(watermark_of(s, session) == watermark_of(later, session)) by {
        if let Some(k) = watermark_at(s.watermarks, session) {
            let i = choose|i: int|
                0 <= i < n && (#[trigger] s.changes[i]).session == session && s.changes[i].cursor
                    == s.watermarks[k].cursor;
            assert(heard(later, later.changes[i]));
        }
        if let Some(k) = watermark_at(later.watermarks, session) {
            let j = choose|j: int|
                0 <= j < n && (#[trigger] s.changes[j]).session == session && s.changes[j].cursor
                    == later.watermarks[k].cursor;
            assert(heard(s, s.changes[j]));
        }
    }
    lists_agree(s, later, session);
    pages_depend_on_their_session(s, later, session, limit, after, snapshot);
}

/// A list that could not be built is not shown, and the tasks are listed as before.
pub proof fn failed_lists_are_not_shown(
    s: StoreModel,
    session: Text,
    limit: u32,
    after: Option<Text>,
    snapshot: Option<u64>,
)
    ensures
        ({
            let (later, res) = summaries_rebuilt(s);
            &&& tasks_listed(later, session, after, limit) == tasks_listed(s, session, after, limit)
            &&& res is Err ==> !later.summaries_ready && summary_page(
                later,
                session,
                limit,
                after,
                snapshot,
            ) == refused::<TaskSummaryPageModel>(FailureCode::CapabilityUnavailable)
        }),
{
    rebuilding_keeps(s);
}

/// A row of a labelled list is the one that is found under its task.
pub proof fn labelled_rows_are_found(rows: Seq<SummaryRowModel>, i: int)
    requires
        labelled(rows),
        0 <= i < rows.len(),
    ensures
        summary_at(rows, rows[i].session, rows[i].task_id) == Some(i),
{
    summary_in_range(rows, rows[i].session, rows[i].task_id);
    row_is_found(rows, i);
    let j = summary_at(rows, rows[i].session, rows[i].task_id)->0;
    if j < i {
        assert(rows[j].session != rows[i].session || rows[j].task_id != rows[i].task_id);
    } else if i < j {
        assert(rows[i].session != rows[j].session || rows[i].task_id != rows[j].task_id);
    }
}

} // verus!
