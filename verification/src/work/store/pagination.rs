//! Bounded views of long histories, in the order of identifiers.
use vstd::prelude::*;
use crate::digest::is_uuid;
use crate::digest::uuid_text;
use crate::json::ToJson;
use crate::text::byte_len;
use crate::text::bytes_in;
use crate::text::order_is_strict;
use crate::text::order_is_total;
use crate::text::order_is_transitive;
use crate::text::precedes;
use crate::text::text_before;
use crate::text::text_eq;
use crate::value::Replica;
use crate::value::Text;
use crate::value::add_row;
use crate::value::no_items;
use crate::value::shown;
use crate::work::model::Attempt;
use crate::work::model::AttemptModel;
use crate::work::model::FailureCode;
use crate::work::model::Operation;
use crate::work::model::OperationModel;
use crate::work::model::ResultSubmission;
use crate::work::model::ResultSubmissionModel;
use crate::work::model::Review;
use crate::work::model::ReviewModel;
use crate::work::model::Task;
use crate::work::model::TaskDetail;
use crate::work::model::TaskDetailModel;
use crate::work::model::TaskModel;
use crate::work::model::WorkError;
use crate::work::model::WorkResult;
use crate::work::store::changes::max_cursor;
use crate::work::store::history::tidy;
use crate::work::store::records::loaded;
use crate::work::store::records::position;
use crate::work::store::records::refuse;
use crate::work::store::records::refused;
use crate::work::store::rules::revision;
use crate::work::store::tables::Record;
use crate::work::store::tables::RecordModel;
use crate::work::store::tables::StoreModel;
use crate::work::store::tables::Stored;
use crate::work::store::tables::WorkStore;

verus! {

/// How many bytes of records a page may hold.
pub const PAGE_BYTES: usize = 2_097_152;

/// How many records a page may hold.
pub const PAGE_LIMIT: u32 = 20;

/// A record that is shown in pages.
pub trait Paged: Stored + ToJson {
    /// The identifier of a record.
    spec fn id_of(v: Self::V) -> Text;

    /// A record as a page shows it.
    spec fn shown_as(v: Self::V) -> RecordValueModel;

    fn id(&self) -> (res: &str)
        ensures
            res@ == Self::id_of(self.deep_view()),
    ;

    fn into_value(self) -> (res: RecordValue)
        ensures
            res.deep_view() == Self::shown_as(self.deep_view()),
    ;
}

/// Where a page stands in its listing.
#[derive(Debug, PartialEq, Eq)]
pub struct Page {
    pub snapshot_revision: u64,
    pub after_id: Option<String>,
    pub next_after_id: Option<String>,
    pub has_more: bool,
}

/// The value of a `Page`.
#[verifier::ext_equal]
pub struct PageModel {
    pub snapshot_revision: u64,
    pub after_id: Option<Text>,
    pub next_after_id: Option<Text>,
    pub has_more: bool,
}

impl DeepView for Page {
    type V = PageModel;

    open spec fn deep_view(&self) -> PageModel {
        PageModel {
            snapshot_revision: self.snapshot_revision,
            after_id: self.after_id.deep_view(),
            next_after_id: self.next_after_id.deep_view(),
            has_more: self.has_more,
        }
    }
}

impl Replica for Page {
    fn replica(&self) -> (res: Self) {
        Page {
            snapshot_revision: self.snapshot_revision,
            after_id: self.after_id.replica(),
            next_after_id: self.next_after_id.replica(),
            has_more: self.has_more,
        }
    }
}

impl Clone for Page {
    fn clone(&self) -> (res: Self)
        ensures
            res.deep_view() == self.deep_view(),
    {
        self.replica()
    }
}

/// A record of one of the kinds that are shown in pages.
#[derive(Debug, PartialEq, Eq)]
pub enum RecordValue {
    Attempt(Attempt),
    Operation(Operation),
    Result(ResultSubmission),
    Review(Review),
}

/// The value of a `RecordValue`.
#[verifier::ext_equal]
pub enum RecordValueModel {
    Attempt(AttemptModel),
    Operation(OperationModel),
    Result(ResultSubmissionModel),
    Review(ReviewModel),
}

impl DeepView for RecordValue {
    type V = RecordValueModel;

    open spec fn deep_view(&self) -> RecordValueModel {
        match self {
            RecordValue::Attempt(v) => RecordValueModel::Attempt(v.deep_view()),
            RecordValue::Operation(v) => RecordValueModel::Operation(v.deep_view()),
            RecordValue::Result(v) => RecordValueModel::Result(v.deep_view()),
            RecordValue::Review(v) => RecordValueModel::Review(v.deep_view()),
        }
    }
}

impl Replica for RecordValue {
    fn replica(&self) -> (res: Self) {
        match self {
            RecordValue::Attempt(v) => RecordValue::Attempt(v.replica()),
            RecordValue::Operation(v) => RecordValue::Operation(v.replica()),
            RecordValue::Result(v) => RecordValue::Result(v.replica()),
            RecordValue::Review(v) => RecordValue::Review(v.replica()),
        }
    }
}

impl Clone for RecordValue {
    fn clone(&self) -> (res: Self)
        ensures
            res.deep_view() == self.deep_view(),
    {
        self.replica()
    }
}

impl Paged for Attempt {
    open spec fn id_of(v: AttemptModel) -> Text {
        v.id
    }

    open spec fn shown_as(v: AttemptModel) -> RecordValueModel {
        RecordValueModel::Attempt(v)
    }

    fn id(&self) -> (res: &str) {
        self.id.as_str()
    }

    fn into_value(self) -> (res: RecordValue) {
        RecordValue::Attempt(self)
    }
}

impl Paged for Operation {
    open spec fn id_of(v: OperationModel) -> Text {
        v.id
    }

    open spec fn shown_as(v: OperationModel) -> RecordValueModel {
        RecordValueModel::Operation(v)
    }

    fn id(&self) -> (res: &str) {
        self.id.as_str()
    }

    fn into_value(self) -> (res: RecordValue) {
        RecordValue::Operation(self)
    }
}

impl Paged for ResultSubmission {
    open spec fn id_of(v: ResultSubmissionModel) -> Text {
        v.id
    }

    open spec fn shown_as(v: ResultSubmissionModel) -> RecordValueModel {
        RecordValueModel::Result(v)
    }

    fn id(&self) -> (res: &str) {
        self.id.as_str()
    }

    fn into_value(self) -> (res: RecordValue) {
        RecordValue::Result(self)
    }
}

impl Paged for Review {
    open spec fn id_of(v: ReviewModel) -> Text {
        v.id
    }

    open spec fn shown_as(v: ReviewModel) -> RecordValueModel {
        RecordValueModel::Review(v)
    }

    fn id(&self) -> (res: &str) {
        self.id.as_str()
    }

    fn into_value(self) -> (res: RecordValue) {
        RecordValue::Review(self)
    }
}

/// A record as it is shown: as it was written, where it would now be written otherwise.
#[derive(Debug, PartialEq, Eq)]
pub struct ShownRecord {
    pub value: RecordValue,
    pub wire: Option<String>,
}

/// The value of a `ShownRecord`.
#[verifier::ext_equal]
pub struct ShownRecordModel {
    pub value: RecordValueModel,
    pub wire: Option<Text>,
}

impl DeepView for ShownRecord {
    type V = ShownRecordModel;

    open spec fn deep_view(&self) -> ShownRecordModel {
        ShownRecordModel { value: self.value.deep_view(), wire: self.wire.deep_view() }
    }
}

impl Replica for ShownRecord {
    fn replica(&self) -> (res: Self) {
        ShownRecord { value: self.value.replica(), wire: self.wire.replica() }
    }
}

impl Clone for ShownRecord {
    fn clone(&self) -> (res: Self)
        ensures
            res.deep_view() == self.deep_view(),
    {
        self.replica()
    }
}

/// A page of records of one kind.
#[derive(Debug, PartialEq, Eq)]
pub struct RecordPage {
    pub items: Vec<ShownRecord>,
    pub page: Page,
}

/// The value of a `RecordPage`.
#[verifier::ext_equal]
pub struct RecordPageModel {
    pub items: Seq<ShownRecordModel>,
    pub page: PageModel,
}

impl DeepView for RecordPage {
    type V = RecordPageModel;

    open spec fn deep_view(&self) -> RecordPageModel {
        RecordPageModel {
            items: self.items.deep_view(),
            page: self.page.deep_view(),
        }
    }
}

impl Replica for RecordPage {
    fn replica(&self) -> (res: Self) {
        RecordPage {
            items: self.items.replica(),
            page: self.page.replica(),
        }
    }
}

impl Clone for RecordPage {
    fn clone(&self) -> (res: Self)
        ensures
            res.deep_view() == self.deep_view(),
    {
        self.replica()
    }
}

/// Where the first page of each kind stands.
#[derive(Debug, PartialEq, Eq)]
pub struct DetailPages {
    pub attempts: Page,
    pub operations: Page,
    pub results: Page,
    pub reviews: Page,
}

/// The value of a `DetailPages`.
#[verifier::ext_equal]
pub struct DetailPagesModel {
    pub attempts: PageModel,
    pub operations: PageModel,
    pub results: PageModel,
    pub reviews: PageModel,
}

impl DeepView for DetailPages {
    type V = DetailPagesModel;

    open spec fn deep_view(&self) -> DetailPagesModel {
        DetailPagesModel {
            attempts: self.attempts.deep_view(),
            operations: self.operations.deep_view(),
            results: self.results.deep_view(),
            reviews: self.reviews.deep_view(),
        }
    }
}

impl Replica for DetailPages {
    fn replica(&self) -> (res: Self) {
        DetailPages {
            attempts: self.attempts.replica(),
            operations: self.operations.replica(),
            results: self.results.replica(),
            reviews: self.reviews.replica(),
        }
    }
}

impl Clone for DetailPages {
    fn clone(&self) -> (res: Self)
        ensures
            res.deep_view() == self.deep_view(),
    {
        self.replica()
    }
}

/// A task with the first page of each kind of record.
#[derive(Debug, PartialEq, Eq)]
pub struct PagedDetail {
    pub detail: TaskDetail,
    pub pages: DetailPages,
}

/// The value of a `PagedDetail`.
#[verifier::ext_equal]
pub struct PagedDetailModel {
    pub detail: TaskDetailModel,
    pub pages: DetailPagesModel,
}

impl DeepView for PagedDetail {
    type V = PagedDetailModel;

    open spec fn deep_view(&self) -> PagedDetailModel {
        PagedDetailModel {
            detail: self.detail.deep_view(),
            pages: self.pages.deep_view(),
        }
    }
}

impl Replica for PagedDetail {
    fn replica(&self) -> (res: Self) {
        PagedDetail {
            detail: self.detail.replica(),
            pages: self.pages.replica(),
        }
    }
}

impl Clone for PagedDetail {
    fn clone(&self) -> (res: Self)
        ensures
            res.deep_view() == self.deep_view(),
    {
        self.replica()
    }
}
/// Whether a record belongs to a listing and comes after an identifier.
pub open spec fn follows<T: Stored>(
    record: RecordModel,
    session: Text,
    task: Option<Text>,
    after: Text,
) -> bool {
    &&& record.session == session
    &&& T::of(record.body) is Some
    &&& task matches Some(id) ==> record.task_id == id
    &&& precedes(after, record.id)
}

/// Where the first record of a listing after an identifier stands.
pub open spec fn first_after<T: Stored>(
    records: Seq<RecordModel>,
    session: Text,
    task: Option<Text>,
    after: Text,
) -> Option<int>
    decreases records.len(),
{
    if records.len() == 0 {
        None
    } else {
        let at = records.len() - 1;
        match first_after::<T>(records.drop_last(), session, task, after) {
            None => if follows::<T>(records[at], session, task, after) {
                Some(at)
            } else {
                None
            },
            Some(best) => if follows::<T>(records[at], session, task, after) && precedes(
                records[at].id,
                records[best].id,
            ) {
                Some(at)
            } else {
                Some(best)
            },
        }
    }
}

/// The records of a listing after an identifier, in the order of identifiers, up to a limit.
pub open spec fn ordered<T: Stored>(
    records: Seq<RecordModel>,
    session: Text,
    task: Option<Text>,
    after: Text,
    limit: nat,
) -> Seq<RecordModel>
    decreases limit,
{
    if limit == 0 {
        Seq::empty()
    } else {
        match first_after::<T>(records, session, task, after) {
            None => Seq::empty(),
            Some(i) => Seq::empty().push(records[i]) + ordered::<T>(
                records,
                session,
                task,
                records[i].id,
                (limit - 1) as nat,
            ),
        }
    }
}

/// The values that records of one kind hold.
pub open spec fn values<T: Stored>(records: Seq<RecordModel>) -> Seq<T::V> {
    records.map_values(|record: RecordModel| T::of(record.body)->0)
}

/// How many bytes a record takes in a page, with the comma after it. What was written decides.
pub open spec fn wire_size<T: Paged>(record: RecordModel) -> nat {
    byte_len(
        match record.wire {
            Some(text) => text,
            None => T::json(T::of(record.body)->0),
        },
    ) + 1
}

/// The records of a page, and whether more follow: as many as the limit and the bytes allow, and
/// at least one where there is one.
pub open spec fn filled<T: Paged>(
    rows: Seq<RecordModel>,
    limit: nat,
    taken: Seq<RecordModel>,
    bytes: nat,
) -> WorkResult<(Seq<RecordModel>, bool)>
    decreases rows.len(),
{
    if rows.len() == 0 {
        Ok((taken, false))
    } else {
        let size = wire_size::<T>(rows[0]);
        if taken.len() == limit || bytes + size > PAGE_BYTES {
            if taken.len() == 0 {
                refused(FailureCode::ResourceLimit)
            } else {
                Ok((taken, true))
            }
        } else {
            filled::<T>(rows.drop_first(), limit, taken.push(rows[0]), bytes + size)
        }
    }
}

/// A page of the records of one kind under a task, with where it stands.
pub open spec fn page_of<T: Paged>(
    s: StoreModel,
    session: Text,
    task: TaskModel,
    after: Option<Text>,
    limit: u32,
) -> WorkResult<(Seq<RecordModel>, PageModel)> {
    if !(1 <= limit <= PAGE_LIMIT) || (after matches Some(id) && !is_uuid(id)) {
        refused(FailureCode::InvalidInput)
    } else {
        let rows = ordered::<T>(
            s.records,
            session,
            Some(task.id),
            after_or_start(after),
            limit as nat + 1,
        );
        match filled::<T>(rows, limit as nat, Seq::empty(), 2) {
            Err(error) => Err(error),
            Ok((items, has_more)) => Ok(
                (
                    items,
                    PageModel {
                        snapshot_revision: task.revision,
                        after_id: after,
                        next_after_id: if has_more {
                            Some(T::id_of(T::of(items.last().body)->0))
                        } else {
                            None
                        },
                        has_more,
                    },
                ),
            ),
        }
    }
}

/// A record as a page shows it.
pub open spec fn shown_record<T: Paged>(record: RecordModel) -> ShownRecordModel {
    ShownRecordModel { value: T::shown_as(T::of(record.body)->0), wire: record.wire }
}

/// The identifier after which a listing starts: before every other where none is given.
pub open spec fn after_or_start(after: Option<Text>) -> Text {
    match after {
        Some(id) => id,
        None => ""@,
    }
}

/// The tasks of a session after an identifier, in the order of identifiers.
pub open spec fn tasks_listed(s: StoreModel, session: Text, after: Option<Text>, limit: u32) -> WorkResult<
    Seq<TaskModel>,
> {
    if limit == 0 || limit > 100 {
        refused(FailureCode::InvalidInput)
    } else {
        Ok(
            values::<Task>(
                ordered::<Task>(s.records, session, None, after_or_start(after), limit as nat),
            ),
        )
    }
}

/// A task with the first page of each kind of record.
pub open spec fn paged_detail_of(s: StoreModel, session: Text, task_id: Text) -> WorkResult<
    PagedDetailModel,
> {
    match loaded::<Task>(s, session, task_id) {
        Err(error) => Err(error),
        Ok(task) => match page_of::<Attempt>(s, session, task, None, PAGE_LIMIT) {
            Err(error) => Err(error),
            Ok((attempts, attempts_page)) => match page_of::<Operation>(
                s,
                session,
                task,
                None,
                PAGE_LIMIT,
            ) {
                Err(error) => Err(error),
                Ok((operations, operations_page)) => match page_of::<ResultSubmission>(
                    s,
                    session,
                    task,
                    None,
                    PAGE_LIMIT,
                ) {
                    Err(error) => Err(error),
                    Ok((results, results_page)) => match page_of::<Review>(
                        s,
                        session,
                        task,
                        None,
                        PAGE_LIMIT,
                    ) {
                        Err(error) => Err(error),
                        Ok((reviews, reviews_page)) => Ok(
                            PagedDetailModel {
                                detail: TaskDetailModel {
                                    task,
                                    attempts: values::<Attempt>(attempts),
                                    operations: values::<Operation>(operations),
                                    results: values::<ResultSubmission>(results),
                                    reviews: values::<Review>(reviews),
                                    cursor: max_cursor(s.changes),
                                },
                                pages: DetailPagesModel {
                                    attempts: attempts_page,
                                    operations: operations_page,
                                    results: results_page,
                                    reviews: reviews_page,
                                },
                            },
                        ),
                    },
                },
            },
        },
    }
}

/// A page of records of one kind, as it is shown.
pub open spec fn record_page<T: Paged>(
    s: StoreModel,
    session: Text,
    task: TaskModel,
    after: Option<Text>,
    limit: u32,
) -> WorkResult<RecordPageModel> {
    match page_of::<T>(s, session, task, after, limit) {
        Err(error) => Err(error),
        Ok((items, page)) => Ok(
            RecordPageModel {
                items: items.map_values(|record: RecordModel| shown_record::<T>(record)),
                page,
            },
        ),
    }
}

/// A page of the records of a kind under a task, while the task stands at the revision that the
/// reader began with.
pub open spec fn records_paged(
    s: StoreModel,
    session: Text,
    task_id: Text,
    kind: Text,
    snapshot_revision: u64,
    after: Option<Text>,
    limit: u32,
) -> WorkResult<RecordPageModel> {
    match loaded::<Task>(s, session, task_id) {
        Err(error) => Err(error),
        Ok(task) => if task.revision != snapshot_revision {
            refused(FailureCode::RevisionConflict)
        } else if kind == "attempt"@ {
            record_page::<Attempt>(s, session, task, after, limit)
        } else if kind == "operation"@ {
            record_page::<Operation>(s, session, task, after, limit)
        } else if kind == "result"@ {
            record_page::<ResultSubmission>(s, session, task, after, limit)
        } else if kind == "review"@ {
            record_page::<Review>(s, session, task, after, limit)
        } else {
            refused(FailureCode::InvalidInput)
        },
    }
}

/// The text that a record was written as, where it would now be written otherwise.
pub open spec fn wire_of(s: StoreModel, id: Text) -> Option<Text> {
    match position(s.records, id) {
        Some(i) => s.records[i].wire,
        None => None,
    }
}

/// A result or a review, which never changes once it is recorded.
pub open spec fn immutable_record_of(
    s: StoreModel,
    session: Text,
    task_id: Text,
    kind: Text,
    record_id: Text,
) -> WorkResult<ShownRecordModel> {
    let wire = wire_of(s, record_id);
    if kind == "result"@ {
        match loaded::<ResultSubmission>(s, session, record_id) {
            Err(error) => Err(error),
            Ok(result) => if result.task_id != task_id {
                refused(FailureCode::ScopeMismatch)
            } else {
                Ok(ShownRecordModel { value: RecordValueModel::Result(result), wire })
            },
        }
    } else if kind == "review"@ {
        match loaded::<Review>(s, session, record_id) {
            Err(error) => Err(error),
            Ok(review) => if review.task_id != task_id {
                refused(FailureCode::ScopeMismatch)
            } else {
                Ok(ShownRecordModel { value: RecordValueModel::Review(review), wire })
            },
        }
    } else {
        refused(FailureCode::InvalidInput)
    }
}

/// The first record found after an identifier belongs to the listing and comes after it.
pub proof fn first_after_follows<T: Stored>(
    records: Seq<RecordModel>,
    session: Text,
    task: Option<Text>,
    after: Text,
)
    ensures
        first_after::<T>(records, session, task, after) matches Some(i) ==> 0 <= i < records.len()
            && follows::<T>(records[i], session, task, after),
    decreases records.len(),
{
    if records.len() > 0 {
        first_after_follows::<T>(records.drop_last(), session, task, after);
    }
}

/// Whether each of some records is of one kind.
pub open spec fn all_of<T: Stored>(rows: Seq<RecordModel>) -> bool {
    forall|i: int| 0 <= i < rows.len() ==> T::of((#[trigger] rows[i]).body) is Some
}

/// How many bytes a record takes, without the comma after it.
fn written_size<T: Paged>(record: &Record) -> (res: usize)
    requires
        T::of(record.deep_view().body) is Some,
    ensures
        res + 1 == wire_size::<T>(record.deep_view()),
{
    match &record.wire {
        Some(text) => bytes_in(text.as_str()),
        None => match T::of_body(&record.body) {
            Some(value) => bytes_in(value.to_json().as_str()),
            None => 0,
        },
    }
}

/// Makes a page from records in order.
fn fill<T: Paged>(rows: Vec<Record>, limit: u32) -> (res: WorkResult<(Vec<Record>, bool)>)
    requires
        all_of::<T>(rows.deep_view()),
    ensures
        shown(res) == filled::<T>(rows.deep_view(), limit as nat, Seq::empty(), 2),
{
    let ghost all = rows.deep_view();
    let mut taken: Vec<Record> = no_items();
    let mut bytes: usize = 2;
    let mut i: usize = 0;
    assert(all.skip(0) =~= all);
    while i < rows.len()
        invariant
            i <= rows.len(),
            bytes <= PAGE_BYTES,
            all == rows.deep_view(),
            all_of::<T>(all),
            filled::<T>(all, limit as nat, Seq::empty(), 2) == filled::<T>(
                all.skip(i as int),
                limit as nat,
                taken.deep_view(),
                bytes as nat,
            ),
        decreases rows.len() - i,
    {
        assert(all.skip(i as int).drop_first() =~= all.skip(i + 1));
        assert(all.skip(i as int)[0] == rows[i as int].deep_view());
        assert(all[i as int] == rows[i as int].deep_view());
        let length: usize = written_size::<T>(&rows[i]);
        if taken.len() == limit as usize || length >= PAGE_BYTES || bytes + length + 1
            > PAGE_BYTES {
            if taken.len() == 0 {
                return refuse(FailureCode::ResourceLimit);
            }
            return Ok((taken, true));
        }
        bytes = bytes + length + 1;
        add_row(&mut taken, rows[i].replica());
        i += 1;
    }
    assert(all.skip(i as int) =~= Seq::<RecordModel>::empty());
    Ok((taken, false))
}

/// The values that records of one kind hold.
fn values_of<T: Stored>(rows: Vec<Record>) -> (res: Vec<T>)
    requires
        all_of::<T>(rows.deep_view()),
    ensures
        res.deep_view() == values::<T>(rows.deep_view()),
{
    let ghost all = values::<T>(rows.deep_view());
    let mut res: Vec<T> = no_items();
    let mut i: usize = 0;
    assert(all.take(0) =~= Seq::<T::V>::empty());
    while i < rows.len()
        invariant
            i <= rows.len(),
            all_of::<T>(rows.deep_view()),
            all == values::<T>(rows.deep_view()),
            res.deep_view() == all.take(i as int),
        decreases rows.len() - i,
    {
        assert(all.take(i + 1) =~= all.take(i as int).push(all[i as int]));
        assert(rows.deep_view()[i as int] == rows[i as int].deep_view());
        match T::of_body(&rows[i].body) {
            Some(value) => {
                add_row(&mut res, value.replica());
            },
            None => {},
        }
        i += 1;
    }
    assert(all.take(i as int) =~= all);
    res
}

/// Records as a page shows them.
fn into_values<T: Paged>(rows: Vec<Record>) -> (res: Vec<ShownRecord>)
    requires
        all_of::<T>(rows.deep_view()),
    ensures
        res.deep_view() == rows.deep_view().map_values(
            |record: RecordModel| shown_record::<T>(record),
        ),
{
    let ghost all = rows.deep_view().map_values(|record: RecordModel| shown_record::<T>(record));
    let mut res: Vec<ShownRecord> = no_items();
    let mut i: usize = 0;
    assert(all.take(0) =~= Seq::<ShownRecordModel>::empty());
    while i < rows.len()
        invariant
            i <= rows.len(),
            all_of::<T>(rows.deep_view()),
            all == rows.deep_view().map_values(|record: RecordModel| shown_record::<T>(record)),
            res.deep_view() == all.take(i as int),
        decreases rows.len() - i,
    {
        assert(all.take(i + 1) =~= all.take(i as int).push(all[i as int]));
        assert(rows.deep_view()[i as int] == rows[i as int].deep_view());
        let record = &rows[i];
        match T::of_body(&record.body) {
            Some(value) => {
                let value = value.replica().into_value();
                add_row(&mut res, ShownRecord { value, wire: record.wire.replica() });
            },
            None => {},
        }
        i += 1;
    }
    assert(all.take(i as int) =~= all);
    res
}

fn own_id(after: Option<&str>) -> (res: Option<String>)
    ensures
        res.deep_view() == after.deep_view(),
{
    match after {
        Some(id) => Some(id.to_string()),
        None => None,
    }
}

impl WorkStore {
    fn in_listing<T: Stored>(&self, at: usize, session: &str, task: Option<&str>, after: &str) -> (
    res: bool)
        requires
            at < self.records.len(),
        ensures
            res == follows::<T>(
                self@.records[at as int],
                session@,
                task.deep_view(),
                after@,
            ),
    {
        let record = &self.records[at];
        let of_task = match task {
            Some(id) => text_eq(record.task_id.as_str(), id),
            None => true,
        };
        of_task && text_eq(record.session.as_str(), session) && T::of_body(&record.body).is_some()
            && text_before(after, record.id.as_str())
    }

    fn find_after<T: Stored>(&self, session: &str, task: Option<&str>, after: &str) -> (res: Option<
        usize,
    >)
        ensures
            match res {
                Some(i) => i < self.records.len() && first_after::<T>(
                    self@.records,
                    session@,
                    task.deep_view(),
                    after@,
                ) == Some(i as int),
                None => first_after::<T>(
                    self@.records,
                    session@,
                    task.deep_view(),
                    after@,
                ) is None,
            },
    {
        let ghost all = self@.records;
        let mut best: Option<usize> = None;
        let mut i: usize = 0;
        while i < self.records.len()
            invariant
                i <= self.records.len(),
                all == self@.records,
                match best {
                    Some(b) => b < i && first_after::<T>(
                        all.take(i as int),
                        session@,
                        task.deep_view(),
                        after@,
                    ) == Some(b as int),
                    None => first_after::<T>(
                        all.take(i as int),
                        session@,
                        task.deep_view(),
                        after@,
                    ) is None,
                },
            decreases self.records.len() - i,
        {
            assert(all.take(i + 1).drop_last() =~= all.take(i as int));
            assert(all.take(i + 1)[i as int] == all[i as int]);
            if self.in_listing::<T>(i, session, task, after) {
                match best {
                    Some(b) => {
                        assert(all.take(i + 1)[b as int] == all[b as int]);
                        if text_before(self.records[i].id.as_str(), self.records[b].id.as_str()) {
                            best = Some(i);
                        }
                    },
                    None => {
                        best = Some(i);
                    },
                }
            }
            i += 1;
        }
        assert(all.take(i as int) =~= all);
        best
    }

    /// The records of a listing after an identifier, in the order of identifiers.
    pub(crate) fn select<T: Stored>(
        &self,
        session: &str,
        task: Option<&str>,
        after: &str,
        limit: usize,
    ) -> (res: Vec<Record>)
        ensures
            res.deep_view() == ordered::<T>(
                self@.records,
                session@,
                task.deep_view(),
                after@,
                limit as nat,
            ),
            all_of::<T>(res.deep_view()),
    {
        let ghost all = ordered::<T>(
            self@.records,
            session@,
            task.deep_view(),
            after@,
            limit as nat,
        );
        let ghost mut seen: Seq<RecordModel> = Seq::empty();
        let mut res: Vec<Record> = no_items();
        let mut last = after.to_string();
        let mut left: usize = limit;
        assert(all =~= seen + ordered::<T>(
            self@.records,
            session@,
            task.deep_view(),
            last@,
            left as nat,
        ));
        while left > 0
            invariant_except_break
                all == seen + ordered::<T>(
                    self@.records,
                    session@,
                    task.deep_view(),
                    last@,
                    left as nat,
                ),
                res.deep_view() == seen,
                all_of::<T>(seen),
            ensures
                all == seen,
                res.deep_view() == seen,
                all_of::<T>(seen),
            decreases left,
        {
            match self.find_after::<T>(session, task, last.as_str()) {
                None => {
                    assert(all =~= seen);
                    break;
                },
                Some(i) => {
                    proof {
                        first_after_follows::<T>(
                            self@.records,
                            session@,
                            task.deep_view(),
                            last@,
                        );
                    }
                    let record = &self.records[i];
                    add_row(&mut res, record.replica());
                    last = record.id.clone();
                    left -= 1;
                    proof {
                        let rest = ordered::<T>(
                            self@.records,
                            session@,
                            task.deep_view(),
                            last@,
                            left as nat,
                        );
                        let found = self@.records[i as int];
                        assert(seen + (Seq::empty().push(found) + rest) =~= seen.push(found)
                            + rest);
                        seen = seen.push(found);
                        if left == 0 {
                            assert(all =~= seen);
                        }
                    }
                },
            }
        }
        res
    }

    /// A page of the records of one kind under a task.
    fn read_page<T: Paged>(&self, session: &str, task: &Task, after: Option<&str>, limit: u32) -> (
    res: WorkResult<(Vec<Record>, Page)>)
        ensures
            shown(res) == page_of::<T>(
                self@,
                session@,
                task.deep_view(),
                after.deep_view(),
                limit,
            ),
            res matches Ok((items, _)) ==> all_of::<T>(items.deep_view()),
    {
        let known = match after {
            Some(id) => uuid_text(id),
            None => true,
        };
        if limit < 1 || limit > PAGE_LIMIT || !known {
            return refuse(FailureCode::InvalidInput);
        }
        let start = match after {
            Some(id) => id,
            None => "",
        };
        let rows = self.select::<T>(session, Some(task.id.as_str()), start, limit as usize + 1);
        let ghost all = rows.deep_view();
        let (items, has_more) = fill::<T>(rows, limit)?;
        proof {
            more_means_some::<T>(all, limit as nat, Seq::empty(), 2);
            page_is_a_beginning::<T>(all, limit as nat, Seq::empty(), 2);
            assert forall|i: int| 0 <= i < items.deep_view().len() implies T::of(
                (#[trigger] items.deep_view()[i]).body,
            ) is Some by {
                assert(items.deep_view()[i] == all[i]);
            }
        }
        let next_after_id = if has_more && items.len() > 0 {
            let last = &items[items.len() - 1];
            assert(items.deep_view().last() == last.deep_view());
            match T::of_body(&last.body) {
                Some(value) => Some(value.id().to_string()),
                None => None,
            }
        } else {
            None
        };
        Ok(
            (
                items,
                Page {
                    snapshot_revision: task.revision,
                    after_id: own_id(after),
                    next_after_id,
                    has_more,
                },
            ),
        )
    }

    fn read_record_page<T: Paged>(
        &self,
        session: &str,
        task: &Task,
        after: Option<&str>,
        limit: u32,
    ) -> (res: WorkResult<RecordPage>)
        ensures
            shown(res) == record_page::<T>(
                self@,
                session@,
                task.deep_view(),
                after.deep_view(),
                limit,
            ),
    {
        let (items, page) = self.read_page::<T>(session, task, after, limit)?;
        Ok(RecordPage { items: into_values::<T>(items), page })
    }

    /// Lists the tasks of a session.
    pub fn list_tasks(&self, session: &str, after_id: Option<&str>, limit: u32) -> (res: WorkResult<
        Vec<Task>,
    >)
        ensures
            shown(res) == tasks_listed(self@, session@, after_id.deep_view(), limit),
    {
        if limit == 0 || limit > 100 {
            return refuse(FailureCode::InvalidInput);
        }
        let start = match after_id {
            Some(id) => id,
            None => "",
        };
        Ok(values_of::<Task>(self.select::<Task>(session, None, start, limit as usize)))
    }

    /// Reads a task with the first page of each kind of record.
    pub fn paged_detail(&self, session: &str, task_id: &str) -> (res: WorkResult<PagedDetail>)
        ensures
            shown(res) == paged_detail_of(self@, session@, task_id@),
    {
        let task = self.load::<Task>(session, task_id)?;
        let (attempts, attempts_page) = self.read_page::<Attempt>(
            session,
            &task,
            None,
            PAGE_LIMIT,
        )?;
        let (operations, operations_page) = self.read_page::<Operation>(
            session,
            &task,
            None,
            PAGE_LIMIT,
        )?;
        let (results, results_page) = self.read_page::<ResultSubmission>(
            session,
            &task,
            None,
            PAGE_LIMIT,
        )?;
        let (reviews, reviews_page) = self.read_page::<Review>(session, &task, None, PAGE_LIMIT)?;
        Ok(
            PagedDetail {
                detail: TaskDetail {
                    task,
                    attempts: values_of::<Attempt>(attempts),
                    operations: values_of::<Operation>(operations),
                    results: values_of::<ResultSubmission>(results),
                    reviews: values_of::<Review>(reviews),
                    cursor: self.cursor(),
                },
                pages: DetailPages {
                    attempts: attempts_page,
                    operations: operations_page,
                    results: results_page,
                    reviews: reviews_page,
                },
            },
        )
    }

    /// Reads a page of the records of a kind under a task.
    pub fn task_records(
        &self,
        session: &str,
        task_id: &str,
        kind: &str,
        snapshot_revision: u64,
        after_id: Option<&str>,
        limit: u32,
    ) -> (res: WorkResult<RecordPage>)
        ensures
            shown(res) == records_paged(
                self@,
                session@,
                task_id@,
                kind@,
                snapshot_revision,
                after_id.deep_view(),
                limit,
            ),
    {
        let task = self.load::<Task>(session, task_id)?;
        revision(&task, snapshot_revision)?;
        if text_eq(kind, "attempt") {
            self.read_record_page::<Attempt>(session, &task, after_id, limit)
        } else if text_eq(kind, "operation") {
            self.read_record_page::<Operation>(session, &task, after_id, limit)
        } else if text_eq(kind, "result") {
            self.read_record_page::<ResultSubmission>(session, &task, after_id, limit)
        } else if text_eq(kind, "review") {
            self.read_record_page::<Review>(session, &task, after_id, limit)
        } else {
            refuse(FailureCode::InvalidInput)
        }
    }

    /// Reads a result or a review.
    pub fn immutable_record(&self, session: &str, task_id: &str, kind: &str, record_id: &str) -> (
    res: WorkResult<ShownRecord>)
        ensures
            shown(res) == immutable_record_of(self@, session@, task_id@, kind@, record_id@),
    {
        let wire = match self.find(record_id) {
            Some(i) => self.records[i].wire.replica(),
            None => None,
        };
        if text_eq(kind, "result") {
            let result = self.load::<ResultSubmission>(session, record_id)?;
            if !text_eq(result.task_id.as_str(), task_id) {
                return refuse(FailureCode::ScopeMismatch);
            }
            return Ok(ShownRecord { value: RecordValue::Result(result), wire });
        }
        if text_eq(kind, "review") {
            let review = self.load::<Review>(session, record_id)?;
            if !text_eq(review.task_id.as_str(), task_id) {
                return refuse(FailureCode::ScopeMismatch);
            }
            return Ok(ShownRecord { value: RecordValue::Review(review), wire });
        }
        refuse(FailureCode::InvalidInput)
    }
}

/// A page that says that more follows is not empty.
pub proof fn more_means_some<T: Paged>(
    rows: Seq<RecordModel>,
    limit: nat,
    taken: Seq<RecordModel>,
    bytes: nat,
)
    ensures
        filled::<T>(rows, limit, taken, bytes) matches Ok((items, more)) ==> (more ==> items.len()
            > 0),
    decreases rows.len(),
{
    if rows.len() > 0 {
        more_means_some::<T>(
            rows.drop_first(),
            limit,
            taken.push(rows[0]),
            bytes + wire_size::<T>(rows[0]),
        );
    }
}

/// The first record found after an identifier comes before every other that belongs to the
/// listing.
proof fn first_after_is_least<T: Stored>(
    records: Seq<RecordModel>,
    session: Text,
    task: Option<Text>,
    after: Text,
    j: int,
)
    requires
        0 <= j < records.len(),
        follows::<T>(records[j], session, task, after),
    ensures
        first_after::<T>(records, session, task, after) matches Some(i) && !precedes(
            records[j].id,
            records[i].id,
        ),
    decreases records.len(),
{
    let rest = records.drop_last();
    let at = records.len() - 1;
    first_after_follows::<T>(rest, session, task, after);
    if j < at {
        assert(rest[j] == records[j]);
        first_after_is_least::<T>(rest, session, task, after, j);
        let best = first_after::<T>(rest, session, task, after)->0;
        assert(rest[best] == records[best]);
        if precedes(records[at].id, records[best].id) && precedes(records[j].id, records[at].id) {
            order_is_transitive(records[j].id, records[at].id, records[best].id);
        }
    } else {
        order_is_strict(records[at].id);
    }
}

/// A listing is in the order of identifiers, after the one that it starts after, and holds records
/// that belong to it.
pub proof fn listing_is_ordered<T: Stored>(
    records: Seq<RecordModel>,
    session: Text,
    task: Option<Text>,
    after: Text,
    limit: nat,
)
    ensures
        ({
            let rows = ordered::<T>(records, session, task, after, limit);
            &&& rows.len() <= limit
            &&& forall|k: int|
                0 <= k < rows.len() ==> records.contains(#[trigger] rows[k]) && follows::<T>(
                    rows[k],
                    session,
                    task,
                    after,
                )
            &&& forall|i: int, j: int|
                0 <= i < j < rows.len() ==> precedes(
                    (#[trigger] rows[i]).id,
                    (#[trigger] rows[j]).id,
                )
        }),
    decreases limit,
{
    if limit > 0 {
        first_after_follows::<T>(records, session, task, after);
        match first_after::<T>(records, session, task, after) {
            None => {},
            Some(first) => {
                let start = records[first].id;
                listing_is_ordered::<T>(records, session, task, start, (limit - 1) as nat);
                let rest = ordered::<T>(records, session, task, start, (limit - 1) as nat);
                let rows = ordered::<T>(records, session, task, after, limit);
                assert forall|k: int| 0 <= k < rows.len() implies records.contains(
                    #[trigger] rows[k],
                ) && follows::<T>(rows[k], session, task, after) by {
                    if k > 0 {
                        assert(rows[k] == rest[k - 1]);
                        order_is_transitive(after, start, rows[k].id);
                    }
                }
                assert forall|i: int, j: int| 0 <= i < j < rows.len() implies precedes(
                    (#[trigger] rows[i]).id,
                    (#[trigger] rows[j]).id,
                ) by {
                    assert(rows[j] == rest[j - 1]);
                    if i > 0 {
                        assert(rows[i] == rest[i - 1]);
                    }
                }
            },
        }
    }
}

/// A listing leaves nothing out: a record that belongs to it is in it, or comes after all of it
/// where the limit is reached.
pub proof fn listing_is_complete<T: Stored>(
    records: Seq<RecordModel>,
    session: Text,
    task: Option<Text>,
    after: Text,
    limit: nat,
    j: int,
)
    requires
        tidy(records),
        limit > 0,
        0 <= j < records.len(),
        follows::<T>(records[j], session, task, after),
    ensures
        ({
            let rows = ordered::<T>(records, session, task, after, limit);
            rows.contains(records[j]) || (rows.len() == limit && precedes(
                rows.last().id,
                records[j].id,
            ))
        }),
    decreases limit,
{
    first_after_follows::<T>(records, session, task, after);
    first_after_is_least::<T>(records, session, task, after, j);
    let first = first_after::<T>(records, session, task, after)->0;
    let start = records[first].id;
    let rest = ordered::<T>(records, session, task, start, (limit - 1) as nat);
    let rows = ordered::<T>(records, session, task, after, limit);
    assert(rows[0] == records[first]);
    if j != first {
        if j < first {
            assert(records[j].id != records[first].id);
        } else {
            assert(records[first].id != records[j].id);
        }
        order_is_total(start, records[j].id);
        if limit > 1 {
            listing_is_complete::<T>(records, session, task, start, (limit - 1) as nat, j);
            if rest.contains(records[j]) {
                let k = choose|k: int| 0 <= k < rest.len() && rest[k] == records[j];
                assert(rows[k + 1] == records[j]);
            } else {
                assert(rows.last() == rest.last());
            }
        }
    }
}

/// Listings go on where they stopped: a longer one is a shorter one with what comes after its last
/// record.
pub proof fn listings_continue<T: Stored>(
    records: Seq<RecordModel>,
    session: Text,
    task: Option<Text>,
    after: Text,
    limit: nat,
    more: nat,
)
    requires
        limit > 0,
        ordered::<T>(records, session, task, after, limit).len() == limit,
    ensures
        ordered::<T>(records, session, task, after, limit + more) == ordered::<T>(
            records,
            session,
            task,
            after,
            limit,
        ) + ordered::<T>(
            records,
            session,
            task,
            ordered::<T>(records, session, task, after, limit).last().id,
            more,
        ),
    decreases limit,
{
    let first = first_after::<T>(records, session, task, after)->0;
    let start = records[first].id;
    let rest = ordered::<T>(records, session, task, start, (limit - 1) as nat);
    let rows = ordered::<T>(records, session, task, after, limit);
    assert((limit + more - 1) as nat == (limit - 1) as nat + more);
    if limit > 1 {
        listings_continue::<T>(records, session, task, start, (limit - 1) as nat, more);
        assert(rows.last() == rest.last());
    } else {
        assert(rest =~= Seq::empty());
    }
    assert(ordered::<T>(records, session, task, after, limit + more) =~= rows + ordered::<T>(
        records,
        session,
        task,
        rows.last().id,
        more,
    ));
}

/// The items of a page are the first of those that it was filled from, and all of them where no
/// more follow.
pub proof fn page_is_a_beginning<T: Paged>(
    rows: Seq<RecordModel>,
    limit: nat,
    taken: Seq<RecordModel>,
    bytes: nat,
)
    ensures
        filled::<T>(rows, limit, taken, bytes) matches Ok((items, more)) ==> {
            &&& taken.len() <= items.len() <= taken.len() + rows.len()
            &&& items == taken + rows.take(items.len() - taken.len())
            &&& !more ==> items == taken + rows
        },
    decreases rows.len(),
{
    if rows.len() == 0 {
        assert(taken =~= taken + rows.take(0));
        assert(taken =~= taken + rows);
    } else if filled::<T>(rows, limit, taken, bytes) is Ok {
        let size = wire_size::<T>(rows[0]);
        if taken.len() == limit || bytes + size > PAGE_BYTES {
            assert(taken =~= taken + rows.take(0));
        } else {
            let longer = taken.push(rows[0]);
            page_is_a_beginning::<T>(rows.drop_first(), limit, longer, bytes + size);
            let items = filled::<T>(rows, limit, taken, bytes)->Ok_0.0;
            let n = items.len() - longer.len();
            assert(longer + rows.drop_first().take(n) =~= taken + rows.take(n + 1));
            assert(longer + rows.drop_first() =~= taken + rows);
        }
    }
}

/// How many bytes some records take together in a page.
pub open spec fn taken_bytes<T: Paged>(rows: Seq<RecordModel>) -> nat
    decreases rows.len(),
{
    if rows.len() == 0 {
        2
    } else {
        taken_bytes::<T>(rows.drop_last()) + wire_size::<T>(rows.last())
    }
}

/// All records of one kind under a task after an identifier, in the order of identifiers.
pub open spec fn all_after<T: Stored>(
    s: StoreModel,
    session: Text,
    task: Text,
    after: Text,
) -> Seq<RecordModel> {
    ordered::<T>(s.records, session, Some(task), after, s.records.len())
}

/// How many records of a listing come after an identifier.
pub open spec fn count_after<T: Stored>(
    records: Seq<RecordModel>,
    session: Text,
    task: Option<Text>,
    after: Text,
) -> nat
    decreases records.len(),
{
    if records.len() == 0 {
        0
    } else if follows::<T>(records.last(), session, task, after) {
        count_after::<T>(records.drop_last(), session, task, after) + 1
    } else {
        count_after::<T>(records.drop_last(), session, task, after)
    }
}

/// Fewer records come after a later identifier, where the record that bears it no longer does.
proof fn fewer_after<T: Stored>(
    records: Seq<RecordModel>,
    session: Text,
    task: Option<Text>,
    after: Text,
    next: Text,
)
    requires
        precedes(after, next),
    ensures
        count_after::<T>(records, session, task, next) <= count_after::<T>(
            records,
            session,
            task,
            after,
        ),
        (exists|j: int|
            0 <= j < records.len() && follows::<T>(#[trigger] records[j], session, task, after)
                && records[j].id == next) ==> count_after::<T>(records, session, task, next)
            < count_after::<T>(records, session, task, after),
    decreases records.len(),
{
    if records.len() > 0 {
        let rest = records.drop_last();
        let last = records.last();
        fewer_after::<T>(rest, session, task, after, next);
        if precedes(next, last.id) {
            order_is_transitive(after, next, last.id);
        }
        order_is_strict(next);
        if exists|j: int|
            0 <= j < records.len() && follows::<T>(#[trigger] records[j], session, task, after)
                && records[j].id == next {
            let j = choose|j: int|
                0 <= j < records.len() && follows::<T>(#[trigger] records[j], session, task, after)
                    && records[j].id == next;
            if j < records.len() - 1 {
                assert(follows::<T>(rest[j], session, task, after) && rest[j].id == next);
            }
        }
    }
}

/// No more records are counted than there are.
proof fn counted_within<T: Stored>(
    records: Seq<RecordModel>,
    session: Text,
    task: Option<Text>,
    after: Text,
)
    ensures
        count_after::<T>(records, session, task, after) <= records.len(),
    decreases records.len(),
{
    if records.len() > 0 {
        counted_within::<T>(records.drop_last(), session, task, after);
    }
}

/// A listing that may hold as many records as belong to it holds them all: a higher limit changes
/// nothing.
proof fn enough_is_enough<T: Stored>(
    records: Seq<RecordModel>,
    session: Text,
    task: Option<Text>,
    after: Text,
    limit: nat,
    more: nat,
)
    requires
        count_after::<T>(records, session, task, after) <= limit <= more,
    ensures
        ordered::<T>(records, session, task, after, limit) == ordered::<T>(
            records,
            session,
            task,
            after,
            more,
        ),
    decreases limit,
{
    first_after_follows::<T>(records, session, task, after);
    match first_after::<T>(records, session, task, after) {
        None => {},
        Some(first) => {
            let next = records[first].id;
            assert(follows::<T>(records[first], session, task, after));
            fewer_after::<T>(records, session, task, after, next);
            enough_is_enough::<T>(
                records,
                session,
                task,
                next,
                (limit - 1) as nat,
                (more - 1) as nat,
            );
        },
    }
}

/// A shorter listing is the beginning of a longer one.
proof fn shorter_is_a_beginning<T: Stored>(
    records: Seq<RecordModel>,
    session: Text,
    task: Option<Text>,
    after: Text,
    limit: nat,
    more: nat,
)
    requires
        limit <= more,
    ensures
        ({
            let few = ordered::<T>(records, session, task, after, limit);
            let many = ordered::<T>(records, session, task, after, more);
            few.len() <= many.len() && few == many.take(few.len() as int) && (few.len() < limit
                ==> few == many)
        }),
    decreases limit,
{
    let few = ordered::<T>(records, session, task, after, limit);
    let many = ordered::<T>(records, session, task, after, more);
    if limit > 0 {
        if let Some(first) = first_after::<T>(records, session, task, after) {
            shorter_is_a_beginning::<T>(
                records,
                session,
                task,
                records[first].id,
                (limit - 1) as nat,
                (more - 1) as nat,
            );
        }
    }
    assert(few =~= many.take(few.len() as int));
    if few.len() < limit {
        assert(few =~= many);
    }
}

/// What fills a page is the longest beginning that the limit and the bytes allow, and nothing is
/// refused but a first record that is too large by itself.
proof fn filling_is_longest<T: Paged>(
    rows: Seq<RecordModel>,
    limit: nat,
    taken: Seq<RecordModel>,
    bytes: nat,
)
    requires
        limit > 0,
        taken.len() <= limit,
        bytes == taken_bytes::<T>(taken),
        bytes <= PAGE_BYTES,
    ensures
        match filled::<T>(rows, limit, taken, bytes) {
            Ok((items, more)) => {
                let n = items.len() - taken.len();
                &&& taken.len() <= items.len() <= limit
                &&& n <= rows.len() && items == taken + rows.take(n)
                &&& taken_bytes::<T>(items) <= PAGE_BYTES
                &&& more <==> n < rows.len()
                &&& more ==> items.len() > 0 && (items.len() == limit || taken_bytes::<T>(items)
                    + wire_size::<T>(rows[n]) > PAGE_BYTES)
            },
            Err(error) => error == WorkError(FailureCode::ResourceLimit) && taken.len() == 0
                && rows.len() > 0 && 2 + wire_size::<T>(rows[0]) > PAGE_BYTES,
        },
    decreases rows.len(),
{
    if rows.len() == 0 {
        assert(taken =~= taken + rows.take(0));
    } else {
        let size = wire_size::<T>(rows[0]);
        if taken.len() == limit || bytes + size > PAGE_BYTES {
            assert(taken =~= taken + rows.take(0));
        } else {
            let longer = taken.push(rows[0]);
            assert(longer.drop_last() =~= taken);
            filling_is_longest::<T>(rows.drop_first(), limit, longer, bytes + size);
            if let Ok((items, more)) = filled::<T>(rows, limit, taken, bytes) {
                let n = items.len() - longer.len();
                assert(longer + rows.drop_first().take(n) =~= taken + rows.take(n + 1));
            }
        }
    }
}

/// A page of records is the longest beginning of what comes after an identifier that holds no more
/// than the limit and no more bytes than a page may. It says that more follow exactly where they do,
/// and then names its last record. Only a first record that is too large by itself is refused.
pub proof fn pages_are_the_longest<T: Paged>(
    s: StoreModel,
    session: Text,
    task: TaskModel,
    after: Option<Text>,
    limit: u32,
)
    requires
        1 <= limit <= PAGE_LIMIT,
        after matches Some(id) ==> is_uuid(id),
    ensures
        ({
            let all = all_after::<T>(s, session, task.id, after_or_start(after));
            match page_of::<T>(s, session, task, after, limit) {
                Ok((items, page)) => {
                    let n = items.len() as int;
                    &&& n <= limit && n <= all.len() && items == all.take(n)
                    &&& taken_bytes::<T>(items) <= PAGE_BYTES
                    &&& n == limit || n == all.len() || taken_bytes::<T>(items) + wire_size::<T>(
                        all[n],
                    ) > PAGE_BYTES
                    &&& page.has_more <==> n < all.len()
                    &&& page.has_more ==> n > 0 && page.next_after_id == Some(
                        T::id_of(T::of(items.last().body)->0),
                    )
                    &&& !page.has_more ==> page.next_after_id is None
                    &&& page.after_id == after && page.snapshot_revision == task.revision
                },
                Err(error) => error == WorkError(FailureCode::ResourceLimit) && all.len() > 0 && 2
                    + wire_size::<T>(all[0]) > PAGE_BYTES,
            }
        }),
{
    let start = after_or_start(after);
    let scope = Some(task.id);
    let many = limit as nat + 1;
    let rows = ordered::<T>(s.records, session, scope, start, many);
    let all = all_after::<T>(s, session, task.id, start);
    counted_within::<T>(s.records, session, scope, start);
    let most = if many <= s.records.len() {
        s.records.len()
    } else {
        many
    };
    enough_is_enough::<T>(s.records, session, scope, start, s.records.len(), most);
    shorter_is_a_beginning::<T>(s.records, session, scope, start, many, most);
    filling_is_longest::<T>(rows, limit as nat, Seq::empty(), 2);
    if let Ok((items, more)) = filled::<T>(rows, limit as nat, Seq::empty(), 2) {
        let n = items.len() as int;
        assert(items =~= rows.take(n));
        assert(items =~= all.take(n));
    }
}

/// What the pages after an identifier show together, when each is asked for with what the one before
/// said, within so many turns.
pub open spec fn all_record_pages<T: Paged>(
    s: StoreModel,
    session: Text,
    task: TaskModel,
    after: Option<Text>,
    limit: u32,
    turns: nat,
) -> WorkResult<Seq<RecordModel>>
    decreases turns,
{
    match page_of::<T>(s, session, task, after, limit) {
        Err(error) => Err(error),
        Ok((items, page)) => match page.next_after_id {
            None => Ok(items),
            Some(next) => if turns == 0 {
                refused(FailureCode::ResourceLimit)
            } else {
                match all_record_pages::<T>(
                    s,
                    session,
                    task,
                    Some(next),
                    limit,
                    (turns - 1) as nat,
                ) {
                    Err(error) => Err(error),
                    Ok(rest) => Ok(items + rest),
                }
            },
        },
    }
}

/// Pages of records together show each record of a kind under a task exactly once, in the order of
/// identifiers.
pub proof fn pages_show_every_record<T: Paged>(
    s: StoreModel,
    session: Text,
    task: TaskModel,
    after: Option<Text>,
    limit: u32,
    turns: nat,
)
    requires
        forall|i: int|
            0 <= i < s.records.len() ==> (T::of((#[trigger] s.records[i]).body) matches Some(value)
                ==> T::id_of(value) == s.records[i].id),
    ensures
        all_record_pages::<T>(s, session, task, after, limit, turns) matches Ok(all) ==> all
            == all_after::<T>(s, session, task.id, after_or_start(after)),
    decreases turns,
{
    if all_record_pages::<T>(s, session, task, after, limit, turns) is Ok {
        let start = after_or_start(after);
        let scope = Some(task.id);
        let all = all_after::<T>(s, session, task.id, start);
        let (items, page) = page_of::<T>(s, session, task, after, limit)->Ok_0;
        let n = items.len() as int;
        pages_are_the_longest::<T>(s, session, task, after, limit);
        match page.next_after_id {
            None => {
                assert(items =~= all);
            },
            Some(next) => {
                pages_show_every_record::<T>(
                    s,
                    session,
                    task,
                    Some(next),
                    limit,
                    (turns - 1) as nat,
                );
                listing_is_ordered::<T>(s.records, session, scope, start, s.records.len());
                let last = items.last();
                assert(last == all[n - 1]);
                assert(s.records.contains(last));
                assert(next == last.id);
                counted_within::<T>(s.records, session, scope, start);
                counted_within::<T>(s.records, session, scope, next);
                let total = s.records.len();
                enough_is_enough::<T>(s.records, session, scope, start, total, total + items.len());
                shorter_is_a_beginning::<T>(
                    s.records,
                    session,
                    scope,
                    start,
                    items.len(),
                    total + items.len(),
                );
                let few = ordered::<T>(s.records, session, scope, start, items.len());
                assert(few =~= items) by {
                    if few.len() < items.len() {
                        assert(few == all);
                    } else {
                        listing_is_ordered::<T>(
                            s.records,
                            session,
                            scope,
                            start,
                            items.len(),
                        );
                        assert(few =~= all.take(n));
                    }
                }
                listings_continue::<T>(s.records, session, scope, start, items.len(), total);
                assert(total + items.len() == items.len() + total);
            },
        }
    }
}

} // verus!
