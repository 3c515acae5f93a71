//! What readers are shown: pages of records, single records, lists of tasks and receipts.
use vstd::prelude::*;
use crate::digest::is_uuid;
use crate::text::is_bounded;
use crate::text::precedes;
use crate::value::Text;
use crate::work::model::Attempt;
use crate::work::model::DelegationFenceModel;
use crate::work::model::FailureCode;
use crate::work::model::Operation;
use crate::work::model::OperationKind;
use crate::work::model::OperationModel;
use crate::work::model::OperationState;
use crate::work::model::ReceiptValueModel;
use crate::work::model::ReconciliationReceipt;
use crate::work::model::RequestReceiptModel;
use crate::work::model::ResultSubmission;
use crate::work::model::Review;
use crate::work::model::Task;
use crate::work::model::TaskModel;
use crate::work::model::WorkError;
use crate::work::store::admissions::fences_in_force_coordinate;
use crate::work::store::admissions::in_force;
use crate::work::store::authority::governs;
use crate::work::store::authority::governs_id;
use crate::work::store::facts::about;
use crate::work::store::freshness::tasks_stand;
use crate::work::store::history::filed_as_said;
use crate::work::store::history::well_formed;
use crate::work::store::opening::FileIdentity;
use crate::work::store::opening::undisturbed;
use crate::work::store::pagination::Paged;
use crate::work::store::pagination::RecordValueModel;
use crate::work::store::pagination::ShownRecordModel;
use crate::work::store::pagination::after_or_start;
use crate::work::store::pagination::all_after;
use crate::work::store::pagination::follows;
use crate::work::store::pagination::immutable_record_of;
use crate::work::store::pagination::listing_is_complete;
use crate::work::store::pagination::listing_is_ordered;
use crate::work::store::pagination::ordered;
use crate::work::store::pagination::page_of;
use crate::work::store::pagination::paged_detail_of;
use crate::work::store::pagination::pages_are_the_longest;
use crate::work::store::pagination::record_page;
use crate::work::store::pagination::records_paged;
use crate::work::store::pagination::tasks_listed;
use crate::work::store::pagination::values;
use crate::work::store::readings::details_are_whole;
use crate::work::store::readings::kinds_are_told_apart;
use crate::work::store::readings::reads_give_what_is_recorded;
use crate::work::store::readings::recorded_as;
use crate::work::store::receipts::delegated_receipt_of;
use crate::work::store::receipts::receipt_of;
use crate::work::store::records::listed;
use crate::work::store::records::loaded;
use crate::work::store::records::position;
use crate::work::store::records::position_in_range;
use crate::work::store::recovery::opened;
use crate::work::store::reopening::lost_count;
use crate::work::store::reopening::opening_is_exact;
use crate::work::store::reopening::reopened;
use crate::work::store::requests::receipt_in_range;
use crate::work::store::tables::BodyModel;
use crate::work::store::tables::DelegatedOrigin;
use crate::work::store::tables::DependencyOrigin;
use crate::work::store::tables::ReceiptBodyModel;
use crate::work::store::tables::RequestKind;
use crate::work::store::tables::StoreModel;
use crate::work::store::tables::Stored;

verus! {

/// Whether something shown is a record of a task, as it was written: of the kind of `T`, in the
/// session, under the task.
pub open spec fn shows_record<T: Paged>(
    s: StoreModel,
    session: Text,
    task_id: Text,
    item: ShownRecordModel,
) -> bool {
    exists|i: int|
        0 <= i < s.records.len() && (#[trigger] s.records[i]).session == session
            && s.records[i].task_id == task_id && (T::of(s.records[i].body) matches Some(value)
            && item.value == T::shown_as(value)) && item.wire == s.records[i].wire
}

/// A page of one kind shows records of that kind, in the order of identifiers: those that come
/// after the one that was named.
proof fn pages_show_records<T: Paged>(
    s: StoreModel,
    session: Text,
    task: TaskModel,
    after: Option<Text>,
    limit: u32,
)
    ensures
        record_page::<T>(s, session, task, after, limit) matches Ok(shown) ==> {
            &&& 1 <= limit <= 20
            &&& shown.items.len() <= limit
            &&& forall|k: int|
                0 <= k < shown.items.len() ==> shows_record::<T>(
                    s,
                    session,
                    task.id,
                    #[trigger] shown.items[k],
                )
            &&& shown.page.snapshot_revision == task.revision
            &&& shown.page.after_id == after
            &&& shown.page.has_more <==> shown.page.next_after_id is Some
        },
        record_page::<T>(s, session, task, after, limit) matches Err(error) ==> {
            ||| error.0 == FailureCode::InvalidInput && (limit == 0 || limit > 20 || (after
                matches Some(id) && !is_uuid(id)))
            ||| error.0 == FailureCode::ResourceLimit
        },
{
    if 1 <= limit <= 20 && (after matches Some(id) ==> is_uuid(id)) {
        pages_are_the_longest::<T>(s, session, task, after, limit);
        let all = all_after::<T>(s, session, task.id, after_or_start(after));
        listing_is_ordered::<T>(
            s.records,
            session,
            Some(task.id),
            after_or_start(after),
            s.records.len(),
        );
        if let Ok((items, page)) = page_of::<T>(s, session, task, after, limit) {
            let shown = record_page::<T>(s, session, task, after, limit)->Ok_0;
            assert forall|k: int| 0 <= k < shown.items.len() implies shows_record::<T>(
                s,
                session,
                task.id,
                #[trigger] shown.items[k],
            ) by {
                assert(items[k] == all[k]);
                assert(s.records.contains(all[k]) && follows::<T>(
                    all[k],
                    session,
                    Some(task.id),
                    after_or_start(after),
                ));
                let i = choose|i: int| 0 <= i < s.records.len() && s.records[i] == all[k];
                assert(s.records[i] == all[k]);
            }
        }
    }
}

/// A page of records shows the kind that was asked for, in a state of the task that the reader
/// knows: with another revision it is a conflict, and another kind, a page of none or of more than
/// 20, or a broken identifier is invalid.
pub proof fn pages_show_their_kind(
    s: StoreModel,
    session: Text,
    task_id: Text,
    kind: Text,
    revision: u64,
    after: Option<Text>,
    limit: u32,
)
    requires
        well_formed(s),
    ensures
        records_paged(s, session, task_id, kind, revision, after, limit) matches Ok(shown) ==> {
            &&& loaded::<Task>(s, session, task_id) matches Ok(task) && task.revision == revision
            &&& shown.items.len() <= limit && limit <= 20
            &&& shown.page.snapshot_revision == revision && shown.page.after_id == after
            &&& forall|k: int|
                0 <= k < shown.items.len() ==> {
                    let item = #[trigger] shown.items[k];
                    ||| kind == "attempt"@ && item.value is Attempt && shows_record::<Attempt>(
                        s,
                        session,
                        task_id,
                        item,
                    )
                    ||| kind == "operation"@ && item.value is Operation && shows_record::<Operation>(
                        s,
                        session,
                        task_id,
                        item,
                    )
                    ||| kind == "result"@ && item.value is Result && shows_record::<ResultSubmission>(
                        s,
                        session,
                        task_id,
                        item,
                    )
                    ||| kind == "review"@ && item.value is Review && shows_record::<Review>(
                        s,
                        session,
                        task_id,
                        item,
                    )
                }
        },
        records_paged(s, session, task_id, kind, revision, after, limit) matches Err(error) ==> {
            ||| error.0 == FailureCode::NotFound && loaded::<Task>(s, session, task_id) is Err
            ||| error.0 == FailureCode::RevisionConflict && (loaded::<Task>(s, session, task_id) matches Ok(
                task,
            ) && task.revision != revision)
            ||| error.0 == FailureCode::InvalidInput && ((kind != "attempt"@ && kind != "operation"@
                && kind != "result"@ && kind != "review"@) || limit == 0 || limit > 20 || (after
                matches Some(id) && !is_uuid(id)))
            ||| error.0 == FailureCode::ResourceLimit
        },
{
    reads_give_what_is_recorded(s, session, task_id);
    tasks_stand(s, session, task_id);
    if let Ok(task) = loaded::<Task>(s, session, task_id) {
        pages_show_records::<Attempt>(s, session, task, after, limit);
        pages_show_records::<Operation>(s, session, task, after, limit);
        pages_show_records::<ResultSubmission>(s, session, task, after, limit);
        pages_show_records::<Review>(s, session, task, after, limit);
    }
}

/// A record that never changes is shown exactly where it is a result or a review that is recorded
/// under the task: as it was written.
pub proof fn fixed_records_are_shown_exactly(
    s: StoreModel,
    session: Text,
    task_id: Text,
    kind: Text,
    record_id: Text,
)
    requires
        well_formed(s),
    ensures
        ({
            let res = immutable_record_of(s, session, task_id, kind, record_id);
            let result = loaded::<ResultSubmission>(s, session, record_id);
            let review = loaded::<Review>(s, session, record_id);
            &&& kind == "result"@ ==> match result {
                Ok(found) => if found.task_id == task_id {
                    res matches Ok(shown) && shown.value == RecordValueModel::Result(found)
                        && shows_record::<ResultSubmission>(s, session, task_id, shown)
                } else {
                    res matches Err(error) && error.0 == FailureCode::ScopeMismatch
                },
                Err(_) => res matches Err(error) && error.0 == FailureCode::NotFound,
            }
            &&& kind == "review"@ ==> match review {
                Ok(found) => if found.task_id == task_id {
                    res matches Ok(shown) && shown.value == RecordValueModel::Review(found)
                        && shows_record::<Review>(s, session, task_id, shown)
                } else {
                    res matches Err(error) && error.0 == FailureCode::ScopeMismatch
                },
                Err(_) => res matches Err(error) && error.0 == FailureCode::NotFound,
            }
            &&& kind != "result"@ && kind != "review"@ ==> (res matches Err(error) && error.0
                == FailureCode::InvalidInput)
        }),
{
    reveal_strlit("result");
    reveal_strlit("review");
    assert("result"@[2] != "review"@[2]);
    reads_give_what_is_recorded(s, session, record_id);
    position_in_range(s.records, record_id);
    if let Some(i) = position(s.records, record_id) {
        assert(filed_as_said(s.records[i]));
    }
}

/// A list of tasks shows tasks of its session as they are recorded, in the order of identifiers,
/// after the one that was named, and leaves none out before its end. Between 1 and 100 may be
/// asked for.
pub proof fn task_lists_show_tasks(
    s: StoreModel,
    session: Text,
    after: Option<Text>,
    limit: u32,
    j: int,
)
    requires
        well_formed(s),
    ensures
        tasks_listed(s, session, after, limit) matches Err(error) ==> error.0
            == FailureCode::InvalidInput && (limit == 0 || limit > 100),
        tasks_listed(s, session, after, limit) matches Ok(tasks) ==> {
            let start = if after is Some {
                after->0
            } else {
                Seq::empty()
            };
            &&& 1 <= limit <= 100 && tasks.len() <= limit
            &&& forall|k: int|
                0 <= k < tasks.len() ==> recorded_as(
                    s,
                    session,
                    (#[trigger] tasks[k]).id,
                    BodyModel::Task(tasks[k]),
                ) && precedes(start, tasks[k].id)
            &&& forall|i: int, k: int|
                0 <= i < k < tasks.len() ==> precedes(
                    (#[trigger] tasks[i]).id,
                    (#[trigger] tasks[k]).id,
                )
            &&& 0 <= j < s.records.len() && s.records[j].session == session && precedes(
                start,
                s.records[j].id,
            ) ==> (s.records[j].body matches BodyModel::Task(task) ==> tasks.contains(task) || (
            tasks.len() == limit && precedes(tasks.last().id, task.id)))
        },
{
    if 1 <= limit <= 100 {
        let start = after_or_start(after);
        reveal_strlit("");
        assert(""@ =~= Seq::<char>::empty());
        let rows = ordered::<Task>(s.records, session, None, start, limit as nat);
        let tasks = tasks_listed(s, session, after, limit)->Ok_0;
        listing_is_ordered::<Task>(s.records, session, None, start, limit as nat);
        assert forall|k: int| 0 <= k < rows.len() implies (#[trigger] tasks[k]).id == rows[k].id
            && recorded_as(s, session, tasks[k].id, BodyModel::Task(tasks[k])) && precedes(
            start,
            tasks[k].id,
        ) by {
            assert(s.records.contains(rows[k]) && follows::<Task>(rows[k], session, None, start));
            let i = choose|i: int| 0 <= i < s.records.len() && s.records[i] == rows[k];
            assert(filed_as_said(s.records[i]));
            kinds_are_told_apart(s.records[i].body);
        }
        assert forall|i: int, k: int| 0 <= i < k < tasks.len() implies precedes(
            (#[trigger] tasks[i]).id,
            (#[trigger] tasks[k]).id,
        ) by {
            assert(precedes(rows[i].id, rows[k].id));
        }
        if 0 <= j < s.records.len() && s.records[j].session == session && s.records[j].body is Task
            && precedes(start, s.records[j].id) {
            assert(filed_as_said(s.records[j]));
            assert(follows::<Task>(s.records[j], session, None, start));
            listing_is_complete::<Task>(s.records, session, None, start, limit as nat, j);
            let task = s.records[j].body->Task_0;
            if rows.contains(s.records[j]) {
                let k = choose|k: int| 0 <= k < rows.len() && rows[k] == s.records[j];
                assert(tasks[k] == task);
            } else {
                assert(tasks[tasks.len() - 1].id == rows[rows.len() - 1].id);
            }
        }
    }
}

/// A receipt is shown exactly where a request with the actor, the session, the kind and the key
/// was answered. A start, a prompt or an interrupt is shown as it stands now, a reconciliation as
/// what it found or as what is pending, and everything else as it was answered.
pub proof fn receipts_show_what_stands(
    s: StoreModel,
    actor: Text,
    session: Text,
    kind: OperationKind,
    key: Text,
)
    ensures
        ({
            let res = receipt_of(s, actor, session, kind, key);
            let native = kind == OperationKind::StartAttempt || kind == OperationKind::DeliverPrompt
                || kind == OperationKind::InterruptAttempt;
            let known = exists|i: int|
                0 <= i < s.receipts.len() && (#[trigger] s.receipts[i]).actor == actor
                    && s.receipts[i].session == session && s.receipts[i].kind
                    == RequestKind::Work(kind) && s.receipts[i].request_key == key;
            &&& res matches Ok(receipt) ==> receipt.kind == kind && exists|i: int|
                0 <= i < s.receipts.len() && (#[trigger] s.receipts[i]).actor == actor
                    && s.receipts[i].session == session && s.receipts[i].kind
                    == RequestKind::Work(kind) && s.receipts[i].request_key == key && {
                    let body = s.receipts[i].body;
                    &&& native ==> (body matches ReceiptBodyModel::Operation(first) && loaded::<
                        Operation,
                    >(s, session, first.id) matches Ok(op) && receipt.value
                        == ReceiptValueModel::Operation(op)) && receipt.wire is None
                    &&& kind == OperationKind::ReconcileAttempt ==> (body matches
                        ReceiptBodyModel::Operation(first) && match about::<ReconciliationReceipt>(
                        s.records,
                        session,
                        first.id,
                    ) {
                        Some(found) => receipt.value == ReceiptValueModel::Reconciliation(found),
                        None => loaded::<Operation>(s, session, first.id) matches Ok(op)
                            && receipt.value == ReceiptValueModel::ReconciliationPending(op),
                    }) && receipt.wire is None
                    &&& !native && kind != OperationKind::ReconcileAttempt ==> receipt.wire
                        == s.receipts[i].wire && match body {
                        ReceiptBodyModel::Task(v) => receipt.value == ReceiptValueModel::Task(v),
                        ReceiptBodyModel::Operation(v) => receipt.value
                            == ReceiptValueModel::Operation(v),
                        ReceiptBodyModel::Result(v) => receipt.value == ReceiptValueModel::Result(v),
                        ReceiptBodyModel::Review(v) => receipt.value == ReceiptValueModel::Review(v),
                        ReceiptBodyModel::Input(_) => false,
                    }
                }
            &&& is_bounded(actor, 256) && is_bounded(session, 256) && is_bounded(key, 128) && !known
                ==> (res matches Err(error) && error.0 == FailureCode::NotFound)
            &&& !(is_bounded(actor, 256) && is_bounded(session, 256) && is_bounded(key, 128)) ==> (
            res matches Err(error) && error.0 == FailureCode::InvalidInput)
        }),
{
    receipt_in_range(s.receipts, actor, session, RequestKind::Work(kind), key);
}

/// A coordinator is shown the receipts that it earned: of a child that it created, prerequisites
/// that it set, and starts and prompts that it asked for, each under its own fence, while the
/// fence is in force and the child its own.
pub proof fn coordinators_see_what_they_earned(
    s: StoreModel,
    actor: Text,
    session: Text,
    fence: DelegationFenceModel,
    kind: OperationKind,
    key: Text,
)
    requires
        well_formed(s),
    ensures
        delegated_receipt_of(s, actor, session, fence, kind, key) matches Ok(receipt) ==> {
            &&& receipt_of(s, actor, session, kind, key) == Ok::<RequestReceiptModel, WorkError>(
                receipt,
            )
            &&& in_force(s, session, fence)
            &&& match receipt.value {
                ReceiptValueModel::Operation(op) => (kind == OperationKind::StartAttempt || kind
                    == OperationKind::DeliverPrompt) && governs_id(s, session, fence, op.task_id)
                    is Ok && op.delegation_fence == Some(fence),
                ReceiptValueModel::Task(task) => governs(s, session, fence, task) is Ok && ({
                    let notes = listed::<DelegatedOrigin>(s.records, session, task.id);
                    let sets = listed::<DependencyOrigin>(s.records, session, task.id);
                    ||| kind == OperationKind::CreateTask && exists|i: int|
                        0 <= i < notes.len() && (#[trigger] notes[i]).actor_id == actor
                            && notes[i].fence == fence
                    ||| kind == OperationKind::SetDependencies && exists|i: int|
                        0 <= i < sets.len() && (#[trigger] sets[i]).actor_id == actor
                            && sets[i].request_key == key && sets[i].fence == fence
                }),
                _ => false,
            }
        },
        in_force(s, session, fence) && kind != OperationKind::CreateTask && kind
            != OperationKind::StartAttempt && kind != OperationKind::DeliverPrompt && kind
            != OperationKind::SetDependencies ==> (delegated_receipt_of(
            s,
            actor,
            session,
            fence,
            kind,
            key,
        ) matches Err(error) && error.0 == FailureCode::ScopeMismatch),
{
    fences_in_force_coordinate(s, session, fence);
}

/// Once a store was opened, an operation that was going out is unconfirmed, because nobody knows
/// whether it had its effect, and is otherwise as it was; every other operation is as it was.
pub proof fn lost_operations_are_unconfirmed(s: StoreModel, i: int)
    requires
        well_formed(s),
        0 <= i < s.records.len(),
    ensures
        opened(s) matches Ok(later) ==> (s.records[i].body matches BodyModel::Operation(op) ==> (
        later.records[i].body matches BodyModel::Operation(now) && now == if op.state
            == OperationState::Submitting {
            OperationModel {
                state: OperationState::Unconfirmed,
                failure_code: Some(FailureCode::DeliveryUnconfirmed),
                ..op
            }
        } else {
            op
        })),
{
    opening_is_exact(s);
    if let Ok(later) = opened(s) {
        assert(later.records[i] == reopened(
            s.records[i],
            true,
            lost_count(s.records, s.records[i].session, s.records[i].id),
        ));
    }
}

/// A store is undisturbed exactly where its directory and its file are still the user's own, are
/// the same as before, and nobody else has access: the directory with mode 0700, the file with
/// mode 0600 and under one name.
pub proof fn undisturbed_stores_are_private(
    parent: FileIdentity,
    parent_now: FileIdentity,
    file: FileIdentity,
    file_now: FileIdentity,
    held: FileIdentity,
    owner: u32,
)
    ensures
        undisturbed(parent, parent_now, file, file_now, held, owner) <==> {
            &&& parent_now.directory && parent_now.owner == owner && parent_now.mode == 0o700
            &&& parent_now.device == parent.device && parent_now.inode == parent.inode
            &&& file_now.regular && file_now.owner == owner && file_now.links == 1 && file_now.mode
                == 0o600
            &&& file_now.device == file.device && file_now.inode == file.inode
            &&& held.links == 1
        },
{
}

/// The detail of a task shows the task as it is recorded, with the first page of up to twenty
/// records of each kind under it, and the last cursor of the stream.
pub proof fn details_show_first_pages(s: StoreModel, session: Text, task_id: Text)
    requires
        well_formed(s),
    ensures
        paged_detail_of(s, session, task_id) matches Ok(shown) ==> {
            let detail = shown.detail;
            &&& loaded::<Task>(s, session, task_id) == Ok::<TaskModel, WorkError>(detail.task)
            &&& s.changes.len() > 0 ==> detail.cursor == s.changes.last().cursor
            &&& s.changes.len() == 0 ==> detail.cursor == 0
            &&& page_of::<Attempt>(s, session, detail.task, None, 20) matches Ok((rows, page))
                && page == shown.pages.attempts && detail.attempts.len() == rows.len() && forall|
                k: int,
            |
                0 <= k < rows.len() ==> (#[trigger] rows[k]).body == BodyModel::Attempt(
                    detail.attempts[k],
                )
            &&& page_of::<Operation>(s, session, detail.task, None, 20) matches Ok((rows, page))
                && page == shown.pages.operations && detail.operations.len() == rows.len() && forall|
                k: int,
            |
                0 <= k < rows.len() ==> (#[trigger] rows[k]).body == BodyModel::Operation(
                    detail.operations[k],
                )
            &&& page_of::<ResultSubmission>(s, session, detail.task, None, 20) matches Ok(
                (rows, page),
            ) && page == shown.pages.results && detail.results.len() == rows.len() && forall|k: int|
                0 <= k < rows.len() ==> (#[trigger] rows[k]).body == BodyModel::Result(
                    detail.results[k],
                )
            &&& page_of::<Review>(
                s,
                session,
                detail.task,
                None,
                20,
            ) matches Ok((rows, page)) && page
                == shown.pages.reviews && detail.reviews.len() == rows.len() && forall|k: int|
                0 <= k < rows.len() ==> (#[trigger] rows[k]).body == BodyModel::Review(
                    detail.reviews[k],
                )
        },
        paged_detail_of(s, session, task_id) matches Err(error) ==> error.0 == FailureCode::NotFound
            && loaded::<Task>(s, session, task_id) is Err || error.0 == FailureCode::ResourceLimit,
{
    details_are_whole(s, session, task_id);
    reads_give_what_is_recorded(s, session, task_id);
    if let Ok(task) = loaded::<Task>(s, session, task_id) {
        rows_are_of_their_kind::<Attempt>(s, session, task);
        rows_are_of_their_kind::<Operation>(s, session, task);
        rows_are_of_their_kind::<ResultSubmission>(s, session, task);
        rows_are_of_their_kind::<Review>(s, session, task);
        if let Ok((rows, _)) = page_of::<Attempt>(s, session, task, None, 20) {
            assert forall|k: int| 0 <= k < rows.len() implies (#[trigger] rows[k]).body
                == BodyModel::Attempt(values::<Attempt>(rows)[k]) by {
                kinds_are_told_apart(rows[k].body);
            }
        }
        if let Ok((rows, _)) = page_of::<Operation>(s, session, task, None, 20) {
            assert forall|k: int| 0 <= k < rows.len() implies (#[trigger] rows[k]).body
                == BodyModel::Operation(values::<Operation>(rows)[k]) by {
                kinds_are_told_apart(rows[k].body);
            }
        }
        if let Ok((rows, _)) = page_of::<ResultSubmission>(s, session, task, None, 20) {
            assert forall|k: int| 0 <= k < rows.len() implies (#[trigger] rows[k]).body
                == BodyModel::Result(values::<ResultSubmission>(rows)[k]) by {
                kinds_are_told_apart(rows[k].body);
            }
        }
        if let Ok((rows, _)) = page_of::<Review>(s, session, task, None, 20) {
            assert forall|k: int| 0 <= k < rows.len() implies (#[trigger] rows[k]).body
                == BodyModel::Review(values::<Review>(rows)[k]) by {
                kinds_are_told_apart(rows[k].body);
            }
        }
    }
}

proof fn rows_are_of_their_kind<T: Paged>(s: StoreModel, session: Text, task: TaskModel)
    ensures
        page_of::<T>(s, session, task, None, 20) matches Ok((rows, _)) ==> forall|k: int|
            0 <= k < rows.len() ==> T::of((#[trigger] rows[k]).body) is Some,
        page_of::<T>(s, session, task, None, 20) matches Err(error) ==> error.0
            == FailureCode::ResourceLimit,
{
    pages_are_the_longest::<T>(s, session, task, None, 20);
    let start = after_or_start(None);
    let all = all_after::<T>(s, session, task.id, start);
    listing_is_ordered::<T>(s.records, session, Some(task.id), start, s.records.len());
    if let Ok((rows, _)) = page_of::<T>(s, session, task, None, 20) {
        assert forall|k: int| 0 <= k < rows.len() implies T::of((#[trigger] rows[k]).body) is Some by {
            assert(rows[k] == all[k]);
            assert(follows::<T>(all[k], session, Some(task.id), start));
        }
    }
}

} // verus!
