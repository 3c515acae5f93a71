//! What every transaction keeps: how a store may differ from the one that it came from.
use vstd::prelude::*;
use crate::value::Text;
use crate::work::model::Attempt;
use crate::work::model::AttemptModel;
use crate::work::model::FrozenInputRefModel;
use crate::work::model::LaunchPhase;
use crate::work::model::NativeBindingModel;
use crate::work::model::OperationModel;
use crate::work::model::OperationState;
use crate::work::model::ReleaseReason;
use crate::work::model::Task;
use crate::work::model::TaskModel;
use crate::work::model::WorkResult;
use crate::work::store::attempts::is_lead;
use crate::work::store::changes::KEPT_CHANGES;
use crate::work::store::changes::above;
use crate::work::store::changes::changed;
use crate::work::store::changes::max_cursor;
use crate::work::store::changes::operation_saved;
use crate::work::store::changes::revised;
use crate::work::store::deliveries::delivery_at;
use crate::work::store::facts::awaiting;
use crate::work::store::facts::fact_recorded;
use crate::work::store::facts::fact_reserved;
use crate::work::store::facts::reserves;
use crate::work::store::inputs::MAX_INPUTS;
use crate::work::store::inputs::claimed;
use crate::work::store::inputs::input_at;
use crate::work::store::listing::list_following_is_transitive;
use crate::work::store::listing::list_follows;
use crate::work::store::listing::list_moves_on;
use crate::work::store::listing::list_untouched;
use crate::work::store::records::MAX_RECORDS;
use crate::work::store::records::filed;
use crate::work::store::records::loaded;
use crate::work::store::records::position;
use crate::work::store::records::position_in_range;
use crate::work::store::records::put;
use crate::work::store::recovery::empty_store;
use crate::work::store::requests::MAX_RECEIPTS;
use crate::work::store::requests::RequestModel;
use crate::work::store::requests::receipt_at;
use crate::work::store::requests::saved;
use crate::work::store::summaries::is_active;
use crate::work::store::summaries::summary_of;
use crate::work::store::tables::BodyModel;
use crate::work::store::tables::ChangeRowModel;
use crate::work::store::tables::DeliveryRowModel;
use crate::work::store::tables::FactKind;
use crate::work::store::tables::InputRowModel;
use crate::work::store::tables::ReceiptBodyModel;
use crate::work::store::tables::ReceiptRowModel;
use crate::work::store::tables::RecordModel;
use crate::work::store::tables::ReservedFactModel;
use crate::work::store::tables::StoreModel;
use crate::work::store::tasks::MAX_TASKS;
use crate::work::store::tasks::task_count;

verus! {

/// Whether an operation may go from one state to another. It never goes back, and what was
/// acknowledged or refused stays so.
pub open spec fn state_follows(before: OperationState, later: OperationState) -> bool {
    ||| before == later
    ||| before == OperationState::Prepared
    ||| before == OperationState::Submitting && later != OperationState::Prepared
    ||| before == OperationState::Unconfirmed && later == OperationState::Refused
}

/// Whether a launch may go from one phase to another. A dispatch is claimed once, and a
/// confirmed launch stays confirmed.
pub open spec fn phase_follows(before: LaunchPhase, later: LaunchPhase) -> bool {
    ||| before == later
    ||| before == LaunchPhase::NotDispatched
    ||| before == LaunchPhase::DispatchClaimed && later == LaunchPhase::LaunchConfirmed
}

/// Whether a resource that was known is still the same.
pub open spec fn resource_kept(before: Option<Text>, later: Option<Text>) -> bool {
    before is Some ==> later == before
}

/// Whether every native resource that was known is still the same.
pub open spec fn binding_kept(before: NativeBindingModel, later: NativeBindingModel) -> bool {
    &&& resource_kept(before.workspace_id, later.workspace_id)
    &&& resource_kept(before.tab_id, later.tab_id)
    &&& resource_kept(before.instance_id, later.instance_id)
    &&& resource_kept(before.target, later.target)
    &&& resource_kept(before.pane_id, later.pane_id)
    &&& resource_kept(before.worktree_path, later.worktree_path)
}

/// What may become of a task: it may be paused, its delegation and its dependencies may be set
/// anew, and its revision and its epoch never fall.
pub open spec fn task_follows(before: TaskModel, later: TaskModel) -> bool {
    &&& later.id == before.id
    &&& later.session_id == before.session_id
    &&& later.repo_path == before.repo_path
    &&& later.title == before.title
    &&& later.brief == before.brief
    &&& later.parent_task_id == before.parent_task_id
    &&& later.policy == before.policy
    &&& later.input_refs == before.input_refs
    &&& later.created_at_ms == before.created_at_ms
    &&& later.revision >= before.revision
    &&& later.delegation.coordinator_epoch >= before.delegation.coordinator_epoch
    &&& later.delegation.coordinator_epoch == before.delegation.coordinator_epoch
        ==> later.delegation == before.delegation
}

/// What may become of an attempt: its launch goes on, what is known of its process is added
/// to, and a reservation that was given back never returns.
pub open spec fn attempt_follows(before: AttemptModel, later: AttemptModel) -> bool {
    &&& later.id == before.id
    &&& later.task_id == before.task_id
    &&& later.agent_kind == before.agent_kind
    &&& later.role == before.role
    &&& later.created_at_ms == before.created_at_ms
    &&& binding_kept(before.binding, later.binding)
    &&& phase_follows(before.lifecycle.launch_phase, later.lifecycle.launch_phase)
    &&& resource_kept(before.lifecycle.native_owner_epoch, later.lifecycle.native_owner_epoch)
    &&& !is_active(before) ==> !is_active(later)
    &&& given_up(later) ==> given_up(before) || before.lifecycle.launch_phase
        == LaunchPhase::NotDispatched
}

/// Whether an attempt was released because its start was never dispatched.
pub open spec fn given_up(attempt: AttemptModel) -> bool {
    attempt.lifecycle.release matches Some(release) && release.reason
        == ReleaseReason::StartupNotDispatched
}

/// What may become of an operation: it stays about the same thing, and its state goes on.
pub open spec fn operation_follows(before: OperationModel, later: OperationModel) -> bool {
    &&& later.id == before.id
    &&& later.task_id == before.task_id
    &&& later.attempt_id == before.attempt_id
    &&& later.kind == before.kind
    &&& later.delegation_fence == before.delegation_fence
    &&& later.input_refs == before.input_refs
    &&& later.bootstrap_version == before.bootstrap_version
    &&& later.interruption_owner_epoch == before.interruption_owner_epoch
    &&& later.created_at_ms == before.created_at_ms
    &&& binding_kept(before.resources, later.resources)
    &&& state_follows(before.state, later.state)
}

/// What may become of the body of a record. Results, reviews, shares, origins, intents and facts
/// never change; a row that is kept for a fact may become the fact that it is kept for.
pub open spec fn body_follows(before: BodyModel, later: BodyModel) -> bool {
    match (before, later) {
        (BodyModel::Task(a), BodyModel::Task(b)) => task_follows(a, b),
        (BodyModel::Attempt(a), BodyModel::Attempt(b)) => attempt_follows(a, b),
        (BodyModel::Operation(a), BodyModel::Operation(b)) => operation_follows(a, b),
        (BodyModel::Reserved(kept), BodyModel::Reconciliation(fact)) => kept.purpose
            == FactKind::Reconciliation && kept.operation_id == fact.operation_id,
        (BodyModel::Reserved(kept), BodyModel::StartRefusal(fact)) => kept.purpose
            == FactKind::StartRefusal && kept.operation_id == fact.start_operation_id,
        (BodyModel::Reserved(kept), BodyModel::InterruptionFact(fact)) => kept.purpose
            == FactKind::Interruption && kept.operation_id == fact.operation_id,
        _ => before == later,
    }
}

/// What may become of a record: it stays where it is filed.
pub open spec fn record_follows(before: RecordModel, later: RecordModel) -> bool {
    &&& later.id == before.id
    &&& later.session == before.session
    &&& later.task_id == before.task_id
    &&& body_follows(before.body, later.body)
}

/// What may become of an upload: it may be claimed, once.
pub open spec fn input_follows(before: InputRowModel, later: InputRowModel) -> bool {
    &&& later.id == before.id
    &&& later.actor == before.actor
    &&& later.session == before.session
    &&& later.repo_path == before.repo_path
    &&& later.body == before.body
    &&& before.claimed_task is Some ==> later.claimed_task == before.claimed_task
}

/// What may become of the records: none is lost, and each one goes on.
pub open spec fn records_follow(before: Seq<RecordModel>, later: Seq<RecordModel>) -> bool {
    &&& before.len() <= later.len()
    &&& forall|i: int| 0 <= i < before.len() ==> record_follows(before[i], #[trigger] later[i])
}

/// What may become of the uploads: none is lost, and each one goes on.
pub open spec fn inputs_follow(before: Seq<InputRowModel>, later: Seq<InputRowModel>) -> bool {
    &&& before.len() <= later.len()
    &&& forall|i: int| 0 <= i < before.len() ==> input_follows(before[i], #[trigger] later[i])
}

/// What may become of the stream: cursors go up, and the last entries are never lost.
pub open spec fn stream_follows(before: StoreModel, later: StoreModel) -> bool {
    &&& before.last_cursor <= later.last_cursor
    &&& forall|row: ChangeRowModel| #[trigger]
        later.changes.contains(row) ==> before.changes.contains(row) || row.cursor
            > before.last_cursor
    &&& forall|row: ChangeRowModel| #[trigger]
        before.changes.contains(row) && row.cursor + KEPT_CHANGES > later.last_cursor
            ==> later.changes.contains(row)
}

/// Whether one store may have become another: nothing that was recorded, answered, uploaded or
/// delivered is lost, and each record is what may become of it.
pub open spec fn grown(before: StoreModel, later: StoreModel) -> bool {
    &&& records_follow(before.records, later.records)
    &&& inputs_follow(before.inputs, later.inputs)
    &&& before.receipts.is_prefix_of(later.receipts)
    &&& before.deliveries.is_prefix_of(later.deliveries)
    &&& stream_follows(before, later)
    &&& list_follows(before, later)
}

/// Whether a record stands where its body says.
pub open spec fn filed_as_said(record: RecordModel) -> bool {
    match record.body {
        BodyModel::Task(task) => task.id == record.id && task.session_id == record.session
            && record.task_id == record.id,
        BodyModel::Attempt(attempt) => attempt.id == record.id && attempt.task_id == record.task_id
            && (attempt.lifecycle.native_owner_epoch is Some ==> attempt.lifecycle.launch_phase
            == LaunchPhase::LaunchConfirmed) && (attempt.lifecycle.release is Some
            ==> !is_active(attempt)),
        BodyModel::Operation(op) => op.id == record.id && op.task_id == record.task_id,
        BodyModel::Result(result) => result.id == record.id && result.task_id == record.task_id,
        BodyModel::Review(review) => review.id == record.id && review.task_id == record.task_id,
        _ => true,
    }
}

/// Whether a record is an active lead of a task.
pub open spec fn leads(record: RecordModel, session: Text, task: Text) -> bool {
    record.session == session && record.task_id == task && (record.body matches BodyModel::Attempt(
        attempt,
    ) && is_lead(attempt))
}

/// Whether two records are active leads of one task.
pub open spec fn rivals(a: RecordModel, b: RecordModel) -> bool {
    leads(a, a.session, a.task_id) && leads(b, a.session, a.task_id)
}

/// Whether an attempt is filed under a task.
pub open spec fn attempt_filed(
    records: Seq<RecordModel>,
    session: Text,
    task: Text,
    id: Text,
) -> bool {
    exists|j: int|
        0 <= j < records.len() && (#[trigger] records[j]).id == id && records[j].session == session
            && records[j].task_id == task && records[j].body is Attempt
}

/// Whether a record, where it is an operation of an attempt, stands under the task of that attempt.
pub open spec fn paired(records: Seq<RecordModel>, i: int) -> bool {
    records[i].body matches BodyModel::Operation(op) ==> (op.attempt_id matches Some(id)
        ==> attempt_filed(records, records[i].session, records[i].task_id, id))
}

/// Records that each have their own identifier, stand where they say, fill no task beyond its room,
/// give no task two active leads, and have operations stand where their attempts do.
pub open spec fn tidy(records: Seq<RecordModel>) -> bool {
    &&& forall|i: int| 0 <= i < records.len() ==> filed_as_said(#[trigger] records[i])
    &&& forall|i: int, j: int|
        0 <= i < j < records.len() ==> (#[trigger] records[i]).id != (#[trigger] records[j]).id
            && !rivals(records[i], records[j])
    &&& forall|session: Text, task: Text| #[trigger] filed(records, session, task) <= MAX_RECORDS
    &&& task_count(records) <= MAX_TASKS
    &&& forall|i: int| 0 <= i < records.len() ==> #[trigger] paired(records, i)
}

/// A stream whose cursors go up to the last one that was given out.
pub open spec fn ascending(changes: Seq<ChangeRowModel>, last_cursor: u64) -> bool {
    &&& forall|i: int, j: int|
        0 <= i < j < changes.len() ==> (#[trigger] changes[i]).cursor < (#[trigger] changes[j]).cursor
    &&& forall|i: int| 0 <= i < changes.len() ==> (#[trigger] changes[i]).cursor <= last_cursor
}

/// Two receipts under one key.
pub open spec fn same_key(a: ReceiptRowModel, b: ReceiptRowModel) -> bool {
    a.actor == b.actor && a.session == b.session && a.kind == b.kind && a.request_key
        == b.request_key
}

/// Receipts of which no two are under one key, and no more than are remembered.
pub open spec fn keyed(receipts: Seq<ReceiptRowModel>) -> bool {
    &&& forall|i: int, j: int|
        0 <= i < j < receipts.len() ==> !same_key(#[trigger] receipts[i], #[trigger] receipts[j])
    &&& receipts.len() <= MAX_RECEIPTS
}

/// Uploads that each have their own identifier, and no more than are kept.
pub open spec fn stocked(inputs: Seq<InputRowModel>) -> bool {
    &&& forall|i: int, j: int|
        0 <= i < j < inputs.len() ==> (#[trigger] inputs[i]).id != (#[trigger] inputs[j]).id
    &&& inputs.len() <= MAX_INPUTS
}

/// Deliveries of which no two are of one operation.
pub open spec fn delivered_once(rows: Seq<DeliveryRowModel>) -> bool {
    forall|i: int, j: int|
        0 <= i < j < rows.len() ==> (#[trigger] rows[i]).operation_id != (
        #[trigger] rows[j]).operation_id
}

/// A store as transactions leave it.
pub open spec fn well_formed(s: StoreModel) -> bool {
    &&& tidy(s.records)
    &&& ascending(s.changes, s.last_cursor)
    &&& keyed(s.receipts)
    &&& stocked(s.inputs)
    &&& delivered_once(s.deliveries)
}

/// Whether no record bears an identifier.
pub open spec fn unused(s: StoreModel, id: Text) -> bool {
    position(s.records, id) is None
}

/// Whether a task has no active lead.
pub open spec fn unled(records: Seq<RecordModel>, session: Text, task: Text) -> bool {
    forall|i: int| 0 <= i < records.len() ==> !leads(#[trigger] records[i], session, task)
}

/// Whether no task and no attempt was added, but for a record in one place.
pub open spec fn steady_but(before: Seq<RecordModel>, later: Seq<RecordModel>, at: int) -> bool {
    forall|i: int|
        before.len() <= i < later.len() && i != at ==> !((#[trigger] later[i]).body is Task)
            && !(later[i].body is Attempt)
}

/// Whether no task and no attempt was added.
pub open spec fn steady(before: Seq<RecordModel>, later: Seq<RecordModel>) -> bool {
    steady_but(before, later, -1)
}

/// Whether a body says what was found of an attempt or of its start.
pub open spec fn finds(body: BodyModel) -> bool {
    body is Reconciliation || body is StartRefusal
}

/// Whether nothing was recorded that says what was found.
pub open spec fn nothing_found(before: Seq<RecordModel>, later: Seq<RecordModel>) -> bool {
    forall|i: int|
        0 <= i < later.len() && finds((#[trigger] later[i]).body) ==> i < before.len() && finds(
            before[i].body,
        )
}

/// Whether a body is an attempt whose reservation was given back.
pub open spec fn is_released(body: BodyModel) -> bool {
    body matches BodyModel::Attempt(attempt) && !is_active(attempt)
}

/// Whether two bodies are attempts that were released alike.
pub open spec fn released_alike(before: BodyModel, later: BodyModel) -> bool {
    &&& is_released(before)
    &&& is_released(later)
    &&& later->Attempt_0.lifecycle.release == before->Attempt_0.lifecycle.release
}

/// Whether no reservation was given back, and those that were given back before were given back for
/// the same reason.
pub open spec fn none_released(before: Seq<RecordModel>, later: Seq<RecordModel>) -> bool {
    forall|i: int|
        0 <= i < later.len() && is_released((#[trigger] later[i]).body) ==> i < before.len()
            && released_alike(before[i].body, later[i].body)
}

/// Whether a store may have become another well-formed one without a task or an attempt being added
/// and without anything being found.
pub open spec fn plainly_grown(before: StoreModel, later: StoreModel) -> bool {
    &&& well_formed(later)
    &&& grown(before, later)
    &&& steady(before.records, later.records)
    &&& nothing_found(before.records, later.records)
}

/// Whether, besides, no reservation was given back.
pub open spec fn quietly_grown(before: StoreModel, later: StoreModel) -> bool {
    plainly_grown(before, later) && none_released(before.records, later.records)
}

/// Whether a record says what was found of one kind about one operation.
pub open spec fn found_about(
    record: RecordModel,
    session: Text,
    purpose: FactKind,
    operation_id: Text,
) -> bool {
    record.session == session && match record.body {
        BodyModel::Reconciliation(fact) => purpose == FactKind::Reconciliation && fact.operation_id
            == operation_id,
        BodyModel::StartRefusal(fact) => purpose == FactKind::StartRefusal
            && fact.start_operation_id == operation_id,
        _ => false,
    }
}

/// Whether nothing was recorded that says what was found, but for what is of one kind and about
/// one operation.
pub open spec fn found_only(
    before: Seq<RecordModel>,
    later: Seq<RecordModel>,
    session: Text,
    purpose: FactKind,
    operation_id: Text,
) -> bool {
    forall|i: int|
        0 <= i < later.len() && finds((#[trigger] later[i]).body) ==> (i < before.len() && finds(
            before[i].body,
        )) || found_about(later[i], session, purpose, operation_id)
}

/// An empty store is well formed.
pub proof fn empty_is_well_formed()
    ensures
        well_formed(empty_store()),
{
}

/// Every store follows itself.
pub proof fn growth_is_reflexive(s: StoreModel)
    ensures
        grown(s, s),
{
    reveal(list_follows);
}

/// What follows a store that follows another follows the other.
pub proof fn growth_is_transitive(a: StoreModel, b: StoreModel, c: StoreModel)
    requires
        grown(a, b),
        grown(b, c),
    ensures
        grown(a, c),
        steady(a.records, b.records) && steady(b.records, c.records) ==> steady(
            a.records,
            c.records,
        ),
        nothing_found(a.records, b.records) && nothing_found(b.records, c.records) ==> nothing_found(
            a.records,
            c.records,
        ),
        none_released(a.records, b.records) && none_released(b.records, c.records) ==> none_released(
            a.records,
            c.records,
        ),
{
    list_following_is_transitive(a, b, c);
    if none_released(a.records, b.records) && none_released(b.records, c.records) {
        assert forall|i: int| 0 <= i < c.records.len() && is_released(
            (#[trigger] c.records[i]).body,
        ) implies i < a.records.len() && released_alike(a.records[i].body, c.records[i].body) by {
            assert(is_released(b.records[i].body));
        }
    }
    if nothing_found(a.records, b.records) && nothing_found(b.records, c.records) {
        assert forall|i: int| 0 <= i < c.records.len() && finds(
            (#[trigger] c.records[i]).body,
        ) implies i < a.records.len() && finds(a.records[i].body) by {
            assert(finds(b.records[i].body));
        }
    }
    assert forall|i: int| 0 <= i < b.records.len() && !(b.records[i].body is Task) && !(
    b.records[i].body is Attempt) implies !((#[trigger] c.records[i]).body is Task) && !(
    c.records[i].body is Attempt) by {
        assert(record_follows(b.records[i], c.records[i]));
    }
    assert forall|i: int| 0 <= i < a.records.len() implies record_follows(
        a.records[i],
        #[trigger] c.records[i],
    ) by {
        assert(record_follows(a.records[i], b.records[i]));
        assert(record_follows(b.records[i], c.records[i]));
    }
    assert forall|i: int| 0 <= i < a.inputs.len() implies input_follows(
        a.inputs[i],
        #[trigger] c.inputs[i],
    ) by {
        assert(input_follows(a.inputs[i], b.inputs[i]));
        assert(input_follows(b.inputs[i], c.inputs[i]));
    }
    assert(a.receipts =~= c.receipts.subrange(0, a.receipts.len() as int));
    assert(a.deliveries =~= c.deliveries.subrange(0, a.deliveries.len() as int));
}

/// What was added in one place, at most, over two steps.
pub proof fn steadiness_is_transitive(a: StoreModel, b: StoreModel, c: StoreModel, at: int)
    requires
        grown(b, c),
        steady_but(a.records, b.records, at),
        steady_but(b.records, c.records, at),
    ensures
        steady_but(a.records, c.records, at),
{
    assert forall|i: int| a.records.len() <= i < c.records.len() && i != at implies !((
    #[trigger] c.records[i]).body is Task) && !(c.records[i].body is Attempt) by {
        if i < b.records.len() {
            assert(record_follows(b.records[i], c.records[i]));
            assert(!(b.records[i].body is Task) && !(b.records[i].body is Attempt));
        }
    }
}

/// Records with the same identifiers are found in the same places.
pub proof fn same_ids_same_places(a: Seq<RecordModel>, b: Seq<RecordModel>, id: Text)
    requires
        a.len() == b.len(),
        forall|i: int| 0 <= i < a.len() ==> (#[trigger] a[i]).id == b[i].id,
    ensures
        position(a, id) == position(b, id),
    decreases a.len(),
{
    if a.len() > 0 {
        assert(a.last() == a[a.len() - 1]);
        same_ids_same_places(a.drop_last(), b.drop_last(), id);
    }
}

/// Records that are filed alike fill their tasks alike.
pub proof fn filed_alike(a: Seq<RecordModel>, b: Seq<RecordModel>, session: Text, task: Text)
    requires
        a.len() == b.len(),
        forall|i: int|
            0 <= i < a.len() ==> (#[trigger] a[i]).session == b[i].session && a[i].task_id
                == b[i].task_id,
    ensures
        filed(a, session, task) == filed(b, session, task),
    decreases a.len(),
{
    if a.len() > 0 {
        assert(a.last() == a[a.len() - 1]);
        filed_alike(a.drop_last(), b.drop_last(), session, task);
    }
}

/// Records that are tasks alike count alike.
pub proof fn counted_alike(a: Seq<RecordModel>, b: Seq<RecordModel>)
    requires
        a.len() == b.len(),
        forall|i: int| 0 <= i < a.len() ==> (#[trigger] a[i]).body is Task == b[i].body is Task,
    ensures
        task_count(a) == task_count(b),
    decreases a.len(),
{
    if a.len() > 0 {
        assert(a.last() == a[a.len() - 1]);
        counted_alike(a.drop_last(), b.drop_last());
    }
}

/// In tidy records, each is found under its identifier.
pub proof fn found_where_filed(records: Seq<RecordModel>, i: int)
    requires
        tidy(records),
        0 <= i < records.len(),
    ensures
        position(records, records[i].id) == Some(i),
{
    position_in_range(records, records[i].id);
    holder_found(records, i);
}

proof fn holder_found(records: Seq<RecordModel>, i: int)
    requires
        0 <= i < records.len(),
    ensures
        position(records, records[i].id) is Some,
    decreases records.len(),
{
    if records.last().id != records[i].id {
        assert(records.drop_last()[i] == records[i]);
        holder_found(records.drop_last(), i);
    }
}

/// One body filed in place of another leaves the records tidy.
pub proof fn replacing_keeps_tidy(records: Seq<RecordModel>, i: int, body: BodyModel)
    requires
        tidy(records),
        0 <= i < records.len(),
        body_follows(records[i].body, body),
        filed_as_said(RecordModel { body, wire: None, ..records[i] }),
    ensures
        tidy(records.update(i, RecordModel { body, wire: None, ..records[i] })),
        records_follow(records, records.update(i, RecordModel { body, wire: None, ..records[i] })),
{
    let later = records.update(i, RecordModel { body, wire: None, ..records[i] });
    assert forall|session: Text, task: Text| #[trigger]
        filed(later, session, task) <= MAX_RECORDS by {
        filed_alike(records, later, session, task);
    }
    assert forall|a: int, b: int| 0 <= a < b < later.len() implies (#[trigger] later[a]).id != (
    #[trigger] later[b]).id && !rivals(later[a], later[b]) by {
        assert(records[a].id != records[b].id && !rivals(records[a], records[b]));
    }
    counted_alike(records, later);
    assert forall|k: int| 0 <= k < later.len() implies #[trigger] paired(later, k) by {
        assert(paired(records, k));
        pairing_lasts(records, later, k);
    }
}

/// An operation that stands where its attempt does goes on doing so.
proof fn pairing_lasts(records: Seq<RecordModel>, later: Seq<RecordModel>, k: int)
    requires
        records_follow(records, later),
        0 <= k < records.len(),
        paired(records, k),
    ensures
        paired(later, k),
{
    assert(record_follows(records[k], later[k]));
    if let BodyModel::Operation(op) = later[k].body {
        if let Some(id) = op.attempt_id {
            let (session, task) = (records[k].session, records[k].task_id);
            let j = choose|j: int|
                0 <= j < records.len() && (#[trigger] records[j]).id == id && records[j].session
                    == session && records[j].task_id == task && records[j].body is Attempt;
            assert(record_follows(records[j], later[j]));
            assert(attempt_filed(later, session, task, id));
        }
    }
}

/// An attempt that is recorded is filed under its task.
pub proof fn loaded_attempt_is_filed(s: StoreModel, session: Text, id: Text)
    requires
        tidy(s.records),
    ensures
        loaded::<Attempt>(s, session, id) matches Ok(attempt) ==> attempt_filed(
            s.records,
            session,
            attempt.task_id,
            id,
        ),
{
    position_in_range(s.records, id);
    if loaded::<Attempt>(s, session, id) is Ok {
        let j = position(s.records, id)->0;
        assert(filed_as_said(s.records[j]));
    }
}

/// A record filed where there is room leaves the records tidy.
pub proof fn adding_keeps_tidy(records: Seq<RecordModel>, record: RecordModel)
    requires
        tidy(records),
        position(records, record.id) is None,
        filed_as_said(record),
        filed(records, record.session, record.task_id) < MAX_RECORDS,
        record.body is Task ==> task_count(records) < MAX_TASKS,
        leads(record, record.session, record.task_id) ==> unled(
            records,
            record.session,
            record.task_id,
        ),
        record.body matches BodyModel::Operation(op) ==> (op.attempt_id matches Some(id)
            ==> attempt_filed(records, record.session, record.task_id, id)),
    ensures
        tidy(records.push(record)),
        records_follow(records, records.push(record)),
{
    let later = records.push(record);
    assert(later.drop_last() =~= records);
    assert forall|session: Text, task: Text| #[trigger]
        filed(later, session, task) <= MAX_RECORDS by {
        assert(filed(records, session, task) <= MAX_RECORDS);
    }
    assert forall|i: int, j: int| 0 <= i < j < later.len() implies (#[trigger] later[i]).id != (
    #[trigger] later[j]).id && !rivals(later[i], later[j]) by {
        if j == records.len() {
            if records[i].id == record.id {
                holder_found(records, i);
            }
            if rivals(later[i], later[j]) {
                assert(leads(records[i], record.session, record.task_id));
            }
        }
    }
    assert forall|k: int| 0 <= k < later.len() implies #[trigger] paired(later, k) by {
        if k < records.len() {
            assert(paired(records, k));
            pairing_lasts(records, later, k);
        } else if let BodyModel::Operation(op) = record.body {
            if let Some(id) = op.attempt_id {
                let j = choose|j: int|
                    0 <= j < records.len() && (#[trigger] records[j]).id == id && records[j].session
                        == record.session && records[j].task_id == record.task_id
                        && records[j].body is Attempt;
                assert(later[j] == records[j]);
            }
        }
    }
}

/// Whether a body may be filed under an identifier: in place of one that it follows, or as a new
/// record.
pub open spec fn may_put(
    s: StoreModel,
    session: Text,
    id: Text,
    task: Text,
    body: BodyModel,
) -> bool {
    match position(s.records, id) {
        Some(i) => body_follows(s.records[i].body, body) && filed_as_said(
            RecordModel { body, wire: None, ..s.records[i] },
        ),
        None => filed_as_said(RecordModel { id, session, task_id: task, body, wire: None }) && (
        body is Task ==> task_count(s.records) < MAX_TASKS) && (body matches BodyModel::Attempt(attempt)
            && is_lead(attempt) ==> unled(s.records, session, task)) && (
        body matches BodyModel::Operation(op) ==> (op.attempt_id matches Some(attempt_id)
            ==> attempt_filed(s.records, session, task, attempt_id))),
    }
}

/// Filing a body is growth.
pub proof fn putting_grows(s: StoreModel, session: Text, id: Text, task: Text, body: BodyModel)
    requires
        well_formed(s),
        may_put(s, session, id, task, body),
    ensures
        put(s, session, id, task, body) matches Ok(later) ==> {
            &&& well_formed(later)
            &&& grown(s, later)
            &&& position(s.records, id) is Some || !(body is Task || body is Attempt) ==> steady(
                s.records,
                later.records,
            )
            &&& !finds(body) ==> nothing_found(s.records, later.records)
            &&& !is_released(body) || (position(s.records, id) matches Some(i) && released_alike(
                s.records[i].body,
                body,
            )) ==> none_released(s.records, later.records)
        },
{
    position_in_range(s.records, id);
    match position(s.records, id) {
        Some(i) => {
            replacing_keeps_tidy(s.records, i, body);
        },
        None => {
            if filed(s.records, session, task) < MAX_RECORDS {
                let record = RecordModel { id, session, task_id: task, body, wire: None };
                adding_keeps_tidy(s.records, record);
            }
        },
    }
    if put(s, session, id, task, body) is Ok {
        list_untouched(s, put(s, session, id, task, body)->Ok_0);
    }
}

/// What was filed is found, and other records stay where and what they are.
pub proof fn putting_is_local(
    s: StoreModel,
    session: Text,
    id: Text,
    task: Text,
    body: BodyModel,
    other: Text,
)
    ensures
        put(s, session, id, task, body) matches Ok(later) ==> {
            &&& position(later.records, id) matches Some(i) && 0 <= i < later.records.len()
                && later.records[i].body == body && later.records[i].id == id
            &&& position(s.records, id) matches Some(i) ==> position(later.records, id) == Some(i)
                && later.records[i].session == s.records[i].session && later.records[i].task_id
                == s.records[i].task_id
            &&& position(s.records, id) is None ==> later.records[s.records.len() as int].session
                == session && later.records[s.records.len() as int].task_id == task && position(
                later.records,
                id,
            ) == Some(s.records.len() as int)
            &&& other != id ==> position(later.records, other) == position(s.records, other)
            &&& other != id ==> (position(s.records, other) matches Some(i) ==> 0 <= i
                < s.records.len() && later.records[i] == s.records[i])
        },
{
    position_in_range(s.records, id);
    position_in_range(s.records, other);
    match position(s.records, id) {
        Some(i) => {
            let later = s.records.update(i, RecordModel { body, wire: None, ..s.records[i] });
            same_ids_same_places(s.records, later, id);
            same_ids_same_places(s.records, later, other);
        },
        None => {
            let later = s.records.push(RecordModel { id, session, task_id: task, body, wire: None });
            assert(later.drop_last() =~= s.records);
        },
    }
}

/// What is above a floor is what was there and lies above it, in the same order.
pub proof fn above_selects(changes: Seq<ChangeRowModel>, floor: int, last_cursor: u64)
    requires
        ascending(changes, last_cursor),
    ensures
        ascending(above(changes, floor), last_cursor),
        forall|row: ChangeRowModel| #[trigger]
            above(changes, floor).contains(row) <==> changes.contains(row) && row.cursor > floor,
    decreases changes.len(),
{
    if changes.len() > 0 {
        let rest = changes.drop_last();
        let last = changes.last();
        assert(last == changes[changes.len() - 1]);
        assert forall|i: int, j: int| 0 <= i < j < rest.len() implies (#[trigger] rest[i]).cursor < (
        #[trigger] rest[j]).cursor by {
            assert(changes[i].cursor < changes[j].cursor);
        }
        above_selects(rest, floor, last_cursor);
        let kept = above(rest, floor);
        let later = above(changes, floor);
        assert forall|row: ChangeRowModel| #[trigger] later.contains(row) <==> changes.contains(row)
            && row.cursor > floor by {
            if changes.contains(row) {
                let k = choose|k: int| 0 <= k < changes.len() && changes[k] == row;
                if k < rest.len() {
                    assert(rest[k] == row);
                    assert(rest.contains(row));
                }
                if row.cursor > floor {
                    if rest.contains(row) {
                        assert(kept.contains(row));
                        let n = choose|n: int| 0 <= n < kept.len() && kept[n] == row;
                        assert(later[n] == row);
                    } else {
                        assert(later[kept.len() as int] == row);
                    }
                }
            }
            if later.contains(row) {
                let n = choose|n: int| 0 <= n < later.len() && later[n] == row;
                if n < kept.len() {
                    assert(kept[n] == row);
                    assert(kept.contains(row));
                    let k = choose|k: int| 0 <= k < rest.len() && rest[k] == row;
                    assert(changes[k] == row);
                }
            }
        }
        assert forall|i: int, j: int| 0 <= i < j < later.len() implies (#[trigger] later[i]).cursor
            < (#[trigger] later[j]).cursor by {
            if j < kept.len() {
                assert(kept[i].cursor < kept[j].cursor);
            } else {
                assert(kept.contains(later[i]));
                let k = choose|k: int| 0 <= k < rest.len() && rest[k] == later[i];
                assert(changes[k].cursor < last.cursor);
            }
        }
        assert forall|i: int| 0 <= i < later.len() implies (#[trigger] later[i]).cursor
            <= last_cursor by {
            assert(later.contains(later[i]));
        }
    }
}

/// In a stream whose cursors go up, the last entry has the largest.
pub proof fn last_is_largest(changes: Seq<ChangeRowModel>, last_cursor: u64)
    requires
        ascending(changes, last_cursor),
    ensures
        changes.len() > 0 ==> max_cursor(changes) == changes.last().cursor,
    decreases changes.len(),
{
    if changes.len() > 1 {
        let rest = changes.drop_last();
        assert forall|i: int, j: int| 0 <= i < j < rest.len() implies (#[trigger] rest[i]).cursor < (
        #[trigger] rest[j]).cursor by {
            assert(changes[i].cursor < changes[j].cursor);
        }
        last_is_largest(rest, last_cursor);
        assert(rest.last() == changes[changes.len() - 2]);
        assert(changes.last() == changes[changes.len() - 1]);
    } else if changes.len() == 1 {
        assert(max_cursor(changes.drop_last()) == 0);
    }
}

/// The store that a change of a task leaves, before its stream and its list are told.
pub open spec fn task_put(s: StoreModel, task: TaskModel, now: i64) -> WorkResult<StoreModel> {
    let next = revised(task, now);
    put(s, next.session_id, next.id, next.id, BodyModel::Task(next))
}

/// Changing a task is growth. It files the task and leaves receipts, uploads and deliveries alone.
pub proof fn changing_grows(s: StoreModel, task: TaskModel, kind: Text, entity: Text, now: i64)
    requires
        well_formed(s),
        may_put(s, task.session_id, task.id, task.id, BodyModel::Task(task)),
    ensures
        changed(s, task, kind, entity, now) matches Ok((later, next)) ==> {
            &&& well_formed(later)
            &&& grown(s, later)
            &&& position(s.records, task.id) is Some ==> steady(s.records, later.records)
            &&& nothing_found(s.records, later.records)
            &&& none_released(s.records, later.records)
            &&& next == revised(task, now)
            &&& task_put(s, task, now) matches Ok(filed) && later.records == filed.records
            &&& later.receipts == s.receipts
            &&& later.inputs == s.inputs
            &&& later.deliveries == s.deliveries
            &&& later.last_cursor == s.last_cursor + 1
        },
{
    if changed(s, task, kind, entity, now) is Ok {
        let next = revised(task, now);
        putting_grows(s, next.session_id, next.id, next.id, BodyModel::Task(next));
        let filed = put(s, next.session_id, next.id, next.id, BodyModel::Task(next))->Ok_0;
        let cursor = (filed.last_cursor + 1) as u64;
        let row = ChangeRowModel {
            cursor,
            session: next.session_id,
            task_id: next.id,
            revision: next.revision,
            kind,
            entity_id: entity,
        };
        let changes = filed.changes.push(row);
        assert(ascending(changes, cursor));
        last_is_largest(changes, cursor);
        assert(changes.last() == row);
        above_selects(changes, max_cursor(changes) - KEPT_CHANGES, cursor);
        let later = changed(s, task, kind, entity, now)->Ok_0.0;
        putting_is_local(s, next.session_id, next.id, next.id, BodyModel::Task(next), next.id);
        assert(later.records == filed.records);
        list_moves_on(
            s,
            later,
            next.session_id,
            next.id,
            summary_of(later, next.session_id, next),
        );
        assert(later.changes == above(changes, max_cursor(changes) - KEPT_CHANGES));
        assert forall|r: ChangeRowModel| #[trigger] later.changes.contains(r) implies s.changes.contains(
            r,
        ) || r.cursor > s.last_cursor by {
            assert(changes.contains(r));
            let k = choose|k: int| 0 <= k < changes.len() && changes[k] == r;
            if k < s.changes.len() {
                assert(s.changes[k] == r);
            }
        }
        assert forall|r: ChangeRowModel| #[trigger] s.changes.contains(r) && r.cursor + KEPT_CHANGES
            > later.last_cursor implies later.changes.contains(r) by {
            let k = choose|k: int| 0 <= k < s.changes.len() && s.changes[k] == r;
            assert(changes[k] == r);
            assert(changes.contains(r));
        }
    }
}

/// Changing a task leaves the other records alone.
pub proof fn changing_is_local(
    s: StoreModel,
    task: TaskModel,
    kind: Text,
    entity: Text,
    now: i64,
    other: Text,
)
    requires
        other != task.id,
    ensures
        changed(s, task, kind, entity, now) matches Ok((later, next)) ==> position(
            later.records,
            other,
        ) == position(s.records, other) && (position(s.records, other) matches Some(i) ==> 0 <= i
            < s.records.len() && later.records[i] == s.records[i]),
{
    let next = revised(task, now);
    putting_is_local(s, next.session_id, next.id, next.id, BodyModel::Task(next), other);
}

/// Remembering an answer under a new key is growth.
pub proof fn saving_grows(s: StoreModel, request: RequestModel, body: ReceiptBodyModel)
    requires
        well_formed(s),
        receipt_at(s.receipts, request.actor, request.session, request.kind, request.key) is None,
        s.receipts.len() < MAX_RECEIPTS,
    ensures
        well_formed(saved(s, request, body)),
        grown(s, saved(s, request, body)),
{
    let later = saved(s, request, body);
    assert forall|i: int, j: int| 0 <= i < j < later.receipts.len() implies !same_key(
        #[trigger] later.receipts[i],
        #[trigger] later.receipts[j],
    ) by {
        if j == s.receipts.len() && same_key(later.receipts[i], later.receipts[j]) {
            keyholder_found(s.receipts, i);
        } else if j < s.receipts.len() {
            assert(!same_key(s.receipts[i], s.receipts[j]));
        }
    }
    assert(s.receipts =~= later.receipts.subrange(0, s.receipts.len() as int));
    list_untouched(s, later);
}

/// A receipt is found under its key.
pub proof fn keyholder_found(receipts: Seq<ReceiptRowModel>, i: int)
    requires
        0 <= i < receipts.len(),
    ensures
        receipt_at(
            receipts,
            receipts[i].actor,
            receipts[i].session,
            receipts[i].kind,
            receipts[i].request_key,
        ) is Some,
    decreases receipts.len(),
{
    if !same_key(receipts.last(), receipts[i]) {
        assert(receipts.drop_last()[i] == receipts[i]);
        keyholder_found(receipts.drop_last(), i);
    }
}

/// Keeping quota for a fact is growth.
pub proof fn reserving_grows(
    s: StoreModel,
    session: Text,
    op: OperationModel,
    purpose: FactKind,
    id: Text,
)
    requires
        well_formed(s),
        unused(s, id),
    ensures
        fact_reserved(s, session, op, purpose, id) matches Ok(later) ==> quietly_grown(s, later),
{
    growth_is_reflexive(s);
    let body = BodyModel::Reserved(ReservedFactModel { purpose, operation_id: op.id });
    putting_grows(s, session, id, op.task_id, body);
}

/// Keeping quota for a fact leaves the other records alone.
pub proof fn reserving_is_local(
    s: StoreModel,
    session: Text,
    op: OperationModel,
    purpose: FactKind,
    id: Text,
    other: Text,
)
    requires
        other != id,
    ensures
        fact_reserved(s, session, op, purpose, id) matches Ok(later) ==> position(
            later.records,
            other,
        ) == position(s.records, other) && (position(s.records, other) matches Some(i) ==> 0 <= i
            < s.records.len() && later.records[i] == s.records[i]),
{
    position_in_range(s.records, other);
    let body = BodyModel::Reserved(ReservedFactModel { purpose, operation_id: op.id });
    putting_is_local(s, session, id, op.task_id, body, other);
}

/// The rows that keep quota for a fact are such rows.
pub proof fn awaiting_reserve(
    records: Seq<RecordModel>,
    session: Text,
    purpose: FactKind,
    op: OperationModel,
)
    ensures
        forall|k: int|
            0 <= k < awaiting(records, session, purpose, op).len() ==> {
                let row = #[trigger] awaiting(records, session, purpose, op)[k];
                0 <= row < records.len() && reserves(records[row], session, purpose, op.id)
            },
    decreases records.len(),
{
    if records.len() > 0 {
        awaiting_reserve(records.drop_last(), session, purpose, op);
        let before = awaiting(records.drop_last(), session, purpose, op);
        let rows = awaiting(records, session, purpose, op);
        assert forall|k: int| 0 <= k < rows.len() implies {
            let row = #[trigger] rows[k];
            0 <= row < records.len() && reserves(records[row], session, purpose, op.id)
        } by {
            if k < before.len() {
                assert(before[k] == rows[k]);
                assert(records.drop_last()[rows[k]] == records[rows[k]]);
            }
        }
    }
}

/// Whether a body is a fact that a row is kept for.
pub open spec fn is_fact(purpose: FactKind, operation_id: Text, body: BodyModel) -> bool {
    body_follows(BodyModel::Reserved(ReservedFactModel { purpose, operation_id }), body)
        && !(body is Reserved)
}

/// Recording a fact in the row that is kept for it is growth, and leaves the records of other
/// kinds alone.
pub proof fn recording_grows(
    s: StoreModel,
    session: Text,
    op: OperationModel,
    purpose: FactKind,
    body: BodyModel,
)
    requires
        well_formed(s),
        is_fact(purpose, op.id, body),
    ensures
        fact_recorded(s, session, op, purpose, body) matches Ok(later) ==> {
            &&& well_formed(later)
            &&& grown(s, later)
            &&& !finds(body) ==> nothing_found(s.records, later.records)
            &&& found_only(s.records, later.records, session, purpose, op.id)
            &&& none_released(s.records, later.records)
            &&& forall|id: Text| #[trigger] position(later.records, id) == position(s.records, id)
            &&& later.records.len() == s.records.len()
            &&& forall|i: int|
                0 <= i < s.records.len() && !(s.records[i].body is Reserved)
                    ==> #[trigger] later.records[i] == s.records[i]
        },
{
    let rows = awaiting(s.records, session, purpose, op);
    awaiting_reserve(s.records, session, purpose, op);
    if rows.len() == 1 {
        let at = rows[0];
        replacing_keeps_tidy(s.records, at, body);
        let later = s.records.update(at, RecordModel { body, wire: None, ..s.records[at] });
        assert forall|id: Text| #[trigger] position(later, id) == position(s.records, id) by {
            same_ids_same_places(s.records, later, id);
        }
        list_untouched(s, StoreModel { records: later, ..s });
    }
}

/// Filing an operation that follows the recorded one, and changing its task, is growth.
pub proof fn operating_grows(s: StoreModel, session: Text, op: OperationModel, now: i64)
    requires
        well_formed(s),
        may_put(s, session, op.id, op.task_id, BodyModel::Operation(op)),
    ensures
        operation_saved(s, session, op, now) matches Ok(later) ==> quietly_grown(s, later),
{
    if operation_saved(s, session, op, now) is Ok {
        putting_grows(s, session, op.id, op.task_id, BodyModel::Operation(op));
        let filed = put(s, session, op.id, op.task_id, BodyModel::Operation(op))->Ok_0;
        let task = loaded::<Task>(filed, session, op.task_id)->Ok_0;
        position_in_range(filed.records, op.task_id);
        changing_grows(filed, task, "operation_changed"@, op.id, now);
        let later = operation_saved(s, session, op, now)->Ok_0;
        growth_is_transitive(s, filed, later);
    }
}

/// Claiming uploads is growth, and touches nothing but uploads.
pub proof fn claiming_grows(
    s: StoreModel,
    session: Text,
    task: Text,
    refs: Seq<FrozenInputRefModel>,
)
    requires
        well_formed(s),
    ensures
        claimed(s, session, task, refs) matches Ok(later) ==> {
            &&& well_formed(later)
            &&& grown(s, later)
            &&& later.records == s.records
            &&& later.receipts == s.receipts
        },
    decreases refs.len(),
{
    growth_is_reflexive(s);
    if refs.len() > 0 && claimed(s, session, task, refs) is Ok {
        claiming_grows(s, session, task, refs.drop_last());
        let before = claimed(s, session, task, refs.drop_last())->Ok_0;
        let later = claimed(s, session, task, refs)->Ok_0;
        upload_in_range(before.inputs, refs.last().input_id);
        list_untouched(before, later);
        assert(grown(before, later));
        growth_is_transitive(s, before, later);
    }
}

/// An upload is found under its identifier.
pub proof fn upload_found(inputs: Seq<InputRowModel>, i: int)
    requires
        0 <= i < inputs.len(),
    ensures
        input_at(inputs, inputs[i].id) is Some,
    decreases inputs.len(),
{
    if inputs.last().id != inputs[i].id {
        assert(inputs.drop_last()[i] == inputs[i]);
        upload_found(inputs.drop_last(), i);
    }
}

/// A delivery is found under its operation.
pub proof fn delivery_found(rows: Seq<DeliveryRowModel>, i: int)
    requires
        0 <= i < rows.len(),
    ensures
        delivery_at(rows, rows[i].operation_id) is Some,
    decreases rows.len(),
{
    if rows.last().operation_id != rows[i].operation_id {
        assert(rows.drop_last()[i] == rows[i]);
        delivery_found(rows.drop_last(), i);
    }
}

/// What is found under an operation is about it.
pub proof fn delivery_in_range(rows: Seq<DeliveryRowModel>, operation_id: Text)
    ensures
        delivery_at(rows, operation_id) matches Some(i) ==> 0 <= i < rows.len()
            && rows[i].operation_id == operation_id,
    decreases rows.len(),
{
    if rows.len() > 0 {
        delivery_in_range(rows.drop_last(), operation_id);
    }
}

/// What is found under an identifier bears it.
pub proof fn upload_in_range(inputs: Seq<InputRowModel>, id: Text)
    ensures
        input_at(inputs, id) matches Some(i) ==> 0 <= i < inputs.len() && inputs[i].id == id,
    decreases inputs.len(),
{
    if inputs.len() > 0 {
        upload_in_range(inputs.drop_last(), id);
    }
}

} // verus!
