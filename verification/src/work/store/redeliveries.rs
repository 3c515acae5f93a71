//! How a prompt is answered that may have been delivered before, and what rows are kept for what
//! is yet to be found.
use vstd::prelude::*;
use crate::value::Text;
use crate::work::model::DelegationFenceModel;
use crate::work::model::FailureCode;
use crate::work::model::MutationModel;
use crate::work::model::Operation;
use crate::work::model::OperationKind;
use crate::work::model::OperationModel;
use crate::work::model::Task;
use crate::work::model::WorkError;
use crate::work::store::admissions::fences_in_force_coordinate;
use crate::work::store::admissions::in_force;
use crate::work::store::authority::governs_id;
use crate::work::store::deliveries::DeliveryModel;
use crate::work::store::deliveries::client_digest;
use crate::work::store::deliveries::delivery_at;
use crate::work::store::deliveries::delivery_replayed;
use crate::work::store::deliveries::delivery_request;
use crate::work::store::deliveries::fenced_replayed;
use crate::work::store::deliveries::retried;
use crate::work::store::deliveries::tried;
use crate::work::store::effects::put_lands;
use crate::work::store::effects::same_place;
use crate::work::store::effects::unanswered_is_new;
use crate::work::store::facts::fact_reserved;
use crate::work::store::facts::reserved;
use crate::work::store::facts::reserves;
use crate::work::store::history::found_where_filed;
use crate::work::store::history::unused;
use crate::work::store::history::well_formed;
use crate::work::store::inputs::valid_refs;
use crate::work::store::readings::reads_give_what_is_recorded;
use crate::work::store::records::loaded;
use crate::work::store::records::position;
use crate::work::store::records::position_in_range;
use crate::work::store::requests::receipt_at;
use crate::work::store::requests::receipt_in_range;
use crate::work::store::tables::BodyModel;
use crate::work::store::tables::FactKind;
use crate::work::store::tables::ReceiptBodyModel;
use crate::work::store::tables::RequestKind;
use crate::work::store::tables::ReservedFactModel;
use crate::work::store::tables::StoreModel;

verus! {

/// Whether a receipt is that of a prompt under a key.
pub open spec fn is_prompt_receipt(
    s: StoreModel,
    actor: Text,
    session: Text,
    key: Text,
    i: int,
) -> bool {
    &&& 0 <= i < s.receipts.len()
    &&& s.receipts[i].actor == actor
    &&& s.receipts[i].session == session
    &&& s.receipts[i].kind == RequestKind::Work(OperationKind::DeliverPrompt)
    &&& s.receipts[i].request_key == key
}

/// Whether a row of the deliveries is about an operation.
pub open spec fn is_row_of(s: StoreModel, operation_id: Text, j: int) -> bool {
    0 <= j < s.deliveries.len() && s.deliveries[j].operation_id == operation_id
}

/// Whether a prompt that was recorded is the one that is asked for again: its row has the digest
/// that is expected, or, where it has no row and no inputs, its receipt has the older digest.
pub open spec fn is_asked_again(
    s: StoreModel,
    i: int,
    first: OperationModel,
    expected: Text,
    legacy: Option<Text>,
) -> bool {
    if exists|j: int| #[trigger] is_row_of(s, first.id, j) {
        exists|j: int| #[trigger]
            is_row_of(s, first.id, j) && s.deliveries[j].request_digest == expected
    } else {
        first.input_refs.len() == 0 && legacy == Some(s.receipts[i].digest)
    }
}

proof fn rows_are_found(s: StoreModel, operation_id: Text)
    ensures
        delivery_at(s.deliveries, operation_id) matches Some(j) ==> is_row_of(s, operation_id, j),
        delivery_at(s.deliveries, operation_id) is None ==> forall|j: int|
            !#[trigger] is_row_of(s, operation_id, j),
    decreases s.deliveries.len(),
{
    if s.deliveries.len() > 0 {
        let rest = StoreModel { deliveries: s.deliveries.drop_last(), ..s };
        rows_are_found(rest, operation_id);
        if delivery_at(s.deliveries, operation_id) is None {
            assert forall|j: int| !#[trigger] is_row_of(s, operation_id, j) by {
                if is_row_of(s, operation_id, j) && j < rest.deliveries.len() {
                    assert(is_row_of(rest, operation_id, j));
                }
            }
        }
    }
}

/// A prompt under a new key was not delivered before. One under a known key is answered with the
/// operation that was recorded, as it stands now, exactly where it is the one that is asked for
/// again, and is a conflict otherwise.
pub proof fn prompts_are_answered_again_exactly(
    s: StoreModel,
    actor: Text,
    session: Text,
    key: Text,
    expected: Text,
    legacy: Option<Text>,
)
    requires
        well_formed(s),
    ensures
        ({
            let res = delivery_replayed(s, actor, session, key, expected, legacy);
            &&& (forall|i: int| !#[trigger] is_prompt_receipt(s, actor, session, key, i)) ==> res
                == Ok::<Option<MutationModel<OperationModel>>, WorkError>(None)
            &&& res matches Ok(None) ==> forall|i: int|
                !#[trigger] is_prompt_receipt(s, actor, session, key, i)
            &&& res matches Ok(Some(found)) ==> found.replayed && exists|i: int|
                {
                    &&& #[trigger] is_prompt_receipt(s, actor, session, key, i)
                    &&& s.receipts[i].body matches ReceiptBodyModel::Operation(first) && loaded::<
                        Operation,
                    >(s, session, first.id) == Ok::<OperationModel, WorkError>(found.value)
                        && is_asked_again(s, i, first, expected, legacy)
                }
            &&& res matches Err(error) ==> (error.0 == FailureCode::RequestKeyConflict ==> exists|
                i: int,
            |
                {
                    &&& #[trigger] is_prompt_receipt(s, actor, session, key, i)
                    &&& s.receipts[i].body matches ReceiptBodyModel::Operation(first)
                        && !is_asked_again(s, i, first, expected, legacy)
                })
            &&& res matches Err(error) ==> error.0 == FailureCode::RequestKeyConflict || error.0
                == FailureCode::StorageUnavailable || error.0 == FailureCode::NotFound
        }),
{
    let kind = RequestKind::Work(OperationKind::DeliverPrompt);
    receipt_in_range(s.receipts, actor, session, kind, key);
    match receipt_at(s.receipts, actor, session, kind, key) {
        None => {
            unanswered_is_new(s.receipts, actor, session, kind, key);
        },
        Some(i) => {
            assert(is_prompt_receipt(s, actor, session, key, i));
            if let ReceiptBodyModel::Operation(first) = s.receipts[i].body {
                rows_are_found(s, first.id);
                reads_give_what_is_recorded(s, session, first.id);
                if let Some(j) = delivery_at(s.deliveries, first.id) {
                    assert(is_row_of(s, first.id, j));
                    assert forall|k: int| #[trigger] is_row_of(s, first.id, k) implies k == j by {
                        if k < j {
                            assert(s.deliveries[k].operation_id != s.deliveries[j].operation_id);
                        } else if j < k {
                            assert(s.deliveries[j].operation_id != s.deliveries[k].operation_id);
                        }
                    }
                }
            }
        },
    }
}

/// A coordinator is answered again only with what it asked for under its own fence, of a task that
/// it governs, while the fence is in force.
pub proof fn coordinators_are_answered_under_their_fence(
    s: StoreModel,
    actor: Text,
    session: Text,
    key: Text,
    digest: Text,
    fence: DelegationFenceModel,
)
    requires
        well_formed(s),
    ensures
        ({
            let res = fenced_replayed(s, actor, session, key, digest, fence);
            let before = delivery_replayed(s, actor, session, key, digest, None);
            &&& res is Ok ==> in_force(s, session, fence)
            &&& res matches Ok(Some(found)) ==> before == Ok::<
                Option<MutationModel<OperationModel>>,
                WorkError,
            >(Some(found)) && found.value.delegation_fence == Some(fence) && governs_id(
                s,
                session,
                fence,
                found.value.task_id,
            ) is Ok
            &&& in_force(s, session, fence) && (before matches Ok(Some(found))
                && found.value.delegation_fence == Some(fence) && governs_id(
                s,
                session,
                fence,
                found.value.task_id,
            ) is Ok) ==> res == before
            &&& in_force(s, session, fence) ==> (before matches Ok(None) ==> res == before)
            &&& in_force(
                s,
                session,
                fence,
            ) ==> (before matches Err(error) ==> (res matches Err(other)
                && other == error))
        }),
{
    fences_in_force_coordinate(s, session, fence);
}

/// Whether a try is a conflict.
pub open spec fn conflicts(
    s: StoreModel,
    d: DeliveryModel,
    version: Option<Text>,
    fence: Option<DelegationFenceModel>,
) -> bool {
    tried(s, d, version, fence) matches Err(error) && error.0 == FailureCode::RequestKeyConflict
}

/// Several versions are tried in order: the answer is that of the first that is no conflict, and a
/// conflict where every one is.
pub proof fn the_first_that_fits_answers(
    s: StoreModel,
    d: DeliveryModel,
    versions: Seq<Option<Text>>,
    fence: Option<DelegationFenceModel>,
)
    ensures
        ({
            let res = retried(s, d, versions, fence);
            ||| (forall|k: int| 0 <= k < versions.len() ==> conflicts(s, d, #[trigger] versions[k], fence))
                && (res matches Err(error) && error.0 == FailureCode::RequestKeyConflict)
            ||| exists|k: int|
                {
                    &&& 0 <= k < versions.len()
                    &&& !conflicts(s, d, #[trigger] versions[k], fence)
                    &&& res == tried(s, d, versions[k], fence)
                    &&& forall|j: int| 0 <= j < k ==> conflicts(s, d, #[trigger] versions[j], fence)
                }
        }),
    decreases versions.len(),
{
    if versions.len() > 0 {
        let rest = versions.drop_first();
        assert(versions[0] == versions.first());
        if conflicts(s, d, versions[0], fence) {
            the_first_that_fits_answers(s, d, rest, fence);
            if forall|k: int| 0 <= k < rest.len() ==> conflicts(s, d, #[trigger] rest[k], fence) {
                assert forall|k: int| 0 <= k < versions.len() implies conflicts(
                    s,
                    d,
                    #[trigger] versions[k],
                    fence,
                ) by {
                    if k > 0 {
                        assert(rest[k - 1] == versions[k]);
                    }
                }
            } else {
                let k = choose|k: int|
                    {
                        &&& 0 <= k < rest.len()
                        &&& !conflicts(s, d, #[trigger] rest[k], fence)
                        &&& retried(s, d, rest, fence) == tried(s, d, rest[k], fence)
                        &&& forall|j: int| 0 <= j < k ==> conflicts(s, d, #[trigger] rest[j], fence)
                    };
                assert(versions[k + 1] == rest[k]);
                assert forall|j: int| 0 <= j < k + 1 implies conflicts(
                    s,
                    d,
                    #[trigger] versions[j],
                    fence,
                ) by {
                    if j > 0 {
                        assert(rest[j - 1] == versions[j]);
                    }
                }
            }
        } else {
            assert(!conflicts(s, d, versions[0], fence));
        }
    }
}

/// Each try compares with the digest of the prompt under that version: with its fence for a
/// coordinator, and for anybody else also with the older digest, which knows no inputs.
pub proof fn tries_compare_digests(
    s: StoreModel,
    d: DeliveryModel,
    version: Option<Text>,
    fence: Option<DelegationFenceModel>,
)
    requires
        valid_refs(d.input_refs),
    ensures
        ({
            let asked = DeliveryModel { instruction_version: version, ..d };
            &&& fence matches Some(held) ==> tried(s, d, version, fence) == fenced_replayed(
                s,
                d.actor,
                d.session,
                d.key,
                client_digest(asked, Some(held)),
                held,
            )
            &&& fence is None ==> tried(s, d, version, fence) == delivery_replayed(
                s,
                d.actor,
                d.session,
                d.key,
                client_digest(asked, None),
                if d.input_refs.len() == 0 {
                    Some(delivery_request(asked, None, None).digest)
                } else {
                    None
                },
            )
        }),
{
}

/// Whether a row is kept for what an operation is yet to be found to have done.
pub open spec fn keeps_a_row(
    s: StoreModel,
    session: Text,
    purpose: FactKind,
    operation_id: Text,
) -> bool {
    exists|i: int|
        0 <= i < s.records.len() && (#[trigger] s.records[i]).session == session && s.records[i].body
            == BodyModel::Reserved(ReservedFactModel { purpose, operation_id })
}

/// A row that is kept is kept: afterwards there is one for the purpose and the operation, and
/// where there was one before, nothing changes.
pub proof fn rows_are_kept(
    s: StoreModel,
    session: Text,
    op: OperationModel,
    purpose: FactKind,
    id: Text,
)
    requires
        unused(s, id),
    ensures
        fact_reserved(s, session, op, purpose, id) matches Ok(later) ==> {
            &&& keeps_a_row(later, session, purpose, op.id)
            &&& keeps_a_row(s, session, purpose, op.id) ==> later == s
            &&& !keeps_a_row(
                s,
                session,
                purpose,
                op.id,
            ) ==> later.records.len() == s.records.len() + 1
                && later.records.last().id == id && later.records.last().task_id == op.task_id
        },
{
    if let Ok(later) = fact_reserved(s, session, op, purpose, id) {
        let body = BodyModel::Reserved(ReservedFactModel { purpose, operation_id: op.id });
        if reserved(s.records, session, purpose, op.id) {
            let i = choose|i: int|
                0 <= i < s.records.len() && reserves(
                    #[trigger] s.records[i],
                    session,
                    purpose,
                    op.id,
                );
            assert(s.records[i].body == body);
        } else {
            put_lands(s, session, id, op.task_id, body);
            let at = position(later.records, id)->0;
            assert(later.records[at].body == body && later.records[at].session == session);
            assert forall|i: int|
                0 <= i < s.records.len() && (#[trigger] s.records[i]).session == session
                    && s.records[i].body == body implies false by {
                assert(reserves(s.records[i], session, purpose, op.id));
            }
        }
    }
}

/// A row that is kept stays while a task is changed.
pub proof fn rows_stay_kept(
    s: StoreModel,
    later: StoreModel,
    session: Text,
    purpose: FactKind,
    operation_id: Text,
    task_id: Text,
)
    requires
        well_formed(s),
        keeps_a_row(s, session, purpose, operation_id),
        loaded::<Task>(s, session, task_id) is Ok,
        forall|other: Text| other != task_id ==> #[trigger] same_place(s, later, other),
        s.records.len() <= later.records.len(),
    ensures
        keeps_a_row(later, session, purpose, operation_id),
{
    let i = choose|i: int|
        0 <= i < s.records.len() && (#[trigger] s.records[i]).session == session && s.records[i].body
            == BodyModel::Reserved(ReservedFactModel { purpose, operation_id });
    found_where_filed(s.records, i);
    position_in_range(s.records, task_id);
    assert(s.records[i].id != task_id);
    assert(same_place(s, later, s.records[i].id));
    assert(later.records[i] == s.records[i]);
}

} // verus!
