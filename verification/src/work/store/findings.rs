//! What was found of an attempt, or of its start, is found for ever.
use vstd::prelude::*;
use crate::value::Text;
use crate::work::model::NativeStartRefusal;
use crate::work::model::ReconciliationEvidenceModel;
use crate::work::model::ReconciliationReceipt;
use crate::work::store::attempts::start_refusal_outcome;
use crate::work::store::facts::about;
use crate::work::store::facts::subject;
use crate::work::store::growth::finding_grows;
use crate::work::store::growth::refusing_start_grows;
use crate::work::store::history::finds;
use crate::work::store::history::grown;
use crate::work::store::history::nothing_found;
use crate::work::store::history::record_follows;
use crate::work::store::history::records_follow;
use crate::work::store::history::well_formed;
use crate::work::store::reconciliation::finding_outcome;
use crate::work::store::tables::RecordModel;
use crate::work::store::tables::StoreModel;
use crate::work::store::tables::Stored;

verus! {

/// Where nothing of one kind was recorded about an operation, what is found about it stays.
proof fn first_stays<T: Stored>(
    before: Seq<RecordModel>,
    later: Seq<RecordModel>,
    session: Text,
    operation_id: Text,
    n: int,
)
    requires
        records_follow(before, later),
        0 <= n <= later.len(),
        forall|i: int|
            0 <= i < later.len() && later[i].session == session && subject(
                (#[trigger] later[i]).body,
            ) == Some(operation_id) && T::of(later[i].body) is Some ==> i < before.len()
                && before[i].body == later[i].body,
        forall|i: int|
            0 <= i < before.len() && T::of((#[trigger] before[i]).body) is Some && subject(
                before[i].body,
            ) is Some ==> later[i].body == before[i].body,
    ensures
        about::<T>(later.take(n), session, operation_id) == about::<T>(
            before.take(if n < before.len() { n } else { before.len() as int }),
            session,
            operation_id,
        ),
    decreases n,
{
    if n > 0 {
        first_stays::<T>(before, later, session, operation_id, n - 1);
        assert(later.take(n).drop_last() =~= later.take(n - 1));
        assert(later.take(n).last() == later[n - 1]);
        if n <= before.len() {
            assert(before.take(n).drop_last() =~= before.take(n - 1));
            assert(before.take(n).last() == before[n - 1]);
            assert(record_follows(before[n - 1], later[n - 1]));
        }
    }
}

/// What was found of an attempt, and what was found of its start, stays found as the store goes on,
/// where nothing more is found. Every transaction finds nothing more, but for recording a
/// reconciliation and recording that a start made no process.
pub proof fn findings_stay(
    before: StoreModel,
    later: StoreModel,
    session: Text,
    operation_id: Text,
)
    requires
        grown(before, later),
        nothing_found(before.records, later.records),
    ensures
        about::<ReconciliationReceipt>(later.records, session, operation_id) == about::<
            ReconciliationReceipt,
        >(before.records, session, operation_id),
        about::<NativeStartRefusal>(later.records, session, operation_id) == about::<
            NativeStartRefusal,
        >(before.records, session, operation_id),
{
    let (a, b) = (before.records, later.records);
    kept_alike(before, later);
    assert forall|i: int| 0 <= i < b.len() && finds((#[trigger] b[i]).body) implies i < a.len()
        && a[i].body == b[i].body by {
        assert(finds(a[i].body));
    }
    first_stays::<ReconciliationReceipt>(a, b, session, operation_id, b.len() as int);
    first_stays::<NativeStartRefusal>(a, b, session, operation_id, b.len() as int);
    assert(a.take(a.len() as int) =~= a);
    assert(b.take(b.len() as int) =~= b);
}

proof fn kept_alike(before: StoreModel, later: StoreModel)
    requires
        grown(before, later),
    ensures
        forall|i: int|
            0 <= i < before.records.len() && finds((#[trigger] before.records[i]).body)
                ==> later.records[i].body == before.records[i].body,
{
    assert forall|i: int| 0 <= i < before.records.len() && finds(
        (#[trigger] before.records[i]).body,
    ) implies later.records[i].body == before.records[i].body by {
        assert(record_follows(before.records[i], later.records[i]));
    }
}

/// Recording what one reconciliation found changes nothing of what others found, nor of what it
/// found before, nor of what was found of any start.
pub proof fn reconciliations_leave_findings(
    s: StoreModel,
    session: Text,
    operation_id: Text,
    expected_revision: u64,
    evidence: ReconciliationEvidenceModel,
    now: i64,
    other_session: Text,
    other: Text,
)
    requires
        well_formed(s),
    ensures
        finding_outcome(s, session, operation_id, expected_revision, evidence, now) matches Ok(
            (later, _),
        ) ==> {
            &&& about::<ReconciliationReceipt>(s.records, other_session, other) is Some || other
                != operation_id || other_session != session ==> about::<ReconciliationReceipt>(
                later.records,
                other_session,
                other,
            ) == about::<ReconciliationReceipt>(s.records, other_session, other)
            &&& about::<NativeStartRefusal>(later.records, other_session, other) == about::<
                NativeStartRefusal,
            >(s.records, other_session, other)
        },
{
    finding_grows(s, session, operation_id, expected_revision, evidence, now);
    let outcome = finding_outcome(s, session, operation_id, expected_revision, evidence, now);
    if outcome is Ok {
        let later = outcome->Ok_0.0;
        let (a, b) = (s.records, later.records);
        kept_alike(s, later);
        assert(a.take(a.len() as int) =~= a);
        assert(b.take(b.len() as int) =~= b);
        first_stays::<NativeStartRefusal>(a, b, other_session, other, b.len() as int);
        if other != operation_id || other_session != session {
            first_stays::<ReconciliationReceipt>(a, b, other_session, other, b.len() as int);
        }
    }
}

/// Recording that one start made no process changes nothing of what was found of others, nor of
/// what was found of it before, nor of what any reconciliation found.
pub proof fn refusals_leave_findings(
    s: StoreModel,
    session: Text,
    operation_id: Text,
    owner_epoch: Text,
    receipt_id: Text,
    now: i64,
    other_session: Text,
    other: Text,
)
    requires
        well_formed(s),
    ensures
        start_refusal_outcome(s, session, operation_id, owner_epoch, receipt_id, now) matches Ok(
            (later, _),
        ) ==> {
            &&& about::<NativeStartRefusal>(s.records, other_session, other) is Some || other
                != operation_id || other_session != session ==> about::<NativeStartRefusal>(
                later.records,
                other_session,
                other,
            ) == about::<NativeStartRefusal>(s.records, other_session, other)
            &&& about::<ReconciliationReceipt>(later.records, other_session, other) == about::<
                ReconciliationReceipt,
            >(s.records, other_session, other)
        },
{
    refusing_start_grows(s, session, operation_id, owner_epoch, receipt_id, now);
    let outcome = start_refusal_outcome(s, session, operation_id, owner_epoch, receipt_id, now);
    if outcome is Ok {
        let later = outcome->Ok_0.0;
        let (a, b) = (s.records, later.records);
        kept_alike(s, later);
        assert(a.take(a.len() as int) =~= a);
        assert(b.take(b.len() as int) =~= b);
        first_stays::<ReconciliationReceipt>(a, b, other_session, other, b.len() as int);
        if other != operation_id || other_session != session {
            first_stays::<NativeStartRefusal>(a, b, other_session, other, b.len() as int);
        }
    }
}

} // verus!
