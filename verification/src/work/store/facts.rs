//! Facts about native steps, for which quota is kept before the step is taken.
use vstd::prelude::*;
use crate::text::text_eq;
use crate::value::Replica;
use crate::value::Text;
use crate::value::set_row;
use crate::work::model::FailureCode;
use crate::work::model::Operation;
use crate::work::model::OperationModel;
use crate::work::model::WorkError;
use crate::work::model::WorkResult;
use crate::work::store::records::put;
use crate::work::store::records::refuse;
use crate::work::store::records::refused;
use crate::work::store::tables::Body;
use crate::work::store::tables::BodyModel;
use crate::work::store::tables::FactKind;
use crate::work::store::tables::Record;
use crate::work::store::tables::RecordModel;
use crate::work::store::tables::ReservedFact;
use crate::work::store::tables::ReservedFactModel;
use crate::work::store::tables::StoreModel;
use crate::work::store::tables::Stored;
use crate::work::store::tables::WorkStore;

verus! {

/// A row that keeps quota for one fact about one operation.
pub open spec fn reserves(
    record: RecordModel,
    session: Text,
    purpose: FactKind,
    operation_id: Text,
) -> bool {
    &&& record.session == session
    &&& record.body matches BodyModel::Reserved(fact) && fact.purpose == purpose
        && fact.operation_id == operation_id
}

/// Whether quota is kept already.
pub open spec fn reserved(
    records: Seq<RecordModel>,
    session: Text,
    purpose: FactKind,
    operation_id: Text,
) -> bool {
    exists|i: int| 0 <= i < records.len() && reserves(records[i], session, purpose, operation_id)
}

/// The store after quota was kept for a fact.
pub open spec fn fact_reserved(
    s: StoreModel,
    session: Text,
    op: OperationModel,
    purpose: FactKind,
    id: Text,
) -> WorkResult<StoreModel> {
    if reserved(s.records, session, purpose, op.id) {
        Ok(s)
    } else {
        put(
            s,
            session,
            id,
            op.task_id,
            BodyModel::Reserved(ReservedFactModel { purpose, operation_id: op.id }),
        )
    }
}

/// Where the rows stand that keep quota for a fact under the operation's own task.
pub open spec fn awaiting(
    records: Seq<RecordModel>,
    session: Text,
    purpose: FactKind,
    op: OperationModel,
) -> Seq<int>
    decreases records.len(),
{
    if records.len() == 0 {
        Seq::empty()
    } else {
        let before = awaiting(records.drop_last(), session, purpose, op);
        if reserves(records.last(), session, purpose, op.id) && records.last().task_id
            == op.task_id {
            before.push(records.len() - 1)
        } else {
            before
        }
    }
}

/// The store after a fact took the one row that was kept for it.
pub open spec fn fact_recorded(
    s: StoreModel,
    session: Text,
    op: OperationModel,
    purpose: FactKind,
    body: BodyModel,
) -> WorkResult<StoreModel> {
    let rows = awaiting(s.records, session, purpose, op);
    if rows.len() == 1 {
        Ok(
            StoreModel {
                records: s.records.update(rows[0], RecordModel { body, wire: None, ..s.records[rows[0]] }),
                ..s
            },
        )
    } else {
        refused(FailureCode::StorageUnavailable)
    }
}

/// The operation that a fact or an intent is about.
pub open spec fn subject(body: BodyModel) -> Option<Text> {
    match body {
        BodyModel::ReconciliationIntent(intent) => Some(intent.operation_id),
        BodyModel::Reconciliation(receipt) => Some(receipt.operation_id),
        BodyModel::StartRefusal(refusal) => Some(refusal.start_operation_id),
        _ => None,
    }
}

/// The first value of one kind about an operation.
pub open spec fn about<T: Stored>(
    records: Seq<RecordModel>,
    session: Text,
    operation_id: Text,
) -> Option<T::V>
    decreases records.len(),
{
    if records.len() == 0 {
        None
    } else {
        match about::<T>(records.drop_last(), session, operation_id) {
            Some(value) => Some(value),
            None => {
                let last = records.last();
                if last.session == session && subject(last.body) == Some(operation_id) {
                    T::of(last.body)
                } else {
                    None
                }
            },
        }
    }
}

pub proof fn awaiting_in_range(
    records: Seq<RecordModel>,
    session: Text,
    purpose: FactKind,
    op: OperationModel,
)
    ensures
        forall|k: int|
            0 <= k < awaiting(records, session, purpose, op).len() ==> 0 <= #[trigger] awaiting(
                records,
                session,
                purpose,
                op,
            )[k] < records.len(),
    decreases records.len(),
{
    if records.len() > 0 {
        awaiting_in_range(records.drop_last(), session, purpose, op);
        let before = awaiting(records.drop_last(), session, purpose, op);
        let rows = awaiting(records, session, purpose, op);
        assert forall|k: int| 0 <= k < rows.len() implies 0 <= #[trigger] rows[k]
            < records.len() by {
            if k < before.len() {
                assert(before[k] == rows[k]);
            }
        }
    }
}

fn keeps(record: &Record, session: &str, purpose: FactKind, operation_id: &str) -> (res: bool)
    ensures
        res == reserves(record.deep_view(), session@, purpose, operation_id@),
{
    match &record.body {
        Body::Reserved(fact) => {
            text_eq(record.session.as_str(), session) && fact.purpose == purpose && text_eq(
                fact.operation_id.as_str(),
                operation_id,
            )
        },
        _ => false,
    }
}

fn concerns(body: &Body, operation_id: &str) -> (res: bool)
    ensures
        res == (subject(body.deep_view()) == Some(operation_id@)),
{
    match body {
        Body::ReconciliationIntent(intent) => text_eq(intent.operation_id.as_str(), operation_id),
        Body::Reconciliation(receipt) => text_eq(receipt.operation_id.as_str(), operation_id),
        Body::StartRefusal(refusal) => text_eq(refusal.start_operation_id.as_str(), operation_id),
        _ => false,
    }
}

impl WorkStore {
    /// Keeps quota for a fact; the fact later takes this row instead of a new one.
    pub(crate) fn reserve_fact(
        &mut self,
        session: &str,
        op: &Operation,
        purpose: FactKind,
        id: &str,
    ) -> (res: WorkResult<()>)
        ensures
            match fact_reserved(old(self)@, session@, op.deep_view(), purpose, id@) {
                Ok(next) => res is Ok && final(self)@ == next,
                Err(error) => res == Err::<(), WorkError>(error) && final(self)@ == old(self)@,
            },
    {
        let mut i: usize = 0;
        while i < self.records.len()
            invariant
                i <= self.records.len(),
                self@ == old(self)@,
                forall|k: int|
                    0 <= k < i ==> !reserves(
                        #[trigger] self@.records[k],
                        session@,
                        purpose,
                        op.deep_view().id,
                    ),
            decreases self.records.len() - i,
        {
            if keeps(&self.records[i], session, purpose, op.id.as_str()) {
                assert(reserves(self@.records[i as int], session@, purpose, op.deep_view().id));
                return Ok(());
            }
            i += 1;
        }
        let fact = ReservedFact { purpose, operation_id: op.id.clone() };
        self.put(session, id, op.task_id.as_str(), Body::Reserved(fact))
    }

    /// Records a fact in the one row that was kept for it.
    pub(crate) fn fulfill_fact(
        &mut self,
        session: &str,
        op: &Operation,
        purpose: FactKind,
        body: Body,
    ) -> (res: WorkResult<()>)
        ensures
            match fact_recorded(old(self)@, session@, op.deep_view(), purpose, body.deep_view()) {
                Ok(next) => res is Ok && final(self)@ == next,
                Err(error) => res == Err::<(), WorkError>(error) && final(self)@ == old(self)@,
            },
    {
        let ghost all = self@.records;
        let ghost model = op.deep_view();
        let mut at: usize = 0;
        let mut count: usize = 0;
        let mut i: usize = 0;
        while i < self.records.len()
            invariant
                i <= self.records.len(),
                count <= i,
                all == self@.records,
                self@ == old(self)@,
                model == op.deep_view(),
                awaiting(all.take(i as int), session@, purpose, model).len() == count,
                count > 0 ==> at < i && awaiting(all.take(i as int), session@, purpose, model)[count
                    - 1] == at,
            decreases self.records.len() - i,
        {
            assert(all.take(i + 1).drop_last() =~= all.take(i as int));
            if keeps(&self.records[i], session, purpose, op.id.as_str()) && text_eq(
                self.records[i].task_id.as_str(),
                op.task_id.as_str(),
            ) {
                at = i;
                count += 1;
            }
            i += 1;
        }
        assert(all.take(i as int) =~= all);
        if count != 1 {
            return refuse(FailureCode::StorageUnavailable);
        }
        let record = Record {
            id: self.records[at].id.clone(),
            session: self.records[at].session.clone(),
            task_id: self.records[at].task_id.clone(),
            body,
            wire: None,
        };
        set_row(&mut self.records, at, record);
        Ok(())
    }

    /// The first value of one kind about an operation.
    pub(crate) fn record_by_operation<T: Stored>(&self, session: &str, operation_id: &str) -> (res:
        Option<T>)
        ensures
            res.deep_view() == about::<T>(self@.records, session@, operation_id@),
    {
        let ghost all = self@.records;
        let mut found: Option<T> = None;
        let mut i: usize = 0;
        while i < self.records.len()
            invariant
                i <= self.records.len(),
                all == self@.records,
                found.deep_view() == about::<T>(all.take(i as int), session@, operation_id@),
            decreases self.records.len() - i,
        {
            assert(all.take(i + 1).drop_last() =~= all.take(i as int));
            let record = &self.records[i];
            if found.is_none() && text_eq(record.session.as_str(), session) && concerns(
                &record.body,
                operation_id,
            ) {
                found = match T::of_body(&record.body) {
                    Some(value) => Some(value.replica()),
                    None => None,
                };
            }
            i += 1;
        }
        assert(all.take(i as int) =~= all);
        found
    }
}

} // verus!
