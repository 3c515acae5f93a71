//! Opening a store, and what becomes of operations that were going out when it was last closed.
use vstd::prelude::*;
use crate::value::Replica;
use crate::value::no_items;
use crate::work::model::FailureCode;
use crate::work::model::OperationModel;
use crate::work::model::OperationState;
use crate::work::model::Task;
use crate::work::model::WorkError;
use crate::work::model::WorkResult;
use crate::work::store::changes::changed;
use crate::work::store::records::loaded;
use crate::work::store::records::put;
use crate::work::store::tables::Body;
use crate::work::store::tables::BodyModel;
use crate::work::store::tables::Record;
use crate::work::store::tables::RecordModel;
use crate::work::store::tables::StoreModel;
use crate::work::store::tables::WorkStore;
use crate::work::store::task_list::summaries_rebuilt;

verus! {

/// An operation whose effect is not known because the store was closed while it went out.
pub open spec fn lost(op: OperationModel) -> OperationModel {
    OperationModel {
        state: OperationState::Unconfirmed,
        failure_code: Some(FailureCode::DeliveryUnconfirmed),
        ..op
    }
}

/// The store after one record was looked at: an operation that was going out is lost, and its
/// task is changed on its account at the time that it last changed.
pub open spec fn operation_recovered(s: StoreModel, record: RecordModel) -> WorkResult<StoreModel> {
    match record.body {
        BodyModel::Operation(op) => if op.state == OperationState::Submitting {
            let after = lost(op);
            match put(s, record.session, op.id, op.task_id, BodyModel::Operation(after)) {
                Err(error) => Err(error),
                Ok(filed) => match loaded::<Task>(filed, record.session, op.task_id) {
                    Err(error) => Err(error),
                    Ok(task) => match changed(
                        filed,
                        task,
                        "operation_recovered"@,
                        op.id,
                        task.updated_at_ms,
                    ) {
                        Err(error) => Err(error),
                        Ok((next, _)) => Ok(next),
                    },
                },
            }
        } else {
            Ok(s)
        },
        _ => Ok(s),
    }
}

/// The store after every record, as it stood at the start, was looked at.
pub open spec fn all_recovered(s: StoreModel, records: Seq<RecordModel>) -> WorkResult<StoreModel>
    decreases records.len(),
{
    if records.len() == 0 {
        Ok(s)
    } else {
        match all_recovered(s, records.drop_last()) {
            Err(error) => Err(error),
            Ok(before) => operation_recovered(before, records.last()),
        }
    }
}

/// A store as it is opened: the task list is built, and lost operations are marked.
pub open spec fn opened(s: StoreModel) -> WorkResult<StoreModel> {
    let listed_store = summaries_rebuilt(s).0;
    all_recovered(listed_store, listed_store.records)
}

/// A store with nothing in it, ready for use.
pub open spec fn empty_store() -> StoreModel {
    StoreModel {
        records: Seq::empty(),
        receipts: Seq::empty(),
        changes: Seq::empty(),
        last_cursor: 0,
        inputs: Seq::empty(),
        deliveries: Seq::empty(),
        summaries: Seq::empty(),
        activity: Seq::empty(),
        watermarks: Seq::empty(),
        summaries_ready: true,
    }
}

proof fn failed_recovery_stays(s: StoreModel, records: Seq<RecordModel>, n: int)
    requires
        0 <= n <= records.len(),
        all_recovered(s, records.take(n)) is Err,
    ensures
        all_recovered(s, records) == all_recovered(s, records.take(n)),
    decreases records.len() - n,
{
    if n == records.len() {
        assert(records.take(n) =~= records);
    } else {
        assert(records.take(n + 1).drop_last() =~= records.take(n));
        failed_recovery_stays(s, records, n + 1);
    }
}

impl WorkStore {
    /// Looks at one record. On failure the caller discards the store.
    fn recover_one(&mut self, record: &Record) -> (res: WorkResult<()>)
        ensures
            match operation_recovered(old(self)@, record.deep_view()) {
                Ok(next) => res is Ok && final(self)@ == next,
                Err(error) => res == Err::<(), WorkError>(error),
            },
    {
        match &record.body {
            Body::Operation(op) => {
                if op.state == OperationState::Submitting {
                    let mut after = op.replica();
                    after.state = OperationState::Unconfirmed;
                    after.failure_code = Some(FailureCode::DeliveryUnconfirmed);
                    let session = record.session.as_str();
                    self.put(
                        session,
                        op.id.as_str(),
                        op.task_id.as_str(),
                        Body::Operation(after),
                    )?;
                    let task = self.load::<Task>(session, op.task_id.as_str())?;
                    let now: i64 = task.updated_at_ms;
                    let _ = self.change(task, "operation_recovered", op.id.as_str(), now)?;
                }
                Ok(())
            },
            _ => Ok(()),
        }
    }

    /// Marks operations that were going out as lost. On failure the caller discards the store.
    fn recover(&mut self) -> (res: WorkResult<()>)
        ensures
            match all_recovered(old(self)@, old(self)@.records) {
                Ok(next) => res is Ok && final(self)@ == next,
                Err(error) => res == Err::<(), WorkError>(error),
            },
    {
        let records = self.records.replica();
        let ghost all = records.deep_view();
        let ghost first = self@;
        let mut i: usize = 0;
        while i < records.len()
            invariant
                i <= records.len(),
                first == old(self)@,
                all == first.records,
                all == records.deep_view(),
                all_recovered(first, all.take(i as int)) == Ok::<StoreModel, WorkError>(self@),
            decreases records.len() - i,
        {
            assert(all.take(i + 1).drop_last() =~= all.take(i as int));
            proof {
                if all_recovered(first, all.take(i + 1)) is Err {
                    failed_recovery_stays(first, all, i + 1);
                }
            }
            self.recover_one(&records[i])?;
            i += 1;
        }
        assert(all.take(i as int) =~= all);
        Ok(())
    }

    /// Opens a store from its tables. A task list that cannot be built does not keep the store
    /// from being opened.
    pub fn initialize(tables: WorkStore) -> (res: WorkResult<WorkStore>)
        ensures
            match opened(tables@) {
                Ok(next) => res is Ok && res->Ok_0@ == next,
                Err(error) => res == Err::<WorkStore, WorkError>(error),
            },
    {
        let mut store = tables;
        let _ = store.rebuild_summaries();
        store.recover()?;
        Ok(store)
    }

    /// A store with nothing in it.
    pub fn in_memory() -> (res: WorkResult<WorkStore>)
        ensures
            res is Ok,
            res->Ok_0@ == empty_store(),
    {
        let tables = WorkStore {
            records: no_items(),
            receipts: no_items(),
            changes: no_items(),
            last_cursor: 0,
            inputs: no_items(),
            deliveries: no_items(),
            summaries: no_items(),
            activity: no_items(),
            watermarks: no_items(),
            summaries_ready: false,
        };
        Self::initialize(tables)
    }
}

} // verus!
