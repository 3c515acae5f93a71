//! Filing and finding records.
use vstd::prelude::*;
use crate::text::text_eq;
use crate::value::Replica;
use crate::value::Text;
use crate::value::add_row;
use crate::value::set_row;
use crate::value::shown;
use crate::work::model::FailureCode;
use crate::work::model::WorkError;
use crate::work::model::WorkResult;
use crate::work::store::tables::Body;
use crate::work::store::tables::BodyModel;
use crate::work::store::tables::Record;
use crate::work::store::tables::RecordModel;
use crate::work::store::tables::StoreModel;
use crate::work::store::tables::Stored;
use crate::work::store::tables::WorkStore;

verus! {

/// How many records one task may have.
pub const MAX_RECORDS: usize = 1024;

/// A refusal.
pub open spec fn refused<T>(code: FailureCode) -> WorkResult<T> {
    Err(WorkError(code))
}

/// A refusal.
pub fn refuse<T>(code: FailureCode) -> (res: WorkResult<T>)
    ensures
        res == refused::<T>(code),
{
    Err(WorkError(code))
}

/// Where the record with an identifier stands.
pub open spec fn position(records: Seq<RecordModel>, id: Text) -> Option<int>
    decreases records.len(),
{
    if records.len() == 0 {
        None
    } else if records.last().id == id {
        Some(records.len() - 1)
    } else {
        position(records.drop_last(), id)
    }
}

/// The value filed under an identifier in a session, if it is of the kind asked for.
pub open spec fn loaded<T: Stored>(s: StoreModel, session: Text, id: Text) -> WorkResult<T::V> {
    match position(s.records, id) {
        Some(i) => if s.records[i].session == session {
            match T::of(s.records[i].body) {
                Some(value) => Ok(value),
                None => refused(FailureCode::NotFound),
            }
        } else {
            refused(FailureCode::NotFound)
        },
        None => refused(FailureCode::NotFound),
    }
}

/// How many records a session has under a task.
pub open spec fn filed(records: Seq<RecordModel>, session: Text, task: Text) -> nat
    decreases records.len(),
{
    if records.len() == 0 {
        0
    } else {
        let before = filed(records.drop_last(), session, task);
        if records.last().session == session && records.last().task_id == task {
            before + 1
        } else {
            before
        }
    }
}

/// The store after a body was filed: in place of the old one under a known identifier,
/// as a new record where the task has room for one.
pub open spec fn put(
    s: StoreModel,
    session: Text,
    id: Text,
    task: Text,
    body: BodyModel,
) -> WorkResult<StoreModel> {
    match position(s.records, id) {
        Some(i) => Ok(
            StoreModel {
                records: s.records.update(i, RecordModel { body, wire: None, ..s.records[i] }),
                ..s
            },
        ),
        None => if filed(s.records, session, task) >= MAX_RECORDS {
            refused(FailureCode::ResourceLimit)
        } else {
            Ok(
                StoreModel {
                    records: s.records.push(RecordModel { id, session, task_id: task, body, wire: None }),
                    ..s
                },
            )
        },
    }
}

/// The values of one kind under a task, in the order in which they were first filed.
pub open spec fn listed<T: Stored>(records: Seq<RecordModel>, session: Text, task: Text) -> Seq<
    T::V,
>
    decreases records.len(),
{
    if records.len() == 0 {
        Seq::empty()
    } else {
        let before = listed::<T>(records.drop_last(), session, task);
        let last = records.last();
        match T::of(last.body) {
            Some(value) => if last.session == session && last.task_id == task {
                before.push(value)
            } else {
                before
            },
            None => before,
        }
    }
}

pub proof fn position_in_range(records: Seq<RecordModel>, id: Text)
    ensures
        position(records, id) matches Some(i) ==> 0 <= i < records.len() && records[i].id == id,
    decreases records.len(),
{
    if records.len() > 0 && records.last().id != id {
        position_in_range(records.drop_last(), id);
    }
}

impl WorkStore {
    /// Where the record with an identifier stands.
    pub(crate) fn find(&self, id: &str) -> (res: Option<usize>)
        ensures
            match res {
                Some(i) => position(self@.records, id@) == Some(i as int) && i < self.records.len(),
                None => position(self@.records, id@) is None,
            },
    {
        let ghost all = self@.records;
        let mut i: usize = self.records.len();
        assert(all.take(i as int) =~= all);
        while i > 0
            invariant
                i <= self.records.len(),
                all == self@.records,
                position(all, id@) == position(all.take(i as int), id@),
            decreases i,
        {
            i -= 1;
            assert(all.take(i + 1).drop_last() =~= all.take(i as int));
            if text_eq(self.records[i].id.as_str(), id) {
                return Some(i);
            }
        }
        None
    }

    /// Reads one value.
    pub fn load<T: Stored>(&self, session: &str, id: &str) -> (res: WorkResult<T>)
        ensures
            shown(res) == loaded::<T>(self@, session@, id@),
    {
        match self.find(id) {
            Some(i) => {
                let record = &self.records[i];
                if !text_eq(record.session.as_str(), session) {
                    return refuse(FailureCode::NotFound);
                }
                match T::of_body(&record.body) {
                    Some(value) => Ok(value.replica()),
                    None => refuse(FailureCode::NotFound),
                }
            },
            None => refuse(FailureCode::NotFound),
        }
    }

    /// Whether a task has no room for another record.
    fn full(&self, session: &str, task: &str) -> (res: bool)
        ensures
            res == (filed(self@.records, session@, task@) >= MAX_RECORDS),
    {
        let ghost all = self@.records;
        let mut count: usize = 0;
        let mut i: usize = 0;
        while i < self.records.len()
            invariant
                i <= self.records.len(),
                count <= i,
                all == self@.records,
                count == filed(all.take(i as int), session@, task@),
            decreases self.records.len() - i,
        {
            assert(all.take(i + 1).drop_last() =~= all.take(i as int));
            let record = &self.records[i];
            if text_eq(record.session.as_str(), session) && text_eq(record.task_id.as_str(), task) {
                count += 1;
            }
            i += 1;
        }
        assert(all.take(i as int) =~= all);
        count >= MAX_RECORDS
    }

    /// Files a body, replacing the one under a known identifier. Fails without effect.
    pub fn put(&mut self, session: &str, id: &str, task: &str, body: Body) -> (res: WorkResult<()>)
        ensures
            match put(old(self)@, session@, id@, task@, body.deep_view()) {
                Ok(next) => res is Ok && final(self)@ == next,
                Err(error) => res == Err::<(), WorkError>(error) && final(self)@ == old(self)@,
            },
    {
        match self.find(id) {
            Some(i) => {
                let record = Record {
                    id: self.records[i].id.clone(),
                    session: self.records[i].session.clone(),
                    task_id: self.records[i].task_id.clone(),
                    body,
                    wire: None,
                };
                set_row(&mut self.records, i, record);
                Ok(())
            },
            None => {
                if self.full(session, task) {
                    return refuse(FailureCode::ResourceLimit);
                }
                add_row(
                    &mut self.records,
                    Record {
                        id: id.to_string(),
                        session: session.to_string(),
                        task_id: task.to_string(),
                        body,
                        wire: None,
                    },
                );
                Ok(())
            },
        }
    }

    /// Reads every value of one kind under a task, in the order of filing.
    pub fn records<T: Stored>(&self, session: &str, task: &str) -> (res: Vec<T>)
        ensures
            res.deep_view() == listed::<T>(self@.records, session@, task@),
    {
        let ghost all = self@.records;
        let mut res: Vec<T> = crate::value::no_items();
        let mut i: usize = 0;
        while i < self.records.len()
            invariant
                i <= self.records.len(),
                all == self@.records,
                res.deep_view() == listed::<T>(all.take(i as int), session@, task@),
            decreases self.records.len() - i,
        {
            assert(all.take(i + 1).drop_last() =~= all.take(i as int));
            let record = &self.records[i];
            match T::of_body(&record.body) {
                Some(value) => {
                    if text_eq(record.session.as_str(), session) && text_eq(
                        record.task_id.as_str(),
                        task,
                    ) {
                        add_row(&mut res, value.replica());
                    }
                },
                None => {},
            }
            i += 1;
        }
        assert(all.take(i as int) =~= all);
        res
    }
}

} // verus!
