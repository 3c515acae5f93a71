//! What it means that a request is carried out whole or not at all.
use vstd::prelude::*;
use crate::work::model::MutationModel;
use crate::work::model::WorkResult;
use crate::work::store::tables::StoreModel;

verus! {

/// What a transaction answers.
pub open spec fn answer<R>(outcome: WorkResult<(StoreModel, R)>) -> WorkResult<R> {
    match outcome {
        Ok((_, value)) => Ok(value),
        Err(error) => Err(error),
    }
}

/// What a transaction leaves behind: nothing new where it fails.
pub open spec fn after<R>(before: StoreModel, outcome: WorkResult<(StoreModel, R)>) -> StoreModel {
    match outcome {
        Ok((next, _)) => next,
        Err(_) => before,
    }
}

/// A transaction took the store from one state to another and gave an answer.
pub open spec fn commits<R>(
    before: StoreModel,
    later: StoreModel,
    outcome: WorkResult<(StoreModel, R)>,
    res: WorkResult<R>,
) -> bool {
    res == answer(outcome) && later == after(before, outcome)
}

/// The answer to a request that was carried out just now.
pub open spec fn first_time<T>(value: T) -> MutationModel<T> {
    MutationModel { value, replayed: false }
}

/// The answer to a request that was carried out before.
pub open spec fn once_more<T>(value: T) -> MutationModel<T> {
    MutationModel { value, replayed: true }
}

/// The answer to a request that may have been carried out before.
pub open spec fn repeated<T>(found: WorkResult<Option<T>>) -> WorkResult<Option<MutationModel<T>>> {
    match found {
        Err(error) => Err(error),
        Ok(None) => Ok(None),
        Ok(Some(value)) => Ok(Some(once_more(value))),
    }
}

/// A refused request leaves the store as it was.
pub proof fn refusal_changes_nothing<R>(before: StoreModel, outcome: WorkResult<(StoreModel, R)>)
    requires
        answer(outcome) is Err,
    ensures
        after(before, outcome) == before,
{
}

} // verus!
