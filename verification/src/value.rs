//! Copying and comparing values by what they stand for.
use vstd::prelude::*;
use crate::work::model::WorkResult;

verus! {

/// The characters of a string.
pub type Text = Seq<char>;

/// A value that can be copied. The copy stands for the same value.
pub trait Replica: DeepView + Sized {
    fn replica(&self) -> (res: Self)
        ensures
            res.deep_view() == self.deep_view(),
    ;
}

/// A value that can be compared. Equal means standing for the same value.
pub trait Same: DeepView + Sized {
    fn same(&self, other: &Self) -> (res: bool)
        ensures
            res == (self.deep_view() == other.deep_view()),
    ;
}

impl Replica for String {
    fn replica(&self) -> (res: Self) {
        self.clone()
    }
}

impl Same for String {
    fn same(&self, other: &Self) -> (res: bool) {
        *self == *other
    }
}

impl Replica for u64 {
    fn replica(&self) -> (res: Self) {
        *self
    }
}

impl Same for u64 {
    fn same(&self, other: &Self) -> (res: bool) {
        *self == *other
    }
}

impl<T: Replica> Replica for Option<T> {
    fn replica(&self) -> (res: Self) {
        match self {
            Some(value) => Some(value.replica()),
            None => None,
        }
    }
}

impl<T: Same> Same for Option<T> {
    fn same(&self, other: &Self) -> (res: bool) {
        match (self, other) {
            (Some(a), Some(b)) => a.same(b),
            (None, None) => true,
            _ => false,
        }
    }
}

impl<T: Replica> Replica for Vec<T> {
    fn replica(&self) -> (res: Self) {
        replica_of(self.as_slice())
    }
}

impl<T: Same> Same for Vec<T> {
    fn same(&self, other: &Self) -> (res: bool) {
        same_items(self.as_slice(), other.as_slice())
    }
}

/// A copy of each item, in order.
pub fn replica_of<T: Replica>(rows: &[T]) -> (res: Vec<T>)
    ensures
        res.deep_view() == rows.deep_view(),
{
    let mut res: Vec<T> = Vec::new();
    let mut i: usize = 0;
    while i < rows.len()
        invariant
            i <= rows.len(),
            res.len() == i,
            forall|k: int| 0 <= k < i ==> (#[trigger] res[k]).deep_view() == rows[k].deep_view(),
        decreases rows.len() - i,
    {
        res.push(rows[i].replica());
        i += 1;
    }
    assert(res.deep_view() =~= rows.deep_view());
    res
}

/// Whether two lists stand for the same values in the same order.
pub fn same_items<T: Same>(left: &[T], right: &[T]) -> (res: bool)
    ensures
        res == (left.deep_view() == right.deep_view()),
{
    if left.len() != right.len() {
        assert(left.deep_view().len() != right.deep_view().len());
        return false;
    }
    let mut i: usize = 0;
    while i < left.len()
        invariant
            i <= left.len(),
            left.len() == right.len(),
            forall|k: int|
                0 <= k < i ==> (#[trigger] left[k]).deep_view() == right[k].deep_view(),
        decreases left.len() - i,
    {
        if !left[i].same(&right[i]) {
            assert(left.deep_view()[i as int] != right.deep_view()[i as int]);
            return false;
        }
        i += 1;
    }
    assert(left.deep_view() =~= right.deep_view());
    true
}

/// What an answer stands for.
pub open spec fn shown<T: DeepView>(res: WorkResult<T>) -> WorkResult<T::V> {
    match res {
        Ok(value) => Ok(value.deep_view()),
        Err(error) => Err(error),
    }
}

/// An empty list.
pub fn no_items<T: DeepView>() -> (res: Vec<T>)
    ensures
        res.deep_view() == Seq::<T::V>::empty(),
        res@ == Seq::<T>::empty(),
{
    let res: Vec<T> = Vec::new();
    assert(res.deep_view() =~= Seq::<T::V>::empty());
    res
}

/// Appends a row.
pub fn add_row<T: DeepView>(rows: &mut Vec<T>, row: T)
    ensures
        final(rows).deep_view() == old(rows).deep_view().push(row.deep_view()),
        final(rows)@ == old(rows)@.push(row),
{
    rows.push(row);
    assert(rows.deep_view() =~= old(rows).deep_view().push(row.deep_view()));
}

/// Replaces one row.
pub fn set_row<T: DeepView>(rows: &mut Vec<T>, at: usize, row: T)
    requires
        at < old(rows).len(),
    ensures
        final(rows).deep_view() == old(rows).deep_view().update(at as int, row.deep_view()),
{
    rows.set(at, row);
    assert(rows.deep_view() =~= old(rows).deep_view().update(at as int, row.deep_view()));
}

/// Takes the last row away.
pub fn pop_row<T: DeepView>(rows: &mut Vec<T>) -> (res: Option<T>)
    ensures
        old(rows).len() == 0 ==> res is None && final(rows)@ == old(rows)@,
        old(rows).len() > 0 ==> res is Some && res->0.deep_view() == old(rows).deep_view().last()
            && final(rows).deep_view() == old(rows).deep_view().drop_last() && final(rows).len()
            == old(rows).len() - 1,
{
    let res = rows.pop();
    proof {
        if old(rows).len() > 0 {
            assert(rows.deep_view() =~= old(rows).deep_view().drop_last());
        }
    }
    res
}

} // verus!
