//! Requests that are carried out at most once per key.
use vstd::prelude::*;
use crate::text::bounded;
use crate::text::is_bounded;
use crate::text::text_eq;
use crate::value::Replica;
use crate::value::Text;
use crate::value::add_row;
use crate::work::model::FailureCode;
use crate::work::model::WorkError;
use crate::work::model::WorkResult;
use crate::work::store::records::refuse;
use crate::work::store::records::refused;
use crate::work::store::tables::Answer;
use crate::work::store::tables::ReceiptBody;
use crate::work::store::tables::ReceiptBodyModel;
use crate::work::store::tables::ReceiptRow;
use crate::work::store::tables::ReceiptRowModel;
use crate::work::store::tables::RequestKind;
use crate::work::store::tables::StoreModel;
use crate::work::store::tables::Stored;
use crate::work::store::tables::WorkStore;

verus! {

/// How many request keys are remembered.
pub const MAX_RECEIPTS: usize = 100000;

/// Who asks for what under which key, and the digest of what was asked.
pub struct Request<'a> {
    pub actor: &'a str,
    pub session: &'a str,
    pub key: &'a str,
    pub kind: RequestKind,
    pub digest: String,
}

/// The value of a `Request`.
#[verifier::ext_equal]
pub struct RequestModel {
    pub actor: Text,
    pub session: Text,
    pub key: Text,
    pub kind: RequestKind,
    pub digest: Text,
}

impl<'a> DeepView for Request<'a> {
    type V = RequestModel;

    open spec fn deep_view(&self) -> RequestModel {
        RequestModel {
            actor: self.actor@,
            session: self.session@,
            key: self.key@,
            kind: self.kind,
            digest: self.digest@,
        }
    }
}

/// Whether the names that a request is filed under are admissible.
pub open spec fn named(actor: Text, session: Text, key: Text) -> bool {
    is_bounded(actor, 256) && is_bounded(session, 256) && is_bounded(key, 128)
}

/// Whether the names that a request is filed under are admissible.
pub fn well_named(actor: &str, session: &str, key: &str) -> (res: bool)
    ensures
        res == named(actor@, session@, key@),
{
    bounded(actor, 256) && bounded(session, 256) && bounded(key, 128)
}

/// Where the receipt of a request key stands.
pub open spec fn receipt_at(
    receipts: Seq<ReceiptRowModel>,
    actor: Text,
    session: Text,
    kind: RequestKind,
    key: Text,
) -> Option<int>
    decreases receipts.len(),
{
    if receipts.len() == 0 {
        None
    } else {
        let last = receipts.last();
        if last.actor == actor && last.session == session && last.kind == kind && last.request_key
            == key {
            Some(receipts.len() - 1)
        } else {
            receipt_at(receipts.drop_last(), actor, session, kind, key)
        }
    }
}

/// What a request is answered with that was carried out before: nothing for a new key, the
/// first answer for the same request, a conflict for another request under the same key.
pub open spec fn replayed<T: Answer>(s: StoreModel, request: RequestModel) -> WorkResult<
    Option<T::V>,
> {
    if !named(request.actor, request.session, request.key) {
        refused(FailureCode::InvalidInput)
    } else {
        match receipt_at(
            s.receipts,
            request.actor,
            request.session,
            request.kind,
            request.key,
        ) {
            None => if s.receipts.len() >= MAX_RECEIPTS {
                refused(FailureCode::ResourceLimit)
            } else {
                Ok(None)
            },
            Some(i) => if s.receipts[i].digest != request.digest {
                refused(FailureCode::RequestKeyConflict)
            } else {
                match T::of(s.receipts[i].body) {
                    Some(value) => Ok(Some(value)),
                    None => refused(FailureCode::StorageUnavailable),
                }
            },
        }
    }
}

/// The store after the answer to a request was remembered.
pub open spec fn saved(s: StoreModel, request: RequestModel, body: ReceiptBodyModel) -> StoreModel {
    StoreModel {
        receipts: s.receipts.push(
            ReceiptRowModel {
                actor: request.actor,
                session: request.session,
                kind: request.kind,
                request_key: request.key,
                digest: request.digest,
                body,
                wire: None,
            },
        ),
        ..s
    }
}

pub proof fn receipt_in_range(
    receipts: Seq<ReceiptRowModel>,
    actor: Text,
    session: Text,
    kind: RequestKind,
    key: Text,
)
    ensures
        receipt_at(receipts, actor, session, kind, key) matches Some(i) ==> 0 <= i < receipts.len()
            && receipts[i].actor == actor && receipts[i].session == session && receipts[i].kind
            == kind && receipts[i].request_key == key,
    decreases receipts.len(),
{
    if receipts.len() > 0 {
        receipt_in_range(receipts.drop_last(), actor, session, kind, key);
    }
}

impl WorkStore {
    /// Where the receipt of a request key stands.
    pub(crate) fn find_receipt(
        &self,
        actor: &str,
        session: &str,
        kind: RequestKind,
        key: &str,
    ) -> (res: Option<usize>)
        ensures
            match res {
                Some(i) => i < self.receipts.len() && receipt_at(
                    self@.receipts,
                    actor@,
                    session@,
                    kind,
                    key@,
                ) == Some(i as int),
                None => receipt_at(self@.receipts, actor@, session@, kind, key@) is None,
            },
    {
        let ghost all = self@.receipts;
        let mut i: usize = self.receipts.len();
        assert(all.take(i as int) =~= all);
        while i > 0
            invariant
                i <= self.receipts.len(),
                all == self@.receipts,
                receipt_at(all, actor@, session@, kind, key@) == receipt_at(
                    all.take(i as int),
                    actor@,
                    session@,
                    kind,
                    key@,
                ),
            decreases i,
        {
            i -= 1;
            assert(all.take(i + 1).drop_last() =~= all.take(i as int));
            let row = &self.receipts[i];
            if text_eq(row.actor.as_str(), actor) && text_eq(row.session.as_str(), session)
                && row.kind == kind && text_eq(row.request_key.as_str(), key) {
                return Some(i);
            }
        }
        None
    }

    /// Answers a request that was carried out before.
    pub(crate) fn replay<T: Answer>(&self, request: &Request<'_>) -> (res: WorkResult<Option<T>>)
        ensures
            match res {
                Ok(value) => replayed::<T>(self@, request.deep_view()) == Ok::<
                    Option<T::V>,
                    WorkError,
                >(value.deep_view()),
                Err(error) => replayed::<T>(self@, request.deep_view()) == Err::<
                    Option<T::V>,
                    WorkError,
                >(error),
            },
    {
        if !well_named(request.actor, request.session, request.key) {
            return refuse(FailureCode::InvalidInput);
        }
        match self.find_receipt(request.actor, request.session, request.kind, request.key) {
            None => {
                if self.receipts.len() >= MAX_RECEIPTS {
                    return refuse(FailureCode::ResourceLimit);
                }
                Ok(None)
            },
            Some(i) => {
                let row = &self.receipts[i];
                if !text_eq(row.digest.as_str(), request.digest.as_str()) {
                    return refuse(FailureCode::RequestKeyConflict);
                }
                match T::of_body(&row.body) {
                    Some(value) => Ok(Some(value.replica())),
                    None => refuse(FailureCode::StorageUnavailable),
                }
            },
        }
    }

    /// Remembers the answer to a request.
    pub fn save(&mut self, request: &Request<'_>, body: ReceiptBody)
        ensures
            final(self)@ == saved(old(self)@, request.deep_view(), body.deep_view()),
    {
        add_row(
            &mut self.receipts,
            ReceiptRow {
                actor: request.actor.to_string(),
                session: request.session.to_string(),
                kind: request.kind,
                request_key: request.key.to_string(),
                digest: request.digest.clone(),
                body,
                wire: None,
            },
        );
    }
}

} // verus!
