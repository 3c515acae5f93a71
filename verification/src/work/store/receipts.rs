//! Reading what a request key was answered with.
use vstd::prelude::*;
use crate::text::text_eq;
use crate::value::Replica;
use crate::value::Same;
use crate::value::Text;
use crate::value::shown;
use crate::work::model::DelegationFence;
use crate::work::model::DelegationFenceModel;
use crate::work::model::FailureCode;
use crate::work::model::Operation;
use crate::work::model::OperationKind;
use crate::work::model::ReceiptValue;
use crate::work::model::ReceiptValueModel;
use crate::work::model::ReconciliationReceipt;
use crate::work::model::RequestReceipt;
use crate::work::model::RequestReceiptModel;
use crate::work::model::WorkResult;
use crate::work::store::authority::controlled;
use crate::work::store::authority::governs;
use crate::work::store::authority::governs_id;
use crate::work::store::authority::is_fence;
use crate::work::store::facts::about;
use crate::work::store::records::listed;
use crate::work::store::records::loaded;
use crate::work::store::records::refuse;
use crate::work::store::records::refused;
use crate::work::store::requests::named;
use crate::work::store::requests::receipt_at;
use crate::work::store::requests::well_named;
use crate::work::store::summaries::is_native;
use crate::work::store::summaries::native_kind;
use crate::work::store::tables::DelegatedOrigin;
use crate::work::store::tables::DelegatedOriginModel;
use crate::work::store::tables::DependencyOrigin;
use crate::work::store::tables::DependencyOriginModel;
use crate::work::store::tables::ReceiptBody;
use crate::work::store::tables::ReceiptBodyModel;
use crate::work::store::tables::RequestKind;
use crate::work::store::tables::StoreModel;
use crate::work::store::tables::WorkStore;

verus! {

/// What an answer shows to its reader now. An operation is shown as it stands, and a
/// reconciliation as what it found, where it has found something.
pub open spec fn receipt_value(
    s: StoreModel,
    session: Text,
    kind: OperationKind,
    body: ReceiptBodyModel,
) -> WorkResult<ReceiptValueModel> {
    if is_native(kind) {
        match body {
            ReceiptBodyModel::Operation(original) => match loaded::<Operation>(
                s,
                session,
                original.id,
            ) {
                Err(error) => Err(error),
                Ok(op) => Ok(ReceiptValueModel::Operation(op)),
            },
            _ => refused(FailureCode::StorageUnavailable),
        }
    } else if kind == OperationKind::ReconcileAttempt {
        match body {
            ReceiptBodyModel::Operation(original) => match about::<ReconciliationReceipt>(
                s.records,
                session,
                original.id,
            ) {
                Some(receipt) => Ok(ReceiptValueModel::Reconciliation(receipt)),
                None => match loaded::<Operation>(s, session, original.id) {
                    Err(error) => Err(error),
                    Ok(op) => Ok(ReceiptValueModel::ReconciliationPending(op)),
                },
            },
            _ => refused(FailureCode::StorageUnavailable),
        }
    } else {
        match body {
            ReceiptBodyModel::Task(task) => Ok(ReceiptValueModel::Task(task)),
            ReceiptBodyModel::Operation(op) => Ok(ReceiptValueModel::Operation(op)),
            ReceiptBodyModel::Result(result) => Ok(ReceiptValueModel::Result(result)),
            ReceiptBodyModel::Review(review) => Ok(ReceiptValueModel::Review(review)),
            ReceiptBodyModel::Input(_) => refused(FailureCode::StorageUnavailable),
        }
    }
}

/// Whether an answer is shown as it was written, and not as what it names stands now.
pub open spec fn shown_as_written(kind: OperationKind) -> bool {
    !is_native(kind) && kind != OperationKind::ReconcileAttempt
}

/// The receipt of a request key. That there is none does not show that a request in flight has
/// had no effect.
pub open spec fn receipt_of(
    s: StoreModel,
    actor: Text,
    session: Text,
    kind: OperationKind,
    key: Text,
) -> WorkResult<RequestReceiptModel> {
    if !named(actor, session, key) {
        refused(FailureCode::InvalidInput)
    } else {
        match receipt_at(s.receipts, actor, session, RequestKind::Work(kind), key) {
            None => refused(FailureCode::NotFound),
            Some(i) => match receipt_value(s, session, kind, s.receipts[i].body) {
                Err(error) => Err(error),
                Ok(value) => Ok(
                    RequestReceiptModel {
                        kind,
                        value,
                        wire: if shown_as_written(kind) {
                            s.receipts[i].wire
                        } else {
                            None
                        },
                    },
                ),
            },
        }
    }
}

/// Whether a change of dependencies was made by this actor under this key and fence.
pub open spec fn dependencies_set_by(
    origins: Seq<DependencyOriginModel>,
    actor: Text,
    key: Text,
    fence: DelegationFenceModel,
) -> bool {
    exists|i: int|
        0 <= i < origins.len() && #[trigger] origins[i].actor_id == actor && origins[i].request_key
            == key && origins[i].fence == fence
}

/// Whether a task was created by this actor under this fence.
pub open spec fn created_by(
    origins: Seq<DelegatedOriginModel>,
    actor: Text,
    fence: DelegationFenceModel,
) -> bool {
    exists|i: int|
        0 <= i < origins.len() && #[trigger] origins[i].actor_id == actor && origins[i].fence
            == fence
}

/// Whether a receipt is one that a coordinator earned under its fence.
pub open spec fn receipt_governed(
    s: StoreModel,
    actor: Text,
    session: Text,
    fence: DelegationFenceModel,
    kind: OperationKind,
    key: Text,
    value: ReceiptValueModel,
) -> WorkResult<()> {
    if kind == OperationKind::SetDependencies || kind == OperationKind::CreateTask {
        match value {
            ReceiptValueModel::Task(task) => match governs(s, session, fence, task) {
                Err(error) => Err(error),
                Ok(_) => {
                    let earned = if kind == OperationKind::SetDependencies {
                        dependencies_set_by(
                            listed::<DependencyOrigin>(s.records, session, task.id),
                            actor,
                            key,
                            fence,
                        )
                    } else {
                        created_by(
                            listed::<DelegatedOrigin>(s.records, session, task.id),
                            actor,
                            fence,
                        )
                    };
                    if earned {
                        Ok(())
                    } else {
                        refused(FailureCode::ScopeMismatch)
                    }
                },
            },
            _ => refused(FailureCode::StorageUnavailable),
        }
    } else {
        match value {
            ReceiptValueModel::Operation(op) => match governs_id(s, session, fence, op.task_id) {
                Err(error) => Err(error),
                Ok(_) => if op.delegation_fence != Some(fence) {
                    refused(FailureCode::ScopeMismatch)
                } else {
                    Ok(())
                },
            },
            _ => refused(FailureCode::StorageUnavailable),
        }
    }
}

/// The receipt of a coordinator's request key.
pub open spec fn delegated_receipt_of(
    s: StoreModel,
    actor: Text,
    session: Text,
    fence: DelegationFenceModel,
    kind: OperationKind,
    key: Text,
) -> WorkResult<RequestReceiptModel> {
    match controlled(s, session, fence) {
        Err(error) => Err(error),
        Ok(_) => if kind != OperationKind::CreateTask && kind != OperationKind::StartAttempt && kind
            != OperationKind::DeliverPrompt && kind != OperationKind::SetDependencies {
            refused(FailureCode::ScopeMismatch)
        } else {
            match receipt_of(s, actor, session, kind, key) {
                Err(error) => Err(error),
                Ok(receipt) => match receipt_governed(
                    s,
                    actor,
                    session,
                    fence,
                    kind,
                    key,
                    receipt.value,
                ) {
                    Err(error) => Err(error),
                    Ok(_) => Ok(receipt),
                },
            }
        },
    }
}

fn any_dependency_origin(
    origins: &Vec<DependencyOrigin>,
    actor: &str,
    key: &str,
    fence: &DelegationFence,
) -> (res: bool)
    ensures
        res == dependencies_set_by(origins.deep_view(), actor@, key@, fence.deep_view()),
{
    let ghost all = origins.deep_view();
    let mut i: usize = 0;
    while i < origins.len()
        invariant
            i <= origins.len(),
            all == origins.deep_view(),
            forall|k: int|
                0 <= k < i ==> !(#[trigger] all[k].actor_id == actor@ && all[k].request_key == key@
                    && all[k].fence == fence.deep_view()),
        decreases origins.len() - i,
    {
        let origin = &origins[i];
        assert(all[i as int].actor_id == origin.deep_view().actor_id);
        if text_eq(origin.actor_id.as_str(), actor) && text_eq(origin.request_key.as_str(), key)
            && origin.fence.same(fence) {
            return true;
        }
        i += 1;
    }
    false
}

fn any_delegated_origin(
    origins: &Vec<DelegatedOrigin>,
    actor: &str,
    fence: &DelegationFence,
) -> (res: bool)
    ensures
        res == created_by(origins.deep_view(), actor@, fence.deep_view()),
{
    let ghost all = origins.deep_view();
    let mut i: usize = 0;
    while i < origins.len()
        invariant
            i <= origins.len(),
            all == origins.deep_view(),
            forall|k: int|
                0 <= k < i ==> !(#[trigger] all[k].actor_id == actor@ && all[k].fence
                    == fence.deep_view()),
        decreases origins.len() - i,
    {
        let origin = &origins[i];
        assert(all[i as int].actor_id == origin.deep_view().actor_id);
        if text_eq(origin.actor_id.as_str(), actor) && origin.fence.same(fence) {
            return true;
        }
        i += 1;
    }
    false
}

impl WorkStore {
    fn show_receipt(&self, session: &str, kind: OperationKind, body: &ReceiptBody) -> (res:
        WorkResult<ReceiptValue>)
        ensures
            shown(res) == receipt_value(self@, session@, kind, body.deep_view()),
    {
        if native_kind(kind) {
            return match body {
                ReceiptBody::Operation(original) => {
                    let op = self.load::<Operation>(session, original.id.as_str())?;
                    Ok(ReceiptValue::Operation(op))
                },
                _ => refuse(FailureCode::StorageUnavailable),
            };
        }
        if kind == OperationKind::ReconcileAttempt {
            return match body {
                ReceiptBody::Operation(original) => {
                    match self.record_by_operation::<ReconciliationReceipt>(
                        session,
                        original.id.as_str(),
                    ) {
                        Some(receipt) => Ok(ReceiptValue::Reconciliation(receipt)),
                        None => {
                            let op = self.load::<Operation>(session, original.id.as_str())?;
                            Ok(ReceiptValue::ReconciliationPending(op))
                        },
                    }
                },
                _ => refuse(FailureCode::StorageUnavailable),
            };
        }
        match body {
            ReceiptBody::Task(task) => Ok(ReceiptValue::Task(task.replica())),
            ReceiptBody::Operation(op) => Ok(ReceiptValue::Operation(op.replica())),
            ReceiptBody::Result(result) => Ok(ReceiptValue::Result(result.replica())),
            ReceiptBody::Review(review) => Ok(ReceiptValue::Review(review.replica())),
            ReceiptBody::Input(_) => refuse(FailureCode::StorageUnavailable),
        }
    }

    /// Reads the receipt of a request key.
    pub fn get_receipt(&self, actor: &str, session: &str, kind: OperationKind, key: &str) -> (res:
        WorkResult<RequestReceipt>)
        ensures
            shown(res) == receipt_of(self@, actor@, session@, kind, key@),
    {
        if !well_named(actor, session, key) {
            return refuse(FailureCode::InvalidInput);
        }
        match self.find_receipt(actor, session, RequestKind::Work(kind), key) {
            None => refuse(FailureCode::NotFound),
            Some(i) => {
                let value = self.show_receipt(session, kind, &self.receipts[i].body)?;
                let wire = if native_kind(kind) || kind == OperationKind::ReconcileAttempt {
                    None
                } else {
                    self.receipts[i].wire.replica()
                };
                Ok(RequestReceipt { kind, value, wire })
            },
        }
    }

    fn check_receipt(
        &self,
        actor: &str,
        session: &str,
        fence: &DelegationFence,
        kind: OperationKind,
        key: &str,
        value: &ReceiptValue,
    ) -> (res: WorkResult<()>)
        ensures
            res == receipt_governed(
                self@,
                actor@,
                session@,
                fence.deep_view(),
                kind,
                key@,
                value.deep_view(),
            ),
    {
        if kind == OperationKind::SetDependencies || kind == OperationKind::CreateTask {
            match value {
                ReceiptValue::Task(task) => {
                    self.authorize_child(session, fence, task)?;
                    let earned = if kind == OperationKind::SetDependencies {
                        let origins = self.records::<DependencyOrigin>(session, task.id.as_str());
                        any_dependency_origin(&origins, actor, key, fence)
                    } else {
                        let origins = self.records::<DelegatedOrigin>(session, task.id.as_str());
                        any_delegated_origin(&origins, actor, fence)
                    };
                    if !earned {
                        return refuse(FailureCode::ScopeMismatch);
                    }
                    Ok(())
                },
                _ => refuse(FailureCode::StorageUnavailable),
            }
        } else {
            match value {
                ReceiptValue::Operation(op) => {
                    self.authorize_child_id(session, fence, op.task_id.as_str())?;
                    if !is_fence(&op.delegation_fence, fence) {
                        return refuse(FailureCode::ScopeMismatch);
                    }
                    Ok(())
                },
                _ => refuse(FailureCode::StorageUnavailable),
            }
        }
    }

    /// Reads the receipt of a coordinator's request key.
    pub fn get_delegated_receipt(
        &self,
        actor: &str,
        session: &str,
        fence: &DelegationFence,
        kind: OperationKind,
        key: &str,
    ) -> (res: WorkResult<RequestReceipt>)
        ensures
            shown(res) == delegated_receipt_of(
                self@,
                actor@,
                session@,
                fence.deep_view(),
                kind,
                key@,
            ),
    {
        let _ = self.authorize_controller(session, fence)?;
        if kind != OperationKind::CreateTask && kind != OperationKind::StartAttempt && kind
            != OperationKind::DeliverPrompt && kind != OperationKind::SetDependencies {
            return refuse(FailureCode::ScopeMismatch);
        }
        let receipt = self.get_receipt(actor, session, kind, key)?;
        self.check_receipt(actor, session, fence, kind, key, &receipt.value)?;
        Ok(receipt)
    }
}

} // verus!
