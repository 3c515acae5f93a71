//! Delivering prompts to attempts.
use vstd::prelude::*;
use crate::digest::digest_text;
use crate::json::ToJson;
use crate::json::json_string;
use crate::text::bounded;
use crate::text::is_bounded;
use crate::text::is_digest;
use crate::text::text_eq;
use crate::text::valid_digest;
use crate::value::Replica;
use crate::value::Text;
use crate::value::add_row;
use crate::value::no_items;
use crate::value::same_items;
use crate::value::shown;
use crate::work::model::Attempt;
use crate::work::model::AttemptModel;
use crate::work::model::DelegationFence;
use crate::work::model::DelegationFenceModel;
use crate::work::model::FailureCode;
use crate::work::model::FrozenInputRef;
use crate::work::model::FrozenInputRefModel;
use crate::work::model::InputRef;
use crate::work::model::InputRefModel;
use crate::work::model::Mutation;
use crate::work::model::MutationModel;
use crate::work::model::Operation;
use crate::work::model::OperationKind;
use crate::work::model::OperationModel;
use crate::work::model::OperationState;
use crate::work::model::Task;
use crate::work::model::TaskModel;
use crate::work::model::WorkError;
use crate::work::model::WorkResult;
use crate::work::store::authority::child_inputs;
use crate::work::store::authority::controlled;
use crate::work::store::authority::governs;
use crate::work::store::authority::governs_id;
use crate::work::store::authority::is_fence;
use crate::work::store::changes::changed;
use crate::work::store::inputs::claimed;
use crate::work::store::inputs::delivery_digest;
use crate::work::store::inputs::delivery_request_digest;
use crate::work::store::inputs::legacy_delivery_digest;
use crate::work::store::inputs::payload;
use crate::work::store::inputs::plain_delivery_digest;
use crate::work::store::inputs::resolved;
use crate::work::store::inputs::valid_refs;
use crate::work::store::inputs::validate_refs;
use crate::work::store::records::listed;
use crate::work::store::records::loaded;
use crate::work::store::records::put;
use crate::work::store::records::refuse;
use crate::work::store::records::refused;
use crate::work::store::requests::Request;
use crate::work::store::requests::RequestModel;
use crate::work::store::requests::named;
use crate::work::store::requests::receipt_at;
use crate::work::store::requests::replayed;
use crate::work::store::requests::saved;
use crate::work::store::requests::well_named;
use crate::work::store::rules::fresh_operation;
use crate::work::store::rules::is_text;
use crate::work::store::rules::new_operation;
use crate::work::store::rules::revision;
use crate::work::store::summaries::is_active;
use crate::work::store::summaries::is_native;
use crate::work::store::summaries::is_open;
use crate::work::store::summaries::native_kind;
use crate::work::store::summaries::open_state;
use crate::work::store::summaries::reservation_active;
use crate::work::store::tables::Answer;
use crate::work::store::tables::Body;
use crate::work::store::tables::BodyModel;
use crate::work::store::tables::DeliveryRow;
use crate::work::store::tables::DeliveryRowModel;
use crate::work::store::tables::ReceiptBody;
use crate::work::store::tables::ReceiptBodyModel;
use crate::work::store::tables::RequestKind;
use crate::work::store::tables::StoreModel;
use crate::work::store::tables::Stored;
use crate::work::store::tables::WorkStore;
use crate::work::store::transaction::commits;
use crate::work::store::transaction::first_time;
use crate::work::store::transaction::once_more;

verus! {

/// The instructions that were offered before versions were kept.
pub open spec fn legacy_version() -> Text {
    "result-reporting-v1"@
}

/// A request to deliver a prompt.
pub struct Delivery<'a> {
    pub actor: &'a str,
    pub session: &'a str,
    pub task_id: &'a str,
    pub attempt_id: &'a str,
    pub key: &'a str,
    pub expected_revision: u64,
    pub expected_instance: &'a str,
    pub text: &'a str,
    pub instruction_version: Option<&'a str>,
    pub input_refs: &'a [InputRef],
}

/// The value of a `Delivery`.
#[verifier::ext_equal]
pub struct DeliveryModel {
    pub actor: Text,
    pub session: Text,
    pub task_id: Text,
    pub attempt_id: Text,
    pub key: Text,
    pub expected_revision: u64,
    pub expected_instance: Text,
    pub text: Text,
    pub instruction_version: Option<Text>,
    pub input_refs: Seq<InputRefModel>,
}

impl<'a> DeepView for Delivery<'a> {
    type V = DeliveryModel;

    open spec fn deep_view(&self) -> DeliveryModel {
        DeliveryModel {
            actor: self.actor@,
            session: self.session@,
            task_id: self.task_id@,
            attempt_id: self.attempt_id@,
            key: self.key@,
            expected_revision: self.expected_revision,
            expected_instance: self.expected_instance@,
            text: self.text@,
            instruction_version: self.instruction_version.deep_view(),
            input_refs: self.input_refs.deep_view(),
        }
    }
}

/// What the sender has already made of the inputs: the references that it read, and the digest
/// of the prompt that it will send.
pub struct Promise<'a> {
    pub expected_inputs: &'a [FrozenInputRef],
    pub final_prompt_digest: &'a str,
}

/// The value of a `Promise`.
#[verifier::ext_equal]
pub struct PromiseModel {
    pub expected_inputs: Seq<FrozenInputRefModel>,
    pub final_prompt_digest: Text,
}

impl<'a> DeepView for Promise<'a> {
    type V = PromiseModel;

    open spec fn deep_view(&self) -> PromiseModel {
        PromiseModel {
            expected_inputs: self.expected_inputs.deep_view(),
            final_prompt_digest: self.final_prompt_digest@,
        }
    }
}

/// Where the row about an operation's inputs stands.
pub open spec fn delivery_at(rows: Seq<DeliveryRowModel>, operation_id: Text) -> Option<int>
    decreases rows.len(),
{
    if rows.len() == 0 {
        None
    } else if rows.last().operation_id == operation_id {
        Some(rows.len() - 1)
    } else {
        delivery_at(rows.drop_last(), operation_id)
    }
}

/// Where the receipt of a delivery stands.
pub open spec fn delivery_receipt(s: StoreModel, actor: Text, session: Text, key: Text) -> Option<
    int,
> {
    receipt_at(
        s.receipts,
        actor,
        session,
        RequestKind::Work(OperationKind::DeliverPrompt),
        key,
    )
}

/// The instruction versions under which a key may have been used. What was stored decides;
/// only where nothing was stored are the forms tried that were once in use.
pub open spec fn versions(
    s: StoreModel,
    actor: Text,
    session: Text,
    key: Text,
    current: Option<Text>,
) -> WorkResult<Seq<Option<Text>>> {
    match delivery_receipt(s, actor, session, key) {
        None => Ok(Seq::empty().push(current)),
        Some(i) => match <Operation as Answer>::of(s.receipts[i].body) {
            None => refused(FailureCode::StorageUnavailable),
            Some(original) => {
                let stored = match delivery_at(s.deliveries, original.id) {
                    Some(row) => s.deliveries[row].instruction_version,
                    None => None,
                };
                if stored is Some {
                    Ok(Seq::empty().push(stored->0))
                } else if original.bootstrap_version is Some {
                    Ok(Seq::empty().push(original.bootstrap_version))
                } else {
                    Ok(candidates(current))
                }
            },
        },
    }
}

/// The caller's version, the one that was once in use, and none, each once.
pub open spec fn candidates(current: Option<Text>) -> Seq<Option<Text>> {
    let first = Seq::empty().push(current);
    let second = if current == Some(legacy_version()) {
        first
    } else {
        first.push(Some(legacy_version()))
    };
    if current is None {
        second
    } else {
        second.push(None)
    }
}

/// What a delivery is answered with that was carried out before. A key whose inputs were
/// recorded is compared with what was recorded; an older one with the digest of its request.
pub open spec fn delivery_replayed(
    s: StoreModel,
    actor: Text,
    session: Text,
    key: Text,
    expected: Text,
    legacy: Option<Text>,
) -> WorkResult<Option<MutationModel<OperationModel>>> {
    match delivery_receipt(s, actor, session, key) {
        None => Ok(None),
        Some(i) => match <Operation as Answer>::of(s.receipts[i].body) {
            None => refused(FailureCode::StorageUnavailable),
            Some(original) => {
                let matches = match delivery_at(s.deliveries, original.id) {
                    Some(row) => s.deliveries[row].request_digest == expected,
                    None => original.input_refs.len() == 0 && legacy == Some(s.receipts[i].digest),
                };
                if !matches {
                    refused(FailureCode::RequestKeyConflict)
                } else {
                    match loaded::<Operation>(s, session, original.id) {
                        Err(error) => Err(error),
                        Ok(op) => Ok(Some(once_more(op))),
                    }
                }
            },
        },
    }
}

/// The digest of a delivery under a version.
pub open spec fn base_digest(d: DeliveryModel, version: Option<Text>) -> Text {
    delivery_digest(
        d.task_id,
        d.attempt_id,
        d.expected_revision,
        d.expected_instance,
        d.text,
        version,
        d.input_refs,
    )
}

/// The digest of a delivery without inputs under a version.
pub open spec fn bare_digest(d: DeliveryModel, version: Option<Text>) -> Text {
    plain_delivery_digest(
        d.task_id,
        d.attempt_id,
        d.expected_revision,
        d.expected_instance,
        d.text,
        version,
    )
}

/// The digest of a delivery under a version and a fence.
pub open spec fn fenced_digest(
    d: DeliveryModel,
    version: Option<Text>,
    fence: DelegationFenceModel,
) -> Text {
    payload(
        Seq::empty()
            .push(json_string(base_digest(d, version)))
            .push(DelegationFence::json(fence)),
    )
}

/// What a fenced delivery is answered with that was carried out before.
pub open spec fn fenced_replayed(
    s: StoreModel,
    actor: Text,
    session: Text,
    key: Text,
    digest: Text,
    fence: DelegationFenceModel,
) -> WorkResult<Option<MutationModel<OperationModel>>> {
    match controlled(s, session, fence) {
        Err(error) => Err(error),
        Ok(_) => match delivery_replayed(s, actor, session, key, digest, None) {
            Err(error) => Err(error),
            Ok(None) => Ok(None),
            Ok(Some(found)) => if found.value.delegation_fence != Some(fence) {
                refused(FailureCode::ScopeMismatch)
            } else {
                match governs_id(s, session, fence, found.value.task_id) {
                    Err(error) => Err(error),
                    Ok(_) => Ok(Some(found)),
                }
            },
        },
    }
}

/// One try at answering a delivery that was carried out before.
pub open spec fn tried(
    s: StoreModel,
    d: DeliveryModel,
    version: Option<Text>,
    fence: Option<DelegationFenceModel>,
) -> WorkResult<Option<MutationModel<OperationModel>>> {
    if !valid_refs(d.input_refs) {
        refused(FailureCode::InvalidInput)
    } else {
        match fence {
            Some(fence) => fenced_replayed(
                s,
                d.actor,
                d.session,
                d.key,
                fenced_digest(d, version, fence),
                fence,
            ),
            None => delivery_replayed(
                s,
                d.actor,
                d.session,
                d.key,
                base_digest(d, version),
                if d.input_refs.len() == 0 {
                    Some(bare_digest(d, version))
                } else {
                    None
                },
            ),
        }
    }
}

/// The first try that is no conflict; a conflict where there is none.
pub open spec fn retried(
    s: StoreModel,
    d: DeliveryModel,
    versions: Seq<Option<Text>>,
    fence: Option<DelegationFenceModel>,
) -> WorkResult<Option<MutationModel<OperationModel>>>
    decreases versions.len(),
{
    if versions.len() == 0 {
        refused(FailureCode::RequestKeyConflict)
    } else {
        let outcome = tried(s, d, versions[0], fence);
        if outcome == refused::<Option<MutationModel<OperationModel>>>(
            FailureCode::RequestKeyConflict,
        ) {
            retried(s, d, versions.drop_first(), fence)
        } else {
            outcome
        }
    }
}

/// What a delivery with inputs is answered with that was carried out before.
pub open spec fn redelivered(
    s: StoreModel,
    d: DeliveryModel,
    fence: Option<DelegationFenceModel>,
) -> WorkResult<Option<MutationModel<OperationModel>>> {
    if !named(d.actor, d.session, d.key) {
        refused(FailureCode::InvalidInput)
    } else {
        match versions(s, d.actor, d.session, d.key, d.instruction_version) {
            Err(error) => Err(error),
            Ok(list) => retried(s, d, list, fence),
        }
    }
}

/// The digest that the sender's promise is filed under.
pub open spec fn client_digest(d: DeliveryModel, fence: Option<DelegationFenceModel>) -> Text {
    match fence {
        Some(fence) => fenced_digest(d, d.instruction_version, fence),
        None => base_digest(d, d.instruction_version),
    }
}

/// The request that a delivery is filed under.
pub open spec fn delivery_request(
    d: DeliveryModel,
    promise: Option<PromiseModel>,
    fence: Option<DelegationFenceModel>,
) -> RequestModel {
    RequestModel {
        actor: d.actor,
        session: d.session,
        key: d.key,
        kind: RequestKind::Work(OperationKind::DeliverPrompt),
        digest: match promise {
            Some(promise) => payload(
                Seq::empty()
                    .push(json_string(client_digest(d, fence)))
                    .push(Vec::<FrozenInputRef>::json(promise.expected_inputs))
                    .push(json_string(promise.final_prompt_digest)),
            ),
            None => match fence {
                Some(fence) => payload(
                    Seq::empty()
                        .push(json_string(d.task_id))
                        .push(json_string(d.attempt_id))
                        .push(u64::json(d.expected_revision))
                        .push(json_string(d.expected_instance))
                        .push(json_string(d.text))
                        .push(Option::<String>::json(d.instruction_version))
                        .push(DelegationFence::json(fence)),
                ),
                None => bare_digest(d, d.instruction_version),
            },
        },
    }
}

/// An operation on an attempt whose native effect is still open.
pub open spec fn pending_on(op: OperationModel, attempt_id: Text) -> bool {
    op.attempt_id == Some(attempt_id) && is_native(op.kind) && is_open(op.state)
}

/// Whether one of some operations on an attempt is still open.
pub open spec fn any_pending(operations: Seq<OperationModel>, attempt_id: Text) -> bool {
    exists|i: int| 0 <= i < operations.len() && pending_on(#[trigger] operations[i], attempt_id)
}

/// A delivery to an attempt that was not refused.
pub open spec fn prompted_by(op: OperationModel, attempt_id: Text) -> bool {
    op.attempt_id == Some(attempt_id) && op.kind == OperationKind::DeliverPrompt && op.state
        != OperationState::Refused
}

/// Whether an attempt was sent a prompt before.
pub open spec fn any_prompt(operations: Seq<OperationModel>, attempt_id: Text) -> bool {
    exists|i: int| 0 <= i < operations.len() && prompted_by(#[trigger] operations[i], attempt_id)
}

/// The task and the attempt that a delivery goes to, where it may go: the revision is the one
/// expected, the attempt is active on the instance expected, and nothing is pending on it.
pub open spec fn delivery_admitted(
    s: StoreModel,
    d: DeliveryModel,
    fence: Option<DelegationFenceModel>,
) -> WorkResult<(TaskModel, AttemptModel)> {
    match loaded::<Task>(s, d.session, d.task_id) {
        Err(error) => Err(error),
        Ok(task) => if task.revision != d.expected_revision {
            refused(FailureCode::RevisionConflict)
        } else {
            match loaded::<Attempt>(s, d.session, d.attempt_id) {
                Err(error) => Err(error),
                Ok(attempt) => match governed_if(s, d.session, fence, task) {
                    Err(error) => Err(error),
                    Ok(_) => if attempt.task_id != d.task_id {
                        refused(FailureCode::ScopeMismatch)
                    } else if !is_active(attempt) || attempt.binding.instance_id != Some(
                        d.expected_instance,
                    ) {
                        refused(FailureCode::InstanceChanged)
                    } else if any_pending(
                        listed::<Operation>(s.records, d.session, d.task_id),
                        d.attempt_id,
                    ) {
                        refused(FailureCode::NotReady)
                    } else {
                        Ok((task, attempt))
                    },
                },
            }
        },
    }
}

/// Whether a fence, where there is one, has authority over a child.
pub open spec fn governed_if(
    s: StoreModel,
    session: Text,
    fence: Option<DelegationFenceModel>,
    child: TaskModel,
) -> WorkResult<()> {
    match fence {
        None => Ok(()),
        Some(fence) => governs(s, session, fence, child),
    }
}

/// The inputs of a delivery as they are when it is admitted.
pub open spec fn delivery_inputs(
    s: StoreModel,
    d: DeliveryModel,
    promise: Option<PromiseModel>,
    fence: Option<DelegationFenceModel>,
    task: TaskModel,
    now: i64,
) -> WorkResult<Seq<FrozenInputRefModel>> {
    let inputs = match fence {
        Some(fence) => child_inputs(s, d.actor, d.session, fence, task, d.input_refs, now),
        None => resolved(
            s,
            d.actor,
            d.session,
            task.repo_path,
            Some(d.task_id),
            d.input_refs,
            now,
        ),
    };
    match inputs {
        Err(error) => Err(error),
        Ok(inputs) => if promise is Some && promise->0.expected_inputs != inputs {
            refused(FailureCode::ArtifactChanged)
        } else {
            Ok(inputs)
        },
    }
}

/// A delivery as it is first recorded.
pub open spec fn delivery_operation(
    s: StoreModel,
    id: Text,
    d: DeliveryModel,
    fence: Option<DelegationFenceModel>,
    inputs: Seq<FrozenInputRefModel>,
    attempt: AttemptModel,
    now: i64,
) -> OperationModel {
    OperationModel {
        delegation_fence: fence,
        input_refs: inputs,
        bootstrap_version: if any_prompt(
            listed::<Operation>(s.records, d.session, d.task_id),
            d.attempt_id,
        ) {
            None
        } else {
            d.instruction_version
        },
        resources: attempt.binding,
        ..fresh_operation(id, d.task_id, Some(d.attempt_id), OperationKind::DeliverPrompt, now)
    }
}

/// The store after a delivery was recorded.
pub open spec fn delivery_recorded(
    s: StoreModel,
    d: DeliveryModel,
    promise: Option<PromiseModel>,
    fence: Option<DelegationFenceModel>,
    task: TaskModel,
    op: OperationModel,
    now: i64,
) -> WorkResult<StoreModel> {
    match claimed(s, d.session, d.task_id, op.input_refs) {
        Err(error) => Err(error),
        Ok(held) => match put(held, d.session, op.id, d.task_id, BodyModel::Operation(op)) {
            Err(error) => Err(error),
            Ok(filed) => match changed(filed, task, "delivery_prepared"@, op.id, now) {
                Err(error) => Err(error),
                Ok((next, _)) => match promise {
                    None => Ok(next),
                    Some(promise) => if delivery_at(next.deliveries, op.id) is Some {
                        refused(FailureCode::StorageUnavailable)
                    } else {
                        Ok(
                            StoreModel {
                                deliveries: next.deliveries.push(
                                    DeliveryRowModel {
                                        operation_id: op.id,
                                        request_digest: client_digest(d, fence),
                                        final_prompt_digest: promise.final_prompt_digest,
                                        instruction_version: Some(d.instruction_version),
                                    },
                                ),
                                ..next
                            },
                        )
                    },
                },
            },
        },
    }
}

/// Whether the texts of a delivery are admissible.
pub open spec fn delivery_texts(d: DeliveryModel) -> bool {
    &&& is_bounded(d.text, 65536)
    &&& is_bounded(d.expected_instance, 512)
    &&& d.instruction_version matches Some(version) ==> is_bounded(version, 64)
}

/// What becomes of a request to deliver a prompt that is not a repetition.
pub open spec fn delivery_opened(
    s: StoreModel,
    id: Text,
    d: DeliveryModel,
    promise: Option<PromiseModel>,
    fence: Option<DelegationFenceModel>,
    now: i64,
) -> WorkResult<(StoreModel, MutationModel<OperationModel>)> {
    match delivery_admitted(s, d, fence) {
        Err(error) => Err(error),
        Ok((task, attempt)) => match delivery_inputs(s, d, promise, fence, task, now) {
            Err(error) => Err(error),
            Ok(inputs) => {
                let op = delivery_operation(s, id, d, fence, inputs, attempt, now);
                match delivery_recorded(s, d, promise, fence, task, op, now) {
                    Err(error) => Err(error),
                    Ok(next) => Ok(
                        (
                            saved(
                                next,
                                delivery_request(d, promise, fence),
                                ReceiptBodyModel::Operation(op),
                            ),
                            first_time(op),
                        ),
                    ),
                }
            },
        },
    }
}

/// What becomes of a request to deliver a prompt, once it is known that no earlier promise
/// under the key answers it.
pub open spec fn delivery_requested(
    s: StoreModel,
    id: Text,
    d: DeliveryModel,
    promise: Option<PromiseModel>,
    fence: Option<DelegationFenceModel>,
    now: i64,
) -> WorkResult<(StoreModel, MutationModel<OperationModel>)> {
    if !delivery_texts(d) {
        refused(FailureCode::InvalidInput)
    } else {
        match replayed::<Operation>(s, delivery_request(d, promise, fence)) {
            Err(error) => Err(error),
            Ok(Some(old_op)) => match loaded::<Operation>(s, d.session, old_op.id) {
                Err(error) => Err(error),
                Ok(op) => Ok((s, once_more(op))),
            },
            Ok(None) => delivery_opened(s, id, d, promise, fence, now),
        }
    }
}

/// What becomes of a request to deliver a prompt, where the new operation, if there is one, is
/// given the identifier `id`.
pub open spec fn delivery_outcome(
    s: StoreModel,
    id: Text,
    d: DeliveryModel,
    promise: Option<PromiseModel>,
    fence: Option<DelegationFenceModel>,
    now: i64,
) -> WorkResult<(StoreModel, MutationModel<OperationModel>)> {
    if !valid_refs(d.input_refs) {
        refused(FailureCode::InvalidInput)
    } else {
        match promise {
            None => delivery_requested(s, id, d, promise, fence, now),
            Some(made) => if !is_digest(made.final_prompt_digest) {
                refused(FailureCode::InvalidInput)
            } else {
                match redelivered(s, d, fence) {
                    Err(error) => Err(error),
                    Ok(Some(found)) => Ok((s, found)),
                    Ok(None) => delivery_requested(s, id, d, promise, fence, now),
                }
            },
        }
    }
}

fn check_pending(operations: &Vec<Operation>, attempt_id: &str) -> (res: bool)
    ensures
        res == any_pending(operations.deep_view(), attempt_id@),
{
    let ghost all = operations.deep_view();
    let mut i: usize = 0;
    while i < operations.len()
        invariant
            i <= operations.len(),
            all == operations.deep_view(),
            forall|k: int| 0 <= k < i ==> !pending_on(#[trigger] all[k], attempt_id@),
        decreases operations.len() - i,
    {
        let op = &operations[i];
        assert(all[i as int] == op.deep_view());
        if is_text(&op.attempt_id, attempt_id) && native_kind(op.kind) && open_state(op.state) {
            assert(pending_on(all[i as int], attempt_id@));
            return true;
        }
        i += 1;
    }
    false
}

/// Whether an attempt was sent a prompt before.
pub(crate) fn check_prompt(operations: &Vec<Operation>, attempt_id: &str) -> (res: bool)
    ensures
        res == any_prompt(operations.deep_view(), attempt_id@),
{
    let ghost all = operations.deep_view();
    let mut i: usize = 0;
    while i < operations.len()
        invariant
            i <= operations.len(),
            all == operations.deep_view(),
            forall|k: int| 0 <= k < i ==> !prompted_by(#[trigger] all[k], attempt_id@),
        decreases operations.len() - i,
    {
        let op = &operations[i];
        assert(all[i as int] == op.deep_view());
        if is_text(&op.attempt_id, attempt_id) && op.kind == OperationKind::DeliverPrompt
            && op.state != OperationState::Refused {
            assert(prompted_by(all[i as int], attempt_id@));
            return true;
        }
        i += 1;
    }
    false
}

/// A version that was given, as a version that is kept.
fn own_version(version: Option<&str>) -> (res: Option<String>)
    ensures
        res.deep_view() == version.deep_view(),
{
    match version {
        Some(version) => Some(version.to_string()),
        None => None,
    }
}

fn lent_version(version: &Option<String>) -> (res: Option<&str>)
    ensures
        res.deep_view() == version.deep_view(),
{
    match version {
        Some(version) => Some(version.as_str()),
        None => None,
    }
}

fn list_candidates(current: Option<&str>) -> (res: Vec<Option<String>>)
    ensures
        res.deep_view() == candidates(current.deep_view()),
{
    let legacy = "result-reporting-v1";
    let mut res: Vec<Option<String>> = no_items();
    add_row(&mut res, own_version(current));
    let same = match current {
        Some(version) => text_eq(version, legacy),
        None => false,
    };
    if !same {
        add_row(&mut res, Some(legacy.to_string()));
    }
    if current.is_some() {
        add_row(&mut res, None);
    }
    res
}

impl<'a> Delivery<'a> {
    fn base(&self, version: Option<&str>) -> (res: String)
        ensures
            res@ == base_digest(self.deep_view(), version.deep_view()),
    {
        delivery_request_digest(
            self.task_id,
            self.attempt_id,
            self.expected_revision,
            self.expected_instance,
            self.text,
            version,
            self.input_refs,
        )
    }

    fn bare(&self, version: Option<&str>) -> (res: String)
        ensures
            res@ == bare_digest(self.deep_view(), version.deep_view()),
    {
        legacy_delivery_digest(
            self.task_id,
            self.attempt_id,
            self.expected_revision,
            self.expected_instance,
            self.text,
            version,
        )
    }

    fn fenced(&self, version: Option<&str>, fence: &DelegationFence) -> (res: String)
        ensures
            res@ == fenced_digest(self.deep_view(), version.deep_view(), fence.deep_view()),
    {
        digest_text(&(self.base(version), fence))
    }

    fn client(&self, fence: &Option<DelegationFence>) -> (res: String)
        ensures
            res@ == client_digest(self.deep_view(), fence.deep_view()),
    {
        match fence {
            Some(fence) => self.fenced(self.instruction_version, fence),
            None => self.base(self.instruction_version),
        }
    }

    fn request(&self, promise: &Option<Promise<'_>>, fence: &Option<DelegationFence>) -> (res:
        Request<'a>)
        ensures
            res.deep_view() == delivery_request(
                self.deep_view(),
                promise.deep_view(),
                fence.deep_view(),
            ),
    {
        let digest = match promise {
            Some(promise) => digest_text(
                &(self.client(fence), promise.expected_inputs, promise.final_prompt_digest),
            ),
            None => match fence {
                Some(fence) => digest_text(
                    &(
                        self.task_id,
                        self.attempt_id,
                        self.expected_revision,
                        self.expected_instance,
                        self.text,
                        self.instruction_version,
                        fence,
                    ),
                ),
                None => self.bare(self.instruction_version),
            },
        };
        Request {
            actor: self.actor,
            session: self.session,
            key: self.key,
            kind: RequestKind::Work(OperationKind::DeliverPrompt),
            digest,
        }
    }

    fn texts(&self) -> (res: bool)
        ensures
            res == delivery_texts(self.deep_view()),
    {
        bounded(self.text, 65536) && bounded(self.expected_instance, 512)
            && match self.instruction_version {
            Some(version) => bounded(version, 64),
            None => true,
        }
    }
}

impl WorkStore {
    /// Where the row about an operation's inputs stands.
    fn find_delivery(&self, operation_id: &str) -> (res: Option<usize>)
        ensures
            match res {
                Some(i) => i < self.deliveries.len() && delivery_at(
                    self@.deliveries,
                    operation_id@,
                ) == Some(i as int),
                None => delivery_at(self@.deliveries, operation_id@) is None,
            },
    {
        let ghost all = self@.deliveries;
        let mut i: usize = self.deliveries.len();
        assert(all.take(i as int) =~= all);
        while i > 0
            invariant
                i <= self.deliveries.len(),
                all == self@.deliveries,
                delivery_at(all, operation_id@) == delivery_at(all.take(i as int), operation_id@),
            decreases i,
        {
            i -= 1;
            assert(all.take(i + 1).drop_last() =~= all.take(i as int));
            if text_eq(self.deliveries[i].operation_id.as_str(), operation_id) {
                return Some(i);
            }
        }
        None
    }

    /// The instruction versions under which a key may have been used.
    pub fn replay_versions(&self, actor: &str, session: &str, key: &str, current: Option<&str>) -> (res:
        WorkResult<Vec<Option<String>>>)
        ensures
            shown(res) == versions(self@, actor@, session@, key@, current.deep_view()),
    {
        let kind = RequestKind::Work(OperationKind::DeliverPrompt);
        let row = match self.find_receipt(actor, session, kind, key) {
            Some(row) => row,
            None => {
                let mut res: Vec<Option<String>> = no_items();
                add_row(&mut res, own_version(current));
                return Ok(res);
            },
        };
        let original = match <Operation as Answer>::of_body(&self.receipts[row].body) {
            Some(original) => original,
            None => {
                return refuse(FailureCode::StorageUnavailable);
            },
        };
        match self.find_delivery(original.id.as_str()) {
            Some(at) => {
                match &self.deliveries[at].instruction_version {
                    Some(version) => {
                        let mut res: Vec<Option<String>> = no_items();
                        add_row(&mut res, version.replica());
                        return Ok(res);
                    },
                    None => {},
                }
            },
            None => {},
        }
        if original.bootstrap_version.is_some() {
            let mut res: Vec<Option<String>> = no_items();
            add_row(&mut res, original.bootstrap_version.replica());
            return Ok(res);
        }
        Ok(list_candidates(current))
    }

    /// Answers a delivery that was carried out before.
    fn replay_delivery_request(
        &self,
        actor: &str,
        session: &str,
        key: &str,
        expected: &str,
        legacy: Option<String>,
    ) -> (res: WorkResult<Option<Mutation<Operation>>>)
        ensures
            shown(res) == delivery_replayed(
                self@,
                actor@,
                session@,
                key@,
                expected@,
                legacy.deep_view(),
            ),
    {
        let kind = RequestKind::Work(OperationKind::DeliverPrompt);
        let row = match self.find_receipt(actor, session, kind, key) {
            Some(row) => row,
            None => {
                return Ok(None);
            },
        };
        let original = match <Operation as Answer>::of_body(&self.receipts[row].body) {
            Some(original) => original,
            None => {
                return refuse(FailureCode::StorageUnavailable);
            },
        };
        let matches = match self.find_delivery(original.id.as_str()) {
            Some(at) => text_eq(self.deliveries[at].request_digest.as_str(), expected),
            None => original.input_refs.len() == 0 && is_text(
                &legacy,
                self.receipts[row].digest.as_str(),
            ),
        };
        if !matches {
            return refuse(FailureCode::RequestKeyConflict);
        }
        let value = self.load::<Operation>(session, original.id.as_str())?;
        Ok(Some(Mutation { value, replayed: true }))
    }

    /// Answers a fenced delivery that was carried out before.
    fn replay_fenced(
        &self,
        actor: &str,
        session: &str,
        key: &str,
        digest: &str,
        fence: &DelegationFence,
    ) -> (res: WorkResult<Option<Mutation<Operation>>>)
        ensures
            shown(res) == fenced_replayed(
                self@,
                actor@,
                session@,
                key@,
                digest@,
                fence.deep_view(),
            ),
    {
        let _ = self.authorize_controller(session, fence)?;
        match self.replay_delivery_request(actor, session, key, digest, None)? {
            None => Ok(None),
            Some(found) => {
                if !is_fence(&found.value.delegation_fence, fence) {
                    return refuse(FailureCode::ScopeMismatch);
                }
                self.authorize_child_id(session, fence, found.value.task_id.as_str())?;
                Ok(Some(found))
            },
        }
    }

    fn try_delivery(
        &self,
        d: &Delivery<'_>,
        version: Option<&str>,
        fence: Option<&DelegationFence>,
    ) -> (res: WorkResult<Option<Mutation<Operation>>>)
        ensures
            shown(res) == tried(
                self@,
                d.deep_view(),
                version.deep_view(),
                fence.deep_view(),
            ),
    {
        validate_refs(d.input_refs)?;
        match fence {
            Some(fence) => {
                let digest = d.fenced(version, fence);
                self.replay_fenced(d.actor, d.session, d.key, digest.as_str(), fence)
            },
            None => {
                let expected = d.base(version);
                let legacy = if d.input_refs.len() == 0 {
                    Some(d.bare(version))
                } else {
                    None
                };
                self.replay_delivery_request(d.actor, d.session, d.key, expected.as_str(), legacy)
            },
        }
    }

    /// Answers a delivery with inputs that was carried out before.
    pub(crate) fn redeliver(&self, d: &Delivery<'_>, fence: Option<&DelegationFence>) -> (res:
        WorkResult<Option<Mutation<Operation>>>)
        ensures
            shown(res) == redelivered(self@, d.deep_view(), fence.deep_view()),
    {
        if !well_named(d.actor, d.session, d.key) {
            return refuse(FailureCode::InvalidInput);
        }
        let list = self.replay_versions(d.actor, d.session, d.key, d.instruction_version)?;
        let ghost all = list.deep_view();
        let mut i: usize = 0;
        assert(all.skip(0) =~= all);
        while i < list.len()
            invariant
                i <= list.len(),
                all == list.deep_view(),
                redelivered(self@, d.deep_view(), fence.deep_view()) == retried(
                    self@,
                    d.deep_view(),
                    all.skip(i as int),
                    fence.deep_view(),
                ),
            decreases list.len() - i,
        {
            assert(all.skip(i as int).drop_first() =~= all.skip(i + 1));
            assert(all.skip(i as int)[0] == list[i as int].deep_view());
            match self.try_delivery(d, lent_version(&list[i]), fence) {
                Ok(found) => {
                    return Ok(found);
                },
                Err(error) => {
                    if error.0 != FailureCode::RequestKeyConflict {
                        return Err(error);
                    }
                },
            }
            i += 1;
        }
        refuse(FailureCode::RequestKeyConflict)
    }

    fn admit_delivery(&self, d: &Delivery<'_>, fence: &Option<DelegationFence>) -> (res: WorkResult<
        (Task, Attempt),
    >)
        ensures
            shown(res) == delivery_admitted(self@, d.deep_view(), fence.deep_view()),
    {
        let task = self.load::<Task>(d.session, d.task_id)?;
        revision(&task, d.expected_revision)?;
        let attempt = self.load::<Attempt>(d.session, d.attempt_id)?;
        self.authorize_if(d.session, fence, &task)?;
        if !text_eq(attempt.task_id.as_str(), d.task_id) {
            return refuse(FailureCode::ScopeMismatch);
        }
        if !reservation_active(&attempt) || !is_text(
            &attempt.binding.instance_id,
            d.expected_instance,
        ) {
            return refuse(FailureCode::InstanceChanged);
        }
        let operations = self.records::<Operation>(d.session, d.task_id);
        if check_pending(&operations, d.attempt_id) {
            return refuse(FailureCode::NotReady);
        }
        Ok((task, attempt))
    }

    /// Whether a fence, where there is one, has authority over a child.
    pub(crate) fn authorize_if(
        &self,
        session: &str,
        fence: &Option<DelegationFence>,
        child: &Task,
    ) -> (res: WorkResult<()>)
        ensures
            res == governed_if(self@, session@, fence.deep_view(), child.deep_view()),
    {
        match fence {
            None => Ok(()),
            Some(fence) => self.authorize_child(session, fence, child),
        }
    }

    fn resolve_delivery(
        &self,
        d: &Delivery<'_>,
        promise: &Option<Promise<'_>>,
        fence: &Option<DelegationFence>,
        task: &Task,
        now: i64,
    ) -> (res: WorkResult<Vec<FrozenInputRef>>)
        ensures
            shown(res) == delivery_inputs(
                self@,
                d.deep_view(),
                promise.deep_view(),
                fence.deep_view(),
                task.deep_view(),
                now,
            ),
    {
        let inputs = match fence {
            Some(fence) => self.resolve_child_inputs(
                d.actor,
                d.session,
                fence,
                task,
                d.input_refs,
                now,
            )?,
            None => self.resolve(
                d.actor,
                d.session,
                task.repo_path.as_str(),
                Some(d.task_id),
                d.input_refs,
                now,
            )?,
        };
        match promise {
            Some(promise) => {
                if !same_items(promise.expected_inputs, inputs.as_slice()) {
                    return refuse(FailureCode::ArtifactChanged);
                }
            },
            None => {},
        }
        Ok(inputs)
    }

    /// Records a delivery. On failure the caller discards the store.
    fn record_delivery(
        &mut self,
        d: &Delivery<'_>,
        promise: &Option<Promise<'_>>,
        fence: &Option<DelegationFence>,
        task: Task,
        op: &Operation,
        now: i64,
    ) -> (res: WorkResult<()>)
        ensures
            match delivery_recorded(
                old(self)@,
                d.deep_view(),
                promise.deep_view(),
                fence.deep_view(),
                task.deep_view(),
                op.deep_view(),
                now,
            ) {
                Ok(next) => res is Ok && final(self)@ == next,
                Err(error) => res == Err::<(), WorkError>(error),
            },
    {
        self.claim(d.session, d.task_id, &op.input_refs)?;
        self.put(d.session, op.id.as_str(), d.task_id, Body::Operation(op.replica()))?;
        let _ = self.change(task, "delivery_prepared", op.id.as_str(), now)?;
        match promise {
            Some(promise) => {
                if self.find_delivery(op.id.as_str()).is_some() {
                    return refuse(FailureCode::StorageUnavailable);
                }
                add_row(
                    &mut self.deliveries,
                    DeliveryRow {
                        operation_id: op.id.clone(),
                        request_digest: d.client(fence),
                        final_prompt_digest: promise.final_prompt_digest.to_string(),
                        instruction_version: Some(own_version(d.instruction_version)),
                    },
                );
            },
            None => {},
        }
        Ok(())
    }

    fn open_delivery(
        &mut self,
        id: &str,
        d: &Delivery<'_>,
        promise: &Option<Promise<'_>>,
        fence: &Option<DelegationFence>,
        now: i64,
    ) -> (res: WorkResult<Mutation<Operation>>)
        ensures
            commits(
                old(self)@,
                final(self)@,
                delivery_opened(
                    old(self)@,
                    id@,
                    d.deep_view(),
                    promise.deep_view(),
                    fence.deep_view(),
                    now,
                ),
                shown(res),
            ),
    {
        let (task, attempt) = self.admit_delivery(d, fence)?;
        let inputs = self.resolve_delivery(d, promise, fence, &task, now)?;
        let operations = self.records::<Operation>(d.session, d.task_id);
        let mut op = new_operation(
            id,
            d.task_id,
            Some(d.attempt_id.to_string()),
            OperationKind::DeliverPrompt,
            now,
        );
        op.delegation_fence = fence.replica();
        op.input_refs = inputs;
        if !check_prompt(&operations, d.attempt_id) {
            op.bootstrap_version = own_version(d.instruction_version);
        }
        op.resources = attempt.binding;
        let mut next = self.replica();
        next.record_delivery(d, promise, fence, task, &op, now)?;
        let request = d.request(promise, fence);
        next.save(&request, ReceiptBody::Operation(op.replica()));
        *self = next;
        Ok(Mutation { value: op, replayed: false })
    }

    fn request_delivery(
        &mut self,
        id: &str,
        d: &Delivery<'_>,
        promise: &Option<Promise<'_>>,
        fence: &Option<DelegationFence>,
        now: i64,
    ) -> (res: WorkResult<Mutation<Operation>>)
        ensures
            commits(
                old(self)@,
                final(self)@,
                delivery_requested(
                    old(self)@,
                    id@,
                    d.deep_view(),
                    promise.deep_view(),
                    fence.deep_view(),
                    now,
                ),
                shown(res),
            ),
    {
        if !d.texts() {
            return refuse(FailureCode::InvalidInput);
        }
        let request = d.request(promise, fence);
        match self.replay::<Operation>(&request)? {
            Some(found) => {
                let value = self.load::<Operation>(d.session, found.id.as_str())?;
                Ok(Mutation { value, replayed: true })
            },
            None => self.open_delivery(id, d, promise, fence, now),
        }
    }

    /// Carries out a request to deliver a prompt, giving the new operation the identifier `id`.
    pub fn prepare_delivery_as(
        &mut self,
        id: &str,
        d: &Delivery<'_>,
        promise: Option<Promise<'_>>,
        fence: Option<DelegationFence>,
        now: i64,
    ) -> (res: WorkResult<Mutation<Operation>>)
        ensures
            commits(
                old(self)@,
                final(self)@,
                delivery_outcome(
                    old(self)@,
                    id@,
                    d.deep_view(),
                    promise.deep_view(),
                    fence.deep_view(),
                    now,
                ),
                shown(res),
            ),
    {
        validate_refs(d.input_refs)?;
        match &promise {
            Some(made) => {
                if !valid_digest(made.final_prompt_digest) {
                    return refuse(FailureCode::InvalidInput);
                }
                let found = match &fence {
                    Some(fence) => self.redeliver(d, Some(fence))?,
                    None => self.redeliver(d, None)?,
                };
                match found {
                    Some(found) => {
                        return Ok(found);
                    },
                    None => {},
                }
            },
            None => {},
        }
        self.request_delivery(id, d, &promise, &fence, now)
    }
}

} // verus!
