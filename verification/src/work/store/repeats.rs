//! A request is carried out once: however the store has grown since, the same request is answered
//! as it was, and changes nothing.
use vstd::prelude::*;
use crate::text::is_digest;
use crate::value::Text;
use crate::work::model::CreateTaskModel;
use crate::work::model::DelegationConfigModel;
use crate::work::model::DelegationFenceModel;
use crate::work::model::FailureCode;
use crate::work::model::InputReceipt;
use crate::work::model::InputReceiptModel;
use crate::work::model::InputRefModel;
use crate::work::model::InputUploadModel;
use crate::work::model::InterruptInputModel;
use crate::work::model::MutationModel;
use crate::work::model::Operation;
use crate::work::model::OperationKind;
use crate::work::model::OperationModel;
use crate::work::model::OperationState;
use crate::work::model::PauseInputModel;
use crate::work::model::ReconcileInputModel;
use crate::work::model::ResultInputModel;
use crate::work::model::ResultSubmission;
use crate::work::model::ResultSubmissionModel;
use crate::work::model::Review;
use crate::work::model::ReviewInputModel;
use crate::work::model::ReviewModel;
use crate::work::model::Task;
use crate::work::model::TaskDependencyModel;
use crate::work::model::TaskModel;
use crate::work::model::WorkError;
use crate::work::model::WorkResult;
use crate::work::store::attempts::StartModel;
use crate::work::store::attempts::fresh_attempt;
use crate::work::store::attempts::start_admitted;
use crate::work::store::attempts::start_outcome;
use crate::work::store::attempts::start_request;
use crate::work::store::authority::DelegatedCreateModel;
use crate::work::store::authority::governs_id;
use crate::work::store::delegation::configure_outcome;
use crate::work::store::delegation::configure_request;
use crate::work::store::delegation::dependencies_outcome;
use crate::work::store::delegation::dependencies_request;
use crate::work::store::delegation::governed_id_if;
use crate::work::store::deliveries::DeliveryModel;
use crate::work::store::deliveries::PromiseModel;
use crate::work::store::deliveries::any_prompt;
use crate::work::store::deliveries::client_digest;
use crate::work::store::deliveries::delivery_admitted;
use crate::work::store::deliveries::delivery_at;
use crate::work::store::deliveries::delivery_operation;
use crate::work::store::deliveries::delivery_outcome;
use crate::work::store::deliveries::delivery_receipt;
use crate::work::store::deliveries::delivery_request;
use crate::work::store::deliveries::delivery_texts;
use crate::work::store::deliveries::prompted_by;
use crate::work::store::deliveries::redelivered;
use crate::work::store::deliveries::retried;
use crate::work::store::deliveries::tried;
use crate::work::store::deliveries::versions;
use crate::work::store::facts::fact_reserved;
use crate::work::store::growth::fresh_ids;
use crate::work::store::growth::recorded_is_listed;
use crate::work::store::history::changing_is_local;
use crate::work::store::history::claiming_grows;
use crate::work::store::history::delivery_found;
use crate::work::store::history::delivery_in_range;
use crate::work::store::history::grown;
use crate::work::store::history::operation_follows;
use crate::work::store::history::putting_is_local;
use crate::work::store::history::reserving_is_local;
use crate::work::store::history::unused;
use crate::work::store::history::well_formed;
use crate::work::store::inputs::MAX_REFS;
use crate::work::store::inputs::claimed;
use crate::work::store::inputs::valid_refs;
use crate::work::store::interruptions::interrupt_admitted;
use crate::work::store::interruptions::interrupt_outcome;
use crate::work::store::interruptions::interrupt_request;
use crate::work::store::lasting::answers_last;
use crate::work::store::lasting::operations_last;
use crate::work::store::lasting::receipts_stay;
use crate::work::store::lasting::saved_is_found;
use crate::work::store::reconciliation::reconcile_outcome;
use crate::work::store::reconciliation::reconcile_request;
use crate::work::store::records::listed;
use crate::work::store::records::loaded;
use crate::work::store::records::position;
use crate::work::store::records::position_in_range;
use crate::work::store::records::put;
use crate::work::store::records::refused;
use crate::work::store::requests::RequestModel;
use crate::work::store::requests::named;
use crate::work::store::requests::receipt_at;
use crate::work::store::requests::replayed;
use crate::work::store::requests::saved;
use crate::work::store::results::result_request;
use crate::work::store::results::review_outcome;
use crate::work::store::results::review_request;
use crate::work::store::results::submit_outcome;
use crate::work::store::tables::Answer;
use crate::work::store::tables::BodyModel;
use crate::work::store::tables::FactKind;
use crate::work::store::tables::ReceiptBodyModel;
use crate::work::store::tables::ReconciliationIntentModel;
use crate::work::store::tables::StoreModel;
use crate::work::store::tasks::create_outcome;
use crate::work::store::tasks::create_request;
use crate::work::store::tasks::pause_outcome;
use crate::work::store::tasks::pause_request;
use crate::work::store::transaction::once_more;
use crate::work::store::uploads::upload_outcome;
use crate::work::store::uploads::upload_request;

verus! {

/// Another request under a key that was used is a conflict, for good.
pub proof fn other_requests_conflict<T: Answer>(
    s: StoreModel,
    later: StoreModel,
    request: RequestModel,
)
    requires
        well_formed(later),
        grown(s, later),
        named(request.actor, request.session, request.key),
        receipt_at(
            s.receipts,
            request.actor,
            request.session,
            request.kind,
            request.key,
        ) matches Some(i) && s.receipts[i].digest != request.digest,
    ensures
        replayed::<T>(later, request) == refused::<Option<T::V>>(FailureCode::RequestKeyConflict),
{
    answers_last::<T>(s, later, request);
}

/// A task is created once.
pub proof fn created_once(
    s: StoreModel,
    id: Text,
    origin_id: Text,
    share_ids: Seq<Text>,
    actor: Text,
    session: Text,
    key: Text,
    input: CreateTaskModel,
    refs: Seq<InputRefModel>,
    context: Option<DelegatedCreateModel>,
    now: i64,
    later: StoreModel,
    other_id: Text,
    other_origin: Text,
    other_shares: Seq<Text>,
    other_now: i64,
)
    requires
        well_formed(s),
        fresh_ids(s, share_ids.push(id).push(origin_id)),
        share_ids.len() >= MAX_REFS,
        create_outcome(
            s,
            id,
            origin_id,
            share_ids,
            actor,
            session,
            key,
            input,
            refs,
            context,
            now,
        ) matches Ok((next, _)) && grown(next, later),
        well_formed(later),
    ensures
        create_outcome(
            later,
            other_id,
            other_origin,
            other_shares,
            actor,
            session,
            key,
            input,
            refs,
            context,
            other_now,
        ) == Ok::<(StoreModel, MutationModel<TaskModel>), WorkError>(
            (
                later,
                once_more(
                    create_outcome(
                        s,
                        id,
                        origin_id,
                        share_ids,
                        actor,
                        session,
                        key,
                        input,
                        refs,
                        context,
                        now,
                    )->Ok_0.1.value,
                ),
            ),
        ),
{
    let outcome = create_outcome(
        s,
        id,
        origin_id,
        share_ids,
        actor,
        session,
        key,
        input,
        refs,
        context,
        now,
    );
    let (next, answer) = outcome->Ok_0;
    let request = create_request(actor, session, key, input, refs, context);
    answers_last::<Task>(next, later, request);
    if replayed::<Task>(s, request) == Ok::<Option<TaskModel>, WorkError>(None) {
        let body = ReceiptBodyModel::Task(answer.value);
        let before = StoreModel { receipts: next.receipts.drop_last(), ..next };
        assert(next.receipts =~= saved(before, request, body).receipts);
        saved_is_found(before, request, body);
    }
}

/// A task is paused once under one key.
pub proof fn paused_once(
    s: StoreModel,
    id: Text,
    actor: Text,
    session: Text,
    task_id: Text,
    key: Text,
    expected_revision: u64,
    input: PauseInputModel,
    now: i64,
    later: StoreModel,
    other_id: Text,
    other_now: i64,
)
    requires
        well_formed(s),
        unused(s, id),
        pause_outcome(s, id, actor, session, task_id, key, expected_revision, input, now) matches Ok(
            (next, _),
        ) && grown(next, later),
        well_formed(later),
    ensures
        pause_outcome(
            later,
            other_id,
            actor,
            session,
            task_id,
            key,
            expected_revision,
            input,
            other_now,
        ) == Ok::<(StoreModel, MutationModel<TaskModel>), WorkError>(
            (
                later,
                once_more(
                    pause_outcome(
                        s,
                        id,
                        actor,
                        session,
                        task_id,
                        key,
                        expected_revision,
                        input,
                        now,
                    )->Ok_0.1.value,
                ),
            ),
        ),
{
    let outcome = pause_outcome(s, id, actor, session, task_id, key, expected_revision, input, now);
    let (next, answer) = outcome->Ok_0;
    let request = pause_request(actor, session, task_id, key, expected_revision, input);
    answers_last::<Task>(next, later, request);
    if replayed::<Task>(s, request) == Ok::<Option<TaskModel>, WorkError>(None) {
        let body = ReceiptBodyModel::Task(answer.value);
        let before = StoreModel { receipts: next.receipts.drop_last(), ..next };
        assert(next.receipts =~= saved(before, request, body).receipts);
        saved_is_found(before, request, body);
    }
}

/// Delegation is configured once under one key.
pub proof fn configured_once(
    s: StoreModel,
    actor: Text,
    session: Text,
    task_id: Text,
    key: Text,
    expected_revision: u64,
    input: DelegationConfigModel,
    now: i64,
    later: StoreModel,
    other_now: i64,
)
    requires
        well_formed(s),
        configure_outcome(s, actor, session, task_id, key, expected_revision, input, now) matches Ok(
            (next, _),
        ) && grown(next, later),
        well_formed(later),
    ensures
        configure_outcome(
            later,
            actor,
            session,
            task_id,
            key,
            expected_revision,
            input,
            other_now,
        ) == Ok::<(StoreModel, MutationModel<TaskModel>), WorkError>(
            (
                later,
                once_more(
                    configure_outcome(
                        s,
                        actor,
                        session,
                        task_id,
                        key,
                        expected_revision,
                        input,
                        now,
                    )->Ok_0.1.value,
                ),
            ),
        ),
{
    let outcome = configure_outcome(
        s,
        actor,
        session,
        task_id,
        key,
        expected_revision,
        input,
        now,
    );
    let (next, answer) = outcome->Ok_0;
    let request = configure_request(actor, session, task_id, key, expected_revision, input);
    answers_last::<Task>(next, later, request);
    if replayed::<Task>(s, request) == Ok::<Option<TaskModel>, WorkError>(None) {
        let body = ReceiptBodyModel::Task(answer.value);
        let before = StoreModel { receipts: next.receipts.drop_last(), ..next };
        assert(next.receipts =~= saved(before, request, body).receipts);
        saved_is_found(before, request, body);
    }
}

/// Dependencies are set once under one key. A coordinator is answered while its fence is in force.
pub proof fn dependencies_set_once(
    s: StoreModel,
    id: Text,
    actor: Text,
    session: Text,
    task_id: Text,
    key: Text,
    expected_revision: u64,
    dependencies: Seq<TaskDependencyModel>,
    fence: Option<DelegationFenceModel>,
    now: i64,
    later: StoreModel,
    other_id: Text,
    other_now: i64,
)
    requires
        well_formed(s),
        unused(s, id),
        dependencies_outcome(
            s,
            id,
            actor,
            session,
            task_id,
            key,
            expected_revision,
            dependencies,
            fence,
            now,
        ) matches Ok((next, _)) && grown(next, later),
        well_formed(later),
        governed_id_if(later, session, fence, task_id) is Ok,
    ensures
        dependencies_outcome(
            later,
            other_id,
            actor,
            session,
            task_id,
            key,
            expected_revision,
            dependencies,
            fence,
            other_now,
        ) == Ok::<(StoreModel, MutationModel<TaskModel>), WorkError>(
            (
                later,
                once_more(
                    dependencies_outcome(
                        s,
                        id,
                        actor,
                        session,
                        task_id,
                        key,
                        expected_revision,
                        dependencies,
                        fence,
                        now,
                    )->Ok_0.1.value,
                ),
            ),
        ),
{
    let outcome = dependencies_outcome(
        s,
        id,
        actor,
        session,
        task_id,
        key,
        expected_revision,
        dependencies,
        fence,
        now,
    );
    let (next, answer) = outcome->Ok_0;
    let request = dependencies_request(
        actor,
        session,
        task_id,
        key,
        expected_revision,
        dependencies,
        fence,
    );
    answers_last::<Task>(next, later, request);
    if replayed::<Task>(s, request) == Ok::<Option<TaskModel>, WorkError>(None) {
        let body = ReceiptBodyModel::Task(answer.value);
        let before = StoreModel { receipts: next.receipts.drop_last(), ..next };
        assert(next.receipts =~= saved(before, request, body).receipts);
        saved_is_found(before, request, body);
    }
}

/// A result is submitted once under one key.
pub proof fn submitted_once(
    s: StoreModel,
    id: Text,
    actor: Text,
    session: Text,
    task_id: Text,
    key: Text,
    expected_revision: u64,
    input: ResultInputModel,
    now: i64,
    later: StoreModel,
    other_id: Text,
    other_now: i64,
)
    requires
        well_formed(s),
        unused(s, id),
        submit_outcome(s, id, actor, session, task_id, key, expected_revision, input, now) matches Ok(
            (next, _),
        ) && grown(next, later),
        well_formed(later),
    ensures
        submit_outcome(
            later,
            other_id,
            actor,
            session,
            task_id,
            key,
            expected_revision,
            input,
            other_now,
        ) == Ok::<(StoreModel, MutationModel<ResultSubmissionModel>), WorkError>(
            (
                later,
                once_more(
                    submit_outcome(
                        s,
                        id,
                        actor,
                        session,
                        task_id,
                        key,
                        expected_revision,
                        input,
                        now,
                    )->Ok_0.1.value,
                ),
            ),
        ),
{
    let outcome = submit_outcome(s, id, actor, session, task_id, key, expected_revision, input, now);
    let (next, answer) = outcome->Ok_0;
    let request = result_request(actor, session, task_id, key, expected_revision, input);
    answers_last::<ResultSubmission>(next, later, request);
    if replayed::<ResultSubmission>(s, request) == Ok::<Option<ResultSubmissionModel>, WorkError>(
        None,
    ) {
        let body = ReceiptBodyModel::Result(answer.value);
        let before = StoreModel { receipts: next.receipts.drop_last(), ..next };
        assert(next.receipts =~= saved(before, request, body).receipts);
        saved_is_found(before, request, body);
    }
}

/// A result is reviewed once under one key.
pub proof fn reviewed_once(
    s: StoreModel,
    id: Text,
    actor: Text,
    session: Text,
    task_id: Text,
    key: Text,
    expected_revision: u64,
    input: ReviewInputModel,
    now: i64,
    later: StoreModel,
    other_id: Text,
    other_now: i64,
)
    requires
        well_formed(s),
        unused(s, id),
        review_outcome(s, id, actor, session, task_id, key, expected_revision, input, now) matches Ok(
            (next, _),
        ) && grown(next, later),
        well_formed(later),
    ensures
        review_outcome(
            later,
            other_id,
            actor,
            session,
            task_id,
            key,
            expected_revision,
            input,
            other_now,
        ) == Ok::<(StoreModel, MutationModel<ReviewModel>), WorkError>(
            (
                later,
                once_more(
                    review_outcome(
                        s,
                        id,
                        actor,
                        session,
                        task_id,
                        key,
                        expected_revision,
                        input,
                        now,
                    )->Ok_0.1.value,
                ),
            ),
        ),
{
    let outcome = review_outcome(s, id, actor, session, task_id, key, expected_revision, input, now);
    let (next, answer) = outcome->Ok_0;
    let request = review_request(actor, session, task_id, key, expected_revision, input);
    answers_last::<Review>(next, later, request);
    if replayed::<Review>(s, request) == Ok::<Option<ReviewModel>, WorkError>(None) {
        let body = ReceiptBodyModel::Review(answer.value);
        let before = StoreModel { receipts: next.receipts.drop_last(), ..next };
        assert(next.receipts =~= saved(before, request, body).receipts);
        saved_is_found(before, request, body);
    }
}

/// An upload is recorded once under one key.
pub proof fn uploaded_once(
    s: StoreModel,
    id: Text,
    actor: Text,
    session: Text,
    key: Text,
    input: InputUploadModel,
    now: i64,
    later: StoreModel,
    other_id: Text,
    other_now: i64,
)
    requires
        well_formed(s),
        upload_outcome(s, id, actor, session, key, input, now) matches Ok((next, _)) && grown(
            next,
            later,
        ),
        well_formed(later),
    ensures
        upload_outcome(later, other_id, actor, session, key, input, other_now) == Ok::<
            (StoreModel, InputReceiptModel),
            WorkError,
        >((later, upload_outcome(s, id, actor, session, key, input, now)->Ok_0.1)),
{
    let (next, answer) = upload_outcome(s, id, actor, session, key, input, now)->Ok_0;
    let request = upload_request(actor, session, key, input);
    answers_last::<InputReceipt>(next, later, request);
    if replayed::<InputReceipt>(s, request) == Ok::<Option<InputReceiptModel>, WorkError>(None) {
        let body = ReceiptBodyModel::Input(answer);
        let before = StoreModel { receipts: next.receipts.drop_last(), ..next };
        assert(next.receipts =~= saved(before, request, body).receipts);
        saved_is_found(before, request, body);
    }
}

/// Whether an operation is answered once more, as it stands now.
pub open spec fn answered_again(
    later: StoreModel,
    session: Text,
    first: OperationModel,
    outcome: WorkResult<(StoreModel, MutationModel<OperationModel>)>,
) -> bool {
    &&& loaded::<Operation>(later, session, first.id) matches Ok(op) && operation_follows(first, op)
        && outcome == Ok::<(StoreModel, MutationModel<OperationModel>), WorkError>(
        (later, once_more(op)),
    )
}

/// An attempt is started once under one key.
pub proof fn started_once(
    s: StoreModel,
    attempt_id: Text,
    op_id: Text,
    fact_id: Text,
    d: StartModel,
    fence: Option<DelegationFenceModel>,
    now: i64,
    later: StoreModel,
    other_attempt: Text,
    other_op: Text,
    other_fact: Text,
    other_now: i64,
)
    requires
        well_formed(s),
        unused(s, attempt_id),
        unused(s, op_id),
        unused(s, fact_id),
        attempt_id != op_id,
        attempt_id != fact_id,
        op_id != fact_id,
        start_outcome(s, attempt_id, op_id, fact_id, d, fence, now) matches Ok((next, _)) && grown(
            next,
            later,
        ),
        well_formed(later),
    ensures
        answered_again(
            later,
            d.session,
            start_outcome(s, attempt_id, op_id, fact_id, d, fence, now)->Ok_0.1.value,
            start_outcome(later, other_attempt, other_op, other_fact, d, fence, other_now),
        ),
{
    let (next, answer) = start_outcome(s, attempt_id, op_id, fact_id, d, fence, now)->Ok_0;
    let request = start_request(d, fence);
    let session = d.session;
    answers_last::<Operation>(next, later, request);
    if replayed::<Operation>(s, request) == Ok::<Option<OperationModel>, WorkError>(None) {
        let op = answer.value;
        let body = ReceiptBodyModel::Operation(op);
        let before = StoreModel { receipts: next.receipts.drop_last(), ..next };
        assert(next.receipts =~= saved(before, request, body).receipts);
        saved_is_found(before, request, body);
        let task = start_admitted(s, d, fence)->Ok_0.0;
        position_in_range(s.records, d.task_id);
        let attempt = fresh_attempt(attempt_id, d.task_id, d.input, now);
        let first = BodyModel::Attempt(attempt);
        let second = BodyModel::Operation(op);
        putting_is_local(s, session, attempt_id, d.task_id, first, op_id);
        let held = put(s, session, attempt_id, d.task_id, first)->Ok_0;
        putting_is_local(held, session, op_id, d.task_id, second, fact_id);
        let filed = put(held, session, op_id, d.task_id, second)->Ok_0;
        reserving_is_local(filed, session, op, FactKind::StartRefusal, fact_id, op_id);
        let kept = fact_reserved(filed, session, op, FactKind::StartRefusal, fact_id)->Ok_0;
        changing_is_local(kept, task, "attempt_prepared"@, op_id, now, op_id);
    } else {
        position_in_range(s.records, replayed::<Operation>(s, request)->Ok_0->0.id);
    }
    operations_last(next, later, session, answer.value.id);
}

/// An attempt is interrupted once under one key.
pub proof fn interrupted_once(
    s: StoreModel,
    id: Text,
    fact_id: Text,
    actor: Text,
    session: Text,
    task_id: Text,
    attempt_id: Text,
    input: InterruptInputModel,
    now: i64,
    later: StoreModel,
    other_id: Text,
    other_fact: Text,
    other_now: i64,
)
    requires
        well_formed(s),
        unused(s, id),
        unused(s, fact_id),
        id != fact_id,
        interrupt_outcome(s, id, fact_id, actor, session, task_id, attempt_id, input, now) matches Ok(
            (next, _),
        ) && grown(next, later),
        well_formed(later),
    ensures
        answered_again(
            later,
            session,
            interrupt_outcome(
                s,
                id,
                fact_id,
                actor,
                session,
                task_id,
                attempt_id,
                input,
                now,
            )->Ok_0.1.value,
            interrupt_outcome(
                later,
                other_id,
                other_fact,
                actor,
                session,
                task_id,
                attempt_id,
                input,
                other_now,
            ),
        ),
{
    let (next, answer) = interrupt_outcome(
        s,
        id,
        fact_id,
        actor,
        session,
        task_id,
        attempt_id,
        input,
        now,
    )->Ok_0;
    let request = interrupt_request(actor, session, task_id, attempt_id, input);
    answers_last::<Operation>(next, later, request);
    if replayed::<Operation>(s, request) == Ok::<Option<OperationModel>, WorkError>(None) {
        let (task, op) = interrupt_admitted(s, id, session, task_id, attempt_id, input, now)->Ok_0;
        let body = ReceiptBodyModel::Operation(op);
        let before = StoreModel { receipts: next.receipts.drop_last(), ..next };
        assert(next.receipts =~= saved(before, request, body).receipts);
        saved_is_found(before, request, body);
        position_in_range(s.records, task_id);
        putting_is_local(s, session, id, task_id, BodyModel::Operation(op), fact_id);
        let filed = put(s, session, id, task_id, BodyModel::Operation(op))->Ok_0;
        reserving_is_local(filed, session, op, FactKind::Interruption, fact_id, id);
        let kept = fact_reserved(filed, session, op, FactKind::Interruption, fact_id)->Ok_0;
        changing_is_local(kept, task, "operation_changed"@, id, now, id);
    } else {
        position_in_range(s.records, replayed::<Operation>(s, request)->Ok_0->0.id);
    }
    operations_last(next, later, session, answer.value.id);
}

/// A reconciliation is prepared once under one key.
pub proof fn reconciled_once(
    s: StoreModel,
    id: Text,
    intent_id: Text,
    fact_id: Text,
    actor: Text,
    session: Text,
    task_id: Text,
    attempt_id: Text,
    input: ReconcileInputModel,
    now: i64,
    later: StoreModel,
    other_id: Text,
    other_intent: Text,
    other_fact: Text,
    other_now: i64,
)
    requires
        well_formed(s),
        unused(s, id),
        unused(s, intent_id),
        unused(s, fact_id),
        id != intent_id,
        id != fact_id,
        intent_id != fact_id,
        reconcile_outcome(
            s,
            id,
            intent_id,
            fact_id,
            actor,
            session,
            task_id,
            attempt_id,
            input,
            now,
        ) matches Ok((next, _)) && grown(next, later),
        well_formed(later),
    ensures
        answered_again(
            later,
            session,
            reconcile_outcome(
                s,
                id,
                intent_id,
                fact_id,
                actor,
                session,
                task_id,
                attempt_id,
                input,
                now,
            )->Ok_0.1.value,
            reconcile_outcome(
                later,
                other_id,
                other_intent,
                other_fact,
                actor,
                session,
                task_id,
                attempt_id,
                input,
                other_now,
            ),
        ),
{
    let (next, answer) = reconcile_outcome(
        s,
        id,
        intent_id,
        fact_id,
        actor,
        session,
        task_id,
        attempt_id,
        input,
        now,
    )->Ok_0;
    let request = reconcile_request(actor, session, task_id, attempt_id, input);
    answers_last::<Operation>(next, later, request);
    if replayed::<Operation>(s, request) == Ok::<Option<OperationModel>, WorkError>(None) {
        let op = answer.value;
        let task = loaded::<Task>(s, session, task_id)->Ok_0;
        let body = ReceiptBodyModel::Operation(op);
        let before = StoreModel { receipts: next.receipts.drop_last(), ..next };
        assert(next.receipts =~= saved(before, request, body).receipts);
        saved_is_found(before, request, body);
        position_in_range(s.records, task_id);
        let first = BodyModel::Operation(op);
        let second = BodyModel::ReconciliationIntent(
            ReconciliationIntentModel { operation_id: id, input },
        );
        putting_is_local(s, session, id, task_id, first, intent_id);
        let filed = put(s, session, id, task_id, first)->Ok_0;
        putting_is_local(filed, session, intent_id, task_id, second, id);
        let meant = put(filed, session, intent_id, task_id, second)->Ok_0;
        reserving_is_local(meant, session, op, FactKind::Reconciliation, fact_id, id);
        let kept = fact_reserved(meant, session, op, FactKind::Reconciliation, fact_id)->Ok_0;
        changing_is_local(kept, task, "reconciliation_prepared"@, id, now, id);
    } else {
        position_in_range(s.records, replayed::<Operation>(s, request)->Ok_0->0.id);
    }
    operations_last(next, later, session, answer.value.id);
}

/// A delivery that was just recorded is found as it was answered, with its answer under its key and
/// what the sender promised beside it.
proof fn delivery_stands(
    s: StoreModel,
    id: Text,
    d: DeliveryModel,
    promise: Option<PromiseModel>,
    fence: Option<DelegationFenceModel>,
    now: i64,
    later: StoreModel,
)
    requires
        well_formed(s),
        unused(s, id),
        delivery_outcome(s, id, d, promise, fence, now) matches Ok((next, answer))
            && !answer.replayed && grown(next, later),
        well_formed(later),
    ensures
        ({
            let op = delivery_outcome(s, id, d, promise, fence, now)->Ok_0.1.value;
            &&& delivery_admitted(s, d, fence) matches Ok((_, attempt)) && op == delivery_operation(
                s,
                id,
                d,
                fence,
                op.input_refs,
                attempt,
                now,
            )
            &&& loaded::<Operation>(later, d.session, id) matches Ok(known) && operation_follows(
                op,
                known,
            )
            &&& delivery_receipt(later, d.actor, d.session, d.key) matches Some(i)
                && later.receipts[i].digest == delivery_request(d, promise, fence).digest
                && later.receipts[i].body == ReceiptBodyModel::Operation(op)
            &&& promise is Some ==> (delivery_at(later.deliveries, id) matches Some(at)
                && later.deliveries[at].request_digest == client_digest(d, fence)
                && later.deliveries[at].instruction_version == Some(d.instruction_version))
        }),
{
    let (next, answer) = delivery_outcome(s, id, d, promise, fence, now)->Ok_0;
    let request = delivery_request(d, promise, fence);
    receipts_stay(next, later, d.actor, d.session, request.kind, d.key);
    unrepeated(s, d, redelivered_versions(s, d), fence);
    let op = answer.value;
    let body = ReceiptBodyModel::Operation(op);
    let before = StoreModel { receipts: next.receipts.drop_last(), ..next };
    assert(next.receipts =~= saved(before, request, body).receipts);
    saved_is_found(before, request, body);
    let (task, attempt) = delivery_admitted(s, d, fence)->Ok_0;
    position_in_range(s.records, d.task_id);
    claiming_grows(s, d.session, d.task_id, op.input_refs);
    let held = claimed(s, d.session, d.task_id, op.input_refs)->Ok_0;
    putting_is_local(held, d.session, id, d.task_id, BodyModel::Operation(op), d.task_id);
    let filed = put(held, d.session, id, d.task_id, BodyModel::Operation(op))->Ok_0;
    changing_is_local(filed, task, "delivery_prepared"@, id, now, id);
    operations_last(next, later, d.session, id);
    if promise is Some {
        let at = next.deliveries.len() - 1;
        let row = next.deliveries[at];
        assert(row.operation_id == id);
        assert(later.deliveries.subrange(0, next.deliveries.len() as int)[at]
            == later.deliveries[at]);
        delivery_found(later.deliveries, at);
        delivery_in_range(later.deliveries, id);
        assert(delivery_at(later.deliveries, id) == Some(at));
    }
}

/// A prompt is delivered once under one key, whatever prompt and inputs the sender promises the
/// second time.
pub proof fn prompted_once(
    s: StoreModel,
    id: Text,
    d: DeliveryModel,
    promise: PromiseModel,
    now: i64,
    later: StoreModel,
    other_id: Text,
    other_promise: PromiseModel,
    other_now: i64,
)
    requires
        well_formed(s),
        unused(s, id),
        delivery_outcome(s, id, d, Some(promise), None, now) matches Ok((next, answer))
            && !answer.replayed && grown(next, later),
        well_formed(later),
        is_digest(other_promise.final_prompt_digest),
    ensures
        answered_again(
            later,
            d.session,
            delivery_outcome(s, id, d, Some(promise), None, now)->Ok_0.1.value,
            delivery_outcome(later, other_id, d, Some(other_promise), None, other_now),
        ),
{
    delivery_stands(s, id, d, Some(promise), None, now, later);
    redelivery_is_tried(later, d, None);
    unrepeated(s, d, redelivered_versions(s, d), None);
}

/// A prompt that a coordinator sent with a promise is delivered once under one key, as long as the
/// coordinator has authority over the task.
pub proof fn prompted_once_by_coordinator(
    s: StoreModel,
    id: Text,
    d: DeliveryModel,
    promise: PromiseModel,
    fence: DelegationFenceModel,
    now: i64,
    later: StoreModel,
    other_id: Text,
    other_promise: PromiseModel,
    other_now: i64,
)
    requires
        well_formed(s),
        unused(s, id),
        delivery_outcome(s, id, d, Some(promise), Some(fence), now) matches Ok((next, answer))
            && !answer.replayed && grown(next, later),
        well_formed(later),
        is_digest(other_promise.final_prompt_digest),
        governs_id(later, d.session, fence, d.task_id) is Ok,
    ensures
        answered_again(
            later,
            d.session,
            delivery_outcome(s, id, d, Some(promise), Some(fence), now)->Ok_0.1.value,
            delivery_outcome(later, other_id, d, Some(other_promise), Some(fence), other_now),
        ),
{
    delivery_stands(s, id, d, Some(promise), Some(fence), now, later);
    redelivery_is_tried(later, d, Some(fence));
    unrepeated(s, d, redelivered_versions(s, d), Some(fence));
}

/// A prompt that was sent without a promise is delivered once under one key.
pub proof fn prompted_once_without_promise(
    s: StoreModel,
    id: Text,
    d: DeliveryModel,
    fence: Option<DelegationFenceModel>,
    now: i64,
    later: StoreModel,
    other_id: Text,
    other_now: i64,
)
    requires
        well_formed(s),
        unused(s, id),
        delivery_outcome(s, id, d, None, fence, now) matches Ok((next, answer)) && !answer.replayed
            && grown(next, later),
        well_formed(later),
    ensures
        answered_again(
            later,
            d.session,
            delivery_outcome(s, id, d, None, fence, now)->Ok_0.1.value,
            delivery_outcome(later, other_id, d, None, fence, other_now),
        ),
{
    delivery_stands(s, id, d, None, fence, now, later);
}

/// A prompt that was sent without a promise takes its key: another prompt under it is a conflict, one
/// with another instruction version among them, as long as the digests of the two differ.
pub proof fn other_prompts_conflict(
    s: StoreModel,
    id: Text,
    d: DeliveryModel,
    fence: Option<DelegationFenceModel>,
    now: i64,
    later: StoreModel,
    other_id: Text,
    other: DeliveryModel,
    other_now: i64,
)
    requires
        well_formed(s),
        unused(s, id),
        delivery_outcome(s, id, d, None, fence, now) matches Ok((next, answer)) && !answer.replayed
            && grown(next, later),
        well_formed(later),
        other.actor == d.actor,
        other.session == d.session,
        other.key == d.key,
        valid_refs(other.input_refs),
        delivery_texts(other),
        delivery_request(other, None, fence).digest != delivery_request(d, None, fence).digest,
    ensures
        delivery_outcome(later, other_id, other, None, fence, other_now) == refused::<
            (StoreModel, MutationModel<OperationModel>),
        >(FailureCode::RequestKeyConflict),
{
    delivery_stands(s, id, d, None, fence, now, later);
}

/// A prompt carries the caller's instruction version exactly where every earlier prompt to its
/// attempt was refused, or there was none.
pub proof fn instructions_go_with_the_first_prompt(
    s: StoreModel,
    id: Text,
    d: DeliveryModel,
    promise: Option<PromiseModel>,
    fence: Option<DelegationFenceModel>,
    now: i64,
)
    requires
        well_formed(s),
        unused(s, id),
        delivery_outcome(s, id, d, promise, fence, now) matches Ok((_, answer))
            && !answer.replayed,
    ensures
        ({
            let op = delivery_outcome(s, id, d, promise, fence, now)->Ok_0.1.value;
            let earlier = listed::<Operation>(s.records, d.session, d.task_id);
            let all_refused = forall|i: int|
                0 <= i < earlier.len() && (#[trigger] earlier[i]).kind
                    == OperationKind::DeliverPrompt && earlier[i].attempt_id == Some(d.attempt_id)
                    ==> earlier[i].state == OperationState::Refused;
            op.bootstrap_version == if all_refused {
                d.instruction_version
            } else {
                None
            }
        }),
{
    unrepeated(s, d, redelivered_versions(s, d), fence);
    let earlier = listed::<Operation>(s.records, d.session, d.task_id);
    if any_prompt(earlier, d.attempt_id) {
        let i = choose|i: int|
            0 <= i < earlier.len() && prompted_by(#[trigger] earlier[i], d.attempt_id);
        assert(earlier[i].kind == OperationKind::DeliverPrompt);
    } else {
        assert forall|i: int|
            0 <= i < earlier.len() && (#[trigger] earlier[i]).kind == OperationKind::DeliverPrompt
                && earlier[i].attempt_id == Some(d.attempt_id) implies earlier[i].state
            == OperationState::Refused by {
            assert(!prompted_by(earlier[i], d.attempt_id));
        }
    }
}

/// While a prompt to an attempt was not refused, no further one carries an instruction version.
pub proof fn instructions_go_once(
    s: StoreModel,
    id: Text,
    d: DeliveryModel,
    promise: Option<PromiseModel>,
    fence: Option<DelegationFenceModel>,
    now: i64,
    later: StoreModel,
    other_id: Text,
    other: DeliveryModel,
    other_promise: Option<PromiseModel>,
    other_fence: Option<DelegationFenceModel>,
    other_now: i64,
)
    requires
        well_formed(s),
        unused(s, id),
        delivery_outcome(s, id, d, promise, fence, now) matches Ok((next, answer))
            && !answer.replayed && grown(next, later),
        well_formed(later),
        loaded::<Operation>(later, d.session, id) matches Ok(op) && op.state
            != OperationState::Refused,
        unused(later, other_id),
        other.session == d.session,
        other.task_id == d.task_id,
        other.attempt_id == d.attempt_id,
        delivery_outcome(
            later,
            other_id,
            other,
            other_promise,
            other_fence,
            other_now,
        ) matches Ok((_, answer)) && !answer.replayed,
    ensures
        delivery_outcome(
            later,
            other_id,
            other,
            other_promise,
            other_fence,
            other_now,
        )->Ok_0.1.value.bootstrap_version is None,
{
    delivery_stands(s, id, d, promise, fence, now, later);
    let op = loaded::<Operation>(later, d.session, id)->Ok_0;
    position_in_range(later.records, id);
    let at = position(later.records, id)->0;
    recorded_is_listed::<Operation>(later.records, d.session, d.task_id, at, op);
    unrepeated(later, other, redelivered_versions(later, other), other_fence);
    let earlier = listed::<Operation>(later.records, d.session, d.task_id);
    let i = choose|i: int| 0 <= i < earlier.len() && earlier[i] == op;
    assert(prompted_by(earlier[i], d.attempt_id));
}

/// A delivery with a promise under a key that was used is looked for under the version that was
/// recorded.
proof fn redelivery_is_tried(s: StoreModel, d: DeliveryModel, fence: Option<DelegationFenceModel>)
    requires
        named(d.actor, d.session, d.key),
        delivery_receipt(s, d.actor, d.session, d.key) matches Some(i)
            && s.receipts[i].body matches ReceiptBodyModel::Operation(op) && (delivery_at(
            s.deliveries,
            op.id,
        ) matches Some(at) && s.deliveries[at].instruction_version == Some(d.instruction_version)),
        tried(s, d, d.instruction_version, fence) is Ok,
    ensures
        redelivered(s, d, fence) == tried(s, d, d.instruction_version, fence),
{
    let list = Seq::empty().push(d.instruction_version);
    assert(versions(s, d.actor, d.session, d.key, d.instruction_version) == Ok::<
        Seq<Option<Text>>,
        WorkError,
    >(list));
    assert(list[0] == d.instruction_version);
}

/// The versions under which a delivery is looked for.
spec fn redelivered_versions(s: StoreModel, d: DeliveryModel) -> Seq<Option<Text>> {
    match versions(s, d.actor, d.session, d.key, d.instruction_version) {
        Ok(list) => list,
        Err(_) => Seq::empty(),
    }
}

/// Every answer that is found is one that was given before.
proof fn unrepeated(
    s: StoreModel,
    d: DeliveryModel,
    list: Seq<Option<Text>>,
    fence: Option<DelegationFenceModel>,
)
    ensures
        retried(s, d, list, fence) matches Ok(Some(found)) ==> found.replayed,
    decreases list.len(),
{
    if list.len() > 0 {
        unrepeated(s, d, list.drop_first(), fence);
    }
}

} // verus!
