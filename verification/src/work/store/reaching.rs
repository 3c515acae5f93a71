//! What a store can become, from the empty one on, and what holds of every store so reached.
use vstd::prelude::*;
use crate::text::precedes;
use crate::value::Text;
use crate::work::model::Attempt;
use crate::work::model::AttemptRole;
use crate::work::model::CreateTask;
use crate::work::model::CreateTaskModel;
use crate::work::model::DelegationConfigModel;
use crate::work::model::DelegationFenceModel;
use crate::work::model::FailureCode;
use crate::work::model::InputRefModel;
use crate::work::model::InputUploadModel;
use crate::work::model::InterruptInputModel;
use crate::work::model::InterruptionOutcomeModel;
use crate::work::model::MutationModel;
use crate::work::model::NativeBindingModel;
use crate::work::model::Operation;
use crate::work::model::OperationKind;
use crate::work::model::OperationModel;
use crate::work::model::OperationOutcomeModel;
use crate::work::model::OperationState;
use crate::work::model::PauseInputModel;
use crate::work::model::ReconcileInputModel;
use crate::work::model::ReconciliationEvidenceModel;
use crate::work::model::ResultInputModel;
use crate::work::model::Review;
use crate::work::model::ReviewInputModel;
use crate::work::model::Task;
use crate::work::model::TaskDependencyModel;
use crate::work::store::allowance::allowed;
use crate::work::store::allowance::creation_keeps_allowances;
use crate::work::store::allowance::full_tasks_take_no_more;
use crate::work::store::allowance::start_keeps_allowances;
use crate::work::store::allowance::start_ready;
use crate::work::store::allowance::steady_growth_keeps_allowances;
use crate::work::store::allowance::within_allowance;
use crate::work::store::allowance::workers_stay_within_allowance;
use crate::work::store::attempts::StartModel;
use crate::work::store::attempts::dispatch_outcome;
use crate::work::store::attempts::has_lead;
use crate::work::store::attempts::is_lead;
use crate::work::store::attempts::launch_outcome;
use crate::work::store::attempts::start_outcome;
use crate::work::store::attempts::start_refusal_outcome;
use crate::work::store::attempts::worker_count;
use crate::work::store::authority::DelegatedCreateModel;
use crate::work::store::authority::OperationTargetModel;
use crate::work::store::authority::governs_id;
use crate::work::store::delegation::configure_outcome;
use crate::work::store::delegation::dependencies_outcome;
use crate::work::store::deliveries::DeliveryModel;
use crate::work::store::deliveries::PromiseModel;
use crate::work::store::deliveries::any_prompt;
use crate::work::store::deliveries::delivery_outcome;
use crate::work::store::deliveries::delivery_request;
use crate::work::store::deliveries::delivery_texts;
use crate::work::store::deliveries::prompted_by;
use crate::work::store::freshness::beginning_keeps_up;
use crate::work::store::freshness::checkpointing_keeps_up;
use crate::work::store::freshness::configuring_keeps_up;
use crate::work::store::freshness::creating_keeps_up;
use crate::work::store::freshness::delivering_keeps_up;
use crate::work::store::freshness::depending_keeps_up;
use crate::work::store::freshness::dispatching_keeps_up;
use crate::work::store::freshness::ending_interrupt_keeps_up;
use crate::work::store::freshness::finalizing_keeps_up;
use crate::work::store::freshness::finding_keeps_up;
use crate::work::store::freshness::interrupting_keeps_up;
use crate::work::store::freshness::labelled_rows_are_found;
use crate::work::store::freshness::launching_keeps_up;
use crate::work::store::freshness::lost_lists_are_regained;
use crate::work::store::freshness::opening_brings_up_to_date;
use crate::work::store::freshness::pausing_keeps_up;
use crate::work::store::freshness::rebuilding_brings_up_to_date;
use crate::work::store::freshness::rebuilding_changes_no_page;
use crate::work::store::freshness::reconciling_keeps_up;
use crate::work::store::freshness::refusing_keeps_up;
use crate::work::store::freshness::refusing_start_keeps_up;
use crate::work::store::freshness::reviewing_keeps_up;
use crate::work::store::freshness::shown_right;
use crate::work::store::freshness::starting_keeps_up;
use crate::work::store::freshness::submitting_keeps_up;
use crate::work::store::freshness::unpruned;
use crate::work::store::freshness::up_to_date;
use crate::work::store::freshness::uploading_keeps_up;
use crate::work::store::growth::beginning_grows;
use crate::work::store::growth::checkpointing_grows;
use crate::work::store::growth::configuring_grows;
use crate::work::store::growth::creating_grows;
use crate::work::store::growth::delivering_grows;
use crate::work::store::growth::depending_grows;
use crate::work::store::growth::dispatching_grows;
use crate::work::store::growth::ending_interrupt_grows;
use crate::work::store::growth::finalizing_grows;
use crate::work::store::growth::finding_grows;
use crate::work::store::growth::fresh_ids;
use crate::work::store::growth::interrupting_grows;
use crate::work::store::growth::launching_grows;
use crate::work::store::growth::opening_grows;
use crate::work::store::growth::pausing_grows;
use crate::work::store::growth::rebuilding_keeps;
use crate::work::store::growth::reconciling_grows;
use crate::work::store::growth::refusing_grows;
use crate::work::store::growth::refusing_start_grows;
use crate::work::store::growth::reviewing_grows;
use crate::work::store::growth::starting_grows;
use crate::work::store::growth::submitting_grows;
use crate::work::store::growth::uploading_grows;
use crate::work::store::history::ascending;
use crate::work::store::history::grown;
use crate::work::store::history::growth_is_reflexive;
use crate::work::store::history::growth_is_transitive;
use crate::work::store::history::steady;
use crate::work::store::history::well_formed;
use crate::work::store::inputs::MAX_REFS;
use crate::work::store::inputs::valid_refs;
use crate::work::store::interruptions::interrupt_finalized;
use crate::work::store::interruptions::interrupt_outcome;
use crate::work::store::lasting::one_lead_per_task;
use crate::work::store::listing::all_pages;
use crate::work::store::listing::creation_keeps_the_list_whole;
use crate::work::store::listing::pages_show_every_row;
use crate::work::store::listing::rebuilt_list_is_whole;
use crate::work::store::listing::rows_after;
use crate::work::store::listing::showable;
use crate::work::store::listing::steady_growth_keeps_the_list_whole;
use crate::work::store::listing::task_list_reads_through;
use crate::work::store::listing::whole_list;
use crate::work::store::operations::begin_outcome;
use crate::work::store::operations::checkpoint_outcome;
use crate::work::store::operations::finalize_outcome;
use crate::work::store::operations::refuse_outcome;
use crate::work::store::pagination::after_or_start;
use crate::work::store::reconciliation::finding_outcome;
use crate::work::store::reconciliation::reconcile_outcome;
use crate::work::store::records::listed;
use crate::work::store::records::loaded;
use crate::work::store::records::position;
use crate::work::store::records::position_in_range;
use crate::work::store::records::refused;
use crate::work::store::recovery::empty_store;
use crate::work::store::recovery::opened;
use crate::work::store::repeats::answered_again;
use crate::work::store::repeats::instructions_go_with_the_first_prompt;
use crate::work::store::repeats::other_prompts_conflict;
use crate::work::store::repeats::prompted_once;
use crate::work::store::repeats::prompted_once_by_coordinator;
use crate::work::store::repeats::prompted_once_without_promise;
use crate::work::store::results::review_outcome;
use crate::work::store::results::submit_outcome;
use crate::work::store::rules::budgeted;
use crate::work::store::rules::delegated_reservations;
use crate::work::store::summaries::summary_of;
use crate::work::store::tables::ChangeRowModel;
use crate::work::store::tables::StoreModel;
use crate::work::store::task_list::MAX_EXACT;
use crate::work::store::task_list::list_request;
use crate::work::store::task_list::summaries_rebuilt;
use crate::work::store::task_list::summary_page;
use crate::work::store::task_list::watermark_of;
use crate::work::store::tasks::create_outcome;
use crate::work::store::tasks::pause_outcome;
use crate::work::store::uploads::upload_outcome;
use crate::work_events::Pause;

verus! {

/// What is done to a store: a transaction with what it is given and the identifiers it draws,
/// building the task list anew, or opening the store again.
#[allow(inconsistent_fields)]
pub enum StepModel {
    /// A task is created.
    CreateTask {
        id: Text,
        origin_id: Text,
        share_ids: Seq<Text>,
        actor: Text,
        session: Text,
        key: Text,
        input: CreateTaskModel,
        refs: Seq<InputRefModel>,
        context: Option<DelegatedCreateModel>,
        now: i64,
    },
    /// A task is paused or resumed.
    Pause {
        id: Text,
        actor: Text,
        session: Text,
        task_id: Text,
        key: Text,
        expected_revision: u64,
        input: PauseInputModel,
        now: i64,
    },
    /// Delegation of a task is configured.
    Configure {
        actor: Text,
        session: Text,
        task_id: Text,
        key: Text,
        expected_revision: u64,
        input: DelegationConfigModel,
        now: i64,
    },
    /// A task's dependencies are set.
    SetDependencies {
        id: Text,
        actor: Text,
        session: Text,
        task_id: Text,
        key: Text,
        expected_revision: u64,
        dependencies: Seq<TaskDependencyModel>,
        fence: Option<DelegationFenceModel>,
        now: i64,
    },
    /// A result is submitted.
    SubmitResult {
        id: Text,
        actor: Text,
        session: Text,
        task_id: Text,
        key: Text,
        expected_revision: u64,
        input: ResultInputModel,
        now: i64,
    },
    /// A result is reviewed.
    Review {
        id: Text,
        actor: Text,
        session: Text,
        task_id: Text,
        key: Text,
        expected_revision: u64,
        input: ReviewInputModel,
        now: i64,
    },
    /// An input is uploaded.
    Upload {
        id: Text,
        actor: Text,
        session: Text,
        key: Text,
        input: InputUploadModel,
        now: i64,
    },
    /// An attempt is prepared.
    PrepareAttempt {
        attempt_id: Text,
        op_id: Text,
        fact_id: Text,
        d: StartModel,
        fence: Option<DelegationFenceModel>,
        now: i64,
    },
    /// The dispatch of a start is claimed.
    ClaimStart {
        fact_id: Text,
        session: Text,
        operation_id: Text,
        target: Option<OperationTargetModel>,
        now: i64,
    },
    /// A launch is confirmed.
    ConfirmLaunch {
        session: Text,
        operation_id: Text,
        resources: NativeBindingModel,
        owner_epoch: Text,
        now: i64,
    },
    /// The refusal of a start is recorded.
    RecordStartRefusal {
        session: Text,
        operation_id: Text,
        owner_epoch: Text,
        receipt_id: Text,
        now: i64,
    },
    /// An operation is begun.
    BeginOperation {
        fact_id: Text,
        session: Text,
        operation_id: Text,
        target: Option<OperationTargetModel>,
        now: i64,
    },
    /// What a native operation owns is recorded.
    Checkpoint {
        session: Text,
        operation_id: Text,
        resources: NativeBindingModel,
        now: i64,
    },
    /// An operation is ended.
    Finalize {
        session: Text,
        operation_id: Text,
        end: OperationOutcomeModel,
        now: i64,
    },
    /// An operation is refused.
    Refuse {
        session: Text,
        operation_id: Text,
        code: FailureCode,
        now: i64,
    },
    /// A delivery of input is prepared.
    PrepareDelivery {
        id: Text,
        d: DeliveryModel,
        promise: Option<PromiseModel>,
        fence: Option<DelegationFenceModel>,
        now: i64,
    },
    /// An interruption is prepared.
    PrepareInterrupt {
        id: Text,
        fact_id: Text,
        actor: Text,
        session: Text,
        task_id: Text,
        attempt_id: Text,
        input: InterruptInputModel,
        now: i64,
    },
    /// An interruption is ended.
    FinalizeInterrupt {
        session: Text,
        operation_id: Text,
        end: InterruptionOutcomeModel,
        now: i64,
    },
    /// A reconciliation is prepared.
    PrepareReconciliation {
        id: Text,
        intent_id: Text,
        fact_id: Text,
        actor: Text,
        session: Text,
        task_id: Text,
        attempt_id: Text,
        input: ReconcileInputModel,
        now: i64,
    },
    /// What a reconciliation found is recorded.
    RecordFinding {
        session: Text,
        operation_id: Text,
        expected_revision: u64,
        evidence: ReconciliationEvidenceModel,
        now: i64,
    },
    /// The task list is built anew.
    Rebuild,
    /// The store is closed and opened again.
    Reopen,
}

/// The identifiers that a step draws.
pub open spec fn drawn_ids(step: StepModel) -> Seq<Text> {
    match step {
        StepModel::CreateTask {
            id,
            origin_id,
            share_ids,
            ..
        } => share_ids.push(id).push(origin_id),
        StepModel::Pause { id, .. } => seq![id],
        StepModel::SetDependencies { id, .. } => seq![id],
        StepModel::SubmitResult { id, .. } => seq![id],
        StepModel::Review { id, .. } => seq![id],
        StepModel::PrepareAttempt {
            attempt_id,
            op_id,
            fact_id,
            ..
        } => seq![attempt_id, op_id, fact_id],
        StepModel::ClaimStart { fact_id, .. } => seq![fact_id],
        StepModel::BeginOperation { fact_id, .. } => seq![fact_id],
        StepModel::PrepareDelivery { id, .. } => seq![id],
        StepModel::PrepareInterrupt { id, fact_id, .. } => seq![id, fact_id],
        StepModel::PrepareReconciliation {
            id,
            intent_id,
            fact_id,
            ..
        } => seq![id, intent_id, fact_id],
        _ => Seq::empty(),
    }
}

/// Whether the identifiers that a step draws are unused, no two of them are the same, and there are
/// enough of them.
pub open spec fn draws_fresh(s: StoreModel, step: StepModel) -> bool {
    &&& fresh_ids(s, drawn_ids(step))
    &&& step matches StepModel::CreateTask { share_ids, .. } ==> share_ids.len() >= MAX_REFS
}

/// What a step makes of a store. One that is refused leaves the store as it was.
pub open spec fn after_step(s: StoreModel, step: StepModel) -> StoreModel {
    match step {
        StepModel::CreateTask {
            id,
            origin_id,
            share_ids,
            actor,
            session,
            key,
            input,
            refs,
            context,
            now,
        } => match create_outcome(
            s,
            id,
            origin_id,
            share_ids,
            actor,
            session,
            key,
            input,
            refs,
            context,
            now,
        ) {
            Ok((later, _)) => later,
            Err(_) => s,
        },
        StepModel::Pause {
            id,
            actor,
            session,
            task_id,
            key,
            expected_revision,
            input,
            now,
        } => match pause_outcome(
            s,
            id,
            actor,
            session,
            task_id,
            key,
            expected_revision,
            input,
            now,
        ) {
            Ok((later, _)) => later,
            Err(_) => s,
        },
        StepModel::Configure {
            actor,
            session,
            task_id,
            key,
            expected_revision,
            input,
            now,
        } => match configure_outcome(
            s,
            actor,
            session,
            task_id,
            key,
            expected_revision,
            input,
            now,
        ) {
            Ok((later, _)) => later,
            Err(_) => s,
        },
        StepModel::SetDependencies {
            id,
            actor,
            session,
            task_id,
            key,
            expected_revision,
            dependencies,
            fence,
            now,
        } => match dependencies_outcome(
            s,
            id,
            actor,
            session,
            task_id,
            key,
            expected_revision,
            dependencies,
            fence,
            now,
        ) {
            Ok((later, _)) => later,
            Err(_) => s,
        },
        StepModel::SubmitResult {
            id,
            actor,
            session,
            task_id,
            key,
            expected_revision,
            input,
            now,
        } => match submit_outcome(
            s,
            id,
            actor,
            session,
            task_id,
            key,
            expected_revision,
            input,
            now,
        ) {
            Ok((later, _)) => later,
            Err(_) => s,
        },
        StepModel::Review {
            id,
            actor,
            session,
            task_id,
            key,
            expected_revision,
            input,
            now,
        } => match review_outcome(
            s,
            id,
            actor,
            session,
            task_id,
            key,
            expected_revision,
            input,
            now,
        ) {
            Ok((later, _)) => later,
            Err(_) => s,
        },
        StepModel::Upload { id, actor, session, key, input, now } => match upload_outcome(
            s,
            id,
            actor,
            session,
            key,
            input,
            now,
        ) {
            Ok((later, _)) => later,
            Err(_) => s,
        },
        StepModel::PrepareAttempt {
            attempt_id,
            op_id,
            fact_id,
            d,
            fence,
            now,
        } => match start_outcome(
            s,
            attempt_id,
            op_id,
            fact_id,
            d,
            fence,
            now,
        ) {
            Ok((later, _)) => later,
            Err(_) => s,
        },
        StepModel::ClaimStart {
            fact_id,
            session,
            operation_id,
            target,
            now,
        } => match dispatch_outcome(
            s,
            fact_id,
            session,
            operation_id,
            target,
            now,
        ) {
            Ok((later, _)) => later,
            Err(_) => s,
        },
        StepModel::ConfirmLaunch {
            session,
            operation_id,
            resources,
            owner_epoch,
            now,
        } => match launch_outcome(
            s,
            session,
            operation_id,
            resources,
            owner_epoch,
            now,
        ) {
            Ok((later, _)) => later,
            Err(_) => s,
        },
        StepModel::RecordStartRefusal {
            session,
            operation_id,
            owner_epoch,
            receipt_id,
            now,
        } => match start_refusal_outcome(
            s,
            session,
            operation_id,
            owner_epoch,
            receipt_id,
            now,
        ) {
            Ok((later, _)) => later,
            Err(_) => s,
        },
        StepModel::BeginOperation {
            fact_id,
            session,
            operation_id,
            target,
            now,
        } => match begin_outcome(
            s,
            fact_id,
            session,
            operation_id,
            target,
            now,
        ) {
            Ok((later, _)) => later,
            Err(_) => s,
        },
        StepModel::Checkpoint { session, operation_id, resources, now } => match checkpoint_outcome(
            s,
            session,
            operation_id,
            resources,
            now,
        ) {
            Ok((later, _)) => later,
            Err(_) => s,
        },
        StepModel::Finalize { session, operation_id, end, now } => match finalize_outcome(
            s,
            session,
            operation_id,
            end,
            now,
        ) {
            Ok((later, _)) => later,
            Err(_) => s,
        },
        StepModel::Refuse { session, operation_id, code, now } => match refuse_outcome(
            s,
            session,
            operation_id,
            code,
            now,
        ) {
            Ok((later, _)) => later,
            Err(_) => s,
        },
        StepModel::PrepareDelivery { id, d, promise, fence, now } => match delivery_outcome(
            s,
            id,
            d,
            promise,
            fence,
            now,
        ) {
            Ok((later, _)) => later,
            Err(_) => s,
        },
        StepModel::PrepareInterrupt {
            id,
            fact_id,
            actor,
            session,
            task_id,
            attempt_id,
            input,
            now,
        } => match interrupt_outcome(
            s,
            id,
            fact_id,
            actor,
            session,
            task_id,
            attempt_id,
            input,
            now,
        ) {
            Ok((later, _)) => later,
            Err(_) => s,
        },
        StepModel::FinalizeInterrupt {
            session,
            operation_id,
            end,
            now,
        } => match interrupt_finalized(
            s,
            session,
            operation_id,
            end,
            now,
        ) {
            Ok((later, _)) => later,
            Err(_) => s,
        },
        StepModel::PrepareReconciliation {
            id,
            intent_id,
            fact_id,
            actor,
            session,
            task_id,
            attempt_id,
            input,
            now,
        } => match reconcile_outcome(
            s,
            id,
            intent_id,
            fact_id,
            actor,
            session,
            task_id,
            attempt_id,
            input,
            now,
        ) {
            Ok((later, _)) => later,
            Err(_) => s,
        },
        StepModel::RecordFinding {
            session,
            operation_id,
            expected_revision,
            evidence,
            now,
        } => match finding_outcome(
            s,
            session,
            operation_id,
            expected_revision,
            evidence,
            now,
        ) {
            Ok((later, _)) => later,
            Err(_) => s,
        },
        StepModel::Rebuild => summaries_rebuilt(s).0,
        StepModel::Reopen => match opened(s) {
            Ok(later) => later,
            Err(_) => s,
        },
    }
}

/// The store that steps make of the empty one.
pub open spec fn reached(steps: Seq<StepModel>) -> StoreModel
    decreases steps.len(),
{
    if steps.len() == 0 {
        empty_store()
    } else {
        after_step(reached(steps.drop_last()), steps.last())
    }
}

/// Whether every step draws fresh identifiers.
pub open spec fn all_fresh(steps: Seq<StepModel>) -> bool
    decreases steps.len(),
{
    steps.len() > 0 ==> {
        &&& all_fresh(steps.drop_last())
        &&& draws_fresh(reached(steps.drop_last()), steps.last())
    }
}

/// A store as the operations leave it: its tables are well formed, no allowance is exceeded, the task
/// list can be read, has exactly one row for every task, and is up to date.
pub open spec fn sound(s: StoreModel) -> bool {
    well_formed(s) && allowed(s) && whole_list(s) && up_to_date(s)
}

proof fn steady_step_keeps_sound(before: StoreModel, later: StoreModel)
    requires
        sound(before),
        well_formed(later),
        grown(before, later),
        steady(before.records, later.records),
        up_to_date(later),
    ensures
        sound(later),
{
    steady_growth_keeps_allowances(before, later);
    steady_growth_keeps_the_list_whole(before, later);
}

#[verifier::spinoff_prover]
proof fn creating_keeps_sound(
    s: StoreModel,
    id: Text,
    origin_id: Text,
    share_ids: Seq<Text>,
    actor: Text,
    session: Text,
    key: Text,
    input: CreateTaskModel,
    refs: Seq<InputRefModel>,
    context: Option<DelegatedCreateModel>,
    now: i64,
)
    requires
        sound(s),
        fresh_ids(s, share_ids.push(id).push(origin_id)),
        share_ids.len() >= MAX_REFS,
    ensures
        create_outcome(
            s,
            id,
            origin_id,
            share_ids,
            actor,
            session,
            key,
            input,
            refs,
            context,
            now,
        ) matches Ok((later, _)) ==> sound(later) && grown(s, later),
{
    creating_grows(s, id, origin_id, share_ids, actor, session, key, input, refs, context, now);
    creating_keeps_up(s, id, origin_id, share_ids, actor, session, key, input, refs, context, now);
    creation_keeps_allowances(
        s,
        id,
        origin_id,
        share_ids,
        actor,
        session,
        key,
        input,
        refs,
        context,
        now,
    );
    creation_keeps_the_list_whole(
        s,
        id,
        origin_id,
        share_ids,
        actor,
        session,
        key,
        input,
        refs,
        context,
        now,
    );
}

#[verifier::spinoff_prover]
proof fn pausing_keeps_sound(
    s: StoreModel,
    id: Text,
    actor: Text,
    session: Text,
    task_id: Text,
    key: Text,
    expected_revision: u64,
    input: PauseInputModel,
    now: i64,
)
    requires
        sound(s),
        fresh_ids(s, seq![id]),
    ensures
        pause_outcome(
            s,
            id,
            actor,
            session,
            task_id,
            key,
            expected_revision,
            input,
            now,
        ) matches Ok((later, _)) ==> sound(later) && grown(s, later),
{
    let ids = seq![id];
    assert(ids[0] == id);
    pausing_grows(s, id, actor, session, task_id, key, expected_revision, input, now);
    pausing_keeps_up(s, id, actor, session, task_id, key, expected_revision, input, now);
    if pause_outcome(s, id, actor, session, task_id, key, expected_revision, input, now) is Ok {
        steady_step_keeps_sound(
            s,
            pause_outcome(
                s,
                id,
                actor,
                session,
                task_id,
                key,
                expected_revision,
                input,
                now,
            )->Ok_0.0,
        );
    }
}

#[verifier::spinoff_prover]
proof fn configuring_keeps_sound(
    s: StoreModel,
    actor: Text,
    session: Text,
    task_id: Text,
    key: Text,
    expected_revision: u64,
    input: DelegationConfigModel,
    now: i64,
)
    requires
        sound(s),
    ensures
        configure_outcome(
            s,
            actor,
            session,
            task_id,
            key,
            expected_revision,
            input,
            now,
        ) matches Ok((later, _)) ==> sound(later) && grown(s, later),
{
    configuring_grows(s, actor, session, task_id, key, expected_revision, input, now);
    configuring_keeps_up(s, actor, session, task_id, key, expected_revision, input, now);
    if configure_outcome(s, actor, session, task_id, key, expected_revision, input, now) is Ok {
        steady_step_keeps_sound(
            s,
            configure_outcome(
                s,
                actor,
                session,
                task_id,
                key,
                expected_revision,
                input,
                now,
            )->Ok_0.0,
        );
    }
}

#[verifier::spinoff_prover]
proof fn depending_keeps_sound(
    s: StoreModel,
    id: Text,
    actor: Text,
    session: Text,
    task_id: Text,
    key: Text,
    expected_revision: u64,
    dependencies: Seq<TaskDependencyModel>,
    fence: Option<DelegationFenceModel>,
    now: i64,
)
    requires
        sound(s),
        fresh_ids(s, seq![id]),
    ensures
        dependencies_outcome(
            s,
            id,
            actor,
            session,
            task_id,
            key,
            expected_revision,
            dependencies,
            fence,
            now,
        ) matches Ok((later, _)) ==> sound(later) && grown(s, later),
{
    let ids = seq![id];
    assert(ids[0] == id);
    depending_grows(
        s,
        id,
        actor,
        session,
        task_id,
        key,
        expected_revision,
        dependencies,
        fence,
        now,
    );
    depending_keeps_up(
        s,
        id,
        actor,
        session,
        task_id,
        key,
        expected_revision,
        dependencies,
        fence,
        now,
    );
    if dependencies_outcome(
        s,
        id,
        actor,
        session,
        task_id,
        key,
        expected_revision,
        dependencies,
        fence,
        now,
    ) is Ok {
        steady_step_keeps_sound(
            s,
            dependencies_outcome(
                s,
                id,
                actor,
                session,
                task_id,
                key,
                expected_revision,
                dependencies,
                fence,
                now,
            )->Ok_0.0,
        );
    }
}

#[verifier::spinoff_prover]
proof fn submitting_keeps_sound(
    s: StoreModel,
    id: Text,
    actor: Text,
    session: Text,
    task_id: Text,
    key: Text,
    expected_revision: u64,
    input: ResultInputModel,
    now: i64,
)
    requires
        sound(s),
        fresh_ids(s, seq![id]),
    ensures
        submit_outcome(
            s,
            id,
            actor,
            session,
            task_id,
            key,
            expected_revision,
            input,
            now,
        ) matches Ok((later, _)) ==> sound(later) && grown(s, later),
{
    let ids = seq![id];
    assert(ids[0] == id);
    submitting_grows(s, id, actor, session, task_id, key, expected_revision, input, now);
    submitting_keeps_up(s, id, actor, session, task_id, key, expected_revision, input, now);
    if submit_outcome(s, id, actor, session, task_id, key, expected_revision, input, now) is Ok {
        steady_step_keeps_sound(
            s,
            submit_outcome(
                s,
                id,
                actor,
                session,
                task_id,
                key,
                expected_revision,
                input,
                now,
            )->Ok_0.0,
        );
    }
}

#[verifier::spinoff_prover]
proof fn reviewing_keeps_sound(
    s: StoreModel,
    id: Text,
    actor: Text,
    session: Text,
    task_id: Text,
    key: Text,
    expected_revision: u64,
    input: ReviewInputModel,
    now: i64,
)
    requires
        sound(s),
        fresh_ids(s, seq![id]),
    ensures
        review_outcome(
            s,
            id,
            actor,
            session,
            task_id,
            key,
            expected_revision,
            input,
            now,
        ) matches Ok((later, _)) ==> sound(later) && grown(s, later),
{
    let ids = seq![id];
    assert(ids[0] == id);
    reviewing_grows(s, id, actor, session, task_id, key, expected_revision, input, now);
    reviewing_keeps_up(s, id, actor, session, task_id, key, expected_revision, input, now);
    if review_outcome(s, id, actor, session, task_id, key, expected_revision, input, now) is Ok {
        steady_step_keeps_sound(
            s,
            review_outcome(
                s,
                id,
                actor,
                session,
                task_id,
                key,
                expected_revision,
                input,
                now,
            )->Ok_0.0,
        );
    }
}

#[verifier::spinoff_prover]
proof fn uploading_keeps_sound(
    s: StoreModel,
    id: Text,
    actor: Text,
    session: Text,
    key: Text,
    input: InputUploadModel,
    now: i64,
)
    requires
        sound(s),
    ensures
        upload_outcome(
            s,
            id,
            actor,
            session,
            key,
            input,
            now,
        ) matches Ok((later, _)) ==> sound(later) && grown(s, later),
{
    uploading_grows(s, id, actor, session, key, input, now);
    uploading_keeps_up(s, id, actor, session, key, input, now);
    if upload_outcome(s, id, actor, session, key, input, now) is Ok {
        steady_step_keeps_sound(s, upload_outcome(s, id, actor, session, key, input, now)->Ok_0.0);
    }
}

#[verifier::spinoff_prover]
proof fn starting_keeps_sound(
    s: StoreModel,
    attempt_id: Text,
    op_id: Text,
    fact_id: Text,
    d: StartModel,
    fence: Option<DelegationFenceModel>,
    now: i64,
)
    requires
        sound(s),
        fresh_ids(s, seq![attempt_id, op_id, fact_id]),
    ensures
        start_outcome(
            s,
            attempt_id,
            op_id,
            fact_id,
            d,
            fence,
            now,
        ) matches Ok((later, _)) ==> sound(later) && grown(s, later),
{
    let ids = seq![attempt_id, op_id, fact_id];
    assert(ids[0] == attempt_id);
    assert(ids[1] == op_id);
    assert(ids[2] == fact_id);
    starting_grows(s, attempt_id, op_id, fact_id, d, fence, now);
    starting_keeps_up(s, attempt_id, op_id, fact_id, d, fence, now);
    start_keeps_allowances(s, attempt_id, op_id, fact_id, d, fence, now);
    if start_outcome(s, attempt_id, op_id, fact_id, d, fence, now) is Ok {
        steady_growth_keeps_the_list_whole(
            s,
            start_outcome(s, attempt_id, op_id, fact_id, d, fence, now)->Ok_0.0,
        );
    }
}

#[verifier::spinoff_prover]
proof fn dispatching_keeps_sound(
    s: StoreModel,
    fact_id: Text,
    session: Text,
    operation_id: Text,
    target: Option<OperationTargetModel>,
    now: i64,
)
    requires
        sound(s),
        fresh_ids(s, seq![fact_id]),
    ensures
        dispatch_outcome(
            s,
            fact_id,
            session,
            operation_id,
            target,
            now,
        ) matches Ok((later, _)) ==> sound(later) && grown(s, later),
{
    let ids = seq![fact_id];
    assert(ids[0] == fact_id);
    dispatching_grows(s, fact_id, session, operation_id, target, now);
    dispatching_keeps_up(s, fact_id, session, operation_id, target, now);
    if dispatch_outcome(s, fact_id, session, operation_id, target, now) is Ok {
        steady_step_keeps_sound(
            s,
            dispatch_outcome(s, fact_id, session, operation_id, target, now)->Ok_0.0,
        );
    }
}

#[verifier::spinoff_prover]
proof fn launching_keeps_sound(
    s: StoreModel,
    session: Text,
    operation_id: Text,
    resources: NativeBindingModel,
    owner_epoch: Text,
    now: i64,
)
    requires
        sound(s),
    ensures
        launch_outcome(
            s,
            session,
            operation_id,
            resources,
            owner_epoch,
            now,
        ) matches Ok((later, _)) ==> sound(later) && grown(s, later),
{
    launching_grows(s, session, operation_id, resources, owner_epoch, now);
    launching_keeps_up(s, session, operation_id, resources, owner_epoch, now);
    if launch_outcome(s, session, operation_id, resources, owner_epoch, now) is Ok {
        steady_step_keeps_sound(
            s,
            launch_outcome(s, session, operation_id, resources, owner_epoch, now)->Ok_0.0,
        );
    }
}

#[verifier::spinoff_prover]
proof fn refusing_start_keeps_sound(
    s: StoreModel,
    session: Text,
    operation_id: Text,
    owner_epoch: Text,
    receipt_id: Text,
    now: i64,
)
    requires
        sound(s),
    ensures
        start_refusal_outcome(
            s,
            session,
            operation_id,
            owner_epoch,
            receipt_id,
            now,
        ) matches Ok((later, _)) ==> sound(later) && grown(s, later),
{
    refusing_start_grows(s, session, operation_id, owner_epoch, receipt_id, now);
    refusing_start_keeps_up(s, session, operation_id, owner_epoch, receipt_id, now);
    if start_refusal_outcome(s, session, operation_id, owner_epoch, receipt_id, now) is Ok {
        steady_step_keeps_sound(
            s,
            start_refusal_outcome(s, session, operation_id, owner_epoch, receipt_id, now)->Ok_0.0,
        );
    }
}

#[verifier::spinoff_prover]
proof fn beginning_keeps_sound(
    s: StoreModel,
    fact_id: Text,
    session: Text,
    operation_id: Text,
    target: Option<OperationTargetModel>,
    now: i64,
)
    requires
        sound(s),
        fresh_ids(s, seq![fact_id]),
    ensures
        begin_outcome(
            s,
            fact_id,
            session,
            operation_id,
            target,
            now,
        ) matches Ok((later, _)) ==> sound(later) && grown(s, later),
{
    let ids = seq![fact_id];
    assert(ids[0] == fact_id);
    beginning_grows(s, fact_id, session, operation_id, target, now);
    beginning_keeps_up(s, fact_id, session, operation_id, target, now);
    if begin_outcome(s, fact_id, session, operation_id, target, now) is Ok {
        steady_step_keeps_sound(
            s,
            begin_outcome(s, fact_id, session, operation_id, target, now)->Ok_0.0,
        );
    }
}

#[verifier::spinoff_prover]
proof fn checkpointing_keeps_sound(
    s: StoreModel,
    session: Text,
    operation_id: Text,
    resources: NativeBindingModel,
    now: i64,
)
    requires
        sound(s),
    ensures
        checkpoint_outcome(
            s,
            session,
            operation_id,
            resources,
            now,
        ) matches Ok((later, _)) ==> sound(later) && grown(s, later),
{
    checkpointing_grows(s, session, operation_id, resources, now);
    checkpointing_keeps_up(s, session, operation_id, resources, now);
    if checkpoint_outcome(s, session, operation_id, resources, now) is Ok {
        steady_step_keeps_sound(
            s,
            checkpoint_outcome(s, session, operation_id, resources, now)->Ok_0.0,
        );
    }
}

#[verifier::spinoff_prover]
proof fn finalizing_keeps_sound(
    s: StoreModel,
    session: Text,
    operation_id: Text,
    end: OperationOutcomeModel,
    now: i64,
)
    requires
        sound(s),
    ensures
        finalize_outcome(
            s,
            session,
            operation_id,
            end,
            now,
        ) matches Ok((later, _)) ==> sound(later) && grown(s, later),
{
    finalizing_grows(s, session, operation_id, end, now);
    finalizing_keeps_up(s, session, operation_id, end, now);
    if finalize_outcome(s, session, operation_id, end, now) is Ok {
        steady_step_keeps_sound(s, finalize_outcome(s, session, operation_id, end, now)->Ok_0.0);
    }
}

#[verifier::spinoff_prover]
proof fn refusing_keeps_sound(
    s: StoreModel,
    session: Text,
    operation_id: Text,
    code: FailureCode,
    now: i64,
)
    requires
        sound(s),
    ensures
        refuse_outcome(
            s,
            session,
            operation_id,
            code,
            now,
        ) matches Ok((later, _)) ==> sound(later) && grown(s, later),
{
    refusing_grows(s, session, operation_id, code, now);
    refusing_keeps_up(s, session, operation_id, code, now);
    if refuse_outcome(s, session, operation_id, code, now) is Ok {
        steady_step_keeps_sound(s, refuse_outcome(s, session, operation_id, code, now)->Ok_0.0);
    }
}

#[verifier::spinoff_prover]
proof fn delivering_keeps_sound(
    s: StoreModel,
    id: Text,
    d: DeliveryModel,
    promise: Option<PromiseModel>,
    fence: Option<DelegationFenceModel>,
    now: i64,
)
    requires
        sound(s),
        fresh_ids(s, seq![id]),
    ensures
        delivery_outcome(
            s,
            id,
            d,
            promise,
            fence,
            now,
        ) matches Ok((later, _)) ==> sound(later) && grown(s, later),
{
    let ids = seq![id];
    assert(ids[0] == id);
    delivering_grows(s, id, d, promise, fence, now);
    delivering_keeps_up(s, id, d, promise, fence, now);
    if delivery_outcome(s, id, d, promise, fence, now) is Ok {
        steady_step_keeps_sound(s, delivery_outcome(s, id, d, promise, fence, now)->Ok_0.0);
    }
}

#[verifier::spinoff_prover]
proof fn interrupting_keeps_sound(
    s: StoreModel,
    id: Text,
    fact_id: Text,
    actor: Text,
    session: Text,
    task_id: Text,
    attempt_id: Text,
    input: InterruptInputModel,
    now: i64,
)
    requires
        sound(s),
        fresh_ids(s, seq![id, fact_id]),
    ensures
        interrupt_outcome(
            s,
            id,
            fact_id,
            actor,
            session,
            task_id,
            attempt_id,
            input,
            now,
        ) matches Ok((later, _)) ==> sound(later) && grown(s, later),
{
    let ids = seq![id, fact_id];
    assert(ids[0] == id);
    assert(ids[1] == fact_id);
    interrupting_grows(s, id, fact_id, actor, session, task_id, attempt_id, input, now);
    interrupting_keeps_up(s, id, fact_id, actor, session, task_id, attempt_id, input, now);
    if interrupt_outcome(s, id, fact_id, actor, session, task_id, attempt_id, input, now) is Ok {
        steady_step_keeps_sound(
            s,
            interrupt_outcome(
                s,
                id,
                fact_id,
                actor,
                session,
                task_id,
                attempt_id,
                input,
                now,
            )->Ok_0.0,
        );
    }
}

#[verifier::spinoff_prover]
proof fn ending_interrupt_keeps_sound(
    s: StoreModel,
    session: Text,
    operation_id: Text,
    end: InterruptionOutcomeModel,
    now: i64,
)
    requires
        sound(s),
    ensures
        interrupt_finalized(
            s,
            session,
            operation_id,
            end,
            now,
        ) matches Ok((later, _)) ==> sound(later) && grown(s, later),
{
    ending_interrupt_grows(s, session, operation_id, end, now);
    ending_interrupt_keeps_up(s, session, operation_id, end, now);
    if interrupt_finalized(s, session, operation_id, end, now) is Ok {
        steady_step_keeps_sound(s, interrupt_finalized(s, session, operation_id, end, now)->Ok_0.0);
    }
}

#[verifier::spinoff_prover]
proof fn reconciling_keeps_sound(
    s: StoreModel,
    id: Text,
    intent_id: Text,
    fact_id: Text,
    actor: Text,
    session: Text,
    task_id: Text,
    attempt_id: Text,
    input: ReconcileInputModel,
    now: i64,
)
    requires
        sound(s),
        fresh_ids(s, seq![id, intent_id, fact_id]),
    ensures
        reconcile_outcome(
            s,
            id,
            intent_id,
            fact_id,
            actor,
            session,
            task_id,
            attempt_id,
            input,
            now,
        ) matches Ok((later, _)) ==> sound(later) && grown(s, later),
{
    let ids = seq![id, intent_id, fact_id];
    assert(ids[0] == id);
    assert(ids[1] == intent_id);
    assert(ids[2] == fact_id);
    reconciling_grows(s, id, intent_id, fact_id, actor, session, task_id, attempt_id, input, now);
    reconciling_keeps_up(
        s,
        id,
        intent_id,
        fact_id,
        actor,
        session,
        task_id,
        attempt_id,
        input,
        now,
    );
    if reconcile_outcome(
        s,
        id,
        intent_id,
        fact_id,
        actor,
        session,
        task_id,
        attempt_id,
        input,
        now,
    ) is Ok {
        steady_step_keeps_sound(
            s,
            reconcile_outcome(
                s,
                id,
                intent_id,
                fact_id,
                actor,
                session,
                task_id,
                attempt_id,
                input,
                now,
            )->Ok_0.0,
        );
    }
}

#[verifier::spinoff_prover]
proof fn finding_keeps_sound(
    s: StoreModel,
    session: Text,
    operation_id: Text,
    expected_revision: u64,
    evidence: ReconciliationEvidenceModel,
    now: i64,
)
    requires
        sound(s),
    ensures
        finding_outcome(
            s,
            session,
            operation_id,
            expected_revision,
            evidence,
            now,
        ) matches Ok((later, _)) ==> sound(later) && grown(s, later),
{
    finding_grows(s, session, operation_id, expected_revision, evidence, now);
    finding_keeps_up(s, session, operation_id, expected_revision, evidence, now);
    if finding_outcome(s, session, operation_id, expected_revision, evidence, now) is Ok {
        steady_step_keeps_sound(
            s,
            finding_outcome(s, session, operation_id, expected_revision, evidence, now)->Ok_0.0,
        );
    }
}

proof fn rebuilding_keeps_sound(s: StoreModel)
    requires
        sound(s),
    ensures
        sound(summaries_rebuilt(s).0),
        grown(s, summaries_rebuilt(s).0),
{
    rebuilding_keeps(s);
    rebuilt_list_is_whole(s);
    rebuilding_brings_up_to_date(s);
    growth_is_reflexive(s);
    steady_step_keeps_sound(s, summaries_rebuilt(s).0);
}

proof fn opening_keeps_sound(s: StoreModel)
    requires
        sound(s),
    ensures
        opened(s) matches Ok(later) ==> sound(later) && grown(s, later),
{
    opening_grows(s);
    opening_brings_up_to_date(s);
    if opened(s) is Ok {
        steady_step_keeps_sound(s, opened(s)->Ok_0);
    }
}

/// Every step leaves a sound store sound, and loses nothing that was recorded, answered, uploaded or
/// delivered.
#[verifier::spinoff_prover]
pub proof fn steps_keep_stores_sound(s: StoreModel, step: StepModel)
    requires
        sound(s),
        draws_fresh(s, step),
    ensures
        sound(after_step(s, step)),
        grown(s, after_step(s, step)),
{
    growth_is_reflexive(s);
    match step {
        StepModel::CreateTask {
            id,
            origin_id,
            share_ids,
            actor,
            session,
            key,
            input,
            refs,
            context,
            now,
        } => {
            creating_keeps_sound(
                s,
                id,
                origin_id,
                share_ids,
                actor,
                session,
                key,
                input,
                refs,
                context,
                now,
            );
        },
        StepModel::Pause { id, actor, session, task_id, key, expected_revision, input, now } => {
            pausing_keeps_sound(s, id, actor, session, task_id, key, expected_revision, input, now);
        },
        StepModel::Configure { actor, session, task_id, key, expected_revision, input, now } => {
            configuring_keeps_sound(s, actor, session, task_id, key, expected_revision, input, now);
        },
        StepModel::SetDependencies {
            id,
            actor,
            session,
            task_id,
            key,
            expected_revision,
            dependencies,
            fence,
            now,
        } => {
            depending_keeps_sound(
                s,
                id,
                actor,
                session,
                task_id,
                key,
                expected_revision,
                dependencies,
                fence,
                now,
            );
        },
        StepModel::SubmitResult {
            id,
            actor,
            session,
            task_id,
            key,
            expected_revision,
            input,
            now,
        } => {
            submitting_keeps_sound(
                s,
                id,
                actor,
                session,
                task_id,
                key,
                expected_revision,
                input,
                now,
            );
        },
        StepModel::Review { id, actor, session, task_id, key, expected_revision, input, now } => {
            reviewing_keeps_sound(
                s,
                id,
                actor,
                session,
                task_id,
                key,
                expected_revision,
                input,
                now,
            );
        },
        StepModel::Upload { id, actor, session, key, input, now } => {
            uploading_keeps_sound(s, id, actor, session, key, input, now);
        },
        StepModel::PrepareAttempt { attempt_id, op_id, fact_id, d, fence, now } => {
            starting_keeps_sound(s, attempt_id, op_id, fact_id, d, fence, now);
        },
        StepModel::ClaimStart { fact_id, session, operation_id, target, now } => {
            dispatching_keeps_sound(s, fact_id, session, operation_id, target, now);
        },
        StepModel::ConfirmLaunch { session, operation_id, resources, owner_epoch, now } => {
            launching_keeps_sound(s, session, operation_id, resources, owner_epoch, now);
        },
        StepModel::RecordStartRefusal { session, operation_id, owner_epoch, receipt_id, now } => {
            refusing_start_keeps_sound(s, session, operation_id, owner_epoch, receipt_id, now);
        },
        StepModel::BeginOperation { fact_id, session, operation_id, target, now } => {
            beginning_keeps_sound(s, fact_id, session, operation_id, target, now);
        },
        StepModel::Checkpoint { session, operation_id, resources, now } => {
            checkpointing_keeps_sound(s, session, operation_id, resources, now);
        },
        StepModel::Finalize { session, operation_id, end, now } => {
            finalizing_keeps_sound(s, session, operation_id, end, now);
        },
        StepModel::Refuse { session, operation_id, code, now } => {
            refusing_keeps_sound(s, session, operation_id, code, now);
        },
        StepModel::PrepareDelivery { id, d, promise, fence, now } => {
            delivering_keeps_sound(s, id, d, promise, fence, now);
        },
        StepModel::PrepareInterrupt {
            id,
            fact_id,
            actor,
            session,
            task_id,
            attempt_id,
            input,
            now,
        } => {
            interrupting_keeps_sound(
                s,
                id,
                fact_id,
                actor,
                session,
                task_id,
                attempt_id,
                input,
                now,
            );
        },
        StepModel::FinalizeInterrupt { session, operation_id, end, now } => {
            ending_interrupt_keeps_sound(s, session, operation_id, end, now);
        },
        StepModel::PrepareReconciliation {
            id,
            intent_id,
            fact_id,
            actor,
            session,
            task_id,
            attempt_id,
            input,
            now,
        } => {
            reconciling_keeps_sound(
                s,
                id,
                intent_id,
                fact_id,
                actor,
                session,
                task_id,
                attempt_id,
                input,
                now,
            );
        },
        StepModel::RecordFinding { session, operation_id, expected_revision, evidence, now } => {
            finding_keeps_sound(s, session, operation_id, expected_revision, evidence, now);
        },
        StepModel::Rebuild => {
            rebuilding_keeps_sound(s);
        },
        StepModel::Reopen => {
            opening_keeps_sound(s);
        },
    }
}

/// The empty store is sound.
pub proof fn empty_store_is_sound()
    ensures
        sound(empty_store()),
{
}

/// Every store that the operations reach from the empty one is sound.
pub proof fn reached_stores_are_sound(steps: Seq<StepModel>)
    requires
        all_fresh(steps),
    ensures
        sound(reached(steps)),
    decreases steps.len(),
{
    if steps.len() == 0 {
        empty_store_is_sound();
    } else {
        reached_stores_are_sound(steps.drop_last());
        steps_keep_stores_sound(reached(steps.drop_last()), steps.last());
    }
}

/// Whether a task has no more than one active lead, no more active workers than its policy allows,
/// and no more reservations below and in it than its policy allows.
pub open spec fn within_bounds(s: StoreModel, session: Text, id: Text) -> bool {
    &&& forall|a: Text, b: Text|
        leads(s, session, id, a) && leads(s, session, id, b) ==> #[trigger] same_text(a, b)
    &&& loaded::<Task>(s, session, id) matches Ok(task) ==> {
        &&& worker_count(listed::<Attempt>(s.records, session, id)) <= task.policy.max_workers
        &&& delegated_reservations(s, s.records, session, id) <= task.policy.max_workers
    }
}

/// Whether two texts are the same.
pub open spec fn same_text(a: Text, b: Text) -> bool {
    a == b
}

/// Whether an attempt is an active lead of a task.
pub open spec fn leads(s: StoreModel, session: Text, task_id: Text, id: Text) -> bool {
    loaded::<Attempt>(s, session, id) matches Ok(attempt) && is_lead(attempt) && attempt.task_id
        == task_id
}

/// In every store that the operations reach, each task keeps within its bounds: one active lead, and
/// as many active workers and as many reservations below it as its policy allows. An attempt that
/// there is no room for is refused, and leaves the store as it was.
pub proof fn attempts_stay_within_bounds(
    steps: Seq<StepModel>,
    session: Text,
    id: Text,
    attempt_id: Text,
    op_id: Text,
    fact_id: Text,
    d: StartModel,
    fence: Option<DelegationFenceModel>,
    now: i64,
)
    requires
        all_fresh(steps),
    ensures
        within_bounds(reached(steps), session, id),
        ({
            let s = reached(steps);
            let task = loaded::<Task>(s, d.session, d.task_id)->Ok_0;
            let attempts = listed::<Attempt>(s.records, d.session, d.task_id);
            let full = {
                ||| d.input.role == AttemptRole::Lead && has_lead(attempts)
                ||| d.input.role == AttemptRole::Worker && worker_count(attempts)
                    >= task.policy.max_workers
            };
            start_ready(s, d, fence) && budgeted(s, task, d.input.role) is Ok && full ==> {
                &&& start_outcome(s, attempt_id, op_id, fact_id, d, fence, now) == refused::<
                    (StoreModel, MutationModel<OperationModel>),
                >(FailureCode::ResourceLimit)
                &&& after_step(
                    s,
                    StepModel::PrepareAttempt { attempt_id, op_id, fact_id, d, fence, now },
                ) == s
            }
        }),
{
    let s = reached(steps);
    reached_stores_are_sound(steps);
    assert forall|a: Text, b: Text|
        leads(s, session, id, a) && leads(s, session, id, b) implies #[trigger] same_text(a, b) by {
        one_lead_per_task(s, session, a, b);
    }
    workers_stay_within_allowance(s, session, id);
    if loaded::<Task>(s, session, id) is Ok {
        position_in_range(s.records, id);
        assert(within_allowance(s, position(s.records, id)->0));
    }
    let task = loaded::<Task>(s, d.session, d.task_id)->Ok_0;
    let attempts = listed::<Attempt>(s.records, d.session, d.task_id);
    if start_ready(s, d, fence) && budgeted(s, task, d.input.role) is Ok && (d.input.role
        == AttemptRole::Lead && has_lead(attempts) || d.input.role == AttemptRole::Worker
        && worker_count(attempts) >= task.policy.max_workers) {
        full_tasks_take_no_more(s, attempt_id, op_id, fact_id, d, fence, now);
    }
}

/// The task list of every store that the operations reach reads through: pages from the start on, each
/// asked for with what the one before said, are all given, and together show every task of the
/// session exactly once, as its records give it, and no task of another session.
pub proof fn reached_lists_read_through(steps: Seq<StepModel>, session: Text, limit: u32)
    requires
        all_fresh(steps),
        list_request(session, limit, None, None),
        watermark_of(reached(steps), session) <= MAX_EXACT,
        showable(reached(steps), session),
    ensures
        ({
            let s = reached(steps);
            let turns = rows_after(s.summaries, session, after_or_start(None));
            all_pages(s, session, limit, None, None, turns) matches Ok(all) && {
                &&& forall|i: int, j: int|
                    0 <= i < j < all.len() ==> precedes(
                        (#[trigger] all[i]).task_id,
                        (#[trigger] all[j]).task_id,
                    )
                &&& forall|k: int|
                    0 <= k < all.len() ==> (loaded::<Task>(
                        s,
                        session,
                        (#[trigger] all[k]).task_id,
                    ) matches Ok(task) && all[k] == summary_of(s, session, task))
                &&& forall|id: Text|
                    id.len() > 0 && (#[trigger] loaded::<Task>(s, session, id)) is Ok ==> exists|
                        k: int,
                    |
                        0 <= k < all.len() && (#[trigger] all[k]).task_id == id
            }
        }),
{
    let s = reached(steps);
    reached_stores_are_sound(steps);
    task_list_reads_through(s, session, limit);
    let turns = rows_after(s.summaries, session, after_or_start(None));
    pages_show_every_row(s, session, limit, None, None, turns);
    let all = all_pages(s, session, limit, None, None, turns)->Ok_0;
    assert forall|k: int| 0 <= k < all.len() implies (loaded::<Task>(
        s,
        session,
        (#[trigger] all[k]).task_id,
    ) matches Ok(task) && all[k] == summary_of(s, session, task)) by {
        let j = choose|j: int|
            0 <= j < s.summaries.len() && (#[trigger] s.summaries[j]).session == session
                && s.summaries[j].body == all[k];
        labelled_rows_are_found(s.summaries, j);
        assert(shown_right(s, session, s.summaries[j].task_id));
    }
}

/// In every store that the operations reach, building the task list anew changes no page of any
/// session, whatever part of the stream is left; and a list whose tables were lost is regained, as
/// long as the changes that it stood at are still in the stream.
pub proof fn reached_lists_are_regained(
    steps: Seq<StepModel>,
    kept: Seq<ChangeRowModel>,
    session: Text,
    limit: u32,
    after: Option<Text>,
    snapshot: Option<u64>,
)
    requires
        all_fresh(steps),
        ascending(kept, reached(steps).last_cursor),
        forall|i: int| 0 <= i < kept.len() ==> reached(steps).changes.contains(#[trigger] kept[i]),
    ensures
        ({
            let s = reached(steps);
            let page = summary_page(s, session, limit, after, snapshot);
            let bare = StoreModel {
                summaries: Seq::empty(),
                activity: Seq::empty(),
                watermarks: Seq::empty(),
                summaries_ready: false,
                ..s
            };
            &&& summary_page(
                summaries_rebuilt(StoreModel { changes: kept, ..s }).0,
                session,
                limit,
                after,
                snapshot,
            ) == page
            &&& unpruned(s) ==> summary_page(
                summaries_rebuilt(bare).0,
                session,
                limit,
                after,
                snapshot,
            ) == page
        }),
{
    let s = reached(steps);
    reached_stores_are_sound(steps);
    rebuilding_changes_no_page(s, kept, session, limit, after, snapshot);
    if unpruned(s) {
        lost_lists_are_regained(s, session, limit, after, snapshot);
    }
}

/// What is recorded, answered, uploaded or delivered stays so, whatever the operations do after.
pub proof fn reached_stores_go_on(steps: Seq<StepModel>, n: int)
    requires
        all_fresh(steps),
        0 <= n <= steps.len(),
    ensures
        all_fresh(steps.take(n)),
        grown(reached(steps.take(n)), reached(steps)),
    decreases steps.len(),
{
    if n == steps.len() {
        assert(steps.take(n) =~= steps);
        growth_is_reflexive(reached(steps));
    } else {
        let rest = steps.drop_last();
        reached_stores_go_on(rest, n);
        assert(rest.take(n) =~= steps.take(n));
        reached_stores_are_sound(rest);
        steps_keep_stores_sound(reached(rest), steps.last());
        growth_is_transitive(reached(steps.take(n)), reached(rest), reached(steps));
    }
}

/// A prompt that was recorded carries the caller's instruction version exactly where no earlier prompt
/// to its attempt went unrefused. Whatever the operations do after, the same request is answered with
/// the same operation, where its coordinator, if it has one and made a promise, still has authority;
/// and another request without a promise under the same key is a conflict, as long as the digests
/// of the two differ.
pub proof fn prompts_are_recorded_once(
    steps: Seq<StepModel>,
    n: int,
    id: Text,
    d: DeliveryModel,
    promise: Option<PromiseModel>,
    fence: Option<DelegationFenceModel>,
    now: i64,
    other_id: Text,
    other: DeliveryModel,
    other_now: i64,
)
    requires
        all_fresh(steps),
        0 <= n < steps.len(),
        steps[n] == (StepModel::PrepareDelivery { id, d, promise, fence, now }),
        delivery_outcome(reached(steps.take(n)), id, d, promise, fence, now) matches Ok((_, answer))
            && !answer.replayed,
    ensures
        ({
            let s = reached(steps.take(n));
            let later = reached(steps);
            let op = delivery_outcome(s, id, d, promise, fence, now)->Ok_0.1.value;
            let earlier = listed::<Operation>(s.records, d.session, d.task_id);
            &&& op.bootstrap_version == if any_prompt(earlier, d.attempt_id) {
                None
            } else {
                d.instruction_version
            }
            &&& (promise is None || fence is None || governs_id(
                later,
                d.session,
                fence->0,
                d.task_id,
            ) is Ok) ==> answered_again(
                later,
                d.session,
                op,
                delivery_outcome(later, other_id, d, promise, fence, other_now),
            )
            &&& promise is None && other.actor == d.actor && other.session == d.session && other.key
                == d.key && valid_refs(other.input_refs) && delivery_texts(other)
                && delivery_request(other, None, fence).digest != delivery_request(
                d,
                None,
                fence,
            ).digest ==> delivery_outcome(later, other_id, other, None, fence, other_now)
                == refused::<(StoreModel, MutationModel<OperationModel>)>(
                FailureCode::RequestKeyConflict,
            )
        }),
{
    let s = reached(steps.take(n));
    let later = reached(steps);
    reached_stores_are_sound(steps);
    reached_stores_go_on(steps, n);
    reached_stores_go_on(steps, n + 1);
    reached_stores_are_sound(steps.take(n));
    let upto = steps.take(n + 1);
    assert(upto.drop_last() =~= steps.take(n));
    assert(upto.last() == steps[n]);
    let next = delivery_outcome(s, id, d, promise, fence, now)->Ok_0.0;
    assert(reached(upto) == next);
    let ids = drawn_ids(steps[n]);
    assert(draws_fresh(s, upto.last()));
    assert(ids[0] == id);
    instructions_go_with_the_first_prompt(s, id, d, promise, fence, now);
    let earlier = listed::<Operation>(s.records, d.session, d.task_id);
    if any_prompt(earlier, d.attempt_id) {
        let i = choose|i: int|
            0 <= i < earlier.len() && prompted_by(#[trigger] earlier[i], d.attempt_id);
        assert(earlier[i].kind == OperationKind::DeliverPrompt);
    } else {
        assert forall|i: int|
            0 <= i < earlier.len() && (#[trigger] earlier[i]).kind == OperationKind::DeliverPrompt
                && earlier[i].attempt_id == Some(d.attempt_id) implies earlier[i].state
            == OperationState::Refused by {
            assert(!prompted_by(earlier[i], d.attempt_id));
        }
    }
    match (promise, fence) {
        (None, _) => {
            prompted_once_without_promise(s, id, d, fence, now, later, other_id, other_now);
            if other.actor == d.actor && other.session == d.session && other.key == d.key
                && valid_refs(other.input_refs) && delivery_texts(other) && delivery_request(
                other,
                None,
                fence,
            ).digest != delivery_request(d, None, fence).digest {
                other_prompts_conflict(s, id, d, fence, now, later, other_id, other, other_now);
            }
        },
        (Some(p), None) => {
            prompted_once(s, id, d, p, now, later, other_id, p, other_now);
        },
        (Some(p), Some(f)) => {
            if governs_id(later, d.session, f, d.task_id) is Ok {
                prompted_once_by_coordinator(
                    s,
                    id,
                    d,
                    p,
                    f,
                    now,
                    later,
                    other_id,
                    p,
                    other_now,
                );
            }
        },
    }
}

} // verus!
