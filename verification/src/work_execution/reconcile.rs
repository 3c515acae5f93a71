//! The reconciliation of an attempt: what is recorded decides first, and only where it leaves the
//! question open is the native side asked.
use vstd::prelude::*;
use crate::text::is_native_identity;
use crate::value::Replica;
use crate::value::Text;
use crate::value::no_items;
use crate::value::shown;
use crate::work::model::Attempt;
use crate::work::model::AttemptModel;
use crate::work::model::FailureCode;
use crate::work::model::LaunchPhase;
use crate::work::model::LifecycleObservation;
use crate::work::model::Mutation;
use crate::work::model::MutationModel;
use crate::work::model::NativeStartRefusal;
use crate::work::model::NativeStartRefusalModel;
use crate::work::model::Operation;
use crate::work::model::OperationModel;
use crate::work::model::ReconcileInput;
use crate::work::model::ReconcileInputModel;
use crate::work::model::ReconciliationEvidence;
use crate::work::model::ReconciliationEvidenceModel;
use crate::work::model::ReconciliationReceipt;
use crate::work::model::ReconciliationReceiptModel;
use crate::work::model::ReleaseReason;
use crate::work::model::Reservation;
use crate::work::model::Task;
use crate::work::model::WorkError;
use crate::work::model::WorkResult;
use crate::work::store::changes::MAX_ROW_NUMBER;
use crate::work::store::facts::about;
use crate::work::store::growth::fresh_ids;
use crate::work::store::growth::listed_is_recorded;
use crate::work::store::growth::recorded_is_listed;
use crate::work::store::growth::start_is_listed;
use crate::work::store::history::found_where_filed;
use crate::work::store::history::grown;
use crate::work::store::history::growth_is_transitive;
use crate::work::store::history::unused;
use crate::work::store::history::well_formed;
use crate::work::store::operations::begin_outcome;
use crate::work::store::reconciliation::find_start;
use crate::work::store::reconciliation::finding_outcome;
use crate::work::store::reconciliation::observed;
use crate::work::store::reconciliation::reconcile_outcome;
use crate::work::store::reconciliation::start_of;
use crate::work::store::reconciling::finding_is_made;
use crate::work::store::reconciling::finding_stays;
use crate::work::store::reconciling::reconcile_ready;
use crate::work::store::reconciling::reconciliation_adds_its_operation;
use crate::work::store::reconciling::reconciliation_begins;
use crate::work::store::reconciling::reconciliation_is_under_way;
use crate::work::store::reconciling::unmentioned;
use crate::work::store::records::listed;
use crate::work::store::records::loaded;
use crate::work::store::records::position;
use crate::work::store::records::position_in_range;
use crate::work::store::records::refuse;
use crate::work::store::records::refused;
use crate::work::store::repeats::reconciled_once;
use crate::work::store::summaries::is_active;
use crate::work::store::tables::StoreModel;
use crate::work::store::tables::WorkStore;
use crate::work::store::tasks::detail_of;
use crate::work::store::transaction::after;
use crate::work::store::transaction::commits;
use crate::work::store::transaction::first_time;
use crate::work::store::transaction::once_more;
use crate::work_actor::Ids;
use crate::work_actor::IdsModel;
use crate::work_authority::GrantModel;
use crate::work_authority::Registry;
use crate::work_authority::Scope;
use crate::work_authority::ScopeModel;
use crate::work_authority::files_of;
use crate::work_authority::identified;
use crate::work_authority::revocation_is_final;
use crate::work_authority::without;
use crate::work_execution::Execution;
use crate::work_execution::ExecutionModel;
use crate::work_execution::delivery::attempt_in;
use crate::work_execution::delivery::find_attempt;
use crate::work_execution::op_refused;
use crate::work_execution::refuse_op;

verus! {

/// What the native side says of a process.
#[derive(Debug, PartialEq, Eq)]
pub enum Lifecycle {
    Live,
    Exited { receipt_id: String },
    /// It does not know, or could not be asked.
    Unknown,
}

/// The value of a `Lifecycle`.
#[verifier::ext_equal]
pub enum LifecycleModel {
    Live,
    Exited { receipt_id: Text },
    Unknown,
}

impl DeepView for Lifecycle {
    type V = LifecycleModel;

    open spec fn deep_view(&self) -> LifecycleModel {
        match self {
            Lifecycle::Live => LifecycleModel::Live,
            Lifecycle::Exited { receipt_id } => LifecycleModel::Exited {
                receipt_id: receipt_id.deep_view(),
            },
            Lifecycle::Unknown => LifecycleModel::Unknown,
        }
    }
}

/// What decides a reconciliation.
#[derive(Debug, PartialEq, Eq)]
pub enum Evidence {
    /// The records alone.
    Known(ReconciliationEvidence),
    /// What the native side says of this process.
    Look { instance_id: String, owner_epoch: String },
}

/// The value of an `Evidence`.
#[verifier::ext_equal]
pub enum EvidenceModel {
    Known(ReconciliationEvidenceModel),
    Look { instance_id: Text, owner_epoch: Text },
}

impl DeepView for Evidence {
    type V = EvidenceModel;

    open spec fn deep_view(&self) -> EvidenceModel {
        match self {
            Evidence::Known(value) => EvidenceModel::Known(value.deep_view()),
            Evidence::Look { instance_id, owner_epoch } => EvidenceModel::Look {
                instance_id: instance_id.deep_view(),
                owner_epoch: owner_epoch.deep_view(),
            },
        }
    }
}

/// A reconciliation that was begun and awaits its evidence.
#[derive(Debug, PartialEq, Eq)]
pub struct ReconcileStage {
    pub operation_id: String,
    pub revision: u64,
    pub evidence: Evidence,
}

/// The value of a `ReconcileStage`.
#[verifier::ext_equal]
pub struct ReconcileStageModel {
    pub operation_id: Text,
    pub revision: u64,
    pub evidence: EvidenceModel,
}

impl DeepView for ReconcileStage {
    type V = ReconcileStageModel;

    open spec fn deep_view(&self) -> ReconcileStageModel {
        ReconcileStageModel {
            operation_id: self.operation_id.deep_view(),
            revision: self.revision,
            evidence: self.evidence.deep_view(),
        }
    }
}

/// What follows.
#[derive(Debug)]
pub enum ReconcileNext {
    Await(ReconcileStage),
    Finished(WorkResult<Mutation<ReconciliationReceipt>>),
}

/// The value of a `ReconcileNext`.
#[verifier::ext_equal]
pub enum ReconcileNextModel {
    Await(ReconcileStageModel),
    Finished(WorkResult<MutationModel<ReconciliationReceiptModel>>),
}

impl DeepView for ReconcileNext {
    type V = ReconcileNextModel;

    open spec fn deep_view(&self) -> ReconcileNextModel {
        match self {
            ReconcileNext::Await(value) => ReconcileNextModel::Await(value.deep_view()),
            ReconcileNext::Finished(value) => ReconcileNextModel::Finished(shown(*value)),
        }
    }
}

/// What the records say of an attempt. A reservation that was given back is never given back again;
/// a start that was not dispatched, or was provably refused, made no process.
pub open spec fn evidence_of(attempt: AttemptModel, refusal: Option<NativeStartRefusalModel>) -> EvidenceModel {
    if attempt.lifecycle.reservation == Reservation::Released {
        EvidenceModel::Known(ReconciliationEvidenceModel::Unknown)
    } else if attempt.lifecycle.launch_phase == LaunchPhase::NotDispatched {
        EvidenceModel::Known(ReconciliationEvidenceModel::NotDispatched)
    } else {
        match refusal {
            Some(refusal) => EvidenceModel::Known(
                ReconciliationEvidenceModel::NativeNotStarted {
                    start_operation_id: refusal.start_operation_id,
                    owner_epoch: refusal.owner_epoch,
                    receipt_id: refusal.receipt_id,
                },
            ),
            None => match (attempt.binding.instance_id, attempt.lifecycle.native_owner_epoch) {
                (Some(instance_id), Some(owner_epoch)) => EvidenceModel::Look {
                    instance_id,
                    owner_epoch,
                },
                _ => EvidenceModel::Known(ReconciliationEvidenceModel::Unknown),
            },
        }
    }
}

/// What the records say of an attempt.
pub fn decide_evidence(attempt: &Attempt, refusal: Option<NativeStartRefusal>) -> (res: Evidence)
    ensures
        res.deep_view() == evidence_of(attempt.deep_view(), refusal.deep_view()),
{
    if attempt.lifecycle.reservation == Reservation::Released {
        return Evidence::Known(ReconciliationEvidence::Unknown);
    }
    if attempt.lifecycle.launch_phase == LaunchPhase::NotDispatched {
        return Evidence::Known(ReconciliationEvidence::NotDispatched);
    }
    if let Some(refusal) = refusal {
        return Evidence::Known(
            ReconciliationEvidence::NativeNotStarted {
                start_operation_id: refusal.start_operation_id,
                owner_epoch: refusal.owner_epoch,
                receipt_id: refusal.receipt_id,
            },
        );
    }
    match (&attempt.binding.instance_id, &attempt.lifecycle.native_owner_epoch) {
        (Some(instance_id), Some(owner_epoch)) => Evidence::Look {
            instance_id: instance_id.replica(),
            owner_epoch: owner_epoch.replica(),
        },
        _ => Evidence::Known(ReconciliationEvidence::Unknown),
    }
}

/// The evidence once the native side was asked, where it had to be.
pub open spec fn evidence_given(evidence: EvidenceModel, seen: LifecycleModel) -> ReconciliationEvidenceModel {
    match evidence {
        EvidenceModel::Known(evidence) => evidence,
        EvidenceModel::Look { instance_id, owner_epoch } => match seen {
            LifecycleModel::Live => ReconciliationEvidenceModel::Live { instance_id, owner_epoch },
            LifecycleModel::Exited { receipt_id } => ReconciliationEvidenceModel::Exited {
                instance_id,
                owner_epoch,
                receipt_id,
            },
            LifecycleModel::Unknown => ReconciliationEvidenceModel::Unknown,
        },
    }
}

fn give_evidence(evidence: Evidence, seen: Lifecycle) -> (res: ReconciliationEvidence)
    ensures
        res.deep_view() == evidence_given(evidence.deep_view(), seen.deep_view()),
{
    match evidence {
        Evidence::Known(evidence) => evidence,
        Evidence::Look { instance_id, owner_epoch } => match seen {
            Lifecycle::Live => ReconciliationEvidence::Live { instance_id, owner_epoch },
            Lifecycle::Exited { receipt_id } => ReconciliationEvidence::Exited {
                instance_id,
                owner_epoch,
                receipt_id,
            },
            Lifecycle::Unknown => ReconciliationEvidence::Unknown,
        },
    }
}

/// What the records say of the attempt that an operation reconciles.
#[verifier::opaque]
pub open spec fn recorded_evidence(s: StoreModel, session: Text, op: OperationModel) -> WorkResult<
    ReconcileStageModel,
> {
    match detail_of(s, session, op.task_id) {
        Err(error) => Err(error),
        Ok(detail) => match op.attempt_id {
            None => refused(FailureCode::NotFound),
            Some(attempt_id) => match attempt_in(detail.attempts, attempt_id) {
                None => refused(FailureCode::NotFound),
                Some(i) => match start_of(detail.operations, attempt_id) {
                    None => refused(FailureCode::NotFound),
                    Some(start) => match loaded::<Operation>(s, session, start.id) {
                        Err(error) => Err(error),
                        Ok(_) => Ok(
                            ReconcileStageModel {
                                operation_id: op.id,
                                revision: detail.task.revision,
                                evidence: evidence_of(
                                    detail.attempts[i],
                                    about::<NativeStartRefusal>(s.records, session, start.id),
                                ),
                            },
                        ),
                    },
                },
            },
        },
    }
}

fn record_evidence(store: &WorkStore, session: &str, op: &Operation) -> (res: WorkResult<
    ReconcileStage,
>)
    ensures
        shown(res) == recorded_evidence(store@, session@, op.deep_view()),
{
    reveal(recorded_evidence);
    let detail = store.detail(session, op.task_id.as_str())?;
    let attempt_id = match &op.attempt_id {
        Some(attempt_id) => attempt_id.as_str(),
        None => {
            return refuse(FailureCode::NotFound);
        },
    };
    let at = match find_attempt(&detail.attempts, attempt_id) {
        Some(at) => at,
        None => {
            return refuse(FailureCode::NotFound);
        },
    };
    let start = match find_start(&detail.operations, attempt_id) {
        Some(start) => start,
        None => {
            return refuse(FailureCode::NotFound);
        },
    };
    assert(detail.deep_view().attempts[at as int] == detail.attempts[at as int].deep_view());
    let refusal = store.get_start_refusal(session, start.id.as_str())?;
    Ok(
        ReconcileStage {
            operation_id: op.id.replica(),
            revision: detail.task.revision,
            evidence: decide_evidence(&detail.attempts[at], refusal),
        },
    )
}

/// The intent to reconcile is recorded.
#[verifier::opaque]
pub open spec fn reconcile_intended(
    s: StoreModel,
    ids: IdsModel,
    actor: Text,
    session: Text,
    task_id: Text,
    attempt_id: Text,
    input: ReconcileInputModel,
    now: i64,
) -> WorkResult<(StoreModel, MutationModel<OperationModel>)> {
    reconcile_outcome(
        s,
        ids.first,
        ids.second,
        ids.third,
        actor,
        session,
        task_id,
        attempt_id,
        input,
        now,
    )
}

/// The reconciliation is begun.
#[verifier::opaque]
pub open spec fn reconcile_started(
    s: StoreModel,
    ids: IdsModel,
    session: Text,
    operation_id: Text,
    now: i64,
) -> WorkResult<(StoreModel, OperationModel)> {
    begin_outcome(s, ids.fourth, session, operation_id, None, now)
}

/// The finding of a reconciliation is recorded.
#[verifier::opaque]
pub open spec fn finding_recorded(
    s: StoreModel,
    session: Text,
    stage: ReconcileStageModel,
    seen: LifecycleModel,
    now: i64,
) -> WorkResult<(StoreModel, ReconciliationReceiptModel)> {
    finding_outcome(
        s,
        session,
        stage.operation_id,
        stage.revision,
        evidence_given(stage.evidence, seen),
        now,
    )
}

/// What a repeated request is answered: the finding, or that none is known.
#[verifier::opaque]
pub open spec fn finding_repeated(s: StoreModel, session: Text, operation_id: Text) -> WorkResult<
    MutationModel<ReconciliationReceiptModel>,
> {
    match about::<ReconciliationReceipt>(s.records, session, operation_id) {
        Some(receipt) => Ok(once_more(receipt)),
        None => refused(FailureCode::DeliveryUnconfirmed),
    }
}

/// A request for a reconciliation. Only a human may ask for one; one that was asked for before is
/// answered from the records.
pub open spec fn reconcile_begun(
    run: ExecutionModel,
    s: StoreModel,
    ids: IdsModel,
    actor: Text,
    task_id: Text,
    attempt_id: Text,
    input: ReconcileInputModel,
    now: i64,
) -> (StoreModel, ReconcileNextModel) {
    let session = run.session;
    if run.actor.authority is LocalLead || run.actor.id != actor {
        (s, ReconcileNextModel::Finished(refused(FailureCode::ScopeMismatch)))
    } else {
        match reconcile_intended(s, ids, actor, session, task_id, attempt_id, input, now) {
            Err(error) => (s, ReconcileNextModel::Finished(Err(error))),
            Ok((s1, prepared)) => if prepared.replayed {
                (
                    s1,
                    ReconcileNextModel::Finished(finding_repeated(s1, session, prepared.value.id)),
                )
            } else {
                match reconcile_started(s1, ids, session, prepared.value.id, now) {
                    Err(error) => (s1, ReconcileNextModel::Finished(Err(error))),
                    Ok((s2, op)) => (
                        s2,
                        match recorded_evidence(s2, session, op) {
                            Err(error) => ReconcileNextModel::Finished(Err(error)),
                            Ok(stage) => ReconcileNextModel::Await(stage),
                        },
                    ),
                }
            },
        }
    }
}

/// The end of a reconciliation. Where the task has moved on in the meantime nothing is released and
/// the operation is refused; where the reservation was released, so are the attempt's grants.
pub open spec fn reconcile_ended(
    run: ExecutionModel,
    grants: Seq<GrantModel>,
    s: StoreModel,
    task_id: Text,
    attempt_id: Text,
    stage: ReconcileStageModel,
    seen: LifecycleModel,
    now: i64,
) -> (
    Seq<GrantModel>,
    StoreModel,
    Seq<Text>,
    WorkResult<MutationModel<ReconciliationReceiptModel>>,
) {
    let scope = ScopeModel { session_id: run.session, task_id, attempt_id };
    match finding_recorded(s, run.session, stage, seen, now) {
        Ok((next, receipt)) => if receipt.reservation == Reservation::Released {
            (
                without(grants, scope),
                next,
                files_of(grants, scope),
                Ok(first_time(receipt)),
            )
        } else {
            (grants, next, Seq::empty(), Ok(first_time(receipt)))
        },
        Err(error) => if error == WorkError(FailureCode::RevisionConflict) {
            let end = op_refused(
                s,
                run.session,
                stage.operation_id,
                FailureCode::RevisionConflict,
                now,
            );
            (
                grants,
                after(s, end),
                Seq::empty(),
                match end {
                    Err(error) => Err(error),
                    Ok(_) => Err(error),
                },
            )
        } else {
            (grants, s, Seq::empty(), Err(error))
        },
    }
}

fn fail(error: WorkError) -> (res: ReconcileNext)
    ensures
        res.deep_view() == ReconcileNextModel::Finished(Err(error)),
{
    ReconcileNext::Finished(Err(error))
}

impl Execution {
    fn repeat_finding(&self, store: &WorkStore, operation_id: &str) -> (res: WorkResult<
        Mutation<ReconciliationReceipt>,
    >)
        ensures
            shown(res) == finding_repeated(store@, self.deep_view().session, operation_id@),
    {
        reveal(finding_repeated);
        match store.get_reconciliation(self.session.as_str(), operation_id) {
            Ok(value) => Ok(Mutation { value, replayed: true }),
            Err(_) => refuse(FailureCode::DeliveryUnconfirmed),
        }
    }

    fn intend_reconcile(
        &self,
        store: &mut WorkStore,
        ids: &Ids,
        actor: &str,
        task_id: &str,
        attempt_id: &str,
        input: ReconcileInput,
        now: i64,
    ) -> (res: WorkResult<Mutation<Operation>>)
        ensures
            commits(
                old(store)@,
                final(store)@,
                reconcile_intended(
                    old(store)@,
                    ids.deep_view(),
                    actor@,
                    self.deep_view().session,
                    task_id@,
                    attempt_id@,
                    input.deep_view(),
                    now,
                ),
                shown(res),
            ),
    {
        reveal(reconcile_intended);
        store.prepare_reconciliation_as(
            ids.first.as_str(),
            ids.second.as_str(),
            ids.third.as_str(),
            actor,
            self.session.as_str(),
            task_id,
            attempt_id,
            input,
            now,
        )
    }

    fn start_reconcile(&self, store: &mut WorkStore, ids: &Ids, operation_id: &str, now: i64) -> (res:
        WorkResult<Operation>)
        ensures
            commits(
                old(store)@,
                final(store)@,
                reconcile_started(
                    old(store)@,
                    ids.deep_view(),
                    self.deep_view().session,
                    operation_id@,
                    now,
                ),
                shown(res),
            ),
    {
        reveal(reconcile_started);
        store.begin_operation_as(
            ids.fourth.as_str(),
            self.session.as_str(),
            operation_id,
            None,
            now,
        )
    }

    fn record_finding(
        &self,
        store: &mut WorkStore,
        stage: ReconcileStage,
        seen: Lifecycle,
        now: i64,
    ) -> (res: WorkResult<ReconciliationReceipt>)
        ensures
            commits(
                old(store)@,
                final(store)@,
                finding_recorded(
                    old(store)@,
                    self.deep_view().session,
                    stage.deep_view(),
                    seen.deep_view(),
                    now,
                ),
                shown(res),
            ),
    {
        reveal(finding_recorded);
        let evidence = give_evidence(stage.evidence, seen);
        store.finish_reconciliation(
            self.session.as_str(),
            stage.operation_id.as_str(),
            stage.revision,
            evidence,
            now,
        )
    }

    /// Takes a request for a reconciliation.
    pub fn begin_reconcile(
        &self,
        store: &mut WorkStore,
        ids: &Ids,
        actor: &str,
        task_id: &str,
        attempt_id: &str,
        input: ReconcileInput,
        now: i64,
    ) -> (res: ReconcileNext)
        ensures
            (final(store)@, res.deep_view()) == reconcile_begun(
                self.deep_view(),
                old(store)@,
                ids.deep_view(),
                actor@,
                task_id@,
                attempt_id@,
                input.deep_view(),
                now,
            ),
    {
        if self.actor.is_local() {
            return fail(WorkError(FailureCode::ScopeMismatch));
        }
        if let Err(error) = self.actor.assert_actor(actor) {
            return fail(error);
        }
        let prepared = match self.intend_reconcile(
            store,
            ids,
            actor,
            task_id,
            attempt_id,
            input,
            now,
        ) {
            Ok(prepared) => prepared,
            Err(error) => {
                return fail(error);
            },
        };
        if prepared.replayed {
            return ReconcileNext::Finished(self.repeat_finding(store, prepared.value.id.as_str()));
        }
        let op = match self.start_reconcile(store, ids, prepared.value.id.as_str(), now) {
            Ok(op) => op,
            Err(error) => {
                return fail(error);
            },
        };
        match record_evidence(store, self.session.as_str(), &op) {
            Ok(stage) => ReconcileNext::Await(stage),
            Err(error) => fail(error),
        }
    }

    /// Ends a reconciliation with the evidence that was awaited. The files of the grants that it
    /// took away are removed once the locks are no longer held.
    pub fn reconcile(
        &self,
        registry: &mut Registry,
        store: &mut WorkStore,
        task_id: &str,
        attempt_id: &str,
        stage: ReconcileStage,
        seen: Lifecycle,
        now: i64,
    ) -> (res: (Vec<String>, WorkResult<Mutation<ReconciliationReceipt>>))
        ensures
            (final(registry)@, final(store)@, res.0.deep_view(), shown(res.1)) == reconcile_ended(
                self.deep_view(),
                old(registry)@,
                old(store)@,
                task_id@,
                attempt_id@,
                stage.deep_view(),
                seen.deep_view(),
                now,
            ),
    {
        let operation_id = stage.operation_id.replica();
        match self.record_finding(store, stage, seen, now) {
            Ok(receipt) => {
                let mut files: Vec<String> = no_items();
                if receipt.reservation == Reservation::Released {
                    let scope = Scope {
                        session_id: self.session.replica(),
                        task_id: task_id.to_string(),
                        attempt_id: attempt_id.to_string(),
                    };
                    files = registry.revoke_memory(&scope);
                }
                (files, Ok(Mutation { value: receipt, replayed: false }))
            },
            Err(error) => {
                if error.0 == FailureCode::RevisionConflict {
                    let end = refuse_op(
                        store,
                        self.session.as_str(),
                        operation_id.as_str(),
                        FailureCode::RevisionConflict,
                        now,
                    );
                    if let Err(error) = end {
                        return (no_items(), Err(error));
                    }
                }
                (no_items(), Err(error))
            },
        }
    }
}

/// A reservation is released only together with every grant of its attempt: afterwards no token
/// speaks for it.
pub proof fn release_ends_every_grant(
    run: ExecutionModel,
    grants: Seq<GrantModel>,
    s: StoreModel,
    task_id: Text,
    attempt_id: Text,
    stage: ReconcileStageModel,
    seen: LifecycleModel,
    now: i64,
    token: Text,
    later: i64,
)
    ensures
        reconcile_ended(run, grants, s, task_id, attempt_id, stage, seen, now).3 matches Ok(
            mutation,
        ) ==> mutation.value.reservation == Reservation::Released ==> identified(
            reconcile_ended(run, grants, s, task_id, attempt_id, stage, seen, now).0,
            token,
            later,
        ) != Ok::<ScopeModel, WorkError>(
            ScopeModel { session_id: run.session, task_id, attempt_id },
        ),
{
    revocation_is_final(
        grants,
        ScopeModel { session_id: run.session, task_id, attempt_id },
        token,
        later,
    );
}

/// A reconciliation that is overtaken by a change of its task releases nothing and leaves every
/// grant in force.
pub proof fn overtaken_reconciliation_keeps_grants(
    run: ExecutionModel,
    grants: Seq<GrantModel>,
    s: StoreModel,
    task_id: Text,
    attempt_id: Text,
    stage: ReconcileStageModel,
    seen: LifecycleModel,
    now: i64,
)
    requires
        finding_recorded(s, run.session, stage, seen, now) is Err,
    ensures
        reconcile_ended(run, grants, s, task_id, attempt_id, stage, seen, now).0 == grants,
        reconcile_ended(run, grants, s, task_id, attempt_id, stage, seen, now).3 is Err,
{
}

/// The native side is asked only about a process that was launched, is still reserved and is known
/// by its identity and its owner's epoch.
pub proof fn only_open_questions_are_asked(
    attempt: AttemptModel,
    refusal: Option<NativeStartRefusalModel>,
)
    ensures
        evidence_of(attempt, refusal) matches EvidenceModel::Look { instance_id, owner_epoch } ==> (
        attempt.lifecycle.reservation == Reservation::Reserved && attempt.lifecycle.launch_phase
            != LaunchPhase::NotDispatched && refusal is None && attempt.binding.instance_id == Some(
            instance_id,
        ) && attempt.lifecycle.native_owner_epoch == Some(owner_epoch)),
{
}

/// The attempt that is found under an identifier bears it.
proof fn attempt_is_found(attempts: Seq<AttemptModel>, id: Text)
    ensures
        attempt_in(attempts, id) matches Some(i) ==> 0 <= i < attempts.len() && attempts[i].id == id,
    decreases attempts.len(),
{
    if attempts.len() > 0 {
        attempt_is_found(attempts.drop_last(), id);
    }
}

/// What the records say of an attempt is said of the attempt that is recorded, at the revision of
/// its task.
proof fn evidence_is_of_the_attempt(
    s: StoreModel,
    session: Text,
    op: OperationModel,
    attempt_id: Text,
)
    requires
        well_formed(s),
        op.attempt_id == Some(attempt_id),
        recorded_evidence(s, session, op) matches Ok(stage) && stage.evidence is Look,
    ensures
        ({
            let stage = recorded_evidence(s, session, op)->Ok_0;
            &&& stage.operation_id == op.id
            &&& loaded::<Task>(s, session, op.task_id) matches Ok(task) && stage.revision
                == task.revision
            &&& start_of(listed::<Operation>(s.records, session, op.task_id), attempt_id) is Some
            &&& loaded::<Attempt>(s, session, attempt_id) matches Ok(attempt) && is_active(attempt)
                && attempt.binding.instance_id == Some(stage.evidence->instance_id)
                && attempt.lifecycle.native_owner_epoch == Some(stage.evidence->owner_epoch)
        }),
{
    reveal(recorded_evidence);
    let attempts = listed::<Attempt>(s.records, session, op.task_id);
    attempt_is_found(attempts, attempt_id);
    let i = attempt_in(attempts, attempt_id)->0;
    let at = listed_is_recorded::<Attempt>(s.records, session, op.task_id, attempts[i]);
    found_where_filed(s.records, at);
}

/// Whether a reconciliation runs through. Where the native side says that the process exited, that
/// is the finding, the reservation is given back, and the grants of the attempt are gone, their files
/// named. Where it says that the process lives, or nothing, that is the finding, and the reservation
/// and every grant stay. Asked for again, whenever that is, it is answered with the same finding, and
/// the native side is not asked again.
pub open spec fn runs_through(
    run: ExecutionModel,
    grants: Seq<GrantModel>,
    s: StoreModel,
    ids: IdsModel,
    actor: Text,
    task_id: Text,
    attempt_id: Text,
    input: ReconcileInputModel,
    now: i64,
    seen: LifecycleModel,
    then: i64,
    later: StoreModel,
    other_ids: IdsModel,
    other_now: i64,
) -> bool {
    let (under_way, begun) = reconcile_begun(
        run,
        s,
        ids,
        actor,
        task_id,
        attempt_id,
        input,
        now,
    );
    let (left, next, files, answer) = reconcile_ended(
        run,
        grants,
        under_way,
        task_id,
        attempt_id,
        begun->Await_0,
        seen,
        then,
    );
    let scope = ScopeModel { session_id: run.session, task_id, attempt_id };
    &&& answer matches Ok(mutation) && {
        let receipt = mutation.value;
        &&& !mutation.replayed
        &&& receipt.operation_id == ids.first && receipt.attempt_id == attempt_id
        &&& loaded::<Attempt>(next, run.session, attempt_id) matches Ok(attempt)
            && receipt.reservation == attempt.lifecycle.reservation && receipt.release
            == attempt.lifecycle.release && is_active(attempt) == !(seen is Exited)
        &&& seen is Exited ==> receipt.observation == LifecycleObservation::Exited
            && receipt.reservation == Reservation::Released && (
        receipt.release matches Some(release) && release.reason
            == ReleaseReason::OwnedProcessExited) && left == without(grants, scope)
            && files == files_of(grants, scope)
        &&& !(seen is Exited) ==> receipt.reservation != Reservation::Released
            && receipt.release is None && left == grants && files.len() == 0
        &&& seen is Live ==> receipt.observation == LifecycleObservation::Live
        &&& seen is Unknown ==> receipt.observation == LifecycleObservation::Unknown
        &&& reconcile_begun(
            run,
            later,
            other_ids,
            actor,
            task_id,
            attempt_id,
            input,
            other_now,
        ) == (
            later,
            ReconcileNextModel::Finished(
                Ok::<MutationModel<ReconciliationReceiptModel>, WorkError>(
                    once_more(receipt),
                ),
            ),
        )
    }
}

/// A reconciliation that has come to the question that it asks the native side runs through.
pub proof fn reconciliation_runs_through(
    run: ExecutionModel,
    grants: Seq<GrantModel>,
    s: StoreModel,
    ids: IdsModel,
    actor: Text,
    task_id: Text,
    attempt_id: Text,
    input: ReconcileInputModel,
    now: i64,
    seen: LifecycleModel,
    then: i64,
    later: StoreModel,
    other_ids: IdsModel,
    other_now: i64,
)
    requires
        well_formed(s),
        fresh_ids(
            s,
            Seq::empty().push(ids.first).push(ids.second).push(ids.third).push(ids.fourth),
        ),
        unmentioned(s, ids.first),
        reconcile_begun(run, s, ids, actor, task_id, attempt_id, input, now).1 matches
            ReconcileNextModel::Await(stage) && stage.evidence is Look && stage.revision
            < MAX_ROW_NUMBER,
        reconcile_begun(run, s, ids, actor, task_id, attempt_id, input, now).0.last_cursor
            < MAX_ROW_NUMBER,
        seen matches LifecycleModel::Exited { receipt_id } ==> is_native_identity(receipt_id),
        well_formed(later),
        ({
            let (under_way, begun) = reconcile_begun(
                run,
                s,
                ids,
                actor,
                task_id,
                attempt_id,
                input,
                now,
            );
            grown(
                reconcile_ended(
                    run,
                    grants,
                    under_way,
                    task_id,
                    attempt_id,
                    begun->Await_0,
                    seen,
                    then,
                ).1,
                later,
            )
        }),
    ensures
        runs_through(
            run,
            grants,
            s,
            ids,
            actor,
            task_id,
            attempt_id,
            input,
            now,
            seen,
            then,
            later,
            other_ids,
            other_now,
        ),
{
    let session = run.session;
    reveal(reconcile_intended);
    reveal(reconcile_started);
    reveal(finding_recorded);
    reveal(finding_repeated);
    reveal(observed);
    let (under_way, begun) = reconcile_begun(run, s, ids, actor, task_id, attempt_id, input, now);
    let stage = begun->Await_0;
    reconciliation_is_under_way(
        s,
        ids.first,
        ids.second,
        ids.third,
        ids.fourth,
        actor,
        session,
        task_id,
        attempt_id,
        input,
        now,
    );
    let prepared = reconcile_intended(
        s,
        ids,
        actor,
        session,
        task_id,
        attempt_id,
        input,
        now,
    )->Ok_0.0;
    let op = reconcile_started(prepared, ids, session, ids.first, now)->Ok_0.1;
    evidence_is_of_the_attempt(under_way, session, op, attempt_id);
    position_in_range(under_way.records, attempt_id);
    let evidence = evidence_given(stage.evidence, seen);
    finding_is_made(s, under_way, session, op, attempt_id, input, evidence, then);
    let next = reconcile_ended(
        run,
        grants,
        under_way,
        task_id,
        attempt_id,
        stage,
        seen,
        then,
    ).1;
    let receipt = finding_outcome(
        under_way,
        session,
        ids.first,
        stage.revision,
        evidence,
        then,
    )->Ok_0.1;
    growth_is_transitive(prepared, under_way, next);
    growth_is_transitive(prepared, next, later);
    let all = Seq::empty().push(ids.first).push(ids.second).push(ids.third).push(ids.fourth);
    assert(all[0] == ids.first && all[1] == ids.second && all[2] == ids.third);
    assert(unused(s, all[0]) && unused(s, all[1]) && unused(s, all[2]));
    reconciled_once(
        s,
        ids.first,
        ids.second,
        ids.third,
        actor,
        session,
        task_id,
        attempt_id,
        input,
        now,
        later,
        other_ids.first,
        other_ids.second,
        other_ids.third,
        other_now,
    );
    finding_stays(next, later, session, ids.first, s.records.len() as int + 2, receipt);
}

/// An attempt that is listed is found among the attempts.
proof fn listed_attempt_is_found(attempts: Seq<AttemptModel>, attempt: AttemptModel)
    requires
        attempts.contains(attempt),
    ensures
        attempt_in(attempts, attempt.id) is Some,
    decreases attempts.len(),
{
    let k = choose|k: int| 0 <= k < attempts.len() && attempts[k] == attempt;
    let rest = attempts.drop_last();
    if k < attempts.len() - 1 {
        assert(rest[k] == attempt);
        listed_attempt_is_found(rest, attempt);
    }
}

/// A human who asks for the reconciliation of a launched attempt that is still reserved, known by its
/// process and its owner's epoch, and whose start was not refused, has the native side asked about
/// that process; and the reconciliation runs through.
pub proof fn launched_attempts_are_reconciled(
    run: ExecutionModel,
    grants: Seq<GrantModel>,
    s: StoreModel,
    ids: IdsModel,
    actor: Text,
    task_id: Text,
    attempt_id: Text,
    input: ReconcileInputModel,
    now: i64,
    seen: LifecycleModel,
    then: i64,
    later: StoreModel,
    other_ids: IdsModel,
    other_now: i64,
)
    requires
        well_formed(s),
        fresh_ids(
            s,
            Seq::empty().push(ids.first).push(ids.second).push(ids.third).push(ids.fourth),
        ),
        unmentioned(s, ids.first),
        !(run.actor.authority is LocalLead),
        run.actor.id == actor,
        reconcile_ready(s, actor, run.session, task_id, attempt_id, input),
        loaded::<Attempt>(s, run.session, attempt_id) matches Ok(attempt) && is_active(attempt)
            && attempt.lifecycle.launch_phase != LaunchPhase::NotDispatched
            && attempt.binding.instance_id is Some && attempt.lifecycle.native_owner_epoch is Some,
        start_of(listed::<Operation>(s.records, run.session, task_id), attempt_id) matches Some(
            start,
        ) && about::<NativeStartRefusal>(s.records, run.session, start.id) is None,
        seen matches LifecycleModel::Exited { receipt_id } ==> is_native_identity(receipt_id),
        well_formed(later),
        ({
            let (under_way, begun) = reconcile_begun(
                run,
                s,
                ids,
                actor,
                task_id,
                attempt_id,
                input,
                now,
            );
            grown(
                reconcile_ended(
                    run,
                    grants,
                    under_way,
                    task_id,
                    attempt_id,
                    begun->Await_0,
                    seen,
                    then,
                ).1,
                later,
            )
        }),
    ensures
        ({
            let attempt = loaded::<Attempt>(s, run.session, attempt_id)->Ok_0;
            reconcile_begun(run, s, ids, actor, task_id, attempt_id, input, now).1
                == ReconcileNextModel::Await(
                ReconcileStageModel {
                    operation_id: ids.first,
                    revision: (input.expected_revision + 2) as u64,
                    evidence: EvidenceModel::Look {
                        instance_id: attempt.binding.instance_id->0,
                        owner_epoch: attempt.lifecycle.native_owner_epoch->0,
                    },
                },
            )
        }),
        runs_through(
            run,
            grants,
            s,
            ids,
            actor,
            task_id,
            attempt_id,
            input,
            now,
            seen,
            then,
            later,
            other_ids,
            other_now,
        ),
{
    let session = run.session;
    reveal(reconcile_intended);
    reveal(reconcile_started);
    reveal(recorded_evidence);
    reconciliation_begins(
        s,
        ids.first,
        ids.second,
        ids.third,
        ids.fourth,
        actor,
        session,
        task_id,
        attempt_id,
        input,
        now,
    );
    reconciliation_is_under_way(
        s,
        ids.first,
        ids.second,
        ids.third,
        ids.fourth,
        actor,
        session,
        task_id,
        attempt_id,
        input,
        now,
    );
    let (prepared, answer) = reconcile_intended(
        s,
        ids,
        actor,
        session,
        task_id,
        attempt_id,
        input,
        now,
    )->Ok_0;
    let (under_way, op) = reconcile_started(prepared, ids, session, ids.first, now)->Ok_0;
    let attempt = loaded::<Attempt>(s, session, attempt_id)->Ok_0;
    let operations = listed::<Operation>(s.records, session, task_id);
    let start = start_of(operations, attempt_id)->0;
    reconciliation_adds_its_operation(s, under_way, session, task_id, op, input, start.id);
    let attempts = listed::<Attempt>(under_way.records, session, task_id);
    position_in_range(under_way.records, attempt_id);
    recorded_is_listed::<Attempt>(
        under_way.records,
        session,
        task_id,
        position(under_way.records, attempt_id)->0,
        attempt,
    );
    listed_attempt_is_found(attempts, attempt);
    attempt_is_found(attempts, attempt_id);
    let i = attempt_in(attempts, attempt_id)->0;
    let at = listed_is_recorded::<Attempt>(under_way.records, session, task_id, attempts[i]);
    found_where_filed(under_way.records, at);
    let all = listed::<Operation>(under_way.records, session, task_id);
    assert(all.drop_last() =~= operations);
    assert(start_of(all, attempt_id) == Some(start));
    start_is_listed(all, attempt_id);
    let filed_at = listed_is_recorded::<Operation>(under_way.records, session, task_id, start);
    found_where_filed(under_way.records, filed_at);
    reconciliation_runs_through(
        run,
        grants,
        s,
        ids,
        actor,
        task_id,
        attempt_id,
        input,
        now,
        seen,
        then,
        later,
        other_ids,
        other_now,
    );
}

} // verus!
