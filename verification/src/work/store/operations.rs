//! The life of an operation from preparation to its end.
use vstd::prelude::*;
use crate::digest::is_uuid;
use crate::digest::new_id;
use crate::value::Replica;
use crate::value::Text;
use crate::value::shown;
use crate::work::model::Attempt;
use crate::work::model::AttemptLifecycleModel;
use crate::work::model::AttemptModel;
use crate::work::model::AttemptRelease;
use crate::work::model::AttemptReleaseModel;
use crate::work::model::DelegationFence;
use crate::work::model::FailureCode;
use crate::work::model::LaunchPhase;
use crate::work::model::NativeBinding;
use crate::work::model::NativeBindingModel;
use crate::work::model::Operation;
use crate::work::model::OperationKind;
use crate::work::model::OperationModel;
use crate::work::model::OperationOutcome;
use crate::work::model::OperationOutcomeModel;
use crate::work::model::OperationState;
use crate::work::model::ReleaseEvidence;
use crate::work::model::ReleaseEvidenceModel;
use crate::work::model::ReleaseReason;
use crate::work::model::Reservation;
use crate::work::model::Task;
use crate::work::model::WorkResult;
use crate::work::model::unbound;
use crate::work::store::attempts::both_saved;
use crate::work::store::attempts::in_phase;
use crate::work::store::authority::OperationTarget;
use crate::work::store::authority::OperationTargetModel;
use crate::work::store::authority::governs_id;
use crate::work::store::authority::targeted_if;
use crate::work::store::changes::operation_saved;
use crate::work::store::facts::fact_recorded;
use crate::work::store::facts::fact_reserved;
use crate::work::store::interruptions::interruptible;
use crate::work::store::records::loaded;
use crate::work::store::records::put;
use crate::work::store::records::refuse;
use crate::work::store::records::refused;
use crate::work::store::rules::empty_binding;
use crate::work::store::rules::launchable;
use crate::work::store::rules::merge_binding;
use crate::work::store::rules::merged;
use crate::work::store::rules::started_attempt;
use crate::work::store::summaries::is_active;
use crate::work::store::summaries::is_native;
use crate::work::store::summaries::native_kind;
use crate::work::store::summaries::reservation_active;
use crate::work::store::tables::Body;
use crate::work::store::tables::BodyModel;
use crate::work::store::tables::FactKind;
use crate::work::store::tables::InterruptionFact;
use crate::work::store::tables::InterruptionFactModel;
use crate::work::store::tables::StoreModel;
use crate::work::store::tables::WorkStore;
use crate::work::store::transaction::commits;

verus! {

/// An attempt whose reservation is given back because its start never went out.
pub open spec fn released_undispatched(attempt: AttemptModel, op_id: Text, now: i64) -> AttemptModel {
    AttemptModel {
        lifecycle: AttemptLifecycleModel {
            reservation: Reservation::Released,
            release: Some(
                AttemptReleaseModel {
                    reason: ReleaseReason::StartupNotDispatched,
                    evidence: ReleaseEvidenceModel::GatewayDispatchFence {
                        start_operation_id: op_id,
                    },
                    reconciliation_operation_id: op_id,
                    released_at_ms: now,
                },
            ),
            ..attempt.lifecycle
        },
        ..attempt
    }
}

/// Gives back the reservation of an attempt whose start never went out.
fn release_undispatched(attempt: Attempt, op_id: &str, now: i64) -> (res: Attempt)
    ensures
        res.deep_view() == released_undispatched(attempt.deep_view(), op_id@, now),
{
    let mut attempt = attempt;
    attempt.lifecycle.reservation = Reservation::Released;
    attempt.lifecycle.release = Some(
        AttemptRelease {
            reason: ReleaseReason::StartupNotDispatched,
            evidence: ReleaseEvidence::GatewayDispatchFence {
                start_operation_id: op_id.to_string(),
            },
            reconciliation_operation_id: op_id.to_string(),
            released_at_ms: now,
        },
    );
    attempt
}

/// Whether an operation may go out now: its task may be launched where it starts an attempt, its
/// coordinator still has authority, its attempt is active, and an interrupt still finds the
/// process that it means.
pub open spec fn may_begin(s: StoreModel, session: Text, op: OperationModel) -> WorkResult<()> {
    match begin_governed(s, session, op) {
        Err(error) => Err(error),
        Ok(_) => if is_native(op.kind) {
            match op.attempt_id {
                None => refused(FailureCode::InvalidInput),
                Some(id) => match loaded::<Attempt>(s, session, id) {
                    Err(error) => Err(error),
                    Ok(attempt) => if !is_active(attempt) {
                        refused(FailureCode::NotReady)
                    } else if op.kind == OperationKind::InterruptAttempt {
                        interruptible(s, session, op)
                    } else {
                        Ok(())
                    },
                },
            }
        } else {
            Ok(())
        },
    }
}

/// Whether the coordinator of an operation, where it has one, still has authority.
pub open spec fn begin_governed(s: StoreModel, session: Text, op: OperationModel) -> WorkResult<()> {
    match op.delegation_fence {
        None => Ok(()),
        Some(fence) => governs_id(s, session, fence, op.task_id),
    }
}

/// Whether the task of a start may be launched.
pub open spec fn begin_launchable(s: StoreModel, session: Text, op: OperationModel) -> WorkResult<
    (),
> {
    if op.kind == OperationKind::StartAttempt {
        match loaded::<Task>(s, session, op.task_id) {
            Err(error) => Err(error),
            Ok(task) => launchable(s, task.session_id, task, Seq::empty()),
        }
    } else {
        Ok(())
    }
}

/// The store after quota was kept for what a reconciliation will find.
pub open spec fn begin_reserved(
    s: StoreModel,
    fact_id: Text,
    session: Text,
    op: OperationModel,
) -> WorkResult<StoreModel> {
    if op.kind == OperationKind::ReconcileAttempt {
        fact_reserved(s, session, op, FactKind::Reconciliation, fact_id)
    } else {
        Ok(s)
    }
}

/// What becomes of a prepared operation that is to go out.
pub open spec fn begin_outcome(
    s: StoreModel,
    fact_id: Text,
    session: Text,
    operation_id: Text,
    target: Option<OperationTargetModel>,
    now: i64,
) -> WorkResult<(StoreModel, OperationModel)> {
    match loaded::<Operation>(s, session, operation_id) {
        Err(error) => Err(error),
        Ok(op) => match targeted_if(s, session, op, target) {
            Err(error) => Err(error),
            Ok(_) => if op.state != OperationState::Prepared {
                refused(FailureCode::RevisionConflict)
            } else {
                match begin_launchable(s, session, op) {
                    Err(error) => Err(error),
                    Ok(_) => match begin_reserved(s, fact_id, session, op) {
                        Err(error) => Err(error),
                        Ok(kept) => match may_begin(kept, session, op) {
                            Err(error) => Err(error),
                            Ok(_) => {
                                let begun = OperationModel {
                                    state: OperationState::Submitting,
                                    updated_at_ms: now,
                                    ..op
                                };
                                match operation_saved(kept, session, begun, now) {
                                    Err(error) => Err(error),
                                    Ok(next) => Ok((next, begun)),
                                }
                            },
                        },
                    },
                }
            },
        },
    }
}

/// Whether a report about placement may still be kept for a start that was refused before it
/// went out.
pub open spec fn fenced_placement(
    s: StoreModel,
    session: Text,
    op: OperationModel,
    resources: NativeBindingModel,
) -> WorkResult<bool> {
    if op.kind == OperationKind::StartAttempt && op.state == OperationState::Refused
        && resources.instance_id is None && resources.target is None {
        match started_attempt(s, session, op) {
            Err(error) => Err(error),
            Ok(attempt) => Ok(
                attempt.lifecycle.launch_phase == LaunchPhase::NotDispatched
                    && attempt.lifecycle.reservation == Reservation::Released,
            ),
        }
    } else {
        Ok(false)
    }
}

/// An attempt with what its operation knows merged in. An instance that shows up before any
/// dispatch was claimed leaves the launch unknown.
pub open spec fn attempt_informed(attempt: AttemptModel, op: OperationModel) -> WorkResult<
    AttemptModel,
> {
    let seen = if op.kind == OperationKind::StartAttempt && op.resources.instance_id is Some
        && attempt.lifecycle.launch_phase == LaunchPhase::NotDispatched {
        in_phase(attempt, LaunchPhase::LegacyUnknown)
    } else {
        attempt
    };
    match merged(seen.binding, op.resources) {
        Err(error) => Err(error),
        Ok(binding) => Ok(AttemptModel { binding, ..seen }),
    }
}

/// What becomes of a report about native resources.
pub open spec fn checkpoint_outcome(
    s: StoreModel,
    session: Text,
    operation_id: Text,
    resources: NativeBindingModel,
    now: i64,
) -> WorkResult<(StoreModel, OperationModel)> {
    match loaded::<Operation>(s, session, operation_id) {
        Err(error) => Err(error),
        Ok(op) => if op.kind == OperationKind::InterruptAttempt {
            refused(FailureCode::InvalidInput)
        } else {
            match fenced_placement(s, session, op, resources) {
                Err(error) => Err(error),
                Ok(placed) => if op.state != OperationState::Submitting && !placed {
                    refused(FailureCode::RevisionConflict)
                } else {
                    match merged(op.resources, resources) {
                        Err(error) => Err(error),
                        Ok(known) => informed_saved(
                            s,
                            session,
                            OperationModel { resources: known, updated_at_ms: now, ..op },
                            now,
                        ),
                    }
                },
            }
        },
    }
}

/// The store and the operation after its attempt was told what it knows.
pub open spec fn informed_saved(s: StoreModel, session: Text, op: OperationModel, now: i64) -> WorkResult<
    (StoreModel, OperationModel),
> {
    match op.attempt_id {
        None => match operation_saved(s, session, op, now) {
            Err(error) => Err(error),
            Ok(next) => Ok((next, op)),
        },
        Some(id) => match loaded::<Attempt>(s, session, id) {
            Err(error) => Err(error),
            Ok(attempt) => match attempt_informed(attempt, op) {
                Err(error) => Err(error),
                Ok(told) => both_saved(s, session, id, told, op, now),
            },
        },
    }
}

/// The states in which an operation may end.
pub open spec fn is_end(state: OperationState) -> bool {
    state == OperationState::Acknowledged || state == OperationState::Refused || state
        == OperationState::Unconfirmed
}

/// An attempt at the end of its operation. A start that was refused with nothing made, before
/// any dispatch was claimed, gives the reservation back.
pub open spec fn attempt_ended(attempt: AttemptModel, op: OperationModel, now: i64) -> WorkResult<
    AttemptModel,
> {
    match attempt_informed(attempt, op) {
        Err(error) => Err(error),
        Ok(told) => if op.kind == OperationKind::StartAttempt && op.state == OperationState::Refused
            && op.resources == unbound() && told.lifecycle.launch_phase
            == LaunchPhase::NotDispatched {
            Ok(released_undispatched(told, op.id, now))
        } else {
            Ok(told)
        },
    }
}

/// What becomes of an operation that is said to have ended.
pub open spec fn finalize_outcome(
    s: StoreModel,
    session: Text,
    operation_id: Text,
    outcome: OperationOutcomeModel,
    now: i64,
) -> WorkResult<(StoreModel, OperationModel)> {
    match loaded::<Operation>(s, session, operation_id) {
        Err(error) => Err(error),
        Ok(op) => if op.kind == OperationKind::InterruptAttempt {
            refused(FailureCode::InvalidInput)
        } else if op.state != OperationState::Submitting || !is_end(outcome.state) {
            refused(FailureCode::RevisionConflict)
        } else {
            match merged(op.resources, outcome.resources) {
                Err(error) => Err(error),
                Ok(known) => {
                    let ended = OperationModel {
                        resources: known,
                        state: outcome.state,
                        failure_code: outcome.failure_code,
                        updated_at_ms: now,
                        ..op
                    };
                    match op.attempt_id {
                        None => match operation_saved(s, session, ended, now) {
                            Err(error) => Err(error),
                            Ok(next) => Ok((next, ended)),
                        },
                        Some(id) => match loaded::<Attempt>(s, session, id) {
                            Err(error) => Err(error),
                            Ok(attempt) => match attempt_ended(attempt, ended, now) {
                                Err(error) => Err(error),
                                Ok(last) => both_saved(s, session, id, last, ended, now),
                            },
                        },
                    }
                },
            }
        },
    }
}

/// The store after the end of a refused interrupt was recorded.
pub open spec fn refusal_noted(s: StoreModel, session: Text, op: OperationModel) -> WorkResult<
    StoreModel,
> {
    if op.kind == OperationKind::InterruptAttempt {
        fact_recorded(
            s,
            session,
            op,
            FactKind::Interruption,
            BodyModel::InterruptionFact(
                InterruptionFactModel {
                    operation_id: op.id,
                    state: op.state,
                    failure_code: op.failure_code,
                    receipt: None,
                },
            ),
        )
    } else {
        Ok(s)
    }
}

/// The store after the reservation behind a refused start was given back, where nothing was
/// made and no dispatch was claimed.
pub open spec fn refusal_released(s: StoreModel, session: Text, op: OperationModel, now: i64) -> WorkResult<
    StoreModel,
> {
    if op.kind == OperationKind::StartAttempt && op.resources == unbound() {
        match started_attempt(s, session, op) {
            Err(error) => Err(error),
            Ok(attempt) => if attempt.lifecycle.launch_phase == LaunchPhase::NotDispatched {
                put(
                    s,
                    session,
                    attempt.id,
                    op.task_id,
                    BodyModel::Attempt(released_undispatched(attempt, op.id, now)),
                )
            } else {
                Ok(s)
            },
        }
    } else {
        Ok(s)
    }
}

/// What becomes of a recorded intent that is to be cancelled.
pub open spec fn refuse_outcome(
    s: StoreModel,
    session: Text,
    operation_id: Text,
    code: FailureCode,
    now: i64,
) -> WorkResult<(StoreModel, OperationModel)> {
    match loaded::<Operation>(s, session, operation_id) {
        Err(error) => Err(error),
        Ok(op) => if op.state != OperationState::Prepared {
            refused(FailureCode::RevisionConflict)
        } else {
            let ended = OperationModel {
                state: OperationState::Refused,
                failure_code: Some(code),
                updated_at_ms: now,
                ..op
            };
            match refusal_noted(s, session, ended) {
                Err(error) => Err(error),
                Ok(noted) => match refusal_released(noted, session, ended, now) {
                    Err(error) => Err(error),
                    Ok(given) => match operation_saved(given, session, ended, now) {
                        Err(error) => Err(error),
                        Ok(next) => Ok((next, ended)),
                    },
                },
            }
        },
    }
}

/// Tells an attempt what its operation knows.
fn inform_attempt(attempt: Attempt, op: &Operation) -> (res: WorkResult<Attempt>)
    ensures
        shown(res) == attempt_informed(attempt.deep_view(), op.deep_view()),
{
    let mut attempt = attempt;
    if op.kind == OperationKind::StartAttempt && op.resources.instance_id.is_some()
        && attempt.lifecycle.launch_phase == LaunchPhase::NotDispatched {
        attempt.lifecycle.launch_phase = LaunchPhase::LegacyUnknown;
    }
    attempt.binding = merge_binding(&attempt.binding, op.resources.replica())?;
    Ok(attempt)
}

impl WorkStore {
    fn check_begin(&self, session: &str, op: &Operation) -> (res: WorkResult<()>)
        ensures
            res == may_begin(self@, session@, op.deep_view()),
    {
        match &op.delegation_fence {
            Some(fence) => {
                self.authorize_child_id(session, fence, op.task_id.as_str())?;
            },
            None => {},
        }
        if native_kind(op.kind) {
            match &op.attempt_id {
                None => {
                    return refuse(FailureCode::InvalidInput);
                },
                Some(id) => {
                    let attempt = self.load::<Attempt>(session, id.as_str())?;
                    if !reservation_active(&attempt) {
                        return refuse(FailureCode::NotReady);
                    }
                },
            }
            if op.kind == OperationKind::InterruptAttempt {
                self.check_binding(session, op)?;
            }
        }
        Ok(())
    }

    /// Lets a prepared operation go out, keeping quota for a reconciliation under `fact_id`.
    pub fn begin_operation_as(
        &mut self,
        fact_id: &str,
        session: &str,
        operation_id: &str,
        target: Option<OperationTarget>,
        now: i64,
    ) -> (res: WorkResult<Operation>)
        ensures
            commits(
                old(self)@,
                final(self)@,
                begin_outcome(
                    old(self)@,
                    fact_id@,
                    session@,
                    operation_id@,
                    target.deep_view(),
                    now,
                ),
                shown(res),
            ),
    {
        let mut op = self.load::<Operation>(session, operation_id)?;
        self.validate_operation_target(session, &op, &target)?;
        if op.state != OperationState::Prepared {
            return refuse(FailureCode::RevisionConflict);
        }
        if op.kind == OperationKind::StartAttempt {
            let task = self.load::<Task>(session, op.task_id.as_str())?;
            self.launch_allowed(&task)?;
        }
        let mut next = self.replica();
        if op.kind == OperationKind::ReconcileAttempt {
            next.reserve_fact(session, &op, FactKind::Reconciliation, fact_id)?;
        }
        next.check_begin(session, &op)?;
        op.state = OperationState::Submitting;
        op.updated_at_ms = now;
        next.save_operation(session, &op, now)?;
        *self = next;
        Ok(op)
    }

    /// Lets a prepared operation go out.
    pub fn begin_operation(&mut self, session: &str, operation_id: &str, now: i64) -> (res:
        WorkResult<Operation>)
        ensures
            exists|fact_id: Text|
                is_uuid(fact_id) && commits(
                    old(self)@,
                    final(self)@,
                    #[trigger] begin_outcome(
                        old(self)@,
                        fact_id,
                        session@,
                        operation_id@,
                        None,
                        now,
                    ),
                    shown(res),
                ),
    {
        let fact_id = new_id();
        self.begin_operation_as(fact_id.as_str(), session, operation_id, None, now)
    }

    /// Lets a child's operation go out on behalf of a coordinator.
    pub fn begin_delegated_operation(
        &mut self,
        session: &str,
        operation_id: &str,
        task_id: &str,
        attempt_id: &str,
        kind: OperationKind,
        fence: &DelegationFence,
        now: i64,
    ) -> (res: WorkResult<Operation>)
        ensures
            exists|fact_id: Text|
                is_uuid(fact_id) && commits(
                    old(self)@,
                    final(self)@,
                    #[trigger] begin_outcome(
                        old(self)@,
                        fact_id,
                        session@,
                        operation_id@,
                        Some(
                            (OperationTargetModel {
                                task_id: task_id@,
                                attempt_id: attempt_id@,
                                kind,
                                fence: fence.deep_view(),
                            }),
                        ),
                        now,
                    ),
                    shown(res),
                ),
    {
        let fact_id = new_id();
        let target = OperationTarget {
            task_id: task_id.to_string(),
            attempt_id: attempt_id.to_string(),
            kind,
            fence: fence.replica(),
        };
        self.begin_operation_as(fact_id.as_str(), session, operation_id, Some(target), now)
    }

    fn placement_fenced(&self, session: &str, op: &Operation, resources: &NativeBinding) -> (res:
        WorkResult<bool>)
        ensures
            res == fenced_placement(self@, session@, op.deep_view(), resources.deep_view()),
    {
        if op.kind == OperationKind::StartAttempt && op.state == OperationState::Refused
            && resources.instance_id.is_none() && resources.target.is_none() {
            let attempt = self.start_attempt(session, op)?;
            Ok(
                attempt.lifecycle.launch_phase == LaunchPhase::NotDispatched
                    && attempt.lifecycle.reservation == Reservation::Released,
            )
        } else {
            Ok(false)
        }
    }

    /// Keeps each confirmed native resource at once, before the next outside step.
    pub fn checkpoint_operation(
        &mut self,
        session: &str,
        operation_id: &str,
        resources: NativeBinding,
        now: i64,
    ) -> (res: WorkResult<Operation>)
        ensures
            commits(
                old(self)@,
                final(self)@,
                checkpoint_outcome(
                    old(self)@,
                    session@,
                    operation_id@,
                    resources.deep_view(),
                    now,
                ),
                shown(res),
            ),
    {
        let mut op = self.load::<Operation>(session, operation_id)?;
        if op.kind == OperationKind::InterruptAttempt {
            return refuse(FailureCode::InvalidInput);
        }
        let placed = self.placement_fenced(session, &op, &resources)?;
        if op.state != OperationState::Submitting && !placed {
            return refuse(FailureCode::RevisionConflict);
        }
        op.resources = merge_binding(&op.resources, resources)?;
        op.updated_at_ms = now;
        let mut next = self.replica();
        match &op.attempt_id {
            Some(id) => {
                let attempt = next.load::<Attempt>(session, id.as_str())?;
                let told = inform_attempt(attempt, &op)?;
                next.put(session, id.as_str(), op.task_id.as_str(), Body::Attempt(told))?;
            },
            None => {},
        }
        next.save_operation(session, &op, now)?;
        *self = next;
        Ok(op)
    }

    /// Records how an operation ended.
    pub fn finalize_operation(
        &mut self,
        session: &str,
        operation_id: &str,
        outcome: OperationOutcome,
        now: i64,
    ) -> (res: WorkResult<Operation>)
        ensures
            commits(
                old(self)@,
                final(self)@,
                finalize_outcome(
                    old(self)@,
                    session@,
                    operation_id@,
                    outcome.deep_view(),
                    now,
                ),
                shown(res),
            ),
    {
        let mut op = self.load::<Operation>(session, operation_id)?;
        if op.kind == OperationKind::InterruptAttempt {
            return refuse(FailureCode::InvalidInput);
        }
        if op.state != OperationState::Submitting || !(outcome.state
            == OperationState::Acknowledged || outcome.state == OperationState::Refused
            || outcome.state == OperationState::Unconfirmed) {
            return refuse(FailureCode::RevisionConflict);
        }
        op.resources = merge_binding(&op.resources, outcome.resources)?;
        op.state = outcome.state;
        op.failure_code = outcome.failure_code;
        op.updated_at_ms = now;
        let mut next = self.replica();
        match &op.attempt_id {
            Some(id) => {
                let attempt = next.load::<Attempt>(session, id.as_str())?;
                let mut told = inform_attempt(attempt, &op)?;
                if op.kind == OperationKind::StartAttempt && op.state == OperationState::Refused
                    && empty_binding(&op.resources) && told.lifecycle.launch_phase
                    == LaunchPhase::NotDispatched {
                    told = release_undispatched(told, op.id.as_str(), now);
                }
                next.put(session, id.as_str(), op.task_id.as_str(), Body::Attempt(told))?;
            },
            None => {},
        }
        next.save_operation(session, &op, now)?;
        *self = next;
        Ok(op)
    }

    /// Cancels a recorded intent, only while it has not gone out.
    pub fn refuse_prepared_operation(
        &mut self,
        session: &str,
        operation_id: &str,
        code: FailureCode,
        now: i64,
    ) -> (res: WorkResult<Operation>)
        ensures
            commits(
                old(self)@,
                final(self)@,
                refuse_outcome(old(self)@, session@, operation_id@, code, now),
                shown(res),
            ),
    {
        let mut op = self.load::<Operation>(session, operation_id)?;
        if op.state != OperationState::Prepared {
            return refuse(FailureCode::RevisionConflict);
        }
        op.state = OperationState::Refused;
        op.failure_code = Some(code);
        op.updated_at_ms = now;
        let mut next = self.replica();
        if op.kind == OperationKind::InterruptAttempt {
            let fact = InterruptionFact {
                operation_id: op.id.clone(),
                state: op.state,
                failure_code: op.failure_code,
                receipt: None,
            };
            next.fulfill_fact(
                session,
                &op,
                FactKind::Interruption,
                Body::InterruptionFact(fact),
            )?;
        }
        if op.kind == OperationKind::StartAttempt && empty_binding(&op.resources) {
            let attempt = next.start_attempt(session, &op)?;
            if attempt.lifecycle.launch_phase == LaunchPhase::NotDispatched {
                let attempt_id = attempt.id.clone();
                let given = release_undispatched(attempt, op.id.as_str(), now);
                next.put(session, attempt_id.as_str(), op.task_id.as_str(), Body::Attempt(given))?;
            }
        }
        next.save_operation(session, &op, now)?;
        *self = next;
        Ok(op)
    }
}

} // verus!
