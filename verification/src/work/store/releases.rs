//! Reservations survive whatever is not known to have ended.
use vstd::prelude::*;
use crate::value::Text;
use crate::work::model::Attempt;
use crate::work::model::FailureCode;
use crate::work::model::LaunchPhase;
use crate::work::model::Operation;
use crate::work::model::OperationKind;
use crate::work::model::OperationModel;
use crate::work::model::OperationOutcomeModel;
use crate::work::model::OperationState;
use crate::work::model::ReconciliationEvidenceModel;
use crate::work::model::WorkError;
use crate::work::model::unbound;
use crate::work::store::growth::finalizing_grows;
use crate::work::store::growth::finding_grows;
use crate::work::store::growth::informing_follows;
use crate::work::store::growth::merging_keeps;
use crate::work::store::growth::refuses_start;
use crate::work::store::growth::refusing_grows;
use crate::work::store::history::given_up;
use crate::work::store::history::grown;
use crate::work::store::history::is_released;
use crate::work::store::history::none_released;
use crate::work::store::history::released_alike;
use crate::work::store::history::well_formed;
use crate::work::store::lasting::attempts_last;
use crate::work::store::lasting::both_saved_stands;
use crate::work::store::lasting::operations_last;
use crate::work::store::lasting::records_stay;
use crate::work::store::lasting::saved_operation_stands;
use crate::work::store::operations::attempt_ended;
use crate::work::store::operations::finalize_outcome;
use crate::work::store::operations::is_end;
use crate::work::store::operations::refuse_outcome;
use crate::work::store::reconciliation::finding_outcome;
use crate::work::store::records::loaded;
use crate::work::store::records::position;
use crate::work::store::records::position_in_range;
use crate::work::store::records::refused;
use crate::work::store::summaries::is_active;
use crate::work::store::tables::StoreModel;

verus! {

/// A reservation stays as it is while the store goes on and none is given back: an attempt that holds
/// one goes on holding it, and one that gave it back did so for the reason that was recorded. Every
/// transaction is such growth, but for ending an operation, cancelling one, and recording what a
/// reconciliation found.
pub proof fn reservations_survive(before: StoreModel, later: StoreModel, session: Text, id: Text)
    requires
        well_formed(later),
        grown(before, later),
        none_released(before.records, later.records),
    ensures
        loaded::<Attempt>(before, session, id) matches Ok(attempt) ==> (loaded::<Attempt>(
            later,
            session,
            id,
        ) matches Ok(next) && is_active(next) == is_active(attempt) && (!is_active(attempt)
            ==> next.lifecycle.release == attempt.lifecycle.release)),
{
    attempts_last(before, later, session, id);
    records_stay(before, later, id);
    position_in_range(before.records, id);
    position_in_range(later.records, id);
    if loaded::<Attempt>(before, session, id) is Ok {
        let i = position(later.records, id)->0;
        if is_released(later.records[i].body) {
            assert(released_alike(before.records[i].body, later.records[i].body));
        }
    }
}

/// An end that nobody can be sure of gives no reservation back, nor does the end of anything but a
/// start, nor the refusal of a start that went out.
pub proof fn uncertain_ends_release_nothing(
    s: StoreModel,
    session: Text,
    operation_id: Text,
    end: OperationOutcomeModel,
    now: i64,
    id: Text,
)
    requires
        well_formed(s),
        !refuses_start(s, session, operation_id, end),
        finalize_outcome(s, session, operation_id, end, now) is Ok,
        loaded::<Attempt>(s, session, id) is Ok,
    ensures
        ({
            let later = finalize_outcome(s, session, operation_id, end, now)->Ok_0.0;
            let attempt = loaded::<Attempt>(s, session, id)->Ok_0;
            loaded::<Attempt>(later, session, id) matches Ok(next) && is_active(next) == is_active(
                attempt,
            )
        }),
{
    finalizing_grows(s, session, operation_id, end, now);
    let later = finalize_outcome(s, session, operation_id, end, now)->Ok_0.0;
    reservations_survive(s, later, session, id);
}

/// Cancelling a prompt, an interrupt or a reconciliation gives no reservation back.
pub proof fn cancelling_releases_only_starts(
    s: StoreModel,
    session: Text,
    operation_id: Text,
    code: FailureCode,
    now: i64,
    id: Text,
)
    requires
        well_formed(s),
        refuse_outcome(s, session, operation_id, code, now) is Ok,
        loaded::<Operation>(s, session, operation_id) matches Ok(op) && op.kind
            != OperationKind::StartAttempt,
        loaded::<Attempt>(s, session, id) is Ok,
    ensures
        ({
            let later = refuse_outcome(s, session, operation_id, code, now)->Ok_0.0;
            let attempt = loaded::<Attempt>(s, session, id)->Ok_0;
            loaded::<Attempt>(later, session, id) matches Ok(next) && is_active(next) == is_active(
                attempt,
            )
        }),
{
    refusing_grows(s, session, operation_id, code, now);
    let later = refuse_outcome(s, session, operation_id, code, now)->Ok_0.0;
    reservations_survive(s, later, session, id);
}

/// A reconciliation that finds an attempt alive, or finds out nothing, gives no reservation back.
pub proof fn uncertain_findings_release_nothing(
    s: StoreModel,
    session: Text,
    operation_id: Text,
    expected_revision: u64,
    evidence: ReconciliationEvidenceModel,
    now: i64,
    id: Text,
)
    requires
        well_formed(s),
        evidence is Unknown || evidence is Live,
        finding_outcome(s, session, operation_id, expected_revision, evidence, now) is Ok,
        loaded::<Attempt>(s, session, id) is Ok,
    ensures
        ({
            let outcome = finding_outcome(
                s,
                session,
                operation_id,
                expected_revision,
                evidence,
                now,
            );
            let attempt = loaded::<Attempt>(s, session, id)->Ok_0;
            loaded::<Attempt>(outcome->Ok_0.0, session, id) matches Ok(next) && is_active(next)
                == is_active(attempt)
        }),
{
    finding_grows(s, session, operation_id, expected_revision, evidence, now);
    let outcome = finding_outcome(s, session, operation_id, expected_revision, evidence, now);
    reservations_survive(s, outcome->Ok_0.0, session, id);
}

/// An operation ends only where it was going out, in a state that is an end, and is found as it was
/// answered. Its attempt gives its reservation back exactly where a start was refused with nothing
/// made, before any dispatch was claimed.
pub proof fn ends_release_exactly(
    s: StoreModel,
    session: Text,
    operation_id: Text,
    end: OperationOutcomeModel,
    now: i64,
)
    requires
        well_formed(s),
        finalize_outcome(s, session, operation_id, end, now) is Ok,
    ensures
        ({
            let (later, op) = finalize_outcome(s, session, operation_id, end, now)->Ok_0;
            &&& loaded::<Operation>(s, session, operation_id) matches Ok(before) && before.state
                == OperationState::Submitting && before.kind == op.kind && before.attempt_id
                == op.attempt_id
            &&& is_end(end.state) && op.state == end.state && op.failure_code == end.failure_code
            &&& loaded::<Operation>(later, session, operation_id) == Ok::<
                OperationModel,
                WorkError,
            >(op)
            &&& op.attempt_id matches Some(id) ==> (loaded::<Attempt>(s, session, id) matches Ok(
                attempt,
            ) && (loaded::<Attempt>(later, session, id) matches Ok(next) && {
                let given_back = op.kind == OperationKind::StartAttempt && end.state
                    == OperationState::Refused && op.resources == unbound()
                    && attempt.lifecycle.launch_phase == LaunchPhase::NotDispatched;
                &&& is_active(next) == (is_active(attempt) && !given_back)
                &&& given_back ==> given_up(next)
                &&& !given_back ==> next.lifecycle.release == attempt.lifecycle.release
            }))
        }),
{
    let (later, ended) = finalize_outcome(s, session, operation_id, end, now)->Ok_0;
    let op = loaded::<Operation>(s, session, operation_id)->Ok_0;
    position_in_range(s.records, operation_id);
    merging_keeps(op.resources, end.resources);
    match op.attempt_id {
        None => {
            saved_operation_stands(s, session, ended, now);
        },
        Some(id) => {
            position_in_range(s.records, id);
            let attempt = loaded::<Attempt>(s, session, id)->Ok_0;
            informing_follows(attempt, ended);
            let last = attempt_ended(attempt, ended, now)->Ok_0;
            both_saved_stands(s, session, id, last, ended, now);
        },
    }
}

/// An operation ends once: after it ended, every further end is refused.
pub proof fn ended_once(
    s: StoreModel,
    session: Text,
    operation_id: Text,
    end: OperationOutcomeModel,
    now: i64,
    later: StoreModel,
    other: OperationOutcomeModel,
    other_now: i64,
)
    requires
        well_formed(s),
        finalize_outcome(s, session, operation_id, end, now) is Ok,
        well_formed(later),
        grown(finalize_outcome(s, session, operation_id, end, now)->Ok_0.0, later),
    ensures
        finalize_outcome(later, session, operation_id, other, other_now) == refused::<
            (StoreModel, OperationModel),
        >(FailureCode::RevisionConflict),
{
    ends_release_exactly(s, session, operation_id, end, now);
    let next = finalize_outcome(s, session, operation_id, end, now)->Ok_0.0;
    operations_last(next, later, session, operation_id);
}

} // verus!
