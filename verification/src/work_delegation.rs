//! Requests of a coordinator, and the activation of one by a paired human.
use vstd::prelude::*;
use crate::value::Replica;
use crate::value::Same;
use crate::value::Text;
use crate::value::shown;
use crate::work::model::Attempt;
use crate::work::model::AttemptModel;
use crate::work::model::AttemptRole;
use crate::work::model::DelegationConfig;
use crate::work::model::DelegationConfigModel;
use crate::work::model::DelegationFence;
use crate::work::model::DelegationFenceModel;
use crate::work::model::FailureCode;
use crate::work::model::InputRef;
use crate::work::model::InputRefModel;
use crate::work::model::LaunchPhase;
use crate::work::model::Mutation;
use crate::work::model::MutationModel;
use crate::work::model::Reservation;
use crate::work::model::Task;
use crate::work::model::TaskDependency;
use crate::work::model::TaskDependencyModel;
use crate::work::model::TaskDetail;
use crate::work::model::TaskDetailModel;
use crate::work::model::TaskModel;
use crate::work::model::TaskPolicy;
use crate::work::model::TaskPolicyModel;
use crate::work::model::WorkError;
use crate::work::model::WorkResult;
use crate::work::store::delegation::configure_outcome;
use crate::work::store::growth::listed_is_recorded;
use crate::work::store::growth::recorded_is_listed;
use crate::work::store::history::filed_as_said;
use crate::work::store::history::well_formed;
use crate::work::store::readings::reads_give_what_is_recorded;
use crate::work::store::records::loaded;
use crate::work::store::records::position;
use crate::work::store::records::position_in_range;
use crate::work::store::records::refuse;
use crate::work::store::records::refused;
use crate::work::store::tables::StoreModel;
use crate::work::store::tables::WorkStore;
use crate::work::store::tasks::detail_of;
use crate::work::store::transaction::commits;
use crate::work_authority::ActivationPermit;
use crate::work_authority::ActivationPermitModel;
use crate::work_authority::GrantModel;
use crate::work_authority::Registry;
use crate::work_authority::Scope;
use crate::work_authority::ScopeModel;
use crate::work_authority::activated;
use crate::work_authority::cleared;
use crate::work_authority::cleared_task_has_no_coordinator;
use crate::work_authority::delegated;
use crate::work_authority::keeping::permits_name_their_grants;
use crate::work_authority::permit_for;
use crate::work_execution::delivery::attempt_in;
use crate::work_execution::delivery::attempts_are_found;
use crate::work_execution::delivery::find_attempt;
use crate::work_execution::reconcile::Lifecycle;

verus! {

/// What a coordinator asks for when it creates a child of its task.
#[derive(Debug, PartialEq, Eq)]
pub struct CreateChildRequest {
    pub request_key: String,
    pub expected_parent_revision: u64,
    pub title: String,
    pub brief: String,
    pub policy: TaskPolicy,
    pub dependencies: Vec<TaskDependency>,
    pub input_refs: Vec<InputRef>,
}

/// The value of a `CreateChildRequest`.
#[verifier::ext_equal]
pub struct CreateChildRequestModel {
    pub request_key: Text,
    pub expected_parent_revision: u64,
    pub title: Text,
    pub brief: Text,
    pub policy: TaskPolicyModel,
    pub dependencies: Seq<TaskDependencyModel>,
    pub input_refs: Seq<InputRefModel>,
}

impl DeepView for CreateChildRequest {
    type V = CreateChildRequestModel;

    open spec fn deep_view(&self) -> CreateChildRequestModel {
        CreateChildRequestModel {
            request_key: self.request_key.deep_view(),
            expected_parent_revision: self.expected_parent_revision,
            title: self.title.deep_view(),
            brief: self.brief.deep_view(),
            policy: self.policy.deep_view(),
            dependencies: self.dependencies.deep_view(),
            input_refs: self.input_refs.deep_view(),
        }
    }
}

impl Replica for CreateChildRequest {
    fn replica(&self) -> (res: Self) {
        CreateChildRequest {
            request_key: self.request_key.replica(),
            expected_parent_revision: self.expected_parent_revision,
            title: self.title.replica(),
            brief: self.brief.replica(),
            policy: self.policy.replica(),
            dependencies: self.dependencies.replica(),
            input_refs: self.input_refs.replica(),
        }
    }
}

impl Clone for CreateChildRequest {
    fn clone(&self) -> (res: Self)
        ensures
            res.deep_view() == self.deep_view(),
    {
        self.replica()
    }
}

/// What a human asks for when they configure delegation.
#[derive(Debug, PartialEq, Eq)]
pub struct ConfigureRequest {
    pub request_key: String,
    pub expected_revision: u64,
    pub input: DelegationConfig,
}

/// The value of a `ConfigureRequest`.
#[verifier::ext_equal]
pub struct ConfigureRequestModel {
    pub request_key: Text,
    pub expected_revision: u64,
    pub input: DelegationConfigModel,
}

impl DeepView for ConfigureRequest {
    type V = ConfigureRequestModel;

    open spec fn deep_view(&self) -> ConfigureRequestModel {
        ConfigureRequestModel {
            request_key: self.request_key.deep_view(),
            expected_revision: self.expected_revision,
            input: self.input.deep_view(),
        }
    }
}

/// What a coordinator asks to see of a child: the child itself, a page of its records or one
/// record.
#[derive(Debug, PartialEq, Eq)]
pub struct ChildReadRequest {
    pub task_id: String,
    pub kind: Option<String>,
    pub snapshot_revision: Option<u64>,
    pub after_id: Option<String>,
    pub record_id: Option<String>,
}

/// The value of a `ChildReadRequest`.
#[verifier::ext_equal]
pub struct ChildReadRequestModel {
    pub task_id: Text,
    pub kind: Option<Text>,
    pub snapshot_revision: Option<u64>,
    pub after_id: Option<Text>,
    pub record_id: Option<Text>,
}

impl DeepView for ChildReadRequest {
    type V = ChildReadRequestModel;

    open spec fn deep_view(&self) -> ChildReadRequestModel {
        ChildReadRequestModel {
            task_id: self.task_id.deep_view(),
            kind: self.kind.deep_view(),
            snapshot_revision: self.snapshot_revision.deep_view(),
            after_id: self.after_id.deep_view(),
            record_id: self.record_id.deep_view(),
        }
    }
}

/// The prerequisites that a task is to have.
#[derive(Debug, PartialEq, Eq)]
pub struct DependencyUpdateRequest {
    pub request_key: String,
    pub expected_revision: u64,
    pub dependencies: Vec<TaskDependency>,
}

/// The value of a `DependencyUpdateRequest`.
#[verifier::ext_equal]
pub struct DependencyUpdateRequestModel {
    pub request_key: Text,
    pub expected_revision: u64,
    pub dependencies: Seq<TaskDependencyModel>,
}

impl DeepView for DependencyUpdateRequest {
    type V = DependencyUpdateRequestModel;

    open spec fn deep_view(&self) -> DependencyUpdateRequestModel {
        DependencyUpdateRequestModel {
            request_key: self.request_key.deep_view(),
            expected_revision: self.expected_revision,
            dependencies: self.dependencies.deep_view(),
        }
    }
}

impl Replica for DependencyUpdateRequest {
    fn replica(&self) -> (res: Self) {
        DependencyUpdateRequest {
            request_key: self.request_key.replica(),
            expected_revision: self.expected_revision,
            dependencies: self.dependencies.replica(),
        }
    }
}

impl Clone for DependencyUpdateRequest {
    fn clone(&self) -> (res: Self)
        ensures
            res.deep_view() == self.deep_view(),
    {
        self.replica()
    }
}

/// The coordinator whose process is to be seen alive before delegation is turned on.
#[derive(Debug, PartialEq, Eq)]
pub struct LeadSeen {
    pub attempt_id: String,
    pub instance_id: String,
    pub owner_epoch: String,
}

/// The value of a `LeadSeen`.
#[verifier::ext_equal]
pub struct LeadSeenModel {
    pub attempt_id: Text,
    pub instance_id: Text,
    pub owner_epoch: Text,
}

impl DeepView for LeadSeen {
    type V = LeadSeenModel;

    open spec fn deep_view(&self) -> LeadSeenModel {
        LeadSeenModel {
            attempt_id: self.attempt_id.deep_view(),
            instance_id: self.instance_id.deep_view(),
            owner_epoch: self.owner_epoch.deep_view(),
        }
    }
}

/// Where the coordinator that a request names stands.
pub open spec fn named_attempt(attempts: Seq<AttemptModel>, id: Option<Text>) -> Option<int> {
    match id {
        None => None,
        Some(id) => attempt_in(attempts, id),
    }
}

/// The coordinator that has to be seen alive: a lead that was launched, is still reserved and is
/// known by its process and its owner's epoch. Turning delegation off needs none.
pub open spec fn lead_to_see(detail: TaskDetailModel, input: DelegationConfigModel) -> WorkResult<
    Option<LeadSeenModel>,
> {
    if !input.policy.enabled {
        Ok(None)
    } else {
        match named_attempt(detail.attempts, input.coordinator_attempt_id) {
            None => refused(FailureCode::ScopeMismatch),
            Some(i) => {
                let attempt = detail.attempts[i];
                if attempt.role != AttemptRole::Lead || attempt.lifecycle.launch_phase
                    != LaunchPhase::LaunchConfirmed || attempt.lifecycle.reservation
                    != Reservation::Reserved {
                    refused(FailureCode::NotReady)
                } else {
                    match (attempt.binding.instance_id, attempt.lifecycle.native_owner_epoch) {
                        (Some(instance_id), Some(owner_epoch)) => Ok(
                            Some(
                                LeadSeenModel { attempt_id: attempt.id, instance_id, owner_epoch },
                            ),
                        ),
                        _ => refused(FailureCode::NotReady),
                    }
                }
            },
        }
    }
}

/// The coordinator that has to be seen alive.
pub fn coordinator_to_see(detail: &TaskDetail, input: &DelegationConfig) -> (res: WorkResult<
    Option<LeadSeen>,
>)
    ensures
        shown(res) == lead_to_see(detail.deep_view(), input.deep_view()),
{
    if !input.policy.enabled {
        return Ok(None);
    }
    let found = match &input.coordinator_attempt_id {
        Some(id) => find_attempt(&detail.attempts, id.as_str()),
        None => None,
    };
    let at = match found {
        Some(at) => at,
        None => {
            return refuse(FailureCode::ScopeMismatch);
        },
    };
    let attempt = &detail.attempts[at];
    assert(detail.deep_view().attempts[at as int] == attempt.deep_view());
    if attempt.role != AttemptRole::Lead || attempt.lifecycle.launch_phase
        != LaunchPhase::LaunchConfirmed || attempt.lifecycle.reservation != Reservation::Reserved {
        return refuse(FailureCode::NotReady);
    }
    match (&attempt.binding.instance_id, &attempt.lifecycle.native_owner_epoch) {
        (Some(instance_id), Some(owner_epoch)) => Ok(
            Some(
                LeadSeen {
                    attempt_id: attempt.id.replica(),
                    instance_id: instance_id.replica(),
                    owner_epoch: owner_epoch.replica(),
                },
            ),
        ),
        _ => refuse(FailureCode::NotReady),
    }
}

/// Whether a coordinator was seen alive.
pub fn require_live(seen: &Lifecycle) -> (res: WorkResult<()>)
    ensures
        res == (if seen.deep_view() is Live {
            Ok(())
        } else {
            refused(FailureCode::NotReady)
        }),
{
    match seen {
        Lifecycle::Live => Ok(()),
        _ => refuse(FailureCode::NotReady),
    }
}

/// The permit for a coordinator that was seen alive: its process and owner are still the recorded
/// ones, and it still has its grant.
pub open spec fn lead_permit(
    grants: Seq<GrantModel>,
    s: StoreModel,
    session: Text,
    task_id: Text,
    lead: LeadSeenModel,
    now: i64,
) -> WorkResult<ActivationPermitModel> {
    match detail_of(s, session, task_id) {
        Err(error) => Err(error),
        Ok(detail) => match attempt_in(detail.attempts, lead.attempt_id) {
            None => refused(FailureCode::ScopeMismatch),
            Some(i) => if detail.attempts[i].binding.instance_id != Some(lead.instance_id)
                || detail.attempts[i].lifecycle.native_owner_epoch != Some(lead.owner_epoch) {
                refused(FailureCode::InstanceChanged)
            } else {
                permit_for(
                    grants,
                    ScopeModel { session_id: session, task_id, attempt_id: lead.attempt_id },
                    now,
                )
            },
        },
    }
}

fn permit_lead(
    registry: &Registry,
    store: &WorkStore,
    session: &str,
    task_id: &str,
    lead: &LeadSeen,
    now: i64,
) -> (res: WorkResult<ActivationPermit>)
    ensures
        shown(res) == lead_permit(registry@, store@, session@, task_id@, lead.deep_view(), now),
{
    let detail = store.detail(session, task_id)?;
    let at = match find_attempt(&detail.attempts, lead.attempt_id.as_str()) {
        Some(at) => at,
        None => {
            return refuse(FailureCode::ScopeMismatch);
        },
    };
    let attempt = &detail.attempts[at];
    assert(detail.deep_view().attempts[at as int] == attempt.deep_view());
    let same_process = match &attempt.binding.instance_id {
        Some(id) => id.same(&lead.instance_id),
        None => false,
    };
    let same_owner = match &attempt.lifecycle.native_owner_epoch {
        Some(epoch) => epoch.same(&lead.owner_epoch),
        None => false,
    };
    if !same_process || !same_owner {
        return refuse(FailureCode::InstanceChanged);
    }
    let scope = Scope {
        session_id: session.to_string(),
        task_id: task_id.to_string(),
        attempt_id: lead.attempt_id.replica(),
    };
    registry.prepare_activation(&scope, now)
}

/// The fence of a coordinator.
pub open spec fn fence_of(task_id: Text, lead: LeadSeenModel, epoch: u64) -> DelegationFenceModel {
    DelegationFenceModel {
        coordinator_task_id: task_id,
        coordinator_attempt_id: lead.attempt_id,
        coordinator_epoch: epoch,
        instance_id: lead.instance_id,
        native_owner_epoch: lead.owner_epoch,
    }
}

/// What configuring delegation comes to in the store.
#[verifier::opaque]
pub open spec fn settings_recorded(
    s: StoreModel,
    actor: Text,
    session: Text,
    task_id: Text,
    request: ConfigureRequestModel,
    now: i64,
) -> WorkResult<(StoreModel, MutationModel<TaskModel>)> {
    configure_outcome(
        s,
        actor,
        session,
        task_id,
        request.request_key,
        request.expected_revision,
        request.input,
        now,
    )
}

fn record_settings(
    store: &mut WorkStore,
    actor: &str,
    session: &str,
    task_id: &str,
    request: ConfigureRequest,
    now: i64,
) -> (res: WorkResult<Mutation<Task>>)
    ensures
        commits(
            old(store)@,
            final(store)@,
            settings_recorded(old(store)@, actor@, session@, task_id@, request.deep_view(), now),
            shown(res),
        ),
{
    reveal(settings_recorded);
    store.configure_delegation(
        actor,
        session,
        task_id,
        request.request_key.as_str(),
        request.expected_revision,
        request.input,
        now,
    )
}

/// The grants after delegation was configured. A repeated request is a read of its receipt: it
/// neither restores nor upgrades what anyone may do.
pub open spec fn grants_configured(
    grants: Seq<GrantModel>,
    session: Text,
    task_id: Text,
    permit: Option<ActivationPermitModel>,
    lead: Option<LeadSeenModel>,
    mutation: MutationModel<TaskModel>,
) -> Seq<GrantModel> {
    if mutation.replayed {
        grants
    } else {
        match (permit, lead) {
            (Some(permit), Some(lead)) => activated(
                cleared(grants, session, task_id),
                permit,
                fence_of(task_id, lead, mutation.value.delegation.coordinator_epoch),
            ),
            _ => cleared(grants, session, task_id),
        }
    }
}

/// The permit that a request needs, where it needs one.
pub open spec fn permit_needed(
    grants: Seq<GrantModel>,
    s: StoreModel,
    session: Text,
    task_id: Text,
    lead: Option<LeadSeenModel>,
    now: i64,
) -> WorkResult<Option<ActivationPermitModel>> {
    match lead {
        None => Ok(None),
        Some(lead) => match lead_permit(grants, s, session, task_id, lead, now) {
            Err(error) => Err(error),
            Ok(permit) => Ok(Some(permit)),
        },
    }
}

/// What configuring delegation comes to: in the store, and among the grants.
pub open spec fn configured(
    grants: Seq<GrantModel>,
    s: StoreModel,
    actor: Text,
    session: Text,
    task_id: Text,
    request: ConfigureRequestModel,
    lead: Option<LeadSeenModel>,
    now: i64,
) -> (Seq<GrantModel>, StoreModel, WorkResult<MutationModel<TaskModel>>) {
    match permit_needed(grants, s, session, task_id, lead, now) {
        Err(error) => (grants, s, Err(error)),
        Ok(permit) => match settings_recorded(s, actor, session, task_id, request, now) {
            Err(error) => (grants, s, Err(error)),
            Ok((next, mutation)) => (
                grants_configured(grants, session, task_id, permit, lead, mutation),
                next,
                Ok(mutation),
            ),
        },
    }
}

/// Configures delegation while both the registry and the store are held. The coordinator, where one
/// is needed, was seen alive before.
pub fn configure(
    registry: &mut Registry,
    store: &mut WorkStore,
    actor: &str,
    session: &str,
    task_id: &str,
    request: ConfigureRequest,
    lead: Option<LeadSeen>,
    now: i64,
) -> (res: WorkResult<Mutation<Task>>)
    ensures
        (final(registry)@, final(store)@, shown(res)) == configured(
            old(registry)@,
            old(store)@,
            actor@,
            session@,
            task_id@,
            request.deep_view(),
            lead.deep_view(),
            now,
        ),
{
    let permit = match &lead {
        Some(lead) => Some(permit_lead(registry, store, session, task_id, lead, now)?),
        None => None,
    };
    let mutation = record_settings(store, actor, session, task_id, request, now)?;
    if !mutation.replayed {
        registry.clear_delegation(session, task_id);
        if let (Some(permit), Some(lead)) = (permit, lead) {
            let fence = DelegationFence {
                coordinator_task_id: task_id.to_string(),
                coordinator_attempt_id: lead.attempt_id,
                coordinator_epoch: mutation.value.delegation.coordinator_epoch,
                instance_id: lead.instance_id,
                native_owner_epoch: lead.owner_epoch,
            };
            registry.apply_activation(permit, fence);
        }
    }
    Ok(mutation)
}

/// A repeated request changes no grant.
pub proof fn repeated_settings_change_no_grant(
    grants: Seq<GrantModel>,
    s: StoreModel,
    actor: Text,
    session: Text,
    task_id: Text,
    request: ConfigureRequestModel,
    lead: Option<LeadSeenModel>,
    now: i64,
)
    requires
        configured(grants, s, actor, session, task_id, request, lead, now).2 matches Ok(mutation)
            && mutation.replayed,
    ensures
        configured(grants, s, actor, session, task_id, request, lead, now).0 == grants,
{
}

/// Turning delegation off leaves nobody coordinating the task.
pub proof fn delegation_off_leaves_no_coordinator(
    grants: Seq<GrantModel>,
    s: StoreModel,
    actor: Text,
    session: Text,
    task_id: Text,
    request: ConfigureRequestModel,
    now: i64,
    token: Text,
    later: i64,
)
    requires
        configured(grants, s, actor, session, task_id, request, None, now).2 matches Ok(mutation)
            && !mutation.replayed,
    ensures
        delegated(
            configured(grants, s, actor, session, task_id, request, None, now).0,
            token,
            later,
        ) matches Ok(authority) ==> !(authority.scope.session_id == session
            && authority.scope.task_id == task_id),
{
    cleared_task_has_no_coordinator(grants, session, task_id, token, later);
}

/// Whether an attempt can coordinate: it is a lead that was launched, holds its place, and is
/// known by its process and the epoch of its owner.
pub open spec fn can_coordinate(attempt: AttemptModel) -> bool {
    &&& attempt.role == AttemptRole::Lead
    &&& attempt.lifecycle.launch_phase == LaunchPhase::LaunchConfirmed
    &&& attempt.lifecycle.reservation == Reservation::Reserved
    &&& attempt.binding.instance_id is Some
    &&& attempt.lifecycle.native_owner_epoch is Some
}

/// Turning delegation off needs nobody to be seen. Turning it on needs the attempt that is named,
/// of the task itself, and that it can coordinate: it is looked for as it is recorded.
pub proof fn leads_are_seen_as_recorded(detail: TaskDetailModel, input: DelegationConfigModel)
    requires
        forall|i: int, j: int|
            0 <= i < j < detail.attempts.len() ==> (#[trigger] detail.attempts[i]).id != (
            #[trigger] detail.attempts[j]).id,
    ensures
        !input.policy.enabled ==> lead_to_see(detail, input) == Ok::<
            Option<LeadSeenModel>,
            WorkError,
        >(None),
        input.policy.enabled ==> match lead_to_see(detail, input) {
            Ok(seen) => seen matches Some(lead) && input.coordinator_attempt_id == Some(
                lead.attempt_id,
            ) && exists|i: int|
                0 <= i < detail.attempts.len() && (#[trigger] detail.attempts[i]).id
                    == lead.attempt_id && can_coordinate(detail.attempts[i])
                    && detail.attempts[i].binding.instance_id == Some(lead.instance_id)
                    && detail.attempts[i].lifecycle.native_owner_epoch == Some(lead.owner_epoch),
            Err(error) => forall|i: int|
                0 <= i < detail.attempts.len() && Some((#[trigger] detail.attempts[i]).id)
                    == input.coordinator_attempt_id ==> !can_coordinate(detail.attempts[i])
                    && error.0 == FailureCode::NotReady,
        },
        input.policy.enabled && (forall|i: int|
            0 <= i < detail.attempts.len() ==> Some((#[trigger] detail.attempts[i]).id)
                != input.coordinator_attempt_id) ==> (lead_to_see(detail, input) matches Err(error)
            && error.0 == FailureCode::ScopeMismatch),
{
    if let Some(id) = input.coordinator_attempt_id {
        attempts_are_found(detail.attempts, id);
        if let Some(k) = attempt_in(detail.attempts, id) {
            assert forall|i: int|
                0 <= i < detail.attempts.len() && Some((#[trigger] detail.attempts[i]).id)
                    == input.coordinator_attempt_id implies i == k by {
                if i < k {
                    assert(detail.attempts[i].id != detail.attempts[k].id);
                } else if k < i {
                    assert(detail.attempts[k].id != detail.attempts[i].id);
                }
            }
        }
    }
}

/// A coordinator that was seen is permitted exactly where it is still an attempt of the task, runs
/// in the process and under the owner that were seen, and a grant for it lasts. The permit is for
/// that attempt.
pub proof fn leads_are_permitted_as_seen(
    grants: Seq<GrantModel>,
    s: StoreModel,
    session: Text,
    task_id: Text,
    lead: LeadSeenModel,
    now: i64,
)
    requires
        well_formed(s),
    ensures
        ({
            let res = lead_permit(grants, s, session, task_id, lead, now);
            let scope = ScopeModel { session_id: session, task_id, attempt_id: lead.attempt_id };
            let own = loaded::<Task>(s, session, task_id) is Ok && (loaded::<Attempt>(
                s,
                session,
                lead.attempt_id,
            ) matches Ok(attempt) && attempt.task_id == task_id);
            let attempt = loaded::<Attempt>(s, session, lead.attempt_id)->Ok_0;
            let same = attempt.binding.instance_id == Some(lead.instance_id)
                && attempt.lifecycle.native_owner_epoch == Some(lead.owner_epoch);
            let granted_now = exists|k: int|
                0 <= k < grants.len() && (#[trigger] grants[k]).scope == scope
                    && grants[k].expires_at_ms > now;
            &&& res is Ok <==> own && same && granted_now
            &&& res matches Ok(permit) ==> permit.scope == scope
            &&& res matches Err(error) ==> own ==> error.0 == (if same {
                FailureCode::ScopeMismatch
            } else {
                FailureCode::InstanceChanged
            })
        }),
{
    let scope = ScopeModel { session_id: session, task_id, attempt_id: lead.attempt_id };
    permits_name_their_grants(grants, scope, now);
    if let Ok(detail) = detail_of(s, session, task_id) {
        attempts_are_found(detail.attempts, lead.attempt_id);
        if let Some(i) = attempt_in(detail.attempts, lead.attempt_id) {
            let found = detail.attempts[i];
            assert(detail.attempts.contains(found));
            let at = listed_is_recorded::<Attempt>(s.records, session, task_id, found);
            assert(filed_as_said(s.records[at]));
            reads_give_what_is_recorded(s, session, lead.attempt_id);
        }
        if let Ok(attempt) = loaded::<Attempt>(s, session, lead.attempt_id) {
            if attempt.task_id == task_id {
                position_in_range(s.records, lead.attempt_id);
                let at = position(s.records, lead.attempt_id)->0;
                assert(filed_as_said(s.records[at]));
                recorded_is_listed::<Attempt>(s.records, session, task_id, at, attempt);
                let k = choose|k: int|
                    0 <= k < detail.attempts.len() && detail.attempts[k] == attempt;
                assert(detail.attempts[k].id == lead.attempt_id);
            }
        }
    }
}

/// Configuring delegation changes the store as the request asks. Where it is carried out anew,
/// everybody loses the coordination of the task, and the coordinator that was seen gets it back
/// under the new epoch, with the process and the owner that were seen. Refused requests and
/// repetitions change no grant.
pub proof fn settings_take_hold_exactly(
    grants: Seq<GrantModel>,
    s: StoreModel,
    actor: Text,
    session: Text,
    task_id: Text,
    request: ConfigureRequestModel,
    lead: Option<LeadSeenModel>,
    now: i64,
)
    ensures
        ({
            let (then, later, res) = configured(
                grants,
                s,
                actor,
                session,
                task_id,
                request,
                lead,
                now,
            );
            let permit = lead_permit(grants, s, session, task_id, lead->0, now);
            let outcome = configure_outcome(
                s,
                actor,
                session,
                task_id,
                request.request_key,
                request.expected_revision,
                request.input,
                now,
            );
            &&& lead is Some && permit is Err ==> then == grants && later == s && res is Err
                && res->Err_0 == permit->Err_0
            &&& lead is None || permit is Ok ==> match outcome {
                Err(error) => then == grants && later == s && (res matches Err(other) && other
                    == error),
                Ok((store, mutation)) => later == store && res == Ok::<
                    MutationModel<TaskModel>,
                    WorkError,
                >(mutation) && (mutation.replayed ==> then == grants) && (!mutation.replayed
                    && lead is None ==> then == cleared(grants, session, task_id)) && (
                !mutation.replayed && lead is Some ==> then == activated(
                    cleared(grants, session, task_id),
                    permit->Ok_0,
                    (DelegationFenceModel {
                        coordinator_task_id: task_id,
                        coordinator_attempt_id: lead->0.attempt_id,
                        coordinator_epoch: mutation.value.delegation.coordinator_epoch,
                        instance_id: lead->0.instance_id,
                        native_owner_epoch: lead->0.owner_epoch,
                    }),
                )),
            }
        }),
{
    reveal(settings_recorded);
}

} // verus!
