//! Who may do what, and why not: each admission is given exactly where its conditions hold, and
//! each refusal has its reason.
use vstd::prelude::*;
use crate::digest::is_uuid;
use crate::text::byte_len;
use crate::text::is_absolute;
use crate::text::is_control;
use crate::text::is_digest;
use crate::text::is_file_name;
use crate::text::is_native_identity;
use crate::text::is_said;
use crate::text::is_space;
use crate::value::Text;
use crate::work::model::Attempt;
use crate::work::model::AttemptModel;
use crate::work::model::AttemptRole;
use crate::work::model::CreateTaskModel;
use crate::work::model::DelegationFenceModel;
use crate::work::model::FailureCode;
use crate::work::model::InputRefModel;
use crate::work::model::InputUploadModel;
use crate::work::model::LaunchPhase;
use crate::work::model::OperationKind;
use crate::work::model::OperationModel;
use crate::work::model::ReconcileInputModel;
use crate::work::model::Reservation;
use crate::work::model::Task;
use crate::work::model::TaskDependencyModel;
use crate::work::model::TaskModel;
use crate::work::model::TaskPolicyModel;
use crate::work::model::WorkError;
use crate::work::store::authority::DelegatedCreateModel;
use crate::work::store::authority::OperationTargetModel;
use crate::work::store::authority::controlled;
use crate::work::store::authority::governs;
use crate::work::store::authority::governs_id;
use crate::work::store::authority::may_create;
use crate::work::store::authority::targeted;
use crate::work::store::delegation::dependencies_admitted;
use crate::work::store::delegation::may_enable;
use crate::work::store::delegation::undispatched;
use crate::work::store::dependencies::dependencies_valid;
use crate::work::store::freshness::tasks_stand;
use crate::work::store::history::well_formed;
use crate::work::store::inputs::is_upload;
use crate::work::store::inputs::valid_refs;
use crate::work::store::readings::reads_give_what_is_recorded;
use crate::work::store::records::listed;
use crate::work::store::records::loaded;
use crate::work::store::rules::MAX_DEPTH;
use crate::work::store::rules::MAX_LAUNCH_CHAIN;
use crate::work::store::rules::ancestor;
use crate::work::store::rules::budgeted;
use crate::work::store::rules::delegated_reservations;
use crate::work::store::rules::descendants;
use crate::work::store::rules::expected_binding;
use crate::work::store::rules::is_policy;
use crate::work::store::rules::launchable;
use crate::work::store::rules::names;
use crate::work::store::rules::nestable;
use crate::work::store::rules::under;
use crate::work::store::rules::within;
use crate::work::store::rules::within_budget;
use crate::work::store::tables::BodyModel;
use crate::work::store::tables::RecordModel;
use crate::work::store::tables::StoreModel;

verus! {

/// Whether a fence is the one in force: its task is at the top and delegates to the fence's
/// attempt in the fence's epoch, and that attempt is the task's lead, holds its place, and runs as
/// the fence says.
pub open spec fn in_force(s: StoreModel, session: Text, fence: DelegationFenceModel) -> bool {
    &&& loaded::<Task>(s, session, fence.coordinator_task_id) matches Ok(task)
        && task.delegation.policy.enabled && task.parent_task_id is None
        && task.delegation.coordinator_epoch == fence.coordinator_epoch
        && task.delegation.coordinator_attempt_id == Some(fence.coordinator_attempt_id)
    &&& loaded::<Attempt>(s, session, fence.coordinator_attempt_id) matches Ok(attempt)
        && attempt.task_id == fence.coordinator_task_id && attempt.role == AttemptRole::Lead
        && attempt.lifecycle.reservation == Reservation::Reserved && attempt.lifecycle.launch_phase
        == LaunchPhase::LaunchConfirmed && attempt.binding.instance_id == Some(fence.instance_id)
        && attempt.lifecycle.native_owner_epoch == Some(fence.native_owner_epoch)
    &&& is_native_identity(fence.instance_id)
    &&& is_native_identity(fence.native_owner_epoch)
}

/// A fence coordinates its task exactly where it is in force.
pub proof fn fences_in_force_coordinate(s: StoreModel, session: Text, fence: DelegationFenceModel)
    requires
        well_formed(s),
    ensures
        controlled(s, session, fence) is Ok <==> in_force(s, session, fence),
        controlled(s, session, fence) matches Ok(task) ==> loaded::<Task>(
            s,
            session,
            fence.coordinator_task_id,
        ) == Ok::<TaskModel, WorkError>(task),
        controlled(s, session, fence) matches Err(error) ==> {
            ||| error.0 == FailureCode::NotFound && (loaded::<Task>(
                s,
                session,
                fence.coordinator_task_id,
            ) is Err || loaded::<Attempt>(s, session, fence.coordinator_attempt_id) is Err)
            ||| error.0 == FailureCode::InvalidInput && (!is_native_identity(fence.instance_id)
                || !is_native_identity(fence.native_owner_epoch))
            ||| error.0 == FailureCode::ScopeMismatch
            ||| error.0 == FailureCode::InstanceChanged && (loaded::<Attempt>(
                s,
                session,
                fence.coordinator_attempt_id,
            ) matches Ok(attempt) && !(attempt.lifecycle.launch_phase
                == LaunchPhase::LaunchConfirmed && attempt.binding.instance_id == Some(
                fence.instance_id,
            ) && attempt.lifecycle.native_owner_epoch == Some(fence.native_owner_epoch)))
        },
{
    reads_give_what_is_recorded(s, session, fence.coordinator_task_id);
    reads_give_what_is_recorded(s, session, fence.coordinator_attempt_id);
    tasks_stand(s, session, fence.coordinator_task_id);
}

/// Whether a task is a direct child of another, in the same repository, with no more workers and
/// no other agents.
pub open spec fn is_within(child: TaskModel, parent: TaskModel) -> bool {
    &&& child.parent_task_id == Some(parent.id)
    &&& child.repo_path == parent.repo_path
    &&& child.policy.max_workers <= parent.policy.max_workers
    &&& forall|i: int|
        0 <= i < child.policy.allowed_agents.len() ==> parent.policy.allowed_agents.contains(
            #[trigger] child.policy.allowed_agents[i],
        )
}

/// A coordinator governs exactly the direct children of its task that ask for no more than it has,
/// while its fence is in force.
pub proof fn coordinators_govern_their_children(
    s: StoreModel,
    session: Text,
    fence: DelegationFenceModel,
    child: Text,
)
    requires
        well_formed(s),
    ensures
        governs_id(s, session, fence, child) is Ok <==> in_force(s, session, fence) && (loaded::<
            Task,
        >(s, session, child) matches Ok(task) && is_within(
            task,
            loaded::<Task>(s, session, fence.coordinator_task_id)->Ok_0,
        )),
        governs_id(s, session, fence, child) matches Err(error) ==> in_force(s, session, fence)
            ==> error.0 == if loaded::<Task>(s, session, child) is Ok {
            FailureCode::ScopeMismatch
        } else {
            FailureCode::NotFound
        },
{
    fences_in_force_coordinate(s, session, fence);
    reads_give_what_is_recorded(s, session, child);
    if let Ok(task) = loaded::<Task>(s, session, child) {
        if let Ok(parent) = controlled(s, session, fence) {
            let inner = task.policy.allowed_agents;
            let outer = parent.policy.allowed_agents;
            assert(within(inner, outer) <==> forall|i: int|
                0 <= i < inner.len() ==> outer.contains(#[trigger] inner[i])) by {
                assert forall|i: int| 0 <= i < inner.len() implies (names(outer, #[trigger] inner[i])
                    <==> outer.contains(inner[i])) by {}
            }
        }
    }
}

/// The task so many parents above another.
pub open spec fn parent_at(s: StoreModel, session: Text, id: Text, steps: nat) -> Option<Text>
    decreases steps,
{
    if steps == 0 {
        Some(id)
    } else {
        match loaded::<Task>(s, session, id) {
            Err(_) => None,
            Ok(task) => match task.parent_task_id {
                None => None,
                Some(parent) => parent_at(s, session, parent, (steps - 1) as nat),
            },
        }
    }
}

/// A task is in the tree of another exactly where the other is it or one of its parents, no
/// further up than there are records.
pub proof fn trees_are_made_of_parents(
    s: StoreModel,
    session: Text,
    id: Text,
    ancestor: Text,
    steps: nat,
)
    ensures
        under(s, session, id, ancestor, steps) <==> exists|n: nat|
            n <= steps && #[trigger] parent_at(s, session, id, n) == Some(ancestor),
    decreases steps,
{
    assert(parent_at(s, session, id, 0) == Some(id));
    if steps > 0 {
        if let Ok(task) = loaded::<Task>(s, session, id) {
            if let Some(parent) = task.parent_task_id {
                trees_are_made_of_parents(s, session, parent, ancestor, (steps - 1) as nat);
                if under(s, session, parent, ancestor, (steps - 1) as nat) {
                    let n = choose|n: nat|
                        n <= steps - 1 && #[trigger] parent_at(s, session, parent, n) == Some(
                            ancestor,
                        );
                    assert(parent_at(s, session, id, n + 1) == Some(ancestor));
                }
                if exists|n: nat|
                    n <= steps && #[trigger] parent_at(s, session, id, n) == Some(ancestor) {
                    let n = choose|n: nat|
                        n <= steps && #[trigger] parent_at(s, session, id, n) == Some(ancestor);
                    if n > 0 {
                        assert(parent_at(s, session, parent, (n - 1) as nat) == Some(ancestor));
                    }
                }
            }
        }
    }
}

/// Whether a record is an attempt that takes a place of a task's allowance: it holds its place,
/// and is a worker of the task or any attempt below it.
pub open spec fn takes_a_place(
    s: StoreModel,
    record: RecordModel,
    session: Text,
    task: Text,
) -> bool {
    &&& record.session == session
    &&& record.body matches BodyModel::Attempt(attempt) && attempt.lifecycle.reservation
        == Reservation::Reserved && (record.task_id == task ==> attempt.role == AttemptRole::Worker)
    &&& exists|n: nat|
        n <= s.records.len() && #[trigger] parent_at(s, session, record.task_id, n) == Some(task)
}

/// How much of an allowance is taken is how many attempts take a place of it.
pub proof fn reservations_are_counted(
    s: StoreModel,
    rows: Seq<RecordModel>,
    session: Text,
    task: Text,
)
    ensures
        delegated_reservations(s, rows, session, task) == rows.filter(
            |r: RecordModel| takes_a_place(s, r, session, task),
        ).len(),
    decreases rows.len(),
{
    reveal(Seq::filter);
    if rows.len() > 0 {
        reservations_are_counted(s, rows.drop_last(), session, task);
        trees_are_made_of_parents(s, session, rows.last().task_id, task, s.records.len());
    }
}

/// How many tasks lie below another is how many other tasks have it among their parents.
pub proof fn descendants_are_counted(
    s: StoreModel,
    rows: Seq<RecordModel>,
    session: Text,
    task: Text,
)
    ensures
        descendants(s, rows, session, task) == rows.filter(
            |r: RecordModel|
                r.session == session && r.body is Task && r.id != task && exists|n: nat|
                    n <= s.records.len() && #[trigger] parent_at(s, session, r.id, n) == Some(task),
        ).len(),
    decreases rows.len(),
{
    reveal(Seq::filter);
    if rows.len() > 0 {
        descendants_are_counted(s, rows.drop_last(), session, task);
        trees_are_made_of_parents(s, session, rows.last().id, task, s.records.len());
    }
}

/// Launches are closed only for a reason: the task or an ancestor is paused, an ancestor is not
/// recorded, the chain of ancestors goes around, or it has 64 tasks or more.
pub proof fn closed_launches_have_reasons(
    s: StoreModel,
    session: Text,
    task: TaskModel,
    visited: Seq<Text>,
)
    requires
        well_formed(s),
    ensures
        launchable(s, session, task, visited) matches Err(error) ==> {
            ||| error.0 == FailureCode::NotReady && exists|n: nat|
                (#[trigger] ancestor(s, session, task, n) matches Some(above) && above.paused)
            ||| error.0 == FailureCode::NotFound && exists|n: nat|
                (#[trigger] ancestor(s, session, task, n) matches Some(above)
                    && above.parent_task_id is Some && loaded::<Task>(
                    s,
                    session,
                    above.parent_task_id->0,
                ) is Err)
            ||| error.0 == FailureCode::ScopeMismatch && exists|n: nat|
                (#[trigger] ancestor(s, session, task, n) matches Some(above) && (visited.len() + n
                    >= 64 || visited.contains(above.id) || exists|k: nat|
                    k < n && (#[trigger] ancestor(s, session, task, k) matches Some(lower)
                        && lower.id == above.id)))
        },
    decreases MAX_LAUNCH_CHAIN + 1 - visited.len(),
{
    assert(ancestor(s, session, task, 0) == Some(task));
    if task.paused {
    } else if names(visited, task.id) || visited.len() >= MAX_LAUNCH_CHAIN {
    } else if let Some(parent) = task.parent_task_id {
        reads_give_what_is_recorded(s, session, parent);
        if let Ok(next) = loaded::<Task>(s, session, parent) {
            let longer = visited.push(task.id);
            closed_launches_have_reasons(s, session, next, longer);
            if let Err(error) = launchable(s, session, next, longer) {
                if error.0 == FailureCode::NotReady {
                    let n = choose|n: nat|
                        (#[trigger] ancestor(s, session, next, n) matches Some(above)
                            && above.paused);
                    assert(ancestor(s, session, task, n + 1) == ancestor(s, session, next, n));
                } else if error.0 == FailureCode::NotFound {
                    let n = choose|n: nat|
                        (#[trigger] ancestor(s, session, next, n) matches Some(above)
                            && above.parent_task_id is Some && loaded::<Task>(
                            s,
                            session,
                            above.parent_task_id->0,
                        ) is Err);
                    assert(ancestor(s, session, task, n + 1) == ancestor(s, session, next, n));
                } else {
                    let n = choose|n: nat|
                        (#[trigger] ancestor(s, session, next, n) matches Some(above) && (
                        longer.len() + n >= 64 || longer.contains(above.id) || exists|k: nat|
                            k < n && (#[trigger] ancestor(s, session, next, k) matches Some(lower)
                                && lower.id == above.id)));
                    let above = ancestor(s, session, next, n)->0;
                    assert(ancestor(s, session, task, n + 1) == Some(above));
                    if longer.len() + n >= 64 {
                    } else if longer.contains(above.id) {
                        let j = choose|j: int| 0 <= j < longer.len() && longer[j] == above.id;
                        if j < visited.len() {
                            assert(visited[j] == above.id);
                        } else {
                            assert(ancestor(s, session, task, 0) == Some(task));
                            assert(task.id == above.id);
                        }
                    } else {
                        let k = choose|k: nat|
                            k < n && (#[trigger] ancestor(s, session, next, k) matches Some(lower)
                                && lower.id == above.id);
                        assert(ancestor(s, session, task, k + 1) == ancestor(s, session, next, k));
                    }
                }
            }
        }
    }
}

/// Room is refused only for a reason: the task or an ancestor has as many reservations as its
/// policy allows workers, an ancestor is not recorded, or there are 16 ancestors or more.
pub proof fn full_budgets_have_reasons(
    s: StoreModel,
    session: Text,
    task: TaskModel,
    depth: nat,
)
    requires
        well_formed(s),
        depth <= 16,
    ensures
        within_budget(s, session, Some(task), depth) matches Err(error) ==> {
            ||| error.0 == FailureCode::ResourceLimit && exists|n: nat|
                (#[trigger] ancestor(s, session, task, n) matches Some(above)
                    && delegated_reservations(s, s.records, session, above.id)
                    >= above.policy.max_workers)
            ||| error.0 == FailureCode::NotFound && exists|n: nat|
                (#[trigger] ancestor(s, session, task, n) matches Some(above)
                    && above.parent_task_id is Some && loaded::<Task>(
                    s,
                    session,
                    above.parent_task_id->0,
                ) is Err)
            ||| error.0 == FailureCode::ScopeMismatch && exists|n: nat|
                (#[trigger] ancestor(s, session, task, n) is Some && depth + n >= 16)
        },
    decreases MAX_DEPTH - depth,
{
    assert(ancestor(s, session, task, 0) == Some(task));
    if depth >= MAX_DEPTH {
    } else if delegated_reservations(s, s.records, session, task.id) >= task.policy.max_workers {
    } else if let Some(parent) = task.parent_task_id {
        reads_give_what_is_recorded(s, session, parent);
        if let Ok(next) = loaded::<Task>(s, session, parent) {
            full_budgets_have_reasons(s, session, next, depth + 1);
            if let Err(error) = within_budget(s, session, Some(next), depth + 1) {
                if error.0 == FailureCode::ResourceLimit {
                    let n = choose|n: nat|
                        (#[trigger] ancestor(s, session, next, n) matches Some(above)
                            && delegated_reservations(s, s.records, session, above.id)
                            >= above.policy.max_workers);
                    assert(ancestor(s, session, task, n + 1) == ancestor(s, session, next, n));
                } else if error.0 == FailureCode::NotFound {
                    let n = choose|n: nat|
                        (#[trigger] ancestor(s, session, next, n) matches Some(above)
                            && above.parent_task_id is Some && loaded::<Task>(
                            s,
                            session,
                            above.parent_task_id->0,
                        ) is Err);
                    assert(ancestor(s, session, task, n + 1) == ancestor(s, session, next, n));
                } else {
                    let n = choose|n: nat|
                        (#[trigger] ancestor(s, session, next, n) is Some && depth + 1 + n >= 16);
                    assert(ancestor(s, session, task, n + 1) == ancestor(s, session, next, n));
                }
            }
        }
    }
}

/// A worker is charged to its task and all ancestors, a lead to the ancestors alone.
pub proof fn leads_are_charged_to_ancestors(s: StoreModel, task: TaskModel)
    ensures
        budgeted(s, task, AttemptRole::Worker) == within_budget(s, task.session_id, Some(task), 0),
        task.parent_task_id is None ==> budgeted(s, task, AttemptRole::Lead) is Ok,
        task.parent_task_id matches Some(id) ==> (loaded::<Task>(s, task.session_id, id) matches Ok(
            parent,
        ) ==> budgeted(s, task, AttemptRole::Lead) == within_budget(
            s,
            task.session_id,
            Some(parent),
            0,
        )),
{
}

/// Nesting is refused only for a reason: the parent or an ancestor of it is not recorded, or the
/// task would have 16 ancestors or more.
pub proof fn refused_nestings_have_reasons(s: StoreModel, session: Text, parent: Text, depth: nat)
    requires
        well_formed(s),
        depth <= 15,
    ensures
        nestable(s, session, Some(parent), depth) matches Err(error) ==> {
            ||| error.0 == FailureCode::NotFound && exists|n: nat|
                (#[trigger] parent_at(s, session, parent, n) matches Some(above) && loaded::<Task>(
                    s,
                    session,
                    above,
                ) is Err)
            ||| error.0 == FailureCode::ResourceLimit && exists|n: nat| #[trigger]
                parent_at(s, session, parent, n) is Some && depth + n >= 15
        },
        nestable(s, session, None, depth) is Ok,
    decreases MAX_DEPTH - depth,
{
    assert(parent_at(s, session, parent, 0) == Some(parent));
    reads_give_what_is_recorded(s, session, parent);
    if depth + 1 >= MAX_DEPTH {
        assert(parent_at(s, session, parent, 0) is Some && depth + 0 >= 15);
    } else if let Ok(task) = loaded::<Task>(s, session, parent) {
        assert(nestable(s, session, None, depth + 1) is Ok);
        if let Some(next) = task.parent_task_id {
            refused_nestings_have_reasons(s, session, next, depth + 1);
            if let Err(error) = nestable(s, session, Some(next), depth + 1) {
                if error.0 == FailureCode::NotFound {
                    let n = choose|n: nat|
                        (#[trigger] parent_at(s, session, next, n) matches Some(above) && loaded::<
                            Task,
                        >(s, session, above) is Err);
                    let up: nat = n + 1;
                    assert(parent_at(s, session, parent, up) == parent_at(s, session, next, n));
                    assert(loaded::<Task>(
                        s,
                        session,
                        parent_at(s, session, parent, up)->0,
                    ) is Err);
                } else {
                    let n = choose|n: nat| #[trigger]
                        parent_at(s, session, next, n) is Some && depth + 1 + n >= 15;
                    let up: nat = n + 1;
                    assert(parent_at(s, session, parent, up) == parent_at(s, session, next, n));
                    assert(parent_at(s, session, parent, up) is Some && depth + up >= 15);
                }
            }
        }
    }
}

/// A coordinator may create a child exactly where its fence is in force, launches are open, it
/// knows the state of its task, asks for a child of that task in the same repository, and its
/// policy has depth and children left.
pub proof fn children_may_be_created_exactly(
    s: StoreModel,
    session: Text,
    input: CreateTaskModel,
    context: DelegatedCreateModel,
)
    requires
        well_formed(s),
    ensures
        ({
            let parent = loaded::<Task>(s, session, context.fence.coordinator_task_id)->Ok_0;
            let open = launchable(s, session, parent, Seq::empty());
            let policy = parent.delegation.policy;
            let below = descendants(s, s.records, session, context.fence.coordinator_task_id);
            let fits = input.parent_task_id == Some(context.fence.coordinator_task_id)
                && input.repo_path == parent.repo_path;
            let known = parent.revision == context.expected_parent_revision;
            let res = may_create(s, session, input, context);
            &&& res is Ok <==> in_force(s, session, context.fence) && open is Ok && known && fits
                && policy.max_depth > 0 && below < policy.max_children
            &&& in_force(s, session, context.fence) && open is Ok ==> (res matches Err(error)
                ==> error.0 == (if !known {
                FailureCode::RevisionConflict
            } else if !fits {
                FailureCode::ScopeMismatch
            } else {
                FailureCode::ResourceLimit
            }))
            &&& in_force(s, session, context.fence) ==> (open matches Err(error) ==> res == open)
        }),
{
    fences_in_force_coordinate(s, session, context.fence);
    tasks_stand(s, session, context.fence.coordinator_task_id);
}

/// A coordinator acts on an operation exactly where it is a start or a prompt of the kind, the
/// task and the attempt that it means, recorded under its own fence, and it governs the task.
pub proof fn operations_are_meant_exactly(
    s: StoreModel,
    session: Text,
    op: OperationModel,
    target: OperationTargetModel,
)
    ensures
        ({
            let meant = (op.kind == OperationKind::StartAttempt || op.kind
                == OperationKind::DeliverPrompt) && op.kind == target.kind && op.task_id
                == target.task_id && op.attempt_id == Some(target.attempt_id)
                && op.delegation_fence == Some(target.fence);
            let governed = governs_id(s, session, target.fence, op.task_id);
            &&& targeted(s, session, op, target) is Ok <==> meant && governed is Ok
            &&& meant ==> targeted(s, session, op, target) == governed
            &&& targeted(s, session, op, target) matches Err(error) ==> !meant ==> error.0
                == FailureCode::ScopeMismatch
        }),
{
}

/// Delegation may be switched on exactly for a task at the top whose coordinator is its lead,
/// holds its place, and runs in a process that is known.
pub proof fn delegation_may_be_enabled_exactly(
    s: StoreModel,
    session: Text,
    task: TaskModel,
    task_id: Text,
    coordinator: Option<Text>,
)
    ensures
        ({
            let res = may_enable(s, session, task, task_id, coordinator);
            &&& res is Ok <==> task.parent_task_id is None && (coordinator matches Some(id) && (
            loaded::<Attempt>(s, session, id) matches Ok(lead) && lead.task_id == task_id
                && lead.role == AttemptRole::Lead && lead.lifecycle.reservation
                == Reservation::Reserved && lead.lifecycle.launch_phase
                == LaunchPhase::LaunchConfirmed && lead.binding.instance_id is Some
                && lead.lifecycle.native_owner_epoch is Some))
            &&& res matches Err(error) ==> {
                &&& task.parent_task_id is Some ==> error.0 == FailureCode::CapabilityUnavailable
                &&& task.parent_task_id is None && coordinator is None ==> error.0
                    == FailureCode::InvalidInput
                &&& task.parent_task_id is None && (coordinator matches Some(id) && loaded::<Attempt>(
                    s,
                    session,
                    id,
                ) is Ok) ==> error.0 == FailureCode::NotReady
            }
        }),
{
}

/// A policy names 1 to 32 agents, each by a text of up to 64 bytes that is not blank and holds no
/// NUL, and allows up to 16 workers.
pub proof fn policies_have_bounds(policy: TaskPolicyModel)
    ensures
        is_policy(policy) <==> {
            &&& 1 <= policy.allowed_agents.len() <= 32
            &&& policy.max_workers <= 16
            &&& forall|i: int|
                0 <= i < policy.allowed_agents.len() ==> byte_len(
                    #[trigger] policy.allowed_agents[i],
                ) <= 64 && !policy.allowed_agents[i].contains('\0') && exists|j: int|
                    0 <= j < policy.allowed_agents[i].len() && !is_space(
                        #[trigger] policy.allowed_agents[i][j],
                    )
        },
{
}

/// An attempt is the one that a reconciliation expects exactly where it belongs to the task and
/// runs as expected.
pub proof fn reconciliations_expect_exactly(
    attempt: AttemptModel,
    task_id: Text,
    input: ReconcileInputModel,
)
    ensures
        ({
            let res = expected_binding(attempt, task_id, input);
            let own = attempt.task_id == task_id;
            let same = attempt.binding.instance_id == input.expected_instance_id
                && attempt.lifecycle.native_owner_epoch == input.expected_native_owner_epoch;
            &&& res is Ok <==> own && same
            &&& res matches Err(error) ==> error.0 == if own {
                FailureCode::InstanceChanged
            } else {
                FailureCode::ScopeMismatch
            }
        }),
{
}

/// The prerequisites of a task may be changed exactly where it is recorded and stands at the
/// revision that the caller knows, a coordinator governs it, none of its attempts was dispatched,
/// and the prerequisites are admitted.
pub proof fn prerequisites_are_changed_exactly(
    s: StoreModel,
    session: Text,
    task_id: Text,
    expected_revision: u64,
    dependencies: Seq<TaskDependencyModel>,
    fence: Option<DelegationFenceModel>,
)
    requires
        well_formed(s),
    ensures
        ({
            let res = dependencies_admitted(
                s,
                session,
                task_id,
                expected_revision,
                dependencies,
                fence,
            );
            let found = loaded::<Task>(s, session, task_id);
            let task = found->Ok_0;
            let attempts = listed::<Attempt>(s.records, session, task_id);
            let current = task.revision == expected_revision;
            let governed = fence is None || governs(s, session, fence->0, task) is Ok;
            let idle = forall|i: int|
                0 <= i < attempts.len() ==> (#[trigger] attempts[i]).lifecycle.launch_phase
                    == LaunchPhase::NotDispatched;
            let valid = dependencies_valid(s, session, task, dependencies);
            &&& res is Ok <==> found is Ok && current && governed && idle && valid is Ok
            &&& res is Ok ==> res == found
            &&& res matches Err(error) ==> {
                &&& found is Err ==> error.0 == FailureCode::NotFound
                &&& found is Ok && !current ==> error.0 == FailureCode::RevisionConflict
                &&& found is Ok && current && governed && !idle ==> error.0 == FailureCode::NotReady
                &&& found is Ok && current && governed && idle ==> (valid matches Err(other) && other
                    == error)
            }
        }),
{
    reads_give_what_is_recorded(s, session, task_id);
    let attempts = listed::<Attempt>(s.records, session, task_id);
    if undispatched(attempts) {
        assert forall|i: int| 0 <= i < attempts.len() implies (
        #[trigger] attempts[i]).lifecycle.launch_phase == LaunchPhase::NotDispatched by {
            let phase = attempts[i].lifecycle.launch_phase;
        }
    }
}

/// An upload may be recorded exactly where it is for an absolute path of up to 4096 bytes, has a
/// file name, a type of up to 128 bytes without control characters, no more than 10 MiB, and a
/// digest.
pub proof fn uploads_have_bounds(input: InputUploadModel)
    ensures
        is_upload(input) <==> {
            &&& is_absolute(input.repo_path) && is_said(input.repo_path) && byte_len(input.repo_path)
                <= 4096
            &&& is_file_name(input.name)
            &&& is_said(input.mime) && byte_len(input.mime) <= 128
            &&& forall|i: int| 0 <= i < input.mime.len() ==> !is_control(#[trigger] input.mime[i])
            &&& input.size_bytes <= 10_485_760
            &&& is_digest(input.sha256)
        },
{
}

/// References are admissible exactly where there are at most nine, each names another upload by
/// its identifier, and no caption has more than 4096 bytes or a NUL.
pub proof fn references_have_bounds(refs: Seq<InputRefModel>)
    ensures
        valid_refs(refs) <==> {
            &&& refs.len() <= 9
            &&& forall|i: int|
                0 <= i < refs.len() ==> is_uuid((#[trigger] refs[i]).input_id) && byte_len(
                    refs[i].caption,
                ) <= 4096 && !refs[i].caption.contains('\0')
            &&& forall|i: int, j: int|
                0 <= i < j < refs.len() ==> (#[trigger] refs[i]).input_id != (
                #[trigger] refs[j]).input_id
        },
{
    if valid_refs(refs) {
        assert forall|i: int| 0 <= i < refs.len() implies is_uuid((#[trigger] refs[i]).input_id)
            && byte_len(refs[i].caption) <= 4096 && !refs[i].caption.contains('\0') by {
            assert(is_uuid(refs[i].input_id));
        }
    } else if refs.len() <= 9 && forall|i: int, j: int|
        0 <= i < j < refs.len() ==> (#[trigger] refs[i]).input_id != (#[trigger] refs[j]).input_id {
        let i = choose|i: int|
            0 <= i < refs.len() && !(is_uuid(#[trigger] refs[i].input_id) && byte_len(
                refs[i].caption,
            ) <= 4096 && !refs[i].caption.contains('\0'));
        let reference = refs[i];
    }
}

} // verus!
