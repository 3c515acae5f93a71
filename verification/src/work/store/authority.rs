//! What a coordinator may do to the tasks below its own.
use vstd::prelude::*;
use crate::json::ObjectWriter;
use crate::json::ToJson;
use crate::json::object;
use crate::value::Same;
use crate::value::Text;
use crate::value::shown;
use crate::work::model::Attempt;
use crate::work::model::AttemptRole;
use crate::work::model::CreateTask;
use crate::work::model::CreateTaskModel;
use crate::work::model::DelegationFence;
use crate::work::model::DelegationFenceModel;
use crate::work::model::DelegationPolicy;
use crate::work::model::FailureCode;
use crate::work::model::FrozenInputRef;
use crate::work::model::FrozenInputRefModel;
use crate::work::model::InputRef;
use crate::work::model::InputRefModel;
use crate::work::model::Operation;
use crate::work::model::OperationKind;
use crate::work::model::OperationModel;
use crate::work::model::Task;
use crate::work::model::TaskDependency;
use crate::work::model::TaskDependencyModel;
use crate::work::model::TaskModel;
use crate::work::model::WorkResult;
use crate::work::store::inputs::covers;
use crate::work::store::inputs::find_reference;
use crate::work::store::inputs::parent_shares;
use crate::work::store::inputs::reference_to;
use crate::work::store::inputs::resolved;
use crate::work::store::inputs::use_allowed;
use crate::work::store::records::loaded;
use crate::work::store::records::refuse;
use crate::work::store::records::refused;
use crate::work::store::rules::all_within;
use crate::work::store::rules::confirmed_binding;
use crate::work::store::rules::descendants;
use crate::work::store::rules::is_text;
use crate::work::store::rules::launchable;
use crate::work::store::rules::match_native_binding;
use crate::work::store::rules::revision;
use crate::work::store::rules::within;
use crate::work::store::summaries::is_active;
use crate::work::store::summaries::reservation_active;
use crate::work::store::tables::StoreModel;
use crate::work::store::tables::WorkStore;

verus! {

/// The authority and the promises under which a coordinator creates a child.
pub struct DelegatedCreate {
    pub fence: DelegationFence,
    pub expected_parent_revision: u64,
    pub dependencies: Vec<TaskDependency>,
}

/// The value of a `DelegatedCreate`.
#[verifier::ext_equal]
pub struct DelegatedCreateModel {
    pub fence: DelegationFenceModel,
    pub expected_parent_revision: u64,
    pub dependencies: Seq<TaskDependencyModel>,
}

impl DeepView for DelegatedCreate {
    type V = DelegatedCreateModel;

    open spec fn deep_view(&self) -> DelegatedCreateModel {
        DelegatedCreateModel {
            fence: self.fence.deep_view(),
            expected_parent_revision: self.expected_parent_revision,
            dependencies: self.dependencies.deep_view(),
        }
    }
}

impl ToJson for DelegatedCreate {
    open spec fn json(v: DelegatedCreateModel) -> Text {
        object(
            Seq::empty()
                .push(("fence"@, DelegationFence::json(v.fence)))
                .push(("expected_parent_revision"@, u64::json(v.expected_parent_revision)))
                .push(("dependencies"@, Vec::<TaskDependency>::json(v.dependencies))),
        )
    }

    fn to_json(&self) -> (res: String) {
        ObjectWriter::new()
            .with("fence", self.fence.to_json())
            .with("expected_parent_revision", self.expected_parent_revision.to_json())
            .with("dependencies", self.dependencies.to_json())
            .finish()
    }
}

/// The operation that a coordinator means to act on.
pub struct OperationTarget {
    pub task_id: String,
    pub attempt_id: String,
    pub kind: OperationKind,
    pub fence: DelegationFence,
}

/// The value of an `OperationTarget`.
#[verifier::ext_equal]
pub struct OperationTargetModel {
    pub task_id: Text,
    pub attempt_id: Text,
    pub kind: OperationKind,
    pub fence: DelegationFenceModel,
}

impl DeepView for OperationTarget {
    type V = OperationTargetModel;

    open spec fn deep_view(&self) -> OperationTargetModel {
        OperationTargetModel {
            task_id: self.task_id.deep_view(),
            attempt_id: self.attempt_id.deep_view(),
            kind: self.kind,
            fence: self.fence.deep_view(),
        }
    }
}

/// The task that a fence coordinates, while the fence is the one in force: delegation is on,
/// the task is at the top, and epoch, lead attempt and native instance are the recorded ones.
pub open spec fn controlled(s: StoreModel, session: Text, fence: DelegationFenceModel) -> WorkResult<
    TaskModel,
> {
    match loaded::<Task>(s, session, fence.coordinator_task_id) {
        Err(error) => Err(error),
        Ok(task) => if !task.delegation.policy.enabled || task.parent_task_id is Some
            || task.delegation.coordinator_epoch != fence.coordinator_epoch
            || task.delegation.coordinator_attempt_id != Some(fence.coordinator_attempt_id) {
            refused(FailureCode::ScopeMismatch)
        } else {
            match loaded::<Attempt>(s, session, fence.coordinator_attempt_id) {
                Err(error) => Err(error),
                Ok(attempt) => if attempt.task_id != task.id || attempt.role != AttemptRole::Lead
                    || !is_active(attempt) {
                    refused(FailureCode::ScopeMismatch)
                } else {
                    match confirmed_binding(attempt, fence.instance_id, fence.native_owner_epoch) {
                        Err(error) => Err(error),
                        Ok(_) => Ok(task),
                    }
                },
            }
        },
    }
}

/// Whether a task is a direct child that asks for no more than its parent has.
pub open spec fn is_child(child: TaskModel, parent: TaskModel) -> bool {
    &&& child.parent_task_id == Some(parent.id)
    &&& child.repo_path == parent.repo_path
    &&& child.policy.max_workers <= parent.policy.max_workers
    &&& within(child.policy.allowed_agents, parent.policy.allowed_agents)
}

/// Whether a fence has authority over a child.
pub open spec fn governs(
    s: StoreModel,
    session: Text,
    fence: DelegationFenceModel,
    child: TaskModel,
) -> WorkResult<()> {
    match controlled(s, session, fence) {
        Err(error) => Err(error),
        Ok(parent) => if is_child(child, parent) {
            Ok(())
        } else {
            refused(FailureCode::ScopeMismatch)
        },
    }
}

/// Whether a fence has authority over the child that an identifier names.
pub open spec fn governs_id(
    s: StoreModel,
    session: Text,
    fence: DelegationFenceModel,
    child: Text,
) -> WorkResult<()> {
    match loaded::<Task>(s, session, child) {
        Err(error) => Err(error),
        Ok(task) => governs(s, session, fence, task),
    }
}

/// Whether a coordinator may create the child that it asks for.
pub open spec fn may_create(
    s: StoreModel,
    session: Text,
    input: CreateTaskModel,
    context: DelegatedCreateModel,
) -> WorkResult<()> {
    match controlled(s, session, context.fence) {
        Err(error) => Err(error),
        Ok(parent) => match launchable(s, parent.session_id, parent, Seq::empty()) {
            Err(error) => Err(error),
            Ok(_) => if parent.revision != context.expected_parent_revision {
                refused(FailureCode::RevisionConflict)
            } else if input.parent_task_id != Some(parent.id) || input.repo_path
                != parent.repo_path {
                refused(FailureCode::ScopeMismatch)
            } else if parent.delegation.policy.max_depth == 0 {
                refused(FailureCode::ResourceLimit)
            } else if descendants(s, s.records, session, parent.id)
                >= parent.delegation.policy.max_children {
                refused(FailureCode::ResourceLimit)
            } else {
                Ok(())
            },
        },
    }
}

/// Whether an operation is the one that a coordinator means, and the coordinator may act on it.
pub open spec fn targeted(
    s: StoreModel,
    session: Text,
    op: OperationModel,
    target: OperationTargetModel,
) -> WorkResult<()> {
    if (target.kind != OperationKind::StartAttempt && target.kind != OperationKind::DeliverPrompt)
        || op.kind != target.kind || op.task_id != target.task_id || op.attempt_id != Some(
        target.attempt_id,
    ) || op.delegation_fence != Some(target.fence) {
        refused(FailureCode::ScopeMismatch)
    } else {
        governs_id(s, session, target.fence, target.task_id)
    }
}

/// Whether an operation, where a coordinator means one, is that one.
pub open spec fn targeted_if(
    s: StoreModel,
    session: Text,
    op: OperationModel,
    target: Option<OperationTargetModel>,
) -> WorkResult<()> {
    match target {
        None => Ok(()),
        Some(target) => targeted(s, session, op, target),
    }
}

/// Whether a child's own references permit what some references ask for.
pub open spec fn permitted(child: TaskModel, refs: Seq<InputRefModel>) -> bool {
    forall|i: int|
        0 <= i < refs.len() ==> match reference_to(child.input_refs, #[trigger] refs[i].input_id) {
            Some(initial) => covers(initial.use_, refs[i].use_),
            None => false,
        }
}

/// References that a coordinator gives to a child, as they are when they are admitted.
pub open spec fn child_inputs(
    s: StoreModel,
    actor: Text,
    session: Text,
    fence: DelegationFenceModel,
    child: TaskModel,
    refs: Seq<InputRefModel>,
    now: i64,
) -> WorkResult<Seq<FrozenInputRefModel>> {
    match governs(s, session, fence, child) {
        Err(error) => Err(error),
        Ok(_) => if !permitted(child, refs) {
            refused(FailureCode::ScopeMismatch)
        } else {
            resolved(s, actor, session, child.repo_path, Some(child.id), refs, now)
        },
    }
}

/// References that a coordinator asks about: its own where no child is named, else the child's.
pub open spec fn delegated_inputs(
    s: StoreModel,
    actor: Text,
    session: Text,
    fence: DelegationFenceModel,
    child: Option<Text>,
    refs: Seq<InputRefModel>,
    now: i64,
) -> WorkResult<Seq<FrozenInputRefModel>> {
    match controlled(s, session, fence) {
        Err(error) => Err(error),
        Ok(parent) => match child {
            None => parent_shares(s, actor, session, parent, refs, now),
            Some(id) => match loaded::<Task>(s, session, id) {
                Err(error) => Err(error),
                Ok(task) => child_inputs(s, actor, session, fence, task, refs, now),
            },
        },
    }
}

/// Whether an optional fence is a given one.
pub fn is_fence(value: &Option<DelegationFence>, fence: &DelegationFence) -> (res: bool)
    ensures
        res == (value.deep_view() == Some(fence.deep_view())),
{
    match value {
        Some(known) => known.same(fence),
        None => false,
    }
}

/// Whether a delegation policy is within the fixed limits.
pub fn check_policy(policy: &DelegationPolicy) -> (res: WorkResult<()>)
    ensures
        res == (if policy.deep_view().max_children > 64 || policy.deep_view().max_depth > 1 {
            refused::<()>(FailureCode::InvalidInput)
        } else {
            Ok(())
        }),
{
    if policy.max_children > 64 || policy.max_depth > 1 {
        return refuse(FailureCode::InvalidInput);
    }
    Ok(())
}

fn check_permitted(child: &Task, refs: &[InputRef]) -> (res: bool)
    ensures
        res == permitted(child.deep_view(), refs.deep_view()),
{
    let ghost all = refs.deep_view();
    let ghost own = child.deep_view().input_refs;
    let mut i: usize = 0;
    while i < refs.len()
        invariant
            i <= refs.len(),
            all == refs.deep_view(),
            own == child.deep_view().input_refs,
            forall|k: int|
                0 <= k < i ==> match reference_to(own, #[trigger] all[k].input_id) {
                    Some(initial) => covers(initial.use_, all[k].use_),
                    None => false,
                },
        decreases refs.len() - i,
    {
        assert(all[i as int].input_id == refs[i as int].deep_view().input_id);
        match find_reference(&child.input_refs, refs[i].input_id.as_str()) {
            Some(initial) => {
                if !use_allowed(initial.use_, refs[i].use_) {
                    return false;
                }
            },
            None => {
                return false;
            },
        }
        i += 1;
    }
    true
}

impl WorkStore {
    /// The task that a fence coordinates, while the fence is the one in force.
    pub(crate) fn authorize_controller(&self, session: &str, fence: &DelegationFence) -> (res:
        WorkResult<Task>)
        ensures
            shown(res) == controlled(self@, session@, fence.deep_view()),
    {
        let task = self.load::<Task>(session, fence.coordinator_task_id.as_str())?;
        if !task.delegation.policy.enabled || task.parent_task_id.is_some()
            || task.delegation.coordinator_epoch != fence.coordinator_epoch || !is_text(
            &task.delegation.coordinator_attempt_id,
            fence.coordinator_attempt_id.as_str(),
        ) {
            return refuse(FailureCode::ScopeMismatch);
        }
        let attempt = self.load::<Attempt>(session, fence.coordinator_attempt_id.as_str())?;
        if !attempt.task_id.same(&task.id) || attempt.role != AttemptRole::Lead
            || !reservation_active(&attempt) {
            return refuse(FailureCode::ScopeMismatch);
        }
        match_native_binding(
            &attempt,
            fence.instance_id.as_str(),
            fence.native_owner_epoch.as_str(),
        )?;
        Ok(task)
    }

    /// Whether a fence has authority over a child.
    pub(crate) fn authorize_child(&self, session: &str, fence: &DelegationFence, child: &Task) -> (
    res: WorkResult<()>)
        ensures
            res == governs(self@, session@, fence.deep_view(), child.deep_view()),
    {
        let parent = self.authorize_controller(session, fence)?;
        if !is_text(&child.parent_task_id, parent.id.as_str()) || !child.repo_path.same(
            &parent.repo_path,
        ) || child.policy.max_workers > parent.policy.max_workers || !all_within(
            &child.policy.allowed_agents,
            &parent.policy.allowed_agents,
        ) {
            return refuse(FailureCode::ScopeMismatch);
        }
        Ok(())
    }

    /// Whether a fence has authority over the child that an identifier names.
    pub(crate) fn authorize_child_id(&self, session: &str, fence: &DelegationFence, child: &str) -> (
    res: WorkResult<()>)
        ensures
            res == governs_id(self@, session@, fence.deep_view(), child@),
    {
        let task = self.load::<Task>(session, child)?;
        self.authorize_child(session, fence, &task)
    }

    /// Whether a coordinator may create the child that it asks for.
    pub(crate) fn authorize_create(
        &self,
        session: &str,
        input: &CreateTask,
        context: &DelegatedCreate,
    ) -> (res: WorkResult<()>)
        ensures
            res == may_create(self@, session@, input.deep_view(), context.deep_view()),
    {
        let parent = self.authorize_controller(session, &context.fence)?;
        self.launch_allowed(&parent)?;
        revision(&parent, context.expected_parent_revision)?;
        if !is_text(&input.parent_task_id, parent.id.as_str()) || !input.repo_path.same(
            &parent.repo_path,
        ) {
            return refuse(FailureCode::ScopeMismatch);
        }
        if parent.delegation.policy.max_depth == 0 {
            return refuse(FailureCode::ResourceLimit);
        }
        if self.count_descendants(session, parent.id.as_str())
            >= parent.delegation.policy.max_children as u64 {
            return refuse(FailureCode::ResourceLimit);
        }
        Ok(())
    }

    /// Whether an operation is the one that a coordinator means.
    pub(crate) fn validate_operation_target(
        &self,
        session: &str,
        op: &Operation,
        target: &Option<OperationTarget>,
    ) -> (res: WorkResult<()>)
        ensures
            res == targeted_if(self@, session@, op.deep_view(), target.deep_view()),
    {
        match target {
            None => Ok(()),
            Some(target) => {
                if (target.kind != OperationKind::StartAttempt && target.kind
                    != OperationKind::DeliverPrompt) || op.kind != target.kind || !op.task_id.same(
                    &target.task_id,
                ) || !is_text(&op.attempt_id, target.attempt_id.as_str()) || !is_fence(
                    &op.delegation_fence,
                    &target.fence,
                ) {
                    return refuse(FailureCode::ScopeMismatch);
                }
                self.authorize_child_id(session, &target.fence, target.task_id.as_str())
            },
        }
    }

    /// References that a coordinator gives to a child.
    pub(crate) fn resolve_child_inputs(
        &self,
        actor: &str,
        session: &str,
        fence: &DelegationFence,
        child: &Task,
        refs: &[InputRef],
        now: i64,
    ) -> (res: WorkResult<Vec<FrozenInputRef>>)
        ensures
            shown(res) == child_inputs(
                self@,
                actor@,
                session@,
                fence.deep_view(),
                child.deep_view(),
                refs.deep_view(),
                now,
            ),
    {
        self.authorize_child(session, fence, child)?;
        if !check_permitted(child, refs) {
            return refuse(FailureCode::ScopeMismatch);
        }
        self.resolve(
            actor,
            session,
            child.repo_path.as_str(),
            Some(child.id.as_str()),
            refs,
            now,
        )
    }

    /// References that a coordinator asks about. Read-only: creation and delivery look again.
    pub fn resolve_delegated_inputs(
        &self,
        actor: &str,
        session: &str,
        fence: &DelegationFence,
        child_task: Option<&str>,
        refs: &[InputRef],
        now: i64,
    ) -> (res: WorkResult<Vec<FrozenInputRef>>)
        ensures
            shown(res) == delegated_inputs(
                self@,
                actor@,
                session@,
                fence.deep_view(),
                child_task.deep_view(),
                refs.deep_view(),
                now,
            ),
    {
        let parent = self.authorize_controller(session, fence)?;
        match child_task {
            Some(id) => {
                let task = self.load::<Task>(session, id)?;
                self.resolve_child_inputs(actor, session, fence, &task, refs, now)
            },
            None => self.resolve_parent_shares(actor, session, &parent, refs, now),
        }
    }

    /// Whether a fence is in force, and has authority over a child where one is named.
    pub fn assert_delegation_authority(
        &self,
        session: &str,
        fence: &DelegationFence,
        child_task: Option<&str>,
    ) -> (res: WorkResult<()>)
        ensures
            res == (match child_task.deep_view() {
                Some(id) => governs_id(self@, session@, fence.deep_view(), id),
                None => match controlled(self@, session@, fence.deep_view()) {
                    Err(error) => Err(error),
                    Ok(_) => Ok(()),
                },
            }),
    {
        match child_task {
            Some(id) => self.authorize_child_id(session, fence, id),
            None => {
                let _ = self.authorize_controller(session, fence)?;
                Ok(())
            },
        }
    }

    /// Whether a launch under a task is allowed now.
    pub fn assert_launch_allowed(&self, session: &str, task_id: &str) -> (res: WorkResult<()>)
        ensures
            res == (match loaded::<Task>(self@, session@, task_id@) {
                Err(error) => Err(error),
                Ok(task) => launchable(self@, task.session_id, task, Seq::empty()),
            }),
    {
        let task = self.load::<Task>(session, task_id)?;
        self.launch_allowed(&task)
    }
}

} // verus!
