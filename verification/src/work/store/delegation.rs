//! Configuring delegation, and what a coordinator may read and repeat.
use vstd::prelude::*;
use crate::digest::digest_text;
use crate::digest::is_uuid;
use crate::digest::new_id;
use crate::json::ToJson;
use crate::json::json_string;
use crate::text::text_eq;
use crate::value::Replica;
use crate::value::Text;
use crate::value::no_items;
use crate::value::replica_of;
use crate::value::shown;
use crate::work::model::Attempt;
use crate::work::model::AttemptModel;
use crate::work::model::AttemptRole;
use crate::work::model::CreateTask;
use crate::work::model::CreateTaskModel;
use crate::work::model::DelegationConfig;
use crate::work::model::DelegationConfigModel;
use crate::work::model::DelegationFence;
use crate::work::model::DelegationFenceModel;
use crate::work::model::DelegationState;
use crate::work::model::DelegationStateModel;
use crate::work::model::FailureCode;
use crate::work::model::InputRef;
use crate::work::model::InputRefModel;
use crate::work::model::LaunchPhase;
use crate::work::model::Mutation;
use crate::work::model::MutationModel;
use crate::work::model::Operation;
use crate::work::model::OperationKind;
use crate::work::model::Task;
use crate::work::model::TaskDependency;
use crate::work::model::TaskDependencyModel;
use crate::work::model::TaskModel;
use crate::work::model::WorkResult;
use crate::work::store::authority::DelegatedCreate;
use crate::work::store::authority::DelegatedCreateModel;
use crate::work::store::authority::check_policy;
use crate::work::store::authority::controlled;
use crate::work::store::authority::governs;
use crate::work::store::authority::governs_id;
use crate::work::store::changes::changed;
use crate::work::store::deliveries::governed_if;
use crate::work::store::dependencies::dependencies_valid;
use crate::work::store::inputs::payload;
use crate::work::store::inputs::valid_refs;
use crate::work::store::inputs::validate_refs;
use crate::work::store::records::listed;
use crate::work::store::records::loaded;
use crate::work::store::records::put;
use crate::work::store::records::refuse;
use crate::work::store::records::refused;
use crate::work::store::requests::Request;
use crate::work::store::requests::RequestModel;
use crate::work::store::requests::replayed;
use crate::work::store::requests::saved;
use crate::work::store::rules::revision;
use crate::work::store::summaries::is_active;
use crate::work::store::summaries::reservation_active;
use crate::work::store::tables::Body;
use crate::work::store::tables::BodyModel;
use crate::work::store::tables::DependencyOrigin;
use crate::work::store::tables::DependencyOriginModel;
use crate::work::store::tables::ReceiptBody;
use crate::work::store::tables::ReceiptBodyModel;
use crate::work::store::tables::RequestKind;
use crate::work::store::tables::StoreModel;
use crate::work::store::tables::WorkStore;
use crate::work::store::tasks::create_request;
use crate::work::store::transaction::commits;
use crate::work::store::transaction::first_time;
use crate::work::store::transaction::once_more;
use crate::work::store::transaction::repeated;

verus! {

/// The request that a configuration is filed under.
pub open spec fn configure_request(
    actor: Text,
    session: Text,
    task_id: Text,
    key: Text,
    expected_revision: u64,
    input: DelegationConfigModel,
) -> RequestModel {
    RequestModel {
        actor,
        session,
        key,
        kind: RequestKind::Work(OperationKind::ConfigureDelegation),
        digest: payload(
            Seq::empty()
                .push(json_string(task_id))
                .push(u64::json(expected_revision))
                .push(DelegationConfig::json(input)),
        ),
    }
}

/// Whether delegation may be switched on for a task: it is at the top, and the coordinator is its
/// active lead with a confirmed launch.
pub open spec fn may_enable(
    s: StoreModel,
    session: Text,
    task: TaskModel,
    task_id: Text,
    coordinator: Option<Text>,
) -> WorkResult<()> {
    if task.parent_task_id is Some {
        refused(FailureCode::CapabilityUnavailable)
    } else {
        match coordinator {
            None => refused(FailureCode::InvalidInput),
            Some(id) => match loaded::<Attempt>(s, session, id) {
                Err(error) => Err(error),
                Ok(attempt) => if attempt.task_id != task_id || attempt.role != AttemptRole::Lead
                    || !is_active(attempt) || attempt.lifecycle.launch_phase
                    != LaunchPhase::LaunchConfirmed || attempt.binding.instance_id is None
                    || attempt.lifecycle.native_owner_epoch is None {
                    refused(FailureCode::NotReady)
                } else {
                    Ok(())
                },
            },
        }
    }
}

/// What becomes of a request to configure delegation. Every configuration starts a new epoch, so
/// that authority under an older one ends.
pub open spec fn configure_outcome(
    s: StoreModel,
    actor: Text,
    session: Text,
    task_id: Text,
    key: Text,
    expected_revision: u64,
    input: DelegationConfigModel,
    now: i64,
) -> WorkResult<(StoreModel, MutationModel<TaskModel>)> {
    let request = configure_request(actor, session, task_id, key, expected_revision, input);
    if input.policy.max_children > 64 || input.policy.max_depth > 1 {
        refused(FailureCode::InvalidInput)
    } else {
        match replayed::<Task>(s, request) {
            Err(error) => Err(error),
            Ok(Some(found)) => Ok((s, once_more(found))),
            Ok(None) => match loaded::<Task>(s, session, task_id) {
                Err(error) => Err(error),
                Ok(task) => if task.revision != expected_revision {
                    refused(FailureCode::RevisionConflict)
                } else {
                    let enabled = if input.policy.enabled {
                        may_enable(s, session, task, task_id, input.coordinator_attempt_id)
                    } else {
                        Ok(())
                    };
                    match enabled {
                        Err(error) => Err(error),
                        Ok(_) => if task.delegation.coordinator_epoch == u64::MAX {
                            refused(FailureCode::InvalidInput)
                        } else {
                            match changed(
                                s,
                                TaskModel {
                                    delegation: DelegationStateModel {
                                        policy: input.policy,
                                        coordinator_attempt_id: input.coordinator_attempt_id,
                                        coordinator_epoch: (task.delegation.coordinator_epoch
                                            + 1) as u64,
                                    },
                                    ..task
                                },
                                "delegation_configured"@,
                                task_id,
                                now,
                            ) {
                                Err(error) => Err(error),
                                Ok((next, value)) => Ok(
                                    (
                                        saved(next, request, ReceiptBodyModel::Task(value)),
                                        first_time(value),
                                    ),
                                ),
                            }
                        },
                    }
                },
            },
        }
    }
}

/// The request that a change of dependencies is filed under.
pub open spec fn dependencies_request(
    actor: Text,
    session: Text,
    task_id: Text,
    key: Text,
    expected_revision: u64,
    dependencies: Seq<TaskDependencyModel>,
    fence: Option<DelegationFenceModel>,
) -> RequestModel {
    RequestModel {
        actor,
        session,
        key,
        kind: RequestKind::Work(OperationKind::SetDependencies),
        digest: payload(
            Seq::empty()
                .push(json_string(task_id))
                .push(u64::json(expected_revision))
                .push(Vec::<TaskDependency>::json(dependencies))
                .push(Option::<DelegationFence>::json(fence)),
        ),
    }
}

/// Whether none of some attempts has had its start dispatched.
pub open spec fn undispatched(attempts: Seq<AttemptModel>) -> bool {
    forall|i: int|
        0 <= i < attempts.len() ==> #[trigger] attempts[i].lifecycle.launch_phase
            == LaunchPhase::NotDispatched
}

/// The task whose dependencies may be changed: no attempt of it was dispatched, and it may have
/// these prerequisites.
pub open spec fn dependencies_admitted(
    s: StoreModel,
    session: Text,
    task_id: Text,
    expected_revision: u64,
    dependencies: Seq<TaskDependencyModel>,
    fence: Option<DelegationFenceModel>,
) -> WorkResult<TaskModel> {
    match loaded::<Task>(s, session, task_id) {
        Err(error) => Err(error),
        Ok(task) => if task.revision != expected_revision {
            refused(FailureCode::RevisionConflict)
        } else {
            match governed_if(s, session, fence, task) {
                Err(error) => Err(error),
                Ok(_) => if !undispatched(listed::<Attempt>(s.records, session, task_id)) {
                    refused(FailureCode::NotReady)
                } else {
                    match dependencies_valid(s, session, task, dependencies) {
                        Err(error) => Err(error),
                        Ok(_) => Ok(task),
                    }
                },
            }
        },
    }
}

/// The store after a coordinator's change of dependencies was noted.
pub open spec fn dependency_origin_noted(
    s: StoreModel,
    id: Text,
    actor: Text,
    session: Text,
    task_id: Text,
    key: Text,
    fence: Option<DelegationFenceModel>,
) -> WorkResult<StoreModel> {
    match fence {
        None => Ok(s),
        Some(fence) => put(
            s,
            session,
            id,
            task_id,
            BodyModel::DependencyOrigin(
                DependencyOriginModel { actor_id: actor, request_key: key, fence },
            ),
        ),
    }
}

/// Whether a fence, where there is one, has authority over the child that an identifier names.
pub open spec fn governed_id_if(
    s: StoreModel,
    session: Text,
    fence: Option<DelegationFenceModel>,
    child: Text,
) -> WorkResult<()> {
    match fence {
        None => Ok(()),
        Some(fence) => governs_id(s, session, fence, child),
    }
}

/// What becomes of a request to change a task's dependencies, where the note of a coordinator's
/// change is given the identifier `id`.
pub open spec fn dependencies_outcome(
    s: StoreModel,
    id: Text,
    actor: Text,
    session: Text,
    task_id: Text,
    key: Text,
    expected_revision: u64,
    dependencies: Seq<TaskDependencyModel>,
    fence: Option<DelegationFenceModel>,
    now: i64,
) -> WorkResult<(StoreModel, MutationModel<TaskModel>)> {
    let request = dependencies_request(
        actor,
        session,
        task_id,
        key,
        expected_revision,
        dependencies,
        fence,
    );
    match governed_id_if(s, session, fence, task_id) {
        Err(error) => Err(error),
        Ok(_) => match replayed::<Task>(s, request) {
            Err(error) => Err(error),
            Ok(Some(found)) => Ok((s, once_more(found))),
            Ok(None) => match dependencies_admitted(
                s,
                session,
                task_id,
                expected_revision,
                dependencies,
                fence,
            ) {
                Err(error) => Err(error),
                Ok(task) => match dependency_origin_noted(
                    s,
                    id,
                    actor,
                    session,
                    task_id,
                    key,
                    fence,
                ) {
                    Err(error) => Err(error),
                    Ok(noted) => match changed(
                        noted,
                        TaskModel { dependencies, ..task },
                        "dependencies_updated"@,
                        task_id,
                        now,
                    ) {
                        Err(error) => Err(error),
                        Ok((next, value)) => Ok(
                            (
                                saved(next, request, ReceiptBodyModel::Task(value)),
                                first_time(value),
                            ),
                        ),
                    },
                },
            },
        },
    }
}

fn all_undispatched(attempts: &Vec<Attempt>) -> (res: bool)
    ensures
        res == undispatched(attempts.deep_view()),
{
    let ghost all = attempts.deep_view();
    let mut i: usize = 0;
    while i < attempts.len()
        invariant
            i <= attempts.len(),
            all == attempts.deep_view(),
            forall|k: int|
                0 <= k < i ==> #[trigger] all[k].lifecycle.launch_phase
                    == LaunchPhase::NotDispatched,
        decreases attempts.len() - i,
    {
        if attempts[i].lifecycle.launch_phase != LaunchPhase::NotDispatched {
            assert(all[i as int].lifecycle.launch_phase != LaunchPhase::NotDispatched);
            return false;
        }
        i += 1;
    }
    true
}

impl WorkStore {
    fn check_enable(
        &self,
        session: &str,
        task: &Task,
        task_id: &str,
        coordinator: &Option<String>,
    ) -> (res: WorkResult<()>)
        ensures
            res == may_enable(
                self@,
                session@,
                task.deep_view(),
                task_id@,
                coordinator.deep_view(),
            ),
    {
        if task.parent_task_id.is_some() {
            return refuse(FailureCode::CapabilityUnavailable);
        }
        match coordinator {
            None => refuse(FailureCode::InvalidInput),
            Some(id) => {
                let attempt = self.load::<Attempt>(session, id.as_str())?;
                if !text_eq(attempt.task_id.as_str(), task_id) || attempt.role != AttemptRole::Lead
                    || !reservation_active(&attempt) || attempt.lifecycle.launch_phase
                    != LaunchPhase::LaunchConfirmed || attempt.binding.instance_id.is_none()
                    || attempt.lifecycle.native_owner_epoch.is_none() {
                    return refuse(FailureCode::NotReady);
                }
                Ok(())
            },
        }
    }

    /// Configures delegation for a task.
    pub fn configure_delegation(
        &mut self,
        actor: &str,
        session: &str,
        task_id: &str,
        key: &str,
        expected_revision: u64,
        input: DelegationConfig,
        now: i64,
    ) -> (res: WorkResult<Mutation<Task>>)
        ensures
            commits(
                old(self)@,
                final(self)@,
                configure_outcome(
                    old(self)@,
                    actor@,
                    session@,
                    task_id@,
                    key@,
                    expected_revision,
                    input.deep_view(),
                    now,
                ),
                shown(res),
            ),
    {
        check_policy(&input.policy)?;
        let request = Request {
            actor,
            session,
            key,
            kind: RequestKind::Work(OperationKind::ConfigureDelegation),
            digest: digest_text(&(task_id, expected_revision, &input)),
        };
        match self.replay::<Task>(&request)? {
            Some(value) => {
                return Ok(Mutation { value, replayed: true });
            },
            None => {},
        }
        let mut task = self.load::<Task>(session, task_id)?;
        revision(&task, expected_revision)?;
        if input.policy.enabled {
            self.check_enable(session, &task, task_id, &input.coordinator_attempt_id)?;
        }
        if task.delegation.coordinator_epoch == u64::MAX {
            return refuse(FailureCode::InvalidInput);
        }
        task.delegation = DelegationState {
            policy: input.policy,
            coordinator_attempt_id: input.coordinator_attempt_id,
            coordinator_epoch: task.delegation.coordinator_epoch + 1,
        };
        let mut next = self.replica();
        let value = next.change(task, "delegation_configured", task_id, now)?;
        next.save(&request, ReceiptBody::Task(value.replica()));
        *self = next;
        Ok(Mutation { value, replayed: false })
    }

    fn admit_dependencies(
        &self,
        session: &str,
        task_id: &str,
        expected_revision: u64,
        dependencies: &Vec<TaskDependency>,
        fence: &Option<DelegationFence>,
    ) -> (res: WorkResult<Task>)
        ensures
            shown(res) == dependencies_admitted(
                self@,
                session@,
                task_id@,
                expected_revision,
                dependencies.deep_view(),
                fence.deep_view(),
            ),
    {
        let task = self.load::<Task>(session, task_id)?;
        revision(&task, expected_revision)?;
        self.authorize_if(session, fence, &task)?;
        let attempts = self.records::<Attempt>(session, task_id);
        if !all_undispatched(&attempts) {
            return refuse(FailureCode::NotReady);
        }
        self.validate_dependencies(session, &task, dependencies.as_slice())?;
        Ok(task)
    }

    /// Changes a task's dependencies, noting a coordinator's change under the identifier given.
    pub fn set_dependencies_as(
        &mut self,
        id: &str,
        actor: &str,
        session: &str,
        task_id: &str,
        key: &str,
        expected_revision: u64,
        dependencies: Vec<TaskDependency>,
        fence: Option<&DelegationFence>,
        now: i64,
    ) -> (res: WorkResult<Mutation<Task>>)
        ensures
            commits(
                old(self)@,
                final(self)@,
                dependencies_outcome(
                    old(self)@,
                    id@,
                    actor@,
                    session@,
                    task_id@,
                    key@,
                    expected_revision,
                    dependencies.deep_view(),
                    fence.deep_view(),
                    now,
                ),
                shown(res),
            ),
    {
        let request = Request {
            actor,
            session,
            key,
            kind: RequestKind::Work(OperationKind::SetDependencies),
            digest: digest_text(&(task_id, expected_revision, &dependencies, fence)),
        };
        let fence = match fence {
            Some(fence) => Some(fence.replica()),
            None => None,
        };
        match &fence {
            Some(fence) => {
                self.authorize_child_id(session, fence, task_id)?;
            },
            None => {},
        }
        match self.replay::<Task>(&request)? {
            Some(value) => {
                return Ok(Mutation { value, replayed: true });
            },
            None => {},
        }
        let mut task = self.admit_dependencies(
            session,
            task_id,
            expected_revision,
            &dependencies,
            &fence,
        )?;
        let mut next = self.replica();
        match fence {
            Some(fence) => {
                let origin = DependencyOrigin {
                    actor_id: actor.to_string(),
                    request_key: key.to_string(),
                    fence,
                };
                next.put(session, id, task_id, Body::DependencyOrigin(origin))?;
            },
            None => {},
        }
        task.dependencies = dependencies;
        let value = next.change(task, "dependencies_updated", task_id, now)?;
        next.save(&request, ReceiptBody::Task(value.replica()));
        *self = next;
        Ok(Mutation { value, replayed: false })
    }

    /// Changes a task's dependencies.
    pub fn set_dependencies(
        &mut self,
        actor: &str,
        session: &str,
        task_id: &str,
        key: &str,
        expected_revision: u64,
        dependencies: Vec<TaskDependency>,
        fence: Option<&DelegationFence>,
        now: i64,
    ) -> (res: WorkResult<Mutation<Task>>)
        ensures
            exists|id: Text|
                is_uuid(id) && commits(
                    old(self)@,
                    final(self)@,
                    #[trigger] dependencies_outcome(
                        old(self)@,
                        id,
                        actor@,
                        session@,
                        task_id@,
                        key@,
                        expected_revision,
                        dependencies.deep_view(),
                        fence.deep_view(),
                        now,
                    ),
                    shown(res),
                ),
    {
        let id = new_id();
        self.set_dependencies_as(
            id.as_str(),
            actor,
            session,
            task_id,
            key,
            expected_revision,
            dependencies,
            fence,
            now,
        )
    }

    /// Changes a child's dependencies on behalf of a coordinator.
    pub fn set_delegated_dependencies(
        &mut self,
        actor: &str,
        session: &str,
        task_id: &str,
        key: &str,
        expected_revision: u64,
        dependencies: Vec<TaskDependency>,
        fence: &DelegationFence,
        now: i64,
    ) -> (res: WorkResult<Mutation<Task>>)
        ensures
            exists|id: Text|
                is_uuid(id) && commits(
                    old(self)@,
                    final(self)@,
                    #[trigger] dependencies_outcome(
                        old(self)@,
                        id,
                        actor@,
                        session@,
                        task_id@,
                        key@,
                        expected_revision,
                        dependencies.deep_view(),
                        Some(fence.deep_view()),
                        now,
                    ),
                    shown(res),
                ),
    {
        self.set_dependencies(
            actor,
            session,
            task_id,
            key,
            expected_revision,
            dependencies,
            Some(fence),
            now,
        )
    }

    /// Answers a coordinator's change of dependencies that was carried out before.
    pub fn replay_delegated_dependencies(
        &self,
        actor: &str,
        session: &str,
        task_id: &str,
        key: &str,
        expected_revision: u64,
        dependencies: &[TaskDependency],
        fence: &DelegationFence,
    ) -> (res: WorkResult<Option<Mutation<Task>>>)
        ensures
            shown(res) == (match governs_id(self@, session@, fence.deep_view(), task_id@) {
                Err(error) => Err(error),
                Ok(_) => repeated(
                    replayed::<Task>(
                        self@,
                        dependencies_request(
                            actor@,
                            session@,
                            task_id@,
                            key@,
                            expected_revision,
                            dependencies.deep_view(),
                            Some(fence.deep_view()),
                        ),
                    ),
                ),
            }),
    {
        self.authorize_child_id(session, fence, task_id)?;
        let request = Request {
            actor,
            session,
            key,
            kind: RequestKind::Work(OperationKind::SetDependencies),
            digest: digest_text(&(task_id, expected_revision, dependencies, Some(fence))),
        };
        match self.replay::<Task>(&request)? {
            Some(value) => Ok(Some(Mutation { value, replayed: true })),
            None => Ok(None),
        }
    }

    /// Answers a coordinator's request to create a child that was carried out before.
    pub fn replay_delegated_create(
        &self,
        actor: &str,
        session: &str,
        key: &str,
        fence: &DelegationFence,
        parent_revision: u64,
        input: &CreateTask,
        dependencies: &[TaskDependency],
    ) -> (res: WorkResult<Option<Mutation<Task>>>)
        ensures
            shown(res) == delegated_create_replayed(
                self@,
                actor@,
                session@,
                key@,
                input.deep_view(),
                Seq::empty(),
                (DelegatedCreateModel {
                    fence: fence.deep_view(),
                    expected_parent_revision: parent_revision,
                    dependencies: dependencies.deep_view(),
                }),
            ),
    {
        let refs: Vec<InputRef> = no_items();
        let none = refs.as_slice();
        assert(none.deep_view() =~= Seq::<InputRefModel>::empty());
        self.replay_delegated_create_with_inputs(
            actor,
            session,
            key,
            fence,
            parent_revision,
            input,
            dependencies,
            none,
        )
    }

    /// Answers a coordinator's request to create a child with inputs that was carried out before.
    pub fn replay_delegated_create_with_inputs(
        &self,
        actor: &str,
        session: &str,
        key: &str,
        fence: &DelegationFence,
        parent_revision: u64,
        input: &CreateTask,
        dependencies: &[TaskDependency],
        refs: &[InputRef],
    ) -> (res: WorkResult<Option<Mutation<Task>>>)
        ensures
            shown(res) == delegated_create_replayed(
                self@,
                actor@,
                session@,
                key@,
                input.deep_view(),
                refs.deep_view(),
                (DelegatedCreateModel {
                    fence: fence.deep_view(),
                    expected_parent_revision: parent_revision,
                    dependencies: dependencies.deep_view(),
                }),
            ),
    {
        validate_refs(refs)?;
        let _ = self.authorize_controller(session, fence)?;
        let context = DelegatedCreate {
            fence: fence.replica(),
            expected_parent_revision: parent_revision,
            dependencies: replica_of(dependencies),
        };
        let request = Request {
            actor,
            session,
            key,
            kind: RequestKind::Work(OperationKind::CreateTask),
            digest: digest_text(&(input, refs, &context)),
        };
        match self.replay::<Task>(&request)? {
            Some(value) => {
                self.authorize_child(session, fence, &value)?;
                Ok(Some(Mutation { value, replayed: true }))
            },
            None => Ok(None),
        }
    }

    /// Reads an operation of a child on behalf of a coordinator.
    pub fn get_delegated_operation(
        &self,
        session: &str,
        fence: &DelegationFence,
        operation_id: &str,
    ) -> (res: WorkResult<Operation>)
        ensures
            shown(res) == (match loaded::<Operation>(self@, session@, operation_id@) {
                Err(error) => Err(error),
                Ok(op) => match governs_id(self@, session@, fence.deep_view(), op.task_id) {
                    Err(error) => Err(error),
                    Ok(_) => Ok(op),
                },
            }),
    {
        let op = self.load::<Operation>(session, operation_id)?;
        self.authorize_child_id(session, fence, op.task_id.as_str())?;
        Ok(op)
    }
}

/// What a coordinator's request to create a child is answered with that was carried out before.
pub open spec fn delegated_create_replayed(
    s: StoreModel,
    actor: Text,
    session: Text,
    key: Text,
    input: CreateTaskModel,
    refs: Seq<InputRefModel>,
    context: DelegatedCreateModel,
) -> WorkResult<Option<MutationModel<TaskModel>>> {
    if !valid_refs(refs) {
        refused(FailureCode::InvalidInput)
    } else {
        match controlled(s, session, context.fence) {
            Err(error) => Err(error),
            Ok(_) => match replayed::<Task>(
                s,
                create_request(actor, session, key, input, refs, Some(context)),
            ) {
                Err(error) => Err(error),
                Ok(None) => Ok(None),
                Ok(Some(task)) => match governs(s, session, context.fence, task) {
                    Err(error) => Err(error),
                    Ok(_) => Ok(Some(once_more(task))),
                },
            },
        }
    }
}

} // verus!
