//! Creating, listing and pausing tasks.
use vstd::prelude::*;
use crate::digest::digest_text;
use crate::digest::is_uuid;
use crate::digest::new_id;
use crate::digest::new_ids;
use crate::json::ToJson;
use crate::json::json_string;
use crate::text::absolute;
use crate::text::bounded;
use crate::text::is_absolute;
use crate::text::is_bounded;
use crate::value::Replica;
use crate::value::Same;
use crate::value::Text;
use crate::value::no_items;
use crate::value::shown;
use crate::work::model::Attempt;
use crate::work::model::CreateTask;
use crate::work::model::CreateTaskModel;
use crate::work::model::DelegationFence;
use crate::work::model::DelegationFenceModel;
use crate::work::model::DelegationPolicy;
use crate::work::model::DelegationPolicyModel;
use crate::work::model::DelegationState;
use crate::work::model::DelegationStateModel;
use crate::work::model::FailureCode;
use crate::work::model::InputRef;
use crate::work::model::InputRefModel;
use crate::work::model::Mutation;
use crate::work::model::MutationModel;
use crate::work::model::Operation;
use crate::work::model::OperationKind;
use crate::work::model::OperationModel;
use crate::work::model::OperationState;
use crate::work::model::PauseInput;
use crate::work::model::PauseInputModel;
use crate::work::model::ResultSubmission;
use crate::work::model::Review;
use crate::work::model::Task;
use crate::work::model::TaskDependency;
use crate::work::model::TaskDependencyModel;
use crate::work::model::TaskDetail;
use crate::work::model::TaskDetailModel;
use crate::work::model::TaskModel;
use crate::work::model::WorkError;
use crate::work::model::WorkResult;
use crate::work::model::no_delegation;
use crate::work::store::authority::DelegatedCreate;
use crate::work::store::authority::DelegatedCreateModel;
use crate::work::store::authority::may_create;
use crate::work::store::changes::changed;
use crate::work::store::changes::max_cursor;
use crate::work::store::dependencies::dependencies_valid;
use crate::work::store::inputs::MAX_REFS;
use crate::work::store::inputs::check_refs;
use crate::work::store::inputs::claimed;
use crate::work::store::inputs::create_digest;
use crate::work::store::inputs::create_request_digest;
use crate::work::store::inputs::parent_shares;
use crate::work::store::inputs::payload;
use crate::work::store::inputs::resolved;
use crate::work::store::inputs::shared;
use crate::work::store::inputs::valid_refs;
use crate::work::store::inputs::validate_refs;
use crate::work::store::records::listed;
use crate::work::store::records::loaded;
use crate::work::store::records::put;
use crate::work::store::records::refuse;
use crate::work::store::records::refused;
use crate::work::store::requests::Request;
use crate::work::store::requests::RequestModel;
use crate::work::store::requests::replayed;
use crate::work::store::requests::saved;
use crate::work::store::rules::all_within;
use crate::work::store::rules::fresh_operation;
use crate::work::store::rules::is_policy;
use crate::work::store::rules::nestable;
use crate::work::store::rules::new_operation;
use crate::work::store::rules::revision;
use crate::work::store::rules::valid_policy;
use crate::work::store::rules::within;
use crate::work::store::tables::Body;
use crate::work::store::tables::BodyModel;
use crate::work::store::tables::DelegatedOrigin;
use crate::work::store::tables::DelegatedOriginModel;
use crate::work::store::tables::ReceiptBody;
use crate::work::store::tables::ReceiptBodyModel;
use crate::work::store::tables::RecordModel;
use crate::work::store::tables::RequestKind;
use crate::work::store::tables::StoreModel;
use crate::work::store::tables::WorkStore;
use crate::work::store::transaction::commits;
use crate::work::store::transaction::first_time;
use crate::work::store::transaction::once_more;
use crate::work::store::transaction::repeated;

verus! {

/// How many tasks are kept.
pub const MAX_TASKS: usize = 10000;

/// How many tasks there are.
pub open spec fn task_count(records: Seq<RecordModel>) -> nat
    decreases records.len(),
{
    if records.len() == 0 {
        0
    } else if records.last().body is Task {
        task_count(records.drop_last()) + 1
    } else {
        task_count(records.drop_last())
    }
}

/// Whether the words of a request to create a task are admissible.
pub open spec fn is_creatable(input: CreateTaskModel, refs: Seq<InputRefModel>) -> bool {
    &&& valid_refs(refs)
    &&& is_policy(input.policy)
    &&& is_absolute(input.repo_path)
    &&& is_bounded(input.repo_path, 4096)
    &&& is_bounded(input.title, 240)
    &&& is_bounded(input.brief, 65536)
}

fn creatable(input: &CreateTask, refs: &[InputRef]) -> (res: bool)
    ensures
        res == is_creatable(input.deep_view(), refs.deep_view()),
{
    check_refs(refs) && valid_policy(&input.policy) && absolute(input.repo_path.as_str())
        && bounded(input.repo_path.as_str(), 4096) && bounded(input.title.as_str(), 240) && bounded(
        input.brief.as_str(),
        65536,
    )
}

/// The digest of a request to create a child.
pub open spec fn delegated_create_digest(
    input: CreateTaskModel,
    refs: Seq<InputRefModel>,
    context: DelegatedCreateModel,
) -> Text {
    payload(
        Seq::empty()
            .push(CreateTask::json(input))
            .push(Vec::<InputRef>::json(refs))
            .push(DelegatedCreate::json(context)),
    )
}

/// The request that the creation of a task is filed under.
pub open spec fn create_request(
    actor: Text,
    session: Text,
    key: Text,
    input: CreateTaskModel,
    refs: Seq<InputRefModel>,
    context: Option<DelegatedCreateModel>,
) -> RequestModel {
    RequestModel {
        actor,
        session,
        key,
        kind: RequestKind::Work(OperationKind::CreateTask),
        digest: match context {
            Some(context) => delegated_create_digest(input, refs, context),
            None => create_digest(input, refs),
        },
    }
}

/// Whether a parent, where one is named, admits the task that is asked for: same repository, no
/// more workers, no other agents, and not nested too deep.
pub open spec fn parent_admits(s: StoreModel, session: Text, input: CreateTaskModel) -> WorkResult<
    (),
> {
    match input.parent_task_id {
        None => Ok(()),
        Some(id) => match loaded::<Task>(s, session, id) {
            Err(error) => Err(error),
            Ok(parent) => if parent.repo_path != input.repo_path || input.policy.max_workers
                > parent.policy.max_workers || !within(
                input.policy.allowed_agents,
                parent.policy.allowed_agents,
            ) {
                refused(FailureCode::ScopeMismatch)
            } else {
                nestable(s, session, parent.parent_task_id, 1)
            },
        },
    }
}

/// Whether the store has room for a task and its parent, or its coordinator, admits it.
pub open spec fn creation_admitted(
    s: StoreModel,
    session: Text,
    input: CreateTaskModel,
    context: Option<DelegatedCreateModel>,
) -> WorkResult<()> {
    let authorized = match context {
        Some(context) => may_create(s, session, input, context),
        None => Ok(()),
    };
    match authorized {
        Err(error) => Err(error),
        Ok(_) => if task_count(s.records) >= MAX_TASKS {
            refused(FailureCode::ResourceLimit)
        } else {
            parent_admits(s, session, input)
        },
    }
}

/// A task as it is before it is first recorded.
pub open spec fn fresh_task(
    id: Text,
    session: Text,
    input: CreateTaskModel,
    dependencies: Seq<TaskDependencyModel>,
    policy: DelegationPolicyModel,
    now: i64,
) -> TaskModel {
    TaskModel {
        delegation: DelegationStateModel {
            policy,
            coordinator_attempt_id: None,
            coordinator_epoch: 0,
        },
        dependencies,
        input_refs: Seq::empty(),
        id,
        session_id: session,
        repo_path: input.repo_path,
        title: input.title,
        brief: input.brief,
        parent_task_id: input.parent_task_id,
        revision: 0,
        created_at_ms: now,
        updated_at_ms: now,
        paused: false,
        policy: input.policy,
    }
}

/// The delegation policy that a child starts with: off, and one level less deep.
pub open spec fn inherited_policy(parent: DelegationPolicyModel) -> DelegationPolicyModel {
    DelegationPolicyModel {
        enabled: false,
        max_children: parent.max_children,
        max_depth: if parent.max_depth == 0 {
            0
        } else {
            (parent.max_depth - 1) as u32
        },
        dependency_requirement: parent.dependency_requirement,
    }
}

/// What becomes of a request to create a top-level task, or one below a parent without a
/// coordinator, that is not a repetition.
pub open spec fn task_opened(
    s: StoreModel,
    id: Text,
    request: RequestModel,
    input: CreateTaskModel,
    refs: Seq<InputRefModel>,
    now: i64,
) -> WorkResult<(StoreModel, MutationModel<TaskModel>)> {
    let task = fresh_task(id, request.session, input, Seq::empty(), no_delegation(), now);
    match resolved(s, request.actor, request.session, input.repo_path, None, refs, now) {
        Err(error) => Err(error),
        Ok(inputs) => match claimed(s, request.session, id, inputs) {
            Err(error) => Err(error),
            Ok(held) => match changed(
                held,
                TaskModel { input_refs: inputs, ..task },
                "task_created"@,
                id,
                now,
            ) {
                Err(error) => Err(error),
                Ok((next, created)) => Ok(
                    (saved(next, request, ReceiptBodyModel::Task(created)), first_time(created)),
                ),
            },
        },
    }
}

/// The store after the origin of a child was noted and its parent changed on its account.
pub open spec fn origin_noted(
    s: StoreModel,
    id: Text,
    origin_id: Text,
    actor: Text,
    session: Text,
    fence: DelegationFenceModel,
    now: i64,
) -> WorkResult<StoreModel> {
    match put(
        s,
        session,
        origin_id,
        id,
        BodyModel::DelegatedOrigin(DelegatedOriginModel { actor_id: actor, fence }),
    ) {
        Err(error) => Err(error),
        Ok(noted) => match loaded::<Task>(noted, session, fence.coordinator_task_id) {
            Err(error) => Err(error),
            Ok(parent) => match changed(noted, parent, "child_created"@, id, now) {
                Err(error) => Err(error),
                Ok((next, _)) => Ok(next),
            },
        },
    }
}

/// What becomes of a coordinator's request to create a child that is not a repetition.
pub open spec fn child_opened(
    s: StoreModel,
    id: Text,
    origin_id: Text,
    share_ids: Seq<Text>,
    request: RequestModel,
    input: CreateTaskModel,
    refs: Seq<InputRefModel>,
    context: DelegatedCreateModel,
    now: i64,
) -> WorkResult<(StoreModel, MutationModel<TaskModel>)> {
    match loaded::<Task>(s, request.session, context.fence.coordinator_task_id) {
        Err(error) => Err(error),
        Ok(parent) => {
            let task = fresh_task(
                id,
                request.session,
                input,
                context.dependencies,
                inherited_policy(parent.delegation.policy),
                now,
            );
            match dependencies_valid(s, request.session, task, context.dependencies) {
                Err(error) => Err(error),
                Ok(_) => match parent_shares(
                    s,
                    request.actor,
                    request.session,
                    parent,
                    refs,
                    now,
                ) {
                    Err(error) => Err(error),
                    Ok(inputs) => match shared(
                        s,
                        request.session,
                        parent,
                        id,
                        context.fence,
                        inputs,
                        share_ids,
                        now,
                    ) {
                        Err(error) => Err(error),
                        Ok(given) => match changed(
                            given,
                            TaskModel { input_refs: inputs, ..task },
                            "task_created"@,
                            id,
                            now,
                        ) {
                            Err(error) => Err(error),
                            Ok((made, created)) => match origin_noted(
                                made,
                                id,
                                origin_id,
                                request.actor,
                                request.session,
                                context.fence,
                                now,
                            ) {
                                Err(error) => Err(error),
                                Ok(next) => Ok(
                                    (
                                        saved(next, request, ReceiptBodyModel::Task(created)),
                                        first_time(created),
                                    ),
                                ),
                            },
                        },
                    },
                },
            }
        },
    }
}

/// What becomes of a request to create a task, where the new task is given the identifier
/// `id`, the note of its origin `origin_id`, and its shares `share_ids`.
pub open spec fn create_outcome(
    s: StoreModel,
    id: Text,
    origin_id: Text,
    share_ids: Seq<Text>,
    actor: Text,
    session: Text,
    key: Text,
    input: CreateTaskModel,
    refs: Seq<InputRefModel>,
    context: Option<DelegatedCreateModel>,
    now: i64,
) -> WorkResult<(StoreModel, MutationModel<TaskModel>)> {
    if !is_creatable(input, refs) {
        refused(FailureCode::InvalidInput)
    } else {
        let request = create_request(actor, session, key, input, refs, context);
        match replayed::<Task>(s, request) {
            Err(error) => Err(error),
            Ok(Some(task)) => Ok((s, once_more(task))),
            Ok(None) => match creation_admitted(s, session, input, context) {
                Err(error) => Err(error),
                Ok(_) => match context {
                    None => task_opened(s, id, request, input, refs, now),
                    Some(context) => child_opened(
                        s,
                        id,
                        origin_id,
                        share_ids,
                        request,
                        input,
                        refs,
                        context,
                        now,
                    ),
                },
            },
        }
    }
}

/// A task was created, or refused, under some identifiers.
pub open spec fn creation_commits(
    before: StoreModel,
    later: StoreModel,
    actor: Text,
    session: Text,
    key: Text,
    input: CreateTaskModel,
    refs: Seq<InputRefModel>,
    context: Option<DelegatedCreateModel>,
    now: i64,
    res: WorkResult<MutationModel<TaskModel>>,
) -> bool {
    exists|id: Text, origin_id: Text, share_ids: Seq<Text>|
        is_uuid(id) && is_uuid(origin_id) && share_ids.len() >= MAX_REFS && (forall|i: int|
            0 <= i < share_ids.len() ==> is_uuid(#[trigger] share_ids[i])) && commits(
            before,
            later,
            #[trigger] create_outcome(
                before,
                id,
                origin_id,
                share_ids,
                actor,
                session,
                key,
                input,
                refs,
                context,
                now,
            ),
            res,
        )
}

/// The request that pausing a task is filed under.
pub open spec fn pause_request(
    actor: Text,
    session: Text,
    task_id: Text,
    key: Text,
    expected_revision: u64,
    input: PauseInputModel,
) -> RequestModel {
    RequestModel {
        actor,
        session,
        key,
        kind: RequestKind::Work(OperationKind::PauseTask),
        digest: payload(
            Seq::empty()
                .push(json_string(task_id))
                .push(u64::json(expected_revision))
                .push(PauseInput::json(input)),
        ),
    }
}

/// What becomes of a request to pause a task or to let it go on, where the operation that
/// records it is given the identifier `id`.
pub open spec fn pause_outcome(
    s: StoreModel,
    id: Text,
    actor: Text,
    session: Text,
    task_id: Text,
    key: Text,
    expected_revision: u64,
    input: PauseInputModel,
    now: i64,
) -> WorkResult<(StoreModel, MutationModel<TaskModel>)> {
    let request = pause_request(actor, session, task_id, key, expected_revision, input);
    match replayed::<Task>(s, request) {
        Err(error) => Err(error),
        Ok(Some(task)) => Ok((s, once_more(task))),
        Ok(None) => match loaded::<Task>(s, session, task_id) {
            Err(error) => Err(error),
            Ok(task) => if task.revision != expected_revision {
                refused(FailureCode::RevisionConflict)
            } else {
                let op = OperationModel {
                    state: OperationState::Acknowledged,
                    ..fresh_operation(id, task_id, None, OperationKind::PauseTask, now)
                };
                match put(s, session, id, task_id, BodyModel::Operation(op)) {
                    Err(error) => Err(error),
                    Ok(filed) => match changed(
                        filed,
                        TaskModel { paused: input.paused, ..task },
                        "delegation_policy_changed"@,
                        id,
                        now,
                    ) {
                        Err(error) => Err(error),
                        Ok((next, value)) => Ok(
                            (
                                saved(next, request, ReceiptBodyModel::Task(value)),
                                first_time(value),
                            ),
                        ),
                    },
                }
            },
        },
    }
}

/// A task with everything recorded under it.
pub open spec fn detail_of(s: StoreModel, session: Text, task_id: Text) -> WorkResult<
    TaskDetailModel,
> {
    match loaded::<Task>(s, session, task_id) {
        Err(error) => Err(error),
        Ok(task) => Ok(
            TaskDetailModel {
                task,
                attempts: listed::<Attempt>(s.records, session, task_id),
                operations: listed::<Operation>(s.records, session, task_id),
                results: listed::<ResultSubmission>(s.records, session, task_id),
                reviews: listed::<Review>(s.records, session, task_id),
                cursor: max_cursor(s.changes),
            },
        ),
    }
}

impl WorkStore {
    fn too_many_tasks(&self) -> (res: bool)
        ensures
            res == (task_count(self@.records) >= MAX_TASKS),
    {
        let ghost all = self@.records;
        let mut count: usize = 0;
        let mut i: usize = 0;
        while i < self.records.len()
            invariant
                i <= self.records.len(),
                count <= i,
                all == self@.records,
                count == task_count(all.take(i as int)),
            decreases self.records.len() - i,
        {
            assert(all.take(i + 1).drop_last() =~= all.take(i as int));
            match &self.records[i].body {
                Body::Task(_) => {
                    count += 1;
                },
                _ => {},
            }
            i += 1;
        }
        assert(all.take(i as int) =~= all);
        count >= MAX_TASKS
    }

    fn admit_creation(
        &self,
        session: &str,
        input: &CreateTask,
        context: &Option<DelegatedCreate>,
    ) -> (res: WorkResult<()>)
        ensures
            res == creation_admitted(self@, session@, input.deep_view(), context.deep_view()),
    {
        match context {
            Some(context) => {
                self.authorize_create(session, input, context)?;
            },
            None => {},
        }
        if self.too_many_tasks() {
            return refuse(FailureCode::ResourceLimit);
        }
        match &input.parent_task_id {
            None => Ok(()),
            Some(id) => {
                let parent = self.load::<Task>(session, id.as_str())?;
                if !parent.repo_path.same(&input.repo_path) || input.policy.max_workers
                    > parent.policy.max_workers || !all_within(
                    &input.policy.allowed_agents,
                    &parent.policy.allowed_agents,
                ) {
                    return refuse(FailureCode::ScopeMismatch);
                }
                self.nesting_allowed(session, &parent.parent_task_id)
            },
        }
    }

    fn open_task(
        &mut self,
        id: &str,
        request: &Request<'_>,
        input: CreateTask,
        refs: &[InputRef],
        now: i64,
    ) -> (res: WorkResult<Mutation<Task>>)
        ensures
            commits(
                old(self)@,
                final(self)@,
                task_opened(
                    old(self)@,
                    id@,
                    request.deep_view(),
                    input.deep_view(),
                    refs.deep_view(),
                    now,
                ),
                shown(res),
            ),
    {
        let inputs = self.resolve(
            request.actor,
            request.session,
            input.repo_path.as_str(),
            None,
            refs,
            now,
        )?;
        let mut next = self.replica();
        next.claim(request.session, id, &inputs)?;
        let task = Task {
            delegation: DelegationState::default(),
            dependencies: no_items(),
            input_refs: inputs,
            id: id.to_string(),
            session_id: request.session.to_string(),
            repo_path: input.repo_path,
            title: input.title,
            brief: input.brief,
            parent_task_id: input.parent_task_id,
            revision: 0,
            created_at_ms: now,
            updated_at_ms: now,
            paused: false,
            policy: input.policy,
        };
        let created = next.change(task, "task_created", id, now)?;
        next.save(request, ReceiptBody::Task(created.replica()));
        *self = next;
        Ok(Mutation { value: created, replayed: false })
    }

    /// Notes the origin of a child. On failure the caller discards the store.
    fn note_origin(
        &mut self,
        id: &str,
        origin_id: &str,
        actor: &str,
        session: &str,
        fence: &DelegationFence,
        now: i64,
    ) -> (res: WorkResult<()>)
        ensures
            match origin_noted(
                old(self)@,
                id@,
                origin_id@,
                actor@,
                session@,
                fence.deep_view(),
                now,
            ) {
                Ok(next) => res is Ok && final(self)@ == next,
                Err(error) => res == Err::<(), WorkError>(error),
            },
    {
        let origin = DelegatedOrigin { actor_id: actor.to_string(), fence: fence.replica() };
        self.put(session, origin_id, id, Body::DelegatedOrigin(origin))?;
        let parent = self.load::<Task>(session, fence.coordinator_task_id.as_str())?;
        let _ = self.change(parent, "child_created", id, now)?;
        Ok(())
    }

    fn open_child(
        &mut self,
        id: &str,
        origin_id: &str,
        share_ids: &Vec<String>,
        request: &Request<'_>,
        input: CreateTask,
        refs: &[InputRef],
        context: &DelegatedCreate,
        now: i64,
    ) -> (res: WorkResult<Mutation<Task>>)
        requires
            share_ids.len() >= MAX_REFS,
        ensures
            commits(
                old(self)@,
                final(self)@,
                child_opened(
                    old(self)@,
                    id@,
                    origin_id@,
                    share_ids.deep_view(),
                    request.deep_view(),
                    input.deep_view(),
                    refs.deep_view(),
                    context.deep_view(),
                    now,
                ),
                shown(res),
            ),
    {
        let session = request.session;
        let parent = self.load::<Task>(session, context.fence.coordinator_task_id.as_str())?;
        let policy = DelegationPolicy {
            enabled: false,
            max_children: parent.delegation.policy.max_children,
            max_depth: if parent.delegation.policy.max_depth == 0 {
                0
            } else {
                parent.delegation.policy.max_depth - 1
            },
            dependency_requirement: parent.delegation.policy.dependency_requirement,
        };
        let mut task = Task {
            delegation: DelegationState {
                policy,
                coordinator_attempt_id: None,
                coordinator_epoch: 0,
            },
            dependencies: context.dependencies.replica(),
            input_refs: no_items(),
            id: id.to_string(),
            session_id: session.to_string(),
            repo_path: input.repo_path,
            title: input.title,
            brief: input.brief,
            parent_task_id: input.parent_task_id,
            revision: 0,
            created_at_ms: now,
            updated_at_ms: now,
            paused: false,
            policy: input.policy,
        };
        self.validate_dependencies(session, &task, context.dependencies.as_slice())?;
        let inputs = self.resolve_parent_shares(request.actor, session, &parent, refs, now)?;
        let mut next = self.replica();
        next.insert_shares(session, &parent, id, &context.fence, &inputs, share_ids, now)?;
        task.input_refs = inputs;
        let created = next.change(task, "task_created", id, now)?;
        next.note_origin(id, origin_id, request.actor, session, &context.fence, now)?;
        next.save(request, ReceiptBody::Task(created.replica()));
        *self = next;
        Ok(Mutation { value: created, replayed: false })
    }

    /// Carries out a request to create a task under the identifiers given.
    pub fn create_task_as(
        &mut self,
        id: &str,
        origin_id: &str,
        share_ids: &Vec<String>,
        actor: &str,
        session: &str,
        key: &str,
        input: CreateTask,
        refs: &[InputRef],
        context: Option<DelegatedCreate>,
        now: i64,
    ) -> (res: WorkResult<Mutation<Task>>)
        requires
            share_ids.len() >= MAX_REFS,
        ensures
            commits(
                old(self)@,
                final(self)@,
                create_outcome(
                    old(self)@,
                    id@,
                    origin_id@,
                    share_ids.deep_view(),
                    actor@,
                    session@,
                    key@,
                    input.deep_view(),
                    refs.deep_view(),
                    context.deep_view(),
                    now,
                ),
                shown(res),
            ),
    {
        if !creatable(&input, refs) {
            return refuse(FailureCode::InvalidInput);
        }
        let digest = match &context {
            Some(context) => digest_text(&(&input, refs, context)),
            None => create_request_digest(&input, refs),
        };
        let request = Request {
            actor,
            session,
            key,
            kind: RequestKind::Work(OperationKind::CreateTask),
            digest,
        };
        match self.replay::<Task>(&request)? {
            Some(value) => {
                return Ok(Mutation { value, replayed: true });
            },
            None => {},
        }
        self.admit_creation(session, &input, &context)?;
        match &context {
            None => self.open_task(id, &request, input, refs, now),
            Some(context) => self.open_child(
                id,
                origin_id,
                share_ids,
                &request,
                input,
                refs,
                context,
                now,
            ),
        }
    }

    fn create_task_inner(
        &mut self,
        actor: &str,
        session: &str,
        key: &str,
        input: CreateTask,
        refs: &[InputRef],
        context: Option<DelegatedCreate>,
        now: i64,
    ) -> (res: WorkResult<Mutation<Task>>)
        ensures
            creation_commits(
                old(self)@,
                final(self)@,
                actor@,
                session@,
                key@,
                input.deep_view(),
                refs.deep_view(),
                context.deep_view(),
                now,
                shown(res),
            ),
    {
        let id = new_id();
        let origin_id = new_id();
        let share_ids = new_ids(MAX_REFS);
        proof {
            assert forall|i: int| 0 <= i < share_ids.deep_view().len() implies is_uuid(
                #[trigger] share_ids.deep_view()[i],
            ) by {
                assert(is_uuid(share_ids@[i]@));
            }
        }
        self.create_task_as(
            id.as_str(),
            origin_id.as_str(),
            &share_ids,
            actor,
            session,
            key,
            input,
            refs,
            context,
            now,
        )
    }

    /// Creates a task.
    pub fn create_task(
        &mut self,
        actor: &str,
        session: &str,
        key: &str,
        input: CreateTask,
        now: i64,
    ) -> (res: WorkResult<Mutation<Task>>)
        ensures
            creation_commits(
                old(self)@,
                final(self)@,
                actor@,
                session@,
                key@,
                input.deep_view(),
                Seq::empty(),
                None,
                now,
                shown(res),
            ),
    {
        let refs: Vec<InputRef> = no_items();
        let none = refs.as_slice();
        assert(none.deep_view() =~= Seq::<InputRefModel>::empty());
        self.create_task_inner(actor, session, key, input, none, None, now)
    }

    /// Creates a task that claims uploads.
    pub fn create_task_with_inputs(
        &mut self,
        actor: &str,
        session: &str,
        key: &str,
        input: CreateTask,
        input_refs: Vec<InputRef>,
        now: i64,
    ) -> (res: WorkResult<Mutation<Task>>)
        ensures
            creation_commits(
                old(self)@,
                final(self)@,
                actor@,
                session@,
                key@,
                input.deep_view(),
                input_refs.deep_view(),
                None,
                now,
                shown(res),
            ),
    {
        self.create_task_inner(actor, session, key, input, input_refs.as_slice(), None, now)
    }

    /// Creates a child on behalf of a coordinator.
    pub fn create_delegated_task(
        &mut self,
        actor: &str,
        session: &str,
        key: &str,
        fence: &DelegationFence,
        expected_parent_revision: u64,
        input: CreateTask,
        dependencies: Vec<TaskDependency>,
        now: i64,
    ) -> (res: WorkResult<Mutation<Task>>)
        ensures
            creation_commits(
                old(self)@,
                final(self)@,
                actor@,
                session@,
                key@,
                input.deep_view(),
                Seq::empty(),
                Some(
                    (DelegatedCreateModel {
                        fence: fence.deep_view(),
                        expected_parent_revision,
                        dependencies: dependencies.deep_view(),
                    }),
                ),
                now,
                shown(res),
            ),
    {
        let refs: Vec<InputRef> = no_items();
        let none = refs.as_slice();
        assert(none.deep_view() =~= Seq::<InputRefModel>::empty());
        let context = DelegatedCreate {
            fence: fence.replica(),
            expected_parent_revision,
            dependencies,
        };
        self.create_task_inner(actor, session, key, input, none, Some(context), now)
    }

    /// Creates a child that uses uploads of its parent. The claims stay with the parent; the
    /// child is given shares.
    pub fn create_delegated_task_with_inputs(
        &mut self,
        actor: &str,
        session: &str,
        key: &str,
        fence: &DelegationFence,
        expected_parent_revision: u64,
        input: CreateTask,
        dependencies: Vec<TaskDependency>,
        input_refs: Vec<InputRef>,
        now: i64,
    ) -> (res: WorkResult<Mutation<Task>>)
        ensures
            creation_commits(
                old(self)@,
                final(self)@,
                actor@,
                session@,
                key@,
                input.deep_view(),
                input_refs.deep_view(),
                Some(
                    (DelegatedCreateModel {
                        fence: fence.deep_view(),
                        expected_parent_revision,
                        dependencies: dependencies.deep_view(),
                    }),
                ),
                now,
                shown(res),
            ),
    {
        let context = DelegatedCreate {
            fence: fence.replica(),
            expected_parent_revision,
            dependencies,
        };
        self.create_task_inner(
            actor,
            session,
            key,
            input,
            input_refs.as_slice(),
            Some(context),
            now,
        )
    }

    /// Answers a request to create a task that was carried out before.
    pub fn replay_create_with_inputs(
        &self,
        actor: &str,
        session: &str,
        key: &str,
        input: &CreateTask,
        refs: &[InputRef],
    ) -> (res: WorkResult<Option<Mutation<Task>>>)
        ensures
            shown(res) == (if !valid_refs(refs.deep_view()) {
                refused(FailureCode::InvalidInput)
            } else {
                repeated(
                    replayed::<Task>(
                        self@,
                        create_request(
                            actor@,
                            session@,
                            key@,
                            input.deep_view(),
                            refs.deep_view(),
                            None,
                        ),
                    ),
                )
            }),
    {
        validate_refs(refs)?;
        let request = Request {
            actor,
            session,
            key,
            kind: RequestKind::Work(OperationKind::CreateTask),
            digest: create_request_digest(input, refs),
        };
        match self.replay::<Task>(&request)? {
            Some(value) => Ok(Some(Mutation { value, replayed: true })),
            None => Ok(None),
        }
    }

    /// Carries out a request to pause a task or to let it go on.
    pub fn set_paused_as(
        &mut self,
        id: &str,
        actor: &str,
        session: &str,
        task_id: &str,
        key: &str,
        expected_revision: u64,
        input: PauseInput,
        now: i64,
    ) -> (res: WorkResult<Mutation<Task>>)
        ensures
            commits(
                old(self)@,
                final(self)@,
                pause_outcome(
                    old(self)@,
                    id@,
                    actor@,
                    session@,
                    task_id@,
                    key@,
                    expected_revision,
                    input.deep_view(),
                    now,
                ),
                shown(res),
            ),
    {
        let request = Request {
            actor,
            session,
            key,
            kind: RequestKind::Work(OperationKind::PauseTask),
            digest: digest_text(&(task_id, expected_revision, &input)),
        };
        match self.replay::<Task>(&request)? {
            Some(value) => {
                return Ok(Mutation { value, replayed: true });
            },
            None => {},
        }
        let mut task = self.load::<Task>(session, task_id)?;
        revision(&task, expected_revision)?;
        task.paused = input.paused;
        let mut op = new_operation(id, task_id, None, OperationKind::PauseTask, now);
        op.state = OperationState::Acknowledged;
        let mut next = self.replica();
        next.put(session, id, task_id, Body::Operation(op))?;
        let value = next.change(task, "delegation_policy_changed", id, now)?;
        next.save(&request, ReceiptBody::Task(value.replica()));
        *self = next;
        Ok(Mutation { value, replayed: false })
    }

    /// Pauses a task or lets it go on. Only launches are fenced: nothing is sent to a process.
    pub fn set_paused(
        &mut self,
        actor: &str,
        session: &str,
        task_id: &str,
        key: &str,
        expected_revision: u64,
        input: PauseInput,
        now: i64,
    ) -> (res: WorkResult<Mutation<Task>>)
        ensures
            exists|id: Text|
                is_uuid(id) && commits(
                    old(self)@,
                    final(self)@,
                    #[trigger] pause_outcome(
                        old(self)@,
                        id,
                        actor@,
                        session@,
                        task_id@,
                        key@,
                        expected_revision,
                        input.deep_view(),
                        now,
                    ),
                    shown(res),
                ),
    {
        let id = new_id();
        self.set_paused_as(
            id.as_str(),
            actor,
            session,
            task_id,
            key,
            expected_revision,
            input,
            now,
        )
    }

    /// Reads a task with everything recorded under it.
    pub fn detail(&self, session: &str, task_id: &str) -> (res: WorkResult<TaskDetail>)
        ensures
            shown(res) == detail_of(self@, session@, task_id@),
    {
        let task = self.load::<Task>(session, task_id)?;
        Ok(
            TaskDetail {
                task,
                attempts: self.records::<Attempt>(session, task_id),
                operations: self.records::<Operation>(session, task_id),
                results: self.records::<ResultSubmission>(session, task_id),
                reviews: self.records::<Review>(session, task_id),
                cursor: self.cursor(),
            },
        )
    }

    /// Reads an operation.
    pub fn get_operation(&self, session: &str, operation_id: &str) -> (res: WorkResult<Operation>)
        ensures
            shown(res) == loaded::<Operation>(self@, session@, operation_id@),
    {
        self.load::<Operation>(session, operation_id)
    }
}

} // verus!
