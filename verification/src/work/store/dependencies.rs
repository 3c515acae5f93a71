//! Dependencies between sibling tasks.
use vstd::prelude::*;
use crate::text::text_eq;
use crate::value::Same;
use crate::value::Text;
use crate::value::add_row;
use crate::value::no_items;
use crate::value::pop_row;
use crate::value::shown;
use crate::work::model::DependencyReadiness;
use crate::work::model::DependencyRequirement;
use crate::work::model::DependencySnapshot;
use crate::work::model::DependencySnapshotModel;
use crate::work::model::FailureCode;
use crate::work::model::ResultSubmission;
use crate::work::model::Review;
use crate::work::model::ReviewDecision;
use crate::work::model::ReviewModel;
use crate::work::model::Task;
use crate::work::model::TaskDependency;
use crate::work::model::TaskDependencyModel;
use crate::work::model::TaskModel;
use crate::work::model::WorkError;
use crate::work::model::WorkResult;
use crate::work::store::freshness::tasks_stand;
use crate::work::store::history::filed_as_said;
use crate::work::store::history::well_formed;
use crate::work::store::readings::reads_give_what_is_recorded;
use crate::work::store::records::listed;
use crate::work::store::records::loaded;
use crate::work::store::records::position;
use crate::work::store::records::position_in_range;
use crate::work::store::records::refuse;
use crate::work::store::records::refused;
use crate::work::store::rules::has_name;
use crate::work::store::rules::names;
use crate::work::store::summaries::last_review;
use crate::work::store::summaries::review_of;
use crate::work::store::tables::StoreModel;
use crate::work::store::tables::WorkStore;

verus! {

/// How many prerequisites a task may have.
pub const MAX_DEPENDENCIES: usize = 16;

/// How far the walk through prerequisites may go.
pub const MAX_WALK_DEPTH: usize = 16;

/// How many tasks the walk through prerequisites may meet.
pub const MAX_WALK_TASKS: usize = 1024;

/// The prerequisites that some edges lead to, each with its distance.
pub open spec fn followed(
    s: StoreModel,
    session: Text,
    edges: Seq<TaskDependencyModel>,
    depth: usize,
) -> WorkResult<Seq<(TaskModel, usize)>>
    decreases edges.len(),
{
    if edges.len() == 0 {
        Ok(Seq::empty())
    } else {
        match followed(s, session, edges.drop_last(), depth) {
            Err(error) => Err(error),
            Ok(before) => match loaded::<Task>(s, session, edges.last().prerequisite_task_id) {
                Err(error) => Err(error),
                Ok(task) => Ok(before.push((task, depth))),
            },
        }
    }
}

/// Walks through prerequisites, the last one met first, and refuses to meet a given task.
pub open spec fn walked(
    s: StoreModel,
    session: Text,
    target: Text,
    pending: Seq<(TaskModel, usize)>,
    visited: Seq<Text>,
) -> WorkResult<()>
    decreases MAX_WALK_TASKS + 2 - visited.len(), pending.len(),
{
    if pending.len() == 0 {
        Ok(())
    } else {
        let (node, depth) = pending.last();
        if node.id == target {
            refused(FailureCode::InvalidInput)
        } else if depth > MAX_WALK_DEPTH || visited.len() > MAX_WALK_TASKS {
            refused(FailureCode::ResourceLimit)
        } else if names(visited, node.id) {
            walked(s, session, target, pending.drop_last(), visited)
        } else {
            match followed(s, session, node.dependencies, (depth + 1) as usize) {
                Err(error) => Err(error),
                Ok(next) => walked(
                    s,
                    session,
                    target,
                    pending.drop_last() + next,
                    visited.push(node.id),
                ),
            }
        }
    }
}

/// Whether a task may have one more prerequisite after the ones that it has.
pub open spec fn dependency_valid(
    s: StoreModel,
    session: Text,
    task: TaskModel,
    earlier: Seq<TaskDependencyModel>,
    dependency: TaskDependencyModel,
) -> WorkResult<()> {
    let id = dependency.prerequisite_task_id;
    if (exists|i: int|
        0 <= i < earlier.len() && #[trigger] earlier[i].prerequisite_task_id == id) || id
        == task.id {
        refused(FailureCode::InvalidInput)
    } else {
        match loaded::<Task>(s, session, id) {
            Err(error) => Err(error),
            Ok(prerequisite) => if prerequisite.repo_path != task.repo_path
                || prerequisite.parent_task_id != task.parent_task_id {
                refused(FailureCode::ScopeMismatch)
            } else {
                match submitted_by(s, session, prerequisite.id, dependency.submission_id) {
                    Err(error) => Err(error),
                    Ok(_) => walked(
                        s,
                        session,
                        task.id,
                        Seq::empty().push((prerequisite, 1usize)),
                        Seq::empty(),
                    ),
                }
            },
        }
    }
}

/// Whether a submission, where one is named, was made by a task.
pub open spec fn submitted_by(
    s: StoreModel,
    session: Text,
    task: Text,
    submission: Option<Text>,
) -> WorkResult<()> {
    match submission {
        None => Ok(()),
        Some(id) => match loaded::<ResultSubmission>(s, session, id) {
            Err(error) => Err(error),
            Ok(result) => if result.task_id != task {
                refused(FailureCode::ScopeMismatch)
            } else {
                Ok(())
            },
        },
    }
}

/// Whether a task may have these prerequisites, looked at in order.
pub open spec fn each_valid(
    s: StoreModel,
    session: Text,
    task: TaskModel,
    dependencies: Seq<TaskDependencyModel>,
) -> WorkResult<()>
    decreases dependencies.len(),
{
    if dependencies.len() == 0 {
        Ok(())
    } else {
        let earlier = dependencies.drop_last();
        match each_valid(s, session, task, earlier) {
            Err(error) => Err(error),
            Ok(_) => dependency_valid(s, session, task, earlier, dependencies.last()),
        }
    }
}

/// Whether a task may have these prerequisites: siblings on the same repository, each named
/// once, none of which leads back to the task.
pub open spec fn dependencies_valid(
    s: StoreModel,
    session: Text,
    task: TaskModel,
    dependencies: Seq<TaskDependencyModel>,
) -> WorkResult<()> {
    if dependencies.len() > MAX_DEPENDENCIES {
        refused(FailureCode::ResourceLimit)
    } else if dependencies.len() == 0 {
        Ok(())
    } else if task.parent_task_id is None {
        refused(FailureCode::ScopeMismatch)
    } else {
        each_valid(s, session, task, dependencies)
    }
}

/// Whether one prerequisite is met, and under which submission and review.
pub open spec fn met(
    s: StoreModel,
    session: Text,
    requirement: DependencyRequirement,
    dependency: TaskDependencyModel,
) -> WorkResult<(DependencyReadiness, Option<DependencySnapshotModel>)> {
    match dependency.submission_id {
        None => Ok((DependencyReadiness::WaitingForResult, None)),
        Some(submission) => match loaded::<ResultSubmission>(s, session, submission) {
            Err(error) => Err(error),
            Ok(result) => if result.task_id != dependency.prerequisite_task_id {
                refused(FailureCode::ScopeMismatch)
            } else if requirement == DependencyRequirement::HumanAccepted {
                match last_review(
                    listed::<Review>(s.records, session, result.task_id),
                    submission,
                ) {
                    Some(review) => if review.review.decision == ReviewDecision::Accepted {
                        Ok(
                            (
                                DependencyReadiness::Ready,
                                Some(
                                    DependencySnapshotModel {
                                        prerequisite_task_id: dependency.prerequisite_task_id,
                                        submission_id: submission,
                                        review_id: Some(review.id),
                                    },
                                ),
                            ),
                        )
                    } else {
                        Ok((DependencyReadiness::WaitingForAcceptance, None))
                    },
                    None => Ok((DependencyReadiness::WaitingForAcceptance, None)),
                }
            } else {
                Ok(
                    (
                        DependencyReadiness::Ready,
                        Some(
                            DependencySnapshotModel {
                                prerequisite_task_id: dependency.prerequisite_task_id,
                                submission_id: submission,
                                review_id: None,
                            },
                        ),
                    ),
                )
            },
        },
    }
}

/// Whether some prerequisites are met, in order; the first that is not decides.
pub open spec fn all_met(
    s: StoreModel,
    session: Text,
    requirement: DependencyRequirement,
    dependencies: Seq<TaskDependencyModel>,
) -> WorkResult<(DependencyReadiness, Seq<DependencySnapshotModel>)>
    decreases dependencies.len(),
{
    if dependencies.len() == 0 {
        Ok((DependencyReadiness::Ready, Seq::empty()))
    } else {
        match all_met(s, session, requirement, dependencies.drop_last()) {
            Err(error) => Err(error),
            Ok((readiness, before)) => if readiness != DependencyReadiness::Ready {
                Ok((readiness, before))
            } else {
                match met(s, session, requirement, dependencies.last()) {
                    Err(error) => Err(error),
                    Ok((DependencyReadiness::Ready, Some(snapshot))) => Ok(
                        (DependencyReadiness::Ready, before.push(snapshot)),
                    ),
                    Ok((readiness, _)) => Ok((readiness, Seq::empty())),
                }
            },
        }
    }
}

/// Whether a task's prerequisites are met, and under which submissions and reviews.
pub open spec fn inspected(s: StoreModel, session: Text, task: TaskModel) -> WorkResult<
    (DependencyReadiness, Seq<DependencySnapshotModel>),
> {
    if task.dependencies.len() == 0 {
        Ok((DependencyReadiness::Ready, Seq::empty()))
    } else {
        match dependencies_valid(s, session, task, task.dependencies) {
            Err(error) => Err(error),
            Ok(_) => match task.parent_task_id {
                None => refused(FailureCode::InvalidInput),
                Some(id) => match loaded::<Task>(s, session, id) {
                    Err(error) => Err(error),
                    Ok(parent) => all_met(
                        s,
                        session,
                        parent.delegation.policy.dependency_requirement,
                        task.dependencies,
                    ),
                },
            },
        }
    }
}

/// The submissions and reviews under which a task may start.
pub open spec fn snapshot_of(s: StoreModel, session: Text, task: TaskModel) -> WorkResult<
    Seq<DependencySnapshotModel>,
> {
    match inspected(s, session, task) {
        Err(error) => Err(error),
        Ok((readiness, snapshot)) => if readiness != DependencyReadiness::Ready {
            refused(FailureCode::NotReady)
        } else {
            Ok(snapshot)
        },
    }
}

proof fn unfollowed_stays(
    s: StoreModel,
    session: Text,
    edges: Seq<TaskDependencyModel>,
    depth: usize,
    n: int,
)
    requires
        0 <= n <= edges.len(),
        followed(s, session, edges.take(n), depth) is Err,
    ensures
        followed(s, session, edges, depth) == followed(s, session, edges.take(n), depth),
    decreases edges.len() - n,
{
    if n == edges.len() {
        assert(edges.take(n) =~= edges);
    } else {
        assert(edges.take(n + 1).drop_last() =~= edges.take(n));
        unfollowed_stays(s, session, edges, depth, n + 1);
    }
}

proof fn invalid_stays(
    s: StoreModel,
    session: Text,
    task: TaskModel,
    dependencies: Seq<TaskDependencyModel>,
    n: int,
)
    requires
        0 <= n <= dependencies.len(),
        each_valid(s, session, task, dependencies.take(n)) is Err,
    ensures
        each_valid(s, session, task, dependencies) == each_valid(
            s,
            session,
            task,
            dependencies.take(n),
        ),
    decreases dependencies.len() - n,
{
    if n == dependencies.len() {
        assert(dependencies.take(n) =~= dependencies);
    } else {
        assert(dependencies.take(n + 1).drop_last() =~= dependencies.take(n));
        invalid_stays(s, session, task, dependencies, n + 1);
    }
}

/// Once one prerequisite is not met, or cannot be looked at, that decides.
proof fn unmet_stays(
    s: StoreModel,
    session: Text,
    requirement: DependencyRequirement,
    dependencies: Seq<TaskDependencyModel>,
    n: int,
)
    requires
        0 <= n <= dependencies.len(),
        all_met(s, session, requirement, dependencies.take(n)) is Err || all_met(
            s,
            session,
            requirement,
            dependencies.take(n),
        )->Ok_0.0 != DependencyReadiness::Ready,
    ensures
        all_met(s, session, requirement, dependencies) == all_met(
            s,
            session,
            requirement,
            dependencies.take(n),
        ),
    decreases dependencies.len() - n,
{
    if n == dependencies.len() {
        assert(dependencies.take(n) =~= dependencies);
    } else {
        assert(dependencies.take(n + 1).drop_last() =~= dependencies.take(n));
        unmet_stays(s, session, requirement, dependencies, n + 1);
    }
}

impl WorkStore {
    /// Puts the prerequisites that some edges lead to on the stack.
    fn follow(
        &self,
        session: &str,
        edges: &Vec<TaskDependency>,
        depth: usize,
        pending: &mut Vec<(Task, usize)>,
    ) -> (res: WorkResult<()>)
        ensures
            match followed(self@, session@, edges.deep_view(), depth) {
                Ok(next) => res is Ok && final(pending).deep_view() == old(pending).deep_view()
                    + next,
                Err(error) => res == Err::<(), WorkError>(error),
            },
    {
        let ghost all = edges.deep_view();
        let ghost first = pending.deep_view();
        let mut i: usize = 0;
        assert(first + Seq::<(TaskModel, usize)>::empty() =~= first);
        while i < edges.len()
            invariant
                i <= edges.len(),
                all == edges.deep_view(),
                first == old(pending).deep_view(),
                followed(self@, session@, all.take(i as int), depth) is Ok,
                pending.deep_view() == first + followed(
                    self@,
                    session@,
                    all.take(i as int),
                    depth,
                )->Ok_0,
            decreases edges.len() - i,
        {
            assert(all.take(i + 1).drop_last() =~= all.take(i as int));
            proof {
                if followed(self@, session@, all.take(i + 1), depth) is Err {
                    unfollowed_stays(self@, session@, all, depth, i + 1);
                }
            }
            let task = self.load::<Task>(session, edges[i].prerequisite_task_id.as_str())?;
            let ghost before = followed(self@, session@, all.take(i as int), depth)->Ok_0;
            let ghost model = task.deep_view();
            add_row(pending, (task, depth));
            assert(pending.deep_view() =~= first + before.push((model, depth)));
            i += 1;
        }
        assert(all.take(i as int) =~= all);
        Ok(())
    }

    /// Walks through prerequisites and refuses to meet a given task.
    fn walk(&self, session: &str, target: &str, from: Task) -> (res: WorkResult<()>)
        ensures
            res == walked(
                self@,
                session@,
                target@,
                Seq::empty().push((from.deep_view(), 1usize)),
                Seq::empty(),
            ),
    {
        let ghost start = Seq::empty().push((from.deep_view(), 1usize));
        let mut pending: Vec<(Task, usize)> = no_items();
        add_row(&mut pending, (from, 1));
        let mut visited: Vec<String> = no_items();
        loop
            invariant
                visited.len() <= MAX_WALK_TASKS + 1,
                start == Seq::empty().push((from.deep_view(), 1usize)),
                walked(self@, session@, target@, start, Seq::empty()) == walked(
                    self@,
                    session@,
                    target@,
                    pending.deep_view(),
                    visited.deep_view(),
                ),
            decreases MAX_WALK_TASKS + 2 - visited.len(), pending.len(),
        {
            match pop_row(&mut pending) {
                None => {
                    return Ok(());
                },
                Some((node, depth)) => {
                    if text_eq(node.id.as_str(), target) {
                        return refuse(FailureCode::InvalidInput);
                    }
                    if depth > MAX_WALK_DEPTH || visited.len() > MAX_WALK_TASKS {
                        return refuse(FailureCode::ResourceLimit);
                    }
                    if !has_name(&visited, node.id.as_str()) {
                        self.follow(session, &node.dependencies, depth + 1, &mut pending)?;
                        add_row(&mut visited, node.id);
                    }
                },
            }
        }
    }

    fn check_submission(&self, session: &str, task: &str, submission: &Option<String>) -> (res:
        WorkResult<()>)
        ensures
            res == submitted_by(self@, session@, task@, submission.deep_view()),
    {
        match submission {
            None => Ok(()),
            Some(id) => {
                let result = self.load::<ResultSubmission>(session, id.as_str())?;
                if !text_eq(result.task_id.as_str(), task) {
                    return refuse(FailureCode::ScopeMismatch);
                }
                Ok(())
            },
        }
    }

    fn check_dependency(
        &self,
        session: &str,
        task: &Task,
        dependencies: &[TaskDependency],
        at: usize,
    ) -> (res: WorkResult<()>)
        requires
            at < dependencies.len(),
        ensures
            res == dependency_valid(
                self@,
                session@,
                task.deep_view(),
                dependencies.deep_view().take(at as int),
                dependencies.deep_view()[at as int],
            ),
    {
        let ghost earlier = dependencies.deep_view().take(at as int);
        let dependency = &dependencies[at];
        let id = dependency.prerequisite_task_id.as_str();
        let mut i: usize = 0;
        while i < at
            invariant
                i <= at,
                at < dependencies.len(),
                earlier == dependencies.deep_view().take(at as int),
                id@ == dependencies.deep_view()[at as int].prerequisite_task_id,
                forall|k: int| 0 <= k < i ==> #[trigger] earlier[k].prerequisite_task_id != id@,
            decreases at - i,
        {
            if text_eq(dependencies[i].prerequisite_task_id.as_str(), id) {
                assert(earlier[i as int].prerequisite_task_id == id@);
                return refuse(FailureCode::InvalidInput);
            }
            i += 1;
        }
        if text_eq(id, task.id.as_str()) {
            return refuse(FailureCode::InvalidInput);
        }
        let prerequisite = self.load::<Task>(session, id)?;
        if !prerequisite.repo_path.same(&task.repo_path) || !prerequisite.parent_task_id.same(
            &task.parent_task_id,
        ) {
            return refuse(FailureCode::ScopeMismatch);
        }
        self.check_submission(session, prerequisite.id.as_str(), &dependency.submission_id)?;
        self.walk(session, task.id.as_str(), prerequisite)
    }

    /// Whether a task may have these prerequisites.
    pub(crate) fn validate_dependencies(
        &self,
        session: &str,
        task: &Task,
        dependencies: &[TaskDependency],
    ) -> (res: WorkResult<()>)
        ensures
            res == dependencies_valid(
                self@,
                session@,
                task.deep_view(),
                dependencies.deep_view(),
            ),
    {
        if dependencies.len() > MAX_DEPENDENCIES {
            return refuse(FailureCode::ResourceLimit);
        }
        if dependencies.len() == 0 {
            return Ok(());
        }
        if task.parent_task_id.is_none() {
            return refuse(FailureCode::ScopeMismatch);
        }
        let ghost all = dependencies.deep_view();
        let mut i: usize = 0;
        while i < dependencies.len()
            invariant
                i <= dependencies.len(),
                0 < dependencies.len() <= MAX_DEPENDENCIES,
                task.deep_view().parent_task_id is Some,
                all == dependencies.deep_view(),
                each_valid(self@, session@, task.deep_view(), all.take(i as int)) == Ok::<
                    (),
                    WorkError,
                >(()),
            decreases dependencies.len() - i,
        {
            assert(all.take(i + 1).drop_last() =~= all.take(i as int));
            proof {
                if each_valid(self@, session@, task.deep_view(), all.take(i + 1)) is Err {
                    invalid_stays(self@, session@, task.deep_view(), all, i + 1);
                }
            }
            self.check_dependency(session, task, dependencies, i)?;
            i += 1;
        }
        assert(all.take(i as int) =~= all);
        Ok(())
    }

    fn meet(
        &self,
        session: &str,
        requirement: DependencyRequirement,
        dependency: &TaskDependency,
    ) -> (
    res: WorkResult<(DependencyReadiness, Option<DependencySnapshot>)>)
        ensures
            shown(res) == met(self@, session@, requirement, dependency.deep_view()),
    {
        let submission = match &dependency.submission_id {
            None => {
                return Ok((DependencyReadiness::WaitingForResult, None));
            },
            Some(submission) => submission,
        };
        let result = self.load::<ResultSubmission>(session, submission.as_str())?;
        if !result.task_id.same(&dependency.prerequisite_task_id) {
            return refuse(FailureCode::ScopeMismatch);
        }
        let review_id = if requirement == DependencyRequirement::HumanAccepted {
            let reviews = self.records::<Review>(session, result.task_id.as_str());
            match review_of(&reviews, submission.as_str()) {
                Some(review) => {
                    if review.review.decision != ReviewDecision::Accepted {
                        return Ok((DependencyReadiness::WaitingForAcceptance, None));
                    }
                    Some(review.id.clone())
                },
                None => {
                    return Ok((DependencyReadiness::WaitingForAcceptance, None));
                },
            }
        } else {
            None
        };
        Ok(
            (
                DependencyReadiness::Ready,
                Some(
                    DependencySnapshot {
                        prerequisite_task_id: dependency.prerequisite_task_id.clone(),
                        submission_id: submission.clone(),
                        review_id,
                    },
                ),
            ),
        )
    }

    /// Whether a task's prerequisites are met, and under which submissions and reviews.
    pub(crate) fn inspect_dependencies(&self, session: &str, task: &Task) -> (res: WorkResult<
        (DependencyReadiness, Vec<DependencySnapshot>),
    >)
        ensures
            shown(res) == inspected(self@, session@, task.deep_view()),
    {
        if task.dependencies.len() == 0 {
            return Ok((DependencyReadiness::Ready, no_items()));
        }
        self.validate_dependencies(session, task, task.dependencies.as_slice())?;
        let parent = match &task.parent_task_id {
            None => {
                return refuse(FailureCode::InvalidInput);
            },
            Some(id) => self.load::<Task>(session, id.as_str())?,
        };
        let requirement = parent.delegation.policy.dependency_requirement;
        let ghost all = task.dependencies.deep_view();
        let mut snapshot: Vec<DependencySnapshot> = no_items();
        let mut i: usize = 0;
        while i < task.dependencies.len()
            invariant
                i <= task.dependencies.len(),
                all == task.deep_view().dependencies,
                all.len() > 0,
                inspected(self@, session@, task.deep_view()) == all_met(
                    self@,
                    session@,
                    requirement,
                    all,
                ),
                all_met(self@, session@, requirement, all.take(i as int)) == Ok::<
                    (DependencyReadiness, Seq<DependencySnapshotModel>),
                    WorkError,
                >((DependencyReadiness::Ready, snapshot.deep_view())),
            decreases task.dependencies.len() - i,
        {
            assert(all.take(i + 1).drop_last() =~= all.take(i as int));
            proof {
                let now = all_met(self@, session@, requirement, all.take(i + 1));
                if now is Err || now->Ok_0.0 != DependencyReadiness::Ready {
                    unmet_stays(self@, session@, requirement, all, i + 1);
                }
            }
            match self.meet(session, requirement, &task.dependencies[i])? {
                (DependencyReadiness::Ready, Some(item)) => {
                    add_row(&mut snapshot, item);
                },
                (readiness, _) => {
                    return Ok((readiness, no_items()));
                },
            }
            i += 1;
        }
        assert(all.take(i as int) =~= all);
        Ok((DependencyReadiness::Ready, snapshot))
    }

    /// The submissions and reviews under which a task may start.
    pub(crate) fn dependency_snapshot(&self, session: &str, task: &Task) -> (res: WorkResult<
        Vec<DependencySnapshot>,
    >)
        ensures
            shown(res) == snapshot_of(self@, session@, task.deep_view()),
    {
        let (readiness, snapshot) = self.inspect_dependencies(session, task)?;
        if readiness != DependencyReadiness::Ready {
            return refuse(FailureCode::NotReady);
        }
        Ok(snapshot)
    }

    /// Whether a task's prerequisites are met.
    pub fn dependency_readiness(&self, session: &str, task_id: &str) -> (res: WorkResult<
        DependencyReadiness,
    >)
        ensures
            res == (match loaded::<Task>(self@, session@, task_id@) {
                Err(error) => Err(error),
                Ok(task) => match inspected(self@, session@, task) {
                    Err(error) => Err(error),
                    Ok((readiness, _)) => Ok(readiness),
                },
            }),
    {
        let task = self.load::<Task>(session, task_id)?;
        let (readiness, _) = self.inspect_dependencies(session, &task)?;
        Ok(readiness)
    }
}

/// Whether prerequisites lead from one task to another in so many steps.
pub open spec fn leads_to(
    s: StoreModel,
    session: Text,
    from: Text,
    target: Text,
    steps: nat,
) -> bool
    decreases steps,
{
    from == target || (steps > 0 && (loaded::<Task>(s, session, from) matches Ok(task) && exists|
        i: int,
    |
        0 <= i < task.dependencies.len() && leads_to(
            s,
            session,
            #[trigger] task.dependencies[i].prerequisite_task_id,
            target,
            (steps - 1) as nat,
        )))
}

/// Whether a list of tasks holds every prerequisite of the tasks that it holds, but for those that
/// are still to be looked at.
spec fn closed_but(
    s: StoreModel,
    session: Text,
    visited: Seq<Text>,
    pending: Seq<(TaskModel, usize)>,
) -> bool {
    forall|k: int|
        0 <= k < visited.len() ==> edges_met(s, session, visited, pending, #[trigger] visited[k])
}

/// Whether every prerequisite of a task was looked at or is to be looked at.
spec fn edges_met(
    s: StoreModel,
    session: Text,
    visited: Seq<Text>,
    pending: Seq<(TaskModel, usize)>,
    id: Text,
) -> bool {
    loaded::<Task>(s, session, id) matches Ok(task) ==> all_met_or_pending(
        visited,
        pending,
        task.dependencies,
    )
}

/// Whether every prerequisite that some edges name was looked at or is to be looked at.
spec fn all_met_or_pending(
    visited: Seq<Text>,
    pending: Seq<(TaskModel, usize)>,
    edges: Seq<TaskDependencyModel>,
) -> bool {
    forall|i: int|
        0 <= i < edges.len() ==> met_or_pending(
            visited,
            pending,
            (#[trigger] edges[i]).prerequisite_task_id,
        )
}

/// Whether a task was looked at or is to be looked at.
spec fn met_or_pending(visited: Seq<Text>, pending: Seq<(TaskModel, usize)>, id: Text) -> bool {
    names(visited, id) || exists|n: int| 0 <= n < pending.len() && (#[trigger] pending[n]).0.id == id
}

/// Whether what is to be looked at is what is recorded.
spec fn recorded(s: StoreModel, session: Text, pending: Seq<(TaskModel, usize)>) -> bool {
    forall|n: int|
        0 <= n < pending.len() ==> loaded::<Task>(s, session, (#[trigger] pending[n]).0.id) == Ok::<
            TaskModel,
            WorkError,
        >(pending[n].0)
}

/// What edges lead to is recorded, one task for each.
proof fn followed_is_recorded(
    s: StoreModel,
    session: Text,
    edges: Seq<TaskDependencyModel>,
    depth: usize,
)
    requires
        well_formed(s),
    ensures
        followed(s, session, edges, depth) matches Ok(next) ==> next.len() == edges.len()
            && recorded(s, session, next) && forall|i: int|
            0 <= i < edges.len() ==> (#[trigger] edges[i]).prerequisite_task_id == next[i].0.id,
    decreases edges.len(),
{
    if edges.len() > 0 && followed(s, session, edges, depth) is Ok {
        followed_is_recorded(s, session, edges.drop_last(), depth);
        let id = edges.last().prerequisite_task_id;
        position_in_range(s.records, id);
        let before = followed(s, session, edges.drop_last(), depth)->Ok_0;
        let next = followed(s, session, edges, depth)->Ok_0;
        assert forall|i: int| 0 <= i < edges.len() implies (#[trigger] edges[i]).prerequisite_task_id
            == next[i].0.id by {
            if i < before.len() {
                assert(edges.drop_last()[i] == edges[i]);
                assert(next[i] == before[i]);
            }
        }
        assert forall|n: int| 0 <= n < next.len() implies loaded::<Task>(
            s,
            session,
            (#[trigger] next[n]).0.id,
        ) == Ok::<TaskModel, WorkError>(next[n].0) by {
            if n < before.len() {
                assert(next[n] == before[n]);
            }
        }
    }
}

/// A walk that ends well has met a list of tasks that holds all their prerequisites, and not the
/// task that it was not to meet.
proof fn walk_closes(
    s: StoreModel,
    session: Text,
    target: Text,
    pending: Seq<(TaskModel, usize)>,
    visited: Seq<Text>,
) -> (all: Seq<Text>)
    requires
        well_formed(s),
        walked(s, session, target, pending, visited) is Ok,
        recorded(s, session, pending),
        closed_but(s, session, visited, pending),
        !names(visited, target),
    ensures
        forall|k: int| 0 <= k < visited.len() ==> names(all, #[trigger] visited[k]),
        forall|n: int| 0 <= n < pending.len() ==> names(all, (#[trigger] pending[n]).0.id),
        closed_but(s, session, all, Seq::empty()),
        !names(all, target),
    decreases MAX_WALK_TASKS + 2 - visited.len(), pending.len(),
{
    if pending.len() == 0 {
        assert(pending =~= Seq::empty());
        visited
    } else {
        let (node, depth) = pending.last();
        let rest = pending.drop_last();
        assert(pending[pending.len() - 1] == (node, depth));
        if names(visited, node.id) {
            assert forall|k: int| 0 <= k < visited.len() implies edges_met(
                s,
                session,
                visited,
                rest,
                #[trigger] visited[k],
            ) by {
                assert(edges_met(s, session, visited, pending, visited[k]));
                if loaded::<Task>(s, session, visited[k]) is Ok {
                    let edges = loaded::<Task>(s, session, visited[k])->Ok_0.dependencies;
                    assert forall|i: int| 0 <= i < edges.len() implies met_or_pending(
                        visited,
                        rest,
                        (#[trigger] edges[i]).prerequisite_task_id,
                    ) by {
                        let id = edges[i].prerequisite_task_id;
                        assert(met_or_pending(visited, pending, id));
                        if !names(visited, id) {
                            let n = choose|n: int|
                                0 <= n < pending.len() && (#[trigger] pending[n]).0.id == id;
                            assert(rest[n] == pending[n]);
                        }
                    }
                }
            }
            let all = walk_closes(s, session, target, rest, visited);
            assert forall|n: int| 0 <= n < pending.len() implies names(
                all,
                (#[trigger] pending[n]).0.id,
            ) by {
                if n < rest.len() {
                    assert(rest[n] == pending[n]);
                } else {
                    let k = choose|k: int| 0 <= k < visited.len() && visited[k] == node.id;
                    assert(names(all, visited[k]));
                }
            }
            all
        } else {
            let next = followed(s, session, node.dependencies, (depth + 1) as usize)->Ok_0;
            followed_is_recorded(s, session, node.dependencies, (depth + 1) as usize);
            let pending2 = rest + next;
            let visited2 = visited.push(node.id);
            assert(recorded(s, session, pending2)) by {
                assert forall|n: int| 0 <= n < pending2.len() implies loaded::<Task>(
                    s,
                    session,
                    (#[trigger] pending2[n]).0.id,
                ) == Ok::<TaskModel, WorkError>(pending2[n].0) by {
                    if n < rest.len() {
                        assert(pending2[n] == pending[n]);
                    } else {
                        assert(pending2[n] == next[n - rest.len()]);
                    }
                }
            }
            assert forall|k: int| 0 <= k < visited2.len() implies edges_met(
                s,
                session,
                visited2,
                pending2,
                #[trigger] visited2[k],
            ) by {
                if k < visited.len() {
                    assert(visited[k] == visited2[k]);
                    assert(edges_met(s, session, visited, pending, visited[k]));
                }
                if loaded::<Task>(s, session, visited2[k]) is Ok {
                    let edges = loaded::<Task>(s, session, visited2[k])->Ok_0.dependencies;
                    assert forall|i: int| 0 <= i < edges.len() implies met_or_pending(
                        visited2,
                        pending2,
                        (#[trigger] edges[i]).prerequisite_task_id,
                    ) by {
                        let id = edges[i].prerequisite_task_id;
                        if k < visited.len() {
                            assert(met_or_pending(visited, pending, id));
                            if names(visited, id) {
                                let m = choose|m: int| 0 <= m < visited.len() && visited[m] == id;
                                assert(visited2[m] == id);
                            } else {
                                let n = choose|n: int|
                                    0 <= n < pending.len() && (#[trigger] pending[n]).0.id == id;
                                if n < rest.len() {
                                    assert(pending2[n] == pending[n]);
                                } else {
                                    assert(visited2[visited.len() as int] == id);
                                }
                            }
                        } else {
                            assert(edges == node.dependencies);
                            assert(pending2[rest.len() + i] == next[i]);
                        }
                    }
                }
            }
            assert(!names(visited2, target)) by {
                if names(visited2, target) {
                    let m = choose|m: int| 0 <= m < visited2.len() && visited2[m] == target;
                    if m < visited.len() {
                        assert(visited[m] == target);
                    }
                }
            }
            let all = walk_closes(s, session, target, pending2, visited2);
            assert forall|k: int| 0 <= k < visited.len() implies names(
                all,
                #[trigger] visited[k],
            ) by {
                assert(visited2[k] == visited[k]);
            }
            assert forall|n: int| 0 <= n < pending.len() implies names(
                all,
                (#[trigger] pending[n]).0.id,
            ) by {
                if n < rest.len() {
                    assert(pending2[n] == pending[n]);
                } else {
                    assert(visited2[visited.len() as int] == node.id);
                }
            }
            all
        }
    }
}

/// From a list that holds all its prerequisites, no prerequisites lead out of it.
proof fn closed_is_left_by_nothing(
    s: StoreModel,
    session: Text,
    all: Seq<Text>,
    from: Text,
    target: Text,
    steps: nat,
)
    requires
        closed_but(s, session, all, Seq::empty()),
        names(all, from),
        !names(all, target),
    ensures
        !leads_to(s, session, from, target, steps),
    decreases steps,
{
    if steps > 0 && loaded::<Task>(s, session, from) is Ok {
        let k = choose|k: int| 0 <= k < all.len() && all[k] == from;
        let task = loaded::<Task>(s, session, all[k])->Ok_0;
        assert(edges_met(s, session, all, Seq::empty(), all[k]));
        assert forall|i: int| 0 <= i < task.dependencies.len() implies !leads_to(
            s,
            session,
            #[trigger] task.dependencies[i].prerequisite_task_id,
            target,
            (steps - 1) as nat,
        ) by {
            let id = task.dependencies[i].prerequisite_task_id;
            assert(met_or_pending(all, Seq::empty(), id));
            closed_is_left_by_nothing(s, session, all, id, target, (steps - 1) as nat);
        }
    }
}

/// A task is given only prerequisites from which no prerequisites lead back to it.
pub proof fn prerequisites_never_lead_back(
    s: StoreModel,
    session: Text,
    task: TaskModel,
    dependencies: Seq<TaskDependencyModel>,
    i: int,
    steps: nat,
)
    requires
        well_formed(s),
        dependencies_valid(s, session, task, dependencies) is Ok,
        0 <= i < dependencies.len(),
    ensures
        !leads_to(s, session, dependencies[i].prerequisite_task_id, task.id, steps),
{
    each_is_valid(s, session, task, dependencies, i);
    let id = dependencies[i].prerequisite_task_id;
    let prerequisite = loaded::<Task>(s, session, id)->Ok_0;
    position_in_range(s.records, id);
    let pending: Seq<(TaskModel, usize)> = Seq::empty().push((prerequisite, 1usize));
    assert(pending[0].0 == prerequisite);
    let all = walk_closes(s, session, task.id, pending, Seq::empty());
    assert(names(all, pending[0].0.id));
    closed_is_left_by_nothing(s, session, all, id, task.id, steps);
}

/// Of prerequisites that a task may have, it may have each after the ones before it.
proof fn each_is_valid(
    s: StoreModel,
    session: Text,
    task: TaskModel,
    dependencies: Seq<TaskDependencyModel>,
    i: int,
)
    requires
        each_valid(s, session, task, dependencies) is Ok,
        0 <= i < dependencies.len(),
    ensures
        dependency_valid(s, session, task, dependencies.take(i), dependencies[i]) is Ok,
    decreases dependencies.len(),
{
    let earlier = dependencies.drop_last();
    if i < earlier.len() {
        assert(earlier[i] == dependencies[i]);
        assert(earlier.take(i) =~= dependencies.take(i));
        each_is_valid(s, session, task, earlier, i);
    } else {
        assert(dependencies.take(i) =~= earlier);
    }
}

/// The last review of a submission among some reviews, in the order in which they were filed.
pub open spec fn is_last_review(reviews: Seq<ReviewModel>, submission: Text, at: int) -> bool {
    &&& 0 <= at < reviews.len()
    &&& reviews[at].review.submission_id == submission
    &&& forall|j: int|
        at < j < reviews.len() ==> (#[trigger] reviews[j]).review.submission_id != submission
}

/// The review that counts is the last one of its submission.
pub proof fn last_reviews_count(reviews: Seq<ReviewModel>, submission: Text)
    ensures
        last_review(reviews, submission) matches Some(review) ==> exists|at: int| #[trigger]
            is_last_review(reviews, submission, at) && reviews[at] == review,
        last_review(reviews, submission) is None ==> forall|j: int|
            0 <= j < reviews.len() ==> (#[trigger] reviews[j]).review.submission_id != submission,
        forall|at: int| #[trigger]
            is_last_review(reviews, submission, at) ==> last_review(reviews, submission) == Some(
                reviews[at],
            ),
    decreases reviews.len(),
{
    if reviews.len() > 0 {
        let rest = reviews.drop_last();
        last_reviews_count(rest, submission);
        let n = reviews.len() - 1;
        if reviews.last().review.submission_id == submission {
            assert(is_last_review(reviews, submission, n));
        } else {
            if last_review(rest, submission) is Some {
                let at = choose|at: int| #[trigger]
                    is_last_review(rest, submission, at) && rest[at] == last_review(
                        rest,
                        submission,
                    )->0;
                assert(is_last_review(reviews, submission, at)) by {
                    assert forall|j: int| at < j < reviews.len() implies (
                    #[trigger] reviews[j]).review.submission_id != submission by {
                        if j < n {
                            assert(rest[j] == reviews[j]);
                        }
                    }
                }
                assert(reviews[at] == rest[at]);
            } else {
                assert forall|j: int| 0 <= j < reviews.len() implies (
                #[trigger] reviews[j]).review.submission_id != submission by {
                    if j < n {
                        assert(rest[j] == reviews[j]);
                    }
                }
            }
        }
        assert forall|at: int| #[trigger] is_last_review(
            reviews,
            submission,
            at,
        ) implies last_review(reviews, submission) == Some(reviews[at]) by {
            if at < n {
                assert(reviews[n].review.submission_id != submission);
                assert(is_last_review(rest, submission, at)) by {
                    assert forall|j: int| at < j < rest.len() implies (
                    #[trigger] rest[j]).review.submission_id != submission by {
                        assert(rest[j] == reviews[j]);
                    }
                }
            }
        }
    }
}

/// Whether a dependency is met: it names a result that its prerequisite submitted, and, where a
/// human has to accept it, the last review of that result accepts it. The entry says which result
/// and which review.
pub open spec fn dependency_met(
    s: StoreModel,
    session: Text,
    requirement: DependencyRequirement,
    dependency: TaskDependencyModel,
    entry: DependencySnapshotModel,
) -> bool {
    &&& dependency.submission_id == Some(entry.submission_id)
    &&& entry.prerequisite_task_id == dependency.prerequisite_task_id
    &&& loaded::<ResultSubmission>(s, session, entry.submission_id) matches Ok(result)
        && result.task_id == dependency.prerequisite_task_id
    &&& requirement == DependencyRequirement::ResultAvailable ==> entry.review_id is None
    &&& requirement == DependencyRequirement::HumanAccepted ==> ({
        let reviews = listed::<Review>(s.records, session, dependency.prerequisite_task_id);
        exists|at: int| #[trigger]
            is_last_review(reviews, entry.submission_id, at) && reviews[at].review.decision
                == ReviewDecision::Accepted && entry.review_id == Some(reviews[at].id)
    })
}

/// Whether a dependency waits for its result: none is named yet.
pub open spec fn waits_for_result(dependency: TaskDependencyModel) -> bool {
    dependency.submission_id is None
}

/// Whether a dependency waits for acceptance: its result was submitted, a human has to accept it,
/// and the last review of it, if there is one, does not.
pub open spec fn waits_for_acceptance(
    s: StoreModel,
    session: Text,
    requirement: DependencyRequirement,
    dependency: TaskDependencyModel,
) -> bool {
    &&& requirement == DependencyRequirement::HumanAccepted
    &&& dependency.submission_id matches Some(submission) && (loaded::<ResultSubmission>(
        s,
        session,
        submission,
    ) matches Ok(result) && result.task_id == dependency.prerequisite_task_id && ({
        let reviews = listed::<Review>(s.records, session, dependency.prerequisite_task_id);
        forall|at: int| #[trigger]
            is_last_review(reviews, submission, at) ==> reviews[at].review.decision
                != ReviewDecision::Accepted
    }))
}

/// What is answered of some dependencies says of each of them whether it is met.
proof fn answers_are_about_each(
    s: StoreModel,
    session: Text,
    requirement: DependencyRequirement,
    dependencies: Seq<TaskDependencyModel>,
)
    ensures
        all_met(s, session, requirement, dependencies) matches Ok((readiness, snapshot)) ==> {
            &&& readiness == DependencyReadiness::Ready ==> snapshot.len() == dependencies.len()
                && forall|i: int|
                0 <= i < dependencies.len() ==> dependency_met(
                    s,
                    session,
                    requirement,
                    #[trigger] dependencies[i],
                    snapshot[i],
                )
            &&& readiness != DependencyReadiness::Ready ==> snapshot.len() == 0
            &&& readiness == DependencyReadiness::WaitingForResult ==> exists|i: int|
                0 <= i < dependencies.len() && waits_for_result(#[trigger] dependencies[i])
            &&& readiness == DependencyReadiness::WaitingForAcceptance ==> exists|i: int|
                0 <= i < dependencies.len() && waits_for_acceptance(
                    s,
                    session,
                    requirement,
                    #[trigger] dependencies[i],
                )
        },
    decreases dependencies.len(),
{
    if dependencies.len() > 0 {
        let rest = dependencies.drop_last();
        answers_are_about_each(s, session, requirement, rest);
        let last = dependencies.last();
        let n = dependencies.len() - 1;
        assert(dependencies[n] == last);
        if let Some(submission) = last.submission_id {
            last_reviews_count(
                listed::<Review>(s.records, session, last.prerequisite_task_id),
                submission,
            );
        }
        if all_met(s, session, requirement, dependencies) is Ok {
            let (readiness, snapshot) = all_met(s, session, requirement, dependencies)->Ok_0;
            let (first, before) = all_met(s, session, requirement, rest)->Ok_0;
            if readiness == DependencyReadiness::Ready {
                assert forall|i: int| 0 <= i < dependencies.len() implies dependency_met(
                    s,
                    session,
                    requirement,
                    #[trigger] dependencies[i],
                    snapshot[i],
                ) by {
                    if i < n {
                        assert(rest[i] == dependencies[i]);
                        assert(dependency_met(s, session, requirement, rest[i], before[i]));
                    }
                }
            } else if first != DependencyReadiness::Ready {
                if readiness == DependencyReadiness::WaitingForResult {
                    let i = choose|i: int| 0 <= i < rest.len() && waits_for_result(
                        #[trigger] rest[i],
                    );
                    assert(waits_for_result(dependencies[i]));
                } else {
                    let i = choose|i: int| 0 <= i < rest.len() && waits_for_acceptance(
                        s,
                        session,
                        requirement,
                        #[trigger] rest[i],
                    );
                    assert(waits_for_acceptance(s, session, requirement, dependencies[i]));
                }
            }
        }
    }
}

/// A task is ready exactly where every one of its dependencies is met: each names a result that
/// its prerequisite submitted, and where its parent asks for acceptance, the last review of that
/// result accepts it. The snapshot has one entry for each dependency, in order. A task that waits
/// for a result has a dependency without one; a task that waits for acceptance has one whose
/// result is not accepted.
pub proof fn readiness_is_of_every_dependency(s: StoreModel, session: Text, task: TaskModel)
    ensures
        inspected(s, session, task) matches Ok((readiness, snapshot)) ==> {
            let requirement = loaded::<Task>(
                s,
                session,
                task.parent_task_id->0,
            )->Ok_0.delegation.policy.dependency_requirement;
            let all = task.dependencies;
            &&& all.len() > 0 ==> task.parent_task_id is Some && loaded::<Task>(
                s,
                session,
                task.parent_task_id->0,
            ) is Ok
            &&& readiness == DependencyReadiness::Ready ==> snapshot.len() == all.len() && forall|
                i: int,
            |
                0 <= i < all.len() ==> dependency_met(
                    s,
                    session,
                    requirement,
                    #[trigger] all[i],
                    snapshot[i],
                )
            &&& readiness == DependencyReadiness::WaitingForResult ==> exists|i: int|
                0 <= i < all.len() && waits_for_result(#[trigger] all[i])
            &&& readiness == DependencyReadiness::WaitingForAcceptance ==> exists|i: int|
                0 <= i < all.len() && waits_for_acceptance(
                    s,
                    session,
                    requirement,
                    #[trigger] all[i],
                )
        },
{
    if task.dependencies.len() > 0 && inspected(s, session, task) is Ok {
        let parent = loaded::<Task>(s, session, task.parent_task_id->0)->Ok_0;
        answers_are_about_each(
            s,
            session,
            parent.delegation.policy.dependency_requirement,
            task.dependencies,
        );
    }
}

/// Each answer about one dependency decides it: met, waiting for a result and waiting for
/// acceptance exclude each other, so that a task all of whose dependencies are met waits for
/// nothing.
pub proof fn met_dependencies_wait_for_nothing(
    s: StoreModel,
    session: Text,
    requirement: DependencyRequirement,
    dependency: TaskDependencyModel,
    entry: DependencySnapshotModel,
)
    requires
        dependency_met(s, session, requirement, dependency, entry),
    ensures
        !waits_for_result(dependency),
        !waits_for_acceptance(s, session, requirement, dependency),
{
    let reviews = listed::<Review>(s.records, session, dependency.prerequisite_task_id);
    last_reviews_count(reviews, entry.submission_id);
    if requirement == DependencyRequirement::HumanAccepted {
        let at = choose|at: int| #[trigger]
            is_last_review(reviews, entry.submission_id, at) && reviews[at].review.decision
                == ReviewDecision::Accepted && entry.review_id == Some(reviews[at].id);
        assert(is_last_review(reviews, entry.submission_id, at));
    }
}

/// Whether a task's prerequisites are in order: no more than sixteen, each another task of the
/// same repository below the same parent, each named once, each with a result of its own where it
/// names one.
pub open spec fn prerequisites_in_order(
    s: StoreModel,
    session: Text,
    task: TaskModel,
    dependencies: Seq<TaskDependencyModel>,
) -> bool {
    &&& dependencies.len() <= 16
    &&& dependencies.len() > 0 ==> task.parent_task_id is Some
    &&& forall|i: int|
        0 <= i < dependencies.len() ==> {
            &&& (#[trigger] dependencies[i]).prerequisite_task_id != task.id
            &&& loaded::<Task>(s, session, dependencies[i].prerequisite_task_id) matches Ok(other)
                && other.repo_path == task.repo_path && other.parent_task_id == task.parent_task_id
            &&& dependencies[i].submission_id matches Some(submission) ==> (
            loaded::<ResultSubmission>(s, session, submission) matches Ok(result) && result.task_id
                == dependencies[i].prerequisite_task_id)
        }
    &&& forall|i: int, j: int|
        0 <= i < j < dependencies.len() ==> (#[trigger] dependencies[i]).prerequisite_task_id != (
        #[trigger] dependencies[j]).prerequisite_task_id
}

proof fn each_is_in_order(
    s: StoreModel,
    session: Text,
    task: TaskModel,
    dependencies: Seq<TaskDependencyModel>,
)
    requires
        well_formed(s),
        task.parent_task_id is Some,
        dependencies.len() <= 16,
        each_valid(s, session, task, dependencies) is Ok,
    ensures
        prerequisites_in_order(s, session, task, dependencies),
    decreases dependencies.len(),
{
    if dependencies.len() > 0 {
        let rest = dependencies.drop_last();
        let last = dependencies.last();
        each_is_in_order(s, session, task, rest);
        position_in_range(s.records, last.prerequisite_task_id);
        assert(filed_as_said(s.records[position(s.records, last.prerequisite_task_id)->0]));
        assert forall|i: int| 0 <= i < dependencies.len() implies {
            &&& (#[trigger] dependencies[i]).prerequisite_task_id != task.id
            &&& loaded::<Task>(s, session, dependencies[i].prerequisite_task_id) matches Ok(other)
                && other.repo_path == task.repo_path && other.parent_task_id == task.parent_task_id
            &&& dependencies[i].submission_id matches Some(submission) ==> (
            loaded::<ResultSubmission>(s, session, submission) matches Ok(result) && result.task_id
                == dependencies[i].prerequisite_task_id)
        } by {
            if i < rest.len() {
                assert(rest[i] == dependencies[i]);
            }
        }
        assert forall|i: int, j: int| 0 <= i < j < dependencies.len() implies (
        #[trigger] dependencies[i]).prerequisite_task_id != (
        #[trigger] dependencies[j]).prerequisite_task_id by {
            assert(rest[i] == dependencies[i]);
            if j < rest.len() {
                assert(rest[j] == dependencies[j]);
            }
        }
    }
}

/// Prerequisites are admitted only where they are in order, and none leads back to the task.
pub proof fn admitted_prerequisites_are_in_order(
    s: StoreModel,
    session: Text,
    task: TaskModel,
    dependencies: Seq<TaskDependencyModel>,
)
    requires
        well_formed(s),
        dependencies_valid(s, session, task, dependencies) is Ok,
    ensures
        prerequisites_in_order(s, session, task, dependencies),
{
    if dependencies.len() > 0 {
        each_is_in_order(s, session, task, dependencies);
    }
}

proof fn met_ones_are_answered(
    s: StoreModel,
    session: Text,
    requirement: DependencyRequirement,
    dependencies: Seq<TaskDependencyModel>,
    snapshot: Seq<DependencySnapshotModel>,
)
    requires
        snapshot.len() == dependencies.len(),
        forall|i: int|
            0 <= i < dependencies.len() ==> dependency_met(
                s,
                session,
                requirement,
                #[trigger] dependencies[i],
                snapshot[i],
            ),
    ensures
        all_met(s, session, requirement, dependencies) == Ok::<
            (DependencyReadiness, Seq<DependencySnapshotModel>),
            WorkError,
        >((DependencyReadiness::Ready, snapshot)),
    decreases dependencies.len(),
{
    if dependencies.len() > 0 {
        let rest = dependencies.drop_last();
        let before = snapshot.drop_last();
        assert forall|i: int| 0 <= i < rest.len() implies dependency_met(
            s,
            session,
            requirement,
            #[trigger] rest[i],
            before[i],
        ) by {
            assert(rest[i] == dependencies[i]);
        }
        met_ones_are_answered(s, session, requirement, rest, before);
        let n = dependencies.len() - 1;
        let last = dependencies[n];
        let entry = snapshot[n];
        assert(dependency_met(s, session, requirement, last, entry));
        let reviews = listed::<Review>(s.records, session, last.prerequisite_task_id);
        last_reviews_count(reviews, entry.submission_id);
        assert(met(s, session, requirement, last)->Ok_0.1 == Some(entry));
        assert(before.push(entry) =~= snapshot);
    } else {
        assert(snapshot =~= Seq::empty());
    }
}

/// A task whose prerequisites are admitted and all met is ready, and its snapshot is the one that
/// says how they are met.
pub proof fn tasks_with_met_dependencies_are_ready(
    s: StoreModel,
    session: Text,
    task: TaskModel,
    parent: TaskModel,
    snapshot: Seq<DependencySnapshotModel>,
)
    requires
        dependencies_valid(s, session, task, task.dependencies) is Ok,
        task.parent_task_id is Some,
        loaded::<Task>(s, session, task.parent_task_id->0) == Ok::<TaskModel, WorkError>(parent),
        snapshot.len() == task.dependencies.len(),
        forall|i: int|
            0 <= i < task.dependencies.len() ==> dependency_met(
                s,
                session,
                parent.delegation.policy.dependency_requirement,
                #[trigger] task.dependencies[i],
                snapshot[i],
            ),
    ensures
        inspected(s, session, task) == Ok::<
            (DependencyReadiness, Seq<DependencySnapshotModel>),
            WorkError,
        >((DependencyReadiness::Ready, snapshot)),
{
    if task.dependencies.len() > 0 {
        met_ones_are_answered(
            s,
            session,
            parent.delegation.policy.dependency_requirement,
            task.dependencies,
            snapshot,
        );
    } else {
        assert(snapshot =~= Seq::empty());
    }
}

/// Whether a task can be come to from another in so many steps from a task to one of its
/// prerequisites.
pub open spec fn comes_to(s: StoreModel, session: Text, from: Text, to: Text, steps: nat) -> bool
    decreases steps,
{
    if steps == 0 {
        from == to
    } else {
        exists|mid: Text|
            comes_to(s, session, from, mid, (steps - 1) as nat) && #[trigger] requires_directly(
                s,
                session,
                mid,
                to,
            )
    }
}

/// Whether a recorded task names another as a prerequisite.
pub open spec fn requires_directly(s: StoreModel, session: Text, id: Text, other: Text) -> bool {
    loaded::<Task>(s, session, id) matches Ok(task) && exists|i: int|
        0 <= i < task.dependencies.len() && (#[trigger] task.dependencies[i]).prerequisite_task_id
            == other
}

/// Whether a task can be come to from another.
pub open spec fn is_come_to(s: StoreModel, session: Text, from: Text, to: Text) -> bool {
    exists|steps: nat| #[trigger] comes_to(s, session, from, to, steps)
}

/// Whether tasks are different and can all be come to from one.
pub open spec fn all_come(s: StoreModel, session: Text, from: Text, many: Seq<Text>) -> bool {
    &&& forall|k: int|
        0 <= k < many.len() ==> is_come_to(s, session, from, #[trigger] many[k])
    &&& forall|i: int, j: int| 0 <= i < j < many.len() ==> many[i] != many[j]
}

/// Whether what is still to be looked at was come to from a task, as deep as it says.
spec fn come_to(
    s: StoreModel,
    session: Text,
    from: Text,
    pending: Seq<(TaskModel, usize)>,
) -> bool {
    forall|k: int|
        0 <= k < pending.len() ==> {
            let (node, depth) = #[trigger] pending[k];
            &&& depth >= 1
            &&& loaded::<Task>(s, session, node.id) == Ok::<TaskModel, WorkError>(node)
            &&& comes_to(s, session, from, node.id, (depth - 1) as nat)
        }
}

proof fn followed_ones_come(
    s: StoreModel,
    session: Text,
    from: Text,
    node: TaskModel,
    edges: Seq<TaskDependencyModel>,
    depth: usize,
)
    requires
        well_formed(s),
        depth >= 2,
        loaded::<Task>(s, session, node.id) == Ok::<TaskModel, WorkError>(node),
        comes_to(s, session, from, node.id, (depth - 2) as nat),
        edges.len() <= node.dependencies.len(),
        edges == node.dependencies.take(edges.len() as int),
    ensures
        followed(s, session, edges, depth) matches Ok(next) ==> come_to(s, session, from, next),
        followed(s, session, edges, depth) matches Err(error) ==> error.0 == FailureCode::NotFound,
    decreases edges.len(),
{
    if edges.len() > 0 {
        let rest = edges.drop_last();
        assert(rest =~= node.dependencies.take(rest.len() as int));
        followed_ones_come(s, session, from, node, rest, depth);
        let id = edges.last().prerequisite_task_id;
        reads_give_what_is_recorded(s, session, id);
        if let Ok(task) = loaded::<Task>(s, session, id) {
            tasks_stand(s, session, id);
            assert(node.dependencies[edges.len() - 1] == edges.last());
            assert(requires_directly(s, session, node.id, id));
            let before: nat = ((depth - 1) - 1) as nat;
            assert(comes_to(s, session, from, node.id, before));
            assert(comes_to(s, session, from, id, (depth - 1) as nat));
        }
    }
}

proof fn walks_fail_for_reasons(
    s: StoreModel,
    session: Text,
    from: Text,
    target: Text,
    pending: Seq<(TaskModel, usize)>,
    visited: Seq<Text>,
)
    requires
        well_formed(s),
        come_to(s, session, from, pending),
        forall|k: int| 0 <= k < pending.len() ==> (#[trigger] pending[k]).1 <= 17,
        all_come(s, session, from, visited),
    ensures
        walked(s, session, target, pending, visited) matches Err(error) ==> {
            ||| error.0 == FailureCode::InvalidInput && is_come_to(s, session, from, target)
            ||| error.0 == FailureCode::NotFound
            ||| error.0 == FailureCode::ResourceLimit && (exists|deep: Text| #[trigger]
                comes_to(s, session, from, deep, 16))
            ||| error.0 == FailureCode::ResourceLimit && (exists|many: Seq<Text>| #[trigger]
                all_come(s, session, from, many) && many.len() > 1024)
        },
    decreases MAX_WALK_TASKS + 2 - visited.len(), pending.len(),
{
    if pending.len() > 0 {
        let (node, depth) = pending.last();
        assert(pending[pending.len() - 1] == pending.last());
        let rest = pending.drop_last();
        assert forall|k: int| 0 <= k < rest.len() implies ({
            let (node, depth) = #[trigger] rest[k];
            &&& depth >= 1
            &&& loaded::<Task>(s, session, node.id) == Ok::<TaskModel, WorkError>(node)
            &&& comes_to(s, session, from, node.id, (depth - 1) as nat)
        }) && rest[k].1 <= 17 by {
            assert(rest[k] == pending[k]);
        }
        if node.id == target {
            assert(comes_to(s, session, from, target, (depth - 1) as nat));
        } else if depth > MAX_WALK_DEPTH {
            assert(comes_to(s, session, from, node.id, 16));
        } else if visited.len() > MAX_WALK_TASKS {
            assert(all_come(s, session, from, visited) && visited.len() > 1024);
        } else if names(visited, node.id) {
            walks_fail_for_reasons(s, session, from, target, rest, visited);
        } else {
            let deeper = (depth + 1) as usize;
            assert(node.dependencies.take(node.dependencies.len() as int) =~= node.dependencies);
            followed_ones_come(s, session, from, node, node.dependencies, deeper);
            if let Ok(next) = followed(s, session, node.dependencies, deeper) {
                followed_ones_are_deep(s, session, node.dependencies, deeper);
                let all = rest + next;
                assert forall|k: int| 0 <= k < all.len() implies ({
                    let (node, depth) = #[trigger] all[k];
                    &&& depth >= 1
                    &&& loaded::<Task>(s, session, node.id) == Ok::<TaskModel, WorkError>(node)
                    &&& comes_to(s, session, from, node.id, (depth - 1) as nat)
                }) && all[k].1 <= 17 by {
                    if k < rest.len() {
                        assert(all[k] == rest[k]);
                    } else {
                        assert(all[k] == next[k - rest.len()]);
                    }
                }
                let longer = visited.push(node.id);
                assert(all_come(s, session, from, longer)) by {
                    assert forall|k: int| 0 <= k < longer.len() implies is_come_to(
                        s,
                        session,
                        from,
                        #[trigger] longer[k],
                    ) by {
                        if k < visited.len() {
                            assert(longer[k] == visited[k]);
                        } else {
                            assert(comes_to(s, session, from, node.id, (depth - 1) as nat));
                        }
                    }
                    assert forall|i: int, j: int| 0 <= i < j < longer.len() implies longer[i]
                        != longer[j] by {
                        if j == visited.len() {
                            assert(visited[i] == longer[i]);
                        }
                    }
                }
                walks_fail_for_reasons(s, session, from, target, all, longer);
            }
        }
    }
}

proof fn followed_ones_are_deep(
    s: StoreModel,
    session: Text,
    edges: Seq<TaskDependencyModel>,
    depth: usize,
)
    ensures
        followed(s, session, edges, depth) matches Ok(next) ==> forall|k: int|
            0 <= k < next.len() ==> (#[trigger] next[k]).1 == depth,
    decreases edges.len(),
{
    if edges.len() > 0 {
        followed_ones_are_deep(s, session, edges.drop_last(), depth);
    }
}


/// Whether one of some prerequisites is a reason to refuse them: it is named twice or is the task
/// itself, or leads back to it; it is not recorded, or its result is not; it is of another
/// repository or parent, or its result is another task's; or a walk from it goes 16 steps deep or
/// comes to more than 1024 tasks.
pub open spec fn is_refused_for(
    s: StoreModel,
    session: Text,
    task: TaskModel,
    dependencies: Seq<TaskDependencyModel>,
    i: int,
    code: FailureCode,
) -> bool {
    let id = dependencies[i].prerequisite_task_id;
    let other = loaded::<Task>(s, session, id);
    &&& 0 <= i < dependencies.len()
    &&& code == FailureCode::InvalidInput ==> {
        ||| id == task.id
        ||| is_come_to(s, session, id, task.id)
        ||| exists|j: int| 0 <= j < i && (#[trigger] dependencies[j]).prerequisite_task_id == id
    }
    &&& code == FailureCode::ScopeMismatch ==> {
        ||| other matches Ok(other) && (other.repo_path != task.repo_path || other.parent_task_id
            != task.parent_task_id)
        ||| dependencies[i].submission_id matches Some(submission) && (loaded::<ResultSubmission>(
            s,
            session,
            submission,
        ) matches Ok(result) && result.task_id != id)
    }
    &&& code == FailureCode::ResourceLimit ==> {
        ||| exists|deep: Text| #[trigger] comes_to(s, session, id, deep, 16)
        ||| exists|many: Seq<Text>| #[trigger] all_come(s, session, id, many) && many.len() > 1024
    }
    &&& code == FailureCode::InvalidInput || code == FailureCode::ScopeMismatch || code
        == FailureCode::ResourceLimit || code == FailureCode::NotFound
}

proof fn one_is_refused(
    s: StoreModel,
    session: Text,
    task: TaskModel,
    dependencies: Seq<TaskDependencyModel>,
)
    requires
        well_formed(s),
    ensures
        each_valid(s, session, task, dependencies) matches Err(error) ==> exists|i: int| #[trigger]
            is_refused_for(s, session, task, dependencies, i, error.0),
    decreases dependencies.len(),
{
    if dependencies.len() > 0 && each_valid(s, session, task, dependencies) is Err {
        let code = each_valid(s, session, task, dependencies)->Err_0.0;
        let rest = dependencies.drop_last();
        let n = dependencies.len() - 1;
        one_is_refused(s, session, task, rest);
        if each_valid(s, session, task, rest) is Err {
            let i = choose|i: int| #[trigger]
                is_refused_for(s, session, task, rest, i, code);
            assert(rest[i] == dependencies[i]);
            assert forall|j: int| 0 <= j < i implies #[trigger] rest[j] == dependencies[j] by {}
            if exists|j: int| 0 <= j < i && (#[trigger] rest[j]).prerequisite_task_id
                == rest[i].prerequisite_task_id {
                let j = choose|j: int| 0 <= j < i && (#[trigger] rest[j]).prerequisite_task_id
                    == rest[i].prerequisite_task_id;
                assert(dependencies[j].prerequisite_task_id
                    == dependencies[i].prerequisite_task_id);
            }
            assert(is_refused_for(s, session, task, dependencies, i, code));
        } else {
            let last = dependencies[n];
            let id = last.prerequisite_task_id;
            reads_give_what_is_recorded(s, session, id);
            if last.submission_id is Some {
                reads_give_what_is_recorded(s, session, last.submission_id->0);
            }
            if let Ok(prerequisite) = loaded::<Task>(s, session, id) {
                tasks_stand(s, session, id);
                let pending: Seq<(TaskModel, usize)> = Seq::empty().push((prerequisite, 1usize));
                assert(comes_to(s, session, id, id, 0));
                assert(pending[0] == (prerequisite, 1usize));
                walks_fail_for_reasons(s, session, id, task.id, pending, Seq::empty());
            }
            if exists|j: int| 0 <= j < rest.len() && (#[trigger] rest[j]).prerequisite_task_id
                == id {
                let j = choose|j: int| 0 <= j < rest.len() && (
                #[trigger] rest[j]).prerequisite_task_id == id;
                assert(dependencies[j].prerequisite_task_id == id);
            }
            assert(is_refused_for(s, session, task, dependencies, n, code));
        }
    }
}

/// Prerequisites are refused only for a reason: there are more than sixteen, the task has no
/// parent, or one of them is a reason.
pub proof fn prerequisite_refusals_have_reasons(
    s: StoreModel,
    session: Text,
    task: TaskModel,
    dependencies: Seq<TaskDependencyModel>,
)
    requires
        well_formed(s),
    ensures
        dependencies_valid(s, session, task, dependencies) matches Err(error) ==> {
            ||| error.0 == FailureCode::ResourceLimit && dependencies.len() > 16
            ||| error.0 == FailureCode::ScopeMismatch && dependencies.len() > 0
                && task.parent_task_id is None
            ||| exists|i: int| #[trigger]
                is_refused_for(s, session, task, dependencies, i, error.0)
        },
{
    one_is_refused(s, session, task, dependencies);
}

} // verus!
