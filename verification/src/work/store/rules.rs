//! The rules that admit or refuse a request.
use vstd::prelude::*;
use crate::text::bounded;
use crate::text::is_bounded;
use crate::text::is_native_identity;
use crate::text::native_identity;
use crate::text::text_eq;
use crate::value::Replica;
use crate::value::Same;
use crate::value::Text;
use crate::value::add_row;
use crate::value::no_items;
use crate::value::shown;
use crate::work::model::Attempt;
use crate::work::model::AttemptModel;
use crate::work::model::AttemptRole;
use crate::work::model::FailureCode;
use crate::work::model::LaunchPhase;
use crate::work::model::NativeBinding;
use crate::work::model::NativeBindingModel;
use crate::work::model::Operation;
use crate::work::model::OperationKind;
use crate::work::model::OperationModel;
use crate::work::model::OperationState;
use crate::work::model::ReconcileInput;
use crate::work::model::ReconcileInputModel;
use crate::work::model::Task;
use crate::work::model::TaskModel;
use crate::work::model::TaskPolicy;
use crate::work::model::TaskPolicyModel;
use crate::work::model::WorkResult;
use crate::work::model::unbound;
use crate::work::store::records::loaded;
use crate::work::store::records::refuse;
use crate::work::store::records::refused;
use crate::work::store::summaries::is_active;
use crate::work::store::summaries::reservation_active;
use crate::work::store::tables::Body;
use crate::work::store::tables::BodyModel;
use crate::work::store::tables::RecordModel;
use crate::work::store::tables::StoreModel;
use crate::work::store::tables::WorkStore;

verus! {

/// How long a chain of ancestors a launch may have.
pub const MAX_LAUNCH_CHAIN: usize = 64;

/// How deep tasks may be nested.
pub const MAX_DEPTH: usize = 16;

/// Whether a list of names holds one.
pub open spec fn names(list: Seq<Text>, name: Text) -> bool {
    exists|i: int| 0 <= i < list.len() && list[i] == name
}

/// Whether a list of names holds one.
pub fn has_name(list: &Vec<String>, name: &str) -> (res: bool)
    ensures
        res == names(list.deep_view(), name@),
{
    let ghost all = list.deep_view();
    let mut i: usize = 0;
    while i < list.len()
        invariant
            i <= list.len(),
            all == list.deep_view(),
            forall|k: int| 0 <= k < i ==> all[k] != name@,
        decreases list.len() - i,
    {
        if text_eq(list[i].as_str(), name) {
            assert(all[i as int] == name@);
            return true;
        }
        i += 1;
    }
    false
}

/// Whether each name of one list is in another.
pub open spec fn within(inner: Seq<Text>, outer: Seq<Text>) -> bool {
    forall|i: int| 0 <= i < inner.len() ==> names(outer, #[trigger] inner[i])
}

/// Whether each name of one list is in another.
pub fn all_within(inner: &Vec<String>, outer: &Vec<String>) -> (res: bool)
    ensures
        res == within(inner.deep_view(), outer.deep_view()),
{
    let ghost all = inner.deep_view();
    let mut i: usize = 0;
    while i < inner.len()
        invariant
            i <= inner.len(),
            all == inner.deep_view(),
            forall|k: int| 0 <= k < i ==> names(outer.deep_view(), #[trigger] all[k]),
        decreases inner.len() - i,
    {
        if !has_name(outer, inner[i].as_str()) {
            assert(!names(outer.deep_view(), all[i as int]));
            return false;
        }
        i += 1;
    }
    true
}

/// A policy that names one to 32 agents and at most 16 workers.
pub open spec fn is_policy(policy: TaskPolicyModel) -> bool {
    &&& 0 < policy.allowed_agents.len() <= 32
    &&& policy.max_workers <= 16
    &&& forall|i: int|
        0 <= i < policy.allowed_agents.len() ==> is_bounded(#[trigger] policy.allowed_agents[i], 64)
}

/// Whether a task policy is admissible.
pub fn valid_policy(policy: &TaskPolicy) -> (res: bool)
    ensures
        res == is_policy(policy.deep_view()),
{
    let agents = &policy.allowed_agents;
    let ghost all = policy.deep_view().allowed_agents;
    if agents.len() == 0 || agents.len() > 32 || policy.max_workers > 16 {
        return false;
    }
    let mut i: usize = 0;
    while i < agents.len()
        invariant
            i <= agents.len(),
            all == agents.deep_view(),
            all == policy.deep_view().allowed_agents,
            forall|k: int| 0 <= k < i ==> is_bounded(#[trigger] all[k], 64),
        decreases agents.len() - i,
    {
        if !bounded(agents[i].as_str(), 64) {
            assert(!is_bounded(all[i as int], 64));
            return false;
        }
        i += 1;
    }
    true
}

/// Whether a launch under a task is allowed: neither it nor an ancestor is paused, and the
/// chain of ancestors ends.
pub open spec fn launchable(
    s: StoreModel,
    session: Text,
    current: TaskModel,
    visited: Seq<Text>,
) -> WorkResult<()>
    decreases MAX_LAUNCH_CHAIN + 1 - visited.len(),
{
    if current.paused {
        refused(FailureCode::NotReady)
    } else if names(visited, current.id) || visited.len() >= MAX_LAUNCH_CHAIN {
        refused(FailureCode::ScopeMismatch)
    } else {
        match current.parent_task_id {
            None => Ok(()),
            Some(parent) => match loaded::<Task>(s, session, parent) {
                Err(error) => Err(error),
                Ok(next) => launchable(s, session, next, visited.push(current.id)),
            },
        }
    }
}

/// Whether a task is another one or lies below it.
pub open spec fn under(
    s: StoreModel,
    session: Text,
    id: Text,
    ancestor: Text,
    steps: nat,
) -> bool
    decreases steps,
{
    id == ancestor || (steps > 0 && match loaded::<Task>(s, session, id) {
        Ok(task) => task.parent_task_id matches Some(parent) && under(
            s,
            session,
            parent,
            ancestor,
            (steps - 1) as nat,
        ),
        Err(_) => false,
    })
}

/// Whether a task is another one or lies below it. No chain is longer than the table.
pub open spec fn in_tree(s: StoreModel, session: Text, id: Text, ancestor: Text) -> bool {
    under(s, session, id, ancestor, s.records.len())
}

/// An active attempt that counts against a task's allowance: a worker of the task, or any
/// attempt of a task below it.
pub open spec fn charged(s: StoreModel, record: RecordModel, session: Text, ancestor: Text) -> bool {
    &&& record.session == session
    &&& record.body matches BodyModel::Attempt(attempt) && is_active(attempt) && (record.task_id
        != ancestor || attempt.role == AttemptRole::Worker)
    &&& in_tree(s, session, record.task_id, ancestor)
}

/// How much of a task's allowance is taken.
pub open spec fn delegated_reservations(
    s: StoreModel,
    rows: Seq<RecordModel>,
    session: Text,
    ancestor: Text,
) -> nat
    decreases rows.len(),
{
    if rows.len() == 0 {
        0
    } else {
        let before = delegated_reservations(s, rows.drop_last(), session, ancestor);
        if charged(s, rows.last(), session, ancestor) {
            before + 1
        } else {
            before
        }
    }
}

/// How many tasks lie below another.
pub open spec fn descendants(
    s: StoreModel,
    rows: Seq<RecordModel>,
    session: Text,
    ancestor: Text,
) -> nat
    decreases rows.len(),
{
    if rows.len() == 0 {
        0
    } else {
        let before = descendants(s, rows.drop_last(), session, ancestor);
        let last = rows.last();
        if last.session == session && last.body is Task && last.id != ancestor && in_tree(
            s,
            session,
            last.id,
            ancestor,
        ) {
            before + 1
        } else {
            before
        }
    }
}

/// Whether every scope from a task upwards has room for one more attempt.
pub open spec fn within_budget(
    s: StoreModel,
    session: Text,
    scope: Option<TaskModel>,
    depth: nat,
) -> WorkResult<()>
    decreases MAX_DEPTH - depth,
{
    match scope {
        None => Ok(()),
        Some(ancestor) => if depth >= MAX_DEPTH {
            refused(FailureCode::ScopeMismatch)
        } else if delegated_reservations(s, s.records, session, ancestor.id)
            >= ancestor.policy.max_workers {
            refused(FailureCode::ResourceLimit)
        } else {
            match ancestor.parent_task_id {
                None => Ok(()),
                Some(parent) => match loaded::<Task>(s, session, parent) {
                    Err(error) => Err(error),
                    Ok(next) => within_budget(s, session, Some(next), depth + 1),
                },
            }
        },
    }
}

/// Whether the allowance of a task and its ancestors has room for an attempt of a role. A
/// task's own lead counts against its ancestors only.
pub open spec fn budgeted(s: StoreModel, task: TaskModel, role: AttemptRole) -> WorkResult<()> {
    if role == AttemptRole::Worker {
        within_budget(s, task.session_id, Some(task), 0)
    } else {
        match task.parent_task_id {
            None => Ok(()),
            Some(parent) => match loaded::<Task>(s, task.session_id, parent) {
                Err(error) => Err(error),
                Ok(next) => within_budget(s, task.session_id, Some(next), 0),
            },
        }
    }
}

/// Whether a task may be nested below the task named.
pub open spec fn nestable(s: StoreModel, session: Text, next: Option<Text>, depth: nat) -> WorkResult<
    (),
>
    decreases MAX_DEPTH - depth,
{
    match next {
        None => Ok(()),
        Some(id) => if depth + 1 >= MAX_DEPTH {
            refused(FailureCode::ResourceLimit)
        } else {
            match loaded::<Task>(s, session, id) {
                Err(error) => Err(error),
                Ok(task) => nestable(s, session, task.parent_task_id, depth + 1),
            }
        },
    }
}

/// One resource of a binding with a report about it merged in.
pub open spec fn merged_resource(old_value: Option<Text>, new_value: Option<Text>) -> WorkResult<
    Option<Text>,
> {
    match new_value {
        None => Ok(old_value),
        Some(value) => if !is_bounded(value, 4096) {
            refused(FailureCode::InvalidInput)
        } else if old_value is Some && old_value != new_value {
            refused(FailureCode::InstanceChanged)
        } else {
            Ok(new_value)
        },
    }
}

/// A binding with a report merged in: what was known stays, what is new is added, and what
/// contradicts is refused.
pub open spec fn merged(known: NativeBindingModel, report: NativeBindingModel) -> WorkResult<
    NativeBindingModel,
> {
    match merged_resource(known.workspace_id, report.workspace_id) {
        Err(error) => Err(error),
        Ok(workspace_id) => match merged_resource(known.tab_id, report.tab_id) {
            Err(error) => Err(error),
            Ok(tab_id) => match merged_resource(known.instance_id, report.instance_id) {
                Err(error) => Err(error),
                Ok(instance_id) => match merged_resource(known.target, report.target) {
                    Err(error) => Err(error),
                    Ok(target) => match merged_resource(known.pane_id, report.pane_id) {
                        Err(error) => Err(error),
                        Ok(pane_id) => match merged_resource(
                            known.worktree_path,
                            report.worktree_path,
                        ) {
                            Err(error) => Err(error),
                            Ok(worktree_path) => Ok(
                                NativeBindingModel {
                                    workspace_id,
                                    tab_id,
                                    instance_id,
                                    target,
                                    pane_id,
                                    worktree_path,
                                },
                            ),
                        },
                    },
                },
            },
        },
    }
}

/// An operation as it is first recorded.
pub open spec fn fresh_operation(
    id: Text,
    task: Text,
    attempt_id: Option<Text>,
    kind: OperationKind,
    now: i64,
) -> OperationModel {
    OperationModel {
        interruption_receipt: None,
        interruption_owner_epoch: None,
        delegation_fence: None,
        dependency_snapshot: Seq::empty(),
        input_refs: Seq::empty(),
        bootstrap_version: None,
        id,
        task_id: task,
        attempt_id,
        kind,
        state: OperationState::Prepared,
        resources: unbound(),
        failure_code: None,
        created_at_ms: now,
        updated_at_ms: now,
    }
}

/// The attempt that a start operation starts.
pub open spec fn started_attempt(s: StoreModel, session: Text, op: OperationModel) -> WorkResult<
    AttemptModel,
> {
    if op.kind != OperationKind::StartAttempt {
        refused(FailureCode::InvalidInput)
    } else {
        match op.attempt_id {
            None => refused(FailureCode::InvalidInput),
            Some(id) => match loaded::<Attempt>(s, session, id) {
                Err(error) => Err(error),
                Ok(attempt) => if attempt.task_id != op.task_id {
                    refused(FailureCode::ScopeMismatch)
                } else {
                    Ok(attempt)
                },
            },
        }
    }
}

/// Whether an attempt is the one that a reconciliation expects.
pub open spec fn expected_binding(
    attempt: AttemptModel,
    task_id: Text,
    input: ReconcileInputModel,
) -> WorkResult<()> {
    if attempt.task_id != task_id {
        refused(FailureCode::ScopeMismatch)
    } else if attempt.binding.instance_id != input.expected_instance_id
        || attempt.lifecycle.native_owner_epoch != input.expected_native_owner_epoch {
        refused(FailureCode::InstanceChanged)
    } else {
        Ok(())
    }
}

/// Whether an attempt's confirmed launch is the one named.
pub open spec fn confirmed_binding(
    attempt: AttemptModel,
    instance_id: Text,
    owner_epoch: Text,
) -> WorkResult<()> {
    if !is_native_identity(instance_id) || !is_native_identity(owner_epoch) {
        refused(FailureCode::InvalidInput)
    } else if attempt.lifecycle.launch_phase != LaunchPhase::LaunchConfirmed
        || attempt.binding.instance_id != Some(instance_id) || attempt.lifecycle.native_owner_epoch
        != Some(owner_epoch) {
        refused(FailureCode::InstanceChanged)
    } else {
        Ok(())
    }
}

/// Whether an optional text is a given one.
pub fn is_text(value: &Option<String>, text: &str) -> (res: bool)
    ensures
        res == (value.deep_view() == Some(text@)),
{
    match value {
        Some(known) => text_eq(known.as_str(), text),
        None => false,
    }
}

/// Merges a report into one resource.
fn merge_resource(known: &Option<String>, report: Option<String>) -> (res: WorkResult<
    Option<String>,
>)
    ensures
        shown(res) == merged_resource(known.deep_view(), report.deep_view()),
{
    match report {
        None => Ok(known.replica()),
        Some(value) => {
            if !bounded(value.as_str(), 4096) {
                return refuse(FailureCode::InvalidInput);
            }
            if known.is_some() && !is_text(known, value.as_str()) {
                return refuse(FailureCode::InstanceChanged);
            }
            Ok(Some(value))
        },
    }
}

/// Merges a report into a binding.
pub fn merge_binding(known: &NativeBinding, report: NativeBinding) -> (res: WorkResult<
    NativeBinding,
>)
    ensures
        shown(res) == merged(known.deep_view(), report.deep_view()),
{
    let workspace_id = merge_resource(&known.workspace_id, report.workspace_id)?;
    let tab_id = merge_resource(&known.tab_id, report.tab_id)?;
    let instance_id = merge_resource(&known.instance_id, report.instance_id)?;
    let target = merge_resource(&known.target, report.target)?;
    let pane_id = merge_resource(&known.pane_id, report.pane_id)?;
    let worktree_path = merge_resource(&known.worktree_path, report.worktree_path)?;
    Ok(NativeBinding { workspace_id, tab_id, instance_id, target, pane_id, worktree_path })
}

/// Whether a binding names no native resource.
pub fn empty_binding(binding: &NativeBinding) -> (res: bool)
    ensures
        res == (binding.deep_view() == unbound()),
{
    binding.workspace_id.is_none() && binding.tab_id.is_none() && binding.instance_id.is_none()
        && binding.target.is_none() && binding.pane_id.is_none() && binding.worktree_path.is_none()
}

/// An operation as it is first recorded.
pub fn new_operation(
    id: &str,
    task: &str,
    attempt_id: Option<String>,
    kind: OperationKind,
    now: i64,
) -> (res: Operation)
    ensures
        res.deep_view() == fresh_operation(id@, task@, attempt_id.deep_view(), kind, now),
{
    Operation {
        interruption_receipt: None,
        interruption_owner_epoch: None,
        delegation_fence: None,
        dependency_snapshot: no_items(),
        input_refs: no_items(),
        bootstrap_version: None,
        id: id.to_string(),
        task_id: task.to_string(),
        attempt_id,
        kind,
        state: OperationState::Prepared,
        resources: NativeBinding::default(),
        failure_code: None,
        created_at_ms: now,
        updated_at_ms: now,
    }
}

/// Whether an attempt is the one that a reconciliation expects.
pub fn reconcile_binding(attempt: &Attempt, task_id: &str, input: &ReconcileInput) -> (res:
    WorkResult<()>)
    ensures
        res == expected_binding(attempt.deep_view(), task_id@, input.deep_view()),
{
    if !text_eq(attempt.task_id.as_str(), task_id) {
        return refuse(FailureCode::ScopeMismatch);
    }
    if !attempt.binding.instance_id.same(&input.expected_instance_id)
        || !attempt.lifecycle.native_owner_epoch.same(&input.expected_native_owner_epoch) {
        return refuse(FailureCode::InstanceChanged);
    }
    Ok(())
}

/// Whether an attempt's confirmed launch is the one named.
pub fn match_native_binding(attempt: &Attempt, instance_id: &str, owner_epoch: &str) -> (res:
    WorkResult<()>)
    ensures
        res == confirmed_binding(attempt.deep_view(), instance_id@, owner_epoch@),
{
    if !native_identity(instance_id) || !native_identity(owner_epoch) {
        return refuse(FailureCode::InvalidInput);
    }
    if attempt.lifecycle.launch_phase != LaunchPhase::LaunchConfirmed || !is_text(
        &attempt.binding.instance_id,
        instance_id,
    ) || !is_text(&attempt.lifecycle.native_owner_epoch, owner_epoch) {
        return refuse(FailureCode::InstanceChanged);
    }
    Ok(())
}

/// Refuses a request that was made against another revision.
pub fn revision(task: &Task, expected: u64) -> (res: WorkResult<()>)
    ensures
        res == (if task.deep_view().revision != expected {
            refused::<()>(FailureCode::RevisionConflict)
        } else {
            Ok(())
        }),
{
    if task.revision != expected {
        return refuse(FailureCode::RevisionConflict);
    }
    Ok(())
}

impl WorkStore {
    /// Whether a launch under a task is allowed. Pausing a task fences future launches
    /// throughout the tree below it.
    pub(crate) fn launch_allowed(&self, task: &Task) -> (res: WorkResult<()>)
        ensures
            res == launchable(
                self@,
                task.deep_view().session_id,
                task.deep_view(),
                Seq::empty(),
            ),
    {
        let ghost first = task.deep_view();
        let mut current = task.replica();
        let mut visited: Vec<String> = no_items();
        loop
            invariant
                first == task.deep_view(),
                visited.len() <= MAX_LAUNCH_CHAIN,
                launchable(self@, first.session_id, first, Seq::empty()) == launchable(
                    self@,
                    first.session_id,
                    current.deep_view(),
                    visited.deep_view(),
                ),
            decreases MAX_LAUNCH_CHAIN - visited.len(),
        {
            if current.paused {
                return refuse(FailureCode::NotReady);
            }
            if has_name(&visited, current.id.as_str()) || visited.len() >= MAX_LAUNCH_CHAIN {
                return refuse(FailureCode::ScopeMismatch);
            }
            match &current.parent_task_id {
                None => {
                    return Ok(());
                },
                Some(parent) => {
                    let next = self.load::<Task>(task.session_id.as_str(), parent.as_str())?;
                    add_row(&mut visited, current.id);
                    current = next;
                },
            }
        }
    }

    /// Whether a task is another one or lies below it.
    pub(crate) fn lies_under(&self, session: &str, id: &str, ancestor: &str) -> (res: bool)
        ensures
            res == in_tree(self@, session@, id@, ancestor@),
    {
        let mut current = id.to_string();
        let mut steps: usize = self.records.len();
        loop
            invariant
                in_tree(self@, session@, id@, ancestor@) == under(
                    self@,
                    session@,
                    current@,
                    ancestor@,
                    steps as nat,
                ),
            decreases steps,
        {
            if text_eq(current.as_str(), ancestor) {
                return true;
            }
            if steps == 0 {
                return false;
            }
            match self.load::<Task>(session, current.as_str()) {
                Ok(task) => {
                    match task.parent_task_id {
                        Some(parent) => {
                            current = parent;
                            steps -= 1;
                        },
                        None => {
                            return false;
                        },
                    }
                },
                Err(_) => {
                    return false;
                },
            }
        }
    }

    fn count_reservations(&self, session: &str, ancestor: &str) -> (res: u64)
        ensures
            res == delegated_reservations(self@, self@.records, session@, ancestor@),
    {
        let ghost all = self@.records;
        let mut count: u64 = 0;
        let mut i: usize = 0;
        while i < self.records.len()
            invariant
                i <= self.records.len(),
                count <= i,
                all == self@.records,
                count == delegated_reservations(self@, all.take(i as int), session@, ancestor@),
            decreases self.records.len() - i,
        {
            assert(all.take(i + 1).drop_last() =~= all.take(i as int));
            let record = &self.records[i];
            let counts = match &record.body {
                Body::Attempt(attempt) => text_eq(record.session.as_str(), session)
                    && reservation_active(attempt) && (!text_eq(record.task_id.as_str(), ancestor)
                    || attempt.role == AttemptRole::Worker) && self.lies_under(
                    session,
                    record.task_id.as_str(),
                    ancestor,
                ),
                _ => false,
            };
            if counts {
                count += 1;
            }
            i += 1;
        }
        assert(all.take(i as int) =~= all);
        count
    }

    /// How many tasks lie below another.
    pub(crate) fn count_descendants(&self, session: &str, ancestor: &str) -> (res: u64)
        ensures
            res == descendants(self@, self@.records, session@, ancestor@),
    {
        let ghost all = self@.records;
        let mut count: u64 = 0;
        let mut i: usize = 0;
        while i < self.records.len()
            invariant
                i <= self.records.len(),
                count <= i,
                all == self@.records,
                count == descendants(self@, all.take(i as int), session@, ancestor@),
            decreases self.records.len() - i,
        {
            assert(all.take(i + 1).drop_last() =~= all.take(i as int));
            let record = &self.records[i];
            let counts = match &record.body {
                Body::Task(_) => text_eq(record.session.as_str(), session) && !text_eq(
                    record.id.as_str(),
                    ancestor,
                ) && self.lies_under(session, record.id.as_str(), ancestor),
                _ => false,
            };
            if counts {
                count += 1;
            }
            i += 1;
        }
        assert(all.take(i as int) =~= all);
        count
    }

    /// Whether the allowance of a task and its ancestors has room for an attempt.
    pub(crate) fn delegation_budget(&self, task: &Task, role: AttemptRole) -> (res: WorkResult<()>)
        ensures
            res == budgeted(self@, task.deep_view(), role),
    {
        let session = task.session_id.as_str();
        let mut ancestor = if role == AttemptRole::Worker {
            task.replica()
        } else {
            match &task.parent_task_id {
                None => {
                    return Ok(());
                },
                Some(parent) => self.load::<Task>(session, parent.as_str())?,
            }
        };
        let mut depth: usize = 0;
        loop
            invariant
                session@ == task.deep_view().session_id,
                depth <= MAX_DEPTH,
                budgeted(self@, task.deep_view(), role) == within_budget(
                    self@,
                    session@,
                    Some(ancestor.deep_view()),
                    depth as nat,
                ),
            decreases MAX_DEPTH - depth,
        {
            if depth >= MAX_DEPTH {
                return refuse(FailureCode::ScopeMismatch);
            }
            if self.count_reservations(session, ancestor.id.as_str())
                >= ancestor.policy.max_workers as u64 {
                return refuse(FailureCode::ResourceLimit);
            }
            match &ancestor.parent_task_id {
                None => {
                    return Ok(());
                },
                Some(parent) => {
                    let next = self.load::<Task>(session, parent.as_str())?;
                    ancestor = next;
                },
            }
            depth += 1;
        }
    }

    /// Whether a task may be nested below the task named.
    pub(crate) fn nesting_allowed(&self, session: &str, parent: &Option<String>) -> (res:
        WorkResult<()>)
        ensures
            res == nestable(self@, session@, parent.deep_view(), 1),
    {
        let mut next = parent.replica();
        let mut depth: usize = 1;
        loop
            invariant
                1 <= depth <= MAX_DEPTH,
                nestable(self@, session@, parent.deep_view(), 1) == nestable(
                    self@,
                    session@,
                    next.deep_view(),
                    depth as nat,
                ),
            decreases MAX_DEPTH - depth,
        {
            match next {
                None => {
                    return Ok(());
                },
                Some(id) => {
                    if depth + 1 >= MAX_DEPTH {
                        return refuse(FailureCode::ResourceLimit);
                    }
                    let task = self.load::<Task>(session, id.as_str())?;
                    next = task.parent_task_id;
                    depth += 1;
                },
            }
        }
    }

    /// The attempt that a start operation starts.
    pub(crate) fn start_attempt(&self, session: &str, op: &Operation) -> (res: WorkResult<Attempt>)
        ensures
            shown(res) == started_attempt(self@, session@, op.deep_view()),
    {
        if op.kind != OperationKind::StartAttempt {
            return refuse(FailureCode::InvalidInput);
        }
        match &op.attempt_id {
            None => refuse(FailureCode::InvalidInput),
            Some(id) => {
                let attempt = self.load::<Attempt>(session, id.as_str())?;
                if !text_eq(attempt.task_id.as_str(), op.task_id.as_str()) {
                    return refuse(FailureCode::ScopeMismatch);
                }
                Ok(attempt)
            },
        }
    }
}

/// The ancestor so many steps above a task, the task itself for none.
pub open spec fn ancestor(s: StoreModel, session: Text, task: TaskModel, steps: nat) -> Option<
    TaskModel,
>
    decreases steps,
{
    if steps == 0 {
        Some(task)
    } else {
        match task.parent_task_id {
            None => None,
            Some(parent) => match loaded::<Task>(s, session, parent) {
                Err(_) => None,
                Ok(next) => ancestor(s, session, next, (steps - 1) as nat),
            },
        }
    }
}

/// A launch is allowed only where neither the task nor any ancestor is paused.
pub proof fn launch_means_unpaused(
    s: StoreModel,
    session: Text,
    task: TaskModel,
    visited: Seq<Text>,
    steps: nat,
)
    requires
        launchable(s, session, task, visited) is Ok,
    ensures
        ancestor(s, session, task, steps) matches Some(above) ==> !above.paused,
    decreases steps,
{
    if steps > 0 {
        match task.parent_task_id {
            None => {},
            Some(parent) => match loaded::<Task>(s, session, parent) {
                Err(_) => {},
                Ok(next) => {
                    launch_means_unpaused(
                        s,
                        session,
                        next,
                        visited.push(task.id),
                        (steps - 1) as nat,
                    );
                },
            },
        }
    }
}

/// An attempt is within budget only where the task and every ancestor have room for it.
pub proof fn budget_means_room(
    s: StoreModel,
    session: Text,
    task: TaskModel,
    depth: nat,
    steps: nat,
)
    requires
        within_budget(s, session, Some(task), depth) is Ok,
    ensures
        ancestor(s, session, task, steps) matches Some(above) ==> delegated_reservations(
            s,
            s.records,
            session,
            above.id,
        ) < above.policy.max_workers,
    decreases steps,
{
    if steps > 0 {
        match task.parent_task_id {
            None => {},
            Some(parent) => match loaded::<Task>(s, session, parent) {
                Err(_) => {},
                Ok(next) => {
                    budget_means_room(s, session, next, depth + 1, (steps - 1) as nat);
                },
            },
        }
    }
}

/// A task may be nested only where it has fewer ancestors than tasks may be deep.
pub proof fn nesting_is_bounded(
    s: StoreModel,
    session: Text,
    task: TaskModel,
    depth: nat,
    steps: nat,
)
    requires
        nestable(s, session, task.parent_task_id, depth) is Ok,
        ancestor(s, session, task, steps) is Some,
        steps > 0,
    ensures
        depth + steps < MAX_DEPTH,
    decreases steps,
{
    let next = loaded::<Task>(s, session, task.parent_task_id->0)->Ok_0;
    if steps > 1 {
        nesting_is_bounded(s, session, next, depth + 1, (steps - 1) as nat);
    }
}

} // verus!
