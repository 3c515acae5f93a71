//! What a session's native side has to offer before it is used, and what its answers are worth.
use vstd::prelude::*;
use crate::text::text_eq;
use crate::value::Replica;
use crate::value::Same;
use crate::value::Text;
use crate::value::no_items;
use crate::value::shown;
use crate::work::model::Attempt;
use crate::work::model::FailureCode;
use crate::work::model::NativeBinding;
use crate::work::model::NativeBindingModel;
use crate::work::model::Operation;
use crate::work::model::Reservation;
use crate::work::model::Task;
use crate::work::model::WorkError;
use crate::work::model::WorkResult;
use crate::work::model::unbound;
use crate::work::store::growth::listed_is_recorded;
use crate::work::store::growth::recorded_is_listed;
use crate::work::store::history::filed_as_said;
use crate::work::store::history::well_formed;
use crate::work::store::readings::reads_give_what_is_recorded;
use crate::work::store::records::loaded;
use crate::work::store::records::position;
use crate::work::store::records::position_in_range;
use crate::work::store::records::refuse;
use crate::work::store::records::refused;
use crate::work::store::tables::StoreModel;
use crate::work::store::tables::WorkStore;
use crate::work::store::tasks::detail_of;
use crate::work_authority::Issuance;
use crate::work_authority::Registry;
use crate::work_authority::Scope;
use crate::work_authority::ScopeModel;
use crate::work_authority::files_of;
use crate::work_authority::issue_drawn;
use crate::work_authority::without;
use crate::work_execution::NativeAnswer;
use crate::work_execution::NativeAnswerModel;
use crate::work_execution::NativeFailure;
use crate::work_execution::NativeFailureModel;
use crate::work_execution::delivery::attempt_in;
use crate::work_execution::delivery::attempts_are_found;
use crate::work_execution::delivery::find_attempt;
use crate::work_execution::reconcile::Lifecycle;
use crate::work_execution::start::BindingReply;
use crate::work_execution::start::BindingReplyModel;
use crate::work_execution::start::LaunchReply;
use crate::work_execution::start::LaunchReplyModel;

verus! {

/// A pane of the terminal.
#[derive(Debug, PartialEq, Eq)]
pub struct Pane {
    pub id: String,
    pub tab_id: String,
    pub workspace_id: String,
}

/// The value of a `Pane`.
#[verifier::ext_equal]
pub struct PaneModel {
    pub id: Text,
    pub tab_id: Text,
    pub workspace_id: Text,
}

impl DeepView for Pane {
    type V = PaneModel;

    open spec fn deep_view(&self) -> PaneModel {
        PaneModel {
            id: self.id.deep_view(),
            tab_id: self.tab_id.deep_view(),
            workspace_id: self.workspace_id.deep_view(),
        }
    }
}

/// Where a task's worktree was made.
#[derive(Debug, PartialEq, Eq)]
pub struct Placement {
    pub workspace_id: String,
    pub pane_id: String,
    pub path: Option<String>,
}

/// The value of a `Placement`.
#[verifier::ext_equal]
pub struct PlacementModel {
    pub workspace_id: Text,
    pub pane_id: Text,
    pub path: Option<Text>,
}

impl DeepView for Placement {
    type V = PlacementModel;

    open spec fn deep_view(&self) -> PlacementModel {
        PlacementModel {
            workspace_id: self.workspace_id.deep_view(),
            pane_id: self.pane_id.deep_view(),
            path: self.path.deep_view(),
        }
    }
}

/// The native side names a capability.
pub open spec fn offers(capabilities: Seq<Text>, name: Text) -> bool {
    capabilities.contains(name)
}

/// Whether the native side names a capability.
pub fn has_capability(capabilities: &[String], name: &str) -> (res: bool)
    ensures
        res == offers(capabilities.deep_view(), name@),
{
    let ghost all = capabilities.deep_view();
    let mut i: usize = 0;
    while i < capabilities.len()
        invariant
            i <= capabilities.len(),
            all == capabilities.deep_view(),
            forall|k: int| 0 <= k < i ==> #[trigger] all[k] != name@,
        decreases capabilities.len() - i,
    {
        assert(all[i as int] == capabilities[i as int].deep_view());
        if text_eq(capabilities[i].as_str(), name) {
            assert(all[i as int] == name@);
            return true;
        }
        i += 1;
    }
    false
}

/// Whether starts and prompts can be bound to a process. Without a way to hand out local authority
/// nothing is started.
pub fn supported(local_authority: bool, capabilities: &[String]) -> (res: bool)
    ensures
        res == (local_authority && offers(
            capabilities.deep_view(),
            "instance_bound_start"@,
        ) && offers(capabilities.deep_view(), "instance_bound_prompt"@)),
{
    local_authority && has_capability(capabilities, "instance_bound_start") && has_capability(
        capabilities,
        "instance_bound_prompt",
    )
}

/// Whether interrupts can be bound to a process.
pub fn interruptible(capabilities: &[String]) -> (res: WorkResult<()>)
    ensures
        res == (if offers(capabilities.deep_view(), "instance_bound_interrupt"@) {
            Ok(())
        } else {
            refused(FailureCode::CapabilityUnavailable)
        }),
{
    if !has_capability(capabilities, "instance_bound_interrupt") {
        return refuse(FailureCode::CapabilityUnavailable);
    }
    Ok(())
}

/// Whether a kind of agent reports through a server of its own, which the native side has to know
/// how to run.
pub fn needs_reporting(kind: &str) -> (res: bool)
    ensures
        res == (kind@ == "codex"@),
{
    text_eq(kind, "codex")
}

/// Whether the native side is ready for a kind of agent. Only an agent that reports through a
/// server needs that server pinned.
pub fn preflight_start(kind: &str, capabilities: &[String], pinned: bool) -> (res: NativeAnswer)
    ensures
        res.deep_view() == (if kind@ == "codex"@ && !(offers(
            capabilities.deep_view(),
            "reporting_mcp_codex"@,
        ) && pinned) {
            NativeAnswerModel::Failed(NativeFailureModel::Unsupported)
        } else {
            NativeAnswerModel::Done
        }),
{
    if needs_reporting(kind) && !(has_capability(capabilities, "reporting_mcp_codex") && pinned) {
        return NativeAnswer::Failed(NativeFailure::Unsupported);
    }
    NativeAnswer::Done
}

/// Whether the owner of a prompt's process still is the one that was recorded. Where no owner was
/// recorded there is nothing to compare.
pub fn preflight_owner(owner_epoch: &Option<String>, seen: &Lifecycle) -> (res: NativeAnswer)
    ensures
        res.deep_view() == (if owner_epoch is Some && !(seen.deep_view() is Live) {
            NativeAnswerModel::Failed(
                NativeFailureModel::Refused { code: Some("instance_changed"@) },
            )
        } else {
            NativeAnswerModel::Done
        }),
{
    if owner_epoch.is_none() {
        return NativeAnswer::Done;
    }
    match seen {
        Lifecycle::Live => NativeAnswer::Done,
        _ => NativeAnswer::Failed(
            NativeFailure::Refused { code: Some("instance_changed".to_string()) },
        ),
    }
}

/// The resources of a worktree that was made for a task.
pub fn placed(placement: Placement) -> (res: NativeBinding)
    ensures
        res.deep_view() == (NativeBindingModel {
            workspace_id: Some(placement.workspace_id@),
            pane_id: Some(placement.pane_id@),
            worktree_path: placement.path.deep_view(),
            ..unbound()
        }),
{
    NativeBinding {
        workspace_id: Some(placement.workspace_id),
        tab_id: None,
        instance_id: None,
        target: None,
        pane_id: Some(placement.pane_id),
        worktree_path: placement.path,
    }
}

/// The resources of a workspace that was made for a task.
pub fn workspace_binding(workspace_id: String) -> (res: NativeBinding)
    ensures
        res.deep_view() == (NativeBindingModel { workspace_id: Some(workspace_id@), ..unbound() }),
{
    NativeBinding {
        workspace_id: Some(workspace_id),
        tab_id: None,
        instance_id: None,
        target: None,
        pane_id: None,
        worktree_path: None,
    }
}

/// Where the first pane of a workspace stands.
pub open spec fn pane_in(panes: Seq<PaneModel>, workspace_id: Option<Text>) -> Option<int>
    decreases panes.len(),
{
    if panes.len() == 0 {
        None
    } else {
        match pane_in(panes.drop_last(), workspace_id) {
            Some(i) => Some(i),
            None => if Some(panes.last().workspace_id) == workspace_id {
                Some(panes.len() - 1)
            } else {
                None
            },
        }
    }
}

/// The pane that a binding leads to: nothing more where it has one already, else the first pane of
/// its workspace.
pub open spec fn pane_of(binding: NativeBindingModel, panes: Seq<PaneModel>) -> BindingReplyModel {
    if binding.pane_id is Some {
        BindingReplyModel::Bound(unbound())
    } else {
        match pane_in(panes, binding.workspace_id) {
            None => BindingReplyModel::Failed(NativeFailureModel::Other),
            Some(i) => BindingReplyModel::Bound(
                NativeBindingModel {
                    pane_id: Some(panes[i].id),
                    tab_id: Some(panes[i].tab_id),
                    ..unbound()
                },
            ),
        }
    }
}

/// The pane that a binding leads to.
pub fn locate(binding: &NativeBinding, panes: &[Pane]) -> (res: BindingReply)
    ensures
        res.deep_view() == pane_of(binding.deep_view(), panes.deep_view()),
{
    if binding.pane_id.is_some() {
        return BindingReply::Bound(NativeBinding::default());
    }
    let ghost all = panes.deep_view();
    let mut found: Option<usize> = None;
    let mut i: usize = 0;
    while i < panes.len()
        invariant
            i <= panes.len(),
            all == panes.deep_view(),
            match pane_in(all.take(i as int), binding.deep_view().workspace_id) {
                Some(k) => found is Some && found->0 == k && found->0 < i,
                None => found is None,
            },
        decreases panes.len() - i,
    {
        proof {
            assert(all.take(i as int + 1).drop_last() =~= all.take(i as int));
            assert(all.take(i as int + 1).last() == panes[i as int].deep_view());
        }
        let own = match &binding.workspace_id {
            Some(id) => panes[i].workspace_id.same(id),
            None => false,
        };
        if found.is_none() && own {
            found = Some(i);
        }
        i += 1;
    }
    assert(all.take(all.len() as int) =~= all);
    match found {
        None => BindingReply::Failed(NativeFailure::Other),
        Some(k) => BindingReply::Bound(
            NativeBinding {
                workspace_id: None,
                tab_id: Some(panes[k].tab_id.replica()),
                instance_id: None,
                target: None,
                pane_id: Some(panes[k].id.replica()),
                worktree_path: None,
            },
        ),
    }
}

/// The scope for which a start may hand out authority: its attempt is known and still reserved.
pub open spec fn launch_scope(s: StoreModel, session: Text, operation_id: Text) -> WorkResult<
    ScopeModel,
> {
    match loaded::<Operation>(s, session, operation_id) {
        Err(error) => Err(error),
        Ok(op) => match op.attempt_id {
            None => refused(FailureCode::ScopeMismatch),
            Some(attempt_id) => match detail_of(s, session, op.task_id) {
                Err(error) => Err(error),
                Ok(detail) => match attempt_in(detail.attempts, attempt_id) {
                    None => refused(FailureCode::ScopeMismatch),
                    Some(i) => if detail.attempts[i].lifecycle.reservation
                        == Reservation::Released {
                        refused(FailureCode::ScopeMismatch)
                    } else {
                        Ok(ScopeModel { session_id: session, task_id: op.task_id, attempt_id })
                    },
                },
            },
        },
    }
}

/// The scope for which a start may hand out authority.
pub fn scope_of_launch(store: &WorkStore, session: &str, operation_id: &str) -> (res: WorkResult<
    Scope,
>)
    ensures
        shown(res) == launch_scope(store@, session@, operation_id@),
{
    let op = store.get_operation(session, operation_id)?;
    let attempt_id = match op.attempt_id {
        Some(attempt_id) => attempt_id,
        None => {
            return refuse(FailureCode::ScopeMismatch);
        },
    };
    let detail = store.detail(session, op.task_id.as_str())?;
    let at = match find_attempt(&detail.attempts, attempt_id.as_str()) {
        Some(at) => at,
        None => {
            return refuse(FailureCode::ScopeMismatch);
        },
    };
    assert(detail.deep_view().attempts[at as int] == detail.attempts[at as int].deep_view());
    if detail.attempts[at].lifecycle.reservation == Reservation::Released {
        return refuse(FailureCode::ScopeMismatch);
    }
    Ok(Scope { session_id: session.to_string(), task_id: op.task_id, attempt_id })
}

/// Makes the grant of an attempt that is about to be launched, with a token that cannot be guessed.
/// The scope is looked up while the registry is held, so that no release can come between.
pub fn grant_launch(
    store: &WorkStore,
    registry: &mut Registry,
    session: &str,
    operation_id: &str,
    dir: &str,
    socket: &str,
    now: i64,
) -> (res: WorkResult<(Scope, Issuance)>)
    ensures
        match launch_scope(store@, session@, operation_id@) {
            Err(error) => res == Err::<(Scope, Issuance), WorkError>(error) && final(registry)@
                == old(registry)@,
            Ok(scope) => res is Ok && res->Ok_0.0.deep_view() == scope && issue_drawn(
                old(registry)@,
                final(registry)@,
                dir@,
                socket@,
                scope,
                now,
                res->Ok_0.1,
            ),
        },
{
    let scope = scope_of_launch(store, session, operation_id)?;
    let issuance = registry.issue(dir, socket, scope.replica(), now);
    Ok((scope, issuance))
}

/// The grant of a launch that provably made no process is taken back.
pub fn withdraw_grant(
    registry: &mut Registry,
    scope: &Scope,
    reply: &LaunchReply,
) -> (res: Vec<String>)
    ensures
        reply.deep_view() matches LaunchReplyModel::Failed(
            NativeFailureModel::StartNotStarted { .. },
        ) ==> final(registry)@ == without(old(registry)@, scope.deep_view()) && res.deep_view()
            == files_of(old(registry)@, scope.deep_view()),
        !(reply.deep_view() matches LaunchReplyModel::Failed(
            NativeFailureModel::StartNotStarted { .. },
        )) ==> final(registry)@ == old(registry)@ && res.deep_view() == Seq::<Text>::empty(),
{
    match reply {
        LaunchReply::Failed(NativeFailure::StartNotStarted { .. }) => registry.revoke_memory(scope),
        _ => no_items(),
    }
}

/// What a launch is answered with before the native side is asked, if it is not to be asked:
/// without local authority there is nothing to grant, an agent that the native side is not ready
/// for is not launched, and without a store no attempt can be named.
pub open spec fn launch_barred(
    local_authority: bool,
    ready: NativeAnswerModel,
    storage: bool,
) -> Option<LaunchReplyModel> {
    if !local_authority {
        Some(LaunchReplyModel::Failed(NativeFailureModel::Unsupported))
    } else if ready is Failed {
        Some(LaunchReplyModel::Failed(ready->Failed_0))
    } else if !storage {
        Some(LaunchReplyModel::Failed(NativeFailureModel::Other))
    } else {
        None
    }
}

/// Whether a launch is answered before the native side is asked.
pub fn bar_launch(local_authority: bool, ready: NativeAnswer, storage: bool) -> (res: Option<
    LaunchReply,
>)
    ensures
        res.deep_view() == launch_barred(local_authority, ready.deep_view(), storage),
{
    if !local_authority {
        return Some(LaunchReply::Failed(NativeFailure::Unsupported));
    }
    if let NativeAnswer::Failed(failure) = ready {
        return Some(LaunchReply::Failed(failure));
    }
    if !storage {
        return Some(LaunchReply::Failed(NativeFailure::Other));
    }
    None
}

/// What a launch is answered with whose attempt could not be given its authority: nothing was
/// started.
pub fn ungranted() -> (res: LaunchReply)
    ensures
        res.deep_view() == LaunchReplyModel::Failed(
            NativeFailureModel::Refused { code: Some("local_authority_unavailable"@) },
        ),
{
    LaunchReply::Failed(
        NativeFailure::Refused { code: Some("local_authority_unavailable".to_string()) },
    )
}

/// The resources of a launch.
pub fn launched(
    launch_id: Option<String>,
    target: Option<String>,
    owner_epoch: Option<String>,
) -> (res:
    LaunchReply)
    ensures
        res.deep_view() == (LaunchReplyModel::Launched {
            binding: NativeBindingModel {
                instance_id: launch_id.deep_view(),
                target: target.deep_view(),
                ..unbound()
            },
            owner_epoch: owner_epoch.deep_view(),
        }),
{
    LaunchReply::Launched {
        binding: NativeBinding {
            workspace_id: None,
            tab_id: None,
            instance_id: launch_id,
            target,
            pane_id: None,
            worktree_path: None,
        },
        owner_epoch,
    }
}

/// Whether the receipt of a prompt is the one for this operation and process. A receipt for another
/// leaves the delivery unconfirmed.
pub fn prompt_received(op: &Operation, operation_id: &str, launch_id: &str) -> (res: NativeAnswer)
    ensures
        res.deep_view() == (if op.deep_view().resources.instance_id == Some(launch_id@)
            && op.deep_view().id == operation_id@ {
            NativeAnswerModel::Done
        } else {
            NativeAnswerModel::Failed(NativeFailureModel::Other)
        }),
{
    let launch = match &op.resources.instance_id {
        Some(launch) => launch.as_str(),
        None => {
            return NativeAnswer::Failed(NativeFailure::Other);
        },
    };
    if !text_eq(op.id.as_str(), operation_id) || !text_eq(launch, launch_id) {
        return NativeAnswer::Failed(NativeFailure::Other);
    }
    NativeAnswer::Done
}

/// A binding with a pane leads nowhere else. One without leads to the first pane of its workspace,
/// with its tab; where the workspace has none, or is not known, nothing is found.
pub proof fn panes_are_those_of_the_workspace(binding: NativeBindingModel, panes: Seq<PaneModel>)
    ensures
        ({
            let reply = pane_of(binding, panes);
            let there = exists|i: int|
                0 <= i < panes.len() && binding.workspace_id == Some(
                    (#[trigger] panes[i]).workspace_id,
                );
            &&& binding.pane_id is Some ==> (reply matches BindingReplyModel::Bound(found)
                && found.pane_id is None && found.tab_id is None && found.workspace_id is None
                && found.instance_id is None && found.target is None && found.worktree_path is None)
            &&& binding.pane_id is None && there ==> (reply matches BindingReplyModel::Bound(found)
                && found.workspace_id is None && found.instance_id is None && found.target is None
                && found.worktree_path is None && exists|i: int|
                0 <= i < panes.len() && binding.workspace_id == Some(
                    (#[trigger] panes[i]).workspace_id,
                ) && found.pane_id == Some(panes[i].id) && found.tab_id == Some(panes[i].tab_id) && (
                forall|j: int|
                    0 <= j < i ==> binding.workspace_id != Some((#[trigger] panes[j]).workspace_id)))
            &&& binding.pane_id is None && !there ==> reply == BindingReplyModel::Failed(
                NativeFailureModel::Other,
            )
        }),
{
    first_pane_is_found(panes, binding.workspace_id);
}

proof fn first_pane_is_found(panes: Seq<PaneModel>, workspace_id: Option<Text>)
    ensures
        pane_in(
            panes,
            workspace_id,
        ) matches Some(i) ==> 0 <= i < panes.len() && workspace_id == Some(
            panes[i].workspace_id,
        ) && forall|j: int|
            0 <= j < i ==> workspace_id != Some((#[trigger] panes[j]).workspace_id),
        pane_in(panes, workspace_id) is None ==> forall|j: int|
            0 <= j < panes.len() ==> workspace_id != Some((#[trigger] panes[j]).workspace_id),
    decreases panes.len(),
{
    if panes.len() > 0 {
        let rest = panes.drop_last();
        first_pane_is_found(rest, workspace_id);
        if pane_in(rest, workspace_id) is None {
            assert forall|j: int| 0 <= j < rest.len() implies workspace_id != Some(
                (#[trigger] panes[j]).workspace_id,
            ) by {
                assert(rest[j] == panes[j]);
            }
        } else {
            let i = pane_in(rest, workspace_id)->0;
            assert forall|j: int| 0 <= j < i implies workspace_id != Some(
                (#[trigger] panes[j]).workspace_id,
            ) by {
                assert(rest[j] == panes[j]);
            }
        }
    }
}

/// A start may hand out authority exactly where its operation is recorded and its attempt, an
/// attempt of the operation's task, holds its place. The scope is that attempt.
pub proof fn launches_have_their_scope(s: StoreModel, session: Text, operation_id: Text)
    requires
        well_formed(s),
    ensures
        ({
            let res = launch_scope(s, session, operation_id);
            &&& res is Ok <==> (loaded::<Operation>(s, session, operation_id) matches Ok(op) && (
            op.attempt_id matches Some(id) && loaded::<Task>(s, session, op.task_id) is Ok && (
            loaded::<Attempt>(s, session, id) matches Ok(attempt) && attempt.task_id == op.task_id
                && attempt.lifecycle.reservation == Reservation::Reserved)))
            &&& res matches Ok(scope) ==> (loaded::<Operation>(s, session, operation_id) matches Ok(
                op,
            ) && scope.session_id == session && scope.task_id == op.task_id && op.attempt_id
                == Some(scope.attempt_id))
            &&& res matches Err(error) ==> error.0 == FailureCode::NotFound || error.0
                == FailureCode::ScopeMismatch
        }),
{
    reads_give_what_is_recorded(s, session, operation_id);
    if let Ok(op) = loaded::<Operation>(s, session, operation_id) {
        reads_give_what_is_recorded(s, session, op.task_id);
        if let Some(id) = op.attempt_id {
            if let Ok(detail) = detail_of(s, session, op.task_id) {
                attempts_are_found(detail.attempts, id);
                if let Some(i) = attempt_in(detail.attempts, id) {
                    let found = detail.attempts[i];
                    assert(detail.attempts.contains(found));
                    let at = listed_is_recorded::<Attempt>(s.records, session, op.task_id, found);
                    assert(filed_as_said(s.records[at]));
                    reads_give_what_is_recorded(s, session, id);
                }
                if let Ok(attempt) = loaded::<Attempt>(s, session, id) {
                    if attempt.task_id == op.task_id {
                        position_in_range(s.records, id);
                        let at = position(s.records, id)->0;
                        assert(filed_as_said(s.records[at]));
                        recorded_is_listed::<Attempt>(s.records, session, op.task_id, at, attempt);
                        let k = choose|k: int|
                            0 <= k < detail.attempts.len() && detail.attempts[k] == attempt;
                        assert(detail.attempts[k].id == id);
                    }
                }
            }
        }
    }
}

/// The native side is asked to launch exactly where there is local authority, it is ready for the
/// agent, and a store can name the attempt; the answer otherwise is the first of these that is
/// missing.
pub proof fn launches_are_barred_exactly(
    local_authority: bool,
    ready: NativeAnswerModel,
    storage: bool,
)
    ensures
        ({
            let barred = launch_barred(local_authority, ready, storage);
            &&& barred is None <==> local_authority && ready is Done && storage
            &&& !local_authority ==> barred == Some(
                LaunchReplyModel::Failed(NativeFailureModel::Unsupported),
            )
            &&& local_authority ==> (ready matches NativeAnswerModel::Failed(failure) ==> barred
                == Some(LaunchReplyModel::Failed(failure)))
            &&& local_authority && ready is Done && !storage ==> barred == Some(
                LaunchReplyModel::Failed(NativeFailureModel::Other),
            )
        }),
{
}

} // verus!
