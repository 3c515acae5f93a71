//! No task ever has more of its workers at work than it is allowed.
use vstd::prelude::*;
use crate::text::is_bounded;
use crate::value::Text;
use crate::work::model::Attempt;
use crate::work::model::AttemptRole;
use crate::work::model::CreateTaskModel;
use crate::work::model::DelegationFenceModel;
use crate::work::model::FailureCode;
use crate::work::model::InputRefModel;
use crate::work::model::MutationModel;
use crate::work::model::Operation;
use crate::work::model::OperationModel;
use crate::work::model::Task;
use crate::work::model::TaskModel;
use crate::work::model::WorkError;
use crate::work::store::attempts::StartModel;
use crate::work::store::attempts::has_bound_lead;
use crate::work::store::attempts::has_lead;
use crate::work::store::attempts::start_outcome;
use crate::work::store::attempts::start_request;
use crate::work::store::attempts::worker_count;
use crate::work::store::authority::DelegatedCreateModel;
use crate::work::store::deliveries::governed_if;
use crate::work::store::dependencies::snapshot_of;
use crate::work::store::growth::creating_grows;
use crate::work::store::growth::fresh_ids;
use crate::work::store::growth::opening_grows;
use crate::work::store::growth::starting_grows;
use crate::work::store::growth::task_added;
use crate::work::store::history::found_where_filed;
use crate::work::store::history::grown;
use crate::work::store::history::record_follows;
use crate::work::store::history::steady;
use crate::work::store::history::steady_but;
use crate::work::store::history::unused;
use crate::work::store::history::well_formed;
use crate::work::store::inputs::MAX_REFS;
use crate::work::store::lasting::started_within_allowance;
use crate::work::store::records::listed;
use crate::work::store::records::loaded;
use crate::work::store::records::position;
use crate::work::store::records::position_in_range;
use crate::work::store::records::refused;
use crate::work::store::recovery::empty_store;
use crate::work::store::recovery::opened;
use crate::work::store::requests::replayed;
use crate::work::store::rules::MAX_DEPTH;
use crate::work::store::rules::ancestor;
use crate::work::store::rules::budgeted;
use crate::work::store::rules::charged;
use crate::work::store::rules::delegated_reservations;
use crate::work::store::rules::descendants;
use crate::work::store::rules::in_tree;
use crate::work::store::rules::launch_means_unpaused;
use crate::work::store::rules::launchable;
use crate::work::store::rules::names;
use crate::work::store::rules::under;
use crate::work::store::rules::within_budget;
use crate::work::store::tables::BodyModel;
use crate::work::store::tables::RecordModel;
use crate::work::store::tables::StoreModel;
use crate::work::store::tables::Stored;
use crate::work::store::tasks::create_outcome;
use crate::work::store::tasks::parent_admits;

verus! {

/// Whether a task stands among some records.
pub open spec fn known(records: Seq<RecordModel>, session: Text, id: Text) -> bool {
    position(records, id) matches Some(i) && records[i].session == session
        && records[i].body is Task
}

/// Whether a task's parent, or an attempt's task, was recorded before it.
pub open spec fn housed(records: Seq<RecordModel>, i: int) -> bool {
    match records[i].body {
        BodyModel::Task(task) => task.parent_task_id matches Some(parent) ==> known(
            records,
            records[i].session,
            parent,
        ) && position(records, parent)->0 < i,
        BodyModel::Attempt(_) => known(records, records[i].session, records[i].task_id),
        _ => true,
    }
}

/// Whether a record is no task, or a task whose allowance is not exceeded.
pub open spec fn within_allowance(s: StoreModel, i: int) -> bool {
    s.records[i].body matches BodyModel::Task(task) ==> delegated_reservations(
        s,
        s.records,
        s.records[i].session,
        s.records[i].id,
    ) <= task.policy.max_workers
}

/// A store in which every task comes after its parent, every attempt belongs to a task, and no
/// allowance is exceeded.
pub open spec fn allowed(s: StoreModel) -> bool {
    &&& forall|i: int| 0 <= i < s.records.len() ==> #[trigger] housed(s.records, i)
    &&& forall|i: int| 0 <= i < s.records.len() ==> #[trigger] within_allowance(s, i)
}

/// An empty store exceeds no allowance.
pub proof fn empty_is_allowed()
    ensures
        allowed(empty_store()),
{
}

/// What is found within so many steps is found within more.
proof fn more_steps(s: StoreModel, session: Text, id: Text, above: Text, few: nat, many: nat)
    requires
        under(s, session, id, above, few),
        few <= many,
    ensures
        under(s, session, id, above, many),
    decreases few,
{
    if id != above {
        let parent = loaded::<Task>(s, session, id)->Ok_0.parent_task_id->0;
        more_steps(s, session, parent, above, (few - 1) as nat, (many - 1) as nat);
    }
}

/// Whatever lies above a task is found in no more steps than there are records before it.
proof fn few_steps(s: StoreModel, session: Text, id: Text, above: Text, steps: nat)
    requires
        allowed(s),
        known(s.records, session, id),
        under(s, session, id, above, steps),
    ensures
        under(s, session, id, above, position(s.records, id)->0 as nat),
        in_tree(s, session, id, above),
    decreases steps,
{
    position_in_range(s.records, id);
    let i = position(s.records, id)->0;
    if id != above {
        assert(housed(s.records, i));
        let parent = loaded::<Task>(s, session, id)->Ok_0.parent_task_id->0;
        position_in_range(s.records, parent);
        few_steps(s, session, parent, above, (steps - 1) as nat);
        let j = position(s.records, parent)->0;
        more_steps(s, session, parent, above, j as nat, (i - 1) as nat);
    }
    more_steps(s, session, id, above, i as nat, s.records.len());
}

/// What lies above a task is a task.
proof fn above_is_known(s: StoreModel, session: Text, id: Text, above: Text, steps: nat)
    requires
        allowed(s),
        known(s.records, session, id),
        under(s, session, id, above, steps),
    ensures
        known(s.records, session, above),
    decreases steps,
{
    if id != above {
        position_in_range(s.records, id);
        assert(housed(s.records, position(s.records, id)->0));
        let parent = loaded::<Task>(s, session, id)->Ok_0.parent_task_id->0;
        above_is_known(s, session, parent, above, (steps - 1) as nat);
    }
}

/// What lies above a task is one of its ancestors.
proof fn above_is_ancestor(
    s: StoreModel,
    session: Text,
    task: TaskModel,
    id: Text,
    above: Text,
    steps: nat,
) -> (up: nat)
    requires
        allowed(s),
        known(s.records, session, id),
        loaded::<Task>(s, session, id) == Ok::<TaskModel, WorkError>(task),
        under(s, session, id, above, steps),
    ensures
        ancestor(s, session, task, up) is Some,
        Ok::<TaskModel, WorkError>(ancestor(s, session, task, up)->0) == loaded::<Task>(
            s,
            session,
            above,
        ),
        up == 0 ==> id == above,
    decreases steps,
{
    if id == above {
        0
    } else {
        position_in_range(s.records, id);
        assert(housed(s.records, position(s.records, id)->0));
        let parent = task.parent_task_id->0;
        position_in_range(s.records, parent);
        let next = loaded::<Task>(s, session, parent)->Ok_0;
        above_is_ancestor(s, session, next, parent, above, (steps - 1) as nat) + 1
    }
}

/// A task stays known, in its place, and below what it was below.
proof fn still_known(before: StoreModel, later: StoreModel, session: Text, id: Text)
    requires
        well_formed(before),
        well_formed(later),
        grown(before, later),
        known(before.records, session, id),
    ensures
        known(later.records, session, id),
        position(later.records, id) == position(before.records, id),
        loaded::<Task>(before, session, id) is Ok,
        loaded::<Task>(later, session, id) matches Ok(task) && task.parent_task_id == loaded::<
            Task,
        >(before, session, id)->Ok_0.parent_task_id,
{
    position_in_range(before.records, id);
    let i = position(before.records, id)->0;
    assert(record_follows(before.records[i], later.records[i]));
    found_where_filed(later.records, i);
}

/// A task is below nothing that it was not below.
proof fn no_new_ancestors(
    before: StoreModel,
    later: StoreModel,
    session: Text,
    id: Text,
    above: Text,
    steps: nat,
)
    requires
        well_formed(before),
        well_formed(later),
        grown(before, later),
        allowed(before),
        known(before.records, session, id),
        under(later, session, id, above, steps),
    ensures
        under(before, session, id, above, steps),
    decreases steps,
{
    if id != above {
        still_known(before, later, session, id);
        position_in_range(before.records, id);
        assert(housed(before.records, position(before.records, id)->0));
        let parent = loaded::<Task>(before, session, id)->Ok_0.parent_task_id->0;
        no_new_ancestors(before, later, session, parent, above, (steps - 1) as nat);
    }
}

/// What counts against a task did so before.
proof fn charged_before(before: StoreModel, later: StoreModel, i: int, session: Text, above: Text)
    requires
        well_formed(before),
        well_formed(later),
        grown(before, later),
        allowed(before),
        0 <= i < before.records.len(),
        charged(later, later.records[i], session, above),
    ensures
        charged(before, before.records[i], session, above),
{
    assert(record_follows(before.records[i], later.records[i]));
    assert(housed(before.records, i));
    let id = before.records[i].task_id;
    no_new_ancestors(before, later, session, id, above, later.records.len());
    few_steps(before, session, id, above, later.records.len());
}

/// No more of an allowance is taken by what was there before.
proof fn taken_before(before: StoreModel, later: StoreModel, n: int, session: Text, above: Text)
    requires
        well_formed(before),
        well_formed(later),
        grown(before, later),
        allowed(before),
        0 <= n <= before.records.len(),
    ensures
        delegated_reservations(later, later.records.take(n), session, above)
            <= delegated_reservations(before, before.records.take(n), session, above),
    decreases n,
{
    if n > 0 {
        taken_before(before, later, n - 1, session, above);
        assert(later.records.take(n).drop_last() =~= later.records.take(n - 1));
        assert(before.records.take(n).drop_last() =~= before.records.take(n - 1));
        if charged(later, later.records[n - 1], session, above) {
            charged_before(before, later, n - 1, session, above);
        }
    }
}

/// What was added takes no more of an allowance than the one attempt among it.
proof fn taken_since(
    before: StoreModel,
    later: StoreModel,
    n: int,
    at: int,
    session: Text,
    above: Text,
)
    requires
        well_formed(before),
        well_formed(later),
        grown(before, later),
        allowed(before),
        steady_but(before.records, later.records, at),
        before.records.len() <= n <= later.records.len(),
    ensures
        delegated_reservations(later, later.records.take(n), session, above)
            <= delegated_reservations(before, before.records, session, above) + (
        if before.records.len() <= at < n && charged(later, later.records[at], session, above) {
            1nat
        } else {
            0nat
        }),
    decreases n,
{
    if n == before.records.len() {
        taken_before(before, later, n, session, above);
        assert(before.records.take(n) =~= before.records);
    } else {
        taken_since(before, later, n - 1, at, session, above);
        assert(later.records.take(n).drop_last() =~= later.records.take(n - 1));
        assert(later.records.take(n).last() == later.records[n - 1]);
    }
}

/// Nothing counts against a task that is not known.
proof fn none_taken(s: StoreModel, n: int, session: Text, above: Text)
    requires
        well_formed(s),
        allowed(s),
        !known(s.records, session, above),
        0 <= n <= s.records.len(),
    ensures
        delegated_reservations(s, s.records.take(n), session, above) == 0,
    decreases n,
{
    if n > 0 {
        none_taken(s, n - 1, session, above);
        assert(s.records.take(n).drop_last() =~= s.records.take(n - 1));
        if charged(s, s.records[n - 1], session, above) {
            assert(housed(s.records, n - 1));
            above_is_known(s, session, s.records[n - 1].task_id, above, s.records.len());
        }
    }
}

/// What was housed stays housed.
proof fn still_housed(before: StoreModel, later: StoreModel, i: int)
    requires
        well_formed(before),
        well_formed(later),
        grown(before, later),
        allowed(before),
        0 <= i < before.records.len(),
    ensures
        housed(later.records, i),
{
    assert(record_follows(before.records[i], later.records[i]));
    assert(housed(before.records, i));
    let session = before.records[i].session;
    match before.records[i].body {
        BodyModel::Task(task) => {
            if task.parent_task_id is Some {
                still_known(before, later, session, task.parent_task_id->0);
            }
        },
        BodyModel::Attempt(_) => {
            still_known(before, later, session, before.records[i].task_id);
        },
        _ => {},
    }
}

/// Growth that adds no task and no attempt exceeds no allowance: reservations are only given back.
/// Every transaction is such growth, but for creating a task and starting an attempt.
pub proof fn steady_growth_keeps_allowances(before: StoreModel, later: StoreModel)
    requires
        well_formed(before),
        well_formed(later),
        grown(before, later),
        steady(before.records, later.records),
        allowed(before),
    ensures
        allowed(later),
{
    assert forall|i: int| 0 <= i < later.records.len() implies #[trigger] housed(
        later.records,
        i,
    ) by {
        if i < before.records.len() {
            still_housed(before, later, i);
        }
    }
    assert forall|i: int| 0 <= i < later.records.len() implies #[trigger] within_allowance(
        later,
        i,
    ) by {
        if i < before.records.len() && later.records[i].body is Task {
            assert(record_follows(before.records[i], later.records[i]));
            assert(within_allowance(before, i));
            let session = later.records[i].session;
            let id = later.records[i].id;
            let n = later.records.len() as int;
            taken_since(before, later, n, -1, session, id);
            assert(later.records.take(n) =~= later.records);
        }
    }
}

/// Creating a task exceeds no allowance: nothing counts against the new task, and nothing more
/// against the others.
pub proof fn creation_keeps_allowances(
    s: StoreModel,
    id: Text,
    origin_id: Text,
    share_ids: Seq<Text>,
    actor: Text,
    session: Text,
    key: Text,
    input: CreateTaskModel,
    refs: Seq<InputRefModel>,
    context: Option<DelegatedCreateModel>,
    now: i64,
)
    requires
        well_formed(s),
        allowed(s),
        fresh_ids(s, share_ids.push(id).push(origin_id)),
        share_ids.len() >= MAX_REFS,
    ensures
        create_outcome(
            s,
            id,
            origin_id,
            share_ids,
            actor,
            session,
            key,
            input,
            refs,
            context,
            now,
        ) matches Ok((later, _)) ==> allowed(later),
{
    let outcome = create_outcome(
        s,
        id,
        origin_id,
        share_ids,
        actor,
        session,
        key,
        input,
        refs,
        context,
        now,
    );
    creating_grows(s, id, origin_id, share_ids, actor, session, key, input, refs, context, now);
    if outcome is Ok {
        let (later, answer) = outcome->Ok_0;
        if answer.replayed {
            steady_growth_keeps_allowances(s, later);
        } else {
            let parent = input.parent_task_id;
            let at = choose|at: int| #[trigger] task_added(s, later, session, id, parent, at);
            let ids = share_ids.push(id).push(origin_id);
            assert(ids[share_ids.len() as int] == id);
            assert(unused(s, id));
            added_task_is_allowed(s, later, session, id, parent, at, input);
        }
    }
}

proof fn added_task_is_allowed(
    s: StoreModel,
    later: StoreModel,
    session: Text,
    id: Text,
    parent: Option<Text>,
    at: int,
    input: CreateTaskModel,
)
    requires
        well_formed(s),
        well_formed(later),
        grown(s, later),
        allowed(s),
        unused(s, id),
        task_added(s, later, session, id, parent, at),
        parent == input.parent_task_id,
        parent_admits(s, session, input) is Ok,
    ensures
        allowed(later),
{
    if parent is Some {
        position_in_range(s.records, parent->0);
        still_known(s, later, session, parent->0);
    }
    assert forall|i: int| 0 <= i < later.records.len() implies #[trigger] housed(
        later.records,
        i,
    ) by {
        if i < s.records.len() {
            still_housed(s, later, i);
        }
    }
    let n = later.records.len() as int;
    assert(later.records.take(n) =~= later.records);
    assert forall|i: int| 0 <= i < later.records.len() implies #[trigger] within_allowance(
        later,
        i,
    ) by {
        let scope = later.records[i].session;
        let above = later.records[i].id;
        taken_since(s, later, n, at, scope, above);
        if i < s.records.len() && later.records[i].body is Task {
            assert(record_follows(s.records[i], later.records[i]));
            assert(within_allowance(s, i));
        } else if i == at {
            none_taken(s, s.records.len() as int, scope, above);
            assert(s.records.take(s.records.len() as int) =~= s.records);
        }
    }
}

/// Starting an attempt exceeds no allowance: where it counts against a task, there was room.
pub proof fn start_keeps_allowances(
    s: StoreModel,
    attempt_id: Text,
    op_id: Text,
    fact_id: Text,
    d: StartModel,
    fence: Option<DelegationFenceModel>,
    now: i64,
)
    requires
        well_formed(s),
        allowed(s),
        unused(s, attempt_id),
        unused(s, op_id),
        unused(s, fact_id),
        attempt_id != op_id,
        attempt_id != fact_id,
        op_id != fact_id,
    ensures
        start_outcome(s, attempt_id, op_id, fact_id, d, fence, now) matches Ok((later, _))
            ==> allowed(later),
{
    let outcome = start_outcome(s, attempt_id, op_id, fact_id, d, fence, now);
    starting_grows(s, attempt_id, op_id, fact_id, d, fence, now);
    if outcome is Ok {
        let (later, answer) = outcome->Ok_0;
        if answer.replayed {
            steady_growth_keeps_allowances(s, later);
        } else {
            started_within_allowance(s, attempt_id, op_id, fact_id, d, fence, now, 0);
            let session = d.session;
            position_in_range(s.records, d.task_id);
            assert(known(s.records, session, d.task_id));
            let task = loaded::<Task>(s, session, d.task_id)->Ok_0;
            let at = s.records.len() as int;
            let n = later.records.len() as int;
            assert(later.records.take(n) =~= later.records);
            still_known(s, later, session, d.task_id);
            assert forall|i: int| 0 <= i < later.records.len() implies #[trigger] housed(
                later.records,
                i,
            ) by {
                if i < s.records.len() {
                    still_housed(s, later, i);
                }
            }
            assert forall|i: int| 0 <= i < later.records.len() implies #[trigger] within_allowance(
                later,
                i,
            ) by {
                if i < s.records.len() && later.records[i].body is Task {
                    assert(record_follows(s.records[i], later.records[i]));
                    assert(within_allowance(s, i));
                    let scope = later.records[i].session;
                    let above = later.records[i].id;
                    taken_since(s, later, n, at, scope, above);
                    if charged(later, later.records[at], scope, above) {
                        let steps = later.records.len();
                        no_new_ancestors(s, later, session, d.task_id, above, steps);
                        let up = above_is_ancestor(s, session, task, d.task_id, above, steps);
                        started_within_allowance(
                            s,
                            attempt_id,
                            op_id,
                            fact_id,
                            d,
                            fence,
                            now,
                            up,
                        );
                        found_where_filed(s.records, i);
                    }
                }
            }
        }
    }
}

/// Opening a store exceeds no allowance.
pub proof fn opening_keeps_allowances(s: StoreModel)
    requires
        well_formed(s),
        allowed(s),
    ensures
        opened(s) matches Ok(later) ==> allowed(later),
{
    opening_grows(s);
    if opened(s) is Ok {
        steady_growth_keeps_allowances(s, opened(s)->Ok_0);
    }
}

/// A coordinator creates a child only while its task has fewer below it than it is allowed, and while
/// neither that task nor any ancestor is paused.
pub proof fn coordinators_create_within_allowance(
    s: StoreModel,
    id: Text,
    origin_id: Text,
    share_ids: Seq<Text>,
    actor: Text,
    session: Text,
    key: Text,
    input: CreateTaskModel,
    refs: Seq<InputRefModel>,
    context: DelegatedCreateModel,
    now: i64,
    steps: nat,
)
    requires
        well_formed(s),
        create_outcome(
            s,
            id,
            origin_id,
            share_ids,
            actor,
            session,
            key,
            input,
            refs,
            Some(context),
            now,
        ) matches Ok((_, answer)) && !answer.replayed,
    ensures
        loaded::<Task>(s, session, context.fence.coordinator_task_id) matches Ok(parent) && {
            &&& input.parent_task_id == Some(parent.id)
            &&& descendants(s, s.records, session, parent.id)
                < parent.delegation.policy.max_children
            &&& ancestor(s, session, parent, steps) matches Some(above) ==> !above.paused
        },
{
    let parent = loaded::<Task>(s, session, context.fence.coordinator_task_id)->Ok_0;
    position_in_range(s.records, context.fence.coordinator_task_id);
    launch_means_unpaused(s, session, parent, Seq::empty(), steps);
}

/// No more workers are counted among a task's attempts than count against its allowance.
proof fn workers_are_charged(s: StoreModel, n: int, session: Text, id: Text)
    requires
        0 <= n <= s.records.len(),
    ensures
        worker_count(listed::<Attempt>(s.records.take(n), session, id)) <= delegated_reservations(
            s,
            s.records.take(n),
            session,
            id,
        ),
    decreases n,
{
    if n > 0 {
        workers_are_charged(s, n - 1, session, id);
        let rows = s.records.take(n);
        assert(rows.drop_last() =~= s.records.take(n - 1));
        let before = listed::<Attempt>(rows.drop_last(), session, id);
        let last = s.records[n - 1];
        assert(rows.last() == last);
        match <Attempt as Stored>::of(last.body) {
            Some(attempt) => {
                if last.session == session && last.task_id == id {
                    assert(before.push(attempt).drop_last() =~= before);
                    assert(under(s, session, id, id, s.records.len()));
                }
            },
            None => {},
        }
    } else {
        assert(s.records.take(0) =~= Seq::empty());
    }
}

/// No task has more active workers than its policy allows.
pub proof fn workers_stay_within_allowance(s: StoreModel, session: Text, id: Text)
    requires
        well_formed(s),
        allowed(s),
    ensures
        loaded::<Task>(s, session, id) matches Ok(task) ==> worker_count(
            listed::<Attempt>(s.records, session, id),
        ) <= task.policy.max_workers,
{
    if loaded::<Task>(s, session, id) is Ok {
        position_in_range(s.records, id);
        let i = position(s.records, id)->0;
        assert(within_allowance(s, i));
        workers_are_charged(s, s.records.len() as int, session, id);
        assert(s.records.take(s.records.len() as int) =~= s.records);
    }
}

/// A worker is started only under an active lead whose process is known.
pub proof fn workers_start_under_a_bound_lead(
    s: StoreModel,
    attempt_id: Text,
    op_id: Text,
    fact_id: Text,
    d: StartModel,
    fence: Option<DelegationFenceModel>,
    now: i64,
)
    requires
        start_outcome(s, attempt_id, op_id, fact_id, d, fence, now) matches Ok((_, answer))
            && !answer.replayed,
        d.input.role == AttemptRole::Worker,
    ensures
        has_bound_lead(listed::<Attempt>(s.records, d.session, d.task_id)),
{
}

/// Whether nothing but want of room stands against a start.
pub open spec fn start_ready(
    s: StoreModel,
    d: StartModel,
    fence: Option<DelegationFenceModel>,
) -> bool {
    &&& is_bounded(d.input.agent_kind, 64) && is_bounded(d.digest, 128)
    &&& replayed::<Operation>(s, start_request(d, fence)) == Ok::<
        Option<OperationModel>,
        WorkError,
    >(None)
    &&& loaded::<Task>(s, d.session, d.task_id) matches Ok(task) && task.revision
        == d.expected_revision && governed_if(s, d.session, fence, task) is Ok && launchable(
        s,
        d.session,
        task,
        Seq::empty(),
    ) is Ok && snapshot_of(s, d.session, task) is Ok && names(
        task.policy.allowed_agents,
        d.input.agent_kind,
    )
    &&& d.input.role == AttemptRole::Worker ==> has_bound_lead(
        listed::<Attempt>(s.records, d.session, d.task_id),
    )
}

/// An allowance that is taken, some steps up, leaves no room.
proof fn taken_means_no_room(
    s: StoreModel,
    session: Text,
    task: TaskModel,
    depth: nat,
    steps: nat,
)
    requires
        depth + steps < MAX_DEPTH,
        ancestor(s, session, task, steps) matches Some(above) && delegated_reservations(
            s,
            s.records,
            session,
            above.id,
        ) >= above.policy.max_workers,
    ensures
        within_budget(s, session, Some(task), depth) == refused::<()>(FailureCode::ResourceLimit),
    decreases steps,
{
    if steps > 0 {
        let next = loaded::<Task>(s, session, task.parent_task_id->0)->Ok_0;
        taken_means_no_room(s, session, next, depth + 1, (steps - 1) as nat);
    }
}

/// An attempt that counts against an allowance that is taken is refused for want of room: against
/// that of its task, where it is a worker, or against that of any ancestor.
pub proof fn full_allowances_take_no_more(
    s: StoreModel,
    attempt_id: Text,
    op_id: Text,
    fact_id: Text,
    d: StartModel,
    fence: Option<DelegationFenceModel>,
    now: i64,
    steps: nat,
)
    requires
        well_formed(s),
        start_ready(s, d, fence),
        steps < MAX_DEPTH,
        steps > 0 || d.input.role == AttemptRole::Worker,
        ancestor(s, d.session, loaded::<Task>(s, d.session, d.task_id)->Ok_0, steps) matches Some(
            above,
        ) && delegated_reservations(s, s.records, d.session, above.id) >= above.policy.max_workers,
    ensures
        start_outcome(s, attempt_id, op_id, fact_id, d, fence, now) == refused::<
            (StoreModel, MutationModel<OperationModel>),
        >(FailureCode::ResourceLimit),
{
    position_in_range(s.records, d.task_id);
    let task = loaded::<Task>(s, d.session, d.task_id)->Ok_0;
    if d.input.role == AttemptRole::Worker {
        taken_means_no_room(s, d.session, task, 0, steps);
    } else {
        let next = loaded::<Task>(s, d.session, task.parent_task_id->0)->Ok_0;
        taken_means_no_room(s, d.session, next, 0, (steps - 1) as nat);
    }
}

/// A task that has an active lead takes no second one, and one that has all its workers takes no
/// further worker: both are refused for want of room.
pub proof fn full_tasks_take_no_more(
    s: StoreModel,
    attempt_id: Text,
    op_id: Text,
    fact_id: Text,
    d: StartModel,
    fence: Option<DelegationFenceModel>,
    now: i64,
)
    requires
        well_formed(s),
        start_ready(s, d, fence),
        budgeted(s, loaded::<Task>(s, d.session, d.task_id)->Ok_0, d.input.role) is Ok,
        ({
            let attempts = listed::<Attempt>(s.records, d.session, d.task_id);
            let task = loaded::<Task>(s, d.session, d.task_id)->Ok_0;
            ||| d.input.role == AttemptRole::Lead && has_lead(attempts)
            ||| d.input.role == AttemptRole::Worker && worker_count(attempts)
                >= task.policy.max_workers
        }),
    ensures
        start_outcome(s, attempt_id, op_id, fact_id, d, fence, now) == refused::<
            (StoreModel, MutationModel<OperationModel>),
        >(FailureCode::ResourceLimit),
{
    position_in_range(s.records, d.task_id);
}

} // verus!
