//! The ways in which a prompt is delivered.
use vstd::prelude::*;
use crate::digest::is_uuid;
use crate::digest::new_id;
use crate::value::Replica;
use crate::value::Text;
use crate::value::no_items;
use crate::value::shown;
use crate::work::model::DelegationFence;
use crate::work::model::DelegationFenceModel;
use crate::work::model::FrozenInputRef;
use crate::work::model::InputRef;
use crate::work::model::InputRefModel;
use crate::work::model::Mutation;
use crate::work::model::MutationModel;
use crate::work::model::Operation;
use crate::work::model::OperationModel;
use crate::work::model::WorkResult;
use crate::work::store::deliveries::Delivery;
use crate::work::store::deliveries::DeliveryModel;
use crate::work::store::deliveries::Promise;
use crate::work::store::deliveries::PromiseModel;
use crate::work::store::deliveries::delivery_outcome;
use crate::work::store::deliveries::redelivered;
use crate::work::store::tables::StoreModel;
use crate::work::store::tables::WorkStore;
use crate::work::store::transaction::commits;

verus! {

/// A delivery was recorded, or refused, under some identifier.
pub open spec fn delivery_commits(
    before: StoreModel,
    later: StoreModel,
    d: DeliveryModel,
    promise: Option<PromiseModel>,
    fence: Option<DelegationFenceModel>,
    now: i64,
    res: WorkResult<MutationModel<OperationModel>>,
) -> bool {
    exists|id: Text|
        is_uuid(id) && commits(
            before,
            later,
            #[trigger] delivery_outcome(before, id, d, promise, fence, now),
            res,
        )
}

impl WorkStore {
    fn deliver(
        &mut self,
        d: &Delivery<'_>,
        promise: Option<Promise<'_>>,
        fence: Option<DelegationFence>,
        now: i64,
    ) -> (res: WorkResult<Mutation<Operation>>)
        ensures
            delivery_commits(
                old(self)@,
                final(self)@,
                d.deep_view(),
                promise.deep_view(),
                fence.deep_view(),
                now,
                shown(res),
            ),
    {
        let id = new_id();
        self.prepare_delivery_as(id.as_str(), d, promise, fence, now)
    }

    /// Admits a prompt for an attempt.
    pub fn prepare_delivery(
        &mut self,
        actor: &str,
        session: &str,
        task_id: &str,
        attempt_id: &str,
        key: &str,
        expected_revision: u64,
        expected_instance: &str,
        text: &str,
        now: i64,
    ) -> (res: WorkResult<Mutation<Operation>>)
        ensures
            delivery_commits(
                old(self)@,
                final(self)@,
                (DeliveryModel {
                    actor: actor@,
                    session: session@,
                    task_id: task_id@,
                    attempt_id: attempt_id@,
                    key: key@,
                    expected_revision,
                    expected_instance: expected_instance@,
                    text: text@,
                    instruction_version: None,
                    input_refs: Seq::empty(),
                }),
                None,
                None,
                now,
                shown(res),
            ),
    {
        let refs: Vec<InputRef> = no_items();
        let none = refs.as_slice();
        assert(none.deep_view() =~= Seq::<InputRefModel>::empty());
        let d = Delivery {
            actor,
            session,
            task_id,
            attempt_id,
            key,
            expected_revision,
            expected_instance,
            text,
            instruction_version: None,
            input_refs: none,
        };
        self.deliver(&d, None, None, now)
    }

    /// Admits a prompt with the version of the instructions that go with a first prompt.
    pub fn prepare_delivery_with_instructions(
        &mut self,
        actor: &str,
        session: &str,
        task_id: &str,
        attempt_id: &str,
        key: &str,
        expected_revision: u64,
        expected_instance: &str,
        text: &str,
        instruction_version: Option<&str>,
        now: i64,
    ) -> (res: WorkResult<Mutation<Operation>>)
        ensures
            delivery_commits(
                old(self)@,
                final(self)@,
                (DeliveryModel {
                    actor: actor@,
                    session: session@,
                    task_id: task_id@,
                    attempt_id: attempt_id@,
                    key: key@,
                    expected_revision,
                    expected_instance: expected_instance@,
                    text: text@,
                    instruction_version: instruction_version.deep_view(),
                    input_refs: Seq::empty(),
                }),
                None,
                None,
                now,
                shown(res),
            ),
    {
        let refs: Vec<InputRef> = no_items();
        let none = refs.as_slice();
        assert(none.deep_view() =~= Seq::<InputRefModel>::empty());
        let d = Delivery {
            actor,
            session,
            task_id,
            attempt_id,
            key,
            expected_revision,
            expected_instance,
            text,
            instruction_version: instruction_version,
            input_refs: none,
        };
        self.deliver(&d, None, None, now)
    }

    /// Admits a prompt with inputs that the sender has read.
    pub fn prepare_delivery_with_inputs(
        &mut self,
        actor: &str,
        session: &str,
        task_id: &str,
        attempt_id: &str,
        key: &str,
        expected_revision: u64,
        expected_instance: &str,
        text: &str,
        instruction_version: Option<&str>,
        input_refs: Vec<InputRef>,
        expected_inputs: &[FrozenInputRef],
        final_prompt_digest: &str,
        now: i64,
    ) -> (res: WorkResult<Mutation<Operation>>)
        ensures
            delivery_commits(
                old(self)@,
                final(self)@,
                (DeliveryModel {
                    actor: actor@,
                    session: session@,
                    task_id: task_id@,
                    attempt_id: attempt_id@,
                    key: key@,
                    expected_revision,
                    expected_instance: expected_instance@,
                    text: text@,
                    instruction_version: instruction_version.deep_view(),
                    input_refs: input_refs.deep_view(),
                }),
                Some(
                    (PromiseModel {
                        expected_inputs: expected_inputs.deep_view(),
                        final_prompt_digest: final_prompt_digest@,
                    }),
                ),
                None,
                now,
                shown(res),
            ),
    {
        let d = Delivery {
            actor,
            session,
            task_id,
            attempt_id,
            key,
            expected_revision,
            expected_instance,
            text,
            instruction_version: instruction_version,
            input_refs: input_refs.as_slice(),
        };
        self.deliver(&d, Some(Promise { expected_inputs, final_prompt_digest }), None, now)
    }

    /// Admits a prompt for a child's attempt on behalf of a coordinator.
    pub fn prepare_delegated_delivery(
        &mut self,
        actor: &str,
        session: &str,
        task_id: &str,
        attempt_id: &str,
        key: &str,
        expected_revision: u64,
        expected_instance: &str,
        text: &str,
        instruction_version: Option<&str>,
        fence: &DelegationFence,
        now: i64,
    ) -> (res: WorkResult<Mutation<Operation>>)
        ensures
            delivery_commits(
                old(self)@,
                final(self)@,
                (DeliveryModel {
                    actor: actor@,
                    session: session@,
                    task_id: task_id@,
                    attempt_id: attempt_id@,
                    key: key@,
                    expected_revision,
                    expected_instance: expected_instance@,
                    text: text@,
                    instruction_version: instruction_version.deep_view(),
                    input_refs: Seq::empty(),
                }),
                None,
                Some(fence.deep_view()),
                now,
                shown(res),
            ),
    {
        let refs: Vec<InputRef> = no_items();
        let none = refs.as_slice();
        assert(none.deep_view() =~= Seq::<InputRefModel>::empty());
        let d = Delivery {
            actor,
            session,
            task_id,
            attempt_id,
            key,
            expected_revision,
            expected_instance,
            text,
            instruction_version: instruction_version,
            input_refs: none,
        };
        self.deliver(&d, None, Some(fence.replica()), now)
    }

    /// Admits a prompt with inputs for a child's attempt on behalf of a coordinator.
    pub fn prepare_delegated_delivery_with_inputs(
        &mut self,
        actor: &str,
        session: &str,
        task_id: &str,
        attempt_id: &str,
        key: &str,
        expected_revision: u64,
        expected_instance: &str,
        text: &str,
        instruction_version: Option<&str>,
        input_refs: Vec<InputRef>,
        expected_inputs: &[FrozenInputRef],
        final_prompt_digest: &str,
        fence: &DelegationFence,
        now: i64,
    ) -> (res: WorkResult<Mutation<Operation>>)
        ensures
            delivery_commits(
                old(self)@,
                final(self)@,
                (DeliveryModel {
                    actor: actor@,
                    session: session@,
                    task_id: task_id@,
                    attempt_id: attempt_id@,
                    key: key@,
                    expected_revision,
                    expected_instance: expected_instance@,
                    text: text@,
                    instruction_version: instruction_version.deep_view(),
                    input_refs: input_refs.deep_view(),
                }),
                Some(
                    (PromiseModel {
                        expected_inputs: expected_inputs.deep_view(),
                        final_prompt_digest: final_prompt_digest@,
                    }),
                ),
                Some(fence.deep_view()),
                now,
                shown(res),
            ),
    {
        let d = Delivery {
            actor,
            session,
            task_id,
            attempt_id,
            key,
            expected_revision,
            expected_instance,
            text,
            instruction_version: instruction_version,
            input_refs: input_refs.as_slice(),
        };
        self.deliver(&d, Some(Promise { expected_inputs, final_prompt_digest }), Some(fence.replica()), now)
    }

    /// Answers a delivery that was recorded before.
    pub fn replay_delivery_with_inputs(
        &self,
        actor: &str,
        session: &str,
        task_id: &str,
        attempt_id: &str,
        key: &str,
        expected_revision: u64,
        expected_instance: &str,
        text: &str,
        instruction_version: Option<&str>,
        input_refs: &[InputRef],
    ) -> (res: WorkResult<Option<Mutation<Operation>>>)
        ensures
            shown(res) == redelivered(
                self@,
                (DeliveryModel {
                    actor: actor@,
                    session: session@,
                    task_id: task_id@,
                    attempt_id: attempt_id@,
                    key: key@,
                    expected_revision,
                    expected_instance: expected_instance@,
                    text: text@,
                    instruction_version: instruction_version.deep_view(),
                    input_refs: input_refs.deep_view(),
                }),
                None,
            ),
    {
        let d = Delivery {
            actor,
            session,
            task_id,
            attempt_id,
            key,
            expected_revision,
            expected_instance,
            text,
            instruction_version,
            input_refs,
        };
        self.redeliver(&d, None)
    }

    /// Answers a coordinator's delivery that was recorded before.
    pub fn replay_delegated_delivery(
        &self,
        actor: &str,
        session: &str,
        task_id: &str,
        attempt_id: &str,
        key: &str,
        expected_revision: u64,
        expected_instance: &str,
        text: &str,
        instruction_version: Option<&str>,
        input_refs: &[InputRef],
        fence: &DelegationFence,
    ) -> (res: WorkResult<Option<Mutation<Operation>>>)
        ensures
            shown(res) == redelivered(
                self@,
                (DeliveryModel {
                    actor: actor@,
                    session: session@,
                    task_id: task_id@,
                    attempt_id: attempt_id@,
                    key: key@,
                    expected_revision,
                    expected_instance: expected_instance@,
                    text: text@,
                    instruction_version: instruction_version.deep_view(),
                    input_refs: input_refs.deep_view(),
                }),
                Some(fence.deep_view()),
            ),
    {
        let d = Delivery {
            actor,
            session,
            task_id,
            attempt_id,
            key,
            expected_revision,
            expected_instance,
            text,
            instruction_version,
            input_refs,
        };
        self.redeliver(&d, Some(fence))
    }
}

} // verus!
