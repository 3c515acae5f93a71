//! How values are written as JSON.
use vstd::prelude::*;
use crate::json::ToJson;
use crate::json::decimal;
use crate::json::json_string;
use crate::json::object;
use crate::value::Text;
use crate::work::model::ArtifactRef;
use crate::work::model::ArtifactRefModel;
use crate::work::model::AttemptRole;
use crate::work::model::CreateTask;
use crate::work::model::CreateTaskModel;
use crate::work::model::DelegationConfig;
use crate::work::model::DelegationConfigModel;
use crate::work::model::DelegationFence;
use crate::work::model::DelegationFenceModel;
use crate::work::model::DelegationPolicy;
use crate::work::model::DelegationPolicyModel;
use crate::work::model::DependencyRequirement;
use crate::work::model::FrozenInputRef;
use crate::work::model::FrozenInputRefModel;
use crate::work::model::InputRef;
use crate::work::model::InputRefModel;
use crate::work::model::InputUpload;
use crate::work::model::InputUploadModel;
use crate::work::model::InputUse;
use crate::work::model::InterruptInput;
use crate::work::model::InterruptInputModel;
use crate::work::model::NewAttempt;
use crate::work::model::NewAttemptModel;
use crate::work::model::PauseInput;
use crate::work::model::PauseInputModel;
use crate::work::model::ReconcileInput;
use crate::work::model::ReconcileInputModel;
use crate::work::model::ResultInput;
use crate::work::model::ResultInputModel;
use crate::work::model::ReviewDecision;
use crate::work::model::ReviewInput;
use crate::work::model::ReviewInputModel;
use crate::work::model::SummaryResult;
use crate::work::model::SummaryResultModel;
use crate::work::model::SummaryReview;
use crate::work::model::SummaryReviewModel;
use crate::work::model::TaskActivity;
use crate::work::model::TaskActivityModel;
use crate::work::model::TaskDependency;
use crate::work::model::TaskDependencyModel;
use crate::work::model::TaskPolicy;
use crate::work::model::TaskPolicyModel;
use crate::work::model::TaskSummary;
use crate::work::model::TaskSummaryModel;
use crate::work::model::TaskSummaryPage;
use crate::work::model::TaskSummaryPageModel;
use crate::work::store::authority::DelegatedCreate;
use crate::work::store::authority::DelegatedCreateModel;
use crate::work_execution::StartRequest;
use crate::work_execution::StartRequestModel;

verus! {

/// Every part of a value of `TaskPolicy` is written, under its own name and in this order.
pub proof fn task_policy_is_written_whole(v: TaskPolicyModel)
    ensures
        TaskPolicy::json(v) == object(
            Seq::empty()
                .push(("allowed_agents"@, Vec::<String>::json(v.allowed_agents)))
                .push(("max_workers"@, u32::json(v.max_workers))),
        ),
{
}

/// Every part of a value of `CreateTask` is written, under its own name and in this order.
pub proof fn create_task_is_written_whole(v: CreateTaskModel)
    ensures
        CreateTask::json(v) == object(
            Seq::empty()
                .push(("repo_path"@, String::json(v.repo_path)))
                .push(("title"@, String::json(v.title)))
                .push(("brief"@, String::json(v.brief)))
                .push(("parent_task_id"@, Option::<String>::json(v.parent_task_id)))
                .push(("policy"@, TaskPolicy::json(v.policy))),
        ),
{
}

/// Every part of a value of `DelegationPolicy` is written, under its own name and in this order.
pub proof fn delegation_policy_is_written_whole(v: DelegationPolicyModel)
    ensures
        DelegationPolicy::json(v) == object(
            Seq::empty()
                .push(("enabled"@, bool::json(v.enabled)))
                .push(("max_children"@, u32::json(v.max_children)))
                .push(("max_depth"@, u32::json(v.max_depth)))
                .push(
                    ("dependency_requirement"@, DependencyRequirement::json(v.dependency_requirement)),
                ),
        ),
{
}

/// Every part of a value of `TaskDependency` is written, under its own name and in this order.
pub proof fn task_dependency_is_written_whole(v: TaskDependencyModel)
    ensures
        TaskDependency::json(v) == object(
            Seq::empty()
                .push(("prerequisite_task_id"@, String::json(v.prerequisite_task_id)))
                .push(("submission_id"@, Option::<String>::json(v.submission_id))),
        ),
{
}

/// Every part of a value of `FrozenInputRef` is written, under its own name and in this order.
pub proof fn frozen_input_ref_is_written_whole(v: FrozenInputRefModel)
    ensures
        FrozenInputRef::json(v) == object(
            Seq::empty()
                .push(("input_id"@, String::json(v.input_id)))
                .push(("caption"@, String::json(v.caption)))
                .push(("use"@, InputUse::json(v.use_)))
                .push(("name"@, String::json(v.name)))
                .push(("mime"@, String::json(v.mime)))
                .push(("size_bytes"@, u64::json(v.size_bytes)))
                .push(("sha256"@, String::json(v.sha256))),
        ),
{
}

/// Every part of a value of `NewAttempt` is written, under its own name and in this order.
pub proof fn new_attempt_is_written_whole(v: NewAttemptModel)
    ensures
        NewAttempt::json(v) == object(
            Seq::empty()
                .push(("agent_kind"@, String::json(v.agent_kind)))
                .push(("role"@, AttemptRole::json(v.role))),
        ),
{
}

/// Every part of a value of `PauseInput` is written, under its own name and in this order.
pub proof fn pause_input_is_written_whole(v: PauseInputModel)
    ensures
        PauseInput::json(v) == object(
            Seq::empty()
                .push(("paused"@, bool::json(v.paused))),
        ),
{
}

/// Every part of a value of `DelegationFence` is written, under its own name and in this order.
pub proof fn delegation_fence_is_written_whole(v: DelegationFenceModel)
    ensures
        DelegationFence::json(v) == object(
            Seq::empty()
                .push(("coordinator_task_id"@, String::json(v.coordinator_task_id)))
                .push(("coordinator_attempt_id"@, String::json(v.coordinator_attempt_id)))
                .push(("coordinator_epoch"@, u64::json(v.coordinator_epoch)))
                .push(("instance_id"@, String::json(v.instance_id)))
                .push(("native_owner_epoch"@, String::json(v.native_owner_epoch))),
        ),
{
}

/// Every part of a value of `ArtifactRef` is written, under its own name and in this order.
pub proof fn artifact_ref_is_written_whole(v: ArtifactRefModel)
    ensures
        ArtifactRef::json(v) == object(
            Seq::empty()
                .push(("path"@, String::json(v.path)))
                .push(("sha256"@, String::json(v.sha256)))
                .push(("size_bytes"@, u64::json(v.size_bytes))),
        ),
{
}

/// Every part of a value of `ResultInput` is written, under its own name and in this order.
pub proof fn result_input_is_written_whole(v: ResultInputModel)
    ensures
        ResultInput::json(v) == object(
            Seq::empty()
                .push(("attempt_id"@, String::json(v.attempt_id)))
                .push(("summary"@, String::json(v.summary)))
                .push(("artifacts"@, Vec::<ArtifactRef>::json(v.artifacts)))
                .push(("evidence"@, Vec::<String>::json(v.evidence))),
        ),
{
}

/// Every part of a value of `ReviewInput` is written, under its own name and in this order.
pub proof fn review_input_is_written_whole(v: ReviewInputModel)
    ensures
        ReviewInput::json(v) == object(
            Seq::empty()
                .push(("submission_id"@, String::json(v.submission_id)))
                .push(("decision"@, ReviewDecision::json(v.decision)))
                .push(("message"@, Option::<String>::json(v.message))),
        ),
{
}

/// Every part of a value of `ReconcileInput` is written, under its own name and in this order.
pub proof fn reconcile_input_is_written_whole(v: ReconcileInputModel)
    ensures
        ReconcileInput::json(v) == object(
            Seq::empty()
                .push(("request_key"@, String::json(v.request_key)))
                .push(("expected_revision"@, u64::json(v.expected_revision)))
                .push(("expected_instance_id"@, Option::<String>::json(v.expected_instance_id)))
                .push(
                    ("expected_native_owner_epoch"@, Option::<String>::json(v.expected_native_owner_epoch)),
                ),
        ),
{
}

/// Every part of a value of `InputUpload` is written, under its own name and in this order.
pub proof fn input_upload_is_written_whole(v: InputUploadModel)
    ensures
        InputUpload::json(v) == object(
            Seq::empty()
                .push(("repo_path"@, String::json(v.repo_path)))
                .push(("name"@, String::json(v.name)))
                .push(("mime"@, String::json(v.mime)))
                .push(("size_bytes"@, u64::json(v.size_bytes)))
                .push(("sha256"@, String::json(v.sha256))),
        ),
{
}

/// Every part of a value of `InputRef` is written, under its own name and in this order.
pub proof fn input_ref_is_written_whole(v: InputRefModel)
    ensures
        InputRef::json(v) == object(
            Seq::empty()
                .push(("input_id"@, String::json(v.input_id)))
                .push(("caption"@, String::json(v.caption)))
                .push(("use"@, InputUse::json(v.use_))),
        ),
{
}

/// Every part of a value of `DelegationConfig` is written, under its own name and in this order.
pub proof fn delegation_config_is_written_whole(v: DelegationConfigModel)
    ensures
        DelegationConfig::json(v) == object(
            Seq::empty()
                .push(("policy"@, DelegationPolicy::json(v.policy)))
                .push(
                    ("coordinator_attempt_id"@, Option::<String>::json(v.coordinator_attempt_id)),
                ),
        ),
{
}

/// Every part of a value of `InterruptInput` is written, under its own name and in this order.
pub proof fn interrupt_input_is_written_whole(v: InterruptInputModel)
    ensures
        InterruptInput::json(v) == object(
            Seq::empty()
                .push(("request_key"@, String::json(v.request_key)))
                .push(("expected_revision"@, u64::json(v.expected_revision)))
                .push(("expected_instance_id"@, String::json(v.expected_instance_id)))
                .push(
                    ("expected_native_owner_epoch"@, String::json(v.expected_native_owner_epoch)),
                ),
        ),
{
}

/// Every part of a value of `TaskActivity` is written, under its own name and in this order.
pub proof fn task_activity_is_written_whole(v: TaskActivityModel)
    ensures
        TaskActivity::json(v) == object(
            Seq::empty()
                .push(("cursor"@, u64::json(v.cursor)))
                .push(("kind"@, String::json(v.kind)))
                .push(("entity_id"@, String::json(v.entity_id))),
        ),
{
}

/// Every part of a value of `SummaryReview` is written, under its own name and in this order.
pub proof fn summary_review_is_written_whole(v: SummaryReviewModel)
    ensures
        SummaryReview::json(v) == object(
            Seq::empty()
                .push(("review_id"@, String::json(v.review_id)))
                .push(("decision"@, ReviewDecision::json(v.decision))),
        ),
{
}

/// Every part of a value of `SummaryResult` is written, under its own name and in this order.
pub proof fn summary_result_is_written_whole(v: SummaryResultModel)
    ensures
        SummaryResult::json(v) == object(
            Seq::empty()
                .push(("submission_id"@, String::json(v.submission_id)))
                .push(("review"@, Option::<SummaryReview>::json(v.review))),
        ),
{
}

/// Every part of a value of `TaskSummary` is written, under its own name and in this order.
pub proof fn task_summary_is_written_whole(v: TaskSummaryModel)
    ensures
        TaskSummary::json(v) == object(
            Seq::empty()
                .push(("task_id"@, String::json(v.task_id)))
                .push(("session_id"@, String::json(v.session_id)))
                .push(("parent_task_id"@, Option::<String>::json(v.parent_task_id)))
                .push(("task_revision"@, u64::json(v.task_revision)))
                .push(("title"@, String::json(v.title)))
                .push(("repo_path"@, String::json(v.repo_path)))
                .push(("paused"@, bool::json(v.paused)))
                .push(("last_activity"@, Option::<TaskActivity>::json(v.last_activity)))
                .push(("reserved_attempts"@, u64::json(v.reserved_attempts)))
                .push(("unresolved_native_operations"@, u64::json(v.unresolved_native_operations)))
                .push(("unreviewed_results"@, u64::json(v.unreviewed_results)))
                .push(("latest_result"@, Option::<SummaryResult>::json(v.latest_result))),
        ),
{
}

/// Every part of a value of `TaskSummaryPage` is written, under its own name and in this order.
pub proof fn task_summary_page_is_written_whole(v: TaskSummaryPageModel)
    ensures
        TaskSummaryPage::json(v) == object(
            Seq::empty()
                .push(("items"@, Vec::<TaskSummary>::json(v.items)))
                .push(("snapshot_cursor"@, u64::json(v.snapshot_cursor)))
                .push(("next_after_id"@, Option::<String>::json(v.next_after_id))),
        ),
{
}

/// Every part of a request to start an attempt is written, under its own name and in this order.
pub proof fn start_request_is_written_whole(v: StartRequestModel)
    ensures
        StartRequest::json(v) == object(
            Seq::empty()
                .push(("request_key"@, String::json(v.request_key)))
                .push(("expected_revision"@, u64::json(v.expected_revision)))
                .push(("agent_kind"@, String::json(v.agent_kind)))
                .push(("role"@, AttemptRole::json(v.role)))
                .push(("branch_name"@, Option::<String>::json(v.branch_name))),
        ),
{
}

/// Every part of what a coordinator knows of the child that it asks for is written, under its own
/// name and in this order.
pub proof fn delegated_create_is_written_whole(v: DelegatedCreateModel)
    ensures
        DelegatedCreate::json(v) == object(
            Seq::empty()
                .push(("fence"@, DelegationFence::json(v.fence)))
                .push(("expected_parent_revision"@, u64::json(v.expected_parent_revision)))
                .push(("dependencies"@, Vec::<TaskDependency>::json(v.dependencies))),
        ),
{
}

/// A truth is written as the word for it, a number in decimal, a text as its literal, and what is
/// missing as `null`; what is there is written as itself.
pub proof fn plain_values_are_written_plainly(
    b: bool,
    n: u64,
    small: u32,
    text: Text,
    some: Option<Text>,
)
    ensures
        bool::json(b) == (if b {
            seq!['t', 'r', 'u', 'e']
        } else {
            seq!['f', 'a', 'l', 's', 'e']
        }),
        u64::json(n) == decimal(n as nat),
        u32::json(small) == decimal(small as nat),
        String::json(text) == json_string(text),
        Option::<String>::json(some) == (match some {
            Some(inner) => json_string(inner),
            None => seq!['n', 'u', 'l', 'l'],
        }),
{
    reveal_strlit("true");
    reveal_strlit("false");
    reveal_strlit("null");
    assert("true"@ =~= seq!['t', 'r', 'u', 'e']);
    assert("false"@ =~= seq!['f', 'a', 'l', 's', 'e']);
    assert("null"@ =~= seq!['n', 'u', 'l', 'l']);
}

/// A whole number below zero is written with a sign before its digits, any other as its digits.
pub proof fn whole_numbers_are_written_with_their_sign(n: i64)
    ensures
        n >= 0 ==> i64::json(n) == decimal(n as nat),
        n < 0 ==> i64::json(n) == seq!['-'] + decimal((-(n as int)) as nat),
{
    reveal_strlit("-");
    assert("-"@ =~= seq!['-']);
}

} // verus!
