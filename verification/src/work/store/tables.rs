//! The tables of the store, and what each stands for.
use vstd::prelude::*;
use crate::value::Replica;
use crate::value::Text;
use crate::work::model::Attempt;
use crate::work::model::AttemptModel;
use crate::work::model::DelegationFence;
use crate::work::model::DelegationFenceModel;
use crate::work::model::FailureCode;
use crate::work::model::InputReceipt;
use crate::work::model::InputReceiptModel;
use crate::work::model::InputShare;
use crate::work::model::InputShareModel;
use crate::work::model::InputUpload;
use crate::work::model::InterruptionReceipt;
use crate::work::model::InterruptionReceiptModel;
use crate::work::model::NativeStartRefusal;
use crate::work::model::NativeStartRefusalModel;
use crate::work::model::Operation;
use crate::work::model::OperationKind;
use crate::work::model::OperationModel;
use crate::work::model::OperationState;
use crate::work::model::ReconcileInput;
use crate::work::model::ReconcileInputModel;
use crate::work::model::ReconciliationReceipt;
use crate::work::model::ReconciliationReceiptModel;
use crate::work::model::ResultSubmission;
use crate::work::model::ResultSubmissionModel;
use crate::work::model::Review;
use crate::work::model::ReviewModel;
use crate::work::model::Task;
use crate::work::model::TaskActivity;
use crate::work::model::TaskActivityModel;
use crate::work::model::TaskModel;
use crate::work::model::TaskSummary;
use crate::work::model::TaskSummaryModel;

verus! {

/// The facts for which quota is kept before the native step that they report.
#[derive(Debug, Clone, Copy, PartialEq, Eq, Structural)]
pub enum FactKind {
    Reconciliation,
    StartRefusal,
    Interruption,
}

/// What a request key was used for.
#[derive(Debug, Clone, Copy, PartialEq, Eq, Structural)]
pub enum RequestKind {
    Work(OperationKind),
    InputUpload,
}

/// A value that is filed as the body of a record.
pub trait Stored: Replica {
    /// The value in a body of this kind, `None` for a body of another kind.
    spec fn of(body: BodyModel) -> Option<Self::V>;

    fn of_body(body: &Body) -> (res: Option<&Self>)
        ensures
            res.deep_view() == Self::of(body.deep_view()),
    ;
}

/// A value that a request is answered with.
pub trait Answer: Replica {
    /// The value in an answer of this kind, `None` for one of another kind.
    spec fn of(body: ReceiptBodyModel) -> Option<Self::V>;

    fn of_body(body: &ReceiptBody) -> (res: Option<&Self>)
        ensures
            res.deep_view() == Self::of(body.deep_view()),
    ;
}

/// Which actor created a delegated task, and under which authority.
#[derive(Debug, PartialEq, Eq)]
pub struct DelegatedOrigin {
    pub actor_id: String,
    pub fence: DelegationFence,
}

/// The value of a `DelegatedOrigin`.
#[verifier::ext_equal]
pub struct DelegatedOriginModel {
    pub actor_id: Text,
    pub fence: DelegationFenceModel,
}

impl DeepView for DelegatedOrigin {
    type V = DelegatedOriginModel;

    open spec fn deep_view(&self) -> DelegatedOriginModel {
        DelegatedOriginModel {
            actor_id: self.actor_id.deep_view(),
            fence: self.fence.deep_view(),
        }
    }
}

impl Replica for DelegatedOrigin {
    fn replica(&self) -> (res: Self) {
        DelegatedOrigin {
            actor_id: self.actor_id.replica(),
            fence: self.fence.replica(),
        }
    }
}

impl Clone for DelegatedOrigin {
    fn clone(&self) -> (res: Self)
        ensures
            res.deep_view() == self.deep_view(),
    {
        self.replica()
    }
}

/// Which request of which actor set dependencies, and under which authority.
#[derive(Debug, PartialEq, Eq)]
pub struct DependencyOrigin {
    pub actor_id: String,
    pub request_key: String,
    pub fence: DelegationFence,
}

/// The value of a `DependencyOrigin`.
#[verifier::ext_equal]
pub struct DependencyOriginModel {
    pub actor_id: Text,
    pub request_key: Text,
    pub fence: DelegationFenceModel,
}

impl DeepView for DependencyOrigin {
    type V = DependencyOriginModel;

    open spec fn deep_view(&self) -> DependencyOriginModel {
        DependencyOriginModel {
            actor_id: self.actor_id.deep_view(),
            request_key: self.request_key.deep_view(),
            fence: self.fence.deep_view(),
        }
    }
}

impl Replica for DependencyOrigin {
    fn replica(&self) -> (res: Self) {
        DependencyOrigin {
            actor_id: self.actor_id.replica(),
            request_key: self.request_key.replica(),
            fence: self.fence.replica(),
        }
    }
}

impl Clone for DependencyOrigin {
    fn clone(&self) -> (res: Self)
        ensures
            res.deep_view() == self.deep_view(),
    {
        self.replica()
    }
}

/// What a prepared reconciliation was asked to compare with.
#[derive(Debug, PartialEq, Eq)]
pub struct ReconciliationIntent {
    pub operation_id: String,
    pub input: ReconcileInput,
}

/// The value of a `ReconciliationIntent`.
#[verifier::ext_equal]
pub struct ReconciliationIntentModel {
    pub operation_id: Text,
    pub input: ReconcileInputModel,
}

impl DeepView for ReconciliationIntent {
    type V = ReconciliationIntentModel;

    open spec fn deep_view(&self) -> ReconciliationIntentModel {
        ReconciliationIntentModel {
            operation_id: self.operation_id.deep_view(),
            input: self.input.deep_view(),
        }
    }
}

impl Replica for ReconciliationIntent {
    fn replica(&self) -> (res: Self) {
        ReconciliationIntent {
            operation_id: self.operation_id.replica(),
            input: self.input.replica(),
        }
    }
}

impl Clone for ReconciliationIntent {
    fn clone(&self) -> (res: Self)
        ensures
            res.deep_view() == self.deep_view(),
    {
        self.replica()
    }
}

/// A row that keeps quota for a fact yet to be recorded.
#[derive(Debug, PartialEq, Eq)]
pub struct ReservedFact {
    pub purpose: FactKind,
    pub operation_id: String,
}

/// The value of a `ReservedFact`.
#[verifier::ext_equal]
pub struct ReservedFactModel {
    pub purpose: FactKind,
    pub operation_id: Text,
}

impl DeepView for ReservedFact {
    type V = ReservedFactModel;

    open spec fn deep_view(&self) -> ReservedFactModel {
        ReservedFactModel {
            purpose: self.purpose,
            operation_id: self.operation_id.deep_view(),
        }
    }
}

impl Replica for ReservedFact {
    fn replica(&self) -> (res: Self) {
        ReservedFact {
            purpose: self.purpose,
            operation_id: self.operation_id.replica(),
        }
    }
}

impl Clone for ReservedFact {
    fn clone(&self) -> (res: Self)
        ensures
            res.deep_view() == self.deep_view(),
    {
        self.replica()
    }
}

/// How an interruption ended.
#[derive(Debug, PartialEq, Eq)]
pub struct InterruptionFact {
    pub operation_id: String,
    pub state: OperationState,
    pub failure_code: Option<FailureCode>,
    pub receipt: Option<InterruptionReceipt>,
}

/// The value of a `InterruptionFact`.
#[verifier::ext_equal]
pub struct InterruptionFactModel {
    pub operation_id: Text,
    pub state: OperationState,
    pub failure_code: Option<FailureCode>,
    pub receipt: Option<InterruptionReceiptModel>,
}

impl DeepView for InterruptionFact {
    type V = InterruptionFactModel;

    open spec fn deep_view(&self) -> InterruptionFactModel {
        InterruptionFactModel {
            operation_id: self.operation_id.deep_view(),
            state: self.state,
            failure_code: self.failure_code.deep_view(),
            receipt: self.receipt.deep_view(),
        }
    }
}

impl Replica for InterruptionFact {
    fn replica(&self) -> (res: Self) {
        InterruptionFact {
            operation_id: self.operation_id.replica(),
            state: self.state,
            failure_code: self.failure_code.replica(),
            receipt: self.receipt.replica(),
        }
    }
}

impl Clone for InterruptionFact {
    fn clone(&self) -> (res: Self)
        ensures
            res.deep_view() == self.deep_view(),
    {
        self.replica()
    }
}

/// What a record holds.
#[derive(Debug, PartialEq, Eq)]
pub enum Body {
    Task(Task),
    Attempt(Attempt),
    Operation(Operation),
    Result(ResultSubmission),
    Review(Review),
    DelegatedOrigin(DelegatedOrigin),
    DependencyOrigin(DependencyOrigin),
    InputShare(InputShare),
    ReconciliationIntent(ReconciliationIntent),
    Reserved(ReservedFact),
    Reconciliation(ReconciliationReceipt),
    StartRefusal(NativeStartRefusal),
    InterruptionFact(InterruptionFact),
}

/// The value of a `Body`.
#[verifier::ext_equal]
pub enum BodyModel {
    Task(TaskModel),
    Attempt(AttemptModel),
    Operation(OperationModel),
    Result(ResultSubmissionModel),
    Review(ReviewModel),
    DelegatedOrigin(DelegatedOriginModel),
    DependencyOrigin(DependencyOriginModel),
    InputShare(InputShareModel),
    ReconciliationIntent(ReconciliationIntentModel),
    Reserved(ReservedFactModel),
    Reconciliation(ReconciliationReceiptModel),
    StartRefusal(NativeStartRefusalModel),
    InterruptionFact(InterruptionFactModel),
}

impl DeepView for Body {
    type V = BodyModel;

    open spec fn deep_view(&self) -> BodyModel {
        match self {
            Body::Task(v) => BodyModel::Task(v.deep_view()),
            Body::Attempt(v) => BodyModel::Attempt(v.deep_view()),
            Body::Operation(v) => BodyModel::Operation(v.deep_view()),
            Body::Result(v) => BodyModel::Result(v.deep_view()),
            Body::Review(v) => BodyModel::Review(v.deep_view()),
            Body::DelegatedOrigin(v) => BodyModel::DelegatedOrigin(v.deep_view()),
            Body::DependencyOrigin(v) => BodyModel::DependencyOrigin(v.deep_view()),
            Body::InputShare(v) => BodyModel::InputShare(v.deep_view()),
            Body::ReconciliationIntent(v) => BodyModel::ReconciliationIntent(v.deep_view()),
            Body::Reserved(v) => BodyModel::Reserved(v.deep_view()),
            Body::Reconciliation(v) => BodyModel::Reconciliation(v.deep_view()),
            Body::StartRefusal(v) => BodyModel::StartRefusal(v.deep_view()),
            Body::InterruptionFact(v) => BodyModel::InterruptionFact(v.deep_view()),
        }
    }
}

impl Replica for Body {
    fn replica(&self) -> (res: Self) {
        match self {
            Body::Task(v) => Body::Task(v.replica()),
            Body::Attempt(v) => Body::Attempt(v.replica()),
            Body::Operation(v) => Body::Operation(v.replica()),
            Body::Result(v) => Body::Result(v.replica()),
            Body::Review(v) => Body::Review(v.replica()),
            Body::DelegatedOrigin(v) => Body::DelegatedOrigin(v.replica()),
            Body::DependencyOrigin(v) => Body::DependencyOrigin(v.replica()),
            Body::InputShare(v) => Body::InputShare(v.replica()),
            Body::ReconciliationIntent(v) => Body::ReconciliationIntent(v.replica()),
            Body::Reserved(v) => Body::Reserved(v.replica()),
            Body::Reconciliation(v) => Body::Reconciliation(v.replica()),
            Body::StartRefusal(v) => Body::StartRefusal(v.replica()),
            Body::InterruptionFact(v) => Body::InterruptionFact(v.replica()),
        }
    }
}

impl Clone for Body {
    fn clone(&self) -> (res: Self)
        ensures
            res.deep_view() == self.deep_view(),
    {
        self.replica()
    }
}

impl Stored for Task {
    open spec fn of(body: BodyModel) -> Option<TaskModel> {
        match body {
            BodyModel::Task(v) => Some(v),
            _ => None,
        }
    }

    fn of_body(body: &Body) -> (res: Option<&Self>) {
        match body {
            Body::Task(v) => Some(v),
            _ => None,
        }
    }
}

impl Stored for Attempt {
    open spec fn of(body: BodyModel) -> Option<AttemptModel> {
        match body {
            BodyModel::Attempt(v) => Some(v),
            _ => None,
        }
    }

    fn of_body(body: &Body) -> (res: Option<&Self>) {
        match body {
            Body::Attempt(v) => Some(v),
            _ => None,
        }
    }
}

impl Stored for Operation {
    open spec fn of(body: BodyModel) -> Option<OperationModel> {
        match body {
            BodyModel::Operation(v) => Some(v),
            _ => None,
        }
    }

    fn of_body(body: &Body) -> (res: Option<&Self>) {
        match body {
            Body::Operation(v) => Some(v),
            _ => None,
        }
    }
}

impl Stored for ResultSubmission {
    open spec fn of(body: BodyModel) -> Option<ResultSubmissionModel> {
        match body {
            BodyModel::Result(v) => Some(v),
            _ => None,
        }
    }

    fn of_body(body: &Body) -> (res: Option<&Self>) {
        match body {
            Body::Result(v) => Some(v),
            _ => None,
        }
    }
}

impl Stored for Review {
    open spec fn of(body: BodyModel) -> Option<ReviewModel> {
        match body {
            BodyModel::Review(v) => Some(v),
            _ => None,
        }
    }

    fn of_body(body: &Body) -> (res: Option<&Self>) {
        match body {
            Body::Review(v) => Some(v),
            _ => None,
        }
    }
}

impl Stored for DelegatedOrigin {
    open spec fn of(body: BodyModel) -> Option<DelegatedOriginModel> {
        match body {
            BodyModel::DelegatedOrigin(v) => Some(v),
            _ => None,
        }
    }

    fn of_body(body: &Body) -> (res: Option<&Self>) {
        match body {
            Body::DelegatedOrigin(v) => Some(v),
            _ => None,
        }
    }
}

impl Stored for DependencyOrigin {
    open spec fn of(body: BodyModel) -> Option<DependencyOriginModel> {
        match body {
            BodyModel::DependencyOrigin(v) => Some(v),
            _ => None,
        }
    }

    fn of_body(body: &Body) -> (res: Option<&Self>) {
        match body {
            Body::DependencyOrigin(v) => Some(v),
            _ => None,
        }
    }
}

impl Stored for InputShare {
    open spec fn of(body: BodyModel) -> Option<InputShareModel> {
        match body {
            BodyModel::InputShare(v) => Some(v),
            _ => None,
        }
    }

    fn of_body(body: &Body) -> (res: Option<&Self>) {
        match body {
            Body::InputShare(v) => Some(v),
            _ => None,
        }
    }
}

impl Stored for ReconciliationIntent {
    open spec fn of(body: BodyModel) -> Option<ReconciliationIntentModel> {
        match body {
            BodyModel::ReconciliationIntent(v) => Some(v),
            _ => None,
        }
    }

    fn of_body(body: &Body) -> (res: Option<&Self>) {
        match body {
            Body::ReconciliationIntent(v) => Some(v),
            _ => None,
        }
    }
}

impl Stored for ReconciliationReceipt {
    open spec fn of(body: BodyModel) -> Option<ReconciliationReceiptModel> {
        match body {
            BodyModel::Reconciliation(v) => Some(v),
            _ => None,
        }
    }

    fn of_body(body: &Body) -> (res: Option<&Self>) {
        match body {
            Body::Reconciliation(v) => Some(v),
            _ => None,
        }
    }
}

impl Stored for NativeStartRefusal {
    open spec fn of(body: BodyModel) -> Option<NativeStartRefusalModel> {
        match body {
            BodyModel::StartRefusal(v) => Some(v),
            _ => None,
        }
    }

    fn of_body(body: &Body) -> (res: Option<&Self>) {
        match body {
            Body::StartRefusal(v) => Some(v),
            _ => None,
        }
    }
}

/// What a request was answered with.
#[derive(Debug, PartialEq, Eq)]
pub enum ReceiptBody {
    Task(Task),
    Operation(Operation),
    Result(ResultSubmission),
    Review(Review),
    Input(InputReceipt),
}

/// The value of a `ReceiptBody`.
#[verifier::ext_equal]
pub enum ReceiptBodyModel {
    Task(TaskModel),
    Operation(OperationModel),
    Result(ResultSubmissionModel),
    Review(ReviewModel),
    Input(InputReceiptModel),
}

impl DeepView for ReceiptBody {
    type V = ReceiptBodyModel;

    open spec fn deep_view(&self) -> ReceiptBodyModel {
        match self {
            ReceiptBody::Task(v) => ReceiptBodyModel::Task(v.deep_view()),
            ReceiptBody::Operation(v) => ReceiptBodyModel::Operation(v.deep_view()),
            ReceiptBody::Result(v) => ReceiptBodyModel::Result(v.deep_view()),
            ReceiptBody::Review(v) => ReceiptBodyModel::Review(v.deep_view()),
            ReceiptBody::Input(v) => ReceiptBodyModel::Input(v.deep_view()),
        }
    }
}

impl Replica for ReceiptBody {
    fn replica(&self) -> (res: Self) {
        match self {
            ReceiptBody::Task(v) => ReceiptBody::Task(v.replica()),
            ReceiptBody::Operation(v) => ReceiptBody::Operation(v.replica()),
            ReceiptBody::Result(v) => ReceiptBody::Result(v.replica()),
            ReceiptBody::Review(v) => ReceiptBody::Review(v.replica()),
            ReceiptBody::Input(v) => ReceiptBody::Input(v.replica()),
        }
    }
}

impl Clone for ReceiptBody {
    fn clone(&self) -> (res: Self)
        ensures
            res.deep_view() == self.deep_view(),
    {
        self.replica()
    }
}

impl Answer for Task {
    open spec fn of(body: ReceiptBodyModel) -> Option<TaskModel> {
        match body {
            ReceiptBodyModel::Task(v) => Some(v),
            _ => None,
        }
    }

    fn of_body(body: &ReceiptBody) -> (res: Option<&Self>) {
        match body {
            ReceiptBody::Task(v) => Some(v),
            _ => None,
        }
    }
}

impl Answer for Operation {
    open spec fn of(body: ReceiptBodyModel) -> Option<OperationModel> {
        match body {
            ReceiptBodyModel::Operation(v) => Some(v),
            _ => None,
        }
    }

    fn of_body(body: &ReceiptBody) -> (res: Option<&Self>) {
        match body {
            ReceiptBody::Operation(v) => Some(v),
            _ => None,
        }
    }
}

impl Answer for ResultSubmission {
    open spec fn of(body: ReceiptBodyModel) -> Option<ResultSubmissionModel> {
        match body {
            ReceiptBodyModel::Result(v) => Some(v),
            _ => None,
        }
    }

    fn of_body(body: &ReceiptBody) -> (res: Option<&Self>) {
        match body {
            ReceiptBody::Result(v) => Some(v),
            _ => None,
        }
    }
}

impl Answer for Review {
    open spec fn of(body: ReceiptBodyModel) -> Option<ReviewModel> {
        match body {
            ReceiptBodyModel::Review(v) => Some(v),
            _ => None,
        }
    }

    fn of_body(body: &ReceiptBody) -> (res: Option<&Self>) {
        match body {
            ReceiptBody::Review(v) => Some(v),
            _ => None,
        }
    }
}

impl Answer for InputReceipt {
    open spec fn of(body: ReceiptBodyModel) -> Option<InputReceiptModel> {
        match body {
            ReceiptBodyModel::Input(v) => Some(v),
            _ => None,
        }
    }

    fn of_body(body: &ReceiptBody) -> (res: Option<&Self>) {
        match body {
            ReceiptBody::Input(v) => Some(v),
            _ => None,
        }
    }
}

/// One record, filed under a session and a task.
#[derive(Debug, PartialEq, Eq)]
pub struct Record {
    pub id: String,
    pub session: String,
    pub task_id: String,
    pub body: Body,
    /// The text that the body was written as, where it would now be written otherwise.
    pub wire: Option<String>,
}

/// The value of a `Record`.
#[verifier::ext_equal]
pub struct RecordModel {
    pub id: Text,
    pub session: Text,
    pub task_id: Text,
    pub body: BodyModel,
    pub wire: Option<Text>,
}

impl DeepView for Record {
    type V = RecordModel;

    open spec fn deep_view(&self) -> RecordModel {
        RecordModel {
            id: self.id.deep_view(),
            session: self.session.deep_view(),
            task_id: self.task_id.deep_view(),
            body: self.body.deep_view(),
            wire: self.wire.deep_view(),
        }
    }
}

impl Replica for Record {
    fn replica(&self) -> (res: Self) {
        Record {
            id: self.id.replica(),
            session: self.session.replica(),
            task_id: self.task_id.replica(),
            body: self.body.replica(),
            wire: self.wire.replica(),
        }
    }
}

impl Clone for Record {
    fn clone(&self) -> (res: Self)
        ensures
            res.deep_view() == self.deep_view(),
    {
        self.replica()
    }
}

/// The committed answer to one request key.
#[derive(Debug, PartialEq, Eq)]
pub struct ReceiptRow {
    pub actor: String,
    pub session: String,
    pub kind: RequestKind,
    pub request_key: String,
    pub digest: String,
    pub body: ReceiptBody,
    /// The text that the body was written as, where it would now be written otherwise.
    pub wire: Option<String>,
}

/// The value of a `ReceiptRow`.
#[verifier::ext_equal]
pub struct ReceiptRowModel {
    pub actor: Text,
    pub session: Text,
    pub kind: RequestKind,
    pub request_key: Text,
    pub digest: Text,
    pub body: ReceiptBodyModel,
    pub wire: Option<Text>,
}

impl DeepView for ReceiptRow {
    type V = ReceiptRowModel;

    open spec fn deep_view(&self) -> ReceiptRowModel {
        ReceiptRowModel {
            actor: self.actor.deep_view(),
            session: self.session.deep_view(),
            kind: self.kind,
            request_key: self.request_key.deep_view(),
            digest: self.digest.deep_view(),
            body: self.body.deep_view(),
            wire: self.wire.deep_view(),
        }
    }
}

impl Replica for ReceiptRow {
    fn replica(&self) -> (res: Self) {
        ReceiptRow {
            actor: self.actor.replica(),
            session: self.session.replica(),
            kind: self.kind,
            request_key: self.request_key.replica(),
            digest: self.digest.replica(),
            body: self.body.replica(),
            wire: self.wire.replica(),
        }
    }
}

impl Clone for ReceiptRow {
    fn clone(&self) -> (res: Self)
        ensures
            res.deep_view() == self.deep_view(),
    {
        self.replica()
    }
}

/// One change, under the session it belongs to.
#[derive(Debug, PartialEq, Eq)]
pub struct ChangeRow {
    pub cursor: u64,
    pub session: String,
    pub task_id: String,
    pub revision: u64,
    pub kind: String,
    pub entity_id: String,
}

/// The value of a `ChangeRow`.
#[verifier::ext_equal]
pub struct ChangeRowModel {
    pub cursor: u64,
    pub session: Text,
    pub task_id: Text,
    pub revision: u64,
    pub kind: Text,
    pub entity_id: Text,
}

impl DeepView for ChangeRow {
    type V = ChangeRowModel;

    open spec fn deep_view(&self) -> ChangeRowModel {
        ChangeRowModel {
            cursor: self.cursor,
            session: self.session.deep_view(),
            task_id: self.task_id.deep_view(),
            revision: self.revision,
            kind: self.kind.deep_view(),
            entity_id: self.entity_id.deep_view(),
        }
    }
}

impl Replica for ChangeRow {
    fn replica(&self) -> (res: Self) {
        ChangeRow {
            cursor: self.cursor,
            session: self.session.replica(),
            task_id: self.task_id.replica(),
            revision: self.revision,
            kind: self.kind.replica(),
            entity_id: self.entity_id.replica(),
        }
    }
}

impl Clone for ChangeRow {
    fn clone(&self) -> (res: Self)
        ensures
            res.deep_view() == self.deep_view(),
    {
        self.replica()
    }
}

/// An uploaded input, who uploaded it and which task claimed it.
#[derive(Debug, PartialEq, Eq)]
pub struct InputRow {
    pub id: String,
    pub actor: String,
    pub session: String,
    pub repo_path: String,
    pub claimed_task: Option<String>,
    pub body: InputReceipt,
}

/// The value of a `InputRow`.
#[verifier::ext_equal]
pub struct InputRowModel {
    pub id: Text,
    pub actor: Text,
    pub session: Text,
    pub repo_path: Text,
    pub claimed_task: Option<Text>,
    pub body: InputReceiptModel,
}

impl DeepView for InputRow {
    type V = InputRowModel;

    open spec fn deep_view(&self) -> InputRowModel {
        InputRowModel {
            id: self.id.deep_view(),
            actor: self.actor.deep_view(),
            session: self.session.deep_view(),
            repo_path: self.repo_path.deep_view(),
            claimed_task: self.claimed_task.deep_view(),
            body: self.body.deep_view(),
        }
    }
}

impl Replica for InputRow {
    fn replica(&self) -> (res: Self) {
        InputRow {
            id: self.id.replica(),
            actor: self.actor.replica(),
            session: self.session.replica(),
            repo_path: self.repo_path.replica(),
            claimed_task: self.claimed_task.replica(),
            body: self.body.replica(),
        }
    }
}

impl Clone for InputRow {
    fn clone(&self) -> (res: Self)
        ensures
            res.deep_view() == self.deep_view(),
    {
        self.replica()
    }
}

/// What was promised about the inputs of one delivery. The version is `None` where
/// the row was written before versions were kept.
#[derive(Debug, PartialEq, Eq)]
pub struct DeliveryRow {
    pub operation_id: String,
    pub request_digest: String,
    pub final_prompt_digest: String,
    pub instruction_version: Option<Option<String>>,
}

/// The value of a `DeliveryRow`.
#[verifier::ext_equal]
pub struct DeliveryRowModel {
    pub operation_id: Text,
    pub request_digest: Text,
    pub final_prompt_digest: Text,
    pub instruction_version: Option<Option<Text>>,
}

impl DeepView for DeliveryRow {
    type V = DeliveryRowModel;

    open spec fn deep_view(&self) -> DeliveryRowModel {
        DeliveryRowModel {
            operation_id: self.operation_id.deep_view(),
            request_digest: self.request_digest.deep_view(),
            final_prompt_digest: self.final_prompt_digest.deep_view(),
            instruction_version: self.instruction_version.deep_view(),
        }
    }
}

impl Replica for DeliveryRow {
    fn replica(&self) -> (res: Self) {
        DeliveryRow {
            operation_id: self.operation_id.replica(),
            request_digest: self.request_digest.replica(),
            final_prompt_digest: self.final_prompt_digest.replica(),
            instruction_version: self.instruction_version.replica(),
        }
    }
}

impl Clone for DeliveryRow {
    fn clone(&self) -> (res: Self)
        ensures
            res.deep_view() == self.deep_view(),
    {
        self.replica()
    }
}

/// The projected summary of one task.
#[derive(Debug, PartialEq, Eq)]
pub struct SummaryRow {
    pub session: String,
    pub task_id: String,
    pub body: TaskSummary,
}

/// The value of a `SummaryRow`.
#[verifier::ext_equal]
pub struct SummaryRowModel {
    pub session: Text,
    pub task_id: Text,
    pub body: TaskSummaryModel,
}

impl DeepView for SummaryRow {
    type V = SummaryRowModel;

    open spec fn deep_view(&self) -> SummaryRowModel {
        SummaryRowModel {
            session: self.session.deep_view(),
            task_id: self.task_id.deep_view(),
            body: self.body.deep_view(),
        }
    }
}

impl Replica for SummaryRow {
    fn replica(&self) -> (res: Self) {
        SummaryRow {
            session: self.session.replica(),
            task_id: self.task_id.replica(),
            body: self.body.replica(),
        }
    }
}

impl Clone for SummaryRow {
    fn clone(&self) -> (res: Self)
        ensures
            res.deep_view() == self.deep_view(),
    {
        self.replica()
    }
}

/// The last change of one task, kept after the stream is pruned.
#[derive(Debug, PartialEq, Eq)]
pub struct ActivityRow {
    pub session: String,
    pub task_id: String,
    pub activity: TaskActivity,
}

/// The value of a `ActivityRow`.
#[verifier::ext_equal]
pub struct ActivityRowModel {
    pub session: Text,
    pub task_id: Text,
    pub activity: TaskActivityModel,
}

impl DeepView for ActivityRow {
    type V = ActivityRowModel;

    open spec fn deep_view(&self) -> ActivityRowModel {
        ActivityRowModel {
            session: self.session.deep_view(),
            task_id: self.task_id.deep_view(),
            activity: self.activity.deep_view(),
        }
    }
}

impl Replica for ActivityRow {
    fn replica(&self) -> (res: Self) {
        ActivityRow {
            session: self.session.replica(),
            task_id: self.task_id.replica(),
            activity: self.activity.replica(),
        }
    }
}

impl Clone for ActivityRow {
    fn clone(&self) -> (res: Self)
        ensures
            res.deep_view() == self.deep_view(),
    {
        self.replica()
    }
}

/// The last cursor of one session.
#[derive(Debug, PartialEq, Eq)]
pub struct WatermarkRow {
    pub session: String,
    pub cursor: u64,
}

/// The value of a `WatermarkRow`.
#[verifier::ext_equal]
pub struct WatermarkRowModel {
    pub session: Text,
    pub cursor: u64,
}

impl DeepView for WatermarkRow {
    type V = WatermarkRowModel;

    open spec fn deep_view(&self) -> WatermarkRowModel {
        WatermarkRowModel {
            session: self.session.deep_view(),
            cursor: self.cursor,
        }
    }
}

impl Replica for WatermarkRow {
    fn replica(&self) -> (res: Self) {
        WatermarkRow {
            session: self.session.replica(),
            cursor: self.cursor,
        }
    }
}

impl Clone for WatermarkRow {
    fn clone(&self) -> (res: Self)
        ensures
            res.deep_view() == self.deep_view(),
    {
        self.replica()
    }
}

/// Every table of the store.
#[derive(Debug, PartialEq, Eq)]
pub struct WorkStore {
    pub records: Vec<Record>,
    pub receipts: Vec<ReceiptRow>,
    pub changes: Vec<ChangeRow>,
    pub last_cursor: u64,
    pub inputs: Vec<InputRow>,
    pub deliveries: Vec<DeliveryRow>,
    pub summaries: Vec<SummaryRow>,
    pub activity: Vec<ActivityRow>,
    pub watermarks: Vec<WatermarkRow>,
    pub summaries_ready: bool,
}

/// What a `WorkStore` holds.
#[verifier::ext_equal]
pub struct StoreModel {
    pub records: Seq<RecordModel>,
    pub receipts: Seq<ReceiptRowModel>,
    pub changes: Seq<ChangeRowModel>,
    pub last_cursor: u64,
    pub inputs: Seq<InputRowModel>,
    pub deliveries: Seq<DeliveryRowModel>,
    pub summaries: Seq<SummaryRowModel>,
    pub activity: Seq<ActivityRowModel>,
    pub watermarks: Seq<WatermarkRowModel>,
    pub summaries_ready: bool,
}

impl DeepView for WorkStore {
    type V = StoreModel;

    open spec fn deep_view(&self) -> StoreModel {
        StoreModel {
            records: self.records.deep_view(),
            receipts: self.receipts.deep_view(),
            changes: self.changes.deep_view(),
            last_cursor: self.last_cursor,
            inputs: self.inputs.deep_view(),
            deliveries: self.deliveries.deep_view(),
            summaries: self.summaries.deep_view(),
            activity: self.activity.deep_view(),
            watermarks: self.watermarks.deep_view(),
            summaries_ready: self.summaries_ready,
        }
    }
}

impl Replica for WorkStore {
    fn replica(&self) -> (res: Self) {
        WorkStore {
            records: self.records.replica(),
            receipts: self.receipts.replica(),
            changes: self.changes.replica(),
            last_cursor: self.last_cursor,
            inputs: self.inputs.replica(),
            deliveries: self.deliveries.replica(),
            summaries: self.summaries.replica(),
            activity: self.activity.replica(),
            watermarks: self.watermarks.replica(),
            summaries_ready: self.summaries_ready,
        }
    }
}

impl Clone for WorkStore {
    fn clone(&self) -> (res: Self)
        ensures
            res.deep_view() == self.deep_view(),
    {
        self.replica()
    }
}

impl View for WorkStore {
    type V = StoreModel;

    open spec fn view(&self) -> StoreModel {
        self.deep_view()
    }
}

} // verus!
