//! Submitting results and reviewing them.
use vstd::prelude::*;
use crate::digest::digest_text;
use crate::digest::is_uuid;
use crate::digest::new_id;
use crate::json::ToJson;
use crate::json::json_string;
use crate::text::bounded;
use crate::text::hex_digest;
use crate::text::is_bounded;
use crate::text::is_hex_digest;
use crate::text::text_eq;
use crate::value::Replica;
use crate::value::Text;
use crate::value::shown;
use crate::work::model::ArtifactRefModel;
use crate::work::model::Attempt;
use crate::work::model::FailureCode;
use crate::work::model::Mutation;
use crate::work::model::MutationModel;
use crate::work::model::OperationKind;
use crate::work::model::ResultInput;
use crate::work::model::ResultInputModel;
use crate::work::model::ResultSubmission;
use crate::work::model::ResultSubmissionModel;
use crate::work::model::Review;
use crate::work::model::ReviewInput;
use crate::work::model::ReviewInputModel;
use crate::work::model::ReviewModel;
use crate::work::model::Task;
use crate::work::model::WorkResult;
use crate::work::store::changes::changed;
use crate::work::store::inputs::payload;
use crate::work::store::records::loaded;
use crate::work::store::records::put;
use crate::work::store::records::refuse;
use crate::work::store::records::refused;
use crate::work::store::requests::Request;
use crate::work::store::requests::RequestModel;
use crate::work::store::requests::replayed;
use crate::work::store::requests::saved;
use crate::work::store::rules::revision;
use crate::work::store::tables::Body;
use crate::work::store::tables::BodyModel;
use crate::work::store::tables::ReceiptBody;
use crate::work::store::tables::ReceiptBodyModel;
use crate::work::store::tables::RequestKind;
use crate::work::store::tables::StoreModel;
use crate::work::store::tables::WorkStore;
use crate::work::store::transaction::commits;
use crate::work::store::transaction::first_time;
use crate::work::store::transaction::once_more;
use crate::work::store::transaction::repeated;

verus! {

/// The largest file that a result may name.
pub const MAX_ARTIFACT_SIZE: u64 = 52_428_800;

/// A file that a result may name.
pub open spec fn is_artifact(artifact: ArtifactRefModel) -> bool {
    &&& is_bounded(artifact.path, 4096)
    &&& is_hex_digest(artifact.sha256)
    &&& artifact.size_bytes <= MAX_ARTIFACT_SIZE
}

/// Whether the words of a result are admissible.
pub open spec fn is_result(input: ResultInputModel) -> bool {
    &&& is_bounded(input.summary, 16384)
    &&& input.artifacts.len() <= 32
    &&& input.evidence.len() <= 32
    &&& forall|i: int|
        0 <= i < input.evidence.len() ==> is_bounded(#[trigger] input.evidence[i], 4096)
    &&& forall|i: int| 0 <= i < input.artifacts.len() ==> is_artifact(#[trigger] input.artifacts[i])
}

fn valid_result(input: &ResultInput) -> (res: bool)
    ensures
        res == is_result(input.deep_view()),
{
    let ghost evidence = input.deep_view().evidence;
    let ghost artifacts = input.deep_view().artifacts;
    if !bounded(input.summary.as_str(), 16384) || input.artifacts.len() > 32 || input.evidence.len()
        > 32 {
        return false;
    }
    let mut i: usize = 0;
    while i < input.evidence.len()
        invariant
            i <= input.evidence.len(),
            evidence == input.deep_view().evidence,
            forall|k: int| 0 <= k < i ==> is_bounded(#[trigger] evidence[k], 4096),
        decreases input.evidence.len() - i,
    {
        if !bounded(input.evidence[i].as_str(), 4096) {
            assert(!is_bounded(evidence[i as int], 4096));
            return false;
        }
        i += 1;
    }
    let mut j: usize = 0;
    while j < input.artifacts.len()
        invariant
            j <= input.artifacts.len(),
            artifacts == input.deep_view().artifacts,
            forall|k: int| 0 <= k < j ==> is_artifact(#[trigger] artifacts[k]),
        decreases input.artifacts.len() - j,
    {
        let artifact = &input.artifacts[j];
        if !bounded(artifact.path.as_str(), 4096) || !hex_digest(artifact.sha256.as_str())
            || artifact.size_bytes > MAX_ARTIFACT_SIZE {
            assert(!is_artifact(artifacts[j as int]));
            return false;
        }
        j += 1;
    }
    true
}

/// The request that a result is filed under.
pub open spec fn result_request(
    actor: Text,
    session: Text,
    task_id: Text,
    key: Text,
    expected_revision: u64,
    input: ResultInputModel,
) -> RequestModel {
    RequestModel {
        actor,
        session,
        key,
        kind: RequestKind::Work(OperationKind::SubmitResult),
        digest: payload(
            Seq::empty()
                .push(json_string(task_id))
                .push(u64::json(expected_revision))
                .push(ResultInput::json(input)),
        ),
    }
}

/// What becomes of a result that is submitted, where it is given the identifier `id`.
pub open spec fn submit_outcome(
    s: StoreModel,
    id: Text,
    actor: Text,
    session: Text,
    task_id: Text,
    key: Text,
    expected_revision: u64,
    input: ResultInputModel,
    now: i64,
) -> WorkResult<(StoreModel, MutationModel<ResultSubmissionModel>)> {
    let request = result_request(actor, session, task_id, key, expected_revision, input);
    if !is_result(input) {
        refused(FailureCode::InvalidInput)
    } else {
        match replayed::<ResultSubmission>(s, request) {
            Err(error) => Err(error),
            Ok(Some(found)) => Ok((s, once_more(found))),
            Ok(None) => match loaded::<Task>(s, session, task_id) {
                Err(error) => Err(error),
                Ok(task) => if task.revision != expected_revision {
                    refused(FailureCode::RevisionConflict)
                } else {
                    match loaded::<Attempt>(s, session, input.attempt_id) {
                        Err(error) => Err(error),
                        Ok(attempt) => if attempt.task_id != task_id {
                            refused(FailureCode::ScopeMismatch)
                        } else {
                            let result = ResultSubmissionModel {
                                id,
                                task_id,
                                result: input,
                                created_at_ms: now,
                            };
                            match put(s, session, id, task_id, BodyModel::Result(result)) {
                                Err(error) => Err(error),
                                Ok(filed) => match changed(
                                    filed,
                                    task,
                                    "result_submitted"@,
                                    id,
                                    now,
                                ) {
                                    Err(error) => Err(error),
                                    Ok((next, _)) => Ok(
                                        (
                                            saved(
                                                next,
                                                request,
                                                ReceiptBodyModel::Result(result),
                                            ),
                                            first_time(result),
                                        ),
                                    ),
                                },
                            }
                        },
                    }
                },
            },
        }
    }
}

/// The request that a review is filed under.
pub open spec fn review_request(
    actor: Text,
    session: Text,
    task_id: Text,
    key: Text,
    expected_revision: u64,
    input: ReviewInputModel,
) -> RequestModel {
    RequestModel {
        actor,
        session,
        key,
        kind: RequestKind::Work(OperationKind::ReviewResult),
        digest: payload(
            Seq::empty()
                .push(json_string(task_id))
                .push(u64::json(expected_revision))
                .push(ReviewInput::json(input)),
        ),
    }
}

/// What becomes of a review, where it is given the identifier `id`.
pub open spec fn review_outcome(
    s: StoreModel,
    id: Text,
    actor: Text,
    session: Text,
    task_id: Text,
    key: Text,
    expected_revision: u64,
    input: ReviewInputModel,
    now: i64,
) -> WorkResult<(StoreModel, MutationModel<ReviewModel>)> {
    let request = review_request(actor, session, task_id, key, expected_revision, input);
    if input.message matches Some(message) && !is_bounded(message, 16384) {
        refused(FailureCode::InvalidInput)
    } else {
        match replayed::<Review>(s, request) {
            Err(error) => Err(error),
            Ok(Some(found)) => Ok((s, once_more(found))),
            Ok(None) => match loaded::<Task>(s, session, task_id) {
                Err(error) => Err(error),
                Ok(task) => if task.revision != expected_revision {
                    refused(FailureCode::RevisionConflict)
                } else {
                    match loaded::<ResultSubmission>(s, session, input.submission_id) {
                        Err(error) => Err(error),
                        Ok(result) => if result.task_id != task_id {
                            refused(FailureCode::ScopeMismatch)
                        } else {
                            let review = ReviewModel {
                                id,
                                task_id,
                                actor_id: actor,
                                review: input,
                                created_at_ms: now,
                            };
                            match put(s, session, id, task_id, BodyModel::Review(review)) {
                                Err(error) => Err(error),
                                Ok(filed) => match changed(
                                    filed,
                                    task,
                                    "result_reviewed"@,
                                    id,
                                    now,
                                ) {
                                    Err(error) => Err(error),
                                    Ok((next, _)) => Ok(
                                        (
                                            saved(
                                                next,
                                                request,
                                                ReceiptBodyModel::Review(review),
                                            ),
                                            first_time(review),
                                        ),
                                    ),
                                },
                            }
                        },
                    }
                },
            },
        }
    }
}

fn result_request_of<'a>(
    actor: &'a str,
    session: &'a str,
    task_id: &str,
    key: &'a str,
    expected_revision: u64,
    input: &ResultInput,
) -> (res: WorkResult<Request<'a>>)
    ensures
        shown(res) == (if is_result(input.deep_view()) {
            Ok(
                result_request(
                    actor@,
                    session@,
                    task_id@,
                    key@,
                    expected_revision,
                    input.deep_view(),
                ),
            )
        } else {
            refused(FailureCode::InvalidInput)
        }),
{
    if !valid_result(input) {
        return refuse(FailureCode::InvalidInput);
    }
    Ok(
        Request {
            actor,
            session,
            key,
            kind: RequestKind::Work(OperationKind::SubmitResult),
            digest: digest_text(&(task_id, expected_revision, input)),
        },
    )
}

impl WorkStore {
    /// Answers a result that was submitted before, before any file that it names is looked at.
    pub fn replay_result(
        &self,
        actor: &str,
        session: &str,
        task_id: &str,
        key: &str,
        expected_revision: u64,
        input: &ResultInput,
    ) -> (res: WorkResult<Option<Mutation<ResultSubmission>>>)
        ensures
            shown(res) == (if !is_result(input.deep_view()) {
                refused(FailureCode::InvalidInput)
            } else {
                repeated(
                    replayed::<ResultSubmission>(
                        self@,
                        result_request(
                            actor@,
                            session@,
                            task_id@,
                            key@,
                            expected_revision,
                            input.deep_view(),
                        ),
                    ),
                )
            }),
    {
        let request = result_request_of(actor, session, task_id, key, expected_revision, input)?;
        match self.replay::<ResultSubmission>(&request)? {
            Some(value) => Ok(Some(Mutation { value, replayed: true })),
            None => Ok(None),
        }
    }

    /// Files a result under the identifier given.
    pub fn submit_result_as(
        &mut self,
        id: &str,
        actor: &str,
        session: &str,
        task_id: &str,
        key: &str,
        expected_revision: u64,
        input: ResultInput,
        now: i64,
    ) -> (res: WorkResult<Mutation<ResultSubmission>>)
        ensures
            commits(
                old(self)@,
                final(self)@,
                submit_outcome(
                    old(self)@,
                    id@,
                    actor@,
                    session@,
                    task_id@,
                    key@,
                    expected_revision,
                    input.deep_view(),
                    now,
                ),
                shown(res),
            ),
    {
        let request = result_request_of(actor, session, task_id, key, expected_revision, &input)?;
        match self.replay::<ResultSubmission>(&request)? {
            Some(value) => {
                return Ok(Mutation { value, replayed: true });
            },
            None => {},
        }
        let task = self.load::<Task>(session, task_id)?;
        revision(&task, expected_revision)?;
        let attempt = self.load::<Attempt>(session, input.attempt_id.as_str())?;
        if !text_eq(attempt.task_id.as_str(), task_id) {
            return refuse(FailureCode::ScopeMismatch);
        }
        let value = ResultSubmission {
            id: id.to_string(),
            task_id: task_id.to_string(),
            result: input,
            created_at_ms: now,
        };
        let mut next = self.replica();
        next.put(session, id, task_id, Body::Result(value.replica()))?;
        let _ = next.change(task, "result_submitted", id, now)?;
        next.save(&request, ReceiptBody::Result(value.replica()));
        *self = next;
        Ok(Mutation { value, replayed: false })
    }

    /// Submits a result.
    pub fn submit_result(
        &mut self,
        actor: &str,
        session: &str,
        task_id: &str,
        key: &str,
        expected_revision: u64,
        input: ResultInput,
        now: i64,
    ) -> (res: WorkResult<Mutation<ResultSubmission>>)
        ensures
            exists|id: Text|
                is_uuid(id) && commits(
                    old(self)@,
                    final(self)@,
                    #[trigger] submit_outcome(
                        old(self)@,
                        id,
                        actor@,
                        session@,
                        task_id@,
                        key@,
                        expected_revision,
                        input.deep_view(),
                        now,
                    ),
                    shown(res),
                ),
    {
        let id = new_id();
        self.submit_result_as(
            id.as_str(),
            actor,
            session,
            task_id,
            key,
            expected_revision,
            input,
            now,
        )
    }

    /// Files a review under the identifier given.
    pub fn review_result_as(
        &mut self,
        id: &str,
        actor: &str,
        session: &str,
        task_id: &str,
        key: &str,
        expected_revision: u64,
        input: ReviewInput,
        now: i64,
    ) -> (res: WorkResult<Mutation<Review>>)
        ensures
            commits(
                old(self)@,
                final(self)@,
                review_outcome(
                    old(self)@,
                    id@,
                    actor@,
                    session@,
                    task_id@,
                    key@,
                    expected_revision,
                    input.deep_view(),
                    now,
                ),
                shown(res),
            ),
    {
        match &input.message {
            Some(message) => {
                if !bounded(message.as_str(), 16384) {
                    return refuse(FailureCode::InvalidInput);
                }
            },
            None => {},
        }
        let request = Request {
            actor,
            session,
            key,
            kind: RequestKind::Work(OperationKind::ReviewResult),
            digest: digest_text(&(task_id, expected_revision, &input)),
        };
        match self.replay::<Review>(&request)? {
            Some(value) => {
                return Ok(Mutation { value, replayed: true });
            },
            None => {},
        }
        let task = self.load::<Task>(session, task_id)?;
        revision(&task, expected_revision)?;
        let result = self.load::<ResultSubmission>(session, input.submission_id.as_str())?;
        if !text_eq(result.task_id.as_str(), task_id) {
            return refuse(FailureCode::ScopeMismatch);
        }
        let value = Review {
            id: id.to_string(),
            task_id: task_id.to_string(),
            actor_id: actor.to_string(),
            review: input,
            created_at_ms: now,
        };
        let mut next = self.replica();
        next.put(session, id, task_id, Body::Review(value.replica()))?;
        let _ = next.change(task, "result_reviewed", id, now)?;
        next.save(&request, ReceiptBody::Review(value.replica()));
        *self = next;
        Ok(Mutation { value, replayed: false })
    }

    /// Records a verdict on one submission.
    pub fn review_result(
        &mut self,
        actor: &str,
        session: &str,
        task_id: &str,
        key: &str,
        expected_revision: u64,
        input: ReviewInput,
        now: i64,
    ) -> (res: WorkResult<Mutation<Review>>)
        ensures
            exists|id: Text|
                is_uuid(id) && commits(
                    old(self)@,
                    final(self)@,
                    #[trigger] review_outcome(
                        old(self)@,
                        id,
                        actor@,
                        session@,
                        task_id@,
                        key@,
                        expected_revision,
                        input.deep_view(),
                        now,
                    ),
                    shown(res),
                ),
    {
        let id = new_id();
        self.review_result_as(
            id.as_str(),
            actor,
            session,
            task_id,
            key,
            expected_revision,
            input,
            now,
        )
    }
}

} // verus!
