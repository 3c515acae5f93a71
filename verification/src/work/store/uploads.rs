//! Recording uploads.
use vstd::prelude::*;
use crate::digest::digest_of;
use crate::digest::digest_text;
use crate::digest::is_uuid;
use crate::digest::new_id;
use crate::json::ToJson;
use crate::text::text_eq;
use crate::value::Replica;
use crate::value::Text;
use crate::value::add_row;
use crate::value::shown;
use crate::work::model::FailureCode;
use crate::work::model::FrozenInputRef;
use crate::work::model::FrozenInputRefModel;
use crate::work::model::InputReceipt;
use crate::work::model::InputReceiptModel;
use crate::work::model::InputRef;
use crate::work::model::InputRefModel;
use crate::work::model::InputUpload;
use crate::work::model::InputUploadModel;
use crate::work::model::Task;
use crate::work::model::WorkResult;
use crate::work::store::inputs::INPUT_TTL_MS;
use crate::work::store::inputs::MAX_INPUTS;
use crate::work::store::inputs::input_at;
use crate::work::store::inputs::is_upload;
use crate::work::store::inputs::resolved;
use crate::work::store::inputs::valid_upload;
use crate::work::store::records::loaded;
use crate::work::store::records::refuse;
use crate::work::store::records::refused;
use crate::work::store::requests::Request;
use crate::work::store::requests::RequestModel;
use crate::work::store::requests::named;
use crate::work::store::requests::receipt_at;
use crate::work::store::requests::replayed;
use crate::work::store::requests::saved;
use crate::work::store::requests::well_named;
use crate::work::store::tables::Answer;
use crate::work::store::tables::InputRow;
use crate::work::store::tables::InputRowModel;
use crate::work::store::tables::ReceiptBody;
use crate::work::store::tables::ReceiptBodyModel;
use crate::work::store::tables::RequestKind;
use crate::work::store::tables::StoreModel;
use crate::work::store::tables::Stored;
use crate::work::store::tables::WorkStore;
use crate::work::store::transaction::commits;

verus! {

/// The request that an upload is filed under.
pub open spec fn upload_request(
    actor: Text,
    session: Text,
    key: Text,
    input: InputUploadModel,
) -> RequestModel {
    RequestModel {
        actor,
        session,
        key,
        kind: RequestKind::InputUpload,
        digest: digest_of(InputUpload::json(input)),
    }
}

/// What becomes of an upload, where it is given the identifier `id`.
pub open spec fn upload_outcome(
    s: StoreModel,
    id: Text,
    actor: Text,
    session: Text,
    key: Text,
    input: InputUploadModel,
    now: i64,
) -> WorkResult<(StoreModel, InputReceiptModel)> {
    let request = upload_request(actor, session, key, input);
    if !is_upload(input) {
        refused(FailureCode::InvalidInput)
    } else {
        match replayed::<InputReceipt>(s, request) {
            Err(error) => Err(error),
            Ok(Some(receipt)) => Ok((s, receipt)),
            Ok(None) => if s.inputs.len() >= MAX_INPUTS {
                refused(FailureCode::ResourceLimit)
            } else if now + INPUT_TTL_MS > i64::MAX {
                refused(FailureCode::InvalidInput)
            } else if input_at(s.inputs, id) is Some {
                refused(FailureCode::StorageUnavailable)
            } else {
                let receipt = InputReceiptModel {
                    input_id: id,
                    session_id: session,
                    repo_path: input.repo_path,
                    name: input.name,
                    mime: input.mime,
                    size_bytes: input.size_bytes,
                    sha256: input.sha256,
                    created_at_ms: now,
                    expires_at_ms: (now + INPUT_TTL_MS) as i64,
                };
                let next = StoreModel {
                    inputs: s.inputs.push(
                        InputRowModel {
                            id,
                            actor,
                            session,
                            repo_path: input.repo_path,
                            claimed_task: None,
                            body: receipt,
                        },
                    ),
                    ..s
                };
                Ok((saved(next, request, ReceiptBodyModel::Input(receipt)), receipt))
            },
        }
    }
}

fn upload_request_of<'a>(
    actor: &'a str,
    session: &'a str,
    key: &'a str,
    input: &InputUpload,
) -> (res: WorkResult<Request<'a>>)
    ensures
        shown(res) == (if is_upload(input.deep_view()) {
            Ok(upload_request(actor@, session@, key@, input.deep_view()))
        } else {
            refused(FailureCode::InvalidInput)
        }),
{
    if !valid_upload(input) {
        return refuse(FailureCode::InvalidInput);
    }
    Ok(
        Request {
            actor,
            session,
            key,
            kind: RequestKind::InputUpload,
            digest: digest_text(input),
        },
    )
}

impl WorkStore {
    /// Answers an upload that was recorded before.
    pub fn replay_input_upload(
        &self,
        actor: &str,
        session: &str,
        key: &str,
        input: &InputUpload,
    ) -> (res: WorkResult<Option<InputReceipt>>)
        ensures
            shown(res) == (if !is_upload(input.deep_view()) {
                refused(FailureCode::InvalidInput)
            } else {
                replayed::<InputReceipt>(
                    self@,
                    upload_request(actor@, session@, key@, input.deep_view()),
                )
            }),
    {
        let request = upload_request_of(actor, session, key, input)?;
        self.replay::<InputReceipt>(&request)
    }

    /// Records an upload under the identifier given.
    pub fn commit_input_upload_as(
        &mut self,
        id: &str,
        actor: &str,
        session: &str,
        key: &str,
        input: InputUpload,
        now: i64,
    ) -> (res: WorkResult<InputReceipt>)
        ensures
            commits(
                old(self)@,
                final(self)@,
                upload_outcome(
                    old(self)@,
                    id@,
                    actor@,
                    session@,
                    key@,
                    input.deep_view(),
                    now,
                ),
                shown(res),
            ),
    {
        let request = upload_request_of(actor, session, key, &input)?;
        match self.replay::<InputReceipt>(&request)? {
            Some(receipt) => {
                return Ok(receipt);
            },
            None => {},
        }
        if self.inputs.len() >= MAX_INPUTS {
            return refuse(FailureCode::ResourceLimit);
        }
        let expires_at_ms: i64 = match now.checked_add(INPUT_TTL_MS) {
            Some(at) => at,
            None => {
                return refuse(FailureCode::InvalidInput);
            },
        };
        if self.find_input(id).is_some() {
            return refuse(FailureCode::StorageUnavailable);
        }
        let receipt = InputReceipt {
            input_id: id.to_string(),
            session_id: session.to_string(),
            repo_path: input.repo_path,
            name: input.name,
            mime: input.mime,
            size_bytes: input.size_bytes,
            sha256: input.sha256,
            created_at_ms: now,
            expires_at_ms,
        };
        add_row(
            &mut self.inputs,
            InputRow {
                id: id.to_string(),
                actor: actor.to_string(),
                session: session.to_string(),
                repo_path: receipt.repo_path.clone(),
                claimed_task: None,
                body: receipt.replica(),
            },
        );
        self.save(&request, ReceiptBody::Input(receipt.replica()));
        Ok(receipt)
    }

    /// Records an upload.
    pub fn commit_input_upload(
        &mut self,
        actor: &str,
        session: &str,
        key: &str,
        input: InputUpload,
        now: i64,
    ) -> (res: WorkResult<InputReceipt>)
        ensures
            exists|id: Text|
                is_uuid(id) && commits(
                    old(self)@,
                    final(self)@,
                    #[trigger] upload_outcome(
                        old(self)@,
                        id,
                        actor@,
                        session@,
                        key@,
                        input.deep_view(),
                        now,
                    ),
                    shown(res),
                ),
    {
        let id = new_id();
        self.commit_input_upload_as(id.as_str(), actor, session, key, input, now)
    }

    /// Reads the receipt of an upload.
    pub fn get_input_receipt(&self, actor: &str, session: &str, key: &str) -> (res: WorkResult<
        InputReceipt,
    >)
        ensures
            shown(res) == (if !named(actor@, session@, key@) {
                refused(FailureCode::InvalidInput)
            } else {
                match receipt_at(self@.receipts, actor@, session@, RequestKind::InputUpload, key@) {
                    None => refused(FailureCode::NotFound),
                    Some(i) => match <InputReceipt as Answer>::of(self@.receipts[i].body) {
                        Some(receipt) => Ok(receipt),
                        None => refused(FailureCode::StorageUnavailable),
                    },
                }
            }),
    {
        if !well_named(actor, session, key) {
            return refuse(FailureCode::InvalidInput);
        }
        match self.find_receipt(actor, session, RequestKind::InputUpload, key) {
            None => refuse(FailureCode::NotFound),
            Some(i) => match <InputReceipt as Answer>::of_body(&self.receipts[i].body) {
                Some(receipt) => Ok(receipt.replica()),
                None => refuse(FailureCode::StorageUnavailable),
            },
        }
    }

    /// References as they are now. Read-only: creation and delivery look again and claim.
    pub fn resolve_inputs(
        &self,
        actor: &str,
        session: &str,
        repo: &str,
        task: Option<&str>,
        refs: &[InputRef],
        now: i64,
    ) -> (res: WorkResult<Vec<FrozenInputRef>>)
        ensures
            shown(res) == inputs_resolved(
                self@,
                actor@,
                session@,
                repo@,
                task.deep_view(),
                refs.deep_view(),
                now,
            ),
    {
        match task {
            Some(id) => {
                let task = self.load::<Task>(session, id)?;
                if !text_eq(task.repo_path.as_str(), repo) {
                    return refuse(FailureCode::ScopeMismatch);
                }
            },
            None => {},
        }
        self.resolve(actor, session, repo, task, refs, now)
    }
}

/// References as they are now, for a task on the repository that is named.
pub open spec fn inputs_resolved(
    s: StoreModel,
    actor: Text,
    session: Text,
    repo: Text,
    task: Option<Text>,
    refs: Seq<InputRefModel>,
    now: i64,
) -> WorkResult<Seq<FrozenInputRefModel>> {
    let located = match task {
        None => Ok(()),
        Some(id) => match loaded::<Task>(s, session, id) {
            Err(error) => Err(error),
            Ok(task) => if task.repo_path != repo {
                refused(FailureCode::ScopeMismatch)
            } else {
                Ok(())
            },
        },
    };
    match located {
        Err(error) => Err(error),
        Ok(_) => resolved(s, actor, session, repo, task, refs, now),
    }
}

} // verus!
