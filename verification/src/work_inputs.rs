//! Uploaded task inputs: the fields that a form must have, the description that is recorded and the
//! bytes that a frozen reference resolves to.
use vstd::utf8::decode_utf8;
use vstd::utf8::valid_utf8;
use vstd::prelude::*;
use crate::digest::bytes_digest;
use crate::digest::sha256_hex;
use crate::text::is_said;
use crate::text::said;
use crate::text::text_eq;
use crate::value::Text;
use crate::value::shown;
use crate::work::model::ArtifactRef;
use crate::work::model::ArtifactRefModel;
use crate::work::model::FailureCode;
use crate::work::model::FrozenInputRef;
use crate::work::model::FrozenInputRefModel;
use crate::work::model::InputUpload;
use crate::work::model::InputUploadModel;
use crate::work::model::WorkResult;
use crate::work::store::records::refuse;
use crate::work::store::records::refused;
use crate::work_artifacts::FileRead;
use crate::work_artifacts::FileReadModel;
use crate::work_artifacts::retrieve;
use crate::work_artifacts::retrieved;
use crate::work_authority::join;
use crate::work_authority::joined;
use crate::work_authority::keeping::files_are_in_their_directory;
use crate::work_authority::keeping::is_in;

verus! {

broadcast use vstd::string::group_string_axioms;

/// The most bytes of an input.
pub const MAX_INPUT_BYTES: usize = 10_485_760;

/// The most bytes of a request key.
pub const MAX_KEY_BYTES: usize = 128;

/// The most bytes of a project path.
pub const MAX_PROJECT_BYTES: usize = 4096;

/// Why a form is refused.
#[derive(Debug, Clone, Copy, PartialEq, Eq, Structural)]
pub enum FormFailure {
    Invalid,
    /// The file is larger than an input may be.
    TooLarge,
}

/// The fields of an upload.
#[derive(Debug, Clone, Copy, PartialEq, Eq, Structural)]
pub enum FieldKind {
    RequestKey,
    RepoPath,
    File,
}

impl DeepView for FieldKind {
    type V = FieldKind;

    open spec fn deep_view(&self) -> FieldKind {
        *self
    }
}

/// Whether a paired device may act.
#[derive(Debug, Clone, Copy, PartialEq, Eq, Structural)]
pub enum Access {
    Granted,
    /// The token is not that of the device that began the request.
    InvalidToken,
    /// The device has a transport key and did not prove that it holds it.
    ProofRequired,
}

/// A file with the name that its sender gave it.
#[derive(Debug, PartialEq, Eq)]
pub struct UploadFile {
    pub name: String,
    pub bytes: Vec<u8>,
}

/// The value of an `UploadFile`.
#[verifier::ext_equal]
pub struct UploadFileModel {
    pub name: Text,
    pub bytes: Seq<u8>,
}

impl DeepView for UploadFile {
    type V = UploadFileModel;

    open spec fn deep_view(&self) -> UploadFileModel {
        UploadFileModel {
            name: self.name.deep_view(),
            bytes: self.bytes@,
        }
    }
}

/// The fields that have come so far.
#[derive(Debug, PartialEq, Eq)]
pub struct UploadForm {
    pub key: Option<String>,
    pub project: Option<String>,
    pub file: Option<UploadFile>,
}

/// The value of an `UploadForm`.
#[verifier::ext_equal]
pub struct UploadFormModel {
    pub key: Option<Text>,
    pub project: Option<Text>,
    pub file: Option<UploadFileModel>,
}

impl DeepView for UploadForm {
    type V = UploadFormModel;

    open spec fn deep_view(&self) -> UploadFormModel {
        UploadFormModel {
            key: self.key.deep_view(),
            project: self.project.deep_view(),
            file: self.file.deep_view(),
        }
    }
}

/// A field that is still coming in.
#[derive(Debug, PartialEq, Eq)]
pub struct OpenField {
    pub kind: FieldKind,
    pub name: Option<String>,
    pub bytes: Vec<u8>,
}

/// The value of an `OpenField`.
#[verifier::ext_equal]
pub struct OpenFieldModel {
    pub kind: FieldKind,
    pub name: Option<Text>,
    pub bytes: Seq<u8>,
}

impl DeepView for OpenField {
    type V = OpenFieldModel;

    open spec fn deep_view(&self) -> OpenFieldModel {
        OpenFieldModel {
            kind: self.kind,
            name: self.name.deep_view(),
            bytes: self.bytes@,
        }
    }
}

/// A whole upload.
#[derive(Debug, PartialEq, Eq)]
pub struct ParsedInput {
    pub key: String,
    pub project: String,
    pub name: String,
    pub bytes: Vec<u8>,
}

/// The value of a `ParsedInput`.
#[verifier::ext_equal]
pub struct ParsedInputModel {
    pub key: Text,
    pub project: Text,
    pub name: Text,
    pub bytes: Seq<u8>,
}

impl DeepView for ParsedInput {
    type V = ParsedInputModel;

    open spec fn deep_view(&self) -> ParsedInputModel {
        ParsedInputModel {
            key: self.key.deep_view(),
            project: self.project.deep_view(),
            name: self.name.deep_view(),
            bytes: self.bytes@,
        }
    }
}

/// The most bytes of a field.
pub open spec fn field_limit(kind: FieldKind) -> usize {
    match kind {
        FieldKind::RequestKey => MAX_KEY_BYTES,
        FieldKind::RepoPath => MAX_PROJECT_BYTES,
        FieldKind::File => MAX_INPUT_BYTES,
    }
}

/// The field that a name stands for, where the form has not got it yet.
pub open spec fn field_kind(form: UploadFormModel, name: Text) -> Option<FieldKind> {
    if name == "request_key"@ && form.key is None {
        Some(FieldKind::RequestKey)
    } else if name == "repo_path"@ && form.project is None {
        Some(FieldKind::RepoPath)
    } else if name == "file"@ && form.file is None {
        Some(FieldKind::File)
    } else {
        None
    }
}

/// The field that begins under a name. Only the file has a file name.
pub open spec fn field_opened(
    form: UploadFormModel,
    name: Option<Text>,
    filename: Option<Text>,
) -> Result<
    OpenFieldModel,
    FormFailure,
> {
    match name {
        None => Err(FormFailure::Invalid),
        Some(name) => match field_kind(form, name) {
            None => Err(FormFailure::Invalid),
            Some(kind) => if (kind == FieldKind::File) != (filename is Some) {
                Err(FormFailure::Invalid)
            } else {
                Ok(OpenFieldModel { kind, name: filename, bytes: Seq::empty() })
            },
        },
    }
}

/// The bytes that a field may still take.
pub open spec fn room_left(field: OpenFieldModel) -> int {
    if field.bytes.len() > field_limit(field.kind) {
        0
    } else {
        field_limit(field.kind) - field.bytes.len()
    }
}

/// A field with more of its bytes.
pub open spec fn field_extended(field: OpenFieldModel, chunk: Seq<u8>) -> Result<
    OpenFieldModel,
    FormFailure,
> {
    if chunk.len() > room_left(field) {
        Err(
            if field.kind == FieldKind::File {
                FormFailure::TooLarge
            } else {
                FormFailure::Invalid
            },
        )
    } else {
        Ok(OpenFieldModel { bytes: field.bytes + chunk, ..field })
    }
}

/// The form with one more field. A text field is UTF-8, says something and holds no NUL.
pub open spec fn field_closed(form: UploadFormModel, field: OpenFieldModel) -> Result<
    UploadFormModel,
    FormFailure,
> {
    if field.kind == FieldKind::File {
        match field.name {
            None => Err(FormFailure::Invalid),
            Some(name) => Ok(
                UploadFormModel {
                    file: Some(UploadFileModel { name, bytes: field.bytes }),
                    ..form
                },
            ),
        }
    } else if !valid_utf8(field.bytes) || !is_said(decode_utf8(field.bytes)) {
        Err(FormFailure::Invalid)
    } else if field.kind == FieldKind::RequestKey {
        Ok(UploadFormModel { key: Some(decode_utf8(field.bytes)), ..form })
    } else {
        Ok(UploadFormModel { project: Some(decode_utf8(field.bytes)), ..form })
    }
}

/// The upload, where the form has all its fields.
pub open spec fn form_finished(form: UploadFormModel) -> Result<ParsedInputModel, FormFailure> {
    if form.key is None || form.project is None || form.file is None {
        Err(FormFailure::Invalid)
    } else {
        Ok(
            ParsedInputModel {
                key: form.key->0,
                project: form.project->0,
                name: form.file->0.name,
                bytes: form.file->0.bytes,
            },
        )
    }
}

/// A form without fields.
pub open spec fn empty_form() -> UploadFormModel {
    UploadFormModel { key: None, project: None, file: None }
}

/// What a form's step gave.
pub open spec fn form_shown<T: DeepView>(res: Result<T, FormFailure>) -> Result<T::V, FormFailure> {
    match res {
        Ok(value) => Ok(value.deep_view()),
        Err(failure) => Err(failure),
    }
}

/// `String::from_utf8`: the text of the bytes where they are UTF-8.
#[verifier::external_body]
fn utf8_text(bytes: Vec<u8>) -> (res: Option<String>)
    ensures
        res is Some <==> valid_utf8(bytes@),
        res is Some ==> res->0@ == decode_utf8(bytes@),
{
    String::from_utf8(bytes).ok()
}

impl UploadForm {
    /// A form without fields.
    pub fn new() -> (res: UploadForm)
        ensures
            res.deep_view() == empty_form(),
    {
        UploadForm { key: None, project: None, file: None }
    }

    /// Begins a field.
    pub fn open(&self, name: Option<&str>, filename: Option<&str>) -> (res: Result<
        OpenField,
        FormFailure,
    >)
        ensures
            form_shown(res) == field_opened(
                self.deep_view(),
                name.deep_view(),
                filename.deep_view(),
            ),
    {
        let name = match name {
            Some(name) => name,
            None => {
                return Err(FormFailure::Invalid);
            },
        };
        let kind = if text_eq(name, "request_key") && self.key.is_none() {
            FieldKind::RequestKey
        } else if text_eq(name, "repo_path") && self.project.is_none() {
            FieldKind::RepoPath
        } else if text_eq(name, "file") && self.file.is_none() {
            FieldKind::File
        } else {
            return Err(FormFailure::Invalid);
        };
        if (kind == FieldKind::File) != filename.is_some() {
            return Err(FormFailure::Invalid);
        }
        let name = match filename {
            Some(name) => Some(name.to_string()),
            None => None,
        };
        Ok(OpenField { kind, name, bytes: Vec::new() })
    }

    /// Ends a field.
    pub fn close(&mut self, field: OpenField) -> (res: Result<(), FormFailure>)
        ensures
            match field_closed(old(self).deep_view(), field.deep_view()) {
                Ok(form) => res == Ok::<(), FormFailure>(()) && final(self).deep_view() == form,
                Err(failure) => res == Err::<(), FormFailure>(failure) && final(self).deep_view()
                    == old(self).deep_view(),
            },
    {
        if field.kind == FieldKind::File {
            match field.name {
                Some(name) => {
                    self.file = Some(UploadFile { name, bytes: field.bytes });
                    return Ok(());
                },
                None => {
                    return Err(FormFailure::Invalid);
                },
            }
        }
        let text = match utf8_text(field.bytes) {
            Some(text) => text,
            None => {
                return Err(FormFailure::Invalid);
            },
        };
        if !said(text.as_str()) {
            return Err(FormFailure::Invalid);
        }
        if field.kind == FieldKind::RequestKey {
            self.key = Some(text);
        } else {
            self.project = Some(text);
        }
        Ok(())
    }

    /// Ends the form.
    pub fn finish(self) -> (res: Result<ParsedInput, FormFailure>)
        ensures
            form_shown(res) == form_finished(self.deep_view()),
    {
        match (self.file, self.key, self.project) {
            (Some(file), Some(key), Some(project)) => Ok(
                ParsedInput { key, project, name: file.name, bytes: file.bytes },
            ),
            _ => Err(FormFailure::Invalid),
        }
    }
}

impl OpenField {
    /// Takes more bytes of a field.
    pub fn extend(&mut self, chunk: &[u8]) -> (res: Result<(), FormFailure>)
        ensures
            match field_extended(old(self).deep_view(), chunk@) {
                Ok(field) => res == Ok::<(), FormFailure>(()) && final(self).deep_view() == field,
                Err(failure) => res == Err::<(), FormFailure>(failure) && final(self).deep_view()
                    == old(self).deep_view(),
            },
    {
        let limit: usize = match self.kind {
            FieldKind::RequestKey => MAX_KEY_BYTES,
            FieldKind::RepoPath => MAX_PROJECT_BYTES,
            FieldKind::File => MAX_INPUT_BYTES,
        };
        let room: usize = if self.bytes.len() > limit {
            0
        } else {
            limit - self.bytes.len()
        };
        if chunk.len() > room {
            return Err(
                if self.kind == FieldKind::File {
                    FormFailure::TooLarge
                } else {
                    FormFailure::Invalid
                },
            );
        }
        self.bytes.extend_from_slice(chunk);
        assert(self.bytes@ =~= old(self).bytes@ + chunk@);
        Ok(())
    }
}

/// Whether a device may act: its token names it still, and where it has a transport key it has
/// proved to hold it.
pub open spec fn device_access(
    identified: Option<Text>,
    actor: Text,
    keyed: bool,
    proven: bool,
) -> Access {
    if identified != Some(actor) {
        Access::InvalidToken
    } else if keyed && !proven {
        Access::ProofRequired
    } else {
        Access::Granted
    }
}

/// Whether a device may act.
pub fn authorize_device(identified: Option<&str>, actor: &str, keyed: bool, proven: bool) -> (res:
    Access)
    ensures
        res == device_access(identified.deep_view(), actor@, keyed, proven),
{
    match identified {
        Some(id) => if !text_eq(id, actor) {
            Access::InvalidToken
        } else if keyed && !proven {
            Access::ProofRequired
        } else {
            Access::Granted
        },
        None => Access::InvalidToken,
    }
}

/// The description that is recorded of an upload.
pub open spec fn described(
    bytes: Seq<u8>,
    project: Text,
    name: Text,
    mime: Text,
) -> InputUploadModel {
    InputUploadModel {
        repo_path: project,
        name,
        mime,
        size_bytes: bytes.len() as u64,
        sha256: sha256_hex(bytes),
    }
}

/// Describes an upload.
pub fn describe_upload(bytes: &Vec<u8>, project: String, name: String, mime: String) -> (res:
    InputUpload)
    ensures
        res.deep_view() == described(bytes@, project@, name@, mime@),
{
    InputUpload {
        repo_path: project,
        name,
        mime,
        size_bytes: bytes.len() as u64,
        sha256: bytes_digest(bytes.as_slice()),
    }
}

/// The reference under which bytes of a digest and a size are stored.
pub open spec fn stored_under(sha256: Text, size_bytes: u64) -> ArtifactRefModel {
    ArtifactRefModel { path: sha256, sha256, size_bytes }
}

/// The reference under which bytes of a digest and a size are stored.
pub fn stored_as(sha256: &str, size_bytes: u64) -> (res: ArtifactRef)
    ensures
        res.deep_view() == stored_under(sha256@, size_bytes),
{
    ArtifactRef { path: sha256.to_string(), sha256: sha256.to_string(), size_bytes }
}

/// The reference to the bytes of a frozen input.
pub open spec fn input_stored(input: FrozenInputRefModel) -> WorkResult<ArtifactRefModel> {
    if input.size_bytes > MAX_INPUT_BYTES {
        refused(FailureCode::ResourceLimit)
    } else {
        Ok(stored_under(input.sha256, input.size_bytes))
    }
}

/// The reference to the bytes of a frozen input.
pub fn input_artifact(input: &FrozenInputRef) -> (res: WorkResult<ArtifactRef>)
    ensures
        shown(res) == input_stored(input.deep_view()),
{
    if input.size_bytes > MAX_INPUT_BYTES as u64 {
        return refuse(FailureCode::ResourceLimit);
    }
    Ok(stored_as(input.sha256.as_str(), input.size_bytes))
}

/// Where the bytes of a frozen input lie, given what stands under their name and the media type of
/// what was found there.
pub open spec fn input_resolved(
    root: Text,
    input: FrozenInputRefModel,
    found: WorkResult<FileReadModel>,
    mime: Option<Text>,
) -> WorkResult<Text> {
    match input_stored(input) {
        Err(error) => Err(error),
        Ok(artifact) => match retrieved(artifact, found) {
            Err(error) => Err(error),
            Ok(_) => if mime != Some(input.mime) {
                refused(FailureCode::ArtifactChanged)
            } else {
                Ok(joined(root, input.sha256))
            },
        },
    }
}

/// Where the bytes of a frozen input lie. They are the ones that were frozen, of the type that was
/// frozen.
pub fn resolve_input(
    root: &str,
    input: &FrozenInputRef,
    found: WorkResult<FileRead>,
    mime: Option<&str>,
) -> (res: WorkResult<String>)
    ensures
        shown(res) == input_resolved(
            root@,
            input.deep_view(),
            shown(found),
            mime.deep_view(),
        ),
{
    let artifact = input_artifact(input)?;
    retrieve(&artifact, found)?;
    let matching = match mime {
        Some(mime) => text_eq(mime, input.mime.as_str()),
        None => false,
    };
    if !matching {
        return refuse(FailureCode::ArtifactChanged);
    }
    Ok(join(root, input.sha256.as_str()))
}

/// A field that was taken in by its chunks never outgrows its limit.
pub proof fn fields_stay_bounded(field: OpenFieldModel, chunk: Seq<u8>)
    requires
        field.bytes.len() <= field_limit(field.kind),
    ensures
        field_extended(field, chunk) matches Ok(next) ==> next.bytes.len() <= field_limit(
            field.kind,
        ),
{
}

/// No field comes twice: once it has come, its name opens nothing.
pub proof fn fields_come_once(
    form: UploadFormModel,
    field: OpenFieldModel,
    name: Text,
    filename: Option<Text>,
)
    requires
        field_opened(form, Some(name), filename) matches Ok(opened) && opened.kind == field.kind,
    ensures
        field_closed(form, field) matches Ok(next) ==> field_opened(next, Some(name), filename)
            is Err,
{
    reveal_strlit("request_key");
    reveal_strlit("repo_path");
    reveal_strlit("file");
    assert("request_key"@.len() == 11 && "repo_path"@.len() == 9 && "file"@.len() == 4);
}

/// A field begins exactly where its name is one of the three, it has not come yet, and it has a
/// file name exactly where it is the file. It begins empty.
pub proof fn fields_begin_exactly(form: UploadFormModel, name: Option<Text>, filename: Option<Text>)
    ensures
        ({
            let res = field_opened(form, name, filename);
            let key = name == Some("request_key"@) && form.key is None && filename is None;
            let project = name == Some("repo_path"@) && form.project is None && filename is None;
            let file = name == Some("file"@) && form.file is None && filename is Some;
            &&& res is Ok <==> key || project || file
            &&& res matches Ok(field) ==> {
                &&& key ==> field.kind == FieldKind::RequestKey
                &&& project ==> field.kind == FieldKind::RepoPath
                &&& file ==> field.kind == FieldKind::File
                &&& field.name == filename
                &&& field.bytes.len() == 0
            }
            &&& res matches Err(failure) ==> failure == FormFailure::Invalid
        }),
{
    reveal_strlit("request_key");
    reveal_strlit("repo_path");
    reveal_strlit("file");
    assert("request_key"@.len() != "repo_path"@.len());
    assert("request_key"@.len() != "file"@.len());
    assert("repo_path"@.len() != "file"@.len());
}

/// A field takes in every byte in order: up to 128 of a key, 4096 of a path and 10 MiB of a file.
/// A file that is larger is too large; a longer text is invalid.
pub proof fn fields_take_in_every_byte(field: OpenFieldModel, chunk: Seq<u8>)
    ensures
        ({
            let most: int = match field.kind {
                FieldKind::RequestKey => 128,
                FieldKind::RepoPath => 4096,
                FieldKind::File => 10_485_760,
            };
            match field_extended(field, chunk) {
                Ok(next) => next.kind == field.kind && next.name == field.name && next.bytes
                    == field.bytes + chunk && (field.bytes.len() + chunk.len() <= most || chunk.len()
                    == 0),
                Err(failure) => field.bytes.len() + chunk.len() > most && failure == (if field.kind
                    == FieldKind::File {
                    FormFailure::TooLarge
                } else {
                    FormFailure::Invalid
                }),
            }
        }),
{
}

/// A field that ends fills its own place in the form and no other: a text as it was decoded, a
/// file with its name and its bytes. A text that is not UTF-8, is blank or holds a NUL is invalid.
pub proof fn fields_fill_their_places(form: UploadFormModel, field: OpenFieldModel)
    ensures
        match field_closed(form, field) {
            Ok(next) => match field.kind {
                FieldKind::RequestKey => next.key == Some(decode_utf8(field.bytes)) && next.project
                    == form.project && next.file == form.file && valid_utf8(field.bytes),
                FieldKind::RepoPath => next.project == Some(decode_utf8(field.bytes)) && next.key
                    == form.key && next.file == form.file && valid_utf8(field.bytes),
                FieldKind::File => next.key == form.key && next.project == form.project && (
                next.file matches Some(file) && Some(file.name) == field.name && file.bytes
                    == field.bytes),
            },
            Err(failure) => failure == FormFailure::Invalid && (if field.kind == FieldKind::File {
                field.name is None
            } else {
                !valid_utf8(field.bytes) || !is_said(decode_utf8(field.bytes))
            }),
        },
{
}

/// A form is an upload exactly where it has all three fields, and then with what they hold.
pub proof fn forms_are_whole(form: UploadFormModel)
    ensures
        match form_finished(form) {
            Ok(parsed) => form.key == Some(parsed.key) && form.project == Some(parsed.project) && (
            form.file matches Some(file) && file.name == parsed.name && file.bytes == parsed.bytes),
            Err(failure) => failure == FormFailure::Invalid && (form.key is None || form.project
                is None || form.file is None),
        },
        form_finished(form) is Ok <==> form.key is Some && form.project is Some && form.file is Some,
        form_finished(empty_form()) is Err,
{
}

/// The fields of a form may come in any order: three fields that were filled in, one after the
/// other, make the same upload.
pub proof fn fields_come_in_any_order(
    key: OpenFieldModel,
    project: OpenFieldModel,
    file: OpenFieldModel,
)
    requires
        key.kind == FieldKind::RequestKey,
        project.kind == FieldKind::RepoPath,
        file.kind == FieldKind::File,
        field_closed(empty_form(), key) is Ok,
        field_closed(empty_form(), project) is Ok,
        field_closed(empty_form(), file) is Ok,
    ensures
        ({
            let first = field_closed(
                field_closed(field_closed(empty_form(), key)->Ok_0, project)->Ok_0,
                file,
            );
            let second = field_closed(
                field_closed(field_closed(empty_form(), file)->Ok_0, project)->Ok_0,
                key,
            );
            &&& first is Ok && first == second
            &&& form_finished(first->Ok_0) matches Ok(parsed) && parsed.bytes == file.bytes
                && Some(parsed.name) == file.name && parsed.key == decode_utf8(key.bytes)
                && parsed.project == decode_utf8(project.bytes)
        }),
{
}

/// A device has access exactly where its token still names it and, if it has a transport key, it
/// proved to hold it.
pub proof fn devices_have_access_exactly(
    identified: Option<Text>,
    actor: Text,
    keyed: bool,
    proven: bool,
)
    ensures
        device_access(
            identified,
            actor,
            keyed,
            proven,
        ) == Access::Granted <==> (identified matches Some(
            name,
        ) && name == actor) && (keyed ==> proven),
        device_access(identified, actor, keyed, proven) == Access::ProofRequired <==> (identified
            matches Some(name) && name == actor) && keyed && !proven,
{
}

/// An upload is described by its own size and digest, for the project and under the name and the
/// type that were given.
pub proof fn uploads_are_described_by_their_bytes(
    bytes: Seq<u8>,
    project: Text,
    name: Text,
    mime: Text,
)
    requires
        bytes.len() <= u64::MAX,
    ensures
        ({
            let told = described(bytes, project, name, mime);
            &&& told.size_bytes == bytes.len()
            &&& told.sha256 == sha256_hex(bytes)
            &&& told.repo_path == project
            &&& told.name == name
            &&& told.mime == mime
        }),
{
}

/// A frozen input leads to its bytes exactly where it has no more than 10 MiB, what stands under
/// its digest is sound, and its type is still the same. The path is its digest below the root.
pub proof fn inputs_lead_to_their_bytes(
    root: Text,
    input: FrozenInputRefModel,
    found: WorkResult<FileReadModel>,
    mime: Option<Text>,
)
    ensures
        ({
            let named = ArtifactRefModel {
                path: input.sha256,
                sha256: input.sha256,
                size_bytes: input.size_bytes,
            };
            let res = input_resolved(root, input, found, mime);
            &&& res is Ok <==> input.size_bytes <= 10_485_760 && retrieved(named, found) is Ok && (
            mime matches Some(kind) && kind == input.mime)
            &&& res matches Ok(path) ==> is_in(path, root, input.sha256)
            &&& input.size_bytes > 10_485_760 ==> (res matches Err(error) && error.0
                == FailureCode::ResourceLimit)
            &&& input.size_bytes <= 10_485_760 ==> (retrieved(named, found) matches Ok(_) ==> (res
                matches Err(error) ==> error.0 == FailureCode::ArtifactChanged))
            &&& input.size_bytes <= 10_485_760 ==> (retrieved(named, found) matches Err(error) ==> (
            res matches Err(other) && other == error))
        }),
{
    files_are_in_their_directory(root, input.sha256);
}

} // verus!
