//! Uploads: how the fields of a multipart form are read within their limits,
//! and which build an upload asks for.

use crate::error;
use crate::error::{bad_request, AppError, AppErrorView};
use crate::models::build_job::{CreateBuildRequest, CreateBuildRequestView};
use crate::models::source_bundle::SourceBundle;
use crate::models::state::BuilderConfigView;
use crate::outside::utf8_string;
use crate::services::context_hash;
use crate::services::context_hash::source_context_hash;
use crate::services::file_policy;
use crate::services::file_policy::is_allowed_upload_name;
use crate::services::source_bundles;
use crate::services::source_bundles::{
    SourceBundlesService, UploadedFileInput, UploadedFileInputView,
};
use crate::text;
use crate::text::{
    chars_of, is_ascii_digit, is_ascii_lower, is_ascii_upper, owned, same, to_ascii_lower, trimmed,
    trimmed_of,
};
use vstd::prelude::*;
use vstd::string::*;
use vstd::utf8;

verus! {

/// What an upload holds.
#[derive(Debug)]
pub struct SourceBundleMultipartPayload {
    pub lab_id: Option<String>,
    pub lab_name: Option<String>,
    pub requested_by: Option<String>,
    pub image_name: Option<String>,
    pub image_tag: Option<String>,
    pub dockerfile_path: Option<String>,
    pub files: Vec<UploadedFileInput>,
}

/// What an upload holds, with its texts.
pub struct PayloadView {
    pub lab_id: Option<Seq<char>>,
    pub lab_name: Option<Seq<char>>,
    pub requested_by: Option<Seq<char>>,
    pub image_name: Option<Seq<char>>,
    pub image_tag: Option<Seq<char>>,
    pub dockerfile_path: Option<Seq<char>>,
    pub files: Seq<UploadedFileInputView>,
}

impl View for SourceBundleMultipartPayload {
    type V = PayloadView;

    open spec fn view(&self) -> PayloadView {
        PayloadView {
            lab_id: text::opt_text(self.lab_id),
            lab_name: text::opt_text(self.lab_name),
            requested_by: text::opt_text(self.requested_by),
            image_name: text::opt_text(self.image_name),
            image_tag: text::opt_text(self.image_tag),
            dockerfile_path: text::opt_text(self.dockerfile_path),
            files: source_bundles::input_views(self.files@),
        }
    }
}

/// The text fields that an upload may have.
#[derive(Debug, Clone, Copy, PartialEq, Eq, Structural)]
pub enum TextField {
    LabId,
    LabName,
    RequestedBy,
    ImageName,
    ImageTag,
    DockerfilePath,
}

impl TextField {
    /// The name that the field has in a form.
    pub open spec fn name(self) -> Seq<char> {
        match self {
            TextField::LabId => "lab_id"@,
            TextField::LabName => "lab_name"@,
            TextField::RequestedBy => "requested_by"@,
            TextField::ImageName => "image_name"@,
            TextField::ImageTag => "image_tag"@,
            TextField::DockerfilePath => "dockerfile_path"@,
        }
    }

    /// The name that the field has in a form.
    pub fn field_name(self) -> (r: String)
        ensures
            r@ == self.name(),
    {
        match self {
            TextField::LabId => owned("lab_id"),
            TextField::LabName => owned("lab_name"),
            TextField::RequestedBy => owned("requested_by"),
            TextField::ImageName => owned("image_name"),
            TextField::ImageTag => owned("image_tag"),
            TextField::DockerfilePath => owned("dockerfile_path"),
        }
    }
}

/// The text field of this name.
pub open spec fn field_of(name: Seq<char>) -> Option<TextField> {
    if name == "lab_id"@ {
        Some(TextField::LabId)
    } else if name == "lab_name"@ {
        Some(TextField::LabName)
    } else if name == "requested_by"@ {
        Some(TextField::RequestedBy)
    } else if name == "image_name"@ {
        Some(TextField::ImageName)
    } else if name == "image_tag"@ {
        Some(TextField::ImageTag)
    } else if name == "dockerfile_path"@ {
        Some(TextField::DockerfilePath)
    } else {
        None
    }
}

fn text_field_of(name: &str) -> (r: Option<TextField>)
    ensures
        r == field_of(name@),
{
    if same(name, "lab_id") {
        Some(TextField::LabId)
    } else if same(name, "lab_name") {
        Some(TextField::LabName)
    } else if same(name, "requested_by") {
        Some(TextField::RequestedBy)
    } else if same(name, "image_name") {
        Some(TextField::ImageName)
    } else if same(name, "image_tag") {
        Some(TextField::ImageTag)
    } else if same(name, "dockerfile_path") {
        Some(TextField::DockerfilePath)
    } else {
        None
    }
}

impl PayloadView {
    /// The payload with one text field set.
    pub open spec fn with_text(self, field: TextField, value: Seq<char>) -> PayloadView {
        match field {
            TextField::LabId => PayloadView { lab_id: Some(value), ..self },
            TextField::LabName => PayloadView { lab_name: Some(value), ..self },
            TextField::RequestedBy => PayloadView { requested_by: Some(value), ..self },
            TextField::ImageName => PayloadView { image_name: Some(value), ..self },
            TextField::ImageTag => PayloadView { image_tag: Some(value), ..self },
            TextField::DockerfilePath => PayloadView { dockerfile_path: Some(value), ..self },
        }
    }
}

/// An upload between two of its fields: what was read, and how many bytes the
/// files have together.
#[derive(Debug)]
pub struct UploadForm {
    pub payload: SourceBundleMultipartPayload,
    pub total_upload_bytes: usize,
}

/// An upload within one of its text fields.
#[derive(Debug)]
pub struct TextReader {
    pub form: UploadForm,
    pub field: TextField,
    pub bytes: Vec<u8>,
}

/// An upload within one of its files.
#[derive(Debug)]
pub struct FileReader {
    pub form: UploadForm,
    pub file_name: String,
    pub bytes: Vec<u8>,
}

/// What a field of a form is read as.
#[derive(Debug)]
pub enum FieldStep {
    /// The field is passed over.
    Skip(UploadForm),
    /// The field is one of the text fields.
    Text(TextReader),
    /// The field is a file.
    File(FileReader),
}

/// How many bytes the files have together.
pub open spec fn total_bytes(files: Seq<UploadedFileInputView>) -> nat
    decreases files.len(),
{
    if files.len() == 0 {
        0
    } else {
        total_bytes(files.drop_last()) + files.last().bytes.len()
    }
}

/// Whether files keep to the limits of an upload: their number, the size of
/// each, and their names.
pub open spec fn files_within_limits(
    config: BuilderConfigView,
    files: Seq<UploadedFileInputView>,
) -> bool {
    &&& files.len() <= config.max_upload_files
    &&& forall|i: int|
        0 <= i < files.len() ==> (#[trigger] files[i]).bytes.len() <= config.max_upload_file_bytes
            && file_policy::text_name(file_policy::file_name(files[i].relative_path))
}

impl UploadForm {
    /// Every upload between two fields keeps to its limits.
    pub open spec fn within_limits(self, config: BuilderConfigView) -> bool {
        &&& files_within_limits(config, self.payload@.files)
        &&& self.total_upload_bytes == total_bytes(self.payload@.files)
        &&& self.total_upload_bytes <= config.max_upload_total_bytes
    }

    /// An upload of which nothing was read yet.
    pub fn new() -> (r: Self)
        ensures
            r.payload@ == (PayloadView {
                lab_id: None,
                lab_name: None,
                requested_by: None,
                image_name: None,
                image_tag: None,
                dockerfile_path: None,
                files: Seq::<UploadedFileInputView>::empty(),
            }),
            r.total_upload_bytes == 0,
            forall|config: BuilderConfigView| r.within_limits(config),
    {
        let files: Vec<UploadedFileInput> = Vec::new();
        assert(source_bundles::input_views(files@) =~= Seq::<UploadedFileInputView>::empty());
        UploadForm {
            payload: SourceBundleMultipartPayload {
                lab_id: None,
                lab_name: None,
                requested_by: None,
                image_name: None,
                image_tag: None,
                dockerfile_path: None,
                files,
            },
            total_upload_bytes: 0,
        }
    }

    /// Begins the next field. A part with a file name is a file, whatever its
    /// field name: it has to be of an allowed kind, and not one too many. A part
    /// without one is a text field where its name is known, and is passed over
    /// where it is not.
    pub fn begin_field(
        self,
        service: &SourceBundlesService,
        field_name: &str,
        file_name: Option<String>,
    ) -> (r: Result<FieldStep, AppError>)
        ensures
            match file_name {
                None => match field_of(field_name@) {
                    Some(field) => r matches Ok(FieldStep::Text(reader)) && reader.form == self
                        && reader.field == field && reader.bytes@.len() == 0,
                    None => r matches Ok(FieldStep::Skip(form)) && form == self,
                },
                Some(name) => if !file_policy::text_name(file_policy::file_name(name@)) {
                    r matches Err(e) && e@ == AppErrorView::BadRequest(
                        "Unsupported uploaded file type: "@ + name@,
                    )
                } else if self.payload.files@.len() >= service.config.max_upload_files {
                    r matches Err(e) && e@ == AppErrorView::BadRequest(
                        "Upload contains too many files"@,
                    )
                } else {
                    r matches Ok(FieldStep::File(reader)) && reader.form == self
                        && reader.file_name@ == name@ && reader.bytes@.len() == 0
                },
            },
            r matches Ok(FieldStep::File(reader)) ==> (self.within_limits(service.config@)
                ==> reader.within_limits(service.config@)),
    {
        match file_name {
            None => match text_field_of(field_name) {
                Some(field) => Ok(
                    FieldStep::Text(TextReader { form: self, field, bytes: Vec::new() }),
                ),
                None => Ok(FieldStep::Skip(self)),
            },
            Some(name) => {
                if !is_allowed_upload_name(name.as_str()) {
                    return Err(
                        AppError::BadRequest(
                            owned("Unsupported uploaded file type: ").concat(name.as_str()),
                        ),
                    );
                }
                if self.payload.files.len() >= service.max_upload_files() {
                    return Err(bad_request("Upload contains too many files"));
                }
                Ok(FieldStep::File(FileReader { form: self, file_name: name, bytes: Vec::new() }))
            },
        }
    }

    /// What was read, once the form has ended: files that keep to the limits.
    pub fn finish(self) -> (r: SourceBundleMultipartPayload)
        ensures
            r == self.payload,
            forall|config: BuilderConfigView|
                self.within_limits(config) ==> files_within_limits(config, r@.files)
                    && total_bytes(r@.files) <= config.max_upload_total_bytes,
    {
        self.payload
    }
}

/// The error for a form that cannot be read.
pub fn invalid_multipart(cause: &str) -> (r: AppError)
    ensures
        r@ == AppErrorView::BadRequest("Invalid multipart payload: "@ + cause@),
{
    AppError::BadRequest(owned("Invalid multipart payload: ").concat(cause))
}

/// Adds a chunk to the bytes of a text field, unless they would become too
/// many.
pub fn read_limited_text_field(
    bytes: &mut Vec<u8>,
    chunk: &[u8],
    field_name: &str,
    max_bytes: usize,
) -> (r: Result<(), AppError>)
    ensures
        if old(bytes)@.len() + chunk@.len() > max_bytes {
            &&& r matches Err(e)
            &&& e@ == AppErrorView::BadRequest(field_name@ + " is too large"@)
            &&& final(bytes)@ == old(bytes)@
        } else {
            r is Ok && final(bytes)@ == old(bytes)@ + chunk@
        },
{
    if chunk.len() > max_bytes || bytes.len() > max_bytes - chunk.len() {
        return Err(AppError::BadRequest(owned(field_name).concat(" is too large")));
    }
    bytes.extend_from_slice(chunk);
    assert(bytes@ =~= old(bytes)@ + chunk@);
    Ok(())
}

/// Adds a chunk to the bytes of a file and to the total of the upload, unless
/// either would become too large.
pub fn read_limited_field_bytes(
    bytes: &mut Vec<u8>,
    chunk: &[u8],
    max_file_bytes: usize,
    max_total_bytes: usize,
    total_upload_bytes: &mut usize,
) -> (r: Result<(), AppError>)
    ensures
        if old(bytes)@.len() + chunk@.len() > max_file_bytes {
            &&& r matches Err(e)
            &&& e@ == AppErrorView::BadRequest("Uploaded file exceeds the configured size limit"@)
        } else if *old(total_upload_bytes) + chunk@.len() > max_total_bytes {
            &&& r matches Err(e)
            &&& e@ == AppErrorView::BadRequest("Upload exceeds the configured total size limit"@)
        } else {
            &&& r is Ok
            &&& final(bytes)@ == old(bytes)@ + chunk@
            &&& *final(total_upload_bytes) == *old(total_upload_bytes) + chunk@.len()
        },
        r is Err ==> final(bytes)@ == old(bytes)@ && *final(total_upload_bytes) == *old(
            total_upload_bytes,
        ),
{
    if chunk.len() > max_file_bytes || bytes.len() > max_file_bytes - chunk.len() {
        return Err(bad_request("Uploaded file exceeds the configured size limit"));
    }
    let total: usize = *total_upload_bytes;
    if chunk.len() > max_total_bytes || total > max_total_bytes - chunk.len() {
        return Err(bad_request("Upload exceeds the configured total size limit"));
    }
    *total_upload_bytes = total + chunk.len();
    bytes.extend_from_slice(chunk);
    assert(bytes@ =~= old(bytes)@ + chunk@);
    Ok(())
}

/// What the bytes of a text field do to its value: a blank text leaves it as it
/// was.
pub open spec fn text_assigned(target: Option<Seq<char>>, bytes: Seq<u8>) -> Option<Seq<char>> {
    if text::trim(utf8::decode_utf8(bytes)).len() > 0 {
        Some(utf8::decode_utf8(bytes))
    } else {
        target
    }
}

/// Sets a field to the text that its bytes write, unless that text is blank.
pub fn assign_text_field(target: &mut Option<String>, bytes: Vec<u8>, field_name: &str) -> (r:
    Result<(), AppError>)
    ensures
        if utf8::valid_utf8(bytes@) {
            r is Ok && text::opt_text(*final(target)) == text_assigned(
                text::opt_text(*old(target)),
                bytes@,
            )
        } else {
            &&& r matches Err(e)
            &&& e@ == AppErrorView::BadRequest(field_name@ + " must be valid UTF-8"@)
            &&& *final(target) == *old(target)
        },
{
    match utf8_string(bytes) {
        Some(value) => {
            if !trimmed(value.as_str()).as_str().is_empty() {
                *target = Some(value);
            }
            Ok(())
        },
        None => Err(AppError::BadRequest(owned(field_name).concat(" must be valid UTF-8"))),
    }
}

impl TextReader {
    /// Adds a chunk to the field.
    pub fn add_chunk(&mut self, service: &SourceBundlesService, chunk: &[u8]) -> (r: Result<
        (),
        AppError,
    >)
        ensures
            final(self).form == old(self).form,
            final(self).field == old(self).field,
            if old(self).bytes@.len() + chunk@.len() > service.config.max_text_field_bytes {
                &&& r matches Err(e)
                &&& e@ == AppErrorView::BadRequest(old(self).field.name() + " is too large"@)
                &&& final(self).bytes@ == old(self).bytes@
            } else {
                r is Ok && final(self).bytes@ == old(self).bytes@ + chunk@
            },
    {
        let name = self.field.field_name();
        read_limited_text_field(
            &mut self.bytes,
            chunk,
            name.as_str(),
            service.max_text_field_bytes(),
        )
    }

    /// The error for a field that cannot be read.
    pub fn read_error(&self, cause: &str) -> (r: AppError)
        ensures
            r@ == AppErrorView::BadRequest("Failed to read "@ + self.field.name() + ": "@ + cause@),
    {
        let name = self.field.field_name();
        AppError::BadRequest(
            owned("Failed to read ").concat(name.as_str()).concat(": ").concat(cause),
        )
    }

    /// Ends the field: its text becomes the field's value, unless it is blank.
    /// A later field of the same name replaces an earlier one.
    pub fn close(self) -> (r: Result<UploadForm, AppError>)
        ensures
            if !utf8::valid_utf8(self.bytes@) {
                r matches Err(e) && e@ == AppErrorView::BadRequest(
                    self.field.name() + " must be valid UTF-8"@,
                )
            } else {
                &&& r matches Ok(form)
                &&& form.total_upload_bytes == self.form.total_upload_bytes
                &&& form.payload.files == self.form.payload.files
                &&& form.payload@ == if text::trim(utf8::decode_utf8(self.bytes@)).len() > 0 {
                    self.form.payload@.with_text(self.field, utf8::decode_utf8(self.bytes@))
                } else {
                    self.form.payload@
                }
                &&& forall|config: BuilderConfigView|
                    self.form.within_limits(config) ==> form.within_limits(config)
            },
    {
        let name = self.field.field_name();
        let mut form = self.form;
        let outcome = match self.field {
            TextField::LabId => assign_text_field(
                &mut form.payload.lab_id,
                self.bytes,
                name.as_str(),
            ),
            TextField::LabName => assign_text_field(
                &mut form.payload.lab_name,
                self.bytes,
                name.as_str(),
            ),
            TextField::RequestedBy => assign_text_field(
                &mut form.payload.requested_by,
                self.bytes,
                name.as_str(),
            ),
            TextField::ImageName => assign_text_field(
                &mut form.payload.image_name,
                self.bytes,
                name.as_str(),
            ),
            TextField::ImageTag => assign_text_field(
                &mut form.payload.image_tag,
                self.bytes,
                name.as_str(),
            ),
            TextField::DockerfilePath => assign_text_field(
                &mut form.payload.dockerfile_path,
                self.bytes,
                name.as_str(),
            ),
        };
        match outcome {
            Ok(_) => Ok(form),
            Err(e) => Err(e),
        }
    }
}

impl FileReader {
    /// Every upload within a file keeps to its limits.
    pub open spec fn within_limits(self, config: BuilderConfigView) -> bool {
        &&& files_within_limits(config, self.form.payload@.files)
        &&& self.form.payload@.files.len() < config.max_upload_files
        &&& self.form.total_upload_bytes == total_bytes(self.form.payload@.files)
            + self.bytes@.len()
        &&& self.form.total_upload_bytes <= config.max_upload_total_bytes
        &&& self.bytes@.len() <= config.max_upload_file_bytes
        &&& file_policy::text_name(file_policy::file_name(self.file_name@))
    }

    /// Adds a chunk to the file.
    pub fn add_chunk(&mut self, service: &SourceBundlesService, chunk: &[u8]) -> (r: Result<
        (),
        AppError,
    >)
        ensures
            final(self).form.payload == old(self).form.payload,
            final(self).file_name == old(self).file_name,
            if old(self).bytes@.len() + chunk@.len() > service.config.max_upload_file_bytes {
                &&& r matches Err(e)
                &&& e@ == AppErrorView::BadRequest(
                    "Uploaded file exceeds the configured size limit"@,
                )
            } else if old(self).form.total_upload_bytes + chunk@.len()
                > service.config.max_upload_total_bytes {
                &&& r matches Err(e)
                &&& e@ == AppErrorView::BadRequest(
                    "Upload exceeds the configured total size limit"@,
                )
            } else {
                &&& r is Ok
                &&& final(self).bytes@ == old(self).bytes@ + chunk@
                &&& final(self).form.total_upload_bytes == old(self).form.total_upload_bytes
                    + chunk@.len()
            },
            r is Err ==> final(self).bytes@ == old(self).bytes@
                && final(self).form.total_upload_bytes == old(self).form.total_upload_bytes,
            old(self).within_limits(service.config@) ==> final(self).within_limits(service.config@),
    {
        read_limited_field_bytes(
            &mut self.bytes,
            chunk,
            service.max_upload_file_bytes(),
            service.max_upload_total_bytes(),
            &mut self.form.total_upload_bytes,
        )
    }

    /// The error for a file that cannot be read.
    pub fn read_error(&self, cause: &str) -> (r: AppError)
        ensures
            r@ == AppErrorView::BadRequest("Failed to read uploaded file bytes: "@ + cause@),
    {
        AppError::BadRequest(owned("Failed to read uploaded file bytes: ").concat(cause))
    }

    /// Ends the file, which joins the upload.
    pub fn close(self) -> (r: UploadForm)
        ensures
            r.total_upload_bytes == self.form.total_upload_bytes,
            r.payload@ == (PayloadView {
                files: self.form.payload@.files.push(
                    UploadedFileInputView {
                        relative_path: self.file_name@,
                        bytes: self.bytes@,
                    },
                ),
                ..self.form.payload@
            }),
            forall|config: BuilderConfigView|
                self.within_limits(config) ==> r.within_limits(config),
    {
        let mut form = self.form;
        let ghost before = form.payload@.files;
        let file = UploadedFileInput { relative_path: self.file_name, bytes: self.bytes };
        let ghost entry = file@;
        form.payload.files.push(file);
        assert(form.payload@.files =~= before.push(entry));
        assert(form.payload@.files.drop_last() =~= before);
        form
    }
}

/// A character of an image name, for a character of a lab's name: small letters,
/// digits and dots stay, capitals become small, and all else separates.
pub open spec fn image_char(c: char) -> Option<char> {
    if text::is_lower(c) || text::is_digit(c) || c == '.' {
        Some(c)
    } else if text::is_upper(c) {
        Some(text::ascii_lower(c))
    } else {
        None
    }
}

/// A lab's name with each run of separating characters made one hyphen.
pub open spec fn slug(s: Seq<char>) -> Seq<char>
    decreases s.len(),
{
    if s.len() == 0 {
        Seq::<char>::empty()
    } else {
        let front = s.drop_last();
        match image_char(s.last()) {
            Some(c) => slug(front).push(c),
            None => if front.len() > 0 && image_char(front.last()) is None {
                slug(front)
            } else {
                slug(front).push('-')
            },
        }
    }
}

/// The image name that stands for a lab's name.
pub open spec fn image_name_of(value: Seq<char>) -> Seq<char> {
    text::trim_char(slug(text::trim(value)), '-')
}

/// The image name that stands for a lab's name.
pub fn normalize_image_name(value: &str) -> (r: String)
    ensures
        r@ == image_name_of(value@),
{
    let cs = chars_of(trimmed(value).as_str());
    let mut normalized = String::new();
    let mut previous_was_separator = false;
    let ghost all = text::trim(value@);
    assert(all.take(0) =~= Seq::<char>::empty());
    for i in 0..cs.len()
        invariant
            cs@ == all,
            normalized@ == slug(all.take(i as int)),
            previous_was_separator == (i > 0 && image_char(all[i - 1]) is None),
    {
        let c = cs[i];
        assert(all.take(i + 1).drop_last() =~= all.take(i as int));
        assert(all.take(i + 1).last() == c);
        if i > 0 {
            assert(all.take(i as int).last() == all[i - 1]);
        }
        if is_ascii_lower(c) || is_ascii_digit(c) || c == '.' {
            normalized.push(c);
            previous_was_separator = false;
        } else if is_ascii_upper(c) {
            normalized.push(to_ascii_lower(c));
            previous_was_separator = false;
        } else if !previous_was_separator {
            normalized.push('-');
            previous_was_separator = true;
        }
    }
    assert(all.take(all.len() as int) =~= all);
    trimmed_of(normalized.as_str(), '-')
}

/// The image name that an upload asks for: its own, else that of the lab's
/// name, else that of the lab's identifier.
pub open spec fn derived_image_name(payload: PayloadView) -> Option<Seq<char>> {
    let candidate = match payload.image_name {
        Some(name) => Some(name),
        None => match payload.lab_name {
            Some(name) => Some(image_name_of(name)),
            None => match payload.lab_id {
                Some(id) => Some(image_name_of(id)),
                None => None,
            },
        },
    };
    match candidate {
        Some(name) => if name.len() > 0 { Some(name) } else { None },
        None => None,
    }
}

/// The image name that an upload asks for.
pub fn derive_image_name(payload: &SourceBundleMultipartPayload) -> (r: Result<String, AppError>)
    ensures
        error::text_outcome(r) == match derived_image_name(payload@) {
            Some(name) => Ok::<Seq<char>, AppErrorView>(name),
            None => Err(
                AppErrorView::BadRequest(
                    "build upload requires image_name, lab_name or lab_id to derive template_path"@,
                ),
            ),
        },
{
    let candidate: Option<String> = match &payload.image_name {
        Some(name) => Some(name.clone()),
        None => match &payload.lab_name {
            Some(name) => Some(normalize_image_name(name.as_str())),
            None => match &payload.lab_id {
                Some(id) => Some(normalize_image_name(id.as_str())),
                None => None,
            },
        },
    };
    match candidate {
        Some(name) => {
            if !name.as_str().is_empty() {
                return Ok(name);
            }
        },
        None => {},
    }
    Err(
        bad_request("build upload requires image_name, lab_name or lab_id to derive template_path"),
    )
}

/// A build that an upload asked for, before its archive is known.
#[derive(Debug)]
pub struct UploadBuild {
    pub lab_id: Option<String>,
    pub requested_by: Option<String>,
    pub image_name: String,
    pub image_tag: Option<String>,
    pub dockerfile_path: Option<String>,
    pub source_context_hash: String,
    pub files: Vec<UploadedFileInput>,
}

/// Where a build takes its archive from.
#[derive(Debug)]
pub enum ArchiveSource {
    /// The bundle's archive, as it lies on disk.
    Local(String),
    /// The bundle's archive, once it is uploaded to storage.
    Upload,
}

impl UploadBuild {
    /// The build request, once it is known where the archive lies.
    pub fn request(self, source_archive_path: String) -> (r: CreateBuildRequest)
        ensures
            r@ == (CreateBuildRequestView {
                lab_id: text::opt_text(self.lab_id),
                requested_by: text::opt_text(self.requested_by),
                image_name: self.image_name@,
                image_tag: text::opt_text(self.image_tag),
                source_archive_path: source_archive_path@,
                dockerfile_path: text::opt_text(self.dockerfile_path),
                source_context_hash: Some(self.source_context_hash@),
            }),
    {
        CreateBuildRequest {
            lab_id: self.lab_id,
            requested_by: self.requested_by,
            image_name: self.image_name,
            image_tag: self.image_tag,
            source_archive_path,
            dockerfile_path: self.dockerfile_path,
            source_context_hash: Some(self.source_context_hash),
        }
    }
}

/// The build that an upload asks for. It needs a name for the image; the rest of
/// the upload is taken over, and its files get a hash by which a later upload of
/// the same files is known again.
pub fn create_build_from_upload(payload: SourceBundleMultipartPayload) -> (r: Result<
    UploadBuild,
    AppError,
>)
    ensures
        match r {
            Ok(build) => {
                &&& derived_image_name(payload@) == Some(build.image_name@)
                &&& text::opt_text(build.lab_id) == payload@.lab_id
                &&& text::opt_text(build.requested_by) == payload@.requested_by
                &&& text::opt_text(build.image_tag) == payload@.image_tag
                &&& text::opt_text(build.dockerfile_path) == payload@.dockerfile_path
                &&& build.source_context_hash@ == context_hash::hash_of(payload@.files)
                &&& build.files == payload.files
            },
            Err(e) => {
                &&& derived_image_name(payload@) is None
                &&& e@ == AppErrorView::BadRequest(
                    "build upload requires image_name, lab_name or lab_id to derive template_path"@,
                )
            },
        },
{
    let image_name = match derive_image_name(&payload) {
        Ok(name) => name,
        Err(e) => {
            return Err(e);
        },
    };
    let hash = source_context_hash(&payload.files);
    Ok(
        UploadBuild {
            lab_id: payload.lab_id,
            requested_by: payload.requested_by,
            image_name,
            image_tag: payload.image_tag,
            dockerfile_path: payload.dockerfile_path,
            source_context_hash: hash,
            files: payload.files,
        },
    )
}

/// Where the build of an upload takes its archive from: from disk in local mode,
/// from storage otherwise.
pub fn archive_source(local_mode: bool, bundle: &SourceBundle) -> (r: ArchiveSource)
    ensures
        match r {
            ArchiveSource::Local(path) => local_mode && path@ == bundle.archive_path@,
            ArchiveSource::Upload => !local_mode,
        },
{
    if local_mode {
        ArchiveSource::Local(bundle.archive_path.clone())
    } else {
        ArchiveSource::Upload
    }
}

} // verus!
