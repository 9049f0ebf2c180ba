//! Bundles of uploaded lab sources: where their files go, how they are named in
//! storage, and how their archive is uploaded.

use crate::error;
use crate::error::{bad_request, AppError, AppErrorView};
use crate::models::build_job::Timestamp;
use crate::models::source_bundle;
use crate::models::source_bundle::{
    SourceBundle, SourceBundleView, UploadedFile, UploadedFileView,
};
use crate::models::state::{BuilderConfig, BuilderConfigView};
use crate::outside;
use crate::outside::{new_uuid, url_encode, utc_now, uuid_string};
use crate::services::gcs;
use crate::services::gcs::split_gcs_uri;
use crate::services::path_safety;
use crate::services::path_safety::{join_paths, path_is_absolute, path_segments};
use crate::text;
use crate::text::{joined, owned, replaced, same, trimmed, trimmed_or_default};
use vstd::prelude::*;
use vstd::string::*;
use vstd::utf8;

verus! {

/// An uploaded file: the path that the client gave, and the content.
#[derive(Debug)]
pub struct UploadedFileInput {
    pub relative_path: String,
    pub bytes: Vec<u8>,
}

/// An uploaded file with its path as text.
pub struct UploadedFileInputView {
    pub relative_path: Seq<char>,
    pub bytes: Seq<u8>,
}

impl View for UploadedFileInput {
    type V = UploadedFileInputView;

    open spec fn view(&self) -> UploadedFileInputView {
        UploadedFileInputView { relative_path: self.relative_path@, bytes: self.bytes@ }
    }
}

/// Uploaded files with their paths as text.
pub open spec fn input_views(files: Seq<UploadedFileInput>) -> Seq<UploadedFileInputView> {
    files.map_values(|f: UploadedFileInput| f@)
}

/// A path with white space at its ends removed and `\` read as `/`.
pub open spec fn normalized_path(value: Seq<char>) -> Seq<char> {
    text::replace(text::trim(value), '\\', '/')
}

/// The path under which an uploaded file is stored: its segments with single
/// slashes between them.
pub open spec fn sanitized(value: Seq<char>) -> Result<Seq<char>, AppErrorView> {
    let path = normalized_path(value);
    let segs = path_safety::segments(path);
    if path.len() == 0 {
        Err(AppErrorView::BadRequest("Uploaded file name must not be empty"@))
    } else if path_safety::is_absolute(path) {
        Err(AppErrorView::BadRequest("Uploaded file path must be relative"@))
    } else if segs.contains(path_safety::parent_segment()) {
        Err(AppErrorView::BadRequest("Uploaded file path contains forbidden path traversal"@))
    } else if segs.len() == 0 {
        Err(AppErrorView::BadRequest("Uploaded file path resolved to an empty value"@))
    } else {
        Ok(text::join(segs, '/'))
    }
}

/// The path under which an uploaded file is stored, below the workspace. A path
/// that is empty, absolute or climbs with `..` is refused.
pub fn sanitize_relative_path(value: &str) -> (r: Result<String, AppError>)
    ensures
        error::text_outcome(r) == sanitized(value@),
{
    let normalized = replaced(trimmed(value).as_str(), '\\', '/');
    if normalized.as_str().is_empty() {
        return Err(bad_request("Uploaded file name must not be empty"));
    }
    if path_is_absolute(normalized.as_str()) {
        return Err(bad_request("Uploaded file path must be relative"));
    }
    let segs = path_segments(normalized.as_str());
    let ghost all = path_safety::segments(normalized@);
    proof {
        reveal_strlit("..");
        assert(".."@ =~= path_safety::parent_segment());
    }
    for i in 0..segs.len()
        invariant
            text::texts(segs@) == all,
            all == path_safety::segments(normalized_path(value@)),
            ".."@ == path_safety::parent_segment(),
            normalized_path(value@).len() > 0,
            !path_safety::is_absolute(normalized_path(value@)),
            forall|j: int| 0 <= j < i ==> all[j] != path_safety::parent_segment(),
    {
        assert(all[i as int] == segs@[i as int]@);
        if same(segs[i].as_str(), "..") {
            return Err(bad_request("Uploaded file path contains forbidden path traversal"));
        }
    }
    if segs.len() == 0 {
        return Err(bad_request("Uploaded file path resolved to an empty value"));
    }
    Ok(joined(&segs, '/'))
}

/// The error for an address in storage that cannot be read.
pub open spec fn invalid_gcs_path(value: Seq<char>) -> AppErrorView {
    AppErrorView::Internal("Invalid suggested GCS path: "@ + text::trim(value))
}

/// The bucket and the object of the address that was suggested for an archive.
pub fn parse_gcs_uri(value: &str) -> (r: Result<(String, String), AppError>)
    ensures
        match r {
            Ok((bucket, object)) => gcs::parts(value@) == Some((bucket@, object@)),
            Err(e) => gcs::parts(value@) is None && e@ == invalid_gcs_path(value@),
        },
{
    match split_gcs_uri(value) {
        Some(parts) => Ok(parts),
        None => Err(
            AppError::Internal(
                owned("Invalid suggested GCS path: ").concat(trimmed(value).as_str()),
            ),
        ),
    }
}

/// The directory of a bundle.
pub open spec fn bundle_dir(root: Seq<char>, bundle_id: u128) -> Seq<char> {
    path_safety::join_path(root, outside::uuid_text(bundle_id))
}

/// The directory that a bundle's files are written into.
pub open spec fn workspace_of(root: Seq<char>, bundle_id: u128) -> Seq<char> {
    path_safety::join_path(bundle_dir(root, bundle_id), "workspace"@)
}

/// The directory that a bundle's archive is written into.
pub open spec fn artifacts_of(root: Seq<char>, bundle_id: u128) -> Seq<char> {
    path_safety::join_path(bundle_dir(root, bundle_id), "artifacts"@)
}

/// A bundle's archive.
pub open spec fn archive_of(root: Seq<char>, bundle_id: u128) -> Seq<char> {
    path_safety::join_path(artifacts_of(root, bundle_id), "source.tar.gz"@)
}

/// The object that a bundle's archive becomes in storage.
pub open spec fn object_of(lab_id: Option<Seq<char>>, bundle_id: u128) -> Seq<char> {
    "builds/"@ + text::trimmed_or(lab_id, "anonymous-lab"@) + "/"@ + outside::uuid_text(bundle_id)
        + "/source.tar.gz"@
}

/// Where a bundle's archive goes in storage.
pub open spec fn gcs_path_of(bucket: Seq<char>, lab_id: Option<Seq<char>>, bundle_id: u128) -> Seq<
    char,
> {
    "gs://"@ + bucket + "/"@ + object_of(lab_id, bundle_id)
}

/// A bundle that is being put together.
#[derive(Debug)]
pub struct BundleDraft {
    pub bundle_id: u128,
    pub lab_id: Option<String>,
    pub requested_by: Option<String>,
    pub workspace_dir: String,
    pub artifacts_dir: String,
    pub archive_path: String,
    pub suggested_gcs_path: String,
    pub files: Vec<UploadedFile>,
}

/// A bundle that is being put together, with its texts.
pub struct BundleDraftView {
    pub bundle_id: u128,
    pub lab_id: Option<Seq<char>>,
    pub requested_by: Option<Seq<char>>,
    pub workspace_dir: Seq<char>,
    pub artifacts_dir: Seq<char>,
    pub archive_path: Seq<char>,
    pub suggested_gcs_path: Seq<char>,
    pub files: Seq<UploadedFileView>,
}

impl View for BundleDraft {
    type V = BundleDraftView;

    open spec fn view(&self) -> BundleDraftView {
        BundleDraftView {
            bundle_id: self.bundle_id,
            lab_id: text::opt_text(self.lab_id),
            requested_by: text::opt_text(self.requested_by),
            workspace_dir: self.workspace_dir@,
            artifacts_dir: self.artifacts_dir@,
            archive_path: self.archive_path@,
            suggested_gcs_path: self.suggested_gcs_path@,
            files: source_bundle::file_views(self.files@),
        }
    }
}

/// A bundle before its first file.
pub open spec fn empty_draft(
    config: BuilderConfigView,
    bundle_id: u128,
    lab_id: Option<Seq<char>>,
    requested_by: Option<Seq<char>>,
) -> BundleDraftView {
    BundleDraftView {
        bundle_id,
        lab_id,
        requested_by,
        workspace_dir: workspace_of(config.bundle_root_dir, bundle_id),
        artifacts_dir: artifacts_of(config.bundle_root_dir, bundle_id),
        archive_path: archive_of(config.bundle_root_dir, bundle_id),
        suggested_gcs_path: gcs_path_of(config.build_source_bucket, lab_id, bundle_id),
        files: Seq::<UploadedFileView>::empty(),
    }
}

impl BundleDraftView {
    /// The draft with one more file, or the error for the file's path.
    pub open spec fn with_file(self, file: UploadedFileInputView) -> Result<
        BundleDraftView,
        AppErrorView,
    > {
        match sanitized(file.relative_path) {
            Ok(path) => Ok(
                BundleDraftView {
                    files: self.files.push(
                        UploadedFileView { path, size_bytes: file.bytes.len() as u64 },
                    ),
                    ..self
                },
            ),
            Err(e) => Err(e),
        }
    }

    /// The draft with all the files, or the error for the first bad path.
    pub open spec fn with_files(self, files: Seq<UploadedFileInputView>) -> Result<
        BundleDraftView,
        AppErrorView,
    >
        decreases files.len(),
    {
        if files.len() == 0 {
            Ok(self)
        } else {
            match self.with_file(files[0]) {
                Ok(next) => next.with_files(files.drop_first()),
                Err(e) => Err(e),
            }
        }
    }

    /// The finished bundle, once its archive is written.
    pub open spec fn finished(self, archive_size_bytes: u64, created_at: Timestamp) -> SourceBundleView {
        SourceBundleView {
            bundle_id: self.bundle_id,
            lab_id: self.lab_id,
            requested_by: self.requested_by,
            workspace_dir: self.workspace_dir,
            archive_path: self.archive_path,
            suggested_gcs_path: self.suggested_gcs_path,
            archive_size_bytes,
            file_count: self.files.len() as usize,
            files: self.files,
            created_at,
        }
    }
}

impl BundleDraft {
    /// Adds a file to the bundle and tells where it has to be written. A file
    /// whose path is refused leaves the draft as it is.
    pub fn place_file(&mut self, file: &UploadedFileInput) -> (r: Result<String, AppError>)
        ensures
            match r {
                Ok(destination) => {
                    &&& old(self)@.with_file(file@) == Ok::<BundleDraftView, AppErrorView>(
                        final(self)@,
                    )
                    &&& destination@ == path_safety::join_path(
                        old(self).workspace_dir@,
                        sanitized(file.relative_path@)->Ok_0,
                    )
                },
                Err(e) => {
                    &&& old(self)@.with_file(file@) == Err::<BundleDraftView, AppErrorView>(e@)
                    &&& *final(self) == *old(self)
                },
            },
    {
        let path = match sanitize_relative_path(file.relative_path.as_str()) {
            Ok(path) => path,
            Err(e) => {
                return Err(e);
            },
        };
        let destination = join_paths(self.workspace_dir.as_str(), path.as_str());
        let ghost before = self@.files;
        self.files.push(UploadedFile { path, size_bytes: file.bytes.len() as u64 });
        assert(self@.files =~= before.push(
            UploadedFileView { path: path@, size_bytes: file.bytes@.len() as u64 },
        ));
        Ok(destination)
    }

    /// The finished bundle: its archive has this size and it was created now.
    pub fn finish(self, archive_size_bytes: u64) -> (r: SourceBundle)
        ensures
            r@ == self@.finished(archive_size_bytes, r.created_at),
            r.created_at.nanos < 2_000_000_000,
    {
        let created_at = utc_now();
        self.finish_at(archive_size_bytes, created_at)
    }

    /// The finished bundle, created at the given time.
    pub fn finish_at(self, archive_size_bytes: u64, created_at: Timestamp) -> (r: SourceBundle)
        ensures
            r@ == self@.finished(archive_size_bytes, created_at),
    {
        let file_count: usize = self.files.len();
        SourceBundle {
            bundle_id: self.bundle_id,
            lab_id: self.lab_id,
            requested_by: self.requested_by,
            workspace_dir: self.workspace_dir,
            archive_path: self.archive_path,
            suggested_gcs_path: self.suggested_gcs_path,
            archive_size_bytes,
            file_count,
            files: self.files,
            created_at,
        }
    }
}

/// A request that uploads an archive.
#[derive(Debug)]
pub struct UploadRequest {
    pub endpoint: String,
    pub content_type: String,
    pub archive_path: String,
}

/// The address that an object is uploaded to.
pub open spec fn upload_endpoint(bucket: Seq<char>, object: Seq<char>) -> Seq<char> {
    "https://storage.googleapis.com/upload/storage/v1/b/"@ + bucket + "/o?uploadType=media&name="@
        + outside::percent_encoded(utf8::encode_utf8(object))
}

/// What the reply to an upload means: the address in storage, or an error with
/// the reply's status and body.
pub open spec fn upload_result(
    path: Seq<char>,
    status: u16,
    status_text: Seq<char>,
    body: Option<Seq<char>>,
) -> Result<Seq<char>, AppErrorView> {
    if 200 <= status < 300 {
        Ok(path)
    } else {
        Err(
            AppErrorView::Internal(
                "GCS upload failed for "@ + path + ": HTTP "@ + status_text + " - "@ + match body {
                    Some(b) => b,
                    None => "<unavailable body>"@,
                },
            ),
        )
    }
}

/// What the reply to an upload means. `body` is absent where it could not be
/// read.
pub fn upload_outcome(
    bundle: &SourceBundle,
    status: u16,
    status_text: &str,
    body: &Option<String>,
) -> (r: Result<String, AppError>)
    ensures
        error::text_outcome(r) == upload_result(
            bundle.suggested_gcs_path@,
            status,
            status_text@,
            text::opt_text(*body),
        ),
{
    if 200 <= status && status < 300 {
        return Ok(bundle.suggested_gcs_path.clone());
    }
    let shown = match body {
        Some(b) => b.clone(),
        None => owned("<unavailable body>"),
    };
    Err(
        AppError::Internal(
            owned("GCS upload failed for ").concat(bundle.suggested_gcs_path.as_str()).concat(
                ": HTTP ",
            ).concat(status_text).concat(" - ").concat(shown.as_str()),
        ),
    )
}

/// Makes bundles of uploaded files.
#[derive(Debug)]
pub struct SourceBundlesService {
    pub config: BuilderConfig,
}

impl SourceBundlesService {
    pub fn new(config: BuilderConfig) -> (r: Self)
        ensures
            r.config == config,
    {
        SourceBundlesService { config }
    }

    /// How many files one upload may hold.
    pub fn max_upload_files(&self) -> (r: usize)
        ensures
            r == self.config.max_upload_files,
    {
        self.config.max_upload_files
    }

    /// How many bytes one uploaded file may have.
    pub fn max_upload_file_bytes(&self) -> (r: usize)
        ensures
            r == self.config.max_upload_file_bytes,
    {
        self.config.max_upload_file_bytes
    }

    /// How many bytes the files of one upload may have together.
    pub fn max_upload_total_bytes(&self) -> (r: usize)
        ensures
            r == self.config.max_upload_total_bytes,
    {
        self.config.max_upload_total_bytes
    }

    /// How many bytes a text field of an upload may have.
    pub fn max_text_field_bytes(&self) -> (r: usize)
        ensures
            r == self.config.max_text_field_bytes,
    {
        self.config.max_text_field_bytes
    }

    /// Starts a bundle under a new random identifier. At least one file is required;
    /// the caller writes the files that `place_file` accepts one by one, packs
    /// the workspace and finishes the draft.
    pub fn create_source_bundle(
        &self,
        lab_id: Option<String>,
        requested_by: Option<String>,
        files: &Vec<UploadedFileInput>,
    ) -> (r: Result<BundleDraft, AppError>)
        ensures
            match r {
                Ok(draft) => {
                    &&& files@.len() > 0
                    &&& (draft.bundle_id >> 76) & 0xf == 4
                    &&& (draft.bundle_id >> 62) & 0x3 == 2
                    &&& draft@ == empty_draft(
                        self.config@,
                        draft.bundle_id,
                        text::opt_text(lab_id),
                        text::opt_text(requested_by),
                    )
                },
                Err(e) => files@.len() == 0 && e@ == AppErrorView::BadRequest(
                    "At least one uploaded file is required"@,
                ),
            },
    {
        if files.len() == 0 {
            return Err(bad_request("At least one uploaded file is required"));
        }
        let bundle_id = new_uuid();
        Ok(self.draft_bundle(bundle_id, lab_id, requested_by))
    }

    /// A bundle with this identifier, before its first file.
    pub fn draft_bundle(
        &self,
        bundle_id: u128,
        lab_id: Option<String>,
        requested_by: Option<String>,
    ) -> (r: BundleDraft)
        ensures
            r@ == empty_draft(
                self.config@,
                bundle_id,
                text::opt_text(lab_id),
                text::opt_text(requested_by),
            ),
    {
        let id = uuid_string(bundle_id);
        let bundle_root = join_paths(self.config.bundle_root_dir.as_str(), id.as_str());
        let workspace_dir = join_paths(bundle_root.as_str(), "workspace");
        let artifacts_dir = join_paths(bundle_root.as_str(), "artifacts");
        let archive_path = join_paths(artifacts_dir.as_str(), "source.tar.gz");
        let bundle_key = trimmed_or_default(&lab_id, "anonymous-lab");
        let object = owned("builds/").concat(bundle_key.as_str()).concat("/").concat(
            id.as_str(),
        ).concat("/source.tar.gz");
        let suggested_gcs_path = owned("gs://").concat(
            self.config.build_source_bucket.as_str(),
        ).concat("/").concat(object.as_str());
        let files: Vec<UploadedFile> = Vec::new();
        assert(source_bundle::file_views(files@) =~= Seq::<UploadedFileView>::empty());
        BundleDraft {
            bundle_id,
            lab_id,
            requested_by,
            workspace_dir,
            artifacts_dir,
            archive_path,
            suggested_gcs_path,
            files,
        }
    }

    /// The request that uploads a bundle's archive to the suggested address.
    pub fn upload_source_bundle_to_gcs(&self, bundle: &SourceBundle) -> (r: Result<
        UploadRequest,
        AppError,
    >)
        ensures
            match r {
                Ok(request) => {
                    &&& gcs::parts(bundle.suggested_gcs_path@) matches Some((bucket, object))
                    &&& request.endpoint@ == upload_endpoint(bucket, object)
                    &&& request.content_type@ == "application/gzip"@
                    &&& request.archive_path@ == bundle.archive_path@
                },
                Err(e) => {
                    &&& gcs::parts(bundle.suggested_gcs_path@) is None
                    &&& e@ == invalid_gcs_path(bundle.suggested_gcs_path@)
                },
            },
    {
        let (bucket, object) = match parse_gcs_uri(bundle.suggested_gcs_path.as_str()) {
            Ok(parts) => parts,
            Err(e) => {
                return Err(e);
            },
        };
        let endpoint = owned("https://storage.googleapis.com/upload/storage/v1/b/").concat(
            bucket.as_str(),
        ).concat("/o?uploadType=media&name=").concat(url_encode(object.as_str()).as_str());
        Ok(
            UploadRequest {
                endpoint,
                content_type: owned("application/gzip"),
                archive_path: bundle.archive_path.clone(),
            },
        )
    }
}

} // verus!
