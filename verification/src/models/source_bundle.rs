//! Uploaded lab sources and the bundles made of them.

use crate::models::build_job::{BuildJob, Timestamp};
use crate::text;
use vstd::prelude::*;

verus! {

/// A file of a bundle: its path in the workspace and its size.
#[derive(Debug)]
pub struct UploadedFile {
    pub path: String,
    pub size_bytes: u64,
}

/// A file of a bundle with its path as text.
pub struct UploadedFileView {
    pub path: Seq<char>,
    pub size_bytes: u64,
}

impl View for UploadedFile {
    type V = UploadedFileView;

    open spec fn view(&self) -> UploadedFileView {
        UploadedFileView { path: self.path@, size_bytes: self.size_bytes }
    }
}

/// The files of a bundle with their paths as text.
pub open spec fn file_views(files: Seq<UploadedFile>) -> Seq<UploadedFileView> {
    files.map_values(|f: UploadedFile| f@)
}

/// A bundle of lab sources, packed into one archive.
#[derive(Debug)]
pub struct SourceBundle {
    pub bundle_id: u128,
    pub lab_id: Option<String>,
    pub requested_by: Option<String>,
    pub workspace_dir: String,
    pub archive_path: String,
    pub suggested_gcs_path: String,
    pub archive_size_bytes: u64,
    pub file_count: usize,
    pub files: Vec<UploadedFile>,
    pub created_at: Timestamp,
}

/// A bundle with its texts.
pub struct SourceBundleView {
    pub bundle_id: u128,
    pub lab_id: Option<Seq<char>>,
    pub requested_by: Option<Seq<char>>,
    pub workspace_dir: Seq<char>,
    pub archive_path: Seq<char>,
    pub suggested_gcs_path: Seq<char>,
    pub archive_size_bytes: u64,
    pub file_count: usize,
    pub files: Seq<UploadedFileView>,
    pub created_at: Timestamp,
}

impl View for SourceBundle {
    type V = SourceBundleView;

    open spec fn view(&self) -> SourceBundleView {
        SourceBundleView {
            bundle_id: self.bundle_id,
            lab_id: text::opt_text(self.lab_id),
            requested_by: text::opt_text(self.requested_by),
            workspace_dir: self.workspace_dir@,
            archive_path: self.archive_path@,
            suggested_gcs_path: self.suggested_gcs_path@,
            archive_size_bytes: self.archive_size_bytes,
            file_count: self.file_count,
            files: file_views(self.files@),
            created_at: self.created_at,
        }
    }
}

/// The answer to an upload that started a build.
#[derive(Debug)]
pub struct BuildFromUploadResponse {
    pub source_bundle: SourceBundle,
    pub build_job: BuildJob,
}

} // verus!
