//! Build jobs and the requests that create them.

use crate::text;
use crate::text::clone_opt;
use vstd::prelude::*;

verus! {

/// Where a build stands.
#[derive(Debug, Clone, Copy, PartialEq, Eq, Structural)]
pub enum BuildStatus {
    Queued,
    Submitted,
    Ready,
    Failed,
}

/// Who builds the image.
#[derive(Debug, Clone, Copy, PartialEq, Eq, Structural)]
pub enum BuildDispatchMode {
    LocalDockerKind,
    CloudBuild,
}

/// A point in time: seconds since the Unix epoch, and nanoseconds.
#[derive(Debug, Clone, Copy, PartialEq, Eq, Structural)]
pub struct Timestamp {
    pub seconds: i64,
    pub nanos: u32,
}

/// What a client asks to have built.
#[derive(Debug)]
pub struct CreateBuildRequest {
    pub lab_id: Option<String>,
    pub requested_by: Option<String>,
    pub image_name: String,
    pub image_tag: Option<String>,
    pub source_archive_path: String,
    pub dockerfile_path: Option<String>,
    pub source_context_hash: Option<String>,
}

/// A build request with its texts.
pub struct CreateBuildRequestView {
    pub lab_id: Option<Seq<char>>,
    pub requested_by: Option<Seq<char>>,
    pub image_name: Seq<char>,
    pub image_tag: Option<Seq<char>>,
    pub source_archive_path: Seq<char>,
    pub dockerfile_path: Option<Seq<char>>,
    pub source_context_hash: Option<Seq<char>>,
}

impl View for CreateBuildRequest {
    type V = CreateBuildRequestView;

    open spec fn view(&self) -> CreateBuildRequestView {
        CreateBuildRequestView {
            lab_id: text::opt_text(self.lab_id),
            requested_by: text::opt_text(self.requested_by),
            image_name: self.image_name@,
            image_tag: text::opt_text(self.image_tag),
            source_archive_path: self.source_archive_path@,
            dockerfile_path: text::opt_text(self.dockerfile_path),
            source_context_hash: text::opt_text(self.source_context_hash),
        }
    }
}

/// A build, from its creation to its end.
#[derive(Debug)]
pub struct BuildJob {
    pub build_id: u128,
    pub lab_id: Option<String>,
    pub requested_by: Option<String>,
    pub status: BuildStatus,
    pub failure_message: Option<String>,
    pub dispatch_mode: BuildDispatchMode,
    pub image_name: String,
    pub image_tag: String,
    pub template_path: String,
    pub source_archive_path: String,
    pub dockerfile_path: String,
    pub source_context_hash: Option<String>,
    pub gcp_region: String,
    pub build_source_bucket: String,
    pub local_kind_cluster_name: Option<String>,
    pub loaded_to_kind: bool,
    pub cloud_build_id: Option<String>,
    pub cloud_build_name: Option<String>,
    pub cloud_build_operation_name: Option<String>,
    pub cloud_build_log_url: Option<String>,
    pub versioned_image_uri: String,
    pub latest_image_uri: String,
    pub created_at: Timestamp,
}

/// A build job with its texts.
pub struct BuildJobView {
    pub build_id: u128,
    pub lab_id: Option<Seq<char>>,
    pub requested_by: Option<Seq<char>>,
    pub status: BuildStatus,
    pub failure_message: Option<Seq<char>>,
    pub dispatch_mode: BuildDispatchMode,
    pub image_name: Seq<char>,
    pub image_tag: Seq<char>,
    pub template_path: Seq<char>,
    pub source_archive_path: Seq<char>,
    pub dockerfile_path: Seq<char>,
    pub source_context_hash: Option<Seq<char>>,
    pub gcp_region: Seq<char>,
    pub build_source_bucket: Seq<char>,
    pub local_kind_cluster_name: Option<Seq<char>>,
    pub loaded_to_kind: bool,
    pub cloud_build_id: Option<Seq<char>>,
    pub cloud_build_name: Option<Seq<char>>,
    pub cloud_build_operation_name: Option<Seq<char>>,
    pub cloud_build_log_url: Option<Seq<char>>,
    pub versioned_image_uri: Seq<char>,
    pub latest_image_uri: Seq<char>,
    pub created_at: Timestamp,
}

impl View for BuildJob {
    type V = BuildJobView;

    open spec fn view(&self) -> BuildJobView {
        BuildJobView {
            build_id: self.build_id,
            lab_id: text::opt_text(self.lab_id),
            requested_by: text::opt_text(self.requested_by),
            status: self.status,
            failure_message: text::opt_text(self.failure_message),
            dispatch_mode: self.dispatch_mode,
            image_name: self.image_name@,
            image_tag: self.image_tag@,
            template_path: self.template_path@,
            source_archive_path: self.source_archive_path@,
            dockerfile_path: self.dockerfile_path@,
            source_context_hash: text::opt_text(self.source_context_hash),
            gcp_region: self.gcp_region@,
            build_source_bucket: self.build_source_bucket@,
            local_kind_cluster_name: text::opt_text(self.local_kind_cluster_name),
            loaded_to_kind: self.loaded_to_kind,
            cloud_build_id: text::opt_text(self.cloud_build_id),
            cloud_build_name: text::opt_text(self.cloud_build_name),
            cloud_build_operation_name: text::opt_text(self.cloud_build_operation_name),
            cloud_build_log_url: text::opt_text(self.cloud_build_log_url),
            versioned_image_uri: self.versioned_image_uri@,
            latest_image_uri: self.latest_image_uri@,
            created_at: self.created_at,
        }
    }
}

impl Clone for BuildJob {
    fn clone(&self) -> (r: Self)
        ensures
            r@ == self@,
    {
        BuildJob {
            build_id: self.build_id,
            lab_id: clone_opt(&self.lab_id),
            requested_by: clone_opt(&self.requested_by),
            status: self.status,
            failure_message: clone_opt(&self.failure_message),
            dispatch_mode: self.dispatch_mode,
            image_name: self.image_name.clone(),
            image_tag: self.image_tag.clone(),
            template_path: self.template_path.clone(),
            source_archive_path: self.source_archive_path.clone(),
            dockerfile_path: self.dockerfile_path.clone(),
            source_context_hash: clone_opt(&self.source_context_hash),
            gcp_region: self.gcp_region.clone(),
            build_source_bucket: self.build_source_bucket.clone(),
            local_kind_cluster_name: clone_opt(&self.local_kind_cluster_name),
            loaded_to_kind: self.loaded_to_kind,
            cloud_build_id: clone_opt(&self.cloud_build_id),
            cloud_build_name: clone_opt(&self.cloud_build_name),
            cloud_build_operation_name: clone_opt(&self.cloud_build_operation_name),
            cloud_build_log_url: clone_opt(&self.cloud_build_log_url),
            versioned_image_uri: self.versioned_image_uri.clone(),
            latest_image_uri: self.latest_image_uri.clone(),
            created_at: self.created_at,
        }
    }
}

impl BuildJobView {
    /// The part of a job that is fixed when it is created: all but how far the
    /// build has come.
    pub open spec fn same_build(self, other: BuildJobView) -> bool {
        self == BuildJobView {
            status: self.status,
            failure_message: self.failure_message,
            loaded_to_kind: self.loaded_to_kind,
            cloud_build_id: self.cloud_build_id,
            cloud_build_name: self.cloud_build_name,
            cloud_build_operation_name: self.cloud_build_operation_name,
            cloud_build_log_url: self.cloud_build_log_url,
            ..other
        }
    }
}

} // verus!
