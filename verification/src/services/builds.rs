//! Build jobs: how they are created, found again, submitted and ended.

use crate::error;
use crate::error::{app_error_message, bad_request, AppError, AppErrorView};
use crate::json::Json;
use crate::models::build_job::{
    BuildDispatchMode, BuildJob, BuildJobView, BuildStatus, CreateBuildRequest,
    CreateBuildRequestView, Timestamp,
};
use crate::models::state::{BuilderConfig, BuilderConfigView};
use crate::outside;
use crate::outside::{new_uuid, utc_now, uuid_string};
use crate::services::cloud_messages;
use crate::services::cloud_messages::{
    build_cloud_build_request, CloudBuildOperation, StorageSource,
};
use crate::services::gcs;
use crate::services::gcs::{has_gs_scheme, split_gcs_uri};
use crate::services::local_build;
use crate::services::local_build::check_archive_file;
use crate::services::path_safety;
use crate::services::path_safety::{
    ensure_builder_root_dir, path_to_resolve, resolve_existing_path_within_root,
};
use crate::services::tracking;
use crate::services::tracking::end_build;
use crate::text;
use crate::text::{
    chars_of, clone_opt, is_ascii_digit, is_ascii_lower, owned, same, trimmed, trimmed_or_default,
};
use std::collections::HashMap;
use vstd::prelude::*;
use vstd::string::*;

verus! {

/// Whether a text is made of small letters, digits, hyphens and dots.
pub open spec fn is_image_text(s: Seq<char>) -> bool {
    forall|i: int|
        0 <= i < s.len() ==> text::is_lower(#[trigger] s[i]) || text::is_digit(s[i]) || s[i] == '-'
            || s[i] == '.'
}

/// What is wrong with an image name, if anything. White space at its ends does
/// not count.
pub open spec fn image_name_fault(value: Seq<char>) -> Option<Seq<char>> {
    if text::trim(value).len() == 0 {
        Some("image_name must not be empty"@)
    } else if is_image_text(text::trim(value)) {
        None
    } else {
        Some("image_name must contain only lowercase letters, digits, '-' or '.'"@)
    }
}

/// Checks an image name.
pub fn validate_image_name(value: &str) -> (r: Result<(), AppError>)
    ensures
        error::unit_outcome(r) == match image_name_fault(value@) {
            Some(message) => Err::<(), AppErrorView>(AppErrorView::BadRequest(message)),
            None => Ok(()),
        },
{
    let cs = chars_of(trimmed(value).as_str());
    if cs.len() == 0 {
        return Err(bad_request("image_name must not be empty"));
    }
    for i in 0..cs.len()
        invariant
            cs@ == text::trim(value@),
            cs@.len() > 0,
            forall|j: int|
                0 <= j < i ==> text::is_lower(#[trigger] cs@[j]) || text::is_digit(cs@[j])
                    || cs@[j] == '-' || cs@[j] == '.',
    {
        if !(is_ascii_lower(cs[i]) || is_ascii_digit(cs[i]) || cs[i] == '-' || cs[i] == '.') {
            assert(!text::is_lower(cs@[i as int]));
            return Err(
                bad_request("image_name must contain only lowercase letters, digits, '-' or '.'"),
            );
        }
    }
    Ok(())
}

/// Checks that a source archive lies in storage.
pub fn validate_gcs_path(value: &str) -> (r: Result<(), AppError>)
    ensures
        error::unit_outcome(r) == if gcs::has_scheme(value@) {
            Ok::<(), AppErrorView>(())
        } else {
            Err(AppErrorView::BadRequest("source_archive_path must start with gs://"@))
        },
{
    if has_gs_scheme(value) {
        Ok(())
    } else {
        Err(bad_request("source_archive_path must start with gs://"))
    }
}

/// The bucket and the object of a source archive in storage, or what is wrong
/// with its address.
pub open spec fn source_of(value: Seq<char>) -> Result<(Seq<char>, Seq<char>), AppErrorView> {
    match gcs::parts(value) {
        Some(parts) => Ok(parts),
        None => if gcs::has_scheme(value) {
            Err(
                AppErrorView::BadRequest(
                    "source_archive_path must include both a bucket and an object path"@,
                ),
            )
        } else {
            Err(AppErrorView::BadRequest("source_archive_path must start with gs://"@))
        },
    }
}

/// The bucket and the object of a source archive in storage.
pub fn parse_gcs_uri(value: &str) -> (r: Result<StorageSource, AppError>)
    ensures
        match r {
            Ok(source) => source_of(value@) == Ok::<(Seq<char>, Seq<char>), AppErrorView>(
                (source.bucket@, source.object@),
            ),
            Err(e) => source_of(value@) == Err::<(Seq<char>, Seq<char>), AppErrorView>(e@),
        },
{
    match split_gcs_uri(value) {
        Some((bucket, object)) => Ok(StorageSource { bucket, object }),
        None => {
            if has_gs_scheme(value) {
                Err(
                    bad_request(
                        "source_archive_path must include both a bucket and an object path",
                    ),
                )
            } else {
                Err(bad_request("source_archive_path must start with gs://"))
            }
        },
    }
}

/// A lookup on disk: the root directory to prepare, and the path to find within
/// it.
#[derive(Debug)]
pub struct ArchiveLookup {
    pub root_dir: String,
    pub path: String,
}

/// What checking a source archive path still needs.
#[derive(Debug)]
pub enum ArchiveCheck {
    /// Nothing: the archive lies in storage.
    Remote,
    /// The archive has to be looked up on disk.
    Lookup(ArchiveLookup),
}

/// A lookup on disk, with its texts.
pub open spec fn lookup_of(root: Seq<char>, value: Seq<char>) -> Result<
    (Seq<char>, Seq<char>),
    AppErrorView,
> {
    match path_safety::builder_root(root) {
        Ok(root_dir) => if text::trim(value).len() > 0 {
            Ok((root_dir, text::trim(value)))
        } else {
            Err(AppErrorView::BadRequest("Path must not be empty"@))
        },
        Err(e) => Err(e),
    }
}

/// What checking a source archive path needs: the lookup on disk in local mode,
/// nothing in remote mode.
pub open spec fn archive_check(config: BuilderConfigView, value: Seq<char>) -> Result<
    Option<(Seq<char>, Seq<char>)>,
    AppErrorView,
> {
    if text::trim(value).len() == 0 {
        Err(AppErrorView::BadRequest("source_archive_path must not be empty"@))
    } else if config.local_mode {
        if gcs::has_scheme(value) {
            Err(
                AppErrorView::BadRequest(
                    "source_archive_path must point to a local .tar.gz archive when LAB_BUILDER_LOCAL_MODE=true"@,
                ),
            )
        } else {
            match lookup_of(config.bundle_root_dir, value) {
                Ok(lookup) => Ok(Some(lookup)),
                Err(e) => Err(e),
            }
        }
    } else if gcs::has_scheme(value) {
        Ok(None)
    } else {
        Err(AppErrorView::BadRequest("source_archive_path must start with gs://"@))
    }
}

/// What the disk says of a source archive path: the canonical root directory,
/// the canonical path or the text of the error, and whether it is a file or the
/// text of the error.
#[derive(Debug)]
pub struct ArchiveFinding {
    pub root: Result<String, AppError>,
    pub canonical: Result<String, String>,
    pub is_file: Result<bool, String>,
}

/// What the disk says of a source archive path, with its texts.
pub struct FindingView {
    pub root: Result<Seq<char>, AppErrorView>,
    pub canonical: Result<Seq<char>, Seq<char>>,
    pub is_file: Result<bool, Seq<char>>,
}

impl View for ArchiveFinding {
    type V = FindingView;

    open spec fn view(&self) -> FindingView {
        FindingView {
            root: error::text_outcome(self.root),
            canonical: path_safety::lookup_text(self.canonical),
            is_file: match self.is_file {
                Ok(b) => Ok(b),
                Err(cause) => Err(cause@),
            },
        }
    }
}

/// What is wrong with a source archive, if anything. In remote mode its address
/// has to have the scheme of storage. In local mode the path has to lead to a
/// file with an archive's name within the root directory.
pub open spec fn archive_fault(
    config: BuilderConfigView,
    value: Seq<char>,
    finding: FindingView,
) -> Option<AppErrorView> {
    match archive_check(config, value) {
        Err(e) => Some(e),
        Ok(None) => None,
        Ok(Some(_)) => match finding.root {
            Err(e) => Some(e),
            Ok(root) => match path_safety::resolved_within_root(root, finding.canonical) {
                Err(e) => Some(e),
                Ok(path) => match local_build::file_check(path, finding.is_file) {
                    Err(e) => Some(e),
                    Ok(_) => None,
                },
            },
        },
    }
}

/// What is wrong with a request, if anything: with its archive, else with its
/// image name.
pub open spec fn request_fault(
    config: BuilderConfigView,
    request: CreateBuildRequestView,
    finding: FindingView,
) -> Option<AppErrorView> {
    match archive_fault(config, request.source_archive_path, finding) {
        Some(e) => Some(e),
        None => match image_name_fault(request.image_name) {
            Some(message) => Some(AppErrorView::BadRequest(message)),
            None => None,
        },
    }
}

/// The image of a build, without a tag.
pub open spec fn image_base(config: BuilderConfigView, image_name: Seq<char>) -> Seq<char> {
    config.artifact_registry_host + "/"@ + config.gcp_project_id + "/"@
        + config.artifact_registry_repo + "/"@ + image_name
}

/// The image of a build under its tag.
pub open spec fn versioned_image(
    config: BuilderConfigView,
    image_name: Seq<char>,
    image_tag: Seq<char>,
) -> Seq<char> {
    image_base(config, image_name) + ":"@ + image_tag
}

/// What a lab is started from: in local mode the image's name and tag, otherwise
/// the image in the registry under its tag.
pub open spec fn template_of(
    config: BuilderConfigView,
    image_name: Seq<char>,
    image_tag: Seq<char>,
) -> Seq<char> {
    if config.local_mode {
        image_name + ":"@ + image_tag
    } else {
        versioned_image(config, image_name, image_tag)
    }
}

/// The job that a request creates.
pub open spec fn new_job(
    config: BuilderConfigView,
    request: CreateBuildRequestView,
    build_id: u128,
    created_at: Timestamp,
) -> BuildJobView {
    let image_tag = text::trimmed_or(request.image_tag, "v1"@);
    BuildJobView {
        build_id,
        lab_id: request.lab_id,
        requested_by: request.requested_by,
        status: if config.local_mode {
            BuildStatus::Submitted
        } else {
            BuildStatus::Queued
        },
        failure_message: None,
        dispatch_mode: if config.local_mode {
            BuildDispatchMode::LocalDockerKind
        } else {
            BuildDispatchMode::CloudBuild
        },
        image_name: request.image_name,
        image_tag,
        template_path: template_of(config, request.image_name, image_tag),
        source_archive_path: request.source_archive_path,
        dockerfile_path: text::trimmed_or(request.dockerfile_path, "Dockerfile"@),
        source_context_hash: request.source_context_hash,
        gcp_region: config.gcp_region,
        build_source_bucket: config.build_source_bucket,
        local_kind_cluster_name: if config.local_mode && config.local_kind_load_enabled {
            Some(config.local_kind_cluster_name)
        } else {
            None
        },
        loaded_to_kind: false,
        cloud_build_id: None,
        cloud_build_name: None,
        cloud_build_operation_name: None,
        cloud_build_log_url: None,
        versioned_image_uri: versioned_image(config, request.image_name, image_tag),
        latest_image_uri: image_base(config, request.image_name) + ":latest"@,
        created_at,
    }
}

/// Whether the image of a job can stand for that of another: it is ready and
/// was built in the cloud from the same context, with the same Dockerfile and
/// under the same tag.
pub open spec fn can_reuse(ready: BuildJobView, job: BuildJobView) -> bool {
    &&& ready.status is Ready
    &&& ready.dispatch_mode is CloudBuild
    &&& job.source_context_hash is Some
    &&& ready.source_context_hash == job.source_context_hash
    &&& ready.dockerfile_path == job.dockerfile_path
    &&& ready.image_tag == job.image_tag
}

/// A job that is ready at once with the image of another.
pub open spec fn with_image_of(job: BuildJobView, ready: BuildJobView) -> BuildJobView {
    BuildJobView {
        status: BuildStatus::Ready,
        failure_message: None,
        image_name: ready.image_name,
        template_path: ready.template_path,
        versioned_image_uri: ready.versioned_image_uri,
        latest_image_uri: ready.latest_image_uri,
        cloud_build_id: ready.cloud_build_id,
        cloud_build_name: ready.cloud_build_name,
        cloud_build_operation_name: ready.cloud_build_operation_name,
        cloud_build_log_url: ready.cloud_build_log_url,
        ..job
    }
}

/// A job that was created, by what it needs next.
#[derive(Debug)]
pub enum NewBuild {
    /// It is built on this machine.
    Local(BuildJob),
    /// It is ready with the image of an earlier job.
    Reused(BuildJob),
    /// It is submitted to Cloud Build.
    Submit(BuildJob),
}

impl NewBuild {
    pub open spec fn job(self) -> BuildJobView {
        match self {
            NewBuild::Local(job) => job@,
            NewBuild::Reused(job) => job@,
            NewBuild::Submit(job) => job@,
        }
    }
}

/// What Cloud Build's answer to a build request makes of the job.
pub open spec fn submitted(
    job: BuildJobView,
    status: u16,
    status_text: Seq<char>,
    operation: CloudBuildOperation,
) -> Result<BuildJobView, AppErrorView> {
    if 200 <= status < 300 {
        Ok(
            BuildJobView {
                status: BuildStatus::Submitted,
                failure_message: None,
                cloud_build_operation_name: text::opt_text(operation.name),
                cloud_build_id: operation.build_text("id"@),
                cloud_build_name: operation.build_text("name"@),
                cloud_build_log_url: operation.build_text("logUrl"@),
                ..job
            },
        )
    } else {
        Err(
            AppErrorView::Internal(
                "Cloud Build API rejected the build request: "@ + match operation.reported() {
                    Some(message) => message,
                    None => "HTTP "@ + status_text,
                },
            ),
        )
    }
}

/// What Cloud Build's answer to a build request makes of the job.
pub fn submission_outcome(
    job: BuildJob,
    status: u16,
    status_text: &str,
    operation: &CloudBuildOperation,
) -> (r: Result<BuildJob, AppError>)
    ensures
        submitted(job@, status, status_text@, *operation) == match r {
            Ok(done) => Ok::<BuildJobView, AppErrorView>(done@),
            Err(e) => Err(e@),
        },
{
    if !(200 <= status && status < 300) {
        let details = match operation.error_message() {
            Some(message) => message,
            None => owned("HTTP ").concat(status_text),
        };
        return Err(
            AppError::Internal(
                owned("Cloud Build API rejected the build request: ").concat(details.as_str()),
            ),
        );
    }
    let mut done = job;
    done.status = BuildStatus::Submitted;
    done.failure_message = None;
    done.cloud_build_operation_name = clone_opt(&operation.name);
    done.cloud_build_id = operation.build_id();
    done.cloud_build_name = operation.build_name();
    done.cloud_build_log_url = operation.build_log_url();
    Ok(done)
}

/// The job as it is stored once its build has ended: what the build made of it,
/// or the job as it was, failed with the error's message.
pub open spec fn outcome_of(job: BuildJobView, outcome: Result<BuildJobView, AppErrorView>) -> BuildJobView {
    match outcome {
        Ok(done) => done,
        Err(e) => tracking::ended(job, Some(e.message())),
    }
}

/// How many builds may run at once: the configured number, but at least one.
pub fn build_slots(config: &BuilderConfig) -> (r: usize)
    ensures
        r == if config.max_concurrent_builds >= 1 {
            config.max_concurrent_builds
        } else {
            1
        },
{
    if config.max_concurrent_builds >= 1 {
        config.max_concurrent_builds
    } else {
        1
    }
}

/// Creates builds and knows those that were created.
#[derive(Debug)]
pub struct BuildsService {
    pub config: BuilderConfig,
    pub jobs: HashMap<u128, BuildJob>,
}

impl BuildsService {
    /// The jobs by their identifiers, with their texts.
    pub open spec fn stored(self) -> Map<u128, BuildJobView> {
        self.jobs@.map_values(|job: BuildJob| job@)
    }

    pub fn new(config: BuilderConfig, jobs: HashMap<u128, BuildJob>) -> (r: Self)
        ensures
            r.config == config,
            r.jobs == jobs,
    {
        BuildsService { config, jobs }
    }

    pub fn is_local_mode(&self) -> (r: bool)
        ensures
            r == self.config.local_mode,
    {
        self.config.local_mode
    }

    /// The job with this identifier.
    pub fn get_build(&self, build_id: u128) -> (r: Result<BuildJob, AppError>)
        ensures
            match r {
                Ok(job) => self.stored().contains_key(build_id) && job@ == self.stored()[build_id],
                Err(e) => !self.stored().contains_key(build_id) && e@ == AppErrorView::NotFound(
                    "Build job "@ + outside::uuid_text(build_id) + " not found"@,
                ),
            },
    {
        broadcast use vstd::std_specs::hash::group_hash_axioms;

        match self.jobs.get(&build_id) {
            Some(job) => Ok(job.clone()),
            None => Err(
                AppError::NotFound(
                    owned("Build job ").concat(uuid_string(build_id).as_str()).concat(" not found"),
                ),
            ),
        }
    }

    /// Stores a job under its identifier, in place of what was there.
    pub fn store_job(&mut self, job: BuildJob)
        ensures
            final(self).config == old(self).config,
            final(self).stored() == old(self).stored().insert(job.build_id, job@),
    {
        broadcast use vstd::std_specs::hash::group_hash_axioms;

        let ghost shown = job@;
        let build_id: u128 = job.build_id;
        self.jobs.insert(build_id, job);
        assert(self.stored() =~= old(self).stored().insert(build_id, shown));
    }

    /// A stored job whose image can stand for that of the given one.
    pub fn find_reusable(&self, job: &BuildJob) -> (r: Option<BuildJob>)
        ensures
            match r {
                Some(ready) => {
                    &&& can_reuse(ready@, job@)
                    &&& exists|id: u128| #[trigger]
                        self.stored().contains_key(id) && self.stored()[id] == ready@
                },
                None => forall|id: u128| #[trigger]
                    self.stored().contains_key(id) ==> !can_reuse(self.stored()[id], job@),
            },
    {
        broadcast use vstd::std_specs::hash::group_hash_axioms;

        let hash: &String = match &job.source_context_hash {
            Some(hash) => hash,
            None => {
                return None;
            },
        };
        for entry in it: self.jobs.iter()
            invariant
                job@.source_context_hash == Some(hash@),
                it.seq() == vstd::std_specs::iter::IteratorSpec::remaining(
                    &vstd::std_specs::hash::spec_hash_map_iter(&self.jobs),
                ),
                forall|j: int|
                    0 <= j < it.index() ==> !can_reuse((#[trigger] it.seq()[j]).1@, job@),
        {
            let candidate: &BuildJob = entry.1;
            assert(self.jobs@.contains_key(*it.seq()[it.index() as int].0));
            assert(self.stored().contains_key(*entry.0));
            assert(self.stored()[*entry.0] == candidate@);
            if candidate.status == BuildStatus::Ready && candidate.dispatch_mode
                == BuildDispatchMode::CloudBuild {
                if let Some(known) = &candidate.source_context_hash {
                    if same(known.as_str(), hash.as_str()) && same(
                        candidate.dockerfile_path.as_str(),
                        job.dockerfile_path.as_str(),
                    ) && same(candidate.image_tag.as_str(), job.image_tag.as_str()) {
                        return Some(candidate.clone());
                    }
                }
            }
        }
        assert forall|id: u128| #[trigger] self.stored().contains_key(id) implies !can_reuse(
            self.stored()[id],
            job@,
        ) by {
            let all = vstd::std_specs::iter::IteratorSpec::remaining(
                    &vstd::std_specs::hash::spec_hash_map_iter(&self.jobs),
                );
            assert(self.jobs@.contains_key(id));
            assert(all.contains((&id, &self.jobs@[id])));
            let j = choose|j: int| 0 <= j < all.len() && all[j] == (&id, &self.jobs@[id]);
            assert(!can_reuse(all[j].1@, job@));
        }
        None
    }

    /// What checking a source archive path needs: in local mode the lookup of an
    /// archive on disk, in remote mode nothing, since the archive has to lie in
    /// storage.
    pub fn validate_source_archive_path(&self, value: &str) -> (r: Result<ArchiveCheck, AppError>)
        ensures
            archive_check(self.config@, value@) == match r {
                Ok(ArchiveCheck::Remote) => Ok::<
                    Option<(Seq<char>, Seq<char>)>,
                    AppErrorView,
                >(None),
                Ok(ArchiveCheck::Lookup(lookup)) => Ok(Some((lookup.root_dir@, lookup.path@))),
                Err(e) => Err(e@),
            },
    {
        if trimmed(value).as_str().is_empty() {
            return Err(bad_request("source_archive_path must not be empty"));
        }
        if self.config.local_mode {
            if has_gs_scheme(value) {
                return Err(
                    bad_request(
                        "source_archive_path must point to a local .tar.gz archive when LAB_BUILDER_LOCAL_MODE=true",
                    ),
                );
            }
            return match self.resolve_local_archive_path(value) {
                Ok(lookup) => Ok(ArchiveCheck::Lookup(lookup)),
                Err(e) => Err(e),
            };
        }
        match validate_gcs_path(value) {
            Ok(_) => Ok(ArchiveCheck::Remote),
            Err(e) => Err(e),
        }
    }

    /// The lookup on disk that finds a source archive.
    pub fn resolve_local_archive_path(&self, value: &str) -> (r: Result<ArchiveLookup, AppError>)
        ensures
            lookup_of(self.config.bundle_root_dir@, value@) == match r {
                Ok(lookup) => Ok::<(Seq<char>, Seq<char>), AppErrorView>(
                    (lookup.root_dir@, lookup.path@),
                ),
                Err(e) => Err(e@),
            },
    {
        let root_dir = match ensure_builder_root_dir(self.config.bundle_root_dir.as_str()) {
            Ok(root_dir) => root_dir,
            Err(e) => {
                return Err(e);
            },
        };
        match path_to_resolve(value) {
            Ok(path) => Ok(ArchiveLookup { root_dir, path }),
            Err(e) => Err(e),
        }
    }

    /// The job that a request creates, with this identifier and time.
    pub fn draft_job(
        &self,
        request: CreateBuildRequest,
        build_id: u128,
        created_at: Timestamp,
    ) -> (r: BuildJob)
        ensures
            r@ == new_job(self.config@, request@, build_id, created_at),
    {
        let image_tag = trimmed_or_default(&request.image_tag, "v1");
        let dockerfile_path = trimmed_or_default(&request.dockerfile_path, "Dockerfile");
        let image_base = self.config.artifact_registry_host.clone().concat("/").concat(
            self.config.gcp_project_id.as_str(),
        ).concat("/").concat(self.config.artifact_registry_repo.as_str()).concat("/").concat(
            request.image_name.as_str(),
        );
        let versioned_image_uri = image_base.clone().concat(":").concat(image_tag.as_str());
        let latest_image_uri = image_base.concat(":latest");
        let template_path = if self.config.local_mode {
            request.image_name.clone().concat(":").concat(image_tag.as_str())
        } else {
            versioned_image_uri.clone()
        };
        let local_kind_cluster_name = if self.config.local_mode
            && self.config.local_kind_load_enabled {
            Some(self.config.local_kind_cluster_name.clone())
        } else {
            None
        };
        BuildJob {
            build_id,
            lab_id: request.lab_id,
            requested_by: request.requested_by,
            status: if self.config.local_mode {
                BuildStatus::Submitted
            } else {
                BuildStatus::Queued
            },
            failure_message: None,
            dispatch_mode: if self.config.local_mode {
                BuildDispatchMode::LocalDockerKind
            } else {
                BuildDispatchMode::CloudBuild
            },
            image_name: request.image_name,
            image_tag,
            template_path,
            source_archive_path: request.source_archive_path,
            dockerfile_path,
            source_context_hash: request.source_context_hash,
            gcp_region: self.config.gcp_region.clone(),
            build_source_bucket: self.config.build_source_bucket.clone(),
            local_kind_cluster_name,
            loaded_to_kind: false,
            cloud_build_id: None,
            cloud_build_name: None,
            cloud_build_operation_name: None,
            cloud_build_log_url: None,
            versioned_image_uri,
            latest_image_uri,
            created_at,
        }
    }

    /// Checks a source archive by what the disk says of it. In remote mode that
    /// does not matter.
    pub fn check_source_archive(&self, value: &str, finding: ArchiveFinding) -> (r: Result<
        (),
        AppError,
    >)
        ensures
            match r {
                Ok(_) => archive_fault(self.config@, value@, finding@) is None,
                Err(e) => archive_fault(self.config@, value@, finding@) == Some(e@),
            },
    {
        match self.validate_source_archive_path(value) {
            Err(e) => Err(e),
            Ok(ArchiveCheck::Remote) => Ok(()),
            Ok(ArchiveCheck::Lookup(_)) => {
                let root = match finding.root {
                    Ok(root) => root,
                    Err(e) => {
                        return Err(e);
                    },
                };
                let path = match resolve_existing_path_within_root(
                    root.as_str(),
                    finding.canonical,
                ) {
                    Ok(path) => path,
                    Err(e) => {
                        return Err(e);
                    },
                };
                check_archive_file(path.as_str(), finding.is_file)
            },
        }
    }

    /// Creates a job with this identifier and time. A job for this machine is
    /// stored at once, as is one that an earlier image serves; one for Cloud
    /// Build is not stored before it is submitted.
    pub fn create_build_at(
        &mut self,
        request: CreateBuildRequest,
        finding: ArchiveFinding,
        build_id: u128,
        created_at: Timestamp,
    ) -> (r: Result<NewBuild, AppError>)
        ensures
            final(self).config == old(self).config,
            match request_fault(old(self).config@, request@, finding@) {
                Some(fault) => {
                    &&& r matches Err(e)
                    &&& e@ == fault
                    &&& final(self).stored() == old(self).stored()
                },
                None => {
                    let job = new_job(old(self).config@, request@, build_id, created_at);
                    match r {
                        Err(_) => false,
                        Ok(NewBuild::Local(stored)) => {
                            &&& old(self).config.local_mode
                            &&& stored@ == job
                            &&& final(self).stored() == old(self).stored().insert(build_id, job)
                        },
                        Ok(NewBuild::Reused(stored)) => {
                            &&& !old(self).config.local_mode
                            &&& exists|id: u128| #[trigger]
                                old(self).stored().contains_key(id) && can_reuse(
                                    old(self).stored()[id],
                                    job,
                                ) && stored@ == with_image_of(job, old(self).stored()[id])
                            &&& final(self).stored() == old(self).stored().insert(build_id, stored@)
                        },
                        Ok(NewBuild::Submit(pending)) => {
                            &&& !old(self).config.local_mode
                            &&& forall|id: u128| #[trigger]
                                old(self).stored().contains_key(id) ==> !can_reuse(
                                    old(self).stored()[id],
                                    job,
                                )
                            &&& pending@ == job
                            &&& final(self).stored() == old(self).stored()
                        },
                    }
                },
            },
    {
        if let Err(e) = self.check_source_archive(request.source_archive_path.as_str(), finding) {
            return Err(e);
        }
        if let Err(e) = validate_image_name(request.image_name.as_str()) {
            return Err(e);
        }
        let mut job = self.draft_job(request, build_id, created_at);
        if self.config.local_mode {
            self.store_job(job.clone());
            return Ok(NewBuild::Local(job));
        }
        match self.find_reusable(&job) {
            Some(ready) => {
                job.status = BuildStatus::Ready;
                job.failure_message = None;
                job.image_name = ready.image_name;
                job.template_path = ready.template_path;
                job.versioned_image_uri = ready.versioned_image_uri;
                job.latest_image_uri = ready.latest_image_uri;
                job.cloud_build_id = ready.cloud_build_id;
                job.cloud_build_name = ready.cloud_build_name;
                job.cloud_build_operation_name = ready.cloud_build_operation_name;
                job.cloud_build_log_url = ready.cloud_build_log_url;
                self.store_job(job.clone());
                Ok(NewBuild::Reused(job))
            },
            None => Ok(NewBuild::Submit(job)),
        }
    }

    /// Creates a job under a new random identifier, at the present time. The
    /// request is refused exactly
    /// where its archive or its image name is.
    pub fn create_build(&mut self, request: CreateBuildRequest, finding: ArchiveFinding) -> (r:
        Result<NewBuild, AppError>)
        ensures
            final(self).config == old(self).config,
            match r {
                Ok(build) => {
                    let job = new_job(
                        old(self).config@,
                        request@,
                        build.job().build_id,
                        build.job().created_at,
                    );
                    &&& request_fault(old(self).config@, request@, finding@) is None
                    &&& (build.job().build_id >> 76) & 0xf == 4
                    &&& (build.job().build_id >> 62) & 0x3 == 2
                    &&& build.job().created_at.nanos < 2_000_000_000
                    &&& match build {
                        NewBuild::Local(stored) => {
                            &&& old(self).config.local_mode
                            &&& stored@ == job
                            &&& final(self).stored() == old(self).stored().insert(job.build_id, job)
                        },
                        NewBuild::Reused(stored) => {
                            &&& !old(self).config.local_mode
                            &&& exists|id: u128| #[trigger]
                                old(self).stored().contains_key(id) && can_reuse(
                                    old(self).stored()[id],
                                    job,
                                ) && stored@ == with_image_of(job, old(self).stored()[id])
                            &&& final(self).stored() == old(self).stored().insert(
                                job.build_id,
                                stored@,
                            )
                        },
                        NewBuild::Submit(pending) => {
                            &&& !old(self).config.local_mode
                            &&& forall|id: u128| #[trigger]
                                old(self).stored().contains_key(id) ==> !can_reuse(
                                    old(self).stored()[id],
                                    job,
                                )
                            &&& pending@ == job
                            &&& final(self).stored() == old(self).stored()
                        },
                    }
                },
                Err(e) => {
                    &&& request_fault(old(self).config@, request@, finding@) == Some(e@)
                    &&& final(self).stored() == old(self).stored()
                },
            },
    {
        let build_id = new_uuid();
        let created_at = utc_now();
        self.create_build_at(request, finding, build_id, created_at)
    }

    /// The request that submits a job to Cloud Build.
    pub fn submit_to_cloud_build(&self, job: &BuildJob) -> (r: Result<Json, AppError>)
        ensures
            match r {
                Ok(body) => {
                    &&& source_of(job.source_archive_path@) matches Ok((bucket, object))
                    &&& body@ == cloud_messages::request_json(self.config@, job@, bucket, object)
                },
                Err(e) => source_of(job.source_archive_path@) == Err::<
                    (Seq<char>, Seq<char>),
                    AppErrorView,
                >(e@),
            },
    {
        match parse_gcs_uri(job.source_archive_path.as_str()) {
            Ok(source) => Ok(build_cloud_build_request(&self.config, job, &source)),
            Err(e) => Err(e),
        }
    }

    /// Ends a build that ran in the background: stores what it made of the job,
    /// or the job as it was when the build began, failed with the error's
    /// message.
    pub fn finish_build(&mut self, job: BuildJob, outcome: Result<BuildJob, AppError>)
        ensures
            final(self).config == old(self).config,
            ({
                let stored = outcome_of(
                    job@,
                    match outcome {
                        Ok(done) => Ok::<BuildJobView, AppErrorView>(done@),
                        Err(e) => Err(e@),
                    },
                );
                final(self).stored() == old(self).stored().insert(stored.build_id, stored)
            }),
    {
        match outcome {
            Ok(done) => self.store_job(done),
            Err(e) => {
                let mut failed = job;
                end_build(&mut failed, Some(app_error_message(&e)));
                self.store_job(failed);
            },
        }
    }
}

} // verus!
