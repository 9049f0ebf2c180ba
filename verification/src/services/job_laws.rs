//! What a new build job holds of its request, how it is submitted, when it takes
//! over the image of another build, and which requests are refused.

use crate::error::{AppError, AppErrorView};
use crate::models::build_job::{
    BuildJob, BuildJobView, BuildStatus, CreateBuildRequest, CreateBuildRequestView, Timestamp,
};
use crate::models::state::BuilderConfigView;
use crate::services::builds;
use crate::services::builds::{ArchiveFinding, BuildsService, FindingView, NewBuild};
use crate::services::cloud_messages::CloudBuildOperation;
use crate::services::gcs;
use crate::services::local_build;
use crate::services::path_safety;
use crate::text;
use crate::text_laws;
use vstd::prelude::*;
use vstd::string::*;

verus! {

/// A job and a request are shown with each of their fields.
pub proof fn law_job_and_request_show_their_fields(job: BuildJob, request: CreateBuildRequest)
    ensures
        job@.build_id == job.build_id,
        job@.status == job.status,
        job@.dispatch_mode == job.dispatch_mode,
        job@.loaded_to_kind == job.loaded_to_kind,
        job@.created_at == job.created_at,
        job@.image_name == job.image_name@,
        job@.image_tag == job.image_tag@,
        job@.template_path == job.template_path@,
        job@.source_archive_path == job.source_archive_path@,
        job@.dockerfile_path == job.dockerfile_path@,
        job@.gcp_region == job.gcp_region@,
        job@.build_source_bucket == job.build_source_bucket@,
        job@.versioned_image_uri == job.versioned_image_uri@,
        job@.latest_image_uri == job.latest_image_uri@,
        job@.lab_id == text::opt_text(job.lab_id),
        job@.requested_by == text::opt_text(job.requested_by),
        job@.failure_message == text::opt_text(job.failure_message),
        job@.source_context_hash == text::opt_text(job.source_context_hash),
        job@.local_kind_cluster_name == text::opt_text(job.local_kind_cluster_name),
        job@.cloud_build_id == text::opt_text(job.cloud_build_id),
        job@.cloud_build_name == text::opt_text(job.cloud_build_name),
        job@.cloud_build_operation_name == text::opt_text(job.cloud_build_operation_name),
        job@.cloud_build_log_url == text::opt_text(job.cloud_build_log_url),
        request@.lab_id == text::opt_text(request.lab_id),
        request@.requested_by == text::opt_text(request.requested_by),
        request@.image_name == request.image_name@,
        request@.image_tag == text::opt_text(request.image_tag),
        request@.source_archive_path == request.source_archive_path@,
        request@.dockerfile_path == text::opt_text(request.dockerfile_path),
        request@.source_context_hash == text::opt_text(request.source_context_hash),
{
}

/// Two jobs are of the same build exactly when they agree on everything but how
/// far the build has come.
pub proof fn law_same_build(a: BuildJobView, b: BuildJobView)
    ensures
        a.same_build(b) <==> {
            &&& a.build_id == b.build_id
            &&& a.lab_id == b.lab_id
            &&& a.requested_by == b.requested_by
            &&& a.dispatch_mode == b.dispatch_mode
            &&& a.image_name == b.image_name
            &&& a.image_tag == b.image_tag
            &&& a.template_path == b.template_path
            &&& a.source_archive_path == b.source_archive_path
            &&& a.dockerfile_path == b.dockerfile_path
            &&& a.source_context_hash == b.source_context_hash
            &&& a.gcp_region == b.gcp_region
            &&& a.build_source_bucket == b.build_source_bucket
            &&& a.local_kind_cluster_name == b.local_kind_cluster_name
            &&& a.versioned_image_uri == b.versioned_image_uri
            &&& a.latest_image_uri == b.latest_image_uri
            &&& a.created_at == b.created_at
        },
{
}

/// The versioned image of a new job is named by the registry, the project, the
/// repository, the image and the job's own tag, in both modes. In remote mode it
/// is the template path; in local mode that is the image and the tag alone.
pub proof fn law_new_job_names_its_versioned_image(
    config: BuilderConfigView,
    request: CreateBuildRequestView,
    build_id: u128,
    created_at: Timestamp,
)
    ensures
        ({
            let job = builds::new_job(config, request, build_id, created_at);
            &&& job.versioned_image_uri == config.artifact_registry_host + "/"@
                + config.gcp_project_id + "/"@ + config.artifact_registry_repo + "/"@
                + job.image_name + ":"@ + job.image_tag
            &&& !config.local_mode ==> job.template_path == job.versioned_image_uri
            &&& config.local_mode ==> job.template_path == job.image_name + ":"@ + job.image_tag
        }),
{
}

/// The latest image of a new job is its versioned image with another tag, in
/// both modes.
pub proof fn law_latest_image_differs_in_its_tag(
    config: BuilderConfigView,
    request: CreateBuildRequestView,
    build_id: u128,
    created_at: Timestamp,
)
    ensures
        ({
            let job = builds::new_job(config, request, build_id, created_at);
            exists|image: Seq<char>|
                job.versioned_image_uri == #[trigger] (image + ":"@) + job.image_tag
                    && job.latest_image_uri == image + ":"@ + "latest"@
        }),
{
    let job = builds::new_job(config, request, build_id, created_at);
    let image = config.artifact_registry_host + "/"@ + config.gcp_project_id + "/"@
        + config.artifact_registry_repo + "/"@ + job.image_name;
    reveal_strlit(":latest");
    reveal_strlit(":");
    reveal_strlit("latest");
    assert(":latest"@ =~= ":"@ + "latest"@);
    assert(job.latest_image_uri =~= (image + ":"@) + "latest"@);
    assert(job.versioned_image_uri == (image + ":"@) + job.image_tag);
}

/// A new job takes its tag and the path of its Dockerfile from the request,
/// without white space at their ends; where the request leaves one out, or
/// leaves it blank, it is `v1` or `Dockerfile`.
pub proof fn law_new_job_has_tag_and_dockerfile(
    config: BuilderConfigView,
    request: CreateBuildRequestView,
    build_id: u128,
    created_at: Timestamp,
)
    ensures
        ({
            let job = builds::new_job(config, request, build_id, created_at);
            &&& request.image_tag is None ==> job.image_tag == "v1"@
            &&& request.image_tag matches Some(tag) ==> if text::trim(tag).len() > 0 {
                job.image_tag == text::trim(tag)
            } else {
                job.image_tag == "v1"@
            }
            &&& request.dockerfile_path is None ==> job.dockerfile_path == "Dockerfile"@
            &&& request.dockerfile_path matches Some(path) ==> if text::trim(path).len() > 0 {
                job.dockerfile_path == text::trim(path)
            } else {
                job.dockerfile_path == "Dockerfile"@
            }
        }),
{
}

/// A new job repeats what it was asked for, is made for the configured region and
/// bucket, and is not yet built: in local mode it is handed to docker on this
/// machine, else it waits for Cloud Build. It is meant for a cluster exactly in
/// local mode with loading switched on.
pub proof fn law_new_job_repeats_its_request(
    config: BuilderConfigView,
    request: CreateBuildRequestView,
    build_id: u128,
    created_at: Timestamp,
)
    ensures
        ({
            let job = builds::new_job(config, request, build_id, created_at);
            &&& job.build_id == build_id && job.created_at == created_at
            &&& job.lab_id == request.lab_id && job.requested_by == request.requested_by
            &&& job.image_name == request.image_name
            &&& job.source_archive_path == request.source_archive_path
            &&& job.source_context_hash == request.source_context_hash
            &&& job.gcp_region == config.gcp_region
            &&& job.build_source_bucket == config.build_source_bucket
            &&& config.local_mode ==> job.status is Submitted && job.dispatch_mode is LocalDockerKind
            &&& !config.local_mode ==> job.status is Queued && job.dispatch_mode is CloudBuild
            &&& config.local_mode && config.local_kind_load_enabled ==> job.local_kind_cluster_name
                == Some(config.local_kind_cluster_name)
            &&& !config.local_mode || !config.local_kind_load_enabled
                ==> job.local_kind_cluster_name is None
            &&& job.failure_message is None && !job.loaded_to_kind
            &&& job.cloud_build_id is None && job.cloud_build_name is None
            &&& job.cloud_build_operation_name is None && job.cloud_build_log_url is None
        }),
{
}

/// Two jobs for the same image with different tags have different versioned
/// images and different template paths.
pub proof fn law_tags_tell_images_apart(
    config: BuilderConfigView,
    a: CreateBuildRequestView,
    b: CreateBuildRequestView,
    build_id: u128,
    created_at: Timestamp,
)
    requires
        a.image_name == b.image_name,
        builds::new_job(config, a, build_id, created_at).image_tag != builds::new_job(
            config,
            b,
            build_id,
            created_at,
        ).image_tag,
    ensures
        ({
            let x = builds::new_job(config, a, build_id, created_at);
            let y = builds::new_job(config, b, build_id, created_at);
            x.versioned_image_uri != y.versioned_image_uri && x.template_path != y.template_path
                && x.latest_image_uri == y.latest_image_uri
        }),
{
    let x = builds::new_job(config, a, build_id, created_at);
    let y = builds::new_job(config, b, build_id, created_at);
    let image = config.artifact_registry_host + "/"@ + config.gcp_project_id + "/"@
        + config.artifact_registry_repo + "/"@ + x.image_name + ":"@;
    lemma_same_start(image, x.image_tag, y.image_tag);
    lemma_same_start(x.image_name + ":"@, x.image_tag, y.image_tag);
}

/// Texts with the same start and different ends are different.
proof fn lemma_same_start(start: Seq<char>, a: Seq<char>, b: Seq<char>)
    ensures
        start + a == start + b ==> a == b,
{
    assert((start + a).skip(start.len() as int) =~= a);
    assert((start + b).skip(start.len() as int) =~= b);
}

/// A finished build lends its image to a job exactly when it ran in Cloud Build,
/// is ready, and has the same source, the same Dockerfile and the same tag, where
/// the source is known.
pub proof fn law_image_is_taken_over(ready: BuildJobView, job: BuildJobView)
    ensures
        builds::can_reuse(ready, job) <==> {
            &&& ready.status is Ready
            &&& ready.dispatch_mode is CloudBuild
            &&& job.source_context_hash matches Some(hash) && ready.source_context_hash == Some(hash)
            &&& ready.dockerfile_path == job.dockerfile_path
            &&& ready.image_tag == job.image_tag
        },
{
}

/// A job that takes over an image is ready at once, with all that names the image
/// and its build, and stays the job that it was otherwise.
pub proof fn law_reusing_job_is_ready(ready: BuildJobView, job: BuildJobView)
    ensures
        ({
            let reused = builds::with_image_of(job, ready);
            &&& reused.status is Ready && reused.failure_message is None
            &&& reused.image_name == ready.image_name
            &&& reused.template_path == ready.template_path
            &&& reused.versioned_image_uri == ready.versioned_image_uri
            &&& reused.latest_image_uri == ready.latest_image_uri
            &&& reused.cloud_build_id == ready.cloud_build_id
            &&& reused.cloud_build_name == ready.cloud_build_name
            &&& reused.cloud_build_operation_name == ready.cloud_build_operation_name
            &&& reused.cloud_build_log_url == ready.cloud_build_log_url
            &&& reused.build_id == job.build_id && reused.created_at == job.created_at
            &&& reused.lab_id == job.lab_id && reused.requested_by == job.requested_by
            &&& reused.image_tag == job.image_tag && reused.dockerfile_path == job.dockerfile_path
            &&& reused.source_archive_path == job.source_archive_path
            &&& reused.source_context_hash == job.source_context_hash
            &&& reused.dispatch_mode == job.dispatch_mode && reused.gcp_region == job.gcp_region
            &&& reused.build_source_bucket == job.build_source_bucket
            &&& reused.local_kind_cluster_name == job.local_kind_cluster_name
            &&& reused.loaded_to_kind == job.loaded_to_kind
        }),
{
}

/// A request that Cloud Build takes makes the job submitted, with the operation
/// that runs it and with what is known of its build.
pub proof fn law_accepted_request_submits_the_job(
    job: BuildJobView,
    status: u16,
    status_text: Seq<char>,
    operation: CloudBuildOperation,
)
    requires
        200 <= status <= 299,
    ensures
        builds::submitted(job, status, status_text, operation) matches Ok(next) && {
            &&& next.status is Submitted && next.failure_message is None
            &&& next.cloud_build_operation_name == text::opt_text(operation.name)
            &&& next.cloud_build_id == operation.build_text("id"@)
            &&& next.cloud_build_name == operation.build_text("name"@)
            &&& next.cloud_build_log_url == operation.build_text("logUrl"@)
            &&& next.same_build(job) && next.loaded_to_kind == job.loaded_to_kind
        },
{
}

/// A request that Cloud Build refuses fails, and the job with it, with the
/// message that was reported, or with the status of the reply.
pub proof fn law_refused_request_fails_the_job(
    job: BuildJobView,
    status: u16,
    status_text: Seq<char>,
    operation: CloudBuildOperation,
)
    requires
        status < 200 || status > 299,
    ensures
        builds::submitted(job, status, status_text, operation) matches Err(e) && {
            &&& operation.reported() matches Some(message) ==> e == AppErrorView::Internal(
                "Cloud Build API rejected the build request: "@ + message,
            )
            &&& operation.reported() is None ==> e == AppErrorView::Internal(
                "Cloud Build API rejected the build request: "@ + ("HTTP "@ + status_text),
            )
            &&& ({
                let failed = builds::outcome_of(job, Err(e));
                failed.status is Failed && failed.failure_message == Some(e.message())
                    && failed.same_build(job)
            })
        },
{
}

/// A job goes on as the outcome of its build says; an error makes it failed with
/// the error's message, and changes nothing else.
pub proof fn law_error_fails_the_job(job: BuildJobView, done: BuildJobView, message: Seq<char>)
    ensures
        builds::outcome_of(job, Ok(done)) == done,
        builds::outcome_of(job, Err(AppErrorView::Internal(message))) == (BuildJobView {
            status: BuildStatus::Failed,
            failure_message: Some(message),
            ..job
        }),
        builds::outcome_of(job, Err(AppErrorView::BadRequest(message))) == builds::outcome_of(
            job,
            Err(AppErrorView::Internal(message)),
        ),
        builds::outcome_of(job, Err(AppErrorView::NotFound(message))) == builds::outcome_of(
            job,
            Err(AppErrorView::Internal(message)),
        ),
{
}

/// The name of an image is accepted exactly when something is left of it without
/// white space at its ends, and that is made of small letters, digits, hyphens
/// and dots.
pub proof fn law_accepted_image_name(value: Seq<char>)
    ensures
        ({
            let name = text::trim(value);
            let fault = builds::image_name_fault(value);
            &&& fault is None <==> name.len() > 0 && forall|i: int|
                0 <= i < name.len() ==> 'a' <= #[trigger] name[i] <= 'z' || '0' <= name[i] <= '9'
                    || name[i] == '-' || name[i] == '.'
            &&& name.len() == 0 ==> fault == Some("image_name must not be empty"@)
            &&& fault is Some && name.len() > 0 ==> fault == Some(
                "image_name must contain only lowercase letters, digits, '-' or '.'"@,
            )
        }),
{
}

/// An address in a bucket is accepted exactly when it names a bucket and an
/// object; it is then made of these two. Otherwise it is told that the scheme or
/// one of the two is missing.
pub proof fn law_accepted_source_address(value: Seq<char>)
    ensures
        builds::source_of(value) matches Ok((bucket, object)) ==> {
            &&& text::trim(value) == "gs://"@ + bucket + "/"@ + object
            &&& bucket.len() > 0 && object.len() > 0 && !bucket.contains('/')
        },
        !"gs://"@.is_prefix_of(text::trim(value)) ==> builds::source_of(value) == Err::<
            (Seq<char>, Seq<char>),
            AppErrorView,
        >(AppErrorView::BadRequest("source_archive_path must start with gs://"@)),
        "gs://"@.is_prefix_of(text::trim(value)) && builds::source_of(value) is Err
            ==> builds::source_of(value) == Err::<(Seq<char>, Seq<char>), AppErrorView>(
            AppErrorView::BadRequest(
                "source_archive_path must include both a bucket and an object path"@,
            ),
        ),
{
    if let Ok((bucket, object)) = builds::source_of(value) {
        let t = text::trim(value);
        let n = "gs://"@.len() as int;
        let rest = t.skip(n);
        text_laws::law_split_once_at_the_first(rest, '/');
        assert(t =~= "gs://"@ + rest) by {
            assert(t.subrange(0, n) == "gs://"@);
        }
        reveal_strlit("/");
        assert("/"@ =~= seq!['/']);
        assert(t =~= "gs://"@ + bucket + "/"@ + object);
    }
}

/// Every address that names a bucket and an object is accepted, and read as
/// these two.
pub proof fn law_address_of_bucket_and_object_is_accepted(bucket: Seq<char>, object: Seq<char>)
    requires
        bucket.len() > 0,
        !bucket.contains('/'),
        object.len() > 0,
        !text::is_white(object.last()),
    ensures
        builds::source_of("gs://"@ + bucket + "/"@ + object) == Ok::<
            (Seq<char>, Seq<char>),
            AppErrorView,
        >((bucket, object)),
{
    reveal_strlit("/");
    assert("/"@ =~= seq!['/']);
    assert("gs://"@ + bucket + "/"@ + object =~= ("gs://"@ + bucket).push('/') + object);
    gcs::law_parts_of_address(bucket, object);
}

/// In remote mode an archive is accepted where its address has the scheme, and
/// nothing is looked up. In local mode an address with the scheme is refused, and
/// any other path is looked up below the root. A blank path is refused in both.
pub proof fn law_archive_is_checked_by_mode(config: BuilderConfigView, value: Seq<char>)
    ensures
        ({
            let checked = builds::archive_check(config, value);
            let path = text::trim(value);
            let in_bucket = "gs://"@.is_prefix_of(path);
            &&& path.len() == 0 ==> (checked matches Err(e) && e == AppErrorView::BadRequest(
                "source_archive_path must not be empty"@,
            ))
            &&& path.len() > 0 && !config.local_mode && in_bucket ==> (checked matches Ok(found)
                && found is None)
            &&& path.len() > 0 && !config.local_mode && !in_bucket ==> (checked matches Err(e) && e
                == AppErrorView::BadRequest("source_archive_path must start with gs://"@))
            &&& path.len() > 0 && config.local_mode && in_bucket ==> (checked matches Err(e) && e
                == AppErrorView::BadRequest(
                "source_archive_path must point to a local .tar.gz archive when LAB_BUILDER_LOCAL_MODE=true"@,
            ))
            &&& path.len() > 0 && config.local_mode && !in_bucket
                ==> match path_safety::builder_root(config.bundle_root_dir) {
                Ok(root) => checked matches Ok(Some(lookup)) && lookup == (root, path),
                Err(e) => checked matches Err(other) && other == e,
            }
        }),
{
}

/// Only a path that is not blank is looked up, below a valid root.
pub proof fn law_lookup_needs_root_and_path(root: Seq<char>, value: Seq<char>)
    ensures
        match path_safety::builder_root(root) {
            Err(e) => builds::lookup_of(root, value) == Err::<(Seq<char>, Seq<char>), AppErrorView>(
                e,
            ),
            Ok(dir) => {
                &&& text::trim(value).len() > 0 ==> builds::lookup_of(root, value) == Ok::<
                    (Seq<char>, Seq<char>),
                    AppErrorView,
                >((dir, text::trim(value)))
                &&& text::trim(value).len() == 0 ==> builds::lookup_of(root, value) == Err::<
                    (Seq<char>, Seq<char>),
                    AppErrorView,
                >(AppErrorView::BadRequest("Path must not be empty"@))
            },
        },
{
}

/// A request is accepted exactly when its archive and the name of its image are.
/// The archive's fault is told first.
pub proof fn law_request_is_accepted(
    config: BuilderConfigView,
    request: CreateBuildRequestView,
    finding: FindingView,
)
    ensures
        ({
            let fault = builds::request_fault(config, request, finding);
            let archive = builds::archive_fault(config, request.source_archive_path, finding);
            let name = builds::image_name_fault(request.image_name);
            &&& fault is None <==> archive is None && name is None
            &&& archive is Some ==> fault == archive
            &&& archive is None && name is Some ==> fault == Some(AppErrorView::BadRequest(name->0))
        }),
{
}

/// In remote mode what was found on this machine does not matter. In local mode
/// an archive is accepted exactly when the root was found, the archive was found
/// within it, and it is a file with the name of an archive.
pub proof fn law_archive_is_accepted(
    config: BuilderConfigView,
    value: Seq<char>,
    finding: FindingView,
    other: FindingView,
)
    ensures
        !config.local_mode ==> builds::archive_fault(config, value, finding)
            == builds::archive_fault(config, value, other),
        config.local_mode ==> (builds::archive_fault(config, value, finding) is None <==> {
            &&& text::trim(value).len() > 0
            &&& !"gs://"@.is_prefix_of(text::trim(value))
            &&& path_safety::builder_root(config.bundle_root_dir) is Ok
            &&& finding.root matches Ok(root) && (finding.canonical matches Ok(path)
                && path_safety::is_within(path, root) && finding.is_file == Ok::<bool, Seq<char>>(true)
                && local_build::is_archive_name(path))
        }),
        builds::archive_check(config, value) matches Err(e) ==> builds::archive_fault(
            config,
            value,
            finding,
        ) == Some(e),
{
}

/// The service shows for each identifier the job that it keeps under it, and
/// nothing for any other.
pub proof fn law_service_shows_its_jobs(service: BuildsService, build_id: u128)
    ensures
        service.stored().contains_key(build_id) <==> service.jobs@.contains_key(build_id),
        service.jobs@.contains_key(build_id) ==> service.stored()[build_id]
            == service.jobs@[build_id]@,
{
}

/// A new build is shown as its job, whichever way it goes on.
pub proof fn law_new_build_shows_its_job(job: BuildJob)
    ensures
        NewBuild::Local(job).job() == job@,
        NewBuild::Reused(job).job() == job@,
        NewBuild::Submit(job).job() == job@,
{
}

/// What was found of an archive is shown as it was found.
pub proof fn law_finding_shows_what_was_found(finding: ArchiveFinding, path: String, e: AppError)
    ensures
        finding.root == Ok::<String, AppError>(path) ==> finding@.root == Ok::<
            Seq<char>,
            AppErrorView,
        >(path@),
        finding.root == Err::<String, AppError>(e) ==> finding@.root == Err::<
            Seq<char>,
            AppErrorView,
        >(e@),
        finding.canonical == Ok::<String, String>(path) ==> finding@.canonical == Ok::<
            Seq<char>,
            Seq<char>,
        >(path@),
        finding.canonical == Err::<String, String>(path) ==> finding@.canonical == Err::<
            Seq<char>,
            Seq<char>,
        >(path@),
        finding.is_file == Ok::<bool, String>(true) ==> finding@.is_file == Ok::<bool, Seq<char>>(
            true,
        ),
        finding.is_file == Ok::<bool, String>(false) ==> finding@.is_file == Ok::<bool, Seq<char>>(
            false,
        ),
        finding.is_file == Err::<bool, String>(path) ==> finding@.is_file == Err::<
            bool,
            Seq<char>,
        >(path@),
{
}

} // verus!
