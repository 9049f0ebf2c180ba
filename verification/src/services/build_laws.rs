//! What holds of every build job.

use crate::error::AppErrorView;
use crate::models::build_job::{BuildJobView, CreateBuildRequestView, Timestamp};
use crate::models::state::BuilderConfigView;
use crate::outside;
use crate::routes::source_bundles as uploads;
use crate::routes::upload_laws;
use crate::services::builds;
use crate::services::builds::FindingView;
use crate::services::bundle_laws;
use crate::services::cloud_build;
use crate::services::cloud_messages;
use crate::services::gcs;
use crate::services::local_build;
use crate::services::local_build::{ArchiveGuard, EntryKind, LocalStage, LocalStepView};
use crate::services::path_laws;
use crate::services::path_safety;
use crate::services::source_bundles;
use crate::services::tracking::{PollView, TrackStepView, TrackerView, MAX_POLL_ERRORS};
use crate::services::url_text;
use crate::text;
use crate::text_laws;
use vstd::prelude::*;
use vstd::utf8;

verus! {

/// The `template_path` of a new job: `<image>:<tag>` in local mode, otherwise
/// `<host>/<project>/<repository>/<image>:<tag>`. A tag that is missing or blank
/// is `v1`, and a Dockerfile that is missing or blank is `Dockerfile`.
pub proof fn law_template_path(
    config: BuilderConfigView,
    request: CreateBuildRequestView,
    build_id: u128,
    created_at: Timestamp,
)
    ensures
        ({
            let job = builds::new_job(config, request, build_id, created_at);
            let blank_tag = match request.image_tag {
                Some(tag) => text::trim(tag).len() == 0,
                None => true,
            };
            let blank_file = match request.dockerfile_path {
                Some(path) => text::trim(path).len() == 0,
                None => true,
            };
            &&& blank_tag ==> job.image_tag == "v1"@
            &&& !blank_tag ==> job.image_tag == text::trim(request.image_tag->0)
            &&& blank_file ==> job.dockerfile_path == "Dockerfile"@
            &&& !blank_file ==> job.dockerfile_path == text::trim(request.dockerfile_path->0)
            &&& config.local_mode ==> job.template_path == request.image_name + ":"@
                + job.image_tag
            &&& !config.local_mode ==> job.template_path == config.artifact_registry_host + "/"@
                + config.gcp_project_id + "/"@ + config.artifact_registry_repo + "/"@
                + request.image_name + ":"@ + job.image_tag
        }),
{
}

/// A new job waits: it is submitted in local mode and queued otherwise, nothing
/// has failed, and nothing is loaded or known of a build in the cloud.
pub proof fn law_new_job_is_pending(
    config: BuilderConfigView,
    request: CreateBuildRequestView,
    build_id: u128,
    created_at: Timestamp,
)
    ensures
        ({
            let job = builds::new_job(config, request, build_id, created_at);
            &&& config.local_mode ==> job.status is Submitted && job.dispatch_mode
                is LocalDockerKind
            &&& !config.local_mode ==> job.status is Queued && job.dispatch_mode is CloudBuild
            &&& job.failure_message is None
            &&& !job.loaded_to_kind
            &&& job.cloud_build_id is None
            &&& job.cloud_build_name is None
            &&& job.cloud_build_operation_name is None
        }),
{
}

/// A source archive that is accepted in local mode is no address in storage; it
/// exists, is a file with an archive's name, and lies within the root directory.
/// One that is accepted in remote mode is an address in storage.
pub proof fn law_accepted_archive_is_confined(
    config: BuilderConfigView,
    value: Seq<char>,
    finding: FindingView,
)
    requires
        builds::archive_fault(config, value, finding) is None,
    ensures
        config.local_mode ==> {
            &&& !gcs::has_scheme(value)
            &&& finding.root is Ok
            &&& finding.canonical is Ok
            &&& path_safety::is_within(finding.canonical->Ok_0, finding.root->Ok_0)
            &&& finding.is_file == Ok::<bool, Seq<char>>(true)
            &&& local_build::is_archive_name(finding.canonical->Ok_0)
        },
        !config.local_mode ==> gcs::has_scheme(value),
{
}

/// An address in storage is read the same for an upload and for a build.
pub proof fn law_addresses_are_read_alike(value: Seq<char>)
    ensures
        builds::source_of(value) is Ok <==> gcs::parts(value) is Some,
        builds::source_of(value) is Ok ==> gcs::parts(value) == Some(
            builds::source_of(value)->Ok_0,
        ),
{
}

/// A stored job is found under its identifier, and every other job as before.
pub proof fn law_stored_job_is_found(
    before: Map<u128, BuildJobView>,
    job: BuildJobView,
    other: u128,
)
    ensures
        ({
            let after = before.insert(job.build_id, job);
            &&& after.contains_key(job.build_id)
            &&& after[job.build_id] == job
            &&& other != job.build_id ==> (after.contains_key(other) == before.contains_key(other))
            &&& other != job.build_id && before.contains_key(other) ==> after[other]
                == before[other]
        }),
{
}

/// What is fixed when a job is created stays: a poll of its build changes only
/// how far the build has come.
pub proof fn law_polling_keeps_the_build(t: TrackerView, poll: Result<PollView, AppErrorView>)
    ensures
        match t.step(poll) {
            TrackStepView::Retry(next) => next.job == t.job,
            TrackStepView::Running(next) => next.job.same_build(t.job) && next.job.status
                == t.job.status,
            TrackStepView::Finished(job) => job.same_build(t.job),
            TrackStepView::GaveUp(_) => true,
        },
{
}

/// A job that was followed to its end is ready or failed. It is ready exactly
/// where the build's status is `SUCCESS`; then no failure is told, and otherwise
/// one is.
pub proof fn law_followed_job_is_ready_or_failed(t: TrackerView, poll: PollView)
    ensures
        match t.step(Ok(poll)) {
            TrackStepView::Finished(job) => {
                let success = poll.snapshot is Some && poll.snapshot->0.status == Some("SUCCESS"@);
                &&& poll.done
                &&& success ==> job.status is Ready && job.failure_message is None
                &&& !success ==> job.status is Failed && job.failure_message is Some
            },
            TrackStepView::Running(next) => !poll.done && next.consecutive_poll_errors == 0,
            _ => false,
        },
{
}

/// How following a job stands after a row of failed polls.
pub open spec fn after_failures(t: TrackerView, errors: Seq<AppErrorView>) -> TrackStepView
    decreases errors.len(),
{
    if errors.len() == 0 {
        TrackStepView::Retry(t)
    } else {
        match after_failures(t, errors.drop_last()) {
            TrackStepView::Retry(next) => next.step(Err(errors.last())),
            ended => ended,
        }
    }
}

/// A job is followed through four failed polls in a row and given up at the
/// fifth, with the error of that poll.
pub proof fn law_five_failures_in_a_row_end_tracking(
    job: BuildJobView,
    errors: Seq<AppErrorView>,
)
    requires
        0 < errors.len() <= 5,
    ensures
        after_failures(TrackerView { job, consecutive_poll_errors: 0 }, errors) == if errors.len()
            < 5 {
            TrackStepView::Retry(TrackerView { job, consecutive_poll_errors: errors.len() as u8 })
        } else {
            TrackStepView::GaveUp(errors.last())
        },
    decreases errors.len(),
{
    if errors.len() > 1 {
        law_five_failures_in_a_row_end_tracking(job, errors.drop_last());
    } else {
        assert(after_failures(
            TrackerView { job, consecutive_poll_errors: 0 },
            errors.drop_last(),
        ) == TrackStepView::Retry(TrackerView { job, consecutive_poll_errors: 0 }));
    }
}

/// No step leaves a count of failed polls that should have ended the following.
pub proof fn law_failure_count_stays_below_the_limit(
    t: TrackerView,
    poll: Result<PollView, AppErrorView>,
)
    ensures
        match t.step(poll) {
            TrackStepView::Retry(next) => next.consecutive_poll_errors < MAX_POLL_ERRORS,
            TrackStepView::Running(next) => next.consecutive_poll_errors < MAX_POLL_ERRORS,
            _ => true,
        },
{
}

/// How a build on this machine stands after the outcomes of its stages so far.
pub open spec fn after_stages(
    config: BuilderConfigView,
    job: BuildJobView,
    outcomes: Seq<Result<Seq<char>, AppErrorView>>,
) -> LocalStepView
    decreases outcomes.len(),
{
    if outcomes.len() == 0 {
        local_build::local_start(config, job)
    } else {
        match after_stages(config, job, outcomes.drop_last()) {
            LocalStepView::Next(current, stage, _) => local_build::local_next(
                config,
                current,
                stage,
                outcomes.last(),
            ),
            ended => ended,
        }
    }
}

/// The job of a build on this machine is the same throughout, and where the
/// build succeeds it is ready, and loaded into the cluster exactly where it was
/// before or that is enabled and execution is.
pub proof fn law_local_build_keeps_the_build(
    config: BuilderConfigView,
    job: BuildJobView,
    outcomes: Seq<Result<Seq<char>, AppErrorView>>,
)
    ensures
        match after_stages(config, job, outcomes) {
            LocalStepView::Next(current, _, _) => current == job && config.local_execution_enabled,
            LocalStepView::Finished(done) => {
                &&& done.same_build(job)
                &&& done.status is Ready
                &&& done.failure_message is None
                &&& done.loaded_to_kind == (job.loaded_to_kind || (config.local_execution_enabled
                    && config.local_kind_load_enabled))
            },
            LocalStepView::Failed(_) => true,
        },
        after_stages(config, job, outcomes) matches LocalStepView::Next(_, stage, _) ==> (stage
            is Loading ==> config.local_kind_load_enabled),
    decreases outcomes.len(),
{
    if outcomes.len() > 0 {
        law_local_build_keeps_the_build(config, job, outcomes.drop_last());
    }
}

/// A build on this machine whose stages all succeed ends ready: at once where
/// execution is disabled, after three stages without a cluster to load into,
/// after four with one.
pub proof fn law_local_build_ends(
    config: BuilderConfigView,
    job: BuildJobView,
    outcomes: Seq<Result<Seq<char>, AppErrorView>>,
)
    requires
        outcomes.len() >= 4,
        forall|i: int| 0 <= i < outcomes.len() ==> (#[trigger] outcomes[i]) is Ok,
    ensures
        after_stages(config, job, outcomes) is Finished,
    decreases outcomes.len(),
{
    let front = outcomes.drop_last();
    assert(outcomes.last() == outcomes[outcomes.len() - 1]);
    if outcomes.len() > 4 {
        assert forall|i: int| 0 <= i < front.len() implies (#[trigger] front[i]) is Ok by {
            assert(front[i] == outcomes[i]);
        }
        law_local_build_ends(config, job, front);
    } else {
        let three = front;
        let two = three.drop_last();
        let one = two.drop_last();
        assert(three.last() == outcomes[2] && two.last() == outcomes[1] && one.last()
            == outcomes[0]);
        assert(one.drop_last().len() == 0);
        let start = after_stages(config, job, one.drop_last());
        assert(start == local_build::local_start(config, job));
        if config.local_execution_enabled {
            assert(after_stages(config, job, one) matches LocalStepView::Next(_, stage, _) && stage
                is Extracting);
            assert(after_stages(config, job, two) matches LocalStepView::Next(_, stage, _) && stage
                is Building);
            assert(match after_stages(config, job, three) {
                LocalStepView::Next(_, stage, _) => stage is Loading,
                LocalStepView::Finished(_) => true,
                LocalStepView::Failed(_) => false,
            });
        } else {
            assert(after_stages(config, job, one) is Finished);
            assert(after_stages(config, job, two) is Finished);
            assert(after_stages(config, job, three) is Finished);
        }
    }
}

/// The first failed stage ends a build on this machine with its error.
pub proof fn law_failed_stage_ends_local_build(
    config: BuilderConfigView,
    job: BuildJobView,
    stage: LocalStage,
    error: AppErrorView,
)
    ensures
        local_build::local_next(config, job, stage, Err(error)) == LocalStepView::Failed(error),
{
}

/// Submitting a job and ending it keep what was fixed when it was created.
pub proof fn law_submitting_and_ending_keep_the_build(
    job: BuildJobView,
    status: u16,
    status_text: Seq<char>,
    operation: cloud_messages::CloudBuildOperation,
    error: AppErrorView,
)
    ensures
        builds::submitted(job, status, status_text, operation) matches Ok(done) ==> {
            &&& done.same_build(job)
            &&& done.status is Submitted
        },
        builds::outcome_of(job, Err(error)).same_build(job),
        builds::outcome_of(job, Err(error)).status is Failed,
        builds::outcome_of(job, Err(error)).failure_message == Some(error.message()),
{
}

/// A job that takes over an earlier image stays its own job, has the earlier
/// job's `template_path`, and that image was built from the same context with
/// the same Dockerfile and under the same tag.
pub proof fn law_reused_image_fits(job: BuildJobView, ready: BuildJobView)
    requires
        builds::can_reuse(ready, job),
    ensures
        ({
            let done = builds::with_image_of(job, ready);
            &&& done.build_id == job.build_id
            &&& done.lab_id == job.lab_id
            &&& done.requested_by == job.requested_by
            &&& done.status is Ready
            &&& done.template_path == ready.template_path
            &&& done.image_tag == ready.image_tag
            &&& done.dockerfile_path == ready.dockerfile_path
            &&& done.source_context_hash == ready.source_context_hash
            &&& builds::can_reuse(done, job) == (job.dispatch_mode is CloudBuild)
        }),
{
}

/// The image name that stands for a lab's name is accepted for a build, unless
/// nothing is left of it.
pub proof fn law_normalized_image_name_is_accepted(value: Seq<char>)
    requires
        uploads::image_name_of(value).len() > 0,
    ensures
        builds::image_name_fault(uploads::image_name_of(value)) is None,
{
    let name = uploads::image_name_of(value);
    upload_laws::law_image_name_is_tidy(value);
    assert(upload_laws::is_image_char(name[0]));
    assert(upload_laws::is_image_char(name[name.len() - 1]));
    text_laws::lemma_trim_same(name);
    assert forall|i: int| 0 <= i < name.len() implies text::is_lower(#[trigger] name[i])
        || text::is_digit(name[i]) || name[i] == '-' || name[i] == '.' by {
        assert(upload_laws::is_image_char(name[i]));
    }
}

/// Hexadecimal digits are neither slashes nor dots.
proof fn lemma_hex_digits(id: nat, n: nat)
    ensures
        outside::hex_digits(id, n).len() == n,
        !outside::hex_digits(id, n).contains('/'),
        !outside::hex_digits(id, n).contains('.'),
    decreases n,
{
    if n > 0 {
        lemma_hex_digits(id / 16, (n - 1) as nat);
        let front = outside::hex_digits(id / 16, (n - 1) as nat);
        let all = outside::hex_digits(id, n);
        let d = outside::hex_digit(id % 16);
        assert(d != '/' && d != '.');
        assert forall|x: char| (x == '/' || x == '.') implies !all.contains(x) by {
            if all.contains(x) {
                let k = choose|k: int| 0 <= k < all.len() && all[k] == x;
                assert(front[k] == x);
                assert(front.contains(x));
            }
        }
    }
}

/// An identifier as text is one path segment.
pub proof fn lemma_uuid_is_segment(id: u128)
    ensures
        outside::uuid_text(id).len() == 36,
        path_safety::segments(outside::uuid_text(id)) == seq![outside::uuid_text(id)],
        outside::uuid_text(id) != path_safety::parent_segment(),
        !path_safety::is_absolute(outside::uuid_text(id)),
{
    let h = outside::hex_digits(id as nat, 32);
    let t = outside::uuid_text(id);
    lemma_hex_digits(id as nat, 32);
    assert(!t.contains('/')) by {
        if t.contains('/') {
            let k = choose|k: int| 0 <= k < t.len() && t[k] == '/';
            let j = if k < 8 {
                k
            } else if k < 13 {
                k - 1
            } else if k < 18 {
                k - 2
            } else if k < 23 {
                k - 3
            } else {
                k - 4
            };
            assert(k != 8 && k != 13 && k != 18 && k != 23);
            assert(h[j] == '/');
        }
    }
    assert(t.len() == 36);
    assert(seq!['.'].len() == 1);
    lemma_single_segment(t);
    assert(t[0] == h[0]);
    assert(t[0] != '/') by {
        if t[0] == '/' {
            assert(t.contains('/'));
        }
    }
}

/// An identifier as text does not end in a slash.
pub proof fn lemma_uuid_ends(id: u128)
    ensures
        outside::uuid_text(id).last() != '/',
{
    let h = outside::hex_digits(id as nat, 32);
    lemma_hex_digits(id as nat, 32);
    assert(outside::uuid_text(id).last() == h[31]);
    if h[31] == '/' {
        assert(h.contains('/'));
    }
}

/// A text without slashes that names something is its own only segment.
proof fn lemma_single_segment(s: Seq<char>)
    requires
        !s.contains('/'),
        path_safety::is_segment(s),
    ensures
        path_safety::segments(s) == seq![s],
{
    text_laws::lemma_split_single(s, '/');
    let none = Seq::<Seq<char>>::empty();
    reveal(Seq::filter);
    assert(none.filter(path_safety::segment_test()) =~= none);
    path_safety::lemma_filter_push(none, path_safety::segment_test(), s);
    assert(none.push(s) =~= seq![s]);
}

/// The directory that a build's archive is unpacked into can always be named,
/// and lies two levels below the root.
pub proof fn law_context_dir_is_confined(root: Seq<char>, build_id: u128)
    ensures
        ({
            let contexts = path_safety::joined_to_root(root, "local-build-contexts"@);
            let dir = local_build::context_dir(root, build_id);
            &&& contexts is Ok
            &&& path_safety::joined_to_root(contexts->Ok_0, outside::uuid_text(build_id)) == Ok::<
                Seq<char>,
                AppErrorView,
            >(dir)
            &&& path_safety::resolve(path_safety::segments(root)).is_prefix_of(
                path_safety::resolve(path_safety::segments(dir)),
            )
            &&& path_safety::resolve(path_safety::segments(dir)).len() == path_safety::resolve(
                path_safety::segments(root),
            ).len() + 2
        }),
{
    let name = "local-build-contexts"@;
    let id = outside::uuid_text(build_id);
    reveal_strlit("local-build-contexts");
    assert(!name.contains('/'));
    lemma_single_segment(name);
    lemma_uuid_is_segment(build_id);
    let steps = seq![name, id];
    assert(seq![name].drop_last() =~= Seq::<Seq<char>>::empty());
    assert(seq![id].drop_last() =~= Seq::<Seq<char>>::empty());
    assert(name != path_safety::parent_segment());
    assert(path_safety::depth(Seq::<Seq<char>>::empty()) == Some(0nat));
    assert(path_safety::depth(seq![name]) == Some(1nat));
    assert(path_safety::depth(seq![id]) == Some(1nat));
    let contexts = path_safety::join_path(root, name);
    let dir = local_build::context_dir(root, build_id);
    path_laws::lemma_join_segments(root, name);
    path_laws::lemma_join_segments(contexts, id);
    let base = path_safety::segments(root);
    assert(path_safety::segments(dir) =~= base + steps);
    assert(steps.drop_last() =~= seq![name]);
    assert(path_safety::depth(steps) == Some(2nat));
    path_laws::lemma_resolve_below(base, steps);
}

/// A joined path ends as what was joined to it.
proof fn lemma_join_suffix(base: Seq<char>, relative: Seq<char>)
    ensures
        relative.is_suffix_of(path_safety::join_path(base, relative)),
{
    let whole = path_safety::join_path(base, relative);
    assert(whole.subrange(whole.len() - relative.len(), whole.len() as int) =~= relative);
}

/// The archive of a bundle is accepted as a source archive: in local mode its
/// path on disk has an archive's name, and otherwise its address in storage
/// names the bucket and the object that a build takes it from.
pub proof fn law_bundle_archive_is_accepted(
    config: BuilderConfigView,
    lab_id: Option<Seq<char>>,
    bundle_id: u128,
)
    ensures
        ({
            let path = source_bundles::archive_of(
                config.bundle_root_dir,
                bundle_id,
            );
            local_build::file_check(path, Ok(true)) == Ok::<(), AppErrorView>(())
        }),
        ({
            let bucket = config.build_source_bucket;
            let address = source_bundles::gcs_path_of(bucket, lab_id, bundle_id);
            let object = source_bundles::object_of(lab_id, bundle_id);
            bucket.len() > 0 && !bucket.contains('/') && !config.local_mode ==> {
                &&& builds::archive_check(config, address) == Ok::<
                    Option<(Seq<char>, Seq<char>)>,
                    AppErrorView,
                >(None)
                &&& builds::source_of(address) == Ok::<(Seq<char>, Seq<char>), AppErrorView>(
                    (bucket, object),
                )
            }
        }),
{
    let dir = source_bundles::artifacts_of(config.bundle_root_dir, bundle_id);
    let path = source_bundles::archive_of(config.bundle_root_dir, bundle_id);
    lemma_join_suffix(dir, "source.tar.gz"@);
    reveal_strlit("source.tar.gz");
    reveal_strlit(".tar.gz");
    reveal_strlit(".gz");
    let n = path.len() as int;
    let tail = "source.tar.gz"@;
    assert(path.subrange(n - 13, n) == tail);
    assert forall|i: int| 0 <= i < 13 implies path[n - 13 + i] == #[trigger] tail[i] by {
        assert(path.subrange(n - 13, n)[i] == path[n - 13 + i]);
    }
    assert(path[n - 3] == tail[10] && path[n - 2] == tail[11] && path[n - 1] == tail[12]);
    assert(path.subrange(n - 3, n) =~= ".gz"@);
    let low = text::lower(path);
    assert(path[n - 7] == tail[6] && path[n - 6] == tail[7] && path[n - 5] == tail[8] && path[n - 4]
        == tail[9]);
    assert(low.subrange(n - 7, n) =~= ".tar.gz"@);
    let bucket = config.build_source_bucket;
    if bucket.len() > 0 && !bucket.contains('/') {
        bundle_laws::law_suggested_path_names_bucket_and_object(bucket, lab_id, bundle_id);
        let address = source_bundles::gcs_path_of(bucket, lab_id, bundle_id);
        assert(gcs::has_scheme(address));
        reveal_strlit("gs://");
        assert(text::trim(address).len() > 0);
    }
}

/// A prefix of a prefix is a prefix.
proof fn lemma_within_trans(path: Seq<char>, middle: Seq<char>, root: Seq<char>)
    requires
        path_safety::is_within(path, middle),
        path_safety::is_within(middle, root),
    ensures
        path_safety::is_within(path, root),
{
    let p = path_safety::components(path);
    let m = path_safety::components(middle);
    let r = path_safety::components(root);
    assert(p.subrange(0, r.len() as int) =~= r) by {
        assert forall|i: int| 0 <= i < r.len() implies p[i] == r[i] by {
            assert(p.subrange(0, m.len() as int)[i] == p[i]);
            assert(m.subrange(0, r.len() as int)[i] == m[i]);
        }
    }
}

/// In local mode a build accepts the archive that its bundle was packed into,
/// where the root directory is absolute and in its canonical form and the
/// archive is there.
pub proof fn law_bundle_archive_can_be_built_locally(
    config: BuilderConfigView,
    bundle_id: u128,
    finding: FindingView,
)
    requires
        config.local_mode,
        path_safety::builder_root(config.bundle_root_dir) == Ok::<Seq<char>, AppErrorView>(
            config.bundle_root_dir,
        ),
        finding.root == Ok::<Seq<char>, AppErrorView>(config.bundle_root_dir),
        finding.canonical == Ok::<Seq<char>, Seq<char>>(
            source_bundles::archive_of(config.bundle_root_dir, bundle_id),
        ),
        finding.is_file == Ok::<bool, Seq<char>>(true),
    ensures
        builds::archive_fault(
            config,
            source_bundles::archive_of(config.bundle_root_dir, bundle_id),
            finding,
        ) is None,
{
    let root = config.bundle_root_dir;
    let id = outside::uuid_text(bundle_id);
    let bundle = source_bundles::bundle_dir(root, bundle_id);
    let dir = source_bundles::artifacts_of(root, bundle_id);
    let path = source_bundles::archive_of(root, bundle_id);
    lemma_uuid_is_segment(bundle_id);
    reveal_strlit("artifacts");
    reveal_strlit("source.tar.gz");
    reveal_strlit("gs://");
    path_laws::law_join_stays_within(root, id);
    path_laws::law_join_stays_within(bundle, "artifacts"@);
    path_laws::law_join_stays_within(dir, "source.tar.gz"@);
    lemma_within_trans(dir, bundle, root);
    lemma_within_trans(path, dir, root);
    law_bundle_archive_is_accepted(config, None, bundle_id);
    assert(bundle[0] == '/');
    assert(dir[0] == '/');
    assert(path[0] == '/');
    assert(path.last() == 'z');
    text_laws::lemma_trim_same(path);
    assert(!gcs::has_scheme(path)) by {
        if gcs::has_scheme(path) {
            assert(path.subrange(0, 5)[0] == path[0]);
        }
    }
}

/// Where builds are submitted to depends on nothing but the project and the
/// region: the address is that of the Cloud Build API over HTTPS, its path has
/// exactly six segments, of which project and region are the third and the
/// fifth, and behind the question mark stands nothing but the project. White
/// space at the ends of the names changes none of this.
pub proof fn law_submit_url_has_six_segments(project_id: Seq<char>, region: Seq<char>)
    requires
        cloud_build::project_id_fault(project_id) is None,
        cloud_build::region_fault(region) is None,
    ensures
        ({
            let segs = cloud_build::builds_segments(project_id, region);
            let path = outside::path_text(segs);
            let query = outside::query_text(seq![("projectId"@, project_id)]);
            &&& cloud_build::submit_url(project_id, region) == ("https://"@
                + "cloudbuild.googleapis.com"@).push('/') + path.push('?') + query
            &&& text::split(path, '/') == seq![
                "v1"@,
                "projects"@,
                outside::segment_text(project_id),
                "locations"@,
                outside::segment_text(region),
                "builds"@,
            ]
            &&& !path.contains('?')
            &&& !path.contains('#')
            &&& outside::segment_text(project_id).len() > 0
            &&& outside::segment_text(region).len() > 0
        }),
{
    let segs = cloud_build::builds_segments(project_id, region);
    let path = outside::path_text(segs);
    let query = outside::query_text(seq![("projectId"@, project_id)]);
    let host = ("https://"@ + "cloudbuild.googleapis.com"@).push('/');
    lemma_base_is_host();
    assert((host + path).push('?') + query =~= host + path.push('?') + query);
    url_text::law_path_has_its_segments(segs);
    lemma_fixed_segments();
    assert(outside::segment_texts(segs) =~= seq![
        "v1"@,
        "projects"@,
        outside::segment_text(project_id),
        "locations"@,
        outside::segment_text(region),
        "builds"@,
    ]);
    cloud_build::lemma_names_show(project_id, region);
}

/// The base of the API is its host over HTTPS.
proof fn lemma_base_is_host()
    ensures
        outside::cloud_build_base() == ("https://"@ + "cloudbuild.googleapis.com"@).push('/'),
{
    reveal_strlit("https://cloudbuild.googleapis.com/");
    reveal_strlit("https://");
    reveal_strlit("cloudbuild.googleapis.com");
    assert(outside::cloud_build_base() =~= ("https://"@ + "cloudbuild.googleapis.com"@).push('/'));
}

/// The fixed segments stand in an address as they are.
proof fn lemma_fixed_segments()
    ensures
        outside::segment_text("v1"@) == "v1"@,
        outside::segment_text("projects"@) == "projects"@,
        outside::segment_text("locations"@) == "locations"@,
        outside::segment_text("builds"@) == "builds"@,
{
    reveal_strlit("v1");
    reveal_strlit("projects");
    reveal_strlit("locations");
    reveal_strlit("builds");
    url_text::law_plain_text_stands_as_it_is("v1"@);
    url_text::law_plain_text_stands_as_it_is("projects"@);
    url_text::law_plain_text_stands_as_it_is("locations"@);
    url_text::law_plain_text_stands_as_it_is("builds"@);
}

/// A valid project identifier and region without white space at their ends stand
/// in the address as they are.
pub proof fn law_valid_names_stand_plainly(project_id: Seq<char>, region: Seq<char>)
    requires
        cloud_build::project_id_fault(project_id) is None,
        cloud_build::region_fault(region) is None,
        text::trim(project_id) == project_id,
        text::trim(region) == region,
    ensures
        outside::segment_text(project_id) == project_id,
        outside::segment_text(region) == region,
        outside::query_text(seq![("projectId"@, project_id)]) == "projectId"@.push('=')
            + project_id,
{
    assert forall|i: int| 0 <= i < project_id.len() implies url_text::is_plain_char(
        #[trigger] project_id[i],
    ) by {}
    assert forall|i: int| 0 <= i < region.len() implies url_text::is_plain_char(
        #[trigger] region[i],
    ) by {}
    reveal_strlit("projectId");
    url_text::law_plain_text_stands_as_it_is(project_id);
    url_text::law_plain_text_stands_as_it_is(region);
    url_text::law_plain_text_stands_as_it_is("projectId"@);
    let f = |p: (Seq<char>, Seq<char>)| outside::pair_text(p);
    assert(seq![("projectId"@, project_id)].map_values(f) =~= seq![
        outside::pair_text(("projectId"@, project_id)),
    ]);
}

/// A text in a log line is never longer than its bound and the dots behind it.
pub proof fn law_log_text_is_short(value: Seq<char>)
    requires
        cloud_messages::fits_log(value),
    ensures
        utf8::encode_utf8(cloud_messages::log_text(value)).len() <= cloud_messages::MAX_LOG_BYTES
            + 3,
{
    let t = text::trim(value);
    let bytes = utf8::encode_utf8(t);
    if bytes.len() > cloud_messages::MAX_LOG_BYTES {
        let head = bytes.take(cloud_messages::MAX_LOG_BYTES as int);
        assert(head =~= bytes.subrange(0, cloud_messages::MAX_LOG_BYTES as int));
        utf8::encode_utf8_valid_utf8(t);
        utf8::valid_utf8_split(bytes, cloud_messages::MAX_LOG_BYTES as int);
        utf8::decode_utf8_encode_utf8(head);
        lemma_encode_concat(utf8::decode_utf8(head), "..."@);
        reveal_strlit("...");
        lemma_encode_dots("..."@);
    }
}

/// A text that was cut for a log line is not cut further: it fits and stays as
/// it is.
pub proof fn law_cutting_twice_changes_nothing(value: Seq<char>)
    requires
        cloud_messages::fits_log(value),
    ensures
        cloud_messages::fits_log(cloud_messages::log_text(value)),
        cloud_messages::log_text(cloud_messages::log_text(value)) == cloud_messages::log_text(
            value,
        ),
{
    let n = cloud_messages::MAX_LOG_BYTES as int;
    let t = text::trim(value);
    let bytes = utf8::encode_utf8(t);
    text_laws::lemma_trim(value);
    if bytes.len() > n {
        let head = bytes.subrange(0, n);
        assert(bytes.take(n) =~= head);
        utf8::encode_utf8_valid_utf8(t);
        utf8::encode_utf8_decode_utf8(t);
        utf8::valid_utf8_split(bytes, n);
        utf8::decode_utf8_split(bytes, n);
        utf8::decode_utf8_encode_utf8(head);
        let shown = utf8::decode_utf8(head);
        let rest = utf8::decode_utf8(bytes.subrange(n, bytes.len() as int));
        assert(t =~= shown + rest);
        assert(shown.len() > 0);
        assert(shown[0] == t[0]);
        reveal_strlit("...");
        let out = shown + "..."@;
        assert(out.last() == '.');
        text_laws::lemma_trim_same(out);
        lemma_encode_concat(shown, "..."@);
        assert(utf8::is_ascii_chars("..."@));
        utf8::is_ascii_chars_encode_utf8("..."@);
        let longer = utf8::encode_utf8(out);
        assert(longer.len() == n + 3);
        assert(longer[n] == utf8::encode_utf8("..."@)[0]);
        assert("..."@[0] == '.');
        assert(longer[n] == '.' as u8);
        utf8::encode_utf8_valid_utf8(out);
        utf8::is_char_boundary_iff_is_leading_byte(longer, n);
        assert(utf8::is_leading_byte_width_1(longer[n]));
        assert(longer.take(n) =~= head);
    }
}

/// Encoding two texts in a row is encoding each.
proof fn lemma_encode_concat(a: Seq<char>, b: Seq<char>)
    ensures
        utf8::encode_utf8(a + b) == utf8::encode_utf8(a) + utf8::encode_utf8(b),
    decreases a.len(),
{
    if a.len() == 0 {
        assert(a + b =~= b);
        assert(utf8::encode_utf8(a) =~= Seq::<u8>::empty());
        assert(utf8::encode_utf8(a) + utf8::encode_utf8(b) =~= utf8::encode_utf8(b));
    } else {
        assert((a + b).drop_first() =~= a.drop_first() + b);
        lemma_encode_concat(a.drop_first(), b);
        assert(utf8::encode_utf8(a + b) =~= utf8::encode_utf8(a) + utf8::encode_utf8(b));
    }
}

/// Dots take one byte each.
proof fn lemma_encode_dots(s: Seq<char>)
    requires
        forall|i: int| 0 <= i < s.len() ==> #[trigger] s[i] == '.',
    ensures
        utf8::encode_utf8(s).len() == s.len(),
    decreases s.len(),
{
    if s.len() > 0 {
        assert forall|i: int| 0 <= i < s.drop_first().len() implies #[trigger] s.drop_first()[i]
            == '.' by {
            assert(s.drop_first()[i] == s[i + 1]);
        }
        lemma_encode_dots(s.drop_first());
    }
}

/// An entry of an archive: its kind and its size.
pub struct EntryView {
    pub kind: EntryKind,
    pub size: u64,
}

/// How many bytes entries have together.
pub open spec fn entries_size(entries: Seq<EntryView>) -> nat
    decreases entries.len(),
{
    if entries.len() == 0 {
        0
    } else {
        entries_size(entries.drop_last()) + entries.last().size as nat
    }
}

/// The guard after all entries, or why one of them is refused.
pub open spec fn after_entries(config: BuilderConfigView, entries: Seq<EntryView>) -> Result<
    ArchiveGuard,
    AppErrorView,
>
    decreases entries.len(),
{
    if entries.len() == 0 {
        Ok(ArchiveGuard { entries: 0, bytes: 0 })
    } else {
        match after_entries(config, entries.drop_last()) {
            Ok(guard) => guard.after_entry(config, entries.last().kind, entries.last().size),
            Err(e) => Err(e),
        }
    }
}

/// An archive is unpacked whole exactly where all its entries are files or
/// directories and neither their number nor their size together breaks a limit.
pub proof fn law_archive_is_unpacked_within_limits(
    config: BuilderConfigView,
    entries: Seq<EntryView>,
)
    ensures
        after_entries(config, entries) is Ok <==> {
            &&& entries.len() <= config.max_archive_entries
            &&& entries_size(entries) <= config.max_archive_uncompressed_bytes
            &&& forall|i: int| 0 <= i < entries.len() ==> (#[trigger] entries[i]).kind.is_supported()
        },
        after_entries(config, entries) matches Ok(guard) ==> guard.entries == entries.len()
            && guard.bytes == entries_size(entries),
    decreases entries.len(),
{
    if entries.len() > 0 {
        let front = entries.drop_last();
        law_archive_is_unpacked_within_limits(config, front);
        assert(entries.last() == entries[entries.len() - 1]);
        if after_entries(config, entries) is Ok {
            assert forall|i: int| 0 <= i < entries.len() implies (
            #[trigger] entries[i]).kind.is_supported() by {
                if i < front.len() {
                    assert(front[i] == entries[i]);
                }
            }
        } else if entries.len() <= config.max_archive_entries && entries_size(entries)
            <= config.max_archive_uncompressed_bytes && (forall|i: int|
            0 <= i < entries.len() ==> (#[trigger] entries[i]).kind.is_supported()) {
            assert forall|i: int| 0 <= i < front.len() implies (
            #[trigger] front[i]).kind.is_supported() by {
                assert(front[i] == entries[i]);
            }
            assert(false);
        }
    }
}

/// Something that happens in a running service and may store a job.
pub enum BuildEvent {
    /// A build in the cloud was polled.
    Polled(TrackerView, Result<PollView, AppErrorView>),
    /// A build on this machine was begun.
    LocalStarted(BuilderConfigView, BuildJobView),
    /// A stage of a build on this machine came to an end.
    LocalStage(BuilderConfigView, BuildJobView, LocalStage, Result<Seq<char>, AppErrorView>),
    /// Cloud Build answered to a build request.
    Answered(BuildJobView, u16, Seq<char>, cloud_messages::CloudBuildOperation),
    /// A build that ran in the background failed.
    Failed(BuildJobView, AppErrorView),
    /// A job was stored as it is.
    Stored(BuildJobView),
}

impl BuildEvent {
    /// The job that the event is about, as it was before.
    pub open spec fn subject(self) -> BuildJobView {
        match self {
            BuildEvent::Polled(tracker, _) => tracker.job,
            BuildEvent::LocalStarted(_, job) => job,
            BuildEvent::LocalStage(_, job, _, _) => job,
            BuildEvent::Answered(job, _, _, _) => job,
            BuildEvent::Failed(job, _) => job,
            BuildEvent::Stored(job) => job,
        }
    }

    /// The job that the event has stored, if any.
    pub open spec fn stores(self) -> Option<BuildJobView> {
        match self {
            BuildEvent::Polled(tracker, poll) => match tracker.step(poll) {
                TrackStepView::Running(next) => Some(next.job),
                TrackStepView::Finished(job) => Some(job),
                _ => None,
            },
            BuildEvent::LocalStarted(config, job) => match local_build::local_start(config, job) {
                LocalStepView::Finished(done) => Some(done),
                _ => None,
            },
            BuildEvent::LocalStage(config, job, stage, outcome) => match local_build::local_next(
                config,
                job,
                stage,
                outcome,
            ) {
                LocalStepView::Finished(done) => Some(done),
                _ => None,
            },
            BuildEvent::Answered(job, status, status_text, operation) => match builds::submitted(
                job,
                status,
                status_text,
                operation,
            ) {
                Ok(done) => Some(done),
                Err(_) => None,
            },
            BuildEvent::Failed(job, e) => Some(builds::outcome_of(job, Err(e))),
            BuildEvent::Stored(job) => Some(job),
        }
    }
}

/// The stored jobs after an event.
pub open spec fn after_event(jobs: Map<u128, BuildJobView>, event: BuildEvent) -> Map<
    u128,
    BuildJobView,
> {
    match event.stores() {
        Some(job) => jobs.insert(job.build_id, job),
        None => jobs,
    }
}

/// The stored jobs after a run of events.
pub open spec fn after_run(jobs: Map<u128, BuildJobView>, events: Seq<BuildEvent>) -> Map<
    u128,
    BuildJobView,
>
    decreases events.len(),
{
    if events.len() == 0 {
        jobs
    } else {
        after_event(after_run(jobs, events.drop_last()), events.last())
    }
}

/// A job's own events are about the build that was created; all others are
/// about jobs with other identifiers.
pub open spec fn concerns(events: Seq<BuildEvent>, job: BuildJobView) -> bool {
    forall|i: int|
        0 <= i < events.len() ==> {
            ||| (#[trigger] events[i]).subject().same_build(job)
            ||| events[i].subject().build_id != job.build_id
        }
}

/// Whether the job is stored, under its identifier and as the build that was
/// created.
pub open spec fn holds_build(jobs: Map<u128, BuildJobView>, job: BuildJobView) -> bool {
    jobs.contains_key(job.build_id) && jobs[job.build_id].same_build(job)
}

/// An event stores the build that it is about.
proof fn lemma_event_keeps_the_build(event: BuildEvent)
    ensures
        event.stores() matches Some(job) ==> job.same_build(event.subject()) && job.build_id
            == event.subject().build_id,
{
}

/// A created build is read back after any run of later events: once the job is
/// stored, polls, stages, answers and failures of its build, and whatever
/// happens to other jobs, leave under its identifier the build that was created.
/// Only how far it has come may differ.
pub proof fn law_created_build_is_read_back(
    before: Map<u128, BuildJobView>,
    job: BuildJobView,
    events: Seq<BuildEvent>,
)
    requires
        holds_build(before, job),
        concerns(events, job),
    ensures
        holds_build(after_run(before, events), job),
        ({
            let now = after_run(before, events)[job.build_id];
            &&& now.build_id == job.build_id
            &&& now.lab_id == job.lab_id
            &&& now.requested_by == job.requested_by
            &&& now.image_name == job.image_name
            &&& now.image_tag == job.image_tag
            &&& now.template_path == job.template_path
            &&& now.source_archive_path == job.source_archive_path
            &&& now.created_at == job.created_at
        }),
    decreases events.len(),
{
    if events.len() > 0 {
        let front = events.drop_last();
        assert(concerns(front, job)) by {
            assert forall|i: int| 0 <= i < front.len() implies {
                ||| (#[trigger] front[i]).subject().same_build(job)
                ||| front[i].subject().build_id != job.build_id
            } by {
                assert(front[i] == events[i]);
            }
        }
        law_created_build_is_read_back(before, job, front);
        let last = events[events.len() - 1];
        assert(last.subject().same_build(job) || last.subject().build_id != job.build_id);
        lemma_event_keeps_the_build(last);
    }
}

/// A build in the cloud is stored with the answer to its request, and read back
/// from then on: the job that came out of `create_build`, whatever happened
/// before the answer and happens after it.
pub proof fn law_submitted_build_is_read_back(
    before: Map<u128, BuildJobView>,
    job: BuildJobView,
    answer: BuildEvent,
    events: Seq<BuildEvent>,
)
    requires
        answer is Answered,
        answer.subject() == job,
        answer.stores() is Some,
        concerns(events, job),
    ensures
        holds_build(after_run(after_event(before, answer), events), job),
{
    lemma_event_keeps_the_build(answer);
    law_created_build_is_read_back(after_event(before, answer), job, events);
}

/// An identifier that no event stores anything under is as unknown, or as known,
/// as it was before.
pub proof fn law_other_identifiers_stay(
    before: Map<u128, BuildJobView>,
    build_id: u128,
    events: Seq<BuildEvent>,
)
    requires
        forall|i: int|
            0 <= i < events.len() ==> (#[trigger] events[i]).subject().build_id != build_id,
    ensures
        after_run(before, events).contains_key(build_id) == before.contains_key(build_id),
        before.contains_key(build_id) ==> after_run(before, events)[build_id] == before[build_id],
    decreases events.len(),
{
    if events.len() > 0 {
        let front = events.drop_last();
        assert forall|i: int| 0 <= i < front.len() implies (#[trigger] front[i]).subject().build_id
            != build_id by {
            assert(front[i] == events[i]);
        }
        law_other_identifiers_stay(before, build_id, front);
        let last = events[events.len() - 1];
        assert(last.subject().build_id != build_id);
        lemma_event_keeps_the_build(last);
    }
}

} // verus!
