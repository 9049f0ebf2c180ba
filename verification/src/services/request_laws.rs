//! What a request to Cloud Build holds, said member by member, and which names
//! of projects, regions and resources are accepted for it.

use crate::error::{AppError, AppErrorView};
use crate::json;
use crate::json::{Json, JsonView};
use crate::models::build_job::{BuildJobView, CreateBuildRequestView, Timestamp};
use crate::models::state::BuilderConfigView;
use crate::outside;
use crate::services::builds;
use crate::services::cloud_build;
use crate::services::cloud_messages;
use crate::services::cloud_messages::{CloudBuildApiError, CloudBuildOperation};
use crate::text;
use crate::text_laws;
use vstd::prelude::*;
use vstd::string::*;
use vstd::utf8;

verus! {

/// The keys of a request are different from one another.
proof fn lemma_request_keys_differ()
    ensures
        "source"@.len() == 6,
        "steps"@.len() == 5,
        "images"@.len() == 6,
        "timeout"@.len() == 7,
        "options"@.len() == 7,
        "tags"@.len() == 4,
        "serviceAccount"@.len() == 14,
        "logsBucket"@.len() == 10,
        "source"@[0] == 's',
        "images"@[0] == 'i',
        "timeout"@[0] == 't',
        "options"@[0] == 'o',
{
    reveal_strlit("source");
    reveal_strlit("steps");
    reveal_strlit("images");
    reveal_strlit("timeout");
    reveal_strlit("options");
    reveal_strlit("tags");
    reveal_strlit("serviceAccount");
    reveal_strlit("logsBucket");
}

/// The keys inside a request are different from one another.
proof fn lemma_inner_keys_differ()
    ensures
        "name"@ != "args"@,
        "bucket"@ != "object"@,
{
    reveal_strlit("name");
    reveal_strlit("args");
    reveal_strlit("bucket");
    reveal_strlit("object");
    assert("name"@[0] == 'n' && "args"@[0] == 'a');
    assert("bucket"@[0] == 'b' && "object"@[0] == 'o');
}

/// The members that every request has stand in it whatever else it has.
proof fn lemma_request_member(
    config: BuilderConfigView,
    job: BuildJobView,
    bucket: Seq<char>,
    object: Seq<char>,
    i: int,
)
    requires
        0 <= i < 6,
    ensures
        cloud_messages::request_json(config, job, bucket, object).member(
            cloud_messages::request_members(config, job, bucket, object)[i].0,
        ) == Some(cloud_messages::request_members(config, job, bucket, object)[i].1),
{
    lemma_request_keys_differ();
    let members = cloud_messages::request_members(config, job, bucket, object);
    let account = cloud_messages::account_name(
        config.gcp_project_id,
        config.cloud_build_service_account,
    );
    let all = cloud_messages::with_optional(
        cloud_messages::with_optional(members, "serviceAccount"@, account),
        "logsBucket"@,
        config.cloud_build_logs_bucket,
    );
    assert(all[i] == members[i]);
    assert forall|j: int| 0 <= j < i implies (#[trigger] all[j]).0 != members[i].0 by {
        assert(all[j] == members[j]);
    }
    json::law_first_member_counts(all, members[i].0, i);
}

/// The images of a build request are exactly two: the job's versioned image and
/// its latest image.
pub proof fn law_request_pushes_both_images(
    config: BuilderConfigView,
    job: BuildJobView,
    bucket: Seq<char>,
    object: Seq<char>,
)
    ensures
        cloud_messages::request_json(config, job, bucket, object).member("images"@) matches Some(
            JsonView::Array(images),
        ) && images == seq![
            JsonView::Text(job.versioned_image_uri),
            JsonView::Text(job.latest_image_uri),
        ],
{
    lemma_request_member(config, job, bucket, object, 2);
    let texts = seq![job.versioned_image_uri, job.latest_image_uri];
    assert(texts.map_values(|s: Seq<char>| JsonView::Text(s)) =~= seq![
        JsonView::Text(job.versioned_image_uri),
        JsonView::Text(job.latest_image_uri),
    ]);
}

/// A build request has one step. It runs docker to build the job's Dockerfile in
/// the unpacked source, and nothing else.
pub proof fn law_request_has_one_docker_step(
    config: BuilderConfigView,
    job: BuildJobView,
    bucket: Seq<char>,
    object: Seq<char>,
)
    ensures
        cloud_messages::request_json(config, job, bucket, object).member("steps"@) matches Some(
            JsonView::Array(steps),
        ) && steps.len() == 1 && steps[0].member("name"@) == Some(
            JsonView::Text("gcr.io/cloud-builders/docker"@),
        ) && (steps[0].member("args"@) matches Some(JsonView::Array(args)) && {
            &&& args.len() == 8
            &&& args[0] == JsonView::Text("build"@)
            &&& args[1] == JsonView::Text("-f"@)
            &&& args[2] == JsonView::Text(job.dockerfile_path)
            &&& args[3] == JsonView::Text("-t"@)
            &&& args[4] == JsonView::Text(job.versioned_image_uri)
            &&& args[5] == JsonView::Text("-t"@)
            &&& args[6] == JsonView::Text(job.latest_image_uri)
            &&& args[7] == JsonView::Text("."@)
        }),
{
    lemma_request_member(config, job, bucket, object, 1);
    lemma_inner_keys_differ();
    let step = cloud_messages::step_json(job);
    let members = step->Object_0;
    assert(members.len() == 2);
    json::law_first_member_counts(members, "name"@, 0);
    json::law_first_member_counts(members, "args"@, 1);
}

/// What a build request tags in its docker step is what it pushes: each image is
/// an argument that follows a `-t`, and each argument that follows a `-t` is an
/// image.
pub proof fn law_request_pushes_what_it_tags(
    config: BuilderConfigView,
    job: BuildJobView,
    bucket: Seq<char>,
    object: Seq<char>,
    steps: Seq<JsonView>,
    args: Seq<JsonView>,
    images: Seq<JsonView>,
)
    requires
        cloud_messages::request_json(config, job, bucket, object).member("steps"@) == Some(
            JsonView::Array(steps),
        ),
        steps[0].member("args"@) == Some(JsonView::Array(args)),
        cloud_messages::request_json(config, job, bucket, object).member("images"@) == Some(
            JsonView::Array(images),
        ),
        job.dockerfile_path != "-t"@,
        job.versioned_image_uri != "-t"@,
        job.latest_image_uri != "-t"@,
    ensures
        forall|k: int|
            0 <= k < images.len() ==> exists|i: int|
                #![trigger args[i]]
                0 <= i < args.len() - 1 && args[i] == JsonView::Text("-t"@) && args[i + 1]
                    == #[trigger] images[k],
        forall|i: int|
            0 <= i < args.len() - 1 && #[trigger] args[i] == JsonView::Text("-t"@)
                ==> images.contains(args[i + 1]),
{
    law_request_has_one_docker_step(config, job, bucket, object);
    law_request_pushes_both_images(config, job, bucket, object);
    reveal_strlit("-t");
    reveal_strlit("-f");
    reveal_strlit("build");
    assert("-f"@[1] == 'f' && "-t"@[1] == 't');
    assert(args[3] == JsonView::Text("-t"@) && args[3int + 1] == images[0]);
    assert(args[5] == JsonView::Text("-t"@) && args[5int + 1] == images[1]);
    assert(images.contains(images[0]) && images.contains(images[1]));
    assert forall|i: int|
        0 <= i < args.len() - 1 && #[trigger] args[i] == JsonView::Text("-t"@) implies images.contains(
        args[i + 1],
    ) by {
        assert(i == 0 || i == 1 || i == 2 || i == 3 || i == 4 || i == 5 || i == 6);
    }
}

/// In remote mode the template path of a new job is one of the images that the
/// request for it pushes: what is started later is what was built.
pub proof fn law_template_is_pushed(
    config: BuilderConfigView,
    request: CreateBuildRequestView,
    build_id: u128,
    created_at: Timestamp,
    bucket: Seq<char>,
    object: Seq<char>,
)
    requires
        !config.local_mode,
    ensures
        ({
            let job = builds::new_job(config, request, build_id, created_at);
            cloud_messages::request_json(config, job, bucket, object).member("images"@) matches Some(
                JsonView::Array(images),
            ) && images.contains(JsonView::Text(job.template_path))
        }),
{
    let job = builds::new_job(config, request, build_id, created_at);
    law_request_pushes_both_images(config, job, bucket, object);
    let images = cloud_messages::request_json(config, job, bucket, object).member(
        "images"@,
    )->0->Array_0;
    assert(images[0] == JsonView::Text(job.template_path));
}

/// A build request takes its source from the given object of the given bucket.
pub proof fn law_request_takes_its_source_from_the_bucket(
    config: BuilderConfigView,
    job: BuildJobView,
    bucket: Seq<char>,
    object: Seq<char>,
)
    ensures
        cloud_messages::request_json(config, job, bucket, object).member("source"@) matches Some(
            source,
        ) && (source.member("storageSource"@) matches Some(place) && place.member("bucket"@)
            == Some(JsonView::Text(bucket)) && place.member("object"@) == Some(
            JsonView::Text(object),
        )),
{
    lemma_request_member(config, job, bucket, object, 0);
    lemma_inner_keys_differ();
    let source = cloud_messages::source_json(bucket, object)->Object_0;
    json::law_first_member_counts(source, "storageSource"@, 0);
    let place = source[0].1->Object_0;
    json::law_first_member_counts(place, "bucket"@, 0);
    json::law_first_member_counts(place, "object"@, 1);
}

/// A build request asks for the configured time, in seconds, for logs in Cloud
/// Logging only, and for three tags, of which the last is the image's name.
pub proof fn law_request_sets_time_logs_and_tags(
    config: BuilderConfigView,
    job: BuildJobView,
    bucket: Seq<char>,
    object: Seq<char>,
)
    ensures
        ({
            let request = cloud_messages::request_json(config, job, bucket, object);
            &&& request.member("timeout"@) matches Some(JsonView::Text(time)) && time.len() > 1
                && time.last() == 's' && text::all_digits(time.drop_last()) && text::digits_value(
                time.drop_last(),
            ) == config.cloud_build_timeout_seconds
            &&& request.member("options"@) matches Some(options) && options.member("logging"@)
                == Some(JsonView::Text("CLOUD_LOGGING_ONLY"@))
            &&& request.member("tags"@) matches Some(JsonView::Array(tags)) && tags == seq![
                JsonView::Text("altair"@),
                JsonView::Text("lab-builder"@),
                JsonView::Text(job.image_name),
            ]
        }),
{
    lemma_request_member(config, job, bucket, object, 3);
    lemma_request_member(config, job, bucket, object, 4);
    lemma_request_member(config, job, bucket, object, 5);
    let digits = text::decimal(config.cloud_build_timeout_seconds as nat);
    text_laws::law_decimal_is_read_back(config.cloud_build_timeout_seconds as nat);
    reveal_strlit("s");
    assert((digits + "s"@).drop_last() =~= digits);
    let options = seq![("logging"@, JsonView::Text("CLOUD_LOGGING_ONLY"@))];
    json::law_first_member_counts(options, "logging"@, 0);
    let texts = seq!["altair"@, "lab-builder"@, job.image_name];
    assert(texts.map_values(|s: Seq<char>| JsonView::Text(s)) =~= seq![
        JsonView::Text("altair"@),
        JsonView::Text("lab-builder"@),
        JsonView::Text(job.image_name),
    ]);
}

/// A build request names a service account exactly when one is configured that
/// is not blank, and a bucket for logs exactly when one is configured.
pub proof fn law_request_names_what_is_configured(
    config: BuilderConfigView,
    job: BuildJobView,
    bucket: Seq<char>,
    object: Seq<char>,
)
    ensures
        ({
            let request = cloud_messages::request_json(config, job, bucket, object);
            &&& config.cloud_build_logs_bucket matches Some(logs) ==> request.member("logsBucket"@)
                == Some(JsonView::Text(logs))
            &&& config.cloud_build_logs_bucket is None ==> request.member("logsBucket"@) is None
            &&& config.cloud_build_service_account is None ==> request.member("serviceAccount"@)
                is None
            &&& config.cloud_build_service_account matches Some(account) ==> {
                let name = text::trim(account);
                &&& name.len() == 0 ==> request.member("serviceAccount"@) is None
                &&& name.len() > 0 && "projects/"@.is_prefix_of(name) ==> request.member(
                    "serviceAccount"@,
                ) == Some(JsonView::Text(name))
                &&& name.len() > 0 && !"projects/"@.is_prefix_of(name) ==> request.member(
                    "serviceAccount"@,
                ) == Some(
                    JsonView::Text(
                        "projects/"@ + config.gcp_project_id + "/serviceAccounts/"@ + name,
                    ),
                )
            }
        }),
{
    lemma_request_keys_differ();
    let members = cloud_messages::request_members(config, job, bucket, object);
    let account = cloud_messages::account_name(
        config.gcp_project_id,
        config.cloud_build_service_account,
    );
    let more = cloud_messages::with_optional(members, "serviceAccount"@, account);
    let all = cloud_messages::with_optional(more, "logsBucket"@, config.cloud_build_logs_bucket);
    assert forall|j: int| 0 <= j < 6 implies (#[trigger] all[j]).0 == members[j].0 by {}
    if account is Some {
        assert(all[6].0 == "serviceAccount"@);
        json::law_first_member_counts(all, "serviceAccount"@, 6);
    } else {
        json::law_missing_member(all, "serviceAccount"@);
    }
    if config.cloud_build_logs_bucket is Some {
        json::law_first_member_counts(all, "logsBucket"@, all.len() - 1);
    } else {
        json::law_missing_member(all, "logsBucket"@);
    }
}

/// The account that a name stands for stands for itself: completing a name twice
/// is completing it once.
pub proof fn law_account_is_completed_once(project_id: Seq<char>, value: Seq<char>)
    requires
        text::trim(value).len() > 0,
    ensures
        cloud_messages::account_name(project_id, Some(value)) matches Some(name)
            && cloud_messages::account_name(project_id, Some(name)) == Some(name)
            && "projects/"@.is_prefix_of(name),
{
    text_laws::lemma_trim(value);
    let t = text::trim(value);
    reveal_strlit("projects/");
    reveal_strlit("/serviceAccounts/");
    if !"projects/"@.is_prefix_of(t) {
        let name = "projects/"@ + project_id + "/serviceAccounts/"@ + t;
        assert(name[0] == 'p');
        assert(name.last() == t.last());
        text_laws::lemma_trim_same(name);
        assert("projects/"@.is_prefix_of(name)) by {
            assert(name.subrange(0, "projects/"@.len() as int) =~= "projects/"@);
        }
    } else {
        text_laws::lemma_trim_same(t);
    }
}

/// A project is accepted exactly when its name, without white space at its ends,
/// has six to thirty bytes, all of them small letters, digits and hyphens, a
/// letter first and no hyphen last.
pub proof fn law_accepted_project(value: Seq<char>)
    ensures
        ({
            let id = text::trim(value);
            cloud_build::project_id_fault(value) is None <==> {
                &&& id.len() > 0
                &&& 6 <= utf8::encode_utf8(id).len() <= 30
                &&& forall|i: int|
                    0 <= i < id.len() ==> 'a' <= #[trigger] id[i] <= 'z' || '0' <= id[i] <= '9'
                        || id[i] == '-'
                &&& 'a' <= id[0] <= 'z'
                &&& id.last() != '-'
            }
        }),
{
    let id = text::trim(value);
    if id.len() > 0 {
        assert(id.last() == id[id.len() - 1]);
    }
}

/// A refused project is told the first thing that is wrong with it.
pub proof fn law_project_fault_tells_why(value: Seq<char>)
    ensures
        ({
            let id = text::trim(value);
            let n = utf8::encode_utf8(id).len();
            let fault = cloud_build::project_id_fault(value);
            &&& id.len() == 0 ==> fault == Some("GCP project id must not be empty"@)
            &&& id.len() > 0 && (n < 6 || n > 30) ==> fault == Some(
                "GCP project id must be between 6 and 30 characters"@,
            )
            &&& id.len() > 0 && 6 <= n <= 30 && (exists|i: int|
                0 <= i < id.len() && !text::is_lower(#[trigger] id[i]) && !text::is_digit(id[i])
                    && id[i] != '-') ==> fault == Some(
                "GCP project id contains forbidden characters"@,
            )
            &&& id.len() > 0 && 6 <= n <= 30 && cloud_build::is_name(id) && !text::is_lower(id[0])
                ==> fault == Some("GCP project id must start with a lowercase letter"@)
            &&& id.len() > 0 && 6 <= n <= 30 && cloud_build::is_name(id) && text::is_lower(id[0])
                && id.last() == '-' ==> fault == Some(
                "GCP project id must end with a lowercase letter or digit"@,
            )
        }),
{
}

/// A region is accepted exactly when its name, without white space at its ends,
/// has at most thirty-two bytes, all of them small letters, digits and hyphens,
/// with a hyphen in it that stands neither first nor last.
pub proof fn law_accepted_region(value: Seq<char>)
    ensures
        ({
            let region = text::trim(value);
            cloud_build::region_fault(value) is None <==> {
                &&& region.len() > 0
                &&& utf8::encode_utf8(region).len() <= 32
                &&& forall|i: int|
                    0 <= i < region.len() ==> 'a' <= #[trigger] region[i] <= 'z' || '0' <= region[i]
                        <= '9' || region[i] == '-'
                &&& region[0] != '-'
                &&& region.last() != '-'
                &&& region.contains('-')
            }
        }),
{
}

/// A refused region is told the first thing that is wrong with it.
pub proof fn law_region_fault_tells_why(value: Seq<char>)
    ensures
        ({
            let region = text::trim(value);
            let n = utf8::encode_utf8(region).len();
            let fault = cloud_build::region_fault(value);
            &&& region.len() == 0 ==> fault == Some("GCP region must not be empty"@)
            &&& region.len() > 0 && n > 32 ==> fault == Some("GCP region is too long"@)
            &&& region.len() > 0 && n <= 32 && (exists|i: int|
                0 <= i < region.len() && !text::is_lower(#[trigger] region[i]) && !text::is_digit(
                    region[i],
                ) && region[i] != '-') ==> fault == Some("GCP region contains forbidden characters"@)
            &&& region.len() > 0 && n <= 32 && cloud_build::is_name(region) && (region[0] == '-'
                || region.last() == '-' || !region.contains('-')) ==> fault == Some(
                "GCP region has an invalid format"@,
            )
        }),
{
}

/// The version as it stands in a resource name.
proof fn lemma_version()
    ensures
        "v1/"@ == "v1"@.push('/'),
        "v1"@.len() == 2,
        !"v1"@.contains('/'),
        !text::is_white("v1"@[0]),
        "v1"@[0] != '/',
{
    reveal_strlit("v1/");
    reveal_strlit("v1");
    assert("v1/"@ =~= "v1"@.push('/'));
}

/// A name that does not begin with the version has another first piece.
proof fn lemma_first_piece_is_no_version(name: Seq<char>)
    requires
        !"v1/"@.is_prefix_of(name),
        name != "v1"@,
    ensures
        text::split(name, '/')[0] != "v1"@,
{
    let pieces = text::split(name, '/');
    lemma_version();
    text_laws::law_join_undoes_split(name, '/');
    if pieces[0] == "v1"@ {
        if pieces.len() == 1 {
            assert(pieces =~= seq!["v1"@]);
            text_laws::law_join_of_few("v1"@, "v1"@, '/');
        } else {
            text_laws::lemma_join_starts(pieces, '/');
        }
    }
}

/// White space and slashes at the ends of a resource name do not count. What is
/// left is taken apart at its slashes, with the version in front exactly once.
pub proof fn law_resource_name_is_taken_apart(value: Seq<char>, label: Seq<char>)
    ensures
        ({
            let name = text::trim_char(text::trim(value), '/');
            &&& name.len() == 0 ==> cloud_build::resource_segments(value, label) == Err::<
                Seq<Seq<char>>,
                AppErrorView,
            >(AppErrorView::Internal(label + " must not be empty"@))
            &&& name.len() > 0 ==> (cloud_build::resource_segments(value, label) matches Ok(segments)
                && segments.len() > 0 && segments[0] == "v1"@ && (text::join(segments, '/') == name
                || text::join(segments.skip(1), '/') == name) && (segments.len() > 1 || name
                == "v1"@))
            &&& name.len() > 0 && "v1/"@.is_prefix_of(name) ==> cloud_build::resource_segments(
                value,
                label,
            ) == Ok::<Seq<Seq<char>>, AppErrorView>(text::split(name, '/'))
        }),
{
    let name = text::trim_char(text::trim(value), '/');
    let pieces = text::split(name, '/');
    text_laws::law_join_undoes_split(name, '/');
    if name.len() > 0 {
        let segments = cloud_build::resource_segments(value, label)->Ok_0;
        if pieces[0] == "v1"@ {
            if segments.len() == 1 {
                assert(pieces =~= seq![pieces[0]]);
                text_laws::law_join_of_few(pieces[0], pieces[0], '/');
            }
        } else {
            assert(segments.skip(1) =~= pieces);
        }
        if "v1/"@.is_prefix_of(name) {
            lemma_version();
            let rest = name.skip(3);
            assert(name =~= "v1/"@ + rest);
            text_laws::lemma_split_concat("v1"@, rest, '/');
            text_laws::lemma_split_single("v1"@, '/');
        }
    }
}

/// A name from which nothing is removed ends in neither white space nor a slash.
proof fn lemma_ends_that_count(name: Seq<char>)
    requires
        name.len() > 0,
        text::trim(name) == name,
        text::trim_char(name, '/') == name,
    ensures
        !text::is_white(name.last()),
        name.last() != '/',
{
    text_laws::lemma_trim(name);
    text_laws::lemma_trim_char(name, '/');
}

/// A name with the version in front has nothing at its ends that does not count.
proof fn lemma_version_stays(name: Seq<char>)
    requires
        name.len() > 0,
        !text::is_white(name.last()),
        name.last() != '/',
    ensures
        text::trim("v1/"@ + name) == "v1/"@ + name,
        text::trim_char("v1/"@ + name, '/') == "v1/"@ + name,
{
    lemma_version();
    let long = "v1/"@ + name;
    assert(long[0] == "v1"@[0]);
    assert(long.last() == name.last());
    text_laws::lemma_trim_same(long);
    text_laws::lemma_trim_char_same(long, '/');
}

/// The version in front of a name is its first piece.
proof fn lemma_version_is_a_piece(name: Seq<char>)
    ensures
        text::split("v1/"@ + name, '/') == seq!["v1"@] + text::split(name, '/'),
{
    lemma_version();
    text_laws::lemma_split_concat("v1"@, name, '/');
    text_laws::lemma_split_single("v1"@, '/');
}

/// A resource name with the version in front and one without it name the same
/// resource.
pub proof fn law_version_in_a_name_may_be_left_out(name: Seq<char>, label: Seq<char>)
    requires
        name.len() > 0,
        text::trim(name) == name,
        text::trim_char(name, '/') == name,
        !"v1/"@.is_prefix_of(name),
        name != "v1"@,
    ensures
        cloud_build::resource_segments("v1/"@ + name, label) == cloud_build::resource_segments(
            name,
            label,
        ),
        cloud_build::resource_segments(name, label) is Ok,
{
    lemma_ends_that_count(name);
    lemma_version_stays(name);
    lemma_version_is_a_piece(name);
    lemma_first_piece_is_no_version(name);
}

/// The address for new builds names the API, the project, the region and the
/// project once more as a parameter.
pub proof fn law_submit_address(project_id: Seq<char>, region: Seq<char>)
    ensures
        cloud_build::submit_url(project_id, region) == "https://cloudbuild.googleapis.com/"@
            + outside::path_text(
            seq!["v1"@, "projects"@, project_id, "locations"@, region, "builds"@],
        ) + "?"@ + outside::query_text(seq![("projectId"@, project_id)]),
{
    reveal_strlit("?");
    let base = "https://cloudbuild.googleapis.com/"@ + outside::path_text(
        seq!["v1"@, "projects"@, project_id, "locations"@, region, "builds"@],
    );
    assert(base.push('?') =~= base + "?"@);
}

/// An operation tells of its build what stands at the build in its metadata, and
/// of an error the message that came with it.
pub proof fn law_operation_tells_of_its_build(
    name: Option<String>,
    metadata: Json,
    message: Option<String>,
    key: Seq<char>,
)
    ensures
        ({
            let operation = CloudBuildOperation {
                name,
                metadata: Some(metadata),
                error: Some(CloudBuildApiError { message }),
            };
            &&& operation.reported() == text::opt_text(message)
            &&& metadata@.member("build"@) is None ==> operation.build_text(key) is None
            &&& metadata@.member("build"@) matches Some(build) ==> operation.build_text(key)
                == match build.member(key) {
                Some(JsonView::Text(s)) => Some(s),
                _ => None,
            }
        }),
        (CloudBuildOperation { name, metadata: None, error: None }).build_text(key) is None,
        (CloudBuildOperation { name, metadata: None, error: None }).reported() is None,
{
    json::law_walk_takes_key_by_key(metadata@, "build"@, key);
}

/// A name without a fault is accepted, and a fault is told as an internal error;
/// a list is shown text by text.
pub proof fn law_faults_are_errors(message: Seq<char>, list: Vec<String>, e: AppError, i: int)
    ensures
        cloud_build::fault_outcome(None) is Ok,
        cloud_build::fault_outcome(Some(message)) == Err::<(), AppErrorView>(
            AppErrorView::Internal(message),
        ),
        cloud_build::list_outcome(Err(e)) == Err::<Seq<Seq<char>>, AppErrorView>(e@),
        cloud_build::list_outcome(Ok(list)) matches Ok(shown) && shown.len() == list@.len() && (0
            <= i < shown.len() ==> shown[i] == list@[i]@),
{
}

} // verus!
