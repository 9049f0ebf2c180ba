//! What is said to Cloud Build and what its replies mean.

use crate::json;
use crate::json::{
    add_member, array_of, json_string, metadata_string, object_of, text_array, text_value, Json,
    JsonMember, JsonView,
};
use crate::models::build_job::{BuildJob, BuildJobView};
use crate::models::state::{BuilderConfig, BuilderConfigView};
use crate::text;
use crate::text::{clone_opt, decimal_of, owned, same, starts_with, trimmed};
use vstd::prelude::*;
use vstd::string::*;
use vstd::utf8;

verus! {

/// An object in storage.
#[derive(Debug)]
pub struct StorageSource {
    pub bucket: String,
    pub object: String,
}

/// The full name of a service account, where one is configured.
pub open spec fn account_name(project_id: Seq<char>, value: Option<Seq<char>>) -> Option<Seq<char>> {
    match value {
        Some(v) => if text::trim(v).len() == 0 {
            None
        } else if "projects/"@.is_prefix_of(text::trim(v)) {
            Some(text::trim(v))
        } else {
            Some("projects/"@ + project_id + "/serviceAccounts/"@ + text::trim(v))
        },
        None => None,
    }
}

/// The full name of a service account, where one is configured: an e-mail
/// address is put below the project.
pub fn normalized_service_account(project_id: &str, value: Option<&str>) -> (r: Option<String>)
    ensures
        text::opt_text(r) == account_name(project_id@, text::opt_str_text(value)),
{
    match value {
        Some(v) => {
            let t = trimmed(v);
            if t.as_str().is_empty() {
                None
            } else if starts_with(t.as_str(), "projects/") {
                Some(t)
            } else {
                Some(
                    owned("projects/").concat(project_id).concat("/serviceAccounts/").concat(
                        t.as_str(),
                    ),
                )
            }
        },
        None => None,
    }
}

/// Texts as JSON.
pub open spec fn text_items(texts: Seq<Seq<char>>) -> JsonView {
    JsonView::Array(texts.map_values(|s: Seq<char>| JsonView::Text(s)))
}

/// The one step of a build: an image built from the Dockerfile under two tags.
pub open spec fn step_json(job: BuildJobView) -> JsonView {
    JsonView::Object(
        seq![
            ("name"@, JsonView::Text("gcr.io/cloud-builders/docker"@)),
            (
                "args"@,
                text_items(
                    seq![
                        "build"@,
                        "-f"@,
                        job.dockerfile_path,
                        "-t"@,
                        job.versioned_image_uri,
                        "-t"@,
                        job.latest_image_uri,
                        "."@,
                    ],
                ),
            ),
        ],
    )
}

/// Where a build takes its source from.
pub open spec fn source_json(bucket: Seq<char>, object: Seq<char>) -> JsonView {
    JsonView::Object(
        seq![
            (
                "storageSource"@,
                JsonView::Object(
                    seq![
                        ("bucket"@, JsonView::Text(bucket)),
                        ("object"@, JsonView::Text(object)),
                    ],
                ),
            ),
        ],
    )
}

/// The members that every build request has.
pub open spec fn request_members(
    config: BuilderConfigView,
    job: BuildJobView,
    bucket: Seq<char>,
    object: Seq<char>,
) -> Seq<(Seq<char>, JsonView)> {
    seq![
        ("source"@, source_json(bucket, object)),
        ("steps"@, JsonView::Array(seq![step_json(job)])),
        ("images"@, text_items(seq![job.versioned_image_uri, job.latest_image_uri])),
        (
            "timeout"@,
            JsonView::Text(text::decimal(config.cloud_build_timeout_seconds as nat) + "s"@),
        ),
        (
            "options"@,
            JsonView::Object(seq![("logging"@, JsonView::Text("CLOUD_LOGGING_ONLY"@))]),
        ),
        ("tags"@, text_items(seq!["altair"@, "lab-builder"@, job.image_name])),
    ]
}

/// A list of members with one more where its text is there.
pub open spec fn with_optional(
    members: Seq<(Seq<char>, JsonView)>,
    key: Seq<char>,
    value: Option<Seq<char>>,
) -> Seq<(Seq<char>, JsonView)> {
    match value {
        Some(v) => members.push((key, JsonView::Text(v))),
        None => members,
    }
}

/// The request that has Cloud Build build a job from an archive in storage.
pub open spec fn request_json(
    config: BuilderConfigView,
    job: BuildJobView,
    bucket: Seq<char>,
    object: Seq<char>,
) -> JsonView {
    let members = request_members(config, job, bucket, object);
    let account = account_name(config.gcp_project_id, config.cloud_build_service_account);
    JsonView::Object(
        with_optional(
            with_optional(members, "serviceAccount"@, account),
            "logsBucket"@,
            config.cloud_build_logs_bucket,
        ),
    )
}

fn texts_json(texts: &Vec<String>) -> (r: Json)
    ensures
        r@ == text_items(text::texts(texts@)),
{
    text_array(texts)
}

fn step_value(job: &BuildJob) -> (r: Json)
    ensures
        r@ == step_json(job@),
{
    let mut args: Vec<String> = Vec::new();
    args.push(owned("build"));
    args.push(owned("-f"));
    args.push(job.dockerfile_path.clone());
    args.push(owned("-t"));
    args.push(job.versioned_image_uri.clone());
    args.push(owned("-t"));
    args.push(job.latest_image_uri.clone());
    args.push(owned("."));
    assert(text::texts(args@) =~= seq![
        "build"@,
        "-f"@,
        job@.dockerfile_path,
        "-t"@,
        job@.versioned_image_uri,
        "-t"@,
        job@.latest_image_uri,
        "."@,
    ]);
    let mut members: Vec<JsonMember> = Vec::new();
    assert(json::member_views(members@) =~= Seq::<(Seq<char>, JsonView)>::empty());
    add_member(&mut members, "name", text_value("gcr.io/cloud-builders/docker"));
    add_member(&mut members, "args", texts_json(&args));
    assert(json::member_views(members@) =~= step_json(job@)->Object_0);
    object_of(members)
}

fn source_value(source: &StorageSource) -> (r: Json)
    ensures
        r@ == source_json(source.bucket@, source.object@),
{
    let mut place: Vec<JsonMember> = Vec::new();
    assert(json::member_views(place@) =~= Seq::<(Seq<char>, JsonView)>::empty());
    add_member(&mut place, "bucket", text_value(source.bucket.as_str()));
    add_member(&mut place, "object", text_value(source.object.as_str()));
    let ghost inner = seq![
        ("bucket"@, JsonView::Text(source.bucket@)),
        ("object"@, JsonView::Text(source.object@)),
    ];
    assert(json::member_views(place@) =~= inner);
    let mut members: Vec<JsonMember> = Vec::new();
    assert(json::member_views(members@) =~= Seq::<(Seq<char>, JsonView)>::empty());
    add_member(&mut members, "storageSource", object_of(place));
    assert(json::member_views(members@) =~= seq![("storageSource"@, JsonView::Object(inner))]);
    object_of(members)
}

/// The request that has Cloud Build build a job from an archive in storage.
pub fn build_cloud_build_request(
    config: &BuilderConfig,
    job: &BuildJob,
    source: &StorageSource,
) -> (r: Json)
    ensures
        r@ == request_json(config@, job@, source.bucket@, source.object@),
{
    let mut members: Vec<JsonMember> = Vec::new();
    assert(json::member_views(members@) =~= Seq::<(Seq<char>, JsonView)>::empty());
    add_member(&mut members, "source", source_value(source));
    let mut steps: Vec<Json> = Vec::new();
    steps.push(step_value(job));
    assert(json::item_views(steps@) =~= seq![step_json(job@)]);
    add_member(&mut members, "steps", array_of(steps));
    let mut images: Vec<String> = Vec::new();
    images.push(job.versioned_image_uri.clone());
    images.push(job.latest_image_uri.clone());
    assert(text::texts(images@) =~= seq![job@.versioned_image_uri, job@.latest_image_uri]);
    add_member(&mut members, "images", texts_json(&images));
    let timeout = decimal_of(config.cloud_build_timeout_seconds).concat("s");
    add_member(&mut members, "timeout", text_value(timeout.as_str()));
    let mut options: Vec<JsonMember> = Vec::new();
    assert(json::member_views(options@) =~= Seq::<(Seq<char>, JsonView)>::empty());
    add_member(&mut options, "logging", text_value("CLOUD_LOGGING_ONLY"));
    add_member(&mut members, "options", object_of(options));
    let mut tags: Vec<String> = Vec::new();
    tags.push(owned("altair"));
    tags.push(owned("lab-builder"));
    tags.push(job.image_name.clone());
    assert(text::texts(tags@) =~= seq!["altair"@, "lab-builder"@, job@.image_name]);
    add_member(&mut members, "tags", texts_json(&tags));
    assert(json::member_views(members@) =~= request_members(
        config@,
        job@,
        source.bucket@,
        source.object@,
    ));
    let configured: Option<&str> = match &config.cloud_build_service_account {
        Some(account) => Some(account.as_str()),
        None => None,
    };
    if let Some(account) = normalized_service_account(
        config.gcp_project_id.as_str(),
        configured,
    ) {
        add_member(&mut members, "serviceAccount", text_value(account.as_str()));
    }
    if let Some(bucket) = &config.cloud_build_logs_bucket {
        add_member(&mut members, "logsBucket", text_value(bucket.as_str()));
    }
    object_of(members)
}

/// What Cloud Build answers to a build request.
#[derive(Debug)]
pub struct CloudBuildOperation {
    pub name: Option<String>,
    pub metadata: Option<Json>,
    pub error: Option<CloudBuildApiError>,
}

/// An error that Cloud Build reports.
#[derive(Debug)]
pub struct CloudBuildApiError {
    pub message: Option<String>,
}

impl CloudBuildOperation {
    /// The message of the error, where one is reported.
    pub open spec fn reported(self) -> Option<Seq<char>> {
        match self.error {
            Some(e) => text::opt_text(e.message),
            None => None,
        }
    }

    /// A text of the build that the operation is about.
    pub open spec fn build_text(self, key: Seq<char>) -> Option<Seq<char>> {
        match self.metadata {
            Some(m) => m@.text_at(seq!["build"@, key]),
            None => None,
        }
    }

    pub fn error_message(&self) -> (r: Option<String>)
        ensures
            text::opt_text(r) == self.reported(),
    {
        match &self.error {
            Some(e) => clone_opt(&e.message),
            None => None,
        }
    }

    pub fn build_id(&self) -> (r: Option<String>)
        ensures
            text::opt_text(r) == self.build_text("id"@),
    {
        let path: [&str; 2] = ["build", "id"];
        assert(json::keys(path@) =~= seq!["build"@, "id"@]);
        metadata_string(self.metadata.as_ref(), &path)
    }

    pub fn build_name(&self) -> (r: Option<String>)
        ensures
            text::opt_text(r) == self.build_text("name"@),
    {
        let path: [&str; 2] = ["build", "name"];
        assert(json::keys(path@) =~= seq!["build"@, "name"@]);
        metadata_string(self.metadata.as_ref(), &path)
    }

    pub fn build_log_url(&self) -> (r: Option<String>)
        ensures
            text::opt_text(r) == self.build_text("logUrl"@),
    {
        let path: [&str; 2] = ["build", "logUrl"];
        assert(json::keys(path@) =~= seq!["build"@, "logUrl"@]);
        metadata_string(self.metadata.as_ref(), &path)
    }
}

/// The state of a build as Cloud Build shows it.
#[derive(Debug)]
pub struct CloudBuildSnapshot {
    pub id: Option<String>,
    pub name: Option<String>,
    pub status: Option<String>,
    pub status_detail: Option<String>,
    pub log_url: Option<String>,
}

/// The state of a build with its texts.
pub struct SnapshotView {
    pub id: Option<Seq<char>>,
    pub name: Option<Seq<char>>,
    pub status: Option<Seq<char>>,
    pub status_detail: Option<Seq<char>>,
    pub log_url: Option<Seq<char>>,
}

impl View for CloudBuildSnapshot {
    type V = SnapshotView;

    open spec fn view(&self) -> SnapshotView {
        SnapshotView {
            id: text::opt_text(self.id),
            name: text::opt_text(self.name),
            status: text::opt_text(self.status),
            status_detail: text::opt_text(self.status_detail),
            log_url: text::opt_text(self.log_url),
        }
    }
}

/// An optional snapshot with its texts.
pub open spec fn opt_snapshot(s: Option<CloudBuildSnapshot>) -> Option<SnapshotView> {
    match s {
        Some(v) => Some(v@),
        None => None,
    }
}

/// The snapshot that a JSON value shows: it has to have an identifier, a name or
/// a status.
pub open spec fn shown_by(value: Option<JsonView>) -> Option<SnapshotView> {
    match value {
        Some(v) => {
            let snapshot = SnapshotView {
                id: v.text_at(seq!["id"@]),
                name: v.text_at(seq!["name"@]),
                status: v.text_at(seq!["status"@]),
                status_detail: v.text_at(seq!["statusDetail"@]),
                log_url: v.text_at(seq!["logUrl"@]),
            };
            if snapshot.id is Some || snapshot.name is Some || snapshot.status is Some {
                Some(snapshot)
            } else {
                None
            }
        },
        None => None,
    }
}

/// The member of an optional value.
pub open spec fn child(value: Option<JsonView>, key: Seq<char>) -> Option<JsonView> {
    match value {
        Some(v) => v.member(key),
        None => None,
    }
}

pub open spec fn or_else(a: Option<SnapshotView>, b: Option<SnapshotView>) -> Option<SnapshotView> {
    if a is Some {
        a
    } else {
        b
    }
}

/// The snapshot in a reply: of the reply itself, else of its `response`, else of
/// the `build` in there, else of its `build`, else of the `build` in its
/// `metadata`.
pub open spec fn snapshot_in(value: JsonView) -> Option<SnapshotView> {
    let reply = Some(value);
    or_else(
        shown_by(reply),
        or_else(
            shown_by(child(reply, "response"@)),
            or_else(
                shown_by(child(child(reply, "response"@), "build"@)),
                or_else(
                    shown_by(child(reply, "build"@)),
                    shown_by(child(child(reply, "metadata"@), "build"@)),
                ),
            ),
        ),
    )
}

/// The view of an optional value.
pub open spec fn opt_json(value: Option<&Json>) -> Option<JsonView> {
    match value {
        Some(v) => Some(v@),
        None => None,
    }
}

fn text_member(value: &Json, key: &str) -> (r: Option<String>)
    ensures
        text::opt_text(r) == value@.text_at(seq![key@]),
{
    let path: [&str; 1] = [key];
    assert(json::keys(path@) =~= seq![key@]);
    json_string(value, &path)
}

fn child_of<'a>(value: Option<&'a Json>, key: &str) -> (r: Option<&'a Json>)
    ensures
        opt_json(r) == child(opt_json(value), key@),
{
    match value {
        Some(v) => v.get(key),
        None => None,
    }
}

fn snapshot_of(value: Option<&Json>) -> (r: Option<CloudBuildSnapshot>)
    ensures
        opt_snapshot(r) == shown_by(opt_json(value)),
{
    match value {
        Some(candidate) => {
            let snapshot = CloudBuildSnapshot {
                id: text_member(candidate, "id"),
                name: text_member(candidate, "name"),
                status: text_member(candidate, "status"),
                status_detail: text_member(candidate, "statusDetail"),
                log_url: text_member(candidate, "logUrl"),
            };
            if snapshot.id.is_some() || snapshot.name.is_some() || snapshot.status.is_some() {
                Some(snapshot)
            } else {
                None
            }
        },
        None => None,
    }
}

impl CloudBuildSnapshot {
    /// The snapshot in a reply, wherever it stands there.
    pub fn from_value(value: &Json) -> (r: Option<Self>)
        ensures
            opt_snapshot(r) == snapshot_in(value@),
    {
        let reply = Some(value);
        let response = child_of(reply, "response");
        let mut found = snapshot_of(reply);
        if found.is_none() {
            found = snapshot_of(response);
        }
        if found.is_none() {
            found = snapshot_of(child_of(response, "build"));
        }
        if found.is_none() {
            found = snapshot_of(child_of(reply, "build"));
        }
        if found.is_none() {
            found = snapshot_of(child_of(child_of(reply, "metadata"), "build"));
        }
        found
    }
}

/// The statuses after which a build does not change any more.
pub open spec fn is_terminal(status: Seq<char>) -> bool {
    status == "SUCCESS"@ || is_failure(status)
}

/// The statuses of a build that ended without an image.
pub open spec fn is_failure(status: Seq<char>) -> bool {
    ||| status == "FAILURE"@
    ||| status == "INTERNAL_ERROR"@
    ||| status == "TIMEOUT"@
    ||| status == "CANCELLED"@
    ||| status == "EXPIRED"@
}

pub fn is_failed_cloud_build_status(status: &str) -> (r: bool)
    ensures
        r == is_failure(status@),
{
    same(status, "FAILURE") || same(status, "INTERNAL_ERROR") || same(status, "TIMEOUT") || same(
        status,
        "CANCELLED",
    ) || same(status, "EXPIRED")
}

/// Whether a build of this status does not change any more.
pub fn is_terminal_cloud_build_status(status: &str) -> (r: bool)
    ensures
        r == is_terminal(status@),
{
    same(status, "SUCCESS") || is_failed_cloud_build_status(status)
}

/// The longest text, in bytes, that a log line shows whole.
pub const MAX_LOG_BYTES: usize = 400;

/// Whether a text is short enough for a log line, or can be cut to its length
/// between two characters.
pub open spec fn fits_log(value: Seq<char>) -> bool {
    let bytes = utf8::encode_utf8(text::trim(value));
    bytes.len() <= MAX_LOG_BYTES || utf8::is_char_boundary(bytes, MAX_LOG_BYTES as int)
}

/// A text as a log line shows it.
pub open spec fn log_text(value: Seq<char>) -> Seq<char> {
    let bytes = utf8::encode_utf8(text::trim(value));
    if bytes.len() <= MAX_LOG_BYTES {
        text::trim(value)
    } else {
        utf8::decode_utf8(bytes.take(MAX_LOG_BYTES as int)) + "..."@
    }
}

/// Whether a text can be shown in a log line.
pub fn can_truncate_for_log(value: &str) -> (r: bool)
    ensures
        r == fits_log(value@),
{
    let t = trimmed(value);
    t.as_str().as_bytes().len() <= MAX_LOG_BYTES || t.as_str().is_char_boundary(MAX_LOG_BYTES)
}

/// A text as a log line shows it: its first bytes where it is long.
pub fn truncate_for_log(value: &str) -> (r: String)
    requires
        fits_log(value@),
    ensures
        r@ == log_text(value@),
{
    let t = trimmed(value);
    if t.as_str().as_bytes().len() <= MAX_LOG_BYTES {
        return t;
    }
    let (head, _tail) = t.as_str().split_at(MAX_LOG_BYTES);
    proof {
        let bytes = utf8::encode_utf8(t@);
        assert(bytes.take(MAX_LOG_BYTES as int) =~= bytes.subrange(0, MAX_LOG_BYTES as int));
        utf8::encode_utf8_decode_utf8(head@);
    }
    owned(head).concat("...")
}

} // verus!
