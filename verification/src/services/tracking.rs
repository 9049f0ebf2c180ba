//! Following a build in Cloud Build: which address is polled, what a reply
//! means, and how the job goes on after it.

use crate::error::{AppError, AppErrorView};
use crate::json::{Json, JsonView};
use crate::models::build_job::{BuildJob, BuildJobView, BuildStatus};
use crate::models::state::{BuilderConfig, BuilderConfigView};
use crate::outside;
use crate::outside::{json_of_value, parse_value, value_line};
use crate::services::cloud_build;
use crate::services::cloud_build::{
    build_cloud_build_get_endpoint, build_cloud_build_operation_get_endpoint, lookup_fits,
    operation_lookup_fits,
};
use crate::services::cloud_messages;
use crate::services::cloud_messages::{
    can_truncate_for_log, is_failed_cloud_build_status, is_terminal_cloud_build_status,
    truncate_for_log, CloudBuildSnapshot, SnapshotView,
};
use crate::text;
use crate::text::{clone_opt, owned, same};
use vstd::prelude::*;
use vstd::string::*;

verus! {

/// A reply of Cloud Build: the value that its body writes, and that value
/// written in one line.
#[derive(Debug)]
pub struct CloudBuildReply {
    pub json: Json,
    pub line: String,
}

/// What a reply comes to. Nothing where the body belongs into an error message
/// but cannot be cut to the length of a log line between two characters.
pub open spec fn reply_result(r: Option<Result<CloudBuildReply, AppError>>) -> Option<
    Result<(JsonView, Seq<char>), AppErrorView>,
> {
    match r {
        Some(Ok(reply)) => Some(Ok((reply.json@, reply.line@))),
        Some(Err(e)) => Some(Err(e@)),
        None => None,
    }
}

/// An error whose message ends with a body as a log line shows it.
pub open spec fn error_with_body(message: Seq<char>, body: Seq<char>) -> Option<AppErrorView> {
    if cloud_messages::fits_log(body) {
        Some(AppErrorView::Internal(message + cloud_messages::log_text(body)))
    } else {
        None
    }
}

fn body_error(message: String, body: &str) -> (r: Option<AppError>)
    ensures
        match r {
            Some(e) => error_with_body(message@, body@) == Some(e@),
            None => error_with_body(message@, body@) is None,
        },
{
    if can_truncate_for_log(body) {
        Some(AppError::Internal(message.concat(truncate_for_log(body).as_str())))
    } else {
        None
    }
}

/// The error for a reply that refuses a request.
pub open spec fn refusal(label: Seq<char>, status_text: Seq<char>, body: Seq<char>) -> Option<
    AppErrorView,
> {
    error_with_body(label + " failed with HTTP "@ + status_text + ": "@, body)
}

/// What a reply comes to whose body was read as JSON.
pub open spec fn decoding(
    label: Seq<char>,
    body: Seq<char>,
    parsed: Result<(JsonView, Seq<char>), Seq<char>>,
) -> Option<Result<(JsonView, Seq<char>), AppErrorView>> {
    match parsed {
        Ok(value) => Some(Ok(value)),
        Err(cause) => match error_with_body(
            "Failed to decode "@ + label + " response: "@ + cause + ". Body: "@,
            body,
        ) {
            Some(e) => Some(Err(e)),
            None => None,
        },
    }
}

/// What reading a body as JSON gives: the value and its line, or the error.
pub open spec fn parsed_body(body: Seq<char>) -> Result<(JsonView, Seq<char>), Seq<char>> {
    match outside::parsed_json(body) {
        Ok(value) => Ok((value, outside::json_line(value))),
        Err(cause) => Err(cause),
    }
}

/// What was parsed, with its texts.
pub open spec fn parse_view(parsed: Result<CloudBuildReply, String>) -> Result<
    (JsonView, Seq<char>),
    Seq<char>,
> {
    match parsed {
        Ok(reply) => Ok((reply.json@, reply.line@)),
        Err(cause) => Err(cause@),
    }
}

/// The error for a reply that refuses a request.
pub fn refused_reply(label: &str, status_text: &str, body: &str) -> (r: Option<AppError>)
    ensures
        match r {
            Some(e) => refusal(label@, status_text@, body@) == Some(e@),
            None => refusal(label@, status_text@, body@) is None,
        },
{
    body_error(
        owned(label).concat(" failed with HTTP ").concat(status_text).concat(": "),
        body,
    )
}

/// What a reply comes to whose body was read as JSON.
pub fn decoded_reply(label: &str, body: &str, parsed: Result<CloudBuildReply, String>) -> (r:
    Option<Result<CloudBuildReply, AppError>>)
    ensures
        reply_result(r) == decoding(label@, body@, parse_view(parsed)),
{
    match parsed {
        Ok(reply) => Some(Ok(reply)),
        Err(cause) => match body_error(
            owned("Failed to decode ").concat(label).concat(" response: ").concat(
                cause.as_str(),
            ).concat(". Body: "),
            body,
        ) {
            Some(e) => Some(Err(e)),
            None => None,
        },
    }
}

/// Reads a body as JSON.
pub fn parse_body(body: &str) -> (r: Result<CloudBuildReply, String>)
    ensures
        parse_view(r) == parsed_body(body@),
{
    match parse_value(body) {
        Ok(value) => {
            let line = value_line(&value);
            Ok(CloudBuildReply { json: json_of_value(value), line })
        },
        Err(cause) => Err(cause),
    }
}

/// What a reply to a query comes to: the JSON value in its body, or an error
/// where the query was refused or the body is no JSON. Nothing where the body
/// belongs into an error message but cannot be cut to the length of a log line
/// between two characters.
pub fn cloud_build_get_json(label: &str, status: u16, status_text: &str, body: &str) -> (r: Option<
    Result<CloudBuildReply, AppError>,
>)
    ensures
        if 200 <= status < 300 {
            reply_result(r) == decoding(label@, body@, parsed_body(body@))
        } else {
            reply_result(r) == match refusal(label@, status_text@, body@) {
                Some(e) => Some(Err::<(JsonView, Seq<char>), AppErrorView>(e)),
                None => None,
            }
        },
{
    if !(200 <= status && status < 300) {
        return match refused_reply(label, status_text, body) {
            Some(e) => Some(Err(e)),
            None => None,
        };
    }
    decoded_reply(label, body, parse_body(body))
}

/// The state of a build after a poll.
#[derive(Debug)]
pub struct CloudBuildPollState {
    pub snapshot: Option<CloudBuildSnapshot>,
    pub done: bool,
    pub error_message: Option<String>,
}

/// The state of a build after a poll, with its texts.
pub struct PollView {
    pub snapshot: Option<SnapshotView>,
    pub done: bool,
    pub error_message: Option<Seq<char>>,
}

impl View for CloudBuildPollState {
    type V = PollView;

    open spec fn view(&self) -> PollView {
        PollView {
            snapshot: cloud_messages::opt_snapshot(self.snapshot),
            done: self.done,
            error_message: text::opt_text(self.error_message),
        }
    }
}

/// What is polled.
#[derive(Debug, Clone, Copy, PartialEq, Eq, Structural)]
pub enum PollTarget {
    /// The build, under its name.
    NamedBuild,
    /// The operation that builds it.
    Operation,
    /// The build, under its identifier.
    NumberedBuild,
}

impl PollTarget {
    /// How error messages call the query.
    pub open spec fn label(self) -> Seq<char> {
        match self {
            PollTarget::Operation => "Cloud Build operation status query"@,
            _ => "Cloud Build status query"@,
        }
    }

    /// How error messages call the query.
    pub fn query_label(self) -> (r: String)
        ensures
            r@ == self.label(),
    {
        match self {
            PollTarget::Operation => owned("Cloud Build operation status query"),
            PollTarget::NamedBuild => owned("Cloud Build status query"),
            PollTarget::NumberedBuild => owned("Cloud Build status query"),
        }
    }
}

/// What is polled for a job: its build where its name is known, else its
/// operation where that is known, else its build by its identifier.
pub open spec fn target_of(job: BuildJobView) -> PollTarget {
    if job.cloud_build_name is Some {
        PollTarget::NamedBuild
    } else if job.cloud_build_operation_name is Some {
        PollTarget::Operation
    } else {
        PollTarget::NumberedBuild
    }
}

/// A query for the state of a build.
#[derive(Debug)]
pub struct PollRequest {
    pub target: PollTarget,
    pub endpoint: String,
}

/// The address of the query, or the error for what the job says of its build.
pub open spec fn poll_endpoint(config: BuilderConfigView, job: BuildJobView) -> Result<
    Seq<char>,
    AppErrorView,
> {
    match target_of(job) {
        PollTarget::Operation => match cloud_build::resource_segments(
            job.cloud_build_operation_name->0,
            "Cloud Build operation name"@,
        ) {
            Ok(segments) => Ok(outside::url_of_path(outside::cloud_build_base(), segments)),
            Err(e) => Err(e),
        },
        _ => match cloud_build::project_id_fault(config.gcp_project_id) {
            Some(message) => Err(AppErrorView::Internal(message)),
            None => match cloud_build::region_fault(config.gcp_region) {
                Some(message) => Err(AppErrorView::Internal(message)),
                None => match cloud_build::build_target(
                    config.gcp_project_id,
                    config.gcp_region,
                    job.cloud_build_name,
                    job.cloud_build_id,
                ) {
                    Ok((segments, id)) => Ok(
                        cloud_build::lookup_url(config.gcp_project_id, segments, id),
                    ),
                    Err(e) => Err(e),
                },
            },
        },
    }
}

/// Whether the address of the query has a length that a URL can have.
pub open spec fn poll_fits(config: BuilderConfigView, job: BuildJobView) -> bool {
    match target_of(job) {
        PollTarget::Operation => cloud_build::operation_fits(job.cloud_build_operation_name->0),
        _ => cloud_build::target_fits(
            config.gcp_project_id,
            config.gcp_region,
            job.cloud_build_name,
            job.cloud_build_id,
        ),
    }
}

fn as_slice(value: &Option<String>) -> (r: Option<&str>)
    ensures
        text::opt_str_text(r) == text::opt_text(*value),
{
    match value {
        Some(s) => Some(s.as_str()),
        None => None,
    }
}

/// Whether the address of the query for a job's build has a length that a URL
/// can have.
pub fn can_poll(config: &BuilderConfig, job: &BuildJob) -> (r: bool)
    ensures
        r == poll_fits(config@, job@),
{
    if job.cloud_build_name.is_none() {
        if let Some(operation_name) = &job.cloud_build_operation_name {
            return operation_lookup_fits(operation_name.as_str());
        }
    }
    lookup_fits(
        config.gcp_project_id.as_str(),
        config.gcp_region.as_str(),
        as_slice(&job.cloud_build_name),
        as_slice(&job.cloud_build_id),
    )
}

/// The query for the state of a job's build: always to the Cloud Build API.
pub fn fetch_cloud_build_state(config: &BuilderConfig, job: &BuildJob) -> (r: Result<
    PollRequest,
    AppError,
>)
    requires
        poll_fits(config@, job@),
    ensures
        match r {
            Ok(request) => {
                &&& request.target == target_of(job@)
                &&& poll_endpoint(config@, job@) == Ok::<Seq<char>, AppErrorView>(
                    request.endpoint@,
                )
                &&& outside::cloud_build_base().is_prefix_of(request.endpoint@)
            },
            Err(e) => poll_endpoint(config@, job@) == Err::<Seq<char>, AppErrorView>(e@),
        },
{
    if job.cloud_build_name.is_none() {
        if let Some(operation_name) = &job.cloud_build_operation_name {
            return match build_cloud_build_operation_get_endpoint(operation_name.as_str()) {
                Ok(endpoint) => Ok(PollRequest { target: PollTarget::Operation, endpoint }),
                Err(e) => Err(e),
            };
        }
    }
    let target = if job.cloud_build_name.is_some() {
        PollTarget::NamedBuild
    } else {
        PollTarget::NumberedBuild
    };
    match build_cloud_build_get_endpoint(
        config.gcp_project_id.as_str(),
        config.gcp_region.as_str(),
        as_slice(&job.cloud_build_name),
        as_slice(&job.cloud_build_id),
    ) {
        Ok(endpoint) => Ok(PollRequest { target, endpoint }),
        Err(e) => Err(e),
    }
}

/// What a poll comes to, with its texts.
pub open spec fn poll_result(r: Option<Result<CloudBuildPollState, AppError>>) -> Option<
    Result<PollView, AppErrorView>,
> {
    match r {
        Some(Ok(state)) => Some(Ok(state@)),
        Some(Err(e)) => Some(Err(e@)),
        None => None,
    }
}

/// What the reply to a query for an operation says.
pub open spec fn operation_state(value: JsonView) -> PollView {
    PollView {
        snapshot: cloud_messages::snapshot_in(value),
        done: value.member("done"@) == Some(JsonView::Bool(true)),
        error_message: match value.member("error"@) {
            Some(e) => match e.member("message"@) {
                Some(m) => m.as_text(),
                None => None,
            },
            None => None,
        },
    }
}

/// What the reply to a query for a build says: it has to show a snapshot. A
/// build that is polled under its name is done once its status is final.
pub open spec fn build_state(target: PollTarget, value: JsonView, line: Seq<char>) -> Option<
    Result<PollView, AppErrorView>,
> {
    match cloud_messages::snapshot_in(value) {
        Some(snapshot) => Some(
            Ok(
                PollView {
                    snapshot: Some(snapshot),
                    done: target is NamedBuild && match snapshot.status {
                        Some(status) => cloud_messages::is_terminal(status),
                        None => false,
                    },
                    error_message: None,
                },
            ),
        ),
        None => match error_with_body(
            "Cloud Build status response did not contain the expected fields. Body: "@,
            line,
        ) {
            Some(e) => Some(Err(e)),
            None => None,
        },
    }
}

/// What the reply to a query says.
pub open spec fn state_in(target: PollTarget, value: JsonView, line: Seq<char>) -> Option<
    Result<PollView, AppErrorView>,
> {
    match target {
        PollTarget::Operation => Some(Ok(operation_state(value))),
        _ => build_state(target, value, line),
    }
}

fn fetch_cloud_build_operation_state(payload: &Json) -> (r: CloudBuildPollState)
    ensures
        r@ == operation_state(payload@),
{
    let done = match payload.get("done") {
        Some(value) => match value.as_bool() {
            Some(b) => b,
            None => false,
        },
        None => false,
    };
    let error_message: Option<String> = match payload.get("error") {
        Some(e) => match e.get("message") {
            Some(message) => message.as_str(),
            None => None,
        },
        None => None,
    };
    CloudBuildPollState { snapshot: CloudBuildSnapshot::from_value(payload), done, error_message }
}

fn fetch_cloud_build_snapshot(reply: &CloudBuildReply) -> (r: Option<
    Result<CloudBuildSnapshot, AppError>,
>)
    ensures
        match r {
            Some(Ok(snapshot)) => cloud_messages::snapshot_in(reply.json@) == Some(snapshot@),
            Some(Err(e)) => cloud_messages::snapshot_in(reply.json@) is None && error_with_body(
                "Cloud Build status response did not contain the expected fields. Body: "@,
                reply.line@,
            ) == Some(e@),
            None => cloud_messages::snapshot_in(reply.json@) is None && error_with_body(
                "Cloud Build status response did not contain the expected fields. Body: "@,
                reply.line@,
            ) is None,
        },
{
    match CloudBuildSnapshot::from_value(&reply.json) {
        Some(snapshot) => Some(Ok(snapshot)),
        None => match body_error(
            owned("Cloud Build status response did not contain the expected fields. Body: "),
            reply.line.as_str(),
        ) {
            Some(e) => Some(Err(e)),
            None => None,
        },
    }
}

/// What the reply to a query says of the build.
pub fn polled_state(target: PollTarget, reply: &CloudBuildReply) -> (r: Option<
    Result<CloudBuildPollState, AppError>,
>)
    ensures
        poll_result(r) == state_in(target, reply.json@, reply.line@),
{
    if target == PollTarget::Operation {
        return Some(Ok(fetch_cloud_build_operation_state(&reply.json)));
    }
    match fetch_cloud_build_snapshot(reply) {
        Some(Ok(snapshot)) => {
            let done = target == PollTarget::NamedBuild && match &snapshot.status {
                Some(status) => is_terminal_cloud_build_status(status.as_str()),
                None => false,
            };
            Some(
                Ok(
                    CloudBuildPollState {
                        snapshot: Some(snapshot),
                        done,
                        error_message: None,
                    },
                ),
            )
        },
        Some(Err(e)) => Some(Err(e)),
        None => None,
    }
}

/// A job that is followed, and how many polls in a row have failed.
#[derive(Debug)]
pub struct CloudTracker {
    pub job: BuildJob,
    pub consecutive_poll_errors: u8,
}

/// A job that is followed, with its texts.
pub struct TrackerView {
    pub job: BuildJobView,
    pub consecutive_poll_errors: u8,
}

impl View for CloudTracker {
    type V = TrackerView;

    open spec fn view(&self) -> TrackerView {
        TrackerView {
            job: self.job@,
            consecutive_poll_errors: self.consecutive_poll_errors,
        }
    }
}

/// How following a job goes on after a poll.
#[derive(Debug)]
pub enum TrackStep {
    /// Wait and poll again: the poll failed.
    Retry(CloudTracker),
    /// Store the job, wait and poll again: the build still runs.
    Running(CloudTracker),
    /// The build has ended.
    Finished(BuildJob),
    /// Too many polls in a row have failed.
    GaveUp(AppError),
}

/// How following a job goes on, with its texts.
pub enum TrackStepView {
    Retry(TrackerView),
    Running(TrackerView),
    Finished(BuildJobView),
    GaveUp(AppErrorView),
}

impl View for TrackStep {
    type V = TrackStepView;

    open spec fn view(&self) -> TrackStepView {
        match self {
            TrackStep::Retry(t) => TrackStepView::Retry(t@),
            TrackStep::Running(t) => TrackStepView::Running(t@),
            TrackStep::Finished(job) => TrackStepView::Finished(job@),
            TrackStep::GaveUp(e) => TrackStepView::GaveUp(e@),
        }
    }
}

/// So many failed polls in a row end the following of a job.
pub const MAX_POLL_ERRORS: u8 = 5;

/// A text, or another where it is missing.
pub open spec fn first_known(a: Option<Seq<char>>, b: Option<Seq<char>>) -> Option<Seq<char>> {
    if a is Some {
        a
    } else {
        b
    }
}

/// The job with what a snapshot newly says of its build.
pub open spec fn absorbed(job: BuildJobView, snapshot: Option<SnapshotView>) -> BuildJobView {
    match snapshot {
        Some(s) => BuildJobView {
            cloud_build_id: first_known(s.id, job.cloud_build_id),
            cloud_build_name: first_known(s.name, job.cloud_build_name),
            cloud_build_log_url: first_known(s.log_url, job.cloud_build_log_url),
            ..job
        },
        None => job,
    }
}

/// Why a build that has ended failed, or nothing where it succeeded.
pub open spec fn failure_of(poll: PollView) -> Option<Seq<char>> {
    match poll.snapshot {
        Some(s) => match s.status {
            Some(status) => if status == "SUCCESS"@ {
                None
            } else if cloud_messages::is_failure(status) {
                match s.status_detail {
                    Some(detail) => Some(detail),
                    None => Some("Cloud Build reported status "@ + status),
                }
            } else {
                Some("Cloud Build operation completed with unexpected status "@ + status)
            },
            None => match poll.error_message {
                Some(message) => Some(message),
                None => Some("Cloud Build operation completed without a build status"@),
            },
        },
        None => match poll.error_message {
            Some(message) => Some(message),
            None => Some("Cloud Build operation completed without a build payload"@),
        },
    }
}

/// The job once its build has ended.
pub open spec fn ended(job: BuildJobView, failure: Option<Seq<char>>) -> BuildJobView {
    BuildJobView {
        status: if failure is Some {
            BuildStatus::Failed
        } else {
            BuildStatus::Ready
        },
        failure_message: failure,
        ..job
    }
}

impl TrackerView {
    /// How following the job goes on after a poll.
    pub open spec fn step(self, poll: Result<PollView, AppErrorView>) -> TrackStepView {
        match poll {
            Err(e) => {
                let n = if self.consecutive_poll_errors == u8::MAX {
                    u8::MAX
                } else {
                    (self.consecutive_poll_errors + 1) as u8
                };
                if n >= MAX_POLL_ERRORS {
                    TrackStepView::GaveUp(e)
                } else {
                    TrackStepView::Retry(
                        TrackerView { job: self.job, consecutive_poll_errors: n },
                    )
                }
            },
            Ok(state) => {
                let job = absorbed(self.job, state.snapshot);
                if state.done {
                    TrackStepView::Finished(ended(job, failure_of(state)))
                } else {
                    TrackStepView::Running(TrackerView { job, consecutive_poll_errors: 0 })
                }
            },
        }
    }
}

fn failure_text(poll: &CloudBuildPollState) -> (r: Option<String>)
    ensures
        text::opt_text(r) == failure_of(poll@),
{
    match &poll.snapshot {
        Some(snapshot) => match &snapshot.status {
            Some(status) => if same(status.as_str(), "SUCCESS") {
                None
            } else if is_failed_cloud_build_status(status.as_str()) {
                match &snapshot.status_detail {
                    Some(detail) => Some(detail.clone()),
                    None => Some(
                        owned("Cloud Build reported status ").concat(status.as_str()),
                    ),
                }
            } else {
                Some(
                    owned("Cloud Build operation completed with unexpected status ").concat(
                        status.as_str(),
                    ),
                )
            },
            None => match &poll.error_message {
                Some(message) => Some(message.clone()),
                None => Some(owned("Cloud Build operation completed without a build status")),
            },
        },
        None => match &poll.error_message {
            Some(message) => Some(message.clone()),
            None => Some(owned("Cloud Build operation completed without a build payload")),
        },
    }
}

fn take_known(target: &mut Option<String>, known: &Option<String>)
    ensures
        text::opt_text(*final(target)) == first_known(
            text::opt_text(*known),
            text::opt_text(*old(target)),
        ),
{
    if known.is_some() {
        *target = clone_opt(known);
    }
}

/// Sets a job to the end of its build.
pub fn end_build(job: &mut BuildJob, failure: Option<String>)
    ensures
        final(job)@ == ended(old(job)@, text::opt_text(failure)),
{
    job.status = if failure.is_some() {
        BuildStatus::Failed
    } else {
        BuildStatus::Ready
    };
    job.failure_message = failure;
}

impl CloudTracker {
    /// A job of which nothing was polled yet.
    pub fn new(job: BuildJob) -> (r: Self)
        ensures
            r@ == (TrackerView { job: job@, consecutive_poll_errors: 0 }),
    {
        CloudTracker { job, consecutive_poll_errors: 0 }
    }

    /// How following the job goes on after a poll: a failed poll is repeated,
    /// unless it is one too many in a row; a running build is polled again with
    /// what is newly known of it; an ended build makes the job ready or failed.
    pub fn track_cloud_build(self, poll: Result<CloudBuildPollState, AppError>) -> (r: TrackStep)
        ensures
            r@ == self@.step(
                match poll {
                    Ok(state) => Ok::<PollView, AppErrorView>(state@),
                    Err(e) => Err(e@),
                },
            ),
    {
        let state = match poll {
            Ok(state) => state,
            Err(e) => {
                let n: u8 = self.consecutive_poll_errors.saturating_add(1);
                if n >= MAX_POLL_ERRORS {
                    return TrackStep::GaveUp(e);
                }
                return TrackStep::Retry(
                    CloudTracker { job: self.job, consecutive_poll_errors: n },
                );
            },
        };
        let failure = failure_text(&state);
        let mut job = self.job;
        if let Some(snapshot) = &state.snapshot {
            take_known(&mut job.cloud_build_id, &snapshot.id);
            take_known(&mut job.cloud_build_name, &snapshot.name);
            take_known(&mut job.cloud_build_log_url, &snapshot.log_url);
        }
        if state.done {
            end_build(&mut job, failure);
            return TrackStep::Finished(job);
        }
        TrackStep::Running(CloudTracker { job, consecutive_poll_errors: 0 })
    }
}

/// How many seconds pass between two polls: the configured number, but at least
/// one.
pub fn poll_interval_seconds(config: &BuilderConfig) -> (r: u64)
    ensures
        r == if config.cloud_build_poll_interval_seconds >= 1 {
            config.cloud_build_poll_interval_seconds
        } else {
            1
        },
{
    if config.cloud_build_poll_interval_seconds >= 1 {
        config.cloud_build_poll_interval_seconds
    } else {
        1
    }
}

} // verus!
