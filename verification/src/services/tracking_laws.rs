//! What following a build in Cloud Build promises, said of the replies
//! themselves: which reply ends a build, how it ends, and what a job keeps.

use crate::error::{AppError, AppErrorView};
use crate::json;
use crate::json::JsonView;
use crate::models::build_job::{BuildJob, BuildJobView};
use crate::models::state::BuilderConfigView;
use crate::outside;
use crate::services::cloud_build;
use crate::services::cloud_messages;
use crate::services::cloud_messages::{CloudBuildSnapshot, SnapshotView};
use crate::services::tracking;
use crate::services::tracking::{
    CloudBuildPollState, CloudBuildReply, CloudTracker, PollTarget, PollView, TrackStep,
    TrackStepView, TrackerView,
};
use crate::text;
use vstd::prelude::*;
use vstd::string::*;
use vstd::utf8;

verus! {

/// The text that a JSON object has under a key.
pub open spec fn said(value: JsonView, key: Seq<char>) -> Option<Seq<char>> {
    match value.member(key) {
        Some(JsonView::Text(s)) => Some(s),
        _ => None,
    }
}

/// Whether a JSON value says which build it speaks of, or how that build does.
pub open spec fn speaks_of_a_build(value: JsonView) -> bool {
    said(value, "id"@) is Some || said(value, "name"@) is Some || said(value, "status"@) is Some
}

/// A value that speaks of a build shows exactly what it says of it.
pub proof fn law_snapshot_shows_what_is_said(value: JsonView)
    ensures
        speaks_of_a_build(value) ==> cloud_messages::snapshot_in(value) == Some(
            SnapshotView {
                id: said(value, "id"@),
                name: said(value, "name"@),
                status: said(value, "status"@),
                status_detail: said(value, "statusDetail"@),
                log_url: said(value, "logUrl"@),
            },
        ),
        speaks_of_a_build(value) <==> cloud_messages::shown_by(Some(value)) is Some,
        cloud_messages::shown_by(None) is None,
{
    json::law_walk_takes_key_by_key(value, "id"@, "id"@);
    json::law_walk_takes_key_by_key(value, "name"@, "id"@);
    json::law_walk_takes_key_by_key(value, "status"@, "id"@);
    json::law_walk_takes_key_by_key(value, "statusDetail"@, "id"@);
    json::law_walk_takes_key_by_key(value, "logUrl"@, "id"@);
}

/// Whether a place in a reply is missing or speaks of no build.
pub open spec fn is_silent(place: Option<JsonView>) -> bool {
    place matches Some(value) ==> !speaks_of_a_build(value)
}

/// The build that a place in a reply holds.
pub open spec fn build_in(place: Option<JsonView>) -> Option<JsonView> {
    match place {
        Some(value) => value.member("build"@),
        None => None,
    }
}

/// A reply that does not itself speak of a build is searched at its `response`,
/// then at the `build` in that, then at its own `build`, then at the `build` in
/// its `metadata`: the first of them that speaks of a build counts, and where
/// none does there is no snapshot.
pub proof fn law_snapshot_is_searched_in_order(value: JsonView, inner: JsonView)
    requires
        !speaks_of_a_build(value),
        speaks_of_a_build(inner),
    ensures
        ({
            let response = value.member("response"@);
            let responded = build_in(response);
            let own = value.member("build"@);
            let announced = build_in(value.member("metadata"@));
            let found = cloud_messages::snapshot_in(value);
            let shown = cloud_messages::snapshot_in(inner);
            &&& response == Some(inner) ==> found == shown
            &&& is_silent(response) && responded == Some(inner) ==> found == shown
            &&& is_silent(response) && is_silent(responded) && own == Some(inner) ==> found == shown
            &&& is_silent(response) && is_silent(responded) && is_silent(own) && announced == Some(
                inner,
            ) ==> found == shown
            &&& is_silent(response) && is_silent(responded) && is_silent(own) && is_silent(
                announced,
            ) ==> found is None
        }),
{
    law_snapshot_shows_what_is_said(value);
    law_snapshot_shows_what_is_said(inner);
    let response = value.member("response"@);
    if let Some(v) = response {
        law_snapshot_shows_what_is_said(v);
    }
    if let Some(v) = build_in(response) {
        law_snapshot_shows_what_is_said(v);
    }
    if let Some(v) = value.member("build"@) {
        law_snapshot_shows_what_is_said(v);
    }
    if let Some(v) = build_in(value.member("metadata"@)) {
        law_snapshot_shows_what_is_said(v);
    }
}

/// A poll of a build under its name is done when the reply shows one of the six
/// final statuses, and with any other status it is not.
pub proof fn law_named_build_is_done_with_a_final_status(
    value: JsonView,
    line: Seq<char>,
    status: Seq<char>,
)
    requires
        value.member("status"@) == Some(JsonView::Text(status)),
    ensures
        tracking::state_in(PollTarget::NamedBuild, value, line) matches Some(Ok(poll)) && {
            &&& status == "SUCCESS"@ ==> poll.done
            &&& status == "FAILURE"@ ==> poll.done
            &&& status == "INTERNAL_ERROR"@ ==> poll.done
            &&& status == "TIMEOUT"@ ==> poll.done
            &&& status == "CANCELLED"@ ==> poll.done
            &&& status == "EXPIRED"@ ==> poll.done
            &&& status != "SUCCESS"@ && status != "FAILURE"@ && status != "INTERNAL_ERROR"@
                && status != "TIMEOUT"@ && status != "CANCELLED"@ && status != "EXPIRED"@
                ==> !poll.done
            &&& poll.error_message is None
            &&& poll.snapshot matches Some(snapshot) && snapshot.status == Some(status)
        },
{
    law_snapshot_shows_what_is_said(value);
}

/// A reply that shows no build is an error, under whatever name it was polled,
/// and the error tells the reply.
pub proof fn law_reply_without_a_build_is_an_error(
    target: PollTarget,
    value: JsonView,
    line: Seq<char>,
)
    requires
        !(target is Operation),
        cloud_messages::snapshot_in(value) is None,
        cloud_messages::fits_log(line),
    ensures
        tracking::state_in(target, value, line) matches Some(Err(e)) && e == AppErrorView::Internal(
            "Cloud Build status response did not contain the expected fields. Body: "@
                + cloud_messages::log_text(line),
        ),
{
}

/// Whoever follows a build and polls it under its name sees it end with the
/// first reply whose status is SUCCESS, and the job is then ready.
pub proof fn law_success_makes_the_job_ready(tracker: TrackerView, value: JsonView, line: Seq<char>)
    requires
        value.member("status"@) == Some(JsonView::Text("SUCCESS"@)),
    ensures
        tracking::state_in(PollTarget::NamedBuild, value, line) matches Some(Ok(poll))
            && tracker.step(Ok(poll)) matches TrackStepView::Finished(job) && job.status is Ready
            && job.failure_message is None && job.same_build(tracker.job),
{
    law_named_build_is_done_with_a_final_status(value, line, "SUCCESS"@);
}

/// Whoever follows a build and polls it under its name sees it end with the
/// first reply that shows one of the five statuses of a failure. The job has
/// then failed, with the detail in the reply as its message, or with the status.
pub proof fn law_failure_makes_the_job_failed(
    tracker: TrackerView,
    value: JsonView,
    line: Seq<char>,
    status: Seq<char>,
)
    requires
        value.member("status"@) == Some(JsonView::Text(status)),
        status == "FAILURE"@ || status == "INTERNAL_ERROR"@ || status == "TIMEOUT"@ || status
            == "CANCELLED"@ || status == "EXPIRED"@,
    ensures
        tracking::state_in(PollTarget::NamedBuild, value, line) matches Some(Ok(poll))
            && tracker.step(Ok(poll)) matches TrackStepView::Finished(job) && job.status is Failed
            && job.same_build(tracker.job) && (said(value, "statusDetail"@) matches Some(detail)
            ==> job.failure_message == Some(detail)) && (said(value, "statusDetail"@) is None
            ==> job.failure_message == Some("Cloud Build reported status "@ + status)),
{
    law_named_build_is_done_with_a_final_status(value, line, status);
    law_snapshot_shows_what_is_said(value);
    lemma_failures_are_no_success();
}

/// None of the five statuses of a failure is the status of a success.
proof fn lemma_failures_are_no_success()
    ensures
        "FAILURE"@ != "SUCCESS"@,
        "INTERNAL_ERROR"@ != "SUCCESS"@,
        "TIMEOUT"@ != "SUCCESS"@,
        "CANCELLED"@ != "SUCCESS"@,
        "EXPIRED"@ != "SUCCESS"@,
{
    reveal_strlit("SUCCESS");
    reveal_strlit("FAILURE");
    reveal_strlit("INTERNAL_ERROR");
    reveal_strlit("TIMEOUT");
    reveal_strlit("CANCELLED");
    reveal_strlit("EXPIRED");
    assert("SUCCESS"@[0] == 'S');
    assert("FAILURE"@[0] == 'F');
    assert("INTERNAL_ERROR"@[0] == 'I');
    assert("TIMEOUT"@[0] == 'T');
    assert("CANCELLED"@[0] == 'C');
    assert("EXPIRED"@[0] == 'E');
}

/// A build whose status is none of the six final ones goes on: the job keeps its
/// status and is polled again.
pub proof fn law_other_status_keeps_the_build_running(
    tracker: TrackerView,
    value: JsonView,
    line: Seq<char>,
    status: Seq<char>,
)
    requires
        value.member("status"@) == Some(JsonView::Text(status)),
        status != "SUCCESS"@ && status != "FAILURE"@ && status != "INTERNAL_ERROR"@ && status
            != "TIMEOUT"@ && status != "CANCELLED"@ && status != "EXPIRED"@,
    ensures
        tracking::state_in(PollTarget::NamedBuild, value, line) matches Some(Ok(poll))
            && tracker.step(Ok(poll)) matches TrackStepView::Running(next) && next.job.status
            == tracker.job.status && next.job.failure_message == tracker.job.failure_message
            && next.consecutive_poll_errors == 0,
{
    law_named_build_is_done_with_a_final_status(value, line, status);
}

/// A build that is polled under its identifier goes on whatever its status: it
/// ends with a poll under the name that such a reply brings.
pub proof fn law_numbered_build_goes_on(tracker: TrackerView, value: JsonView, line: Seq<char>)
    requires
        speaks_of_a_build(value),
    ensures
        tracking::state_in(PollTarget::NumberedBuild, value, line) matches Some(Ok(poll))
            && !poll.done && (tracker.step(Ok(poll)) matches TrackStepView::Running(next) && (said(
            value,
            "name"@,
        ) is Some ==> tracking::target_of(next.job) is NamedBuild)),
{
    law_snapshot_shows_what_is_said(value);
}

/// An operation is done exactly when its reply says so with the value true, and
/// its error is the message in the reply.
pub proof fn law_operation_is_done_when_it_says_so(value: JsonView, line: Seq<char>)
    ensures
        tracking::state_in(PollTarget::Operation, value, line) matches Some(Ok(poll)) && {
            &&& value.member("done"@) == Some(JsonView::Bool(true)) ==> poll.done
            &&& value.member("done"@) != Some(JsonView::Bool(true)) ==> !poll.done
            &&& poll.snapshot == cloud_messages::snapshot_in(value)
            &&& value.member("error"@) matches Some(e) ==> poll.error_message == said(
                e,
                "message"@,
            )
            &&& value.member("error"@) is None ==> poll.error_message is None
        },
{
}

/// A poll that is done ends the following of the job. A build that succeeded is
/// ready; one with a status of a failure tells the detail or the status; one with
/// any other status tells that status; one without a status tells the error of
/// the operation, or that a status or a build is missing.
pub proof fn law_end_of_a_build(tracker: TrackerView, poll: PollView)
    requires
        poll.done,
    ensures
        tracker.step(Ok(poll)) matches TrackStepView::Finished(job) && {
            let status = match poll.snapshot {
                Some(snapshot) => snapshot.status,
                None => None,
            };
            &&& status == Some("SUCCESS"@) ==> job.status is Ready && job.failure_message is None
            &&& status != Some("SUCCESS"@) ==> job.status is Failed && job.failure_message is Some
            &&& (status == Some("FAILURE"@) || status == Some("INTERNAL_ERROR"@) || status == Some(
                "TIMEOUT"@,
            ) || status == Some("CANCELLED"@) || status == Some("EXPIRED"@))
                ==> job.failure_message == match poll.snapshot->0.status_detail {
                Some(detail) => Some(detail),
                None => Some("Cloud Build reported status "@ + status->0),
            }
            &&& (status is Some && status != Some("SUCCESS"@) && status != Some("FAILURE"@)
                && status != Some("INTERNAL_ERROR"@) && status != Some("TIMEOUT"@) && status
                != Some("CANCELLED"@) && status != Some("EXPIRED"@)) ==> job.failure_message == Some(
                "Cloud Build operation completed with unexpected status "@ + status->0,
            )
            &&& status is None && poll.error_message is Some ==> job.failure_message
                == poll.error_message
            &&& poll.snapshot is Some && status is None && poll.error_message is None
                ==> job.failure_message == Some(
                "Cloud Build operation completed without a build status"@,
            )
            &&& poll.snapshot is None && poll.error_message is None ==> job.failure_message == Some(
                "Cloud Build operation completed without a build payload"@,
            )
        },
{
    lemma_failures_are_no_success();
}

/// A poll that is not done changes nothing of how far the job has come, and
/// forgets the polls that failed before it.
pub proof fn law_running_build_is_polled_again(tracker: TrackerView, poll: PollView)
    requires
        !poll.done,
    ensures
        tracker.step(Ok(poll)) matches TrackStepView::Running(next) && next.consecutive_poll_errors
            == 0 && next.job.status == tracker.job.status && next.job.failure_message
            == tracker.job.failure_message && next.job.loaded_to_kind == tracker.job.loaded_to_kind,
{
}

/// What a poll newly says of a build replaces what the job knew of it, what it
/// does not say stays, and nothing else of the job changes.
pub proof fn law_job_learns_what_is_newly_said(tracker: TrackerView, poll: PollView)
    ensures
        ({
            let job = match tracker.step(Ok(poll)) {
                TrackStepView::Running(next) => next.job,
                TrackStepView::Finished(job) => job,
                _ => tracker.job,
            };
            &&& tracker.step(Ok(poll)) is Running || tracker.step(Ok(poll)) is Finished
            &&& job.same_build(tracker.job)
            &&& job.cloud_build_operation_name == tracker.job.cloud_build_operation_name
            &&& job.loaded_to_kind == tracker.job.loaded_to_kind
            &&& poll.snapshot is None ==> job.cloud_build_id == tracker.job.cloud_build_id
                && job.cloud_build_name == tracker.job.cloud_build_name && job.cloud_build_log_url
                == tracker.job.cloud_build_log_url
            &&& poll.snapshot matches Some(s) ==> {
                &&& s.id is Some ==> job.cloud_build_id == s.id
                &&& s.id is None ==> job.cloud_build_id == tracker.job.cloud_build_id
                &&& s.name is Some ==> job.cloud_build_name == s.name
                &&& s.name is None ==> job.cloud_build_name == tracker.job.cloud_build_name
                &&& s.log_url is Some ==> job.cloud_build_log_url == s.log_url
                &&& s.log_url is None ==> job.cloud_build_log_url == tracker.job.cloud_build_log_url
            }
        }),
{
}

/// A failed poll is repeated with the same job and one more failure to its
/// account, until the fifth in a row, whose error ends the following of the job.
pub proof fn law_failed_poll_is_counted(tracker: TrackerView, e: AppErrorView)
    ensures
        tracker.consecutive_poll_errors < 4 ==> tracker.step(Err(e)) == TrackStepView::Retry(
            TrackerView {
                job: tracker.job,
                consecutive_poll_errors: (tracker.consecutive_poll_errors + 1) as u8,
            },
        ),
        tracker.consecutive_poll_errors >= 4 ==> tracker.step(Err(e)) == TrackStepView::GaveUp(e),
{
}

/// A job whose build has a name is polled under that name; else one with an
/// operation is polled by it; else the build is polled by its identifier. A
/// query for an operation is called so in messages.
pub proof fn law_what_is_polled(job: BuildJobView)
    ensures
        job.cloud_build_name is Some <==> tracking::target_of(job) is NamedBuild,
        job.cloud_build_name is None && job.cloud_build_operation_name is Some
            <==> tracking::target_of(job) is Operation,
        PollTarget::Operation.label() == "Cloud Build operation status query"@,
        PollTarget::NamedBuild.label() == "Cloud Build status query"@,
        PollTarget::NumberedBuild.label() == "Cloud Build status query"@,
{
}

/// The query for a build under its name asks Cloud Build for that very name, and
/// names the project and the last part of the name in its parameters.
pub proof fn law_named_build_is_asked_for_by_name(
    config: BuilderConfigView,
    job: BuildJobView,
    name: Seq<char>,
)
    requires
        job.cloud_build_name == Some(name),
        cloud_build::project_id_fault(config.gcp_project_id) is None,
        cloud_build::region_fault(config.gcp_region) is None,
    ensures
        match cloud_build::resource_segments(name, "Cloud Build name"@) {
            Ok(segments) => tracking::poll_endpoint(config, job) == Ok::<Seq<char>, AppErrorView>(
                outside::url_of_path(outside::cloud_build_base(), segments) + "?"@
                    + outside::query_text(
                    seq![("projectId"@, config.gcp_project_id), ("id"@, segments.last())],
                ),
            ),
            Err(e) => tracking::poll_endpoint(config, job) == Err::<Seq<char>, AppErrorView>(e),
        },
{
    reveal_strlit("?");
    if let Ok(segments) = cloud_build::resource_segments(name, "Cloud Build name"@) {
        assert("?"@ =~= seq!['?']);
        let base = outside::url_of_path(outside::cloud_build_base(), segments);
        assert(base.push('?') =~= base + "?"@);
    }
}

/// The query for a build under its identifier asks for that identifier among the
/// builds of the project and the region.
pub proof fn law_numbered_build_is_asked_for_by_its_identifier(
    config: BuilderConfigView,
    job: BuildJobView,
    id: Seq<char>,
)
    requires
        job.cloud_build_name is None,
        job.cloud_build_operation_name is None,
        job.cloud_build_id == Some(id),
        text::trim(id).len() > 0,
        cloud_build::project_id_fault(config.gcp_project_id) is None,
        cloud_build::region_fault(config.gcp_region) is None,
    ensures
        tracking::poll_endpoint(config, job) == Ok::<Seq<char>, AppErrorView>(
            outside::url_of_path(
                outside::cloud_build_base(),
                seq![
                    "v1"@,
                    "projects"@,
                    config.gcp_project_id,
                    "locations"@,
                    config.gcp_region,
                    "builds"@,
                    text::trim(id),
                ],
            ) + "?"@ + outside::query_text(
                seq![("projectId"@, config.gcp_project_id), ("id"@, text::trim(id))],
            ),
        ),
{
    reveal_strlit("?");
    assert("?"@ =~= seq!['?']);
    let segments = cloud_build::builds_segments(config.gcp_project_id, config.gcp_region).push(
        text::trim(id),
    );
    assert(segments =~= seq![
        "v1"@,
        "projects"@,
        config.gcp_project_id,
        "locations"@,
        config.gcp_region,
        "builds"@,
        text::trim(id),
    ]);
    let base = outside::url_of_path(outside::cloud_build_base(), segments);
    assert(base.push('?') =~= base + "?"@);
}

/// The query for an operation asks for it under its own name, with no
/// parameters, whatever project and region the service is set to.
pub proof fn law_operation_is_asked_for_by_name(
    config: BuilderConfigView,
    job: BuildJobView,
    name: Seq<char>,
)
    requires
        job.cloud_build_name is None,
        job.cloud_build_operation_name == Some(name),
    ensures
        match cloud_build::resource_segments(name, "Cloud Build operation name"@) {
            Ok(segments) => tracking::poll_endpoint(config, job) == Ok::<Seq<char>, AppErrorView>(
                outside::url_of_path(outside::cloud_build_base(), segments),
            ),
            Err(e) => tracking::poll_endpoint(config, job) == Err::<Seq<char>, AppErrorView>(e),
        },
{
}

/// Without a valid project and a valid region no build is asked for: the error
/// tells what is wrong, of the project first. Neither is one without a name and
/// an identifier.
pub proof fn law_query_needs_project_region_and_build(config: BuilderConfigView, job: BuildJobView)
    requires
        job.cloud_build_name is Some || job.cloud_build_operation_name is None,
    ensures
        cloud_build::project_id_fault(config.gcp_project_id) matches Some(fault)
            ==> tracking::poll_endpoint(config, job) == Err::<Seq<char>, AppErrorView>(
            AppErrorView::Internal(fault),
        ),
        cloud_build::project_id_fault(config.gcp_project_id) is None ==> (cloud_build::region_fault(
            config.gcp_region,
        ) matches Some(fault) ==> tracking::poll_endpoint(config, job) == Err::<
            Seq<char>,
            AppErrorView,
        >(AppErrorView::Internal(fault))),
        (cloud_build::project_id_fault(config.gcp_project_id) is None && cloud_build::region_fault(
            config.gcp_region,
        ) is None && job.cloud_build_name is None && job.cloud_build_id is None)
            ==> tracking::poll_endpoint(config, job) == Err::<Seq<char>, AppErrorView>(
            AppErrorView::Internal(
                "Cloud build tracking requires either a build name or a build id"@,
            ),
        ),
        (cloud_build::project_id_fault(config.gcp_project_id) is None && cloud_build::region_fault(
            config.gcp_region,
        ) is None && job.cloud_build_name is None && (job.cloud_build_id matches Some(id)
            && text::trim(id).len() == 0)) ==> tracking::poll_endpoint(config, job) == Err::<
            Seq<char>,
            AppErrorView,
        >(AppErrorView::Internal("Cloud Build id must not be empty when provided"@)),
{
}

/// An error about a reply ends with the reply's body as a log line shows it, and
/// comes wherever the body can be shown so.
pub proof fn law_error_tells_the_body(
    label: Seq<char>,
    status_text: Seq<char>,
    body: Seq<char>,
    cause: Seq<char>,
)
    requires
        cloud_messages::fits_log(body),
    ensures
        tracking::refusal(label, status_text, body) == Some(
            AppErrorView::Internal(
                label + " failed with HTTP "@ + status_text + ": "@ + cloud_messages::log_text(body),
            ),
        ),
        tracking::decoding(label, body, Err(cause)) matches Some(Err(e)) && e
            == AppErrorView::Internal(
            "Failed to decode "@ + label + " response: "@ + cause + ". Body: "@
                + cloud_messages::log_text(body),
        ),
{
}

/// A body that is JSON comes to its value, whatever its length, with the value
/// written in one line.
pub proof fn law_json_body_is_taken(label: Seq<char>, body: Seq<char>)
    ensures
        outside::parsed_json(body) matches Ok(value) ==> tracking::decoding(
            label,
            body,
            tracking::parsed_body(body),
        ) == Some(Ok::<(JsonView, Seq<char>), AppErrorView>((value, outside::json_line(value)))),
        outside::parsed_json(body) matches Err(cause) ==> tracking::decoding(
            label,
            body,
            tracking::parsed_body(body),
        ) == tracking::decoding(label, body, Err(cause)),
{
}

/// A body of at most four hundred bytes stands in a log line as it is but for
/// white space at its ends. Of a longer one the first four hundred bytes stand
/// there, and three dots.
pub proof fn law_log_line_holds_the_start_of_a_body(body: Seq<char>)
    ensures
        utf8::encode_utf8(text::trim(body)).len() <= 400 ==> cloud_messages::fits_log(body)
            && cloud_messages::log_text(body) == text::trim(body),
        utf8::encode_utf8(text::trim(body)).len() > 400 && cloud_messages::fits_log(body)
            ==> exists|start: Seq<char>|
            {
                &&& cloud_messages::log_text(body) == #[trigger] (start + "..."@)
                &&& utf8::encode_utf8(start) == utf8::encode_utf8(text::trim(body)).take(400)
            },
        utf8::encode_utf8(text::trim(body)).len() > 400 ==> (cloud_messages::fits_log(body)
            <==> utf8::is_char_boundary(utf8::encode_utf8(text::trim(body)), 400)),
{
    let bytes = utf8::encode_utf8(text::trim(body));
    if bytes.len() > 400 && cloud_messages::fits_log(body) {
        let head = bytes.take(400);
        assert(head =~= bytes.subrange(0, 400));
        utf8::encode_utf8_valid_utf8(text::trim(body));
        utf8::valid_utf8_split(bytes, 400);
        utf8::decode_utf8_encode_utf8(head);
        let start = utf8::decode_utf8(head);
        assert(cloud_messages::log_text(body) == start + "..."@);
    }
}

/// Six statuses are final, and five of them are failures.
pub proof fn law_final_statuses(status: Seq<char>)
    ensures
        cloud_messages::is_failure(status) <==> status == "FAILURE"@ || status == "INTERNAL_ERROR"@
            || status == "TIMEOUT"@ || status == "CANCELLED"@ || status == "EXPIRED"@,
        cloud_messages::is_terminal(status) <==> cloud_messages::is_failure(status) || status
            == "SUCCESS"@,
        !cloud_messages::is_failure("SUCCESS"@),
{
    lemma_failures_are_no_success();
}

/// Snapshots, polls and followed jobs are shown with each of their fields.
pub proof fn law_polls_show_their_fields(
    snapshot: CloudBuildSnapshot,
    poll: CloudBuildPollState,
    tracker: CloudTracker,
)
    ensures
        snapshot@.id == text::opt_text(snapshot.id),
        snapshot@.name == text::opt_text(snapshot.name),
        snapshot@.status == text::opt_text(snapshot.status),
        snapshot@.status_detail == text::opt_text(snapshot.status_detail),
        snapshot@.log_url == text::opt_text(snapshot.log_url),
        poll@.done == poll.done,
        poll@.error_message == text::opt_text(poll.error_message),
        poll.snapshot is None ==> poll@.snapshot is None,
        poll.snapshot matches Some(shown) ==> poll@.snapshot == Some(shown@),
        tracker@.job == tracker.job@,
        tracker@.consecutive_poll_errors == tracker.consecutive_poll_errors,
        cloud_messages::opt_snapshot(Some(snapshot)) == Some(snapshot@),
        cloud_messages::opt_snapshot(None) is None,
{
}

/// Steps, replies and outcomes of polls are shown as what they are.
pub proof fn law_steps_show_what_they_are(
    tracker: CloudTracker,
    job: BuildJob,
    e: AppError,
    reply: CloudBuildReply,
    poll: CloudBuildPollState,
    s: String,
)
    ensures
        TrackStep::Retry(tracker)@ == TrackStepView::Retry(tracker@),
        TrackStep::Running(tracker)@ == TrackStepView::Running(tracker@),
        TrackStep::Finished(job)@ == TrackStepView::Finished(job@),
        TrackStep::GaveUp(e)@ == TrackStepView::GaveUp(e@),
        tracking::reply_result(Some(Ok(reply))) == Some(
            Ok::<(JsonView, Seq<char>), AppErrorView>((reply.json@, reply.line@)),
        ),
        tracking::reply_result(Some(Err(e))) == Some(
            Err::<(JsonView, Seq<char>), AppErrorView>(e@),
        ),
        tracking::reply_result(None) is None,
        tracking::poll_result(Some(Ok(poll))) == Some(Ok::<PollView, AppErrorView>(poll@)),
        tracking::poll_result(Some(Err(e))) == Some(Err::<PollView, AppErrorView>(e@)),
        tracking::poll_result(None) is None,
        tracking::parse_view(Ok(reply)) == Ok::<(JsonView, Seq<char>), Seq<char>>(
            (reply.json@, reply.line@),
        ),
        tracking::parse_view(Err(s)) == Err::<(JsonView, Seq<char>), Seq<char>>(s@),
{
}

/// A query can be sent exactly when the address that it would have is not too
/// long; one that is refused has none.
pub proof fn law_query_fits(config: BuilderConfigView, job: BuildJobView)
    ensures
        job.cloud_build_name matches Some(name) ==> (tracking::poll_fits(config, job) <==> (
        cloud_build::resource_segments(name, "Cloud Build name"@) matches Ok(segments)
            ==> outside::fits_url(segments))),
        job.cloud_build_name is None ==> (job.cloud_build_operation_name matches Some(name) ==> (
        tracking::poll_fits(config, job) <==> (cloud_build::resource_segments(
            name,
            "Cloud Build operation name"@,
        ) matches Ok(segments) ==> outside::fits_url(segments)))),
        job.cloud_build_name is None && job.cloud_build_operation_name is None
            && job.cloud_build_id is None ==> tracking::poll_fits(config, job),
        job.cloud_build_name is None && job.cloud_build_operation_name is None ==> (
        job.cloud_build_id matches Some(id) ==> (tracking::poll_fits(config, job) <==> (text::trim(
            id,
        ).len() > 0 ==> outside::fits_url(
            seq![
                "v1"@,
                "projects"@,
                config.gcp_project_id,
                "locations"@,
                config.gcp_region,
                "builds"@,
                text::trim(id),
            ],
        )))),
{
    if let Some(id) = job.cloud_build_id {
        assert(cloud_build::builds_segments(config.gcp_project_id, config.gcp_region).push(
            text::trim(id),
        ) =~= seq![
            "v1"@,
            "projects"@,
            config.gcp_project_id,
            "locations"@,
            config.gcp_region,
            "builds"@,
            text::trim(id),
        ]);
    }
}

} // verus!
