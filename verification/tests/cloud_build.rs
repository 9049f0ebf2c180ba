use lab_builder::error::AppError;
use lab_builder::json::{Json, JsonMember};
use lab_builder::models::build_job::{BuildJob, BuildStatus, CreateBuildRequest, Timestamp};
use lab_builder::models::state::BuilderConfig;
use lab_builder::services::builds::BuildsService;
use lab_builder::services::cloud_build::{
    build_cloud_build_endpoint, build_cloud_build_get_endpoint,
    build_cloud_build_operation_get_endpoint, lookup_fits, normalize_cloud_build_resource_name,
    operation_lookup_fits, submission_fits, validate_gcp_project_id, validate_gcp_region,
};
use lab_builder::services::cloud_messages::{
    can_truncate_for_log, is_terminal_cloud_build_status, normalized_service_account,
    truncate_for_log, CloudBuildSnapshot,
};
use lab_builder::services::tracking::{
    can_poll, cloud_build_get_json, fetch_cloud_build_state, poll_interval_seconds, polled_state,
    CloudBuildPollState, CloudTracker, PollTarget, TrackStep,
};
use lab_builder::services::url_text::path_fits;

fn internal<T>(r: Result<T, AppError>) -> String {
    match r {
        Err(AppError::Internal(message)) => message,
        Err(other) => panic!("unexpected error {other:?}"),
        Ok(_) => panic!("an error was expected"),
    }
}

fn config() -> BuilderConfig {
    let mut config = BuilderConfig::from_env(&Vec::new());
    config.local_mode = false;
    config
}

fn job() -> BuildJob {
    let service = BuildsService::new(config(), std::collections::HashMap::new());
    service.draft_job(
        CreateBuildRequest {
            lab_id: None,
            requested_by: None,
            image_name: "lab".into(),
            image_tag: None,
            source_archive_path: "gs://b/o".into(),
            dockerfile_path: None,
            source_context_hash: None,
        },
        1,
        Timestamp { seconds: 0, nanos: 0 },
    )
}

#[test]
fn normalized_service_account_accepts_email() {
    let value = normalized_service_account(
        "altair-isen",
        Some("build-sa@altair-isen.iam.gserviceaccount.com"),
    )
    .expect("service account should be normalized");

    assert_eq!(
        value,
        "projects/altair-isen/serviceAccounts/build-sa@altair-isen.iam.gserviceaccount.com"
    );
}

#[test]
fn normalized_service_account_keeps_full_names() {
    assert_eq!(
        normalized_service_account("p", Some(" projects/x/serviceAccounts/y ")).as_deref(),
        Some("projects/x/serviceAccounts/y")
    );
    assert_eq!(normalized_service_account("p", Some("  ")), None);
    assert_eq!(normalized_service_account("p", None), None);
}

#[test]
fn validate_gcp_project_id_accepts_standard_project_id() {
    assert!(validate_gcp_project_id("altair-isen").is_ok());
}

#[test]
fn validate_gcp_project_id_rejects_forbidden_characters() {
    assert!(validate_gcp_project_id("altair-isen/evil").is_err());
}

#[test]
fn validate_gcp_project_id_gives_each_error() {
    assert_eq!(internal(validate_gcp_project_id(" ")), "GCP project id must not be empty");
    for bad in ["abcde", "abcdefghijklmnopqrstuvwxyz-0123", "\u{e9}\u{e9}"] {
        assert_eq!(
            internal(validate_gcp_project_id(bad)),
            "GCP project id must be between 6 and 30 characters"
        );
    }
    assert_eq!(
        internal(validate_gcp_project_id("\u{e9}\u{e9}\u{e9}")),
        "GCP project id contains forbidden characters"
    );
    assert_eq!(
        internal(validate_gcp_project_id("1abcdef")),
        "GCP project id must start with a lowercase letter"
    );
    assert_eq!(
        internal(validate_gcp_project_id("abcdef-")),
        "GCP project id must end with a lowercase letter or digit"
    );
    assert!(validate_gcp_project_id(" abcdefghijklmnopqrstuvwxyz-012 ").is_ok());
}

#[test]
fn validate_gcp_region_accepts_standard_region() {
    assert!(validate_gcp_region("europe-west9").is_ok());
}

#[test]
fn validate_gcp_region_rejects_invalid_format() {
    assert!(validate_gcp_region("https://evil.example").is_err());
}

#[test]
fn validate_gcp_region_gives_each_error() {
    assert_eq!(internal(validate_gcp_region("")), "GCP region must not be empty");
    assert_eq!(
        internal(validate_gcp_region("a-34567890123456789012345678901234")),
        "GCP region is too long"
    );
    assert_eq!(
        internal(validate_gcp_region("Europe-west9")),
        "GCP region contains forbidden characters"
    );
    for bad in ["-europe", "europe-", "europe"] {
        assert_eq!(internal(validate_gcp_region(bad)), "GCP region has an invalid format");
    }
}

#[test]
fn build_cloud_build_endpoint_uses_fixed_google_host() {
    let endpoint = build_cloud_build_endpoint("altair-isen", "europe-west9")
        .expect("endpoint should be valid");
    let endpoint = reqwest::Url::parse(&endpoint).expect("endpoint should parse");

    assert_eq!(endpoint.scheme(), "https");
    assert_eq!(endpoint.host_str(), Some("cloudbuild.googleapis.com"));
    assert_eq!(
        endpoint.as_str(),
        "https://cloudbuild.googleapis.com/v1/projects/altair-isen/locations/europe-west9/builds?projectId=altair-isen"
    );
}

#[test]
fn build_cloud_build_endpoint_refuses_bad_names() {
    assert_eq!(
        internal(build_cloud_build_endpoint("x", "europe-west9")),
        "GCP project id must be between 6 and 30 characters"
    );
    assert_eq!(
        internal(build_cloud_build_endpoint("altair-isen", "mars")),
        "GCP region has an invalid format"
    );
    assert_eq!(
        build_cloud_build_endpoint(" altair-isen", "europe-west9").unwrap(),
        "https://cloudbuild.googleapis.com/v1/projects/%20altair-isen/locations/europe-west9/builds?projectId=+altair-isen"
    );
}

#[test]
fn padded_names_add_no_path_segment() {
    let pads = ["", " ", "\t", "\r\n", "\u{a0}", "\u{2003} \t"];
    for a in pads {
        for b in pads {
            let project = format!("{a}altair-isen{b}");
            let region = format!("{b}europe-west9{a}");
            assert!(submission_fits(&project, &region));
            let endpoint = build_cloud_build_endpoint(&project, &region).unwrap();
            let url = reqwest::Url::parse(&endpoint).unwrap();
            assert_eq!(url.scheme(), "https");
            assert_eq!(url.host_str(), Some("cloudbuild.googleapis.com"));
            let segments: Vec<&str> = url.path_segments().unwrap().collect();
            assert_eq!(segments.len(), 6, "{endpoint}");
            assert_eq!(
                (segments[0], segments[1], segments[3], segments[5]),
                ("v1", "projects", "locations", "builds")
            );
            let pairs: Vec<(String, String)> = url.query_pairs().into_owned().collect();
            assert_eq!(pairs, vec![("projectId".to_string(), project)]);
        }
    }
    assert_eq!(
        build_cloud_build_endpoint("\taltair-isen\u{a0}", "europe-west9\n").unwrap(),
        "https://cloudbuild.googleapis.com/v1/projects/altair-isen%C2%A0/locations/europe-west9/builds?projectId=%09altair-isen%C2%A0"
    );
}

#[test]
fn every_ascii_character_is_encoded_as_stated() {
    for u in 1..0x80u8 {
        let c = u as char;
        if c == '/' {
            continue;
        }
        let name = format!("operations/x{c}y");
        assert!(operation_lookup_fits(&name));
        let stays = u > 0x20 && u < 0x7f && !"\"#%<>?\\`{}".contains(c);
        let shown = if matches!(c, '\t' | '\n' | '\r') {
            String::new()
        } else if stays {
            c.to_string()
        } else {
            format!("%{u:02X}")
        };
        assert_eq!(
            build_cloud_build_operation_get_endpoint(&name).unwrap(),
            format!("https://cloudbuild.googleapis.com/v1/operations/x{shown}y")
        );
        let asked = if c == ' ' {
            "+".to_string()
        } else if c.is_ascii_alphanumeric() || "*-._".contains(c) {
            c.to_string()
        } else {
            format!("%{u:02X}")
        };
        let id = format!("x{c}y");
        assert!(lookup_fits("altair-isen", "europe-west9", None, Some(&id)));
        assert!(build_cloud_build_get_endpoint("altair-isen", "europe-west9", None, Some(&id))
            .unwrap()
            .ends_with(&format!("?projectId=altair-isen&id=x{asked}y")));
    }
}

#[test]
fn short_addresses_fit() {
    let segment = |n: usize| vec!["a".repeat(n)];
    assert!(path_fits(&Vec::new()));
    assert!(path_fits(&segment(1000)));
    assert!(path_fits(&vec!["a b".into(), "\t".into(), "\u{e9}/".into()]));
}

#[test]
fn build_cloud_build_get_endpoint_accepts_build_name() {
    let endpoint = build_cloud_build_get_endpoint(
        "altair-isen",
        "europe-west9",
        Some("projects/390873516222/locations/europe-west9/builds/123"),
        None,
    )
    .expect("endpoint should be valid");

    assert_eq!(
        endpoint.as_str(),
        "https://cloudbuild.googleapis.com/v1/projects/390873516222/locations/europe-west9/builds/123?projectId=altair-isen&id=123"
    );
}

#[test]
fn build_cloud_build_get_endpoint_falls_back_to_build_id() {
    let endpoint =
        build_cloud_build_get_endpoint("altair-isen", "europe-west9", None, Some("123"))
            .expect("endpoint should be valid");

    assert_eq!(
        endpoint.as_str(),
        "https://cloudbuild.googleapis.com/v1/projects/altair-isen/locations/europe-west9/builds/123?projectId=altair-isen&id=123"
    );
}

#[test]
fn build_cloud_build_get_endpoint_gives_each_error() {
    let get = |name, id| build_cloud_build_get_endpoint("altair-isen", "europe-west9", name, id);
    assert_eq!(internal(get(Some(" / "), None)), "Cloud Build name must not be empty");
    assert_eq!(
        internal(get(None, Some(" "))),
        "Cloud Build id must not be empty when provided"
    );
    assert_eq!(
        internal(get(None, None)),
        "Cloud build tracking requires either a build name or a build id"
    );
    let odd = get(Some("/v1/a b/../x?y#z@evil.example/"), None).unwrap();
    assert_eq!(
        odd,
        "https://cloudbuild.googleapis.com/v1/a%20b/x%3Fy%23z@evil.example?projectId=altair-isen&id=x%3Fy%23z%40evil.example"
    );
}

#[test]
fn build_cloud_build_operation_get_endpoint_accepts_operation_name_without_v1() {
    let endpoint = build_cloud_build_operation_get_endpoint(
        "operations/build/altair-isen/NmMyNDEwYTItMzBhZC00ZmJmLWE2NzEtZTYwMGEzYjVlODE0",
    )
    .expect("operation endpoint should be valid");

    assert_eq!(
        endpoint.as_str(),
        "https://cloudbuild.googleapis.com/v1/operations/build/altair-isen/NmMyNDEwYTItMzBhZC00ZmJmLWE2NzEtZTYwMGEzYjVlODE0"
    );
}

#[test]
fn resource_names_get_the_version_once() {
    assert_eq!(normalize_cloud_build_resource_name(" /v1/a/b/ ", "N").unwrap(), vec!["v1", "a", "b"]);
    assert_eq!(normalize_cloud_build_resource_name("a//b", "N").unwrap(), vec!["v1", "a", "", "b"]);
    assert_eq!(internal(normalize_cloud_build_resource_name("//", "N")), "N must not be empty");
    assert_eq!(
        internal(build_cloud_build_operation_get_endpoint("")),
        "Cloud Build operation name must not be empty"
    );
}

#[test]
fn terminal_statuses_are_known() {
    for status in ["SUCCESS", "FAILURE", "INTERNAL_ERROR", "TIMEOUT", "CANCELLED", "EXPIRED"] {
        assert!(is_terminal_cloud_build_status(status));
    }
    for status in ["WORKING", "QUEUED", "success", ""] {
        assert!(!is_terminal_cloud_build_status(status));
    }
}

#[test]
fn log_lines_are_cut() {
    assert_eq!(truncate_for_log("  short "), "short");
    let exact = "a".repeat(400);
    assert_eq!(truncate_for_log(&exact), exact);
    assert_eq!(truncate_for_log(&"a".repeat(401)), format!("{exact}..."));
    let even = "\u{e9}".repeat(201);
    assert!(can_truncate_for_log(&even));
    assert_eq!(truncate_for_log(&even), format!("{}...", "\u{e9}".repeat(200)));
    let cut = truncate_for_log(&even);
    assert!(can_truncate_for_log(&cut));
    assert_eq!(truncate_for_log(&cut), cut);
    let odd = format!("a{even}");
    assert!(!can_truncate_for_log(&odd));
}

fn reply(status: u16, text: &str, body: &str) -> Option<Result<Json, AppError>> {
    cloud_build_get_json("Cloud Build status query", status, text, body)
        .map(|r| r.map(|reply| reply.json))
}

#[test]
fn replies_are_decoded() {
    let r = cloud_build_get_json("Q", 200, "200 OK", " {\"b\": [true, null, 1.5], \"a\": \"x\"} ")
        .unwrap()
        .unwrap();
    assert_eq!(r.json.get("a").unwrap().as_str().as_deref(), Some("x"));
    match r.json.get("b").unwrap() {
        Json::Array(items) => {
            assert_eq!(items.len(), 3);
            assert_eq!(items[0].as_bool(), Some(true));
            assert!(matches!(&items[1], Json::Null));
            assert!(matches!(&items[2], Json::Number(n) if n == "1.5"));
        }
        other => panic!("unexpected {other:?}"),
    }
    assert_eq!(r.line, "{\"a\":\"x\",\"b\":[true,null,1.5]}");
}

#[test]
fn bad_replies_tell_the_body() {
    assert_eq!(
        internal(reply(404, "404 Not Found", " nothing ").unwrap()),
        "Cloud Build status query failed with HTTP 404 Not Found: nothing"
    );
    let message = internal(reply(200, "200 OK", "{").unwrap());
    assert_eq!(
        message,
        "Failed to decode Cloud Build status query response: EOF while parsing an object at line 1 column 1. Body: {"
    );
    let uncut = format!("a{}", "\u{e9}".repeat(300));
    assert!(reply(500, "500", &uncut).is_none());
    assert!(reply(200, "200 OK", &uncut).is_none());
    let long_json = format!("\"a{}\"", "\u{e9}".repeat(300));
    assert!(matches!(reply(200, "200 OK", &long_json), Some(Ok(_))));
}

fn parsed(body: &str) -> lab_builder::services::tracking::CloudBuildReply {
    cloud_build_get_json("Q", 200, "200 OK", body).unwrap().unwrap()
}

#[test]
fn snapshots_are_found_in_order() {
    let find = |body: &str| CloudBuildSnapshot::from_value(&parsed(body).json);
    let root = find("{\"id\": \"r\", \"response\": {\"id\": \"s\"}}").unwrap();
    assert_eq!(root.id.as_deref(), Some("r"));
    let response = find("{\"response\": {\"status\": \"WORKING\", \"build\": {\"id\": \"t\"}}}").unwrap();
    assert_eq!((response.id, response.status.as_deref()), (None, Some("WORKING")));
    let inner = find("{\"response\": {\"build\": {\"id\": \"t\"}}, \"build\": {\"id\": \"u\"}}").unwrap();
    assert_eq!(inner.id.as_deref(), Some("t"));
    let build = find("{\"build\": {\"name\": \"u\"}, \"metadata\": {\"build\": {\"id\": \"v\"}}}").unwrap();
    assert_eq!(build.name.as_deref(), Some("u"));
    let meta = find(
        "{\"metadata\": {\"build\": {\"id\": \"v\", \"statusDetail\": \"d\", \"logUrl\": \"l\"}}}",
    )
    .unwrap();
    assert_eq!(meta.id.as_deref(), Some("v"));
    assert_eq!(meta.status_detail.as_deref(), Some("d"));
    assert_eq!(meta.log_url.as_deref(), Some("l"));
    assert!(find("{\"logUrl\": \"l\"}").is_none());
    assert!(find("{\"id\": 5}").is_none());
    assert!(find("[]").is_none());
}

#[test]
fn polls_go_to_the_build_or_its_operation() {
    let config = config();
    let mut job = job();
    assert_eq!(
        internal(fetch_cloud_build_state(&config, &job)),
        "Cloud build tracking requires either a build name or a build id"
    );
    job.cloud_build_id = Some("77".into());
    let request = fetch_cloud_build_state(&config, &job).unwrap();
    assert_eq!(request.target, PollTarget::NumberedBuild);
    assert_eq!(
        request.endpoint,
        "https://cloudbuild.googleapis.com/v1/projects/altair-isen/locations/europe-west9/builds/77?projectId=altair-isen&id=77"
    );
    assert!(can_poll(&config, &job));
    job.cloud_build_operation_name = Some("operations/9".into());
    assert!(can_poll(&config, &job));
    let request = fetch_cloud_build_state(&config, &job).unwrap();
    assert_eq!(request.target, PollTarget::Operation);
    assert_eq!(request.endpoint, "https://cloudbuild.googleapis.com/v1/operations/9");
    assert_eq!(request.target.query_label(), "Cloud Build operation status query");
    job.cloud_build_name = Some("projects/p/builds/77".into());
    let request = fetch_cloud_build_state(&config, &job).unwrap();
    assert_eq!(request.target, PollTarget::NamedBuild);
    assert_eq!(request.target.query_label(), "Cloud Build status query");
}

#[test]
fn polled_states_are_read() {
    let operation = parsed(
        "{\"done\": true, \"error\": {\"message\": \"boom\"}, \"metadata\": {\"build\": {\"id\": \"1\"}}}",
    );
    let state = polled_state(PollTarget::Operation, &operation).unwrap().unwrap();
    assert!(state.done);
    assert_eq!(state.error_message.as_deref(), Some("boom"));
    assert_eq!(state.snapshot.unwrap().id.as_deref(), Some("1"));
    let state = polled_state(PollTarget::Operation, &parsed("{\"done\": \"yes\"}")).unwrap().unwrap();
    assert!(!state.done && state.snapshot.is_none() && state.error_message.is_none());

    let done = parsed("{\"status\": \"FAILURE\"}");
    assert!(polled_state(PollTarget::NamedBuild, &done).unwrap().unwrap().done);
    assert!(!polled_state(PollTarget::NumberedBuild, &done).unwrap().unwrap().done);
    let working = parsed("{\"status\": \"WORKING\"}");
    assert!(!polled_state(PollTarget::NamedBuild, &working).unwrap().unwrap().done);
    assert_eq!(
        internal(polled_state(PollTarget::NamedBuild, &parsed("{ \"x\": 1 }")).unwrap()),
        "Cloud Build status response did not contain the expected fields. Body: {\"x\":1}"
    );
}

fn state(status: Option<&str>, detail: Option<&str>, done: bool) -> CloudBuildPollState {
    CloudBuildPollState {
        snapshot: Some(CloudBuildSnapshot {
            id: Some("id2".into()),
            name: None,
            status: status.map(String::from),
            status_detail: detail.map(String::from),
            log_url: Some("url".into()),
        }),
        done,
        error_message: None,
    }
}

fn finished(step: TrackStep) -> BuildJob {
    match step {
        TrackStep::Finished(job) => job,
        other => panic!("unexpected {other:?}"),
    }
}

#[test]
fn running_build_is_stored_with_what_is_new() {
    let mut start = job();
    start.cloud_build_id = Some("id1".into());
    start.cloud_build_name = Some("name1".into());
    let tracker = CloudTracker { job: start, consecutive_poll_errors: 3 };
    match tracker.track_cloud_build(Ok(state(Some("WORKING"), None, false))) {
        TrackStep::Running(next) => {
            assert_eq!(next.consecutive_poll_errors, 0);
            assert_eq!(next.job.cloud_build_id.as_deref(), Some("id2"));
            assert_eq!(next.job.cloud_build_name.as_deref(), Some("name1"));
            assert_eq!(next.job.cloud_build_log_url.as_deref(), Some("url"));
            assert_eq!(next.job.status, BuildStatus::Queued);
        }
        other => panic!("unexpected {other:?}"),
    }
}

#[test]
fn ended_build_is_ready_or_failed() {
    let end = |poll: CloudBuildPollState| finished(CloudTracker::new(job()).track_cloud_build(Ok(poll)));
    let ready = end(state(Some("SUCCESS"), Some("ignored"), true));
    assert_eq!(ready.status, BuildStatus::Ready);
    assert_eq!(ready.failure_message, None);
    let failed = end(state(Some("FAILURE"), Some("step 1"), true));
    assert_eq!(failed.status, BuildStatus::Failed);
    assert_eq!(failed.failure_message.as_deref(), Some("step 1"));
    let timeout = end(state(Some("TIMEOUT"), None, true));
    assert_eq!(timeout.failure_message.as_deref(), Some("Cloud Build reported status TIMEOUT"));
    let odd = end(state(Some("WORKING"), None, true));
    assert_eq!(
        odd.failure_message.as_deref(),
        Some("Cloud Build operation completed with unexpected status WORKING")
    );
    let silent = end(state(None, None, true));
    assert_eq!(
        silent.failure_message.as_deref(),
        Some("Cloud Build operation completed without a build status")
    );
    let mut told = state(None, None, true);
    told.error_message = Some("told".into());
    assert_eq!(end(told).failure_message.as_deref(), Some("told"));
    let nothing = CloudBuildPollState { snapshot: None, done: true, error_message: None };
    assert_eq!(
        end(nothing).failure_message.as_deref(),
        Some("Cloud Build operation completed without a build payload")
    );
    let error = CloudBuildPollState { snapshot: None, done: true, error_message: Some("e".into()) };
    assert_eq!(end(error).failure_message.as_deref(), Some("e"));
}

#[test]
fn five_failed_polls_in_a_row_end_the_tracking() {
    let mut tracker = CloudTracker::new(job());
    for n in 1..5 {
        tracker = match tracker.track_cloud_build(Err(AppError::Internal(format!("{n}")))) {
            TrackStep::Retry(next) => next,
            other => panic!("unexpected {other:?}"),
        };
        assert_eq!(tracker.consecutive_poll_errors, n);
    }
    let pause = CloudBuildPollState { snapshot: None, done: false, error_message: None };
    let revived = match tracker.track_cloud_build(Ok(pause)) {
        TrackStep::Running(next) => next,
        other => panic!("unexpected {other:?}"),
    };
    assert_eq!(revived.consecutive_poll_errors, 0);
    let last = CloudTracker { job: revived.job, consecutive_poll_errors: 4 };
    match last.track_cloud_build(Err(AppError::Internal("fifth".into()))) {
        TrackStep::GaveUp(AppError::Internal(message)) => assert_eq!(message, "fifth"),
        other => panic!("unexpected {other:?}"),
    }
}

#[test]
fn polls_are_at_least_a_second_apart() {
    let mut config = config();
    assert_eq!(poll_interval_seconds(&config), 5);
    config.cloud_build_poll_interval_seconds = 0;
    assert_eq!(poll_interval_seconds(&config), 1);
}

#[test]
fn first_member_of_a_key_counts() {
    let value = Json::Object(vec![
        JsonMember { key: "a".into(), value: Json::Bool(true) },
        JsonMember { key: "a".into(), value: Json::Bool(false) },
    ]);
    assert_eq!(value.get("a").unwrap().as_bool(), Some(true));
    assert!(value.get("b").is_none());
    assert!(Json::Null.get("a").is_none());
    assert_eq!(Json::Null.as_bool(), None);
    assert_eq!(Json::Null.as_str(), None);
}
