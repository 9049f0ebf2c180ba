use std::collections::HashMap;

use lab_builder::error::{app_error_message, AppError};
use lab_builder::json::Json;
use lab_builder::models::build_job::{
    BuildDispatchMode, BuildJob, BuildStatus, CreateBuildRequest, Timestamp,
};
use lab_builder::models::state::{BuilderConfig, EnvVar, State};
use lab_builder::routes::health::health;
use lab_builder::routes::server::{allowed_origins, listen_address};
use lab_builder::routes::source_bundles::normalize_image_name;
use lab_builder::services::builds::{
    build_slots, parse_gcs_uri, submission_outcome, validate_gcs_path, validate_image_name,
    ArchiveCheck, ArchiveFinding, BuildsService, NewBuild,
};
use lab_builder::services::cloud_messages::{
    CloudBuildApiError, CloudBuildOperation, CloudBuildSnapshot,
};
use lab_builder::services::local_build::{
    build_and_load_locally, check_archive_file, continue_local_build, failure_details,
    local_context_dir, run_command, ArchiveGuard, CommandLine, EntryKind, LocalAction, LocalStage,
    LocalStep,
};
use lab_builder::services::source_bundles::SourceBundlesService;
use lab_builder::services::tracking::{CloudBuildPollState, CloudTracker, TrackStep};

const AT: Timestamp = Timestamp { seconds: 1_700_000_000, nanos: 5 };

fn test_config() -> BuilderConfig {
    let mut config = BuilderConfig::from_env(&Vec::new());
    config.bundle_root_dir = "/tmp/altair-lab-builder-tests".into();
    config.cloud_build_poll_interval_seconds = 1;
    config.local_execution_enabled = false;
    config.local_kind_cluster_name = "kind".into();
    config
}

fn service(local_mode: bool) -> BuildsService {
    let mut config = test_config();
    config.local_mode = local_mode;
    BuildsService::new(config, HashMap::new())
}

fn request(image_name: &str, source: &str) -> CreateBuildRequest {
    CreateBuildRequest {
        lab_id: None,
        requested_by: None,
        image_name: image_name.into(),
        image_tag: None,
        source_archive_path: source.into(),
        dockerfile_path: None,
        source_context_hash: None,
    }
}

fn found(root: &str, path: &str) -> ArchiveFinding {
    ArchiveFinding { root: Ok(root.into()), canonical: Ok(path.into()), is_file: Ok(true) }
}

fn nowhere() -> ArchiveFinding {
    ArchiveFinding {
        root: Err(AppError::Internal("no root".into())),
        canonical: Err("no path".into()),
        is_file: Err("no file".into()),
    }
}

fn bad_request<T>(r: Result<T, AppError>) -> String {
    match r {
        Err(AppError::BadRequest(message)) => message,
        Err(other) => panic!("unexpected error {other:?}"),
        Ok(_) => panic!("an error was expected"),
    }
}

fn internal<T>(r: Result<T, AppError>) -> String {
    match r {
        Err(AppError::Internal(message)) => message,
        Err(other) => panic!("unexpected error {other:?}"),
        Ok(_) => panic!("an error was expected"),
    }
}

fn local_job() -> BuildJob {
    service(true).draft_job(request("lab-local", "/r/a.tar.gz"), 9, AT)
}

#[test]
fn create_build_accepts_local_archive_in_local_mode() {
    let mut service = service(true);
    let archive_path =
        "/tmp/altair-lab-builder-tests/artifacts/1/lab-builder-build.tar.gz".to_string();
    let lookup = match service.validate_source_archive_path(&archive_path) {
        Ok(ArchiveCheck::Lookup(lookup)) => lookup,
        other => panic!("unexpected {other:?}"),
    };
    assert_eq!(lookup.root_dir, "/tmp/altair-lab-builder-tests");
    assert_eq!(lookup.path, archive_path);

    let job = match service
        .create_build(
            CreateBuildRequest {
                lab_id: Some("lab-local".into()),
                requested_by: Some("creator-local".into()),
                image_name: "lab-local".into(),
                image_tag: None,
                source_archive_path: archive_path.clone(),
                dockerfile_path: Some("Dockerfile".into()),
                source_context_hash: None,
            },
            found(&lookup.root_dir, &lookup.path),
        )
        .expect("local archive should be accepted")
    {
        NewBuild::Local(job) => job,
        other => panic!("unexpected {other:?}"),
    };
    assert_eq!(job.dispatch_mode, BuildDispatchMode::LocalDockerKind);
    assert_eq!(job.status, BuildStatus::Submitted);
    assert_eq!(job.template_path, "lab-local:v1");
    assert_eq!(
        job.versioned_image_uri,
        "europe-west9-docker.pkg.dev/altair-isen/altair-labs/lab-local:v1"
    );
    assert_eq!(job.source_archive_path, archive_path);
    assert!(!job.loaded_to_kind);
    assert_eq!(job.local_kind_cluster_name.as_deref(), Some("kind"));
    assert_eq!(uuid::Uuid::from_u128(job.build_id).get_version_num(), 4);

    let build_id = job.build_id;
    let outcome = match build_and_load_locally(&service.config, job.clone()) {
        LocalStep::Finished(done) => Ok(done),
        other => panic!("unexpected {other:?}"),
    };
    service.finish_build(job, outcome);
    let completed_job = service.get_build(build_id).expect("job should exist");
    assert_eq!(completed_job.status, BuildStatus::Ready);
    assert_eq!(completed_job.failure_message, None);
}

#[test]
fn create_build_rejects_gcs_source_in_local_mode() {
    let mut service = service(true);
    let result =
        service.create_build(request("lab-poc-1", "gs://bucket/lab/source.tar.gz"), nowhere());
    assert!(result.is_err());
    assert_eq!(
        bad_request(result),
        "source_archive_path must point to a local .tar.gz archive when LAB_BUILDER_LOCAL_MODE=true"
    );
}

#[test]
fn create_build_uses_cloud_build_in_non_local_mode() {
    let mut service = service(false);
    let archive_path = "/tmp/altair-lab-builder-tests/artifacts/1/lab-builder-cloud.tar.gz";
    let result = service.create_build(
        request("lab-poc-1", archive_path),
        found("/tmp/altair-lab-builder-tests", archive_path),
    );
    assert!(result.is_err());
    assert_eq!(bad_request(result), "source_archive_path must start with gs://");
    assert!(matches!(
        service.validate_source_archive_path(" gs://b/o "),
        Ok(ArchiveCheck::Remote)
    ));
}

#[test]
fn create_build_rejects_local_archive_outside_bundle_root() {
    let mut service = service(true);
    let result = service.create_build(
        CreateBuildRequest {
            lab_id: Some("lab-local".into()),
            requested_by: Some("creator-local".into()),
            image_name: "lab-local".into(),
            image_tag: None,
            source_archive_path: "/tmp/outside-builder-1.tar.gz".into(),
            dockerfile_path: Some("Dockerfile".into()),
            source_context_hash: None,
        },
        found("/tmp/altair-lab-builder-tests", "/tmp/outside-builder-1.tar.gz"),
    );
    assert!(result.is_err());
    assert_eq!(bad_request(result), "Path must stay within the builder root directory");
}

#[test]
fn create_build_reports_what_the_disk_says() {
    let mut service = service(true);
    let root = "/tmp/altair-lab-builder-tests";
    let path = "/tmp/altair-lab-builder-tests/a.tar.gz";
    assert_eq!(
        internal(service.create_build(request("lab", path), nowhere())),
        "no root"
    );
    let mut finding = found(root, path);
    finding.canonical = Err("no path".into());
    assert_eq!(
        bad_request(service.create_build(request("lab", path), finding)),
        "Path must exist: no path"
    );
    let mut finding = found(root, path);
    finding.is_file = Ok(false);
    assert_eq!(
        bad_request(service.create_build(request("BAD", path), finding)),
        "source_archive_path must point to a file"
    );
    assert!(service.create_build(request("lab", path), found(root, path)).is_ok());
}

#[test]
fn source_archive_path_must_not_be_blank_and_root_must_be_absolute() {
    let mut service = service(true);
    assert_eq!(
        bad_request(service.validate_source_archive_path(" \n")),
        "source_archive_path must not be empty"
    );
    service.config.bundle_root_dir = "relative".into();
    assert_eq!(
        internal(service.validate_source_archive_path("/a.tar.gz")),
        "LAB_BUNDLE_ROOT_DIR must be an absolute path"
    );
    service.config.bundle_root_dir = "/root".into();
    assert_eq!(bad_request(service.resolve_local_archive_path(" ")), "Path must not be empty");
}

#[test]
fn archive_files_are_checked() {
    assert_eq!(
        bad_request(check_archive_file("/a", Err("gone".into()))),
        "source_archive_path must point to an existing local archive: gone"
    );
    assert_eq!(
        bad_request(check_archive_file("/a.tar.gz", Ok(false))),
        "source_archive_path must point to a file"
    );
    for bad in ["/a.zip", "/a.gz", "/a.tar.GZ", "/tar.gz", "/a.tgz"] {
        assert_eq!(
            bad_request(check_archive_file(bad, Ok(true))),
            "source_archive_path must point to a .tar.gz archive"
        );
    }
    assert!(check_archive_file("/a.TAR.gz", Ok(true)).is_ok());
    assert!(check_archive_file("/.tar.gz", Ok(true)).is_ok());
}

#[test]
fn parse_gcs_uri_extracts_bucket_and_object() {
    let parsed = parse_gcs_uri("gs://altair-lab-builds/builds/lab-1/v1/source.tar.gz")
        .expect("gcs uri should parse");

    assert_eq!(parsed.bucket, "altair-lab-builds");
    assert_eq!(parsed.object, "builds/lab-1/v1/source.tar.gz");
}

#[test]
fn parse_gcs_uri_gives_each_error() {
    assert_eq!(bad_request(parse_gcs_uri("b/o")), "source_archive_path must start with gs://");
    for bad in ["gs://b", "gs:///o", "gs://b/", "gs://"] {
        assert_eq!(
            bad_request(parse_gcs_uri(bad)),
            "source_archive_path must include both a bucket and an object path"
        );
    }
    assert!(validate_gcs_path(" gs://").is_ok());
    assert!(validate_gcs_path("GS://b/o").is_err());
}

#[test]
fn image_names_are_checked() {
    assert!(validate_image_name("lab-1.2").is_ok());
    assert!(validate_image_name(" lab ").is_ok());
    assert_eq!(bad_request(validate_image_name("  ")), "image_name must not be empty");
    assert_eq!(
        bad_request(validate_image_name("Lab")),
        "image_name must contain only lowercase letters, digits, '-' or '.'"
    );
    assert!(validate_image_name(&normalize_image_name("Lab SQLi (Guided)")).is_ok());
}

#[test]
fn refused_image_name_stores_nothing() {
    let mut service = service(true);
    assert!(service
        .create_build(
            request("No", "/tmp/altair-lab-builder-tests/a.tar.gz"),
            found("/tmp/altair-lab-builder-tests", "/tmp/altair-lab-builder-tests/a.tar.gz"),
        )
        .is_err());
    assert!(service.jobs.is_empty());
}

#[test]
fn remote_job_has_the_registry_image_and_is_not_stored_yet() {
    let mut service = service(false);
    let mut asked = request("lab-poc-1", "gs://b/o");
    asked.image_tag = Some("  ".into());
    asked.dockerfile_path = Some(" docker/Dockerfile ".into());
    let job = match service.create_build_at(asked, nowhere(), 7, AT).unwrap() {
        NewBuild::Submit(job) => job,
        other => panic!("unexpected {other:?}"),
    };
    assert_eq!(job.status, BuildStatus::Queued);
    assert_eq!(job.dispatch_mode, BuildDispatchMode::CloudBuild);
    assert_eq!(
        job.template_path,
        "europe-west9-docker.pkg.dev/altair-isen/altair-labs/lab-poc-1:v1"
    );
    assert_eq!(
        job.latest_image_uri,
        "europe-west9-docker.pkg.dev/altair-isen/altair-labs/lab-poc-1:latest"
    );
    assert_eq!(job.dockerfile_path, "docker/Dockerfile");
    assert_eq!(job.local_kind_cluster_name, None);
    assert_eq!(job.gcp_region, "europe-west9");
    assert_eq!(job.build_source_bucket, "altair-lab-builds");
    assert_eq!(job.created_at, AT);
    match service.get_build(7) {
        Err(AppError::NotFound(message)) => assert_eq!(
            message,
            "Build job 00000000-0000-0000-0000-000000000007 not found"
        ),
        other => panic!("unexpected {other:?}"),
    }
    service.store_job(job);
    assert_eq!(service.get_build(7).unwrap().build_id, 7);
}

fn ready_job(service: &BuildsService, id: u128) -> BuildJob {
    let mut asked = request("first", "gs://b/o");
    asked.source_context_hash = Some("h".into());
    let mut job = service.draft_job(asked, id, AT);
    job.status = BuildStatus::Ready;
    job.cloud_build_id = Some("b1".into());
    job
}

#[test]
fn ready_image_of_the_same_context_is_reused() {
    let mut service = service(false);
    let ready = ready_job(&service, 1);
    service.store_job(ready);
    let mut asked = request("second", "gs://b/p");
    asked.lab_id = Some("lab-2".into());
    asked.source_context_hash = Some("h".into());
    let job = match service.create_build_at(asked, nowhere(), 2, AT).unwrap() {
        NewBuild::Reused(job) => job,
        other => panic!("unexpected {other:?}"),
    };
    assert_eq!(job.build_id, 2);
    assert_eq!(job.lab_id.as_deref(), Some("lab-2"));
    assert_eq!(job.status, BuildStatus::Ready);
    assert_eq!(
        job.template_path,
        "europe-west9-docker.pkg.dev/altair-isen/altair-labs/first:v1"
    );
    assert_eq!(job.cloud_build_id.as_deref(), Some("b1"));
    assert_eq!(service.get_build(2).unwrap().template_path, job.template_path);
}

#[test]
fn image_is_not_reused_where_anything_differs() {
    let mut service = service(false);
    let mut unfinished = ready_job(&service, 1);
    unfinished.status = BuildStatus::Submitted;
    service.store_job(unfinished);
    let mut other = ready_job(&service, 2);
    other.source_context_hash = Some("x".into());
    service.store_job(other);
    let mut tagged = ready_job(&service, 3);
    tagged.image_tag = "v9".into();
    service.store_job(tagged);
    let mut elsewhere = ready_job(&service, 4);
    elsewhere.dockerfile_path = "other/Dockerfile".into();
    service.store_job(elsewhere);
    let mut asked = request("second", "gs://b/p");
    asked.source_context_hash = Some("h".into());
    assert!(matches!(service.create_build_at(asked, nowhere(), 9, AT), Ok(NewBuild::Submit(_))));
    let ready = ready_job(&service, 5);
    service.store_job(ready);
    assert!(matches!(
        service.create_build_at(request("third", "gs://b/p"), nowhere(), 9, AT),
        Ok(NewBuild::Submit(_))
    ));
}

#[test]
fn failed_build_keeps_the_job_and_tells_the_message() {
    let mut service = service(true);
    let job = local_job();
    service.store_job(job.clone());
    service.finish_build(job, Err(AppError::Internal("no docker".into())));
    let failed = service.get_build(9).unwrap();
    assert_eq!(failed.status, BuildStatus::Failed);
    assert_eq!(failed.failure_message.as_deref(), Some("no docker"));
    assert_eq!(failed.template_path, "lab-local:v1");
    assert_eq!(app_error_message(&AppError::NotFound("x".into())), "x");
}

#[test]
fn created_build_is_read_back_while_it_goes_on() {
    let mut service = service(false);
    let job = match service.create_build(request("lab", "gs://b/o"), nowhere()).unwrap() {
        NewBuild::Submit(job) => job,
        other => panic!("unexpected {other:?}"),
    };
    let operation = CloudBuildOperation { name: Some("operations/1".into()), metadata: None, error: None };
    let submitted = submission_outcome(job.clone(), 200, "200 OK", &operation).unwrap();
    service.store_job(submitted.clone());
    service.store_job(service.draft_job(request("other", "gs://b/o"), 1, AT));
    let poll = CloudBuildPollState {
        snapshot: Some(CloudBuildSnapshot {
            id: Some("77".into()),
            name: None,
            status: Some("WORKING".into()),
            status_detail: None,
            log_url: None,
        }),
        done: false,
        error_message: None,
    };
    match CloudTracker::new(submitted.clone()).track_cloud_build(Ok(poll)) {
        TrackStep::Running(next) => service.store_job(next.job),
        other => panic!("unexpected {other:?}"),
    }
    assert_eq!(service.get_build(job.build_id).unwrap().cloud_build_id.as_deref(), Some("77"));
    service.finish_build(submitted, Err(AppError::Internal("lost".into())));
    let now = service.get_build(job.build_id).unwrap();
    assert_eq!(now.status, BuildStatus::Failed);
    assert_eq!(now.build_id, job.build_id);
    assert_eq!(now.image_name, job.image_name);
    assert_eq!(now.template_path, job.template_path);
    assert_eq!(now.source_archive_path, job.source_archive_path);
    assert_eq!(now.created_at, job.created_at);
    assert_eq!(uuid::Uuid::from_u128(job.build_id).get_version_num(), 4);
    assert!(job.created_at.nanos < 2_000_000_000);
}

#[test]
fn storing_a_job_leaves_the_others() {
    let mut service = service(true);
    service.store_job(service.draft_job(request("one", "/r/a.tar.gz"), 1, AT));
    service.store_job(service.draft_job(request("two", "/r/a.tar.gz"), 2, AT));
    service.store_job(service.draft_job(request("three", "/r/a.tar.gz"), 2, AT));
    assert_eq!(service.get_build(1).unwrap().image_name, "one");
    assert_eq!(service.get_build(2).unwrap().image_name, "three");
    assert!(service.get_build(3).is_err());
    assert_eq!(service.jobs.len(), 2);
}

#[test]
fn submission_request_holds_source_step_and_accounts() {
    let mut service = service(false);
    service.config.cloud_build_service_account = Some("sa@p".into());
    service.config.cloud_build_logs_bucket = Some("logs".into());
    let job = service.draft_job(request("lab", "gs://bkt/a/b.tar.gz"), 3, AT);
    let body = service.submit_to_cloud_build(&job).unwrap();
    let source = body.get("source").unwrap().get("storageSource").unwrap();
    assert_eq!(source.get("bucket").unwrap().as_str().as_deref(), Some("bkt"));
    assert_eq!(source.get("object").unwrap().as_str().as_deref(), Some("a/b.tar.gz"));
    assert_eq!(body.get("timeout").unwrap().as_str().as_deref(), Some("1200s"));
    assert_eq!(
        body.get("options").unwrap().get("logging").unwrap().as_str().as_deref(),
        Some("CLOUD_LOGGING_ONLY")
    );
    assert_eq!(
        body.get("serviceAccount").unwrap().as_str().as_deref(),
        Some("projects/altair-isen/serviceAccounts/sa@p")
    );
    assert_eq!(body.get("logsBucket").unwrap().as_str().as_deref(), Some("logs"));
    let steps = match body.get("steps").unwrap() {
        Json::Array(steps) => steps,
        other => panic!("unexpected {other:?}"),
    };
    assert_eq!(steps.len(), 1);
    let args = match steps[0].get("args").unwrap() {
        Json::Array(args) => args,
        other => panic!("unexpected {other:?}"),
    };
    let args: Vec<String> = args.iter().map(|a| a.as_str().unwrap()).collect();
    assert_eq!(
        args,
        vec![
            "build",
            "-f",
            "Dockerfile",
            "-t",
            "europe-west9-docker.pkg.dev/altair-isen/altair-labs/lab:v1",
            "-t",
            "europe-west9-docker.pkg.dev/altair-isen/altair-labs/lab:latest",
            "."
        ]
    );
    let other = service.draft_job(request("lab", "/local.tar.gz"), 3, AT);
    assert!(service.submit_to_cloud_build(&other).is_err());
}

fn text(s: &str) -> Json {
    Json::Text(s.into())
}

fn object(members: Vec<(&str, Json)>) -> Json {
    Json::Object(
        members
            .into_iter()
            .map(|(key, value)| lab_builder::json::JsonMember { key: key.into(), value })
            .collect(),
    )
}

#[test]
fn submission_outcome_reads_the_operation() {
    let job = service(false).draft_job(request("lab", "gs://b/o"), 3, AT);
    let operation = CloudBuildOperation {
        name: Some("operations/1".into()),
        metadata: Some(object(vec![(
            "build",
            object(vec![("id", text("id1")), ("name", text("n1")), ("logUrl", text("http://l"))]),
        )])),
        error: None,
    };
    let done = submission_outcome(job.clone(), 200, "200 OK", &operation).unwrap();
    assert_eq!(done.status, BuildStatus::Submitted);
    assert_eq!(done.cloud_build_operation_name.as_deref(), Some("operations/1"));
    assert_eq!(done.cloud_build_id.as_deref(), Some("id1"));
    assert_eq!(done.cloud_build_name.as_deref(), Some("n1"));
    assert_eq!(done.cloud_build_log_url.as_deref(), Some("http://l"));

    let empty = CloudBuildOperation { name: None, metadata: None, error: None };
    assert_eq!(
        internal(submission_outcome(job.clone(), 503, "503 Service Unavailable", &empty)),
        "Cloud Build API rejected the build request: HTTP 503 Service Unavailable"
    );
    let refused = CloudBuildOperation {
        name: None,
        metadata: None,
        error: Some(CloudBuildApiError { message: Some("denied".into()) }),
    };
    assert_eq!(
        internal(submission_outcome(job, 403, "403 Forbidden", &refused)),
        "Cloud Build API rejected the build request: denied"
    );
}

#[test]
fn local_build_runs_its_stages() {
    let mut config = test_config();
    config.local_execution_enabled = true;
    let (job, stage) = match build_and_load_locally(&config, local_job()) {
        LocalStep::Next(job, stage, LocalAction::ResolveArchive(path)) => {
            assert_eq!(path, "/r/a.tar.gz");
            (job, stage)
        }
        other => panic!("unexpected {other:?}"),
    };
    assert_eq!(stage, LocalStage::Resolving);
    let (job, stage) = match continue_local_build(&config, job, stage, Ok("/root/a.tar.gz".into())) {
        LocalStep::Next(job, stage, LocalAction::ExtractArchive(path)) => {
            assert_eq!(path, "/root/a.tar.gz");
            (job, stage)
        }
        other => panic!("unexpected {other:?}"),
    };
    let (job, stage) = match continue_local_build(&config, job, stage, Ok("/root/ctx".into())) {
        LocalStep::Next(job, stage, LocalAction::Run(command)) => {
            assert_eq!(command.program, "docker");
            assert_eq!(command.args, vec!["build", "-f", "Dockerfile", "-t", "lab-local:v1", "."]);
            assert_eq!(command.current_dir.as_deref(), Some("/root/ctx"));
            (job, stage)
        }
        other => panic!("unexpected {other:?}"),
    };
    let (job, stage) = match continue_local_build(&config, job, stage, Ok(String::new())) {
        LocalStep::Next(job, stage, LocalAction::Run(command)) => {
            assert_eq!(command.program, "kind");
            assert_eq!(
                command.args,
                vec!["load", "docker-image", "lab-local:v1", "--name", "kind"]
            );
            assert_eq!(command.current_dir, None);
            (job, stage)
        }
        other => panic!("unexpected {other:?}"),
    };
    match continue_local_build(&config, job, stage, Ok(String::new())) {
        LocalStep::Finished(job) => {
            assert_eq!(job.status, BuildStatus::Ready);
            assert!(job.loaded_to_kind);
        }
        other => panic!("unexpected {other:?}"),
    }
}

#[test]
fn local_build_without_cluster_ends_after_the_image() {
    let mut config = test_config();
    config.local_kind_load_enabled = false;
    match continue_local_build(&config, local_job(), LocalStage::Building, Ok(String::new())) {
        LocalStep::Finished(job) => {
            assert_eq!(job.status, BuildStatus::Ready);
            assert!(!job.loaded_to_kind);
        }
        other => panic!("unexpected {other:?}"),
    }
    let failed = continue_local_build(
        &config,
        local_job(),
        LocalStage::Extracting,
        Err(AppError::Internal("full".into())),
    );
    assert!(matches!(failed, LocalStep::Failed(AppError::Internal(m)) if m == "full"));
}

#[test]
fn commands_tell_why_they_failed() {
    let command = CommandLine {
        program: "docker".into(),
        args: vec!["build".into(), ".".into()],
        current_dir: None,
    };
    assert!(run_command(&command, true, "", &b"x".to_vec(), &Vec::new()).is_ok());
    assert_eq!(
        internal(run_command(&command, false, "exit status: 1", &b" bad \n".to_vec(), &b"o".to_vec())),
        "Command `docker build .` failed: bad"
    );
    assert_eq!(
        internal(run_command(&command, false, "exit status: 1", &b" ".to_vec(), &b"o\xff".to_vec())),
        "Command `docker build .` failed: o\u{fffd}"
    );
    assert_eq!(
        internal(run_command(&command, false, "exit status: 2", &Vec::new(), &Vec::new())),
        "Command `docker build .` failed: exit status exit status: 2"
    );
    assert_eq!(failure_details("", " out ", "s"), "out");
}

#[test]
fn archive_guard_stops_at_each_limit() {
    let mut config = test_config();
    config.max_archive_entries = 2;
    config.max_archive_uncompressed_bytes = 10;
    let mut guard = ArchiveGuard::new();
    assert_eq!(
        bad_request(guard.take_entry(&config, EntryKind::Symlink, 0)),
        "Source archive contains an unsupported entry type"
    );
    assert_eq!(
        bad_request(guard.take_entry(&config, EntryKind::Regular, 11)),
        "Source archive exceeds the configured uncompressed size limit"
    );
    for kind in [
        EntryKind::Link,
        EntryKind::Char,
        EntryKind::Block,
        EntryKind::Fifo,
        EntryKind::Continuous,
        EntryKind::GnuLongName,
        EntryKind::GnuLongLink,
        EntryKind::GnuSparse,
        EntryKind::XGlobalHeader,
        EntryKind::XHeader,
        EntryKind::Other(b'V'),
    ] {
        assert!(!kind.supported());
        assert!(guard.take_entry(&config, kind, 0).is_err());
    }
    guard.take_entry(&config, EntryKind::Directory, 0).unwrap();
    guard.take_entry(&config, EntryKind::Regular, 10).unwrap();
    assert_eq!(guard, ArchiveGuard { entries: 2, bytes: 10 });
    assert_eq!(
        bad_request(guard.take_entry(&config, EntryKind::Regular, 0)),
        "Source archive contains too many entries"
    );
}

#[test]
fn context_dir_lies_below_the_root() {
    assert_eq!(
        local_context_dir("/root", 0x0123456789abcdef_0123456789abcdef).unwrap(),
        "/root/local-build-contexts/01234567-89ab-cdef-0123-456789abcdef"
    );
}

#[test]
fn bundle_archive_is_a_valid_source() {
    let bundles = SourceBundlesService::new(test_config());
    let bundle = bundles.draft_bundle(5, Some("lab".into()), None).finish(1);
    assert!(check_archive_file(&bundle.archive_path, Ok(true)).is_ok());
    let source = parse_gcs_uri(&bundle.suggested_gcs_path).unwrap();
    assert_eq!(source.bucket, "altair-lab-builds");
}

#[test]
fn state_is_made_of_the_environment() {
    let vars = vec![
        EnvVar { key: "LAB_BUILDER_LOCAL_MODE".into(), value: " No ".into() },
        EnvVar { key: "GCP_PROJECT_ID".into(), value: "p-1".into() },
        EnvVar { key: "CLOUD_BUILD_TIMEOUT_SECONDS".into(), value: "x".into() },
        EnvVar { key: "CLOUD_BUILD_LOGS_BUCKET".into(), value: "  ".into() },
        EnvVar { key: "CLOUD_BUILD_SERVICE_ACCOUNT".into(), value: " sa ".into() },
        EnvVar { key: "LAB_BUILDER_LOCAL_EXECUTION_ENABLED".into(), value: "ON".into() },
        EnvVar { key: "ALLOWED_ORIGINS".into(), value: " http://a ,, http://b".into() },
        EnvVar { key: "PORT".into(), value: "9000".into() },
    ];
    let state = State::from_env(&vars);
    let config = &state.builds_service.config;
    assert!(!state.builds_service.is_local_mode());
    assert_eq!(config.gcp_project_id, "p-1");
    assert_eq!(config.cloud_build_timeout_seconds, 1200);
    assert_eq!(config.cloud_build_logs_bucket, None);
    assert_eq!(config.cloud_build_service_account.as_deref(), Some("sa"));
    assert!(config.local_execution_enabled);
    assert_eq!(config.max_archive_entries, 2000);
    assert_eq!(config.max_archive_uncompressed_bytes, 262144000);
    assert_eq!(state.source_bundles_service.config.bundle_root_dir, "/tmp/altair-lab-builder");
    assert!(state.builds_service.jobs.is_empty());
    let reply = health(&state.builds_service);
    assert_eq!(reply.status, "lab-builder ok");
    assert!(!reply.local_mode);
    assert_eq!(allowed_origins(&vars), vec!["http://a", "http://b"]);
    assert_eq!(listen_address(&vars), "0.0.0.0:9000");
    let none: Vec<EnvVar> = Vec::new();
    assert_eq!(allowed_origins(&none), vec!["http://localhost:5173", "http://localhost:3000"]);
    assert_eq!(listen_address(&none), "0.0.0.0:8086");
}

#[test]
fn at_least_one_build_may_run() {
    let mut config = test_config();
    assert_eq!(build_slots(&config), 2);
    config.max_concurrent_builds = 0;
    assert_eq!(build_slots(&config), 1);
}

#[test]
fn errors_have_status_code_and_line() {
    let reply = AppError::BadRequest("a".into()).into_response();
    assert_eq!((reply.status, reply.code.as_str(), reply.message.as_str()), (400, "BAD_REQUEST", "a"));
    let reply = AppError::NotFound("b".into()).into_response();
    assert_eq!((reply.status, reply.code.as_str(), reply.message.as_str()), (404, "NOT_FOUND", "b"));
    let reply = AppError::Internal("c".into()).into_response();
    assert_eq!(
        (reply.status, reply.code.as_str(), reply.message.as_str()),
        (500, "INTERNAL_ERROR", "c")
    );
    assert_eq!(AppError::BadRequest("a".into()).to_line(), "Bad request: a");
    assert_eq!(AppError::NotFound("b".into()).to_line(), "Resource not found: b");
    assert_eq!(AppError::Internal("c".into()).to_line(), "Internal error: c");
}
