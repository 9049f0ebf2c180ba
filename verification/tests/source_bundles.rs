use lab_builder::error::AppError;
use lab_builder::models::build_job::Timestamp;
use lab_builder::models::state::{BuilderConfig, EnvVar};
use lab_builder::routes::source_bundles::{
    archive_source, assign_text_field, create_build_from_upload, derive_image_name,
    invalid_multipart, normalize_image_name, read_limited_field_bytes, read_limited_text_field,
    ArchiveSource, FieldStep, SourceBundleMultipartPayload, TextField, UploadForm,
};
use lab_builder::services::context_hash::source_context_hash;
use lab_builder::services::file_policy::{is_allowed_upload_name, is_text_path};
use lab_builder::services::source_bundles::{
    parse_gcs_uri, sanitize_relative_path, upload_outcome, SourceBundlesService, UploadedFileInput,
};

fn config(root: &str) -> BuilderConfig {
    let mut config = BuilderConfig::from_env(&Vec::new());
    config.bundle_root_dir = root.to_string();
    config
}

fn service() -> SourceBundlesService {
    let mut config = config("/tmp/lab-builder-test");
    config.max_upload_files = 2;
    config.max_upload_file_bytes = 8;
    config.max_upload_total_bytes = 10;
    config.max_text_field_bytes = 6;
    SourceBundlesService::new(config)
}

fn input(path: &str, bytes: &[u8]) -> UploadedFileInput {
    UploadedFileInput { relative_path: path.to_string(), bytes: bytes.to_vec() }
}

fn payload() -> SourceBundleMultipartPayload {
    SourceBundleMultipartPayload {
        lab_id: None,
        lab_name: None,
        requested_by: None,
        image_name: None,
        image_tag: None,
        dockerfile_path: None,
        files: Vec::new(),
    }
}

fn bad_request<T>(r: Result<T, AppError>) -> String {
    match r {
        Err(AppError::BadRequest(message)) => message,
        Err(other) => panic!("unexpected error {other:?}"),
        Ok(_) => panic!("an error was expected"),
    }
}

fn internal<T>(r: Result<T, AppError>) -> String {
    match r {
        Err(AppError::Internal(message)) => message,
        Err(other) => panic!("unexpected error {other:?}"),
        Ok(_) => panic!("an error was expected"),
    }
}

#[test]
fn normalize_image_name_slugifies_lab_name() {
    assert_eq!(normalize_image_name("Lab SQLi Guided"), "lab-sqli-guided");
    assert_eq!(normalize_image_name("  CTF.Web 101  "), "ctf.web-101");
}

#[test]
fn normalize_image_name_merges_and_strips_separators() {
    assert_eq!(normalize_image_name("--A__b//C--"), "a-b-c");
    assert_eq!(normalize_image_name("\u{e9}t\u{e9}"), "t");
    assert_eq!(normalize_image_name("***"), "");
    assert_eq!(normalize_image_name(""), "");
    assert_eq!(normalize_image_name(" LAB One "), normalize_image_name(" lab one "));
    let once = normalize_image_name("Lab (v2) / Final!");
    assert_eq!(once, "lab-v2-final");
    assert_eq!(normalize_image_name(&once), once);
}

#[test]
fn upload_policy_accepts_expected_lab_source_files() {
    assert!(is_allowed_upload_name("Dockerfile"));
    assert!(is_allowed_upload_name("README.md"));
    assert!(is_allowed_upload_name("app/start.sh"));
    assert!(is_allowed_upload_name("src/runner.c"));
    assert!(is_allowed_upload_name("src/script.py"));
    assert!(is_allowed_upload_name("assets/app.min.js"));
    assert!(is_allowed_upload_name("uploads/r1/Dockerfile"));
}

#[test]
fn upload_policy_rejects_unknown_or_binary_extensions() {
    assert!(!is_allowed_upload_name("payload.exe"));
    assert!(!is_allowed_upload_name("runner"));
    assert!(!is_allowed_upload_name("server.pyc"));
    assert!(!is_allowed_upload_name("source.zip"));
    assert!(!is_allowed_upload_name("source.tar.gz"));
    assert!(!is_allowed_upload_name("script.sh.exe"));
    assert!(!is_allowed_upload_name("payload.exe.txt"));
    assert!(!is_allowed_upload_name("lib.so.js"));
    assert!(!is_allowed_upload_name("index.html.bak"));
}

#[test]
fn upload_policy_looks_at_the_last_piece_in_any_case() {
    assert!(is_text_path("a\\b\\NOTES.TXT"));
    assert!(is_text_path("  x.Json "));
    assert!(is_text_path("dir.exe/run.sh"));
    assert!(!is_text_path("Payload.EXE.md"));
    assert!(!is_text_path("dockerfile"));
    for directory in ["", " ", "x.exe", "a\\b", "/"] {
        for separator in ["/", "\\"] {
            for name in ["Dockerfile", "a.md", "a.exe", ""] {
                let path = format!("{directory}{separator}{name}");
                assert_eq!(is_text_path(&path), is_text_path(name), "{path:?}");
            }
        }
    }
    assert!(!is_text_path(""));
}

#[test]
fn sanitize_relative_path_rejects_parent_traversal() {
    let result = sanitize_relative_path("../etc/passwd");
    assert!(result.is_err());
}

#[test]
fn sanitize_relative_path_gives_each_error() {
    assert_eq!(bad_request(sanitize_relative_path("  ")), "Uploaded file name must not be empty");
    assert_eq!(
        bad_request(sanitize_relative_path("/etc/passwd")),
        "Uploaded file path must be relative"
    );
    assert_eq!(
        bad_request(sanitize_relative_path("\\etc")),
        "Uploaded file path must be relative"
    );
    assert_eq!(
        bad_request(sanitize_relative_path("a/../b")),
        "Uploaded file path contains forbidden path traversal"
    );
    assert_eq!(
        bad_request(sanitize_relative_path("./.")),
        "Uploaded file path resolved to an empty value"
    );
}

#[test]
fn sanitize_relative_path_keeps_segments() {
    assert_eq!(sanitize_relative_path(" ./app//start.sh/ ").unwrap(), "app/start.sh");
    assert_eq!(sanitize_relative_path("app\\bin\\run").unwrap(), "app/bin/run");
    assert_eq!(sanitize_relative_path("app/bin/run").unwrap(), "app/bin/run");
    assert_eq!(sanitize_relative_path("...").unwrap(), "...");
    assert_eq!(sanitize_relative_path("./ a").unwrap(), " a");
}

#[test]
fn create_source_bundle_writes_archive() {
    let service = SourceBundlesService::new(config("/tmp/lab-builder-test"));
    let files = vec![
        input("Dockerfile", b"FROM debian:bookworm-slim\n"),
        input("app/start.sh", b"#!/bin/sh\necho hello\n"),
    ];
    let mut draft = service
        .create_source_bundle(Some("lab-1".into()), Some("creator-1".into()), &files)
        .expect("bundle creation should succeed");
    let id = uuid::Uuid::from_u128(draft.bundle_id);
    assert_eq!(id.get_version_num(), 4);
    assert_eq!(id.get_variant(), uuid::Variant::RFC4122);
    let workspace = format!("/tmp/lab-builder-test/{id}/workspace");
    assert_eq!(draft.workspace_dir, workspace);
    assert_eq!(draft.artifacts_dir, format!("/tmp/lab-builder-test/{id}/artifacts"));
    assert_eq!(draft.place_file(&files[0]).unwrap(), format!("{workspace}/Dockerfile"));
    assert_eq!(draft.place_file(&files[1]).unwrap(), format!("{workspace}/app/start.sh"));
    let bundle = draft.finish(321);
    assert_eq!(bundle.file_count, 2);
    assert_eq!(bundle.archive_size_bytes, 321);
    assert_eq!(bundle.archive_path, format!("/tmp/lab-builder-test/{id}/artifacts/source.tar.gz"));
    assert_eq!(bundle.files[0].path, "Dockerfile");
    assert_eq!(bundle.files[0].size_bytes, 26);
    assert_eq!(bundle.files[1].path, "app/start.sh");
    assert_eq!(bundle.files[1].size_bytes, 21);
    assert_eq!(bundle.lab_id.as_deref(), Some("lab-1"));
    assert_eq!(bundle.requested_by.as_deref(), Some("creator-1"));
    assert_eq!(
        bundle.suggested_gcs_path,
        format!("gs://altair-lab-builds/builds/lab-1/{id}/source.tar.gz")
    );
    let now = chrono::Utc::now().timestamp();
    assert!(bundle.created_at.seconds > 1_600_000_000 && bundle.created_at.seconds <= now);
    assert!(bundle.created_at.nanos < 2_000_000_000);
}

#[test]
fn two_bundles_have_different_identifiers() {
    let service = SourceBundlesService::new(config("/tmp/x"));
    let files = vec![input("Dockerfile", b"")];
    let a = service.create_source_bundle(None, None, &files).unwrap();
    let b = service.create_source_bundle(None, None, &files).unwrap();
    assert_ne!(a.bundle_id, b.bundle_id);
}

#[test]
fn source_bundle_needs_a_file() {
    let service = SourceBundlesService::new(config("/tmp/x"));
    assert_eq!(
        bad_request(service.create_source_bundle(None, None, &Vec::new())),
        "At least one uploaded file is required"
    );
}

#[test]
fn blank_lab_id_is_anonymous_and_bad_path_leaves_the_draft() {
    let service = SourceBundlesService::new(config("relative/root/"));
    let mut draft = service.draft_bundle(0xff, Some("  ".into()), None);
    assert_eq!(
        draft.suggested_gcs_path,
        "gs://altair-lab-builds/builds/anonymous-lab/00000000-0000-0000-0000-0000000000ff/source.tar.gz"
    );
    assert_eq!(
        draft.archive_path,
        "relative/root/00000000-0000-0000-0000-0000000000ff/artifacts/source.tar.gz"
    );
    assert!(draft.place_file(&input("../x", b"1")).is_err());
    assert_eq!(draft.files.len(), 0);
    let at = Timestamp { seconds: 5, nanos: 6 };
    let bundle = draft.finish_at(7, at);
    assert_eq!(bundle.created_at, at);
    assert_eq!(bundle.file_count, 0);
}

#[test]
fn upload_request_encodes_the_object() {
    let service = SourceBundlesService::new(config("/tmp/x"));
    let draft = service.draft_bundle(1, Some("lab \u{e9}~1".into()), None);
    let bundle = draft.finish(1);
    let request = service.upload_source_bundle_to_gcs(&bundle).unwrap();
    assert_eq!(
        request.endpoint,
        "https://storage.googleapis.com/upload/storage/v1/b/altair-lab-builds/o?uploadType=media&name=builds%2Flab%20%C3%A9~1%2F00000000-0000-0000-0000-000000000001%2Fsource.tar.gz"
    );
    assert_eq!(request.content_type, "application/gzip");
    assert_eq!(request.archive_path, bundle.archive_path);
}

#[test]
fn upload_refuses_a_bucket_that_is_no_bucket() {
    let mut config = config("/tmp/x");
    config.build_source_bucket = "".into();
    let service = SourceBundlesService::new(config);
    let bundle = service.draft_bundle(1, None, None).finish(1);
    assert_eq!(
        internal(service.upload_source_bundle_to_gcs(&bundle)),
        "Invalid suggested GCS path: gs:///builds/anonymous-lab/00000000-0000-0000-0000-000000000001/source.tar.gz"
    );
}

#[test]
fn suggested_path_is_read_back() {
    let service = SourceBundlesService::new(config("/tmp/x"));
    let bundle = service.draft_bundle(2, Some("a/b".into()), None).finish(1);
    let (bucket, object) = parse_gcs_uri(&bundle.suggested_gcs_path).unwrap();
    assert_eq!(bucket, "altair-lab-builds");
    assert_eq!(object, "builds/a/b/00000000-0000-0000-0000-000000000002/source.tar.gz");
    assert_eq!(internal(parse_gcs_uri(" s3://a/b ")), "Invalid suggested GCS path: s3://a/b");
    assert_eq!(internal(parse_gcs_uri("gs://a")), "Invalid suggested GCS path: gs://a");
    assert_eq!(internal(parse_gcs_uri("gs://a/")), "Invalid suggested GCS path: gs://a/");
}

#[test]
fn upload_outcome_tells_status_and_body() {
    let service = SourceBundlesService::new(config("/tmp/x"));
    let bundle = service.draft_bundle(3, None, None).finish(1);
    let path = bundle.suggested_gcs_path.clone();
    assert_eq!(upload_outcome(&bundle, 200, "200 OK", &None).unwrap(), path);
    assert_eq!(upload_outcome(&bundle, 299, "299", &None).unwrap(), path);
    assert_eq!(
        internal(upload_outcome(&bundle, 403, "403 Forbidden", &Some("no".into()))),
        format!("GCS upload failed for {path}: HTTP 403 Forbidden - no")
    );
    assert_eq!(
        internal(upload_outcome(&bundle, 300, "300 Multiple Choices", &None)),
        format!("GCS upload failed for {path}: HTTP 300 Multiple Choices - <unavailable body>")
    );
}

#[test]
fn form_reads_text_fields_and_files() {
    let service = service();
    let form = UploadForm::new();
    let mut reader = match form.begin_field(&service, "lab_id", None).unwrap() {
        FieldStep::Text(reader) => reader,
        other => panic!("unexpected {other:?}"),
    };
    assert_eq!(reader.field, TextField::LabId);
    reader.add_chunk(&service, b"la").unwrap();
    reader.add_chunk(&service, b"b-1").unwrap();
    let form = reader.close().unwrap();
    assert_eq!(form.payload.lab_id.as_deref(), Some("lab-1"));

    let form = match form.begin_field(&service, "unknown", None).unwrap() {
        FieldStep::Skip(form) => form,
        other => panic!("unexpected {other:?}"),
    };
    let mut reader = match form.begin_field(&service, "lab_id", Some("a.txt".into())).unwrap() {
        FieldStep::File(reader) => reader,
        other => panic!("unexpected {other:?}"),
    };
    reader.add_chunk(&service, b"12345").unwrap();
    reader.add_chunk(&service, b"678").unwrap();
    let form = reader.close();
    assert_eq!(form.total_upload_bytes, 8);
    let payload = form.finish();
    assert_eq!(payload.lab_id.as_deref(), Some("lab-1"));
    assert_eq!(payload.files.len(), 1);
    assert_eq!(payload.files[0].relative_path, "a.txt");
    assert_eq!(payload.files[0].bytes, b"12345678");
}

#[test]
fn form_knows_each_text_field() {
    let service = service();
    let names = ["lab_id", "lab_name", "requested_by", "image_name", "image_tag", "dockerfile_path"];
    let mut form = UploadForm::new();
    for name in names {
        let mut reader = match form.begin_field(&service, name, None).unwrap() {
            FieldStep::Text(reader) => reader,
            other => panic!("unexpected {other:?}"),
        };
        assert_eq!(reader.field.field_name(), name);
        reader.add_chunk(&service, &name.as_bytes()[..3]).unwrap();
        form = reader.close().unwrap();
    }
    let p = form.finish();
    assert_eq!(p.lab_id.as_deref(), Some("lab"));
    assert_eq!(p.lab_name.as_deref(), Some("lab"));
    assert_eq!(p.requested_by.as_deref(), Some("req"));
    assert_eq!(p.image_name.as_deref(), Some("ima"));
    assert_eq!(p.image_tag.as_deref(), Some("ima"));
    assert_eq!(p.dockerfile_path.as_deref(), Some("doc"));
}

#[test]
fn form_enforces_its_limits() {
    let service = service();
    assert_eq!(
        bad_request(UploadForm::new().begin_field(&service, "f", Some("x.exe".into()))),
        "Unsupported uploaded file type: x.exe"
    );
    let mut form = UploadForm::new();
    for name in ["a.txt", "b.txt"] {
        form = match form.begin_field(&service, "f", Some(name.into())).unwrap() {
            FieldStep::File(reader) => reader.close(),
            other => panic!("unexpected {other:?}"),
        };
    }
    assert_eq!(
        bad_request(form.begin_field(&service, "f", Some("c.txt".into()))),
        "Upload contains too many files"
    );
    let mut reader = match UploadForm::new().begin_field(&service, "f", Some("a.c".into())).unwrap() {
        FieldStep::File(reader) => reader,
        other => panic!("unexpected {other:?}"),
    };
    assert_eq!(
        bad_request(reader.add_chunk(&service, &[0; 9])),
        "Uploaded file exceeds the configured size limit"
    );
    reader.add_chunk(&service, &[0; 8]).unwrap();
    let form = reader.close();
    let mut reader = match form.begin_field(&service, "f", Some("b.c".into())).unwrap() {
        FieldStep::File(reader) => reader,
        other => panic!("unexpected {other:?}"),
    };
    assert_eq!(
        bad_request(reader.add_chunk(&service, &[0; 3])),
        "Upload exceeds the configured total size limit"
    );
    reader.add_chunk(&service, &[0; 2]).unwrap();
    assert_eq!(reader.close().total_upload_bytes, 10);
}

#[test]
fn text_fields_are_limited_and_must_be_utf8() {
    let service = service();
    let mut reader = match UploadForm::new().begin_field(&service, "image_tag", None).unwrap() {
        FieldStep::Text(reader) => reader,
        other => panic!("unexpected {other:?}"),
    };
    reader.add_chunk(&service, b"123456").unwrap();
    assert_eq!(bad_request(reader.add_chunk(&service, b"7")), "image_tag is too large");
    match reader.read_error("gone") {
        AppError::BadRequest(message) => assert_eq!(message, "Failed to read image_tag: gone"),
        other => panic!("unexpected {other:?}"),
    }
    let mut bytes = vec![1u8];
    assert_eq!(bad_request(read_limited_text_field(&mut bytes, b"23", "x", 2)), "x is too large");
    assert_eq!(bytes, vec![1u8]);
    let mut total = 1usize;
    read_limited_field_bytes(&mut bytes, b"23", 3, 3, &mut total).unwrap();
    assert_eq!((bytes.len(), total), (3, 3));

    let mut target = Some("old".to_string());
    assert_eq!(
        bad_request(assign_text_field(&mut target, vec![0xff, 0xfe], "lab_id")),
        "lab_id must be valid UTF-8"
    );
    assign_text_field(&mut target, b" \t".to_vec(), "lab_id").unwrap();
    assert_eq!(target.as_deref(), Some("old"));
    assign_text_field(&mut target, " n\u{e9}w ".as_bytes().to_vec(), "lab_id").unwrap();
    assert_eq!(target.as_deref(), Some(" n\u{e9}w "));
    match invalid_multipart("cut off") {
        AppError::BadRequest(m) => assert_eq!(m, "Invalid multipart payload: cut off"),
        other => panic!("unexpected {other:?}"),
    }
}

#[test]
fn image_name_is_derived_in_order() {
    let mut p = payload();
    assert_eq!(
        bad_request(derive_image_name(&p)),
        "build upload requires image_name, lab_name or lab_id to derive template_path"
    );
    p.lab_id = Some("Lab 7".into());
    assert_eq!(derive_image_name(&p).unwrap(), "lab-7");
    p.lab_name = Some("My Lab".into());
    assert_eq!(derive_image_name(&p).unwrap(), "my-lab");
    p.image_name = Some("Raw Name".into());
    assert_eq!(derive_image_name(&p).unwrap(), "Raw Name");
    p.image_name = None;
    p.lab_name = Some("!!!".into());
    assert!(derive_image_name(&p).is_err());
}

#[test]
fn build_from_upload_takes_the_payload_over() {
    let mut p = payload();
    p.lab_id = Some("lab-1".into());
    p.image_tag = Some("v2".into());
    p.files = vec![input("Dockerfile", b"FROM scratch\n")];
    let hash = source_context_hash(&p.files);
    let build = create_build_from_upload(p).unwrap();
    assert_eq!(build.image_name, "lab-1");
    assert_eq!(build.source_context_hash, hash);
    assert_eq!(build.files.len(), 1);
    let request = build.request("gs://b/o".into());
    assert_eq!(request.lab_id.as_deref(), Some("lab-1"));
    assert_eq!(request.requested_by, None);
    assert_eq!(request.image_tag.as_deref(), Some("v2"));
    assert_eq!(request.dockerfile_path, None);
    assert_eq!(request.source_archive_path, "gs://b/o");
    assert_eq!(request.source_context_hash, Some(hash));
    assert!(create_build_from_upload(payload()).is_err());

    let service = SourceBundlesService::new(config("/r"));
    let bundle = service.draft_bundle(4, None, None).finish(1);
    match archive_source(true, &bundle) {
        ArchiveSource::Local(path) => assert_eq!(path, bundle.archive_path),
        other => panic!("unexpected {other:?}"),
    }
    assert!(matches!(archive_source(false, &bundle), ArchiveSource::Upload));
}

#[test]
fn context_hash_tells_uploads_apart() {
    let a = source_context_hash(&vec![input("a", b"1"), input("b", b"2")]);
    assert_eq!(a.len(), 36);
    assert_eq!(a, source_context_hash(&vec![input("a", b"1"), input("b", b"2")]));
    assert_ne!(a, source_context_hash(&vec![input("b", b"2"), input("a", b"1")]));
    assert_ne!(a, source_context_hash(&vec![input("a", b"1b"), input("", b"2")]));
    assert_ne!(a, source_context_hash(&vec![input("a", b"1")]));
    let mut bytes = Vec::new();
    bytes.extend_from_slice(&1u64.to_le_bytes());
    bytes.extend_from_slice(b"a");
    bytes.extend_from_slice(&2u64.to_le_bytes());
    bytes.extend_from_slice(b"xy");
    assert_eq!(
        source_context_hash(&vec![input("a", b"xy")]),
        uuid::Uuid::new_v5(&uuid::Uuid::NAMESPACE_OID, &bytes).to_string()
    );
}

#[test]
fn limits_come_from_the_environment() {
    let vars = vec![
        EnvVar { key: "LAB_BUILDER_MAX_UPLOAD_FILES".into(), value: "3".into() },
        EnvVar { key: "LAB_BUILDER_MAX_TEXT_FIELD_BYTES".into(), value: "0".into() },
    ];
    let service = SourceBundlesService::new(BuilderConfig::from_env(&vars));
    assert_eq!(service.max_upload_files(), 3);
    assert_eq!(service.max_text_field_bytes(), 4096);
    assert_eq!(service.max_upload_file_bytes(), 10485760);
    assert_eq!(service.max_upload_total_bytes(), 52428800);
}
