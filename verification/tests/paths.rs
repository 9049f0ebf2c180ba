use lab_builder::error::AppError;
use lab_builder::models::state::{parse_u64, parse_usize};
use lab_builder::services::path_safety::{
    ensure_builder_root_dir, join_paths, join_relative_to_root, path_is_within, path_to_resolve,
    resolve_existing_path_within_root,
};
use lab_builder::text::{
    decimal_of, is_white_space, joined, lowered, replaced, split_text, trimmed, trimmed_of,
};

fn message<T>(r: Result<T, AppError>) -> String {
    match r {
        Err(AppError::BadRequest(message)) => format!("bad: {message}"),
        Err(AppError::Internal(message)) => format!("internal: {message}"),
        Err(other) => panic!("unexpected error {other:?}"),
        Ok(_) => panic!("an error was expected"),
    }
}

#[test]
fn join_relative_to_root_rejects_absolute_paths() {
    let result = join_relative_to_root("/tmp/altair-builder", "/etc/passwd");
    assert!(result.is_err());
    assert_eq!(message(result), "bad: Path must stay relative to the builder workspace");
}

#[test]
fn join_relative_to_root_keeps_to_the_root() {
    assert_eq!(join_relative_to_root("/r", "a/../b").unwrap(), "/r/a/../b");
    assert_eq!(join_relative_to_root("/r/", "a").unwrap(), "/r/a");
    assert_eq!(
        message(join_relative_to_root("/r", "a/../../r/b")),
        "bad: Path escapes the builder workspace"
    );
    assert_eq!(message(join_relative_to_root("/r", "..")), "bad: Path escapes the builder workspace");
}

#[test]
fn ensure_builder_root_dir_rejects_relative_root() {
    let result = ensure_builder_root_dir("relative/path");
    assert!(result.is_err());
    assert_eq!(message(result), "internal: LAB_BUNDLE_ROOT_DIR must be an absolute path");
    assert_eq!(
        message(ensure_builder_root_dir("  ")),
        "internal: LAB_BUNDLE_ROOT_DIR must not be empty"
    );
    assert_eq!(ensure_builder_root_dir(" /tmp/x ").unwrap(), "/tmp/x");
}

#[test]
fn resolve_existing_path_within_root_rejects_outside_file() {
    let result = resolve_existing_path_within_root(
        "/tmp/lab-builder-root-1",
        Ok("/tmp/lab-builder-outside-1.txt".into()),
    );
    assert!(result.is_err());
    assert_eq!(message(result), "bad: Path must stay within the builder root directory");
    assert!(resolve_existing_path_within_root("/tmp/root", Ok("/tmp/root-2/a".into())).is_err());
    assert_eq!(
        message(resolve_existing_path_within_root("/tmp/root", Err("not found".into()))),
        "bad: Path must exist: not found"
    );
    assert_eq!(message(path_to_resolve(" ")), "bad: Path must not be empty");
    assert_eq!(path_to_resolve(" a ").unwrap(), "a");
}

#[test]
fn resolve_existing_path_within_root_accepts_inside_file() {
    let inside = "/tmp/lab-builder-root-1/artifacts/source.tar.gz";
    let resolved = resolve_existing_path_within_root("/tmp/lab-builder-root-1", Ok(inside.into()))
        .expect("inside path should resolve");
    assert_eq!(resolved, inside);
}

#[test]
fn paths_agree_with_the_standard_library() {
    let samples = ["", "/", "a", "./a", "a/./b", "a//b/", "/a/b", "..", "a/..", "/a/../b", "."];
    for a in samples {
        for b in samples {
            let joined = std::path::Path::new(a).join(b);
            assert_eq!(join_paths(a, b), joined.to_str().unwrap(), "{a:?} {b:?}");
            assert_eq!(
                path_is_within(a, b),
                std::path::Path::new(a).starts_with(b),
                "{a:?} {b:?}"
            );
        }
    }
}

#[test]
fn white_space_agrees_with_the_standard_library() {
    for u in 0..=0x10ffffu32 {
        if let Some(c) = char::from_u32(u) {
            assert_eq!(is_white_space(c), c.is_whitespace(), "{u:x}");
        }
    }
}

#[test]
fn texts_agree_with_the_standard_library() {
    for s in ["", " ", "a", " a b ", "\u{3000}x\u{a0}", "--a--b--", "-", "/a//b/", "A\u{c9}z"] {
        assert_eq!(trimmed(s), s.trim());
        assert_eq!(trimmed_of(s, '-'), s.trim_matches('-'));
        assert_eq!(split_text(s, '/'), s.split('/').collect::<Vec<_>>());
        assert_eq!(replaced(s, '/', '-'), s.replace('/', "-"));
        assert_eq!(lowered(s), s.to_ascii_lowercase());
        assert_eq!(joined(&split_text(s, '/'), '/'), s);
    }
}

#[test]
fn numbers_agree_with_the_standard_library() {
    for s in [
        "", "+", "-", "0", "+7", "007", "12a", " 1", "18446744073709551615", "18446744073709551616",
        "99999999999999999999999", "++1", "1+", "\u{665}",
    ] {
        assert_eq!(parse_u64(s), s.parse::<u64>().ok(), "{s:?}");
        assert_eq!(parse_usize(s), s.parse::<usize>().ok(), "{s:?}");
    }
    for n in [0, 9, 10, 1200, u64::MAX] {
        assert_eq!(decimal_of(n), n.to_string());
    }
}
