//! The configuration of the service, read from environment variables.

use crate::models::build_job::{BuildJob, BuildJobView};
use crate::services::builds::BuildsService;
use crate::services::source_bundles::SourceBundlesService;
use crate::text;
use crate::text::{
    chars_of, clone_opt, is_ascii_digit, lowered, owned, same, trimmed,
};
use std::collections::HashMap;
use vstd::prelude::*;
use vstd::string::*;

verus! {

/// Everything that can be configured.
#[derive(Debug)]
pub struct BuilderConfig {
    pub gcp_project_id: String,
    pub gcp_region: String,
    pub artifact_registry_host: String,
    pub artifact_registry_repo: String,
    pub build_source_bucket: String,
    pub bundle_root_dir: String,
    pub cloud_build_timeout_seconds: u64,
    pub cloud_build_poll_interval_seconds: u64,
    pub cloud_build_service_account: Option<String>,
    pub cloud_build_logs_bucket: Option<String>,
    pub local_execution_enabled: bool,
    pub local_docker_binary: String,
    pub local_kind_binary: String,
    pub local_kind_cluster_name: String,
    pub local_kind_load_enabled: bool,
    pub local_mode: bool,
    pub max_upload_files: usize,
    pub max_upload_file_bytes: usize,
    pub max_upload_total_bytes: usize,
    pub max_text_field_bytes: usize,
    pub max_archive_entries: usize,
    pub max_archive_uncompressed_bytes: u64,
    pub max_concurrent_builds: usize,
}

/// The configuration with its texts.
pub struct BuilderConfigView {
    pub gcp_project_id: Seq<char>,
    pub gcp_region: Seq<char>,
    pub artifact_registry_host: Seq<char>,
    pub artifact_registry_repo: Seq<char>,
    pub build_source_bucket: Seq<char>,
    pub bundle_root_dir: Seq<char>,
    pub cloud_build_timeout_seconds: u64,
    pub cloud_build_poll_interval_seconds: u64,
    pub cloud_build_service_account: Option<Seq<char>>,
    pub cloud_build_logs_bucket: Option<Seq<char>>,
    pub local_execution_enabled: bool,
    pub local_docker_binary: Seq<char>,
    pub local_kind_binary: Seq<char>,
    pub local_kind_cluster_name: Seq<char>,
    pub local_kind_load_enabled: bool,
    pub local_mode: bool,
    pub max_upload_files: usize,
    pub max_upload_file_bytes: usize,
    pub max_upload_total_bytes: usize,
    pub max_text_field_bytes: usize,
    pub max_archive_entries: usize,
    pub max_archive_uncompressed_bytes: u64,
    pub max_concurrent_builds: usize,
}

impl View for BuilderConfig {
    type V = BuilderConfigView;

    open spec fn view(&self) -> BuilderConfigView {
        BuilderConfigView {
            gcp_project_id: self.gcp_project_id@,
            gcp_region: self.gcp_region@,
            artifact_registry_host: self.artifact_registry_host@,
            artifact_registry_repo: self.artifact_registry_repo@,
            build_source_bucket: self.build_source_bucket@,
            bundle_root_dir: self.bundle_root_dir@,
            cloud_build_timeout_seconds: self.cloud_build_timeout_seconds,
            cloud_build_poll_interval_seconds: self.cloud_build_poll_interval_seconds,
            cloud_build_service_account: text::opt_text(self.cloud_build_service_account),
            cloud_build_logs_bucket: text::opt_text(self.cloud_build_logs_bucket),
            local_execution_enabled: self.local_execution_enabled,
            local_docker_binary: self.local_docker_binary@,
            local_kind_binary: self.local_kind_binary@,
            local_kind_cluster_name: self.local_kind_cluster_name@,
            local_kind_load_enabled: self.local_kind_load_enabled,
            local_mode: self.local_mode,
            max_upload_files: self.max_upload_files,
            max_upload_file_bytes: self.max_upload_file_bytes,
            max_upload_total_bytes: self.max_upload_total_bytes,
            max_text_field_bytes: self.max_text_field_bytes,
            max_archive_entries: self.max_archive_entries,
            max_archive_uncompressed_bytes: self.max_archive_uncompressed_bytes,
            max_concurrent_builds: self.max_concurrent_builds,
        }
    }
}

impl Clone for BuilderConfig {
    fn clone(&self) -> (r: Self)
        ensures
            r@ == self@,
    {
        BuilderConfig {
            gcp_project_id: self.gcp_project_id.clone(),
            gcp_region: self.gcp_region.clone(),
            artifact_registry_host: self.artifact_registry_host.clone(),
            artifact_registry_repo: self.artifact_registry_repo.clone(),
            build_source_bucket: self.build_source_bucket.clone(),
            bundle_root_dir: self.bundle_root_dir.clone(),
            cloud_build_timeout_seconds: self.cloud_build_timeout_seconds,
            cloud_build_poll_interval_seconds: self.cloud_build_poll_interval_seconds,
            cloud_build_service_account: clone_opt(&self.cloud_build_service_account),
            cloud_build_logs_bucket: clone_opt(&self.cloud_build_logs_bucket),
            local_execution_enabled: self.local_execution_enabled,
            local_docker_binary: self.local_docker_binary.clone(),
            local_kind_binary: self.local_kind_binary.clone(),
            local_kind_cluster_name: self.local_kind_cluster_name.clone(),
            local_kind_load_enabled: self.local_kind_load_enabled,
            local_mode: self.local_mode,
            max_upload_files: self.max_upload_files,
            max_upload_file_bytes: self.max_upload_file_bytes,
            max_upload_total_bytes: self.max_upload_total_bytes,
            max_text_field_bytes: self.max_text_field_bytes,
            max_archive_entries: self.max_archive_entries,
            max_archive_uncompressed_bytes: self.max_archive_uncompressed_bytes,
            max_concurrent_builds: self.max_concurrent_builds,
        }
    }
}

/// A variable of the environment.
#[derive(Debug)]
pub struct EnvVar {
    pub key: String,
    pub value: String,
}

/// The value of the first variable with this name.
pub open spec fn lookup(vars: Seq<EnvVar>, key: Seq<char>) -> Option<Seq<char>>
    decreases vars.len(),
{
    if vars.len() == 0 {
        None
    } else if vars[0].key@ == key {
        Some(vars[0].value@)
    } else {
        lookup(vars.drop_first(), key)
    }
}

pub open spec fn text_setting(
    vars: Seq<EnvVar>,
    key: Seq<char>,
    default: Seq<char>,
) -> Seq<char> {
    match lookup(vars, key) {
        Some(value) => value,
        None => default,
    }
}

pub open spec fn u64_setting(vars: Seq<EnvVar>, key: Seq<char>, default: u64) -> u64 {
    match lookup(vars, key) {
        Some(value) => match text::parse_number(value, u64::MAX as nat) {
            Some(n) => n as u64,
            None => default,
        },
        None => default,
    }
}

/// A number that has to be positive.
pub open spec fn usize_setting(vars: Seq<EnvVar>, key: Seq<char>, default: usize) -> usize {
    match lookup(vars, key) {
        Some(value) => match text::parse_number(value, usize::MAX as nat) {
            Some(n) => if n > 0 {
                n as usize
            } else {
                default
            },
            None => default,
        },
        None => default,
    }
}

/// A text that counts only where it is not blank, without the white space at
/// its ends.
pub open spec fn optional_setting(vars: Seq<EnvVar>, key: Seq<char>) -> Option<Seq<char>> {
    match lookup(vars, key) {
        Some(value) => if text::trim(value).len() > 0 {
            Some(text::trim(value))
        } else {
            None
        },
        None => None,
    }
}

/// The words that switch something on.
pub open spec fn is_yes(value: Seq<char>) -> bool {
    let word = text::lower(text::trim(value));
    word == "1"@ || word == "true"@ || word == "yes"@ || word == "on"@
}

pub open spec fn bool_setting(vars: Seq<EnvVar>, key: Seq<char>, default: bool) -> bool {
    match lookup(vars, key) {
        Some(value) => is_yes(value),
        None => default,
    }
}

/// The configuration that an environment describes, with the defaults for
/// local development.
pub open spec fn config_of(vars: Seq<EnvVar>) -> BuilderConfigView {
    BuilderConfigView {
        gcp_project_id: text_setting(vars, "GCP_PROJECT_ID"@, "altair-isen"@),
        gcp_region: text_setting(vars, "GCP_REGION"@, "europe-west9"@),
        artifact_registry_host: text_setting(
            vars,
            "ARTIFACT_REGISTRY_HOST"@,
            "europe-west9-docker.pkg.dev"@,
        ),
        artifact_registry_repo: text_setting(vars, "ARTIFACT_REGISTRY_REPO"@, "altair-labs"@),
        build_source_bucket: text_setting(vars, "LAB_BUILD_SOURCE_BUCKET"@, "altair-lab-builds"@),
        bundle_root_dir: text_setting(vars, "LAB_BUNDLE_ROOT_DIR"@, "/tmp/altair-lab-builder"@),
        cloud_build_timeout_seconds: u64_setting(vars, "CLOUD_BUILD_TIMEOUT_SECONDS"@, 1200),
        cloud_build_poll_interval_seconds: u64_setting(
            vars,
            "CLOUD_BUILD_POLL_INTERVAL_SECONDS"@,
            5,
        ),
        cloud_build_service_account: optional_setting(vars, "CLOUD_BUILD_SERVICE_ACCOUNT"@),
        cloud_build_logs_bucket: optional_setting(vars, "CLOUD_BUILD_LOGS_BUCKET"@),
        local_execution_enabled: bool_setting(vars, "LAB_BUILDER_LOCAL_EXECUTION_ENABLED"@, true),
        local_docker_binary: text_setting(vars, "LAB_BUILDER_LOCAL_DOCKER_BINARY"@, "docker"@),
        local_kind_binary: text_setting(vars, "LAB_BUILDER_LOCAL_KIND_BINARY"@, "kind"@),
        local_kind_cluster_name: text_setting(
            vars,
            "LAB_BUILDER_LOCAL_KIND_CLUSTER_NAME"@,
            "altair"@,
        ),
        local_kind_load_enabled: bool_setting(vars, "LAB_BUILDER_LOCAL_KIND_LOAD_ENABLED"@, true),
        local_mode: bool_setting(vars, "LAB_BUILDER_LOCAL_MODE"@, true),
        max_upload_files: usize_setting(vars, "LAB_BUILDER_MAX_UPLOAD_FILES"@, 200),
        max_upload_file_bytes: usize_setting(
            vars,
            "LAB_BUILDER_MAX_UPLOAD_FILE_BYTES"@,
            10485760,
        ),
        max_upload_total_bytes: usize_setting(
            vars,
            "LAB_BUILDER_MAX_UPLOAD_TOTAL_BYTES"@,
            52428800,
        ),
        max_text_field_bytes: usize_setting(vars, "LAB_BUILDER_MAX_TEXT_FIELD_BYTES"@, 4096),
        max_archive_entries: usize_setting(vars, "LAB_BUILDER_MAX_ARCHIVE_ENTRIES"@, 2000),
        max_archive_uncompressed_bytes: u64_setting(
            vars,
            "LAB_BUILDER_MAX_ARCHIVE_UNCOMPRESSED_BYTES"@,
            262144000,
        ),
        max_concurrent_builds: usize_setting(vars, "LAB_BUILDER_MAX_CONCURRENT_BUILDS"@, 2),
    }
}

/// A row of digits is worth at least as much as any beginning of it.
proof fn lemma_digits_grow(s: Seq<char>, k: int)
    requires
        0 <= k <= s.len(),
        text::all_digits(s),
    ensures
        text::digits_value(s.take(k)) <= text::digits_value(s),
    decreases s.len(),
{
    if k == s.len() {
        assert(s.take(k) =~= s);
    } else {
        let front = s.drop_last();
        assert forall|i: int| 0 <= i < front.len() implies text::is_digit(#[trigger] front[i]) by {
            assert(front[i] == s[i]);
        }
        lemma_digits_grow(front, k);
        assert(front.take(k) =~= s.take(k));
        assert(text::is_digit(s[s.len() - 1]));
    }
}

/// The number that a text writes in decimal, if it fits.
pub fn parse_u64(s: &str) -> (r: Option<u64>)
    ensures
        match r {
            Some(n) => text::parse_number(s@, u64::MAX as nat) == Some(n as nat),
            None => text::parse_number(s@, u64::MAX as nat) is None,
        },
{
    let cs = chars_of(s);
    let start: usize = if cs.len() > 0 && cs[0] == '+' {
        1
    } else {
        0
    };
    let ghost digits = text::without_plus(s@);
    assert(digits =~= s@.skip(start as int));
    if start == cs.len() {
        return None;
    }
    let mut value: u64 = 0;
    assert(digits.take(0) =~= Seq::<char>::empty());
    for i in start..cs.len()
        invariant
            cs@ == s@,
            start <= cs@.len(),
            digits == text::without_plus(s@),
            digits == s@.skip(start as int),
            forall|j: int| 0 <= j < i - start ==> text::is_digit(#[trigger] digits[j]),
            value == text::digits_value(digits.take(i - start)),
    {
        let c = cs[i];
        assert(digits[i - start] == c);
        if !is_ascii_digit(c) {
            assert(!text::all_digits(digits));
            return None;
        }
        let d: u64 = (c as u32 - '0' as u32) as u64;
        proof {
            let upto = digits.take(i - start + 1);
            assert(upto.drop_last() =~= digits.take(i - start));
            assert(upto.last() == c);
            if text::all_digits(digits) {
                lemma_digits_grow(digits, i - start + 1);
            }
        }
        assert(text::digits_value(digits.take(i - start + 1)) == 10 * value + d);
        match value.checked_mul(10) {
            Some(tens) => match tens.checked_add(d) {
                Some(sum) => {
                    value = sum;
                },
                None => {
                    return None;
                },
            },
            None => {
                return None;
            },
        }
    }
    assert(digits.take(digits.len() as int) =~= digits);
    Some(value)
}

/// The number that a text writes in decimal, if it fits.
pub fn parse_usize(s: &str) -> (r: Option<usize>)
    ensures
        match r {
            Some(n) => text::parse_number(s@, usize::MAX as nat) == Some(n as nat),
            None => text::parse_number(s@, usize::MAX as nat) is None,
        },
{
    match parse_u64(s) {
        Some(n) => if n <= usize::MAX as u64 {
            Some(n as usize)
        } else {
            None
        },
        None => None,
    }
}

/// The value of a variable, if it is set.
pub fn env_value(vars: &Vec<EnvVar>, key: &str) -> (r: Option<String>)
    ensures
        text::opt_text(r) == lookup(vars@, key@),
{
    assert(vars@.skip(0) =~= vars@);
    for i in 0..vars.len()
        invariant
            lookup(vars@, key@) == lookup(vars@.skip(i as int), key@),
    {
        assert(vars@.skip(i as int)[0] == vars@[i as int]);
        assert(vars@.skip(i as int).drop_first() =~= vars@.skip(i + 1));
        if same(vars[i].key.as_str(), key) {
            return Some(vars[i].value.clone());
        }
    }
    None
}

pub fn env_or_default(vars: &Vec<EnvVar>, key: &str, default: &str) -> (r: String)
    ensures
        r@ == text_setting(vars@, key@, default@),
{
    match env_value(vars, key) {
        Some(value) => value,
        None => owned(default),
    }
}

pub fn env_u64_or_default(vars: &Vec<EnvVar>, key: &str, default: u64) -> (r: u64)
    ensures
        r == u64_setting(vars@, key@, default),
{
    match env_value(vars, key) {
        Some(value) => match parse_u64(value.as_str()) {
            Some(n) => n,
            None => default,
        },
        None => default,
    }
}

pub fn env_usize_or_default(vars: &Vec<EnvVar>, key: &str, default: usize) -> (r: usize)
    ensures
        r == usize_setting(vars@, key@, default),
{
    match env_value(vars, key) {
        Some(value) => match parse_usize(value.as_str()) {
            Some(n) => if n > 0 {
                n
            } else {
                default
            },
            None => default,
        },
        None => default,
    }
}

pub fn optional_env(vars: &Vec<EnvVar>, key: &str) -> (r: Option<String>)
    ensures
        text::opt_text(r) == optional_setting(vars@, key@),
{
    match env_value(vars, key) {
        Some(value) => {
            let t = trimmed(value.as_str());
            if t.as_str().is_empty() {
                None
            } else {
                Some(t)
            }
        },
        None => None,
    }
}

pub fn parse_bool_env(vars: &Vec<EnvVar>, key: &str, default: bool) -> (r: bool)
    ensures
        r == bool_setting(vars@, key@, default),
{
    match env_value(vars, key) {
        Some(value) => {
            let word = lowered(trimmed(value.as_str()).as_str());
            same(word.as_str(), "1") || same(word.as_str(), "true") || same(word.as_str(), "yes")
                || same(word.as_str(), "on")
        },
        None => default,
    }
}

impl BuilderConfig {
    /// The configuration that an environment describes.
    pub fn from_env(vars: &Vec<EnvVar>) -> (r: BuilderConfig)
        ensures
            r@ == config_of(vars@),
    {
        BuilderConfig {
            gcp_project_id: env_or_default(vars, "GCP_PROJECT_ID", "altair-isen"),
            gcp_region: env_or_default(vars, "GCP_REGION", "europe-west9"),
            artifact_registry_host: env_or_default(
                vars,
                "ARTIFACT_REGISTRY_HOST",
                "europe-west9-docker.pkg.dev",
            ),
            artifact_registry_repo: env_or_default(vars, "ARTIFACT_REGISTRY_REPO", "altair-labs"),
            build_source_bucket: env_or_default(
                vars,
                "LAB_BUILD_SOURCE_BUCKET",
                "altair-lab-builds",
            ),
            bundle_root_dir: env_or_default(
                vars,
                "LAB_BUNDLE_ROOT_DIR",
                "/tmp/altair-lab-builder",
            ),
            cloud_build_timeout_seconds: env_u64_or_default(
                vars,
                "CLOUD_BUILD_TIMEOUT_SECONDS",
                1200,
            ),
            cloud_build_poll_interval_seconds: env_u64_or_default(
                vars,
                "CLOUD_BUILD_POLL_INTERVAL_SECONDS",
                5,
            ),
            cloud_build_service_account: optional_env(vars, "CLOUD_BUILD_SERVICE_ACCOUNT"),
            cloud_build_logs_bucket: optional_env(vars, "CLOUD_BUILD_LOGS_BUCKET"),
            local_execution_enabled: parse_bool_env(
                vars,
                "LAB_BUILDER_LOCAL_EXECUTION_ENABLED",
                true,
            ),
            local_docker_binary: env_or_default(vars, "LAB_BUILDER_LOCAL_DOCKER_BINARY", "docker"),
            local_kind_binary: env_or_default(vars, "LAB_BUILDER_LOCAL_KIND_BINARY", "kind"),
            local_kind_cluster_name: env_or_default(
                vars,
                "LAB_BUILDER_LOCAL_KIND_CLUSTER_NAME",
                "altair",
            ),
            local_kind_load_enabled: parse_bool_env(
                vars,
                "LAB_BUILDER_LOCAL_KIND_LOAD_ENABLED",
                true,
            ),
            local_mode: parse_bool_env(vars, "LAB_BUILDER_LOCAL_MODE", true),
            max_upload_files: env_usize_or_default(vars, "LAB_BUILDER_MAX_UPLOAD_FILES", 200),
            max_upload_file_bytes: env_usize_or_default(
                vars,
                "LAB_BUILDER_MAX_UPLOAD_FILE_BYTES",
                10485760,
            ),
            max_upload_total_bytes: env_usize_or_default(
                vars,
                "LAB_BUILDER_MAX_UPLOAD_TOTAL_BYTES",
                52428800,
            ),
            max_text_field_bytes: env_usize_or_default(
                vars,
                "LAB_BUILDER_MAX_TEXT_FIELD_BYTES",
                4096,
            ),
            max_archive_entries: env_usize_or_default(
                vars,
                "LAB_BUILDER_MAX_ARCHIVE_ENTRIES",
                2000,
            ),
            max_archive_uncompressed_bytes: env_u64_or_default(
                vars,
                "LAB_BUILDER_MAX_ARCHIVE_UNCOMPRESSED_BYTES",
                262144000,
            ),
            max_concurrent_builds: env_usize_or_default(
                vars,
                "LAB_BUILDER_MAX_CONCURRENT_BUILDS",
                2,
            ),
        }
    }
}

/// What the service is made of.
#[derive(Debug)]
pub struct State {
    pub builds_service: BuildsService,
    pub source_bundles_service: SourceBundlesService,
}

impl State {
    /// A service that is configured by environment variables and knows no jobs
    /// yet.
    pub fn from_env(vars: &Vec<EnvVar>) -> (r: Self)
        ensures
            r.builds_service.config@ == config_of(vars@),
            r.source_bundles_service.config@ == config_of(vars@),
            r.builds_service.stored() == Map::<u128, BuildJobView>::empty(),
    {
        let config = BuilderConfig::from_env(vars);
        let jobs: HashMap<u128, BuildJob> = HashMap::new();
        let builds_service = BuildsService::new(config.clone(), jobs);
        assert(builds_service.stored() =~= Map::<u128, BuildJobView>::empty());
        State { builds_service, source_bundles_service: SourceBundlesService::new(config) }
    }
}

} // verus!
