//! How the configuration follows from environment variables, said variable by
//! variable.

use crate::models::state;
use crate::models::state::{BuilderConfig, EnvVar};
use crate::text;
use crate::text_laws;
use vstd::prelude::*;
use vstd::string::*;

verus! {

/// The configuration is shown with each of its settings.
pub proof fn law_config_shows_its_settings(config: BuilderConfig)
    ensures
        config@.gcp_project_id == config.gcp_project_id@,
        config@.gcp_region == config.gcp_region@,
        config@.artifact_registry_host == config.artifact_registry_host@,
        config@.artifact_registry_repo == config.artifact_registry_repo@,
        config@.build_source_bucket == config.build_source_bucket@,
        config@.bundle_root_dir == config.bundle_root_dir@,
        config@.local_docker_binary == config.local_docker_binary@,
        config@.local_kind_binary == config.local_kind_binary@,
        config@.local_kind_cluster_name == config.local_kind_cluster_name@,
        config@.cloud_build_timeout_seconds == config.cloud_build_timeout_seconds,
        config@.cloud_build_poll_interval_seconds == config.cloud_build_poll_interval_seconds,
        config@.max_archive_uncompressed_bytes == config.max_archive_uncompressed_bytes,
        config@.max_upload_files == config.max_upload_files,
        config@.max_upload_file_bytes == config.max_upload_file_bytes,
        config@.max_upload_total_bytes == config.max_upload_total_bytes,
        config@.max_text_field_bytes == config.max_text_field_bytes,
        config@.max_archive_entries == config.max_archive_entries,
        config@.max_concurrent_builds == config.max_concurrent_builds,
        config@.local_execution_enabled == config.local_execution_enabled,
        config@.local_kind_load_enabled == config.local_kind_load_enabled,
        config@.local_mode == config.local_mode,
        config@.cloud_build_service_account == text::opt_text(config.cloud_build_service_account),
        config@.cloud_build_logs_bucket == text::opt_text(config.cloud_build_logs_bucket),
{
}

/// The value of the first variable with a name.
pub open spec fn first_value(vars: Seq<EnvVar>, key: Seq<char>) -> Option<Seq<char>> {
    if exists|i: int| 0 <= i < vars.len() && (#[trigger] vars[i]).key@ == key {
        let i = choose|i: int|
            {
                &&& 0 <= i < vars.len()
                &&& (#[trigger] vars[i]).key@ == key
                &&& forall|j: int| 0 <= j < i ==> (#[trigger] vars[j]).key@ != key
            };
        Some(vars[i].value@)
    } else {
        None
    }
}

/// A variable that is set more than once counts with its first value, and one
/// that is not set has none.
pub proof fn law_lookup_takes_the_first(vars: Seq<EnvVar>, key: Seq<char>)
    ensures
        state::lookup(vars, key) == first_value(vars, key),
        forall|i: int|
            0 <= i < vars.len() && (#[trigger] vars[i]).key@ == key && (forall|j: int|
                0 <= j < i ==> (#[trigger] vars[j]).key@ != key) ==> state::lookup(vars, key)
                == Some(vars[i].value@),
{
    lemma_lookup(vars, key);
    if exists|i: int| 0 <= i < vars.len() && (#[trigger] vars[i]).key@ == key {
        let k = lemma_first_index(vars, key);
        assert(vars[k].key@ == key);
    }
}

/// The first variable with a name is the one that is looked up.
proof fn lemma_lookup(vars: Seq<EnvVar>, key: Seq<char>)
    ensures
        forall|i: int|
            0 <= i < vars.len() && (#[trigger] vars[i]).key@ == key && (forall|j: int|
                0 <= j < i ==> (#[trigger] vars[j]).key@ != key) ==> state::lookup(vars, key)
                == Some(vars[i].value@),
        (forall|i: int| 0 <= i < vars.len() ==> (#[trigger] vars[i]).key@ != key) ==> state::lookup(
            vars,
            key,
        ) is None,
    decreases vars.len(),
{
    if vars.len() > 0 {
        let rest = vars.drop_first();
        lemma_lookup(rest, key);
        assert forall|i: int|
            0 <= i < vars.len() && (#[trigger] vars[i]).key@ == key && (forall|j: int|
                0 <= j < i ==> (#[trigger] vars[j]).key@ != key) implies state::lookup(vars, key)
            == Some(vars[i].value@) by {
            if i > 0 {
                assert(vars[0].key@ != key);
                assert(rest[i - 1] == vars[i]);
                assert forall|j: int| 0 <= j < i - 1 implies (#[trigger] rest[j]).key@ != key by {
                    assert(rest[j] == vars[j + 1]);
                }
            }
        }
        if forall|i: int| 0 <= i < vars.len() ==> (#[trigger] vars[i]).key@ != key {
            assert(vars[0].key@ != key);
            assert forall|j: int| 0 <= j < rest.len() implies (#[trigger] rest[j]).key@ != key by {
                assert(rest[j] == vars[j + 1]);
            }
        }
    }
}

/// Where a variable with a name stands, a first one does.
proof fn lemma_first_index(vars: Seq<EnvVar>, key: Seq<char>) -> (k: int)
    requires
        exists|i: int| 0 <= i < vars.len() && (#[trigger] vars[i]).key@ == key,
    ensures
        0 <= k < vars.len(),
        vars[k].key@ == key,
        forall|j: int| 0 <= j < k ==> (#[trigger] vars[j]).key@ != key,
    decreases vars.len(),
{
    if vars[0].key@ == key {
        0
    } else {
        let i = choose|i: int| 0 <= i < vars.len() && (#[trigger] vars[i]).key@ == key;
        let rest = vars.drop_first();
        assert(rest[i - 1] == vars[i]);
        let k = lemma_first_index(rest, key);
        assert forall|j: int| 0 <= j < k + 1 implies (#[trigger] vars[j]).key@ != key by {
            if j > 0 {
                assert(rest[j - 1] == vars[j]);
            }
        }
        k + 1
    }
}

/// Each setting that is a text has the value of its variable, as it is, or else
/// its default.
pub proof fn law_text_settings(vars: Seq<EnvVar>)
    ensures
        ({
            let config = state::config_of(vars);
            &&& first_value(vars, "GCP_PROJECT_ID"@) is None ==> config.gcp_project_id == "altair-isen"@
            &&& first_value(vars, "GCP_PROJECT_ID"@) matches Some(value) ==> config.gcp_project_id == value
            &&& first_value(vars, "GCP_REGION"@) is None ==> config.gcp_region == "europe-west9"@
            &&& first_value(vars, "GCP_REGION"@) matches Some(value) ==> config.gcp_region == value
            &&& first_value(vars, "ARTIFACT_REGISTRY_HOST"@) is None ==> config.artifact_registry_host == "europe-west9-docker.pkg.dev"@
            &&& first_value(vars, "ARTIFACT_REGISTRY_HOST"@) matches Some(value) ==> config.artifact_registry_host == value
            &&& first_value(vars, "ARTIFACT_REGISTRY_REPO"@) is None ==> config.artifact_registry_repo == "altair-labs"@
            &&& first_value(vars, "ARTIFACT_REGISTRY_REPO"@) matches Some(value) ==> config.artifact_registry_repo == value
            &&& first_value(vars, "LAB_BUILD_SOURCE_BUCKET"@) is None ==> config.build_source_bucket == "altair-lab-builds"@
            &&& first_value(vars, "LAB_BUILD_SOURCE_BUCKET"@) matches Some(value) ==> config.build_source_bucket == value
            &&& first_value(vars, "LAB_BUNDLE_ROOT_DIR"@) is None ==> config.bundle_root_dir == "/tmp/altair-lab-builder"@
            &&& first_value(vars, "LAB_BUNDLE_ROOT_DIR"@) matches Some(value) ==> config.bundle_root_dir == value
            &&& first_value(vars, "LAB_BUILDER_LOCAL_DOCKER_BINARY"@) is None ==> config.local_docker_binary == "docker"@
            &&& first_value(vars, "LAB_BUILDER_LOCAL_DOCKER_BINARY"@) matches Some(value) ==> config.local_docker_binary == value
            &&& first_value(vars, "LAB_BUILDER_LOCAL_KIND_BINARY"@) is None ==> config.local_kind_binary == "kind"@
            &&& first_value(vars, "LAB_BUILDER_LOCAL_KIND_BINARY"@) matches Some(value) ==> config.local_kind_binary == value
            &&& first_value(vars, "LAB_BUILDER_LOCAL_KIND_CLUSTER_NAME"@) is None ==> config.local_kind_cluster_name == "altair"@
            &&& first_value(vars, "LAB_BUILDER_LOCAL_KIND_CLUSTER_NAME"@) matches Some(value) ==> config.local_kind_cluster_name == value
        }),
{
    law_lookup_takes_the_first(vars, "GCP_PROJECT_ID"@);
    law_lookup_takes_the_first(vars, "GCP_REGION"@);
    law_lookup_takes_the_first(vars, "ARTIFACT_REGISTRY_HOST"@);
    law_lookup_takes_the_first(vars, "ARTIFACT_REGISTRY_REPO"@);
    law_lookup_takes_the_first(vars, "LAB_BUILD_SOURCE_BUCKET"@);
    law_lookup_takes_the_first(vars, "LAB_BUNDLE_ROOT_DIR"@);
    law_lookup_takes_the_first(vars, "LAB_BUILDER_LOCAL_DOCKER_BINARY"@);
    law_lookup_takes_the_first(vars, "LAB_BUILDER_LOCAL_KIND_BINARY"@);
    law_lookup_takes_the_first(vars, "LAB_BUILDER_LOCAL_KIND_CLUSTER_NAME"@);
}

/// Each setting that can be left out has the value of its variable without white
/// space at its ends, unless nothing is left of it.
pub proof fn law_optional_settings(vars: Seq<EnvVar>)
    ensures
        ({
            let config = state::config_of(vars);
            &&& first_value(vars, "CLOUD_BUILD_SERVICE_ACCOUNT"@) is None ==> config.cloud_build_service_account is None
            &&& first_value(vars, "CLOUD_BUILD_SERVICE_ACCOUNT"@) matches Some(value) ==> if text::trim(value).len() > 0 {
                config.cloud_build_service_account == Some(text::trim(value))
            } else {
                config.cloud_build_service_account is None
            }
            &&& first_value(vars, "CLOUD_BUILD_LOGS_BUCKET"@) is None ==> config.cloud_build_logs_bucket is None
            &&& first_value(vars, "CLOUD_BUILD_LOGS_BUCKET"@) matches Some(value) ==> if text::trim(value).len() > 0 {
                config.cloud_build_logs_bucket == Some(text::trim(value))
            } else {
                config.cloud_build_logs_bucket is None
            }
        }),
{
    law_lookup_takes_the_first(vars, "CLOUD_BUILD_SERVICE_ACCOUNT"@);
    law_lookup_takes_the_first(vars, "CLOUD_BUILD_LOGS_BUCKET"@);
}

/// The words that switch something on, in small letters or in capitals, with
/// white space at their ends or without.
pub open spec fn says_yes(value: Seq<char>) -> bool {
    ||| text::lower(text::trim(value)) == "1"@
    ||| text::lower(text::trim(value)) == "true"@
    ||| text::lower(text::trim(value)) == "yes"@
    ||| text::lower(text::trim(value)) == "on"@
}

/// Each setting that is switched on or off is on where its variable is not set,
/// and else exactly where it says one of four words.
pub proof fn law_switched_settings(vars: Seq<EnvVar>)
    ensures
        ({
            let config = state::config_of(vars);
            &&& first_value(vars, "LAB_BUILDER_LOCAL_EXECUTION_ENABLED"@) is None ==> config.local_execution_enabled
            &&& first_value(vars, "LAB_BUILDER_LOCAL_EXECUTION_ENABLED"@) matches Some(value) ==> (config.local_execution_enabled
                <==> says_yes(value))
            &&& first_value(vars, "LAB_BUILDER_LOCAL_KIND_LOAD_ENABLED"@) is None ==> config.local_kind_load_enabled
            &&& first_value(vars, "LAB_BUILDER_LOCAL_KIND_LOAD_ENABLED"@) matches Some(value) ==> (config.local_kind_load_enabled
                <==> says_yes(value))
            &&& first_value(vars, "LAB_BUILDER_LOCAL_MODE"@) is None ==> config.local_mode
            &&& first_value(vars, "LAB_BUILDER_LOCAL_MODE"@) matches Some(value) ==> (config.local_mode
                <==> says_yes(value))
        }),
{
    law_lookup_takes_the_first(vars, "LAB_BUILDER_LOCAL_EXECUTION_ENABLED"@);
    law_lookup_takes_the_first(vars, "LAB_BUILDER_LOCAL_KIND_LOAD_ENABLED"@);
    law_lookup_takes_the_first(vars, "LAB_BUILDER_LOCAL_MODE"@);
}

/// Each setting that is a number has the number that its variable writes in
/// decimal; where it is not set, or writes no number, it has its default.
pub proof fn law_number_settings(vars: Seq<EnvVar>, n: u64, other: Seq<char>)
    requires
        text::parse_number(other, u64::MAX as nat) is None,
    ensures
        ({
            let config = state::config_of(vars);
            let written = text::decimal(n as nat);
            &&& first_value(vars, "CLOUD_BUILD_TIMEOUT_SECONDS"@) is None ==> config.cloud_build_timeout_seconds == 1200
            &&& first_value(vars, "CLOUD_BUILD_TIMEOUT_SECONDS"@) == Some(written) ==> config.cloud_build_timeout_seconds == n
            &&& first_value(vars, "CLOUD_BUILD_TIMEOUT_SECONDS"@) == Some(other) ==> config.cloud_build_timeout_seconds == 1200
            &&& first_value(vars, "CLOUD_BUILD_POLL_INTERVAL_SECONDS"@) is None ==> config.cloud_build_poll_interval_seconds == 5
            &&& first_value(vars, "CLOUD_BUILD_POLL_INTERVAL_SECONDS"@) == Some(written) ==> config.cloud_build_poll_interval_seconds == n
            &&& first_value(vars, "CLOUD_BUILD_POLL_INTERVAL_SECONDS"@) == Some(other) ==> config.cloud_build_poll_interval_seconds == 5
            &&& first_value(vars, "LAB_BUILDER_MAX_ARCHIVE_UNCOMPRESSED_BYTES"@) is None ==> config.max_archive_uncompressed_bytes == 262144000
            &&& first_value(vars, "LAB_BUILDER_MAX_ARCHIVE_UNCOMPRESSED_BYTES"@) == Some(written) ==> config.max_archive_uncompressed_bytes == n
            &&& first_value(vars, "LAB_BUILDER_MAX_ARCHIVE_UNCOMPRESSED_BYTES"@) == Some(other) ==> config.max_archive_uncompressed_bytes == 262144000
        }),
{
    text_laws::law_numbers_are_read(n as nat, u64::MAX as nat, other);
    law_lookup_takes_the_first(vars, "CLOUD_BUILD_TIMEOUT_SECONDS"@);
    law_lookup_takes_the_first(vars, "CLOUD_BUILD_POLL_INTERVAL_SECONDS"@);
    law_lookup_takes_the_first(vars, "LAB_BUILDER_MAX_ARCHIVE_UNCOMPRESSED_BYTES"@);
}

/// Each setting that is a limit has the number that its variable writes in
/// decimal; where that is zero, or no number, or the variable is not set, it has
/// its default.
pub proof fn law_limit_settings(vars: Seq<EnvVar>, n: usize, other: Seq<char>)
    requires
        text::parse_number(other, usize::MAX as nat) is None,
    ensures
        ({
            let config = state::config_of(vars);
            let written = text::decimal(n as nat);
            &&& first_value(vars, "LAB_BUILDER_MAX_UPLOAD_FILES"@) is None ==> config.max_upload_files == 200
            &&& first_value(vars, "LAB_BUILDER_MAX_UPLOAD_FILES"@) == Some(written) && n > 0 ==> config.max_upload_files == n
            &&& first_value(vars, "LAB_BUILDER_MAX_UPLOAD_FILES"@) == Some(written) && n == 0 ==> config.max_upload_files == 200
            &&& first_value(vars, "LAB_BUILDER_MAX_UPLOAD_FILES"@) == Some(other) ==> config.max_upload_files == 200
            &&& first_value(vars, "LAB_BUILDER_MAX_UPLOAD_FILE_BYTES"@) is None ==> config.max_upload_file_bytes == 10485760
            &&& first_value(vars, "LAB_BUILDER_MAX_UPLOAD_FILE_BYTES"@) == Some(written) && n > 0 ==> config.max_upload_file_bytes == n
            &&& first_value(vars, "LAB_BUILDER_MAX_UPLOAD_FILE_BYTES"@) == Some(written) && n == 0 ==> config.max_upload_file_bytes == 10485760
            &&& first_value(vars, "LAB_BUILDER_MAX_UPLOAD_FILE_BYTES"@) == Some(other) ==> config.max_upload_file_bytes == 10485760
            &&& first_value(vars, "LAB_BUILDER_MAX_UPLOAD_TOTAL_BYTES"@) is None ==> config.max_upload_total_bytes == 52428800
            &&& first_value(vars, "LAB_BUILDER_MAX_UPLOAD_TOTAL_BYTES"@) == Some(written) && n > 0 ==> config.max_upload_total_bytes == n
            &&& first_value(vars, "LAB_BUILDER_MAX_UPLOAD_TOTAL_BYTES"@) == Some(written) && n == 0 ==> config.max_upload_total_bytes == 52428800
            &&& first_value(vars, "LAB_BUILDER_MAX_UPLOAD_TOTAL_BYTES"@) == Some(other) ==> config.max_upload_total_bytes == 52428800
            &&& first_value(vars, "LAB_BUILDER_MAX_TEXT_FIELD_BYTES"@) is None ==> config.max_text_field_bytes == 4096
            &&& first_value(vars, "LAB_BUILDER_MAX_TEXT_FIELD_BYTES"@) == Some(written) && n > 0 ==> config.max_text_field_bytes == n
            &&& first_value(vars, "LAB_BUILDER_MAX_TEXT_FIELD_BYTES"@) == Some(written) && n == 0 ==> config.max_text_field_bytes == 4096
            &&& first_value(vars, "LAB_BUILDER_MAX_TEXT_FIELD_BYTES"@) == Some(other) ==> config.max_text_field_bytes == 4096
            &&& first_value(vars, "LAB_BUILDER_MAX_ARCHIVE_ENTRIES"@) is None ==> config.max_archive_entries == 2000
            &&& first_value(vars, "LAB_BUILDER_MAX_ARCHIVE_ENTRIES"@) == Some(written) && n > 0 ==> config.max_archive_entries == n
            &&& first_value(vars, "LAB_BUILDER_MAX_ARCHIVE_ENTRIES"@) == Some(written) && n == 0 ==> config.max_archive_entries == 2000
            &&& first_value(vars, "LAB_BUILDER_MAX_ARCHIVE_ENTRIES"@) == Some(other) ==> config.max_archive_entries == 2000
            &&& first_value(vars, "LAB_BUILDER_MAX_CONCURRENT_BUILDS"@) is None ==> config.max_concurrent_builds == 2
            &&& first_value(vars, "LAB_BUILDER_MAX_CONCURRENT_BUILDS"@) == Some(written) && n > 0 ==> config.max_concurrent_builds == n
            &&& first_value(vars, "LAB_BUILDER_MAX_CONCURRENT_BUILDS"@) == Some(written) && n == 0 ==> config.max_concurrent_builds == 2
            &&& first_value(vars, "LAB_BUILDER_MAX_CONCURRENT_BUILDS"@) == Some(other) ==> config.max_concurrent_builds == 2
        }),
{
    text_laws::law_numbers_are_read(n as nat, usize::MAX as nat, other);
    law_lookup_takes_the_first(vars, "LAB_BUILDER_MAX_UPLOAD_FILES"@);
    law_lookup_takes_the_first(vars, "LAB_BUILDER_MAX_UPLOAD_FILE_BYTES"@);
    law_lookup_takes_the_first(vars, "LAB_BUILDER_MAX_UPLOAD_TOTAL_BYTES"@);
    law_lookup_takes_the_first(vars, "LAB_BUILDER_MAX_TEXT_FIELD_BYTES"@);
    law_lookup_takes_the_first(vars, "LAB_BUILDER_MAX_ARCHIVE_ENTRIES"@);
    law_lookup_takes_the_first(vars, "LAB_BUILDER_MAX_CONCURRENT_BUILDS"@);
}

/// A text, a switch and an optional text are read from any variable in the same
/// way: as it is, by the four words, and without white space at its ends.
pub proof fn law_settings_by_variable(
    vars: Seq<EnvVar>,
    key: Seq<char>,
    text_default: Seq<char>,
    switch_default: bool,
)
    ensures
        first_value(vars, key) is None ==> {
            &&& state::text_setting(vars, key, text_default) == text_default
            &&& state::bool_setting(vars, key, switch_default) == switch_default
            &&& state::optional_setting(vars, key) is None
        },
        first_value(vars, key) matches Some(value) ==> {
            &&& state::text_setting(vars, key, text_default) == value
            &&& (state::bool_setting(vars, key, switch_default) <==> says_yes(value))
            &&& text::trim(value).len() > 0 ==> state::optional_setting(vars, key) == Some(
                text::trim(value),
            )
            &&& text::trim(value).len() == 0 ==> state::optional_setting(vars, key) is None
        },
{
    law_lookup_takes_the_first(vars, key);
}

/// A number is read from any variable in the same way: what is written there in
/// decimal, or else the default. As a limit, zero is no number.
pub proof fn law_numbers_by_variable(
    vars: Seq<EnvVar>,
    key: Seq<char>,
    number_default: u64,
    limit_default: usize,
)
    ensures
        first_value(vars, key) is None ==> {
            &&& state::u64_setting(vars, key, number_default) == number_default
            &&& state::usize_setting(vars, key, limit_default) == limit_default
        },
        first_value(vars, key) matches Some(value) ==> {
            &&& text::parse_number(value, u64::MAX as nat) matches Some(n) ==> state::u64_setting(
                vars,
                key,
                number_default,
            ) == n
            &&& text::parse_number(value, u64::MAX as nat) is None ==> state::u64_setting(
                vars,
                key,
                number_default,
            ) == number_default
            &&& text::parse_number(value, usize::MAX as nat) matches Some(n) ==> (n > 0
                ==> state::usize_setting(vars, key, limit_default) == n)
            &&& (text::parse_number(value, usize::MAX as nat) is None || text::parse_number(
                value,
                usize::MAX as nat,
            ) == Some(0nat)) ==> state::usize_setting(vars, key, limit_default) == limit_default
        },
{
    law_lookup_takes_the_first(vars, key);
    if let Some(value) = first_value(vars, key) {
        text_laws::law_numbers_are_read(0, u64::MAX as nat, value);
        text_laws::law_numbers_are_read(0, usize::MAX as nat, value);
    }
}

} // verus!
