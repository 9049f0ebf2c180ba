//! Google Cloud Build: the addresses of its API, the build requests, and what
//! its replies say.

use crate::error;
use crate::error::{internal, AppError, AppErrorView};
use crate::outside;
use crate::outside::{path_url, query_url, UrlFailure};
use crate::services::url_text;
use crate::services::url_text::path_fits;
use crate::text;
use crate::text::{
    chars_of, has_char, is_ascii_digit, is_ascii_lower, owned, same, split_text, trimmed,
    trimmed_of,
};
use crate::text_laws;
use vstd::prelude::*;
use vstd::string::*;
use vstd::utf8;

verus! {

/// Whether a text is made of small letters, digits and hyphens.
pub open spec fn is_name(s: Seq<char>) -> bool {
    forall|i: int|
        0 <= i < s.len() ==> text::is_lower(#[trigger] s[i]) || text::is_digit(s[i]) || s[i] == '-'
}

fn has_name_chars(s: &str) -> (r: bool)
    ensures
        r == is_name(s@),
{
    let cs = chars_of(s);
    for i in 0..cs.len()
        invariant
            cs@ == s@,
            forall|j: int|
                0 <= j < i ==> text::is_lower(#[trigger] s@[j]) || text::is_digit(s@[j]) || s@[j]
                    == '-',
    {
        if !(is_ascii_lower(cs[i]) || is_ascii_digit(cs[i]) || cs[i] == '-') {
            assert(!text::is_lower(s@[i as int]));
            return false;
        }
    }
    true
}

/// What is wrong with a project identifier, if anything. White space at its
/// ends does not count; its length is taken in bytes.
pub open spec fn project_id_fault(value: Seq<char>) -> Option<Seq<char>> {
    let id = text::trim(value);
    let n = utf8::encode_utf8(id).len();
    if id.len() == 0 {
        Some("GCP project id must not be empty"@)
    } else if !(6 <= n <= 30) {
        Some("GCP project id must be between 6 and 30 characters"@)
    } else if !is_name(id) {
        Some("GCP project id contains forbidden characters"@)
    } else if !text::is_lower(id[0]) {
        Some("GCP project id must start with a lowercase letter"@)
    } else if !(text::is_lower(id.last()) || text::is_digit(id.last())) {
        Some("GCP project id must end with a lowercase letter or digit"@)
    } else {
        None
    }
}

/// The outcome that a fault, or its absence, stands for.
pub open spec fn fault_outcome(fault: Option<Seq<char>>) -> Result<(), AppErrorView> {
    match fault {
        Some(message) => Err(AppErrorView::Internal(message)),
        None => Ok(()),
    }
}

/// Checks a project identifier.
pub fn validate_gcp_project_id(value: &str) -> (r: Result<(), AppError>)
    ensures
        error::unit_outcome(r) == fault_outcome(project_id_fault(value@)),
{
    let id = trimmed(value);
    let cs = chars_of(id.as_str());
    if cs.len() == 0 {
        return Err(internal("GCP project id must not be empty"));
    }
    let n: usize = id.as_str().as_bytes().len();
    if !(6 <= n && n <= 30) {
        return Err(internal("GCP project id must be between 6 and 30 characters"));
    }
    if !has_name_chars(id.as_str()) {
        return Err(internal("GCP project id contains forbidden characters"));
    }
    if !is_ascii_lower(cs[0]) {
        return Err(internal("GCP project id must start with a lowercase letter"));
    }
    let last = cs[cs.len() - 1];
    if !(is_ascii_lower(last) || is_ascii_digit(last)) {
        return Err(internal("GCP project id must end with a lowercase letter or digit"));
    }
    Ok(())
}

/// What is wrong with a region, if anything. White space at its ends does not
/// count; its length is taken in bytes.
pub open spec fn region_fault(value: Seq<char>) -> Option<Seq<char>> {
    let region = text::trim(value);
    if region.len() == 0 {
        Some("GCP region must not be empty"@)
    } else if utf8::encode_utf8(region).len() > 32 {
        Some("GCP region is too long"@)
    } else if !is_name(region) {
        Some("GCP region contains forbidden characters"@)
    } else if region[0] == '-' || region.last() == '-' || !region.contains('-') {
        Some("GCP region has an invalid format"@)
    } else {
        None
    }
}

/// Checks a region.
pub fn validate_gcp_region(value: &str) -> (r: Result<(), AppError>)
    ensures
        error::unit_outcome(r) == fault_outcome(region_fault(value@)),
{
    let region = trimmed(value);
    let cs = chars_of(region.as_str());
    if cs.len() == 0 {
        return Err(internal("GCP region must not be empty"));
    }
    if region.as_str().as_bytes().len() > 32 {
        return Err(internal("GCP region is too long"));
    }
    if !has_name_chars(region.as_str()) {
        return Err(internal("GCP region contains forbidden characters"));
    }
    if cs[0] == '-' || cs[cs.len() - 1] == '-' || !has_char(region.as_str(), '-') {
        return Err(internal("GCP region has an invalid format"));
    }
    Ok(())
}

/// The texts of an optional list.
pub open spec fn list_outcome(r: Result<Vec<String>, AppError>) -> Result<
    Seq<Seq<char>>,
    AppErrorView,
> {
    match r {
        Ok(v) => Ok(text::texts(v@)),
        Err(e) => Err(e@),
    }
}

/// The path segments of a resource name, with the version of the API in front.
pub open spec fn resource_segments(value: Seq<char>, label: Seq<char>) -> Result<
    Seq<Seq<char>>,
    AppErrorView,
> {
    let name = text::trim_char(text::trim(value), '/');
    if name.len() == 0 {
        Err(AppErrorView::Internal(label + " must not be empty"@))
    } else if text::split(name, '/')[0] == "v1"@ {
        Ok(text::split(name, '/'))
    } else {
        Ok(seq!["v1"@] + text::split(name, '/'))
    }
}

/// The path segments of a resource name, with the version of the API in front.
pub fn normalize_cloud_build_resource_name(value: &str, label: &str) -> (r: Result<
    Vec<String>,
    AppError,
>)
    ensures
        list_outcome(r) == resource_segments(value@, label@),
{
    let name = trimmed_of(trimmed(value).as_str(), '/');
    if name.as_str().is_empty() {
        return Err(AppError::Internal(owned(label).concat(" must not be empty")));
    }
    let pieces = split_text(name.as_str(), '/');
    assert(text::texts(pieces@)[0] == pieces@[0]@);
    if same(pieces[0].as_str(), "v1") {
        return Ok(pieces);
    }
    let mut segments: Vec<String> = Vec::new();
    segments.push(owned("v1"));
    assert(text::texts(segments@) =~= seq!["v1"@]);
    for i in 0..pieces.len()
        invariant
            text::texts(segments@) == seq!["v1"@] + text::texts(pieces@).take(i as int),
    {
        let ghost before = text::texts(segments@);
        segments.push(pieces[i].clone());
        assert(text::texts(segments@) =~= before.push(pieces@[i as int]@));
        assert(text::texts(segments@) =~= seq!["v1"@] + text::texts(pieces@).take(i + 1));
    }
    assert(text::texts(pieces@).take(pieces@.len() as int) =~= text::texts(pieces@));
    Ok(segments)
}

/// The path segments under which builds of a project and region stand.
pub open spec fn builds_segments(project_id: Seq<char>, region: Seq<char>) -> Seq<Seq<char>> {
    seq!["v1"@, "projects"@, project_id, "locations"@, region, "builds"@]
}

fn builds_path(project_id: &str, region: &str) -> (r: Vec<String>)
    ensures
        text::texts(r@) == builds_segments(project_id@, region@),
{
    let mut r: Vec<String> = Vec::new();
    r.push(owned("v1"));
    r.push(owned("projects"));
    r.push(owned(project_id));
    r.push(owned("locations"));
    r.push(owned(region));
    r.push(owned("builds"));
    assert(text::texts(r@) =~= builds_segments(project_id@, region@));
    r
}

/// The error for a base that no address can be made of.
fn url_error(failure: UrlFailure) -> (r: AppError)
    ensures
        r@ == match failure {
            UrlFailure::Invalid(cause) => AppErrorView::Internal(
                "Invalid Cloud Build base URL: "@ + cause@,
            ),
            UrlFailure::NoPath => AppErrorView::Internal(
                "Cloud Build base URL cannot accept path segments"@,
            ),
        },
{
    match failure {
        UrlFailure::Invalid(cause) => AppError::Internal(
            owned("Invalid Cloud Build base URL: ").concat(cause.as_str()),
        ),
        UrlFailure::NoPath => internal("Cloud Build base URL cannot accept path segments"),
    }
}

/// The address that builds are submitted to.
pub open spec fn submit_url(project_id: Seq<char>, region: Seq<char>) -> Seq<char> {
    (outside::cloud_build_base() + outside::path_text(builds_segments(project_id, region))).push(
        '?',
    ) + outside::query_text(seq![("projectId"@, project_id)])
}

/// A valid project identifier has a character that counts and is no dot.
proof fn lemma_project_id_names(value: Seq<char>)
    requires
        project_id_fault(value) is None,
    ensures
        outside::counted(value).len() > 0,
        !outside::is_dots(outside::counted(value)),
{
    let id = text::trim(value);
    text_laws::lemma_trim(value);
    assert(id.contains(id[0]));
    assert(value.contains(id[0]));
    let k = choose|k: int| 0 <= k < value.len() && value[k] == id[0];
    url_text::lemma_names_something(value, k);
}

/// A valid region has a character that counts and is no dot.
proof fn lemma_region_names(value: Seq<char>)
    requires
        region_fault(value) is None,
    ensures
        outside::counted(value).len() > 0,
        !outside::is_dots(outside::counted(value)),
{
    text_laws::lemma_trim(value);
    assert(value.contains('-'));
    let k = choose|k: int| 0 <= k < value.len() && value[k] == '-';
    url_text::lemma_names_something(value, k);
}

/// Whatever names are accepted, with white space at their ends or without, the
/// six segments stay segments of their own.
pub proof fn lemma_builds_addressable(project_id: Seq<char>, region: Seq<char>)
    requires
        project_id_fault(project_id) is None,
        region_fault(region) is None,
    ensures
        outside::addressable(builds_segments(project_id, region)),
{
    reveal_strlit("v1");
    reveal_strlit("projects");
    reveal_strlit("locations");
    reveal_strlit("builds");
    let segs = builds_segments(project_id, region);
    lemma_project_id_names(project_id);
    lemma_region_names(region);
    url_text::lemma_names_something("v1"@, 0);
    url_text::lemma_names_something("projects"@, 0);
    url_text::lemma_names_something("locations"@, 0);
    url_text::lemma_names_something("builds"@, 0);
    assert forall|i: int| 0 <= i < segs.len() implies !outside::is_dots(
        outside::counted(#[trigger] segs[i]),
    ) by {
        assert(i == 0 || i == 1 || i == 2 || i == 3 || i == 4 || i == 5);
    }
}

/// Valid names show in an address.
pub proof fn lemma_names_show(project_id: Seq<char>, region: Seq<char>)
    requires
        project_id_fault(project_id) is None,
        region_fault(region) is None,
    ensures
        outside::segment_text(project_id).len() > 0,
        outside::segment_text(region).len() > 0,
{
    lemma_project_id_names(project_id);
    lemma_region_names(region);
    url_text::lemma_escaped_shows(outside::counted(project_id));
    url_text::lemma_escaped_shows(outside::counted(region));
}

/// Whether the address that builds of a project and region are submitted to has
/// a length that a URL can have.
pub fn submission_fits(project_id: &str, region: &str) -> (r: bool)
    ensures
        r == outside::fits_url(builds_segments(project_id@, region@)),
{
    path_fits(&builds_path(project_id, region))
}

/// The address that builds are submitted to: there is one exactly where both
/// names are valid, and it is always one of the Cloud Build API.
pub fn build_cloud_build_endpoint(project_id: &str, region: &str) -> (r: Result<String, AppError>)
    requires
        outside::fits_url(builds_segments(project_id@, region@)),
    ensures
        match project_id_fault(project_id@) {
            Some(message) => r matches Err(e) && e@ == AppErrorView::Internal(message),
            None => match region_fault(region@) {
                Some(message) => r matches Err(e) && e@ == AppErrorView::Internal(message),
                None => r matches Ok(url) && url@ == submit_url(project_id@, region@),
            },
        },
{
    if let Err(e) = validate_gcp_project_id(project_id) {
        return Err(e);
    }
    if let Err(e) = validate_gcp_region(region) {
        return Err(e);
    }
    let segments = builds_path(project_id, region);
    let mut pairs: Vec<(String, String)> = Vec::new();
    pairs.push((owned("projectId"), owned(project_id)));
    proof {
        assert(outside::pair_texts(pairs@) =~= seq![("projectId"@, project_id@)]);
        lemma_builds_addressable(project_id@, region@);
    }
    match query_url("https://cloudbuild.googleapis.com/", &segments, &pairs) {
        Ok(url) => Ok(url),
        Err(failure) => Err(url_error(failure)),
    }
}

/// The path of a build and its identifier: from its name where it has one, else
/// from its identifier.
pub open spec fn build_target(
    project_id: Seq<char>,
    region: Seq<char>,
    build_name: Option<Seq<char>>,
    build_id: Option<Seq<char>>,
) -> Result<(Seq<Seq<char>>, Seq<char>), AppErrorView> {
    match build_name {
        Some(name) => match resource_segments(name, "Cloud Build name"@) {
            Ok(segments) => Ok((segments, segments.last())),
            Err(e) => Err(e),
        },
        None => match build_id {
            Some(id) => if text::trim(id).len() == 0 {
                Err(AppErrorView::Internal("Cloud Build id must not be empty when provided"@))
            } else {
                Ok((builds_segments(project_id, region).push(text::trim(id)), text::trim(id)))
            },
            None => Err(
                AppErrorView::Internal(
                    "Cloud build tracking requires either a build name or a build id"@,
                ),
            ),
        },
    }
}

/// The query of an address under which a build is looked up.
pub open spec fn lookup_query(project_id: Seq<char>, id: Seq<char>) -> Seq<char> {
    outside::query_text(seq![("projectId"@, project_id), ("id"@, id)])
}

/// The address under which a build is looked up.
pub open spec fn lookup_url(project_id: Seq<char>, segments: Seq<Seq<char>>, id: Seq<char>) -> Seq<
    char,
> {
    outside::url_of_path(outside::cloud_build_base(), segments).push('?') + lookup_query(
        project_id,
        id,
    )
}

/// Whether the address of a build has a length that a URL can have.
pub open spec fn target_fits(
    project_id: Seq<char>,
    region: Seq<char>,
    build_name: Option<Seq<char>>,
    build_id: Option<Seq<char>>,
) -> bool {
    build_target(project_id, region, build_name, build_id) matches Ok((segments, _))
        ==> outside::fits_url(segments)
}

fn build_path(
    project_id: &str,
    region: &str,
    build_name: Option<&str>,
    build_id: Option<&str>,
) -> (r: Result<(Vec<String>, String), AppError>)
    ensures
        build_target(
            project_id@,
            region@,
            text::opt_str_text(build_name),
            text::opt_str_text(build_id),
        ) == match r {
            Ok((segments, id)) => Ok::<(Seq<Seq<char>>, Seq<char>), AppErrorView>(
                (text::texts(segments@), id@),
            ),
            Err(e) => Err(e@),
        },
{
    match build_name {
        Some(name) => {
            let segments = match normalize_cloud_build_resource_name(name, "Cloud Build name") {
                Ok(segments) => segments,
                Err(e) => {
                    return Err(e);
                },
            };
            proof {
                lemma_resource_has_segments(name@, "Cloud Build name"@);
            }
            let last: String = segments[segments.len() - 1].clone();
            assert(text::texts(segments@).last() == last@);
            Ok((segments, last))
        },
        None => match build_id {
            Some(id) => {
                let t = trimmed(id);
                if t.as_str().is_empty() {
                    return Err(internal("Cloud Build id must not be empty when provided"));
                }
                let mut segments = builds_path(project_id, region);
                let ghost before = text::texts(segments@);
                segments.push(t.clone());
                assert(text::texts(segments@) =~= before.push(t@));
                Ok((segments, t))
            },
            None => Err(
                internal("Cloud build tracking requires either a build name or a build id"),
            ),
        },
    }
}

/// A resource name has at least one segment.
proof fn lemma_resource_has_segments(value: Seq<char>, label: Seq<char>)
    ensures
        resource_segments(value, label) matches Ok(segments) ==> segments.len() > 0,
{
    text_laws::lemma_split_pieces(text::trim_char(text::trim(value), '/'), '/');
}

/// Whether the address of a build has a length that a URL can have.
pub fn lookup_fits(
    project_id: &str,
    region: &str,
    build_name: Option<&str>,
    build_id: Option<&str>,
) -> (r: bool)
    ensures
        r == target_fits(
            project_id@,
            region@,
            text::opt_str_text(build_name),
            text::opt_str_text(build_id),
        ),
{
    match build_path(project_id, region, build_name, build_id) {
        Ok((segments, _id)) => path_fits(&segments),
        Err(_) => true,
    }
}

/// The address under which a build is looked up: always one of the Cloud Build
/// API, with the path and the query shown as they are made of the names where
/// every segment stays one of its own.
pub fn build_cloud_build_get_endpoint(
    project_id: &str,
    region: &str,
    build_name: Option<&str>,
    build_id: Option<&str>,
) -> (r: Result<String, AppError>)
    requires
        target_fits(
            project_id@,
            region@,
            text::opt_str_text(build_name),
            text::opt_str_text(build_id),
        ),
    ensures
        match project_id_fault(project_id@) {
            Some(message) => r matches Err(e) && e@ == AppErrorView::Internal(message),
            None => match region_fault(region@) {
                Some(message) => r matches Err(e) && e@ == AppErrorView::Internal(message),
                None => match build_target(
                    project_id@,
                    region@,
                    text::opt_str_text(build_name),
                    text::opt_str_text(build_id),
                ) {
                    Err(fault) => r matches Err(e) && e@ == fault,
                    Ok((segments, id)) => {
                        &&& r matches Ok(url)
                        &&& url@ == lookup_url(project_id@, segments, id)
                        &&& outside::cloud_build_base().is_prefix_of(url@)
                        &&& outside::addressable(segments) ==> url@ == (
                        outside::cloud_build_base() + outside::path_text(segments)).push('?')
                            + lookup_query(project_id@, id)
                    },
                },
            },
        },
{
    if let Err(e) = validate_gcp_project_id(project_id) {
        return Err(e);
    }
    if let Err(e) = validate_gcp_region(region) {
        return Err(e);
    }
    let (segments, id) = match build_path(project_id, region, build_name, build_id) {
        Ok(target) => target,
        Err(e) => {
            return Err(e);
        },
    };
    let mut pairs: Vec<(String, String)> = Vec::new();
    let ghost id_text = id@;
    pairs.push((owned("projectId"), owned(project_id)));
    pairs.push((owned("id"), id));
    assert(outside::pair_texts(pairs@) =~= seq![("projectId"@, project_id@), ("id"@, id_text)]);
    match query_url("https://cloudbuild.googleapis.com/", &segments, &pairs) {
        Ok(url) => Ok(url),
        Err(failure) => Err(url_error(failure)),
    }
}

/// Whether the address of an operation has a length that a URL can have.
pub open spec fn operation_fits(operation_name: Seq<char>) -> bool {
    resource_segments(operation_name, "Cloud Build operation name"@) matches Ok(segments)
        ==> outside::fits_url(segments)
}

/// Whether the address of an operation has a length that a URL can have.
pub fn operation_lookup_fits(operation_name: &str) -> (r: bool)
    ensures
        r == operation_fits(operation_name@),
{
    match normalize_cloud_build_resource_name(operation_name, "Cloud Build operation name") {
        Ok(segments) => path_fits(&segments),
        Err(_) => true,
    }
}

/// The address under which an operation is looked up: always one of the Cloud
/// Build API, with the path shown as it is made of the name where every segment
/// stays one of its own.
pub fn build_cloud_build_operation_get_endpoint(operation_name: &str) -> (r: Result<
    String,
    AppError,
>)
    requires
        operation_fits(operation_name@),
    ensures
        match resource_segments(operation_name@, "Cloud Build operation name"@) {
            Err(fault) => r matches Err(e) && e@ == fault,
            Ok(segments) => {
                &&& r matches Ok(url)
                &&& url@ == outside::url_of_path(outside::cloud_build_base(), segments)
                &&& outside::cloud_build_base().is_prefix_of(url@)
                &&& outside::addressable(segments) ==> url@ == outside::cloud_build_base()
                    + outside::path_text(segments)
            },
        },
{
    let segments = match normalize_cloud_build_resource_name(
        operation_name,
        "Cloud Build operation name",
    ) {
        Ok(segments) => segments,
        Err(e) => {
            return Err(e);
        },
    };
    match path_url("https://cloudbuild.googleapis.com/", &segments) {
        Ok(url) => Ok(url),
        Err(failure) => Err(url_error(failure)),
    }
}

} // verus!
