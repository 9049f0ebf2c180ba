//! What holds of every source bundle.

use crate::error::AppErrorView;
use crate::models::build_job::Timestamp;
use crate::models::source_bundle::{SourceBundle, UploadedFile, UploadedFileView};
use crate::models::state::BuilderConfigView;
use crate::outside;
use crate::services::build_laws;
use crate::services::gcs;
use crate::services::path_laws;
use crate::services::path_safety;
use crate::services::source_bundles;
use crate::services::source_bundles::{
    BundleDraft, BundleDraftView, UploadedFileInput, UploadedFileInputView,
};
use crate::text;
use crate::text_laws;
use vstd::prelude::*;
use vstd::string::*;
use vstd::utf8;

verus! {

/// What filtering leaves satisfies the test and was there before.
pub proof fn lemma_filter_members<A>(s: Seq<A>, p: spec_fn(A) -> bool)
    ensures
        forall|i: int| 0 <= i < s.filter(p).len() ==> p(#[trigger] s.filter(p)[i]) && s.contains(
            s.filter(p)[i],
        ),
    decreases s.len(),
{
    reveal(Seq::filter);
    if s.len() > 0 {
        let front = s.drop_last();
        lemma_filter_members(front, p);
        assert forall|i: int| 0 <= i < s.filter(p).len() implies p(#[trigger] s.filter(p)[i])
            && s.contains(s.filter(p)[i]) by {
            if i < front.filter(p).len() {
                assert(front.filter(p)[i] == s.filter(p)[i]);
                let k = choose|k: int| 0 <= k < front.len() && front[k] == front.filter(p)[i];
                assert(s[k] == s.filter(p)[i]);
            } else {
                assert(s[s.len() - 1] == s.filter(p)[i]);
            }
        }
    }
}

/// Filtering what satisfies the test throughout changes nothing.
pub proof fn lemma_filter_all<A>(s: Seq<A>, p: spec_fn(A) -> bool)
    requires
        forall|i: int| 0 <= i < s.len() ==> p(#[trigger] s[i]),
    ensures
        s.filter(p) == s,
    decreases s.len(),
{
    reveal(Seq::filter);
    if s.len() > 0 {
        let front = s.drop_last();
        assert forall|i: int| 0 <= i < front.len() implies p(#[trigger] front[i]) by {
            assert(front[i] == s[i]);
        }
        lemma_filter_all(front, p);
        assert(p(s[s.len() - 1]));
        assert(front.push(s.last()) =~= s);
    } else {
        assert(s.filter(p) =~= s);
    }
}

/// Segments hold no slash and name something.
proof fn lemma_segments(path: Seq<char>)
    ensures
        forall|i: int|
            0 <= i < path_safety::segments(path).len() ==> {
                &&& path_safety::is_segment(#[trigger] path_safety::segments(path)[i])
                &&& !path_safety::segments(path)[i].contains('/')
            },
{
    let pieces = text::split(path, '/');
    lemma_filter_members(pieces, path_safety::segment_test());
    text_laws::lemma_split_pieces(path, '/');
    assert forall|i: int| 0 <= i < path_safety::segments(path).len() implies {
        &&& path_safety::is_segment(#[trigger] path_safety::segments(path)[i])
        &&& !path_safety::segments(path)[i].contains('/')
    } by {
        assert(path_safety::segment_test()(path_safety::segments(path)[i]));
        let k = choose|k: int|
            0 <= k < pieces.len() && pieces[k] == path_safety::segments(path)[i];
        assert(!pieces[k].contains('/'));
    }
}

/// Segments joined by slashes are a relative path with these segments.
proof fn lemma_joined_segments(path: Seq<char>)
    requires
        path_safety::segments(path).len() > 0,
    ensures
        path_safety::segments(text::join(path_safety::segments(path), '/'))
            == path_safety::segments(path),
        !path_safety::is_absolute(text::join(path_safety::segments(path), '/')),
{
    let segs = path_safety::segments(path);
    lemma_segments(path);
    text_laws::lemma_split_join(segs, '/');
    let p = path_safety::segment_test();
    assert forall|i: int| 0 <= i < segs.len() implies p(#[trigger] segs[i]) by {
        assert(path_safety::is_segment(segs[i]));
    }
    lemma_filter_all(segs, p);
    lemma_join_first(segs);
    assert(!segs[0].contains('/'));
    assert(segs[0][0] != '/') by {
        if segs[0][0] == '/' {
            assert(segs[0].contains('/'));
        }
    }
}

/// A join begins as its first piece does.
proof fn lemma_join_first(pieces: Seq<Seq<char>>)
    requires
        pieces.len() > 0,
        pieces[0].len() > 0,
    ensures
        text::join(pieces, '/').len() > 0,
        text::join(pieces, '/')[0] == pieces[0][0],
    decreases pieces.len(),
{
    if pieces.len() > 1 {
        assert(pieces.drop_last()[0] == pieces[0]);
        lemma_join_first(pieces.drop_last());
    }
}

/// A walk without `..` never climbs.
proof fn lemma_depth_without_parents(segs: Seq<Seq<char>>)
    requires
        !segs.contains(path_safety::parent_segment()),
    ensures
        path_safety::depth(segs) == Some(segs.len()),
    decreases segs.len(),
{
    if segs.len() > 0 {
        let front = segs.drop_last();
        assert(!front.contains(path_safety::parent_segment())) by {
            if front.contains(path_safety::parent_segment()) {
                let k = choose|k: int|
                    0 <= k < front.len() && front[k] == path_safety::parent_segment();
                assert(segs[k] == path_safety::parent_segment());
            }
        }
        assert(segs[segs.len() - 1] == segs.last());
        lemma_depth_without_parents(front);
    }
}

/// A path that is accepted for an uploaded file is relative, has at least one
/// segment and no `..`, and leads from any workspace to a place below it.
pub proof fn law_sanitized_path_is_safe(workspace: Seq<char>, value: Seq<char>)
    requires
        source_bundles::sanitized(value) is Ok,
    ensures
        ({
            let path = source_bundles::sanitized(value)->Ok_0;
            let placed = path_safety::join_path(workspace, path);
            &&& !path_safety::is_absolute(path)
            &&& path_safety::segments(path).len() > 0
            &&& !path_safety::segments(path).contains(path_safety::parent_segment())
            &&& path_safety::is_within(placed, workspace)
            &&& path_safety::resolve(path_safety::segments(workspace)).is_prefix_of(
                path_safety::resolve(path_safety::segments(placed)),
            )
            &&& path_safety::resolve(path_safety::segments(placed)).len() == path_safety::resolve(
                path_safety::segments(workspace),
            ).len() + path_safety::segments(path).len()
        }),
{
    let normalized = source_bundles::normalized_path(value);
    let path = source_bundles::sanitized(value)->Ok_0;
    lemma_joined_segments(normalized);
    lemma_depth_without_parents(path_safety::segments(path));
    path_laws::law_join_stays_within(workspace, path);
    path_laws::lemma_join_segments(workspace, path);
    path_laws::lemma_resolve_below(
        path_safety::segments(workspace),
        path_safety::segments(path),
    );
}

/// A path that was accepted once is accepted again as it is, unless white space
/// at its ends, which a leading `./` may have covered, is now removed.
pub proof fn law_sanitizing_twice_changes_nothing(value: Seq<char>)
    requires
        source_bundles::sanitized(value) is Ok,
        text::trim(source_bundles::sanitized(value)->Ok_0)
            == source_bundles::sanitized(value)->Ok_0,
    ensures
        source_bundles::sanitized(source_bundles::sanitized(value)->Ok_0)
            == source_bundles::sanitized(value),
{
    let normalized = source_bundles::normalized_path(value);
    let path = source_bundles::sanitized(value)->Ok_0;
    lemma_joined_segments(normalized);
    lemma_segments(normalized);
    let segs = path_safety::segments(normalized);
    lemma_join_first(segs);
    assert forall|i: int| 0 <= i < segs.len() implies !(#[trigger] segs[i]).contains('\\') by {
        lemma_filter_members(text::split(normalized, '/'), path_safety::segment_test());
        let pieces = text::split(normalized, '/');
        let k = choose|k: int| 0 <= k < pieces.len() && pieces[k] == segs[i];
        lemma_pieces_members(normalized, '/', k);
        if segs[i].contains('\\') {
            assert(pieces[k].contains('\\'));
            assert(normalized.contains('\\'));
            let j = choose|j: int| 0 <= j < normalized.len() && normalized[j] == '\\';
            assert(false);
        }
    }
    lemma_join_avoids(segs, '/', '\\');
    assert(text::replace(path, '\\', '/') =~= path) by {
        assert forall|j: int| 0 <= j < path.len() implies path[j] != '\\' by {
            if path[j] == '\\' {
                assert(path.contains('\\'));
            }
        }
    }
    assert(source_bundles::normalized_path(path) == path);
}

/// The pieces of a text are made of the text's characters.
proof fn lemma_pieces_members(s: Seq<char>, sep: char, k: int)
    requires
        0 <= k < text::split(s, sep).len(),
    ensures
        forall|c: char| text::split(s, sep)[k].contains(c) ==> s.contains(c),
    decreases s.len(),
{
    if s.len() > 0 {
        let front = text::split(s.drop_last(), sep);
        text_laws::lemma_split_pieces(s.drop_last(), sep);
        assert forall|c: char| text::split(s, sep)[k].contains(c) implies s.contains(c) by {
            let piece = text::split(s, sep)[k];
            let j = choose|j: int| 0 <= j < piece.len() && piece[j] == c;
            assert(s[s.len() - 1] == s.last());
            if k < front.len() {
                lemma_pieces_members(s.drop_last(), sep, k);
                if j < front[k].len() {
                    assert(front[k][j] == c);
                    assert(front[k].contains(c));
                    assert(s.drop_last().contains(c));
                    let i = choose|i: int| 0 <= i < s.drop_last().len() && s.drop_last()[i] == c;
                    assert(s[i] == c);
                }
            }
        }
    }
}

/// A join holds no character that neither its pieces nor the separator hold.
pub proof fn lemma_join_avoids(pieces: Seq<Seq<char>>, sep: char, x: char)
    requires
        x != sep,
        forall|i: int| 0 <= i < pieces.len() ==> !(#[trigger] pieces[i]).contains(x),
    ensures
        !text::join(pieces, sep).contains(x),
    decreases pieces.len(),
{
    let whole = text::join(pieces, sep);
    if pieces.len() > 1 {
        let front = pieces.drop_last();
        assert forall|i: int| 0 <= i < front.len() implies !(#[trigger] front[i]).contains(x) by {
            assert(front[i] == pieces[i]);
        }
        lemma_join_avoids(front, sep, x);
        let start = text::join(front, sep);
        assert(!pieces[pieces.len() - 1].contains(x));
        assert(!whole.contains(x)) by {
            if whole.contains(x) {
                let k = choose|k: int| 0 <= k < whole.len() && whole[k] == x;
                if k < start.len() {
                    assert(start[k] == x);
                } else if k > start.len() {
                    assert(pieces.last()[k - start.len() - 1] == x);
                }
            }
        }
    } else if pieces.len() == 1 {
        assert(!pieces[0].contains(x));
    }
}

/// The entry of a bundle for one uploaded file.
pub open spec fn entry_of(file: UploadedFileInputView) -> UploadedFileView {
    UploadedFileView {
        path: source_bundles::sanitized(file.relative_path)->Ok_0,
        size_bytes: file.bytes.len() as u64,
    }
}

pub open spec fn entries_of(files: Seq<UploadedFileInputView>) -> Seq<UploadedFileView> {
    files.map_values(|f: UploadedFileInputView| entry_of(f))
}

/// A bundle lists exactly the uploaded files, in their order, each under its
/// sanitized path and with its size; it is refused where one of the paths is,
/// and only then.
pub proof fn law_bundle_lists_every_file(
    draft: BundleDraftView,
    files: Seq<UploadedFileInputView>,
)
    ensures
        match draft.with_files(files) {
            Ok(done) => {
                &&& done == BundleDraftView { files: draft.files + entries_of(files), ..draft }
                &&& forall|i: int|
                    0 <= i < files.len() ==> source_bundles::sanitized(
                        (#[trigger] files[i]).relative_path,
                    ) is Ok
            },
            Err(e) => exists|i: int|
                0 <= i < files.len() && source_bundles::sanitized(
                    (#[trigger] files[i]).relative_path,
                ) == Err::<Seq<char>, AppErrorView>(e),
        },
    decreases files.len(),
{
    if files.len() == 0 {
        assert(draft.files + entries_of(files) =~= draft.files);
    } else {
        match draft.with_file(files[0]) {
            Ok(next) => {
                let rest = files.drop_first();
                law_bundle_lists_every_file(next, rest);
                match next.with_files(rest) {
                    Ok(done) => {
                        assert(next.files + entries_of(rest) =~= draft.files + entries_of(files));
                        assert forall|i: int| 0 <= i < files.len() implies source_bundles::sanitized(
                            (#[trigger] files[i]).relative_path,
                        ) is Ok by {
                            if i > 0 {
                                assert(rest[i - 1] == files[i]);
                            }
                        }
                    },
                    Err(e) => {
                        let k = choose|k: int|
                            0 <= k < rest.len() && source_bundles::sanitized(
                                (#[trigger] rest[k]).relative_path,
                            ) == Err::<Seq<char>, AppErrorView>(e);
                        assert(files[k + 1] == rest[k]);
                    },
                }
            },
            Err(e) => {
                assert(source_bundles::sanitized(files[0].relative_path) == Err::<
                    Seq<char>,
                    AppErrorView,
                >(e));
            },
        }
    }
}

/// The address that is suggested for an archive names the configured bucket and
/// the bundle's object.
pub proof fn law_suggested_path_names_bucket_and_object(
    bucket: Seq<char>,
    lab_id: Option<Seq<char>>,
    bundle_id: u128,
)
    requires
        bucket.len() > 0,
        !bucket.contains('/'),
    ensures
        gcs::parts(source_bundles::gcs_path_of(bucket, lab_id, bundle_id)) == Some(
            (bucket, source_bundles::object_of(lab_id, bundle_id)),
        ),
{
    reveal_strlit("/");
    reveal_strlit("builds/");
    reveal_strlit("/source.tar.gz");
    let object = source_bundles::object_of(lab_id, bundle_id);
    assert(object.last() == 'z');
    gcs::law_parts_of_address(bucket, object);
    assert((gcs::scheme() + bucket).push('/') + object =~= source_bundles::gcs_path_of(
        bucket,
        lab_id,
        bundle_id,
    ));
}

/// A path of plain names with single slashes between them is stored as it is.
pub proof fn law_plain_path_is_stored_as_it_is(names: Seq<Seq<char>>)
    requires
        names.len() > 0,
        forall|i: int|
            0 <= i < names.len() ==> {
                &&& (#[trigger] names[i]).len() > 0
                &&& names[i] != "."@ && names[i] != ".."@
                &&& !names[i].contains('/') && !names[i].contains('\\')
            },
        text::trim(text::join(names, '/')) == text::join(names, '/'),
    ensures
        source_bundles::sanitized(text::join(names, '/')) == Ok::<Seq<char>, AppErrorView>(
            text::join(names, '/'),
        ),
{
    path_laws::law_pieces_that_lead_somewhere(names[0], names[0]);
    reveal_strlit(".");
    assert("."@ =~= seq!['.']);
    let path = text::join(names, '/');
    assert forall|i: int| 0 <= i < names.len() implies !(#[trigger] names[i]).contains('\\') by {}
    lemma_join_avoids(names, '/', '\\');
    assert(text::replace(path, '\\', '/') =~= path) by {
        assert forall|i: int| 0 <= i < path.len() implies path[i] != '\\' by {
            if path[i] == '\\' {
                assert(path.contains('\\'));
            }
        }
    }
    text_laws::lemma_split_join(names, '/');
    let p = path_safety::segment_test();
    assert forall|i: int| 0 <= i < names.len() implies p(#[trigger] names[i]) by {
        assert(path_safety::is_segment(names[i]));
    }
    lemma_filter_all(names, p);
    lemma_join_first(names);
    assert(!names[0].contains('/'));
    assert(names[0][0] != '/') by {
        if names[0][0] == '/' {
            assert(names[0].contains('/'));
        }
    }
}

/// Backslashes are read as slashes, and white space at the ends of a path does
/// not count.
pub proof fn law_backslashes_are_slashes(value: Seq<char>)
    ensures
        source_bundles::sanitized(value) == source_bundles::sanitized(
            text::replace(text::trim(value), '\\', '/'),
        ),
        source_bundles::sanitized(value) == source_bundles::sanitized(text::trim(value)),
{
    let t = text::trim(value);
    let path = text::replace(t, '\\', '/');
    text_laws::lemma_trim(value);
    assert(path.len() > 0 ==> !text::is_white(path[0]) && !text::is_white(path.last()));
    text_laws::lemma_trim_same(path);
    assert(text::replace(path, '\\', '/') =~= path);
}

/// An accepted path has the names of the uploaded one, in their order: only
/// empty names and single dots are left out.
pub proof fn law_stored_path_keeps_the_names(value: Seq<char>)
    ensures
        source_bundles::sanitized(value) matches Ok(path) ==> {
            &&& path_safety::segments(path) == path_safety::segments(
                text::replace(text::trim(value), '\\', '/'),
            )
            &&& path == text::join(path_safety::segments(path), '/')
        },
{
    let normal = text::replace(text::trim(value), '\\', '/');
    if source_bundles::sanitized(value) is Ok {
        lemma_joined_segments(normal);
    }
}

/// A path is refused exactly when nothing is left of it, when it begins with a
/// slash, when it names a parent directory, or when it names nothing. The error
/// tells the first of these.
pub proof fn law_refused_upload_path(value: Seq<char>)
    ensures
        ({
            let path = text::replace(text::trim(value), '\\', '/');
            let names = path_safety::segments(path);
            let stored = source_bundles::sanitized(value);
            &&& path.len() == 0 ==> stored == Err::<Seq<char>, AppErrorView>(
                AppErrorView::BadRequest("Uploaded file name must not be empty"@),
            )
            &&& path.len() > 0 && path[0] == '/' ==> stored == Err::<Seq<char>, AppErrorView>(
                AppErrorView::BadRequest("Uploaded file path must be relative"@),
            )
            &&& path.len() > 0 && path[0] != '/' && names.contains(".."@) ==> stored == Err::<
                Seq<char>,
                AppErrorView,
            >(AppErrorView::BadRequest("Uploaded file path contains forbidden path traversal"@))
            &&& path.len() > 0 && path[0] != '/' && names.len() == 0 ==> stored == Err::<
                Seq<char>,
                AppErrorView,
            >(AppErrorView::BadRequest("Uploaded file path resolved to an empty value"@))
            &&& path.len() > 0 && path[0] != '/' && !names.contains(".."@) && names.len() > 0
                ==> stored is Ok
        }),
{
    path_laws::law_pieces_that_lead_somewhere(value, value);
}

/// A bundle has a directory of its own below the root. The uploaded files are
/// kept in one directory of it, the archive in another.
pub proof fn law_bundle_layout(root: Seq<char>, bundle_id: u128)
    requires
        root.len() > 0,
        root.last() != '/',
    ensures
        source_bundles::workspace_of(root, bundle_id) == root + "/"@ + outside::uuid_text(bundle_id)
            + "/workspace"@,
        source_bundles::artifacts_of(root, bundle_id) == root + "/"@ + outside::uuid_text(bundle_id)
            + "/artifacts"@,
        source_bundles::archive_of(root, bundle_id) == root + "/"@ + outside::uuid_text(bundle_id)
            + "/artifacts/source.tar.gz"@,
{
    build_laws::lemma_uuid_is_segment(bundle_id);
    let id = outside::uuid_text(bundle_id);
    path_laws::law_join_puts_a_slash_between(root, id);
    let dir = root + "/"@ + id;
    assert(dir.last() == id.last());
    build_laws::lemma_uuid_ends(bundle_id);
    reveal_strlit("workspace");
    reveal_strlit("/workspace");
    reveal_strlit("artifacts");
    reveal_strlit("/artifacts");
    assert(source_bundles::workspace_of(root, bundle_id) =~= dir + "/workspace"@);
    assert(source_bundles::artifacts_of(root, bundle_id) =~= dir + "/artifacts"@);
    reveal_strlit("source.tar.gz");
    reveal_strlit("/artifacts/source.tar.gz");
    assert(source_bundles::archive_of(root, bundle_id) =~= dir + "/artifacts/source.tar.gz"@);
}

/// The object that is suggested for an archive is named by the lab and by the
/// bundle; a lab that is not named, or is named by white space, is anonymous.
pub proof fn law_suggested_path(bucket: Seq<char>, lab: Seq<char>, bundle_id: u128)
    ensures
        text::trim(lab).len() > 0 ==> source_bundles::gcs_path_of(bucket, Some(lab), bundle_id)
            == "gs://"@ + bucket + "/builds/"@ + text::trim(lab) + "/"@ + outside::uuid_text(
            bundle_id,
        ) + "/source.tar.gz"@,
        text::trim(lab).len() == 0 ==> source_bundles::gcs_path_of(bucket, Some(lab), bundle_id)
            == source_bundles::gcs_path_of(bucket, None, bundle_id),
        source_bundles::gcs_path_of(bucket, None, bundle_id) == "gs://"@ + bucket
            + "/builds/anonymous-lab/"@ + outside::uuid_text(bundle_id) + "/source.tar.gz"@,
{
    reveal_strlit("/");
    reveal_strlit("builds/");
    reveal_strlit("/builds/");
    reveal_strlit("anonymous-lab");
    reveal_strlit("/builds/anonymous-lab/");
    assert("/builds/"@ =~= "/"@ + "builds/"@);
    assert("/builds/anonymous-lab/"@ =~= "/"@ + "builds/"@ + "anonymous-lab"@ + "/"@);
    let end = outside::uuid_text(bundle_id) + "/source.tar.gz"@;
    assert("/"@ + ("builds/"@ + text::trim(lab) + "/"@ + outside::uuid_text(bundle_id)
        + "/source.tar.gz"@) =~= "/builds/"@ + text::trim(lab) + "/"@ + end);
    assert(source_bundles::gcs_path_of(bucket, None, bundle_id) =~= "gs://"@ + bucket
        + "/builds/anonymous-lab/"@ + outside::uuid_text(bundle_id) + "/source.tar.gz"@);
    if text::trim(lab).len() > 0 {
        assert(source_bundles::gcs_path_of(bucket, Some(lab), bundle_id) =~= "gs://"@ + bucket
            + "/builds/"@ + text::trim(lab) + "/"@ + outside::uuid_text(bundle_id)
            + "/source.tar.gz"@);
    }
}

/// A new bundle holds no file. It is made for the lab and by the user it was
/// asked for, below the configured root and for the configured bucket.
pub proof fn law_new_bundle(
    config: BuilderConfigView,
    bundle_id: u128,
    lab_id: Option<Seq<char>>,
    requested_by: Option<Seq<char>>,
)
    ensures
        ({
            let draft = source_bundles::empty_draft(config, bundle_id, lab_id, requested_by);
            &&& draft.bundle_id == bundle_id && draft.lab_id == lab_id
            &&& draft.requested_by == requested_by && draft.files.len() == 0
            &&& draft.workspace_dir == source_bundles::workspace_of(
                config.bundle_root_dir,
                bundle_id,
            )
            &&& draft.artifacts_dir == source_bundles::artifacts_of(
                config.bundle_root_dir,
                bundle_id,
            )
            &&& draft.archive_path == source_bundles::archive_of(config.bundle_root_dir, bundle_id)
            &&& draft.suggested_gcs_path == source_bundles::gcs_path_of(
                config.build_source_bucket,
                lab_id,
                bundle_id,
            )
        }),
{
}

/// A file is added behind the others, with its stored path and its size in
/// bytes, and changes nothing else of the bundle. A refused path refuses the
/// file, with the same error.
pub proof fn law_file_is_added_at_the_end(draft: BundleDraftView, file: UploadedFileInputView)
    requires
        file.bytes.len() <= u64::MAX,
    ensures
        match source_bundles::sanitized(file.relative_path) {
            Ok(path) => draft.with_file(file) matches Ok(next) && {
                &&& next.files.len() == draft.files.len() + 1
                &&& next.files.take(draft.files.len() as int) == draft.files
                &&& next.files.last().path == path
                &&& next.files.last().size_bytes == file.bytes.len()
                &&& next == BundleDraftView { files: next.files, ..draft }
            },
            Err(e) => draft.with_file(file) == Err::<BundleDraftView, AppErrorView>(e),
        },
{
    if let Ok(next) = draft.with_file(file) {
        assert(next.files.take(draft.files.len() as int) =~= draft.files);
    }
}

/// A finished bundle tells what it was made for, where it lies, which files it
/// holds and how many, how large its archive is and when it was made.
pub proof fn law_finished_bundle(draft: BundleDraftView, size: u64, created_at: Timestamp)
    requires
        draft.files.len() <= usize::MAX,
    ensures
        ({
            let bundle = draft.finished(size, created_at);
            &&& bundle.bundle_id == draft.bundle_id && bundle.lab_id == draft.lab_id
            &&& bundle.requested_by == draft.requested_by
            &&& bundle.workspace_dir == draft.workspace_dir
            &&& bundle.archive_path == draft.archive_path
            &&& bundle.suggested_gcs_path == draft.suggested_gcs_path
            &&& bundle.archive_size_bytes == size && bundle.created_at == created_at
            &&& bundle.files == draft.files && bundle.file_count == draft.files.len()
        }),
{
}

/// An archive is uploaded to the bucket, under the object's name with everything
/// escaped that means something in an address.
pub proof fn law_upload_address(bucket: Seq<char>, object: Seq<char>)
    ensures
        source_bundles::upload_endpoint(bucket, object)
            == "https://storage.googleapis.com/upload/storage/v1/b/"@ + bucket
            + "/o?uploadType=media&name="@ + outside::percent_encoded(utf8::encode_utf8(object)),
{
}

/// An upload comes to its path exactly when its reply says so. The error tells
/// the path, the status and the body of the reply.
pub proof fn law_upload_result(
    path: Seq<char>,
    status: u16,
    status_text: Seq<char>,
    body: Seq<char>,
    shown: Option<Seq<char>>,
)
    ensures
        source_bundles::upload_result(path, status, status_text, shown) is Ok <==> 200 <= status
            <= 299,
        200 <= status <= 299 ==> source_bundles::upload_result(path, status, status_text, shown)
            == Ok::<Seq<char>, AppErrorView>(path),
        !(200 <= status <= 299) ==> source_bundles::upload_result(
            path,
            status,
            status_text,
            Some(body),
        ) == Err::<Seq<char>, AppErrorView>(
            AppErrorView::Internal(
                "GCS upload failed for "@ + path + ": HTTP "@ + status_text + " - "@ + body,
            ),
        ),
        source_bundles::upload_result(path, status, status_text, None)
            == source_bundles::upload_result(
            path,
            status,
            status_text,
            Some("<unavailable body>"@),
        ),
{
}

/// An address that is no address in a bucket is told as it is, without white
/// space at its ends.
pub proof fn law_invalid_suggested_path_is_told(value: Seq<char>)
    ensures
        source_bundles::invalid_gcs_path(value) == AppErrorView::Internal(
            "Invalid suggested GCS path: "@ + text::trim(value),
        ),
{
}

/// Files, bundles and drafts are shown with each of their fields.
pub proof fn law_bundles_show_their_fields(
    input: UploadedFileInput,
    file: UploadedFile,
    bundle: SourceBundle,
    draft: BundleDraft,
    files: Seq<UploadedFileInput>,
)
    ensures
        input@.relative_path == input.relative_path@ && input@.bytes == input.bytes@,
        file@.path == file.path@ && file@.size_bytes == file.size_bytes,
        source_bundles::input_views(files).len() == files.len(),
        forall|i: int|
            0 <= i < files.len() ==> #[trigger] source_bundles::input_views(files)[i] == files[i]@,
        bundle@.bundle_id == bundle.bundle_id,
        bundle@.lab_id == text::opt_text(bundle.lab_id),
        bundle@.requested_by == text::opt_text(bundle.requested_by),
        bundle@.workspace_dir == bundle.workspace_dir@,
        bundle@.archive_path == bundle.archive_path@,
        bundle@.suggested_gcs_path == bundle.suggested_gcs_path@,
        bundle@.archive_size_bytes == bundle.archive_size_bytes,
        bundle@.file_count == bundle.file_count,
        bundle@.created_at == bundle.created_at,
        bundle@.files.len() == bundle.files@.len(),
        forall|i: int|
            0 <= i < bundle.files@.len() ==> #[trigger] bundle@.files[i] == bundle.files@[i]@,
        draft@.bundle_id == draft.bundle_id,
        draft@.lab_id == text::opt_text(draft.lab_id),
        draft@.requested_by == text::opt_text(draft.requested_by),
        draft@.workspace_dir == draft.workspace_dir@,
        draft@.artifacts_dir == draft.artifacts_dir@,
        draft@.archive_path == draft.archive_path@,
        draft@.suggested_gcs_path == draft.suggested_gcs_path@,
        draft@.files.len() == draft.files@.len(),
        forall|i: int|
            0 <= i < draft.files@.len() ==> #[trigger] draft@.files[i] == draft.files@[i]@,
{
}

} // verus!
