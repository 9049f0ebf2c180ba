//! Paths as text, split at `/`, and their confinement to a root directory.

use crate::error;
use crate::error::{bad_request, internal, AppError, AppErrorView};
use crate::text;
use crate::text::{chars_of, owned, same, split_text, trimmed};
use vstd::prelude::*;
use vstd::string::*;

verus! {

/// The segment that climbs to the parent directory.
pub open spec fn parent_segment() -> Seq<char> {
    seq!['.', '.']
}

/// A piece between slashes that names something: neither empty nor `.`.
pub open spec fn is_segment(piece: Seq<char>) -> bool {
    piece.len() > 0 && piece != seq!['.']
}

pub open spec fn segment_test() -> spec_fn(Seq<char>) -> bool {
    |piece: Seq<char>| is_segment(piece)
}

/// The segments of a path: what stands between slashes, without empty pieces
/// and without `.`.
pub open spec fn segments(path: Seq<char>) -> Seq<Seq<char>> {
    text::split(path, '/').filter(segment_test())
}

pub open spec fn is_absolute(path: Seq<char>) -> bool {
    path.len() > 0 && path[0] == '/'
}

/// The components of a path: its segments, after `/` for an absolute path and
/// after `.` for a path that begins with that piece.
pub open spec fn components(path: Seq<char>) -> Seq<Seq<char>> {
    if is_absolute(path) {
        seq![seq!['/']] + segments(path)
    } else if text::split(path, '/')[0] == seq!['.'] {
        seq![seq!['.']] + segments(path)
    } else {
        segments(path)
    }
}

/// Whether `path` lies at or below `root`, component by component.
pub open spec fn is_within(path: Seq<char>, root: Seq<char>) -> bool {
    components(root).is_prefix_of(components(path))
}

/// `relative` appended to `base` as a path; an absolute one replaces it.
pub open spec fn join_path(base: Seq<char>, relative: Seq<char>) -> Seq<char> {
    if is_absolute(relative) {
        relative
    } else if base.len() == 0 || base.last() == '/' {
        base + relative
    } else {
        base.push('/') + relative
    }
}

/// How deep below its start a walk along `segs` ends, or nothing where it ever
/// climbs above its start.
pub open spec fn depth(segs: Seq<Seq<char>>) -> Option<nat>
    decreases segs.len(),
{
    if segs.len() == 0 {
        Some(0)
    } else {
        match depth(segs.drop_last()) {
            None => None,
            Some(d) => if segs.last() == parent_segment() {
                if d == 0 {
                    None
                } else {
                    Some((d - 1) as nat)
                }
            } else {
                Some(d + 1)
            },
        }
    }
}

/// Where a walk along `segs` ends: each `..` takes the last segment back.
pub open spec fn resolve(segs: Seq<Seq<char>>) -> Seq<Seq<char>>
    decreases segs.len(),
{
    if segs.len() == 0 {
        Seq::<Seq<char>>::empty()
    } else {
        let front = resolve(segs.drop_last());
        if segs.last() == parent_segment() {
            if front.len() == 0 {
                front
            } else {
                front.drop_last()
            }
        } else {
            front.push(segs.last())
        }
    }
}

/// What joining `relative` to `root` gives.
pub open spec fn joined_to_root(root: Seq<char>, relative: Seq<char>) -> Result<
    Seq<char>,
    AppErrorView,
> {
    if is_absolute(relative) {
        Err(
            AppErrorView::BadRequest("Path must stay relative to the builder workspace"@),
        )
    } else if depth(segments(relative)) is None {
        Err(AppErrorView::BadRequest("Path escapes the builder workspace"@))
    } else {
        Ok(join_path(root, relative))
    }
}

/// The directory that a configured root names.
pub open spec fn builder_root(value: Seq<char>) -> Result<Seq<char>, AppErrorView> {
    if text::trim(value).len() == 0 {
        Err(AppErrorView::Internal("LAB_BUNDLE_ROOT_DIR must not be empty"@))
    } else if !is_absolute(text::trim(value)) {
        Err(AppErrorView::Internal("LAB_BUNDLE_ROOT_DIR must be an absolute path"@))
    } else {
        Ok(text::trim(value))
    }
}

/// What a path that was looked up on disk gives: the text of its canonical form
/// where it exists and lies within the root, else an error.
pub open spec fn resolved_within_root(
    root: Seq<char>,
    canonical: Result<Seq<char>, Seq<char>>,
) -> Result<Seq<char>, AppErrorView> {
    match canonical {
        Err(e) => Err(AppErrorView::BadRequest("Path must exist: "@ + e)),
        Ok(path) => if is_within(path, root) {
            Ok(path)
        } else {
            Err(
                AppErrorView::BadRequest("Path must stay within the builder root directory"@),
            )
        },
    }
}

/// Pushing one more element onto a sequence and filtering.
pub proof fn lemma_filter_push<A>(s: Seq<A>, p: spec_fn(A) -> bool, x: A)
    ensures
        s.push(x).filter(p) == if p(x) {
            s.filter(p).push(x)
        } else {
            s.filter(p)
        },
{
    reveal(Seq::filter);
    assert(s.push(x).drop_last() =~= s);
}

/// The segments of a path.
pub fn path_segments(path: &str) -> (r: Vec<String>)
    ensures
        text::texts(r@) == segments(path@),
{
    let pieces = split_text(path, '/');
    let mut r: Vec<String> = Vec::new();
    let ghost all = text::split(path@, '/');
    proof {
        reveal(Seq::filter);
        assert(all.take(0).filter(segment_test()) =~= Seq::<Seq<char>>::empty());
        assert(text::texts(r@) =~= Seq::<Seq<char>>::empty());
    }
    for i in 0..pieces.len()
        invariant
            all == text::split(path@, '/'),
            text::texts(pieces@) == all,
            text::texts(r@) == all.take(i as int).filter(segment_test()),
    {
        let ghost before = text::texts(r@);
        let piece = &pieces[i];
        proof {
            reveal_strlit(".");
            assert("."@ =~= seq!['.']);
            assert(text::texts(pieces@)[i as int] == piece@);
            assert(all.take(i + 1) =~= all.take(i as int).push(piece@));
            lemma_filter_push(all.take(i as int), segment_test(), piece@);
        }
        if !piece.as_str().is_empty() && !same(piece.as_str(), ".") {
            r.push(piece.clone());
            assert(text::texts(r@) =~= before.push(piece@));
        }
    }
    assert(all.take(all.len() as int) =~= all);
    r
}

/// Whether a path is absolute.
pub fn path_is_absolute(path: &str) -> (r: bool)
    ensures
        r == is_absolute(path@),
{
    let cs = chars_of(path);
    cs.len() > 0 && cs[0] == '/'
}

/// The components of a path.
pub fn path_components(path: &str) -> (r: Vec<String>)
    ensures
        text::texts(r@) == components(path@),
{
    let segs = path_segments(path);
    let mut r: Vec<String> = Vec::new();
    let pieces = split_text(path, '/');
    proof {
        reveal_strlit(".");
        reveal_strlit("/");
        assert("."@ =~= seq!['.']);
        assert("/"@ =~= seq!['/']);
        assert(text::texts(pieces@)[0] == pieces@[0]@);
    }
    if path_is_absolute(path) {
        r.push(owned("/"));
        assert(text::texts(r@) =~= seq![seq!['/']]);
    } else if same(pieces[0].as_str(), ".") {
        r.push(owned("."));
        assert(text::texts(r@) =~= seq![seq!['.']]);
    }
    let ghost head = text::texts(r@);
    for i in 0..segs.len()
        invariant
            text::texts(segs@) == segments(path@),
            text::texts(r@) == head + segments(path@).take(i as int),
    {
        let ghost before = text::texts(r@);
        r.push(segs[i].clone());
        assert(text::texts(segs@)[i as int] == segs@[i as int]@);
        assert(text::texts(r@) =~= before.push(segments(path@)[i as int]));
        assert(text::texts(r@) =~= head + segments(path@).take(i + 1));
    }
    assert(text::texts(r@) =~= head + segments(path@));
    assert(Seq::<Seq<char>>::empty() + segments(path@) =~= segments(path@));
    assert(head.len() == 0 ==> head =~= Seq::<Seq<char>>::empty());
    r
}

/// Whether `path` lies at or below `root`, component by component.
pub fn path_is_within(path: &str, root: &str) -> (r: bool)
    ensures
        r == is_within(path@, root@),
{
    let p = path_components(path);
    let q = path_components(root);
    if q.len() > p.len() {
        return false;
    }
    for i in 0..q.len()
        invariant
            text::texts(p@) == components(path@),
            text::texts(q@) == components(root@),
            q@.len() <= p@.len(),
            forall|j: int| 0 <= j < i ==> text::texts(p@)[j] == text::texts(q@)[j],
    {
        assert(text::texts(p@)[i as int] == p@[i as int]@);
        assert(text::texts(q@)[i as int] == q@[i as int]@);
        if !same(p[i].as_str(), q[i].as_str()) {
            assert(components(path@).subrange(0, components(root@).len() as int)[i as int]
                != components(root@)[i as int]);
            return false;
        }
    }
    assert(components(path@).subrange(0, components(root@).len() as int) =~= components(root@));
    true
}

/// `relative` appended to `base` as a path; an absolute one replaces it.
pub fn join_paths(base: &str, relative: &str) -> (r: String)
    ensures
        r@ == join_path(base@, relative@),
{
    if path_is_absolute(relative) {
        return owned(relative);
    }
    let cs = chars_of(base);
    let mut r = owned(base);
    if cs.len() > 0 && cs[cs.len() - 1] != '/' {
        r.push('/');
    }
    r.append(relative);
    r
}

/// How deep a walk along `segs` ends below its start, or nothing where it ever
/// climbs above it.
pub fn walk_depth(segs: &Vec<String>) -> (r: Option<usize>)
    ensures
        match r {
            Some(d) => depth(text::texts(segs@)) == Some(d as nat),
            None => depth(text::texts(segs@)) is None,
        },
{
    let mut d: usize = 0;
    let ghost all = text::texts(segs@);
    assert(all.take(0) =~= Seq::<Seq<char>>::empty());
    for i in 0..segs.len()
        invariant
            all == text::texts(segs@),
            d <= i,
            depth(all.take(i as int)) == Some(d as nat),
    {
        proof {
            reveal_strlit("..");
            assert(".."@ =~= parent_segment());
            assert(all[i as int] == segs@[i as int]@);
            assert(all.take(i + 1).drop_last() =~= all.take(i as int));
        }
        if same(segs[i].as_str(), "..") {
            if d == 0 {
                proof {
                    lemma_depth_prefix(all, i + 1);
                }
                return None;
            }
            d -= 1;
        } else {
            d += 1;
        }
    }
    assert(all.take(all.len() as int) =~= all);
    Some(d)
}

/// A walk that climbed above its start does not count as coming back.
pub proof fn lemma_depth_prefix(segs: Seq<Seq<char>>, k: int)
    requires
        0 <= k <= segs.len(),
        depth(segs.take(k)) is None,
    ensures
        depth(segs) is None,
    decreases segs.len(),
{
    if k == segs.len() {
        assert(segs.take(k) =~= segs);
    } else {
        assert(segs.drop_last().take(k) =~= segs.take(k));
        lemma_depth_prefix(segs.drop_last(), k);
    }
}

/// Joins a relative path to a root that it may not leave: an absolute path is
/// refused, and one whose `..` segments climb above the root at any point.
pub fn join_relative_to_root(root: &str, relative: &str) -> (r: Result<String, AppError>)
    ensures
        error::text_outcome(r) == joined_to_root(root@, relative@),
{
    if path_is_absolute(relative) {
        return Err(bad_request("Path must stay relative to the builder workspace"));
    }
    let segs = path_segments(relative);
    if walk_depth(&segs).is_none() {
        return Err(bad_request("Path escapes the builder workspace"));
    }
    Ok(join_paths(root, relative))
}

/// The directory that a configured root names: it has to be an absolute path.
/// The caller creates it and takes its canonical form.
pub fn ensure_builder_root_dir(value: &str) -> (r: Result<String, AppError>)
    ensures
        error::text_outcome(r) == builder_root(value@),
{
    let candidate = trimmed(value);
    if candidate.as_str().is_empty() {
        return Err(internal("LAB_BUNDLE_ROOT_DIR must not be empty"));
    }
    if !path_is_absolute(candidate.as_str()) {
        return Err(internal("LAB_BUNDLE_ROOT_DIR must be an absolute path"));
    }
    Ok(candidate)
}

/// The path to look up on disk for a path that a client gave.
pub fn path_to_resolve(value: &str) -> (r: Result<String, AppError>)
    ensures
        error::text_outcome(r) == if text::trim(value@).len() > 0 {
            Ok(text::trim(value@))
        } else {
            Err(AppErrorView::BadRequest("Path must not be empty"@))
        },
{
    let t = trimmed(value);
    if t.as_str().is_empty() {
        return Err(bad_request("Path must not be empty"));
    }
    Ok(t)
}

/// The text of a lookup's outcome.
pub open spec fn lookup_text(v: Result<String, String>) -> Result<Seq<char>, Seq<char>> {
    match v {
        Ok(path) => Ok(path@),
        Err(e) => Err(e@),
    }
}

/// Accepts a path that was looked up on disk only where it exists and lies
/// within the root. `canonical` is the lookup's outcome: the canonical path, or
/// the text of the error.
pub fn resolve_existing_path_within_root(root: &str, canonical: Result<String, String>) -> (r:
    Result<String, AppError>)
    ensures
        error::text_outcome(r) == resolved_within_root(root@, lookup_text(canonical)),
{
    match canonical {
        Err(e) => Err(AppError::BadRequest(owned("Path must exist: ").concat(e.as_str()))),
        Ok(path) => if path_is_within(path.as_str(), root) {
            Ok(path)
        } else {
            Err(bad_request("Path must stay within the builder root directory"))
        },
    }
}

} // verus!
