//! What joining a path to a root guarantees.

use crate::error::AppErrorView;
use crate::services::path_safety;
use crate::text;
use crate::text_laws;
use vstd::prelude::*;
use vstd::string::*;

verus! {

/// Filtering two sequences in a row is filtering each.
pub proof fn lemma_filter_concat<A>(a: Seq<A>, b: Seq<A>, p: spec_fn(A) -> bool)
    ensures
        (a + b).filter(p) == a.filter(p) + b.filter(p),
    decreases b.len(),
{
    reveal(Seq::filter);
    if b.len() == 0 {
        assert(a + b =~= a);
    } else {
        lemma_filter_concat(a, b.drop_last(), p);
        assert((a + b).drop_last() =~= a + b.drop_last());
        assert((a + b).last() == b.last());
    }
    assert((a + b).filter(p) =~= a.filter(p) + b.filter(p));
}

/// The empty path has no segments.
proof fn lemma_empty_path(path: Seq<char>)
    requires
        path.len() == 0,
    ensures
        path_safety::segments(path) == Seq::<Seq<char>>::empty(),
{
    let none = Seq::<Seq<char>>::empty();
    reveal(Seq::filter);
    assert(text::split(path, '/') =~= none.push(Seq::<char>::empty()));
    path_safety::lemma_filter_push(none, path_safety::segment_test(), Seq::<char>::empty());
    assert(none.filter(path_safety::segment_test()) =~= none);
}

/// A path joined to a base has the base's segments, then its own.
pub proof fn lemma_join_segments(base: Seq<char>, relative: Seq<char>)
    requires
        !path_safety::is_absolute(relative),
    ensures
        path_safety::segments(path_safety::join_path(base, relative)) == path_safety::segments(base)
            + path_safety::segments(relative),
{
    let p = path_safety::segment_test();
    let whole = path_safety::join_path(base, relative);
    reveal(Seq::filter);
    if base.len() == 0 {
        assert(whole =~= relative);
        lemma_empty_path(base);
        assert(path_safety::segments(base) + path_safety::segments(relative)
            =~= path_safety::segments(relative));
    } else if base.last() == '/' {
        let front = base.drop_last();
        assert(base =~= front.push('/'));
        assert(front.push('/') + relative =~= whole);
        text_laws::lemma_split_concat(front, relative, '/');
        lemma_filter_concat(text::split(front, '/'), text::split(relative, '/'), p);
        assert(text::split(base, '/') == text::split(front, '/').push(Seq::<char>::empty()));
        path_safety::lemma_filter_push(text::split(front, '/'), p, Seq::<char>::empty());
    } else {
        text_laws::lemma_split_concat(base, relative, '/');
        lemma_filter_concat(text::split(base, '/'), text::split(relative, '/'), p);
    }
}

/// The first piece of a text is the first piece of any longer text that
/// continues it behind a separator.
proof fn lemma_first_piece(a: Seq<char>, b: Seq<char>, sep: char)
    ensures
        text::split(a.push(sep) + b, sep)[0] == text::split(a, sep)[0],
{
    text_laws::lemma_split_concat(a, b, sep);
    text_laws::lemma_split_pieces(a, sep);
}

/// A path joined to a base lies within the base, component by component.
pub proof fn law_join_stays_within(base: Seq<char>, relative: Seq<char>)
    requires
        !path_safety::is_absolute(relative),
    ensures
        path_safety::is_within(path_safety::join_path(base, relative), base),
{
    let whole = path_safety::join_path(base, relative);
    lemma_join_segments(base, relative);
    if base.len() == 0 {
        lemma_empty_path(base);
        assert(text::split(base, '/')[0].len() == 0);
        assert(path_safety::components(base) =~= Seq::<Seq<char>>::empty());
        assert(path_safety::components(whole).subrange(0, 0) =~= Seq::<Seq<char>>::empty());
    } else {
        assert(path_safety::is_absolute(whole) == path_safety::is_absolute(base));
        if base.last() == '/' {
            let front = base.drop_last();
            assert(base =~= front.push('/'));
            assert(front.push('/') + relative =~= whole);
            assert(front.push('/') + Seq::<char>::empty() =~= base);
            lemma_first_piece(front, relative, '/');
            lemma_first_piece(front, Seq::<char>::empty(), '/');
        } else {
            lemma_first_piece(base, relative, '/');
        }
        let n = path_safety::components(base).len();
        assert(path_safety::components(whole).subrange(0, n as int) =~= path_safety::components(
            base,
        ));
    }
}

/// A walk that never climbs above its start, begun at the end of another walk,
/// keeps to what lies below that point.
pub proof fn lemma_resolve_below(start: Seq<Seq<char>>, steps: Seq<Seq<char>>)
    requires
        path_safety::depth(steps) is Some,
    ensures
        path_safety::resolve(start).is_prefix_of(path_safety::resolve(start + steps)),
        path_safety::resolve(start + steps).len() == path_safety::resolve(start).len()
            + path_safety::depth(steps)->0,
    decreases steps.len(),
{
    let base = path_safety::resolve(start);
    if steps.len() == 0 {
        assert(start + steps =~= start);
        assert(base.subrange(0, base.len() as int) =~= base);
    } else {
        let front = steps.drop_last();
        lemma_resolve_below(start, front);
        assert((start + steps).drop_last() =~= start + front);
        assert((start + steps).last() == steps.last());
        let before = path_safety::resolve(start + front);
        let after = path_safety::resolve(start + steps);
        assert(after.subrange(0, base.len() as int) =~= before.subrange(0, base.len() as int));
    }
}

/// Whatever path `join_relative_to_root` accepts, following it from the root,
/// `..` segments and all, ends below the root.
pub proof fn law_joined_path_is_confined(root: Seq<char>, relative: Seq<char>)
    requires
        path_safety::joined_to_root(root, relative) is Ok,
    ensures
        ({
            let path = path_safety::joined_to_root(root, relative)->Ok_0;
            &&& path_safety::is_within(path, root)
            &&& path_safety::resolve(path_safety::segments(root)).is_prefix_of(
                path_safety::resolve(path_safety::segments(path)),
            )
        }),
{
    law_join_stays_within(root, relative);
    lemma_join_segments(root, relative);
    lemma_resolve_below(path_safety::segments(root), path_safety::segments(relative));
}

/// A relative path stands behind its base, with one slash between them where the
/// base does not bring it; an absolute path stands alone.
pub proof fn law_join_puts_a_slash_between(base: Seq<char>, relative: Seq<char>)
    ensures
        relative.len() > 0 && relative[0] == '/' ==> path_safety::join_path(base, relative)
            == relative,
        !(relative.len() > 0 && relative[0] == '/') ==> {
            &&& base.len() == 0 ==> path_safety::join_path(base, relative) == relative
            &&& base.len() > 0 && base.last() == '/' ==> path_safety::join_path(base, relative)
                == base + relative
            &&& base.len() > 0 && base.last() != '/' ==> path_safety::join_path(base, relative)
                == base + "/"@ + relative
        },
{
    reveal_strlit("/");
    assert("/"@ =~= seq!['/']);
    if base.len() == 0 {
        assert(base + relative =~= relative);
    } else {
        assert(base.push('/') + relative =~= base + "/"@ + relative);
    }
}

/// How many of the steps lead to a parent directory.
pub open spec fn parents(steps: Seq<Seq<char>>) -> nat
    decreases steps.len(),
{
    if steps.len() == 0 {
        0
    } else {
        parents(steps.drop_last()) + if steps.last() == ".."@ {
            1nat
        } else {
            0nat
        }
    }
}

/// A walk climbs above its start exactly when at some point it has taken more
/// steps to a parent directory than into a directory. Otherwise it ends as deep
/// as the steps into directories outnumber the others.
pub proof fn law_depth_counts_the_steps(steps: Seq<Seq<char>>)
    ensures
        path_safety::depth(steps) is Some <==> forall|k: int|
            0 <= k <= steps.len() ==> 2 * parents(#[trigger] steps.take(k)) <= k,
        path_safety::depth(steps) matches Some(d) ==> d == steps.len() - 2 * parents(steps),
    decreases steps.len(),
{
    reveal_strlit("..");
    assert(".."@ =~= seq!['.', '.']);
    assert(steps.take(steps.len() as int) =~= steps);
    if steps.len() > 0 {
        let front = steps.drop_last();
        law_depth_counts_the_steps(front);
        assert forall|k: int| 0 <= k <= front.len() implies #[trigger] front.take(k) == steps.take(
            k,
        ) by {
            assert(front.take(k) =~= steps.take(k));
        }
        if path_safety::depth(steps) is Some {
            assert forall|k: int| 0 <= k <= steps.len() implies 2 * parents(#[trigger] steps.take(k))
                <= k by {
                if k < steps.len() {
                    assert(front.take(k) == steps.take(k));
                }
            }
        }
        if forall|k: int| 0 <= k <= steps.len() ==> 2 * parents(#[trigger] steps.take(k)) <= k {
            assert forall|k: int| 0 <= k <= front.len() implies 2 * parents(#[trigger] front.take(k))
                <= k by {
                assert(2 * parents(steps.take(k)) <= k);
            }
            assert(2 * parents(steps.take(steps.len() as int)) <= steps.len());
        }
    }
}

/// A path is joined to the root exactly when it is relative and never climbs
/// above its start: it then stands behind the root. The error tells which of the
/// two it is.
pub proof fn law_joined_to_root(root: Seq<char>, relative: Seq<char>)
    ensures
        ({
            let absolute = relative.len() > 0 && relative[0] == '/';
            let steps = path_safety::segments(relative);
            let climbs = exists|k: int|
                0 <= k <= steps.len() && 2 * parents(#[trigger] steps.take(k)) > k;
            &&& absolute ==> path_safety::joined_to_root(root, relative) == Err::<
                Seq<char>,
                AppErrorView,
            >(AppErrorView::BadRequest("Path must stay relative to the builder workspace"@))
            &&& !absolute && climbs ==> path_safety::joined_to_root(root, relative) == Err::<
                Seq<char>,
                AppErrorView,
            >(AppErrorView::BadRequest("Path escapes the builder workspace"@))
            &&& !absolute && !climbs ==> path_safety::joined_to_root(root, relative) == Ok::<
                Seq<char>,
                AppErrorView,
            >(path_safety::join_path(root, relative))
        }),
{
    law_depth_counts_the_steps(path_safety::segments(relative));
}

/// The directory of the service has to be an absolute path. White space at its
/// ends does not count.
pub proof fn law_builder_root(value: Seq<char>)
    ensures
        ({
            let root = text::trim(value);
            &&& root.len() == 0 ==> path_safety::builder_root(value) == Err::<
                Seq<char>,
                AppErrorView,
            >(AppErrorView::Internal("LAB_BUNDLE_ROOT_DIR must not be empty"@))
            &&& root.len() > 0 && root[0] != '/' ==> path_safety::builder_root(value) == Err::<
                Seq<char>,
                AppErrorView,
            >(AppErrorView::Internal("LAB_BUNDLE_ROOT_DIR must be an absolute path"@))
            &&& root.len() > 0 && root[0] == '/' ==> path_safety::builder_root(value) == Ok::<
                Seq<char>,
                AppErrorView,
            >(root)
        }),
{
}

/// A path that was looked up is accepted as it was found, exactly when it exists
/// and lies within the root.
pub proof fn law_resolved_path_is_within(root: Seq<char>, path: Seq<char>, cause: Seq<char>)
    ensures
        path_safety::is_within(path, root) ==> path_safety::resolved_within_root(root, Ok(path))
            == Ok::<Seq<char>, AppErrorView>(path),
        !path_safety::is_within(path, root) ==> path_safety::resolved_within_root(root, Ok(path))
            == Err::<Seq<char>, AppErrorView>(
            AppErrorView::BadRequest("Path must stay within the builder root directory"@),
        ),
        path_safety::resolved_within_root(root, Err(cause)) == Err::<Seq<char>, AppErrorView>(
            AppErrorView::BadRequest("Path must exist: "@ + cause),
        ),
{
}

/// A piece of a path leads somewhere unless it is empty or a single dot.
pub proof fn law_pieces_that_lead_somewhere(piece: Seq<char>, path: Seq<char>)
    ensures
        path_safety::is_segment(piece) <==> piece.len() > 0 && piece != "."@,
        path_safety::is_absolute(path) <==> path.len() > 0 && path[0] == '/',
        path_safety::parent_segment() == ".."@,
{
    reveal_strlit(".");
    reveal_strlit("..");
    assert("."@ =~= seq!['.']);
    assert(".."@ =~= seq!['.', '.']);
}

/// Every path lies within itself, and what lies within a path lies within
/// whatever that lies within.
pub proof fn law_within_is_an_order(a: Seq<char>, b: Seq<char>, c: Seq<char>)
    ensures
        path_safety::is_within(a, a),
        path_safety::is_within(a, b) && path_safety::is_within(b, c) ==> path_safety::is_within(a, c),
{
    let x = path_safety::components(a);
    let y = path_safety::components(b);
    let z = path_safety::components(c);
    assert(x.subrange(0, x.len() as int) =~= x);
    if y.is_prefix_of(x) && z.is_prefix_of(y) {
        assert(x.subrange(0, z.len() as int) =~= z) by {
            assert forall|i: int| 0 <= i < z.len() implies x[i] == z[i] by {
                assert(y.subrange(0, z.len() as int)[i] == y[i]);
                assert(x.subrange(0, y.len() as int)[i] == x[i]);
            }
        }
    }
}

/// A name without slashes that leads somewhere is its own only segment.
proof fn lemma_name_is_segment(name: Seq<char>)
    requires
        !name.contains('/'),
        path_safety::is_segment(name),
    ensures
        path_safety::segments(name) == seq![name],
        !path_safety::is_absolute(name),
{
    text_laws::lemma_split_single(name, '/');
    let none = Seq::<Seq<char>>::empty();
    reveal(Seq::filter);
    assert(none.filter(path_safety::segment_test()) =~= none);
    path_safety::lemma_filter_push(none, path_safety::segment_test(), name);
    assert(none.push(name) =~= seq![name]);
    if path_safety::is_absolute(name) {
        assert(name.contains('/'));
    }
}

/// Nothing below one directory lies within another of a different name beside
/// it, not even where the one name begins with the other.
pub proof fn law_sibling_is_not_within(
    directory: Seq<char>,
    a: Seq<char>,
    b: Seq<char>,
    rest: Seq<char>,
)
    requires
        path_safety::is_absolute(directory),
        directory.last() != '/',
        path_safety::is_segment(a),
        path_safety::is_segment(b),
        !a.contains('/'),
        !b.contains('/'),
        a != b,
        !path_safety::is_absolute(rest),
    ensures
        !path_safety::is_within(directory + "/"@ + b, directory + "/"@ + a),
        !path_safety::is_within(directory + "/"@ + b + "/"@ + rest, directory + "/"@ + a),
        path_safety::is_within(directory + "/"@ + a + "/"@ + rest, directory + "/"@ + a),
{
    lemma_name_is_segment(a);
    lemma_name_is_segment(b);
    law_join_puts_a_slash_between(directory, a);
    law_join_puts_a_slash_between(directory, b);
    lemma_join_segments(directory, a);
    lemma_join_segments(directory, b);
    let x = directory + "/"@ + a;
    let y = directory + "/"@ + b;
    assert(x[0] == '/' && y[0] == '/');
    assert(x.last() == a.last() && y.last() == b.last());
    assert(a.last() != '/') by {
        if a.last() == '/' {
            assert(a[a.len() - 1] == '/');
        }
    }
    assert(b.last() != '/') by {
        if b.last() == '/' {
            assert(b[b.len() - 1] == '/');
        }
    }
    law_join_puts_a_slash_between(x, rest);
    law_join_puts_a_slash_between(y, rest);
    lemma_join_segments(x, rest);
    lemma_join_segments(y, rest);
    law_join_stays_within(x, rest);
    let z = y + "/"@ + rest;
    assert(z[0] == '/');
    let n = path_safety::segments(directory).len() as int;
    let inner = path_safety::components(x);
    assert(inner.len() == n + 2 && inner[n + 1] == a);
    assert(path_safety::components(y)[n + 1] == b);
    assert(path_safety::components(z)[n + 1] == b);
    if inner.is_prefix_of(path_safety::components(y)) {
        assert(path_safety::components(y).subrange(0, inner.len() as int)[n + 1] == b);
    }
    if inner.is_prefix_of(path_safety::components(z)) {
        assert(path_safety::components(z).subrange(0, inner.len() as int)[n + 1] == b);
    }
}

} // verus!
