//! Addresses of objects in Google Cloud Storage.

use crate::text;
use crate::text::{skip_chars, split_at_first, starts_with, trimmed};
use crate::text_laws;
use vstd::prelude::*;
use vstd::string::*;

verus! {

/// What every address of an object begins with.
pub open spec fn scheme() -> Seq<char> {
    "gs://"@
}

/// Whether a text, without white space at its ends, has the scheme.
pub open spec fn has_scheme(value: Seq<char>) -> bool {
    scheme().is_prefix_of(text::trim(value))
}

/// The bucket and the object that an address names: what stands before and
/// after the first slash behind the scheme, where neither is empty.
pub open spec fn parts(value: Seq<char>) -> Option<(Seq<char>, Seq<char>)> {
    if has_scheme(value) {
        match text::split_once(text::trim(value).skip(scheme().len() as int), '/') {
            Some((bucket, object)) => if bucket.len() > 0 && object.len() > 0 {
                Some((bucket, object))
            } else {
                None
            },
            None => None,
        }
    } else {
        None
    }
}

/// Whether a text, without white space at its ends, has the scheme.
pub fn has_gs_scheme(value: &str) -> (r: bool)
    ensures
        r == has_scheme(value@),
{
    starts_with(trimmed(value).as_str(), "gs://")
}

/// The bucket and the object that an address names.
pub fn split_gcs_uri(value: &str) -> (r: Option<(String, String)>)
    ensures
        match r {
            Some((bucket, object)) => parts(value@) == Some((bucket@, object@)),
            None => parts(value@) is None,
        },
{
    let t = trimmed(value);
    if !starts_with(t.as_str(), "gs://") {
        return None;
    }
    proof {
        reveal_strlit("gs://");
    }
    let rest = skip_chars(t.as_str(), 5);
    match split_at_first(rest.as_str(), '/') {
        Some((bucket, object)) => if bucket.as_str().is_empty() || object.as_str().is_empty() {
            None
        } else {
            Some((bucket, object))
        },
        None => None,
    }
}

/// What stands before the first `x` holds none, and with it the text is whole.
proof fn lemma_before_first(a: Seq<char>, b: Seq<char>, x: char)
    requires
        !a.contains(x),
    ensures
        text::before_first(a.push(x) + b, x) == a.len(),
    decreases a.len(),
{
    let whole = a.push(x) + b;
    if a.len() > 0 {
        assert(a[0] != x);
        assert(whole.drop_first() =~= a.drop_first().push(x) + b);
        assert(!a.drop_first().contains(x)) by {
            if a.drop_first().contains(x) {
                let k = choose|k: int| 0 <= k < a.drop_first().len() && a.drop_first()[k] == x;
                assert(a[k + 1] == x);
            }
        }
        lemma_before_first(a.drop_first(), b, x);
    }
}

/// Reading an address gives back the bucket and the object that it was made of.
pub proof fn law_parts_of_address(bucket: Seq<char>, object: Seq<char>)
    requires
        bucket.len() > 0,
        !bucket.contains('/'),
        object.len() > 0,
        !text::is_white(object.last()),
    ensures
        parts((scheme() + bucket).push('/') + object) == Some((bucket, object)),
{
    reveal_strlit("gs://");
    let whole = (scheme() + bucket).push('/') + object;
    assert(whole[0] == 'g');
    assert(whole.last() == object.last());
    text_laws::lemma_trim_same(whole);
    assert(whole.subrange(0, 5) =~= scheme());
    let rest = whole.skip(5);
    assert(rest =~= bucket.push('/') + object);
    assert(rest[bucket.len() as int] == '/');
    lemma_before_first(bucket, object, '/');
    assert(rest.take(bucket.len() as int) =~= bucket);
    assert(rest.skip(bucket.len() as int + 1) =~= object);
}

} // verus!
