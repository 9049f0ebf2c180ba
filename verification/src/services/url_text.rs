//! How long an address becomes, and what does and does not change in it.

use crate::outside;
use crate::services::bundle_laws;
use crate::services::path_safety;
use crate::text;
use crate::text::chars_of;
use crate::text_laws;
use vstd::prelude::*;
use vstd::string::*;
use vstd::utf8;

verus! {

/// A text without the characters that do not count in an address.
fn counted_text(s: &str) -> (r: String)
    ensures
        r@ == outside::counted(s@),
{
    let cs = chars_of(s);
    let mut r = String::new();
    proof {
        reveal(Seq::filter);
        assert(cs@.take(0).filter(outside::counts_test()) =~= Seq::<char>::empty());
    }
    for i in 0..cs.len()
        invariant
            r@ == cs@.take(i as int).filter(outside::counts_test()),
    {
        let c = cs[i];
        proof {
            assert(cs@.take(i + 1) =~= cs@.take(i as int).push(c));
            path_safety::lemma_filter_push(cs@.take(i as int), outside::counts_test(), c);
        }
        if !(c == '\t' || c == '\n' || c == '\r') {
            r.push(c);
        }
    }
    assert(cs@.take(cs@.len() as int) =~= s@);
    r
}

fn byte_stays_in_path(b: u8) -> (r: bool)
    ensures
        r == outside::stays_in_path(b),
{
    0x20 < b && b < 0x7f && b != 0x22 && b != 0x23 && b != 0x25 && b != 0x2f && b != 0x3c && b
        != 0x3e && b != 0x3f && b != 0x5c && b != 0x60 && b != 0x7b && b != 0x7d
}

/// How long a path segment is in an address.
fn segment_len(s: &str) -> (r: u128)
    ensures
        r == outside::segment_text(s@).len(),
{
    let t = counted_text(s);
    let bytes = t.as_str().as_bytes();
    let mut n: u128 = 0;
    assert(bytes@.take(0) =~= Seq::<u8>::empty());
    for i in 0..bytes.len()
        invariant
            bytes@ == utf8::encode_utf8(outside::counted(s@)),
            n == outside::escaped(bytes@.take(i as int), outside::path_test()).len(),
            n <= 3 * i,
    {
        assert(bytes@.take(i + 1).drop_last() =~= bytes@.take(i as int));
        assert(bytes@.take(i + 1).last() == bytes@[i as int]);
        if byte_stays_in_path(bytes[i]) {
            n = n + 1;
        } else {
            n = n + 3;
        }
    }
    assert(bytes@.take(bytes@.len() as int) =~= bytes@);
    n
}

/// How long segments are in an address, each with a slash.
pub open spec fn path_len(segments: Seq<Seq<char>>) -> nat
    decreases segments.len(),
{
    if segments.len() == 0 {
        0
    } else {
        path_len(segments.drop_last()) + outside::segment_text(segments.last()).len() + 1
    }
}

/// A path has one slash less than it has segments.
proof fn lemma_path_len(segments: Seq<Seq<char>>)
    ensures
        segments.len() == 0 ==> outside::path_text(segments).len() == 0,
        segments.len() > 0 ==> outside::path_text(segments).len() + 1 == path_len(segments),
    decreases segments.len(),
{
    let shown = outside::segment_texts(segments);
    if segments.len() == 1 {
        assert(segments.drop_last() =~= Seq::<Seq<char>>::empty());
        assert(path_len(segments.drop_last()) == 0);
        assert(shown[0] == outside::segment_text(segments[0]));
    } else if segments.len() > 1 {
        let front = segments.drop_last();
        lemma_path_len(front);
        assert(shown.drop_last() =~= outside::segment_texts(front));
        assert(shown.last() == outside::segment_text(segments.last()));
    }
}

proof fn lemma_path_len_grows(segments: Seq<Seq<char>>, k: int)
    requires
        0 <= k <= segments.len(),
    ensures
        path_len(segments.take(k)) <= path_len(segments),
    decreases segments.len(),
{
    if k == segments.len() {
        assert(segments.take(k) =~= segments);
    } else {
        lemma_path_len_grows(segments.drop_last(), k);
        assert(segments.drop_last().take(k) =~= segments.take(k));
    }
}

/// Whether an address with these segments has a length that a URL can have.
pub fn path_fits(segments: &Vec<String>) -> (r: bool)
    ensures
        r == outside::fits_url(text::texts(segments@)),
{
    let ghost all = text::texts(segments@);
    proof {
        reveal_strlit("https://cloudbuild.googleapis.com/");
        lemma_path_len(all);
        assert(outside::cloud_build_base().len() == 34);
        assert(all.take(0) =~= Seq::<Seq<char>>::empty());
    }
    let mut total: u128 = 0;
    for i in 0..segments.len()
        invariant
            all == text::texts(segments@),
            outside::cloud_build_base().len() == 34,
            all.len() > 0 ==> outside::path_text(all).len() + 1 == path_len(all),
            total == path_len(all.take(i as int)),
            total <= 0xffff_ffff,
    {
        proof {
            assert(all[i as int] == segments@[i as int]@);
            assert(all.take(i + 1).drop_last() =~= all.take(i as int));
            lemma_path_len_grows(all, i + 1);
        }
        let n: u128 = segment_len(segments[i].as_str());
        if n > 0xffff_ffff || total + n + 1 > 0xffff_ffff {
            return false;
        }
        total = total + n + 1;
    }
    assert(all.take(all.len() as int) =~= all);
    segments.len() == 0 || 33 + total <= 0xffff_ffff
}

/// A character that counts in an address is kept.
proof fn lemma_counted_keeps(s: Seq<char>, k: int)
    requires
        0 <= k < s.len(),
        !outside::is_dropped(s[k]),
    ensures
        outside::counted(s).contains(s[k]),
{
    s.lemma_filter_contains(outside::counts_test(), k);
}

/// A text with a character that counts and is no dot is neither empty nor a dot
/// segment.
pub proof fn lemma_names_something(s: Seq<char>, k: int)
    requires
        0 <= k < s.len(),
        !outside::is_dropped(s[k]),
        s[k] != '.',
    ensures
        outside::counted(s).len() > 0,
        !outside::is_dots(outside::counted(s)),
{
    lemma_counted_keeps(s, k);
    let t = outside::counted(s);
    let j = choose|j: int| 0 <= j < t.len() && t[j] == s[k];
    assert(t[j] != '.');
}

/// A text that is not empty is not empty in an address.
pub proof fn lemma_escaped_shows(s: Seq<char>)
    requires
        s.len() > 0,
    ensures
        outside::escaped(utf8::encode_utf8(s), outside::path_test()).len() > 0,
{
    assert(utf8::encode_utf8(s).len() > 0);
}

/// A hexadecimal digit is none of the characters that divide an address.
proof fn lemma_hex_char(d: int)
    requires
        0 <= d < 16,
    ensures
        outside::upper_hex_digit(d) != '/',
        outside::upper_hex_digit(d) != '?',
        outside::upper_hex_digit(d) != '#',
{
}

/// Escaped bytes hold no character that divides an address.
pub proof fn lemma_escaped_is_one_piece(bytes: Seq<u8>)
    ensures
        !outside::escaped(bytes, outside::path_test()).contains('/'),
        !outside::escaped(bytes, outside::path_test()).contains('?'),
        !outside::escaped(bytes, outside::path_test()).contains('#'),
    decreases bytes.len(),
{
    if bytes.len() > 0 {
        let b = bytes.last();
        let front = outside::escaped(bytes.drop_last(), outside::path_test());
        let all = outside::escaped(bytes, outside::path_test());
        lemma_escaped_is_one_piece(bytes.drop_last());
        lemma_hex_char(b as int / 16);
        lemma_hex_char(b as int % 16);
        assert forall|x: char| x == '/' || x == '?' || x == '#' implies !all.contains(x) by {
            if all.contains(x) {
                let k = choose|k: int| 0 <= k < all.len() && all[k] == x;
                if k < front.len() {
                    assert(front[k] == x);
                    assert(front.contains(x));
                } else if outside::stays_in_path(b) {
                    assert(all[k] == b as char);
                }
            }
        }
    }
}

/// The characters that need no escape in any part of an address.
pub open spec fn is_plain_char(c: char) -> bool {
    text::is_lower(c) || text::is_upper(c) || text::is_digit(c) || c == '-' || c == '_'
}

/// A text that stands in an address as it is.
pub open spec fn is_plain(s: Seq<char>) -> bool {
    s.len() > 0 && forall|i: int| 0 <= i < s.len() ==> is_plain_char(#[trigger] s[i])
}

pub open spec fn all_plain(segments: Seq<Seq<char>>) -> bool {
    forall|i: int| 0 <= i < segments.len() ==> is_plain(#[trigger] segments[i])
}

/// Plain text is its own escaped form.
proof fn lemma_plain_bytes(s: Seq<char>, bytes: Seq<u8>)
    requires
        bytes.len() == s.len(),
        forall|i: int| 0 <= i < s.len() ==> is_plain_char(#[trigger] s[i]),
        forall|i: int| 0 <= i < s.len() ==> #[trigger] bytes[i] == s[i] as u8,
    ensures
        outside::escaped(bytes, outside::path_test()) == s,
        outside::form_text(bytes) == s,
    decreases s.len(),
{
    if s.len() > 0 {
        let t = s.drop_last();
        let front = bytes.drop_last();
        assert forall|i: int| 0 <= i < t.len() implies is_plain_char(#[trigger] t[i]) by {
            assert(t[i] == s[i]);
        }
        assert forall|i: int| 0 <= i < t.len() implies #[trigger] front[i] == t[i] as u8 by {
            assert(bytes[i] == s[i] as u8);
        }
        lemma_plain_bytes(t, front);
        let c = s[s.len() - 1];
        let b = bytes[bytes.len() - 1];
        assert(is_plain_char(c));
        assert(b == c as u8);
        assert(b as char == c);
        assert(outside::stays_in_path(b) && outside::stays_in_query(b) && b != ' ' as u8);
        assert(t.push(c) =~= s);
        assert(seq![b].drop_last() =~= Seq::<u8>::empty());
        assert(outside::escaped(Seq::<u8>::empty(), outside::query_test()) =~= Seq::<char>::empty());
        assert(outside::escaped(seq![b], outside::query_test()) =~= seq![c]);
        assert(t + seq![c] =~= s);
    } else {
        assert(s =~= Seq::<char>::empty());
    }
}

/// A plain text stands in an address as it is, in a path and in a query, and
/// names something.
pub proof fn law_plain_text_stands_as_it_is(s: Seq<char>)
    requires
        is_plain(s),
    ensures
        outside::segment_text(s) == s,
        outside::form_text(utf8::encode_utf8(s)) == s,
        outside::counted(s) == s,
        !outside::is_dots(s),
{
    assert forall|i: int| 0 <= i < s.len() implies outside::counts_test()(#[trigger] s[i]) by {
        assert(is_plain_char(s[i]));
    }
    bundle_laws::lemma_filter_all(s, outside::counts_test());
    assert(utf8::is_ascii_chars(s)) by {
        assert forall|i: int| 0 <= i < s.len() implies 0 <= #[trigger] s[i] as nat && (s[i] as nat)
            < 128 by {
            assert(is_plain_char(s[i]));
        }
    }
    utf8::is_ascii_chars_encode_utf8(s);
    let bytes = utf8::encode_utf8(s);
    lemma_plain_bytes(s, bytes);
    assert(is_plain_char(s[0]));
    assert(s[0] != '.');
}

/// Plain segments stand in an address as they are.
pub proof fn law_plain_path_stands_as_it_is(segments: Seq<Seq<char>>)
    requires
        segments.len() > 0,
        all_plain(segments),
    ensures
        outside::addressable(segments),
        outside::path_text(segments) == text::join(segments, '/'),
{
    assert forall|i: int| 0 <= i < segments.len() implies !outside::is_dots(
        outside::counted(#[trigger] segments[i]),
    ) by {
        law_plain_text_stands_as_it_is(segments[i]);
    }
    law_plain_text_stands_as_it_is(segments[0]);
    assert(outside::segment_texts(segments) =~= segments) by {
        assert forall|i: int| 0 <= i < segments.len() implies outside::segment_texts(segments)[i]
            == segments[i] by {
            law_plain_text_stands_as_it_is(segments[i]);
        }
    }
}

/// The path of an address has as many segments as it was made of: each stands
/// there in its escaped form, and what stands in one cannot begin another.
pub proof fn law_path_has_its_segments(segments: Seq<Seq<char>>)
    requires
        segments.len() > 0,
    ensures
        text::split(outside::path_text(segments), '/') == outside::segment_texts(segments),
        !outside::path_text(segments).contains('?'),
        !outside::path_text(segments).contains('#'),
{
    let shown = outside::segment_texts(segments);
    assert forall|i: int| 0 <= i < shown.len() implies {
        &&& !(#[trigger] shown[i]).contains('/')
        &&& !shown[i].contains('?')
        &&& !shown[i].contains('#')
    } by {
        assert(shown[i] == outside::segment_text(segments[i]));
        lemma_escaped_is_one_piece(utf8::encode_utf8(outside::counted(segments[i])));
    }
    text_laws::lemma_split_join(shown, '/');
    bundle_laws::lemma_join_avoids(shown, '/', '?');
    bundle_laws::lemma_join_avoids(shown, '/', '#');
}

} // verus!
