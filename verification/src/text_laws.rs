//! How splitting and joining text relate.

use crate::text;
use vstd::prelude::*;

verus! {

/// Splitting gives at least one piece, and no piece holds the separator.
pub proof fn lemma_split_pieces(s: Seq<char>, sep: char)
    ensures
        text::split(s, sep).len() >= 1,
        forall|i: int| 0 <= i < text::split(s, sep).len() ==> !(#[trigger] text::split(s, sep)[i]).contains(sep),
    decreases s.len(),
{
    if s.len() > 0 {
        let front = text::split(s.drop_last(), sep);
        lemma_split_pieces(s.drop_last(), sep);
        if s.last() != sep {
            let grown = front.last().push(s.last());
            assert(!grown.contains(sep)) by {
                if grown.contains(sep) {
                    let k = choose|k: int| 0 <= k < grown.len() && grown[k] == sep;
                    assert(front.last()[k] == sep);
                    assert(front[front.len() - 1].contains(sep));
                }
            }
        }
    }
}

/// Splitting a text with a separator in it gives the pieces of both sides.
pub proof fn lemma_split_concat(a: Seq<char>, b: Seq<char>, sep: char)
    ensures
        text::split(a.push(sep) + b, sep) == text::split(a, sep) + text::split(b, sep),
    decreases b.len(),
{
    let whole = a.push(sep) + b;
    if b.len() == 0 {
        assert(whole =~= a.push(sep));
        assert(whole.drop_last() =~= a);
        assert(text::split(whole, sep) =~= text::split(a, sep) + text::split(b, sep));
    } else {
        assert(whole.drop_last() =~= a.push(sep) + b.drop_last());
        lemma_split_concat(a, b.drop_last(), sep);
        lemma_split_pieces(b.drop_last(), sep);
        assert(whole.last() == b.last());
        assert(text::split(whole, sep) =~= text::split(a, sep) + text::split(b, sep));
    }
}

/// A text without the separator is its own only piece.
pub proof fn lemma_split_single(s: Seq<char>, sep: char)
    requires
        !s.contains(sep),
    ensures
        text::split(s, sep) == seq![s],
    decreases s.len(),
{
    if s.len() > 0 {
        assert(!s.drop_last().contains(sep)) by {
            if s.drop_last().contains(sep) {
                let k = choose|k: int| 0 <= k < s.drop_last().len() && s.drop_last()[k] == sep;
                assert(s[k] == sep);
            }
        }
        lemma_split_single(s.drop_last(), sep);
        assert(s[s.len() - 1] == s.last());
        assert(s.drop_last().push(s.last()) =~= s);
        assert(text::split(s, sep) =~= seq![s]);
    } else {
        assert(s =~= Seq::<char>::empty());
    }
}

/// Pieces that do not hold the separator come back from their join.
pub proof fn lemma_split_join(pieces: Seq<Seq<char>>, sep: char)
    requires
        pieces.len() > 0,
        forall|i: int| 0 <= i < pieces.len() ==> !(#[trigger] pieces[i]).contains(sep),
    ensures
        text::split(text::join(pieces, sep), sep) == pieces,
    decreases pieces.len(),
{
    if pieces.len() == 1 {
        lemma_split_single(pieces[0], sep);
        assert(pieces =~= seq![pieces[0]]);
    } else {
        let front = pieces.drop_last();
        assert forall|i: int| 0 <= i < front.len() implies !(#[trigger] front[i]).contains(sep) by {
            assert(front[i] == pieces[i]);
        }
        lemma_split_join(front, sep);
        lemma_split_concat(text::join(front, sep), pieces.last(), sep);
        assert(!pieces[pieces.len() - 1].contains(sep));
        lemma_split_single(pieces.last(), sep);
        assert(pieces =~= front + seq![pieces.last()]);
    }
}

/// What stripping leaves is a stretch of the text that does not begin with a
/// stripped character.
pub proof fn lemma_strip_start(s: Seq<char>, p: spec_fn(char) -> bool)
    ensures
        text::strip_start(s, p).len() <= s.len(),
        text::strip_start(s, p) == s.skip(s.len() - text::strip_start(s, p).len()),
        text::strip_start(s, p).len() > 0 ==> !p(text::strip_start(s, p)[0]),
    decreases s.len(),
{
    if s.len() > 0 && p(s[0]) {
        lemma_strip_start(s.drop_first(), p);
        let n = text::strip_start(s, p).len();
        assert(s.drop_first().skip(s.len() - 1 - n) =~= s.skip(s.len() - n));
    } else {
        assert(s.skip(0) =~= s);
    }
}

/// What stripping leaves is a stretch of the text that does not end with a
/// stripped character.
pub proof fn lemma_strip_end(s: Seq<char>, p: spec_fn(char) -> bool)
    ensures
        text::strip_end(s, p).len() <= s.len(),
        text::strip_end(s, p) == s.take(text::strip_end(s, p).len() as int),
        text::strip_end(s, p).len() > 0 ==> !p(text::strip_end(s, p).last()),
    decreases s.len(),
{
    if s.len() > 0 && p(s.last()) {
        lemma_strip_end(s.drop_last(), p);
        let n = text::strip_end(s, p).len();
        assert(s.drop_last().take(n as int) =~= s.take(n as int));
    } else {
        assert(s.take(s.len() as int) =~= s);
    }
}

/// A text whose ends satisfy nothing that is stripped stays as it is.
pub proof fn lemma_trim_same(s: Seq<char>)
    requires
        s.len() > 0 ==> !text::is_white(s[0]) && !text::is_white(s.last()),
    ensures
        text::trim(s) == s,
{
}

/// A trimmed text neither begins nor ends with white space, and trimming it
/// again changes nothing.
pub proof fn lemma_trim(s: Seq<char>)
    ensures
        text::trim(s).len() <= s.len(),
        text::trim(s).len() > 0 ==> !text::is_white(text::trim(s)[0]) && !text::is_white(text::trim(s).last()),
        text::trim(text::trim(s)) == text::trim(s),
        forall|c: char| text::trim(s).contains(c) ==> s.contains(c),
{
    let p = |c: char| text::is_white(c);
    let t = text::strip_start(s, p);
    lemma_strip_start(s, p);
    lemma_strip_end(t, p);
    let u = text::trim(s);
    if u.len() > 0 {
        assert(u[0] == t[0]);
    }
    lemma_trim_same(u);
    assert forall|c: char| u.contains(c) implies s.contains(c) by {
        let k = choose|k: int| 0 <= k < u.len() && u[k] == c;
        assert(t[k] == c);
        assert(s[k + s.len() - t.len()] == c);
    }
}

/// A text stripped of a character neither begins nor ends with it.
pub proof fn lemma_trim_char(s: Seq<char>, x: char)
    ensures
        text::trim_char(s, x).len() <= s.len(),
        exists|a: int, b: int|
            0 <= a <= b <= s.len() && text::trim_char(s, x) == #[trigger] s.subrange(a, b),
        text::trim_char(s, x).len() > 0 ==> text::trim_char(s, x)[0] != x && text::trim_char(s, x).last() != x,
        forall|c: char| text::trim_char(s, x).contains(c) ==> s.contains(c),
{
    let p = text::is_char(x);
    let t = text::strip_start(s, p);
    lemma_strip_start(s, p);
    lemma_strip_end(t, p);
    let u = text::trim_char(s, x);
    if u.len() > 0 {
        assert(u[0] == t[0]);
    }
    let a = s.len() - t.len();
    assert(u =~= s.subrange(a, a + u.len()));
    assert forall|c: char| u.contains(c) implies s.contains(c) by {
        let k = choose|k: int| 0 <= k < u.len() && u[k] == c;
        assert(t[k] == c);
        assert(s[k + s.len() - t.len()] == c);
    }
}

/// A text that neither begins nor ends with a character keeps all of it when
/// that character is removed at its ends.
pub proof fn lemma_trim_char_same(s: Seq<char>, x: char)
    requires
        s.len() > 0 ==> s[0] != x && s.last() != x,
    ensures
        text::trim_char(s, x) == s,
{
    let p = text::is_char(x);
    if s.len() > 0 {
        assert(!p(s[0]) && !p(s.last()));
    }
}

/// Joined pieces begin with the first of them and a separator.
pub proof fn lemma_join_starts(pieces: Seq<Seq<char>>, sep: char)
    requires
        pieces.len() > 1,
    ensures
        pieces[0].push(sep).is_prefix_of(text::join(pieces, sep)),
    decreases pieces.len(),
{
    let front = pieces.drop_last();
    let joined = text::join(pieces, sep);
    if front.len() > 1 {
        lemma_join_starts(front, sep);
        let start = pieces[0].push(sep);
        let before = text::join(front, sep);
        assert(start.is_prefix_of(before));
        assert(joined.subrange(0, start.len() as int) =~= start) by {
            assert(before.subrange(0, start.len() as int) == start);
        }
    } else {
        assert(text::join(front, sep) == pieces[0]);
        assert(joined.subrange(0, pieces[0].len() as int + 1) =~= pieces[0].push(sep));
    }
}

/// Joining the pieces of a text gives the text back. With `lemma_split_pieces`
/// this says what the pieces are: no separator in any of them, and nothing else
/// lost.
pub proof fn law_join_undoes_split(s: Seq<char>, sep: char)
    ensures
        text::join(text::split(s, sep), sep) == s,
        text::split(s, sep).len() >= 1,
        forall|i: int|
            0 <= i < text::split(s, sep).len() ==> !(#[trigger] text::split(s, sep)[i]).contains(
                sep,
            ),
    decreases s.len(),
{
    lemma_split_pieces(s, sep);
    if s.len() == 0 {
        assert(s =~= Seq::<char>::empty());
    } else {
        let front = text::split(s.drop_last(), sep);
        law_join_undoes_split(s.drop_last(), sep);
        let all = text::split(s, sep);
        if s.last() == sep {
            assert(all.drop_last() =~= front);
            assert(text::join(all, sep) =~= s.drop_last().push(sep));
        } else {
            assert(all.drop_last() =~= front.drop_last());
            if front.len() > 1 {
                assert(text::join(all, sep) =~= text::join(front, sep).push(s.last()));
            }
        }
        assert(s.drop_last().push(s.last()) =~= s);
    }
}

/// Two pieces are joined with one separator between them, and one piece stands
/// for itself.
pub proof fn law_join_of_few(a: Seq<char>, b: Seq<char>, sep: char)
    ensures
        text::join(seq![a], sep) == a,
        text::join(seq![a, b], sep) == a + seq![sep] + b,
        text::join(Seq::<Seq<char>>::empty(), sep).len() == 0,
{
    assert(seq![a, b].drop_last() =~= seq![a]);
    assert(text::join(seq![a], sep) == a);
    assert(text::join(seq![a, b], sep) =~= a + seq![sep] + b);
}

/// Removing what satisfies a test at the start removes only such characters.
proof fn lemma_stripped_start(s: Seq<char>, p: spec_fn(char) -> bool, k: int)
    requires
        0 <= k < s.len() - text::strip_start(s, p).len(),
    ensures
        p(s[k]),
    decreases s.len(),
{
    if s.len() > 0 && p(s[0]) && k > 0 {
        lemma_stripped_start(s.drop_first(), p, k - 1);
    }
}

/// Removing what satisfies a test at the end removes only such characters.
proof fn lemma_stripped_end(s: Seq<char>, p: spec_fn(char) -> bool, k: int)
    requires
        text::strip_end(s, p).len() <= k < s.len(),
    ensures
        p(s[k]),
    decreases s.len(),
{
    if s.len() > 0 && p(s.last()) && k < s.len() - 1 {
        lemma_stripped_end(s.drop_last(), p, k);
    }
}

/// Trimming a text cuts off white space at both ends and nothing else: what is
/// left is a stretch of the text that neither begins nor ends with white space,
/// and everything around it is white space.
pub proof fn law_trim_cuts_white_space(s: Seq<char>)
    ensures
        exists|a: int, b: int|
            {
                &&& 0 <= a <= b <= s.len()
                &&& text::trim(s) == #[trigger] s.subrange(a, b)
                &&& forall|i: int| 0 <= i < a ==> text::is_white(#[trigger] s[i])
                &&& forall|i: int| b <= i < s.len() ==> text::is_white(#[trigger] s[i])
            },
        text::trim(s).len() > 0 ==> !text::is_white(text::trim(s)[0]) && !text::is_white(
            text::trim(s).last(),
        ),
{
    let p = |c: char| text::is_white(c);
    let t = text::strip_start(s, p);
    let u = text::trim(s);
    lemma_trim(s);
    lemma_strip_start(s, p);
    lemma_strip_end(t, p);
    let a = s.len() - t.len();
    let b = a + u.len();
    assert(u =~= s.subrange(a, b));
    assert forall|i: int| 0 <= i < a implies text::is_white(#[trigger] s[i]) by {
        lemma_stripped_start(s, p, i);
        assert(p(s[i]));
    }
    assert forall|i: int| b <= i < s.len() implies text::is_white(#[trigger] s[i]) by {
        assert(t[i - a] == s[i]);
        lemma_stripped_end(t, p, i - a);
        assert(p(t[i - a]));
    }
}

/// Removing a character at the ends of a text removes only that character, and
/// all of it there.
pub proof fn law_trim_char_cuts_that_character(s: Seq<char>, x: char)
    ensures
        exists|a: int, b: int|
            {
                &&& 0 <= a <= b <= s.len()
                &&& text::trim_char(s, x) == #[trigger] s.subrange(a, b)
                &&& forall|i: int| 0 <= i < a ==> #[trigger] s[i] == x
                &&& forall|i: int| b <= i < s.len() ==> #[trigger] s[i] == x
            },
        text::trim_char(s, x).len() > 0 ==> text::trim_char(s, x)[0] != x && text::trim_char(
            s,
            x,
        ).last() != x,
{
    let p = text::is_char(x);
    let t = text::strip_start(s, p);
    let u = text::trim_char(s, x);
    lemma_trim_char(s, x);
    lemma_strip_start(s, p);
    lemma_strip_end(t, p);
    let a = s.len() - t.len();
    let b = a + u.len();
    assert(u =~= s.subrange(a, b));
    assert forall|i: int| 0 <= i < a implies #[trigger] s[i] == x by {
        lemma_stripped_start(s, p, i);
        assert(p(s[i]));
    }
    assert forall|i: int| b <= i < s.len() implies #[trigger] s[i] == x by {
        assert(t[i - a] == s[i]);
        lemma_stripped_end(t, p, i - a);
        assert(p(t[i - a]));
    }
}

/// The number of characters before the first one is where that one stands.
proof fn lemma_before_first(s: Seq<char>, x: char)
    requires
        s.contains(x),
    ensures
        text::before_first(s, x) < s.len(),
        s[text::before_first(s, x) as int] == x,
        forall|i: int| 0 <= i < text::before_first(s, x) ==> #[trigger] s[i] != x,
    decreases s.len(),
{
    if s.len() > 0 && s[0] != x {
        let k = choose|k: int| 0 <= k < s.len() && s[k] == x;
        assert(s.drop_first()[k - 1] == x);
        assert(s.drop_first().contains(x));
        lemma_before_first(s.drop_first(), x);
        let n = text::before_first(s, x);
        assert forall|i: int| 0 <= i < n implies #[trigger] s[i] != x by {
            if i > 0 {
                assert(s.drop_first()[i - 1] == s[i]);
            }
        }
    }
}

/// A text is split in two exactly where it holds the character: what comes out
/// gives the text back with the character between, and the first part does not
/// hold it.
pub proof fn law_split_once_at_the_first(s: Seq<char>, x: char)
    ensures
        text::split_once(s, x) is Some <==> s.contains(x),
        text::split_once(s, x) matches Some((a, b)) ==> s == a + seq![x] + b && !a.contains(x),
{
    if s.contains(x) {
        lemma_before_first(s, x);
        let n = text::before_first(s, x) as int;
        assert(s =~= s.take(n) + seq![x] + s.skip(n + 1));
        assert(!s.take(n).contains(x)) by {
            if s.take(n).contains(x) {
                let k = choose|k: int| 0 <= k < s.take(n).len() && s.take(n)[k] == x;
                assert(s[k] != x);
            }
        }
    }
}

/// Replacing changes each occurrence and nothing else.
pub proof fn law_replace_changes_one_character(s: Seq<char>, from: char, to: char, i: int)
    requires
        0 <= i < s.len(),
    ensures
        text::replace(s, from, to).len() == s.len(),
        s[i] == from ==> text::replace(s, from, to)[i] == to,
        s[i] != from ==> text::replace(s, from, to)[i] == s[i],
{
}

/// The ASCII letters and digits are what their code points say, and a capital
/// becomes the small letter thirty-two code points further on.
pub proof fn law_ascii_classes(c: char)
    ensures
        text::is_lower(c) <==> 97 <= c as u32 <= 122,
        text::is_upper(c) <==> 65 <= c as u32 <= 90,
        text::is_digit(c) <==> 48 <= c as u32 <= 57,
        65 <= c as u32 <= 90 ==> text::ascii_lower(c) as u32 == c as u32 + 32,
        !(65 <= c as u32 <= 90) ==> text::ascii_lower(c) == c,
{
}

/// Making a text small changes each capital and nothing else.
pub proof fn law_lower_changes_capitals(s: Seq<char>, i: int)
    requires
        0 <= i < s.len(),
    ensures
        text::lower(s).len() == s.len(),
        65 <= s[i] as u32 <= 90 ==> text::lower(s)[i] as u32 == s[i] as u32 + 32,
        !(65 <= s[i] as u32 <= 90) ==> text::lower(s)[i] == s[i],
{
}

/// White space is what the Unicode tables say.
pub proof fn law_white_space(c: char)
    ensures
        text::is_white(c) <==> {
            let u = c as u32;
            (0x9 <= u <= 0xd) || u == 0x20 || u == 0x85 || u == 0xa0 || u == 0x1680 || (0x2000 <= u
                <= 0x200a) || u == 0x2028 || u == 0x2029 || u == 0x202f || u == 0x205f || u
                == 0x3000
        },
{
}

/// Writing a number in decimal gives digits, without a leading zero unless the
/// number is zero, and reading them gives the number back.
pub proof fn law_decimal_is_read_back(n: nat)
    ensures
        text::decimal(n).len() > 0,
        text::all_digits(text::decimal(n)),
        text::digits_value(text::decimal(n)) == n,
        n > 0 ==> text::decimal(n)[0] != '0',
    decreases n,
{
    let d = text::decimal(n);
    if n < 10 {
        assert(d.drop_last() =~= Seq::<char>::empty());
        assert(text::digits_value(d.drop_last()) == 0);
        assert(d.last() as u32 == 48 + n);
        assert(text::is_digit(d[0]));
    } else {
        law_decimal_is_read_back(n / 10);
        let front = text::decimal(n / 10);
        assert(d.drop_last() =~= front);
        assert(d.last() as u32 == 48 + n % 10);
        assert forall|i: int| 0 <= i < d.len() implies text::is_digit(#[trigger] d[i]) by {
            if i < front.len() {
                assert(front[i] == d[i]);
            }
        }
        assert(d[0] == front[0]);
    }
}

/// A number is read from its decimal digits, with a plus sign in front or
/// without, where it is not too large; and whatever is read was written in
/// digits only.
pub proof fn law_numbers_are_read(n: nat, max: nat, s: Seq<char>)
    ensures
        n <= max ==> text::parse_number(text::decimal(n), max) == Some(n),
        n <= max ==> text::parse_number(seq!['+'] + text::decimal(n), max) == Some(n),
        n > max ==> text::parse_number(text::decimal(n), max) is None,
        text::parse_number(s, max) matches Some(m) ==> m <= max && s.len() > 0,
        forall|i: int|
            0 < i < s.len() && !text::is_digit(#[trigger] s[i]) ==> text::parse_number(s, max)
                is None,
        s.len() > 0 && s[0] != '+' && !text::is_digit(s[0]) ==> text::parse_number(s, max) is None,
{
    law_decimal_is_read_back(n);
    let d = text::decimal(n);
    assert(text::is_digit(d[0]));
    assert(text::without_plus(d) == d);
    let p = seq!['+'] + d;
    assert(p.drop_first() =~= d);
    let t = text::without_plus(s);
    assert forall|i: int| 0 < i < s.len() && !text::is_digit(#[trigger] s[i]) implies text::parse_number(
        s,
        max,
    ) is None by {
        if s[0] == '+' {
            assert(t[i - 1] == s[i]);
        } else {
            assert(t[i] == s[i]);
        }
    }
    if s.len() > 0 && s[0] != '+' && !text::is_digit(s[0]) {
        assert(t[0] == s[0]);
    }
}

/// A value with something in it counts without the white space at its ends; a
/// missing or blank one gives way to the default.
pub proof fn law_default_replaces_blank(value: Seq<char>, default: Seq<char>)
    ensures
        text::trimmed_or(None, default) == default,
        text::trim(value).len() == 0 ==> text::trimmed_or(Some(value), default) == default,
        text::trim(value).len() > 0 ==> text::trimmed_or(Some(value), default) == text::trim(value),
{
}

/// A string, optional or in a list, is shown as its own text.
pub proof fn law_strings_show_their_text(s: String, slice: &str, list: Seq<String>, i: int)
    requires
        0 <= i < list.len(),
    ensures
        text::opt_str_text(Some(slice)) == Some(slice@),
        text::opt_str_text(None) is None,
        text::opt_text(Some(s)) == Some(s@),
        text::opt_text(None) is None,
        text::texts(list).len() == list.len(),
        text::texts(list)[i] == list[i]@,
{
}

} // verus!
