//! What holds of the image names that stand for lab names.

use crate::models::state::BuilderConfigView;
use crate::routes::source_bundles;
use crate::routes::source_bundles::{
    PayloadView, SourceBundleMultipartPayload, TextField, UploadForm,
};
use crate::services::bundle_laws;
use crate::services::file_policy;
use crate::services::path_laws;
use crate::services::path_safety;
use crate::services::source_bundles::UploadedFileInputView;
use crate::text;
use crate::text_laws;
use vstd::prelude::*;
use vstd::string::*;
use vstd::utf8;

verus! {

/// The characters of an image name.
pub open spec fn is_image_char(c: char) -> bool {
    text::is_lower(c) || text::is_digit(c) || c == '.' || c == '-'
}

/// An image name as lab names give it: made of small letters, digits, dots and
/// hyphens, with no hyphen at an end and no two in a row.
pub open spec fn is_tidy(s: Seq<char>) -> bool {
    &&& forall|i: int| 0 <= i < s.len() ==> is_image_char(#[trigger] s[i])
    &&& s.len() > 0 ==> s[0] != '-' && s.last() != '-'
    &&& no_double_hyphen(s)
}

pub open spec fn no_double_hyphen(s: Seq<char>) -> bool {
    forall|i: int, j: int| 0 <= i && j == i + 1 && j < s.len() ==> !(#[trigger] s[i] == '-' && #[trigger] s[j] == '-')
}

/// A slug is made of the characters of image names, and has no two hyphens in a
/// row; its last character is a hyphen where the text ends with a separator.
proof fn lemma_slug(s: Seq<char>)
    ensures
        forall|i: int| 0 <= i < source_bundles::slug(s).len() ==> is_image_char(#[trigger] source_bundles::slug(s)[i]),
        no_double_hyphen(source_bundles::slug(s)),
        s.len() > 0 ==> source_bundles::slug(s).len() > 0,
        s.len() > 0 && source_bundles::image_char(s.last()) is Some ==> source_bundles::slug(s).last() != '-',
    decreases s.len(),
{
    if s.len() > 0 {
        let front = s.drop_last();
        lemma_slug(front);
        let before = source_bundles::slug(front);
        let after = source_bundles::slug(s);
        if source_bundles::image_char(s.last()) is Some {
            let c = source_bundles::image_char(s.last())->0;
            assert(is_image_char(c) && c != '-');
            assert(after == before.push(c));
        } else if !(front.len() > 0 && source_bundles::image_char(front.last()) is None) {
            assert(after == before.push('-'));
            assert(before.len() > 0 ==> before.last() != '-') by {
                if front.len() == 0 {
                    assert(before.len() == 0);
                }
            }
        }
    }
}

/// A tidy text is its own slug.
proof fn lemma_slug_of_tidy(s: Seq<char>)
    requires
        forall|i: int| 0 <= i < s.len() ==> is_image_char(#[trigger] s[i]),
        no_double_hyphen(s),
    ensures
        source_bundles::slug(s) == s,
    decreases s.len(),
{
    if s.len() > 0 {
        let front = s.drop_last();
        assert forall|i: int| 0 <= i < front.len() implies is_image_char(#[trigger] front[i]) by {
            assert(front[i] == s[i]);
        }
        assert(no_double_hyphen(front)) by {
            assert forall|i: int, j: int| 0 <= i && j == i + 1 && j < front.len() implies !(
            #[trigger] front[i] == '-' && #[trigger] front[j] == '-') by {
                assert(front[i] == s[i] && front[j] == s[j]);
            }
        }
        lemma_slug_of_tidy(front);
        assert(is_image_char(s[s.len() - 1]));
        if s.last() == '-' && front.len() > 0 {
            assert(s[s.len() - 2] == front.last());
            assert(s[s.len() - 1] == '-');
            assert(is_image_char(s[s.len() - 2]));
            assert(front.last() != '-');
        }
        assert(front.push(s.last()) =~= s);
    } else {
        assert(s =~= Seq::<char>::empty());
    }
}

/// The image name that stands for a lab's name is tidy.
pub proof fn law_image_name_is_tidy(value: Seq<char>)
    ensures
        is_tidy(source_bundles::image_name_of(value)),
{
    let long = source_bundles::slug(text::trim(value));
    let name = source_bundles::image_name_of(value);
    lemma_slug(text::trim(value));
    text_laws::lemma_trim_char(long, '-');
    let (a, b) = choose|a: int, b: int|
        0 <= a <= b <= long.len() && name == #[trigger] long.subrange(a, b);
    assert forall|i: int| 0 <= i < name.len() implies is_image_char(#[trigger] name[i]) by {
        assert(name[i] == long[a + i]);
    }
    assert forall|i: int, j: int| 0 <= i && j == i + 1 && j < name.len() implies !(#[trigger] name[i]
        == '-' && #[trigger] name[j] == '-') by {
        assert(name[i] == long[a + i] && name[j] == long[a + j]);
    }
}

/// A tidy text, such as the image name of a lab, is its own image name.
pub proof fn law_tidy_name_stays(name: Seq<char>)
    requires
        is_tidy(name),
    ensures
        source_bundles::image_name_of(name) == name,
{
    if name.len() > 0 {
        assert(is_image_char(name[0]));
        assert(is_image_char(name[name.len() - 1]));
    }
    text_laws::lemma_trim_same(name);
    lemma_slug_of_tidy(name);
    let p = text::is_char('-');
    assert(text::strip_start(name, p) == name);
    assert(text::strip_end(name, p) == name);
}

/// Normalizing an image name twice changes nothing more.
pub proof fn law_normalizing_twice_changes_nothing(value: Seq<char>)
    ensures
        source_bundles::image_name_of(source_bundles::image_name_of(value))
            == source_bundles::image_name_of(value),
{
    law_image_name_is_tidy(value);
    law_tidy_name_stays(source_bundles::image_name_of(value));
}

/// Making capitals small and removing white space at the start can change
/// places.
proof fn lemma_lower_strip_start(s: Seq<char>)
    ensures
        text::strip_start(text::lower(s), |c: char| text::is_white(c)) == text::lower(
            text::strip_start(s, |c: char| text::is_white(c)),
        ),
    decreases s.len(),
{
    let p = |c: char| text::is_white(c);
    let low = text::lower(s);
    if s.len() > 0 {
        assert(low[0] == text::ascii_lower(s[0]));
        assert(p(low[0]) == p(s[0]));
        if p(s[0]) {
            assert(low.drop_first() =~= text::lower(s.drop_first()));
            lemma_lower_strip_start(s.drop_first());
        }
    }
}

/// Making capitals small and removing white space at the end can change places.
proof fn lemma_lower_strip_end(s: Seq<char>)
    ensures
        text::strip_end(text::lower(s), |c: char| text::is_white(c)) == text::lower(
            text::strip_end(s, |c: char| text::is_white(c)),
        ),
    decreases s.len(),
{
    let p = |c: char| text::is_white(c);
    let low = text::lower(s);
    if s.len() > 0 {
        assert(low.last() == text::ascii_lower(s.last()));
        assert(p(low.last()) == p(s.last()));
        if p(s.last()) {
            assert(low.drop_last() =~= text::lower(s.drop_last()));
            lemma_lower_strip_end(s.drop_last());
        }
    }
}

/// Capitals do not matter to a slug.
proof fn lemma_lower_slug(s: Seq<char>)
    ensures
        source_bundles::slug(text::lower(s)) == source_bundles::slug(s),
    decreases s.len(),
{
    if s.len() > 0 {
        let low = text::lower(s);
        assert(low.drop_last() =~= text::lower(s.drop_last()));
        lemma_lower_slug(s.drop_last());
        assert(low.last() == text::ascii_lower(s.last()));
        assert(source_bundles::image_char(low.last()) == source_bundles::image_char(s.last()));
        if s.len() > 1 {
            assert(low.drop_last().last() == text::ascii_lower(s.drop_last().last()));
            assert(source_bundles::image_char(low.drop_last().last())
                == source_bundles::image_char(s.drop_last().last()));
        }
    }
}

/// Capitals do not matter: a lab's name and the same name in small letters have
/// the same image name.
pub proof fn law_capitals_do_not_matter(value: Seq<char>)
    ensures
        source_bundles::image_name_of(text::lower(value)) == source_bundles::image_name_of(value),
{
    lemma_lower_strip_start(value);
    lemma_lower_strip_end(text::strip_start(value, |c: char| text::is_white(c)));
    lemma_lower_slug(text::trim(value));
}

/// The character of an image name that a character of a lab's name becomes:
/// small letters, digits and dots stay, capitals become small, and everything
/// else is a hyphen.
pub open spec fn named(c: char) -> char {
    if 'a' <= c <= 'z' || '0' <= c <= '9' || c == '.' {
        c
    } else if 'A' <= c <= 'Z' {
        ((c as u8 + 32) as u8) as char
    } else {
        '-'
    }
}

/// A text with each of its characters changed so.
pub open spec fn shaped(s: Seq<char>) -> Seq<char> {
    s.map_values(|c: char| named(c))
}

pub open spec fn word_test() -> spec_fn(Seq<char>) -> bool {
    |word: Seq<char>| word.len() > 0
}

/// The words of a lab's name: what stands between its separators, where
/// anything does.
pub open spec fn words(s: Seq<char>) -> Seq<Seq<char>> {
    text::split(shaped(s), '-').filter(word_test())
}

/// The two ways to write which characters stay agree.
proof fn lemma_named(c: char)
    ensures
        source_bundles::image_char(c) is None <==> named(c) == '-',
        source_bundles::image_char(c) matches Some(x) ==> x == named(c) && x != '-',
        text::is_white(c) ==> named(c) == '-',
{
}

/// A separator at the end of a text adds no word.
proof fn lemma_words_before_separator(s: Seq<char>)
    requires
        s.len() > 0,
        named(s.last()) == '-',
    ensures
        words(s) == words(s.drop_last()),
{
    let front = s.drop_last();
    assert(shaped(s).drop_last() =~= shaped(front));
    assert(shaped(s).last() == '-');
    path_safety::lemma_filter_push(
        text::split(shaped(front), '-'),
        word_test(),
        Seq::<char>::empty(),
    );
}

/// A separator at the start of a text adds no word.
proof fn lemma_words_after_separator(s: Seq<char>)
    requires
        s.len() > 0,
        named(s[0]) == '-',
    ensures
        words(s) == words(s.drop_first()),
{
    let rest = s.drop_first();
    let none = Seq::<char>::empty();
    let empty = Seq::<Seq<char>>::empty();
    assert(shaped(s) =~= none.push('-') + shaped(rest));
    text_laws::lemma_split_concat(none, shaped(rest), '-');
    text_laws::lemma_split_single(none, '-');
    path_laws::lemma_filter_concat(text::split(none, '-'), text::split(shaped(rest), '-'), word_test());
    reveal(Seq::filter);
    assert(text::split(none, '-') =~= empty.push(none));
    path_safety::lemma_filter_push(empty, word_test(), none);
    assert(empty.filter(word_test()) =~= empty);
    assert(empty + words(rest) =~= words(rest));
}

/// White space at the ends of a text makes no difference to its words.
proof fn lemma_words_of_trimmed(s: Seq<char>)
    ensures
        words(text::trim(s)) == words(s),
{
    let p = |c: char| text::is_white(c);
    lemma_words_of_stripped_start(s, p);
    lemma_words_of_stripped_end(text::strip_start(s, p), p);
}

proof fn lemma_words_of_stripped_start(s: Seq<char>, p: spec_fn(char) -> bool)
    requires
        forall|c: char| #[trigger] p(c) ==> text::is_white(c),
    ensures
        words(text::strip_start(s, p)) == words(s),
    decreases s.len(),
{
    if s.len() > 0 && p(s[0]) {
        lemma_named(s[0]);
        lemma_words_after_separator(s);
        lemma_words_of_stripped_start(s.drop_first(), p);
    }
}

proof fn lemma_words_of_stripped_end(s: Seq<char>, p: spec_fn(char) -> bool)
    requires
        forall|c: char| #[trigger] p(c) ==> text::is_white(c),
    ensures
        words(text::strip_end(s, p)) == words(s),
    decreases s.len(),
{
    if s.len() > 0 && p(s.last()) {
        lemma_named(s.last());
        lemma_words_before_separator(s);
        lemma_words_of_stripped_end(s.drop_last(), p);
    }
}

/// What stands before the words of a text in its slug.
spec fn before_words(s: Seq<char>) -> Seq<char> {
    if s.len() > 0 && named(s[0]) == '-' {
        seq!['-']
    } else {
        Seq::<char>::empty()
    }
}

/// What stands after the words of a text in its slug.
spec fn after_words(s: Seq<char>) -> Seq<char> {
    if s.len() > 0 && named(s.last()) == '-' && words(s).len() > 0 {
        seq!['-']
    } else {
        Seq::<char>::empty()
    }
}

/// The slug of a text is made of its words, with a hyphen before them and one
/// after them where the text begins and ends with a separator.
proof fn lemma_slug_is_words(s: Seq<char>)
    ensures
        source_bundles::slug(s) == before_words(s) + text::join(words(s), '-') + after_words(s),
        s.len() > 0 && named(s.last()) != '-' ==> words(s).len() > 0,
    decreases s.len(),
{
    if s.len() == 0 {
        let none = Seq::<Seq<char>>::empty();
        reveal(Seq::filter);
        assert(shaped(s) =~= Seq::<char>::empty());
        assert(text::split(shaped(s), '-') =~= none.push(Seq::<char>::empty()));
        path_safety::lemma_filter_push(none, word_test(), Seq::<char>::empty());
        assert(none.filter(word_test()) =~= none);
        assert(source_bundles::slug(s) =~= before_words(s) + text::join(words(s), '-')
            + after_words(s));
    } else {
        let front = s.drop_last();
        let c = s.last();
        lemma_slug_is_words(front);
        lemma_named(c);
        if front.len() > 0 {
            lemma_named(front.last());
            assert(front[0] == s[0]);
        }
        let before = words(front);
        let slug = source_bundles::slug(s);
        if named(c) == '-' {
            lemma_words_before_separator(s);
            if front.len() == 0 {
                assert(slug =~= seq!['-']);
                assert(s[0] == c);
                lemma_no_words(front);
            }
            assert(slug =~= before_words(s) + text::join(words(s), '-') + after_words(s));
        } else {
            lemma_words_after_letter(s);
            if front.len() > 0 && named(front.last()) != '-' {
                lemma_join_push(before.drop_last(), before.last(), named(c));
                assert(before.drop_last().push(before.last()) =~= before);
            } else if before.len() > 0 {
                let all = before.push(seq![named(c)]);
                assert(all.drop_last() =~= before);
                assert(text::join(all, '-') =~= text::join(before, '-').push('-').push(named(c)));
            } else {
                let all = before.push(seq![named(c)]);
                assert(all =~= seq![seq![named(c)]]);
                assert(text::join(all, '-') == seq![named(c)]);
            }
            assert(slug =~= before_words(s) + text::join(words(s), '-') + after_words(s));
        }
    }
}

/// The empty text has no words.
proof fn lemma_no_words(s: Seq<char>)
    requires
        s.len() == 0,
    ensures
        words(s).len() == 0,
{
    let none = Seq::<Seq<char>>::empty();
    reveal(Seq::filter);
    assert(shaped(s) =~= Seq::<char>::empty());
    assert(text::split(shaped(s), '-') =~= none.push(Seq::<char>::empty()));
    path_safety::lemma_filter_push(none, word_test(), Seq::<char>::empty());
    assert(none.filter(word_test()) =~= none);
}

/// A character that is no separator continues the last word, or begins one.
proof fn lemma_words_after_letter(s: Seq<char>)
    requires
        s.len() > 0,
        named(s.last()) != '-',
    ensures
        ({
            let front = s.drop_last();
            let before = words(front);
            let c = named(s.last());
            if front.len() > 0 && named(front.last()) != '-' {
                before.len() > 0 && words(s) == before.drop_last().push(before.last().push(c))
            } else {
                words(s) == before.push(seq![c])
            }
        }),
{
    let front = s.drop_last();
    let c = named(s.last());
    let pieces = text::split(shaped(front), '-');
    assert(shaped(s).drop_last() =~= shaped(front));
    assert(shaped(s).last() == c);
    text_laws::lemma_split_pieces(shaped(front), '-');
    let start = pieces.drop_last();
    assert(start.push(pieces.last()) =~= pieces);
    path_safety::lemma_filter_push(start, word_test(), pieces.last());
    path_safety::lemma_filter_push(start, word_test(), pieces.last().push(c));
    assert(text::split(shaped(s), '-') == start.push(pieces.last().push(c)));
    if front.len() > 0 {
        assert(shaped(front).last() == named(front.last()));
    }
    if front.len() > 0 && named(front.last()) != '-' {
        let earlier = text::split(shaped(front).drop_last(), '-');
        text_laws::lemma_split_pieces(shaped(front).drop_last(), '-');
        assert(pieces.last() == earlier.last().push(named(front.last())));
        let before = words(front);
        assert(before == start.filter(word_test()).push(pieces.last()));
        assert(before.drop_last() =~= start.filter(word_test()));
    } else {
        assert(pieces.last().len() == 0);
        assert(pieces.last().push(c) =~= seq![c]);
    }
}

/// A character behind the last of the joined words stands behind all of them.
proof fn lemma_join_push(start: Seq<Seq<char>>, word: Seq<char>, c: char)
    ensures
        text::join(start.push(word.push(c)), '-') == text::join(start.push(word), '-').push(c),
{
    assert(start.push(word).drop_last() =~= start);
    assert(start.push(word.push(c)).drop_last() =~= start);
    assert(text::join(start.push(word.push(c)), '-') =~= text::join(start.push(word), '-').push(c));
}

/// Joined words begin as the first and end as the last.
proof fn lemma_joined_words(all: Seq<Seq<char>>)
    requires
        all.len() > 0,
        forall|i: int| 0 <= i < all.len() ==> (#[trigger] all[i]).len() > 0,
    ensures
        text::join(all, '-').len() > 0,
        text::join(all, '-')[0] == all[0][0],
        text::join(all, '-').last() == all.last().last(),
    decreases all.len(),
{
    if all.len() > 1 {
        let front = all.drop_last();
        assert forall|i: int| 0 <= i < front.len() implies (#[trigger] front[i]).len() > 0 by {
            assert(front[i] == all[i]);
        }
        lemma_joined_words(front);
        assert(all[all.len() - 1].len() > 0);
        assert(front[0] == all[0]);
    } else {
        assert(all[0].len() > 0);
    }
}

/// The image name that stands for a lab's name is made of the words of that name,
/// in their order, with single hyphens between them.
pub proof fn law_image_name_is_made_of_words(value: Seq<char>)
    ensures
        source_bundles::image_name_of(value) == text::join(words(value), '-'),
{
    let s = text::trim(value);
    lemma_words_of_trimmed(value);
    lemma_slug_is_words(s);
    let all = words(s);
    let joined = text::join(all, '-');
    let slug = source_bundles::slug(s);
    let p = text::is_char('-');
    bundle_laws::lemma_filter_members(text::split(shaped(s), '-'), word_test());
    text_laws::lemma_split_pieces(shaped(s), '-');
    assert forall|i: int| 0 <= i < all.len() implies (#[trigger] all[i]).len() > 0 && !all[i].contains(
        '-',
    ) by {
        assert(word_test()(all[i]));
        let k = choose|k: int|
            0 <= k < text::split(shaped(s), '-').len() && text::split(shaped(s), '-')[k] == all[i];
        assert(!text::split(shaped(s), '-')[k].contains('-'));
    }
    if all.len() > 0 {
        lemma_joined_words(all);
        assert(joined[0] != '-') by {
            if joined[0] == '-' {
                assert(all[0].contains('-'));
            }
        }
        assert(joined.last() != '-') by {
            if joined.last() == '-' {
                let last = all[all.len() - 1];
                assert(last[last.len() - 1] == '-');
                assert(last.contains('-'));
            }
        }
        let rest = joined + after_words(s);
        assert(rest[0] == joined[0]);
        assert(text::strip_start(rest, p) == rest);
        assert(text::strip_start(slug, p) == rest) by {
            if before_words(s).len() > 0 {
                assert(slug.drop_first() =~= rest);
                assert(p(slug[0]));
            } else {
                assert(slug =~= rest);
            }
        }
        assert(text::strip_end(joined, p) == joined);
        assert(text::strip_end(rest, p) == joined) by {
            if after_words(s).len() > 0 {
                assert(rest.drop_last() =~= joined);
                assert(p(rest.last()));
            } else {
                assert(rest =~= joined);
            }
        }
    } else {
        assert(joined.len() == 0);
        assert(slug =~= before_words(s));
        if slug.len() > 0 {
            assert(p(slug[0]));
            assert(text::strip_start(slug.drop_first(), p).len() == 0);
        }
        assert(text::strip_start(slug, p).len() == 0);
        assert(text::trim_char(slug, '-').len() == 0);
        assert(text::trim_char(slug, '-') =~= joined);
    }
}

/// The name of an image is the one that is given; else it is made of the lab's
/// name; else of the lab's identifier. Where nothing is left of it, or none of
/// the three is given, there is none.
pub proof fn law_image_name_is_given_or_derived(payload: PayloadView)
    ensures
        ({
            let derived = source_bundles::derived_image_name(payload);
            &&& payload.image_name matches Some(name) ==> if name.len() > 0 {
                derived == Some(name)
            } else {
                derived is None
            }
            &&& payload.image_name is None ==> (payload.lab_name matches Some(name) ==> if words(
                name,
            ).len() > 0 {
                derived == Some(text::join(words(name), '-'))
            } else {
                derived is None
            })
            &&& payload.image_name is None && payload.lab_name is None ==> (payload.lab_id
                matches Some(id) ==> if words(id).len() > 0 {
                derived == Some(text::join(words(id), '-'))
            } else {
                derived is None
            })
            &&& payload.image_name is None && payload.lab_name is None && payload.lab_id is None
                ==> derived is None
        }),
{
    if let Some(name) = payload.lab_name {
        law_image_name_is_made_of_words(name);
        lemma_words_make_text(name);
    }
    if let Some(id) = payload.lab_id {
        law_image_name_is_made_of_words(id);
        lemma_words_make_text(id);
    }
}

/// Something is left of a name exactly when it has words.
proof fn lemma_words_make_text(s: Seq<char>)
    ensures
        text::join(words(s), '-').len() > 0 <==> words(s).len() > 0,
{
    let all = words(s);
    bundle_laws::lemma_filter_members(text::split(shaped(s), '-'), word_test());
    assert forall|i: int| 0 <= i < all.len() implies (#[trigger] all[i]).len() > 0 by {
        assert(word_test()(all[i]));
    }
    if all.len() > 0 {
        lemma_joined_words(all);
    }
}

/// Each text field of a form has a name of its own, and is found by it; any other
/// name is that of no field.
pub proof fn law_fields_are_found_by_name(field: TextField, name: Seq<char>)
    ensures
        TextField::LabId.name() == "lab_id"@,
        TextField::LabName.name() == "lab_name"@,
        TextField::RequestedBy.name() == "requested_by"@,
        TextField::ImageName.name() == "image_name"@,
        TextField::ImageTag.name() == "image_tag"@,
        TextField::DockerfilePath.name() == "dockerfile_path"@,
        source_bundles::field_of(field.name()) == Some(field),
        source_bundles::field_of(name) matches Some(found) ==> found.name() == name,
{
    lemma_field_names_differ();
}

/// The names of the fields are different from one another.
proof fn lemma_field_names_differ()
    ensures
        "lab_id"@.len() == 6,
        "lab_name"@.len() == 8,
        "requested_by"@.len() == 12,
        "image_name"@.len() == 10,
        "image_tag"@.len() == 9,
        "dockerfile_path"@.len() == 15,
{
    reveal_strlit("lab_id");
    reveal_strlit("lab_name");
    reveal_strlit("requested_by");
    reveal_strlit("image_name");
    reveal_strlit("image_tag");
    reveal_strlit("dockerfile_path");
}

/// What a payload has in a text field.
pub open spec fn text_in(payload: PayloadView, field: TextField) -> Option<Seq<char>> {
    match field {
        TextField::LabId => payload.lab_id,
        TextField::LabName => payload.lab_name,
        TextField::RequestedBy => payload.requested_by,
        TextField::ImageName => payload.image_name,
        TextField::ImageTag => payload.image_tag,
        TextField::DockerfilePath => payload.dockerfile_path,
    }
}

/// Filling a field fills that field alone: all others, and the files, stay.
pub proof fn law_filling_a_field_fills_it_alone(
    payload: PayloadView,
    field: TextField,
    other: TextField,
    value: Seq<char>,
)
    ensures
        text_in(payload.with_text(field, value), field) == Some(value),
        other != field ==> text_in(payload.with_text(field, value), other) == text_in(
            payload,
            other,
        ),
        payload.with_text(field, value).files == payload.files,
{
}

/// A text that is not blank takes the place of what a field held before, as it
/// was sent; a blank one leaves it.
pub proof fn law_blank_text_is_ignored(target: Option<Seq<char>>, bytes: Seq<u8>)
    ensures
        ({
            let sent = utf8::decode_utf8(bytes);
            &&& text::trim(sent).len() > 0 ==> source_bundles::text_assigned(target, bytes) == Some(
                sent,
            )
            &&& text::trim(sent).len() == 0 ==> source_bundles::text_assigned(target, bytes)
                == target
        }),
{
}

/// The size of an upload is that of its files together.
pub proof fn law_sizes_add_up(
    a: Seq<UploadedFileInputView>,
    b: Seq<UploadedFileInputView>,
    file: UploadedFileInputView,
)
    ensures
        source_bundles::total_bytes(Seq::<UploadedFileInputView>::empty()) == 0,
        source_bundles::total_bytes(seq![file]) == file.bytes.len(),
        source_bundles::total_bytes(a + b) == source_bundles::total_bytes(a)
            + source_bundles::total_bytes(b),
    decreases b.len(),
{
    assert(seq![file].drop_last() =~= Seq::<UploadedFileInputView>::empty());
    assert(source_bundles::total_bytes(Seq::<UploadedFileInputView>::empty()) == 0);
    if b.len() == 0 {
        assert(a + b =~= a);
    } else {
        law_sizes_add_up(a, b.drop_last(), file);
        assert((a + b).drop_last() =~= a + b.drop_last());
        assert((a + b).last() == b.last());
    }
}

/// Files keep to the limits exactly when they are not too many, none is too
/// large, and each has an accepted name.
pub proof fn law_limits_of_an_upload(config: BuilderConfigView, files: Seq<UploadedFileInputView>)
    ensures
        source_bundles::files_within_limits(config, files) <==> {
            &&& files.len() <= config.max_upload_files
            &&& forall|i: int|
                0 <= i < files.len() ==> (#[trigger] files[i]).bytes.len()
                    <= config.max_upload_file_bytes
            &&& forall|i: int|
                0 <= i < files.len() ==> file_policy::text_name(
                    file_policy::file_name((#[trigger] files[i]).relative_path),
                )
        },
{
}

/// A form keeps to the limits exactly when its files do and it counted their
/// bytes, which are not too many together.
pub proof fn law_limits_of_a_form(config: BuilderConfigView, form: UploadForm)
    ensures
        form.within_limits(config) <==> {
            &&& source_bundles::files_within_limits(config, form.payload@.files)
            &&& form.total_upload_bytes == source_bundles::total_bytes(form.payload@.files)
            &&& form.total_upload_bytes <= config.max_upload_total_bytes
        },
{
}

/// A payload is shown with each of its fields.
pub proof fn law_payload_shows_its_fields(payload: SourceBundleMultipartPayload)
    ensures
        payload@.lab_id == text::opt_text(payload.lab_id),
        payload@.lab_name == text::opt_text(payload.lab_name),
        payload@.requested_by == text::opt_text(payload.requested_by),
        payload@.image_name == text::opt_text(payload.image_name),
        payload@.image_tag == text::opt_text(payload.image_tag),
        payload@.dockerfile_path == text::opt_text(payload.dockerfile_path),
        payload@.files.len() == payload.files@.len(),
        forall|i: int|
            0 <= i < payload.files@.len() ==> #[trigger] payload@.files[i] == payload.files@[i]@,
{
}

} // verus!
