//! JSON values as plain data.

use crate::text;
use crate::text::{owned, same};
use vstd::prelude::*;
use vstd::string::*;

verus! {

/// A JSON value. A number is kept as the text that writes it.
#[derive(Debug)]
pub enum Json {
    Null,
    Bool(bool),
    Number(String),
    Text(String),
    Array(Vec<Json>),
    Object(Vec<JsonMember>),
}

/// A member of a JSON object.
#[derive(Debug)]
pub struct JsonMember {
    pub key: String,
    pub value: Json,
}

/// A JSON value with its texts.
pub enum JsonView {
    Null,
    Bool(bool),
    Number(Seq<char>),
    Text(Seq<char>),
    Array(Seq<JsonView>),
    Object(Seq<(Seq<char>, JsonView)>),
}

impl Json {
    pub open spec fn model(self) -> JsonView
        decreases self,
    {
        match self {
            Json::Null => JsonView::Null,
            Json::Bool(b) => JsonView::Bool(b),
            Json::Number(n) => JsonView::Number(n@),
            Json::Text(s) => JsonView::Text(s@),
            Json::Array(items) => JsonView::Array(
                Seq::new(
                    items@.len(),
                    |i: int|
                        if 0 <= i < items@.len() {
                            items@[i].model()
                        } else {
                            JsonView::Null
                        },
                ),
            ),
            Json::Object(members) => JsonView::Object(
                Seq::new(
                    members@.len(),
                    |i: int|
                        if 0 <= i < members@.len() {
                            (members@[i].key@, members@[i].value.model())
                        } else {
                            (Seq::<char>::empty(), JsonView::Null)
                        },
                ),
            ),
        }
    }
}

impl View for Json {
    type V = JsonView;

    open spec fn view(&self) -> JsonView {
        self.model()
    }
}

/// The value of the first member with this key.
pub open spec fn find_member(members: Seq<(Seq<char>, JsonView)>, key: Seq<char>) -> Option<
    JsonView,
>
    decreases members.len(),
{
    if members.len() == 0 {
        None
    } else if members[0].0 == key {
        Some(members[0].1)
    } else {
        find_member(members.drop_first(), key)
    }
}

impl JsonView {
    /// The member of an object with this key.
    pub open spec fn member(self, key: Seq<char>) -> Option<JsonView> {
        match self {
            JsonView::Object(members) => find_member(members, key),
            _ => None,
        }
    }

    /// The text that the value is, where it is one.
    pub open spec fn as_text(self) -> Option<Seq<char>> {
        match self {
            JsonView::Text(s) => Some(s),
            _ => None,
        }
    }

    /// The value at the end of a walk through objects.
    pub open spec fn at(self, path: Seq<Seq<char>>) -> Option<JsonView>
        decreases path.len(),
    {
        if path.len() == 0 {
            Some(self)
        } else {
            match self.member(path[0]) {
                Some(v) => v.at(path.drop_first()),
                None => None,
            }
        }
    }

    /// The text at the end of a walk through objects.
    pub open spec fn text_at(self, path: Seq<Seq<char>>) -> Option<Seq<char>> {
        match self.at(path) {
            Some(v) => v.as_text(),
            None => None,
        }
    }
}

/// The keys of a path as texts.
pub open spec fn keys(path: Seq<&str>) -> Seq<Seq<char>> {
    path.map_values(|k: &str| k@)
}

impl Json {
    /// The member of an object with this key.
    pub fn get(&self, key: &str) -> (r: Option<&Json>)
        ensures
            match r {
                Some(v) => self@.member(key@) == Some(v@),
                None => self@.member(key@) is None,
            },
    {
        match self {
            Json::Object(members) => {
                let ghost all = self@->Object_0;
                assert(all.skip(0) =~= all);
                for i in 0..members.len()
                    invariant
                        *self == Json::Object(*members),
                        all == self@->Object_0,
                        self@.member(key@) == find_member(all.skip(i as int), key@),
                {
                    assert(all.skip(i as int)[0] == all[i as int]);
                    assert(all.skip(i as int).drop_first() =~= all.skip(i + 1));
                    assert(all[i as int] == (
                        members@[i as int].key@,
                        members@[i as int].value.model(),
                    ));
                    if same(members[i].key.as_str(), key) {
                        return Some(&members[i].value);
                    }
                }
                None
            },
            _ => None,
        }
    }

    /// The text that the value is, where it is one.
    pub fn as_str(&self) -> (r: Option<String>)
        ensures
            text::opt_text(r) == self@.as_text(),
    {
        match self {
            Json::Text(s) => Some(s.clone()),
            _ => None,
        }
    }

    /// The truth value that the value is, where it is one.
    pub fn as_bool(&self) -> (r: Option<bool>)
        ensures
            r == match self@ {
                JsonView::Bool(b) => Some(b),
                _ => None,
            },
    {
        match self {
            Json::Bool(b) => Some(*b),
            _ => None,
        }
    }
}

/// The text at the end of a walk through objects.
pub fn json_string(value: &Json, path: &[&str]) -> (r: Option<String>)
    ensures
        text::opt_text(r) == value@.text_at(keys(path@)),
{
    let mut current: &Json = value;
    let ghost all = keys(path@);
    assert(all.skip(0) =~= all);
    for i in 0..path.len()
        invariant
            all == keys(path@),
            value@.at(all) == current@.at(all.skip(i as int)),
    {
        assert(all.skip(i as int)[0] == path@[i as int]@);
        assert(all.skip(i as int).drop_first() =~= all.skip(i + 1));
        match current.get(path[i]) {
            Some(next) => {
                current = next;
            },
            None => {
                return None;
            },
        }
    }
    current.as_str()
}

/// The text at the end of a walk through objects, where there is a value.
pub fn metadata_string(metadata: Option<&Json>, path: &[&str]) -> (r: Option<String>)
    ensures
        text::opt_text(r) == match metadata {
            Some(value) => value@.text_at(keys(path@)),
            None => None,
        },
{
    match metadata {
        Some(value) => json_string(value, path),
        None => None,
    }
}

/// The members of an object with their texts.
pub open spec fn member_views(members: Seq<JsonMember>) -> Seq<(Seq<char>, JsonView)> {
    members.map_values(|m: JsonMember| (m.key@, m.value@))
}

/// The items of an array with their texts.
pub open spec fn item_views(items: Seq<Json>) -> Seq<JsonView> {
    items.map_values(|v: Json| v@)
}

/// A text as a JSON value.
pub fn text_value(s: &str) -> (r: Json)
    ensures
        r@ == JsonView::Text(s@),
{
    Json::Text(owned(s))
}

/// An object of these members.
pub fn object_of(members: Vec<JsonMember>) -> (r: Json)
    ensures
        r@ == JsonView::Object(member_views(members@)),
{
    let r = Json::Object(members);
    assert(r@->Object_0 =~= member_views(members@));
    r
}

/// An array of these items.
pub fn array_of(items: Vec<Json>) -> (r: Json)
    ensures
        r@ == JsonView::Array(item_views(items@)),
{
    let r = Json::Array(items);
    assert(r@->Array_0 =~= item_views(items@));
    r
}

/// Adds a member behind the others.
pub fn add_member(members: &mut Vec<JsonMember>, key: &str, value: Json)
    ensures
        member_views(final(members)@) == member_views(old(members)@).push((key@, value@)),
{
    let ghost before = member_views(members@);
    members.push(JsonMember { key: owned(key), value });
    assert(member_views(members@) =~= before.push((key@, value@)));
}

/// The texts as an array.
pub fn text_array(texts: &Vec<String>) -> (r: Json)
    ensures
        r@ == JsonView::Array(
            text::texts(texts@).map_values(|s: Seq<char>| JsonView::Text(s)),
        ),
{
    let mut items: Vec<Json> = Vec::new();
    for i in 0..texts.len()
        invariant
            item_views(items@) == text::texts(texts@).take(i as int).map_values(
                |s: Seq<char>| JsonView::Text(s),
            ),
    {
        let ghost before = item_views(items@);
        items.push(text_value(texts[i].as_str()));
        assert(item_views(items@) =~= before.push(JsonView::Text(texts@[i as int]@)));
        assert(item_views(items@) =~= text::texts(texts@).take(i + 1).map_values(
            |s: Seq<char>| JsonView::Text(s),
        ));
    }
    assert(text::texts(texts@).take(texts@.len() as int) =~= text::texts(texts@));
    array_of(items)
}

/// The value of a key is that of the first member with it, wherever it stands
/// and whatever else the object holds.
pub proof fn law_first_member_counts(
    members: Seq<(Seq<char>, JsonView)>,
    key: Seq<char>,
    i: int,
)
    requires
        0 <= i < members.len(),
        members[i].0 == key,
        forall|j: int| 0 <= j < i ==> (#[trigger] members[j]).0 != key,
    ensures
        JsonView::Object(members).member(key) == Some(members[i].1),
    decreases i,
{
    if i > 0 {
        let rest = members.drop_first();
        assert(members[0].0 != key);
        assert forall|j: int| 0 <= j < i - 1 implies (#[trigger] rest[j]).0 != key by {
            assert(rest[j] == members[j + 1]);
        }
        law_first_member_counts(rest, key, i - 1);
    }
}

/// A key that no member has gives nothing, and so does any key of a value that
/// is no object.
pub proof fn law_missing_member(members: Seq<(Seq<char>, JsonView)>, key: Seq<char>)
    requires
        forall|j: int| 0 <= j < members.len() ==> (#[trigger] members[j]).0 != key,
    ensures
        JsonView::Object(members).member(key) is None,
        JsonView::Null.member(key) is None,
        forall|s: Seq<char>| (#[trigger] JsonView::Text(s).member(key)) is None,
        forall|v: Seq<JsonView>| (#[trigger] JsonView::Array(v).member(key)) is None,
    decreases members.len(),
{
    if members.len() > 0 {
        let rest = members.drop_first();
        assert(members[0].0 != key);
        assert forall|j: int| 0 <= j < rest.len() implies (#[trigger] rest[j]).0 != key by {
            assert(rest[j] == members[j + 1]);
        }
        law_missing_member(rest, key);
    }
}

/// A walk through objects takes one key after the other, and the text at its end
/// is the text that stands there.
pub proof fn law_walk_takes_key_by_key(value: JsonView, a: Seq<char>, b: Seq<char>)
    ensures
        value.text_at(seq![a]) == match value.member(a) {
            Some(JsonView::Text(s)) => Some(s),
            _ => None,
        },
        value.text_at(seq![a, b]) == match value.member(a) {
            Some(inner) => match inner.member(b) {
                Some(JsonView::Text(s)) => Some(s),
                _ => None,
            },
            None => None,
        },
{
    assert(seq![a].drop_first() =~= Seq::<Seq<char>>::empty());
    assert(seq![a, b].drop_first() =~= seq![b]);
    assert(seq![b].drop_first() =~= Seq::<Seq<char>>::empty());
    reveal_with_fuel(JsonView::at, 3);
}

/// A JSON value is shown as it is: scalars as themselves, lists item by item and
/// objects member by member, in their order.
pub proof fn law_json_is_shown_as_it_is(
    b: bool,
    s: String,
    items: Vec<Json>,
    members: Vec<JsonMember>,
    i: int,
)
    ensures
        Json::Null@ == JsonView::Null,
        Json::Bool(b)@ == JsonView::Bool(b),
        Json::Number(s)@ == JsonView::Number(s@),
        Json::Text(s)@ == JsonView::Text(s@),
        Json::Array(items)@ matches JsonView::Array(shown) && shown.len() == items@.len() && (0 <= i
            < shown.len() ==> shown[i] == items@[i]@),
        Json::Object(members)@ matches JsonView::Object(shown) && shown.len() == members@.len() && (0
            <= i < shown.len() ==> shown[i] == (members@[i].key@, members@[i].value@)),
{
}

/// A walk along no key stays where it is; along a first key and others it goes to
/// that member and walks on; and only a text is taken as a text.
pub proof fn law_walk_goes_on_from_the_member(
    value: JsonView,
    key: Seq<char>,
    rest: Seq<Seq<char>>,
    s: Seq<char>,
)
    ensures
        value.at(Seq::<Seq<char>>::empty()) == Some(value),
        value.at(seq![key] + rest) == match value.member(key) {
            Some(inner) => inner.at(rest),
            None => None,
        },
        JsonView::Text(s).as_text() == Some(s),
        !(value is Text) ==> value.as_text() is None,
        value.text_at(rest) == match value.at(rest) {
            Some(JsonView::Text(found)) => Some(found),
            _ => None,
        },
{
    let path = seq![key] + rest;
    assert(path.drop_first() =~= rest);
    assert(path[0] == key);
}

} // verus!
