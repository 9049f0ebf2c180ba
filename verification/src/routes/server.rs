//! Where the service listens and which origins may call it.

use crate::models::state;
use crate::models::state::{env_or_default, EnvVar};
use crate::services::bundle_laws;
use crate::services::path_safety;
use crate::text;
use crate::text::{owned, split_text, trimmed};
use crate::text_laws;
use vstd::prelude::*;
use vstd::string::*;

verus! {

/// Whether anything is left of an entry of the list.
pub open spec fn is_origin(s: Seq<char>) -> bool {
    s.len() > 0
}

pub open spec fn origin_test() -> spec_fn(Seq<char>) -> bool {
    |s: Seq<char>| is_origin(s)
}

/// The entries of a list with commas between them, without white space around
/// them and without empty ones.
pub open spec fn origins_in(list: Seq<char>) -> Seq<Seq<char>> {
    text::split(list, ',').map_values(|s: Seq<char>| text::trim(s)).filter(origin_test())
}

/// The origins that may call the service from a browser: those that
/// `ALLOWED_ORIGINS` lists, or those of local development.
pub fn allowed_origins(vars: &Vec<EnvVar>) -> (r: Vec<String>)
    ensures
        text::texts(r@) == origins_in(
            state::text_setting(
                vars@,
                "ALLOWED_ORIGINS"@,
                "http://localhost:5173,http://localhost:3000"@,
            ),
        ),
{
    let list = env_or_default(
        vars,
        "ALLOWED_ORIGINS",
        "http://localhost:5173,http://localhost:3000",
    );
    let entries = split_text(list.as_str(), ',');
    let mut r: Vec<String> = Vec::new();
    let ghost all = text::split(list@, ',').map_values(|s: Seq<char>| text::trim(s));
    proof {
        reveal(Seq::filter);
        assert(all.take(0).filter(origin_test()) =~= Seq::<Seq<char>>::empty());
        assert(text::texts(r@) =~= Seq::<Seq<char>>::empty());
    }
    for i in 0..entries.len()
        invariant
            text::texts(entries@) == text::split(list@, ','),
            all == text::split(list@, ',').map_values(|s: Seq<char>| text::trim(s)),
            text::texts(r@) == all.take(i as int).filter(origin_test()),
    {
        let origin = trimmed(entries[i].as_str());
        let ghost before = text::texts(r@);
        proof {
            assert(text::texts(entries@)[i as int] == entries@[i as int]@);
            assert(all[i as int] == origin@);
            assert(all.take(i + 1) =~= all.take(i as int).push(origin@));
            path_safety::lemma_filter_push(all.take(i as int), origin_test(), origin@);
        }
        if !origin.as_str().is_empty() {
            r.push(origin);
            assert(text::texts(r@) =~= before.push(origin@));
        }
    }
    assert(all.take(all.len() as int) =~= all);
    r
}

/// The address that the service listens on.
pub fn listen_address(vars: &Vec<EnvVar>) -> (r: String)
    ensures
        r@ == "0.0.0.0:"@ + state::text_setting(vars@, "PORT"@, "8086"@),
{
    owned("0.0.0.0:").concat(env_or_default(vars, "PORT", "8086").as_str())
}

/// A list of origins with single commas between them is read as these origins,
/// in their order.
pub proof fn law_listed_origins_are_read(list: Seq<Seq<char>>)
    requires
        list.len() > 0,
        forall|i: int|
            0 <= i < list.len() ==> {
                &&& (#[trigger] list[i]).len() > 0
                &&& !list[i].contains(',')
                &&& text::trim(list[i]) == list[i]
            },
    ensures
        origins_in(text::join(list, ',')) == list,
{
    text_laws::lemma_split_join(list, ',');
    let trimmed = list.map_values(|s: Seq<char>| text::trim(s));
    assert(trimmed =~= list);
    assert forall|i: int| 0 <= i < list.len() implies origin_test()(#[trigger] list[i]) by {}
    bundle_laws::lemma_filter_all(list, origin_test());
}

/// Every origin that is read stands in the list between commas, without white
/// space at its ends, and is not empty; every entry that is not blank is read.
pub proof fn law_origins_stand_in_the_list(list: Seq<char>)
    ensures
        forall|i: int|
            0 <= i < origins_in(list).len() ==> (#[trigger] origins_in(list)[i]).len() > 0
                && exists|k: int|
                0 <= k < text::split(list, ',').len() && origins_in(list)[i] == text::trim(
                    #[trigger] text::split(list, ',')[k],
                ),
        forall|k: int|
            0 <= k < text::split(list, ',').len() && text::trim(
                #[trigger] text::split(list, ',')[k],
            ).len() > 0 ==> origins_in(list).contains(text::trim(text::split(list, ',')[k])),
{
    let entries = text::split(list, ',');
    let trimmed = entries.map_values(|s: Seq<char>| text::trim(s));
    bundle_laws::lemma_filter_members(trimmed, origin_test());
    assert forall|i: int| 0 <= i < origins_in(list).len() implies (#[trigger] origins_in(list)[i]).len()
        > 0 && exists|k: int|
        0 <= k < text::split(list, ',').len() && origins_in(list)[i] == text::trim(
            #[trigger] text::split(list, ',')[k],
        ) by {
        assert(origin_test()(origins_in(list)[i]));
        let k = choose|k: int| 0 <= k < trimmed.len() && trimmed[k] == origins_in(list)[i];
        assert(trimmed[k] == text::trim(entries[k]));
    }
    assert forall|k: int|
        0 <= k < text::split(list, ',').len() && text::trim(
            #[trigger] text::split(list, ',')[k],
        ).len() > 0 implies origins_in(list).contains(text::trim(text::split(list, ',')[k])) by {
        assert(trimmed[k] == text::trim(entries[k]));
        lemma_kept(trimmed, k);
    }
}

/// An entry that passes the test is kept.
proof fn lemma_kept(entries: Seq<Seq<char>>, k: int)
    requires
        0 <= k < entries.len(),
        is_origin(entries[k]),
    ensures
        entries.filter(origin_test()).contains(entries[k]),
    decreases entries.len(),
{
    let front = entries.drop_last();
    assert(front.push(entries.last()) =~= entries);
    path_safety::lemma_filter_push(front, origin_test(), entries.last());
    let kept = entries.filter(origin_test());
    if k < front.len() {
        lemma_kept(front, k);
        let before = front.filter(origin_test());
        let i = choose|i: int| 0 <= i < before.len() && before[i] == entries[k];
        assert(kept[i] == entries[k]);
    } else {
        assert(kept.last() == entries[k]);
    }
}

} // verus!
