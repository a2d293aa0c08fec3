//! Room versions and their negotiation.
//!
//! A room version is a short string tag. The requester offers the versions
//! it understands; the resident server picks one of them.

use vstd::prelude::*;

verus! {

/// The tags of a list of versions, as sequences of characters.
pub open spec fn tags(versions: Seq<String>) -> Seq<Seq<char>> {
    Seq::new(versions.len(), |i: int| versions[i]@)
}

/// The version assumed when the requester names none.
pub open spec fn baseline() -> Seq<char> {
    "1"@
}

/// What a list of offered versions stands for: itself, or the baseline
/// alone when it is empty.
pub open spec fn normalized(offered: Seq<Seq<char>>) -> Seq<Seq<char>> {
    if offered.len() == 0 {
        seq![baseline()]
    } else {
        offered
    }
}

/// `hosted[i]` is offered, and no earlier entry of `hosted` is.
pub open spec fn is_first_common(hosted: Seq<Seq<char>>, offered: Seq<Seq<char>>, i: int) -> bool {
    &&& 0 <= i < hosted.len()
    &&& offered.contains(hosted[i])
    &&& forall|j: int| 0 <= j < i ==> !offered.contains(#[trigger] hosted[j])
}

/// No entry of `hosted` is offered.
pub open spec fn none_common(hosted: Seq<Seq<char>>, offered: Seq<Seq<char>>) -> bool {
    forall|j: int| 0 <= j < hosted.len() ==> !offered.contains(#[trigger] hosted[j])
}

/// The version that negotiation settles on: the first entry of `hosted`
/// that occurs in `offered`, if there is one.
pub open spec fn negotiated(hosted: Seq<Seq<char>>, offered: Seq<Seq<char>>) -> Option<Seq<char>> {
    if exists|i: int| is_first_common(hosted, offered, i) {
        Some(hosted[choose|i: int| is_first_common(hosted, offered, i)])
    } else {
        None
    }
}

/// The list of versions a request stands for when it names none.
pub fn default_versions() -> (v: Vec<String>)
    ensures
        tags(v@) == seq![baseline()],
{
    let mut v: Vec<String> = Vec::new();
    v.push("1".to_string());
    assert(tags(v@) =~= seq![baseline()]);
    v
}

/// Replaces an empty list of offered versions by the default one and
/// leaves any other list as it is.
pub fn normalize_versions(ver: Vec<String>) -> (out: Vec<String>)
    ensures
        tags(out@) == normalized(tags(ver@)),
        ver@.len() > 0 ==> out == ver,
{
    if ver.len() == 0 {
        assert(tags(ver@).len() == 0);
        default_versions()
    } else {
        assert(tags(ver@).len() > 0);
        ver
    }
}

/// Whether `tag` occurs in `versions`.
pub fn contains_version(versions: &Vec<String>, tag: &String) -> (found: bool)
    ensures
        found == tags(versions@).contains(tag@),
{
    let mut i: usize = 0;
    while i < versions.len()
        invariant
            0 <= i <= versions.len(),
            forall|j: int| 0 <= j < i ==> tags(versions@)[j] != tag@,
        decreases versions.len() - i,
    {
        if versions[i] == *tag {
            assert(tags(versions@)[i as int] == tag@);
            return true;
        }
        i += 1;
    }
    false
}

/// Picks the room version for a join: the first of this server's `hosted`
/// versions, in its own order of preference, that the requester offered.
pub fn select_version(hosted: &Vec<String>, offered: &Vec<String>) -> (picked: Option<String>)
    ensures
        match picked {
            Some(v) => negotiated(tags(hosted@), tags(offered@)) == Some(v@),
            None => negotiated(tags(hosted@), tags(offered@)).is_none(),
        },
{
    let mut i: usize = 0;
    while i < hosted.len()
        invariant
            0 <= i <= hosted.len(),
            forall|j: int| 0 <= j < i ==> !tags(offered@).contains(#[trigger] tags(hosted@)[j]),
        decreases hosted.len() - i,
    {
        if contains_version(offered, &hosted[i]) {
            proof {
                lemma_first_common_is_negotiated(tags(hosted@), tags(offered@), i as int);
            }
            return Some(hosted[i].clone());
        }
        i += 1;
    }
    proof {
        lemma_negotiated_none(tags(hosted@), tags(offered@));
    }
    None
}

/// The first common entry is unique, so it is the negotiated version.
pub proof fn lemma_first_common_is_negotiated(
    hosted: Seq<Seq<char>>,
    offered: Seq<Seq<char>>,
    i: int,
)
    requires
        is_first_common(hosted, offered, i),
    ensures
        negotiated(hosted, offered) == Some(hosted[i]),
{
    let k = choose|k: int| is_first_common(hosted, offered, k);
    if k < i {
        assert(!offered.contains(hosted[k]));
    } else if i < k {
        assert(!offered.contains(hosted[i]));
    }
}

/// Negotiation fails exactly when the two lists share no version.
pub proof fn lemma_negotiated_none(hosted: Seq<Seq<char>>, offered: Seq<Seq<char>>)
    ensures
        negotiated(hosted, offered).is_none() <==> none_common(hosted, offered),
{
    if none_common(hosted, offered) {
        if exists|i: int| is_first_common(hosted, offered, i) {
            let k = choose|k: int| is_first_common(hosted, offered, k);
            assert(!offered.contains(hosted[k]));
        }
    } else {
        let j = choose|j: int| 0 <= j < hosted.len() && offered.contains(#[trigger] hosted[j]);
        lemma_some_common_has_first(hosted, offered, j);
    }
}

/// Where some entry of `hosted` is offered, there is a first such entry.
pub proof fn lemma_some_common_has_first(hosted: Seq<Seq<char>>, offered: Seq<Seq<char>>, j: int)
    requires
        0 <= j < hosted.len(),
        offered.contains(hosted[j]),
    ensures
        exists|i: int| is_first_common(hosted, offered, i),
    decreases j,
{
    if exists|k: int| 0 <= k < j && offered.contains(#[trigger] hosted[k]) {
        let k = choose|k: int| 0 <= k < j && offered.contains(#[trigger] hosted[k]);
        lemma_some_common_has_first(hosted, offered, k);
    } else {
        assert(is_first_common(hosted, offered, j));
    }
}

/// A negotiated version is one of those offered and one of those hosted.
pub proof fn lemma_negotiated_is_member(hosted: Seq<Seq<char>>, offered: Seq<Seq<char>>)
    requires
        negotiated(hosted, offered).is_some(),
    ensures
        offered.contains(negotiated(hosted, offered).unwrap()),
        hosted.contains(negotiated(hosted, offered).unwrap()),
{
    let k = choose|k: int| is_first_common(hosted, offered, k);
    assert(hosted[k] == negotiated(hosted, offered).unwrap());
}

} // verus!
