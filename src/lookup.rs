//! First-match lookups over ordered lists of `(name, value)` entries.
use crate::text::same_text;
use vstd::prelude::*;

verus! {

/// The index of the first element of `s` that satisfies `p`.
pub open spec fn first_index<A>(s: Seq<A>, p: spec_fn(A) -> bool) -> Option<int>
    decreases s.len(),
{
    if s.len() == 0 {
        None
    } else {
        match first_index(s.drop_last(), p) {
            Some(i) => Some(i),
            None => if p(s.last()) {
                Some(s.len() - 1)
            } else {
                None
            },
        }
    }
}

/// An entry named `key`.
pub open spec fn named<V>(key: Seq<char>) -> spec_fn((String, V)) -> bool {
    |e: (String, V)| e.0@ == key
}

/// The index of the first entry named `key`.
pub open spec fn key_index<V>(entries: Seq<(String, V)>, key: Seq<char>) -> Option<int> {
    first_index(entries, named::<V>(key))
}

/// The names of the entries, in order.
pub open spec fn entry_names<V>(entries: Seq<(String, V)>) -> Seq<Seq<char>> {
    entries.map_values(|e: (String, V)| e.0@)
}

pub proof fn lemma_first_index<A>(s: Seq<A>, p: spec_fn(A) -> bool)
    ensures
        match first_index(s, p) {
            Some(i) => 0 <= i < s.len() && p(s[i]) && forall|j: int| 0 <= j < i ==> !p(#[trigger] s[j]),
            None => forall|j: int| 0 <= j < s.len() ==> !p(#[trigger] s[j]),
        },
    decreases s.len(),
{
    if s.len() > 0 {
        lemma_first_index(s.drop_last(), p);
        assert forall|j: int| 0 <= j < s.len() - 1 implies s.drop_last()[j] == s[j] by {}
    }
}

/// `first_index` is the index `i` whenever `s[i]` is the first match.
pub proof fn lemma_first_index_at<A>(s: Seq<A>, p: spec_fn(A) -> bool, i: int)
    requires
        0 <= i < s.len(),
        p(s[i]),
        forall|j: int| 0 <= j < i ==> !p(#[trigger] s[j]),
    ensures
        first_index(s, p) == Some(i),
{
    lemma_first_index(s, p);
}

/// `first_index` finds nothing when no element matches.
pub proof fn lemma_first_index_none<A>(s: Seq<A>, p: spec_fn(A) -> bool)
    requires
        forall|j: int| 0 <= j < s.len() ==> !p(#[trigger] s[j]),
    ensures
        first_index(s, p) is None,
{
    lemma_first_index(s, p);
}

/// `key_index` finds the first entry named `key`, or says none is.
pub proof fn lemma_key_index<V>(s: Seq<(String, V)>, key: Seq<char>)
    ensures
        match key_index(s, key) {
            Some(i) => 0 <= i < s.len() && s[i].0@ == key && forall|j: int|
                0 <= j < i ==> (#[trigger] s[j]).0@ != key,
            None => forall|j: int| 0 <= j < s.len() ==> (#[trigger] s[j]).0@ != key,
        },
{
    let p = named::<V>(key);
    lemma_first_index(s, p);
    match first_index(s, p) {
        Some(i) => {
            assert(p(s[i]));
            assert forall|j: int| 0 <= j < i implies (#[trigger] s[j]).0@ != key by {
                assert(!p(s[j]));
            }
        },
        None => {
            assert forall|j: int| 0 <= j < s.len() implies (#[trigger] s[j]).0@ != key by {
                assert(!p(s[j]));
            }
        },
    }
}

/// No two entries share a name.
pub open spec fn distinct_names<V>(entries: Seq<(String, V)>) -> bool {
    forall|a: int, b: int| 0 <= a < b < entries.len() ==> entries[a].0@ != entries[b].0@
}

/// The first entry named like entry `i` lies before `i` exactly when the
/// entries before `i` hold that name.
pub proof fn lemma_key_index_prefix<V>(s: Seq<(String, V)>, i: int)
    requires
        0 <= i < s.len(),
    ensures
        key_index(s, s[i].0@) is Some,
        key_index(s, s[i].0@)->0 <= i,
        (key_index(s, s[i].0@)->0 < i) == (key_index(s.take(i), s[i].0@) is Some),
{
    let p = named::<V>(s[i].0@);
    lemma_first_index(s, p);
    lemma_first_index(s.take(i), p);
    if let Some(j) = first_index(s.take(i), p) {
        assert(s.take(i)[j] == s[j]);
    }
    if let Some(j) = first_index(s, p) {
        if j < i {
            assert(s.take(i)[j] == s[j]);
        }
    }
}

/// With distinct names, the first entry named like entry `i` is entry `i`.
pub proof fn lemma_key_index_distinct<V>(s: Seq<(String, V)>, i: int)
    requires
        0 <= i < s.len(),
        distinct_names(s),
    ensures
        key_index(s, s[i].0@) == Some(i),
{
    let p = named::<V>(s[i].0@);
    lemma_first_index_at(s, p, i);
}

/// Distinct names give a list of names without duplicates.
pub proof fn lemma_distinct_names<V>(s: Seq<(String, V)>)
    requires
        distinct_names(s),
    ensures
        entry_names(s).no_duplicates(),
{
    assert forall|a: int, b: int|
        0 <= a < entry_names(s).len() && 0 <= b < entry_names(s).len() && a != b implies entry_names(
        s,
    )[a] != entry_names(s)[b] by {
        if a > b {
            assert(s[b].0@ != s[a].0@);
        }
    }
}

/// The position of the first entry named `key`.
pub fn find_key<V>(entries: &Vec<(String, V)>, key: &str) -> (r: Option<usize>)
    ensures
        match r {
            Some(i) => i < entries@.len() && key_index(entries@, key@) == Some(i as int),
            None => key_index(entries@, key@) is None,
        },
{
    let ghost p = named::<V>(key@);
    let mut i: usize = 0;
    while i < entries.len()
        invariant
            i <= entries@.len(),
            p == named::<V>(key@),
            forall|j: int| 0 <= j < i ==> !p(#[trigger] entries@[j]),
        decreases entries.len() - i,
    {
        if same_text(entries[i].0.as_str(), key) {
            proof {
                lemma_first_index_at(entries@, p, i as int);
            }
            return Some(i);
        }
        i = i + 1;
    }
    proof {
        lemma_first_index_none(entries@, p);
    }
    None
}

/// The names of the entries, in order.
pub fn names_of<V>(entries: &Vec<(String, V)>) -> (r: Vec<String>)
    ensures
        r@.map_values(|s: String| s@) == entry_names(entries@),
{
    let mut out: Vec<String> = Vec::new();
    let mut i: usize = 0;
    while i < entries.len()
        invariant
            i <= entries@.len(),
            out@.len() == i,
            forall|j: int| 0 <= j < i ==> (#[trigger] out@[j])@ == entries@[j].0@,
        decreases entries.len() - i,
    {
        out.push(entries[i].0.clone());
        i = i + 1;
    }
    assert(out@.map_values(|s: String| s@) =~= entry_names(entries@));
    out
}

} // verus!
