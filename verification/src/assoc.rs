//! Association lists viewed as maps.
//!
//! The in-memory cache and the fixture transport keep their entries in a
//! `Vec`, viewed as a `Map` in which a later entry for a key overrides an
//! earlier one.

use vstd::prelude::*;

verus! {

/// The map held by a list of key/value pairs; later entries override.
pub open spec fn pairs_map(s: Seq<(String, String)>) -> Map<Seq<char>, Seq<char>>
    decreases s.len(),
{
    if s.len() == 0 {
        Map::empty()
    } else {
        pairs_map(s.drop_last()).insert(s.last().0@, s.last().1@)
    }
}

/// The map held by a list of space/field/value triples, keyed by space and
/// field; later entries override.
pub open spec fn triples_map(s: Seq<(String, String, String)>) -> Map<
    (Seq<char>, Seq<char>),
    Seq<char>,
>
    decreases s.len(),
{
    if s.len() == 0 {
        Map::empty()
    } else {
        triples_map(s.drop_last()).insert((s.last().0@, s.last().1@), s.last().2@)
    }
}

/// A key that no entry carries is not in the map.
pub proof fn lemma_pairs_map_no_key(s: Seq<(String, String)>, k: Seq<char>)
    requires
        forall|i: int| 0 <= i < s.len() ==> s[i].0@ != k,
    ensures
        !pairs_map(s).contains_key(k),
    decreases s.len(),
{
    if s.len() > 0 {
        lemma_pairs_map_no_key(s.drop_last(), k);
    }
}

/// The map carries the value of the last entry for a key.
pub proof fn lemma_pairs_map_found(s: Seq<(String, String)>, k: Seq<char>, j: int)
    requires
        0 <= j < s.len(),
        s[j].0@ == k,
        forall|i: int| j < i < s.len() ==> s[i].0@ != k,
    ensures
        pairs_map(s).contains_pair(k, s[j].1@),
    decreases s.len(),
{
    if j < s.len() - 1 {
        lemma_pairs_map_found(s.drop_last(), k, j);
    }
}

/// Appending an entry inserts its pair into the map.
pub proof fn lemma_pairs_map_push(s: Seq<(String, String)>, p: (String, String))
    ensures
        pairs_map(s.push(p)) == pairs_map(s).insert(p.0@, p.1@),
{
    assert(s.push(p).drop_last() =~= s);
    assert(s.push(p).last() == p);
}

/// A space/field key that no entry carries is not in the map.
pub proof fn lemma_triples_map_no_key(s: Seq<(String, String, String)>, k: (Seq<char>, Seq<char>))
    requires
        forall|i: int| 0 <= i < s.len() ==> (s[i].0@, s[i].1@) != k,
    ensures
        !triples_map(s).contains_key(k),
    decreases s.len(),
{
    if s.len() > 0 {
        lemma_triples_map_no_key(s.drop_last(), k);
    }
}

/// The map carries the value of the last entry for a space/field key.
pub proof fn lemma_triples_map_found(
    s: Seq<(String, String, String)>,
    k: (Seq<char>, Seq<char>),
    j: int,
)
    requires
        0 <= j < s.len(),
        (s[j].0@, s[j].1@) == k,
        forall|i: int| j < i < s.len() ==> (s[i].0@, s[i].1@) != k,
    ensures
        triples_map(s).contains_pair(k, s[j].2@),
    decreases s.len(),
{
    if j < s.len() - 1 {
        lemma_triples_map_found(s.drop_last(), k, j);
    }
}

/// Appending an entry inserts its triple into the map.
pub proof fn lemma_triples_map_push(s: Seq<(String, String, String)>, p: (String, String, String))
    ensures
        triples_map(s.push(p)) == triples_map(s).insert((p.0@, p.1@), p.2@),
{
    assert(s.push(p).drop_last() =~= s);
    assert(s.push(p).last() == p);
}

/// Looks a key up, returning exactly the map's entry for it.
pub fn lookup(entries: &Vec<(String, String)>, key: &str) -> (r: Option<String>)
    ensures
        r is Some <==> pairs_map(entries@).contains_key(key@),
        r matches Some(v) ==> pairs_map(entries@).contains_pair(key@, v@),
{
    let kq: String = key.to_owned();
    let mut j: usize = entries.len();
    while j > 0
        invariant
            kq@ == key@,
            j <= entries@.len(),
            forall|i: int| j <= i < entries@.len() ==> entries@[i].0@ != key@,
        decreases j,
    {
        j = j - 1;
        if entries[j].0 == kq {
            proof {
                lemma_pairs_map_found(entries@, key@, j as int);
            }
            return Some(entries[j].1.clone());
        }
    }
    proof {
        lemma_pairs_map_no_key(entries@, key@);
    }
    None
}

/// Looks a space/field key up, returning exactly the map's entry for it.
pub fn lookup2(entries: &Vec<(String, String, String)>, space: &str, field: &str) -> (r: Option<
    String,
>)
    ensures
        r is Some <==> triples_map(entries@).contains_key((space@, field@)),
        r matches Some(v) ==> triples_map(entries@).contains_pair((space@, field@), v@),
{
    let sq: String = space.to_owned();
    let fq: String = field.to_owned();
    let mut j: usize = entries.len();
    while j > 0
        invariant
            sq@ == space@,
            fq@ == field@,
            j <= entries@.len(),
            forall|i: int|
                j <= i < entries@.len() ==> (entries@[i].0@, entries@[i].1@) != (space@, field@),
        decreases j,
    {
        j = j - 1;
        if entries[j].0 == sq && entries[j].1 == fq {
            proof {
                lemma_triples_map_found(entries@, (space@, field@), j as int);
            }
            return Some(entries[j].2.clone());
        }
    }
    proof {
        lemma_triples_map_no_key(entries@, (space@, field@));
    }
    None
}

} // verus!
