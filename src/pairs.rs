//! Lists of named values that stand for maps keyed by name: each name occurs
//! once, and a later value for a name replaces the earlier one.
use vstd::prelude::*;

verus! {

/// The map that a list of named values stands for; a later pair for a name
/// wins over an earlier one.
pub open spec fn to_map<V>(s: Seq<(Seq<char>, V)>) -> Map<Seq<char>, V>
    decreases s.len(),
{
    if s.len() == 0 {
        Map::empty()
    } else {
        to_map(s.drop_last()).insert(s.last().0, s.last().1)
    }
}

/// No name occurs twice in the list.
pub open spec fn keys_distinct<V>(s: Seq<(Seq<char>, V)>) -> bool {
    forall|i: int, j: int| 0 <= i < j < s.len() ==> s[i].0 != s[j].0
}

/// The list with each name and value replaced by its view.
pub open spec fn pairs_view<V: View>(s: Seq<(String, V)>) -> Seq<(Seq<char>, V::V)> {
    s.map_values(|p: (String, V)| (p.0@, p.1@))
}

/// Every name of the list is a key of its map.
pub proof fn lemma_to_map_keys<V>(s: Seq<(Seq<char>, V)>)
    ensures
        forall|i: int| 0 <= i < s.len() ==> to_map(s).contains_key(#[trigger] s[i].0),
        forall|k: Seq<char>|
            to_map(s).contains_key(k) ==> exists|i: int| 0 <= i < s.len() && s[i].0 == k,
    decreases s.len(),
{
    if s.len() > 0 {
        let t = s.drop_last();
        lemma_to_map_keys(t);
        assert forall|i: int| 0 <= i < s.len() implies to_map(s).contains_key(#[trigger] s[i].0) by {
            if i < s.len() - 1 {
                assert(t[i] == s[i]);
            }
        }
        assert forall|k: Seq<char>| to_map(s).contains_key(k) implies exists|i: int|
            0 <= i < s.len() && s[i].0 == k by {
            if k != s.last().0 {
                assert(to_map(s) == to_map(t).insert(s.last().0, s.last().1));
                assert(to_map(t).contains_key(k));
                let i = choose|i: int| 0 <= i < t.len() && t[i].0 == k;
                assert(t[i] == s[i]);
            } else {
                assert(s[s.len() - 1].0 == k);
            }
        }
    }
}

/// The value of a name in the map is the one of its last pair.
pub proof fn lemma_to_map_last<V>(s: Seq<(Seq<char>, V)>, i: int)
    requires
        0 <= i < s.len(),
        forall|j: int| i < j < s.len() ==> s[j].0 != s[i].0,
    ensures
        to_map(s).contains_key(s[i].0),
        to_map(s)[s[i].0] == s[i].1,
    decreases s.len(),
{
    if i < s.len() - 1 {
        let t = s.drop_last();
        assert(t[i] == s[i]);
        assert forall|j: int| i < j < t.len() implies t[j].0 != t[i].0 by {
            assert(t[j] == s[j]);
        }
        lemma_to_map_last(t, i);
        assert(s.last() == s[s.len() - 1]);
    }
}

/// Replacing the value of a name that occurs once updates the map at that
/// name only.
pub proof fn lemma_to_map_update<V>(s: Seq<(Seq<char>, V)>, j: int, v: V)
    requires
        keys_distinct(s),
        0 <= j < s.len(),
    ensures
        to_map(s.update(j, (s[j].0, v))) == to_map(s).insert(s[j].0, v),
    decreases s.len(),
{
    let k = s[j].0;
    let t = s.update(j, (k, v));
    if j == s.len() - 1 {
        assert(t.drop_last() =~= s.drop_last());
        assert(to_map(t) =~= to_map(s).insert(k, v));
    } else {
        assert(t.drop_last() =~= s.drop_last().update(j, (k, v)));
        lemma_to_map_update(s.drop_last(), j, v);
        assert(s.last().0 != k);
        assert(to_map(t) =~= to_map(s).insert(k, v));
    }
}

/// Sets `k` to `x` in the list: replaces the value of `k` where it occurs,
/// and appends the pair where it does not.
pub fn upsert<V: View>(v: &mut Vec<(String, V)>, k: String, x: V)
    requires
        keys_distinct(pairs_view(old(v)@)),
    ensures
        keys_distinct(pairs_view(final(v)@)),
        to_map(pairs_view(final(v)@)) == to_map(pairs_view(old(v)@)).insert(k@, x@),
{
    let ghost kv = k@;
    let ghost xv = x@;
    let ghost before = pairs_view(v@);
    let mut j: usize = 0;
    while j < v.len()
        invariant
            j <= v@.len(),
            v@ == old(v)@,
            before == pairs_view(v@),
            keys_distinct(before),
            kv == k@,
            xv == x@,
            forall|i: int| 0 <= i < j ==> before[i].0 != kv,
        decreases v@.len() - j,
    {
        if v[j].0 == k {
            proof {
                lemma_to_map_update(before, j as int, xv);
            }
            v[j] = (k, x);
            assert(pairs_view(v@) =~= before.update(j as int, (kv, xv)));
            return;
        }
        j = j + 1;
    }
    v.push((k, x));
    assert(pairs_view(v@) =~= before.push((kv, xv)));
    assert(pairs_view(v@).drop_last() =~= before);
}

/// The list with one pair per name, standing for the same map as `src`.
pub fn collect_pairs<V: View>(src: Vec<(String, V)>) -> (r: Vec<(String, V)>)
    ensures
        keys_distinct(pairs_view(r@)),
        to_map(pairs_view(r@)) == to_map(pairs_view(src@)),
{
    let ghost whole = pairs_view(src@);
    let mut out: Vec<(String, V)> = Vec::new();
    assert(pairs_view(src@).subrange(0, 0) =~= Seq::<(Seq<char>, V::V)>::empty());
    for p in it: src
        invariant
            it.seq() == src@,
            whole == pairs_view(src@),
            keys_distinct(pairs_view(out@)),
            to_map(pairs_view(out@)) == to_map(whole.subrange(0, it.index() as int)),
    {
        let ghost i = it.index() as int;
        let (k, x) = p;
        proof {
            assert(whole[i] == (k@, x@));
            assert(whole.subrange(0, i + 1).drop_last() =~= whole.subrange(0, i));
        }
        upsert(&mut out, k, x);
    }
    assert(whole.subrange(0, whole.len() as int) =~= whole);
    out
}

} // verus!
