//! Identity-keyed record storage shared by the host-side lobby and the
//! client-side local mirror: a vector of records with pairwise-distinct
//! identities, abstracted to a map from identity to position.
use vstd::prelude::*;

use crate::player::PlayerData;
use crate::Vec3Bits;

verus! {

/// No two records carry the same identity.
pub open spec fn distinct_ids(s: Seq<PlayerData>) -> bool {
    forall|i: int, j: int| 0 <= i < j < s.len() ==> s[i].id != s[j].id
}

/// The identities in storage order.
pub open spec fn ids_of(s: Seq<PlayerData>) -> Seq<u64> {
    s.map_values(|p: PlayerData| p.id)
}

/// Pairwise-distinct records carry pairwise-distinct identities and the
/// other way round.
pub proof fn lemma_distinct_ids_no_duplicates(s: Seq<PlayerData>)
    ensures
        distinct_ids(s) <==> ids_of(s).no_duplicates(),
{
    if distinct_ids(s) {
        assert forall|i: int, j: int|
            0 <= i < ids_of(s).len() && 0 <= j < ids_of(s).len() && i != j implies ids_of(s)[i]
            != ids_of(s)[j] by {
            assert(ids_of(s)[i] == s[i].id && ids_of(s)[j] == s[j].id);
        }
    }
    if ids_of(s).no_duplicates() {
        assert forall|i: int, j: int| 0 <= i < j < s.len() implies s[i].id != s[j].id by {
            assert(ids_of(s)[i] == s[i].id && ids_of(s)[j] == s[j].id);
        }
    }
}

/// The registry a record vector stands for: identity to position.
pub open spec fn map_of(s: Seq<PlayerData>) -> Map<u64, Vec3Bits>
    decreases s.len(),
{
    if s.len() == 0 {
        Map::empty()
    } else {
        map_of(s.drop_last()).insert(s.last().id, s.last().position)
    }
}

/// An identity is in the registry exactly when some record carries it.
pub proof fn lemma_map_of_dom(s: Seq<PlayerData>)
    ensures
        forall|id: u64| #[trigger] map_of(s).dom().contains(id) <==> ids_of(s).contains(id),
    decreases s.len(),
{
    if s.len() == 0 {
    } else {
        let d = s.drop_last();
        lemma_map_of_dom(d);
        assert forall|id: u64| #[trigger] map_of(s).dom().contains(id) implies ids_of(s).contains(
            id,
        ) by {
            if id == s.last().id {
                assert(ids_of(s)[s.len() - 1] == id);
            } else {
                assert(map_of(d).dom().contains(id));
                assert(ids_of(d).contains(id));
                let i = choose|i: int| 0 <= i < ids_of(d).len() && ids_of(d)[i] == id;
                assert(ids_of(s)[i] == id);
            }
        }
        assert forall|id: u64| ids_of(s).contains(id) implies #[trigger] map_of(
            s,
        ).dom().contains(id) by {
            let i = choose|i: int| 0 <= i < ids_of(s).len() && ids_of(s)[i] == id;
            if i < s.len() - 1 {
                assert(ids_of(d)[i] == id);
                assert(ids_of(d).contains(id));
                assert(map_of(d).dom().contains(id));
            }
        }
    }
}

/// Each record is in the registry, at its own position.
pub proof fn lemma_map_of_index(s: Seq<PlayerData>, i: int)
    requires
        distinct_ids(s),
        0 <= i < s.len(),
    ensures
        map_of(s).dom().contains(s[i].id),
        map_of(s)[s[i].id] == s[i].position,
    decreases s.len(),
{
    if i < s.len() - 1 {
        lemma_map_of_index(s.drop_last(), i);
    }
}

/// A registry holds as many identities as it has records.
pub proof fn lemma_map_of_len(s: Seq<PlayerData>)
    requires
        distinct_ids(s),
    ensures
        map_of(s).dom().finite(),
        map_of(s).dom().len() == s.len(),
    decreases s.len(),
{
    if s.len() == 0 {
        assert(map_of(s).dom() =~= Set::<u64>::empty());
    } else {
        let d = s.drop_last();
        lemma_map_of_len(d);
        lemma_map_of_dom(d);
        if ids_of(d).contains(s.last().id) {
            let i = choose|i: int| 0 <= i < ids_of(d).len() && ids_of(d)[i] == s.last().id;
            assert(s[i].id == s[s.len() - 1].id);
            assert(false);
        }
        assert(map_of(s).dom() =~= map_of(d).dom().insert(s.last().id));
    }
}

/// Replacing the record at `i` by one with the same identity updates that
/// identity's position and nothing else.
pub proof fn lemma_map_of_update(s: Seq<PlayerData>, i: int, p: PlayerData)
    requires
        distinct_ids(s),
        0 <= i < s.len(),
        p.id == s[i].id,
    ensures
        map_of(s.update(i, p)) == map_of(s).insert(p.id, p.position),
        distinct_ids(s.update(i, p)),
        ids_of(s.update(i, p)) == ids_of(s),
    decreases s.len(),
{
    let t = s.update(i, p);
    assert(ids_of(t) =~= ids_of(s));
    if i == s.len() - 1 {
        assert(t.drop_last() =~= s.drop_last());
        assert(map_of(t) =~= map_of(s).insert(p.id, p.position));
    } else {
        assert(t.drop_last() =~= s.drop_last().update(i, p));
        assert(t.last() == s.last());
        lemma_map_of_update(s.drop_last(), i, p);
        assert(s[i].id != s.last().id);
        assert(map_of(t) =~= map_of(s).insert(p.id, p.position));
    }
}

/// Removing the record at `i` removes exactly its identity.
pub proof fn lemma_map_of_remove(s: Seq<PlayerData>, i: int)
    requires
        distinct_ids(s),
        0 <= i < s.len(),
    ensures
        map_of(s.remove(i)) == map_of(s).remove(s[i].id),
        distinct_ids(s.remove(i)),
        !ids_of(s.remove(i)).contains(s[i].id),
    decreases s.len(),
{
    let t = s.remove(i);
    assert forall|k: int| 0 <= k < t.len() implies #[trigger] t[k] == if k < i {
        s[k]
    } else {
        s[k + 1]
    } by {}
    if ids_of(t).contains(s[i].id) {
        let k = choose|k: int| 0 <= k < ids_of(t).len() && ids_of(t)[k] == s[i].id;
        if k < i {
            assert(s[k].id == s[i].id);
        } else {
            assert(s[k + 1].id == s[i].id);
        }
        assert(false);
    }
    if i == s.len() - 1 {
        assert(t =~= s.drop_last());
        lemma_map_of_dom(t);
        assert(map_of(t) =~= map_of(s).remove(s[i].id));
    } else {
        assert(t.drop_last() =~= s.drop_last().remove(i));
        assert(t.last() == s.last());
        lemma_map_of_remove(s.drop_last(), i);
        assert(s[i].id != s.last().id);
        assert(map_of(t) =~= map_of(s).remove(s[i].id));
    }
}

/// Appending a record with a fresh identity adds exactly that identity.
pub proof fn lemma_map_of_push(s: Seq<PlayerData>, p: PlayerData)
    requires
        distinct_ids(s),
        !ids_of(s).contains(p.id),
    ensures
        map_of(s.push(p)) == map_of(s).insert(p.id, p.position),
        distinct_ids(s.push(p)),
        ids_of(s.push(p)) == ids_of(s).push(p.id),
{
    let t = s.push(p);
    assert(t.drop_last() =~= s);
    assert(ids_of(t) =~= ids_of(s).push(p.id));
    assert forall|i: int, j: int| 0 <= i < j < t.len() implies t[i].id != t[j].id by {
        if j == s.len() {
            if s[i].id == p.id {
                assert(ids_of(s)[i] == p.id);
            }
        }
    }
}

/// The position of the record that carries `id`, if any.
pub fn find_index(v: &Vec<PlayerData>, id: u64) -> (r: Option<usize>)
    ensures
        match r {
            Some(i) => i < v@.len() && v@[i as int].id == id,
            None => !ids_of(v@).contains(id),
        },
{
    let n = v.len();
    for i in 0..n
        invariant
            n == v@.len(),
            forall|j: int| 0 <= j < i ==> v@[j].id != id,
    {
        if v[i].id == id {
            return Some(i);
        }
    }
    proof {
        if ids_of(v@).contains(id) {
            let j = choose|j: int| 0 <= j < ids_of(v@).len() && ids_of(v@)[j] == id;
            assert(v@[j].id == id);
        }
    }
    None
}

} // verus!
