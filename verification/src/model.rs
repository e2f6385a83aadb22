//! Mathematical model of one keyed collection: the sequence of
//! (identifier, value) pairs a collection stores, and the finite map it
//! induces. A later entry for an identifier shadows an earlier one, so a
//! collection whose identifiers are pairwise distinct is exactly a finite map.

use vstd::prelude::*;

verus! {

/// The finite map induced by a sequence of (identifier, value) entries,
/// later entries shadowing earlier ones.
pub open spec fn map_of<V>(entries: Seq<(Seq<char>, V)>) -> Map<Seq<char>, V>
    decreases entries.len(),
{
    if entries.len() == 0 {
        Map::empty()
    } else {
        map_of(entries.drop_last()).insert(entries.last().0, entries.last().1)
    }
}

/// No two entries carry the same identifier.
pub open spec fn keys_unique<V>(entries: Seq<(Seq<char>, V)>) -> bool {
    forall|i: int, j: int| 0 <= i < j < entries.len() ==> entries[i].0 != entries[j].0
}

/// An identifier is in the induced map exactly when some entry carries it.
pub proof fn lemma_map_of_contains<V>(entries: Seq<(Seq<char>, V)>, k: Seq<char>)
    ensures
        map_of(entries).contains_key(k) <==> exists|i: int|
            0 <= i < entries.len() && (#[trigger] entries[i]).0 == k,
    decreases entries.len(),
{
    if entries.len() > 0 {
        lemma_map_of_contains(entries.drop_last(), k);
        if entries.last().0 == k {
            assert(entries[entries.len() - 1].0 == k);
        } else {
            if exists|i: int| 0 <= i < entries.len() && (#[trigger] entries[i]).0 == k {
                let i = choose|i: int| 0 <= i < entries.len() && (#[trigger] entries[i]).0 == k;
                assert(entries.drop_last()[i] == entries[i]);
            }
        }
    }
}

/// With distinct identifiers, each entry is in the induced map under its own
/// identifier, unshadowed.
pub proof fn lemma_map_of_index<V>(entries: Seq<(Seq<char>, V)>, i: int)
    requires
        keys_unique(entries),
        0 <= i < entries.len(),
    ensures
        map_of(entries).contains_key(entries[i].0),
        map_of(entries)[entries[i].0] == entries[i].1,
    decreases entries.len(),
{
    if i < entries.len() - 1 {
        lemma_map_of_index(entries.drop_last(), i);
        assert(entries.drop_last()[i] == entries[i]);
    }
}

/// Replacing the entry that carries an identifier is, on the induced map,
/// an insert under that identifier.
pub proof fn lemma_map_of_update<V>(entries: Seq<(Seq<char>, V)>, i: int, v: (Seq<char>, V))
    requires
        keys_unique(entries),
        0 <= i < entries.len(),
        v.0 == entries[i].0,
    ensures
        map_of(entries.update(i, v)) == map_of(entries).insert(v.0, v.1),
    decreases entries.len(),
{
    let post = entries.update(i, v);
    if i == entries.len() - 1 {
        assert(post.drop_last() =~= entries.drop_last());
        assert(map_of(entries.drop_last()).insert(entries.last().0, entries.last().1).insert(
            v.0,
            v.1,
        ) =~= map_of(entries.drop_last()).insert(v.0, v.1));
    } else {
        lemma_map_of_update(entries.drop_last(), i, v);
        assert(post.drop_last() =~= entries.drop_last().update(i, v));
        assert(post.last() == entries.last());
        // the replaced identifier differs from the last entry's, so the two
        // inserts commute
        assert(entries.last().0 != v.0);
        assert(map_of(entries.drop_last()).insert(v.0, v.1).insert(
            entries.last().0,
            entries.last().1,
        ) =~= map_of(entries.drop_last()).insert(entries.last().0, entries.last().1).insert(
            v.0,
            v.1,
        ));
    }
}

/// Appending an entry whose identifier no entry carries is, on the induced
/// map, an insert under that identifier.
pub proof fn lemma_map_of_push<V>(entries: Seq<(Seq<char>, V)>, v: (Seq<char>, V))
    ensures
        map_of(entries.push(v)) == map_of(entries).insert(v.0, v.1),
{
    assert(entries.push(v).drop_last() =~= entries);
}

/// Removing the entry that carries an identifier is, on the induced map,
/// a removal of that identifier.
pub proof fn lemma_map_of_remove<V>(entries: Seq<(Seq<char>, V)>, i: int)
    requires
        keys_unique(entries),
        0 <= i < entries.len(),
    ensures
        map_of(entries.remove(i)) == map_of(entries).remove(entries[i].0),
    decreases entries.len(),
{
    let post = entries.remove(i);
    if i == entries.len() - 1 {
        assert(post =~= entries.drop_last());
        lemma_map_of_contains(entries.drop_last(), entries[i].0);
        assert forall|j: int| 0 <= j < entries.drop_last().len() implies (#[trigger] entries.drop_last()[j]).0
            != entries[i].0 by {
            assert(entries.drop_last()[j] == entries[j]);
        }
        assert(map_of(entries.drop_last()).insert(entries.last().0, entries.last().1).remove(
            entries[i].0,
        ) =~= map_of(entries.drop_last()));
    } else {
        lemma_map_of_remove(entries.drop_last(), i);
        assert(post.drop_last() =~= entries.drop_last().remove(i));
        assert(post.last() == entries.last());
        assert(entries.last().0 != entries[i].0);
        assert(map_of(entries.drop_last()).remove(entries[i].0).insert(
            entries.last().0,
            entries.last().1,
        ) =~= map_of(entries.drop_last()).insert(entries.last().0, entries.last().1).remove(
            entries[i].0,
        ));
    }
}

/// With distinct identifiers, the induced map is finite and has exactly one
/// key per entry.
pub proof fn lemma_map_of_len<V>(entries: Seq<(Seq<char>, V)>)
    requires
        keys_unique(entries),
    ensures
        map_of(entries).dom().finite(),
        map_of(entries).dom().len() == entries.len(),
    decreases entries.len(),
{
    if entries.len() == 0 {
        assert(map_of(entries).dom() =~= Set::<Seq<char>>::empty());
    } else {
        lemma_map_of_len(entries.drop_last());
        lemma_map_of_contains(entries.drop_last(), entries.last().0);
        assert forall|j: int| 0 <= j < entries.drop_last().len() implies (#[trigger] entries.drop_last()[j]).0
            != entries.last().0 by {
            assert(entries.drop_last()[j] == entries[j]);
        }
        assert(!map_of(entries.drop_last()).contains_key(entries.last().0));
    }
}

} // verus!
