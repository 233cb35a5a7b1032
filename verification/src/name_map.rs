use vstd::prelude::*;

verus! {

/// The directory that a sequence of registrations builds: entries are
/// replayed in order, keyed by their name, and a later entry with the same
/// name replaces an earlier one.
pub open spec fn name_map<P>(entries: Seq<P>, name_of: spec_fn(P) -> Seq<char>) -> Map<
    Seq<char>,
    P,
>
    decreases entries.len(),
{
    if entries.len() == 0 {
        Map::empty()
    } else {
        name_map(entries.drop_last(), name_of).insert(
            name_of(entries.last()),
            entries.last(),
        )
    }
}

/// The names of the entries are pairwise distinct.
pub open spec fn distinct_names<P>(entries: Seq<P>, name_of: spec_fn(P) -> Seq<char>) -> bool {
    forall|i: int, j: int|
        0 <= i < j < entries.len() ==> name_of(entries[i]) != name_of(entries[j])
}

/// A name is in the directory exactly when some entry carries it.
pub proof fn lemma_name_map_domain<P>(entries: Seq<P>, name_of: spec_fn(P) -> Seq<char>, n: Seq<char>)
    ensures
        name_map(entries, name_of).contains_key(n) <==> exists|i: int|
            0 <= i < entries.len() && name_of(entries[i]) == n,
    decreases entries.len(),
{
    if entries.len() > 0 {
        lemma_name_map_domain(entries.drop_last(), name_of, n);
        if name_of(entries.last()) == n {
            assert(name_of(entries[entries.len() - 1]) == n);
        } else if name_map(entries, name_of).contains_key(n) {
            let i = choose|i: int|
                0 <= i < entries.drop_last().len() && name_of(entries.drop_last()[i]) == n;
            assert(name_of(entries[i]) == n);
        } else if exists|i: int| 0 <= i < entries.len() && name_of(entries[i]) == n {
            let i = choose|i: int| 0 <= i < entries.len() && name_of(entries[i]) == n;
            assert(name_of(entries.drop_last()[i]) == n);
        }
    }
}

/// With distinct names, the directory maps each entry's name back to that entry.
pub proof fn lemma_name_map_index<P>(entries: Seq<P>, name_of: spec_fn(P) -> Seq<char>, i: int)
    requires
        distinct_names(entries, name_of),
        0 <= i < entries.len(),
    ensures
        name_map(entries, name_of).contains_key(name_of(entries[i])),
        name_map(entries, name_of)[name_of(entries[i])] == entries[i],
    decreases entries.len(),
{
    if i == entries.len() - 1 {
        assert(entries.last() == entries[i]);
    } else {
        assert(distinct_names(entries.drop_last(), name_of));
        lemma_name_map_index(entries.drop_last(), name_of, i);
        assert(entries.drop_last()[i] == entries[i]);
        assert(name_of(entries[i]) != name_of(entries.last()));
    }
}

/// Appending an entry updates the directory at that entry's name.
pub proof fn lemma_name_map_push<P>(entries: Seq<P>, name_of: spec_fn(P) -> Seq<char>, p: P)
    ensures
        name_map(entries.push(p), name_of) == name_map(entries, name_of).insert(name_of(p), p),
{
    assert(entries.push(p).drop_last() =~= entries);
    assert(entries.push(p).last() == p);
}

/// With distinct names, dropping the entry at an index removes exactly its
/// name from the directory.
pub proof fn lemma_name_map_remove<P>(entries: Seq<P>, name_of: spec_fn(P) -> Seq<char>, i: int)
    requires
        distinct_names(entries, name_of),
        0 <= i < entries.len(),
    ensures
        name_map(entries.remove(i), name_of) =~= name_map(entries, name_of).remove(
            name_of(entries[i]),
        ),
    decreases entries.len(),
{
    let n = name_of(entries[i]);
    if i == entries.len() - 1 {
        assert(entries.remove(i) =~= entries.drop_last());
        lemma_name_map_domain(entries.drop_last(), name_of, n);
        assert(forall|j: int|
            0 <= j < entries.drop_last().len() ==> name_of(entries.drop_last()[j]) == name_of(
                entries[j],
            ) && name_of(entries[j]) != n);
        assert(!name_map(entries.drop_last(), name_of).contains_key(n));
    } else {
        assert(distinct_names(entries.drop_last(), name_of));
        lemma_name_map_remove(entries.drop_last(), name_of, i);
        assert(entries.drop_last()[i] == entries[i]);
        assert(entries.remove(i).drop_last() =~= entries.drop_last().remove(i));
        assert(entries.remove(i).last() == entries.last());
        assert(name_of(entries.last()) != n);
    }
}

} // verus!
