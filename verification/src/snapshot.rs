//! Snapshots of the store: the set of paths seen at one moment, and the
//! difference between two of them.

use crate::store_path::StorePath;
use vstd::hash_set::StringHashSet;
use vstd::prelude::*;

verus! {

/// The canonical names of a sequence of store paths, in the same order.
pub open spec fn names(paths: Seq<StorePath>) -> Seq<Seq<char>> {
    paths.map_values(|path: StorePath| path@)
}

/// The names of `listed` that are not in `known`, each once, in the order in
/// which `listed` first mentions them.
pub open spec fn fresh(known: Set<Seq<char>>, listed: Seq<Seq<char>>) -> Seq<Seq<char>>
    decreases listed.len(),
{
    if listed.len() == 0 {
        Seq::empty()
    } else {
        let earlier = listed.drop_last();
        let name = listed.last();
        if known.contains(name) || earlier.contains(name) {
            fresh(known, earlier)
        } else {
            fresh(known, earlier).push(name)
        }
    }
}

/// A name is in `fresh(known, listed)` exactly when `listed` has it and
/// `known` does not.
pub proof fn lemma_fresh_contains(known: Set<Seq<char>>, listed: Seq<Seq<char>>, name: Seq<char>)
    ensures
        fresh(known, listed).contains(name) <==> listed.contains(name) && !known.contains(name),
    decreases listed.len(),
{
    if listed.len() > 0 {
        let earlier = listed.drop_last();
        let last = listed.last();
        lemma_fresh_contains(known, earlier, name);
        assert(listed.contains(name) <==> earlier.contains(name) || name == last) by {
            if listed.contains(name) {
                let i = choose|i: int| 0 <= i < listed.len() && listed[i] == name;
                if i < listed.len() - 1 {
                    assert(earlier[i] == name);
                }
            }
        }
        if !(known.contains(last) || earlier.contains(last)) {
            let kept = fresh(known, earlier);
            assert(kept.push(last).contains(name) <==> kept.contains(name) || name == last) by {
                if kept.contains(name) {
                    let i = choose|i: int| 0 <= i < kept.len() && kept[i] == name;
                    assert(kept.push(last)[i] == name);
                }
                if name == last {
                    assert(kept.push(last)[kept.len() as int] == name);
                }
            }
        }
    }
}

/// `fresh(known, listed)` mentions no name twice.
pub proof fn lemma_fresh_no_duplicates(known: Set<Seq<char>>, listed: Seq<Seq<char>>)
    ensures
        fresh(known, listed).no_duplicates(),
    decreases listed.len(),
{
    if listed.len() > 0 {
        let earlier = listed.drop_last();
        let last = listed.last();
        lemma_fresh_no_duplicates(known, earlier);
        lemma_fresh_contains(known, earlier, last);
    }
}

/// As a set, `fresh(known, listed)` is what `listed` holds without `known`,
/// and it has as many entries as that set has elements.
pub proof fn lemma_fresh_is_difference(known: Set<Seq<char>>, listed: Seq<Seq<char>>)
    ensures
        fresh(known, listed).to_set() == listed.to_set().difference(known),
        fresh(known, listed).len() == listed.to_set().difference(known).len(),
{
    let kept = fresh(known, listed);
    assert forall|name: Seq<char>|
        kept.to_set().contains(name) <==> listed.to_set().difference(known).contains(
            name,
        ) by {
        lemma_fresh_contains(known, listed, name);
    }
    lemma_fresh_no_duplicates(known, listed);
    kept.unique_seq_to_set();
}

/// A list without repetitions is its own list of first mentions.
pub proof fn lemma_fresh_of_distinct(listed: Seq<Seq<char>>)
    requires
        listed.no_duplicates(),
    ensures
        fresh(Set::empty(), listed) == listed,
    decreases listed.len(),
{
    if listed.len() > 0 {
        let earlier = listed.drop_last();
        lemma_fresh_of_distinct(earlier);
    }
}

/// Leaving out repetitions first changes nothing: the names of `listed` that
/// `known` lacks come out the same.
pub proof fn lemma_fresh_of_fresh(known: Set<Seq<char>>, listed: Seq<Seq<char>>)
    ensures
        fresh(known, fresh(Set::empty(), listed)) == fresh(known, listed),
    decreases listed.len(),
{
    if listed.len() > 0 {
        let earlier = listed.drop_last();
        let last = listed.last();
        let once = fresh(Set::empty(), earlier);
        lemma_fresh_of_fresh(known, earlier);
        lemma_fresh_contains(Set::empty(), earlier, last);
        if !earlier.contains(last) {
            assert(once.push(last).drop_last() =~= once);
        }
    }
}

/// The set of store paths seen at one moment.
///
/// The paths are kept in the order in which they were first listed; that
/// order is no part of the snapshot's value, which is the set of their names.
pub struct PathSnapshot {
    paths: Vec<StorePath>,
    index: StringHashSet,
}

impl View for PathSnapshot {
    type V = Set<Seq<char>>;

    closed spec fn view(&self) -> Set<Seq<char>> {
        names(self.paths@).to_set()
    }
}

impl PathSnapshot {
    #[verifier::type_invariant]
    spec fn well_formed(&self) -> bool {
        &&& names(self.paths@).no_duplicates()
        &&& self.index@ == names(self.paths@).to_set()
    }

    /// The snapshot's names, each once, in the order of first listing.
    pub closed spec fn ordered(&self) -> Seq<Seq<char>> {
        names(self.paths@)
    }

    /// The snapshot of an empty store.
    pub fn new() -> (snapshot: PathSnapshot)
        ensures
            snapshot@ == Set::<Seq<char>>::empty(),
            snapshot.ordered() == Seq::<Seq<char>>::empty(),
    {
        let paths: Vec<StorePath> = Vec::new();
        let index = StringHashSet::new();
        assert(names(paths@).to_set() =~= Set::<Seq<char>>::empty());
        PathSnapshot { paths, index }
    }

    /// The snapshot of a store that lists `paths`. A path listed twice counts
    /// once.
    pub fn from_paths(paths: Vec<StorePath>) -> (snapshot: PathSnapshot)
        ensures
            snapshot@ == names(paths@).to_set(),
            snapshot.ordered() == fresh(Set::empty(), names(paths@)),
    {
        let known = StringHashSet::new();
        let (kept, index) = first_mentions(&known, &paths);
        proof {
            lemma_fresh_is_difference(Set::empty(), names(paths@));
            lemma_fresh_no_duplicates(Set::empty(), names(paths@));
            assert(names(paths@).to_set().difference(Set::empty()) =~= names(paths@).to_set());
        }
        PathSnapshot { paths: kept, index }
    }

    /// The number of paths in the snapshot.
    pub fn len(&self) -> (count: usize)
        ensures
            count == self@.len(),
            count == self.ordered().len(),
    {
        proof {
            use_type_invariant(self);
            names(self.paths@).unique_seq_to_set();
        }
        self.paths.len()
    }

    /// Whether the snapshot holds no path.
    pub fn is_empty(&self) -> (empty: bool)
        ensures
            empty == (self@.len() == 0),
    {
        self.len() == 0
    }

    /// Whether `path` is in the snapshot.
    pub fn contains(&self, path: &StorePath) -> (found: bool)
        ensures
            found == self@.contains(path@),
    {
        proof {
            use_type_invariant(self);
        }
        self.index.contains(path.as_str())
    }

    /// The snapshot's paths, each once, in the order of first listing.
    pub fn paths(&self) -> (paths: &Vec<StorePath>)
        ensures
            names(paths@) == self.ordered(),
            names(paths@).no_duplicates(),
            names(paths@).to_set() == self@,
    {
        proof {
            use_type_invariant(self);
        }
        &self.paths
    }

    /// The paths of this snapshot that `original` does not hold, each once,
    /// in this snapshot's order.
    pub fn difference(&self, original: &PathSnapshot) -> (new_paths: Vec<StorePath>)
        ensures
            names(new_paths@) == fresh(original@, self.ordered()),
            names(new_paths@).to_set() == self@.difference(original@),
            names(new_paths@).no_duplicates(),
            new_paths@.len() == self@.difference(original@).len(),
            self@.difference(original@).disjoint(original@),
            self@.difference(original@).subset_of(self@),
    {
        proof {
            use_type_invariant(self);
            use_type_invariant(original);
            lemma_fresh_is_difference(original@, names(self.paths@));
            lemma_fresh_no_duplicates(original@, names(self.paths@));
        }
        let (kept, _) = first_mentions(&original.index, &self.paths);
        kept
    }
}

impl Clone for PathSnapshot {
    fn clone(&self) -> (copy: PathSnapshot)
        ensures
            copy@ == self@,
            copy.ordered() == self.ordered(),
    {
        proof {
            use_type_invariant(self);
            lemma_fresh_of_distinct(names(self.paths@));
        }
        let known = StringHashSet::new();
        let (kept, index) = first_mentions(&known, &self.paths);
        PathSnapshot { paths: kept, index }
    }
}

/// Walks `listed` once and keeps the first mention of every path that
/// `known` lacks; also gives the set of all names that `listed` mentions.
fn first_mentions(known: &StringHashSet, listed: &Vec<StorePath>) -> (out: (
    Vec<StorePath>,
    StringHashSet,
))
    ensures
        names(out.0@) == fresh(known@, names(listed@)),
        out.1@ == names(listed@).to_set(),
{
    let mut kept: Vec<StorePath> = Vec::new();
    let mut seen = StringHashSet::new();
    let mut i: usize = 0;
    while i < listed.len()
        invariant
            i <= listed.len(),
            names(kept@) == fresh(known@, names(listed@.take(i as int))),
            seen@ == names(listed@.take(i as int)).to_set(),
        decreases listed.len() - i,
    {
        let path = &listed[i];
        let ghost earlier = names(listed@.take(i as int));
        let ghost upto = names(listed@.take(i + 1));
        proof {
            assert(upto.drop_last() =~= earlier);
            assert(upto.to_set() =~= earlier.to_set().insert(path@)) by {
                assert forall|name: Seq<char>|
                    upto.to_set().contains(name) <==> earlier.to_set().insert(path@).contains(
                        name,
                    ) by {
                    if upto.contains(name) {
                        let j = choose|j: int| 0 <= j < upto.len() && upto[j] == name;
                        if j < i {
                            assert(earlier[j] == name);
                        }
                    }
                    if name == path@ {
                        assert(upto[i as int] == name);
                    }
                }
            }
        }
        let first = seen.insert(path.clone().into_string());
        if first && !known.contains(path.as_str()) {
            kept.push(path.clone());
        }
        i += 1;
    }
    proof {
        assert(listed@.take(listed.len() as int) =~= listed@);
    }
    (kept, seen)
}

} // verus!
