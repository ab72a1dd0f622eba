//! Association maps: ordered name/value entry lists whose mathematical view
//! is a finite map, with the key-union merge the expression assembler uses.

use vstd::prelude::*;

verus! {

/// The finite map described by an association list; a later entry overrides
/// an earlier one with the same key.
pub open spec fn map_of<V: View>(entries: Seq<(String, V)>) -> Map<Seq<char>, V::V>
    decreases entries.len(),
{
    if entries.len() == 0 {
        Map::empty()
    } else {
        map_of(entries.drop_last()).insert(entries.last().0@, entries.last().1@)
    }
}

/// Concatenating two association lists merges their maps, the right one
/// winning on a shared key.
pub proof fn lemma_map_of_concat<V: View>(a: Seq<(String, V)>, b: Seq<(String, V)>)
    ensures
        map_of(a + b) == map_of(a).union_prefer_right(map_of(b)),
    decreases b.len(),
{
    if b.len() == 0 {
        assert(a + b =~= a);
        assert(map_of(a).union_prefer_right(map_of(b)) =~= map_of(a));
    } else {
        lemma_map_of_concat(a, b.drop_last());
        assert((a + b).drop_last() =~= a + b.drop_last());
        assert((a + b).last() == b.last());
        assert(map_of(a).union_prefer_right(map_of(b.drop_last())).insert(
            b.last().0@,
            b.last().1@,
        ) =~= map_of(a).union_prefer_right(map_of(b)));
    }
}

/// A substitution map, kept as an ordered list of entries; its view is the
/// finite map the entries describe, where a later entry wins.
pub struct AssocMap<V> {
    entries: Vec<(String, V)>,
}

impl<V: View> View for AssocMap<V> {
    type V = Map<Seq<char>, V::V>;

    closed spec fn view(&self) -> Map<Seq<char>, V::V> {
        map_of(self.entries@)
    }
}

impl<V: View> AssocMap<V> {
    /// An empty map.
    pub fn new() -> (r: Self)
        ensures
            r@ == Map::<Seq<char>, V::V>::empty(),
    {
        AssocMap { entries: Vec::new() }
    }

    /// Adds `key -> value`, overriding any earlier entry for `key`.
    pub fn insert(&mut self, key: String, value: V)
        ensures
            final(self)@ == old(self)@.insert(key@, value@),
    {
        let ghost before = self.entries@;
        self.entries.push((key, value));
        proof {
            assert(self.entries@.drop_last() =~= before);
        }
    }

    /// Merges `other` in by key union; on a shared key the entry from
    /// `other` wins.
    pub fn merge_from(&mut self, other: AssocMap<V>)
        ensures
            final(self)@ == old(self)@.union_prefer_right(other@),
    {
        let mut tail = other;
        let ghost a = self.entries@;
        let ghost b = tail.entries@;
        self.entries.append(&mut tail.entries);
        proof {
            lemma_map_of_concat(a, b);
        }
    }

    /// Looks `key` up.
    pub fn get(&self, key: &String) -> (r: Option<&V>)
        ensures
            match r {
                Some(v) => self@.contains_key(key@) && v@ == self@[key@],
                None => !self@.contains_key(key@),
            },
    {
        let mut i = self.entries.len();
        proof {
            assert(self.entries@.take(i as int) =~= self.entries@);
        }
        while i > 0
            invariant
                i <= self.entries.len(),
                self@.contains_key(key@) == map_of(self.entries@.take(i as int)).contains_key(
                    key@,
                ),
                self@.contains_key(key@) ==> map_of(self.entries@.take(i as int))[key@]
                    == self@[key@],
            decreases i,
        {
            i = i - 1;
            proof {
                assert(self.entries@.take(i as int + 1).drop_last() =~= self.entries@.take(
                    i as int,
                ));
                assert(self.entries@.take(i as int + 1).last() == self.entries@[i as int]);
            }
            let entry: &(String, V) = &self.entries[i];
            if entry.0 == *key {
                return Some(&entry.1);
            }
        }
        proof {
            assert(self.entries@.take(0) =~= Seq::<(String, V)>::empty());
        }
        None
    }

    /// True exactly when the map holds no entry.
    pub fn is_empty(&self) -> (r: bool)
        ensures
            r <==> self@ == Map::<Seq<char>, V::V>::empty(),
    {
        let r = self.entries.is_empty();
        proof {
            if self.entries@.len() > 0 {
                assert(self@.contains_key(self.entries@.last().0@));
            }
        }
        r
    }
}

/// Law: merging two maps with disjoint key sets is commutative and lossless:
/// the merged map's key set is the union of the inputs' key sets, and every
/// key keeps the value its own input map gave it.
pub proof fn lemma_merge_disjoint_maps<V>(a: Map<Seq<char>, V>, b: Map<Seq<char>, V>)
    requires
        a.dom().disjoint(b.dom()),
    ensures
        a.union_prefer_right(b) == b.union_prefer_right(a),
        a.union_prefer_right(b).dom() == a.dom().union(b.dom()),
        forall|k: Seq<char>| a.dom().contains(k) ==> a.union_prefer_right(b)[k] == a[k],
        forall|k: Seq<char>| b.dom().contains(k) ==> a.union_prefer_right(b)[k] == b[k],
{
    assert(a.union_prefer_right(b) =~= b.union_prefer_right(a));
    assert(a.union_prefer_right(b).dom() =~= a.dom().union(b.dom()));
}

} // verus!
