//! Named records, and the mapping by name that a sequence of them gives.

use vstd::prelude::*;
use vstd::hash_map::StringHashMap;

verus! {

/// A record that carries a name.
pub trait TomlNamedElement {
    /// The text of the record's name.
    spec fn name_text(&self) -> Seq<char>;

    fn name(&self) -> (r: &String)
        ensures
            r@ == self.name_text(),
    ;
}

/// The names of a sequence of records, in order.
pub open spec fn names_of<T: TomlNamedElement>(records: Seq<T>) -> Seq<Seq<char>> {
    records.map_values(|e: T| e.name_text())
}

/// The mapping that `records` give when `names[i]` is the name of
/// `records[i]`: each record is entered under its name, from the first to the
/// last, so that of two records with one name the later stays.
pub open spec fn keyed<T>(names: Seq<Seq<char>>, records: Seq<T>) -> Map<Seq<char>, T>
    recommends
        names.len() == records.len(),
    decreases records.len(),
{
    if records.len() == 0 {
        Map::empty()
    } else {
        keyed(names.drop_last(), records.drop_last()).insert(names.last(), records.last())
    }
}

/// The keys of the mapping are the names of the records, no more and no less.
pub proof fn lemma_keys_are_names<T>(names: Seq<Seq<char>>, records: Seq<T>)
    requires
        names.len() == records.len(),
    ensures
        keyed(names, records).dom() == names.to_set(),
        keyed(names, records).dom().finite(),
    decreases records.len(),
{
    if records.len() == 0 {
        assert(keyed(names, records).dom() =~= names.to_set());
    } else {
        lemma_keys_are_names(names.drop_last(), records.drop_last());
        let rest = names.drop_last();
        assert forall|k: Seq<char>| names.to_set().contains(k) <==> (rest.to_set().contains(k) || k
            == names.last()) by {
            if names.contains(k) {
                let i = choose|i: int| 0 <= i < names.len() && names[i] == k;
                if i < names.len() - 1 {
                    assert(rest[i] == k);
                }
            }
            if rest.contains(k) {
                let i = choose|i: int| 0 <= i < rest.len() && rest[i] == k;
                assert(names[i] == k);
            }
            assert(names[names.len() - 1] == names.last());
        }
        assert(keyed(names, records).dom() =~= names.to_set());
    }
}

/// Every record of the sequence is found again: its name is a key of the mapping.
pub proof fn lemma_every_name_is_a_key<T>(names: Seq<Seq<char>>, records: Seq<T>, i: int)
    requires
        names.len() == records.len(),
        0 <= i < records.len(),
    ensures
        keyed(names, records).contains_key(names[i]),
{
    lemma_keys_are_names(names, records);
    assert(names.contains(names[i]));
}

/// Of the records with one name the last stays: the mapping holds, under a
/// name, the whole record that came last with it, and nothing of an earlier one.
pub proof fn lemma_last_record_stays<T>(names: Seq<Seq<char>>, records: Seq<T>, i: int)
    requires
        names.len() == records.len(),
        0 <= i < records.len(),
        forall|j: int| i < j < records.len() ==> names[j] != names[i],
    ensures
        keyed(names, records).contains_key(names[i]),
        keyed(names, records)[names[i]] == records[i],
    decreases records.len(),
{
    if i < records.len() - 1 {
        assert(names.last() != names[i]);
        lemma_last_record_stays(names.drop_last(), records.drop_last(), i);
    }
}

/// Builds the mapping from name to record. A later record replaces an earlier
/// one of the same name.
pub fn map_of_keyed_elements<T: TomlNamedElement>(elements: Vec<T>) -> (r: StringHashMap<T>)
    ensures
        r@ == keyed(names_of(elements@), elements@),
        forall|i: int|
            0 <= i < elements@.len() ==> r@.contains_key(#[trigger] elements@[i].name_text()),
{
    let ghost all = elements@;
    proof {
        assert forall|i: int| 0 <= i < all.len() implies keyed(names_of(all), all).contains_key(
            #[trigger] all[i].name_text(),
        ) by {
            lemma_every_name_is_a_key(names_of(all), all, i);
        }
    }
    let mut map: StringHashMap<T> = StringHashMap::with_capacity(elements.len());
    for element in iter: elements
        invariant
            iter.seq() == all,
            map@ == keyed(
                names_of(all.subrange(0, iter.index() as int)),
                all.subrange(0, iter.index() as int),
            ),
    {
        let ghost done = all.subrange(0, iter.index() as int);
        let ghost next = all.subrange(0, iter.index() + 1);
        let name = element.name().clone();
        proof {
            assert(next.drop_last() =~= done);
            assert(names_of(next).drop_last() =~= names_of(done));
        }
        map.insert(name, element);
    }
    assert(all.subrange(0, all.len() as int) =~= all);
    map
}

} // verus!
