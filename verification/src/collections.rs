//! Handing out what a record holds.

use std::collections::HashMap;
use vstd::prelude::*;
use vstd::std_specs::hash::obeys_key_model;
use vstd::std_specs::hash::spec_keys_iter;
use vstd::std_specs::hash::spec_values_iter;
use vstd::std_specs::iter::IteratorSpec;

verus! {

/// Whether `values` holds the values of `record`: one for each key, and
/// together exactly the values that occur in the record.
pub open spec fn holds_values_of<K, V>(values: Seq<&V>, record: Map<K, V>) -> bool {
    &&& values.len() == record.dom().len()
    &&& values.unref().to_set() == record.values()
}

/// Whether `keys` holds the keys of `record`: each of them once.
pub open spec fn holds_keys_of<K, V>(keys: Seq<K>, record: Map<K, V>) -> bool {
    &&& keys.len() == record.dom().len()
    &&& keys.no_duplicates()
    &&& keys.to_set() == record.dom()
}

/// A record that can hand out its values.
pub trait RecordExt<K, V> {
    /// What the record holds, as a map.
    spec fn entries(&self) -> Map<K, V>;

    /// Whether the record's keys behave as keys must: equal keys hash alike.
    spec fn keys_behave(&self) -> bool;

    /// All values of the record.
    fn values(&self) -> (values: Vec<&V>)
        requires
            self.keys_behave(),
        ensures
            holds_values_of(values@, self.entries()),
    ;
}

impl<K, V> RecordExt<K, V> for HashMap<K, V> {
    open spec fn entries(&self) -> Map<K, V> {
        self@
    }

    open spec fn keys_behave(&self) -> bool {
        obeys_key_model::<K>()
    }

    fn values(&self) -> (values: Vec<&V>) {
        record_values(self)
    }
}

/// The values of a record, in the order in which the record hands them out.
pub fn record_values<K, V>(record: &HashMap<K, V>) -> (values: Vec<&V>)
    requires
        obeys_key_model::<K>(),
    ensures
        holds_values_of(values@, record@),
{
    let mut values: Vec<&V> = Vec::new();
    for value in iter: record.values()
        invariant
            iter.seq() == spec_values_iter(record).remaining(),
            values@.len() == iter.index(),
            forall|i: int| 0 <= i < values@.len() ==> values@[i] == iter.seq()[i],
    {
        values.push(value);
    }
    assert(values@ =~= spec_values_iter(record).remaining());
    values
}

/// Whether `copies` holds a clone of each item of `items`, in order.
pub open spec fn clones_of<K: Clone>(copies: Seq<K>, items: Seq<K>) -> bool {
    &&& copies.len() == items.len()
    &&& forall|i: int| 0 <= i < copies.len() ==> cloned::<K>(items[i], #[trigger] copies[i])
}

/// A clone of each key of a record, in the order in which the record hands
/// its keys out, which holds each of them once.
pub fn typed_keys<K: Clone, V>(record: &HashMap<K, V>) -> (keys: Vec<K>)
    requires
        obeys_key_model::<K>(),
    ensures
        keys@.len() == record@.dom().len(),
        exists|order: Seq<K>| #[trigger] holds_keys_of(order, record@) && clones_of(keys@, order),
{
    let mut keys: Vec<K> = Vec::new();
    for key in iter: record.keys()
        invariant
            iter.seq() == spec_keys_iter(record).remaining(),
            keys@.len() == iter.index(),
            forall|i: int|
                0 <= i < keys@.len() ==> cloned::<K>(*iter.seq()[i], #[trigger] keys@[i]),
    {
        keys.push(key.clone());
    }
    proof {
        let order = spec_keys_iter(record).remaining().unref();
        assert(holds_keys_of(order, record@)) by {
            assert forall|i: int, j: int|
                0 <= i < order.len() && 0 <= j < order.len() && i != j implies order[i]
                != order[j] by {
                let refs = spec_keys_iter(record).remaining();
                assert(refs[i] != refs[j]);
            }
        }
        assert(clones_of(keys@, order));
    }
    keys
}

} // verus!
