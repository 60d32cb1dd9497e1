//! A read-through cache of account snapshots, keyed by address.
//!
//! The cache belongs to one client. An entry, once stored, stays as it is
//! for as long as the cache lives: nothing expires and nothing is read a
//! second time, although the chain may have moved on. A snapshot of a
//! bonding curve is therefore a point in time, not the present.

use crate::address::lemma_address_by_view;
use crate::address::Address;
use vstd::prelude::*;

verus! {

/// Snapshots by address. Entries are kept in the order they arrived; a
/// later entry for an address would hide an earlier one, and none is
/// ever stored for an address that has one.
pub struct AccountCache<T> {
    entries: Vec<(Address, T)>,
}

/// The map that a list of entries spells, later entries first.
pub open spec fn entries_map<T>(entries: Seq<(Address, T)>) -> Map<Address, T>
    decreases entries.len(),
{
    if entries.len() == 0 {
        Map::empty()
    } else {
        entries_map(entries.drop_last()).insert(entries.last().0, entries.last().1)
    }
}

/// The snapshot that a cache holds for an address, if any.
pub open spec fn cached<T>(cache: Map<Address, T>, address: Address) -> Option<T> {
    if cache.contains_key(address) {
        Some(cache[address])
    } else {
        None
    }
}

impl<T> View for AccountCache<T> {
    type V = Map<Address, T>;

    closed spec fn view(&self) -> Map<Address, T> {
        entries_map(self.entries@)
    }
}

impl<T: Copy> AccountCache<T> {
    /// A cache that holds nothing.
    pub fn new() -> (cache: AccountCache<T>)
        ensures
            cache@ == Map::<Address, T>::empty(),
    {
        AccountCache { entries: Vec::new() }
    }

    /// The snapshot held for `address`, if there is one. Reads only.
    pub fn get(&self, address: &Address) -> (found: Option<T>)
        ensures
            found == cached(self@, *address),
    {
        let mut index: usize = self.entries.len();
        assert(self.entries@.take(index as int) =~= self.entries@);
        while index > 0
            invariant
                index <= self.entries@.len(),
                cached(self@, *address) == cached(
                    entries_map(self.entries@.take(index as int)),
                    *address,
                ),
            decreases index,
        {
            index -= 1;
            let entry: (Address, T) = self.entries[index];
            proof {
                let upto = self.entries@.take(index + 1);
                assert(upto.drop_last() =~= self.entries@.take(index as int));
                assert(upto.last() == self.entries@[index as int]);
                lemma_address_by_view(entry.0, *address);
            }
            if entry.0 == *address {
                return Some(entry.1);
            }
        }
        None
    }

    /// Stores `snapshot` under `address`.
    pub(crate) fn insert(&mut self, address: Address, snapshot: T)
        ensures
            final(self)@ == old(self)@.insert(address, snapshot),
    {
        self.entries.push((address, snapshot));
        proof {
            assert(self.entries@.drop_last() =~= old(self).entries@);
        }
    }
}

} // verus!
