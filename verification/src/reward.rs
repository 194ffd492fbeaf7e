//! The reward table: from the zero-byte metrics of an address to the label
//! of its rarity.

use vstd::prelude::*;
use crate::codec::{spec_reward_key, NO_NONZERO_BYTE};

verus! {

/// One line of the table: the metrics of an address and the label they earn.
pub struct RewardEntry {
    pub leading: u8,
    pub total: u8,
    pub label: String,
}

/// The table. It is filled when it is made and only read afterwards.
pub struct Reward {
    entries: Vec<RewardEntry>,
}

/// The key and the label of each entry, in the order of the entries.
pub open spec fn spec_entries(entries: Seq<RewardEntry>) -> Seq<(int, Seq<char>)> {
    Seq::new(
        entries.len(),
        |i: int| (spec_reward_key(entries[i].leading as int, entries[i].total as int), entries[i].label@),
    )
}

/// The label of the first entry filed under `key`, if there is one.
pub open spec fn lookup_in(entries: Seq<(int, Seq<char>)>, key: int) -> Option<Seq<char>>
    decreases entries.len(),
{
    if entries.len() == 0 {
        None
    } else if entries[0].0 == key {
        Some(entries[0].1)
    } else {
        lookup_in(entries.skip(1), key)
    }
}

/// Whether an address with these metrics earns a report from the CPU
/// search: at least three zero bytes, and a label in the table.
pub open spec fn spec_is_accepted(leading: int, total: int, rewards: Reward) -> bool {
    total >= 3 && rewards.spec_lookup(spec_reward_key(leading, total)) is Some
}

impl Reward {
    /// The keys and labels of the table, in order.
    pub closed spec fn model(&self) -> Seq<(int, Seq<char>)> {
        spec_entries(self.entries@)
    }

    /// The label filed under `key`, if there is one.
    pub open spec fn spec_lookup(&self, key: int) -> Option<Seq<char>> {
        lookup_in(self.model(), key)
    }

    /// Builds the table from its entries. Where two entries have the same
    /// metrics, the first one counts.
    pub fn new(entries: Vec<RewardEntry>) -> (table: Reward)
        ensures
            table.model() == spec_entries(entries@),
    {
        Reward { entries }
    }

    /// Looks `key` up. Every key is answered: one that the table does not
    /// hold gives `None`.
    pub fn lookup(&self, key: usize) -> (label: Option<&str>)
        ensures
            match label {
                Some(found) => self.spec_lookup(key as int) == Some(found@),
                None => self.spec_lookup(key as int) is None,
            },
    {
        let mut i: usize = 0;
        assert(self.model().skip(0) =~= self.model());
        while i < self.entries.len()
            invariant
                i <= self.entries.len(),
                self.spec_lookup(key as int) == lookup_in(self.model().skip(i as int), key as int),
            decreases self.entries.len() - i,
        {
            let entry = &self.entries[i];
            let entry_key: usize = (entry.leading as usize) * 20 + (entry.total as usize);
            proof {
                let rest = self.model().skip(i as int);
                assert(rest[0] == self.model()[i as int]);
                assert(rest.skip(1) =~= self.model().skip(i + 1));
            }
            if entry_key == key {
                return Some(entry.label.as_str());
            }
            i += 1;
        }
        proof {
            assert(self.model().skip(i as int).len() == 0);
        }
        None
    }
}

/// Whether an address with these metrics earns a report from the CPU
/// search. A key that the table does not hold is not accepted.
pub fn is_accepted(leading: usize, total: usize, rewards: &Reward) -> (accepted: bool)
    requires
        leading <= NO_NONZERO_BYTE,
        total <= 20,
    ensures
        accepted == spec_is_accepted(leading as int, total as int, *rewards),
{
    if total < 3 {
        return false;
    }
    rewards.lookup(leading * 20 + total).is_some()
}

} // verus!
