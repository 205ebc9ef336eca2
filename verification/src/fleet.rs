//! The captured states of all lamps, by address.

use vstd::prelude::*;
use crate::device::DeviceState;

verus! {

/// The captured state of the lamp at one address.
#[derive(Debug, PartialEq, Eq)]
pub struct FleetEntry {
    pub address: String,
    pub state: DeviceState,
}

impl View for FleetEntry {
    type V = (Seq<char>, DeviceState);

    open spec fn view(&self) -> (Seq<char>, DeviceState) {
        (self.address@, self.state)
    }
}

/// No address occurs twice.
pub open spec fn distinct(entries: Seq<(Seq<char>, DeviceState)>) -> bool {
    forall|i: int, j: int| 0 <= i < j < entries.len() ==> (#[trigger] entries[i]).0 != (#[trigger] entries[j]).0
}

/// Whether some entry is for `address`.
pub open spec fn holds(entries: Seq<(Seq<char>, DeviceState)>, address: Seq<char>) -> bool {
    exists|i: int| 0 <= i < entries.len() && (#[trigger] entries[i]).0 == address
}

/// The place of the first entry for `address`, or the number of entries
/// where there is none.
pub open spec fn position(entries: Seq<(Seq<char>, DeviceState)>, address: Seq<char>) -> int
    decreases entries.len(),
{
    if entries.len() == 0 {
        0
    } else if entries[0].0 == address {
        0
    } else {
        1 + position(entries.drop_first(), address)
    }
}

/// The state captured for `address`, if any.
pub open spec fn lookup(entries: Seq<(Seq<char>, DeviceState)>, address: Seq<char>) -> Option<DeviceState> {
    if holds(entries, address) {
        Some(entries[position(entries, address)].1)
    } else {
        None
    }
}

/// The entries after `state` was recorded for `address`: the entry for that
/// address is replaced where it is, or a new one is added at the end.
pub open spec fn put(entries: Seq<(Seq<char>, DeviceState)>, address: Seq<char>, state: DeviceState) -> Seq<
    (Seq<char>, DeviceState),
> {
    if holds(entries, address) {
        entries.update(position(entries, address), (address, state))
    } else {
        entries.push((address, state))
    }
}

/// `position` finds the first entry for the address, and only where there
/// is one.
pub proof fn lemma_position(entries: Seq<(Seq<char>, DeviceState)>, address: Seq<char>)
    ensures
        0 <= position(entries, address) <= entries.len(),
        holds(entries, address) <==> position(entries, address) < entries.len(),
        position(entries, address) < entries.len() ==> entries[position(entries, address)].0 == address,
        forall|i: int| 0 <= i < position(entries, address) ==> (#[trigger] entries[i]).0 != address,
    decreases entries.len(),
{
    if entries.len() == 0 {
    } else if entries[0].0 == address {
    } else {
        let rest = entries.drop_first();
        lemma_position(rest, address);
        let p = position(rest, address);
        assert forall|i: int| 0 <= i < 1 + p implies (#[trigger] entries[i]).0 != address by {
            if i > 0 {
                assert(entries[i] == rest[i - 1]);
            }
        }
        if holds(entries, address) {
            let i = choose|i: int| 0 <= i < entries.len() && (#[trigger] entries[i]).0 == address;
            assert(rest[i - 1] == entries[i]);
        }
        if p < rest.len() {
            assert(entries[1 + p] == rest[p]);
        }
    }
}

/// Recording a state keeps the addresses distinct, makes the recorded state
/// the one that is found for its address, and leaves every other address
/// with what it had.
pub proof fn lemma_put(entries: Seq<(Seq<char>, DeviceState)>, address: Seq<char>, state: DeviceState)
    requires
        distinct(entries),
    ensures
        distinct(put(entries, address, state)),
        lookup(put(entries, address, state), address) == Some(state),
        forall|other: Seq<char>| other != address ==> lookup(put(entries, address, state), other) == lookup(entries, other),
{
    let after = put(entries, address, state);
    let p = position(entries, address);
    lemma_position(entries, address);
    assert(after[p] == (address, state));
    assert(holds(after, address));
    lemma_position(after, address);
    assert(position(after, address) == p) by {
        let q = position(after, address);
        if q < p {
            assert(after[q] == entries[q]);
        } else if q > p {
            assert(after[p].0 == address);
        }
    }
    assert forall|i: int, j: int| 0 <= i < j < after.len() implies (#[trigger] after[i]).0 != (#[trigger] after[j]).0 by {
        if i != p && j != p {
            assert(after[i] == entries[i] && after[j] == entries[j]);
        } else if i == p {
            assert(after[j] == entries[j]);
            if holds(entries, address) {
                assert(entries[p].0 == address);
            }
        } else {
            assert(after[i] == entries[i]);
        }
    }
    assert forall|other: Seq<char>| other != address implies lookup(after, other) == lookup(entries, other) by {
        lemma_position(entries, other);
        lemma_position(after, other);
        let a = position(entries, other);
        let b = position(after, other);
        if holds(entries, other) {
            assert(a != p);
            assert(after[a] == entries[a]);
            assert(holds(after, other));
            if b < a {
                assert(b != p ==> after[b] == entries[b]);
            } else if b > a {
            }
        } else {
            if holds(after, other) {
                assert(b != p);
                assert(after[b] == entries[b]);
            }
        }
    }
}

/// The captured states of the lamps, one for each address that has one.
#[derive(Debug)]
pub struct FleetState {
    entries: Vec<FleetEntry>,
}

impl View for FleetState {
    type V = Seq<(Seq<char>, DeviceState)>;

    closed spec fn view(&self) -> Seq<(Seq<char>, DeviceState)> {
        self.entries@.map_values(|e: FleetEntry| e@)
    }
}

impl FleetState {
    #[verifier::type_invariant]
    spec fn addresses_distinct(self) -> bool {
        distinct(self@)
    }

    /// No state at all.
    pub fn new() -> (fleet: FleetState)
        ensures
            fleet@ == Seq::<(Seq<char>, DeviceState)>::empty(),
    {
        let fleet = FleetState { entries: Vec::new() };
        assert(fleet@ =~= Seq::<(Seq<char>, DeviceState)>::empty());
        fleet
    }

    /// The number of lamps with a captured state.
    pub fn len(&self) -> (n: usize)
        ensures
            n == self@.len(),
            distinct(self@),
    {
        proof {
            use_type_invariant(self);
        }
        self.entries.len()
    }

    /// The entry at place `index`.
    pub fn entry(&self, index: usize) -> (e: &FleetEntry)
        requires
            index < self@.len(),
        ensures
            e@ == self@[index as int],
    {
        &self.entries[index]
    }

    /// The state captured for `address`, if any.
    pub fn get(&self, address: &String) -> (found: Option<DeviceState>)
        ensures
            found == lookup(self@, address@),
    {
        proof {
            lemma_position(self@, address@);
        }
        match self.find(address) {
            Some(index) => Some(self.entries[index].state),
            None => None,
        }
    }

    fn find(&self, address: &String) -> (found: Option<usize>)
        ensures
            match found {
                Some(index) => holds(self@, address@) && index == position(self@, address@),
                None => !holds(self@, address@),
            },
    {
        let mut index: usize = 0;
        while index < self.entries.len()
            invariant
                index <= self.entries.len(),
                forall|i: int| 0 <= i < index ==> (#[trigger] self@[i]).0 != address@,
            decreases self.entries.len() - index,
        {
            if self.entries[index].address == *address {
                proof {
                    lemma_position(self@, address@);
                    assert(self@[index as int].0 == address@);
                }
                return Some(index);
            }
            index += 1;
        }
        proof {
            lemma_position(self@, address@);
        }
        None
    }

    /// Records `state` for `address`, in place of what was recorded for that
    /// address before.
    pub fn put(&mut self, address: String, state: DeviceState)
        ensures
            final(self)@ == put(old(self)@, address@, state),
            distinct(final(self)@),
            lookup(final(self)@, address@) == Some(state),
            forall|other: Seq<char>| other != address@ ==> lookup(final(self)@, other) == lookup(old(self)@, other),
    {
        proof {
            use_type_invariant(&*self);
            lemma_put(self@, address@, state);
            lemma_position(self@, address@);
        }
        let found = self.find(&address);
        let mut entries = Vec::new();
        std::mem::swap(&mut entries, &mut self.entries);
        let ghost before = entries@.map_values(|e: FleetEntry| e@);
        match found {
            Some(index) => {
                entries.set(index, FleetEntry { address, state });
            },
            None => {
                entries.push(FleetEntry { address, state });
            },
        }
        assert(entries@.map_values(|e: FleetEntry| e@) =~= put(before, address@, state));
        self.entries = entries;
    }
}

} // verus!
