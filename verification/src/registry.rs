//! The identity registry: which container runs which device.
//!
//! The registry is a cache. It holds at most one container per device, a later
//! record for a device replaces the earlier one, and nothing is ever removed:
//! an entry may name a container that has since disappeared. A caller that
//! shares one registry among concurrent directives wraps it in a lock; every
//! operation here takes the registry by reference, so each lookup and each
//! record is atomic with respect to that lock.

use std::collections::HashMap;
use vstd::prelude::*;
use crate::identity::{ContainerId, DeviceUuid};

verus! {

broadcast use vstd::std_specs::hash::group_hash_axioms;

/// Which container runs which device, as far as it is known.
#[derive(Debug)]
pub struct Registry {
    entries: HashMap<u128, ContainerId>,
}

impl View for Registry {
    type V = Map<u128, Seq<char>>;

    closed spec fn view(&self) -> Map<u128, Seq<char>> {
        self.entries@.map_values(|id: ContainerId| id@)
    }
}

impl Registry {
    /// A registry that knows no device.
    pub fn new() -> (registry: Registry)
        ensures
            registry@ == Map::<u128, Seq<char>>::empty(),
    {
        let registry = Registry { entries: HashMap::new() };
        assert(registry@ =~= Map::<u128, Seq<char>>::empty());
        registry
    }

    /// The container recorded for `uuid`, if any.
    pub fn lookup(&self, uuid: DeviceUuid) -> (found: Option<ContainerId>)
        ensures
            found is Some <==> self@.contains_key(uuid.value),
            found matches Some(id) ==> id@ == self@[uuid.value],
    {
        match self.entries.get(&uuid.value) {
            Some(id) => Some(id.clone()),
            None => None,
        }
    }

    /// Records `identity` for `uuid`, replacing what was recorded before.
    pub fn record(&mut self, uuid: DeviceUuid, identity: ContainerId)
        ensures
            final(self)@ == old(self)@.insert(uuid.value, identity@),
    {
        self.entries.insert(uuid.value, identity);
        assert(self@ =~= old(self)@.insert(uuid.value, identity@));
    }

    /// The number of devices with a recorded container.
    pub fn len(&self) -> (count: usize)
        ensures
            count == self@.len(),
            self@.dom().finite(),
    {
        assert(self@.dom() =~= self.entries@.dom());
        self.entries.len()
    }
}

/// A device has one container: of two records for one device the later
/// one stands, as if the earlier had never been made.
pub proof fn law_last_record_wins(
    registry: Map<u128, Seq<char>>,
    uuid: u128,
    earlier: Seq<char>,
    later: Seq<char>,
)
    ensures
        registry.insert(uuid, earlier).insert(uuid, later) == registry.insert(uuid, later),
        registry.insert(uuid, later)[uuid] == later,
{
    assert(registry.insert(uuid, earlier).insert(uuid, later) =~= registry.insert(uuid, later));
}

/// Records for different devices do not touch each other: they give the
/// same registry in either order, and each device keeps its own container.
pub proof fn law_records_of_different_devices_commute(
    registry: Map<u128, Seq<char>>,
    one: u128,
    one_id: Seq<char>,
    other: u128,
    other_id: Seq<char>,
)
    requires
        one != other,
    ensures
        registry.insert(one, one_id).insert(other, other_id) == registry.insert(
            other,
            other_id,
        ).insert(one, one_id),
        registry.insert(one, one_id).insert(other, other_id)[one] == one_id,
        registry.insert(one, one_id).insert(other, other_id)[other] == other_id,
{
    assert(registry.insert(one, one_id).insert(other, other_id) =~= registry.insert(
        other,
        other_id,
    ).insert(one, one_id));
}

} // verus!
