//! Network addresses and the hash collections keyed by them.

use std::collections::HashMap;
use std::collections::HashSet;
use vstd::prelude::*;

verus! {

broadcast use vstd::std_specs::hash::group_hash_axioms;

/// An IPv4 or IPv6 address, held as the big-endian value of its octets.
#[derive(Clone, Copy, Debug, PartialEq, Eq, Hash, Structural)]
pub enum Address {
    V4(u32),
    V6(u128),
}

/// A finite set of addresses with constant-time membership.
pub struct AddressSet {
    v4: HashSet<u32>,
    v6: HashSet<u128>,
}

impl View for AddressSet {
    type V = Set<Address>;

    closed spec fn view(&self) -> Set<Address> {
        Set::new(
            |a: Address|
                match a {
                    Address::V4(x) => self.v4@.contains(x),
                    Address::V6(x) => self.v6@.contains(x),
                },
        )
    }
}

impl AddressSet {
    /// The empty set.
    pub fn new() -> (s: AddressSet)
        ensures
            s@ == Set::<Address>::empty(),
    {
        let s = AddressSet { v4: HashSet::new(), v6: HashSet::new() };
        assert(s@ =~= Set::<Address>::empty());
        s
    }

    /// Adds `address`; returns whether it was absent before.
    pub fn insert(&mut self, address: Address) -> (fresh: bool)
        ensures
            final(self)@ == old(self)@.insert(address),
            fresh == !old(self)@.contains(address),
    {
        let fresh = match address {
            Address::V4(x) => self.v4.insert(x),
            Address::V6(x) => self.v6.insert(x),
        };
        assert(self@ =~= old(self)@.insert(address));
        fresh
    }

    /// Whether `address` is a member.
    pub fn contains(&self, address: &Address) -> (found: bool)
        ensures
            found == self@.contains(*address),
    {
        match address {
            Address::V4(x) => self.v4.contains(x),
            Address::V6(x) => self.v6.contains(x),
        }
    }
}

/// A finite map from addresses to small copyable values.
pub struct AddressMap<V> {
    v4: HashMap<u32, V>,
    v6: HashMap<u128, V>,
}

impl<V> View for AddressMap<V> {
    type V = Map<Address, V>;

    closed spec fn view(&self) -> Map<Address, V> {
        Map::new(
            |a: Address|
                match a {
                    Address::V4(x) => self.v4@.contains_key(x),
                    Address::V6(x) => self.v6@.contains_key(x),
                },
            |a: Address|
                match a {
                    Address::V4(x) => self.v4@[x],
                    Address::V6(x) => self.v6@[x],
                },
        )
    }
}

impl<V: Copy> AddressMap<V> {
    /// The empty map.
    pub fn new() -> (m: AddressMap<V>)
        ensures
            m@ == Map::<Address, V>::empty(),
    {
        let m = AddressMap { v4: HashMap::new(), v6: HashMap::new() };
        assert(m@ =~= Map::<Address, V>::empty());
        m
    }

    /// The value bound to `address`, if any.
    pub fn get(&self, address: &Address) -> (value: Option<V>)
        ensures
            value == (if self@.contains_key(*address) {
                Some(self@[*address])
            } else {
                None
            }),
    {
        match address {
            Address::V4(x) => match self.v4.get(x) {
                Some(v) => Some(*v),
                None => None,
            },
            Address::V6(x) => match self.v6.get(x) {
                Some(v) => Some(*v),
                None => None,
            },
        }
    }

    /// Binds `address` to `value`, replacing any earlier binding.
    pub fn insert(&mut self, address: Address, value: V)
        ensures
            final(self)@ == old(self)@.insert(address, value),
    {
        match address {
            Address::V4(x) => {
                self.v4.insert(x, value);
            },
            Address::V6(x) => {
                self.v6.insert(x, value);
            },
        }
        assert(self@ =~= old(self)@.insert(address, value));
    }
}

} // verus!
