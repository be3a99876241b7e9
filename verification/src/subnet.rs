//! The monitored address universe of an IPv4 subnet.

use crate::address::Address;
use std::collections::HashSet;
use vstd::prelude::*;

verus! {

broadcast use vstd::std_specs::hash::group_hash_axioms;

/// The netmask of a prefix length: its `prefix` leading bits are set.
pub open spec fn spec_mask(prefix: u8) -> u32 {
    if prefix == 0 {
        0
    } else if prefix >= 32 {
        0xFFFF_FFFF
    } else {
        !(0xFFFF_FFFFu32 >> prefix)
    }
}

/// The network address of the subnet that `ip` lies in.
pub open spec fn spec_network(ip: u32, prefix: u8) -> u32 {
    ip & spec_mask(prefix)
}

/// The broadcast address of the subnet that `ip` lies in.
pub open spec fn spec_broadcast(ip: u32, prefix: u8) -> u32 {
    spec_network(ip, prefix) | !spec_mask(prefix)
}

/// The host addresses of the subnet: those strictly between its network
/// address and its broadcast address.
pub open spec fn spec_hosts(ip: u32, prefix: u8) -> Set<u32> {
    Set::new(|a: u32| spec_network(ip, prefix) < a < spec_broadcast(ip, prefix))
}

/// How many host addresses a subnet of this prefix length has: the all-ones
/// host part less one, and none from /31 on.
pub open spec fn spec_host_count(prefix: u8) -> nat {
    if prefix >= 31 {
        0
    } else if prefix == 0 {
        0xFFFF_FFFE
    } else {
        ((0xFFFF_FFFFu32 >> prefix) - 1) as nat
    }
}

/// The 32-bit values strictly between `low` and `high` are finitely many,
/// `high - low - 1` of them.
pub proof fn lemma_open_interval(low: u32, high: u32)
    requires
        low < high,
    ensures
        Set::new(|a: u32| low < a < high).finite(),
        Set::new(|a: u32| low < a < high).len() == high - low - 1,
    decreases high - low,
{
    let all = Set::new(|a: u32| low < a < high);
    if high == low + 1 {
        assert(all =~= Set::<u32>::empty());
    } else {
        let top = (high - 1) as u32;
        let rest = Set::new(|a: u32| low < a < top);
        lemma_open_interval(low, top);
        assert(all =~= rest.insert(top));
    }
}

/// The broadcast address lies above the network address by the all-ones
/// host part.
pub proof fn lemma_subnet_span(ip: u32, prefix: u8)
    requires
        prefix <= 32,
    ensures
        spec_network(ip, prefix) <= spec_broadcast(ip, prefix),
        spec_broadcast(ip, prefix) - spec_network(ip, prefix) == (if prefix == 0 {
            0xFFFF_FFFF
        } else if prefix == 32 {
            0
        } else {
            (0xFFFF_FFFFu32 >> prefix) as int
        }),
{
    let mask = spec_mask(prefix);
    if prefix == 0 {
        assert((ip & 0u32) == 0u32 && (0u32 | !0u32) == 0xFFFF_FFFFu32) by (bit_vector);
    } else if prefix == 32 {
        assert(((ip & 0xFFFF_FFFFu32) | !0xFFFF_FFFFu32) == (ip & 0xFFFF_FFFFu32)) by (bit_vector);
    } else {
        let host = 0xFFFF_FFFFu32 >> prefix;
        assert(((ip & !host) | !!host) >= (ip & !host) && ((ip & !host) | !!host) - (ip & !host)
            == host) by (bit_vector);
    }
}

/// The host addresses of a subnet are as many as its prefix length allows.
pub proof fn lemma_host_count(ip: u32, prefix: u8)
    requires
        prefix <= 32,
    ensures
        spec_hosts(ip, prefix).finite(),
        spec_hosts(ip, prefix).len() == spec_host_count(prefix),
{
    let network = spec_network(ip, prefix);
    let broadcast = spec_broadcast(ip, prefix);
    lemma_subnet_span(ip, prefix);
    if network < broadcast {
        lemma_open_interval(network, broadcast);
        if 0 < prefix < 32 {
            assert(prefix == 31 ==> (0xFFFF_FFFFu32 >> prefix) == 1) by (bit_vector);
        }
    } else {
        assert(spec_hosts(ip, prefix) =~= Set::<u32>::empty());
        if 0 < prefix < 32 {
            assert(prefix < 32 ==> (0xFFFF_FFFFu32 >> prefix) >= 1) by (bit_vector);
        }
    }
}

/// The addresses whose traffic is accounted for.
pub struct MonitoredSet {
    hosts: HashSet<u32>,
}

impl View for MonitoredSet {
    type V = Set<u32>;

    closed spec fn view(&self) -> Set<u32> {
        self.hosts@
    }
}

impl MonitoredSet {
    /// Whether `address` is monitored. No IPv6 address is.
    pub open spec fn spec_contains(&self, address: Address) -> bool {
        match address {
            Address::V4(a) => self@.contains(a),
            Address::V6(_) => false,
        }
    }

    /// Whether `address` is monitored.
    pub fn contains(&self, address: &Address) -> (found: bool)
        ensures
            found == self.spec_contains(*address),
    {
        match address {
            Address::V4(a) => self.hosts.contains(a),
            Address::V6(_) => false,
        }
    }

    /// Whether the IPv4 address `a` is monitored.
    pub fn contains_v4(&self, a: u32) -> (found: bool)
        ensures
            found == self@.contains(a),
    {
        self.hosts.contains(&a)
    }

    /// The number of monitored addresses.
    pub fn len(&self) -> (n: usize)
        ensures
            n == self@.len(),
    {
        self.hosts.len()
    }
}

/// The netmask of a prefix length.
pub fn netmask(prefix: u8) -> (mask: u32)
    ensures
        mask == spec_mask(prefix),
{
    if prefix == 0 {
        0
    } else if prefix >= 32 {
        0xFFFF_FFFF
    } else {
        !(0xFFFF_FFFFu32 >> prefix)
    }
}

/// Builds the set of host addresses of the subnet that `ip` lies in.
pub fn ipv4_list(ip: u32, prefix: u8) -> (set: MonitoredSet)
    requires
        prefix <= 32,
    ensures
        set@ == spec_hosts(ip, prefix),
        set@.finite(),
        set@.len() == spec_host_count(prefix),
{
    let mask: u32 = netmask(prefix);
    let network: u32 = ip & mask;
    let broadcast: u32 = network | !mask;
    let mut hosts: HashSet<u32> = HashSet::new();
    proof {
        lemma_host_count(ip, prefix);
        lemma_subnet_span(ip, prefix);
    }
    if network < broadcast {
        let mut next: u32 = network + 1;
        assert(hosts@ =~= Set::new(|a: u32| network < a < next));
        while next < broadcast
            invariant
                network < next <= broadcast,
                hosts@ == Set::new(|a: u32| network < a < next),
            decreases broadcast - next,
        {
            hosts.insert(next);
            assert(hosts@ =~= Set::new(|a: u32| network < a < next + 1));
            next = next + 1;
        }
    } else {
        assert(hosts@ =~= spec_hosts(ip, prefix));
    }
    MonitoredSet { hosts }
}

} // verus!
