//! Which uplink an address's traffic is attributed to.
//!
//! The assignments come from outside, as a list of pairs of an address and
//! a label. A snapshot is built from one such list as a whole and never
//! changed afterwards; the cache swaps one snapshot for the next.

use crate::address::Address;
use crate::address::AddressSet;
use vstd::prelude::*;
use vstd::string::*;

verus! {

/// An outbound path.
#[derive(Clone, Copy, Debug, PartialEq, Eq, Hash, Structural)]
pub enum UplinkLabel {
    Wan0,
    Wan1,
}

impl UplinkLabel {
    /// The label's name.
    pub open spec fn spec_name(self) -> Seq<char> {
        match self {
            UplinkLabel::Wan0 => "wan0"@,
            UplinkLabel::Wan1 => "wan1"@,
        }
    }

    /// The label's name: `wan0` or `wan1`.
    pub fn name(&self) -> (name: &'static str)
        ensures
            name@ == self.spec_name(),
    {
        match self {
            UplinkLabel::Wan0 => "wan0",
            UplinkLabel::Wan1 => "wan1",
        }
    }

    /// The label that `text` names, if it names one.
    pub open spec fn spec_parse(text: Seq<char>) -> Option<UplinkLabel> {
        if text == "wan0"@ {
            Some(UplinkLabel::Wan0)
        } else if text == "wan1"@ {
            Some(UplinkLabel::Wan1)
        } else {
            None
        }
    }

    /// The label that `text` names, if it names one.
    pub fn parse(text: &String) -> (label: Option<UplinkLabel>)
        ensures
            label == UplinkLabel::spec_parse(text@),
    {
        let wan0 = String::from_str("wan0");
        let wan1 = String::from_str("wan1");
        if *text == wan0 {
            Some(UplinkLabel::Wan0)
        } else if *text == wan1 {
            Some(UplinkLabel::Wan1)
        } else {
            None
        }
    }
}

/// One pair of a fetched assignment list.
pub struct UplinkMapping {
    /// The address that the pair is keyed by; none where the key does not
    /// spell an address.
    pub address: Option<Address>,
    /// The label as it was fetched.
    pub label: String,
}

/// The addresses that `mappings` assign to `label`: those of the pairs
/// whose key is an address and whose label names `label`.
pub open spec fn spec_assigned(mappings: Seq<UplinkMapping>, label: UplinkLabel) -> Set<Address> {
    Set::new(
        |a: Address|
            exists|i: int|
                0 <= i < mappings.len() && (#[trigger] mappings[i]).address == Some(a)
                    && UplinkLabel::spec_parse(mappings[i].label@) == Some(label),
    )
}

/// The addresses assigned to each uplink at one moment.
pub struct UplinkAssignmentSnapshot {
    wan0: AddressSet,
    wan1: AddressSet,
    wan0_count: usize,
    wan1_count: usize,
}

impl UplinkAssignmentSnapshot {
    /// Each count is the size of its set.
    #[verifier::type_invariant]
    spec fn counted(self) -> bool {
        &&& self.wan0@.finite()
        &&& self.wan1@.finite()
        &&& self.wan0_count == self.wan0@.len()
        &&& self.wan1_count == self.wan1@.len()
    }

    /// The addresses assigned to `label`.
    pub closed spec fn assigned(&self, label: UplinkLabel) -> Set<Address> {
        match label {
            UplinkLabel::Wan0 => self.wan0@,
            UplinkLabel::Wan1 => self.wan1@,
        }
    }

    /// The uplink of `address`: `Wan1` where it is assigned to that, and
    /// `Wan0` everywhere else.
    pub open spec fn spec_uplink_for(&self, address: Address) -> UplinkLabel {
        if self.assigned(UplinkLabel::Wan1).contains(address) {
            UplinkLabel::Wan1
        } else {
            UplinkLabel::Wan0
        }
    }

    /// The snapshot that assigns nothing.
    pub fn new() -> (snapshot: UplinkAssignmentSnapshot)
        ensures
            forall|label: UplinkLabel| #[trigger] snapshot.assigned(label) == Set::<Address>::empty(),
    {
        UplinkAssignmentSnapshot {
            wan0: AddressSet::new(),
            wan1: AddressSet::new(),
            wan0_count: 0,
            wan1_count: 0,
        }
    }

    /// The snapshot of a fetched assignment list. Pairs whose key is no
    /// address, or whose label names no uplink, are passed over.
    pub fn from_mappings(mappings: &Vec<UplinkMapping>) -> (snapshot: UplinkAssignmentSnapshot)
        ensures
            forall|label: UplinkLabel| #[trigger]
                snapshot.assigned(label) == spec_assigned(mappings@, label),
    {
        let mut wan0 = AddressSet::new();
        let mut wan1 = AddressSet::new();
        let mut wan0_count: usize = 0;
        let mut wan1_count: usize = 0;
        let n: usize = mappings.len();
        let mut i: usize = 0;
        assert(wan0@ =~= spec_assigned(mappings@.take(0), UplinkLabel::Wan0));
        assert(wan1@ =~= spec_assigned(mappings@.take(0), UplinkLabel::Wan1));
        while i < n
            invariant
                i <= n == mappings@.len(),
                wan0@ == spec_assigned(mappings@.take(i as int), UplinkLabel::Wan0),
                wan1@ == spec_assigned(mappings@.take(i as int), UplinkLabel::Wan1),
                wan0@.finite(),
                wan1@.finite(),
                wan0_count == wan0@.len() <= i,
                wan1_count == wan1@.len() <= i,
            decreases n - i,
        {
            let mapping = &mappings[i];
            let ghost before = mappings@.take(i as int);
            let ghost after = mappings@.take(i + 1);
            proof {
                assert(after =~= before.push(*mapping));
                lemma_assigned_push(before, *mapping, UplinkLabel::Wan0);
                lemma_assigned_push(before, *mapping, UplinkLabel::Wan1);
            }
            match mapping.address {
                Some(address) => match UplinkLabel::parse(&mapping.label) {
                    Some(UplinkLabel::Wan0) => {
                        if wan0.insert(address) {
                            wan0_count = wan0_count + 1;
                        }
                    },
                    Some(UplinkLabel::Wan1) => {
                        if wan1.insert(address) {
                            wan1_count = wan1_count + 1;
                        }
                    },
                    None => {},
                },
                None => {},
            }
            i = i + 1;
        }
        assert(mappings@.take(n as int) =~= mappings@);
        UplinkAssignmentSnapshot { wan0, wan1, wan0_count, wan1_count }
    }

    /// How many addresses are assigned to `label`.
    pub fn count(&self, label: UplinkLabel) -> (n: usize)
        ensures
            self.assigned(label).finite(),
            n == self.assigned(label).len(),
    {
        proof {
            use_type_invariant(self);
        }
        match label {
            UplinkLabel::Wan0 => self.wan0_count,
            UplinkLabel::Wan1 => self.wan1_count,
        }
    }

    /// The uplink of `address`.
    pub fn uplink_for(&self, address: &Address) -> (label: UplinkLabel)
        ensures
            label == self.spec_uplink_for(*address),
    {
        if self.wan1.contains(address) {
            UplinkLabel::Wan1
        } else {
            UplinkLabel::Wan0
        }
    }

    /// Whether `address` is assigned to `label`.
    pub fn is_assigned(&self, address: &Address, label: UplinkLabel) -> (found: bool)
        ensures
            found == self.assigned(label).contains(*address),
    {
        match label {
            UplinkLabel::Wan0 => self.wan0.contains(address),
            UplinkLabel::Wan1 => self.wan1.contains(address),
        }
    }
}

/// One more pair adds its address to the set of the label it names, and
/// leaves the other set alone.
pub proof fn lemma_assigned_push(mappings: Seq<UplinkMapping>, mapping: UplinkMapping, label: UplinkLabel)
    ensures
        spec_assigned(mappings.push(mapping), label) == (if mapping.address is Some
            && UplinkLabel::spec_parse(mapping.label@) == Some(label) {
            spec_assigned(mappings, label).insert(mapping.address->0)
        } else {
            spec_assigned(mappings, label)
        }),
{
    let longer = mappings.push(mapping);
    let expected = if mapping.address is Some && UplinkLabel::spec_parse(mapping.label@) == Some(
        label,
    ) {
        spec_assigned(mappings, label).insert(mapping.address->0)
    } else {
        spec_assigned(mappings, label)
    };
    assert forall|a: Address| spec_assigned(longer, label).contains(a) implies expected.contains(
        a,
    ) by {
        let i = choose|i: int|
            0 <= i < longer.len() && (#[trigger] longer[i]).address == Some(a)
                && UplinkLabel::spec_parse(longer[i].label@) == Some(label);
        if i < mappings.len() {
            assert(mappings[i] == longer[i]);
        }
    }
    assert forall|a: Address| expected.contains(a) implies spec_assigned(longer, label).contains(
        a,
    ) by {
        if spec_assigned(mappings, label).contains(a) {
            let i = choose|i: int|
                0 <= i < mappings.len() && (#[trigger] mappings[i]).address == Some(a)
                    && UplinkLabel::spec_parse(mappings[i].label@) == Some(label);
            assert(longer[i] == mappings[i]);
        } else {
            assert(longer[mappings.len() as int] == mapping);
        }
    }
    assert(spec_assigned(longer, label) =~= expected);
}

/// The current uplink assignments. A refresh that succeeded swaps the
/// whole snapshot; one that failed leaves the last good snapshot in place.
pub struct UplinkAttributionCache {
    current: UplinkAssignmentSnapshot,
}

impl UplinkAttributionCache {
    /// The snapshot in force.
    pub closed spec fn current(&self) -> UplinkAssignmentSnapshot {
        self.current
    }

    /// A cache that assigns nothing yet, so that every address is on
    /// `Wan0`.
    pub fn new() -> (cache: UplinkAttributionCache)
        ensures
            forall|label: UplinkLabel| #[trigger]
                cache.current().assigned(label) == Set::<Address>::empty(),
    {
        UplinkAttributionCache { current: UplinkAssignmentSnapshot::new() }
    }

    /// Takes in the outcome of a fetch: the fetched list, or none where
    /// the fetch failed. Returns whether the snapshot was replaced.
    pub fn refresh(&mut self, fetched: Option<&Vec<UplinkMapping>>) -> (replaced: bool)
        ensures
            replaced == fetched is Some,
            forall|label: UplinkLabel| #[trigger]
                final(self).current().assigned(label) == (match fetched {
                    Some(mappings) => spec_assigned(mappings@, label),
                    None => old(self).current().assigned(label),
                }),
    {
        match fetched {
            Some(mappings) => {
                self.current = UplinkAssignmentSnapshot::from_mappings(mappings);
                true
            },
            None => false,
        }
    }

    /// The snapshot in force.
    pub fn snapshot(&self) -> (snapshot: &UplinkAssignmentSnapshot)
        ensures
            *snapshot == self.current(),
    {
        &self.current
    }

    /// The uplink of `address` under the snapshot in force.
    pub fn uplink_for(&self, address: &Address) -> (label: UplinkLabel)
        ensures
            label == self.current().spec_uplink_for(*address),
    {
        self.current.uplink_for(address)
    }
}

} // verus!
