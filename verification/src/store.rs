//! The statistics store: one entry for every address ever observed.
//!
//! Entries are created on first observation, kept in the order of first
//! observation, and never removed. The store is a plain value; callers that
//! share it between threads put it behind one lock, so that each operation
//! below is seen whole or not at all.

use crate::address::Address;
use crate::address::AddressMap;
use crate::entry::Counters;
use crate::entry::EntryModel;
use crate::entry::StatEntry;
use crate::frame::TcpView;
use vstd::prelude::*;

verus! {

/// Whether `entries` holds an entry for `address`.
pub open spec fn spec_has(entries: Seq<EntryModel>, address: Address) -> bool {
    exists|i: int| 0 <= i < entries.len() && #[trigger] entries[i].address == address
}

/// The place of the entry for `address`, where `entries` holds one.
pub open spec fn spec_position(entries: Seq<EntryModel>, address: Address) -> int {
    choose|i: int| 0 <= i < entries.len() && #[trigger] entries[i].address == address
}

/// The entry for `address`, if `entries` holds one.
pub open spec fn spec_entry(entries: Seq<EntryModel>, address: Address) -> Option<EntryModel> {
    if spec_has(entries, address) {
        Some(entries[spec_position(entries, address)])
    } else {
        None
    }
}

/// `entry`, or a fresh entry for `address`, created at `now`, where there
/// is none.
pub open spec fn spec_or_fresh(entry: Option<EntryModel>, address: Address, now: u64) -> EntryModel {
    match entry {
        Some(entry) => entry,
        None => EntryModel::fresh(address, now),
    }
}

/// No two entries are about the same address, and no entry's shadows are
/// ahead of its counters.
pub open spec fn spec_wf(entries: Seq<EntryModel>) -> bool {
    &&& forall|i: int, j: int|
        0 <= i < entries.len() && 0 <= j < entries.len() && #[trigger] entries[i].address
            == #[trigger] entries[j].address ==> i == j
    &&& forall|i: int| 0 <= i < entries.len() ==> (#[trigger] entries[i]).counters.wf()
}

/// `entries` with an entry for `address`: as it is where it holds one, else
/// with a fresh one, created at `now`, at its end.
pub open spec fn spec_observed(entries: Seq<EntryModel>, address: Address, now: u64) -> Seq<
    EntryModel,
> {
    if spec_has(entries, address) {
        entries
    } else {
        entries.push(EntryModel::fresh(address, now))
    }
}

/// `entries` after `change` was applied to the entry for `address`, which
/// is created first if there is none.
pub open spec fn spec_updated(
    entries: Seq<EntryModel>,
    address: Address,
    now: u64,
    change: spec_fn(EntryModel) -> EntryModel,
) -> Seq<EntryModel> {
    let observed = spec_observed(entries, address, now);
    let at = spec_position(observed, address);
    observed.update(at, change(observed[at]))
}

/// After a packet of `len` bytes from `address` was seen at `now`.
pub open spec fn spec_record_transmit(
    entries: Seq<EntryModel>,
    address: Address,
    len: u64,
    now: u64,
) -> Seq<EntryModel> {
    spec_updated(entries, address, now, |e: EntryModel| e.with_transmit(len))
}

/// After a packet of `len` bytes to `address` was seen at `now`.
pub open spec fn spec_record_receive(
    entries: Seq<EntryModel>,
    address: Address,
    len: u64,
    now: u64,
) -> Seq<EntryModel> {
    spec_updated(entries, address, now, |e: EntryModel| e.with_receive(len))
}

/// After a TCP segment of `len` bytes from `address` was seen at `now`.
pub open spec fn spec_record_transmit_tcp(
    entries: Seq<EntryModel>,
    address: Address,
    len: u64,
    tcp: TcpView,
    now: u64,
) -> Seq<EntryModel> {
    spec_updated(entries, address, now, |e: EntryModel| e.with_transmit_tcp(len, tcp))
}

/// After a TCP segment of `len` bytes to `address` was seen at `now`.
pub open spec fn spec_record_receive_tcp(
    entries: Seq<EntryModel>,
    address: Address,
    len: u64,
    tcp: TcpView,
    now: u64,
) -> Seq<EntryModel> {
    spec_updated(entries, address, now, |e: EntryModel| e.with_receive_tcp(len, tcp))
}

/// After every entry was sampled at `now`.
pub open spec fn spec_sample(entries: Seq<EntryModel>, now: u64) -> Seq<EntryModel> {
    Seq::new(entries.len(), |i: int| entries[i].sampled(now))
}

/// In a well-formed store, the entry at place `at` is the one for its own
/// address.
pub proof fn lemma_position(entries: Seq<EntryModel>, at: int)
    requires
        spec_wf(entries),
        0 <= at < entries.len(),
    ensures
        spec_has(entries, entries[at].address),
        spec_position(entries, entries[at].address) == at,
{
}

/// Updating the entry for an address keeps a store well formed, as long
/// as the change keeps the entry's address and its counters well formed.
pub proof fn lemma_updated_wf(
    entries: Seq<EntryModel>,
    address: Address,
    now: u64,
    change: spec_fn(EntryModel) -> EntryModel,
)
    requires
        spec_wf(entries),
        forall|e: EntryModel|
            e.counters.wf() ==> (#[trigger] change(e)).counters.wf() && change(e).address
                == e.address,
    ensures
        spec_wf(spec_updated(entries, address, now, change)),
        spec_wf(spec_observed(entries, address, now)),
        spec_has(spec_observed(entries, address, now), address),
{
    let observed = spec_observed(entries, address, now);
    if !spec_has(entries, address) {
        assert(observed[entries.len() as int].address == address);
    }
    assert(spec_wf(observed));
    let at = spec_position(observed, address);
    let after = observed.update(at, change(observed[at]));
    assert forall|i: int| 0 <= i < after.len() implies (#[trigger] after[i]).address
        == observed[i].address by {}
}

/// An update reaches the entry for its address and no other: that entry
/// becomes the change of what it was, or of a fresh entry if there was
/// none, and the entry of every other address stays as it was.
pub proof fn lemma_updated_entry(
    entries: Seq<EntryModel>,
    address: Address,
    now: u64,
    change: spec_fn(EntryModel) -> EntryModel,
    other: Address,
)
    requires
        spec_wf(entries),
        forall|e: EntryModel|
            e.counters.wf() ==> (#[trigger] change(e)).counters.wf() && change(e).address
                == e.address,
    ensures
        spec_entry(spec_updated(entries, address, now, change), other) == (if other == address {
            Some(change(spec_or_fresh(spec_entry(entries, address), address, now)))
        } else {
            spec_entry(entries, other)
        }),
{
    lemma_updated_wf(entries, address, now, change);
    let observed = spec_observed(entries, address, now);
    let at = spec_position(observed, address);
    let after = spec_updated(entries, address, now, change);
    assert(after[at].address == address);
    lemma_position(after, at);
    if spec_has(entries, address) {
        lemma_position(entries, at);
    } else {
        assert(observed[entries.len() as int].address == address);
        lemma_position(observed, entries.len() as int);
    }
    if other != address {
        if spec_has(entries, other) {
            let i = spec_position(entries, other);
            assert(after[i].address == other);
            lemma_position(after, i);
        } else if spec_has(after, other) {
            let i = spec_position(after, other);
            assert(observed[i].address == other);
            assert(entries[i].address == other);
        }
    }
}

/// A sample reaches every entry: each becomes what a sample makes of it.
pub proof fn lemma_sampled_entry(entries: Seq<EntryModel>, now: u64, address: Address)
    requires
        spec_wf(entries),
    ensures
        spec_wf(spec_sample(entries, now)),
        spec_entry(spec_sample(entries, now), address) == (match spec_entry(entries, address) {
            Some(entry) => Some(entry.sampled(now)),
            None => None,
        }),
{
    let after = spec_sample(entries, now);
    assert forall|i: int, j: int|
        0 <= i < after.len() && 0 <= j < after.len() && #[trigger] after[i].address
            == #[trigger] after[j].address implies i == j by {
        assert(entries[i].address == entries[j].address);
    }
    assert forall|i: int| 0 <= i < after.len() implies (#[trigger] after[i]).counters.wf() by {
        assert(entries[i].counters.wf());
    }
    if spec_has(entries, address) {
        let i = spec_position(entries, address);
        assert(after[i].address == address);
        lemma_position(after, i);
    } else if spec_has(after, address) {
        let i = spec_position(after, address);
        assert(entries[i].address == address);
    }
}

/// One snapshot row: an address and a copy of its counters.
#[derive(Clone, Copy, Debug, PartialEq, Eq, Structural)]
pub struct EntrySnapshot {
    pub address: Address,
    pub counters: Counters,
}

/// The rows that a snapshot of `entries` holds.
pub open spec fn spec_snapshot(entries: Seq<EntryModel>) -> Seq<EntrySnapshot> {
    Seq::new(
        entries.len(),
        |i: int| EntrySnapshot { address: entries[i].address, counters: entries[i].counters },
    )
}

/// The statistics of every address observed so far.
pub struct StatisticsStore {
    entries: Vec<StatEntry>,
    index: AddressMap<usize>,
}

impl View for StatisticsStore {
    type V = Seq<EntryModel>;

    closed spec fn view(&self) -> Seq<EntryModel> {
        self.entries@.map_values(|e: StatEntry| e@)
    }
}

impl StatisticsStore {
    /// The index leads to each entry by its address, and to nothing else.
    pub closed spec fn wf(&self) -> bool {
        &&& spec_wf(self@)
        &&& forall|a: Address| #[trigger]
            self.index@.contains_key(a) ==> self.index@[a] < self.entries@.len()
                && self.entries@[self.index@[a] as int]@.address == a
        &&& forall|i: int|
            0 <= i < self.entries@.len() ==> self.index@.contains_key(
                (#[trigger] self.entries@[i])@.address,
            ) && self.index@[self.entries@[i]@.address] == i
    }

    /// A well-formed store has a well-formed view.
    pub proof fn lemma_wf_view(&self)
        requires
            self.wf(),
        ensures
            spec_wf(self@),
    {
    }

    /// A store that has observed nothing.
    pub fn new() -> (store: StatisticsStore)
        ensures
            store.wf(),
            store@ == Seq::<EntryModel>::empty(),
    {
        let store = StatisticsStore { entries: Vec::new(), index: AddressMap::new() };
        assert(store@ =~= Seq::<EntryModel>::empty());
        store
    }

    /// The number of addresses observed.
    pub fn len(&self) -> (n: usize)
        ensures
            n == self@.len(),
    {
        self.entries.len()
    }

    /// The place of the entry for `address`, if there is one.
    fn find(&self, address: &Address) -> (at: Option<usize>)
        requires
            self.wf(),
        ensures
            at is Some <==> spec_has(self@, *address),
            at is Some ==> at->0 == spec_position(self@, *address) && at->0 < self@.len(),
    {
        let at = self.index.get(address);
        proof {
            match at {
                Some(i) => {
                    assert(self@[i as int].address == *address);
                },
                None => {
                    if spec_has(self@, *address) {
                        let i = spec_position(self@, *address);
                        assert(self.entries@[i]@.address == *address);
                    }
                },
            }
        }
        at
    }

    /// The place of the entry for `address`, which is created if there is
    /// none.
    fn slot(&mut self, address: Address, now: u64) -> (at: usize)
        requires
            old(self).wf(),
        ensures
            final(self).wf(),
            final(self)@ == spec_observed(old(self)@, address, now),
            at == spec_position(final(self)@, address),
            at < final(self)@.len(),
            final(self)@[at as int].address == address,
    {
        match self.find(&address) {
            Some(at) => at,
            None => {
                let at: usize = self.entries.len();
                self.entries.push(StatEntry::new(address, now));
                self.index.insert(address, at);
                proof {
                    assert(self@ =~= old(self)@.push(EntryModel::fresh(address, now)));
                    assert(self@[at as int].address == address);
                    assert forall|i: int| 0 <= i < self.entries@.len() implies self.index@.contains_key(
                        (#[trigger] self.entries@[i])@.address,
                    ) && self.index@[self.entries@[i]@.address] == i by {
                        if i < at {
                            assert(old(self).entries@[i]@.address == self.entries@[i]@.address);
                            assert(old(self)@[i].address != address);
                        }
                    }
                    assert forall|i: int, j: int|
                        0 <= i < self@.len() && 0 <= j < self@.len() && #[trigger] self@[i].address
                            == #[trigger] self@[j].address implies i == j by {
                        if i < at {
                            assert(old(self)@[i].address != address);
                        }
                        if j < at {
                            assert(old(self)@[j].address != address);
                        }
                    }
                }
                at
            },
        }
    }

    /// Counts a packet of `len` bytes sent by `address` and seen at `now`.
    pub fn record_transmit(&mut self, address: Address, len: u64, now: u64)
        requires
            old(self).wf(),
        ensures
            final(self).wf(),
            final(self)@ == spec_record_transmit(old(self)@, address, len, now),
            spec_entry(final(self)@, address) == Some(
                spec_or_fresh(spec_entry(old(self)@, address), address, now).with_transmit(len),
            ),
            forall|other: Address|
                other != address ==> #[trigger] spec_entry(final(self)@, other) == spec_entry(
                    old(self)@,
                    other,
                ),
    {
        let at: usize = self.slot(address, now);
        let ghost observed = self@;
        self.entries[at].record_transmit(len);
        proof {
            let change = |e: EntryModel| e.with_transmit(len);
            assert(self@ =~= observed.update(at as int, change(observed[at as int])));
            lemma_updated_wf(old(self)@, address, now, change);
            self.lemma_index_kept(observed, at as int);
            assert forall|other: Address|
                spec_entry(self@, other) == #[trigger] spec_entry(
                    spec_updated(old(self)@, address, now, change),
                    other,
                ) by {}
            assert forall|other: Address| other != address implies #[trigger] spec_entry(
                self@,
                other,
            ) == spec_entry(old(self)@, other) by {
                lemma_updated_entry(old(self)@, address, now, change, other);
            }
            lemma_updated_entry(old(self)@, address, now, change, address);
        }
    }

    /// Counts a packet of `len` bytes sent to `address` and seen at `now`.
    pub fn record_receive(&mut self, address: Address, len: u64, now: u64)
        requires
            old(self).wf(),
        ensures
            final(self).wf(),
            final(self)@ == spec_record_receive(old(self)@, address, len, now),
            spec_entry(final(self)@, address) == Some(
                spec_or_fresh(spec_entry(old(self)@, address), address, now).with_receive(len),
            ),
            forall|other: Address|
                other != address ==> #[trigger] spec_entry(final(self)@, other) == spec_entry(
                    old(self)@,
                    other,
                ),
    {
        let at: usize = self.slot(address, now);
        let ghost observed = self@;
        self.entries[at].record_receive(len);
        proof {
            let change = |e: EntryModel| e.with_receive(len);
            assert(self@ =~= observed.update(at as int, change(observed[at as int])));
            lemma_updated_wf(old(self)@, address, now, change);
            self.lemma_index_kept(observed, at as int);
            assert forall|other: Address|
                spec_entry(self@, other) == #[trigger] spec_entry(
                    spec_updated(old(self)@, address, now, change),
                    other,
                ) by {}
            assert forall|other: Address| other != address implies #[trigger] spec_entry(
                self@,
                other,
            ) == spec_entry(old(self)@, other) by {
                lemma_updated_entry(old(self)@, address, now, change, other);
            }
            lemma_updated_entry(old(self)@, address, now, change, address);
        }
    }

    /// Counts a TCP segment of `len` bytes sent by `address` and seen at
    /// `now`, and applies the retransmission and window-change heuristics
    /// to it.
    pub fn record_transmit_tcp(&mut self, address: Address, len: u64, tcp: &TcpView, now: u64)
        requires
            old(self).wf(),
        ensures
            final(self).wf(),
            final(self)@ == spec_record_transmit_tcp(old(self)@, address, len, *tcp, now),
            spec_entry(final(self)@, address) == Some(
                spec_or_fresh(spec_entry(old(self)@, address), address, now).with_transmit_tcp(len, *tcp),
            ),
            forall|other: Address|
                other != address ==> #[trigger] spec_entry(final(self)@, other) == spec_entry(
                    old(self)@,
                    other,
                ),
    {
        let at: usize = self.slot(address, now);
        let ghost observed = self@;
        self.entries[at].record_transmit_tcp(len, tcp);
        proof {
            let change = |e: EntryModel| e.with_transmit_tcp(len, *tcp);
            assert(self@ =~= observed.update(at as int, change(observed[at as int])));
            lemma_updated_wf(old(self)@, address, now, change);
            self.lemma_index_kept(observed, at as int);
            assert forall|other: Address|
                spec_entry(self@, other) == #[trigger] spec_entry(
                    spec_updated(old(self)@, address, now, change),
                    other,
                ) by {}
            assert forall|other: Address| other != address implies #[trigger] spec_entry(
                self@,
                other,
            ) == spec_entry(old(self)@, other) by {
                lemma_updated_entry(old(self)@, address, now, change, other);
            }
            lemma_updated_entry(old(self)@, address, now, change, address);
        }
    }

    /// Counts a TCP segment of `len` bytes sent to `address` and seen at
    /// `now`, and applies the duplicate-acknowledgment and window-change
    /// heuristics to it.
    pub fn record_receive_tcp(&mut self, address: Address, len: u64, tcp: &TcpView, now: u64)
        requires
            old(self).wf(),
        ensures
            final(self).wf(),
            final(self)@ == spec_record_receive_tcp(old(self)@, address, len, *tcp, now),
            spec_entry(final(self)@, address) == Some(
                spec_or_fresh(spec_entry(old(self)@, address), address, now).with_receive_tcp(len, *tcp),
            ),
            forall|other: Address|
                other != address ==> #[trigger] spec_entry(final(self)@, other) == spec_entry(
                    old(self)@,
                    other,
                ),
    {
        let at: usize = self.slot(address, now);
        let ghost observed = self@;
        self.entries[at].record_receive_tcp(len, tcp);
        proof {
            let change = |e: EntryModel| e.with_receive_tcp(len, *tcp);
            assert(self@ =~= observed.update(at as int, change(observed[at as int])));
            lemma_updated_wf(old(self)@, address, now, change);
            self.lemma_index_kept(observed, at as int);
            assert forall|other: Address|
                spec_entry(self@, other) == #[trigger] spec_entry(
                    spec_updated(old(self)@, address, now, change),
                    other,
                ) by {}
            assert forall|other: Address| other != address implies #[trigger] spec_entry(
                self@,
                other,
            ) == spec_entry(old(self)@, other) by {
                lemma_updated_entry(old(self)@, address, now, change, other);
            }
            lemma_updated_entry(old(self)@, address, now, change, address);
        }
    }

    /// Samples every entry at `now`: the rates of each entry whose last
    /// sample lies a second or more back are computed anew.
    pub fn sample(&mut self, now: u64)
        requires
            old(self).wf(),
        ensures
            final(self).wf(),
            final(self)@ == spec_sample(old(self)@, now),
            forall|address: Address| #[trigger]
                spec_entry(final(self)@, address) == (match spec_entry(old(self)@, address) {
                    Some(entry) => Some(entry.sampled(now)),
                    None => None,
                }),
    {
        let n: usize = self.entries.len();
        let mut i: usize = 0;
        while i < n
            invariant
                i <= n == self.entries@.len() == old(self)@.len(),
                self.index@ == old(self).index@,
                old(self).wf(),
                forall|j: int| 0 <= j < i ==> (#[trigger] self@[j]) == old(self)@[j].sampled(now),
                forall|j: int| i <= j < n ==> (#[trigger] self@[j]) == old(self)@[j],
            decreases n - i,
        {
            let ghost before = self@;
            self.entries[i].sample(now);
            proof {
                assert(self@ =~= before.update(i as int, before[i as int].sampled(now)));
            }
            i = i + 1;
        }
        proof {
            assert(self@ =~= spec_sample(old(self)@, now));
            assert forall|address: Address| #[trigger]
                spec_entry(self@, address) == (match spec_entry(old(self)@, address) {
                    Some(entry) => Some(entry.sampled(now)),
                    None => None,
                }) by {
                lemma_sampled_entry(old(self)@, now, address);
            }
            assert forall|j: int| 0 <= j < n implies (#[trigger] self.entries@[j])@.address == old(
                self,
            ).entries@[j]@.address by {
                assert(self@[j].address == old(self)@[j].address);
            }
        }
    }

    /// A copy of every entry's address and counters, in the order of
    /// first observation.
    pub fn snapshot(&self) -> (rows: Vec<EntrySnapshot>)
        ensures
            rows@ == spec_snapshot(self@),
    {
        let n: usize = self.entries.len();
        let mut rows: Vec<EntrySnapshot> = Vec::new();
        let mut i: usize = 0;
        while i < n
            invariant
                i <= n == self.entries@.len(),
                rows@ == spec_snapshot(self@).take(i as int),
            decreases n - i,
        {
            let entry = &self.entries[i];
            rows.push(EntrySnapshot { address: entry.address(), counters: entry.counters() });
            proof {
                assert(rows@ =~= spec_snapshot(self@).take(i + 1));
            }
            i = i + 1;
        }
        proof {
            assert(rows@ =~= spec_snapshot(self@));
        }
        rows
    }

    /// The counters of `address`, if it was observed.
    pub fn counters(&self, address: &Address) -> (counters: Option<Counters>)
        requires
            self.wf(),
        ensures
            counters == match spec_entry(self@, *address) {
                Some(entry) => Some(entry.counters),
                None => None,
            },
    {
        match self.find(address) {
            Some(at) => Some(self.entries[at].counters()),
            None => None,
        }
    }

    /// The sequence number expected next of `port` at `address`, if any.
    pub fn expected_sequence(&self, address: &Address, port: u16) -> (next: Option<u32>)
        requires
            self.wf(),
        ensures
            next == match spec_entry(self@, *address) {
                Some(entry) => if entry.expected_seq.contains_key(port) {
                    Some(entry.expected_seq[port])
                } else {
                    None
                },
                None => None,
            },
    {
        match self.find(address) {
            Some(at) => self.entries[at].expected_sequence(port),
            None => None,
        }
    }

    /// The window size last advertised on `port` at `address`, if any.
    pub fn last_window(&self, address: &Address, port: u16) -> (window: Option<u16>)
        requires
            self.wf(),
        ensures
            window == match spec_entry(self@, *address) {
                Some(entry) => if entry.last_window.contains_key(port) {
                    Some(entry.last_window[port])
                } else {
                    None
                },
                None => None,
            },
    {
        match self.find(address) {
            Some(at) => self.entries[at].last_window(port),
            None => None,
        }
    }

    /// A change to one entry that keeps its address keeps the index right.
    proof fn lemma_index_kept(&self, before: Seq<EntryModel>, at: int)
        requires
            0 <= at < before.len(),
            self@.len() == before.len(),
            forall|i: int| 0 <= i < before.len() ==> (#[trigger] self@[i]).address == before[i].address,
            spec_wf(self@),
            forall|a: Address| #[trigger]
                self.index@.contains_key(a) ==> self.index@[a] < before.len()
                    && before[self.index@[a] as int].address == a,
            forall|i: int|
                0 <= i < before.len() ==> self.index@.contains_key((#[trigger] before[i]).address)
                    && self.index@[before[i].address] == i,
        ensures
            self.wf(),
    {
        assert forall|a: Address| #[trigger] self.index@.contains_key(a) implies self.index@[a]
            < self.entries@.len() && self.entries@[self.index@[a] as int]@.address == a by {
            assert(self@[self.index@[a] as int].address == a);
        }
        assert forall|i: int| 0 <= i < self.entries@.len() implies self.index@.contains_key(
            (#[trigger] self.entries@[i])@.address,
        ) && self.index@[self.entries@[i]@.address] == i by {
            assert(self@[i].address == before[i].address);
        }
    }
}

} // verus!
