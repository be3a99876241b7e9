//! What holds of the store over every run of events.
//!
//! The store keeps the entries of different addresses apart: what a run of
//! events makes of one address's entry depends on that entry and on the
//! events alone. The laws below are stated of one entry and carried over
//! to the store by that.

use crate::address::Address;
use crate::capture::spec_frame_events;
use crate::capture::spec_run;
use crate::capture::spec_step;
use crate::capture::StoreEvent;
use crate::entry::Counters;
use crate::entry::EntryModel;
use crate::frame::FrameView;
use crate::store::lemma_sampled_entry;
use crate::store::lemma_updated_entry;
use crate::store::lemma_updated_wf;
use crate::store::spec_entry;
use crate::store::spec_or_fresh;
use crate::store::spec_sample;
use crate::store::spec_wf;
use vstd::prelude::*;

verus! {

/// What one event makes of the entry for `address`.
pub open spec fn spec_entry_step(
    entry: Option<EntryModel>,
    event: StoreEvent,
    address: Address,
) -> Option<EntryModel> {
    match event {
        StoreEvent::Transmit { address: a, len, now } => if a == address {
            Some(spec_or_fresh(entry, address, now).with_transmit(len))
        } else {
            entry
        },
        StoreEvent::Receive { address: a, len, now } => if a == address {
            Some(spec_or_fresh(entry, address, now).with_receive(len))
        } else {
            entry
        },
        StoreEvent::TransmitTcp { address: a, len, tcp, now } => if a == address {
            Some(spec_or_fresh(entry, address, now).with_transmit_tcp(len, tcp))
        } else {
            entry
        },
        StoreEvent::ReceiveTcp { address: a, len, tcp, now } => if a == address {
            Some(spec_or_fresh(entry, address, now).with_receive_tcp(len, tcp))
        } else {
            entry
        },
        StoreEvent::Sample { now } => match entry {
            Some(entry) => Some(entry.sampled(now)),
            None => None,
        },
    }
}

/// What a run of events makes of the entry for `address`.
pub open spec fn spec_entry_run(
    entry: Option<EntryModel>,
    events: Seq<StoreEvent>,
    address: Address,
) -> Option<EntryModel>
    decreases events.len(),
{
    if events.len() == 0 {
        entry
    } else {
        spec_entry_step(spec_entry_run(entry, events.drop_last(), address), events.last(), address)
    }
}

/// One event keeps a store well formed, and makes of each address's entry
/// what it would make of that entry alone.
pub proof fn lemma_step_by_entry(entries: Seq<EntryModel>, event: StoreEvent, address: Address)
    requires
        spec_wf(entries),
    ensures
        spec_wf(spec_step(entries, event)),
        spec_entry(spec_step(entries, event), address) == spec_entry_step(
            spec_entry(entries, address),
            event,
            address,
        ),
{
    match event {
        StoreEvent::Transmit { address: a, len, now } => {
            let change = |e: EntryModel| e.with_transmit(len);
            lemma_updated_wf(entries, a, now, change);
            lemma_updated_entry(entries, a, now, change, address);
        },
        StoreEvent::Receive { address: a, len, now } => {
            let change = |e: EntryModel| e.with_receive(len);
            lemma_updated_wf(entries, a, now, change);
            lemma_updated_entry(entries, a, now, change, address);
        },
        StoreEvent::TransmitTcp { address: a, len, tcp, now } => {
            let change = |e: EntryModel| e.with_transmit_tcp(len, tcp);
            lemma_updated_wf(entries, a, now, change);
            lemma_updated_entry(entries, a, now, change, address);
        },
        StoreEvent::ReceiveTcp { address: a, len, tcp, now } => {
            let change = |e: EntryModel| e.with_receive_tcp(len, tcp);
            lemma_updated_wf(entries, a, now, change);
            lemma_updated_entry(entries, a, now, change, address);
        },
        StoreEvent::Sample { now } => {
            lemma_sampled_entry(entries, now, address);
        },
    }
}

/// A run of events keeps a store well formed, and makes of each address's
/// entry what it would make of that entry alone.
pub proof fn lemma_run_by_entry(entries: Seq<EntryModel>, events: Seq<StoreEvent>, address: Address)
    requires
        spec_wf(entries),
    ensures
        spec_wf(spec_run(entries, events)),
        spec_entry(spec_run(entries, events), address) == spec_entry_run(
            spec_entry(entries, address),
            events,
            address,
        ),
    decreases events.len(),
{
    if events.len() > 0 {
        lemma_run_by_entry(entries, events.drop_last(), address);
        lemma_step_by_entry(spec_run(entries, events.drop_last()), events.last(), address);
    }
}

/// No event takes an entry away or lowers one of its cumulative counters.
pub proof fn lemma_entry_run_grows(entry: EntryModel, events: Seq<StoreEvent>, address: Address)
    ensures
        spec_entry_run(Some(entry), events, address) is Some,
        spec_entry_run(Some(entry), events, address)->0.counters.extends(entry.counters),
    decreases events.len(),
{
    if events.len() > 0 {
        lemma_entry_run_grows(entry, events.drop_last(), address);
    }
}

/// Cumulative counters never decrease: over any run of packets and
/// samples, in any order, an address that the store holds stays in it, and
/// each of its cumulative counters ends at least where it began.
pub proof fn lemma_counters_never_decrease(
    entries: Seq<EntryModel>,
    events: Seq<StoreEvent>,
    address: Address,
)
    requires
        spec_wf(entries),
        spec_entry(entries, address) is Some,
    ensures
        spec_entry(spec_run(entries, events), address) is Some,
        spec_entry(spec_run(entries, events), address)->0.counters.extends(
            spec_entry(entries, address)->0.counters,
        ),
{
    lemma_run_by_entry(entries, events, address);
    lemma_entry_run_grows(spec_entry(entries, address)->0, events, address);
}

/// Whether a run of events counts `address` as a receiver and never as a
/// sender.
pub open spec fn spec_destination_only(events: Seq<StoreEvent>, address: Address) -> bool {
    &&& forall|i: int| 0 <= i < events.len() ==> !(#[trigger] events[i]).sends_from(address)
    &&& exists|i: int| 0 <= i < events.len() && (#[trigger] events[i]).arrives_at(address)
}

/// What a run of events that never counts `address` as a sender makes of
/// no entry: none still if it never counts the address as a receiver, else
/// an entry that has sent nothing and received at least one packet, and at
/// least one byte if none of those packets was empty.
proof fn lemma_never_sender(events: Seq<StoreEvent>, address: Address)
    requires
        forall|i: int| 0 <= i < events.len() ==> !(#[trigger] events[i]).sends_from(address),
    ensures
        (exists|i: int| 0 <= i < events.len() && (#[trigger] events[i]).arrives_at(address))
            <==> spec_entry_run(None, events, address) is Some,
        spec_entry_run(None, events, address) is Some ==> ({
            let counters = spec_entry_run(None, events, address)->0.counters;
            &&& counters.tx_packets == 0
            &&& counters.tx_bytes == 0
            &&& counters.retransmissions == 0
            &&& counters.rx_packets > 0
            &&& (forall|i: int|
                0 <= i < events.len() && (#[trigger] events[i]).arrives_at(address)
                    ==> events[i].len() > 0) ==> counters.rx_bytes > 0
        }),
    decreases events.len(),
{
    if events.len() > 0 {
        let earlier = events.drop_last();
        let last = events.last();
        assert forall|i: int| 0 <= i < earlier.len() implies !(#[trigger] earlier[i]).sends_from(
            address,
        ) by {
            assert(earlier[i] == events[i]);
        }
        lemma_never_sender(earlier, address);
        assert(!events[events.len() - 1].sends_from(address));
        if exists|i: int| 0 <= i < earlier.len() && (#[trigger] earlier[i]).arrives_at(address) {
            let i = choose|i: int| 0 <= i < earlier.len() && (#[trigger] earlier[i]).arrives_at(address);
            assert(events[i].arrives_at(address));
        }
        if exists|i: int| 0 <= i < events.len() && (#[trigger] events[i]).arrives_at(address) {
            let i = choose|i: int| 0 <= i < events.len() && (#[trigger] events[i]).arrives_at(address);
            if i < earlier.len() {
                assert(earlier[i].arrives_at(address));
            }
        }
        if forall|i: int|
            0 <= i < events.len() && (#[trigger] events[i]).arrives_at(address) ==> events[i].len()
                > 0 {
            assert forall|i: int|
                0 <= i < earlier.len() && (#[trigger] earlier[i]).arrives_at(
                    address,
                ) implies earlier[i].len() > 0 by {
                assert(earlier[i] == events[i]);
            }
            assert(events[events.len() - 1].arrives_at(address) ==> last.len() > 0);
        }
    }
}

/// An address seen only as a destination has sent nothing: after any run
/// of events, from an empty store, that counts the address as a receiver
/// at least once and never as a sender, the store holds an entry for it
/// whose transmit counters are zero and whose received-packet count is
/// not. Its received-byte count is above zero too unless every packet it
/// received was empty.
pub proof fn lemma_destination_only(events: Seq<StoreEvent>, address: Address)
    requires
        spec_destination_only(events, address),
    ensures
        spec_entry(spec_run(Seq::empty(), events), address) is Some,
        ({
            let counters = spec_entry(spec_run(Seq::empty(), events), address)->0.counters;
            &&& counters.tx_packets == 0
            &&& counters.tx_bytes == 0
            &&& counters.retransmissions == 0
            &&& counters.rx_packets > 0
            &&& (forall|i: int|
                0 <= i < events.len() && (#[trigger] events[i]).arrives_at(address)
                    ==> events[i].len() > 0) ==> counters.rx_bytes > 0
        }),
{
    lemma_run_by_entry(Seq::empty(), events, address);
    lemma_never_sender(events, address);
}

/// A frame counts an address as a sender only if the address is its
/// source, and as a receiver only if the address is its IPv4 destination
/// and monitored.
pub proof fn lemma_frame_counts_its_ends(
    view: Option<FrameView>,
    monitored: Set<u32>,
    len: u64,
    now: u64,
    address: Address,
    i: int,
)
    requires
        0 <= i < spec_frame_events(view, monitored, len, now).len(),
    ensures
        spec_frame_events(view, monitored, len, now)[i].sends_from(address) ==> (match view {
            Some(FrameView::Ipv4 { source, .. }) => address == Address::V4(source)
                && monitored.contains(source),
            Some(FrameView::Ipv6 { source, .. }) => address == Address::V6(source),
            _ => false,
        }),
        spec_frame_events(view, monitored, len, now)[i].arrives_at(address) ==> (match view {
            Some(FrameView::Ipv4 { destination, .. }) => address == Address::V4(destination)
                && monitored.contains(destination),
            _ => false,
        }),
        spec_frame_events(view, monitored, len, now)[i].len() == len,
{
}

/// A second sample within a second of the first changes nothing: once
/// counters were sampled at `now`, a sample at any `again` less than a
/// second later leaves them as they are.
pub proof fn lemma_sample_settles(counters: Counters, now: u64, again: u64)
    requires
        counters.is_due(now),
        again.saturating_sub(now) < crate::entry::SAMPLE_WINDOW_NANOS,
    ensures
        counters.sampled(now).sampled(again) == counters.sampled(now),
{
}

/// Sampling a store twice at the same instant is sampling it once.
pub proof fn lemma_sample_idempotent(entries: Seq<EntryModel>, now: u64)
    ensures
        spec_sample(spec_sample(entries, now), now) == spec_sample(entries, now),
{
    assert(spec_sample(spec_sample(entries, now), now) =~= spec_sample(entries, now));
}

/// A sample moves no cumulative counter.
pub proof fn lemma_sample_keeps_totals(counters: Counters, now: u64)
    ensures
        counters.sampled(now).extends(counters),
        counters.extends(counters.sampled(now)),
{
}

} // verus!
