//! The statistics kept for one observed address.
//!
//! Cumulative counters only grow: they saturate at the top of their range
//! instead of wrapping. Each has a shadow that holds its value at the last
//! sample; the per-second figures are the growth between two samples.

use crate::address::Address;
use crate::frame::TcpView;
use crate::frame::TCP_ACK;
use crate::frame::TCP_FIN;
use crate::frame::TCP_SYN;
use std::collections::HashMap;
use vstd::prelude::*;

verus! {

broadcast use vstd::std_specs::hash::group_hash_axioms;

/// Shortest span between two samples of one entry, in nanoseconds.
pub const SAMPLE_WINDOW_NANOS: u64 = 1_000_000_000;

/// The counters of one address. Times are readings of a monotonic clock
/// in nanoseconds.
#[derive(Clone, Copy, Debug, PartialEq, Eq, Structural)]
pub struct Counters {
    /// Packets sent, since the address was first seen.
    pub tx_packets: u64,
    /// Packets received, since the address was first seen.
    pub rx_packets: u64,
    /// Bytes sent, since the address was first seen.
    pub tx_bytes: u64,
    /// Bytes received, since the address was first seen.
    pub rx_bytes: u64,
    /// Sent segments taken for retransmissions.
    pub retransmissions: u64,
    /// Received segments taken for duplicate acknowledgments.
    pub duplicate_acks: u64,
    /// Times a port's advertised window differed from the one before.
    pub window_changes: u64,
    /// `tx_bytes` at the last sample.
    pub sampled_tx_bytes: u64,
    /// `rx_bytes` at the last sample.
    pub sampled_rx_bytes: u64,
    /// `retransmissions` at the last sample.
    pub sampled_retransmissions: u64,
    /// `duplicate_acks` at the last sample.
    pub sampled_duplicate_acks: u64,
    /// `window_changes` at the last sample.
    pub sampled_window_changes: u64,
    /// When the entry was last sampled, or created if it never was.
    pub last_sample: u64,
    /// Length of the window that the last sample closed; zero before the
    /// first sample. The bit rates are the byte figures below, times
    /// eight, over this span.
    pub window_nanos: u64,
    /// Bytes sent in the window that the last sample closed.
    pub tx_bytes_per_sec: u64,
    /// Bytes received in the window that the last sample closed.
    pub rx_bytes_per_sec: u64,
    /// Retransmissions in the window that the last sample closed.
    pub retransmissions_per_sec: u64,
    /// Duplicate acknowledgments in the window that the last sample closed.
    pub duplicate_acks_per_sec: u64,
    /// Window changes in the window that the last sample closed.
    pub window_changes_per_sec: u64,
}

impl Counters {
    /// The counters of an address first seen at `now`.
    pub open spec fn spec_fresh(now: u64) -> Counters {
        Counters {
            tx_packets: 0,
            rx_packets: 0,
            tx_bytes: 0,
            rx_bytes: 0,
            retransmissions: 0,
            duplicate_acks: 0,
            window_changes: 0,
            sampled_tx_bytes: 0,
            sampled_rx_bytes: 0,
            sampled_retransmissions: 0,
            sampled_duplicate_acks: 0,
            sampled_window_changes: 0,
            last_sample: now,
            window_nanos: 0,
            tx_bytes_per_sec: 0,
            rx_bytes_per_sec: 0,
            retransmissions_per_sec: 0,
            duplicate_acks_per_sec: 0,
            window_changes_per_sec: 0,
        }
    }

    /// No shadow is ahead of its counter.
    pub open spec fn wf(self) -> bool {
        &&& self.sampled_tx_bytes <= self.tx_bytes
        &&& self.sampled_rx_bytes <= self.rx_bytes
        &&& self.sampled_retransmissions <= self.retransmissions
        &&& self.sampled_duplicate_acks <= self.duplicate_acks
        &&& self.sampled_window_changes <= self.window_changes
    }

    /// Every cumulative counter of `self` is at least that of `earlier`.
    pub open spec fn extends(self, earlier: Counters) -> bool {
        &&& earlier.tx_packets <= self.tx_packets
        &&& earlier.rx_packets <= self.rx_packets
        &&& earlier.tx_bytes <= self.tx_bytes
        &&& earlier.rx_bytes <= self.rx_bytes
        &&& earlier.retransmissions <= self.retransmissions
        &&& earlier.duplicate_acks <= self.duplicate_acks
        &&& earlier.window_changes <= self.window_changes
    }

    /// After one more packet of `len` bytes was sent.
    pub open spec fn with_transmit(self, len: u64) -> Counters {
        Counters {
            tx_packets: self.tx_packets.saturating_add(1),
            tx_bytes: self.tx_bytes.saturating_add(len),
            ..self
        }
    }

    /// After one more packet of `len` bytes was received.
    pub open spec fn with_receive(self, len: u64) -> Counters {
        Counters {
            rx_packets: self.rx_packets.saturating_add(1),
            rx_bytes: self.rx_bytes.saturating_add(len),
            ..self
        }
    }

    /// After one more retransmission, if `seen`.
    pub open spec fn with_retransmission(self, seen: bool) -> Counters {
        if seen {
            Counters { retransmissions: self.retransmissions.saturating_add(1), ..self }
        } else {
            self
        }
    }

    /// After one more duplicate acknowledgment, if `seen`.
    pub open spec fn with_duplicate_ack(self, seen: bool) -> Counters {
        if seen {
            Counters { duplicate_acks: self.duplicate_acks.saturating_add(1), ..self }
        } else {
            self
        }
    }

    /// After one more window change, if `seen`.
    pub open spec fn with_window_change(self, seen: bool) -> Counters {
        if seen {
            Counters { window_changes: self.window_changes.saturating_add(1), ..self }
        } else {
            self
        }
    }

    /// Nanoseconds from the last sample to `now`; zero if the clock reads
    /// earlier than it did then.
    pub open spec fn elapsed(self, now: u64) -> u64 {
        now.saturating_sub(self.last_sample)
    }

    /// Whether a sample at `now` closes a window.
    pub open spec fn is_due(self, now: u64) -> bool {
        self.elapsed(now) >= SAMPLE_WINDOW_NANOS
    }

    /// After a sample at `now`. Within a second of the last sample nothing
    /// changes. Otherwise each per-second figure becomes the growth of its
    /// counter since the last sample, each shadow catches up with its
    /// counter, and the window is closed at `now`.
    pub open spec fn sampled(self, now: u64) -> Counters {
        if self.is_due(now) {
            Counters {
                tx_bytes_per_sec: (self.tx_bytes - self.sampled_tx_bytes) as u64,
                rx_bytes_per_sec: (self.rx_bytes - self.sampled_rx_bytes) as u64,
                retransmissions_per_sec: (self.retransmissions
                    - self.sampled_retransmissions) as u64,
                duplicate_acks_per_sec: (self.duplicate_acks - self.sampled_duplicate_acks) as u64,
                window_changes_per_sec: (self.window_changes - self.sampled_window_changes) as u64,
                sampled_tx_bytes: self.tx_bytes,
                sampled_rx_bytes: self.rx_bytes,
                sampled_retransmissions: self.retransmissions,
                sampled_duplicate_acks: self.duplicate_acks,
                sampled_window_changes: self.window_changes,
                last_sample: now,
                window_nanos: self.elapsed(now),
                ..self
            }
        } else {
            self
        }
    }

    /// The counters of an address first seen at `now`.
    pub fn fresh(now: u64) -> (c: Counters)
        ensures
            c == Counters::spec_fresh(now),
            c.wf(),
    {
        Counters {
            tx_packets: 0,
            rx_packets: 0,
            tx_bytes: 0,
            rx_bytes: 0,
            retransmissions: 0,
            duplicate_acks: 0,
            window_changes: 0,
            sampled_tx_bytes: 0,
            sampled_rx_bytes: 0,
            sampled_retransmissions: 0,
            sampled_duplicate_acks: 0,
            sampled_window_changes: 0,
            last_sample: now,
            window_nanos: 0,
            tx_bytes_per_sec: 0,
            rx_bytes_per_sec: 0,
            retransmissions_per_sec: 0,
            duplicate_acks_per_sec: 0,
            window_changes_per_sec: 0,
        }
    }

    /// Counts one sent packet of `len` bytes.
    pub fn record_transmit(&mut self, len: u64)
        ensures
            *final(self) == old(self).with_transmit(len),
    {
        self.tx_packets = self.tx_packets.saturating_add(1);
        self.tx_bytes = self.tx_bytes.saturating_add(len);
    }

    /// Counts one received packet of `len` bytes.
    pub fn record_receive(&mut self, len: u64)
        ensures
            *final(self) == old(self).with_receive(len),
    {
        self.rx_packets = self.rx_packets.saturating_add(1);
        self.rx_bytes = self.rx_bytes.saturating_add(len);
    }

    /// Samples the counters at `now`.
    pub fn sample(&mut self, now: u64)
        requires
            old(self).wf(),
        ensures
            *final(self) == old(self).sampled(now),
            final(self).wf(),
    {
        let elapsed: u64 = now.saturating_sub(self.last_sample);
        if elapsed >= SAMPLE_WINDOW_NANOS {
            self.tx_bytes_per_sec = self.tx_bytes - self.sampled_tx_bytes;
            self.rx_bytes_per_sec = self.rx_bytes - self.sampled_rx_bytes;
            self.retransmissions_per_sec = self.retransmissions - self.sampled_retransmissions;
            self.duplicate_acks_per_sec = self.duplicate_acks - self.sampled_duplicate_acks;
            self.window_changes_per_sec = self.window_changes - self.sampled_window_changes;
            self.sampled_tx_bytes = self.tx_bytes;
            self.sampled_rx_bytes = self.rx_bytes;
            self.sampled_retransmissions = self.retransmissions;
            self.sampled_duplicate_acks = self.duplicate_acks;
            self.sampled_window_changes = self.window_changes;
            self.last_sample = now;
            self.window_nanos = elapsed;
        }
    }
}

/// The sequence number that the sender of `tcp` is expected to use next,
/// where the segment moves it: past the payload if there is one, else past
/// the one number that a SYN or FIN takes. Sequence numbers wrap.
pub open spec fn spec_next_expected(tcp: TcpView) -> Option<u32> {
    if tcp.payload_length > 0 {
        Some(tcp.sequence_number.wrapping_add(tcp.payload_length))
    } else if tcp.spec_has_flag(TCP_SYN) || tcp.spec_has_flag(TCP_FIN) {
        Some(tcp.sequence_number.wrapping_add(1))
    } else {
        None
    }
}

/// Whether a received segment counts as a duplicate acknowledgment: it
/// has the ACK flag and no payload.
pub open spec fn spec_is_duplicate_ack(tcp: TcpView) -> bool {
    tcp.spec_has_flag(TCP_ACK) && tcp.payload_length == 0
}

/// What an entry holds: its counters and its two tables keyed by port.
pub struct EntryModel {
    pub address: Address,
    pub counters: Counters,
    /// By source port, the sequence number expected next.
    pub expected_seq: Map<u16, u32>,
    /// By port, the window size last advertised.
    pub last_window: Map<u16, u16>,
}

impl EntryModel {
    /// The entry of an address first seen at `now`.
    pub open spec fn fresh(address: Address, now: u64) -> EntryModel {
        EntryModel {
            address,
            counters: Counters::spec_fresh(now),
            expected_seq: Map::empty(),
            last_window: Map::empty(),
        }
    }

    /// Whether a sent segment counts as a retransmission: its sequence
    /// number is below the one expected of its source port. A sequence
    /// number that has wrapped round counts too.
    pub open spec fn is_retransmission(self, tcp: TcpView) -> bool {
        self.expected_seq.contains_key(tcp.source_port) && tcp.sequence_number
            < self.expected_seq[tcp.source_port]
    }

    /// Whether `window` differs from the one last advertised on `port`.
    pub open spec fn is_window_change(self, port: u16, window: u16) -> bool {
        self.last_window.contains_key(port) && self.last_window[port] != window
    }

    /// After one more packet of `len` bytes was sent.
    pub open spec fn with_transmit(self, len: u64) -> EntryModel {
        EntryModel { counters: self.counters.with_transmit(len), ..self }
    }

    /// After one more packet of `len` bytes was received.
    pub open spec fn with_receive(self, len: u64) -> EntryModel {
        EntryModel { counters: self.counters.with_receive(len), ..self }
    }

    /// After one more TCP segment of `len` bytes was sent.
    pub open spec fn with_transmit_tcp(self, len: u64, tcp: TcpView) -> EntryModel {
        EntryModel {
            address: self.address,
            counters: self.counters.with_transmit(len).with_retransmission(
                self.is_retransmission(tcp),
            ).with_window_change(self.is_window_change(tcp.source_port, tcp.window_size)),
            expected_seq: match spec_next_expected(tcp) {
                Some(next) => self.expected_seq.insert(tcp.source_port, next),
                None => self.expected_seq,
            },
            last_window: self.last_window.insert(tcp.source_port, tcp.window_size),
        }
    }

    /// After one more TCP segment of `len` bytes was received.
    pub open spec fn with_receive_tcp(self, len: u64, tcp: TcpView) -> EntryModel {
        EntryModel {
            address: self.address,
            counters: self.counters.with_receive(len).with_duplicate_ack(
                spec_is_duplicate_ack(tcp),
            ).with_window_change(self.is_window_change(tcp.destination_port, tcp.window_size)),
            expected_seq: self.expected_seq,
            last_window: self.last_window.insert(tcp.destination_port, tcp.window_size),
        }
    }

    /// After a sample at `now`.
    pub open spec fn sampled(self, now: u64) -> EntryModel {
        EntryModel { counters: self.counters.sampled(now), ..self }
    }
}

/// The statistics of one observed address.
pub struct StatEntry {
    address: Address,
    counters: Counters,
    expected_seq: HashMap<u16, u32>,
    last_window: HashMap<u16, u16>,
}

impl View for StatEntry {
    type V = EntryModel;

    closed spec fn view(&self) -> EntryModel {
        EntryModel {
            address: self.address,
            counters: self.counters,
            expected_seq: self.expected_seq@,
            last_window: self.last_window@,
        }
    }
}

impl StatEntry {
    /// The entry of an address first seen at `now`.
    pub fn new(address: Address, now: u64) -> (entry: StatEntry)
        ensures
            entry@ == EntryModel::fresh(address, now),
    {
        StatEntry {
            address,
            counters: Counters::fresh(now),
            expected_seq: HashMap::new(),
            last_window: HashMap::new(),
        }
    }

    /// The address that the entry is about.
    pub fn address(&self) -> (address: Address)
        ensures
            address == self@.address,
    {
        self.address
    }

    /// The entry's counters.
    pub fn counters(&self) -> (counters: Counters)
        ensures
            counters == self@.counters,
    {
        self.counters
    }

    /// The sequence number expected next of `port`, if the port has sent
    /// anything that set one.
    pub fn expected_sequence(&self, port: u16) -> (next: Option<u32>)
        ensures
            next == (if self@.expected_seq.contains_key(port) {
                Some(self@.expected_seq[port])
            } else {
                None
            }),
    {
        match self.expected_seq.get(&port) {
            Some(next) => Some(*next),
            None => None,
        }
    }

    /// The window size last advertised on `port`, if any was.
    pub fn last_window(&self, port: u16) -> (window: Option<u16>)
        ensures
            window == (if self@.last_window.contains_key(port) {
                Some(self@.last_window[port])
            } else {
                None
            }),
    {
        match self.last_window.get(&port) {
            Some(window) => Some(*window),
            None => None,
        }
    }

    /// Counts one sent packet of `len` bytes.
    pub fn record_transmit(&mut self, len: u64)
        ensures
            final(self)@ == old(self)@.with_transmit(len),
    {
        self.counters.record_transmit(len);
    }

    /// Counts one received packet of `len` bytes.
    pub fn record_receive(&mut self, len: u64)
        ensures
            final(self)@ == old(self)@.with_receive(len),
    {
        self.counters.record_receive(len);
    }

    /// Notes the window size that a segment advertises on `port`; returns
    /// whether it differs from the one noted before.
    fn note_window(&mut self, port: u16, window: u16) -> (changed: bool)
        ensures
            changed == old(self)@.is_window_change(port, window),
            final(self)@ == (EntryModel {
                last_window: old(self)@.last_window.insert(port, window),
                ..old(self)@
            }),
    {
        let changed = match self.last_window.get(&port) {
            Some(last) => *last != window,
            None => false,
        };
        self.last_window.insert(port, window);
        changed
    }

    /// Counts one sent TCP segment of `len` bytes: a retransmission if its
    /// sequence number is below the one expected of its source port, and
    /// a window change if its window differs from the port's last one.
    pub fn record_transmit_tcp(&mut self, len: u64, tcp: &TcpView)
        ensures
            final(self)@ == old(self)@.with_transmit_tcp(len, *tcp),
    {
        self.counters.record_transmit(len);
        let retransmitted = match self.expected_seq.get(&tcp.source_port) {
            Some(expected) => tcp.sequence_number < *expected,
            None => false,
        };
        if retransmitted {
            self.counters.retransmissions = self.counters.retransmissions.saturating_add(1);
        }
        if tcp.payload_length > 0 {
            self.expected_seq.insert(
                tcp.source_port,
                tcp.sequence_number.wrapping_add(tcp.payload_length),
            );
        } else if tcp.has_flag(TCP_SYN) || tcp.has_flag(TCP_FIN) {
            self.expected_seq.insert(tcp.source_port, tcp.sequence_number.wrapping_add(1));
        }
        if self.note_window(tcp.source_port, tcp.window_size) {
            self.counters.window_changes = self.counters.window_changes.saturating_add(1);
        }
    }

    /// Counts one received TCP segment of `len` bytes: a duplicate
    /// acknowledgment if it has the ACK flag and no payload, and a window
    /// change if its window differs from the port's last one.
    pub fn record_receive_tcp(&mut self, len: u64, tcp: &TcpView)
        ensures
            final(self)@ == old(self)@.with_receive_tcp(len, *tcp),
    {
        self.counters.record_receive(len);
        if tcp.has_flag(TCP_ACK) && tcp.payload_length == 0 {
            self.counters.duplicate_acks = self.counters.duplicate_acks.saturating_add(1);
        }
        if self.note_window(tcp.destination_port, tcp.window_size) {
            self.counters.window_changes = self.counters.window_changes.saturating_add(1);
        }
    }

    /// Samples the entry at `now`.
    pub fn sample(&mut self, now: u64)
        requires
            old(self)@.counters.wf(),
        ensures
            final(self)@ == old(self)@.sampled(now),
    {
        self.counters.sample(now);
    }
}

} // verus!
