//! From captured frames to updates of the statistics store.
//!
//! A frame is decoded, the addresses it carries are held against the
//! monitored set, and each monitored end is counted: the source as a
//! sender, the destination as a receiver. The source of an IPv6 frame is
//! counted as a sender without a look at the monitored set. A frame that
//! cannot be decoded counts for nothing.

use crate::address::Address;
use crate::frame::classify;
use crate::frame::spec_classify;
use crate::frame::FrameView;
use crate::frame::TcpView;
use crate::frame::Transport;
use crate::entry::EntryModel;
use crate::store::spec_record_receive;
use crate::store::spec_record_receive_tcp;
use crate::store::spec_record_transmit;
use crate::store::spec_record_transmit_tcp;
use crate::store::spec_sample;
use crate::store::StatisticsStore;
use crate::subnet::MonitoredSet;
use vstd::prelude::*;

verus! {

/// One thing that happens to the store.
#[derive(Clone, Copy, Debug, PartialEq, Eq, Structural)]
pub enum StoreEvent {
    /// A packet of `len` bytes from `address` was seen at `now`.
    Transmit { address: Address, len: u64, now: u64 },
    /// A packet of `len` bytes to `address` was seen at `now`.
    Receive { address: Address, len: u64, now: u64 },
    /// A TCP segment of `len` bytes from `address` was seen at `now`.
    TransmitTcp { address: Address, len: u64, tcp: TcpView, now: u64 },
    /// A TCP segment of `len` bytes to `address` was seen at `now`.
    ReceiveTcp { address: Address, len: u64, tcp: TcpView, now: u64 },
    /// Every entry was sampled at `now`.
    Sample { now: u64 },
}

impl StoreEvent {
    /// Whether the event counts `address` as a sender.
    pub open spec fn sends_from(self, address: Address) -> bool {
        match self {
            StoreEvent::Transmit { address: a, .. } => a == address,
            StoreEvent::TransmitTcp { address: a, .. } => a == address,
            _ => false,
        }
    }

    /// Whether the event counts `address` as a receiver.
    pub open spec fn arrives_at(self, address: Address) -> bool {
        match self {
            StoreEvent::Receive { address: a, .. } => a == address,
            StoreEvent::ReceiveTcp { address: a, .. } => a == address,
            _ => false,
        }
    }

    /// The bytes that the event counts, if it counts a packet.
    pub open spec fn len(self) -> u64 {
        match self {
            StoreEvent::Transmit { len, .. } => len,
            StoreEvent::Receive { len, .. } => len,
            StoreEvent::TransmitTcp { len, .. } => len,
            StoreEvent::ReceiveTcp { len, .. } => len,
            StoreEvent::Sample { .. } => 0,
        }
    }
}

/// The store after one event.
pub open spec fn spec_step(entries: Seq<EntryModel>, event: StoreEvent) -> Seq<EntryModel> {
    match event {
        StoreEvent::Transmit { address, len, now } => spec_record_transmit(
            entries,
            address,
            len,
            now,
        ),
        StoreEvent::Receive { address, len, now } => spec_record_receive(entries, address, len, now),
        StoreEvent::TransmitTcp { address, len, tcp, now } => spec_record_transmit_tcp(
            entries,
            address,
            len,
            tcp,
            now,
        ),
        StoreEvent::ReceiveTcp { address, len, tcp, now } => spec_record_receive_tcp(
            entries,
            address,
            len,
            tcp,
            now,
        ),
        StoreEvent::Sample { now } => spec_sample(entries, now),
    }
}

/// The store after a run of events, the first of them first.
pub open spec fn spec_run(entries: Seq<EntryModel>, events: Seq<StoreEvent>) -> Seq<EntryModel>
    decreases events.len(),
{
    if events.len() == 0 {
        entries
    } else {
        spec_step(spec_run(entries, events.drop_last()), events.last())
    }
}

/// Lets one event happen to the store.
pub fn apply(store: &mut StatisticsStore, event: &StoreEvent)
    requires
        old(store).wf(),
    ensures
        final(store).wf(),
        final(store)@ == spec_step(old(store)@, *event),
{
    match event {
        StoreEvent::Transmit { address, len, now } => store.record_transmit(*address, *len, *now),
        StoreEvent::Receive { address, len, now } => store.record_receive(*address, *len, *now),
        StoreEvent::TransmitTcp { address, len, tcp, now } => store.record_transmit_tcp(
            *address,
            *len,
            tcp,
            *now,
        ),
        StoreEvent::ReceiveTcp { address, len, tcp, now } => store.record_receive_tcp(
            *address,
            *len,
            tcp,
            *now,
        ),
        StoreEvent::Sample { now } => store.sample(*now),
    }
}

/// A run of two runs of events in a row is the second run from where the
/// first one ends.
pub proof fn lemma_run_append(
    entries: Seq<EntryModel>,
    first: Seq<StoreEvent>,
    second: Seq<StoreEvent>,
)
    ensures
        spec_run(entries, first + second) == spec_run(spec_run(entries, first), second),
    decreases second.len(),
{
    if second.len() == 0 {
        assert(first + second =~= first);
    } else {
        assert((first + second).drop_last() =~= first + second.drop_last());
        lemma_run_append(entries, first, second.drop_last());
    }
}

/// A run of one event is that event's step.
pub proof fn lemma_run_one(entries: Seq<EntryModel>, event: StoreEvent)
    ensures
        spec_run(entries, seq![event]) == spec_step(entries, event),
{
    reveal_with_fuel(spec_run, 2);
    assert(seq![event].drop_last() =~= seq![]);
}

/// What the source of an IPv4 packet is counted for: one sent packet, or
/// one sent segment, if the source is monitored.
pub open spec fn spec_source_events(
    source: u32,
    transport: Transport,
    monitored: Set<u32>,
    len: u64,
    now: u64,
) -> Seq<StoreEvent> {
    if !monitored.contains(source) {
        seq![]
    } else {
        match transport {
            Transport::Tcp(tcp) => seq![
                StoreEvent::TransmitTcp { address: Address::V4(source), len, tcp, now },
            ],
            Transport::Other { .. } => seq![
                StoreEvent::Transmit { address: Address::V4(source), len, now },
            ],
        }
    }
}

/// What the destination of an IPv4 packet is counted for: one received
/// packet, or one received segment, if the destination is monitored.
pub open spec fn spec_destination_events(
    destination: u32,
    transport: Transport,
    monitored: Set<u32>,
    len: u64,
    now: u64,
) -> Seq<StoreEvent> {
    if !monitored.contains(destination) {
        seq![]
    } else {
        match transport {
            Transport::Tcp(tcp) => seq![
                StoreEvent::ReceiveTcp { address: Address::V4(destination), len, tcp, now },
            ],
            Transport::Other { .. } => seq![
                StoreEvent::Receive { address: Address::V4(destination), len, now },
            ],
        }
    }
}

/// The events that a decoded frame of `len` bytes on the wire gives rise
/// to when seen at `now`: for IPv4 those of its source, then those of its
/// destination; for IPv6 one sent packet of its source, monitored or not;
/// for anything else, and for a frame without a view, none.
pub open spec fn spec_frame_events(
    view: Option<FrameView>,
    monitored: Set<u32>,
    len: u64,
    now: u64,
) -> Seq<StoreEvent> {
    match view {
        Some(FrameView::Ipv4 { source, destination, transport }) => spec_source_events(
            source,
            transport,
            monitored,
            len,
            now,
        ) + spec_destination_events(destination, transport, monitored, len, now),
        Some(FrameView::Ipv6 { source, .. }) => seq![
            StoreEvent::Transmit { address: Address::V6(source), len, now },
        ],
        Some(FrameView::Other { .. }) => seq![],
        None => seq![],
    }
}

/// Counts the source of an IPv4 packet.
fn record_source(
    store: &mut StatisticsStore,
    monitored: &MonitoredSet,
    source: u32,
    transport: &Transport,
    len: u64,
    now: u64,
)
    requires
        old(store).wf(),
    ensures
        final(store).wf(),
        final(store)@ == spec_run(
            old(store)@,
            spec_source_events(source, *transport, monitored@, len, now),
        ),
{
    proof {
        match transport {
            Transport::Tcp(tcp) => lemma_run_one(
                store@,
                StoreEvent::TransmitTcp { address: Address::V4(source), len, tcp: *tcp, now },
            ),
            Transport::Other { .. } => lemma_run_one(
                store@,
                StoreEvent::Transmit { address: Address::V4(source), len, now },
            ),
        }
    }
    if monitored.contains_v4(source) {
        match transport {
            Transport::Tcp(tcp) => store.record_transmit_tcp(Address::V4(source), len, tcp, now),
            Transport::Other { .. } => store.record_transmit(Address::V4(source), len, now),
        }
    }
}

/// Counts the destination of an IPv4 packet.
fn record_destination(
    store: &mut StatisticsStore,
    monitored: &MonitoredSet,
    destination: u32,
    transport: &Transport,
    len: u64,
    now: u64,
)
    requires
        old(store).wf(),
    ensures
        final(store).wf(),
        final(store)@ == spec_run(
            old(store)@,
            spec_destination_events(destination, *transport, monitored@, len, now),
        ),
{
    proof {
        match transport {
            Transport::Tcp(tcp) => lemma_run_one(
                store@,
                StoreEvent::ReceiveTcp { address: Address::V4(destination), len, tcp: *tcp, now },
            ),
            Transport::Other { .. } => lemma_run_one(
                store@,
                StoreEvent::Receive { address: Address::V4(destination), len, now },
            ),
        }
    }
    if monitored.contains_v4(destination) {
        match transport {
            Transport::Tcp(tcp) => store.record_receive_tcp(
                Address::V4(destination),
                len,
                tcp,
                now,
            ),
            Transport::Other { .. } => store.record_receive(Address::V4(destination), len, now),
        }
    }
}

/// Counts a decoded frame of `len` bytes on the wire, seen at `now`.
pub fn record_view(
    store: &mut StatisticsStore,
    monitored: &MonitoredSet,
    view: &Option<FrameView>,
    len: u64,
    now: u64,
)
    requires
        old(store).wf(),
    ensures
        final(store).wf(),
        final(store)@ == spec_run(old(store)@, spec_frame_events(*view, monitored@, len, now)),
{
    match view {
        Some(FrameView::Ipv4 { source, destination, transport }) => {
            record_source(store, monitored, *source, transport, len, now);
            record_destination(store, monitored, *destination, transport, len, now);
            proof {
                lemma_run_append(
                    old(store)@,
                    spec_source_events(*source, *transport, monitored@, len, now),
                    spec_destination_events(*destination, *transport, monitored@, len, now),
                );
            }
        },
        Some(FrameView::Ipv6 { source, .. }) => {
            proof {
                lemma_run_one(
                    store@,
                    StoreEvent::Transmit { address: Address::V6(*source), len, now },
                );
            }
            store.record_transmit(Address::V6(*source), len, now);
        },
        Some(FrameView::Other { .. }) => {},
        None => {},
    }
}

/// Decodes a captured frame and counts it. `len` is the frame's length on
/// the wire, which may exceed the bytes captured.
pub fn record_frame(
    store: &mut StatisticsStore,
    monitored: &MonitoredSet,
    frame: &[u8],
    len: u64,
    now: u64,
)
    requires
        old(store).wf(),
    ensures
        final(store).wf(),
        final(store)@ == spec_run(
            old(store)@,
            spec_frame_events(spec_classify(frame@), monitored@, len, now),
        ),
{
    let view = classify(frame);
    record_view(store, monitored, &view, len, now);
}

/// How one read of the capture device ended.
pub enum ReadOutcome<'a> {
    /// A frame arrived: the bytes captured, and its length on the wire.
    Frame { data: &'a [u8], len: u64 },
    /// No frame arrived within the read timeout.
    TimedOut,
    /// The device failed.
    Failed,
}

/// What the capture loop does after a read.
#[derive(Clone, Copy, Debug, PartialEq, Eq, Structural)]
pub enum LoopControl {
    /// Read again.
    Continue,
    /// Leave the loop.
    Stop,
}

/// Whether the loop goes on after a read: it stops on a failed device and
/// once shutdown was asked for, and goes on otherwise, a timeout included.
pub open spec fn spec_control(failed: bool, running: bool) -> LoopControl {
    if failed || !running {
        LoopControl::Stop
    } else {
        LoopControl::Continue
    }
}

/// One turn of the capture loop: counts the frame that was read at `now`,
/// if one was, and says whether the loop goes on. `running` is false once
/// shutdown was asked for; a frame read just before that is still counted.
pub fn on_read(
    store: &mut StatisticsStore,
    monitored: &MonitoredSet,
    outcome: &ReadOutcome<'_>,
    running: bool,
    now: u64,
) -> (control: LoopControl)
    requires
        old(store).wf(),
    ensures
        final(store).wf(),
        control == spec_control(outcome is Failed, running),
        final(store)@ == (match *outcome {
            ReadOutcome::Frame { data, len } => spec_run(
                old(store)@,
                spec_frame_events(spec_classify(data@), monitored@, len, now),
            ),
            _ => old(store)@,
        }),
{
    match outcome {
        ReadOutcome::Frame { data, len } => {
            record_frame(store, monitored, data, *len, now);
            if running {
                LoopControl::Continue
            } else {
                LoopControl::Stop
            }
        },
        ReadOutcome::TimedOut => {
            if running {
                LoopControl::Continue
            } else {
                LoopControl::Stop
            }
        },
        ReadOutcome::Failed => LoopControl::Stop,
    }
}

} // verus!
