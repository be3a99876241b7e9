//! The metrics that are exported from a snapshot of the store.
//!
//! One report holds a row of figures for every observed address, the sums
//! over the monitored addresses, and the sums over the addresses of each
//! uplink. Byte totals are exported as counters: a counter that was once
//! exported at some value is never exported below it again.

use crate::address::Address;
use crate::address::AddressMap;
use crate::entry::Counters;
use crate::store::EntrySnapshot;
use crate::subnet::MonitoredSet;
use crate::uplink::UplinkAssignmentSnapshot;
use crate::uplink::UplinkLabel;
use vstd::prelude::*;

verus! {

/// The byte totals last exported for one address, or for the monitored
/// addresses together.
#[derive(Clone, Copy, Debug, PartialEq, Eq, Structural)]
pub struct ExportedTotals {
    pub tx_bytes: u64,
    pub rx_bytes: u64,
}

impl ExportedTotals {
    /// The totals raised to the given counts where those are higher, and
    /// held where they are not.
    pub open spec fn raised(self, tx_bytes: u64, rx_bytes: u64) -> ExportedTotals {
        ExportedTotals {
            tx_bytes: if tx_bytes > self.tx_bytes {
                tx_bytes
            } else {
                self.tx_bytes
            },
            rx_bytes: if rx_bytes > self.rx_bytes {
                rx_bytes
            } else {
                self.rx_bytes
            },
        }
    }

    /// Neither total of `self` is below that of `earlier`.
    pub open spec fn extends(self, earlier: ExportedTotals) -> bool {
        earlier.tx_bytes <= self.tx_bytes && earlier.rx_bytes <= self.rx_bytes
    }

    /// Raises the totals to the given counts where those are higher.
    pub fn raise(&mut self, tx_bytes: u64, rx_bytes: u64)
        ensures
            *final(self) == old(self).raised(tx_bytes, rx_bytes),
    {
        if tx_bytes > self.tx_bytes {
            self.tx_bytes = tx_bytes;
        }
        if rx_bytes > self.rx_bytes {
            self.rx_bytes = rx_bytes;
        }
    }
}

/// The totals exported for `address` so far: zero where none were.
pub open spec fn spec_exported_for(
    exported: Map<Address, ExportedTotals>,
    address: Address,
) -> ExportedTotals {
    if exported.contains_key(address) {
        exported[address]
    } else {
        ExportedTotals { tx_bytes: 0, rx_bytes: 0 }
    }
}

/// The exported totals after the rows of one snapshot were taken in, one
/// after the other: each row raises the totals of its address to its
/// cumulative byte counts.
pub open spec fn spec_exported(
    previous: Map<Address, ExportedTotals>,
    rows: Seq<EntrySnapshot>,
) -> Map<Address, ExportedTotals>
    decreases rows.len(),
{
    if rows.len() == 0 {
        previous
    } else {
        let earlier = spec_exported(previous, rows.drop_last());
        let row = rows.last();
        earlier.insert(
            row.address,
            spec_exported_for(earlier, row.address).raised(row.counters.tx_bytes, row.counters.rx_bytes),
        )
    }
}

/// A group of addresses whose figures are summed.
#[derive(Clone, Copy, Debug, PartialEq, Eq, Structural)]
pub enum Group {
    /// The monitored addresses.
    Monitored,
    /// The addresses attributed to one uplink, monitored or not.
    Uplink(UplinkLabel),
}

/// Whether `address` belongs to `group`, given the monitored set and the
/// uplink assignments.
pub open spec fn spec_in_group(
    group: Group,
    address: Address,
    monitored: &MonitoredSet,
    uplinks: &UplinkAssignmentSnapshot,
) -> bool {
    match group {
        Group::Monitored => monitored.spec_contains(address),
        Group::Uplink(label) => uplinks.spec_uplink_for(address) == label,
    }
}

/// One of the figures that are summed over a group.
#[derive(Clone, Copy, Debug, PartialEq, Eq, Structural)]
pub enum Figure {
    Addresses,
    TxBytes,
    RxBytes,
    TxBytesPerSec,
    RxBytesPerSec,
    RetransmissionsPerSec,
    DuplicateAcksPerSec,
    WindowChangesPerSec,
}

/// What one address adds to the sum of `figure`.
pub open spec fn spec_figure(figure: Figure, counters: Counters) -> u64 {
    match figure {
        Figure::Addresses => 1,
        Figure::TxBytes => counters.tx_bytes,
        Figure::RxBytes => counters.rx_bytes,
        Figure::TxBytesPerSec => counters.tx_bytes_per_sec,
        Figure::RxBytesPerSec => counters.rx_bytes_per_sec,
        Figure::RetransmissionsPerSec => counters.retransmissions_per_sec,
        Figure::DuplicateAcksPerSec => counters.duplicate_acks_per_sec,
        Figure::WindowChangesPerSec => counters.window_changes_per_sec,
    }
}

/// The sum of `figure` over the rows whose address belongs to `group`.
pub open spec fn spec_sum(
    rows: Seq<EntrySnapshot>,
    group: Group,
    figure: Figure,
    monitored: &MonitoredSet,
    uplinks: &UplinkAssignmentSnapshot,
) -> nat
    decreases rows.len(),
{
    if rows.len() == 0 {
        0
    } else {
        let row = rows.last();
        spec_sum(rows.drop_last(), group, figure, monitored, uplinks) + (if spec_in_group(
            group,
            row.address,
            monitored,
            uplinks,
        ) {
            spec_figure(figure, row.counters) as nat
        } else {
            0
        })
    }
}

/// `n`, or the largest 64-bit value where `n` is beyond it.
pub open spec fn spec_saturate(n: nat) -> u64 {
    if n > u64::MAX {
        u64::MAX
    } else {
        n as u64
    }
}

/// The sums of the figures over one group of addresses. A sum beyond 64
/// bits is held at the largest 64-bit value.
#[derive(Clone, Copy, Debug, PartialEq, Eq, Structural)]
pub struct Tally {
    /// How many addresses belong to the group.
    pub addresses: u64,
    pub tx_bytes: u64,
    pub rx_bytes: u64,
    pub tx_bytes_per_sec: u64,
    pub rx_bytes_per_sec: u64,
    pub retransmissions_per_sec: u64,
    pub duplicate_acks_per_sec: u64,
    pub window_changes_per_sec: u64,
}

/// The tally of `group` over `rows`.
pub open spec fn spec_tally(
    rows: Seq<EntrySnapshot>,
    group: Group,
    monitored: &MonitoredSet,
    uplinks: &UplinkAssignmentSnapshot,
) -> Tally {
    Tally {
        addresses: spec_saturate(spec_sum(rows, group, Figure::Addresses, monitored, uplinks)),
        tx_bytes: spec_saturate(spec_sum(rows, group, Figure::TxBytes, monitored, uplinks)),
        rx_bytes: spec_saturate(spec_sum(rows, group, Figure::RxBytes, monitored, uplinks)),
        tx_bytes_per_sec: spec_saturate(
            spec_sum(rows, group, Figure::TxBytesPerSec, monitored, uplinks),
        ),
        rx_bytes_per_sec: spec_saturate(
            spec_sum(rows, group, Figure::RxBytesPerSec, monitored, uplinks),
        ),
        retransmissions_per_sec: spec_saturate(
            spec_sum(rows, group, Figure::RetransmissionsPerSec, monitored, uplinks),
        ),
        duplicate_acks_per_sec: spec_saturate(
            spec_sum(rows, group, Figure::DuplicateAcksPerSec, monitored, uplinks),
        ),
        window_changes_per_sec: spec_saturate(
            spec_sum(rows, group, Figure::WindowChangesPerSec, monitored, uplinks),
        ),
    }
}

impl Tally {
    /// The tally of no address.
    fn zero() -> (tally: Tally)
        ensures
            forall|group: Group, monitored: &MonitoredSet, uplinks: &UplinkAssignmentSnapshot|
                tally == #[trigger] spec_tally(Seq::empty(), group, monitored, uplinks),
    {
        Tally {
            addresses: 0,
            tx_bytes: 0,
            rx_bytes: 0,
            tx_bytes_per_sec: 0,
            rx_bytes_per_sec: 0,
            retransmissions_per_sec: 0,
            duplicate_acks_per_sec: 0,
            window_changes_per_sec: 0,
        }
    }

    /// Adds one address's figures if `member` holds.
    fn add(
        &mut self,
        member: bool,
        counters: &Counters,
        Ghost(rows): Ghost<Seq<EntrySnapshot>>,
        Ghost(group): Ghost<Group>,
        Ghost(monitored): Ghost<&MonitoredSet>,
        Ghost(uplinks): Ghost<&UplinkAssignmentSnapshot>,
    )
        requires
            rows.len() > 0,
            rows.last().counters == *counters,
            member == spec_in_group(group, rows.last().address, monitored, uplinks),
            *old(self) == spec_tally(rows.drop_last(), group, monitored, uplinks),
        ensures
            *final(self) == spec_tally(rows, group, monitored, uplinks),
    {
        if member {
            self.addresses = self.addresses.saturating_add(1);
            self.tx_bytes = self.tx_bytes.saturating_add(counters.tx_bytes);
            self.rx_bytes = self.rx_bytes.saturating_add(counters.rx_bytes);
            self.tx_bytes_per_sec = self.tx_bytes_per_sec.saturating_add(counters.tx_bytes_per_sec);
            self.rx_bytes_per_sec = self.rx_bytes_per_sec.saturating_add(counters.rx_bytes_per_sec);
            self.retransmissions_per_sec = self.retransmissions_per_sec.saturating_add(
                counters.retransmissions_per_sec,
            );
            self.duplicate_acks_per_sec = self.duplicate_acks_per_sec.saturating_add(
                counters.duplicate_acks_per_sec,
            );
            self.window_changes_per_sec = self.window_changes_per_sec.saturating_add(
                counters.window_changes_per_sec,
            );
        }
    }
}

/// The figures exported for one address.
#[derive(Clone, Copy, Debug, PartialEq, Eq, Structural)]
pub struct AddressSeries {
    pub address: Address,
    /// The uplink that the address's traffic is attributed to.
    pub uplink: UplinkLabel,
    /// Whether the address counts towards the overall totals.
    pub monitored: bool,
    /// Bytes sent, as a counter that never falls.
    pub tx_bytes_total: u64,
    /// Bytes received, as a counter that never falls.
    pub rx_bytes_total: u64,
    /// Bytes sent in the last sample window.
    pub tx_bytes_per_sec: u64,
    /// Bytes received in the last sample window.
    pub rx_bytes_per_sec: u64,
    /// Length of the last sample window in nanoseconds, zero if there was
    /// none. The bit rates are the two byte figures above, times eight,
    /// over this span.
    pub window_nanos: u64,
    pub retransmissions_per_sec: u64,
    pub duplicate_acks_per_sec: u64,
    pub window_changes_per_sec: u64,
}

/// The series of one row, given the totals exported for its address.
pub open spec fn spec_series(
    row: EntrySnapshot,
    exported: ExportedTotals,
    monitored: &MonitoredSet,
    uplinks: &UplinkAssignmentSnapshot,
) -> AddressSeries {
    AddressSeries {
        address: row.address,
        uplink: uplinks.spec_uplink_for(row.address),
        monitored: monitored.spec_contains(row.address),
        tx_bytes_total: exported.tx_bytes,
        rx_bytes_total: exported.rx_bytes,
        tx_bytes_per_sec: row.counters.tx_bytes_per_sec,
        rx_bytes_per_sec: row.counters.rx_bytes_per_sec,
        window_nanos: row.counters.window_nanos,
        retransmissions_per_sec: row.counters.retransmissions_per_sec,
        duplicate_acks_per_sec: row.counters.duplicate_acks_per_sec,
        window_changes_per_sec: row.counters.window_changes_per_sec,
    }
}

/// Everything that one export publishes.
pub struct MetricsReport {
    /// One series for every row of the snapshot, in the snapshot's order.
    pub addresses: Vec<AddressSeries>,
    /// The byte totals of the monitored addresses, as counters that never
    /// fall.
    pub totals: ExportedTotals,
    /// The sums over the monitored addresses.
    pub monitored: Tally,
    /// The sums over the addresses attributed to `Wan0`.
    pub wan0: Tally,
    /// The sums over the addresses attributed to `Wan1`.
    pub wan1: Tally,
}

/// Turns snapshots of the store into reports, and remembers what it has
/// exported so that no counter is ever exported lower than before.
pub struct MetricsExporter {
    exported: AddressMap<ExportedTotals>,
    totals: ExportedTotals,
}

impl MetricsExporter {
    /// The totals last exported, by address.
    pub closed spec fn exported(&self) -> Map<Address, ExportedTotals> {
        self.exported@
    }

    /// The overall totals last exported.
    pub closed spec fn totals(&self) -> ExportedTotals {
        self.totals
    }

    /// An exporter that has exported nothing.
    pub fn new() -> (exporter: MetricsExporter)
        ensures
            exporter.exported() == Map::<Address, ExportedTotals>::empty(),
            exporter.totals() == (ExportedTotals { tx_bytes: 0, rx_bytes: 0 }),
    {
        MetricsExporter {
            exported: AddressMap::new(),
            totals: ExportedTotals { tx_bytes: 0, rx_bytes: 0 },
        }
    }

    /// Builds the report of one snapshot. Every row gets a series, whether
    /// its address is monitored or not; the overall sums count the
    /// monitored addresses only, and the sums of an uplink count every
    /// address attributed to it. Each exported byte total is the count in
    /// the snapshot, or the total exported before where that was higher.
    pub fn update_metrics(
        &mut self,
        rows: &Vec<EntrySnapshot>,
        monitored: &MonitoredSet,
        uplinks: &UplinkAssignmentSnapshot,
    ) -> (report: MetricsReport)
        ensures
            final(self).exported() == spec_exported(old(self).exported(), rows@),
            report.addresses@.len() == rows@.len(),
            forall|i: int|
                0 <= i < rows@.len() ==> (#[trigger] report.addresses@[i]) == spec_series(
                    rows@[i],
                    spec_exported(old(self).exported(), rows@.take(i + 1))[rows@[i].address],
                    monitored,
                    uplinks,
                ),
            report.monitored == spec_tally(rows@, Group::Monitored, monitored, uplinks),
            report.wan0 == spec_tally(rows@, Group::Uplink(UplinkLabel::Wan0), monitored, uplinks),
            report.wan1 == spec_tally(rows@, Group::Uplink(UplinkLabel::Wan1), monitored, uplinks),
            report.totals == old(self).totals().raised(
                report.monitored.tx_bytes,
                report.monitored.rx_bytes,
            ),
            final(self).totals() == report.totals,
            final(self).totals().extends(old(self).totals()),
            forall|a: Address|
                spec_exported_for(#[trigger] final(self).exported(), a).extends(
                    #[trigger] spec_exported_for(old(self).exported(), a),
                ),
    {
        let n: usize = rows.len();
        let mut addresses: Vec<AddressSeries> = Vec::new();
        let mut in_subnet = Tally::zero();
        let mut wan0 = Tally::zero();
        let mut wan1 = Tally::zero();
        let mut i: usize = 0;
        assert(rows@.take(0) =~= Seq::empty());
        while i < n
            invariant
                i <= n == rows@.len(),
                self.totals == old(self).totals,
                self.exported@ == spec_exported(old(self).exported@, rows@.take(i as int)),
                addresses@.len() == i,
                forall|j: int|
                    0 <= j < i ==> (#[trigger] addresses@[j]) == spec_series(
                        rows@[j],
                        spec_exported(old(self).exported@, rows@.take(j + 1))[rows@[j].address],
                        monitored,
                        uplinks,
                    ),
                in_subnet == spec_tally(rows@.take(i as int), Group::Monitored, monitored, uplinks),
                wan0 == spec_tally(
                    rows@.take(i as int),
                    Group::Uplink(UplinkLabel::Wan0),
                    monitored,
                    uplinks,
                ),
                wan1 == spec_tally(
                    rows@.take(i as int),
                    Group::Uplink(UplinkLabel::Wan1),
                    monitored,
                    uplinks,
                ),
            decreases n - i,
        {
            let row = &rows[i];
            let ghost seen = rows@.take(i + 1);
            proof {
                assert(seen.drop_last() =~= rows@.take(i as int));
                assert(seen.last() == *row);
            }
            let mut exported = match self.exported.get(&row.address) {
                Some(totals) => totals,
                None => ExportedTotals { tx_bytes: 0, rx_bytes: 0 },
            };
            exported.raise(row.counters.tx_bytes, row.counters.rx_bytes);
            self.exported.insert(row.address, exported);
            let uplink = uplinks.uplink_for(&row.address);
            let is_monitored = monitored.contains(&row.address);
            addresses.push(
                AddressSeries {
                    address: row.address,
                    uplink,
                    monitored: is_monitored,
                    tx_bytes_total: exported.tx_bytes,
                    rx_bytes_total: exported.rx_bytes,
                    tx_bytes_per_sec: row.counters.tx_bytes_per_sec,
                    rx_bytes_per_sec: row.counters.rx_bytes_per_sec,
                    window_nanos: row.counters.window_nanos,
                    retransmissions_per_sec: row.counters.retransmissions_per_sec,
                    duplicate_acks_per_sec: row.counters.duplicate_acks_per_sec,
                    window_changes_per_sec: row.counters.window_changes_per_sec,
                },
            );
            in_subnet.add(
                is_monitored,
                &row.counters,
                Ghost(seen),
                Ghost(Group::Monitored),
                Ghost(monitored),
                Ghost(uplinks),
            );
            wan0.add(
                uplink == UplinkLabel::Wan0,
                &row.counters,
                Ghost(seen),
                Ghost(Group::Uplink(UplinkLabel::Wan0)),
                Ghost(monitored),
                Ghost(uplinks),
            );
            wan1.add(
                uplink == UplinkLabel::Wan1,
                &row.counters,
                Ghost(seen),
                Ghost(Group::Uplink(UplinkLabel::Wan1)),
                Ghost(monitored),
                Ghost(uplinks),
            );
            i = i + 1;
        }
        assert(rows@.take(n as int) =~= rows@);
        assert forall|a: Address|
            spec_exported_for(#[trigger] self.exported(), a).extends(
                #[trigger] spec_exported_for(old(self).exported(), a),
            ) by {
            lemma_exported_never_falls(old(self).exported(), rows@, a);
        }
        self.totals.raise(in_subnet.tx_bytes, in_subnet.rx_bytes);
        MetricsReport { addresses, totals: self.totals, monitored: in_subnet, wan0, wan1 }
    }
}

/// No export lowers a counter: whatever rows are taken in, an address
/// with exported totals keeps them or has them raised.
pub proof fn lemma_exported_never_falls(
    previous: Map<Address, ExportedTotals>,
    rows: Seq<EntrySnapshot>,
    address: Address,
)
    ensures
        previous.contains_key(address) ==> spec_exported(previous, rows).contains_key(address),
        spec_exported_for(spec_exported(previous, rows), address).extends(
            spec_exported_for(previous, address),
        ),
    decreases rows.len(),
{
    if rows.len() > 0 {
        lemma_exported_never_falls(previous, rows.drop_last(), address);
    }
}

/// An export brings every counter up to the snapshot: after the rows were
/// taken in, the totals exported for a row's address are at least the
/// row's cumulative byte counts.
pub proof fn lemma_exported_covers(
    previous: Map<Address, ExportedTotals>,
    rows: Seq<EntrySnapshot>,
    i: int,
)
    requires
        0 <= i < rows.len(),
    ensures
        spec_exported(previous, rows).contains_key(rows[i].address),
        spec_exported(previous, rows)[rows[i].address].tx_bytes >= rows[i].counters.tx_bytes,
        spec_exported(previous, rows)[rows[i].address].rx_bytes >= rows[i].counters.rx_bytes,
    decreases rows.len(),
{
    if i < rows.len() - 1 {
        lemma_exported_covers(previous, rows.drop_last(), i);
    }
}

} // verus!
