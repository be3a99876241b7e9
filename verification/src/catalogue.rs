//! The catalogue of exported metrics: what each is called, what it
//! counts, and what its series are labelled by.

use vstd::prelude::*;

verus! {

/// Whether a metric only ever grows.
#[derive(Clone, Copy, Debug, PartialEq, Eq, Structural)]
pub enum MetricKind {
    /// A total that never falls.
    Counter,
    /// A figure that goes up and down.
    Gauge,
}

/// What the series of a metric are labelled by.
#[derive(Clone, Copy, Debug, PartialEq, Eq, Structural)]
pub enum MetricLabel {
    /// The metric has one series, for the monitored addresses together.
    Overall,
    /// One series for every observed address.
    IpAddress,
    /// One series for every uplink.
    Nic,
}

impl MetricLabel {
    /// The label's key; none for a metric with one series.
    pub open spec fn spec_key(self) -> Option<Seq<char>> {
        match self {
            MetricLabel::Overall => None,
            MetricLabel::IpAddress => Some("ip_address"@),
            MetricLabel::Nic => Some("nic"@),
        }
    }

    /// The label's key; none for a metric with one series.
    pub fn key(&self) -> (key: Option<&'static str>)
        ensures
            key is Some == self.spec_key() is Some,
            key is Some ==> key->0@ == self.spec_key()->0,
    {
        match self {
            MetricLabel::Overall => None,
            MetricLabel::IpAddress => Some("ip_address"),
            MetricLabel::Nic => Some("nic"),
        }
    }
}

/// The exported metrics, in the order in which they are registered.
#[derive(Clone, Copy, Debug, PartialEq, Eq, Hash, Structural)]
pub enum MetricId {
    TxBytesTotal,
    RxBytesTotal,
    TxBytesPerSec,
    RxBytesPerSec,
    TxBps,
    RxBps,
    RetransmissionsPerSec,
    DuplicateAcksPerSec,
    WindowSizeChangesPerSec,
    IpTxBytesTotal,
    IpRxBytesTotal,
    IpTxBytesPerSec,
    IpRxBytesPerSec,
    IpTxBps,
    IpRxBps,
    IpRetransmissionsPerSec,
    IpDuplicateAcksPerSec,
    IpWindowSizeChangesPerSec,
    IpRetransmissionsTotal,
    IpDuplicateAcksTotal,
    IpWindowSizeChangesTotal,
    NicTxBpsTotal,
    NicRxBpsTotal,
    NicTxBytesPerSecTotal,
    NicRxBytesPerSecTotal,
}

impl MetricId {
    /// The metric's name.
    pub open spec fn spec_name(self) -> Seq<char> {
        match self {
            MetricId::TxBytesTotal => "network_tx_bytes_total"@,
            MetricId::RxBytesTotal => "network_rx_bytes_total"@,
            MetricId::TxBytesPerSec => "network_tx_bytes_per_sec"@,
            MetricId::RxBytesPerSec => "network_rx_bytes_per_sec"@,
            MetricId::TxBps => "network_tx_bps"@,
            MetricId::RxBps => "network_rx_bps"@,
            MetricId::RetransmissionsPerSec => "network_retransmissions_per_sec"@,
            MetricId::DuplicateAcksPerSec => "network_duplicate_acks_per_sec"@,
            MetricId::WindowSizeChangesPerSec => "network_window_size_changes_per_sec"@,
            MetricId::IpTxBytesTotal => "network_ip_tx_bytes_total"@,
            MetricId::IpRxBytesTotal => "network_ip_rx_bytes_total"@,
            MetricId::IpTxBytesPerSec => "network_ip_tx_bytes_per_sec"@,
            MetricId::IpRxBytesPerSec => "network_ip_rx_bytes_per_sec"@,
            MetricId::IpTxBps => "network_ip_tx_bps"@,
            MetricId::IpRxBps => "network_ip_rx_bps"@,
            MetricId::IpRetransmissionsPerSec => "network_ip_retransmissions_per_sec"@,
            MetricId::IpDuplicateAcksPerSec => "network_ip_duplicate_acks_per_sec"@,
            MetricId::IpWindowSizeChangesPerSec => "network_ip_window_size_changes_per_sec"@,
            MetricId::IpRetransmissionsTotal => "network_ip_retransmissions_total"@,
            MetricId::IpDuplicateAcksTotal => "network_ip_duplicate_acks_total"@,
            MetricId::IpWindowSizeChangesTotal => "network_ip_window_size_changes_total"@,
            MetricId::NicTxBpsTotal => "network_ip_tx_bps_total"@,
            MetricId::NicRxBpsTotal => "network_ip_rx_bps_total"@,
            MetricId::NicTxBytesPerSecTotal => "network_ip_tx_bytes_per_sec_total"@,
            MetricId::NicRxBytesPerSecTotal => "network_ip_rx_bytes_per_sec_total"@,
        }
    }

    /// The metric's name.
    pub fn name(&self) -> (text: &'static str)
        ensures
            text@ == self.spec_name(),
    {
        match self {
            MetricId::TxBytesTotal => "network_tx_bytes_total",
            MetricId::RxBytesTotal => "network_rx_bytes_total",
            MetricId::TxBytesPerSec => "network_tx_bytes_per_sec",
            MetricId::RxBytesPerSec => "network_rx_bytes_per_sec",
            MetricId::TxBps => "network_tx_bps",
            MetricId::RxBps => "network_rx_bps",
            MetricId::RetransmissionsPerSec => "network_retransmissions_per_sec",
            MetricId::DuplicateAcksPerSec => "network_duplicate_acks_per_sec",
            MetricId::WindowSizeChangesPerSec => "network_window_size_changes_per_sec",
            MetricId::IpTxBytesTotal => "network_ip_tx_bytes_total",
            MetricId::IpRxBytesTotal => "network_ip_rx_bytes_total",
            MetricId::IpTxBytesPerSec => "network_ip_tx_bytes_per_sec",
            MetricId::IpRxBytesPerSec => "network_ip_rx_bytes_per_sec",
            MetricId::IpTxBps => "network_ip_tx_bps",
            MetricId::IpRxBps => "network_ip_rx_bps",
            MetricId::IpRetransmissionsPerSec => "network_ip_retransmissions_per_sec",
            MetricId::IpDuplicateAcksPerSec => "network_ip_duplicate_acks_per_sec",
            MetricId::IpWindowSizeChangesPerSec => "network_ip_window_size_changes_per_sec",
            MetricId::IpRetransmissionsTotal => "network_ip_retransmissions_total",
            MetricId::IpDuplicateAcksTotal => "network_ip_duplicate_acks_total",
            MetricId::IpWindowSizeChangesTotal => "network_ip_window_size_changes_total",
            MetricId::NicTxBpsTotal => "network_ip_tx_bps_total",
            MetricId::NicRxBpsTotal => "network_ip_rx_bps_total",
            MetricId::NicTxBytesPerSecTotal => "network_ip_tx_bytes_per_sec_total",
            MetricId::NicRxBytesPerSecTotal => "network_ip_rx_bytes_per_sec_total",
        }
    }

    /// One line on what the metric shows.
    pub open spec fn spec_help(self) -> Seq<char> {
        match self {
            MetricId::TxBytesTotal => "Total transmitted bytes"@,
            MetricId::RxBytesTotal => "Total received bytes"@,
            MetricId::TxBytesPerSec => "Transmitted bytes per second"@,
            MetricId::RxBytesPerSec => "Received bytes per second"@,
            MetricId::TxBps => "Transmitted bits per second"@,
            MetricId::RxBps => "Received bits per second"@,
            MetricId::RetransmissionsPerSec => "Retransmissions per second"@,
            MetricId::DuplicateAcksPerSec => "Duplicate ACKs per second"@,
            MetricId::WindowSizeChangesPerSec => "Window size changes per second"@,
            MetricId::IpTxBytesTotal => "Total transmitted bytes per IP"@,
            MetricId::IpRxBytesTotal => "Total received bytes per IP"@,
            MetricId::IpTxBytesPerSec => "Transmitted bytes per second per IP"@,
            MetricId::IpRxBytesPerSec => "Received bytes per second per IP"@,
            MetricId::IpTxBps => "Transmitted bits per second per IP"@,
            MetricId::IpRxBps => "Received bits per second per IP"@,
            MetricId::IpRetransmissionsPerSec => "Retransmissions per second per IP"@,
            MetricId::IpDuplicateAcksPerSec => "Duplicate ACKs per second per IP"@,
            MetricId::IpWindowSizeChangesPerSec => "Window size changes per second per IP"@,
            MetricId::IpRetransmissionsTotal => "Total retransmissions per IP"@,
            MetricId::IpDuplicateAcksTotal => "Total duplicate ACKs per IP"@,
            MetricId::IpWindowSizeChangesTotal => "Total window size changes per IP"@,
            MetricId::NicTxBpsTotal => "Total transmitted bits per second by NIC"@,
            MetricId::NicRxBpsTotal => "Total received bits per second by NIC"@,
            MetricId::NicTxBytesPerSecTotal => "Total transmitted bytes per second by NIC"@,
            MetricId::NicRxBytesPerSecTotal => "Total received bytes per second by NIC"@,
        }
    }

    /// One line on what the metric shows.
    pub fn help(&self) -> (text: &'static str)
        ensures
            text@ == self.spec_help(),
    {
        match self {
            MetricId::TxBytesTotal => "Total transmitted bytes",
            MetricId::RxBytesTotal => "Total received bytes",
            MetricId::TxBytesPerSec => "Transmitted bytes per second",
            MetricId::RxBytesPerSec => "Received bytes per second",
            MetricId::TxBps => "Transmitted bits per second",
            MetricId::RxBps => "Received bits per second",
            MetricId::RetransmissionsPerSec => "Retransmissions per second",
            MetricId::DuplicateAcksPerSec => "Duplicate ACKs per second",
            MetricId::WindowSizeChangesPerSec => "Window size changes per second",
            MetricId::IpTxBytesTotal => "Total transmitted bytes per IP",
            MetricId::IpRxBytesTotal => "Total received bytes per IP",
            MetricId::IpTxBytesPerSec => "Transmitted bytes per second per IP",
            MetricId::IpRxBytesPerSec => "Received bytes per second per IP",
            MetricId::IpTxBps => "Transmitted bits per second per IP",
            MetricId::IpRxBps => "Received bits per second per IP",
            MetricId::IpRetransmissionsPerSec => "Retransmissions per second per IP",
            MetricId::IpDuplicateAcksPerSec => "Duplicate ACKs per second per IP",
            MetricId::IpWindowSizeChangesPerSec => "Window size changes per second per IP",
            MetricId::IpRetransmissionsTotal => "Total retransmissions per IP",
            MetricId::IpDuplicateAcksTotal => "Total duplicate ACKs per IP",
            MetricId::IpWindowSizeChangesTotal => "Total window size changes per IP",
            MetricId::NicTxBpsTotal => "Total transmitted bits per second by NIC",
            MetricId::NicRxBpsTotal => "Total received bits per second by NIC",
            MetricId::NicTxBytesPerSecTotal => "Total transmitted bytes per second by NIC",
            MetricId::NicRxBytesPerSecTotal => "Total received bytes per second by NIC",
        }
    }

    /// Whether the metric is a counter or a gauge.
    pub open spec fn spec_kind(self) -> MetricKind {
        match self {
            MetricId::TxBytesTotal
            | MetricId::RxBytesTotal
            | MetricId::IpTxBytesTotal
            | MetricId::IpRxBytesTotal
            | MetricId::IpRetransmissionsTotal
            | MetricId::IpDuplicateAcksTotal
            | MetricId::IpWindowSizeChangesTotal => MetricKind::Counter,
            _ => MetricKind::Gauge,
        }
    }

    /// Whether the metric is a counter or a gauge.
    pub fn kind(&self) -> (kind: MetricKind)
        ensures
            kind == self.spec_kind(),
    {
        match self {
            MetricId::TxBytesTotal
            | MetricId::RxBytesTotal
            | MetricId::IpTxBytesTotal
            | MetricId::IpRxBytesTotal
            | MetricId::IpRetransmissionsTotal
            | MetricId::IpDuplicateAcksTotal
            | MetricId::IpWindowSizeChangesTotal => MetricKind::Counter,
            _ => MetricKind::Gauge,
        }
    }

    /// What the metric's series are labelled by.
    pub open spec fn spec_label(self) -> MetricLabel {
        match self {
            MetricId::TxBytesTotal => MetricLabel::Overall,
            MetricId::RxBytesTotal => MetricLabel::Overall,
            MetricId::TxBytesPerSec => MetricLabel::Overall,
            MetricId::RxBytesPerSec => MetricLabel::Overall,
            MetricId::TxBps => MetricLabel::Overall,
            MetricId::RxBps => MetricLabel::Overall,
            MetricId::RetransmissionsPerSec => MetricLabel::Overall,
            MetricId::DuplicateAcksPerSec => MetricLabel::Overall,
            MetricId::WindowSizeChangesPerSec => MetricLabel::Overall,
            MetricId::IpTxBytesTotal => MetricLabel::IpAddress,
            MetricId::IpRxBytesTotal => MetricLabel::IpAddress,
            MetricId::IpTxBytesPerSec => MetricLabel::IpAddress,
            MetricId::IpRxBytesPerSec => MetricLabel::IpAddress,
            MetricId::IpTxBps => MetricLabel::IpAddress,
            MetricId::IpRxBps => MetricLabel::IpAddress,
            MetricId::IpRetransmissionsPerSec => MetricLabel::IpAddress,
            MetricId::IpDuplicateAcksPerSec => MetricLabel::IpAddress,
            MetricId::IpWindowSizeChangesPerSec => MetricLabel::IpAddress,
            MetricId::IpRetransmissionsTotal => MetricLabel::IpAddress,
            MetricId::IpDuplicateAcksTotal => MetricLabel::IpAddress,
            MetricId::IpWindowSizeChangesTotal => MetricLabel::IpAddress,
            MetricId::NicTxBpsTotal => MetricLabel::Nic,
            MetricId::NicRxBpsTotal => MetricLabel::Nic,
            MetricId::NicTxBytesPerSecTotal => MetricLabel::Nic,
            MetricId::NicRxBytesPerSecTotal => MetricLabel::Nic,
        }
    }

    /// What the metric's series are labelled by.
    pub fn label(&self) -> (label: MetricLabel)
        ensures
            label == self.spec_label(),
    {
        match self {
            MetricId::TxBytesTotal => MetricLabel::Overall,
            MetricId::RxBytesTotal => MetricLabel::Overall,
            MetricId::TxBytesPerSec => MetricLabel::Overall,
            MetricId::RxBytesPerSec => MetricLabel::Overall,
            MetricId::TxBps => MetricLabel::Overall,
            MetricId::RxBps => MetricLabel::Overall,
            MetricId::RetransmissionsPerSec => MetricLabel::Overall,
            MetricId::DuplicateAcksPerSec => MetricLabel::Overall,
            MetricId::WindowSizeChangesPerSec => MetricLabel::Overall,
            MetricId::IpTxBytesTotal => MetricLabel::IpAddress,
            MetricId::IpRxBytesTotal => MetricLabel::IpAddress,
            MetricId::IpTxBytesPerSec => MetricLabel::IpAddress,
            MetricId::IpRxBytesPerSec => MetricLabel::IpAddress,
            MetricId::IpTxBps => MetricLabel::IpAddress,
            MetricId::IpRxBps => MetricLabel::IpAddress,
            MetricId::IpRetransmissionsPerSec => MetricLabel::IpAddress,
            MetricId::IpDuplicateAcksPerSec => MetricLabel::IpAddress,
            MetricId::IpWindowSizeChangesPerSec => MetricLabel::IpAddress,
            MetricId::IpRetransmissionsTotal => MetricLabel::IpAddress,
            MetricId::IpDuplicateAcksTotal => MetricLabel::IpAddress,
            MetricId::IpWindowSizeChangesTotal => MetricLabel::IpAddress,
            MetricId::NicTxBpsTotal => MetricLabel::Nic,
            MetricId::NicRxBpsTotal => MetricLabel::Nic,
            MetricId::NicTxBytesPerSecTotal => MetricLabel::Nic,
            MetricId::NicRxBytesPerSecTotal => MetricLabel::Nic,
        }
    }
}

/// No two metrics share a name, so each can be registered beside the
/// others.
pub proof fn lemma_names_differ(a: MetricId, b: MetricId)
    requires
        a != b,
    ensures
        a.spec_name() != b.spec_name(),
{
    reveal_strlit("network_tx_bytes_total");
    reveal_strlit("network_rx_bytes_total");
    reveal_strlit("network_tx_bytes_per_sec");
    reveal_strlit("network_rx_bytes_per_sec");
    reveal_strlit("network_tx_bps");
    reveal_strlit("network_rx_bps");
    reveal_strlit("network_retransmissions_per_sec");
    reveal_strlit("network_duplicate_acks_per_sec");
    reveal_strlit("network_window_size_changes_per_sec");
    reveal_strlit("network_ip_tx_bytes_total");
    reveal_strlit("network_ip_rx_bytes_total");
    reveal_strlit("network_ip_tx_bytes_per_sec");
    reveal_strlit("network_ip_rx_bytes_per_sec");
    reveal_strlit("network_ip_tx_bps");
    reveal_strlit("network_ip_rx_bps");
    reveal_strlit("network_ip_retransmissions_per_sec");
    reveal_strlit("network_ip_duplicate_acks_per_sec");
    reveal_strlit("network_ip_window_size_changes_per_sec");
    reveal_strlit("network_ip_retransmissions_total");
    reveal_strlit("network_ip_duplicate_acks_total");
    reveal_strlit("network_ip_window_size_changes_total");
    reveal_strlit("network_ip_tx_bps_total");
    reveal_strlit("network_ip_rx_bps_total");
    reveal_strlit("network_ip_tx_bytes_per_sec_total");
    reveal_strlit("network_ip_rx_bytes_per_sec_total");
    let x = a.spec_name();
    let y = b.spec_name();
    assert(x.len() != y.len() || x[8] != y[8] || x[11] != y[11]);
}

} // verus!
