//! The tool's raw result and the normalized metrics record.

use vstd::prelude::*;
use crate::units::{Mbps, Milliseconds};

verus! {

/// What the speed-test tool reported, in its own units. It lives for one cycle only.
#[derive(Debug, Clone, PartialEq, Eq)]
pub struct SpeedTestResult {
    /// Download bandwidth in bytes per second.
    pub download_bandwidth: u64,
    /// Upload bandwidth in bytes per second.
    pub upload_bandwidth: u64,
    /// Ping latency.
    pub ping_latency: Milliseconds,
    /// Name of the internet service provider.
    pub isp: String,
    /// Name of the server that the measurement ran against.
    pub server_name: String,
}

/// The mathematical model of a [`SpeedTestResult`].
pub struct SpeedTestResultView {
    pub download_bandwidth: u64,
    pub upload_bandwidth: u64,
    pub ping_latency: Milliseconds,
    pub isp: Seq<char>,
    pub server_name: Seq<char>,
}

impl View for SpeedTestResult {
    type V = SpeedTestResultView;

    open spec fn view(&self) -> SpeedTestResultView {
        SpeedTestResultView {
            download_bandwidth: self.download_bandwidth,
            upload_bandwidth: self.upload_bandwidth,
            ping_latency: self.ping_latency,
            isp: self.isp@,
            server_name: self.server_name@,
        }
    }
}

/// The normalized outcome of one successful measurement cycle.
#[derive(Debug, Clone, PartialEq, Eq)]
pub struct NetworkMetrics {
    /// Seconds since the Unix epoch at which the record was completed.
    pub timestamp: i64,
    /// Download throughput.
    pub download_speed: Mbps,
    /// Upload throughput.
    pub upload_speed: Mbps,
    /// Ping latency.
    pub ping_ms: Milliseconds,
    /// Name of the internet service provider.
    pub isp: String,
    /// Name of the server that the measurement ran against.
    pub server_name: String,
}

/// The mathematical model of a [`NetworkMetrics`] record.
pub struct NetworkMetricsView {
    pub timestamp: i64,
    /// Download throughput in millionths of a megabit per second.
    pub download_speed: nat,
    /// Upload throughput in millionths of a megabit per second.
    pub upload_speed: nat,
    pub ping_ms: Milliseconds,
    pub isp: Seq<char>,
    pub server_name: Seq<char>,
}

impl View for NetworkMetrics {
    type V = NetworkMetricsView;

    open spec fn view(&self) -> NetworkMetricsView {
        NetworkMetricsView {
            timestamp: self.timestamp,
            download_speed: self.download_speed.in_millionths(),
            upload_speed: self.upload_speed.in_millionths(),
            ping_ms: self.ping_ms,
            isp: self.isp@,
            server_name: self.server_name@,
        }
    }
}

/// The record that a raw result turns into when it is completed at `timestamp`:
/// every bandwidth of `b` bytes per second becomes `b * 8 / 1_000_000` megabits
/// per second, and the rest is carried over.
pub open spec fn normalized(result: SpeedTestResultView, timestamp: i64) -> NetworkMetricsView {
    NetworkMetricsView {
        timestamp,
        download_speed: (result.download_bandwidth * 8) as nat,
        upload_speed: (result.upload_bandwidth * 8) as nat,
        ping_ms: result.ping_latency,
        isp: result.isp,
        server_name: result.server_name,
    }
}

impl NetworkMetrics {
    /// Normalizes a raw result into the record of a cycle completed at `timestamp`.
    pub fn from_result(result: SpeedTestResult, timestamp: i64) -> (r: NetworkMetrics)
        ensures
            r@ == normalized(result@, timestamp),
    {
        NetworkMetrics {
            timestamp,
            download_speed: Mbps::from_bytes_per_second(result.download_bandwidth),
            upload_speed: Mbps::from_bytes_per_second(result.upload_bandwidth),
            ping_ms: result.ping_latency,
            isp: result.isp,
            server_name: result.server_name,
        }
    }
}

} // verus!
