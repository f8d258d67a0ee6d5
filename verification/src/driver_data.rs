//! The counters that the driver keeps of its traffic.

use vstd::prelude::*;

verus! {

/// The driver's statistics, one counter for each kind of occurrence.
#[derive(Clone, Copy, Debug, PartialEq, Eq, Structural)]
pub struct DriverData {
    /// Start-of-frame bytes received.
    pub sof_cnt: u32,
    /// Unsolicited messages received while waiting for an acknowledgement.
    pub ack_waiting: u32,
    /// Reads aborted because they timed out.
    pub read_aborts: u32,
    /// Messages with a bad checksum.
    pub bad_checksum: u32,
    /// Messages read.
    pub read_cnt: u32,
    /// Messages sent.
    pub write_cnt: u32,
    /// Cancel bytes received.
    pub can_cnt: u32,
    /// Negative acknowledgements received.
    pub nak_cnt: u32,
    /// Acknowledgements received.
    pub ack_cnt: u32,
    /// Bytes received out of framing.
    pub oof_cnt: u32,
    /// Messages dropped and not delivered.
    pub dropped: u32,
    /// Messages sent again.
    pub retries: u32,
    /// Callbacks that were not expected.
    pub callbacks: u32,
    /// Messages that failed because of a bad route.
    pub badroutes: u32,
    /// Messages for which no acknowledgement came.
    pub noack: u32,
    /// Messages that failed because the network was busy.
    pub netbusy: u32,
    /// Messages that failed because the controller was not idle.
    pub notidle: u32,
    /// Messages that were not delivered to the network.
    pub nondelivery: u32,
    /// Messages answered with a routed-busy status.
    pub routedbusy: u32,
    /// Broadcasts read.
    pub broadcast_read_cnt: u32,
    /// Broadcasts sent.
    pub broadcast_write_cnt: u32,
}

} // verus!
