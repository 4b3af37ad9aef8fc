//! Notices: how a request's sender learns what became of it.

use crate::mqttbytes::SubscribeReasonCode;
use vstd::prelude::*;

verus! {

/// The handle of one request's sender. The state keeps it with the packet and hands it back
/// together with the outcome; it is never copied.
#[derive(Debug, PartialEq, Eq, Structural)]
pub struct NoticeTx {
    pub id: u64,
}

impl NoticeTx {
    pub fn new(id: u64) -> (tx: NoticeTx)
        ensures
            tx.id == id,
    {
        NoticeTx { id }
    }
}

/// Why a request failed.
#[derive(Debug, Clone, Copy, PartialEq, Eq, Structural)]
pub enum NoticeError {
    /// The broker refused a subscription.
    V4Subscribe(SubscribeReasonCode),
}

/// What became of a request.
#[derive(Debug, Clone, Copy, PartialEq, Eq, Structural)]
pub enum NoticeResult {
    /// The request has been carried out.
    Success,
    /// The request has failed.
    Error(NoticeError),
    /// The state has let go of the handle; no answer will come.
    Dropped,
}

} // verus!
