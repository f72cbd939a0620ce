//! Mining protocol messages that more than one part of the proxy reads.
use vstd::prelude::*;

verus! {

/// A share submitted on an extended channel.
#[derive(Debug)]
pub struct SubmitSharesExtended {
    pub channel_id: u32,
    pub sequence_number: u32,
    pub job_id: u32,
    pub nonce: u32,
    pub ntime: u32,
    pub version: u32,
    pub extranonce: Vec<u8>,
}

} // verus!
