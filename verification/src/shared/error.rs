//! Errors that more than one part of the proxy gives.
use vstd::prelude::*;

verus! {

/// A lock could not be taken because a holder of it panicked.
#[derive(Debug, Clone, Copy, PartialEq, Eq, Structural)]
pub struct PoisonedLock;

/// Why the relay between a miner and the translator ended.
#[derive(Debug, Clone, Copy, PartialEq, Eq, Structural)]
pub enum Sv1IngressError {
    DownstreamDropped,
    TranslatorDropped,
    TaskFailed,
}

} // verus!
