//! Errors of the translator.
use vstd::prelude::*;

verus! {

/// Why a part of the translator failed.
#[derive(Debug, Clone, Copy, PartialEq, Eq, Structural)]
pub enum Error {
    /// The queue of submitted shares was poisoned.
    TranslatorDiffConfigMutexPoisoned,
    /// A task could not be registered.
    TranslatorTaskManagerFailed,
}

} // verus!
