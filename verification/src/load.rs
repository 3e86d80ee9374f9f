use vstd::prelude::*;
use crate::compute_score::Penalty;

verus! {

/// The up-to-date status and load of a server, and what its score is made
/// of: the partial score from the status file and the charges that apply.
#[derive(Debug, Clone, Copy, Default, PartialEq, Eq, Structural)]
pub struct Load {
    pub is_enabled: bool,
    pub is_visible: bool,
    pub is_autoconnectable: bool,
    /// The load in percent.
    pub load: u8,
    /// The bit pattern of the partial score: the least that the part of the
    /// score that lies between 0 and 1 can be, before jitter.
    pub partial_score_bits: u32,
    /// The charges that the score adds to the penalty from the backend.
    pub penalty: Penalty,
}

} // verus!
