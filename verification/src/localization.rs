//! Choice of beamforming algorithm of the source locator.

use vstd::prelude::*;

verus! {

/// The beamforming algorithm used to locate a source.
#[derive(Debug, Clone, Copy, PartialEq, Eq)]
pub enum BeamformingMethod {
    DelayAndSum,
    MVDR,
    MUSIC,
}

} // verus!
