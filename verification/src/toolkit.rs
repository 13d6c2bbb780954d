//! Small unit conversions shared by the engine's components.

use vstd::prelude::*;

use crate::constants::SAMPLE_RATE;

verus! {

pub struct ToolKit;

impl ToolKit {
    /// Milliseconds converted to whole samples at the engine's fixed sample
    /// rate.
    pub fn convert_ms_to_sample(ms: u64) -> (samples: u64)
        requires
            ms <= 0xFFFF_FFFF,
        ensures
            samples == ms * SAMPLE_RATE / 1000,
    {
        proof {
            assert(ms * SAMPLE_RATE <= 0xFFFF_FFFF * SAMPLE_RATE) by (nonlinear_arith)
                requires
                    ms <= 0xFFFF_FFFF,
            ;
        }
        ms * SAMPLE_RATE / 1000
    }
}

} // verus!
