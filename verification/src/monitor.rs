//! What is computed about a monitor from what the system tells of it.

use vstd::prelude::*;

verus! {

/// The frames per second of a display of which the system cannot tell the
/// rate.
pub const DEFAULT_FRAMES_PER_SECOND: u32 = 60;

/// The refresh rate in millihertz of a display that shows
/// `frames_per_second` frames per second, when the system can tell, and
/// [`DEFAULT_FRAMES_PER_SECOND`] when it cannot. A display that shows no
/// frames has no refresh rate.
pub open spec fn spec_refresh_rate_millihertz(frames_per_second: Option<u32>) -> Option<u32> {
    let frames = match frames_per_second {
        Some(frames) => frames,
        None => DEFAULT_FRAMES_PER_SECOND,
    };
    if frames == 0 {
        None
    } else {
        Some((frames * 1000) as u32)
    }
}

/// Computes the refresh rate of a display in millihertz from its frames per
/// second, which are `None` if the system cannot tell them. The rate has to
/// fit the result.
pub fn refresh_rate_millihertz(frames_per_second: Option<u32>) -> (rate: Option<u32>)
    requires
        frames_per_second matches Some(frames) ==> frames <= u32::MAX / 1000,
    ensures
        rate == spec_refresh_rate_millihertz(frames_per_second),
        rate matches Some(millihertz) ==> millihertz > 0 && millihertz % 1000 == 0,
{
    let frames = match frames_per_second {
        Some(frames) => frames,
        None => DEFAULT_FRAMES_PER_SECOND,
    };
    if frames == 0 {
        None
    } else {
        Some(frames * 1000)
    }
}

} // verus!
