use vstd::prelude::*;

use crate::platform::iouring::{contains, has_flags, IoUringFeatureFlags, IORING_FEAT_NODROP};
use crate::shared::error::Error;

verus! {

/// The kernel has every feature that this library cannot do without.
pub open spec fn has_setup_features(features: IoUringFeatureFlags) -> bool {
    has_flags(features, IORING_FEAT_NODROP)
}

/// Refuses a kernel that may drop completions.
pub fn check_setup_features(features: IoUringFeatureFlags) -> (res: Result<(), Error>)
    ensures
        has_setup_features(features) ==> res.is_ok(),
        !has_setup_features(features) ==> res == Err::<(), Error>(Error::RequireNodrop),
{
    if !contains(features, IORING_FEAT_NODROP) {
        return Err(Error::RequireNodrop);
    }
    Ok(())
}

} // verus!
