//! The health probe: alive, nothing else.

use vstd::prelude::*;
use crate::api_types::SuccessCode;

verus! {

/// Reports that the service is up.
pub fn health_check() -> (r: SuccessCode)
    ensures
        r == SuccessCode::Okay,
{
    SuccessCode::Okay
}

} // verus!
