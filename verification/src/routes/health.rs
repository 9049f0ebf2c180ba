//! The health check.

use crate::services::builds::BuildsService;
use crate::text::owned;
use vstd::prelude::*;

verus! {

/// The answer to a health check.
#[derive(Debug)]
pub struct HealthReply {
    pub status: String,
    pub local_mode: bool,
}

/// The service is up, and this is the mode it builds in.
pub fn health(service: &BuildsService) -> (r: HealthReply)
    ensures
        r.status@ == "lab-builder ok"@,
        r.local_mode == service.config.local_mode,
{
    HealthReply { status: owned("lab-builder ok"), local_mode: service.is_local_mode() }
}

} // verus!
