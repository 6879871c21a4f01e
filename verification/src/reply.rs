//! What the registry does when the host answers a sub-request.

pub mod instantiate;
pub mod wire;
