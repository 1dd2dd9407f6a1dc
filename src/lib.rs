//! Supervision of a backend server process run beside a desktop application: choice of
//! its port, its launch, readiness and health monitoring, bounded restarts and shutdown.
//! The supervisor is a pure state machine; its driver performs the I/O it asks for.
use vstd::prelude::*;

pub mod launch;
pub mod laws;
pub mod port;
pub mod relay;
pub mod status;
pub mod supervisor;

verus! {

} // verus!
