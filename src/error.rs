use vstd::prelude::*;

verus! {

/// Why a session operation failed. Each variant that carries a `String`
/// carries the cause reported by the capture engine.
#[derive(Debug)]
pub enum SessionError {
    /// The engine could not list the host's interfaces.
    Enumeration(String),
    /// No interface of exactly this name was listed.
    DeviceNotFound(String),
    /// The engine could not open a handle on the interface.
    Open(String),
    /// The filter expression was malformed or rejected.
    Filter(String),
    /// The engine rejected a change of read behaviour.
    Reconfigure(String),
    /// The session holds no live handle.
    SessionClosed,
    /// A read failed for a reason other than the read timeout.
    Capture(String),
    /// The engine could not report its counters.
    Stats(String),
}

} // verus!
