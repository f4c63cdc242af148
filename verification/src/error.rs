use vstd::prelude::*;

verus! {

/// Errors that abort a whole scan before any probing happens.
///
/// Per-probe failures (timeout, refusal, network error) are never errors:
/// they are normalized into an unreachable verdict for that port.
#[derive(Clone, Copy, Debug, PartialEq, Eq, Structural)]
pub enum ScanError {
    /// The requested concurrency ceiling was invalid (zero).
    ConfigurationError,
    /// The asynchronous execution context could not be created.
    RuntimeInitializationError,
}

impl ScanError {
    /// A short description of the error, suitable for reporting to a caller.
    pub fn message(&self) -> (r: &'static str)
        ensures
            *self is ConfigurationError ==> r@ == "concurrency must be at least 1"@,
            *self is RuntimeInitializationError ==> r@ == "execution context could not be started"@,
    {
        match self {
            ScanError::ConfigurationError => "concurrency must be at least 1",
            ScanError::RuntimeInitializationError => "execution context could not be started",
        }
    }
}

} // verus!
