use vstd::prelude::*;

verus! {

/// How a single connection attempt resolved.
#[derive(Clone, Copy, Debug, PartialEq, Eq, Structural)]
pub enum ProbeOutcome {
    /// The TCP handshake completed before the deadline.
    Connected,
    /// The deadline elapsed before the attempt resolved.
    TimedOut,
    /// The peer actively refused the connection.
    Refused,
    /// Any other failure: host unreachable, name resolution failure, and so on.
    NetworkError,
}

/// The reachability verdict for one requested port.
#[derive(Clone, Copy, Debug, PartialEq, Eq, Structural)]
pub struct ProbeResult {
    pub port: u16,
    pub reachable: bool,
}

/// A port counts as reachable exactly when the handshake completed in time.
pub open spec fn spec_classify(outcome: ProbeOutcome) -> bool {
    outcome is Connected
}

/// Collapse a probe outcome into the single reachability boolean.
///
/// Every non-success path (timeout, refusal, any other network failure) is
/// deliberately merged into `false`; no diagnostic detail is retained.
pub fn classify(outcome: ProbeOutcome) -> (r: bool)
    ensures
        r == spec_classify(outcome),
{
    match outcome {
        ProbeOutcome::Connected => true,
        ProbeOutcome::TimedOut => false,
        ProbeOutcome::Refused => false,
        ProbeOutcome::NetworkError => false,
    }
}

} // verus!
