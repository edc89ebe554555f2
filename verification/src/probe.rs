use vstd::prelude::*;

verus! {

/// How long one TCP connection attempt may itself take, in milliseconds.
pub const CONNECT_TIMEOUT_MS: u64 = 200;

/// How long the readiness wait sleeps between two connection attempts, in
/// milliseconds.
pub const POLL_INTERVAL_MS: u64 = 120;

/// What the readiness wait does after one observation of the port.
#[derive(Clone, Copy, PartialEq, Eq, Structural, Debug)]
pub enum ProbeVerdict {
    /// The port accepted a connection before the deadline: the service is ready.
    Ready,
    /// The port did not accept yet and time remains: sleep one interval and poll again.
    Retry,
    /// The deadline has passed: the wait ends in a readiness timeout.
    TimedOut,
}

pub open spec fn probe_verdict_spec(elapsed_ms: u64, deadline_ms: u64, port_open: bool) -> ProbeVerdict {
    if elapsed_ms >= deadline_ms {
        ProbeVerdict::TimedOut
    } else if port_open {
        ProbeVerdict::Ready
    } else {
        ProbeVerdict::Retry
    }
}

/// One decision of the readiness wait on a service's port: `elapsed_ms` is the
/// time since the wait began, `port_open` whether a loopback connection to the
/// port just succeeded. A service is ready only if its port opened strictly
/// before the deadline; once the deadline has passed the wait reports a
/// timeout whatever the port does.
pub fn probe_step(elapsed_ms: u64, deadline_ms: u64, port_open: bool) -> (r: ProbeVerdict)
    ensures
        r == probe_verdict_spec(elapsed_ms, deadline_ms, port_open),
        r == ProbeVerdict::Ready <==> elapsed_ms < deadline_ms && port_open,
        r == ProbeVerdict::TimedOut <==> elapsed_ms >= deadline_ms,
{
    if elapsed_ms >= deadline_ms {
        ProbeVerdict::TimedOut
    } else if port_open {
        ProbeVerdict::Ready
    } else {
        ProbeVerdict::Retry
    }
}

} // verus!
