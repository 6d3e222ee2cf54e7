use vstd::prelude::*;

verus! {

/// Why handling a connection, or one attempt to forward it, failed.
#[derive(Clone, Copy, Debug, PartialEq, Eq, Structural)]
pub enum GatewayError {
    /// An I/O error; `refused` tells whether its kind is "connection refused".
    Io { refused: bool },
    /// Connecting to a backend took longer than the allowed time.
    ConnectTimeout,
    /// Reading a backend's response took longer than the allowed time.
    ReadTimeout,
    /// Sending to a backend, or replying to the client, took longer than the
    /// allowed time.
    Elapsed,
    /// The backend's response has no lines.
    InvalidResponse,
}

impl GatewayError {
    pub open spec fn spec_is_refused(self) -> bool {
        self matches GatewayError::Io { refused: true }
    }

    /// Whether this is an I/O error of kind "connection refused": the one
    /// error after which a request is retried on the other backend.
    pub fn is_refused(&self) -> (b: bool)
        ensures
            b == self.spec_is_refused(),
    {
        match self {
            GatewayError::Io { refused } => *refused,
            _ => false,
        }
    }
}


/// Exactly one error counts as a refusal: an I/O error of kind "connection
/// refused". Timeouts, other I/O errors and an invalid response do not.
pub proof fn law_only_refused_io_is_refusal(e: GatewayError)
    ensures
        e.spec_is_refused() <==> e == (GatewayError::Io { refused: true }),
{
}

} // verus!
