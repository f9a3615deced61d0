use vstd::prelude::*;

verus! {

/// A terminal failure of a socket operation, in the OS error domain.
///
/// `would-block` is deliberately absent: it is a transient condition that the
/// readiness-driven retry loop absorbs, so it can never reach a caller as an
/// error. Non-blocking attempts report it through [`crate::poll::SysOutcome`]
/// instead.
#[derive(Clone, Copy, Debug, PartialEq, Eq, Structural)]
pub enum ErrorKind {
    /// The named endpoint does not exist.
    NotFound,
    /// The peer refused the connection.
    ConnectionRefused,
    /// The sending half (or the peer's receiving half) is shut down.
    BrokenPipe,
    /// The caller may not perform the operation.
    PermissionDenied,
    /// The platform or environment does not support the query at all;
    /// distinct from an empty answer, so absence is never mistaken for
    /// a real (e.g. "unconfined") value.
    Unsupported,
    /// A message exceeds the connection's negotiated buffer size.
    MessageTooLarge,
    /// A malformed argument, such as an over-long socket path.
    InvalidInput,
    /// Any other terminal OS error.
    Other,
}

impl ErrorKind {
    /// A short human-readable description of the failure.
    pub fn describe(&self) -> (r: &'static str)
        ensures
            r@.len() > 0,
    {
        let s: &'static str = match self {
            ErrorKind::NotFound => "not found",
            ErrorKind::ConnectionRefused => "connection refused",
            ErrorKind::BrokenPipe => "broken pipe",
            ErrorKind::PermissionDenied => "permission denied",
            ErrorKind::Unsupported => "unsupported by platform",
            ErrorKind::MessageTooLarge => "message too large",
            ErrorKind::InvalidInput => "invalid input",
            ErrorKind::Other => "other os error",
        };
        proof {
            reveal_strlit("not found");
            reveal_strlit("connection refused");
            reveal_strlit("broken pipe");
            reveal_strlit("permission denied");
            reveal_strlit("unsupported by platform");
            reveal_strlit("message too large");
            reveal_strlit("invalid input");
            reveal_strlit("other os error");
        }
        s
    }
}

} // verus!
