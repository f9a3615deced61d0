use vstd::prelude::*;

verus! {

/// A snapshot of the peer process's identity, captured once by the kernel at
/// connection establishment and immutable afterwards.
#[derive(Clone, Copy, Debug, PartialEq, Eq, Structural)]
pub struct ConnCredentials {
    /// Peer process id; a real process id is never zero.
    pub pid: u32,
    /// Peer effective user id.
    pub uid: u32,
    /// Peer effective group id.
    pub gid: u32,
}

impl ConnCredentials {
    /// A credential snapshot is well formed when it names a real process.
    pub open spec fn wf(&self) -> bool {
        self.pid >= 1
    }

    /// Builds a snapshot from the three ids the kernel reports.
    pub fn new(pid: u32, uid: u32, gid: u32) -> (r: ConnCredentials)
        requires
            pid >= 1,
        ensures
            r.wf(),
            r.pid == pid,
            r.uid == uid,
            r.gid == gid,
    {
        ConnCredentials { pid, uid, gid }
    }
}

} // verus!
