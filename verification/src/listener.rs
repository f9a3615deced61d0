use vstd::prelude::*;

use crate::addr::{AddrView, UnixSocketAddr};
use crate::credentials::ConnCredentials;

verus! {

/// A connection sitting in a listener's kernel backlog, as the adapter sees
/// it once accepted: the peer's address and the credential snapshot the
/// kernel captured when the peer connected.
pub struct PendingConn {
    /// The connecting peer's address.
    pub peer_addr: UnixSocketAddr,
    /// The peer's establishment-time credentials, when the platform has them.
    pub creds: Option<ConnCredentials>,
}

/// A listening seqpacket socket, modelled at accept level: the bound address
/// and the kernel backlog, a bounded first-in first-out queue of connections
/// that have completed but were not accepted yet.
pub struct UnixSeqpacketListener {
    addr: UnixSocketAddr,
    backlog: Vec<PendingConn>,
    backlog_cap: usize,
}

impl UnixSeqpacketListener {
    /// The address this listener is bound to.
    pub closed spec fn local(&self) -> AddrView {
        self.addr@
    }

    /// The pending connections, oldest first.
    pub closed spec fn backlog(&self) -> Seq<PendingConn> {
        self.backlog@
    }

    /// How many completed connections the kernel will hold for this listener.
    pub closed spec fn backlog_capacity(&self) -> usize {
        self.backlog_cap
    }

    /// The kernel never holds more completed connections than the backlog
    /// capacity; `bind` establishes this and both queue operations keep it.
    pub open spec fn wf(&self) -> bool {
        self.backlog().len() <= self.backlog_capacity()
    }

    /// Creates a listener bound to `addr` with an empty backlog of the given
    /// capacity. Whether the name is free is the socket layer's question and
    /// is answered before this value exists.
    pub fn bind(addr: UnixSocketAddr, backlog_cap: usize) -> (r: UnixSeqpacketListener)
        ensures
            r.local() == addr@,
            r.backlog().len() == 0,
            r.backlog_capacity() == backlog_cap,
            r.wf(),
    {
        UnixSeqpacketListener { addr, backlog: Vec::new(), backlog_cap }
    }

    /// Models the kernel completing a client's connect: the new connection
    /// joins the back of the backlog, or is turned away when the backlog is
    /// full. Queued connections are never reordered.
    pub fn enqueue_incoming(&mut self, conn: PendingConn) -> (accepted: bool)
        ensures
            old(self).backlog().len() < old(self).backlog_capacity() ==> {
                &&& accepted
                &&& final(self).backlog() == old(self).backlog().push(conn)
                &&& final(self).local() == old(self).local()
                &&& final(self).backlog_capacity() == old(self).backlog_capacity()
            },
            old(self).backlog().len() >= old(self).backlog_capacity() ==> !accepted && *final(self)
                == *old(self),
            old(self).wf() ==> final(self).wf(),
    {
        if self.backlog.len() < self.backlog_cap {
            self.backlog.push(conn);
            true
        } else {
            false
        }
    }

    /// The non-blocking accept: takes the oldest pending connection —
    /// first-in first-out, exactly the kernel's order — or reports that none
    /// is there (`None`, the would-block case the retry loop absorbs).
    pub fn try_accept(&mut self) -> (r: Option<PendingConn>)
        ensures
            old(self).backlog().len() == 0 ==> r is None && *final(self) == *old(self),
            old(self).backlog().len() > 0 ==> {
                &&& r == Some(old(self).backlog()[0])
                &&& final(self).backlog() == old(self).backlog().drop_first()
                &&& final(self).local() == old(self).local()
                &&& final(self).backlog_capacity() == old(self).backlog_capacity()
            },
            old(self).wf() ==> final(self).wf(),
    {
        if self.backlog.len() == 0 {
            None
        } else {
            let first = self.backlog.remove(0);
            proof {
                assert(self.backlog@ =~= old(self).backlog@.drop_first());
            }
            Some(first)
        }
    }

    /// The bound address.
    pub fn local_addr(&self) -> (r: &UnixSocketAddr)
        ensures
            r@ == self.local(),
    {
        &self.addr
    }
}

/// The results of `k` successive accepts from a backlog, each step taking
/// the head and leaving the tail, exactly as `try_accept` does.
pub open spec fn drained(b: Seq<PendingConn>, k: nat) -> Seq<PendingConn>
    decreases k,
{
    if k == 0 {
        Seq::empty()
    } else {
        seq![b[0]] + drained(b.drop_first(), (k - 1) as nat)
    }
}

/// Accept is first-in first-out: with `k` connections pending, `k` accepts
/// return exactly the first `k` queued connections, in the order the kernel
/// queued them — three pending connections come back first, second, third.
pub proof fn lemma_accept_fifo(b: Seq<PendingConn>, k: nat)
    requires
        k <= b.len(),
    ensures
        drained(b, k) == b.take(k as int),
    decreases k,
{
    if k == 0 {
        assert(drained(b, 0) =~= b.take(0));
    } else {
        lemma_accept_fifo(b.drop_first(), (k - 1) as nat);
        assert(seq![b[0]] + b.drop_first().take(k as int - 1) =~= b.take(k as int));
    }
}

} // verus!
