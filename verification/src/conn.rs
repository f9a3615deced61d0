use vstd::prelude::*;

use crate::addr::{AddrView, UnixSocketAddr};
use crate::credentials::ConnCredentials;
use crate::error::ErrorKind;
use crate::poll::SysOutcome;

verus! {

/// One end of a connected pair.
#[derive(Clone, Copy, Debug, PartialEq, Eq, Structural)]
pub enum End {
    A,
    B,
}

/// The other end.
pub open spec fn peer_spec(end: End) -> End {
    match end {
        End::A => End::B,
        End::B => End::A,
    }
}

/// The other end, computed.
pub fn peer_of(end: End) -> (r: End)
    ensures
        r == peer_spec(end),
{
    match end {
        End::A => End::B,
        End::B => End::A,
    }
}

/// The message prefix a buffer of `cap` bytes can hold: the whole message
/// when it fits, otherwise its first `cap` bytes. Truncation is predictable
/// and, at this layer, a success — never an error.
pub open spec fn truncated_to(m: Seq<u8>, cap: nat) -> Seq<u8> {
    if m.len() <= cap {
        m
    } else {
        m.take(cap as int)
    }
}

/// How many bytes a bounded read of `m` into a `cap`-byte buffer reports.
pub open spec fn recv_count(m: Seq<u8>, cap: nat) -> nat {
    truncated_to(m, cap).len()
}

/// The pipe from `end` is broken once its own writing half or the peer's
/// reading half is shut down: exactly the states in which `send` fails with
/// a broken-pipe error.
pub open spec fn pipe_broken(s: &UnixSeqpacketPair, end: End) -> bool {
    !(s.write_open(end) && s.read_open(peer_spec(end)))
}

/// A receive at `end` can progress: its reading half is open and a message
/// is queued. In exactly these states `recv` returns data and never blocks.
pub open spec fn recv_ready(s: &UnixSeqpacketPair, end: End) -> bool {
    s.read_open(end) && s.queued(peer_spec(end)).len() > 0
}

/// End of stream at `end`: the reading half is open, every buffered message
/// has been drained, and the peer's writing half is shut down. In exactly
/// these states `recv` reports the zero-length result.
pub open spec fn at_eof(s: &UnixSeqpacketPair, end: End) -> bool {
    s.read_open(end) && s.queued(peer_spec(end)).len() == 0 && !s.write_open(peer_spec(end))
}

/// Every message in `q` fits the negotiated buffer size `max`.
pub open spec fn messages_bounded(q: Seq<Seq<u8>>, max: usize) -> bool {
    forall|i: int| 0 <= i < q.len() ==> #[trigger] q[i].len() <= max
}

/// A connected pair of seqpacket ends, modelled at message level: one queue
/// of whole messages per direction, one open/shut flag per half, and the
/// immutable snapshots the kernel captures at establishment time. Each end
/// exclusively owns its half; there is no sharing between two pairs.
pub struct UnixSeqpacketPair {
    a_to_b: Vec<Vec<u8>>,
    b_to_a: Vec<Vec<u8>>,
    a_write_open: bool,
    b_write_open: bool,
    a_read_open: bool,
    b_read_open: bool,
    queue_cap: usize,
    max_msg: usize,
    creds: Option<ConnCredentials>,
    label: Option<Vec<u8>>,
}

impl UnixSeqpacketPair {
    /// The messages sent by `sender` that its peer has not received yet,
    /// oldest first.
    pub closed spec fn queued(&self, sender: End) -> Seq<Seq<u8>> {
        match sender {
            End::A => self.a_to_b.deep_view(),
            End::B => self.b_to_a.deep_view(),
        }
    }

    /// Whether `end` may still send.
    pub closed spec fn write_open(&self, end: End) -> bool {
        match end {
            End::A => self.a_write_open,
            End::B => self.b_write_open,
        }
    }

    /// Whether `end` may still receive.
    pub closed spec fn read_open(&self, end: End) -> bool {
        match end {
            End::A => self.a_read_open,
            End::B => self.b_read_open,
        }
    }

    /// How many messages one direction can hold before send would block.
    pub closed spec fn queue_capacity(&self) -> usize {
        self.queue_cap
    }

    /// The negotiated buffer size: the longest message a single send accepts.
    pub closed spec fn max_message_len(&self) -> usize {
        self.max_msg
    }

    /// The credential snapshot captured at establishment, if the platform
    /// supports the query.
    pub closed spec fn peer_credentials(&self) -> Option<ConnCredentials> {
        self.creds
    }

    /// The peer's security label captured at establishment, if the platform
    /// and environment support the query.
    pub closed spec fn peer_label(&self) -> Option<Seq<u8>> {
        match self.label {
            Some(l) => Some(l.deep_view()),
            None => None,
        }
    }

    /// What the kernel's buffering guarantees of every reachable connection
    /// state: neither direction queues more messages than its capacity, and
    /// no queued message exceeds the negotiated buffer size. `pair`
    /// establishes this and every operation preserves it.
    pub open spec fn wf(&self) -> bool {
        &&& self.queued(End::A).len() <= self.queue_capacity()
        &&& self.queued(End::B).len() <= self.queue_capacity()
        &&& messages_bounded(self.queued(End::A), self.max_message_len())
        &&& messages_bounded(self.queued(End::B), self.max_message_len())
    }

    /// Both open/shut flags of both ends, unchanged between two states.
    pub open spec fn same_halves(&self, other: &UnixSeqpacketPair) -> bool {
        &&& forall|e: End| #[trigger] self.write_open(e) == other.write_open(e)
        &&& forall|e: End| #[trigger] self.read_open(e) == other.read_open(e)
    }

    /// The establishment-time constants, unchanged between two states.
    pub open spec fn same_config(&self, other: &UnixSeqpacketPair) -> bool {
        &&& self.queue_capacity() == other.queue_capacity()
        &&& self.max_message_len() == other.max_message_len()
        &&& self.peer_credentials() == other.peer_credentials()
        &&& self.peer_label() == other.peer_label()
    }

    /// Creates an unnamed, already-connected pair: no handshake, both ends
    /// immediately usable, both directions empty and fully open. `queue_cap`
    /// and `max_msg` stand for the kernel's buffering limits; `creds` and
    /// `label` are the kernel's establishment-time snapshots of the creating
    /// process — the peer of either end of a pair is that process itself.
    pub fn pair(
        queue_cap: usize,
        max_msg: usize,
        creds: Option<ConnCredentials>,
        label: Option<Vec<u8>>,
    ) -> (p: UnixSeqpacketPair)
        ensures
            p.queued(End::A).len() == 0,
            p.queued(End::B).len() == 0,
            p.write_open(End::A) && p.write_open(End::B),
            p.read_open(End::A) && p.read_open(End::B),
            p.queue_capacity() == queue_cap,
            p.max_message_len() == max_msg,
            p.peer_credentials() == creds,
            p.peer_label() == match label {
                Some(l) => Some(l.deep_view()),
                None => None::<Seq<u8>>,
            },
            p.wf(),
    {
        UnixSeqpacketPair {
            a_to_b: Vec::new(),
            b_to_a: Vec::new(),
            a_write_open: true,
            b_write_open: true,
            a_read_open: true,
            b_read_open: true,
            queue_cap,
            max_msg,
            creds,
            label,
        }
    }

    /// Sends one message from `end` to its peer, with the kernel's
    /// non-blocking send semantics: all-or-nothing per call, the message
    /// queued whole so its boundary is preserved. Fails broken-pipe once the
    /// sending half (or the peer's receiving half) is shut down; reports
    /// would-block, changing nothing, when the direction's queue is full.
    pub fn send(&mut self, end: End, msg: &Vec<u8>) -> (r: SysOutcome)
        ensures
            pipe_broken(old(self), end) ==> r == SysOutcome::Fatal(ErrorKind::BrokenPipe) && *final(self) == *old(self),
            !pipe_broken(old(self), end) && msg@.len() > old(self).max_message_len() ==> r
                == SysOutcome::Fatal(ErrorKind::MessageTooLarge) && *final(self) == *old(self),
            !pipe_broken(old(self), end) && msg@.len() <= old(self).max_message_len() && old(self).queued(end).len() >= old(self).queue_capacity() ==> r == SysOutcome::WouldBlock
                && *final(self) == *old(self),
            !pipe_broken(old(self), end) && msg@.len() <= old(self).max_message_len() && old(self).queued(end).len() < old(self).queue_capacity() ==> {
                &&& r == SysOutcome::Transferred(msg@.len() as usize)
                &&& final(self).queued(end) == old(self).queued(end).push(msg@)
                &&& final(self).queued(peer_spec(end)) == old(self).queued(peer_spec(end))
                &&& final(self).same_halves(old(self))
                &&& final(self).same_config(old(self))
            },
            old(self).wf() ==> final(self).wf(),
    {
        let can_write = match end {
            End::A => self.a_write_open,
            End::B => self.b_write_open,
        };
        let peer_can_read = match end {
            End::A => self.b_read_open,
            End::B => self.a_read_open,
        };
        if !can_write || !peer_can_read {
            return SysOutcome::Fatal(ErrorKind::BrokenPipe);
        }
        if msg.len() > self.max_msg {
            return SysOutcome::Fatal(ErrorKind::MessageTooLarge);
        }
        let queue_len = match end {
            End::A => self.a_to_b.len(),
            End::B => self.b_to_a.len(),
        };
        if queue_len >= self.queue_cap {
            return SysOutcome::WouldBlock;
        }
        let owned = clone_bytes(msg);
        match end {
            End::A => {
                self.a_to_b.push(owned);
                proof {
                    lemma_queue_deep_view_push(&old(self).a_to_b, &self.a_to_b, msg@);
                }
            },
            End::B => {
                self.b_to_a.push(owned);
                proof {
                    lemma_queue_deep_view_push(&old(self).b_to_a, &self.b_to_a, msg@);
                }
            },
        }
        SysOutcome::Transferred(msg.len())
    }

    /// Receives the oldest queued message at `end` into the caller's buffer,
    /// with the kernel's non-blocking recv semantics. Exactly one whole
    /// message leaves the queue; a too-small buffer gets the message's
    /// prefix, and the truncated count is a success, not an error. An empty
    /// queue reports would-block while the peer may still send, and a
    /// zero-length success — end of stream — once the peer's writing half is
    /// shut down. A receiver whose own reading half is shut down also gets a
    /// zero-length success and consumes nothing.
    pub fn recv(&mut self, end: End, buf: &mut Vec<u8>) -> (r: SysOutcome)
        ensures
            !old(self).read_open(end) ==> r == SysOutcome::Transferred(0) && *final(self) == *old(self) && *final(buf) == *old(buf),
            old(self).read_open(end) && !recv_ready(old(self), end) && old(self).write_open(peer_spec(end)) ==> r == SysOutcome::WouldBlock && *final(self) == *old(self) && *final(buf) == *old(buf),
            at_eof(old(self), end) ==> r == SysOutcome::Transferred(0) && *final(self) == *old(self) && *final(buf) == *old(buf),
            recv_ready(old(self), end) ==> {
                let m = old(self).queued(peer_spec(end))[0];
                let n = recv_count(m, old(buf)@.len() as nat);
                &&& r == SysOutcome::Transferred(n as usize)
                &&& final(buf)@.len() == old(buf)@.len()
                &&& final(buf)@.take(n as int) == truncated_to(m, old(buf)@.len() as nat)
                &&& final(buf)@.skip(n as int) == old(buf)@.skip(n as int)
                &&& final(self).queued(peer_spec(end)) == old(self).queued(
                    peer_spec(end),
                ).drop_first()
                &&& final(self).queued(end) == old(self).queued(end)
                &&& final(self).same_halves(old(self))
                &&& final(self).same_config(old(self))
            },
            old(self).wf() ==> final(self).wf(),
    {
        let can_read = match end {
            End::A => self.a_read_open,
            End::B => self.b_read_open,
        };
        if !can_read {
            return SysOutcome::Transferred(0);
        }
        let queue_len = match end {
            End::A => self.b_to_a.len(),
            End::B => self.a_to_b.len(),
        };
        if queue_len == 0 {
            let peer_can_write = match end {
                End::A => self.b_write_open,
                End::B => self.a_write_open,
            };
            if peer_can_write {
                return SysOutcome::WouldBlock;
            }
            return SysOutcome::Transferred(0);
        }
        let m: Vec<u8> = match end {
            End::A => self.b_to_a.remove(0),
            End::B => self.a_to_b.remove(0),
        };
        proof {
            match end {
                End::A => lemma_queue_deep_view_pop(&old(self).b_to_a, &self.b_to_a),
                End::B => lemma_queue_deep_view_pop(&old(self).a_to_b, &self.a_to_b),
            }
            lemma_byte_vec_deep_view(&m);
        }
        let n = copy_prefix(&m, buf);
        SysOutcome::Transferred(n)
    }

    /// Shuts down the requested half (or both halves) of `end` immediately:
    /// synchronous, never suspends. The peer's halves are untouched, and
    /// messages already queued stay readable, so a peer can drain the queue
    /// after the writer shut down and only then sees end of stream.
    pub fn shutdown(&mut self, end: End, how: Shutdown)
        ensures
            final(self).write_open(end) == (old(self).write_open(end) && !(how is Write || how
                is Both)),
            final(self).read_open(end) == (old(self).read_open(end) && !(how is Read || how
                is Both)),
            final(self).write_open(peer_spec(end)) == old(self).write_open(peer_spec(end)),
            final(self).read_open(peer_spec(end)) == old(self).read_open(peer_spec(end)),
            final(self).queued(End::A) == old(self).queued(End::A),
            final(self).queued(End::B) == old(self).queued(End::B),
            final(self).same_config(old(self)),
            old(self).wf() ==> final(self).wf(),
    {
        let shut_write = matches!(how, Shutdown::Write | Shutdown::Both);
        let shut_read = matches!(how, Shutdown::Read | Shutdown::Both);
        match end {
            End::A => {
                if shut_write {
                    self.a_write_open = false;
                }
                if shut_read {
                    self.a_read_open = false;
                }
            },
            End::B => {
                if shut_write {
                    self.b_write_open = false;
                }
                if shut_read {
                    self.b_read_open = false;
                }
            },
        }
    }

    /// The credential snapshot of the peer process, captured once at
    /// establishment. For a pair that is the creating process itself, at
    /// either end. Fails as unsupported — never with a made-up default —
    /// where the platform cannot capture it.
    pub fn initial_peer_credentials(&self, _end: End) -> (r: Result<ConnCredentials, ErrorKind>)
        ensures
            match self.peer_credentials() {
                Some(c) => r == Ok::<ConnCredentials, ErrorKind>(c),
                None => r == Err::<ConnCredentials, ErrorKind>(ErrorKind::Unsupported),
            },
    {
        match self.creds {
            Some(c) => Ok(c),
            None => Err(ErrorKind::Unsupported),
        }
    }

    /// Writes the peer's security label into the caller's buffer and reports
    /// the bytes used, like a bounded read: a label longer than the buffer is
    /// truncated predictably to the buffer's length, and that is a success.
    /// Fails as unsupported where the platform or a sandboxed environment
    /// suppresses the label.
    pub fn initial_peer_selinux_context(&self, _end: End, buf: &mut Vec<u8>) -> (r: Result<
        usize,
        ErrorKind,
    >)
        requires
            old(buf)@.len() >= 1,
        ensures
            self.peer_label() is None ==> r == Err::<usize, ErrorKind>(ErrorKind::Unsupported)
                && *final(buf) == *old(buf),
            self.peer_label() matches Some(l) ==> {
                let n = recv_count(l, old(buf)@.len() as nat);
                &&& r == Ok::<usize, ErrorKind>(n as usize)
                &&& final(buf)@.len() == old(buf)@.len()
                &&& final(buf)@.take(n as int) == truncated_to(l, old(buf)@.len() as nat)
                &&& final(buf)@.skip(n as int) == old(buf)@.skip(n as int)
            },
    {
        match self.label {
            Some(ref l) => {
                proof {
                    lemma_byte_vec_deep_view(l);
                }
                let n = copy_prefix(l, buf);
                Ok(n)
            },
            None => Err(ErrorKind::Unsupported),
        }
    }

    /// The local address of `end`. A pair is made of unnamed sockets, so
    /// either end answers the unnamed address.
    pub fn local_addr(&self, _end: End) -> (r: UnixSocketAddr)
        ensures
            r@ == AddrView::Unnamed,
    {
        UnixSocketAddr::unnamed()
    }

    /// The address of the other end; unnamed for a pair, like `local_addr`.
    pub fn peer_addr(&self, _end: End) -> (r: UnixSocketAddr)
        ensures
            r@ == AddrView::Unnamed,
    {
        UnixSocketAddr::unnamed()
    }
}

/// Which half of a connection to close.
#[derive(Clone, Copy, Debug, PartialEq, Eq, Structural)]
pub enum Shutdown {
    /// Close the receiving half.
    Read,
    /// Close the sending half.
    Write,
    /// Close both halves.
    Both,
}

/// Copies a message's bytes, as the kernel does when it queues a message.
fn clone_bytes(src: &Vec<u8>) -> (r: Vec<u8>)
    ensures
        r@ == src@,
{
    let mut r: Vec<u8> = Vec::new();
    let mut i: usize = 0;
    while i < src.len()
        invariant
            0 <= i <= src@.len(),
            r@.len() == i,
            forall|j: int| 0 <= j < i ==> r@[j] == src@[j],
        decreases src@.len() - i,
    {
        let b = src[i];
        r.push(b);
        i += 1;
    }
    proof {
        assert(r@ =~= src@);
    }
    r
}

/// Copies into `buf` as much of `src` as fits, leaving the rest of `buf`
/// untouched, and returns the count written: the shared bounded-read step of
/// `recv` and the security-label query.
fn copy_prefix(src: &Vec<u8>, buf: &mut Vec<u8>) -> (n: usize)
    ensures
        n == recv_count(src@, old(buf)@.len() as nat),
        final(buf)@.len() == old(buf)@.len(),
        final(buf)@.take(n as int) == truncated_to(src@, old(buf)@.len() as nat),
        final(buf)@.skip(n as int) == old(buf)@.skip(n as int),
{
    let n = if src.len() <= buf.len() {
        src.len()
    } else {
        buf.len()
    };
    let mut i: usize = 0;
    while i < n
        invariant
            0 <= i <= n,
            n <= src@.len(),
            n <= buf@.len(),
            buf@.len() == old(buf)@.len(),
            n == recv_count(src@, old(buf)@.len() as nat),
            forall|j: int| 0 <= j < i ==> buf@[j] == src@[j],
            forall|j: int| i <= j < buf@.len() ==> buf@[j] == old(buf)@[j],
        decreases n - i,
    {
        let b = src[i];
        buf[i] = b;
        i += 1;
    }
    proof {
        assert(buf@.take(n as int) =~= truncated_to(src@, old(buf)@.len() as nat));
        assert(buf@.skip(n as int) =~= old(buf)@.skip(n as int));
    }
    n
}

/// A byte vector's deep view is its view.
proof fn lemma_byte_vec_deep_view(v: &Vec<u8>)
    ensures
        v.deep_view() == v@,
{
    assert(v.deep_view() =~= v@);
}

/// Pushing one message onto a queue appends its bytes to the queue's deep
/// view.
proof fn lemma_queue_deep_view_push(q1: &Vec<Vec<u8>>, q2: &Vec<Vec<u8>>, m: Seq<u8>)
    requires
        q2@.len() == q1@.len() + 1,
        forall|i: int| 0 <= i < q1@.len() ==> q2@[i] == q1@[i],
        q2@[q1@.len() as int]@ == m,
    ensures
        q2.deep_view() == q1.deep_view().push(m),
{
    let last = q2@[q1@.len() as int];
    lemma_byte_vec_deep_view(&last);
    assert forall|i: int| 0 <= i < q2.deep_view().len() implies q2.deep_view()[i]
        == q1.deep_view().push(m)[i] by {
        if i < q1@.len() {
            assert(q2@[i] == q1@[i]);
        } else {
            assert(q2@[i] == last);
        }
    }
    assert(q2.deep_view() =~= q1.deep_view().push(m));
}

/// Removing the oldest message from a queue drops the first element of the
/// queue's deep view.
proof fn lemma_queue_deep_view_pop(q1: &Vec<Vec<u8>>, q2: &Vec<Vec<u8>>)
    requires
        q1@.len() > 0,
        q2@ == q1@.remove(0),
    ensures
        q2.deep_view() == q1.deep_view().drop_first(),
        q1.deep_view().len() > 0,
        q1.deep_view()[0] == q1@[0]@,
{
    lemma_byte_vec_deep_view(&q1@[0]);
    assert forall|i: int| 0 <= i < q2.deep_view().len() implies q2.deep_view()[i]
        == q1.deep_view().drop_first()[i] by {
        assert(q2@[i] == q1@[i + 1]);
    }
    assert(q2.deep_view() =~= q1.deep_view().drop_first());
}

/// A send is immediately visible to the peer: once a message is queued
/// toward an end whose reading half is open, that end is receive-ready, so
/// its next recv returns data rather than would-block — a recv right after
/// the peer's send can never wait longer than the send took to queue.
pub proof fn lemma_send_wakes_peer_recv(s: &UnixSeqpacketPair, sender: End)
    requires
        s.queued(sender).len() > 0,
        s.read_open(peer_spec(sender)),
    ensures
        recv_ready(s, peer_spec(sender)),
{
    assert(peer_spec(peer_spec(sender)) == sender);
}

/// Message-boundary round trip: a message no longer than the negotiated
/// maximum, appended whole by `send`, is delivered after the messages queued
/// before it; and once at the head, a recv whose buffer is at least the
/// message's length yields exactly its bytes, with its exact length. Both
/// directions of a pair run through this same queue model, so the law holds
/// either way round.
pub proof fn lemma_send_recv_round_trip(q: Seq<Seq<u8>>, m: Seq<u8>, bufcap: nat)
    requires
        m.len() <= bufcap,
    ensures
        q.push(m)[q.len() as int] == m,
        q.len() == 0 ==> q.push(m)[0] == m,
        truncated_to(m, bufcap) == m,
        recv_count(m, bufcap) == m.len(),
{
}

} // verus!
