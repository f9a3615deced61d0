use seqpacket::addr::{UnixSocketAddr, ADDR_MAX_LEN};
use seqpacket::conn::{peer_of, End, Shutdown, UnixSeqpacketPair};
use seqpacket::credentials::ConnCredentials;
use seqpacket::error::ErrorKind;
use seqpacket::listener::{PendingConn, UnixSeqpacketListener};
use seqpacket::poll::SysOutcome;

fn plain_pair() -> UnixSeqpacketPair {
    UnixSeqpacketPair::pair(4, 64, None, None)
}

#[test]
fn round_trip_preserves_message_both_directions() {
    // A message no longer than the negotiated buffer size comes back
    // unchanged and with the same length, in either direction of a pair.
    let mut p = plain_pair();
    let msg = vec![10u8, 20, 30, 40, 50];

    assert_eq!(p.send(End::A, &msg), SysOutcome::Transferred(5));
    let mut buf = vec![0u8; 50];
    assert_eq!(p.recv(peer_of(End::A), &mut buf), SysOutcome::Transferred(5));
    assert_eq!(&buf[..5], &msg[..]);

    assert_eq!(p.send(End::B, &msg), SysOutcome::Transferred(5));
    let mut buf2 = vec![0u8; 50];
    assert_eq!(p.recv(End::A, &mut buf2), SysOutcome::Transferred(5));
    assert_eq!(&buf2[..5], &msg[..]);
}

#[test]
fn empty_message_round_trips() {
    let mut p = plain_pair();
    let empty: Vec<u8> = Vec::new();
    assert_eq!(p.send(End::A, &empty), SysOutcome::Transferred(0));
    let mut buf = vec![7u8; 8];
    assert_eq!(p.recv(End::B, &mut buf), SysOutcome::Transferred(0));
    // The buffer is untouched and the queue is consumed.
    assert_eq!(buf, vec![7u8; 8]);
    assert_eq!(p.recv(End::B, &mut buf), SysOutcome::WouldBlock);
}

#[test]
fn largest_message_is_accepted_and_oversize_rejected() {
    let mut p = UnixSeqpacketPair::pair(4, 8, None, None);
    let exact = vec![1u8; 8];
    assert_eq!(p.send(End::A, &exact), SysOutcome::Transferred(8));
    let oversize = vec![1u8; 9];
    assert_eq!(
        p.send(End::A, &oversize),
        SysOutcome::Fatal(ErrorKind::MessageTooLarge)
    );
}

#[test]
fn full_queue_would_block_until_drained() {
    let mut p = UnixSeqpacketPair::pair(1, 64, None, None);
    let msg = vec![1u8, 2];
    assert_eq!(p.send(End::A, &msg), SysOutcome::Transferred(2));
    assert_eq!(p.send(End::A, &msg), SysOutcome::WouldBlock);
    let mut buf = vec![0u8; 4];
    assert_eq!(p.recv(End::B, &mut buf), SysOutcome::Transferred(2));
    assert_eq!(p.send(End::A, &msg), SysOutcome::Transferred(2));
}

#[test]
fn recv_on_empty_queue_would_block_while_peer_may_send() {
    let mut p = plain_pair();
    let mut buf = vec![0u8; 4];
    assert_eq!(p.recv(End::B, &mut buf), SysOutcome::WouldBlock);
}

#[test]
fn truncated_recv_is_a_success_and_boundary_is_kept() {
    // A 3-byte buffer gets the first 3 bytes of a 5-byte message as a
    // success; the rest of that message is gone with it, and the next recv
    // sees the next whole message — boundaries never blur.
    let mut p = plain_pair();
    assert_eq!(
        p.send(End::A, &vec![1u8, 2, 3, 4, 5]),
        SysOutcome::Transferred(5)
    );
    assert_eq!(p.send(End::A, &vec![9u8, 9]), SysOutcome::Transferred(2));

    let mut buf = vec![0u8, 0, 0];
    assert_eq!(p.recv(End::B, &mut buf), SysOutcome::Transferred(3));
    assert_eq!(buf, vec![1u8, 2, 3]);

    let mut buf2 = vec![0u8; 8];
    assert_eq!(p.recv(End::B, &mut buf2), SysOutcome::Transferred(2));
    assert_eq!(&buf2[..2], &[9u8, 9]);
}

#[test]
fn send_after_shutdown_write_fails_broken_pipe() {
    let mut p = plain_pair();
    p.shutdown(End::A, Shutdown::Write);
    assert_eq!(
        p.send(End::A, &vec![1u8]),
        SysOutcome::Fatal(ErrorKind::BrokenPipe)
    );
}

#[test]
fn peer_drains_buffered_data_then_sees_end_of_stream() {
    // Data queued before the writer shut down stays readable; once drained,
    // recv yields the zero-length end-of-stream result, not an error.
    let mut p = plain_pair();
    assert_eq!(p.send(End::A, &vec![5u8, 6]), SysOutcome::Transferred(2));
    p.shutdown(End::A, Shutdown::Write);

    let mut buf = vec![0u8; 4];
    assert_eq!(p.recv(End::B, &mut buf), SysOutcome::Transferred(2));
    assert_eq!(&buf[..2], &[5u8, 6]);
    assert_eq!(p.recv(End::B, &mut buf), SysOutcome::Transferred(0));
}

#[test]
fn shutdown_read_silences_own_recv() {
    let mut p = plain_pair();
    assert_eq!(p.send(End::A, &vec![1u8]), SysOutcome::Transferred(1));
    p.shutdown(End::B, Shutdown::Read);
    let mut buf = vec![9u8; 2];
    assert_eq!(p.recv(End::B, &mut buf), SysOutcome::Transferred(0));
    assert_eq!(buf, vec![9u8; 2]);
    // And the peer can no longer send to it.
    assert_eq!(
        p.send(End::A, &vec![2u8]),
        SysOutcome::Fatal(ErrorKind::BrokenPipe)
    );
}

#[test]
fn shutdown_both_closes_both_halves() {
    let mut p = plain_pair();
    p.shutdown(End::A, Shutdown::Both);
    assert_eq!(
        p.send(End::A, &vec![1u8]),
        SysOutcome::Fatal(ErrorKind::BrokenPipe)
    );
    let mut buf = vec![0u8; 2];
    assert_eq!(p.recv(End::A, &mut buf), SysOutcome::Transferred(0));
}

#[test]
fn pair_credentials_report_creating_process() {
    // Both ends of a pair belong to the process that created it, so either
    // end's snapshot names that process.
    let own = ConnCredentials::new(1234, 1000, 1000);
    let p = UnixSeqpacketPair::pair(4, 64, Some(own), None);
    assert_eq!(p.initial_peer_credentials(End::A), Ok(own));
    assert_eq!(p.initial_peer_credentials(End::B), Ok(own));
    assert_eq!(p.initial_peer_credentials(End::A).unwrap().pid, 1234);
}

#[test]
fn credentials_unsupported_is_a_distinct_failure() {
    let p = plain_pair();
    assert_eq!(
        p.initial_peer_credentials(End::A),
        Err(ErrorKind::Unsupported)
    );
}

#[test]
fn one_byte_buffer_truncates_label_predictably() {
    // The chosen discipline: a too-small buffer gets the label's prefix and
    // the count written, as a success.
    let label = b"system_u:system_r:kernel_t:s0".to_vec();
    let p = UnixSeqpacketPair::pair(4, 64, None, Some(label.clone()));
    let mut tiny = vec![0u8];
    assert_eq!(
        p.initial_peer_selinux_context(End::A, &mut tiny),
        Ok(1usize)
    );
    assert_eq!(tiny[0], b's');

    // The recommended 50-byte buffer holds typical labels whole.
    let mut roomy = vec![0u8; 50];
    let n = p
        .initial_peer_selinux_context(End::B, &mut roomy)
        .unwrap();
    assert_eq!(n, label.len());
    assert_eq!(&roomy[..n], &label[..]);
}

#[test]
fn label_unsupported_is_a_distinct_failure() {
    let p = plain_pair();
    let mut buf = vec![0u8; 50];
    assert_eq!(
        p.initial_peer_selinux_context(End::A, &mut buf),
        Err(ErrorKind::Unsupported)
    );
}

#[test]
fn pair_ends_are_unnamed() {
    let p = plain_pair();
    assert!(p.local_addr(End::A).is_unnamed());
    assert!(p.peer_addr(End::B).is_unnamed());
}

#[test]
fn accept_returns_three_pending_in_fifo_order() {
    // Three clients queued by the kernel come back in exactly that order.
    let bound = UnixSocketAddr::from_pathname(b"/tmp/srv.sock".to_vec()).unwrap();
    let mut l = UnixSeqpacketListener::bind(bound, 8);

    let c1 = UnixSocketAddr::from_pathname(b"/tmp/c1.sock".to_vec()).unwrap();
    let c2 = UnixSocketAddr::from_abstract_name(b"c2".to_vec()).unwrap();
    let c3 = UnixSocketAddr::unnamed();
    assert!(l.enqueue_incoming(PendingConn {
        peer_addr: c1,
        creds: None
    }));
    assert!(l.enqueue_incoming(PendingConn {
        peer_addr: c2,
        creds: None
    }));
    assert!(l.enqueue_incoming(PendingConn {
        peer_addr: c3,
        creds: None
    }));

    let first = l.try_accept().unwrap();
    let second = l.try_accept().unwrap();
    let third = l.try_accept().unwrap();
    assert_eq!(
        first.peer_addr,
        UnixSocketAddr::from_pathname(b"/tmp/c1.sock".to_vec()).unwrap()
    );
    assert_eq!(
        second.peer_addr,
        UnixSocketAddr::from_abstract_name(b"c2".to_vec()).unwrap()
    );
    assert!(third.peer_addr.is_unnamed());
    // The backlog is now empty: accept would block.
    assert!(l.try_accept().is_none());
}

#[test]
fn full_backlog_turns_clients_away() {
    let mut l = UnixSeqpacketListener::bind(UnixSocketAddr::unnamed(), 1);
    assert!(l.enqueue_incoming(PendingConn {
        peer_addr: UnixSocketAddr::unnamed(),
        creds: None
    }));
    assert!(!l.enqueue_incoming(PendingConn {
        peer_addr: UnixSocketAddr::unnamed(),
        creds: None
    }));
}

#[test]
fn listener_reports_bound_address() {
    let bound = UnixSocketAddr::from_pathname(b"/run/app.sock".to_vec()).unwrap();
    let l = UnixSeqpacketListener::bind(bound, 4);
    assert_eq!(
        *l.local_addr(),
        UnixSocketAddr::from_pathname(b"/run/app.sock".to_vec()).unwrap()
    );
}

#[test]
fn bad_pathnames_are_invalid_input() {
    assert_eq!(
        UnixSocketAddr::from_pathname(Vec::new()).unwrap_err(),
        ErrorKind::InvalidInput
    );
    assert_eq!(
        UnixSocketAddr::from_pathname(vec![b'a'; ADDR_MAX_LEN + 1]).unwrap_err(),
        ErrorKind::InvalidInput
    );
    assert_eq!(
        UnixSocketAddr::from_pathname(vec![b'a', 0, b'b']).unwrap_err(),
        ErrorKind::InvalidInput
    );
    assert_eq!(
        UnixSocketAddr::from_abstract_name(vec![0u8; ADDR_MAX_LEN + 1]).unwrap_err(),
        ErrorKind::InvalidInput
    );
    // An abstract name, unlike a path, may be empty or hold NUL bytes.
    assert!(UnixSocketAddr::from_abstract_name(Vec::new()).is_ok());
    assert!(UnixSocketAddr::from_abstract_name(vec![0u8, 1, 0]).is_ok());
}

#[test]
fn addresses_compare_by_kind_and_bytes() {
    let path_a = UnixSocketAddr::from_pathname(b"/a".to_vec()).unwrap();
    let path_a_again = UnixSocketAddr::from_pathname(b"/a".to_vec()).unwrap();
    let path_b = UnixSocketAddr::from_pathname(b"/b".to_vec()).unwrap();
    let abstract_a = UnixSocketAddr::from_abstract_name(b"/a".to_vec()).unwrap();
    assert_eq!(path_a, path_a_again);
    assert_ne!(path_a, path_b);
    assert_ne!(path_a, abstract_a);
    assert_eq!(UnixSocketAddr::unnamed(), UnixSocketAddr::unnamed());
    assert_ne!(UnixSocketAddr::unnamed(), path_a);
}
