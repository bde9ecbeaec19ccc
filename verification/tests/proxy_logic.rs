use nix::sys::socket::{socketpair, AddressFamily, MsgFlags, SockFlag, SockType};
use std::collections::VecDeque;
use tsi::proxy::{ProxyID, ProxyInstance, ProxyStatus, ProxyType};
use tsi::request::{AcceptConfig, OpResponseConfig, SendMsgConfig};
use tsi::response::{CreditUpdateResult, RecvDgramMsgInfo, RecvStreamMsgInfo, TsiResponse};
use tsi::{ENODATA_CODE, EWOULDBLOCK_CODE, SOCK_NONBLOCK_FLAG};

fn instance(fd: i32, type_: ProxyType) -> ProxyInstance {
    ProxyInstance {
        id: ProxyID::new(3, 5, 7),
        type_,
        status: ProxyStatus::Connected,
        fd,
        control_port: 620,
        tx_cnt: 0,
        last_tx_cnt_sent: 0,
        rx_cnt: 0,
        pending_accepts: 0,
        resp_queue: VecDeque::new(),
    }
}

#[test]
fn proxy_id_new_keeps_fields() {
    let id = ProxyID::new(42, 1024, 55);
    assert_eq!(id.guest_cid, 42);
    assert_eq!(id.peer_port, 1024);
    assert_eq!(id.local_port, 55);
}

#[test]
fn new_stream_starts_idle_with_zero_counters() {
    let p = ProxyInstance::new_stream(ProxyID::new(3, 5, 7), 620).unwrap();
    assert_eq!(p.status, ProxyStatus::Idle);
    assert_eq!(p.type_, ProxyType::Stream);
    assert!(p.fd >= 0);
    assert_eq!(p.control_port, 620);
    assert_eq!(p.tx_cnt, 0);
    assert_eq!(p.rx_cnt, 0);
    assert_eq!(p.pending_accepts, 0);
    assert!(p.resp_queue.is_empty());
}

#[test]
fn new_dgram_starts_idle() {
    let p = ProxyInstance::new_dgram(ProxyID::new(3, 5, 7), 620).unwrap();
    assert_eq!(p.status, ProxyStatus::Idle);
    assert_eq!(p.type_, ProxyType::Dgram);
    assert!(p.fd >= 0);
}

#[test]
fn check_accept_consumes_one_pending() {
    let mut p = instance(-1, ProxyType::Stream);
    p.pending_accepts = 2;
    let r = p.check_accept(&AcceptConfig { peer_port: 5, flags: 0 });
    assert_eq!(r, Some(0));
    assert_eq!(p.pending_accepts, 1);
    assert!(p.resp_queue.is_empty());
}

#[test]
fn check_accept_nonblocking_would_block() {
    let mut p = instance(-1, ProxyType::Stream);
    let r = p.check_accept(&AcceptConfig { peer_port: 5, flags: SOCK_NONBLOCK_FLAG });
    assert_eq!(r, Some(-EWOULDBLOCK_CODE));
    assert_eq!(p.pending_accepts, 0);
}

#[test]
fn check_accept_blocking_parks() {
    let mut p = instance(-1, ProxyType::Stream);
    let r = p.check_accept(&AcceptConfig { peer_port: 5, flags: 0 });
    assert_eq!(r, None);
}

#[test]
fn ack_accept_adopts_fwd_cnt_and_connects() {
    let mut p = instance(-1, ProxyType::Stream);
    p.status = ProxyStatus::ReverseInit;
    let r = p.ack_accept(&OpResponseConfig {
        peer_port: 5,
        local_port: 7,
        buf_alloc: 65536,
        fwd_cnt: 12345,
    });
    assert_eq!(r, Ok(()));
    assert_eq!(p.tx_cnt, 12345);
    assert_eq!(p.status, ProxyStatus::Connected);
}

#[test]
fn credit_update_after_half_window() {
    let mut p = instance(-1, ProxyType::Stream);
    assert!(!p.apply_send_result(3 * 1024 * 1024));
    assert_eq!(p.tx_cnt, 3 * 1024 * 1024);
    assert_eq!(p.last_tx_cnt_sent, 0);
    assert!(p.resp_queue.is_empty());

    assert!(p.apply_send_result(2 * 1024 * 1024));
    assert_eq!(p.tx_cnt, 5 * 1024 * 1024);
    assert_eq!(p.last_tx_cnt_sent, 5 * 1024 * 1024);
    assert_eq!(p.resp_queue.len(), 1);
    assert_eq!(
        p.resp_queue[0],
        TsiResponse::CreditUpdate(CreditUpdateResult {
            src_port: 7,
            dst_port: 5,
            fwd_cnt: 5 * 1024 * 1024,
        })
    );
}

#[test]
fn zero_byte_send_never_emits_credit() {
    let mut p = instance(-1, ProxyType::Stream);
    p.tx_cnt = 6 * 1024 * 1024;
    assert!(!p.apply_send_result(0));
    assert_eq!(p.tx_cnt, 6 * 1024 * 1024);
    assert!(p.resp_queue.is_empty());
}

#[test]
fn tx_cnt_wraps_at_two_to_the_thirty_two() {
    let mut p = instance(-1, ProxyType::Stream);
    p.tx_cnt = u32::MAX - 1;
    p.last_tx_cnt_sent = u32::MAX - 1;
    assert!(!p.apply_send_result(6));
    assert_eq!(p.tx_cnt, 4);
}

#[test]
fn stream_send_counts_bytes_over_real_socket() {
    let (a, b) = socketpair(AddressFamily::Unix, SockType::Stream, None, SockFlag::empty())
        .unwrap();
    let mut p = instance(a, ProxyType::Stream);
    let r = p.send(SendMsgConfig { peer_port: 5, local_port: 7, data: vec![9, 8, 7] });
    assert_eq!(r, Ok(false));
    assert_eq!(p.tx_cnt, 3);
    let mut buf = [0u8; 8];
    let n = nix::sys::socket::recv(b, &mut buf, MsgFlags::empty()).unwrap();
    assert_eq!(n, 3);
    assert_eq!(&buf[0..3], &[9, 8, 7]);
}

#[test]
fn stream_recv_counts_and_wakes_on_full_buffer() {
    let (a, b) = socketpair(AddressFamily::Unix, SockType::Stream, None, SockFlag::empty())
        .unwrap();
    nix::sys::socket::send(a, &[1, 2, 3, 4], MsgFlags::empty()).unwrap();
    let mut p = instance(b, ProxyType::Stream);
    p.tx_cnt = 42;
    let mut buf = vec![0u8; 4];
    assert_eq!(p.recv(&mut buf), Ok(4));
    assert_eq!(buf, vec![1, 2, 3, 4]);
    assert_eq!(p.rx_cnt, 4);
    assert_eq!(p.resp_queue.len(), 1);
    assert_eq!(
        p.resp_queue[0],
        TsiResponse::RecvStreamMsg(RecvStreamMsgInfo { src_port: 7, dst_port: 5, fwd_cnt: 42 })
    );
}

#[test]
fn stream_recv_partial_buffer_queues_nothing() {
    let (a, b) = socketpair(AddressFamily::Unix, SockType::Stream, None, SockFlag::empty())
        .unwrap();
    nix::sys::socket::send(a, &[1, 2], MsgFlags::empty()).unwrap();
    let mut p = instance(b, ProxyType::Stream);
    let mut buf = vec![0u8; 8];
    assert_eq!(p.recv(&mut buf), Ok(2));
    assert!(p.resp_queue.is_empty());
}

#[test]
fn stream_recv_of_zero_closes_with_enodata() {
    let (a, b) = socketpair(AddressFamily::Unix, SockType::Stream, None, SockFlag::empty())
        .unwrap();
    nix::unistd::close(a).unwrap();
    let mut p = instance(b, ProxyType::Stream);
    let mut buf = vec![0u8; 8];
    assert_eq!(p.recv(&mut buf), Err(ENODATA_CODE));
    assert_eq!(p.status, ProxyStatus::Closed);
    assert!(p.resp_queue.is_empty());
}

#[test]
fn dgram_recv_queues_dgram_msg_and_never_credit() {
    let (a, b) = socketpair(AddressFamily::Unix, SockType::Datagram, None, SockFlag::empty())
        .unwrap();
    nix::sys::socket::send(a, &[5, 6, 7, 8], MsgFlags::empty()).unwrap();
    let mut p = instance(b, ProxyType::Dgram);
    let mut buf = vec![0u8; 4];
    assert_eq!(p.recv(&mut buf), Ok(4));
    assert_eq!(p.rx_cnt, 0);
    assert_eq!(p.resp_queue.len(), 1);
    assert_eq!(
        p.resp_queue[0],
        TsiResponse::RecvDgramMsg(RecvDgramMsgInfo { src_port: 0, dst_port: 5 })
    );
    for r in p.resp_queue.iter() {
        assert!(!matches!(r, TsiResponse::CreditUpdate(_)));
        assert!(!matches!(r, TsiResponse::RecvStreamMsg(_)));
    }
}

#[test]
fn dgram_send_never_reports_credit() {
    let (a, b) = socketpair(AddressFamily::Unix, SockType::Datagram, None, SockFlag::empty())
        .unwrap();
    let _ = b;
    let mut p = instance(a, ProxyType::Dgram);
    let r = p.send(SendMsgConfig {
        peer_port: 5,
        local_port: 7,
        data: vec![0u8; 6 * 1024 * 1024 / 1024],
    });
    assert_eq!(r, Ok(false));
    assert_eq!(p.tx_cnt, 0);
    assert!(p.resp_queue.is_empty());
}

#[test]
fn listen_then_empty_accept_would_block() {
    let mut listener = ProxyInstance::new_stream(ProxyID::new(3, 5, 7), 620).unwrap();
    let r = listener.listen(&tsi::request::ListenConfig {
        peer_port: 5,
        addr: [127, 0, 0, 1],
        port: 0,
        vm_port: 0,
        backlog: 4,
    });
    assert_eq!(r, Ok(()));
    assert_eq!(listener.status, ProxyStatus::Listen);
    // nothing is connecting, so the nonblocking accept reports EAGAIN
    let r = listener.accept(ProxyID::new(3, 9, 11));
    assert_eq!(r.err().unwrap(), EWOULDBLOCK_CODE);
    assert_eq!(listener.status, ProxyStatus::Listen);
}

#[test]
fn getters_report_fields() {
    let p = instance(33, ProxyType::Stream);
    assert_eq!(p.type_(), ProxyType::Stream);
    assert_eq!(p.status(), ProxyStatus::Connected);
    assert_eq!(*p.id(), ProxyID::new(3, 5, 7));
    assert_eq!(p.control_port(), 620);
    assert_eq!(p.fwd_cnt(), 0);
    assert_eq!(p.as_raw_fd(), 33);
}
