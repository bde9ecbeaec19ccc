use nix::sys::socket::{socketpair, AddressFamily, MsgFlags, SockFlag, SockType};
use std::collections::VecDeque;
use tsi::dispatcher::{DispatchEvent, ProxyDispatcher};
use tsi::packet::VsockPkt;
use tsi::proxy::{ProxyID, ProxyInstance, ProxyStatus, ProxyType};
use tsi::response::{ConnectResult, TsiResponse};
use tsi::{TsiError, CONN_TX_BUF_SIZE, EINVAL_CODE, EWOULDBLOCK_CODE, VSOCK_HOST_CID};

fn request(src_cid: u64, src_port: u32, dst_port: u32, data: Vec<u8>) -> VsockPkt {
    VsockPkt {
        src_cid,
        dst_cid: VSOCK_HOST_CID,
        src_port,
        dst_port,
        type_: 1,
        op: 0,
        buf_alloc: 0,
        fwd_cnt: 0,
        len: 0,
        data: Some(data),
    }
}

fn create_stream(d: &mut ProxyDispatcher) -> ProxyID {
    // peer_port 0x0400, type stream
    let pkt = request(3, 55, 1024, vec![0x00, 0x04, 0x00, 0x00, 0x01, 0x00]);
    match d.handle_request(&pkt) {
        Ok(DispatchEvent::Registered(fd)) => assert!(fd >= 0),
        other => panic!("unexpected: {:?}", other),
    }
    ProxyID::new(3, 0x0400, 55)
}

fn create_dgram(d: &mut ProxyDispatcher) -> ProxyID {
    let pkt = request(3, 66, 1024, vec![0x01, 0x04, 0x00, 0x00, 0x02, 0x00]);
    match d.handle_request(&pkt) {
        Ok(DispatchEvent::Registered(fd)) => assert!(fd >= 0),
        other => panic!("unexpected: {:?}", other),
    }
    ProxyID::new(3, 0x0401, 66)
}

#[test]
fn proxy_create_inserts_one_stream_proxy() {
    let mut d = ProxyDispatcher::new();
    let id = create_stream(&mut d);
    assert_eq!(d.len(), 1);
    assert!(d.contains(&id));
    assert_eq!(d.status_of(&id), Some(ProxyStatus::Idle));
    // a create queues no outbound response
    assert_eq!(d.pending_responses(&id), Some(0));
}

#[test]
fn duplicate_create_is_dropped() {
    let mut d = ProxyDispatcher::new();
    let _id = create_stream(&mut d);
    let pkt = request(3, 55, 1024, vec![0x00, 0x04, 0x00, 0x00, 0x01, 0x00]);
    assert_eq!(d.handle_request(&pkt), Ok(DispatchEvent::Ignored));
    assert_eq!(d.len(), 1);
}

#[test]
fn create_with_unknown_type_code_is_dropped() {
    let mut d = ProxyDispatcher::new();
    // type code 9 selects neither a stream nor a datagram proxy
    let pkt = request(3, 55, 1024, vec![0x00, 0x04, 0x00, 0x00, 0x09, 0x00]);
    assert_eq!(d.handle_request(&pkt), Ok(DispatchEvent::Ignored));
    assert_eq!(d.len(), 0);
}

#[test]
fn accept_event_for_taken_id_is_invalid() {
    let mut d = ProxyDispatcher::new();
    let id = create_stream(&mut d);
    // the id under which the accepted proxy would be inserted is live
    let r = d.handle_accept_event(&id, id);
    assert_eq!(r, Err(EINVAL_CODE));
    assert_eq!(d.len(), 1);
}

#[test]
fn malformed_request_leaves_the_map_alone() {
    let mut d = ProxyDispatcher::new();
    let id = create_stream(&mut d);
    // a five-byte connect payload is truncated
    let pkt = request(3, 55, 1025, vec![0x00, 0x04, 0x00, 0x00, 0x7f]);
    assert_eq!(d.handle_request(&pkt), Err(TsiError::InvalidPktBuf));
    assert_eq!(d.len(), 1);
    assert_eq!(d.status_of(&id), Some(ProxyStatus::Idle));
    assert_eq!(d.pending_responses(&id), Some(0));
}

#[test]
fn stream_connect_queues_reply_matching_status() {
    let mut d = ProxyDispatcher::new();
    let id = create_stream(&mut d);
    let pkt = request(3, 55, 1025, vec![0x00, 0x04, 0x00, 0x00, 127, 0, 0, 1, 0x00, 0x50]);
    assert_eq!(d.handle_request(&pkt), Ok(DispatchEvent::Done));
    assert_eq!(d.pending_responses(&id), Some(1));
    match d.front_response(&id) {
        Some(TsiResponse::Connect(c)) => {
            assert_eq!(c.src_port, 55);
            assert_eq!(c.dst_port, 0x0400);
            // a result of zero means the connect was issued and the proxy
            // is now connected; a negative errno leaves it idle
            if c.result == 0 {
                assert_eq!(d.status_of(&id), Some(ProxyStatus::Connected));
            } else {
                assert!(c.result < 0);
                assert_eq!(d.status_of(&id), Some(ProxyStatus::Idle));
            }
        }
        other => panic!("unexpected: {:?}", other),
    }
}

#[test]
fn dgram_connect_queues_reply_matching_status() {
    let mut d = ProxyDispatcher::new();
    let id = create_dgram(&mut d);
    let pkt = request(3, 66, 1025, vec![0x01, 0x04, 0x00, 0x00, 127, 0, 0, 1, 0x00, 0x50]);
    assert_eq!(d.handle_request(&pkt), Ok(DispatchEvent::Done));
    assert_eq!(d.pending_responses(&id), Some(1));
    match d.front_response(&id) {
        Some(TsiResponse::Connect(c)) => {
            assert_eq!(c.src_port, 66);
            assert_eq!(c.dst_port, 0x0401);
            if c.result == 0 {
                assert_eq!(d.status_of(&id), Some(ProxyStatus::Connected));
            } else {
                assert!(c.result < 0);
                assert_eq!(d.status_of(&id), Some(ProxyStatus::Idle));
            }
        }
        other => panic!("unexpected: {:?}", other),
    }
}

#[test]
fn listen_request_turns_proxy_listening() {
    let mut d = ProxyDispatcher::new();
    let id = create_stream(&mut d);
    let mut payload = vec![0x00, 0x04, 0x00, 0x00];
    payload.extend_from_slice(&[127, 0, 0, 1]);
    payload.extend_from_slice(&[0x00, 0x00]); // port 0: ephemeral
    payload.extend_from_slice(&[0, 0, 0, 0]);
    payload.extend_from_slice(&[4, 0, 0, 0]);
    let pkt = request(3, 55, 1029, payload);
    assert_eq!(d.handle_request(&pkt), Ok(DispatchEvent::Done));
    assert_eq!(d.status_of(&id), Some(ProxyStatus::Listen));
    match d.front_response(&id) {
        Some(TsiResponse::Listen(l)) => {
            assert_eq!(l.src_port, 55);
            assert_eq!(l.dst_port, 0x0400);
            assert_eq!(l.result, 0);
        }
        other => panic!("unexpected: {:?}", other),
    }
}

#[test]
fn nonblocking_accept_with_none_ready_reports_would_block() {
    let mut d = ProxyDispatcher::new();
    let id = create_stream(&mut d);
    // flags carry the nonblocking bit
    let pkt = request(3, 55, 1030, vec![0x00, 0x04, 0x00, 0x00, 0x00, 0x08, 0x00, 0x00]);
    assert_eq!(d.handle_request(&pkt), Ok(DispatchEvent::Done));
    match d.front_response(&id) {
        Some(TsiResponse::Accept(a)) => {
            assert_eq!(a.src_port, 55);
            assert_eq!(a.dst_port, 0x0400);
            assert_eq!(a.result, -EWOULDBLOCK_CODE);
        }
        other => panic!("unexpected: {:?}", other),
    }
}

#[test]
fn blocking_accept_with_none_ready_is_parked() {
    let mut d = ProxyDispatcher::new();
    let id = create_stream(&mut d);
    let pkt = request(3, 55, 1030, vec![0x00, 0x04, 0x00, 0x00, 0x00, 0x00, 0x00, 0x00]);
    assert_eq!(d.handle_request(&pkt), Ok(DispatchEvent::Done));
    assert_eq!(d.pending_responses(&id), Some(0));
}

#[test]
fn release_removes_the_proxy() {
    let mut d = ProxyDispatcher::new();
    let id = create_stream(&mut d);
    let pkt = request(3, 55, 1031, vec![0x00, 0x04, 0x00, 0x00, 55, 0, 0, 0]);
    match d.handle_request(&pkt) {
        Ok(DispatchEvent::Unregistered(fd)) => assert!(fd >= 0),
        other => panic!("unexpected: {:?}", other),
    }
    assert_eq!(d.len(), 0);
    assert!(!d.contains(&id));
}

#[test]
fn release_of_unknown_id_is_dropped() {
    let mut d = ProxyDispatcher::new();
    let _id = create_stream(&mut d);
    let pkt = request(3, 55, 1031, vec![0x00, 0x04, 0x00, 0x00, 99, 0, 0, 0]);
    assert_eq!(d.handle_request(&pkt), Ok(DispatchEvent::Ignored));
    assert_eq!(d.len(), 1);
}

#[test]
fn accept_event_for_unknown_listener_is_invalid() {
    let mut d = ProxyDispatcher::new();
    let r = d.handle_accept_event(&ProxyID::new(3, 1, 2), ProxyID::new(3, 9, 10));
    assert_eq!(r, Err(EINVAL_CODE));
}

#[test]
fn accept_event_with_none_ready_reports_again() {
    let mut d = ProxyDispatcher::new();
    let id = create_stream(&mut d);
    let mut payload = vec![0x00, 0x04, 0x00, 0x00];
    payload.extend_from_slice(&[127, 0, 0, 1]);
    payload.extend_from_slice(&[0x00, 0x00]);
    payload.extend_from_slice(&[0, 0, 0, 0]);
    payload.extend_from_slice(&[4, 0, 0, 0]);
    let pkt = request(3, 55, 1029, payload);
    assert_eq!(d.handle_request(&pkt), Ok(DispatchEvent::Done));
    // nothing is connecting yet
    let r = d.handle_accept_event(&id, ProxyID::new(3, 9, 10));
    assert_eq!(r, Err(EWOULDBLOCK_CODE));
    assert_eq!(d.len(), 1);
}

#[test]
fn drain_encodes_the_front_response() {
    let id = ProxyID::new(3, 0x0401, 66);
    let mut queue = VecDeque::new();
    queue.push_back(TsiResponse::Connect(ConnectResult {
        src_port: 66,
        dst_port: 0x0401,
        result: -11,
    }));
    let inst = ProxyInstance {
        id,
        type_: ProxyType::Dgram,
        status: ProxyStatus::Idle,
        fd: -1,
        control_port: 620,
        tx_cnt: 0,
        last_tx_cnt_sent: 0,
        rx_cnt: 0,
        pending_accepts: 0,
        resp_queue: queue,
    };
    let mut d = ProxyDispatcher::new();
    d.proxies.push((id, inst));

    let mut out = VsockPkt::zeroed(16);
    assert_eq!(d.drain_one(&mut out), Ok(true));
    assert_eq!(out.src_cid, VSOCK_HOST_CID);
    assert_eq!(out.dst_cid, 3);
    assert_eq!(out.type_, 2);
    assert_eq!(out.op, 5);
    assert_eq!(out.src_port, 66);
    assert_eq!(out.dst_port, 0x0401);
    assert_eq!(out.buf_alloc, CONN_TX_BUF_SIZE);
    assert_eq!(out.len, 4);
    assert_eq!(&out.data.as_ref().unwrap()[0..4], &[0xf5, 0xff, 0xff, 0xff]);
    assert_eq!(d.pending_responses(&id), Some(0));

    let mut out2 = VsockPkt::zeroed(16);
    assert_eq!(d.drain_one(&mut out2), Ok(false));
}

#[test]
fn proxy_recv_stamps_an_inline_data_packet() {
    let (a, b) = socketpair(AddressFamily::Unix, SockType::Stream, None, SockFlag::empty())
        .unwrap();
    nix::sys::socket::send(a, &[0xaa, 0xbb, 0xcc], MsgFlags::empty()).unwrap();
    let id = ProxyID::new(3, 5, 7);
    let inst = ProxyInstance {
        id,
        type_: ProxyType::Stream,
        status: ProxyStatus::Connected,
        fd: b,
        control_port: 620,
        tx_cnt: 9,
        last_tx_cnt_sent: 0,
        rx_cnt: 0,
        pending_accepts: 0,
        resp_queue: VecDeque::new(),
    };
    let mut d = ProxyDispatcher::new();
    d.proxies.push((id, inst));

    let mut out = VsockPkt::zeroed(8);
    assert_eq!(d.proxy_recv(&id, &mut out), Ok(3));
    assert_eq!(out.src_cid, VSOCK_HOST_CID);
    assert_eq!(out.dst_cid, 3);
    assert_eq!(out.op, 5);
    assert_eq!(out.src_port, 7);
    assert_eq!(out.dst_port, 5);
    assert_eq!(out.fwd_cnt, 9);
    assert_eq!(out.buf_alloc, CONN_TX_BUF_SIZE);
    assert_eq!(out.len, 3);
    assert_eq!(&out.data.as_ref().unwrap()[0..3], &[0xaa, 0xbb, 0xcc]);
}

#[test]
fn sendto_data_reaches_the_connected_datagram_socket() {
    let mut d = ProxyDispatcher::new();
    let id = create_dgram(&mut d);
    // point the datagram proxy at the loopback discard of a bound socket:
    // connect it, then hand data through the sendto-data control port
    let pkt = request(3, 66, 1025, vec![0x01, 0x04, 0x00, 0x00, 127, 0, 0, 1, 0x01, 0x00]);
    assert_eq!(d.handle_request(&pkt), Ok(DispatchEvent::Done));
    let data_pkt = request(3, 0x0401, 1028, vec![1, 2, 3]);
    assert_eq!(d.handle_request(&data_pkt), Ok(DispatchEvent::Done));
    // an unreliable datagram send queues no credit update
    assert_eq!(d.pending_responses(&id), Some(1)); // only the connect reply
}
