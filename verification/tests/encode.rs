use tsi::packet::VsockPkt;
use tsi::proxy::{ProxyID, ProxyType};
use tsi::response::{
    encode_response, init_proxy_pkt, AcceptResult, ConnectResult, CreditUpdateResult,
    GetPeernameResult, OpResult, RecvDgramMsgInfo, RecvStreamMsgInfo, TsiResponse,
};
use tsi::{TsiError, CONN_TX_BUF_SIZE, VSOCK_HOST_CID};

#[test]
fn init_proxy_pkt_sets_cids_and_type() {
    let id = ProxyID::new(3, 5, 7);
    let mut p = VsockPkt::zeroed(0);
    assert_eq!(init_proxy_pkt(&id, &mut p, 1), Ok(()));
    assert_eq!(p.src_cid, VSOCK_HOST_CID);
    assert_eq!(p.dst_cid, 3);
    assert_eq!(p.type_, 1);
}

#[test]
fn credit_update_round_trips_header_fields() {
    let id = ProxyID::new(3, 5, 7);
    let resp = TsiResponse::CreditUpdate(CreditUpdateResult {
        src_port: 7,
        dst_port: 5,
        fwd_cnt: 4242,
    });
    let mut p = VsockPkt::zeroed(16);
    assert_eq!(encode_response(&resp, &id, ProxyType::Stream, 999, &mut p), Ok(()));
    assert_eq!(p.src_port, 7);
    assert_eq!(p.dst_port, 5);
    assert_eq!(p.fwd_cnt, 4242);
    assert_eq!(p.buf_alloc, CONN_TX_BUF_SIZE);
    assert_eq!(p.op, 6);
    assert_eq!(p.type_, 1);
    assert_eq!(p.src_cid, VSOCK_HOST_CID);
    assert_eq!(p.dst_cid, 3);
    assert_eq!(p.len, 0);
}

#[test]
fn recv_stream_msg_carries_its_own_fwd_cnt() {
    let id = ProxyID::new(3, 5, 7);
    let resp = TsiResponse::RecvStreamMsg(RecvStreamMsgInfo {
        src_port: 7,
        dst_port: 5,
        fwd_cnt: 77,
    });
    let mut p = VsockPkt::zeroed(16);
    assert_eq!(encode_response(&resp, &id, ProxyType::Stream, 999, &mut p), Ok(()));
    assert_eq!(p.src_port, 7);
    assert_eq!(p.dst_port, 5);
    assert_eq!(p.fwd_cnt, 77);
    assert_eq!(p.buf_alloc, CONN_TX_BUF_SIZE);
    assert_eq!(p.op, 5);
}

#[test]
fn connect_reply_writes_result_record() {
    let id = ProxyID::new(3, 5, 7);
    let resp = TsiResponse::Connect(ConnectResult {
        src_port: 7,
        dst_port: 5,
        result: -11,
    });
    let mut p = VsockPkt::zeroed(16);
    assert_eq!(encode_response(&resp, &id, ProxyType::Stream, 0, &mut p), Ok(()));
    assert_eq!(p.src_port, 7);
    assert_eq!(p.dst_port, 5);
    assert_eq!(p.op, 5);
    assert_eq!(p.len, 4);
    let d = p.data.as_ref().unwrap();
    assert_eq!(&d[0..4], &[0xf5, 0xff, 0xff, 0xff]);
}

#[test]
fn accept_reply_writes_result_record() {
    let id = ProxyID::new(3, 5, 7);
    let resp = TsiResponse::Accept(AcceptResult {
        src_port: 7,
        dst_port: 5,
        result: 0,
    });
    let mut p = VsockPkt::zeroed(8);
    assert_eq!(encode_response(&resp, &id, ProxyType::Stream, 0, &mut p), Ok(()));
    assert_eq!(p.len, 4);
    let d = p.data.as_ref().unwrap();
    assert_eq!(&d[0..4], &[0, 0, 0, 0]);
}

#[test]
fn getpeername_reply_packs_result_addr_port() {
    let id = ProxyID::new(3, 5, 7);
    let resp = TsiResponse::GetPeername(GetPeernameResult {
        src_port: 7,
        dst_port: 5,
        addr: 0x7f000001,
        port: 8080,
        result: 0,
    });
    let mut p = VsockPkt::zeroed(16);
    assert_eq!(encode_response(&resp, &id, ProxyType::Stream, 0, &mut p), Ok(()));
    assert_eq!(p.len, 10);
    let d = p.data.as_ref().unwrap();
    assert_eq!(&d[0..4], &[0, 0, 0, 0]);
    assert_eq!(&d[4..8], &[0x7f, 0x00, 0x00, 0x01]);
    assert_eq!(&d[8..10], &[0x90, 0x1f]);
}

#[test]
fn op_notice_uses_request_op() {
    let id = ProxyID::new(3, 5, 7);
    let resp = TsiResponse::Op(OpResult { src_port: 7, dst_port: 5 });
    let mut p = VsockPkt::zeroed(0);
    assert_eq!(encode_response(&resp, &id, ProxyType::Stream, 13, &mut p), Ok(()));
    assert_eq!(p.op, 1);
    assert_eq!(p.fwd_cnt, 13);
    assert_eq!(p.len, 0);
}

#[test]
fn recv_dgram_msg_marks_dgram_type() {
    let id = ProxyID::new(3, 5, 7);
    let resp = TsiResponse::RecvDgramMsg(RecvDgramMsgInfo { src_port: 0, dst_port: 5 });
    let mut p = VsockPkt::zeroed(0);
    assert_eq!(encode_response(&resp, &id, ProxyType::Dgram, 0, &mut p), Ok(()));
    assert_eq!(p.type_, 2);
    assert_eq!(p.op, 5);
    assert_eq!(p.src_port, 0);
    assert_eq!(p.dst_port, 5);
}

#[test]
fn short_buffer_fails_and_keeps_packet() {
    let id = ProxyID::new(3, 5, 7);
    let resp = TsiResponse::Connect(ConnectResult {
        src_port: 7,
        dst_port: 5,
        result: 0,
    });
    let mut p = VsockPkt::zeroed(2);
    assert_eq!(
        encode_response(&resp, &id, ProxyType::Stream, 0, &mut p),
        Err(TsiError::InvalidPktBuf)
    );
    assert_eq!(p.src_cid, 0);
    assert_eq!(p.src_port, 0);
    assert_eq!(p.len, 0);
}

#[test]
fn missing_buffer_fails_for_record_kinds() {
    let id = ProxyID::new(3, 5, 7);
    let resp = TsiResponse::Listen(tsi::response::ListenResult {
        src_port: 7,
        dst_port: 5,
        result: -1,
    });
    let mut p = VsockPkt::zeroed(0);
    p.data = None;
    assert_eq!(
        encode_response(&resp, &id, ProxyType::Stream, 0, &mut p),
        Err(TsiError::PktBufMissing)
    );
}
