use tsi::packet::VsockPkt;
use tsi::request::TsiRequest;
use tsi::TsiError;

fn pkt(dst_port: u32, op: u16, data: Option<Vec<u8>>) -> VsockPkt {
    VsockPkt {
        src_cid: 3,
        dst_cid: 2,
        src_port: 100,
        dst_port,
        type_: 1,
        op,
        buf_alloc: 1024,
        fwd_cnt: 7,
        len: 0,
        data,
    }
}

#[test]
fn proxy_create_stream_decodes() {
    let p = pkt(1024, 0, Some(vec![0x00, 0x04, 0x00, 0x00, 0x01, 0x00]));
    match TsiRequest::try_from(&p) {
        Ok(TsiRequest::ProxyCreate(c)) => {
            assert_eq!(c.peer_port, 0x0400);
            assert_eq!(c.type_, 1);
        }
        other => panic!("unexpected: {:?}", other),
    }
}

#[test]
fn connect_decodes_big_endian_port() {
    let p = pkt(1025, 0, Some(vec![0x00, 0x04, 0x00, 0x00, 127, 0, 0, 1, 0x00, 0x50]));
    match TsiRequest::try_from(&p) {
        Ok(TsiRequest::Connect(c)) => {
            assert_eq!(c.peer_port, 0x0400);
            assert_eq!(c.addr, [127, 0, 0, 1]);
            assert_eq!(c.port, 80);
        }
        other => panic!("unexpected: {:?}", other),
    }
}

#[test]
fn connect_truncated_payload_is_invalid() {
    let p = pkt(1025, 0, Some(vec![0x00, 0x04, 0x00, 0x00, 0x7f]));
    match TsiRequest::try_from(&p) {
        Err(TsiError::InvalidPktBuf) => {}
        other => panic!("unexpected: {:?}", other),
    }
}

#[test]
fn control_request_without_payload_is_missing() {
    let p = pkt(1024, 0, None);
    match TsiRequest::try_from(&p) {
        Err(TsiError::PktBufMissing) => {}
        other => panic!("unexpected: {:?}", other),
    }
}

#[test]
fn getpeername_decodes() {
    let p = pkt(
        1026,
        0,
        Some(vec![1, 0, 0, 0, 2, 0, 0, 0, 3, 0, 0, 0]),
    );
    match TsiRequest::try_from(&p) {
        Ok(TsiRequest::GetPeername(c)) => {
            assert_eq!(c.peer_port, 1);
            assert_eq!(c.local_port, 2);
            assert_eq!(c.peer, 3);
        }
        other => panic!("unexpected: {:?}", other),
    }
}

#[test]
fn sendto_addr_decodes_little_endian_port() {
    let p = pkt(1027, 0, Some(vec![0x00, 0x04, 0x00, 0x00, 10, 0, 0, 2, 0x50, 0x00]));
    match TsiRequest::try_from(&p) {
        Ok(TsiRequest::SendtoAddr(c)) => {
            assert_eq!(c.peer_port, 0x0400);
            assert_eq!(c.addr, [10, 0, 0, 2]);
            assert_eq!(c.port, 80);
        }
        other => panic!("unexpected: {:?}", other),
    }
}

#[test]
fn sendto_data_decodes_with_empty_payload() {
    let p = pkt(1028, 0, Some(Vec::new()));
    match TsiRequest::try_from(&p) {
        Ok(TsiRequest::SendtoData) => {}
        other => panic!("unexpected: {:?}", other),
    }
}

#[test]
fn listen_decodes_full_schema() {
    let mut payload = vec![0x00, 0x04, 0x00, 0x00];
    payload.extend_from_slice(&[192, 168, 0, 1]);
    payload.extend_from_slice(&[0x1f, 0x90]);
    payload.extend_from_slice(&[0x39, 0x30, 0x00, 0x00]);
    payload.extend_from_slice(&[0x80, 0x00, 0x00, 0x00]);
    let p = pkt(1029, 0, Some(payload));
    match TsiRequest::try_from(&p) {
        Ok(TsiRequest::Listen(c)) => {
            assert_eq!(c.peer_port, 0x0400);
            assert_eq!(c.addr, [192, 168, 0, 1]);
            assert_eq!(c.port, 8080);
            assert_eq!(c.vm_port, 12345);
            assert_eq!(c.backlog, 128);
        }
        other => panic!("unexpected: {:?}", other),
    }
}

#[test]
fn listen_is_invalid_at_seventeen_bytes() {
    let p = pkt(1029, 0, Some(vec![0u8; 17]));
    match TsiRequest::try_from(&p) {
        Err(TsiError::InvalidPktBuf) => {}
        other => panic!("unexpected: {:?}", other),
    }
}

#[test]
fn accept_decodes_flags() {
    let p = pkt(1030, 0, Some(vec![9, 0, 0, 0, 0x00, 0x08, 0x00, 0x00]));
    match TsiRequest::try_from(&p) {
        Ok(TsiRequest::Accept(c)) => {
            assert_eq!(c.peer_port, 9);
            assert_eq!(c.flags, 2048);
        }
        other => panic!("unexpected: {:?}", other),
    }
}

#[test]
fn proxy_release_decodes_both_ports() {
    let p = pkt(1031, 0, Some(vec![9, 0, 0, 0, 11, 0, 0, 0]));
    match TsiRequest::try_from(&p) {
        Ok(TsiRequest::ProxyRelease(c)) => {
            assert_eq!(c.peer_port, 9);
            assert_eq!(c.local_port, 11);
        }
        other => panic!("unexpected: {:?}", other),
    }
}

#[test]
fn op_response_takes_header_fields() {
    let p = pkt(5000, 2, None);
    match TsiRequest::try_from(&p) {
        Ok(TsiRequest::OpResponse(c)) => {
            assert_eq!(c.peer_port, 100);
            assert_eq!(c.local_port, 5000);
            assert_eq!(c.buf_alloc, 1024);
            assert_eq!(c.fwd_cnt, 7);
        }
        other => panic!("unexpected: {:?}", other),
    }
}

#[test]
fn rw_copies_data_slice() {
    let p = pkt(5000, 5, Some(vec![1, 2, 3]));
    match TsiRequest::try_from(&p) {
        Ok(TsiRequest::SendMsg(c)) => {
            assert_eq!(c.peer_port, 100);
            assert_eq!(c.local_port, 5000);
            assert_eq!(c.data, vec![1, 2, 3]);
        }
        other => panic!("unexpected: {:?}", other),
    }
}

#[test]
fn rw_without_data_is_missing() {
    let p = pkt(5000, 5, None);
    match TsiRequest::try_from(&p) {
        Err(TsiError::PktBufMissing) => {}
        other => panic!("unexpected: {:?}", other),
    }
}

#[test]
fn reserved_stream_ops_fail_closed() {
    for op in [1u16, 3, 4, 6, 7, 99] {
        let p = pkt(5000, op, Some(vec![0u8; 4]));
        match TsiRequest::try_from(&p) {
            Err(TsiError::UnknownOp) => {}
            other => panic!("op {}: unexpected {:?}", op, other),
        }
    }
}
