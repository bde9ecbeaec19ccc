//! Typed outbound responses and their encoding into vsock packets.
//!
//! The encoder stamps the host cid, the proxy's guest cid, the packet type,
//! the op selected by the response kind, and the response's ports and
//! flow-control fields; replies to control requests additionally carry a
//! packed result record in the payload.

use crate::packet::VsockPkt;
use crate::proxy::{ProxyID, ProxyType};
use crate::utils::{be_u32_at, le_i32_at, le_u16_at, write_be_u32, write_le_i32, write_le_u16};
use crate::{code_of_resp_op, TsiError, TsiRespCtlOp, CONN_TX_BUF_SIZE, VSOCK_HOST_CID};
use vstd::prelude::*;

verus! {

/// A pending outbound event of one proxy, queued until the dispatcher
/// drains it into a packet.
#[derive(Clone, Copy, Debug, PartialEq, Eq, Structural)]
pub enum TsiResponse {
    Connect(ConnectResult),
    Listen(ListenResult),
    Accept(AcceptResult),
    RecvStreamMsg(RecvStreamMsgInfo),
    RecvDgramMsg(RecvDgramMsgInfo),
    CreditUpdate(CreditUpdateResult),
    Op(OpResult),
    GetPeername(GetPeernameResult),
}

#[derive(Clone, Copy, Debug, PartialEq, Eq, Structural)]
pub struct ConnectResult {
    pub src_port: u32,
    pub dst_port: u32,
    pub result: i32,
}

#[derive(Clone, Copy, Debug, PartialEq, Eq, Structural)]
pub struct ListenResult {
    pub src_port: u32,
    pub dst_port: u32,
    pub result: i32,
}

#[derive(Clone, Copy, Debug, PartialEq, Eq, Structural)]
pub struct RecvStreamMsgInfo {
    pub src_port: u32,
    pub dst_port: u32,
    pub fwd_cnt: u32,
}

#[derive(Clone, Copy, Debug, PartialEq, Eq, Structural)]
pub struct RecvDgramMsgInfo {
    pub src_port: u32,
    pub dst_port: u32,
}

#[derive(Clone, Copy, Debug, PartialEq, Eq, Structural)]
pub struct CreditUpdateResult {
    pub src_port: u32,
    pub dst_port: u32,
    pub fwd_cnt: u32,
}

#[derive(Clone, Copy, Debug, PartialEq, Eq, Structural)]
pub struct AcceptResult {
    pub src_port: u32,
    pub dst_port: u32,
    pub result: i32,
}

#[derive(Clone, Copy, Debug, PartialEq, Eq, Structural)]
pub struct OpResult {
    pub src_port: u32,
    pub dst_port: u32,
}

#[derive(Clone, Copy, Debug, PartialEq, Eq, Structural)]
pub struct GetPeernameResult {
    pub src_port: u32,
    pub dst_port: u32,
    pub addr: u32,
    pub port: u16,
    pub result: i32,
}

/// The source port a response is emitted with.
pub open spec fn resp_src_port(r: TsiResponse) -> u32 {
    match r {
        TsiResponse::Connect(c) => c.src_port,
        TsiResponse::Listen(c) => c.src_port,
        TsiResponse::Accept(c) => c.src_port,
        TsiResponse::RecvStreamMsg(c) => c.src_port,
        TsiResponse::RecvDgramMsg(c) => c.src_port,
        TsiResponse::CreditUpdate(c) => c.src_port,
        TsiResponse::Op(c) => c.src_port,
        TsiResponse::GetPeername(c) => c.src_port,
    }
}

/// The destination port a response is emitted with.
pub open spec fn resp_dst_port(r: TsiResponse) -> u32 {
    match r {
        TsiResponse::Connect(c) => c.dst_port,
        TsiResponse::Listen(c) => c.dst_port,
        TsiResponse::Accept(c) => c.dst_port,
        TsiResponse::RecvStreamMsg(c) => c.dst_port,
        TsiResponse::RecvDgramMsg(c) => c.dst_port,
        TsiResponse::CreditUpdate(c) => c.dst_port,
        TsiResponse::Op(c) => c.dst_port,
        TsiResponse::GetPeername(c) => c.dst_port,
    }
}

/// The outbound operation a response kind selects: control replies and data
/// wakes go out as `Rw`, credit updates as `CreditUpdate`, and the
/// accepted-connection notice as `Request`.
pub open spec fn resp_op(r: TsiResponse) -> TsiRespCtlOp {
    match r {
        TsiResponse::CreditUpdate(_) => TsiRespCtlOp::CreditUpdate,
        TsiResponse::Op(_) => TsiRespCtlOp::Request,
        _ => TsiRespCtlOp::Rw,
    }
}

/// The `fwd_cnt` stamped into the header: the response's own where it
/// carries one, the proxy's counter otherwise.
pub open spec fn resp_fwd_cnt(r: TsiResponse, proxy_fwd: u32) -> u32 {
    match r {
        TsiResponse::RecvStreamMsg(c) => c.fwd_cnt,
        TsiResponse::CreditUpdate(c) => c.fwd_cnt,
        _ => proxy_fwd,
    }
}

/// How many payload bytes the packed result record of a response takes:
/// four for a bare result code, ten when an address and port ride along,
/// none for kinds without a record.
pub open spec fn resp_record_len(r: TsiResponse) -> int {
    match r {
        TsiResponse::Connect(_) => 4,
        TsiResponse::Listen(_) => 4,
        TsiResponse::Accept(_) => 4,
        TsiResponse::GetPeername(_) => 10,
        _ => 0,
    }
}

/// The packet type code of a proxy kind.
pub open spec fn pkt_type_code(t: ProxyType) -> u16 {
    match t {
        ProxyType::Stream => 1,
        ProxyType::Dgram => 2,
    }
}

/// The payload after encoding: the packed result record at offset zero with
/// the rest of the buffer kept, or the payload untouched for kinds without
/// a record.
pub open spec fn record_written(resp: TsiResponse, pre: VsockPkt, post: VsockPkt) -> bool {
    match resp {
        TsiResponse::Connect(c) => result_record_written(pre, post, c.result),
        TsiResponse::Listen(c) => result_record_written(pre, post, c.result),
        TsiResponse::Accept(c) => result_record_written(pre, post, c.result),
        TsiResponse::GetPeername(g) => {
            &&& pre.data matches Some(d1)
            &&& post.data matches Some(d2)
            &&& d1@.len() >= 10
            &&& d2@.len() == d1@.len()
            &&& le_i32_at(d2@, 0) == g.result
            &&& be_u32_at(d2@, 4) == g.addr
            &&& le_u16_at(d2@, 8) == g.port
            &&& forall|i: int| 10 <= i < d1@.len() ==> d2@[i] == d1@[i]
        },
        _ => post.data == pre.data,
    }
}

/// A bare result record: the code in the first four bytes, the rest kept.
pub open spec fn result_record_written(pre: VsockPkt, post: VsockPkt, result: i32) -> bool {
    &&& pre.data matches Some(d1)
    &&& post.data matches Some(d2)
    &&& d1@.len() >= 4
    &&& d2@.len() == d1@.len()
    &&& le_i32_at(d2@, 0) == result
    &&& forall|i: int| 4 <= i < d1@.len() ==> d2@[i] == d1@[i]
}

/// Everything encoding guarantees, for every response and packet: on
/// success the header holds the host cid, the proxy's guest cid and type
/// code, the op of the response kind, the response's ports, the credit
/// window and the forwarded count, and the payload holds the record; it
/// fails exactly when a record is owed and the payload buffer is missing or
/// too short, leaving the packet untouched.
pub open spec fn encode_post(
    resp: TsiResponse,
    id: ProxyID,
    ptype: ProxyType,
    proxy_fwd: u32,
    pre: VsockPkt,
    post: VsockPkt,
    r: Result<(), TsiError>,
) -> bool {
    match r {
        Ok(()) => {
            &&& post.src_cid == VSOCK_HOST_CID
            &&& post.dst_cid == id.guest_cid
            &&& post.type_ == pkt_type_code(ptype)
            &&& post.op == code_of_resp_op(resp_op(resp))
            &&& post.src_port == resp_src_port(resp)
            &&& post.dst_port == resp_dst_port(resp)
            &&& post.buf_alloc == CONN_TX_BUF_SIZE
            &&& post.fwd_cnt == resp_fwd_cnt(resp, proxy_fwd)
            &&& post.len == resp_record_len(resp)
            &&& record_written(resp, pre, post)
        },
        Err(e) => {
            &&& resp_record_len(resp) > 0
            &&& (pre.data matches Some(d) ==> d@.len() < resp_record_len(resp) && e
                == TsiError::InvalidPktBuf)
            &&& (pre.data is None ==> e == TsiError::PktBufMissing)
            &&& post == pre
        },
    }
}

/// Stamp the constant header fields of an outbound packet for one proxy:
/// host cid as source, the proxy's guest cid as destination, and the
/// packet type; everything else is kept.
pub fn init_proxy_pkt(id: &ProxyID, pkt: &mut VsockPkt, pkt_type: u16) -> (r: Result<(), TsiError>)
    ensures
        r == Ok::<(), TsiError>(()),
        final(pkt).src_cid == VSOCK_HOST_CID,
        final(pkt).dst_cid == id.guest_cid,
        final(pkt).type_ == pkt_type,
        final(pkt).src_port == old(pkt).src_port,
        final(pkt).dst_port == old(pkt).dst_port,
        final(pkt).op == old(pkt).op,
        final(pkt).buf_alloc == old(pkt).buf_alloc,
        final(pkt).fwd_cnt == old(pkt).fwd_cnt,
        final(pkt).len == old(pkt).len,
        final(pkt).data == old(pkt).data,
{
    pkt.src_cid = VSOCK_HOST_CID;
    pkt.dst_cid = id.guest_cid;
    pkt.type_ = pkt_type;
    Ok(())
}

/// Serialise one response into an outbound packet, as `encode_post`
/// prescribes. Re-reading the encoded header fields reproduces the
/// response's source port, destination port and, for kinds that carry
/// them, `fwd_cnt` and `buf_alloc` exactly.
#[verifier::rlimit(100)]
pub fn encode_response(
    resp: &TsiResponse,
    id: &ProxyID,
    ptype: ProxyType,
    proxy_fwd_cnt: u32,
    pkt: &mut VsockPkt,
) -> (r: Result<(), TsiError>)
    ensures
        encode_post(*resp, *id, ptype, proxy_fwd_cnt, *old(pkt), *final(pkt), r),
{
    let need: usize = match resp {
        TsiResponse::Connect(_) => 4,
        TsiResponse::Listen(_) => 4,
        TsiResponse::Accept(_) => 4,
        TsiResponse::GetPeername(_) => 10,
        _ => 0,
    };
    if need > 0 {
        match &pkt.data {
            Some(d) => {
                if d.len() < need {
                    return Err(TsiError::InvalidPktBuf);
                }
            },
            None => {
                return Err(TsiError::PktBufMissing);
            },
        }
    }

    let tcode: u16 = match ptype {
        ProxyType::Stream => 1,
        ProxyType::Dgram => 2,
    };
    match init_proxy_pkt(id, pkt, tcode) {
        Ok(_) => {},
        Err(e) => {
            return Err(e);
        },
    }

    match resp {
        TsiResponse::Connect(c) => {
            pkt.src_port = c.src_port;
            pkt.dst_port = c.dst_port;
            pkt.op = u16::from(TsiRespCtlOp::Rw);
            pkt.fwd_cnt = proxy_fwd_cnt;
        },
        TsiResponse::Listen(c) => {
            pkt.src_port = c.src_port;
            pkt.dst_port = c.dst_port;
            pkt.op = u16::from(TsiRespCtlOp::Rw);
            pkt.fwd_cnt = proxy_fwd_cnt;
        },
        TsiResponse::Accept(c) => {
            pkt.src_port = c.src_port;
            pkt.dst_port = c.dst_port;
            pkt.op = u16::from(TsiRespCtlOp::Rw);
            pkt.fwd_cnt = proxy_fwd_cnt;
        },
        TsiResponse::RecvStreamMsg(c) => {
            pkt.src_port = c.src_port;
            pkt.dst_port = c.dst_port;
            pkt.op = u16::from(TsiRespCtlOp::Rw);
            pkt.fwd_cnt = c.fwd_cnt;
        },
        TsiResponse::RecvDgramMsg(c) => {
            pkt.src_port = c.src_port;
            pkt.dst_port = c.dst_port;
            pkt.op = u16::from(TsiRespCtlOp::Rw);
            pkt.fwd_cnt = proxy_fwd_cnt;
        },
        TsiResponse::CreditUpdate(c) => {
            pkt.src_port = c.src_port;
            pkt.dst_port = c.dst_port;
            pkt.op = u16::from(TsiRespCtlOp::CreditUpdate);
            pkt.fwd_cnt = c.fwd_cnt;
        },
        TsiResponse::Op(c) => {
            pkt.src_port = c.src_port;
            pkt.dst_port = c.dst_port;
            pkt.op = u16::from(TsiRespCtlOp::Request);
            pkt.fwd_cnt = proxy_fwd_cnt;
        },
        TsiResponse::GetPeername(c) => {
            pkt.src_port = c.src_port;
            pkt.dst_port = c.dst_port;
            pkt.op = u16::from(TsiRespCtlOp::Rw);
            pkt.fwd_cnt = proxy_fwd_cnt;
        },
    }
    pkt.buf_alloc = CONN_TX_BUF_SIZE;
    pkt.len = need as u32;

    match resp {
        TsiResponse::Connect(c) => write_result_record(pkt, c.result),
        TsiResponse::Listen(c) => write_result_record(pkt, c.result),
        TsiResponse::Accept(c) => write_result_record(pkt, c.result),
        TsiResponse::GetPeername(c) => {
            match &mut pkt.data {
                Some(d) => {
                    match write_le_i32(d, 0, c.result) {
                        Ok(_) => {},
                        Err(e) => {
                            return Err(e);
                        },
                    }
                    match write_be_u32(d, 4, c.addr) {
                        Ok(_) => {},
                        Err(e) => {
                            return Err(e);
                        },
                    }
                    match write_le_u16(d, 8, c.port) {
                        Ok(_) => {},
                        Err(e) => {
                            return Err(e);
                        },
                    }
                    Ok(())
                },
                None => Err(TsiError::PktBufMissing),
            }
        },
        _ => Ok(()),
    }
}

/// Write a bare result record into the packet payload.
fn write_result_record(pkt: &mut VsockPkt, result: i32) -> (r: Result<(), TsiError>)
    requires
        old(pkt).data matches Some(d) && d@.len() >= 4,
    ensures
        r == Ok::<(), TsiError>(()),
        result_record_written(*old(pkt), *final(pkt), result),
        final(pkt).src_cid == old(pkt).src_cid,
        final(pkt).dst_cid == old(pkt).dst_cid,
        final(pkt).type_ == old(pkt).type_,
        final(pkt).src_port == old(pkt).src_port,
        final(pkt).dst_port == old(pkt).dst_port,
        final(pkt).op == old(pkt).op,
        final(pkt).buf_alloc == old(pkt).buf_alloc,
        final(pkt).fwd_cnt == old(pkt).fwd_cnt,
        final(pkt).len == old(pkt).len,
{
    match &mut pkt.data {
        Some(d) => {
            match write_le_i32(d, 0, result) {
                Ok(_) => Ok(()),
                Err(e) => Err(e),
            }
        },
        None => Err(TsiError::PktBufMissing),
    }
}

/// Encoding preserves a response's observable header fields: the packet
/// re-reads to the response's source port, destination port and, where the
/// kind carries them, its `fwd_cnt` with the full credit window as
/// `buf_alloc`.
pub proof fn lemma_encode_round_trip(
    resp: TsiResponse,
    id: ProxyID,
    ptype: ProxyType,
    proxy_fwd: u32,
    pre: VsockPkt,
    post: VsockPkt,
)
    requires
        encode_post(resp, id, ptype, proxy_fwd, pre, post, Ok(())),
    ensures
        post.src_port == resp_src_port(resp),
        post.dst_port == resp_dst_port(resp),
        post.buf_alloc == CONN_TX_BUF_SIZE,
        resp matches TsiResponse::CreditUpdate(c) ==> post.fwd_cnt == c.fwd_cnt,
        resp matches TsiResponse::RecvStreamMsg(c) ==> post.fwd_cnt == c.fwd_cnt,
        resp matches TsiResponse::Connect(c) ==> (post.data matches Some(d) && le_i32_at(d@, 0)
            == c.result),
        resp matches TsiResponse::GetPeername(c) ==> (post.data matches Some(d) && be_u32_at(d@, 4)
            == c.addr && le_u16_at(d@, 8) == c.port),
{
}

} // verus!
