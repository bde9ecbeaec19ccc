//! Decoding of inbound vsock packets into typed TSI requests.
//!
//! A packet whose destination port falls in the reserved control range
//! 1024..=1031 is a control request whose payload layout depends on the
//! port; any other packet is interpreted by its op field as a stream or
//! datagram event.

use crate::packet::VsockPkt;
use crate::utils::{
    be_u16_at, clone_bytes, le_u16_at, le_u32_at, le_i32_at, read_be_u16, read_le_i32, read_le_u16,
    read_le_u32, read_le_u8,
};
use crate::{ctl_op_of_port, stream_op_of_code, TsiError, TsiReqCtlOp, TsiStreamOp};
use vstd::prelude::*;

verus! {

/// A typed inbound request, decoded from one vsock packet.
#[derive(Clone, Debug)]
pub enum TsiRequest {
    ProxyCreate(ProxyCreateConfig),
    Connect(ConnectConfig),
    GetPeername(GetPeernameConfig),
    SendtoAddr(SendtoAddrConfig),
    SendtoData,
    Listen(ListenConfig),
    Accept(AcceptConfig),
    SendMsg(SendMsgConfig),
    ProxyRelease(ProxyReleaseConfig),
    OpResponse(OpResponseConfig),
}

#[derive(Clone, Copy, Debug)]
pub struct ProxyCreateConfig {
    pub peer_port: u32,
    pub type_: u16,
}

#[derive(Clone, Copy, Debug)]
pub struct ConnectConfig {
    pub peer_port: u32,
    pub addr: [u8; 4],
    pub port: u16,
}

#[derive(Clone, Copy, Debug)]
pub struct GetPeernameConfig {
    pub peer_port: u32,
    pub local_port: u32,
    pub peer: u32,
}

#[derive(Clone, Copy, Debug)]
pub struct SendtoAddrConfig {
    pub peer_port: u32,
    pub addr: [u8; 4],
    pub port: u16,
}

#[derive(Clone, Copy, Debug)]
pub struct ListenConfig {
    pub peer_port: u32,
    pub addr: [u8; 4],
    pub port: u16,
    pub vm_port: u32,
    pub backlog: i32,
}

#[derive(Clone, Copy, Debug)]
pub struct AcceptConfig {
    pub peer_port: u32,
    pub flags: u32,
}

#[derive(Clone, Copy, Debug)]
pub struct ProxyReleaseConfig {
    pub peer_port: u32,
    pub local_port: u32,
}

#[derive(Clone, Debug)]
pub struct SendMsgConfig {
    pub peer_port: u32,
    pub local_port: u32,
    pub data: Vec<u8>,
}

#[derive(Clone, Copy, Debug)]
pub struct OpResponseConfig {
    pub peer_port: u32,
    pub local_port: u32,
    pub buf_alloc: u32,
    pub fwd_cnt: u32,
}

/// What decoding a control request's payload must yield: the request variant
/// selected by the control port, with each field read at its schema offset,
/// or `InvalidPktBuf` when the payload is shorter than the schema.
pub open spec fn ctl_decode_post(
    op: TsiReqCtlOp,
    d: Seq<u8>,
    r: Result<TsiRequest, TsiError>,
) -> bool {
    match op {
        TsiReqCtlOp::ProxyCreate => if d.len() >= 6 {
            &&& r matches Ok(TsiRequest::ProxyCreate(c))
            &&& c.peer_port == le_u32_at(d, 0)
            &&& c.type_ == le_u16_at(d, 4)
        } else {
            r == Err::<TsiRequest, TsiError>(TsiError::InvalidPktBuf)
        },
        TsiReqCtlOp::Connect => if d.len() >= 10 {
            &&& r matches Ok(TsiRequest::Connect(c))
            &&& c.peer_port == le_u32_at(d, 0)
            &&& c.addr@[0] == d[4]
            &&& c.addr@[1] == d[5]
            &&& c.addr@[2] == d[6]
            &&& c.addr@[3] == d[7]
            &&& c.port == be_u16_at(d, 8)
        } else {
            r == Err::<TsiRequest, TsiError>(TsiError::InvalidPktBuf)
        },
        TsiReqCtlOp::Getname => if d.len() >= 12 {
            &&& r matches Ok(TsiRequest::GetPeername(c))
            &&& c.peer_port == le_u32_at(d, 0)
            &&& c.local_port == le_u32_at(d, 4)
            &&& c.peer == le_u32_at(d, 8)
        } else {
            r == Err::<TsiRequest, TsiError>(TsiError::InvalidPktBuf)
        },
        TsiReqCtlOp::SendtoAddr => if d.len() >= 10 {
            &&& r matches Ok(TsiRequest::SendtoAddr(c))
            &&& c.peer_port == le_u32_at(d, 0)
            &&& c.addr@[0] == d[4]
            &&& c.addr@[1] == d[5]
            &&& c.addr@[2] == d[6]
            &&& c.addr@[3] == d[7]
            &&& c.port == le_u16_at(d, 8)
        } else {
            r == Err::<TsiRequest, TsiError>(TsiError::InvalidPktBuf)
        },
        TsiReqCtlOp::SendtoData => r == Ok::<TsiRequest, TsiError>(TsiRequest::SendtoData),
        TsiReqCtlOp::Listen => if d.len() >= 18 {
            &&& r matches Ok(TsiRequest::Listen(c))
            &&& c.peer_port == le_u32_at(d, 0)
            &&& c.addr@[0] == d[4]
            &&& c.addr@[1] == d[5]
            &&& c.addr@[2] == d[6]
            &&& c.addr@[3] == d[7]
            &&& c.port == be_u16_at(d, 8)
            &&& c.vm_port == le_u32_at(d, 10)
            &&& c.backlog == le_i32_at(d, 14)
        } else {
            r == Err::<TsiRequest, TsiError>(TsiError::InvalidPktBuf)
        },
        TsiReqCtlOp::Accept => if d.len() >= 8 {
            &&& r matches Ok(TsiRequest::Accept(c))
            &&& c.peer_port == le_u32_at(d, 0)
            &&& c.flags == le_u32_at(d, 4)
        } else {
            r == Err::<TsiRequest, TsiError>(TsiError::InvalidPktBuf)
        },
        TsiReqCtlOp::ProxyRelease => if d.len() >= 8 {
            &&& r matches Ok(TsiRequest::ProxyRelease(c))
            &&& c.peer_port == le_u32_at(d, 0)
            &&& c.local_port == le_u32_at(d, 4)
        } else {
            r == Err::<TsiRequest, TsiError>(TsiError::InvalidPktBuf)
        },
        TsiReqCtlOp::Unknown => false,
    }
}

/// What decoding an inbound packet must yield, for every packet: a control
/// request when the destination port is reserved, a stream or datagram event
/// otherwise, and the exact error everywhere else.
pub open spec fn decode_post(pkt: VsockPkt, r: Result<TsiRequest, TsiError>) -> bool {
    let ctl_op = ctl_op_of_port(pkt.dst_port);
    if ctl_op == TsiReqCtlOp::Unknown {
        match stream_op_of_code(pkt.op) {
            TsiStreamOp::Response => {
                &&& r matches Ok(TsiRequest::OpResponse(c))
                &&& c.peer_port == pkt.src_port
                &&& c.local_port == pkt.dst_port
                &&& c.buf_alloc == pkt.buf_alloc
                &&& c.fwd_cnt == pkt.fwd_cnt
            },
            TsiStreamOp::Rw => match pkt.data {
                Some(d) => {
                    &&& r matches Ok(TsiRequest::SendMsg(c))
                    &&& c.peer_port == pkt.src_port
                    &&& c.local_port == pkt.dst_port
                    &&& c.data@ == d@
                },
                None => r == Err::<TsiRequest, TsiError>(TsiError::PktBufMissing),
            },
            _ => r == Err::<TsiRequest, TsiError>(TsiError::UnknownOp),
        }
    } else {
        match pkt.data {
            Some(d) => ctl_decode_post(ctl_op, d@, r),
            None => r == Err::<TsiRequest, TsiError>(TsiError::PktBufMissing),
        }
    }
}

impl TsiRequest {
    /// Classify an inbound packet and decode its payload into a typed
    /// request, as `decode_post` prescribes for every packet.
    #[verifier::rlimit(100)]
    pub fn try_from(pkt: &VsockPkt) -> (r: Result<TsiRequest, TsiError>)
        ensures
            decode_post(*pkt, r),
    {
        let ctl_op: TsiReqCtlOp = TsiReqCtlOp::from(pkt.dst_port);

        if ctl_op == TsiReqCtlOp::Unknown {
            match TsiStreamOp::from(pkt.op) {
                TsiStreamOp::Response => Ok(TsiRequest::OpResponse(OpResponseConfig {
                    peer_port: pkt.src_port,
                    local_port: pkt.dst_port,
                    buf_alloc: pkt.buf_alloc,
                    fwd_cnt: pkt.fwd_cnt,
                })),
                TsiStreamOp::Rw => match &pkt.data {
                    Some(d) => Ok(TsiRequest::SendMsg(SendMsgConfig {
                        peer_port: pkt.src_port,
                        local_port: pkt.dst_port,
                        data: clone_bytes(d),
                    })),
                    None => Err(TsiError::PktBufMissing),
                },
                _ => Err(TsiError::UnknownOp),
            }
        } else {
            let d = match &pkt.data {
                Some(d) => d,
                None => {
                    return Err(TsiError::PktBufMissing);
                },
            };
            match ctl_op {
                TsiReqCtlOp::Unknown => Err(TsiError::UnknownOp),
                TsiReqCtlOp::ProxyCreate => {
                    let peer_port = match read_le_u32(d, 0) {
                        Ok(v) => v,
                        Err(e) => {
                            return Err(e);
                        },
                    };
                    let type_ = match read_le_u16(d, 4) {
                        Ok(v) => v,
                        Err(e) => {
                            return Err(e);
                        },
                    };
                    Ok(TsiRequest::ProxyCreate(ProxyCreateConfig { peer_port, type_ }))
                },
                TsiReqCtlOp::Connect => {
                    let peer_port = match read_le_u32(d, 0) {
                        Ok(v) => v,
                        Err(e) => {
                            return Err(e);
                        },
                    };
                    let addr = match read_ipv4(d, 4) {
                        Ok(v) => v,
                        Err(e) => {
                            return Err(e);
                        },
                    };
                    let port = match read_be_u16(d, 8) {
                        Ok(v) => v,
                        Err(e) => {
                            return Err(e);
                        },
                    };
                    Ok(TsiRequest::Connect(ConnectConfig { peer_port, addr, port }))
                },
                TsiReqCtlOp::Getname => {
                    let peer_port = match read_le_u32(d, 0) {
                        Ok(v) => v,
                        Err(e) => {
                            return Err(e);
                        },
                    };
                    let local_port = match read_le_u32(d, 4) {
                        Ok(v) => v,
                        Err(e) => {
                            return Err(e);
                        },
                    };
                    let peer = match read_le_u32(d, 8) {
                        Ok(v) => v,
                        Err(e) => {
                            return Err(e);
                        },
                    };
                    Ok(TsiRequest::GetPeername(GetPeernameConfig { peer_port, local_port, peer }))
                },
                TsiReqCtlOp::SendtoAddr => {
                    let peer_port = match read_le_u32(d, 0) {
                        Ok(v) => v,
                        Err(e) => {
                            return Err(e);
                        },
                    };
                    let addr = match read_ipv4(d, 4) {
                        Ok(v) => v,
                        Err(e) => {
                            return Err(e);
                        },
                    };
                    let port = match read_le_u16(d, 8) {
                        Ok(v) => v,
                        Err(e) => {
                            return Err(e);
                        },
                    };
                    Ok(TsiRequest::SendtoAddr(SendtoAddrConfig { peer_port, addr, port }))
                },
                TsiReqCtlOp::SendtoData => Ok(TsiRequest::SendtoData),
                TsiReqCtlOp::Listen => {
                    let peer_port = match read_le_u32(d, 0) {
                        Ok(v) => v,
                        Err(e) => {
                            return Err(e);
                        },
                    };
                    let addr = match read_ipv4(d, 4) {
                        Ok(v) => v,
                        Err(e) => {
                            return Err(e);
                        },
                    };
                    let port = match read_be_u16(d, 8) {
                        Ok(v) => v,
                        Err(e) => {
                            return Err(e);
                        },
                    };
                    let vm_port = match read_le_u32(d, 10) {
                        Ok(v) => v,
                        Err(e) => {
                            return Err(e);
                        },
                    };
                    let backlog = match read_le_i32(d, 14) {
                        Ok(v) => v,
                        Err(e) => {
                            return Err(e);
                        },
                    };
                    Ok(TsiRequest::Listen(ListenConfig { peer_port, addr, port, vm_port, backlog }))
                },
                TsiReqCtlOp::Accept => {
                    let peer_port = match read_le_u32(d, 0) {
                        Ok(v) => v,
                        Err(e) => {
                            return Err(e);
                        },
                    };
                    let flags = match read_le_u32(d, 4) {
                        Ok(v) => v,
                        Err(e) => {
                            return Err(e);
                        },
                    };
                    Ok(TsiRequest::Accept(AcceptConfig { peer_port, flags }))
                },
                TsiReqCtlOp::ProxyRelease => {
                    let peer_port = match read_le_u32(d, 0) {
                        Ok(v) => v,
                        Err(e) => {
                            return Err(e);
                        },
                    };
                    let local_port = match read_le_u32(d, 4) {
                        Ok(v) => v,
                        Err(e) => {
                            return Err(e);
                        },
                    };
                    Ok(TsiRequest::ProxyRelease(ProxyReleaseConfig { peer_port, local_port }))
                },
            }
        }
    }
}

/// Read the four consecutive address bytes at `offset`, or fail when the
/// buffer is too short.
fn read_ipv4(buf: &Vec<u8>, offset: usize) -> (r: Result<[u8; 4], TsiError>)
    requires
        offset + 4 <= usize::MAX,
    ensures
        offset + 4 <= buf@.len() ==> {
            &&& r matches Ok(a)
            &&& a@[0] == buf@[offset as int]
            &&& a@[1] == buf@[offset as int + 1]
            &&& a@[2] == buf@[offset as int + 2]
            &&& a@[3] == buf@[offset as int + 3]
        },
        offset + 4 > buf@.len() ==> r == Err::<[u8; 4], TsiError>(TsiError::InvalidPktBuf),
{
    let b0 = match read_le_u8(buf, offset) {
        Ok(v) => v,
        Err(e) => {
            return Err(e);
        },
    };
    let b1 = match read_le_u8(buf, offset + 1) {
        Ok(v) => v,
        Err(e) => {
            return Err(e);
        },
    };
    let b2 = match read_le_u8(buf, offset + 2) {
        Ok(v) => v,
        Err(e) => {
            return Err(e);
        },
    };
    let b3 = match read_le_u8(buf, offset + 3) {
        Ok(v) => v,
        Err(e) => {
            return Err(e);
        },
    };
    Ok([b0, b1, b2, b3])
}

} // verus!
