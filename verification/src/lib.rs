//! Transparent Socket Impersonation (TSI) core.
//!
//! A guest kernel without direct host network access tunnels BSD-socket
//! operations over a vsock-like transport; the host side impersonates those
//! sockets, performs the real I/O, and relays results back as vsock packets.
//! This crate holds the verified core of that host side: the wire codec for
//! requests and responses, the per-socket proxy state machine with its credit
//! accounting, and the dispatch layer that routes requests to proxies.

use vstd::prelude::*;

pub mod dispatcher;
pub mod packet;
pub mod proxy;
pub mod request;
pub mod response;
mod sys;
pub mod utils;

verus! {

/// The fixed vsock context identifier of the host.
pub const VSOCK_HOST_CID: u64 = 2;

/// Socket-type code for a stream proxy in a `ProxyCreate` payload.
pub const SOCK_STREAM: u16 = 1;

/// Socket-type code for a datagram proxy in a `ProxyCreate` payload.
pub const SOCK_DGRAM: u16 = 2;

/// Inbound variant code that also selects a stream proxy.
pub const SOCK_TSI_STREAM: u16 = 7;

/// Inbound variant code that also selects a datagram proxy.
pub const SOCK_TSI_DGRAM: u16 = 8;

/// The proxy control channel port.
pub const PROXY_PORT: u32 = 620;

/// Connection credit window: 8 MiB.
pub const CONN_TX_BUF_SIZE: u32 = 8388608;

/// Linux `errno` for a nonblocking connect that is under way
/// (`EINPROGRESS`).
pub const EINPROGRESS_CODE: i32 = 115;

/// Linux `errno` for an operation that would block
/// (`EAGAIN`/`EWOULDBLOCK`).
pub const EWOULDBLOCK_CODE: i32 = 11;

/// Linux `errno` for a stream whose peer has closed (`ENODATA`).
pub const ENODATA_CODE: i32 = 61;

/// Linux `errno` for a request that does not fit its target (`EINVAL`).
pub const EINVAL_CODE: i32 = 22;

/// The `SOCK_NONBLOCK` bit of an `Accept` request's flags word, as Linux
/// defines it.
pub const SOCK_NONBLOCK_FLAG: u32 = 2048;

/// Errors of the TSI core itself (host socket errors travel as raw
/// `errno` codes instead).
#[derive(Clone, Copy, Debug, PartialEq, Eq, Structural)]
pub enum TsiError {
    /// A request that needs a payload arrived without one.
    PktBufMissing,
    /// A payload was present but too short for the request's schema.
    InvalidPktBuf,
    /// The packet's op field holds a reserved or unknown operation.
    UnknownOp,
}

/// The control request selected by a reserved destination port, or `Unknown`
/// for ports outside the control range 1024..=1031.
#[derive(Clone, Copy, Debug, PartialEq, Eq, Structural)]
pub enum TsiReqCtlOp {
    ProxyCreate,
    Connect,
    Getname,
    SendtoAddr,
    SendtoData,
    Listen,
    Accept,
    ProxyRelease,
    Unknown,
}

/// The control request that a destination port selects.
pub open spec fn ctl_op_of_port(port: u32) -> TsiReqCtlOp {
    if port == 1024 {
        TsiReqCtlOp::ProxyCreate
    } else if port == 1025 {
        TsiReqCtlOp::Connect
    } else if port == 1026 {
        TsiReqCtlOp::Getname
    } else if port == 1027 {
        TsiReqCtlOp::SendtoAddr
    } else if port == 1028 {
        TsiReqCtlOp::SendtoData
    } else if port == 1029 {
        TsiReqCtlOp::Listen
    } else if port == 1030 {
        TsiReqCtlOp::Accept
    } else if port == 1031 {
        TsiReqCtlOp::ProxyRelease
    } else {
        TsiReqCtlOp::Unknown
    }
}

impl core::convert::From<u32> for TsiReqCtlOp {
    fn from(port: u32) -> Self {
        if port == 1024 {
            TsiReqCtlOp::ProxyCreate
        } else if port == 1025 {
            TsiReqCtlOp::Connect
        } else if port == 1026 {
            TsiReqCtlOp::Getname
        } else if port == 1027 {
            TsiReqCtlOp::SendtoAddr
        } else if port == 1028 {
            TsiReqCtlOp::SendtoData
        } else if port == 1029 {
            TsiReqCtlOp::Listen
        } else if port == 1030 {
            TsiReqCtlOp::Accept
        } else if port == 1031 {
            TsiReqCtlOp::ProxyRelease
        } else {
            TsiReqCtlOp::Unknown
        }
    }
}

impl vstd::std_specs::convert::FromSpecImpl<u32> for TsiReqCtlOp {
    open spec fn obeys_from_spec() -> bool {
        true
    }

    open spec fn from_spec(port: u32) -> TsiReqCtlOp {
        ctl_op_of_port(port)
    }
}

/// The stream-level operation carried in a packet's op field, or `Unknown`
/// for codes outside 1..=7.
#[derive(Clone, Copy, Debug, PartialEq, Eq, Structural)]
pub enum TsiStreamOp {
    Request,
    Response,
    Rst,
    ShutDown,
    Rw,
    CreditUpdate,
    CreditRequest,
    Unknown,
}

/// The stream-level operation that an op code selects.
pub open spec fn stream_op_of_code(op: u16) -> TsiStreamOp {
    if op == 1 {
        TsiStreamOp::Request
    } else if op == 2 {
        TsiStreamOp::Response
    } else if op == 3 {
        TsiStreamOp::Rst
    } else if op == 4 {
        TsiStreamOp::ShutDown
    } else if op == 5 {
        TsiStreamOp::Rw
    } else if op == 6 {
        TsiStreamOp::CreditUpdate
    } else if op == 7 {
        TsiStreamOp::CreditRequest
    } else {
        TsiStreamOp::Unknown
    }
}

impl core::convert::From<u16> for TsiStreamOp {
    fn from(op: u16) -> Self {
        if op == 1 {
            TsiStreamOp::Request
        } else if op == 2 {
            TsiStreamOp::Response
        } else if op == 3 {
            TsiStreamOp::Rst
        } else if op == 4 {
            TsiStreamOp::ShutDown
        } else if op == 5 {
            TsiStreamOp::Rw
        } else if op == 6 {
            TsiStreamOp::CreditUpdate
        } else if op == 7 {
            TsiStreamOp::CreditRequest
        } else {
            TsiStreamOp::Unknown
        }
    }
}

impl vstd::std_specs::convert::FromSpecImpl<u16> for TsiStreamOp {
    open spec fn obeys_from_spec() -> bool {
        true
    }

    open spec fn from_spec(op: u16) -> TsiStreamOp {
        stream_op_of_code(op)
    }
}

/// The operation stamped into an outbound packet's op field.
#[derive(Clone, Copy, Debug, PartialEq, Eq, Structural)]
pub enum TsiRespCtlOp {
    Request,
    Response,
    Rst,
    ShutDown,
    Rw,
    CreditUpdate,
    CreditRequest,
}

/// The wire code of an outbound operation.
pub open spec fn code_of_resp_op(op: TsiRespCtlOp) -> u16 {
    match op {
        TsiRespCtlOp::Request => 1,
        TsiRespCtlOp::Response => 2,
        TsiRespCtlOp::Rst => 3,
        TsiRespCtlOp::ShutDown => 4,
        TsiRespCtlOp::Rw => 5,
        TsiRespCtlOp::CreditUpdate => 6,
        TsiRespCtlOp::CreditRequest => 7,
    }
}

impl core::convert::From<TsiRespCtlOp> for u16 {
    fn from(op: TsiRespCtlOp) -> Self {
        match op {
            TsiRespCtlOp::Request => 1,
            TsiRespCtlOp::Response => 2,
            TsiRespCtlOp::Rst => 3,
            TsiRespCtlOp::ShutDown => 4,
            TsiRespCtlOp::Rw => 5,
            TsiRespCtlOp::CreditUpdate => 6,
            TsiRespCtlOp::CreditRequest => 7,
        }
    }
}

impl vstd::std_specs::convert::FromSpecImpl<TsiRespCtlOp> for u16 {
    open spec fn obeys_from_spec() -> bool {
        true
    }

    open spec fn from_spec(op: TsiRespCtlOp) -> u16 {
        code_of_resp_op(op)
    }
}

} // verus!
