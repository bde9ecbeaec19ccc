//! Per-socket proxy state: identity, lifecycle status, credit counters and
//! the queue of pending responses.
//!
//! One `ProxyInstance` impersonates one guest socket on the host. Stream
//! and datagram proxies share the structure; the operations that only a
//! stream supports (`listen`, `check_accept`, `ack_accept`, `accept`,
//! `getpeername`) demand a stream instance outright.

use crate::response::{
    CreditUpdateResult, RecvDgramMsgInfo, RecvStreamMsgInfo, TsiResponse,
};
use crate::request::{AcceptConfig, ConnectConfig, ListenConfig, OpResponseConfig, SendMsgConfig};
use crate::sys;
use crate::{CONN_TX_BUF_SIZE, ENODATA_CODE, EINPROGRESS_CODE, EWOULDBLOCK_CODE, SOCK_NONBLOCK_FLAG};
use std::collections::VecDeque;
use vstd::prelude::*;
use vstd::wrapping::u32_specs;
use vstd::arithmetic::div_mod::{
    lemma_add_mod_noop_right, lemma_mod_sub_multiples_vanish, lemma_small_mod,
};

verus! {

/// Identify a proxy by guest cid and port numbers.
#[derive(Clone, Copy, Debug, PartialEq, Eq, Hash, Structural)]
pub struct ProxyID {
    pub guest_cid: u64,
    pub peer_port: u32,
    pub local_port: u32,
}

impl ProxyID {
    pub fn new(guest_cid: u64, peer_port: u32, local_port: u32) -> (r: ProxyID)
        ensures
            r.guest_cid == guest_cid,
            r.peer_port == peer_port,
            r.local_port == local_port,
    {
        ProxyID { guest_cid, peer_port, local_port }
    }
}

/// Lifecycle state of a proxy instance. `ReverseInit` marks a server-side
/// accepted connection that the guest has not yet acknowledged.
#[derive(Clone, Copy, Debug, PartialEq, Eq, Structural)]
pub enum ProxyStatus {
    Idle,
    Connected,
    Closed,
    Listen,
    ReverseInit,
}

/// Which kind of host socket a proxy impersonates.
#[derive(Clone, Copy, Debug, PartialEq, Eq, Structural)]
pub enum ProxyType {
    Stream,
    Dgram,
}

/// One impersonated guest socket: its identity, owned host descriptor,
/// lifecycle status, wrapping credit counters and pending responses.
pub struct ProxyInstance {
    pub id: ProxyID,
    pub type_: ProxyType,
    pub status: ProxyStatus,
    pub fd: i32,
    pub control_port: u32,
    pub tx_cnt: u32,
    pub last_tx_cnt_sent: u32,
    pub rx_cnt: u32,
    pub pending_accepts: u32,
    pub resp_queue: VecDeque<TsiResponse>,
}

impl ProxyInstance {
    /// Well-formedness: a datagram proxy never listens, never counts
    /// pending accepts, and never holds a stream-only response; a stream
    /// proxy never holds a datagram response.
    pub open spec fn wf(self) -> bool {
        &&& self.type_ == ProxyType::Dgram ==> {
            &&& self.status != ProxyStatus::Listen
            &&& self.pending_accepts == 0
            &&& forall|i: int|
                0 <= i < self.resp_queue@.len() ==> !(self.resp_queue@[i] is CreditUpdate) && !(
                self.resp_queue@[i] is RecvStreamMsg)
        }
        &&& self.type_ == ProxyType::Stream ==> forall|i: int|
            0 <= i < self.resp_queue@.len() ==> !(self.resp_queue@[i] is RecvDgramMsg)
    }

    /// Open a nonblocking IPv4 stream socket and wrap it in an idle proxy.
    pub fn new_stream(id: ProxyID, control_port: u32) -> (r: Result<ProxyInstance, i32>)
        ensures
            r matches Err(e) ==> e > 0,
            r matches Ok(p) ==> fresh_instance(p, id, ProxyType::Stream, ProxyStatus::Idle,
                control_port),
    {
        let fd = match sys::sock_stream_nonblock() {
            Ok(fd) => fd,
            Err(e) => {
                return Err(e);
            },
        };
        Ok(ProxyInstance {
            id,
            type_: ProxyType::Stream,
            status: ProxyStatus::Idle,
            fd,
            control_port,
            tx_cnt: 0,
            last_tx_cnt_sent: 0,
            rx_cnt: 0,
            pending_accepts: 0,
            resp_queue: VecDeque::new(),
        })
    }

    /// Open an IPv4 datagram socket, switch it to nonblocking through its
    /// file flags, and wrap it in an idle proxy.
    pub fn new_dgram(id: ProxyID, control_port: u32) -> (r: Result<ProxyInstance, i32>)
        ensures
            r matches Err(e) ==> e > 0,
            r matches Ok(p) ==> fresh_instance(p, id, ProxyType::Dgram, ProxyStatus::Idle,
                control_port),
    {
        let fd = match sys::sock_dgram() {
            Ok(fd) => fd,
            Err(e) => {
                return Err(e);
            },
        };
        match sys::sock_set_nonblock(fd) {
            Ok(_) => {},
            Err(e) => {
                return Err(e);
            },
        }
        Ok(ProxyInstance {
            id,
            type_: ProxyType::Dgram,
            status: ProxyStatus::Idle,
            fd,
            control_port,
            tx_cnt: 0,
            last_tx_cnt_sent: 0,
            rx_cnt: 0,
            pending_accepts: 0,
            resp_queue: VecDeque::new(),
        })
    }

    /// Issue a host `connect`. For a stream proxy, `EINPROGRESS` counts as
    /// success in progress; either way success leaves the proxy
    /// `Connected` and failure leaves it untouched.
    ///
    /// A datagram proxy deliberately ignores the requested address and
    /// connects its socket to the loopback address at the requested port,
    /// keeping the behaviour this backend has always had for datagram
    /// peers; only the port comes from the request.
    pub fn connect(&mut self, connect_config: &ConnectConfig) -> (r: Result<(), i32>)
        requires
            old(self).wf(),
        ensures
            final(self).wf(),
            same_identity(*old(self), *final(self)),
            counters_kept(*old(self), *final(self)),
            final(self).resp_queue@ == old(self).resp_queue@,
            r matches Ok(()) ==> final(self).status == ProxyStatus::Connected,
            r matches Err(e) ==> e > 0 && final(self).status == old(self).status && (old(
                self,
            ).type_ == ProxyType::Stream ==> e != EINPROGRESS_CODE),
    {
        match self.type_ {
            ProxyType::Stream => {
                match sys::sock_connect(self.fd, &connect_config.addr, connect_config.port) {
                    Ok(_) => {
                        self.status = ProxyStatus::Connected;
                        Ok(())
                    },
                    Err(e) => {
                        if e == EINPROGRESS_CODE {
                            self.status = ProxyStatus::Connected;
                            Ok(())
                        } else {
                            Err(e)
                        }
                    },
                }
            },
            ProxyType::Dgram => {
                let loopback: [u8; 4] = [127, 0, 0, 1];
                match sys::sock_connect(self.fd, &loopback, connect_config.port) {
                    Ok(_) => {
                        self.status = ProxyStatus::Connected;
                        Ok(())
                    },
                    Err(e) => Err(e),
                }
            },
        }
    }

    /// Bind the listening address, then issue a host `listen`; success
    /// leaves the proxy in `Listen`, failure leaves it untouched.
    pub fn listen(&mut self, listen_config: &ListenConfig) -> (r: Result<(), i32>)
        requires
            old(self).wf(),
            old(self).type_ == ProxyType::Stream,
        ensures
            final(self).wf(),
            same_identity(*old(self), *final(self)),
            counters_kept(*old(self), *final(self)),
            final(self).resp_queue@ == old(self).resp_queue@,
            r matches Ok(()) ==> final(self).status == ProxyStatus::Listen,
            r matches Err(e) ==> e > 0 && final(self).status == old(self).status,
    {
        match sys::sock_bind(self.fd, &listen_config.addr, listen_config.port) {
            Ok(_) => {},
            Err(e) => {
                return Err(e);
            },
        }
        match sys::sock_listen(self.fd, listen_config.backlog) {
            Ok(_) => {
                self.status = ProxyStatus::Listen;
                Ok(())
            },
            Err(e) => Err(e),
        }
    }

    /// Hand the payload to the host socket. For a stream proxy the
    /// accepted byte count advances `tx_cnt` and may emit a credit update,
    /// as `stream_send_applied` prescribes; a datagram send never does
    /// either. Returns whether a credit update was emitted.
    pub fn send(&mut self, send_msg_config: SendMsgConfig) -> (r: Result<bool, i32>)
        requires
            old(self).wf(),
            send_msg_config.data@.len() <= u32::MAX,
        ensures
            final(self).wf(),
            r matches Err(e) ==> e > 0 && *final(self) == *old(self),
            old(self).type_ == ProxyType::Stream ==> match r {
                Ok(emitted) => stream_send_outcome(
                    *old(self),
                    *final(self),
                    send_msg_config.data@.len() as int,
                    emitted,
                ),
                Err(_) => true,
            },
            old(self).type_ == ProxyType::Dgram ==> match r {
                Ok(emitted) => emitted == false && *final(self) == *old(self),
                Err(_) => true,
            },
    {
        match self.type_ {
            ProxyType::Stream => {
                let sent = match sys::sock_send(self.fd, &send_msg_config.data) {
                    Ok(n) => n,
                    Err(e) => {
                        return Err(e);
                    },
                };
                let n = sent as u32;
                let emitted = self.apply_send_result(n);
                proof {
                    assert(stream_send_outcome(
                        *old(self),
                        *self,
                        send_msg_config.data@.len() as int,
                        emitted,
                    )) by {
                        assert(n <= send_msg_config.data@.len());
                        assert(stream_send_applied(*old(self), *self, n, emitted));
                    }
                }
                Ok(emitted)
            },
            ProxyType::Dgram => {
                match sys::sock_send(self.fd, &send_msg_config.data) {
                    Ok(_) => Ok(false),
                    Err(e) => Err(e),
                }
            },
        }
    }

    /// Account `n` bytes the host accepted from the guest: advance
    /// `tx_cnt` (wrapping), and when bytes moved and the wrapped lag since
    /// the last credit update reaches half the credit window, record the
    /// new mark and queue a `CreditUpdate` carrying the fresh counter.
    pub fn apply_send_result(&mut self, n: u32) -> (emitted: bool)
        requires
            old(self).wf(),
            old(self).type_ == ProxyType::Stream,
        ensures
            final(self).wf(),
            stream_send_applied(*old(self), *final(self), n, emitted),
    {
        self.tx_cnt = self.tx_cnt.wrapping_add(n);
        let emitted = n > 0 && self.tx_cnt.wrapping_sub(self.last_tx_cnt_sent) >= CONN_TX_BUF_SIZE
            / 2;
        if emitted {
            self.last_tx_cnt_sent = self.tx_cnt;
            self.resp_queue.push_back(TsiResponse::CreditUpdate(CreditUpdateResult {
                src_port: self.id.local_port,
                dst_port: self.id.peer_port,
                fwd_cnt: self.tx_cnt,
            }));
        }
        emitted
    }

    /// Receive from the host socket into `buffer`. A stream read of zero
    /// bytes means the peer closed: the proxy turns `Closed` and `ENODATA`
    /// is surfaced. A read that fills the buffer queues a re-read wake,
    /// as the `recv` transition predicates prescribe.
    pub fn recv(&mut self, buffer: &mut Vec<u8>) -> (r: Result<u32, i32>)
        requires
            old(self).wf(),
            old(buffer)@.len() <= u32::MAX,
        ensures
            final(self).wf(),
            final(buffer)@.len() == old(buffer)@.len(),
            old(self).type_ == ProxyType::Stream ==> match r {
                Ok(n) => 0 < n <= old(buffer)@.len() && stream_recv_applied(
                    *old(self),
                    *final(self),
                    n,
                    old(buffer)@.len() as u32,
                ),
                Err(e) => e > 0 && (*final(self) == *old(self) || (e == ENODATA_CODE
                    && stream_recv_applied(
                    *old(self),
                    *final(self),
                    0,
                    old(buffer)@.len() as u32,
                ))),
            },
            old(self).type_ == ProxyType::Dgram ==> match r {
                Ok(n) => n <= old(buffer)@.len() && dgram_recv_applied(
                    *old(self),
                    *final(self),
                    n,
                    old(buffer)@.len() as u32,
                ),
                Err(e) => e > 0 && *final(self) == *old(self),
            },
    {
        let buf_len = buffer.len();
        match self.type_ {
            ProxyType::Stream => {
                let got = match sys::sock_recv(self.fd, buffer) {
                    Ok(n) => n,
                    Err(e) => {
                        return Err(e);
                    },
                };
                let n = got as u32;
                self.rx_cnt = self.rx_cnt.wrapping_add(n);
                if got == 0 {
                    self.status = ProxyStatus::Closed;
                    return Err(ENODATA_CODE);
                }
                if got == buf_len {
                    self.resp_queue.push_back(TsiResponse::RecvStreamMsg(RecvStreamMsgInfo {
                        src_port: self.id.local_port,
                        dst_port: self.id.peer_port,
                        fwd_cnt: self.tx_cnt,
                    }));
                }
                Ok(n)
            },
            ProxyType::Dgram => {
                let got = match sys::sock_recv(self.fd, buffer) {
                    Ok(n) => n,
                    Err(e) => {
                        return Err(e);
                    },
                };
                let n = got as u32;
                if got == buf_len {
                    self.resp_queue.push_back(TsiResponse::RecvDgramMsg(RecvDgramMsgInfo {
                        src_port: 0,
                        dst_port: self.id.peer_port,
                    }));
                }
                Ok(n)
            },
        }
    }

    /// Consume one ready accept when there is one (result `0`). Otherwise
    /// a nonblocking request gets `-EWOULDBLOCK` back at once, and a
    /// blocking one is parked (`None`).
    pub fn check_accept(&mut self, accept_config: &AcceptConfig) -> (r: Option<i32>)
        requires
            old(self).wf(),
            old(self).type_ == ProxyType::Stream,
        ensures
            final(self).wf(),
            same_identity(*old(self), *final(self)),
            final(self).status == old(self).status,
            final(self).tx_cnt == old(self).tx_cnt,
            final(self).last_tx_cnt_sent == old(self).last_tx_cnt_sent,
            final(self).rx_cnt == old(self).rx_cnt,
            final(self).resp_queue@ == old(self).resp_queue@,
            old(self).pending_accepts > 0 ==> r == Some(0i32) && final(self).pending_accepts
                == old(self).pending_accepts - 1,
            old(self).pending_accepts == 0 ==> final(self).pending_accepts == 0 && r == (
            if accept_config.flags & SOCK_NONBLOCK_FLAG != 0 {
                Some((-EWOULDBLOCK_CODE) as i32)
            } else {
                None::<i32>
            }),
    {
        if self.pending_accepts > 0 {
            self.pending_accepts = self.pending_accepts - 1;
            Some(0)
        } else if accept_config.flags & SOCK_NONBLOCK_FLAG != 0 {
            Some(-EWOULDBLOCK_CODE)
        } else {
            None
        }
    }

    /// The guest finished the reverse handshake: adopt its forwarded
    /// count as `tx_cnt` and turn `Connected`.
    pub fn ack_accept(&mut self, op_response_config: &OpResponseConfig) -> (r: Result<(), i32>)
        requires
            old(self).wf(),
            old(self).type_ == ProxyType::Stream,
        ensures
            final(self).wf(),
            same_identity(*old(self), *final(self)),
            r == Ok::<(), i32>(()),
            final(self).status == ProxyStatus::Connected,
            final(self).tx_cnt == op_response_config.fwd_cnt,
            final(self).last_tx_cnt_sent == old(self).last_tx_cnt_sent,
            final(self).rx_cnt == old(self).rx_cnt,
            final(self).pending_accepts == old(self).pending_accepts,
            final(self).resp_queue@ == old(self).resp_queue@,
    {
        self.tx_cnt = op_response_config.fwd_cnt;
        self.status = ProxyStatus::Connected;
        Ok(())
    }

    /// Accept one ready connection on the listening socket and wrap the
    /// fresh descriptor in a new stream proxy in `ReverseInit`, inheriting
    /// the control port and starting with zeroed counters. The listener
    /// itself is untouched.
    pub fn accept(&mut self, accept_id: ProxyID) -> (r: Result<ProxyInstance, i32>)
        requires
            old(self).wf(),
            old(self).type_ == ProxyType::Stream,
        ensures
            *final(self) == *old(self),
            r matches Err(e) ==> e > 0,
            r matches Ok(p) ==> fresh_instance(p, accept_id, ProxyType::Stream,
                ProxyStatus::ReverseInit, old(self).control_port) && p.fd != old(self).fd,
    {
        let accept_fd = match sys::sock_accept(self.fd) {
            Ok(fd) => fd,
            Err(e) => {
                return Err(e);
            },
        };
        Ok(ProxyInstance {
            id: accept_id,
            type_: ProxyType::Stream,
            status: ProxyStatus::ReverseInit,
            fd: accept_fd,
            control_port: self.control_port,
            tx_cnt: 0,
            last_tx_cnt_sent: 0,
            rx_cnt: 0,
            pending_accepts: 0,
            resp_queue: VecDeque::new(),
        })
    }

    /// Ask the host for the peer of the connected socket: its IPv4
    /// address in native byte order and its port.
    pub fn getpeername(&self) -> (r: Result<(u32, u16), i32>)
        requires
            self.type_ == ProxyType::Stream,
        ensures
            r matches Err(e) ==> e > 0,
    {
        sys::sock_getpeername(self.fd)
    }

    pub fn type_(&self) -> (r: ProxyType)
        ensures
            r == self.type_,
    {
        self.type_
    }

    pub fn status(&self) -> (r: ProxyStatus)
        ensures
            r == self.status,
    {
        self.status
    }

    pub fn id(&self) -> (r: &ProxyID)
        ensures
            r == self.id,
    {
        &self.id
    }

    pub fn control_port(&self) -> (r: u32)
        ensures
            r == self.control_port,
    {
        self.control_port
    }

    pub fn fwd_cnt(&self) -> (r: u32)
        ensures
            r == self.tx_cnt,
    {
        self.tx_cnt
    }

    pub fn as_raw_fd(&self) -> (r: i32)
        ensures
            r == self.fd,
    {
        self.fd
    }
}

/// A freshly constructed proxy: the given identity, kind, status and
/// control port, a nonnegative owned descriptor, zeroed counters and an
/// empty queue.
pub open spec fn fresh_instance(
    p: ProxyInstance,
    id: ProxyID,
    t: ProxyType,
    status: ProxyStatus,
    control_port: u32,
) -> bool {
    &&& p.id == id
    &&& p.type_ == t
    &&& p.status == status
    &&& p.fd >= 0
    &&& p.control_port == control_port
    &&& p.tx_cnt == 0
    &&& p.last_tx_cnt_sent == 0
    &&& p.rx_cnt == 0
    &&& p.pending_accepts == 0
    &&& p.resp_queue@.len() == 0
    &&& p.wf()
}

/// An operation left the proxy's identity alone.
pub open spec fn same_identity(pre: ProxyInstance, post: ProxyInstance) -> bool {
    &&& post.id == pre.id
    &&& post.type_ == pre.type_
    &&& post.fd == pre.fd
    &&& post.control_port == pre.control_port
}

/// An operation left every counter alone.
pub open spec fn counters_kept(pre: ProxyInstance, post: ProxyInstance) -> bool {
    &&& post.tx_cnt == pre.tx_cnt
    &&& post.last_tx_cnt_sent == pre.last_tx_cnt_sent
    &&& post.rx_cnt == pre.rx_cnt
    &&& post.pending_accepts == pre.pending_accepts
}

/// A successful stream send: some byte count `n`, at most the payload
/// length, was accepted by the host and accounted exactly as
/// `stream_send_applied` prescribes.
pub open spec fn stream_send_outcome(
    pre: ProxyInstance,
    post: ProxyInstance,
    data_len: int,
    emitted: bool,
) -> bool {
    exists|n: u32| n <= data_len && #[trigger] stream_send_applied(pre, post, n, emitted)
}

/// An operation left the proxy's whole observable state alone.
pub open spec fn untouched(pre: ProxyInstance, post: ProxyInstance) -> bool {
    &&& same_identity(pre, post)
    &&& counters_kept(pre, post)
    &&& post.status == pre.status
    &&& post.resp_queue@ == pre.resp_queue@
}

/// How a stream proxy accounts `n` bytes the host accepted: `tx_cnt`
/// advances by exactly `n` (wrapping); a credit update is emitted exactly
/// when bytes moved and the wrapped lag reaches half the credit window;
/// the mark `last_tx_cnt_sent` moves, and a `CreditUpdate` carrying the
/// fresh counter is queued, exactly when one is emitted.
pub open spec fn stream_send_applied(
    pre: ProxyInstance,
    post: ProxyInstance,
    n: u32,
    emitted: bool,
) -> bool {
    let tx2 = u32_specs::wrapping_add(pre.tx_cnt, n);
    &&& same_identity(pre, post)
    &&& post.status == pre.status
    &&& post.rx_cnt == pre.rx_cnt
    &&& post.pending_accepts == pre.pending_accepts
    &&& post.tx_cnt == tx2
    &&& emitted == (n > 0 && u32_specs::wrapping_sub(tx2, pre.last_tx_cnt_sent)
        >= CONN_TX_BUF_SIZE / 2)
    &&& post.last_tx_cnt_sent == (if emitted {
        tx2
    } else {
        pre.last_tx_cnt_sent
    })
    &&& post.resp_queue@ == (if emitted {
        pre.resp_queue@.push(TsiResponse::CreditUpdate(CreditUpdateResult {
            src_port: pre.id.local_port,
            dst_port: pre.id.peer_port,
            fwd_cnt: tx2,
        }))
    } else {
        pre.resp_queue@
    })
}

/// How a stream proxy reacts to a host read of `n` bytes into a buffer of
/// `buf_len`: `rx_cnt` advances by `n` (wrapping); zero bytes close the
/// proxy; a read that fills the buffer queues a `RecvStreamMsg` wake
/// carrying the transmit counter.
pub open spec fn stream_recv_applied(
    pre: ProxyInstance,
    post: ProxyInstance,
    n: u32,
    buf_len: u32,
) -> bool {
    &&& same_identity(pre, post)
    &&& post.tx_cnt == pre.tx_cnt
    &&& post.last_tx_cnt_sent == pre.last_tx_cnt_sent
    &&& post.pending_accepts == pre.pending_accepts
    &&& post.rx_cnt == u32_specs::wrapping_add(pre.rx_cnt, n)
    &&& if n == 0 {
        &&& post.status == ProxyStatus::Closed
        &&& post.resp_queue@ == pre.resp_queue@
    } else {
        &&& post.status == pre.status
        &&& post.resp_queue@ == (if n == buf_len {
            pre.resp_queue@.push(TsiResponse::RecvStreamMsg(RecvStreamMsgInfo {
                src_port: pre.id.local_port,
                dst_port: pre.id.peer_port,
                fwd_cnt: pre.tx_cnt,
            }))
        } else {
            pre.resp_queue@
        })
    }
}

/// How a datagram proxy reacts to a host read of `n` bytes into a buffer
/// of `buf_len`: counters and status are untouched; a read that fills the
/// buffer queues a `RecvDgramMsg`, and never anything else.
pub open spec fn dgram_recv_applied(
    pre: ProxyInstance,
    post: ProxyInstance,
    n: u32,
    buf_len: u32,
) -> bool {
    &&& same_identity(pre, post)
    &&& counters_kept(pre, post)
    &&& post.status == pre.status
    &&& post.resp_queue@ == (if n == buf_len {
        pre.resp_queue@.push(TsiResponse::RecvDgramMsg(RecvDgramMsgInfo {
            src_port: 0,
            dst_port: pre.id.peer_port,
        }))
    } else {
        pre.resp_queue@
    })
}

/// `wrapping_add` is addition modulo 2^32.
pub proof fn lemma_wrapping_add_mod(a: u32, b: u32)
    ensures
        u32_specs::wrapping_add(a, b) == (a + b) % 0x1_0000_0000,
{
    if a + b <= u32::MAX {
        lemma_small_mod((a + b) as nat, 0x1_0000_0000nat);
    } else {
        lemma_mod_sub_multiples_vanish(a + b, 0x1_0000_0000int);
        lemma_small_mod((a + b - 0x1_0000_0000) as nat, 0x1_0000_0000nat);
    }
}

/// The transmit counter after a whole run of sends, folding each accepted
/// byte count in with wrapping addition.
pub open spec fn tx_after(init: u32, ns: Seq<u32>) -> u32
    decreases ns.len(),
{
    if ns.len() == 0 {
        init
    } else {
        u32_specs::wrapping_add(tx_after(init, ns.drop_last()), ns.last())
    }
}

/// The total of a run of accepted byte counts.
pub open spec fn total_sent(ns: Seq<u32>) -> int
    decreases ns.len(),
{
    if ns.len() == 0 {
        0
    } else {
        total_sent(ns.drop_last()) + ns.last()
    }
}

/// A run of accepted byte counts has a nonnegative total.
pub proof fn lemma_total_sent_nonneg(ns: Seq<u32>)
    ensures
        total_sent(ns) >= 0,
    decreases ns.len(),
{
    if ns.len() > 0 {
        lemma_total_sent_nonneg(ns.drop_last());
    }
}

/// Credit monotonicity: across any run of successful sends, the transmit
/// counter advances by exactly the total of the accepted byte counts, as
/// an unsigned 32-bit wrapping counter.
pub proof fn lemma_credit_monotonic(init: u32, ns: Seq<u32>)
    ensures
        tx_after(init, ns) == (init + total_sent(ns)) % 0x1_0000_0000,
    decreases ns.len(),
{
    if ns.len() == 0 {
        lemma_small_mod(init as nat, 0x1_0000_0000nat);
    } else {
        let prefix = ns.drop_last();
        let n = ns.last();
        lemma_credit_monotonic(init, prefix);
        lemma_total_sent_nonneg(prefix);
        let x = init + total_sent(prefix);
        lemma_wrapping_add_mod(tx_after(init, prefix), n);
        // (x % m + n) % m == (x + n) % m
        lemma_add_mod_noop_right(n as int, x, 0x1_0000_0000int);
    }
}

/// After a send that emitted a credit update, the mark equals the counter,
/// so the wrapped lag is zero, under half the credit window; and the mark
/// moves, with exactly one `CreditUpdate` queued, exactly when an update
/// is emitted.
pub proof fn lemma_send_credit_update(
    pre: ProxyInstance,
    post: ProxyInstance,
    n: u32,
    emitted: bool,
)
    requires
        stream_send_applied(pre, post, n, emitted),
    ensures
        emitted <==> post.resp_queue@.len() == pre.resp_queue@.len() + 1,
        emitted <==> (n > 0 && u32_specs::wrapping_sub(post.tx_cnt, pre.last_tx_cnt_sent)
            >= CONN_TX_BUF_SIZE / 2),
        !emitted ==> post.last_tx_cnt_sent == pre.last_tx_cnt_sent && post.resp_queue@
            == pre.resp_queue@,
        emitted ==> post.last_tx_cnt_sent == post.tx_cnt && u32_specs::wrapping_sub(
            post.tx_cnt,
            post.last_tx_cnt_sent,
        ) == 0 < CONN_TX_BUF_SIZE / 2,
        emitted ==> post.resp_queue@.last() == TsiResponse::CreditUpdate(CreditUpdateResult {
            src_port: pre.id.local_port,
            dst_port: pre.id.peer_port,
            fwd_cnt: post.tx_cnt,
        }),
{
}

/// A datagram receive never queues a `CreditUpdate` (nor a stream wake):
/// whatever it adds is a `RecvDgramMsg`, and a well-formed datagram queue
/// stays free of stream-only responses.
pub proof fn lemma_dgram_recv_no_credit_update(
    pre: ProxyInstance,
    post: ProxyInstance,
    n: u32,
    buf_len: u32,
)
    requires
        pre.wf(),
        pre.type_ == ProxyType::Dgram,
        dgram_recv_applied(pre, post, n, buf_len),
    ensures
        forall|i: int|
            0 <= i < post.resp_queue@.len() ==> !(post.resp_queue@[i] is CreditUpdate) && !(
            post.resp_queue@[i] is RecvStreamMsg),
        post.resp_queue@.len() == pre.resp_queue@.len() || (post.resp_queue@.len()
            == pre.resp_queue@.len() + 1 && post.resp_queue@.last() is RecvDgramMsg),
{
}

/// A stream receive never queues a `RecvDgramMsg`: whatever it adds is a
/// `RecvStreamMsg` wake, and a well-formed stream queue stays free of
/// datagram responses.
pub proof fn lemma_stream_recv_no_dgram_msg(
    pre: ProxyInstance,
    post: ProxyInstance,
    n: u32,
    buf_len: u32,
)
    requires
        pre.wf(),
        pre.type_ == ProxyType::Stream,
        stream_recv_applied(pre, post, n, buf_len),
    ensures
        forall|i: int| 0 <= i < post.resp_queue@.len() ==> !(post.resp_queue@[i] is RecvDgramMsg),
        post.resp_queue@.len() == pre.resp_queue@.len() || (post.resp_queue@.len()
            == pre.resp_queue@.len() + 1 && post.resp_queue@.last() is RecvStreamMsg),
{
}

} // verus!
