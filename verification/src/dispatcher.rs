//! The dispatch layer: a map from `ProxyID` to its owned `ProxyInstance`,
//! routing of decoded requests to proxies, the accept and receive paths
//! driven by host readiness, and the drain of pending responses into
//! outbound packets.
//!
//! Routing: a request that carries only a peer port is routed to the first
//! proxy of that guest cid and peer port; one that carries both ports is
//! routed by the full identity. A created proxy is keyed by the guest cid,
//! the requested peer port, and the packet's source port as the assigned
//! local port.

use crate::packet::VsockPkt;
use crate::proxy::{
    counters_kept, dgram_recv_applied, fresh_instance, same_identity, stream_recv_applied,
    stream_send_outcome, untouched, ProxyID, ProxyInstance, ProxyStatus, ProxyType,
};
use crate::request::{
    decode_post, AcceptConfig, ConnectConfig, ListenConfig, SendMsgConfig, TsiRequest,
};
use crate::response::{
    encode_post, encode_response, pkt_type_code, AcceptResult, ConnectResult, GetPeernameResult,
    ListenResult, OpResult, TsiResponse,
};
use crate::sys;
use crate::utils::{clone_bytes, le_u16_at, le_u32_at};
use crate::{
    ctl_op_of_port, stream_op_of_code, TsiError, TsiReqCtlOp, TsiRespCtlOp, TsiStreamOp,
    CONN_TX_BUF_SIZE, EINVAL_CODE, ENODATA_CODE, EWOULDBLOCK_CODE, PROXY_PORT, SOCK_DGRAM,
    SOCK_NONBLOCK_FLAG, SOCK_STREAM, SOCK_TSI_DGRAM, SOCK_TSI_STREAM, VSOCK_HOST_CID,
};
use vstd::prelude::*;

verus! {

/// What the event loop must do after a handled request.
#[derive(Clone, Copy, Debug, PartialEq, Eq, Structural)]
pub enum DispatchEvent {
    /// A proxy was created; register its descriptor for readiness events.
    Registered(i32),
    /// A proxy was released and its descriptor closed; unregister it.
    Unregistered(i32),
    /// An existing proxy handled the request.
    Done,
    /// The request was dropped; no proxy was touched.
    Ignored,
    /// A create could not open its host socket: the errno, with nothing
    /// inserted.
    Failed(i32),
}

/// The process-wide dispatcher: every live proxy, keyed by its identity.
pub struct ProxyDispatcher {
    pub proxies: Vec<(ProxyID, ProxyInstance)>,
}

/// The identity under which a `ProxyCreate` packet's proxy is inserted.
pub open spec fn create_id(pkt: VsockPkt) -> ProxyID {
    match pkt.data {
        Some(d) => ProxyID {
            guest_cid: pkt.src_cid,
            peer_port: le_u32_at(d@, 0),
            local_port: pkt.src_port,
        },
        None => ProxyID { guest_cid: pkt.src_cid, peer_port: 0, local_port: pkt.src_port },
    }
}

/// The proxy kind a `ProxyCreate` packet's type code selects, with the
/// stream codes mapping to `Stream` and everything else to `Dgram`.
pub open spec fn created_type(pkt: VsockPkt) -> ProxyType {
    match pkt.data {
        Some(d) => if le_u16_at(d@, 4) == SOCK_STREAM || le_u16_at(d@, 4) == SOCK_TSI_STREAM {
            ProxyType::Stream
        } else {
            ProxyType::Dgram
        },
        None => ProxyType::Stream,
    }
}

/// The identity a `ProxyRelease` packet names.
pub open spec fn release_id(pkt: VsockPkt) -> ProxyID {
    match pkt.data {
        Some(d) => ProxyID {
            guest_cid: pkt.src_cid,
            peer_port: le_u32_at(d@, 0),
            local_port: le_u32_at(d@, 4),
        },
        None => ProxyID { guest_cid: pkt.src_cid, peer_port: 0, local_port: 0 },
    }
}

/// Whether a `ProxyCreate` payload names one of the four socket-type
/// codes.
pub open spec fn create_code_valid(pkt: VsockPkt) -> bool {
    match pkt.data {
        Some(d) => le_u16_at(d@, 4) == SOCK_STREAM || le_u16_at(d@, 4) == SOCK_TSI_STREAM
            || le_u16_at(d@, 4) == SOCK_DGRAM || le_u16_at(d@, 4) == SOCK_TSI_DGRAM,
        None => false,
    }
}

/// The header fields of a packet are kept; only the payload may differ.
pub open spec fn header_kept(pre: VsockPkt, post: VsockPkt) -> bool {
    &&& post.src_cid == pre.src_cid
    &&& post.dst_cid == pre.dst_cid
    &&& post.src_port == pre.src_port
    &&& post.dst_port == pre.dst_port
    &&& post.type_ == pre.type_
    &&& post.op == pre.op
    &&& post.buf_alloc == pre.buf_alloc
    &&& post.fwd_cnt == pre.fwd_cnt
    &&& post.len == pre.len
}

/// The peer port named at the head of a control payload.
pub open spec fn peer_port_of(pkt: VsockPkt) -> u32 {
    match pkt.data {
        Some(d) => le_u32_at(d@, 0),
        None => 0,
    }
}

/// The second word of a control payload: the local port where the schema
/// carries one, the accept flags in an `Accept` payload.
pub open spec fn second_word_of(pkt: VsockPkt) -> u32 {
    match pkt.data {
        Some(d) => le_u32_at(d@, 4),
        None => 0,
    }
}

/// The identity a `GetPeername` packet names.
pub open spec fn getpeername_id(pkt: VsockPkt) -> ProxyID {
    ProxyID {
        guest_cid: pkt.src_cid,
        peer_port: peer_port_of(pkt),
        local_port: second_word_of(pkt),
    }
}

/// The identity a stream-level packet (`Rw` data, `Response`) addresses
/// through its header ports.
pub open spec fn header_id(pkt: VsockPkt) -> ProxyID {
    ProxyID { guest_cid: pkt.src_cid, peer_port: pkt.src_port, local_port: pkt.dst_port }
}

/// Entry `i` is the first of this guest cid and peer port, in the order
/// requests are routed.
pub open spec fn first_peer_match(d: ProxyDispatcher, cid: u64, peer: u32, i: int) -> bool {
    &&& 0 <= i < d.proxies@.len()
    &&& d.proxies@[i].0.guest_cid == cid
    &&& d.proxies@[i].0.peer_port == peer
    &&& forall|j: int|
        0 <= j < i ==> !((#[trigger] d.proxies@[j]).0.guest_cid == cid && d.proxies@[j].0.peer_port
            == peer)
}

/// Some entry carries this guest cid and peer port.
pub open spec fn peer_matched(d: ProxyDispatcher, cid: u64, peer: u32) -> bool {
    exists|i: int|
        0 <= i < d.proxies@.len() && (#[trigger] d.proxies@[i]).0.guest_cid == cid
            && d.proxies@[i].0.peer_port == peer
}

/// Every entry but `i` is kept as it was.
pub open spec fn others_kept(pre: ProxyDispatcher, post: ProxyDispatcher, i: int) -> bool {
    &&& post.proxies@.len() == pre.proxies@.len()
    &&& forall|k: int|
        0 <= k < pre.proxies@.len() && k != i ==> #[trigger] post.proxies@[k] == pre.proxies@[k]
}

/// The guest acknowledged the reverse handshake: the proxy adopted the
/// forwarded count and turned `Connected`; everything else is kept.
pub open spec fn ack_applied(pre: ProxyInstance, post: ProxyInstance, fwd: u32) -> bool {
    &&& same_identity(pre, post)
    &&& post.status == ProxyStatus::Connected
    &&& post.tx_cnt == fwd
    &&& post.last_tx_cnt_sent == pre.last_tx_cnt_sent
    &&& post.rx_cnt == pre.rx_cnt
    &&& post.pending_accepts == pre.pending_accepts
    &&& post.resp_queue@ == pre.resp_queue@
}

/// A datagram proxy was pointed at a new peer: no reply is queued, the
/// counters are kept, and the proxy is `Connected` when the host accepted
/// the redirect and untouched otherwise.
pub open spec fn dgram_redirected(pre: ProxyInstance, post: ProxyInstance) -> bool {
    &&& same_identity(pre, post)
    &&& counters_kept(pre, post)
    &&& post.resp_queue@ == pre.resp_queue@
    &&& post.status == ProxyStatus::Connected || post.status == pre.status
}

/// A payload was handed to the proxy's host socket: either a stream send
/// was accounted (`stream_send_outcome`) or the proxy is exactly as it
/// was — a failed send, and every datagram send, changes nothing.
pub open spec fn send_handled(pre: ProxyInstance, post: ProxyInstance, data_len: int) -> bool {
    ||| exists|emitted: bool| #[trigger] stream_send_outcome(pre, post, data_len, emitted)
    ||| post == pre
}

/// What `check_accept` leaves behind, reply included: a ready accept is
/// consumed and answered with `0`; a nonblocking request with none ready
/// is answered with `-EWOULDBLOCK`; a blocking one is parked silently.
pub open spec fn accept_checked(pre: ProxyInstance, post: ProxyInstance, flags: u32) -> bool {
    &&& same_identity(pre, post)
    &&& post.status == pre.status
    &&& post.tx_cnt == pre.tx_cnt
    &&& post.last_tx_cnt_sent == pre.last_tx_cnt_sent
    &&& post.rx_cnt == pre.rx_cnt
    &&& pre.pending_accepts > 0 ==> post.pending_accepts == pre.pending_accepts - 1
        && post.resp_queue@ == pre.resp_queue@.push(TsiResponse::Accept(AcceptResult {
        src_port: pre.id.local_port,
        dst_port: pre.id.peer_port,
        result: 0,
    }))
    &&& pre.pending_accepts == 0 && flags & SOCK_NONBLOCK_FLAG != 0 ==> post.pending_accepts == 0
        && post.resp_queue@ == pre.resp_queue@.push(TsiResponse::Accept(AcceptResult {
        src_port: pre.id.local_port,
        dst_port: pre.id.peer_port,
        result: (-EWOULDBLOCK_CODE) as i32,
    }))
    &&& pre.pending_accepts == 0 && flags & SOCK_NONBLOCK_FLAG == 0 ==> untouched(pre, post)
}

impl ProxyDispatcher {
    /// Well-formedness: ids are unique across the map, each entry's
    /// instance carries its key as identity, and each instance is itself
    /// well-formed.
    pub open spec fn wf(self) -> bool {
        &&& forall|i: int, j: int|
            0 <= i < j < self.proxies@.len() ==> (#[trigger] self.proxies@[i]).0 != (
            #[trigger] self.proxies@[j]).0
        &&& forall|i: int|
            0 <= i < self.proxies@.len() ==> (#[trigger] self.proxies@[i]).1.id
                == self.proxies@[i].0 && self.proxies@[i].1.wf()
    }

    /// Whether some entry carries this id.
    pub open spec fn contains_id(self, id: ProxyID) -> bool {
        exists|i: int| 0 <= i < self.proxies@.len() && (#[trigger] self.proxies@[i]).0 == id
    }

    /// The ids of the map, in entry order.
    pub open spec fn ids_of(self) -> Seq<ProxyID> {
        self.proxies@.map_values(|e: (ProxyID, ProxyInstance)| e.0)
    }

    /// An empty dispatcher.
    pub fn new() -> (r: ProxyDispatcher)
        ensures
            r.wf(),
            r.proxies@.len() == 0,
    {
        ProxyDispatcher { proxies: Vec::new() }
    }

    /// How many proxies are live.
    pub fn len(&self) -> (r: usize)
        ensures
            r == self.proxies@.len(),
    {
        self.proxies.len()
    }

    /// Whether a proxy with this exact identity is live.
    pub fn contains(&self, id: &ProxyID) -> (r: bool)
        ensures
            r == self.contains_id(*id),
    {
        match self.find(id) {
            Some(_) => true,
            None => false,
        }
    }

    /// The status of the proxy with this identity, if one is live.
    pub fn status_of(&self, id: &ProxyID) -> (r: Option<ProxyStatus>)
        ensures
            match r {
                Some(s) => exists|i: int|
                    0 <= i < self.proxies@.len() && (#[trigger] self.proxies@[i]).0 == *id
                        && self.proxies@[i].1.status == s,
                None => !self.contains_id(*id),
            },
    {
        match self.find(id) {
            Some(i) => Some(self.proxies[i].1.status),
            None => None,
        }
    }

    /// How many responses the proxy with this identity has pending, if one
    /// is live.
    pub fn pending_responses(&self, id: &ProxyID) -> (r: Option<usize>)
        ensures
            match r {
                Some(n) => exists|i: int|
                    0 <= i < self.proxies@.len() && (#[trigger] self.proxies@[i]).0 == *id
                        && self.proxies@[i].1.resp_queue@.len() == n,
                None => !self.contains_id(*id),
            },
    {
        match self.find(id) {
            Some(i) => Some(self.proxies[i].1.resp_queue.len()),
            None => None,
        }
    }

    /// The response at the front of this proxy's queue, if the proxy is
    /// live and has one pending.
    pub fn front_response(&self, id: &ProxyID) -> (r: Option<TsiResponse>)
        ensures
            match r {
                Some(resp) => exists|i: int|
                    0 <= i < self.proxies@.len() && (#[trigger] self.proxies@[i]).0 == *id
                        && self.proxies@[i].1.resp_queue@.len() > 0
                        && self.proxies@[i].1.resp_queue@[0] == resp,
                None => !self.contains_id(*id) || exists|i: int|
                    0 <= i < self.proxies@.len() && (#[trigger] self.proxies@[i]).0 == *id
                        && self.proxies@[i].1.resp_queue@.len() == 0,
            },
    {
        match self.find(id) {
            Some(i) => {
                if self.proxies[i].1.resp_queue.len() > 0 {
                    Some(self.proxies[i].1.resp_queue[0])
                } else {
                    None
                }
            },
            None => None,
        }
    }

    /// The position of the entry with this exact identity.
    fn find(&self, id: &ProxyID) -> (r: Option<usize>)
        ensures
            match r {
                Some(i) => i < self.proxies@.len() && self.proxies@[i as int].0 == *id,
                None => forall|j: int|
                    0 <= j < self.proxies@.len() ==> (#[trigger] self.proxies@[j]).0 != *id,
            },
    {
        let mut i: usize = 0;
        while i < self.proxies.len()
            invariant
                i <= self.proxies@.len(),
                forall|j: int| 0 <= j < i ==> (#[trigger] self.proxies@[j]).0 != *id,
            decreases self.proxies@.len() - i,
        {
            if self.proxies[i].0 == *id {
                return Some(i);
            }
            i = i + 1;
        }
        None
    }

    /// The position of the first entry of this guest cid and peer port.
    fn find_by_peer(&self, guest_cid: u64, peer_port: u32) -> (r: Option<usize>)
        ensures
            match r {
                Some(i) => first_peer_match(*self, guest_cid, peer_port, i as int),
                None => forall|j: int|
                    0 <= j < self.proxies@.len() ==> !((#[trigger] self.proxies@[j]).0.guest_cid
                        == guest_cid && self.proxies@[j].0.peer_port == peer_port),
            },
    {
        let mut i: usize = 0;
        while i < self.proxies.len()
            invariant
                i <= self.proxies@.len(),
                forall|j: int|
                    0 <= j < i ==> !((#[trigger] self.proxies@[j]).0.guest_cid == guest_cid
                        && self.proxies@[j].0.peer_port == peer_port),
            decreases self.proxies@.len() - i,
        {
            if self.proxies[i].0.guest_cid == guest_cid && self.proxies[i].0.peer_port == peer_port
            {
                return Some(i);
            }
            i = i + 1;
        }
        None
    }
}

impl ProxyDispatcher {
    /// Decode one inbound packet and route it: a `ProxyCreate` inserts a
    /// fresh proxy under the id the packet names, a `ProxyRelease` removes
    /// that proxy and closes its descriptor, and every other request is
    /// handed to the proxy it addresses, which queues any reply. A packet
    /// that decodes to no request, names no live proxy, or names a proxy
    /// of the wrong kind is dropped without touching the map.
    #[verifier::rlimit(100)]
    pub fn handle_request(&mut self, pkt: &VsockPkt) -> (r: Result<DispatchEvent, TsiError>)
        requires
            old(self).wf(),
        ensures
            final(self).wf(),
            r matches Err(e) ==> *final(self) == *old(self) && decode_post(*pkt, Err::<
                TsiRequest,
                TsiError,
            >(e)),
            r matches Ok(ev) && ev is Done ==> final(self).ids_of() == old(self).ids_of(),
            r matches Ok(ev) && ev is Ignored ==> final(self).ids_of() == old(self).ids_of(),
            r matches Ok(ev) ==> (ev matches DispatchEvent::Failed(e) ==> {
                &&& ctl_op_of_port(pkt.dst_port) == TsiReqCtlOp::ProxyCreate
                &&& e > 0
                &&& !old(self).contains_id(create_id(*pkt))
                &&& create_code_valid(*pkt)
                &&& *final(self) == *old(self)
            }),
            r == Ok::<DispatchEvent, TsiError>(DispatchEvent::Ignored) && ctl_op_of_port(
                pkt.dst_port,
            ) == TsiReqCtlOp::ProxyCreate ==> old(self).contains_id(create_id(*pkt))
                || !create_code_valid(*pkt),
            ctl_op_of_port(pkt.dst_port) == TsiReqCtlOp::ProxyCreate && (old(self).contains_id(
                create_id(*pkt),
            ) || !create_code_valid(*pkt)) ==> r matches Err(_) || r == Ok::<
                DispatchEvent,
                TsiError,
            >(DispatchEvent::Ignored),
            r matches Ok(ev) ==> (ev matches DispatchEvent::Registered(fd) ==> {
                &&& ctl_op_of_port(pkt.dst_port) == TsiReqCtlOp::ProxyCreate
                &&& !old(self).contains_id(create_id(*pkt))
                &&& final(self).proxies@.len() == old(self).proxies@.len() + 1
                &&& final(self).proxies@.subrange(0, old(self).proxies@.len() as int) == old(self)
                    .proxies@
                &&& final(self).proxies@.last().0 == create_id(*pkt)
                &&& final(self).proxies@.last().1.fd == fd
                &&& fresh_instance(final(self).proxies@.last().1, create_id(*pkt), created_type(
                    *pkt), ProxyStatus::Idle, PROXY_PORT)
            }),
            r matches Ok(ev) ==> (ev matches DispatchEvent::Unregistered(fd) ==> {
                &&& ctl_op_of_port(pkt.dst_port) == TsiReqCtlOp::ProxyRelease
                &&& old(self).contains_id(release_id(*pkt))
                &&& !final(self).contains_id(release_id(*pkt))
                &&& final(self).proxies@.len() + 1 == old(self).proxies@.len()
                &&& exists|i: int|
                    0 <= i < old(self).proxies@.len() && (#[trigger] old(self).proxies@[i]).0
                        == release_id(*pkt) && old(self).proxies@[i].1.fd == fd && final(self)
                        .proxies@ == old(self).proxies@.remove(i)
            }),
            r == Ok::<DispatchEvent, TsiError>(DispatchEvent::Done) && ctl_op_of_port(pkt.dst_port)
                == TsiReqCtlOp::Connect ==> exists|i: int|
                {
                    &&& #[trigger] first_peer_match(*old(self), pkt.src_cid, peer_port_of(*pkt), i)
                    &&& connect_replied(old(self).proxies@[i].1, final(self).proxies@[i].1)
                    &&& others_kept(*old(self), *final(self), i)
                },
            r == Ok::<DispatchEvent, TsiError>(DispatchEvent::Ignored) && ctl_op_of_port(
                pkt.dst_port,
            ) == TsiReqCtlOp::Connect ==> !peer_matched(*old(self), pkt.src_cid, peer_port_of(
                *pkt,
            )),
            r == Ok::<DispatchEvent, TsiError>(DispatchEvent::Done) && ctl_op_of_port(pkt.dst_port)
                == TsiReqCtlOp::Listen ==> exists|i: int|
                {
                    &&& #[trigger] first_peer_match(*old(self), pkt.src_cid, peer_port_of(*pkt), i)
                    &&& old(self).proxies@[i].1.type_ == ProxyType::Stream
                    &&& listen_replied(old(self).proxies@[i].1, final(self).proxies@[i].1)
                    &&& others_kept(*old(self), *final(self), i)
                },
            r == Ok::<DispatchEvent, TsiError>(DispatchEvent::Ignored) && ctl_op_of_port(
                pkt.dst_port,
            ) == TsiReqCtlOp::Listen ==> !peer_matched(*old(self), pkt.src_cid, peer_port_of(*pkt))
                || exists|i: int|
                #[trigger] first_peer_match(*old(self), pkt.src_cid, peer_port_of(*pkt), i) && old(
                self,
            ).proxies@[i].1.type_ != ProxyType::Stream,
            r == Ok::<DispatchEvent, TsiError>(DispatchEvent::Done) && ctl_op_of_port(pkt.dst_port)
                == TsiReqCtlOp::Accept ==> exists|i: int|
                {
                    &&& #[trigger] first_peer_match(*old(self), pkt.src_cid, peer_port_of(*pkt), i)
                    &&& old(self).proxies@[i].1.type_ == ProxyType::Stream
                    &&& accept_checked(old(self).proxies@[i].1, final(self).proxies@[i].1,
                        second_word_of(*pkt))
                    &&& others_kept(*old(self), *final(self), i)
                },
            r == Ok::<DispatchEvent, TsiError>(DispatchEvent::Ignored) && ctl_op_of_port(
                pkt.dst_port,
            ) == TsiReqCtlOp::Accept ==> !peer_matched(*old(self), pkt.src_cid, peer_port_of(*pkt))
                || exists|i: int|
                #[trigger] first_peer_match(*old(self), pkt.src_cid, peer_port_of(*pkt), i) && old(
                self,
            ).proxies@[i].1.type_ != ProxyType::Stream,
            r == Ok::<DispatchEvent, TsiError>(DispatchEvent::Done) && ctl_op_of_port(pkt.dst_port)
                == TsiReqCtlOp::SendtoAddr ==> exists|i: int|
                {
                    &&& #[trigger] first_peer_match(*old(self), pkt.src_cid, peer_port_of(*pkt), i)
                    &&& old(self).proxies@[i].1.type_ == ProxyType::Dgram
                    &&& dgram_redirected(old(self).proxies@[i].1, final(self).proxies@[i].1)
                    &&& others_kept(*old(self), *final(self), i)
                },
            r == Ok::<DispatchEvent, TsiError>(DispatchEvent::Ignored) && ctl_op_of_port(
                pkt.dst_port,
            ) == TsiReqCtlOp::SendtoAddr ==> !peer_matched(*old(self), pkt.src_cid, peer_port_of(
                *pkt,
            )) || exists|i: int|
                #[trigger] first_peer_match(*old(self), pkt.src_cid, peer_port_of(*pkt), i) && old(
                self,
            ).proxies@[i].1.type_ != ProxyType::Dgram,
            r == Ok::<DispatchEvent, TsiError>(DispatchEvent::Done) && ctl_op_of_port(pkt.dst_port)
                == TsiReqCtlOp::SendtoData ==> final(self).proxies@ == old(self).proxies@ && exists|
                i: int,
            |
                #[trigger] first_peer_match(*old(self), pkt.src_cid, pkt.src_port, i) && old(
                self,
            ).proxies@[i].1.type_ == ProxyType::Dgram,
            r == Ok::<DispatchEvent, TsiError>(DispatchEvent::Ignored) && ctl_op_of_port(
                pkt.dst_port,
            ) == TsiReqCtlOp::SendtoData ==> !peer_matched(*old(self), pkt.src_cid, pkt.src_port)
                || data_len_of(*pkt) > u32::MAX || pkt.data is None || exists|i: int|
                #[trigger] first_peer_match(*old(self), pkt.src_cid, pkt.src_port, i) && old(
                self,
            ).proxies@[i].1.type_ != ProxyType::Dgram,
            r == Ok::<DispatchEvent, TsiError>(DispatchEvent::Done) && ctl_op_of_port(pkt.dst_port)
                == TsiReqCtlOp::Getname ==> exists|i: int|
                {
                    &&& 0 <= i < old(self).proxies@.len()
                    &&& (#[trigger] old(self).proxies@[i]).0 == getpeername_id(*pkt)
                    &&& old(self).proxies@[i].1.type_ == ProxyType::Stream
                    &&& getpeername_replied(old(self).proxies@[i].1, final(self).proxies@[i].1)
                    &&& others_kept(*old(self), *final(self), i)
                },
            r == Ok::<DispatchEvent, TsiError>(DispatchEvent::Ignored) && ctl_op_of_port(
                pkt.dst_port,
            ) == TsiReqCtlOp::Getname ==> !old(self).contains_id(getpeername_id(*pkt)) || exists|
                i: int,
            |
                0 <= i < old(self).proxies@.len() && (#[trigger] old(self).proxies@[i]).0
                    == getpeername_id(*pkt) && old(self).proxies@[i].1.type_ != ProxyType::Stream,
            r == Ok::<DispatchEvent, TsiError>(DispatchEvent::Done) && ctl_op_of_port(pkt.dst_port)
                == TsiReqCtlOp::Unknown && stream_op_of_code(pkt.op) == TsiStreamOp::Rw ==> exists|
                i: int,
            |
                {
                    &&& 0 <= i < old(self).proxies@.len()
                    &&& (#[trigger] old(self).proxies@[i]).0 == header_id(*pkt)
                    &&& send_handled(old(self).proxies@[i].1, final(self).proxies@[i].1,
                        data_len_of(*pkt))
                    &&& others_kept(*old(self), *final(self), i)
                },
            r == Ok::<DispatchEvent, TsiError>(DispatchEvent::Ignored) && ctl_op_of_port(
                pkt.dst_port,
            ) == TsiReqCtlOp::Unknown && stream_op_of_code(pkt.op) == TsiStreamOp::Rw ==> !old(
                self,
            ).contains_id(header_id(*pkt)) || data_len_of(*pkt) > u32::MAX,
            r == Ok::<DispatchEvent, TsiError>(DispatchEvent::Done) && ctl_op_of_port(pkt.dst_port)
                == TsiReqCtlOp::Unknown && stream_op_of_code(pkt.op) == TsiStreamOp::Response
                ==> exists|i: int|
                {
                    &&& 0 <= i < old(self).proxies@.len()
                    &&& (#[trigger] old(self).proxies@[i]).0 == header_id(*pkt)
                    &&& old(self).proxies@[i].1.type_ == ProxyType::Stream
                    &&& ack_applied(old(self).proxies@[i].1, final(self).proxies@[i].1,
                        pkt.fwd_cnt)
                    &&& others_kept(*old(self), *final(self), i)
                },
            r == Ok::<DispatchEvent, TsiError>(DispatchEvent::Ignored) && ctl_op_of_port(
                pkt.dst_port,
            ) == TsiReqCtlOp::Unknown && stream_op_of_code(pkt.op) == TsiStreamOp::Response ==> !old(
                self,
            ).contains_id(header_id(*pkt)) || exists|i: int|
                0 <= i < old(self).proxies@.len() && (#[trigger] old(self).proxies@[i]).0
                    == header_id(*pkt) && old(self).proxies@[i].1.type_ != ProxyType::Stream,
    {
        let req = match TsiRequest::try_from(pkt) {
            Ok(rq) => rq,
            Err(e) => {
                return Err(e);
            },
        };
        match req {
            TsiRequest::ProxyCreate(cfg) => {
                let id = ProxyID::new(pkt.src_cid, cfg.peer_port, pkt.src_port);
                proof {
                    assert(id == create_id(*pkt));
                }
                match self.find(&id) {
                    Some(_) => Ok(DispatchEvent::Ignored),
                    None => {
                        let created = if cfg.type_ == SOCK_STREAM || cfg.type_ == SOCK_TSI_STREAM {
                            proof {
                                assert(created_type(*pkt) == ProxyType::Stream);
                            }
                            ProxyInstance::new_stream(id, PROXY_PORT)
                        } else if cfg.type_ == SOCK_DGRAM || cfg.type_ == SOCK_TSI_DGRAM {
                            proof {
                                assert(created_type(*pkt) == ProxyType::Dgram);
                            }
                            ProxyInstance::new_dgram(id, PROXY_PORT)
                        } else {
                            return Ok(DispatchEvent::Ignored);
                        };
                        match created {
                            Ok(p) => {
                                let fd = p.as_raw_fd();
                                let ghost pre = *self;
                                self.proxies.push((id, p));
                                proof {
                                    lemma_entry_pushed(pre, *self, id,
                                        self.proxies@.last().1);
                                }
                                Ok(DispatchEvent::Registered(fd))
                            },
                            Err(e) => Ok(DispatchEvent::Failed(e)),
                        }
                    },
                }
            },
            TsiRequest::Connect(cfg) => {
                match self.find_by_peer(pkt.src_cid, cfg.peer_port) {
                    Some(i) => {
                        let entry = &mut self.proxies[i];
                        connect_and_reply(&mut entry.1, &cfg);
                        proof {
                            lemma_entry_updated(*old(self), *self, i as int);
                            assert(first_peer_match(*old(self), pkt.src_cid, peer_port_of(*pkt),
                                i as int) && connect_replied(old(self).proxies@[i as int].1,
                            self.proxies@[i as int].1) && others_kept(*old(self), *self,
                                i as int));
                        }
                        Ok(DispatchEvent::Done)
                    },
                    None => Ok(DispatchEvent::Ignored),
                }
            },
            TsiRequest::GetPeername(cfg) => {
                let id = ProxyID::new(pkt.src_cid, cfg.peer_port, cfg.local_port);
                match self.find(&id) {
                    Some(i) => {
                        if !matches!(self.proxies[i].1.type_, ProxyType::Stream) {
                            return Ok(DispatchEvent::Ignored);
                        }
                        let entry = &mut self.proxies[i];
                        getpeername_and_reply(&mut entry.1);
                        proof {
                            lemma_entry_updated(*old(self), *self, i as int);
                        }
                        Ok(DispatchEvent::Done)
                    },
                    None => Ok(DispatchEvent::Ignored),
                }
            },
            TsiRequest::SendtoAddr(cfg) => {
                match self.find_by_peer(pkt.src_cid, cfg.peer_port) {
                    Some(i) => {
                        if !matches!(self.proxies[i].1.type_, ProxyType::Dgram) {
                            return Ok(DispatchEvent::Ignored);
                        }
                        let connect_cfg = ConnectConfig {
                            peer_port: cfg.peer_port,
                            addr: cfg.addr,
                            port: cfg.port,
                        };
                        let entry = &mut self.proxies[i];
                        let _ = entry.1.connect(&connect_cfg);
                        proof {
                            lemma_entry_updated(*old(self), *self, i as int);
                            assert(first_peer_match(*old(self), pkt.src_cid, peer_port_of(*pkt),
                                i as int) && dgram_redirected(old(self).proxies@[i as int].1,
                            self.proxies@[i as int].1) && others_kept(*old(self), *self,
                                i as int));
                        }
                        Ok(DispatchEvent::Done)
                    },
                    None => Ok(DispatchEvent::Ignored),
                }
            },
            TsiRequest::SendtoData => {
                let data = match &pkt.data {
                    Some(d) => clone_bytes(d),
                    None => {
                        return Ok(DispatchEvent::Ignored);
                    },
                };
                if data.len() > (u32::MAX as usize) {
                    return Ok(DispatchEvent::Ignored);
                }
                match self.find_by_peer(pkt.src_cid, pkt.src_port) {
                    Some(i) => {
                        if !matches!(self.proxies[i].1.type_, ProxyType::Dgram) {
                            return Ok(DispatchEvent::Ignored);
                        }
                        let local_port = self.proxies[i].0.local_port;
                        let msg = SendMsgConfig { peer_port: pkt.src_port, local_port, data };
                        let entry = &mut self.proxies[i];
                        let _ = entry.1.send(msg);
                        proof {
                            lemma_entry_updated(*old(self), *self, i as int);
                        }
                        Ok(DispatchEvent::Done)
                    },
                    None => Ok(DispatchEvent::Ignored),
                }
            },
            TsiRequest::Listen(cfg) => {
                match self.find_by_peer(pkt.src_cid, cfg.peer_port) {
                    Some(i) => {
                        if !matches!(self.proxies[i].1.type_, ProxyType::Stream) {
                            return Ok(DispatchEvent::Ignored);
                        }
                        let entry = &mut self.proxies[i];
                        listen_and_reply(&mut entry.1, &cfg);
                        proof {
                            lemma_entry_updated(*old(self), *self, i as int);
                            assert(first_peer_match(*old(self), pkt.src_cid, peer_port_of(*pkt),
                                i as int) && listen_replied(old(self).proxies@[i as int].1,
                            self.proxies@[i as int].1) && others_kept(*old(self), *self,
                                i as int));
                        }
                        Ok(DispatchEvent::Done)
                    },
                    None => Ok(DispatchEvent::Ignored),
                }
            },
            TsiRequest::Accept(cfg) => {
                match self.find_by_peer(pkt.src_cid, cfg.peer_port) {
                    Some(i) => {
                        if !matches!(self.proxies[i].1.type_, ProxyType::Stream) {
                            return Ok(DispatchEvent::Ignored);
                        }
                        let entry = &mut self.proxies[i];
                        accept_check_and_reply(&mut entry.1, &cfg);
                        proof {
                            lemma_entry_updated(*old(self), *self, i as int);
                            assert(first_peer_match(*old(self), pkt.src_cid, peer_port_of(*pkt),
                                i as int) && accept_checked(old(self).proxies@[i as int].1,
                            self.proxies@[i as int].1, second_word_of(*pkt)) && others_kept(
                                *old(self), *self, i as int));
                        }
                        Ok(DispatchEvent::Done)
                    },
                    None => Ok(DispatchEvent::Ignored),
                }
            },
            TsiRequest::SendMsg(cfg) => {
                if cfg.data.len() > (u32::MAX as usize) {
                    return Ok(DispatchEvent::Ignored);
                }
                let id = ProxyID::new(pkt.src_cid, cfg.peer_port, cfg.local_port);
                match self.find(&id) {
                    Some(i) => {
                        let entry = &mut self.proxies[i];
                        let _ = entry.1.send(cfg);
                        proof {
                            lemma_entry_updated(*old(self), *self, i as int);
                        }
                        Ok(DispatchEvent::Done)
                    },
                    None => Ok(DispatchEvent::Ignored),
                }
            },
            TsiRequest::OpResponse(cfg) => {
                let id = ProxyID::new(pkt.src_cid, cfg.peer_port, cfg.local_port);
                match self.find(&id) {
                    Some(i) => {
                        if !matches!(self.proxies[i].1.type_, ProxyType::Stream) {
                            return Ok(DispatchEvent::Ignored);
                        }
                        let entry = &mut self.proxies[i];
                        let _ = entry.1.ack_accept(&cfg);
                        proof {
                            lemma_entry_updated(*old(self), *self, i as int);
                        }
                        Ok(DispatchEvent::Done)
                    },
                    None => Ok(DispatchEvent::Ignored),
                }
            },
            TsiRequest::ProxyRelease(cfg) => {
                let id = ProxyID::new(pkt.src_cid, cfg.peer_port, cfg.local_port);
                proof {
                    assert(id == release_id(*pkt));
                }
                match self.find(&id) {
                    Some(i) => {
                        let ghost pre = *self;
                        let entry = self.proxies.remove(i);
                        let fd = entry.1.as_raw_fd();
                        sys::sock_close(fd);
                        proof {
                            lemma_entry_removed(pre, *self, i as int);
                            assert(0 <= i < pre.proxies@.len() && pre.proxies@[i as int].0
                                == release_id(*pkt) && pre.proxies@[i as int].1.fd == fd
                                && self.proxies@ == pre.proxies@.remove(i as int));
                        }
                        Ok(DispatchEvent::Unregistered(fd))
                    },
                    None => Ok(DispatchEvent::Ignored),
                }
            },
        }
    }
}

/// The listener's bookkeeping after one accepted connection: the count of
/// ready accepts grows by one (saturating), and an accepted-connection
/// notice carrying the new proxy's ports is queued; everything else is
/// kept.
pub open spec fn accept_event_applied(
    pre: ProxyInstance,
    post: ProxyInstance,
    accept_id: ProxyID,
) -> bool {
    &&& same_identity(pre, post)
    &&& post.status == pre.status
    &&& post.tx_cnt == pre.tx_cnt
    &&& post.last_tx_cnt_sent == pre.last_tx_cnt_sent
    &&& post.rx_cnt == pre.rx_cnt
    &&& post.pending_accepts == (if pre.pending_accepts < u32::MAX {
        pre.pending_accepts + 1
    } else {
        pre.pending_accepts as int
    })
    &&& post.resp_queue@ == pre.resp_queue@.push(TsiResponse::Op(OpResult {
        src_port: accept_id.local_port,
        dst_port: accept_id.peer_port,
    }))
}

/// One response was taken off the front of the proxy's queue; everything
/// else is kept.
pub open spec fn popped_front(pre: ProxyInstance, post: ProxyInstance) -> bool {
    &&& same_identity(pre, post)
    &&& counters_kept(pre, post)
    &&& post.status == pre.status
    &&& pre.resp_queue@.len() > 0
    &&& post.resp_queue@ == pre.resp_queue@.subrange(1, pre.resp_queue@.len() as int)
}

impl ProxyDispatcher {
    /// The listening proxy's socket is readable: accept one connection,
    /// insert the fresh proxy under `accept_id`, count it on the listener
    /// and queue the accepted-connection notice there. Fails with `EINVAL`
    /// when the listener is missing or not a stream, or when `accept_id`
    /// is already taken; a host `accept` failure is surfaced. Returns the
    /// new proxy's descriptor for event-loop registration.
    pub fn handle_accept_event(&mut self, listen_id: &ProxyID, accept_id: ProxyID) -> (r: Result<
        i32,
        i32,
    >)
        requires
            old(self).wf(),
        ensures
            final(self).wf(),
            r matches Err(e) ==> e > 0 && final(self).proxies@ == old(self).proxies@,
            !old(self).contains_id(*listen_id) || (exists|i: int|
                0 <= i < old(self).proxies@.len() && (#[trigger] old(self).proxies@[i]).0
                    == *listen_id && old(self).proxies@[i].1.type_ != ProxyType::Stream) || old(
                self,
            ).contains_id(accept_id) ==> r == Err::<i32, i32>(EINVAL_CODE),
            r matches Ok(fd) ==> {
                &&& !old(self).contains_id(accept_id)
                &&& final(self).proxies@.len() == old(self).proxies@.len() + 1
                &&& final(self).proxies@.last().0 == accept_id
                &&& final(self).proxies@.last().1.fd == fd
                &&& exists|i: int|
                    {
                        &&& 0 <= i < old(self).proxies@.len()
                        &&& (#[trigger] old(self).proxies@[i]).0 == *listen_id
                        &&& accept_event_applied(old(self).proxies@[i].1,
                            final(self).proxies@[i].1, accept_id)
                        &&& fresh_instance(final(self).proxies@.last().1, accept_id,
                            ProxyType::Stream, ProxyStatus::ReverseInit,
                            old(self).proxies@[i].1.control_port)
                        &&& final(self).proxies@.last().1.fd != old(self).proxies@[i].1.fd
                    }
            },
    {
        let i = match self.find(listen_id) {
            Some(i) => i,
            None => {
                return Err(EINVAL_CODE);
            },
        };
        if !matches!(self.proxies[i].1.type_, ProxyType::Stream) {
            return Err(EINVAL_CODE);
        }
        match self.find(&accept_id) {
            Some(_) => {
                return Err(EINVAL_CODE);
            },
            None => {},
        }
        proof {
            assert forall|j: int|
                0 <= j < self.proxies@.len() && (#[trigger] self.proxies@[j]).0
                    == *listen_id implies self.proxies@[j].1.type_ == ProxyType::Stream by {
                lemma_at_most_one_proxy(*self, j, i as int);
            }
        }
        let entry = &mut self.proxies[i];
        let newp = match entry.1.accept(accept_id) {
            Ok(p) => p,
            Err(e) => {
                proof {
                    assert(self.proxies@ =~= old(self).proxies@);
                }
                return Err(e);
            },
        };
        if entry.1.pending_accepts < u32::MAX {
            entry.1.pending_accepts = entry.1.pending_accepts + 1;
        }
        entry.1.resp_queue.push_back(TsiResponse::Op(OpResult {
            src_port: accept_id.local_port,
            dst_port: accept_id.peer_port,
        }));
        let fd = newp.as_raw_fd();
        let ghost mid = *self;
        proof {
            lemma_entry_updated(*old(self), mid, i as int);
        }
        self.proxies.push((accept_id, newp));
        proof {
            lemma_entry_pushed(mid, *self, accept_id, self.proxies@.last().1);
            assert((#[trigger] old(self).proxies@[i as int]).0 == *listen_id
                && accept_event_applied(old(self).proxies@[i as int].1,
                self.proxies@[i as int].1, accept_id) && fresh_instance(self.proxies@.last().1,
                accept_id, ProxyType::Stream, ProxyStatus::ReverseInit,
                old(self).proxies@[i as int].1.control_port));
        }
        Ok(fd)
    }

    /// The proxy's socket is readable: receive once into the packet's
    /// payload buffer and stamp the packet as an inline-data carriage to
    /// the guest, with the proxy's ports, its transmit counter as
    /// `fwd_cnt`, the credit window as `buf_alloc`, and the byte count as
    /// its length. The proxy's own `recv` transition applies, including
    /// turning `Closed` with `ENODATA` when the peer has closed; an
    /// unknown id fails with `EINVAL` and changes nothing.
    pub fn proxy_recv(&mut self, id: &ProxyID, pkt: &mut VsockPkt) -> (r: Result<u32, i32>)
        requires
            old(self).wf(),
            old(pkt).data matches Some(d) && d@.len() <= u32::MAX,
        ensures
            final(self).wf(),
            final(self).ids_of() == old(self).ids_of(),
            final(pkt).data matches Some(d2) && old(pkt).data matches Some(d1) && d2@.len()
                == d1@.len(),
            r matches Ok(n) ==> exists|i: int|
                {
                    &&& 0 <= i < old(self).proxies@.len()
                    &&& (#[trigger] old(self).proxies@[i]).0 == *id
                    &&& (old(self).proxies@[i].1.type_ == ProxyType::Stream
                        ==> stream_recv_applied(old(self).proxies@[i].1,
                        final(self).proxies@[i].1, n, data_len_u32(*old(pkt))))
                    &&& (old(self).proxies@[i].1.type_ == ProxyType::Dgram ==> dgram_recv_applied(
                        old(self).proxies@[i].1, final(self).proxies@[i].1, n,
                        data_len_u32(*old(pkt))))
                    &&& rw_header_stamped(*final(pkt), *id, final(self).proxies@[i].1, n)
                },
            r matches Err(e) ==> e > 0 && header_kept(*old(pkt), *final(pkt)) && {
                ||| (!old(self).contains_id(*id) && e == EINVAL_CODE && *final(self) == *old(self)
                    && *final(pkt) == *old(pkt))
                ||| exists|i: int|
                    {
                        &&& 0 <= i < old(self).proxies@.len()
                        &&& (#[trigger] old(self).proxies@[i]).0 == *id
                        &&& others_kept(*old(self), *final(self), i)
                        &&& (final(self).proxies@[i].1 == old(self).proxies@[i].1 || (e
                            == ENODATA_CODE && old(self).proxies@[i].1.type_ == ProxyType::Stream
                            && stream_recv_applied(old(self).proxies@[i].1,
                            final(self).proxies@[i].1, 0, data_len_u32(*old(pkt)))))
                    }
            },
    {
        let i = match self.find(id) {
            Some(i) => i,
            None => {
                return Err(EINVAL_CODE);
            },
        };
        let got: u32;
        {
            let entry = &mut self.proxies[i];
            let n = match &mut pkt.data {
                Some(d) => entry.1.recv(d),
                None => Err(EINVAL_CODE),
            };
            got = match n {
                Ok(n) => n,
                Err(e) => {
                    proof {
                        lemma_entry_updated(*old(self), *self, i as int);
                        assert(0 <= i < old(self).proxies@.len() && (
                        #[trigger] old(self).proxies@[i as int]).0 == *id && others_kept(
                            *old(self), *self, i as int));
                    }
                    return Err(e);
                },
            };
        }
        let ptype = self.proxies[i].1.type_;
        let fwd = self.proxies[i].1.tx_cnt;
        pkt.src_cid = VSOCK_HOST_CID;
        pkt.dst_cid = id.guest_cid;
        pkt.type_ = match ptype {
            ProxyType::Stream => 1,
            ProxyType::Dgram => 2,
        };
        pkt.op = u16::from(TsiRespCtlOp::Rw);
        pkt.src_port = id.local_port;
        pkt.dst_port = id.peer_port;
        pkt.buf_alloc = CONN_TX_BUF_SIZE;
        pkt.fwd_cnt = fwd;
        pkt.len = got;
        proof {
            lemma_entry_updated(*old(self), *self, i as int);
        }
        Ok(got)
    }

    /// The position of the first proxy with a pending response.
    fn first_pending(&self) -> (r: Option<usize>)
        ensures
            match r {
                Some(i) => {
                    &&& i < self.proxies@.len()
                    &&& self.proxies@[i as int].1.resp_queue@.len() > 0
                    &&& forall|j: int|
                        0 <= j < i ==> (#[trigger] self.proxies@[j]).1.resp_queue@.len() == 0
                },
                None => forall|j: int|
                    0 <= j < self.proxies@.len() ==> (
                    #[trigger] self.proxies@[j]).1.resp_queue@.len() == 0,
            },
    {
        let mut i: usize = 0;
        while i < self.proxies.len()
            invariant
                i <= self.proxies@.len(),
                forall|j: int| 0 <= j < i ==> (#[trigger] self.proxies@[j]).1.resp_queue@.len()
                    == 0,
            decreases self.proxies@.len() - i,
        {
            if self.proxies[i].1.resp_queue.len() > 0 {
                return Some(i);
            }
            i = i + 1;
        }
        None
    }

    /// Drain one pending response: take the front of the first non-empty
    /// queue and encode it into the packet. Returns whether a response was
    /// encoded; queues keep their order, so per-proxy responses leave in
    /// the order they were committed. An encoding failure leaves the
    /// response queued and everything untouched.
    pub fn drain_one(&mut self, pkt: &mut VsockPkt) -> (r: Result<bool, TsiError>)
        requires
            old(self).wf(),
        ensures
            final(self).wf(),
            final(self).ids_of() == old(self).ids_of(),
            r matches Ok(false) ==> *final(self) == *old(self) && *final(pkt) == *old(pkt)
                && forall|j: int|
                0 <= j < old(self).proxies@.len() ==> (
                #[trigger] old(self).proxies@[j]).1.resp_queue@.len() == 0,
            r matches Ok(true) ==> exists|i: int|
                {
                    &&& 0 <= i < old(self).proxies@.len()
                    &&& forall|j: int|
                        0 <= j < i ==> (#[trigger] old(self).proxies@[j]).1.resp_queue@.len() == 0
                    &&& (#[trigger] old(self).proxies@[i]).1.resp_queue@.len() > 0
                    &&& popped_front(old(self).proxies@[i].1, final(self).proxies@[i].1)
                    &&& forall|k: int|
                        0 <= k < old(self).proxies@.len() && k != i ==> #[trigger] final(self)
                            .proxies@[k] == old(self).proxies@[k]
                    &&& encode_post(old(self).proxies@[i].1.resp_queue@[0],
                        old(self).proxies@[i].0, old(self).proxies@[i].1.type_,
                        old(self).proxies@[i].1.tx_cnt, *old(pkt), *final(pkt), Ok(()))
                },
            r matches Err(e) ==> *final(self) == *old(self) && exists|i: int|
                {
                    &&& 0 <= i < old(self).proxies@.len()
                    &&& forall|j: int|
                        0 <= j < i ==> (#[trigger] old(self).proxies@[j]).1.resp_queue@.len() == 0
                    &&& (#[trigger] old(self).proxies@[i]).1.resp_queue@.len() > 0
                    &&& encode_post(old(self).proxies@[i].1.resp_queue@[0],
                        old(self).proxies@[i].0, old(self).proxies@[i].1.type_,
                        old(self).proxies@[i].1.tx_cnt, *old(pkt), *final(pkt), Err(e))
                },
    {
        let i = match self.first_pending() {
            Some(i) => i,
            None => {
                return Ok(false);
            },
        };
        let id = self.proxies[i].0;
        let ptype = self.proxies[i].1.type_;
        let fwd = self.proxies[i].1.tx_cnt;
        let resp = self.proxies[i].1.resp_queue[0];
        match encode_response(&resp, &id, ptype, fwd, pkt) {
            Ok(_) => {
                let entry = &mut self.proxies[i];
                let _ = entry.1.resp_queue.pop_front();
                proof {
                    lemma_entry_updated(*old(self), *self, i as int);
                    assert(0 <= i < old(self).proxies@.len() && (
                    #[trigger] old(self).proxies@[i as int]).1.resp_queue@.len() > 0
                        && popped_front(old(self).proxies@[i as int].1,
                        self.proxies@[i as int].1));
                }
                Ok(true)
            },
            Err(e) => Err(e),
        }
    }
}

/// The packet was stamped as an inline-data carriage from the host to the
/// guest for this proxy: host cid, guest cid, the proxy's kind and ports,
/// the `Rw` op, the credit window and the proxy's transmit counter, with
/// `n` payload bytes in use.
pub open spec fn rw_header_stamped(pkt: VsockPkt, id: ProxyID, p: ProxyInstance, n: u32) -> bool {
    &&& pkt.src_cid == VSOCK_HOST_CID
    &&& pkt.dst_cid == id.guest_cid
    &&& pkt.type_ == pkt_type_code(p.type_)
    &&& pkt.op == 5
    &&& pkt.src_port == id.local_port
    &&& pkt.dst_port == id.peer_port
    &&& pkt.buf_alloc == CONN_TX_BUF_SIZE
    &&& pkt.fwd_cnt == p.tx_cnt
    &&& pkt.len == n
}

/// The payload length of a packet, as a 32-bit count.
pub open spec fn data_len_u32(pkt: VsockPkt) -> u32 {
    match pkt.data {
        Some(d) => d@.len() as u32,
        None => 0,
    }
}

/// The payload length of a packet.
pub open spec fn data_len_of(pkt: VsockPkt) -> int {
    match pkt.data {
        Some(d) => d@.len() as int,
        None => 0,
    }
}

/// Replacing one entry's instance, keeping its identity, preserves
/// well-formedness and the map's ids.
proof fn lemma_entry_updated(pre: ProxyDispatcher, post: ProxyDispatcher, i: int)
    requires
        pre.wf(),
        0 <= i < pre.proxies@.len(),
        post.proxies@.len() == pre.proxies@.len(),
        forall|k: int|
            0 <= k < pre.proxies@.len() && k != i ==> #[trigger] post.proxies@[k]
                == pre.proxies@[k],
        post.proxies@[i].0 == pre.proxies@[i].0,
        post.proxies@[i].1.wf(),
        same_identity(pre.proxies@[i].1, post.proxies@[i].1),
    ensures
        post.wf(),
        post.ids_of() == pre.ids_of(),
{
    assert forall|a: int, b: int| 0 <= a < b < post.proxies@.len() implies (
    #[trigger] post.proxies@[a]).0 != (#[trigger] post.proxies@[b]).0 by {
        assert(post.proxies@[a].0 == pre.proxies@[a].0);
        assert(post.proxies@[b].0 == pre.proxies@[b].0);
    }
    assert forall|k: int| 0 <= k < post.proxies@.len() implies (#[trigger] post.proxies@[k]).1.id
        == post.proxies@[k].0 && post.proxies@[k].1.wf() by {
        if k != i {
            assert(post.proxies@[k] == pre.proxies@[k]);
        }
    }
    assert(post.ids_of() =~= pre.ids_of());
}

/// Appending an entry whose id no other entry carries preserves
/// well-formedness.
proof fn lemma_entry_pushed(pre: ProxyDispatcher, post: ProxyDispatcher, id: ProxyID,
    inst: ProxyInstance)
    requires
        pre.wf(),
        forall|j: int| 0 <= j < pre.proxies@.len() ==> (#[trigger] pre.proxies@[j]).0 != id,
        post.proxies@ == pre.proxies@.push((id, inst)),
        inst.wf(),
        inst.id == id,
    ensures
        post.wf(),
        post.proxies@.subrange(0, pre.proxies@.len() as int) == pre.proxies@,
{
    let n = pre.proxies@.len() as int;
    assert forall|a: int, b: int| 0 <= a < b < post.proxies@.len() implies (
    #[trigger] post.proxies@[a]).0 != (#[trigger] post.proxies@[b]).0 by {
        assert(post.proxies@[a] == pre.proxies@[a]);
        if b < n {
            assert(post.proxies@[b] == pre.proxies@[b]);
        } else {
            assert(post.proxies@[b].0 == id);
        }
    }
    assert forall|k: int| 0 <= k < post.proxies@.len() implies (#[trigger] post.proxies@[k]).1.id
        == post.proxies@[k].0 && post.proxies@[k].1.wf() by {
        if k < n {
            assert(post.proxies@[k] == pre.proxies@[k]);
        }
    }
    assert(post.proxies@.subrange(0, n) =~= pre.proxies@);
}

/// Removing one entry preserves well-formedness, and its id is gone.
proof fn lemma_entry_removed(pre: ProxyDispatcher, post: ProxyDispatcher, i: int)
    requires
        pre.wf(),
        0 <= i < pre.proxies@.len(),
        post.proxies@ == pre.proxies@.remove(i),
    ensures
        post.wf(),
        !post.contains_id(pre.proxies@[i].0),
{
    let n = pre.proxies@.len() as int;
    assert forall|k: int| 0 <= k < n - 1 implies #[trigger] post.proxies@[k] == (if k < i {
        pre.proxies@[k]
    } else {
        pre.proxies@[k + 1]
    }) by {}
    assert forall|a: int, b: int| 0 <= a < b < post.proxies@.len() implies (
    #[trigger] post.proxies@[a]).0 != (#[trigger] post.proxies@[b]).0 by {}
    assert forall|k: int| 0 <= k < post.proxies@.len() implies (#[trigger] post.proxies@[k]).1.id
        == post.proxies@[k].0 && post.proxies@[k].1.wf() by {}
    assert forall|k: int| 0 <= k < post.proxies@.len() implies (#[trigger] post.proxies@[k]).0
        != pre.proxies@[i].0 by {}
}

/// In a well-formed dispatcher at most one proxy exists per identity: two
/// entries with the same id are one entry.
pub proof fn lemma_at_most_one_proxy(d: ProxyDispatcher, i: int, j: int)
    requires
        d.wf(),
        0 <= i < d.proxies@.len(),
        0 <= j < d.proxies@.len(),
        d.proxies@[i].0 == d.proxies@[j].0,
    ensures
        i == j,
{
}

/// A `Connect` reply was queued: the response carries the proxy's ports
/// and either result `0` with the proxy now `Connected`, or the negated
/// host errno with the proxy untouched.
pub open spec fn connect_replied(pre: ProxyInstance, post: ProxyInstance) -> bool {
    exists|code: i32|
        {
            &&& #[trigger] post.resp_queue@ == pre.resp_queue@.push(TsiResponse::Connect(
                ConnectResult {
                    src_port: pre.id.local_port,
                    dst_port: pre.id.peer_port,
                    result: code,
                },
            ))
            &&& code == 0 ==> post.status == ProxyStatus::Connected
            &&& code != 0 ==> post.status == pre.status && code < 0
        }
}

/// Issue `connect` on one proxy and queue the `Connect` reply: result `0`
/// on success, the negated host errno on failure.
pub fn connect_and_reply(p: &mut ProxyInstance, cfg: &ConnectConfig)
    requires
        old(p).wf(),
    ensures
        final(p).wf(),
        same_identity(*old(p), *final(p)),
        counters_kept(*old(p), *final(p)),
        connect_replied(*old(p), *final(p)),
{
    let code: i32 = match p.connect(cfg) {
        Ok(_) => 0,
        Err(e) => -e,
    };
    let reply = TsiResponse::Connect(ConnectResult {
        src_port: p.id.local_port,
        dst_port: p.id.peer_port,
        result: code,
    });
    p.resp_queue.push_back(reply);
    proof {
        assert(connect_replied(*old(p), *p)) by {
            assert(p.resp_queue@ == old(p).resp_queue@.push(TsiResponse::Connect(ConnectResult {
                src_port: old(p).id.local_port,
                dst_port: old(p).id.peer_port,
                result: code,
            })));
        }
    }
}

/// A `Listen` reply was queued: the response carries the proxy's ports and
/// either result `0` with the proxy now `Listen`, or the negated host
/// errno with the proxy untouched.
pub open spec fn listen_replied(pre: ProxyInstance, post: ProxyInstance) -> bool {
    exists|code: i32|
        {
            &&& #[trigger] post.resp_queue@ == pre.resp_queue@.push(TsiResponse::Listen(
                ListenResult {
                    src_port: pre.id.local_port,
                    dst_port: pre.id.peer_port,
                    result: code,
                },
            ))
            &&& code == 0 ==> post.status == ProxyStatus::Listen
            &&& code != 0 ==> post.status == pre.status && code < 0
        }
}

/// Bind and listen on one stream proxy and queue the `Listen` reply:
/// result `0` on success, the negated host errno on failure.
pub fn listen_and_reply(p: &mut ProxyInstance, cfg: &ListenConfig)
    requires
        old(p).wf(),
        old(p).type_ == ProxyType::Stream,
    ensures
        final(p).wf(),
        same_identity(*old(p), *final(p)),
        counters_kept(*old(p), *final(p)),
        listen_replied(*old(p), *final(p)),
{
    let code: i32 = match p.listen(cfg) {
        Ok(_) => 0,
        Err(e) => -e,
    };
    let reply = TsiResponse::Listen(ListenResult {
        src_port: p.id.local_port,
        dst_port: p.id.peer_port,
        result: code,
    });
    p.resp_queue.push_back(reply);
    proof {
        assert(listen_replied(*old(p), *p)) by {
            assert(p.resp_queue@ == old(p).resp_queue@.push(TsiResponse::Listen(ListenResult {
                src_port: old(p).id.local_port,
                dst_port: old(p).id.peer_port,
                result: code,
            })));
        }
    }
}

/// Run `check_accept` on one stream proxy and queue the `Accept` reply
/// when it yields a result: a ready accept is consumed with result `0`, a
/// nonblocking request with none ready gets `-EWOULDBLOCK`, and a blocking
/// one is parked without a reply.
pub fn accept_check_and_reply(p: &mut ProxyInstance, cfg: &AcceptConfig)
    requires
        old(p).wf(),
        old(p).type_ == ProxyType::Stream,
    ensures
        final(p).wf(),
        accept_checked(*old(p), *final(p), cfg.flags),
{
    let src_port = p.id.local_port;
    let dst_port = p.id.peer_port;
    match p.check_accept(cfg) {
        Some(code) => {
            p.resp_queue.push_back(TsiResponse::Accept(AcceptResult {
                src_port,
                dst_port,
                result: code,
            }));
        },
        None => {},
    }
}

/// A `GetPeername` reply was queued: on success the peer's address and
/// port with result `0`, on failure zeroes with the negated host errno.
pub open spec fn getpeername_replied(pre: ProxyInstance, post: ProxyInstance) -> bool {
    exists|code: i32, addr: u32, port: u16|
        {
            &&& #[trigger] post.resp_queue@ == pre.resp_queue@.push(TsiResponse::GetPeername(
                GetPeernameResult {
                    src_port: pre.id.local_port,
                    dst_port: pre.id.peer_port,
                    addr,
                    port,
                    result: code,
                },
            ))
            &&& code == 0 || (code < 0 && addr == 0 && port == 0)
        }
}

/// Ask the host for the peer of one stream proxy and queue the
/// `GetPeername` reply.
pub fn getpeername_and_reply(p: &mut ProxyInstance)
    requires
        old(p).wf(),
        old(p).type_ == ProxyType::Stream,
    ensures
        final(p).wf(),
        same_identity(*old(p), *final(p)),
        counters_kept(*old(p), *final(p)),
        final(p).status == old(p).status,
        getpeername_replied(*old(p), *final(p)),
{
    let (addr, port, code): (u32, u16, i32) = match p.getpeername() {
        Ok((a, pt)) => (a, pt, 0),
        Err(e) => (0, 0, -e),
    };
    let reply = TsiResponse::GetPeername(GetPeernameResult {
        src_port: p.id.local_port,
        dst_port: p.id.peer_port,
        addr,
        port,
        result: code,
    });
    p.resp_queue.push_back(reply);
    proof {
        assert(getpeername_replied(*old(p), *p)) by {
            assert(p.resp_queue@ == old(p).resp_queue@.push(TsiResponse::GetPeername(
                GetPeernameResult {
                    src_port: old(p).id.local_port,
                    dst_port: old(p).id.peer_port,
                    addr,
                    port,
                    result: code,
                },
            )));
        }
    }
}

} // verus!
