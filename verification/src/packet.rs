//! A plain-value view of one vsock packet: the header fields the TSI core
//! reads and writes, and the payload as owned bytes.
//!
//! The transport that frames packets in guest memory is an external
//! collaborator; the glue that copies between its packet type and this one
//! stays outside the verified core.

use vstd::prelude::*;

verus! {

/// One vsock packet as the TSI core sees it: header fields plus an optional
/// payload. `len` is the number of payload bytes in use, which may be
/// smaller than the payload buffer.
pub struct VsockPkt {
    pub src_cid: u64,
    pub dst_cid: u64,
    pub src_port: u32,
    pub dst_port: u32,
    pub type_: u16,
    pub op: u16,
    pub buf_alloc: u32,
    pub fwd_cnt: u32,
    pub len: u32,
    pub data: Option<Vec<u8>>,
}

impl VsockPkt {
    /// A packet with every header field zero and a zero-filled payload
    /// buffer of `data_len` bytes.
    pub fn zeroed(data_len: usize) -> (r: VsockPkt)
        ensures
            r.src_cid == 0,
            r.dst_cid == 0,
            r.src_port == 0,
            r.dst_port == 0,
            r.type_ == 0,
            r.op == 0,
            r.buf_alloc == 0,
            r.fwd_cnt == 0,
            r.len == 0,
            r.data matches Some(d) && d@ == Seq::new(data_len as nat, |i: int| 0u8),
    {
        let mut buf: Vec<u8> = Vec::new();
        let mut i: usize = 0;
        while i < data_len
            invariant
                i <= data_len,
                buf@ == Seq::new(i as nat, |j: int| 0u8),
            decreases data_len - i,
        {
            buf.push(0);
            proof {
                assert(buf@ =~= Seq::new((i + 1) as nat, |j: int| 0u8));
            }
            i = i + 1;
        }
        VsockPkt {
            src_cid: 0,
            dst_cid: 0,
            src_port: 0,
            dst_port: 0,
            type_: 0,
            op: 0,
            buf_alloc: 0,
            fwd_cnt: 0,
            len: 0,
            data: Some(buf),
        }
    }
}

} // verus!
