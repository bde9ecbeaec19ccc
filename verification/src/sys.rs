//! Trusted wrappers around the host socket calls of the `nix` crate.
//!
//! Each wrapper makes exactly one kind of host call and converts between
//! the crate's plain values and nix's types; errors travel as raw `errno`
//! codes, which POSIX keeps positive on a failing call. nix maps an errno
//! it does not recognize to zero, so the conversion pins that corner to
//! `EINVAL` and the codes stay positive. What a call returns is the
//! host's decision, so the contracts state only what holds of every
//! outcome.

use nix::errno::Errno;
use nix::fcntl::{fcntl, FcntlArg, OFlag};
use nix::sys::socket::{
    accept, bind, connect, getpeername, listen, recv, send, socket, AddressFamily, MsgFlags,
    SockFlag, SockType, SockaddrIn, SockaddrStorage,
};
use nix::unistd::close;
use vstd::prelude::*;

verus! {

/// Relies on nix's `socket` with `AF_INET`, `SOCK_STREAM` and
/// `SOCK_NONBLOCK`: on success the returned descriptor is nonnegative.
#[verifier::external_body]
pub(crate) fn sock_stream_nonblock() -> (r: Result<i32, i32>)
    ensures
        r matches Ok(fd) ==> fd >= 0,
        r matches Err(e) ==> e > 0,
{
    socket(AddressFamily::Inet, SockType::Stream, SockFlag::SOCK_NONBLOCK, None).map_err(
        |e| if e as i32 > 0 { e as i32 } else { Errno::EINVAL as i32 },
    )
}

/// Relies on nix's `socket` with `AF_INET` and `SOCK_DGRAM`: on success the
/// returned descriptor is nonnegative.
#[verifier::external_body]
pub(crate) fn sock_dgram() -> (r: Result<i32, i32>)
    ensures
        r matches Ok(fd) ==> fd >= 0,
        r matches Err(e) ==> e > 0,
{
    socket(AddressFamily::Inet, SockType::Datagram, SockFlag::empty(), None).map_err(|e| if e as i32 > 0 { e as i32 } else { Errno::EINVAL as i32 })
}

/// Relies on nix's `fcntl`, fetching the file flags with `F_GETFL` and
/// setting them again with `F_SETFL` and `O_NONBLOCK` added.
#[verifier::external_body]
pub(crate) fn sock_set_nonblock(fd: i32) -> (r: Result<(), i32>)
    ensures
        r matches Err(e) ==> e > 0,
{
    let bits = match fcntl(fd, FcntlArg::F_GETFL) {
        Ok(b) => b,
        Err(e) => return Err(if e as i32 > 0 { e as i32 } else { Errno::EINVAL as i32 }),
    };
    let flags = OFlag::from_bits_truncate(bits);
    fcntl(fd, FcntlArg::F_SETFL(flags | OFlag::O_NONBLOCK)).map(|_| ()).map_err(|e| if e as i32 > 0 { e as i32 } else { Errno::EINVAL as i32 })
}

/// Relies on nix's `connect` with an IPv4 socket address built from the
/// given octets and port. The outcome is the host's; the error is its raw
/// `errno`.
#[verifier::external_body]
pub(crate) fn sock_connect(fd: i32, addr: &[u8; 4], port: u16) -> (r: Result<(), i32>)
    ensures
        r matches Err(e) ==> e > 0,
{
    let sa = SockaddrIn::new(addr[0], addr[1], addr[2], addr[3], port);
    connect(fd, &sa).map_err(|e| if e as i32 > 0 { e as i32 } else { Errno::EINVAL as i32 })
}

/// Relies on nix's `bind` with an IPv4 socket address built from the given
/// octets and port.
#[verifier::external_body]
pub(crate) fn sock_bind(fd: i32, addr: &[u8; 4], port: u16) -> (r: Result<(), i32>)
    ensures
        r matches Err(e) ==> e > 0,
{
    let sa = SockaddrIn::new(addr[0], addr[1], addr[2], addr[3], port);
    bind(fd, &sa).map_err(|e| if e as i32 > 0 { e as i32 } else { Errno::EINVAL as i32 })
}

/// Relies on nix's `listen` with the given backlog.
#[verifier::external_body]
pub(crate) fn sock_listen(fd: i32, backlog: i32) -> (r: Result<(), i32>)
    ensures
        r matches Err(e) ==> e > 0,
{
    listen(fd, backlog as usize).map_err(|e| if e as i32 > 0 { e as i32 } else { Errno::EINVAL as i32 })
}

/// Relies on nix's `accept`: on success the returned descriptor is a
/// fresh nonnegative one, owned by the caller and distinct from the
/// listening descriptor, which stays open.
#[verifier::external_body]
pub(crate) fn sock_accept(fd: i32) -> (r: Result<i32, i32>)
    ensures
        r matches Ok(nfd) ==> nfd >= 0 && nfd != fd,
        r matches Err(e) ==> e > 0,
{
    accept(fd).map_err(|e| if e as i32 > 0 { e as i32 } else { Errno::EINVAL as i32 })
}

/// Relies on nix's `getpeername`: on success the peer's IPv4 address in
/// native byte order with its port, or `EADDRNOTAVAIL` when the peer has
/// no IPv4 address.
#[verifier::external_body]
pub(crate) fn sock_getpeername(fd: i32) -> (r: Result<(u32, u16), i32>)
    ensures
        r matches Err(e) ==> e > 0,
{
    match getpeername::<SockaddrStorage>(fd) {
        Ok(ss) => match ss.as_sockaddr_in() {
            Some(sin) => Ok((sin.ip(), sin.port())),
            None => Err(Errno::EADDRNOTAVAIL as i32),
        },
        Err(e) => Err(if e as i32 > 0 { e as i32 } else { Errno::EINVAL as i32 }),
    }
}

/// Relies on nix's `send` with `MSG_NOSIGNAL`: on success the host accepted
/// that many bytes, at most the length handed in.
#[verifier::external_body]
pub(crate) fn sock_send(fd: i32, data: &Vec<u8>) -> (r: Result<usize, i32>)
    ensures
        r matches Ok(n) ==> n <= data@.len(),
        r matches Err(e) ==> e > 0,
{
    send(fd, data.as_slice(), MsgFlags::MSG_NOSIGNAL).map_err(|e| if e as i32 > 0 { e as i32 } else { Errno::EINVAL as i32 })
}

/// Relies on nix's `recv`: on success that many bytes, at most the buffer's
/// length, were received into its front; the buffer keeps its length either
/// way.
#[verifier::external_body]
pub(crate) fn sock_recv(fd: i32, buf: &mut Vec<u8>) -> (r: Result<usize, i32>)
    ensures
        final(buf)@.len() == old(buf)@.len(),
        r matches Ok(n) ==> n <= old(buf)@.len(),
        r matches Err(e) ==> e > 0,
{
    recv(fd, buf.as_mut_slice(), MsgFlags::empty()).map_err(|e| if e as i32 > 0 { e as i32 } else { Errno::EINVAL as i32 })
}

/// Relies on nix's `close`. A failed close on release has no recovery
/// path, so the result is dropped.
#[verifier::external_body]
pub(crate) fn sock_close(fd: i32) {
    let _ = close(fd);
}

} // verus!
