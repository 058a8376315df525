//! Channel factory and endpoint serialization.
//!
//! A channel is one listener and two paired connectors, backed by OS-level
//! unix stream sockets. The channel is split exactly once — splitting
//! consumes it — and each end can be serialized into a token that a
//! separate process, sharing no other state, can use to reconstruct a
//! reference to the same underlying channel end.

use crate::decimal::{all_digit_bytes, dec_rep, dec_val, lemma_dec_rep_val, parse_dec, u32_to_dec};
use crate::errors::CrashHelperError;
use rustix::fd::IntoRawFd;
use vstd::prelude::*;

verus! {

/// Relies on nix::sys::socket::socket: on success the result is a fresh
/// unix stream socket, whose descriptor number is nonnegative; on failure
/// the OS error number is returned.
#[verifier::external_body]
fn socket_raw() -> (r: Result<i32, i32>)
    ensures
        r matches Ok(fd) ==> 0 <= fd,
{
    match nix::sys::socket::socket(
        nix::sys::socket::AddressFamily::Unix,
        nix::sys::socket::SockType::Stream,
        nix::sys::socket::SockFlag::empty(),
        None,
    ) {
        Ok(fd) => Ok(fd.into_raw_fd()),
        Err(e) => Err(e as i32),
    }
}

/// Relies on nix::sys::socket::socketpair: on success the two descriptors
/// are a connected pair of fresh unix stream sockets, nonnegative and
/// distinct; on failure the OS error number is returned.
#[verifier::external_body]
fn socketpair_raw() -> (r: Result<(i32, i32), i32>)
    ensures
        r matches Ok(p) ==> 0 <= p.0 && 0 <= p.1 && p.0 != p.1,
{
    match nix::sys::socket::socketpair(
        nix::sys::socket::AddressFamily::Unix,
        nix::sys::socket::SockType::Stream,
        None,
        nix::sys::socket::SockFlag::empty(),
    ) {
        Ok((a, b)) => Ok((a.into_raw_fd(), b.into_raw_fd())),
        Err(e) => Err(e as i32),
    }
}

/// Relies on nix::unistd::close: releases the descriptor. A failure to
/// close is ignored, as on any teardown path.
#[verifier::external_body]
pub(crate) fn close_fd(fd: i32)
    requires
        0 <= fd,
{
    let _ = nix::unistd::close(fd);
}

/// The passive end of a channel: a rendezvous object bound to an OS-level
/// transport resource. Ownership transfers entirely to the helper process
/// once it is launched.
pub struct IPCListener {
    fd: i32,
}

/// One active end of a duplex channel. Two exist per channel: the server
/// side travels to the helper, the client side stays with the handle.
pub struct IPCConnector {
    fd: i32,
}

impl IPCListener {
    /// The descriptor number backing this listener.
    pub closed spec fn raw_fd(&self) -> int {
        self.fd as int
    }

    /// A listener is well formed when it holds a real descriptor.
    pub open spec fn wf(&self) -> bool {
        0 <= self.raw_fd()
    }

    /// Encodes this listener into a transport-safe token: the decimal
    /// rendering of its descriptor number. Deterministic and lossless.
    pub fn serialize(&self) -> (r: Vec<u8>)
        requires
            self.wf(),
        ensures
            r@ == dec_rep(self.raw_fd()),
    {
        u32_to_dec(self.fd as u32)
    }

    /// Reconstructs a listener from a token, exactly when the token is a
    /// decimal rendering of a descriptor number.
    pub fn deserialize(token: &Vec<u8>) -> (r: Option<IPCListener>)
        ensures
            match r {
                Some(l) => l.wf() && token@.len() > 0 && all_digit_bytes(token@) && dec_val(
                    token@,
                ) == l.raw_fd(),
                None => token@.len() == 0 || !all_digit_bytes(token@) || dec_val(token@)
                    > i32::MAX as int,
            },
    {
        match parse_dec(token) {
            Some(v) => if v <= i32::MAX as u32 {
                Some(IPCListener { fd: v as i32 })
            } else {
                None
            },
            None => None,
        }
    }

    /// Releases the transport resource behind this listener.
    pub fn close(self)
        requires
            self.wf(),
    {
        close_fd(self.fd);
    }
}

impl IPCConnector {
    /// The descriptor number backing this connector.
    pub closed spec fn raw_fd(&self) -> int {
        self.fd as int
    }

    /// A connector is well formed when it holds a real descriptor.
    pub open spec fn wf(&self) -> bool {
        0 <= self.raw_fd()
    }

    /// Encodes this connector into a transport-safe token: the decimal
    /// rendering of its descriptor number. Deterministic and lossless.
    pub fn serialize(&self) -> (r: Vec<u8>)
        requires
            self.wf(),
        ensures
            r@ == dec_rep(self.raw_fd()),
    {
        u32_to_dec(self.fd as u32)
    }

    /// Reconstructs a connector from a token, exactly when the token is a
    /// decimal rendering of a descriptor number.
    pub fn deserialize(token: &Vec<u8>) -> (r: Option<IPCConnector>)
        ensures
            match r {
                Some(c) => c.wf() && token@.len() > 0 && all_digit_bytes(token@) && dec_val(
                    token@,
                ) == c.raw_fd(),
                None => token@.len() == 0 || !all_digit_bytes(token@) || dec_val(token@)
                    > i32::MAX as int,
            },
    {
        match parse_dec(token) {
            Some(v) => if v <= i32::MAX as u32 {
                Some(IPCConnector { fd: v as i32 })
            } else {
                None
            },
            None => None,
        }
    }

    /// Releases the transport resource behind this connector.
    pub fn close(self)
        requires
            self.wf(),
    {
        close_fd(self.fd);
    }
}

/// Law: reconstruction undoes serialization. The token rendered from any
/// valid descriptor number is nonempty, all digits, and parses back to
/// exactly that number — so a channel end rebuilt from its token refers to
/// the same underlying transport resource as the original.
pub proof fn lemma_token_round_trip(fd: int)
    requires
        0 <= fd <= i32::MAX as int,
    ensures
        dec_rep(fd).len() > 0,
        all_digit_bytes(dec_rep(fd)),
        dec_val(dec_rep(fd)) == fd,
{
    lemma_dec_rep_val(fd);
}

/// A transient, unconnected channel: exactly one listener and the two
/// paired connectors. Consumed exactly once by `deconstruct`; never
/// accessible after the split.
pub struct IPCChannel {
    listener: IPCListener,
    server_endpoint: IPCConnector,
    client_endpoint: IPCConnector,
}

impl IPCChannel {
    /// The listener this channel was allocated with.
    pub closed spec fn spec_listener(&self) -> IPCListener {
        self.listener
    }

    /// The server-side connector this channel was allocated with.
    pub closed spec fn spec_server_endpoint(&self) -> IPCConnector {
        self.server_endpoint
    }

    /// The client-side connector this channel was allocated with.
    pub closed spec fn spec_client_endpoint(&self) -> IPCConnector {
        self.client_endpoint
    }

    /// A channel is well formed when all three ends hold real descriptors.
    pub open spec fn wf(&self) -> bool {
        self.spec_listener().wf() && self.spec_server_endpoint().wf()
            && self.spec_client_endpoint().wf()
    }

    /// Allocates a fresh, unconnected channel. Fails with a
    /// Channel-Creation error exactly when the OS cannot allocate the
    /// transport; on such a failure nothing stays allocated.
    pub fn new() -> (r: Result<IPCChannel, CrashHelperError>)
        ensures
            r matches Ok(c) ==> c.wf(),
            r matches Err(e) ==> e is ChannelCreation,
    {
        let listener_fd = match socket_raw() {
            Ok(fd) => fd,
            Err(e) => return Err(CrashHelperError::ChannelCreation(e)),
        };
        match socketpair_raw() {
            Ok((server_fd, client_fd)) => Ok(
                IPCChannel {
                    listener: IPCListener { fd: listener_fd },
                    server_endpoint: IPCConnector { fd: server_fd },
                    client_endpoint: IPCConnector { fd: client_fd },
                },
            ),
            Err(e) => {
                close_fd(listener_fd);
                Err(CrashHelperError::ChannelCreation(e))
            },
        }
    }

    /// Splits the channel into its three ends. Consuming `self` makes a
    /// second split of the same channel impossible by ownership, not by
    /// convention.
    pub fn deconstruct(self) -> (r: (IPCListener, IPCConnector, IPCConnector))
        ensures
            r.0 == self.spec_listener(),
            r.1 == self.spec_server_endpoint(),
            r.2 == self.spec_client_endpoint(),
    {
        (self.listener, self.server_endpoint, self.client_endpoint)
    }
}

} // verus!
