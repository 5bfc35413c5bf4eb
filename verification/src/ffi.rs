//! What is handed to VPP's communications library, as plain values.
//!
//! A [`VclCall`] holds the arguments of one call into `libvppcom`. Making the
//! call, with the pointers and buffers it takes, is left to the code around
//! this crate.
#![allow(non_camel_case_types)]

use vstd::prelude::*;

verus! {

pub const VPPCOM_PROTO_TCP: u8 = 0;

pub const VPPCOM_PROTO_UDP: u8 = 1;

// Session attribute operations.
pub const VPPCOM_ATTR_GET_FLAGS: u32 = 2;

pub const VPPCOM_ATTR_SET_FLAGS: u32 = 3;

pub const VPPCOM_ATTR_GET_LCL_ADDR: u32 = 4;

pub const VPPCOM_ATTR_GET_PEER_ADDR: u32 = 6;

pub const VPPCOM_ATTR_SET_TCP_NODELAY: u32 = 27;

// Epoll operations (the values of Linux).
pub const EPOLL_CTL_ADD: i32 = 1;

pub const EPOLL_CTL_DEL: i32 = 2;

pub const EPOLL_CTL_MOD: i32 = 3;

// Epoll event flags.
pub const EPOLLIN: u32 = 0x001;

pub const EPOLLOUT: u32 = 0x004;

pub const EPOLLHUP: u32 = 0x010;

pub const EPOLLRDHUP: u32 = 0x2000;

pub const EPOLLET: u32 = 0x8000_0000;

/// What a session in use is watched for: readable, writable, edge-triggered.
pub const SESSION_EVENTS: u32 = EPOLLIN | EPOLLOUT | EPOLLET;

/// What a session is watched for while VPP confirms its bind.
pub const BIND_EVENTS: u32 = EPOLLIN | EPOLLOUT | EPOLLHUP | EPOLLRDHUP | EPOLLET;

/// The flag that puts a session into non-blocking mode, as on Linux.
pub const O_NONBLOCK: u32 = 0x800;

/// Endpoint descriptor of bind, connect, accept and the datagram calls.
///
/// The address octets lie in a 16-octet buffer beside it: four of them for
/// IPv4, all for IPv6. The port is kept as the two octets of network order.
#[derive(Debug, Clone, Copy, PartialEq, Eq)]
pub struct vppcom_endpt_t {
    pub unused: u8,
    pub is_ip4: u8,
    pub port: [u8; 2],
    pub unused2: u64,
    pub app_tlv_len: u32,
}

/// The descriptor handed to a call that fills it in.
pub open spec fn empty_endpoint() -> vppcom_endpt_t {
    vppcom_endpt_t { unused: 0, is_ip4: 1, port: [0, 0], unused2: 0, app_tlv_len: 0 }
}

impl Default for vppcom_endpt_t {
    fn default() -> (ep: vppcom_endpt_t)
        ensures
            ep == empty_endpoint(),
    {
        vppcom_endpt_t { unused: 0, is_ip4: 1, port: [0, 0], unused2: 0, app_tlv_len: 0 }
    }
}

/// One readiness event: the flags, and the session handle as its data.
#[derive(Debug, Clone, Copy, PartialEq, Eq)]
pub struct epoll_event {
    pub events: u32,
    pub data: u64,
}

/// The buffer of a session attribute call.
#[derive(Debug, Clone, Copy, PartialEq, Eq)]
pub enum AttrBuffer {
    /// A 32-bit word to set.
    Word(u32),
    /// An endpoint for the call to fill in.
    Endpoint(vppcom_endpt_t),
}

/// The half of a session that is shut down.
#[derive(Debug, Clone, Copy, PartialEq, Eq)]
pub enum ShutdownHalf {
    /// Nothing more is written; `SHUT_WR` of the host's C library.
    Write,
}

/// The arguments of one call into `libvppcom`.
#[derive(Debug, Clone, Copy, PartialEq, Eq)]
#[allow(inconsistent_fields)]
pub enum VclCall {
    AppDestroy,
    SessionCreate { proto: u8, is_nonblocking: u8 },
    SessionClose { session: u32 },
    SessionShutdown { session: u32, half: ShutdownHalf },
    SessionBind { session: u32, endpoint: vppcom_endpt_t, ip: [u8; 16] },
    SessionListen { session: u32, queue_len: u32 },
    SessionAccept { session: u32, endpoint: vppcom_endpt_t, flags: u32 },
    SessionConnect { session: u32, endpoint: vppcom_endpt_t, ip: [u8; 16] },
    SessionRead { session: u32, len: usize },
    SessionWrite { session: u32, len: usize },
    SessionRecvfrom { session: u32, len: u32, flags: u32, endpoint: vppcom_endpt_t },
    SessionSendto {
        session: u32,
        len: u32,
        flags: u32,
        endpoint: vppcom_endpt_t,
        ip: [u8; 16],
    },
    SessionAttr { session: u32, op: u32, buffer: AttrBuffer },
    EpollCtl { vep: u32, op: i32, session: u32, event: Option<epoll_event> },
    EpollWait { vep: u32, max_events: u32, wait_ms: u32 },
}

/// The numbers that `libvppcom` and Linux give these operations and flags, and that no two
/// operations of a kind share one.
pub proof fn operations_have_their_numbers()
    ensures
        VPPCOM_PROTO_TCP == 0 && VPPCOM_PROTO_UDP == 1,
        VPPCOM_ATTR_GET_FLAGS == 2 && VPPCOM_ATTR_SET_FLAGS == 3 && VPPCOM_ATTR_GET_LCL_ADDR == 4
            && VPPCOM_ATTR_GET_PEER_ADDR == 6 && VPPCOM_ATTR_SET_TCP_NODELAY == 27,
        EPOLL_CTL_ADD == 1 && EPOLL_CTL_DEL == 2 && EPOLL_CTL_MOD == 3,
        EPOLLIN == 0x001 && EPOLLOUT == 0x004 && EPOLLHUP == 0x010 && EPOLLRDHUP == 0x2000
            && EPOLLET == 0x8000_0000,
        O_NONBLOCK == 0x800,
{
}

/// A session in use is watched for reads and writes, on each change; one whose bind is
/// being confirmed for hang-ups too.
pub proof fn sessions_are_watched_for_changes()
    ensures
        SESSION_EVENTS == 0x8000_0005,
        BIND_EVENTS == 0x8000_2015,
{
    assert(0x001u32 | 0x004u32 | 0x8000_0000u32 == 0x8000_0005u32) by (bit_vector);
    assert(0x001u32 | 0x004u32 | 0x010u32 | 0x2000u32 | 0x8000_0000u32 == 0x8000_2015u32)
        by (bit_vector);
}

/// An endpoint that a call is to fill in tells of no port, and of IPv4 until the call says
/// otherwise.
pub proof fn empty_endpoint_names_no_port(i: int)
    requires
        0 <= i < 2,
    ensures
        empty_endpoint().port@[i] == 0,
        empty_endpoint().is_ip4 == 1,
        empty_endpoint().unused == 0 && empty_endpoint().unused2 == 0
            && empty_endpoint().app_tlv_len == 0,
{
}

} // verus!
