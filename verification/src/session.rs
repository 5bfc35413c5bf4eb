//! VCL session: the low-level handle around a single `vppcom_session_*`
//! lifecycle.
//!
//! Each operation is in two halves. The method named after the operation gives
//! the call to make; `created`, `done`, `count`, `accepted`, `datagram` and
//! `address` turn what the call returned into a result. Each of these goes by the
//! error numbers of the host, and has a form that goes by given ones.

use vstd::prelude::*;

use crate::addr::{u16_from_be, u16_to_be, IpAddr, SocketAddr};
#[allow(unused_imports)]
use crate::addr::{be16, be16_round_trips, from_be16};
use crate::error::{host_errnos, ErrnoCodes, Result, VclError};
#[allow(unused_imports)]
use crate::error::{classified, classify, text_view};
use crate::ffi::{epoll_event, vppcom_endpt_t, AttrBuffer, ShutdownHalf, VclCall, EPOLL_CTL_ADD};
use crate::ffi::{
    O_NONBLOCK, VPPCOM_ATTR_GET_LCL_ADDR, VPPCOM_ATTR_GET_PEER_ADDR, VPPCOM_ATTR_SET_FLAGS,
    VPPCOM_ATTR_SET_TCP_NODELAY, VPPCOM_PROTO_TCP, VPPCOM_PROTO_UDP,
};
#[allow(unused_imports)]
use crate::ffi::empty_endpoint;

verus! {

/// The handle of a session.
#[derive(Debug, Clone, Copy, PartialEq, Eq)]
pub struct SessionHandle(pub u32);

/// The descriptor of `addr`, without the address octets.
pub open spec fn describes(ep: vppcom_endpt_t, addr: SocketAddr) -> bool {
    &&& ep.unused == 0
    &&& ep.is_ip4 == (if addr.ip is V4 { 1u8 } else { 0u8 })
    &&& ep.port@ == be16(addr.port)
    &&& ep.unused2 == 0
    &&& ep.app_tlv_len == 0
}

/// The 16-octet buffer after the octets of `ip` were laid at its start.
pub open spec fn laid_over(ip: IpAddr, buf: Seq<u8>) -> Seq<u8> {
    ip.octets() + buf.skip(ip.octets().len() as int)
}

/// `addr` is the address that the descriptor and the octets beside it stand
/// for.
pub open spec fn stands_for(ep: vppcom_endpt_t, ip_buf: Seq<u8>, addr: SocketAddr) -> bool {
    &&& addr.port == from_be16(ep.port@[0], ep.port@[1])
    &&& match addr.ip {
        IpAddr::V4(octets) => ep.is_ip4 != 0 && octets@ == ip_buf.take(4),
        IpAddr::V6(octets) => ep.is_ip4 == 0 && octets@ == ip_buf,
    }
}

/// `call` connects, binds or sends to `addr`: descriptor and octets are those
/// of `addr` over zeroed octets.
pub open spec fn names(ep: vppcom_endpt_t, ip: [u8; 16], addr: SocketAddr) -> bool {
    describes(ep, addr) && ip@ == laid_over(addr.ip, Seq::new(16, |i: int| 0u8))
}

/// The result of a call that failed with `rc`, on a host whose error numbers are
/// `codes`.
pub open spec fn failed_with<T>(
    codes: ErrnoCodes,
    rc: i32,
    known: Option<&str>,
    r: Result<T>,
) -> bool {
    r matches Err(e) && e@ == classify(codes, rc, text_view(known))
}

/// The result of a call that failed with `rc`, whatever numbers the host gives its
/// errors.
pub open spec fn failed<T>(rc: i32, known: Option<&str>, r: Result<T>) -> bool {
    r matches Err(e) && classified(rc, text_view(known), e@)
}

/// Builds the descriptor of `addr` and lays its octets into `ip_buf`.
///
/// IPv4 addresses populate the first 4 octets and leave the others as they
/// were; IPv6 fills all 16.
pub fn endpoint_into_buf(addr: SocketAddr, ip_buf: &mut [u8; 16]) -> (ep: vppcom_endpt_t)
    ensures
        describes(ep, addr),
        final(ip_buf)@ == laid_over(addr.ip, old(ip_buf)@),
{
    let is_ip4: u8 = match addr.ip {
        IpAddr::V4(octets) => {
            let mut i: usize = 0;
            while i < 4
                invariant
                    i <= 4,
                    forall|j: int| 0 <= j < i ==> ip_buf@[j] == octets@[j],
                    forall|j: int| i <= j < 16 ==> ip_buf@[j] == old(ip_buf)@[j],
                decreases 4 - i,
            {
                ip_buf[i] = octets[i];
                i = i + 1;
            }
            1u8
        },
        IpAddr::V6(octets) => {
            *ip_buf = octets;
            0u8
        },
    };
    assert(ip_buf@ =~= laid_over(addr.ip, old(ip_buf)@));
    vppcom_endpt_t { unused: 0, is_ip4, port: u16_to_be(addr.port), unused2: 0, app_tlv_len: 0 }
}

/// The address that a descriptor and the octets beside it stand for.
pub fn addr_from_endpoint(ep: &vppcom_endpt_t, ip_buf: &[u8; 16]) -> (addr: SocketAddr)
    ensures
        stands_for(*ep, ip_buf@, addr),
{
    let port = u16_from_be(ep.port);
    if ep.is_ip4 != 0 {
        let octets: [u8; 4] = [ip_buf[0], ip_buf[1], ip_buf[2], ip_buf[3]];
        assert(octets@ =~= ip_buf@.take(4));
        SocketAddr { ip: IpAddr::V4(octets), port }
    } else {
        SocketAddr { ip: IpAddr::V6(*ip_buf), port }
    }
}

/// The descriptor of `addr` and its octets, in a buffer of zeros.
fn endpoint(addr: SocketAddr) -> (r: (vppcom_endpt_t, [u8; 16]))
    ensures
        names(r.0, r.1, addr),
{
    let mut ip_buf: [u8; 16] = [0u8; 16];
    assert(ip_buf@ =~= Seq::new(16, |i: int| 0u8));
    let ep = endpoint_into_buf(addr, &mut ip_buf);
    (ep, ip_buf)
}

/// The low 32 bits of a length, which is how the datagram calls take it.
fn low_word(len: usize) -> (word: u32)
    ensures
        word == len as int % 0x1_0000_0000,
{
    ((len as u64) % 0x1_0000_0000) as u32
}

/// Waits on the epoll set `vep` for at most `wait_ms` milliseconds, and takes at most
/// `max_events` events from it.
pub fn epoll_wait(vep: u32, max_events: u32, wait_ms: u32) -> (call: VclCall)
    ensures
        call == (VclCall::EpollWait { vep, max_events, wait_ms }),
{
    VclCall::EpollWait { vep, max_events, wait_ms }
}

/// The calls that close what an operation held: the epoll set first, where it had
/// one, and the session last.
pub fn closing(epoll: Option<u32>, session: SessionHandle) -> (calls: Vec<VclCall>)
    ensures
        calls@ == (match epoll {
            Some(vep) => seq![
                VclCall::SessionClose { session: vep },
                VclCall::SessionClose { session: session.0 },
            ],
            None => seq![VclCall::SessionClose { session: session.0 }],
        }),
{
    let mut calls: Vec<VclCall> = Vec::new();
    if let Some(vep) = epoll {
        calls.push(VclCall::SessionClose { session: vep });
    }
    calls.push(session.close());
    calls
}

impl SessionHandle {
    /// Opens a TCP session.
    pub fn create_tcp(nonblocking: bool) -> (call: VclCall)
        ensures
            call == (VclCall::SessionCreate {
                proto: VPPCOM_PROTO_TCP,
                is_nonblocking: if nonblocking { 1 } else { 0 },
            }),
    {
        VclCall::SessionCreate {
            proto: VPPCOM_PROTO_TCP,
            is_nonblocking: if nonblocking { 1 } else { 0 },
        }
    }

    /// Opens a UDP session.
    pub fn create_udp(nonblocking: bool) -> (call: VclCall)
        ensures
            call == (VclCall::SessionCreate {
                proto: VPPCOM_PROTO_UDP,
                is_nonblocking: if nonblocking { 1 } else { 0 },
            }),
    {
        VclCall::SessionCreate {
            proto: VPPCOM_PROTO_UDP,
            is_nonblocking: if nonblocking { 1 } else { 0 },
        }
    }

    /// Closes the session.
    pub fn close(&self) -> (call: VclCall)
        ensures
            call == (VclCall::SessionClose { session: self.0 }),
    {
        VclCall::SessionClose { session: self.0 }
    }

    /// Binds the session to `addr`.
    pub fn bind(&self, addr: SocketAddr) -> (call: VclCall)
        ensures
            call matches VclCall::SessionBind { session, endpoint, ip } && session == self.0
                && names(endpoint, ip, addr),
    {
        let (ep, ip) = endpoint(addr);
        VclCall::SessionBind { session: self.0, endpoint: ep, ip }
    }

    /// Puts the session into the listening state.
    pub fn listen(&self, backlog: u32) -> (call: VclCall)
        ensures
            call == (VclCall::SessionListen { session: self.0, queue_len: backlog }),
    {
        VclCall::SessionListen { session: self.0, queue_len: backlog }
    }

    /// Takes the next incoming connection; the call fills in the peer.
    pub fn accept(&self) -> (call: VclCall)
        ensures
            call == (VclCall::SessionAccept {
                session: self.0,
                endpoint: empty_endpoint(),
                flags: 0,
            }),
    {
        VclCall::SessionAccept { session: self.0, endpoint: vppcom_endpt_t::default(), flags: 0 }
    }

    /// Connects the session to `addr`.
    pub fn connect(&self, addr: SocketAddr) -> (call: VclCall)
        ensures
            call matches VclCall::SessionConnect { session, endpoint, ip } && session == self.0
                && names(endpoint, ip, addr),
    {
        let (ep, ip) = endpoint(addr);
        VclCall::SessionConnect { session: self.0, endpoint: ep, ip }
    }

    /// Reads up to `len` bytes.
    pub fn read(&self, len: usize) -> (call: VclCall)
        ensures
            call == (VclCall::SessionRead { session: self.0, len }),
    {
        VclCall::SessionRead { session: self.0, len }
    }

    /// Writes up to `len` bytes.
    pub fn write(&self, len: usize) -> (call: VclCall)
        ensures
            call == (VclCall::SessionWrite { session: self.0, len }),
    {
        VclCall::SessionWrite { session: self.0, len }
    }

    /// Receives one datagram into a buffer of `len` bytes; the call fills in
    /// the sender.
    pub fn recvfrom(&self, len: usize) -> (call: VclCall)
        ensures
            call == (VclCall::SessionRecvfrom {
                session: self.0,
                len: (len as int % 0x1_0000_0000) as u32,
                flags: 0,
                endpoint: empty_endpoint(),
            }),
    {
        VclCall::SessionRecvfrom {
            session: self.0,
            len: low_word(len),
            flags: 0,
            endpoint: vppcom_endpt_t::default(),
        }
    }

    /// Sends one datagram of `len` bytes to `dst`.
    pub fn sendto(&self, len: usize, dst: SocketAddr) -> (call: VclCall)
        ensures
            call matches VclCall::SessionSendto { session, len: sent, flags, endpoint, ip }
                && session == self.0 && sent == len as int % 0x1_0000_0000 && flags == 0 && names(
                endpoint,
                ip,
                dst,
            ),
    {
        let (ep, ip) = endpoint(dst);
        VclCall::SessionSendto {
            session: self.0,
            len: low_word(len),
            flags: 0,
            endpoint: ep,
            ip,
        }
    }

    /// Turns off the delaying of small TCP segments.
    pub fn set_nodelay(&self) -> (call: VclCall)
        ensures
            call == (VclCall::SessionAttr {
                session: self.0,
                op: VPPCOM_ATTR_SET_TCP_NODELAY,
                buffer: AttrBuffer::Word(1),
            }),
    {
        VclCall::SessionAttr {
            session: self.0,
            op: VPPCOM_ATTR_SET_TCP_NODELAY,
            buffer: AttrBuffer::Word(1),
        }
    }

    /// Puts the session into non-blocking mode.
    ///
    /// Accepting produces a session with blocking semantics, and a blocking
    /// read parks the calling thread inside `libvppcom` until data arrives,
    /// with every other task of that thread. In non-blocking mode a read
    /// returns `WouldBlock` instead.
    pub fn set_nonblocking(&self) -> (call: VclCall)
        ensures
            call == (VclCall::SessionAttr {
                session: self.0,
                op: VPPCOM_ATTR_SET_FLAGS,
                buffer: AttrBuffer::Word(O_NONBLOCK),
            }),
    {
        VclCall::SessionAttr {
            session: self.0,
            op: VPPCOM_ATTR_SET_FLAGS,
            buffer: AttrBuffer::Word(O_NONBLOCK),
        }
    }

    /// Looks whether the session's handshake has completed: a read of no bytes,
    /// which takes nothing and fails with `NotConnected` until then.
    pub fn look(&self) -> (call: VclCall)
        ensures
            call == (VclCall::SessionRead { session: self.0, len: 0 }),
    {
        VclCall::SessionRead { session: self.0, len: 0 }
    }

    /// Shuts the writing half of the session down.
    pub fn shutdown(&self) -> (call: VclCall)
        ensures
            call == (VclCall::SessionShutdown { session: self.0, half: ShutdownHalf::Write }),
    {
        VclCall::SessionShutdown { session: self.0, half: ShutdownHalf::Write }
    }

    /// Adds the session to the epoll set `vep`, to be watched for `events`, which
    /// then carry the session's handle.
    pub fn watch(&self, vep: u32, events: u32) -> (call: VclCall)
        ensures
            call == (VclCall::EpollCtl {
                vep,
                op: EPOLL_CTL_ADD,
                session: self.0,
                event: Some(epoll_event { events, data: self.0 as u64 }),
            }),
    {
        VclCall::EpollCtl {
            vep,
            op: EPOLL_CTL_ADD,
            session: self.0,
            event: Some(epoll_event { events, data: self.0 as u64 }),
        }
    }

    /// Asks for the session's local address.
    pub fn local_addr(&self) -> (call: VclCall)
        ensures
            call == (VclCall::SessionAttr {
                session: self.0,
                op: VPPCOM_ATTR_GET_LCL_ADDR,
                buffer: AttrBuffer::Endpoint(empty_endpoint()),
            }),
    {
        VclCall::SessionAttr {
            session: self.0,
            op: VPPCOM_ATTR_GET_LCL_ADDR,
            buffer: AttrBuffer::Endpoint(vppcom_endpt_t::default()),
        }
    }

    /// Asks for the address of the session's peer.
    pub fn peer_addr(&self) -> (call: VclCall)
        ensures
            call == (VclCall::SessionAttr {
                session: self.0,
                op: VPPCOM_ATTR_GET_PEER_ADDR,
                buffer: AttrBuffer::Endpoint(empty_endpoint()),
            }),
    {
        VclCall::SessionAttr {
            session: self.0,
            op: VPPCOM_ATTR_GET_PEER_ADDR,
            buffer: AttrBuffer::Endpoint(vppcom_endpt_t::default()),
        }
    }

    /// The session that a create call returned as `rc`, on a host whose error
    /// numbers are `codes`; `known` is the text that VCL knows for the code.
    pub fn created_with(
        rc: i32,
        codes: &ErrnoCodes,
        known: Option<&str>,
    ) -> (r: Result<SessionHandle>)
        ensures
            rc < 0 ==> failed_with(*codes, rc, known, r),
            rc >= 0 ==> (r matches Ok(session) && session == SessionHandle(rc as u32)),
    {
        if rc < 0 {
            return Err(VclError::from_rc_with(rc, codes, known));
        }
        Ok(SessionHandle(rc as u32))
    }

    /// The session that a create call returned as `rc`.
    pub fn created(rc: i32, known: Option<&str>) -> (r: Result<SessionHandle>)
        ensures
            rc < 0 ==> failed(rc, known, r),
            rc >= 0 ==> (r matches Ok(session) && session == SessionHandle(rc as u32)),
    {
        let codes = host_errnos();
        SessionHandle::created_with(rc, &codes, known)
    }

    /// The result of a call that returns nothing but success or failure, on a host
    /// whose error numbers are `codes`.
    pub fn done_with(rc: i32, codes: &ErrnoCodes, known: Option<&str>) -> (r: Result<()>)
        ensures
            rc < 0 ==> failed_with(*codes, rc, known, r),
            rc >= 0 ==> r is Ok,
    {
        if rc < 0 {
            return Err(VclError::from_rc_with(rc, codes, known));
        }
        Ok(())
    }

    /// The result of a call that returns nothing but success or failure.
    pub fn done(rc: i32, known: Option<&str>) -> (r: Result<()>)
        ensures
            rc < 0 ==> failed(rc, known, r),
            rc >= 0 ==> r is Ok,
    {
        let codes = host_errnos();
        SessionHandle::done_with(rc, &codes, known)
    }

    /// The result of a call that returns a number of bytes, on a host whose error
    /// numbers are `codes`.
    pub fn count_with(rc: i32, codes: &ErrnoCodes, known: Option<&str>) -> (r: Result<usize>)
        ensures
            rc < 0 ==> failed_with(*codes, rc, known, r),
            rc >= 0 ==> (r matches Ok(n) && n == rc),
    {
        if rc < 0 {
            return Err(VclError::from_rc_with(rc, codes, known));
        }
        Ok(rc as usize)
    }

    /// The result of a call that returns a number of bytes.
    pub fn count(rc: i32, known: Option<&str>) -> (r: Result<usize>)
        ensures
            rc < 0 ==> failed(rc, known, r),
            rc >= 0 ==> (r matches Ok(n) && n == rc),
    {
        let codes = host_errnos();
        SessionHandle::count_with(rc, &codes, known)
    }

    /// The result of an accept call that returned `rc` and filled in `ep` and
    /// `ip_buf`, on a host whose error numbers are `codes`: the new session and its
    /// peer.
    ///
    /// For a session between two applications of one VPP instance the peer
    /// comes back unspecified, which is no error.
    pub fn accepted_with(
        rc: i32,
        codes: &ErrnoCodes,
        known: Option<&str>,
        ep: &vppcom_endpt_t,
        ip_buf: &[u8; 16],
    ) -> (r: Result<(SessionHandle, SocketAddr)>)
        ensures
            rc < 0 ==> failed_with(*codes, rc, known, r),
            rc >= 0 ==> (r matches Ok(pair) && pair.0 == SessionHandle(rc as u32) && stands_for(
                *ep,
                ip_buf@,
                pair.1,
            )),
    {
        if rc < 0 {
            return Err(VclError::from_rc_with(rc, codes, known));
        }
        Ok((SessionHandle(rc as u32), addr_from_endpoint(ep, ip_buf)))
    }

    /// The result of an accept call that returned `rc` and filled in `ep` and
    /// `ip_buf`: the new session and its peer.
    pub fn accepted(
        rc: i32,
        known: Option<&str>,
        ep: &vppcom_endpt_t,
        ip_buf: &[u8; 16],
    ) -> (r: Result<(SessionHandle, SocketAddr)>)
        ensures
            rc < 0 ==> failed(rc, known, r),
            rc >= 0 ==> (r matches Ok(pair) && pair.0 == SessionHandle(rc as u32) && stands_for(
                *ep,
                ip_buf@,
                pair.1,
            )),
    {
        let codes = host_errnos();
        SessionHandle::accepted_with(rc, &codes, known, ep, ip_buf)
    }

    /// The result of a receive call that returned `rc` and filled in `ep` and
    /// `ip_buf`, on a host whose error numbers are `codes`: the length of the
    /// datagram and its sender.
    pub fn datagram_with(
        rc: i32,
        codes: &ErrnoCodes,
        known: Option<&str>,
        ep: &vppcom_endpt_t,
        ip_buf: &[u8; 16],
    ) -> (r: Result<(usize, SocketAddr)>)
        ensures
            rc < 0 ==> failed_with(*codes, rc, known, r),
            rc >= 0 ==> (r matches Ok(pair) && pair.0 == rc && stands_for(*ep, ip_buf@, pair.1)),
    {
        if rc < 0 {
            return Err(VclError::from_rc_with(rc, codes, known));
        }
        Ok((rc as usize, addr_from_endpoint(ep, ip_buf)))
    }

    /// The result of a receive call that returned `rc` and filled in `ep` and
    /// `ip_buf`: the length of the datagram and its sender.
    pub fn datagram(
        rc: i32,
        known: Option<&str>,
        ep: &vppcom_endpt_t,
        ip_buf: &[u8; 16],
    ) -> (r: Result<(usize, SocketAddr)>)
        ensures
            rc < 0 ==> failed(rc, known, r),
            rc >= 0 ==> (r matches Ok(pair) && pair.0 == rc && stands_for(*ep, ip_buf@, pair.1)),
    {
        let codes = host_errnos();
        SessionHandle::datagram_with(rc, &codes, known, ep, ip_buf)
    }

    /// The result of an address query that returned `rc` and filled in `ep` and
    /// `ip_buf`, on a host whose error numbers are `codes`.
    pub fn address_with(
        rc: i32,
        codes: &ErrnoCodes,
        known: Option<&str>,
        ep: &vppcom_endpt_t,
        ip_buf: &[u8; 16],
    ) -> (r: Result<SocketAddr>)
        ensures
            rc < 0 ==> failed_with(*codes, rc, known, r),
            rc >= 0 ==> (r matches Ok(addr) && stands_for(*ep, ip_buf@, addr)),
    {
        if rc < 0 {
            return Err(VclError::from_rc_with(rc, codes, known));
        }
        Ok(addr_from_endpoint(ep, ip_buf))
    }

    /// The result of an address query that returned `rc` and filled in `ep` and
    /// `ip_buf`.
    pub fn address(
        rc: i32,
        known: Option<&str>,
        ep: &vppcom_endpt_t,
        ip_buf: &[u8; 16],
    ) -> (r: Result<SocketAddr>)
        ensures
            rc < 0 ==> failed(rc, known, r),
            rc >= 0 ==> (r matches Ok(addr) && stands_for(*ep, ip_buf@, addr)),
    {
        let codes = host_errnos();
        SessionHandle::address_with(rc, &codes, known, ep, ip_buf)
    }
}

/// Marshalling loses nothing: the endpoint built for an address, over whatever
/// the octet buffer held before, stands for that address and for no other.
pub proof fn endpoint_round_trips(
    addr: SocketAddr,
    ep: vppcom_endpt_t,
    before: [u8; 16],
    after: Seq<u8>,
    other: SocketAddr,
)
    requires
        describes(ep, addr),
        after == laid_over(addr.ip, before@),
    ensures
        stands_for(ep, after, addr),
        stands_for(ep, after, other) ==> other == addr,
{
    be16_round_trips(addr.port, 0, 0);
    match addr.ip {
        IpAddr::V4(octets) => {
            assert(octets@ =~= after.take(4));
            if stands_for(ep, after, other) {
                let o = other.ip->V4_0;
                assert(o =~= octets) by {
                    assert forall|i: int| 0 <= i < 4 implies o[i] == octets[i] by {
                        assert(o@[i] == octets@[i]);
                    }
                }
            }
        },
        IpAddr::V6(octets) => {
            assert(octets@ =~= after);
            if stands_for(ep, after, other) {
                let o = other.ip->V6_0;
                assert(o =~= octets) by {
                    assert forall|i: int| 0 <= i < 16 implies o[i] == octets[i] by {
                        assert(o@[i] == octets@[i]);
                    }
                }
            }
        },
    }
}

/// Unmarshalling loses nothing that the address holds: the endpoint built for
/// the address that a received endpoint stands for has the same port, the same
/// family and the same octets.
pub proof fn received_endpoint_is_kept(
    ep: vppcom_endpt_t,
    ip_buf: [u8; 16],
    addr: SocketAddr,
    rebuilt: vppcom_endpt_t,
    laid: Seq<u8>,
)
    requires
        stands_for(ep, ip_buf@, addr),
        describes(rebuilt, addr),
        laid == laid_over(addr.ip, ip_buf@),
    ensures
        rebuilt.port == ep.port,
        (rebuilt.is_ip4 != 0) == (ep.is_ip4 != 0),
        laid == ip_buf@,
{
    be16_round_trips(addr.port, ep.port@[0], ep.port@[1]);
    assert(rebuilt.port =~= ep.port) by {
        assert forall|i: int| 0 <= i < 2 implies rebuilt.port[i] == ep.port[i] by {
            assert(rebuilt.port@[i] == seq![ep.port@[0], ep.port@[1]][i]);
        }
    }
    assert(laid =~= ip_buf@);
}

/// The endpoint of an address is in network order: the port's high octet first, one
/// for IPv4 and zero for IPv6, and the address octets at the start of the buffer with
/// zeros behind them.
pub proof fn endpoints_are_in_network_order(ep: vppcom_endpt_t, ip: [u8; 16], addr: SocketAddr)
    requires
        names(ep, ip, addr),
    ensures
        ep.port@[0] * 256 + ep.port@[1] == addr.port,
        addr.ip is V4 ==> ep.is_ip4 == 1,
        addr.ip is V6 ==> ep.is_ip4 == 0,
        forall|i: int| 0 <= i < addr.ip.octets().len() ==> ip@[i] == #[trigger] addr.ip.octets()[i],
        forall|i: int| addr.ip.octets().len() <= i < 16 ==> #[trigger] ip@[i] == 0,
{
    assert(ep.port@ == be16(addr.port));
}

/// A call that failed is told by its condition: transient, unconnected, gone, or else
/// by its code; and it is never a success.
pub proof fn failed_calls_tell_their_condition<T>(
    codes: ErrnoCodes,
    rc: i32,
    known: Option<&str>,
    r: Result<T>,
)
    requires
        codes.distinct(),
        failed_with(codes, rc, known, r),
    ensures
        r is Err,
        r->Err_0 is WouldBlock <==> codes.is_transient(-rc),
        r->Err_0 is NotConnected <==> -rc == codes.not_connected,
        r->Err_0 is Closed <==> -rc == codes.connection_reset || -rc == codes.broken_pipe,
        r->Err_0 matches VclError::Api(_, code) ==> code == rc,
        failed(rc, known, r),
{
    assert(classified(rc, text_view(known), r->Err_0@));
}

/// An endpoint and its octets name an address exactly where the port is in network order,
/// the family is told, the octets of the address are followed by zeros, and nothing else
/// is set; so every address has one.
pub proof fn endpoints_name_one_address(ep: vppcom_endpt_t, ip: [u8; 16], addr: SocketAddr)
    ensures
        names(ep, ip, addr) <==> {
            &&& ep.unused == 0 && ep.unused2 == 0 && ep.app_tlv_len == 0
            &&& ep.is_ip4 == (if addr.ip is V4 {
                1u8
            } else {
                0u8
            })
            &&& ep.port@[0] * 256 + ep.port@[1] == addr.port
            &&& forall|i: int|
                0 <= i < addr.ip.octets().len() ==> ip@[i] == #[trigger] addr.ip.octets()[i]
            &&& forall|i: int| addr.ip.octets().len() <= i < 16 ==> #[trigger] ip@[i] == 0
        },
{
    if ep.port@[0] * 256 + ep.port@[1] == addr.port {
        assert(ep.port@ =~= be16(addr.port));
    }
    let laid = laid_over(addr.ip, Seq::new(16, |i: int| 0u8));
    if (forall|i: int|
        0 <= i < addr.ip.octets().len() ==> ip@[i] == #[trigger] addr.ip.octets()[i]) && (forall|
        i: int,
    | addr.ip.octets().len() <= i < 16 ==> #[trigger] ip@[i] == 0) {
        assert forall|i: int| 0 <= i < 16 implies ip@[i] == laid[i] by {
            if i < addr.ip.octets().len() {
                assert(ip@[i] == addr.ip.octets()[i]);
            }
        }
        assert(ip@ =~= laid);
    }
}

} // verus!
