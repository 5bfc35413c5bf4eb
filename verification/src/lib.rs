//! The verified core of an asynchronous wrapper around VPP's communications
//! library (VCL, `libvppcom`): TCP and UDP sessions that run through VPP's own
//! network stack.
//!
//! Everything that decides, computes, marshals or frames stands here, and nothing
//! that performs a call, waits or reads a clock. A call into `libvppcom` is a
//! value ([`ffi::VclCall`]), and a completion function turns what it returned into
//! a result ([`session::SessionHandle`]). A longer operation is a value that says
//! what to do next ([`ops::Step`]) and is moved on by what came of it
//! ([`ops::Event`]), so that each of its decisions is stated by its contract and
//! proved.
//!
//! - [`app`]: the life of an application
//! - [`reactor`]: waiting for sessions to become ready
//! - [`listener`], [`stream`], [`poll`]: TCP servers, clients and their bytes
//! - [`dgram`], [`udp`]: datagram sockets and one-shot exchanges
//! - [`framing`], [`tcp_dns`], [`tcp_dns_async`]: DNS over TCP
//! - [`bind`], [`ephemeral`]: confirmed binds and random source ports
//! - [`session`], [`addr`], [`ffi`], [`error`], [`text`], [`ops`]: what they share

pub mod addr;
pub mod app;
pub mod bind;
pub mod dgram;
pub mod ephemeral;
pub mod error;
pub mod ffi;
pub mod framing;
pub mod listener;
pub mod ops;
pub mod poll;
pub mod reactor;
pub mod session;
pub mod stream;
pub mod tcp_dns;
pub mod tcp_dns_async;
pub mod text;
pub mod udp;

pub use app::VclApp;
pub use dgram::VclDgramSocket;
pub use framing::{decode_tcp_dns_len, frame_tcp_dns_query};
pub use listener::VclListener;
pub use reactor::VclReactor;
pub use stream::VclStream;
