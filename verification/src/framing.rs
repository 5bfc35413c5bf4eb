//! DNS messages over TCP: each is preceded by its length in two octets.

use vstd::prelude::*;

use crate::addr::{u16_from_be, u16_to_be};
#[allow(unused_imports)]
use crate::addr::{be16, be16_round_trips, from_be16};
#[allow(unused_imports)]
use crate::error::failure;
use crate::error::{Result, VclError};

verus! {

/// The longest message that the length prefix can announce.
pub const MAX_TCP_DNS_LEN: usize = 65535;

/// A message with its length before it.
pub open spec fn framed(message: Seq<u8>) -> Seq<u8> {
    be16(message.len() as u16) + message
}

/// What framing a message gives.
pub open spec fn frame_outcome(message: Seq<u8>) -> std::result::Result<
    Seq<u8>,
    VclError<Seq<char>>,
> {
    if message.len() <= MAX_TCP_DNS_LEN {
        Ok(framed(message))
    } else {
        Err(failure("DNS query longer than 65535 bytes"@))
    }
}

/// What a length prefix announces.
pub open spec fn len_outcome(prefix: Seq<u8>) -> std::result::Result<usize, VclError<Seq<char>>> {
    if from_be16(prefix[0], prefix[1]) == 0 {
        Err(failure("zero-length DNS response"@))
    } else {
        Ok(from_be16(prefix[0], prefix[1]) as usize)
    }
}

/// Puts the length of `query` before it.
///
/// A query longer than the prefix can announce is refused, never truncated.
pub fn frame_tcp_dns_query(query: &[u8]) -> (r: Result<Vec<u8>>)
    ensures
        match (r, frame_outcome(query@)) {
            (Ok(bytes), Ok(expected)) => bytes@ == expected,
            (Err(e), Err(expected)) => e@ == expected,
            _ => false,
        },
{
    if query.len() > MAX_TCP_DNS_LEN {
        return Err(VclError::failure("DNS query longer than 65535 bytes"));
    }
    let prefix = u16_to_be(query.len() as u16);
    let mut bytes: Vec<u8> = Vec::with_capacity(2 + query.len());
    bytes.push(prefix[0]);
    bytes.push(prefix[1]);
    bytes.extend_from_slice(query);
    assert(bytes@ =~= framed(query@));
    Ok(bytes)
}

/// The length that a prefix announces. No message is empty, so a prefix of
/// zero is refused.
pub fn decode_tcp_dns_len(prefix: [u8; 2]) -> (r: Result<usize>)
    ensures
        match (r, len_outcome(prefix@)) {
            (Ok(len), Ok(expected)) => len == expected,
            (Err(e), Err(expected)) => e@ == expected,
            _ => false,
        },
{
    let len = u16_from_be(prefix) as usize;
    if len == 0 {
        return Err(VclError::failure("zero-length DNS response"));
    }
    Ok(len)
}

/// Framing is lossless or refused: a framed message is two octets longer than
/// the message, ends with it, and its prefix announces its length; only a
/// message above 65535 octets is refused.
pub proof fn framing_is_lossless(message: Seq<u8>)
    ensures
        frame_outcome(message) is Err <==> message.len() > 65535,
        frame_outcome(message) matches Ok(bytes) ==> {
            &&& bytes.len() == 2 + message.len()
            &&& bytes.skip(2) == message
            &&& message.len() > 0 ==> len_outcome(bytes.take(2)) == Ok::<
                usize,
                VclError<Seq<char>>,
            >(message.len() as usize)
            &&& message.len() == 0 ==> len_outcome(bytes.take(2)) is Err
        },
{
    if message.len() <= 65535 {
        let n = message.len() as u16;
        be16_round_trips(n, 0, 0);
        let bytes = framed(message);
        assert(bytes.skip(2) =~= message);
        assert(bytes.take(2) =~= be16(n));
    }
}

/// Only the prefix of two zero octets is refused; any other announces a length
/// between 1 and 65535.
pub proof fn only_the_zero_prefix_is_refused(hi: u8, lo: u8)
    ensures
        len_outcome(seq![hi, lo]) is Err <==> hi == 0 && lo == 0,
        len_outcome(seq![hi, lo]) matches Ok(len) ==> 1 <= len <= 65535 && be16(len as u16)
            == seq![hi, lo],
{
    be16_round_trips(0, hi, lo);
}

/// The two octets before a message give its length, high octet first, and a message
/// that is too long is refused with the reason.
pub proof fn prefix_gives_the_length(message: Seq<u8>, hi: u8, lo: u8)
    ensures
        message.len() <= 65535 ==> (frame_outcome(message) matches Ok(bytes) && bytes[0] * 256
            + bytes[1] == message.len()),
        message.len() > 65535 ==> (frame_outcome(message) matches Err(VclError::Api(why, rc)) && why
            == "DNS query longer than 65535 bytes"@ && rc == -1),
        len_outcome(seq![hi, lo]) matches Ok(len) ==> len == hi * 256 + lo,
        len_outcome(seq![hi, lo]) matches Err(e) ==> (e matches VclError::Api(why, rc) && why
            == "zero-length DNS response"@ && rc == -1),
{
}

} // verus!
