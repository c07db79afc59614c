//! What an ICMP echo sends and what it takes for a reply.

pub mod packet;

use vstd::prelude::*;

use crate::util::ping::packet::{EchoReply, IpV4Packet, IpVersion, PacketError};

verus! {

/// The bytes of the payload of an echo request.
pub const TOKEN_SIZE: usize = 24;

/// The bytes of an echo request: the header and the payload.
pub const ECHO_REQUEST_BUFFER_SIZE: usize = 32;

/// The seconds an echo is waited for where the caller names no timeout.
pub const DEFAULT_TIMEOUT_SECONDS: u64 = 4;

/// The hops an echo request may take where the caller names no limit.
pub const DEFAULT_TTL: u32 = 64;

/// The sequence number of an echo request where the caller names none.
pub const DEFAULT_SEQUENCE_COUNT: u16 = 1;

/// What was received for an echo request, read as a reply: over IPv4 the
/// ICMP message inside the IP packet, over IPv6 the ICMP message itself.
pub open spec fn reply_of(version: IpVersion, received: Seq<u8>) -> Result<
    (u16, u16, Seq<u8>),
    PacketError,
> {
    match version {
        IpVersion::V4 => match IpV4Packet::decoded(received) {
            Ok(packet) => EchoReply::decoded(version, packet.1),
            Err(error) => Err(error),
        },
        IpVersion::V6 => EchoReply::decoded(version, received),
    }
}

/// Reads what was received for an echo request as a reply.
pub fn decode_reply(version: IpVersion, received: &[u8]) -> (reply: Result<EchoReply, PacketError>)
    ensures
        EchoReply::view_of(reply) == reply_of(version, received@),
{
    match version {
        IpVersion::V4 => match IpV4Packet::decode(received) {
            Ok(packet) => EchoReply::decode(version, packet.data.as_slice()),
            Err(error) => Err(error),
        },
        IpVersion::V6 => EchoReply::decode(version, received),
    }
}

} // verus!
