//! ICMP echo messages as bytes.

use vstd::prelude::*;

verus! {

/// The bytes of the header of an ICMP echo message.
pub const ICMP_HEADER_SIZE: usize = 8;

/// The bytes that every IPv4 header has at least.
pub const MINIMUM_PACKET_SIZE: usize = 20;

/// Why bytes are no message.
#[derive(Clone, Copy, Debug, PartialEq, Eq, Structural)]
pub enum PacketError {
    /// An ICMP message is shorter than its header.
    InvalidSize,
    /// An ICMP message is no echo reply.
    InvalidPacket,
    /// An IP packet is shorter than the shortest header.
    TooSmallHeader,
    /// An IP packet is of another version than 4.
    InvalidVersion,
    /// An IP packet is shorter than the header it declares.
    InvalidHeaderSize,
}

/// The version of IP that an echo travels over.
#[derive(Clone, Copy, Debug, PartialEq, Eq, Structural)]
pub enum IpVersion {
    V4,
    V6,
}

impl IpVersion {
    /// The type of an echo request: 8 over IPv4, 128 over IPv6.
    pub open spec fn spec_echo_request_type(self) -> u8 {
        match self {
            IpVersion::V4 => 8,
            IpVersion::V6 => 128,
        }
    }

    /// The type of an echo reply: 0 over IPv4, 129 over IPv6.
    pub open spec fn spec_echo_reply_type(self) -> u8 {
        match self {
            IpVersion::V4 => 0,
            IpVersion::V6 => 129,
        }
    }

    /// Gives the type of an echo request.
    pub fn echo_request_type(self) -> (message_type: u8)
        ensures
            message_type == self.spec_echo_request_type(),
    {
        match self {
            IpVersion::V4 => 8,
            IpVersion::V6 => 128,
        }
    }

    /// Gives the type of an echo reply.
    pub fn echo_reply_type(self) -> (message_type: u8)
        ensures
            message_type == self.spec_echo_reply_type(),
    {
        match self {
            IpVersion::V4 => 0,
            IpVersion::V6 => 129,
        }
    }
}

/// The sum of the 16-bit words of the first `upto` bytes, high byte first;
/// a last byte without a partner counts as a high byte.
pub open spec fn word_sum(bytes: Seq<u8>, upto: int) -> nat
    decreases upto,
{
    if upto <= 0 {
        0
    } else if upto % 2 == 1 {
        word_sum(bytes, upto - 1) + (bytes[upto - 1] * 256) as nat
    } else {
        word_sum(bytes, upto - 1) + bytes[upto - 1] as nat
    }
}

/// A sum with what goes beyond 16 bits added back in, until nothing does.
pub open spec fn folded_sum(sum: nat) -> nat
    decreases sum,
{
    if sum < 0x1_0000 {
        sum
    } else {
        folded_sum(sum % 0x1_0000 + sum / 0x1_0000)
    }
}

/// The internet checksum of the bytes: the complement of the folded sum of
/// their words.
pub open spec fn internet_checksum(bytes: Seq<u8>) -> u16 {
    (0xffff - folded_sum(word_sum(bytes, bytes.len() as int))) as u16
}

/// An echo request.
pub struct EchoRequest {
    pub ident: u16,
    pub seq_cnt: u16,
    pub payload: Vec<u8>,
}

impl EchoRequest {
    /// The message with a checksum of zero: type, code 0, the checksum, the
    /// identifier and the sequence number, each high byte first, and the
    /// payload.
    pub open spec fn unsigned_message(version: IpVersion, ident: u16, seq_cnt: u16, payload: Seq<u8>) -> Seq<u8> {
        seq![
            version.spec_echo_request_type(),
            0u8,
            0u8,
            0u8,
            (ident / 256) as u8,
            (ident % 256) as u8,
            (seq_cnt / 256) as u8,
            (seq_cnt % 256) as u8,
        ] + payload
    }

    /// The message as it is sent: the checksum of the message with a
    /// checksum of zero stands in its third and fourth byte.
    pub open spec fn encoded(version: IpVersion, ident: u16, seq_cnt: u16, payload: Seq<u8>) -> Seq<u8> {
        let unsigned = Self::unsigned_message(version, ident, seq_cnt, payload);
        let checksum = internet_checksum(unsigned);
        unsigned.update(2, (checksum / 256) as u8).update(3, (checksum % 256) as u8)
    }

    /// Writes the request as bytes.
    pub fn encode(&self, version: IpVersion) -> (message: Vec<u8>)
        ensures
            message@ == Self::encoded(version, self.ident, self.seq_cnt, self.payload@),
    {
        let mut message: Vec<u8> = Vec::new();
        message.push(version.echo_request_type());
        message.push(0);
        message.push(0);
        message.push(0);
        message.push((self.ident / 256) as u8);
        message.push((self.ident % 256) as u8);
        message.push((self.seq_cnt / 256) as u8);
        message.push((self.seq_cnt % 256) as u8);
        let mut index: usize = 0;
        while index < self.payload.len()
            invariant
                index <= self.payload.len(),
                message@ == Self::unsigned_message(
                    version,
                    self.ident,
                    self.seq_cnt,
                    self.payload@.take(index as int),
                ),
            decreases self.payload.len() - index,
        {
            message.push(self.payload[index]);
            assert(message@ =~= Self::unsigned_message(
                version,
                self.ident,
                self.seq_cnt,
                self.payload@.take(index + 1),
            ));
            index = index + 1;
        }
        assert(self.payload@.take(index as int) =~= self.payload@);
        let checksum = checksum_of(&message);
        message.set(2, (checksum / 256) as u8);
        message.set(3, (checksum % 256) as u8);
        message
    }
}

/// Folding leaves a sum that fits in 16 bits.
proof fn lemma_folded_sum_fits(sum: nat)
    ensures
        folded_sum(sum) < 0x1_0000,
    decreases sum,
{
    if sum >= 0x1_0000 {
        lemma_folded_sum_fits(sum % 0x1_0000 + sum / 0x1_0000);
    }
}

/// Computes the internet checksum of the bytes.
pub fn checksum_of(bytes: &Vec<u8>) -> (checksum: u16)
    ensures
        checksum == internet_checksum(bytes@),
{
    let mut sum: u64 = 0;
    let mut index: usize = 0;
    while index < bytes.len()
        invariant
            index <= bytes.len(),
            sum <= index * 0xff00,
            folded_sum(sum as nat) == folded_sum(word_sum(bytes@, index as int)),
            sum < 0x1_0000_0000,
        decreases bytes.len() - index,
    {
        let byte: u64 = bytes[index] as u64;
        let part: u64 = if index % 2 == 0 {
            byte * 256
        } else {
            byte
        };
        let ghost before = sum as nat;
        let ghost words = word_sum(bytes@, index as int);
        sum = sum + part;
        proof {
            lemma_fold_add(before, words, part as nat);
        }
        if sum >= 0x1_0000 {
            let ghost unfolded = sum as nat;
            sum = sum % 0x1_0000 + sum / 0x1_0000;
            assert(folded_sum(unfolded) == folded_sum(sum as nat));
        }
        index = index + 1;
    }
    while sum >= 0x1_0000
        invariant
            folded_sum(sum as nat) == folded_sum(word_sum(bytes@, bytes@.len() as int)),
        decreases sum,
    {
        sum = sum % 0x1_0000 + sum / 0x1_0000;
    }
    (0xffff - sum) as u16
}

/// Sums that fold to the same value still do after the same is added to
/// both.
proof fn lemma_fold_add(left: nat, right: nat, more: nat)
    requires
        folded_sum(left) == folded_sum(right),
    ensures
        folded_sum(left + more) == folded_sum(right + more),
{
    lemma_fold_is_residue(left);
    lemma_fold_is_residue(right);
    lemma_fold_is_residue(left + more);
    lemma_fold_is_residue(right + more);
    if left == 0 || right == 0 {
        assert(left == right);
    } else {
        assert(left % 0xffff == right % 0xffff);
        assert((left + more) % 0xffff == (right + more) % 0xffff) by (nonlinear_arith)
            requires
                left % 0xffff == right % 0xffff,
        ;
    }
}

/// What a folded sum is: zero for zero, and for any other sum the one
/// number from 1 to 65535 that leaves the same remainder on division by
/// 65535.
proof fn lemma_fold_is_residue(sum: nat)
    ensures
        folded_sum(sum) == if sum == 0 {
            0nat
        } else if sum % 0xffff == 0 {
            0xffffnat
        } else {
            sum % 0xffff
        },
    decreases sum,
{
    if sum >= 0x1_0000 {
        let next = sum % 0x1_0000 + sum / 0x1_0000;
        lemma_fold_is_residue(next);
        assert(next % 0xffff == sum % 0xffff && next > 0) by (nonlinear_arith)
            requires
                next == sum % 0x1_0000 + sum / 0x1_0000,
                sum >= 0x1_0000,
        ;
    } else if sum == 0xffff {
    } else {
    }
}

/// An echo reply.
pub struct EchoReply {
    pub ident: u16,
    pub seq_cnt: u16,
    pub payload: Vec<u8>,
}

impl EchoReply {
    /// What the bytes of an ICMP message say as an echo reply: nothing
    /// where they are fewer than a header, or where the type is not that of
    /// an echo reply or the code is not 0; else the identifier and the
    /// sequence number, each high byte first, and the payload after the
    /// header.
    pub open spec fn decoded(version: IpVersion, buffer: Seq<u8>) -> Result<(u16, u16, Seq<u8>), PacketError> {
        if buffer.len() < ICMP_HEADER_SIZE {
            Err(PacketError::InvalidSize)
        } else if buffer[0] != version.spec_echo_reply_type() || buffer[1] != 0 {
            Err(PacketError::InvalidPacket)
        } else {
            Ok(
                (
                    (buffer[4] * 256 + buffer[5]) as u16,
                    (buffer[6] * 256 + buffer[7]) as u16,
                    buffer.subrange(ICMP_HEADER_SIZE as int, buffer.len() as int),
                ),
            )
        }
    }

    /// The identifier, the sequence number and the payload of a decoded
    /// reply.
    pub open spec fn view_of(reply: Result<EchoReply, PacketError>) -> Result<
        (u16, u16, Seq<u8>),
        PacketError,
    > {
        match reply {
            Ok(r) => Ok((r.ident, r.seq_cnt, r.payload@)),
            Err(error) => Err(error),
        }
    }

    /// Reads an echo reply from the bytes of an ICMP message.
    pub fn decode(version: IpVersion, buffer: &[u8]) -> (reply: Result<EchoReply, PacketError>)
        ensures
            Self::view_of(reply) == Self::decoded(version, buffer@),
    {
        if buffer.len() < ICMP_HEADER_SIZE {
            return Err(PacketError::InvalidSize);
        }
        if buffer[0] != version.echo_reply_type() || buffer[1] != 0 {
            return Err(PacketError::InvalidPacket);
        }
        let ident: u16 = (buffer[4] as u16) * 256 + (buffer[5] as u16);
        let seq_cnt: u16 = (buffer[6] as u16) * 256 + (buffer[7] as u16);
        let payload = copy_from(buffer, ICMP_HEADER_SIZE);
        Ok(EchoReply { ident, seq_cnt, payload })
    }
}

/// The bytes from `start` on.
pub fn copy_from(buffer: &[u8], start: usize) -> (bytes: Vec<u8>)
    requires
        start <= buffer@.len(),
    ensures
        bytes@ == buffer@.subrange(start as int, buffer@.len() as int),
{
    let mut bytes: Vec<u8> = Vec::new();
    let mut index: usize = start;
    while index < buffer.len()
        invariant
            start <= index <= buffer@.len(),
            bytes@ == buffer@.subrange(start as int, index as int),
        decreases buffer.len() - index,
    {
        bytes.push(buffer[index]);
        assert(bytes@ =~= buffer@.subrange(start as int, index + 1));
        index = index + 1;
    }
    bytes
}

/// What an IPv4 packet carries.
#[derive(Clone, Copy, Debug, PartialEq, Eq, Structural)]
pub enum IpV4Protocol {
    /// The Internet Control Message Protocol.
    ControlMessage,
    Other,
}

/// An IPv4 packet, as far as an echo needs it.
pub struct IpV4Packet {
    pub protocol: IpV4Protocol,
    /// What follows the header.
    pub data: Vec<u8>,
}

impl IpV4Packet {
    /// The bytes of the header that the first byte of a packet declares:
    /// four times its lower half.
    pub open spec fn header_size(first: u8) -> int {
        4 * (first % 16)
    }

    /// What the bytes say as an IPv4 packet: nothing where they are fewer
    /// than the shortest header, where the upper half of the first byte is
    /// not 4, or where they are fewer than the header they declare; else
    /// the protocol, which is ICMP where the tenth byte is 1, and what
    /// follows the header.
    pub open spec fn decoded(data: Seq<u8>) -> Result<(IpV4Protocol, Seq<u8>), PacketError> {
        if data.len() < MINIMUM_PACKET_SIZE {
            Err(PacketError::TooSmallHeader)
        } else if data[0] / 16 != 4 {
            Err(PacketError::InvalidVersion)
        } else if data.len() < Self::header_size(data[0]) {
            Err(PacketError::InvalidHeaderSize)
        } else {
            Ok(
                (
                    if data[9] == 1 {
                        IpV4Protocol::ControlMessage
                    } else {
                        IpV4Protocol::Other
                    },
                    data.subrange(Self::header_size(data[0]), data.len() as int),
                ),
            )
        }
    }

    /// The protocol and the data of a decoded packet.
    pub open spec fn view_of(packet: Result<IpV4Packet, PacketError>) -> Result<
        (IpV4Protocol, Seq<u8>),
        PacketError,
    > {
        match packet {
            Ok(p) => Ok((p.protocol, p.data@)),
            Err(error) => Err(error),
        }
    }

    /// Reads an IPv4 packet from its bytes.
    pub fn decode(data: &[u8]) -> (packet: Result<IpV4Packet, PacketError>)
        ensures
            Self::view_of(packet) == Self::decoded(data@),
    {
        if data.len() < MINIMUM_PACKET_SIZE {
            return Err(PacketError::TooSmallHeader);
        }
        let first = data[0];
        if first / 16 != 4 {
            return Err(PacketError::InvalidVersion);
        }
        let header_size: usize = 4 * ((first % 16) as usize);
        if data.len() < header_size {
            return Err(PacketError::InvalidHeaderSize);
        }
        let protocol = if data[9] == 1 {
            IpV4Protocol::ControlMessage
        } else {
            IpV4Protocol::Other
        };
        Ok(IpV4Packet { protocol, data: copy_from(data, header_size) })
    }
}

/// Writing a checksum into the third and fourth byte of a message that
/// holds zeros there adds the checksum to the sum of the words.
proof fn lemma_word_sum_with_checksum(unsigned: Seq<u8>, checksum: u16, upto: int)
    requires
        4 <= upto <= unsigned.len(),
        unsigned[2] == 0,
        unsigned[3] == 0,
    ensures
        word_sum(
            unsigned.update(2, (checksum / 256) as u8).update(3, (checksum % 256) as u8),
            upto,
        ) == word_sum(unsigned, upto) + checksum,
    decreases upto,
{
    let signed = unsigned.update(2, (checksum / 256) as u8).update(3, (checksum % 256) as u8);
    if upto == 4 {
        reveal_with_fuel(word_sum, 5);
        assert(signed[0] == unsigned[0] && signed[1] == unsigned[1]);
        assert(signed[2] == (checksum / 256) as u8 && signed[3] == (checksum % 256) as u8);
    } else {
        lemma_word_sum_with_checksum(unsigned, checksum, upto - 1);
        assert(signed[upto - 1] == unsigned[upto - 1]);
    }
}

/// The checksum of an encoded echo request is right: the words of the
/// message, checksum included, sum up to all ones once folded.
pub proof fn lemma_encoded_checksum_is_right(version: IpVersion, ident: u16, seq_cnt: u16, payload: Seq<u8>)
    ensures
        folded_sum(
            word_sum(
                EchoRequest::encoded(version, ident, seq_cnt, payload),
                EchoRequest::encoded(version, ident, seq_cnt, payload).len() as int,
            ),
        ) == 0xffff,
{
    let unsigned = EchoRequest::unsigned_message(version, ident, seq_cnt, payload);
    let sum = word_sum(unsigned, unsigned.len() as int);
    let checksum = internet_checksum(unsigned);
    lemma_folded_sum_fits(sum);
    lemma_word_sum_with_checksum(unsigned, checksum, unsigned.len() as int);
    lemma_fold_is_residue(sum);
    lemma_fold_is_residue((sum + checksum) as nat);
    assert(checksum == 0xffff - folded_sum(sum));
    assert((sum + checksum) % 0xffff == 0 && sum + checksum > 0) by (nonlinear_arith)
        requires
            checksum == 0xffff - folded_sum(sum),
            folded_sum(sum) == if sum == 0 {
                0nat
            } else if sum % 0xffff == 0 {
                0xffffnat
            } else {
                sum % 0xffff
            },
    ;
}

} // verus!
