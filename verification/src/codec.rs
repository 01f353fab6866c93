//! Packets as the interface carries them: the protocol of a raw packet, and
//! the optional four-byte packet-information header in front of it.

use crate::buffer::{
    big_endian, buffered_bytes, frozen_bytes, frozen_slice, native_order, network_order,
    put_frozen, put_slice,
};
use crate::platform::Platform;
use bytes::Bytes;
use bytes::BytesMut;
use vstd::prelude::*;
use vstd::std_specs::convert::FromSpec;

verus! {

/// The network-layer protocol of a packet.
#[derive(Debug, Clone, Copy, PartialEq, Eq, Structural)]
pub enum PacketProtocol {
    Ipv4,
    Ipv6,
    Other(u8),
}

impl Default for PacketProtocol {
    fn default() -> (p: Self)
        ensures
            p == PacketProtocol::Ipv4,
    {
        PacketProtocol::Ipv4
    }
}

/// The protocol that a version nibble stands for.
pub open spec fn protocol_of_version(version: u8) -> PacketProtocol {
    if version == 4 {
        PacketProtocol::Ipv4
    } else if version == 6 {
        PacketProtocol::Ipv6
    } else {
        PacketProtocol::Other(version)
    }
}

/// The protocol of a packet: that of the upper four bits of its first byte.
/// It means something for a packet of at least one byte.
pub open spec fn protocol_of(pkt: Seq<u8>) -> PacketProtocol
    recommends
        pkt.len() > 0,
{
    protocol_of_version(pkt[0] / 16)
}

/// Classifies a packet by the version field that every IP header starts with.
pub fn infer_proto(pkt: &[u8]) -> (proto: PacketProtocol)
    requires
        pkt@.len() > 0,
    ensures
        proto == protocol_of(pkt@),
{
    let first: u8 = pkt[0];
    let version: u8 = first >> 4;
    assert(first >> 4 == first / 16) by (bit_vector);
    if version == 4 {
        PacketProtocol::Ipv4
    } else if version == 6 {
        PacketProtocol::Ipv6
    } else {
        PacketProtocol::Other(version)
    }
}

/// Two packets whose first bytes agree in their upper four bits have the same
/// protocol, whatever else they hold.
pub proof fn lemma_protocol_depends_on_version_only(a: Seq<u8>, b: Seq<u8>)
    requires
        a.len() > 0,
        b.len() > 0,
        a[0] / 16 == b[0] / 16,
    ensures
        protocol_of(a) == protocol_of(b),
        protocol_of(a) == PacketProtocol::Ipv4 <==> a[0] / 16 == 4,
        protocol_of(a) == PacketProtocol::Ipv6 <==> a[0] / 16 == 6,
        protocol_of(a) is Other <==> (a[0] / 16 != 4 && a[0] / 16 != 6),
        protocol_of(a) matches PacketProtocol::Other(v) ==> v == a[0] / 16,
{
}

/// EtherType of IPv4, the tag of the character-device family.
pub const ETH_P_IP: u16 = 0x0800;

/// EtherType of IPv6.
pub const ETH_P_IPV6: u16 = 0x86DD;

/// Protocol family of IPv4, the tag of the control-socket family.
pub const PF_INET: u16 = 2;

/// Protocol family of IPv6 on the control-socket family.
pub const PF_INET6: u16 = 30;

/// The tag that stands for a protocol in the packet-information header of a
/// platform; none for a protocol that is neither IPv4 nor IPv6.
pub open spec fn pi_field(proto: PacketProtocol, platform: Platform) -> Option<u16> {
    match (proto, platform) {
        (PacketProtocol::Ipv4, Platform::Linux) => Some(ETH_P_IP),
        (PacketProtocol::Ipv6, Platform::Linux) => Some(ETH_P_IPV6),
        (PacketProtocol::Ipv4, Platform::MacOs) => Some(PF_INET),
        (PacketProtocol::Ipv6, Platform::MacOs) => Some(PF_INET6),
        (PacketProtocol::Other(_), _) => None,
    }
}

/// `std::io::Error::new` with the kind `Other` and a text that names the
/// version found.
#[verifier::external_body]
fn unsupported_protocol(version: u8) -> std::io::Error {
    std::io::Error::new(
        std::io::ErrorKind::Other,
        format!("neither an Ipv4 nor Ipv6 packet: {version}"),
    )
}

impl PacketProtocol {
    /// The tag of this protocol in the packet-information header of the
    /// platform, or an error for a protocol that has none.
    pub fn into_pi_field(self, platform: Platform) -> (r: Result<u16, std::io::Error>)
        ensures
            match pi_field(self, platform) {
                Some(tag) => r == Ok::<u16, std::io::Error>(tag),
                None => r is Err,
            },
    {
        match self {
            PacketProtocol::Ipv4 => match platform {
                Platform::Linux => Ok(ETH_P_IP),
                Platform::MacOs => Ok(PF_INET),
            },
            PacketProtocol::Ipv6 => match platform {
                Platform::Linux => Ok(ETH_P_IPV6),
                Platform::MacOs => Ok(PF_INET6),
            },
            PacketProtocol::Other(p) => Err(unsupported_protocol(p)),
        }
    }
}

/// A packet as read from or written to the interface: its bytes, and the
/// protocol that they start with.
pub struct TunPacket(PacketProtocol, Bytes);

impl View for TunPacket {
    type V = Seq<u8>;

    /// The bytes of the packet, without any header.
    closed spec fn view(&self) -> Seq<u8> {
        frozen_bytes(self.1)
    }
}

impl TunPacket {
    #[verifier::type_invariant]
    spec fn well_formed(self) -> bool {
        &&& frozen_bytes(self.1).len() > 0
        &&& self.0 == protocol_of(frozen_bytes(self.1))
    }

    /// Wraps the bytes of one packet. An empty buffer is no packet.
    pub fn new(pkt: Bytes) -> (packet: Self)
        requires
            frozen_bytes(pkt).len() > 0,
        ensures
            packet@ == frozen_bytes(pkt),
    {
        let proto = infer_proto(frozen_slice(&pkt));
        TunPacket(proto, pkt)
    }

    /// Wraps the bytes of one packet, unless there are none.
    pub fn try_new(pkt: Bytes) -> (packet: Option<Self>)
        ensures
            frozen_bytes(pkt).len() == 0 <==> packet is None,
            packet matches Some(p) ==> p@ == frozen_bytes(pkt),
    {
        if frozen_slice(&pkt).len() == 0 {
            None
        } else {
            Some(TunPacket::new(pkt))
        }
    }

    /// The protocol that the packet was classified as.
    pub fn protocol(&self) -> (proto: PacketProtocol)
        ensures
            proto == protocol_of(self@),
    {
        proof {
            use_type_invariant(self);
        }
        self.0
    }

    /// The bytes of the packet, of which there is at least one.
    pub fn get_bytes(&self) -> (bytes: &[u8])
        ensures
            bytes@ == self@,
            bytes@.len() > 0,
    {
        proof {
            use_type_invariant(self);
        }
        frozen_slice(&self.1)
    }

    /// Gives up the packet for its bytes.
    pub fn into_bytes(self) -> (bytes: Bytes)
        ensures
            frozen_bytes(bytes) == self@,
    {
        self.1
    }
}

impl From<TunPacket> for Bytes {
    fn from(value: TunPacket) -> (bytes: Bytes) {
        value.1
    }
}

impl vstd::std_specs::convert::FromSpecImpl<TunPacket> for Bytes {
    open spec fn obeys_from_spec() -> bool {
        true
    }

    /// The buffer of the packet's bytes.
    closed spec fn from_spec(value: TunPacket) -> Bytes {
        value.1
    }
}

/// The buffer that a packet is turned into holds the packet's bytes.
pub proof fn lemma_bytes_of_packet(packet: TunPacket)
    ensures
        frozen_bytes(Bytes::from_spec(packet)) == packet@,
{
}

/// The length of the packet-information header in front of a packet: four
/// bytes where the interface has one, none where it has not.
pub open spec fn header_len(pi: bool) -> nat {
    if pi {
        4
    } else {
        0
    }
}

/// The packet-information header for a protocol tag: two flag bytes, both
/// zero, then the tag, most significant byte first.
pub open spec fn header(tag: u16) -> Seq<u8> {
    seq![0u8, 0u8] + big_endian(tag)
}

/// What a frame carries behind its header. The header itself is not looked
/// at.
pub open spec fn payload(pi: bool, frame: Seq<u8>) -> Seq<u8> {
    frame.subrange(header_len(pi) as int, frame.len() as int)
}

/// The frame for a packet: the packet itself without packet information; with
/// it, the header for the packet's protocol and then the packet, or nothing
/// where the protocol has no tag.
pub open spec fn frame(pi: bool, platform: Platform, pkt: Seq<u8>) -> Option<Seq<u8>> {
    if !pi {
        Some(pkt)
    } else {
        match pi_field(protocol_of(pkt), platform) {
            Some(tag) => Some(header(tag) + pkt),
            None => None,
        }
    }
}

/// Framing adds the header and unframing takes it off again: a packet that
/// can be framed comes back byte for byte, classified as before, and the
/// frame is longer than the packet by exactly four bytes with packet
/// information and by none without.
pub proof fn lemma_frame_round_trip(pi: bool, platform: Platform, pkt: Seq<u8>)
    requires
        pkt.len() > 0,
        frame(pi, platform, pkt) is Some,
    ensures
        frame(pi, platform, pkt)->0.len() == pkt.len() + header_len(pi),
        payload(pi, frame(pi, platform, pkt)->0) == pkt,
        protocol_of(payload(pi, frame(pi, platform, pkt)->0)) == protocol_of(pkt),
        pi ==> frame(pi, platform, pkt)->0.len() == pkt.len() + 4,
{
    let f = frame(pi, platform, pkt)->0;
    assert(payload(pi, f) =~= pkt);
}

/// The size of the largest frame that there can be: an IP packet of the
/// largest size, and a header.
pub const LARGEST_FRAME: usize = 65539;

/// Whether a buffer holds a packet: a header, if there is one, and at least
/// one byte behind it.
pub open spec fn holds_packet(pi: bool, frame: Seq<u8>) -> bool {
    frame.len() > header_len(pi)
}

/// A frame appended to what a buffer holds leaves that in front, unchanged,
/// then takes the four bytes of the header, if there is one, and ends with
/// the packet, byte for byte. A packet of IPv4 or IPv6 always has a frame.
pub proof fn lemma_framed_buffer(pi: bool, platform: Platform, held: Seq<u8>, pkt: Seq<u8>)
    requires
        pkt.len() > 0,
    ensures
        !pi || protocol_of(pkt) == PacketProtocol::Ipv4 || protocol_of(pkt) == PacketProtocol::Ipv6
            <==> frame(pi, platform, pkt) is Some,
        frame(pi, platform, pkt) matches Some(f) ==> {
            &&& (held + f).len() == held.len() + header_len(pi) + pkt.len()
            &&& (held + f).take(held.len() as int) == held
            &&& (held + f).skip((held.len() + header_len(pi)) as int) == pkt
            &&& pi ==> (held + f).subrange(held.len() as int, (held.len() + 4) as int) == header(
                pi_field(protocol_of(pkt), platform)->0,
            )
        },
{
    if frame(pi, platform, pkt) is Some {
        let f = frame(pi, platform, pkt)->0;
        assert((held + f).take(held.len() as int) =~= held);
        assert((held + f).skip((held.len() + header_len(pi)) as int) =~= pkt);
        if pi {
            assert((held + f).subrange(held.len() as int, (held.len() + 4) as int) =~= header(
                pi_field(protocol_of(pkt), platform)->0,
            ));
        }
    }
}

/// Frames and unframes the packets of one queue.
#[derive(Debug, Clone, Copy)]
pub struct TunPacketCodec {
    pi: bool,
    frame_size: i64,
    platform: Platform,
}

impl TunPacketCodec {
    /// Whether frames start with a packet-information header.
    pub closed spec fn packet_information(&self) -> bool {
        self.pi
    }

    /// The frame-size hint: the size that the codec was made for.
    pub closed spec fn frame_size(&self) -> int {
        self.frame_size as int
    }

    /// The platform whose tags the header carries.
    pub closed spec fn platform(&self) -> Platform {
        self.platform
    }

    /// A codec for an interface with or without packet information. The
    /// largest packet size is kept as the frame-size hint, whatever it is.
    pub fn new(pi: bool, mtu: i32, platform: Platform) -> (codec: Self)
        ensures
            codec.packet_information() == pi,
            codec.frame_size() == mtu,
            codec.platform() == platform,
    {
        TunPacketCodec { pi, frame_size: mtu as i64, platform }
    }

    /// A codec with a frame-size hint that is given as it is.
    pub fn with_frame_size(pi: bool, frame_size: i64, platform: Platform) -> (codec: Self)
        ensures
            codec.packet_information() == pi,
            codec.frame_size() == frame_size,
            codec.platform() == platform,
    {
        TunPacketCodec { pi, frame_size, platform }
    }

    /// Takes one packet off the buffer. A buffer that holds no packet yet,
    /// because it is empty or ends within the header or right behind it, is
    /// left as it is, and there is no unit. Any other buffer is one frame:
    /// its header, if there is one, is dropped unread, what follows is the
    /// packet, and the buffer is left empty.
    pub fn decode(&mut self, buf: &mut BytesMut) -> (r: Result<Option<TunPacket>, std::io::Error>)
        ensures
            *final(self) == *old(self),
            if holds_packet(old(self).packet_information(), buffered_bytes(*old(buf))) {
                &&& r matches Ok(Some(pkt))
                &&& pkt@ == payload(old(self).packet_information(), buffered_bytes(*old(buf)))
                &&& buffered_bytes(*final(buf)).len() == 0
            } else {
                &&& r matches Ok(None)
                &&& buffered_bytes(*final(buf)) == buffered_bytes(*old(buf))
            },
    {
        let n = buf.len();
        let header: usize = if self.pi {
            4
        } else {
            0
        };
        if n <= header {
            return Ok(None);
        }
        let mut pkt = buf.split_to(n);
        // Room for the next frame: as much as the hint says, but no more
        // than the largest packet and its header can take.
        let room: usize = if self.frame_size <= 0 {
            0
        } else if self.frame_size <= LARGEST_FRAME as i64 {
            self.frame_size as usize
        } else {
            LARGEST_FRAME
        };
        buf.reserve(room);
        if self.pi {
            let _ = pkt.split_to(4);
        }
        let bytes = pkt.freeze();
        Ok(Some(TunPacket::new(bytes)))
    }

    /// Appends the frame of one packet to the buffer. Where the packet's
    /// protocol has no tag for the header, nothing is appended and the
    /// packet is refused.
    pub fn encode(&mut self, item: TunPacket, dst: &mut BytesMut) -> (r: Result<(), std::io::Error>)
        requires
            buffered_bytes(*old(dst)).len() + item@.len() + 4 <= isize::MAX,
        ensures
            *final(self) == *old(self),
            match frame(old(self).packet_information(), old(self).platform(), item@) {
                Some(f) => {
                    &&& r is Ok
                    &&& buffered_bytes(*final(dst)) == buffered_bytes(*old(dst)) + f
                    &&& buffered_bytes(*final(dst)).len() == buffered_bytes(*old(dst)).len()
                        + header_len(old(self).packet_information()) + item@.len()
                    &&& buffered_bytes(*final(dst)).take(buffered_bytes(*old(dst)).len() as int)
                        == buffered_bytes(*old(dst))
                    &&& buffered_bytes(*final(dst)).skip(
                        (buffered_bytes(*old(dst)).len() + header_len(
                            old(self).packet_information(),
                        )) as int,
                    ) == item@
                },
                None => {
                    &&& r is Err
                    &&& buffered_bytes(*final(dst)) == buffered_bytes(*old(dst))
                },
            },
    {
        let len = item.get_bytes().len();
        proof {
            lemma_framed_buffer(
                self.packet_information(),
                self.platform(),
                buffered_bytes(*dst),
                item@,
            );
        }
        dst.reserve(len + 4);
        if self.pi {
            let tag = match item.protocol().into_pi_field(self.platform) {
                Ok(tag) => tag,
                Err(e) => {
                    return Err(e);
                },
            };
            let flags = native_order(0);
            let family = network_order(tag);
            let mut pi: Vec<u8> = Vec::with_capacity(4);
            pi.push(flags[0]);
            pi.push(flags[1]);
            pi.push(family[0]);
            pi.push(family[1]);
            assert(pi@ =~= header(tag));
            put_slice(dst, pi.as_slice());
            put_frozen(dst, item.into_bytes());
            assert(buffered_bytes(*dst) =~= buffered_bytes(*old(dst)) + (header(tag) + item@));
        } else {
            put_frozen(dst, item.into_bytes());
        }
        Ok(())
    }

    /// Appends the frame of one packet where `encode` can; where the buffer
    /// has no room for the packet and a header, the packet is handed back
    /// and the buffer is left as it is.
    pub fn try_encode(&mut self, item: TunPacket, dst: &mut BytesMut) -> (r: Result<
        Result<(), std::io::Error>,
        TunPacket,
    >)
        ensures
            *final(self) == *old(self),
            buffered_bytes(*old(dst)).len() + item@.len() + 4 > isize::MAX ==> {
                &&& r matches Err(back)
                &&& back@ == item@
                &&& buffered_bytes(*final(dst)) == buffered_bytes(*old(dst))
            },
            buffered_bytes(*old(dst)).len() + item@.len() + 4 <= isize::MAX ==> {
                &&& r matches Ok(done)
                &&& match frame(old(self).packet_information(), old(self).platform(), item@) {
                    Some(f) => {
                        &&& done is Ok
                        &&& buffered_bytes(*final(dst)) == buffered_bytes(*old(dst)) + f
                    },
                    None => {
                        &&& done is Err
                        &&& buffered_bytes(*final(dst)) == buffered_bytes(*old(dst))
                    },
                }
            },
    {
        let room: usize = isize::MAX as usize - 4;
        let held = dst.len();
        let len = item.get_bytes().len();
        if held > room || len > room - held {
            return Err(item);
        }
        Ok(self.encode(item, dst))
    }
}

} // verus!
