//! The control-socket family: the interface is a kernel control that a
//! system socket connects to. It has one queue, works at the IP layer only,
//! and always puts the packet-information header in front of a packet.

use crate::address::{is_digit, Ipv4AddrExt, Ipv4Address, SockAddr};
use crate::configuration::{Configuration, Layer};
use crate::error::Error;
use crate::platform::posix::Fd;
use crate::platform::request::{
    before_nul, interface_name, name_field, name_in, padded, payload_of, request_for,
    ControlCall, ControlOp, IfReq, Payload, NAME_LEN,
};
use vstd::prelude::*;
use vstd::string::StringSliceAdditionalSpecFns;
use vstd::utf8::{decode_utf8, encode_utf8, is_char_boundary, pop_first_scalar, valid_utf8};

verus! {

/// The name under which the kernel registers the control of the interfaces.
pub const UTUN_CONTROL_NAME: &'static str = "com.apple.net.utun_control";

/// The address family of the sockets that talk to the kernel itself.
pub const AF_SYSTEM: u8 = 32;

/// The kind of system address that names a kernel control.
pub const AF_SYS_CONTROL: u16 = 2;

/// The protocol of kernel controls, which is also the level of their socket
/// options.
pub const SYSPROTO_CONTROL: i32 = 2;

/// The socket option that reads the name of the interface.
pub const UTUN_OPT_IFNAME: i32 = 2;

/// The size of an interface request, in bytes.
pub const IFREQ_SIZE: u16 = 32;

/// The size of an interface alias request, in bytes.
pub const IFALIASREQ_SIZE: u16 = 64;

/// The size of a control-info request, in bytes.
pub const CTL_INFO_SIZE: u16 = 100;

/// The size of the address of a kernel control, in bytes.
pub const SOCKADDR_CTL_SIZE: u8 = 32;

/// The direction bits of a call that copies its argument into the kernel.
pub const IOC_IN: u64 = 0x8000_0000;

/// The direction bits of a call that copies its argument in and out again.
pub const IOC_INOUT: u64 = 0xC000_0000;

/// The code of a control call: the direction, the size of the argument in
/// thirteen bits, the group and the number, from the top down.
pub open spec fn ioc(direction: u64, group: u8, nr: u8, size: u16) -> u64 {
    direction | (((size & 0x1fff) as u64) << 16) | ((group as u64) << 8) | (nr as u64)
}

/// Puts together the code of a control call.
pub fn request_code(direction: u64, group: u8, nr: u8, size: u16) -> (code: u64)
    ensures
        code == ioc(direction, group, nr, size),
{
    direction | (((size & 0x1fff) as u64) << 16) | ((group as u64) << 8) | (nr as u64)
}

/// The group of the interface calls, the letter `i`.
pub const GROUP_INTERFACE: u8 = 0x69;

/// The group of the kernel-control calls, the letter `N`.
pub const GROUP_CONTROL: u8 = 0x4e;

/// The direction and the number of the call for an operation on an
/// attribute: storing copies in, reading copies in and out.
pub open spec fn call_of(op: ControlOp) -> (u64, u8) {
    match op {
        ControlOp::SetFlags(_) => (IOC_IN, 16u8),
        ControlOp::GetFlags => (IOC_INOUT, 17u8),
        ControlOp::SetAddress(_) => (IOC_IN, 12u8),
        ControlOp::GetAddress => (IOC_INOUT, 33u8),
        ControlOp::SetDestination(_) => (IOC_IN, 14u8),
        ControlOp::GetDestination => (IOC_INOUT, 34u8),
        ControlOp::SetBroadcast(_) => (IOC_IN, 19u8),
        ControlOp::GetBroadcast => (IOC_INOUT, 35u8),
        ControlOp::SetNetmask(_) => (IOC_IN, 22u8),
        ControlOp::GetNetmask => (IOC_INOUT, 37u8),
        ControlOp::SetMtu(_) => (IOC_IN, 52u8),
        ControlOp::GetMtu => (IOC_INOUT, 51u8),
    }
}

/// The platform's code of an operation on an attribute.
pub open spec fn code_of(op: ControlOp) -> u64 {
    ioc(call_of(op).0, GROUP_INTERFACE, call_of(op).1, IFREQ_SIZE)
}

/// The platform's code of an operation on an attribute.
pub fn control_code(op: ControlOp) -> (code: u64)
    ensures
        code == code_of(op),
{
    let (direction, nr): (u64, u8) = match op {
        ControlOp::SetFlags(_) => (IOC_IN, 16u8),
        ControlOp::GetFlags => (IOC_INOUT, 17u8),
        ControlOp::SetAddress(_) => (IOC_IN, 12u8),
        ControlOp::GetAddress => (IOC_INOUT, 33u8),
        ControlOp::SetDestination(_) => (IOC_IN, 14u8),
        ControlOp::GetDestination => (IOC_INOUT, 34u8),
        ControlOp::SetBroadcast(_) => (IOC_IN, 19u8),
        ControlOp::GetBroadcast => (IOC_INOUT, 35u8),
        ControlOp::SetNetmask(_) => (IOC_IN, 22u8),
        ControlOp::GetNetmask => (IOC_INOUT, 37u8),
        ControlOp::SetMtu(_) => (IOC_IN, 52u8),
        ControlOp::GetMtu => (IOC_INOUT, 51u8),
    };
    request_code(direction, GROUP_INTERFACE, nr, IFREQ_SIZE)
}

/// The code of the call that resolves the name of a kernel control.
pub open spec fn ctliocginfo() -> u64 {
    ioc(IOC_INOUT, GROUP_CONTROL, 3, CTL_INFO_SIZE)
}

/// The code of the call that sets address, broadcast address and mask of an
/// interface at once.
pub open spec fn siocaifaddr() -> u64 {
    ioc(IOC_IN, GROUP_INTERFACE, 26, IFALIASREQ_SIZE)
}

/// The codes as the platform's headers give them.
pub proof fn lemma_codes()
    ensures
        ctliocginfo() == 0xc064_4e03,
        siocaifaddr() == 0x8040_691a,
        code_of(ControlOp::GetFlags) == 0xc020_6911,
        code_of(ControlOp::SetFlags(0)) == 0x8020_6910,
        code_of(ControlOp::GetAddress) == 0xc020_6921,
        code_of(ControlOp::GetMtu) == 0xc020_6933,
        code_of(ControlOp::SetMtu(0)) == 0x8020_6934,
{
    assert(0xC000_0000u64 | (((100u16 & 0x1fff) as u64) << 16) | ((0x4eu8 as u64) << 8) | (3u8 as u64)
        == 0xc064_4e03) by (bit_vector);
    assert(0x8000_0000u64 | (((64u16 & 0x1fff) as u64) << 16) | ((0x69u8 as u64) << 8) | (26u8 as u64)
        == 0x8040_691a) by (bit_vector);
    assert(0xC000_0000u64 | (((32u16 & 0x1fff) as u64) << 16) | ((0x69u8 as u64) << 8) | (17u8 as u64)
        == 0xc020_6911) by (bit_vector);
    assert(0x8000_0000u64 | (((32u16 & 0x1fff) as u64) << 16) | ((0x69u8 as u64) << 8) | (16u8 as u64)
        == 0x8020_6910) by (bit_vector);
    assert(0xC000_0000u64 | (((32u16 & 0x1fff) as u64) << 16) | ((0x69u8 as u64) << 8) | (33u8 as u64)
        == 0xc020_6921) by (bit_vector);
    assert(0xC000_0000u64 | (((32u16 & 0x1fff) as u64) << 16) | ((0x69u8 as u64) << 8) | (51u8 as u64)
        == 0xc020_6933) by (bit_vector);
    assert(0x8000_0000u64 | (((32u16 & 0x1fff) as u64) << 16) | ((0x69u8 as u64) << 8) | (52u8 as u64)
        == 0x8020_6934) by (bit_vector);
}

/// The number that decimal digits stand for.
pub open spec fn digits_value(digits: Seq<u8>) -> nat
    decreases digits.len(),
{
    if digits.len() == 0 {
        0
    } else {
        digits_value(digits.drop_last()) * 10 + (digits.last() - 0x30) as nat
    }
}

/// Whether every byte of a text is a digit.
pub open spec fn all_digits(text: Seq<u8>) -> bool {
    forall|i: int| 0 <= i < text.len() ==> is_digit(#[trigger] text[i])
}

/// A number as text: a plus sign or none, then digits, at least one, and
/// nothing else; the number has to fit in 32 bits.
pub open spec fn decimal_u32(text: Seq<u8>) -> Option<u32> {
    let digits = if text.len() > 0 && text[0] == 0x2b {
        text.drop_first()
    } else {
        text
    };
    if digits.len() > 0 && all_digits(digits) && digits_value(digits) <= u32::MAX {
        Some(digits_value(digits) as u32)
    } else {
        None
    }
}

/// `std::num::ParseIntError`, which says why a text is no number. It is
/// taken as it is and not looked into.
#[verifier::external_type_specification]
#[verifier::external_body]
pub struct ExParseIntError(std::num::ParseIntError);

/// A text with a byte that is no digit, and no plus sign in front, is no
/// number.
pub proof fn lemma_not_a_number(text: Seq<u8>, at: int)
    requires
        0 <= at < text.len(),
        !is_digit(text[at]),
        at > 0 || text[0] != 0x2b,
    ensures
        decimal_u32(text) is None,
{
    let digits = if text.len() > 0 && text[0] == 0x2b {
        text.drop_first()
    } else {
        text
    };
    let j = if text[0] == 0x2b {
        at - 1
    } else {
        at
    };
    assert(digits[j] == text[at]);
    assert(!all_digits(digits));
}

/// `str::parse::<u32>` reads a decimal number: an optional plus sign followed
/// by digits only. Empty text, any other character, and a number that does
/// not fit are errors.
#[verifier::external_body]
fn parse_u32(text: &str) -> (r: Result<u32, std::num::ParseIntError>)
    ensures
        match decimal_u32(text.spec_bytes()) {
            Some(v) => r == Ok::<u32, std::num::ParseIntError>(v),
            None => r is Err,
        },
{
    text.parse::<u32>()
}

/// Behind bytes that are all ASCII a character begins.
pub proof fn lemma_ascii_prefix_boundary(bytes: Seq<u8>, k: int)
    requires
        valid_utf8(bytes),
        0 <= k <= bytes.len(),
        forall|i: int| 0 <= i < k ==> bytes[i] <= 0x7f,
    ensures
        is_char_boundary(bytes, k),
    decreases k,
{
    if k > 0 {
        let rest = pop_first_scalar(bytes);
        assert(bytes[0] <= 0x7f);
        assert(rest =~= bytes.subrange(1, bytes.len() as int));
        assert forall|i: int| 0 <= i < k - 1 implies rest[i] <= 0x7f by {
            assert(rest[i] == bytes[i + 1]);
        }
        lemma_ascii_prefix_boundary(rest, k - 1);
    }
}

/// Whether a name begins with the four letters `utun`.
pub open spec fn is_utun(name: Seq<u8>) -> bool {
    &&& name.len() >= 4
    &&& name[0] == 0x75
    &&& name[1] == 0x74
    &&& name[2] == 0x75
    &&& name[3] == 0x6e
}

/// What a configuration comes to, as far as that can be told without a
/// system call.
pub enum Verdict {
    /// It can be served, by the interface of this unit number.
    Unit(u32),
    NameTooLong,
    InvalidName,
    UnsupportedLayer,
    InvalidQueuesNumber,
}

/// Judges a name: it has to fit a request, begin with `utun` and go on
/// with the unit number.
pub open spec fn name_verdict(name: Seq<u8>) -> Verdict {
    if name.len() > NAME_LEN {
        Verdict::NameTooLong
    } else if !is_utun(name) {
        Verdict::InvalidName
    } else {
        match decimal_u32(name.subrange(4, name.len() as int)) {
            Some(unit) => Verdict::Unit(unit),
            None => Verdict::InvalidName,
        }
    }
}

/// Judges a configuration: first its name, without which the unit is 0;
/// then the layer, which has to be that of IP; then the number of queues,
/// of which one is all there is.
pub open spec fn verdict(config: Configuration) -> Verdict {
    let named = match config.name {
        Some(name) => name_verdict(encode_utf8(name@)),
        None => Verdict::Unit(0),
    };
    if !(named is Unit) {
        named
    } else if config.layer != Layer::L3 {
        Verdict::UnsupportedLayer
    } else if config.queues is Some && config.queues != Some(1usize) {
        Verdict::InvalidQueuesNumber
    } else {
        named
    }
}

/// What a verdict comes to: the unit number, or the error that says what
/// is wrong.
pub open spec fn outcome_of(verdict: Verdict) -> Result<u32, Error> {
    match verdict {
        Verdict::Unit(unit) => Ok(unit),
        Verdict::NameTooLong => Err(Error::NameTooLong),
        Verdict::InvalidName => Err(Error::InvalidName),
        Verdict::UnsupportedLayer => Err(Error::UnsupportedLayer),
        Verdict::InvalidQueuesNumber => Err(Error::InvalidQueuesNumber),
    }
}

/// The unit number of the interface that a configuration asks for, or the
/// reason why it cannot be served.
pub fn unit_of(config: &Configuration) -> (r: Result<u32, Error>)
    ensures
        r == outcome_of(verdict(*config)),
{
    let unit: u32 = match &config.name {
        Some(name) => {
            let text = name.as_str();
            let bytes = text.as_bytes();
            if bytes.len() > NAME_LEN {
                return Err(Error::NameTooLong);
            }
            if !(bytes.len() >= 4 && bytes[0] == 0x75 && bytes[1] == 0x74 && bytes[2] == 0x75
                && bytes[3] == 0x6e) {
                return Err(Error::InvalidName);
            }
            proof {
                vstd::utf8::encode_utf8_valid_utf8(text@);
                lemma_ascii_prefix_boundary(text.spec_bytes(), 4);
            }
            let (_, digits) = text.split_at(4);
            match parse_u32(digits) {
                Ok(unit) => unit,
                Err(_) => {
                    return Err(Error::InvalidName);
                },
            }
        },
        None => 0,
    };
    if config.layer != Layer::L3 {
        return Err(Error::UnsupportedLayer);
    }
    let queues: usize = match config.queues {
        Some(n) => n,
        None => 1,
    };
    if queues != 1 {
        return Err(Error::InvalidQueuesNumber);
    }
    Ok(unit)
}

/// The request that resolves the name of a kernel control to its number:
/// the number, to be filled in, and the name in a field of 96 bytes.
#[derive(Debug, Clone, Copy)]
pub struct CtlInfo {
    pub id: u32,
    pub name: [u8; 96],
}

/// The address of a kernel control, to connect to.
#[derive(Debug, Clone, Copy, PartialEq, Eq, Structural)]
pub struct SockAddrCtl {
    pub len: u8,
    pub family: u8,
    pub sysaddr: u16,
    pub id: u32,
    pub unit: u32,
}

/// The request that sets address, broadcast address and mask at once.
#[derive(Debug, Clone, Copy)]
pub struct IfAliasReq {
    pub name: [u8; 16],
    pub addr: SockAddr,
    pub broadaddr: SockAddr,
    pub mask: SockAddr,
}

/// The alias call: the descriptor, the code, and the request.
#[derive(Debug, Clone, Copy)]
pub struct AliasCall {
    pub fd: i32,
    pub code: u64,
    pub request: IfAliasReq,
}

/// What the name field of a control-info request holds: the name as far as
/// it fits, the rest zero.
pub open spec fn control_name(name: Seq<u8>) -> Seq<u8> {
    Seq::new(
        96,
        |i: int|
            if i < name.len() {
                name[i]
            } else {
                0u8
            },
    )
}

/// The request that asks for the number of the control of the interfaces.
pub fn control_info() -> (info: CtlInfo)
    ensures
        info.id == 0,
        info.name@ == control_name(UTUN_CONTROL_NAME.spec_bytes()),
{
    let bytes = UTUN_CONTROL_NAME.as_bytes();
    let mut name = [0u8; 96];
    let mut i: usize = 0;
    while i < bytes.len() && i < 96
        invariant
            i <= bytes@.len(),
            i <= 96,
            bytes@ == UTUN_CONTROL_NAME.spec_bytes(),
            forall|j: int| 0 <= j < i ==> name@[j] == bytes@[j],
            forall|j: int| i <= j < 96 ==> name@[j] == 0,
        decreases 96 - i,
    {
        name[i] = bytes[i];
        i += 1;
    }
    assert(name@ =~= control_name(UTUN_CONTROL_NAME.spec_bytes()));
    CtlInfo { id: 0, name }
}

/// The address of the control of a number, for the interface of a unit.
pub open spec fn control_address(id: u32, unit: u32) -> SockAddrCtl {
    SockAddrCtl {
        len: SOCKADDR_CTL_SIZE,
        family: AF_SYSTEM,
        sysaddr: AF_SYS_CONTROL,
        id,
        unit,
    }
}

/// The addresses that the alias call of a new device carries: address,
/// broadcast address and mask of the configuration, and where it has none,
/// 10.0.0.1, 10.0.0.255 and 255.255.255.0.
pub open spec fn alias_of(config: Configuration) -> (Ipv4Address, Ipv4Address, Ipv4Address) {
    (
        match config.address {
            Some(a) => a,
            None => Ipv4Address { a: 10, b: 0, c: 0, d: 1 },
        },
        match config.broadcast {
            Some(a) => a,
            None => Ipv4Address { a: 10, b: 0, c: 0, d: 255 },
        },
        match config.netmask {
            Some(a) => a,
            None => Ipv4Address { a: 255, b: 255, c: 255, d: 0 },
        },
    )
}

/// The addresses for the alias call that follows the configuration of a new
/// device: address, broadcast address and mask.
pub fn creation_alias(config: &Configuration) -> (r: (Ipv4Address, Ipv4Address, Ipv4Address))
    ensures
        r == alias_of(*config),
{
    (
        match config.address {
            Some(a) => a,
            None => Ipv4Address::new(10, 0, 0, 1),
        },
        match config.broadcast {
            Some(a) => a,
            None => Ipv4Address::new(10, 0, 0, 255),
        },
        match config.netmask {
            Some(a) => a,
            None => Ipv4Address::new(255, 255, 255, 0),
        },
    )
}

/// The one queue of an interface.
#[derive(Debug)]
pub struct Queue {
    tun: Fd,
}

impl Queue {
    /// The number of the queue's descriptor.
    pub closed spec fn fd(&self) -> int {
        self.tun@
    }

    /// The header is always there.
    pub fn has_packet_information(&self) -> (pi: bool)
        ensures
            pi,
    {
        true
    }

    pub fn as_raw_fd(&self) -> (fd: i32)
        ensures
            fd == self.fd(),
            fd >= 0,
    {
        self.tun.as_raw_fd()
    }
}

/// What a device is, seen from outside: its name, the descriptor for its
/// control calls, and the descriptor of its queue.
pub struct TunView {
    pub name: Seq<char>,
    pub control: int,
    pub queue: int,
}

/// A device: one interface with its queue.
#[derive(Debug)]
pub struct Tun {
    name: String,
    queue: Queue,
    ctl: Fd,
}

impl View for Tun {
    type V = TunView;

    closed spec fn view(&self) -> TunView {
        TunView { name: self.name@, control: self.ctl@, queue: self.queue.fd() }
    }
}

impl Tun {
    #[verifier::type_invariant]
    spec fn well_formed(self) -> bool {
        encode_utf8(self.name@).len() <= NAME_LEN
    }

    /// The bytes of the device's name.
    pub closed spec fn name_bytes(&self) -> Seq<u8> {
        encode_utf8(self.name@)
    }

    /// The name of the interface.
    pub fn name(&self) -> (name: String)
        ensures
            name@ == self@.name,
    {
        self.name.clone()
    }

    /// The queue of an index: the one queue has the index 0.
    pub fn queue(&self, index: usize) -> (queue: Option<&Queue>)
        ensures
            index == 0 <==> queue is Some,
            queue matches Some(q) ==> q.fd() == self@.queue,
    {
        if index == 0 {
            Some(&self.queue)
        } else {
            None
        }
    }

    pub fn as_raw_fd(&self) -> (fd: i32)
        ensures
            fd == self@.queue,
    {
        self.queue.as_raw_fd()
    }

    /// The header is always there.
    pub fn has_packet_information(&self) -> (pi: bool)
        ensures
            pi,
    {
        self.queue.has_packet_information()
    }

    /// The descriptor on which the control calls are issued.
    pub fn control_fd(&self) -> (fd: i32)
        ensures
            fd == self@.control,
            fd >= 0,
    {
        self.ctl.as_raw_fd()
    }

    /// A request that names the interface and carries nothing else.
    pub fn ifreq(&self) -> (request: IfReq)
        ensures
            request.name@ == padded(self.name_bytes()),
            request.payload == Payload::Zeroed,
    {
        proof {
            use_type_invariant(self);
        }
        IfReq { name: name_field(self.name.as_str()), payload: Payload::Zeroed }
    }

    /// The control call for an operation on an attribute: on the control
    /// descriptor, with the platform's code, naming the interface and
    /// carrying the value to store, if there is one.
    pub fn control(&self, op: ControlOp) -> (call: ControlCall)
        ensures
            call.fd == self@.control,
            call.code == code_of(op),
            call.request.name@ == padded(self.name_bytes()),
            call.request.payload == payload_of(op),
    {
        proof {
            use_type_invariant(self);
        }
        ControlCall {
            fd: self.ctl.as_raw_fd(),
            code: control_code(op),
            request: request_for(self.name.as_str(), op),
        }
    }

    /// The call that sets address, broadcast address and mask at once; the
    /// generic calls do not reliably set the mask on this family.
    pub fn set_alias(&self, addr: Ipv4Address, broadaddr: Ipv4Address, mask: Ipv4Address) -> (call:
        AliasCall)
        ensures
            call.fd == self@.control,
            call.code == siocaifaddr(),
            call.request.name@ == padded(self.name_bytes()),
            call.request.addr == addr.sockaddr(),
            call.request.broadaddr == broadaddr.sockaddr(),
            call.request.mask == mask.sockaddr(),
    {
        proof {
            use_type_invariant(self);
        }
        AliasCall {
            fd: self.ctl.as_raw_fd(),
            code: request_code(IOC_IN, GROUP_INTERFACE, 26, IFALIASREQ_SIZE),
            request: IfAliasReq {
                name: name_field(self.name.as_str()),
                addr: addr.to_sockaddr(),
                broadaddr: broadaddr.to_sockaddr(),
                mask: mask.to_sockaddr(),
            },
        }
    }

    /// The name of an interface of this family is fixed when it is created:
    /// every renaming is refused, and the device stays as it is.
    pub fn set_name(&mut self, name: &str) -> (r: Result<(), Error>)
        ensures
            r == Err::<(), Error>(Error::InvalidName),
            *final(self) == *old(self),
    {
        Err(Error::InvalidName)
    }
}

/// Where the creation of a device stands.
#[derive(Debug, Clone, Copy, PartialEq, Eq, Structural)]
pub enum Phase {
    /// The system socket is to be opened.
    Socket,
    /// The number of the control is to be resolved.
    Resolving(i32),
    /// The socket is to be connected to the control.
    Connecting(i32),
    /// The name of the interface is to be read.
    Naming(i32),
    /// The socket for the control calls is to be opened.
    Control(i32),
    /// The creation has ended, with a device or with a failure.
    Closed,
}

/// What the caller reports after it has done what an action asked for.
#[derive(Debug)]
pub enum Event {
    /// The descriptor that opening a socket returned.
    Opened(i32),
    /// The number of the control, as the kernel filled it in.
    Resolved(u32),
    /// The socket is connected.
    Connected,
    /// The name of the interface, as the kernel wrote it.
    Named([u8; 16]),
    /// The system call failed with this error.
    Failed(Error),
}

/// What the caller is to do next.
#[derive(Debug)]
pub enum Action {
    /// Open a datagram socket of this family and protocol.
    OpenSystemSocket { family: u8, protocol: i32 },
    /// Issue the call of this code on the descriptor, with the request, and
    /// report the number that the kernel fills in.
    Resolve { fd: i32, code: u64, info: CtlInfo },
    /// Connect the descriptor to the address.
    Connect { fd: i32, addr: SockAddrCtl },
    /// Read the socket option of this level and number into a name field.
    ReadName { fd: i32, level: i32, option: i32 },
    /// Open a datagram socket of the IPv4 family for the control calls.
    OpenControl,
    /// The device exists. It is to be configured, and then given its alias.
    Done(Tun),
    /// The creation failed; these descriptors are to be closed.
    Fail { error: Error, release: Vec<i32> },
}

/// The creation of a device, step by step: the library decides, the caller
/// performs the system calls.
#[derive(Debug)]
pub struct Creation {
    unit: u32,
    name: [u8; 16],
    phase: Phase,
}

impl Creation {
    #[verifier::type_invariant]
    spec fn well_formed(self) -> bool {
        match self.phase {
            Phase::Socket => true,
            Phase::Resolving(fd) => fd >= 0,
            Phase::Connecting(fd) => fd >= 0,
            Phase::Naming(fd) => fd >= 0,
            Phase::Control(fd) => fd >= 0,
            Phase::Closed => true,
        }
    }

    pub closed spec fn phase(&self) -> Phase {
        self.phase
    }

    /// The unit number of the interface asked for.
    pub closed spec fn unit(&self) -> u32 {
        self.unit
    }

    /// The name field as the kernel wrote it, once it has been read.
    pub closed spec fn name(&self) -> [u8; 16] {
        self.name
    }

    /// Every descriptor that the caller has opened and that the creation has
    /// not handed on.
    pub open spec fn held(&self) -> Seq<i32> {
        match self.phase() {
            Phase::Resolving(fd) => seq![fd],
            Phase::Connecting(fd) => seq![fd],
            Phase::Naming(fd) => seq![fd],
            Phase::Control(fd) => seq![fd],
            _ => Seq::empty(),
        }
    }

    /// Begins the creation of a device. A configuration that cannot be
    /// served is refused here, before anything is opened; otherwise the
    /// first action is to open the system socket.
    pub fn start(config: &Configuration) -> (r: (Creation, Action))
        ensures
            match verdict(*config) {
                Verdict::Unit(unit) => {
                    &&& r.0.phase() == Phase::Socket
                    &&& r.0.unit() == unit
                    &&& r.1 matches Action::OpenSystemSocket { family, protocol }
                    &&& family == AF_SYSTEM
                    &&& protocol == SYSPROTO_CONTROL
                },
                refused => {
                    &&& r.0.phase() == Phase::Closed
                    &&& r.1 matches Action::Fail { error, release }
                    &&& outcome_of(refused) == Err::<u32, Error>(error)
                    &&& release@.len() == 0
                },
            },
    {
        match unit_of(config) {
            Ok(unit) => (
                Creation { unit, name: [0u8; 16], phase: Phase::Socket },
                Action::OpenSystemSocket { family: AF_SYSTEM, protocol: SYSPROTO_CONTROL },
            ),
            Err(error) => (
                Creation { unit: 0, name: [0u8; 16], phase: Phase::Closed },
                Action::Fail { error, release: Vec::new() },
            ),
        }
    }

    /// Ends the creation with a failure, and hands back every descriptor
    /// that is held.
    fn fail(self, error: Error) -> (r: (Creation, Action))
        ensures
            r.0.phase() == Phase::Closed,
            r.0.unit() == self.unit(),
            r.1 matches Action::Fail { error: e, release } && e == error && release@
                == self.held(),
    {
        let mut release: Vec<i32> = Vec::new();
        match self.phase {
            Phase::Resolving(fd) => release.push(fd),
            Phase::Connecting(fd) => release.push(fd),
            Phase::Naming(fd) => release.push(fd),
            Phase::Control(fd) => release.push(fd),
            _ => {},
        }
        assert(release@ =~= self.held());
        (
            Creation { unit: self.unit, name: self.name, phase: Phase::Closed },
            Action::Fail { error, release },
        )
    }

    /// Takes the outcome of the last action and decides the next.
    ///
    /// The socket, once open, is asked for the number of the control, then
    /// connected to it for the unit, then asked for the name of the
    /// interface; with the control socket the device is complete. A negative
    /// descriptor is refused as `InvalidDescriptor`. A failed system call
    /// ends the creation with its error, unchanged. An event that does not
    /// answer the action which was due ends it with `InvalidConfig`.
    /// Whenever the creation fails, every descriptor held so far is handed
    /// back to be closed.
    pub fn advance(self, event: Event) -> (r: (Creation, Action))
        ensures
            self.phase() != Phase::Closed ==> r.0.unit() == self.unit(),
            match (self.phase(), event) {
                (Phase::Socket, Event::Opened(fd)) if fd >= 0 => {
                    &&& r.0.phase() == Phase::Resolving(fd)
                    &&& r.1 matches Action::Resolve { fd: f, code, info }
                    &&& f == fd
                    &&& code == ctliocginfo()
                    &&& info.id == 0
                    &&& info.name@ == control_name(UTUN_CONTROL_NAME.spec_bytes())
                },
                (Phase::Resolving(fd), Event::Resolved(id)) => {
                    &&& r.0.phase() == Phase::Connecting(fd)
                    &&& r.1 matches Action::Connect { fd: f, addr }
                    &&& f == fd
                    &&& addr == control_address(id, self.unit())
                },
                (Phase::Connecting(fd), Event::Connected) => {
                    &&& r.0.phase() == Phase::Naming(fd)
                    &&& r.1 matches Action::ReadName { fd: f, level, option }
                    &&& f == fd
                    &&& level == SYSPROTO_CONTROL
                    &&& option == UTUN_OPT_IFNAME
                },
                (Phase::Naming(fd), Event::Named(name)) => {
                    &&& r.0.phase() == Phase::Control(fd)
                    &&& r.0.name() == name
                    &&& r.1 is OpenControl
                },
                (Phase::Control(queue), Event::Opened(fd)) if fd >= 0 => {
                    &&& r.0.phase() == Phase::Closed
                    &&& if encode_utf8(name_in(self.name()@)).len() <= NAME_LEN {
                        &&& r.1 matches Action::Done(tun)
                        &&& tun@.name == name_in(self.name()@)
                        &&& valid_utf8(before_nul(self.name()@)) ==> tun@.name == decode_utf8(
                            before_nul(self.name()@),
                        )
                        &&& tun@.control == fd
                        &&& tun@.queue == queue
                    } else {
                        &&& r.1 matches Action::Fail { error, release }
                        &&& error == Error::InvalidName
                        &&& release@ == seq![queue, fd]
                    }
                },
                (Phase::Socket, Event::Opened(_)) | (Phase::Control(_), Event::Opened(_)) => {
                    &&& r.0.phase() == Phase::Closed
                    &&& r.1 matches Action::Fail { error, release }
                    &&& error == Error::InvalidDescriptor
                    &&& release@ == self.held()
                },
                (Phase::Closed, _) => {
                    &&& r.0.phase() == Phase::Closed
                    &&& r.1 matches Action::Fail { error, release }
                    &&& error == Error::InvalidConfig
                    &&& release@.len() == 0
                },
                (_, Event::Failed(e)) => {
                    &&& r.0.phase() == Phase::Closed
                    &&& r.1 matches Action::Fail { error, release }
                    &&& error == e
                    &&& release@ == self.held()
                },
                _ => {
                    &&& r.0.phase() == Phase::Closed
                    &&& r.1 matches Action::Fail { error, release }
                    &&& error == Error::InvalidConfig
                    &&& release@ == self.held()
                },
            },
    {
        proof {
            use_type_invariant(&self);
        }
        let unit = self.unit;
        match (self.phase, event) {
            (Phase::Closed, _) => self.fail(Error::InvalidConfig),
            (_, Event::Failed(e)) => self.fail(e),
            (Phase::Socket, Event::Opened(fd)) => {
                if fd < 0 {
                    return self.fail(Error::InvalidDescriptor);
                }
                (
                    Creation { unit, name: self.name, phase: Phase::Resolving(fd) },
                    Action::Resolve {
                        fd,
                        code: request_code(IOC_INOUT, GROUP_CONTROL, 3, CTL_INFO_SIZE),
                        info: control_info(),
                    },
                )
            },
            (Phase::Resolving(fd), Event::Resolved(id)) => (
                Creation { unit, name: self.name, phase: Phase::Connecting(fd) },
                Action::Connect {
                    fd,
                    addr: SockAddrCtl {
                        len: SOCKADDR_CTL_SIZE,
                        family: AF_SYSTEM,
                        sysaddr: AF_SYS_CONTROL,
                        id,
                        unit,
                    },
                },
            ),
            (Phase::Connecting(fd), Event::Connected) => (
                Creation { unit, name: self.name, phase: Phase::Naming(fd) },
                Action::ReadName { fd, level: SYSPROTO_CONTROL, option: UTUN_OPT_IFNAME },
            ),
            (Phase::Naming(fd), Event::Named(name)) => (
                Creation { unit, name, phase: Phase::Control(fd) },
                Action::OpenControl,
            ),
            (Phase::Control(queue), Event::Opened(fd)) => {
                let ctl = match Fd::new(fd) {
                    Ok(ctl) => ctl,
                    Err(_) => {
                        return self.fail(Error::InvalidDescriptor);
                    },
                };
                let tun = match Fd::new(queue) {
                    Ok(tun) => tun,
                    Err(_) => {
                        return self.fail(Error::InvalidDescriptor);
                    },
                };
                let closed = Creation { unit, name: self.name, phase: Phase::Closed };
                let name = interface_name(&self.name);
                if name.as_str().as_bytes().len() > NAME_LEN {
                    let mut release: Vec<i32> = Vec::new();
                    release.push(queue);
                    release.push(fd);
                    assert(release@ =~= seq![queue, fd]);
                    return (closed, Action::Fail { error: Error::InvalidName, release });
                }
                (closed, Action::Done(Tun { name, queue: Queue { tun }, ctl }))
            },
            _ => self.fail(Error::InvalidConfig),
        }
    }
}

/// Whatever else a configuration asks for, with a number of queues other
/// than one nothing is opened; and where nothing else is wrong with it, the
/// error is `InvalidQueuesNumber`.
pub proof fn lemma_other_queue_count_is_refused(config: Configuration)
    requires
        config.queues is Some,
        config.queues != Some(1usize),
    ensures
        !(verdict(config) is Unit),
        config.name is None && config.layer == Layer::L3 ==> verdict(config)
            == Verdict::InvalidQueuesNumber,
{
}

} // verus!
