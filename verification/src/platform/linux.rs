//! The character-device family: one device node opened once per queue, an
//! attach call on each, and a datagram socket for the control calls.

use crate::configuration::{Configuration, Layer};
use crate::error::Error;
use crate::platform::posix::Fd;
use crate::platform::request::{
    before_nul, interface_name, name_field, name_in, padded, payload_of, request_for,
    ControlCall, ControlOp, IfReq, Payload, NAME_LEN,
};
use vstd::prelude::*;
use vstd::string::StringSliceAdditionalSpecFns;
use vstd::utf8::{decode_utf8, encode_utf8, valid_utf8};

verus! {

/// The flag of an interface that carries IP packets.
pub const IFF_TUN: i16 = 0x0001;

/// The flag of an interface that carries Ethernet frames.
pub const IFF_TAP: i16 = 0x0002;

/// The flag that switches the packet-information header off.
pub const IFF_NO_PI: i16 = 0x1000;

/// The flag of an interface with more than one queue.
pub const IFF_MULTI_QUEUE: i16 = 0x0100;

pub const SIOCGIFNAME: u64 = 0x8910;

pub const SIOCGIFFLAGS: u64 = 0x8913;

pub const SIOCSIFFLAGS: u64 = 0x8914;

pub const SIOCGIFADDR: u64 = 0x8915;

pub const SIOCSIFADDR: u64 = 0x8916;

pub const SIOCGIFDSTADDR: u64 = 0x8917;

pub const SIOCSIFDSTADDR: u64 = 0x8918;

pub const SIOCGIFBRDADDR: u64 = 0x8919;

pub const SIOCSIFBRDADDR: u64 = 0x891a;

pub const SIOCGIFNETMASK: u64 = 0x891b;

pub const SIOCSIFNETMASK: u64 = 0x891c;

pub const SIOCGIFMTU: u64 = 0x8921;

pub const SIOCSIFMTU: u64 = 0x8922;

pub const SIOCSIFNAME: u64 = 0x8923;

/// The code of the call that attaches a descriptor of the device node to an
/// interface.
pub const TUNSETIFF: u64 = 0x4004_54ca;

/// The code of a call that writes `size` bytes, of the group `group` and the
/// number `nr`: direction, size, group and number, from the top down.
pub open spec fn write_code(group: u8, nr: u8, size: u16) -> u64 {
    (1u64 << 30) | ((size as u64) << 16) | ((group as u64) << 8) | (nr as u64)
}

/// Puts together the code of a call that writes to the kernel. The size has
/// the fourteen bits that the code gives it.
pub fn request_code_write(group: u8, nr: u8, size: u16) -> (code: u64)
    requires
        size < 0x4000,
    ensures
        code == write_code(group, nr, size),
{
    (1u64 << 30) | ((size as u64) << 16) | ((group as u64) << 8) | (nr as u64)
}

/// The attach call is the call of the group `T` with the number 202 that
/// writes an integer of four bytes.
pub proof fn lemma_tunsetiff_code()
    ensures
        write_code(0x54, 202, 4) == TUNSETIFF,
{
    assert(((1u64 << 30) | ((4u16 as u64) << 16) | ((0x54u8 as u64) << 8) | (202u8 as u64))
        == 0x4004_54ca) by (bit_vector);
}

/// The flag for the layer at which the interface works.
pub open spec fn layer_flag(layer: Layer) -> i16 {
    match layer {
        Layer::L2 => IFF_TAP,
        Layer::L3 => IFF_TUN,
    }
}

/// The flag for the layer at which the interface works.
pub fn device_type(layer: Layer) -> (flag: i16)
    ensures
        flag == layer_flag(layer),
{
    match layer {
        Layer::L2 => IFF_TAP,
        Layer::L3 => IFF_TUN,
    }
}

/// The flags of the attach call: the layer, no packet information unless it
/// was asked for, and several queues if more than one was asked for.
pub open spec fn attach_flags_of(layer: Layer, pi: bool, queues: nat) -> i16 {
    layer_flag(layer) | (if pi {
        0i16
    } else {
        IFF_NO_PI
    }) | (if queues > 1 {
        IFF_MULTI_QUEUE
    } else {
        0i16
    })
}

/// Works out the flags of the attach call.
pub fn attach_flags(layer: Layer, pi: bool, queues: usize) -> (flags: i16)
    ensures
        flags == attach_flags_of(layer, pi, queues as nat),
{
    device_type(layer) | (if pi {
        0i16
    } else {
        IFF_NO_PI
    }) | (if queues > 1 {
        IFF_MULTI_QUEUE
    } else {
        0i16
    })
}

/// Each of the three choices shows in its own bit of the flags.
pub proof fn lemma_attach_flags(layer: Layer, pi: bool, queues: nat)
    ensures
        attach_flags_of(layer, pi, queues) & IFF_NO_PI == 0 <==> pi,
        attach_flags_of(layer, pi, queues) & IFF_MULTI_QUEUE != 0 <==> queues > 1,
        attach_flags_of(layer, pi, queues) & (IFF_TUN | IFF_TAP) == layer_flag(layer),
{
    let l = layer_flag(layer);
    let p = if pi { 0i16 } else { IFF_NO_PI };
    let q = if queues > 1 { IFF_MULTI_QUEUE } else { 0i16 };
    assert((l | p | q) & 0x1000i16 == p && (l | p | q) & 0x0100i16 == q && (l | p | q) & (0x0001i16
        | 0x0002i16) == l) by (bit_vector)
        requires
            l == 0x0001i16 || l == 0x0002i16,
            p == 0i16 || p == 0x1000i16,
            q == 0i16 || q == 0x0100i16,
    ;
}

/// The platform's code of an operation on an attribute.
pub open spec fn code_of(op: ControlOp) -> u64 {
    match op {
        ControlOp::GetFlags => SIOCGIFFLAGS,
        ControlOp::SetFlags(_) => SIOCSIFFLAGS,
        ControlOp::GetAddress => SIOCGIFADDR,
        ControlOp::SetAddress(_) => SIOCSIFADDR,
        ControlOp::GetDestination => SIOCGIFDSTADDR,
        ControlOp::SetDestination(_) => SIOCSIFDSTADDR,
        ControlOp::GetBroadcast => SIOCGIFBRDADDR,
        ControlOp::SetBroadcast(_) => SIOCSIFBRDADDR,
        ControlOp::GetNetmask => SIOCGIFNETMASK,
        ControlOp::SetNetmask(_) => SIOCSIFNETMASK,
        ControlOp::GetMtu => SIOCGIFMTU,
        ControlOp::SetMtu(_) => SIOCSIFMTU,
    }
}

/// The platform's code of an operation on an attribute.
pub fn control_code(op: ControlOp) -> (code: u64)
    ensures
        code == code_of(op),
{
    match op {
        ControlOp::GetFlags => SIOCGIFFLAGS,
        ControlOp::SetFlags(_) => SIOCSIFFLAGS,
        ControlOp::GetAddress => SIOCGIFADDR,
        ControlOp::SetAddress(_) => SIOCSIFADDR,
        ControlOp::GetDestination => SIOCGIFDSTADDR,
        ControlOp::SetDestination(_) => SIOCSIFDSTADDR,
        ControlOp::GetBroadcast => SIOCGIFBRDADDR,
        ControlOp::SetBroadcast(_) => SIOCSIFBRDADDR,
        ControlOp::GetNetmask => SIOCGIFNETMASK,
        ControlOp::SetNetmask(_) => SIOCSIFNETMASK,
        ControlOp::GetMtu => SIOCGIFMTU,
        ControlOp::SetMtu(_) => SIOCSIFMTU,
    }
}

/// One queue of an interface: its descriptor, and whether its packets carry
/// the packet-information header.
#[derive(Debug)]
pub struct Queue {
    tun: Fd,
    pi_enabled: bool,
}

impl Queue {
    /// The number of the queue's descriptor.
    pub closed spec fn fd(&self) -> int {
        self.tun@
    }

    /// Whether the queue's packets carry the header.
    pub closed spec fn packet_information(&self) -> bool {
        self.pi_enabled
    }

    pub fn has_packet_information(&self) -> (pi: bool)
        ensures
            pi == self.packet_information(),
    {
        self.pi_enabled
    }

    pub fn as_raw_fd(&self) -> (fd: i32)
        ensures
            fd == self.fd(),
            fd >= 0,
    {
        self.tun.as_raw_fd()
    }
}

/// What a device is, seen from outside: its name, the descriptor for its
/// control calls, the descriptors of its queues in their order, and whether
/// packets carry the header.
pub struct TunView {
    pub name: Seq<char>,
    pub control: int,
    pub queues: Seq<int>,
    pub packet_information: bool,
}

/// A device: one interface with its queues. All queues share the name, the
/// control descriptor and the choice of the header; their number is fixed.
#[derive(Debug)]
pub struct Tun {
    name: String,
    queues: Vec<Queue>,
    ctl: Fd,
}

impl View for Tun {
    type V = TunView;

    closed spec fn view(&self) -> TunView {
        TunView {
            name: self.name@,
            control: self.ctl@,
            queues: Seq::new(self.queues@.len(), |i: int| self.queues@[i].fd()),
            packet_information: self.queues@[0].packet_information(),
        }
    }
}

impl Tun {
    #[verifier::type_invariant]
    spec fn well_formed(self) -> bool {
        &&& encode_utf8(self.name@).len() <= NAME_LEN
        &&& self.queues@.len() >= 1
        &&& forall|i: int|
            0 <= i < self.queues@.len() ==> (#[trigger] self.queues@[i]).packet_information()
                == self.queues@[0].packet_information()
    }

    /// The bytes of the device's name.
    pub closed spec fn name_bytes(&self) -> Seq<u8> {
        encode_utf8(self.name@)
    }

    /// The name of the interface.
    pub fn name(&self) -> (name: String)
        ensures
            name@ == self@.name,
    {
        self.name.clone()
    }

    /// The number of queues, of which there is at least one.
    pub fn queues(&self) -> (n: usize)
        ensures
            n == self@.queues.len(),
            n >= 1,
    {
        proof {
            use_type_invariant(self);
        }
        self.queues.len()
    }

    /// The queue of an index, if the device has that many.
    pub fn queue(&self, index: usize) -> (queue: Option<&Queue>)
        ensures
            index < self@.queues.len() <==> queue is Some,
            queue matches Some(q) ==> q.fd() == self@.queues[index as int]
                && q.packet_information() == self@.packet_information,
    {
        proof {
            use_type_invariant(self);
        }
        if index < self.queues.len() {
            Some(&self.queues[index])
        } else {
            None
        }
    }

    /// The descriptor of the first queue.
    pub fn as_raw_fd(&self) -> (fd: i32)
        ensures
            fd == self@.queues[0],
    {
        proof {
            use_type_invariant(self);
        }
        self.queues[0].as_raw_fd()
    }

    pub fn has_packet_information(&self) -> (pi: bool)
        ensures
            pi == self@.packet_information,
    {
        proof {
            use_type_invariant(self);
        }
        self.queues[0].has_packet_information()
    }

    /// The descriptor on which the control calls are issued.
    pub fn control_fd(&self) -> (fd: i32)
        ensures
            fd == self@.control,
            fd >= 0,
    {
        self.ctl.as_raw_fd()
    }

    /// A request that names the interface and carries nothing else.
    pub fn ifreq(&self) -> (request: IfReq)
        ensures
            request.name@ == padded(self.name_bytes()),
            request.payload == Payload::Zeroed,
    {
        proof {
            use_type_invariant(self);
        }
        IfReq { name: name_field(self.name.as_str()), payload: Payload::Zeroed }
    }

    /// The control call for an operation on an attribute: on the control
    /// descriptor, with the platform's code, naming the interface and
    /// carrying the value to store, if there is one.
    pub fn control(&self, op: ControlOp) -> (call: ControlCall)
        ensures
            call.fd == self@.control,
            call.code == code_of(op),
            call.request.name@ == padded(self.name_bytes()),
            call.request.payload == payload_of(op),
    {
        proof {
            use_type_invariant(self);
        }
        ControlCall {
            fd: self.ctl.as_raw_fd(),
            code: control_code(op),
            request: request_for(self.name.as_str(), op),
        }
    }

    /// The control call that renames the interface, or `NameTooLong` for a
    /// name that the name field cannot hold.
    pub fn rename_call(&self, new_name: &str) -> (r: Result<ControlCall, Error>)
        ensures
            new_name.spec_bytes().len() > NAME_LEN ==> r == Err::<ControlCall, Error>(
                Error::NameTooLong,
            ),
            new_name.spec_bytes().len() <= NAME_LEN ==> {
                &&& r is Ok
                &&& r->Ok_0.fd == self@.control
                &&& r->Ok_0.code == SIOCSIFNAME
                &&& r->Ok_0.request.name@ == padded(self.name_bytes())
                &&& r->Ok_0.request.payload matches Payload::NewName(field)
                &&& field@ == padded(new_name.spec_bytes())
            },
    {
        proof {
            use_type_invariant(self);
        }
        if new_name.as_bytes().len() > NAME_LEN {
            return Err(Error::NameTooLong);
        }
        Ok(
            ControlCall {
                fd: self.ctl.as_raw_fd(),
                code: SIOCSIFNAME,
                request: IfReq {
                    name: name_field(self.name.as_str()),
                    payload: Payload::NewName(name_field(new_name)),
                },
            },
        )
    }

    /// Takes note of how the renaming went. The device has the new name only
    /// if the call succeeded; a name that is too long, for which no call was
    /// made, and a call that failed leave the name as it was.
    pub fn set_name(&mut self, new_name: &str, outcome: Result<(), Error>) -> (r: Result<
        (),
        Error,
    >)
        ensures
            final(self)@.control == old(self)@.control,
            final(self)@.queues == old(self)@.queues,
            final(self)@.packet_information == old(self)@.packet_information,
            new_name.spec_bytes().len() > NAME_LEN ==> {
                &&& r == Err::<(), Error>(Error::NameTooLong)
                &&& final(self)@.name == old(self)@.name
            },
            new_name.spec_bytes().len() <= NAME_LEN ==> match outcome {
                Ok(()) => r is Ok && final(self)@.name == new_name@,
                Err(e) => r == Err::<(), Error>(e) && final(self)@.name == old(self)@.name,
            },
    {
        proof {
            use_type_invariant(&*self);
        }
        if new_name.as_bytes().len() > NAME_LEN {
            return Err(Error::NameTooLong);
        }
        match outcome {
            Ok(()) => {
                self.name = new_name.to_owned();
                assert(self@.queues =~= old(self)@.queues);
                Ok(())
            },
            Err(e) => Err(e),
        }
    }
}

/// Where the creation of a device stands.
#[derive(Debug, Clone, Copy, PartialEq, Eq, Structural)]
pub enum Phase {
    /// The device node is to be opened for the next queue.
    Opening,
    /// The descriptor is open and is to be attached to the interface.
    Attaching(i32),
    /// All queues are attached; the control socket is to be opened.
    Control,
    /// The creation has ended, with a device or with a failure.
    Closed,
}

/// What the caller reports after it has done what an action asked for.
#[derive(Debug)]
pub enum Event {
    /// The descriptor that an open returned.
    Opened(i32),
    /// The attach call succeeded; the kernel wrote this into the name field.
    Attached([u8; 16]),
    /// The system call failed with this error.
    Failed(Error),
}

/// What the caller is to do next.
#[derive(Debug)]
pub enum Action {
    /// Open the device node for reading and writing.
    OpenDevice,
    /// Issue the call of this code on the descriptor, with the request.
    Attach { fd: i32, code: u64, request: IfReq },
    /// Open a datagram socket of the IPv4 family for the control calls.
    OpenControl,
    /// The device exists.
    Done(Tun),
    /// The creation failed; these descriptors are to be closed.
    Fail { error: Error, release: Vec<i32> },
}

/// The creation of a device, step by step: the library decides, the caller
/// performs the system calls.
#[derive(Debug)]
pub struct Creation {
    request: IfReq,
    pi: bool,
    wanted: usize,
    attached: Vec<i32>,
    phase: Phase,
}

/// Descriptors as plain numbers.
pub open spec fn numbers(fds: Seq<i32>) -> Seq<int> {
    Seq::new(fds.len(), |i: int| fds[i] as int)
}

/// The creation of a device, seen from outside.
pub struct CreationView {
    pub phase: Phase,
    /// The request that every attach call carries: the name asked for, or
    /// the one that the kernel gave, and the flags.
    pub request: IfReq,
    pub packet_information: bool,
    /// The number of queues asked for.
    pub wanted: nat,
    /// The descriptors of the queues attached so far, in their order.
    pub attached: Seq<i32>,
}

/// An action, seen from outside: its device and its descriptors as what
/// they stand for.
pub enum ActionView {
    OpenDevice,
    Attach { fd: i32, code: u64, request: IfReq },
    OpenControl,
    Done(TunView),
    Fail { error: Error, release: Seq<i32> },
}

impl View for Action {
    type V = ActionView;

    open spec fn view(&self) -> ActionView {
        match *self {
            Action::OpenDevice => ActionView::OpenDevice,
            Action::Attach { fd, code, request } => ActionView::Attach { fd, code, request },
            Action::OpenControl => ActionView::OpenControl,
            Action::Done(tun) => ActionView::Done(tun@),
            Action::Fail { error, release } => ActionView::Fail { error, release: release@ },
        }
    }
}

impl CreationView {
    /// Every descriptor that the caller has opened and that the creation has
    /// not handed on: the queues attached, and the one about to be.
    pub open spec fn held(self) -> Seq<i32> {
        match self.phase {
            Phase::Attaching(fd) => self.attached.push(fd),
            _ => self.attached,
        }
    }

    /// The creation once it is over: it holds no descriptor any more.
    pub open spec fn closed(self) -> CreationView {
        CreationView { phase: Phase::Closed, attached: Seq::empty(), ..self }
    }

    /// The end of the creation with a failure: every descriptor that is held
    /// is handed back to be closed.
    pub open spec fn fail(self, error: Error) -> (CreationView, ActionView) {
        (self.closed(), ActionView::Fail { error, release: self.held() })
    }

    /// The device that the creation makes with a control descriptor.
    pub open spec fn device(self, control: int) -> TunView {
        TunView {
            name: name_in(self.request.name@),
            control,
            queues: numbers(self.attached),
            packet_information: self.packet_information,
        }
    }

    /// What follows from an event: where the creation then stands, and what
    /// the caller is to do.
    ///
    /// A descriptor from an open is attached, or becomes the control
    /// descriptor once all queues are there; a negative one is refused as
    /// `InvalidDescriptor`. An attach that succeeded adds the queue and
    /// keeps the name that the kernel wrote back. With the control
    /// descriptor the device is complete, unless the name that the kernel
    /// wrote is one that no request can carry, which is `InvalidName`. A
    /// failed system call ends the creation with its error, unchanged. An
    /// event that does not answer the action which was due, or that comes
    /// when the creation is over, ends it with `InvalidConfig`.
    pub open spec fn next(self, event: Event) -> (CreationView, ActionView) {
        match (self.phase, event) {
            (Phase::Closed, _) => (
                self.closed(),
                ActionView::Fail { error: Error::InvalidConfig, release: Seq::empty() },
            ),
            (_, Event::Failed(e)) => self.fail(e),
            (Phase::Opening, Event::Opened(fd)) => if fd >= 0 {
                (
                    CreationView { phase: Phase::Attaching(fd), ..self },
                    ActionView::Attach { fd, code: TUNSETIFF, request: self.request },
                )
            } else {
                self.fail(Error::InvalidDescriptor)
            },
            (Phase::Attaching(fd), Event::Attached(name)) => {
                let attached = self.attached.push(fd);
                let request = IfReq { name, payload: self.request.payload };
                if attached.len() < self.wanted {
                    (
                        CreationView { phase: Phase::Opening, attached, request, ..self },
                        ActionView::OpenDevice,
                    )
                } else {
                    (
                        CreationView { phase: Phase::Control, attached, request, ..self },
                        ActionView::OpenControl,
                    )
                }
            },
            (Phase::Control, Event::Opened(fd)) => if fd < 0 {
                self.fail(Error::InvalidDescriptor)
            } else if encode_utf8(name_in(self.request.name@)).len() <= NAME_LEN {
                (self.closed(), ActionView::Done(self.device(fd as int)))
            } else {
                (
                    self.closed(),
                    ActionView::Fail {
                        error: Error::InvalidName,
                        release: self.attached.push(fd),
                    },
                )
            },
            _ => self.fail(Error::InvalidConfig),
        }
    }
}

impl View for Creation {
    type V = CreationView;

    closed spec fn view(&self) -> CreationView {
        CreationView {
            phase: self.phase,
            request: self.request,
            packet_information: self.pi,
            wanted: self.wanted as nat,
            attached: self.attached@,
        }
    }
}

impl Creation {
    #[verifier::type_invariant]
    spec fn well_formed(self) -> bool {
        &&& forall|i: int| 0 <= i < self.attached@.len() ==> self.attached@[i] >= 0
        &&& match self.phase {
            Phase::Opening => self.attached@.len() < self.wanted,
            Phase::Attaching(fd) => fd >= 0 && self.attached@.len() < self.wanted,
            Phase::Control => self.attached@.len() == self.wanted && self.wanted >= 1,
            Phase::Closed => self.attached@.len() == 0,
        }
    }

    /// The number of queues that a configuration asks for: one, unless it
    /// says otherwise.
    pub open spec fn queues_of(config: Configuration) -> nat {
        match config.queues {
            Some(n) => n as nat,
            None => 1,
        }
    }

    /// The bytes of the name that a configuration asks for; none where it
    /// leaves the name to the kernel.
    pub open spec fn name_of(config: Configuration) -> Seq<u8> {
        match config.name {
            Some(name) => encode_utf8(name@),
            None => Seq::empty(),
        }
    }

    /// Whether a device can be created from the configuration, as far as
    /// that can be told without a system call: the error if it cannot.
    pub open spec fn refusal(config: Configuration) -> Option<Error> {
        if Self::queues_of(config) < 1 {
            Some(Error::InvalidQueuesNumber)
        } else if Self::name_of(config).len() > NAME_LEN {
            Some(Error::NameTooLong)
        } else {
            None
        }
    }

    /// Begins the creation of a device. A configuration that cannot be
    /// served is refused here, before anything is opened; otherwise the
    /// first action is to open the device node.
    pub fn start(config: &Configuration) -> (r: (Creation, Action))
        ensures
            match Self::refusal(*config) {
                Some(e) => {
                    &&& r.0@.phase == Phase::Closed
                    &&& r.1 matches Action::Fail { error, release }
                    &&& error == e
                    &&& release@.len() == 0
                },
                None => {
                    &&& r.0@.phase == Phase::Opening
                    &&& r.1 is OpenDevice
                    &&& r.0@.attached.len() == 0
                    &&& r.0@.wanted == Self::queues_of(*config)
                    &&& r.0@.packet_information == config.platform.packet_information
                    &&& r.0@.request.name@ == padded(Self::name_of(*config))
                    &&& r.0@.request.payload == Payload::Flags(
                        attach_flags_of(
                            config.layer,
                            config.platform.packet_information,
                            Self::queues_of(*config),
                        ),
                    )
                },
            },
    {
        let wanted: usize = match config.queues {
            Some(n) => n,
            None => 1,
        };
        let pi = config.platform.packet_information;
        let flags = attach_flags(config.layer, pi, wanted);
        let closed = Creation {
            request: IfReq { name: [0u8; 16], payload: Payload::Zeroed },
            pi,
            wanted,
            attached: Vec::new(),
            phase: Phase::Closed,
        };
        if wanted < 1 {
            return (closed, Action::Fail { error: Error::InvalidQueuesNumber, release: Vec::new() });
        }
        let name = match &config.name {
            Some(name) => {
                if name.as_str().as_bytes().len() > NAME_LEN {
                    return (
                        closed,
                        Action::Fail { error: Error::NameTooLong, release: Vec::new() },
                    );
                }
                name_field(name.as_str())
            },
            None => {
                let field = [0u8; 16];
                assert(field@ =~= padded(Seq::<u8>::empty()));
                field
            },
        };
        let creation = Creation {
            request: IfReq { name, payload: Payload::Flags(flags) },
            pi,
            wanted,
            attached: Vec::new(),
            phase: Phase::Opening,
        };
        (creation, Action::OpenDevice)
    }

    /// Ends the creation with a failure, and hands back every descriptor
    /// that is held.
    fn fail(self, error: Error) -> (r: (Creation, Action))
        ensures
            r.0@ == self@.closed(),
            r.1@ == (ActionView::Fail { error, release: self@.held() }),
    {
        let Creation { request, pi, wanted, attached, phase } = self;
        let mut release = attached;
        if let Phase::Attaching(fd) = phase {
            release.push(fd);
        }
        (
            Creation { request, pi, wanted, attached: Vec::new(), phase: Phase::Closed },
            Action::Fail { error, release },
        )
    }

    /// Makes the device of what the creation holds and the control
    /// descriptor.
    fn finish(self, ctl: Fd) -> (r: (Creation, Action))
        requires
            self@.phase == Phase::Control,
        ensures
            r.0@ == self@.closed(),
            i32::MIN <= ctl@ <= i32::MAX,
            r.1@ == if encode_utf8(name_in(self@.request.name@)).len() <= NAME_LEN {
                ActionView::Done(self@.device(ctl@))
            } else {
                ActionView::Fail {
                    error: Error::InvalidName,
                    release: self@.attached.push(ctl@ as i32),
                }
            },
    {
        proof {
            use_type_invariant(&self);
        }
        let ghost before = self@;
        let fd = ctl.as_raw_fd();
        let Creation { request, pi, wanted, attached, phase } = self;
        let closed = Creation { request, pi, wanted, attached: Vec::new(), phase: Phase::Closed };
        let name = interface_name(&request.name);
        if name.as_str().as_bytes().len() > NAME_LEN {
            let mut release = attached;
            release.push(fd);
            return (closed, Action::Fail { error: Error::InvalidName, release });
        }
        let mut queues: Vec<Queue> = Vec::new();
        let mut i: usize = 0;
        while i < attached.len()
            invariant
                i <= attached@.len(),
                queues@.len() == i,
                forall|j: int| 0 <= j < attached@.len() ==> attached@[j] >= 0,
                forall|j: int|
                    0 <= j < i ==> (#[trigger] queues@[j]).fd() == attached@[j]
                        && queues@[j].packet_information() == pi,
            decreases attached@.len() - i,
        {
            match Fd::new(attached[i]) {
                Ok(tun) => {
                    queues.push(Queue { tun, pi_enabled: pi });
                },
                Err(_) => {},
            }
            i += 1;
        }
        let tun = Tun { name, queues, ctl };
        assert(tun@.queues =~= numbers(attached@));
        assert(tun@ == before.device(fd as int));
        (closed, Action::Done(tun))
    }

    /// Takes the outcome of the last action and decides the next: what
    /// follows from the event, as `CreationView::next` says. A device that
    /// comes of it has as many queues as were asked for, and the name that
    /// the kernel wrote, decoded as it is where it is UTF-8.
    pub fn advance(self, event: Event) -> (r: (Creation, Action))
        ensures
            r.0@ == self@.next(event).0,
            r.1@ == self@.next(event).1,
            r.1 matches Action::Done(tun) ==> {
                &&& tun@.queues.len() == self@.wanted
                &&& valid_utf8(before_nul(self@.request.name@)) ==> tun@.name == decode_utf8(
                    before_nul(self@.request.name@),
                )
            },
    {
        proof {
            use_type_invariant(&self);
        }
        match (self.phase, event) {
            (Phase::Closed, _) => {
                assert(self@.held() =~= Seq::<i32>::empty());
                self.fail(Error::InvalidConfig)
            },
            (_, Event::Failed(e)) => self.fail(e),
            (Phase::Opening, Event::Opened(fd)) => {
                if fd < 0 {
                    return self.fail(Error::InvalidDescriptor);
                }
                let Creation { request, pi, wanted, attached, phase } = self;
                (
                    Creation { request, pi, wanted, attached, phase: Phase::Attaching(fd) },
                    Action::Attach { fd, code: TUNSETIFF, request },
                )
            },
            (Phase::Attaching(fd), Event::Attached(name)) => {
                let Creation { request, pi, wanted, attached, phase } = self;
                let mut attached = attached;
                attached.push(fd);
                let request = IfReq { name, payload: request.payload };
                if attached.len() < wanted {
                    (
                        Creation { request, pi, wanted, attached, phase: Phase::Opening },
                        Action::OpenDevice,
                    )
                } else {
                    (
                        Creation { request, pi, wanted, attached, phase: Phase::Control },
                        Action::OpenControl,
                    )
                }
            },
            (Phase::Control, Event::Opened(fd)) => {
                match Fd::new(fd) {
                    Ok(ctl) => self.finish(ctl),
                    Err(_) => self.fail(Error::InvalidDescriptor),
                }
            },
            _ => self.fail(Error::InvalidConfig),
        }
    }
}

/// Where a creation stands after a number of queues were opened and
/// attached one after the other without a failure: the opens returned the
/// descriptors `fds`, in their order, and each attach call wrote `name`
/// back.
pub open spec fn after_queues(
    start: CreationView,
    fds: Seq<i32>,
    name: [u8; 16],
    count: nat,
) -> CreationView
    decreases count,
{
    if count == 0 {
        start
    } else {
        after_queues(start, fds, name, (count - 1) as nat).next(
            Event::Opened(fds[count - 1]),
        ).0.next(Event::Attached(name)).0
    }
}

/// Queues are attached in the order in which they were opened: after any
/// number of them, up to the number asked for, the creation holds exactly
/// their descriptors, in their order, and waits for the next queue, or for
/// the control socket once all are there.
pub proof fn lemma_queues_attach_in_order(
    start: CreationView,
    fds: Seq<i32>,
    name: [u8; 16],
    count: nat,
)
    requires
        start.phase == Phase::Opening,
        start.attached.len() == 0,
        count <= start.wanted,
        count <= fds.len(),
        forall|i: int| 0 <= i < count ==> fds[i] >= 0,
    ensures
        after_queues(start, fds, name, count).attached == fds.take(count as int),
        after_queues(start, fds, name, count).wanted == start.wanted,
        after_queues(start, fds, name, count).packet_information == start.packet_information,
        after_queues(start, fds, name, count).request.payload == start.request.payload,
        count > 0 ==> after_queues(start, fds, name, count).request.name == name,
        after_queues(start, fds, name, count).phase == if count > 0 && count == start.wanted {
            Phase::Control
        } else {
            Phase::Opening
        },
    decreases count,
{
    if count == 0 {
        assert(start.attached =~= fds.take(0));
    } else {
        let before = after_queues(start, fds, name, (count - 1) as nat);
        lemma_queues_attach_in_order(start, fds, name, (count - 1) as nat);
        assert(before.attached.push(fds[count - 1]) =~= fds.take(count as int));
    }
}

/// A creation in which every call succeeds makes a device with exactly the
/// queues that were asked for, however many: their descriptors are those
/// that the opens returned, in their order, and the control descriptor is
/// the one that was opened last.
pub proof fn lemma_every_queue_is_there(
    start: CreationView,
    fds: Seq<i32>,
    name: [u8; 16],
    control: i32,
)
    requires
        start.phase == Phase::Opening,
        start.attached.len() == 0,
        start.wanted >= 1,
        fds.len() == start.wanted,
        forall|i: int| 0 <= i < fds.len() ==> fds[i] >= 0,
        control >= 0,
        encode_utf8(name_in(name@)).len() <= NAME_LEN,
    ensures
        after_queues(start, fds, name, start.wanted).next(Event::Opened(control)).1
            == ActionView::Done(
            TunView {
                name: name_in(name@),
                control: control as int,
                queues: numbers(fds),
                packet_information: start.packet_information,
            },
        ),
        numbers(fds).len() == start.wanted,
{
    lemma_queues_attach_in_order(start, fds, name, start.wanted);
    assert(fds.take(start.wanted as int) =~= fds);
}

/// A queue count of zero is refused before any action: nothing is opened,
/// and nothing is to be closed.
pub proof fn lemma_no_queues_is_refused(config: Configuration)
    requires
        config.queues == Some(0usize),
    ensures
        Creation::refusal(config) == Some(Error::InvalidQueuesNumber),
{
}

} // verus!
