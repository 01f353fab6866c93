use cross_platform_tun::address::{Ipv4AddrExt, Ipv4Address, SockAddr};
use cross_platform_tun::configuration::{Configuration, Layer};
use cross_platform_tun::error::Error;
use cross_platform_tun::interface::Interface;
use cross_platform_tun::platform::linux::{
    attach_flags, control_code, device_type, request_code_write, Action, Creation, Event, Queue,
    Tun, IFF_MULTI_QUEUE, IFF_NO_PI, IFF_TAP, IFF_TUN, SIOCGIFADDR, SIOCGIFFLAGS, SIOCGIFMTU,
    SIOCGIFNETMASK, SIOCSIFADDR, SIOCSIFFLAGS, SIOCSIFMTU, SIOCSIFNAME, SIOCSIFNETMASK, TUNSETIFF,
};
use cross_platform_tun::platform::request::{
    enabled_flags, interface_name, ControlCall, ControlOp, Payload,
};
use std::collections::HashMap;

#[test]
fn attach_code_is_made_of_its_parts() {
    assert_eq!(request_code_write(b'T', 202, 4), 0x4004_54ca);
    assert_eq!(TUNSETIFF, 0x4004_54ca);
    assert_eq!(request_code_write(b'T', 203, 4), 0x4004_54cb);
}

#[test]
fn control_codes_are_those_of_the_platform() {
    assert_eq!(control_code(ControlOp::GetFlags), 0x8913);
    assert_eq!(control_code(ControlOp::SetFlags(0)), 0x8914);
    assert_eq!(control_code(ControlOp::GetAddress), 0x8915);
    assert_eq!(control_code(ControlOp::SetAddress(Ipv4Address::new(0, 0, 0, 0))), 0x8916);
    assert_eq!(control_code(ControlOp::GetDestination), 0x8917);
    assert_eq!(control_code(ControlOp::SetDestination(Ipv4Address::new(0, 0, 0, 0))), 0x8918);
    assert_eq!(control_code(ControlOp::GetBroadcast), 0x8919);
    assert_eq!(control_code(ControlOp::SetBroadcast(Ipv4Address::new(0, 0, 0, 0))), 0x891a);
    assert_eq!(control_code(ControlOp::GetNetmask), 0x891b);
    assert_eq!(control_code(ControlOp::SetNetmask(Ipv4Address::new(0, 0, 0, 0))), 0x891c);
    assert_eq!(control_code(ControlOp::GetMtu), 0x8921);
    assert_eq!(control_code(ControlOp::SetMtu(0)), 0x8922);
    assert_eq!(SIOCSIFNAME, 0x8923);
}

#[test]
fn attach_flags_say_layer_header_and_queues() {
    assert_eq!(device_type(Layer::L3), IFF_TUN);
    assert_eq!(device_type(Layer::L2), IFF_TAP);
    assert_eq!(attach_flags(Layer::L3, false, 1), 0x1001);
    assert_eq!(attach_flags(Layer::L3, true, 1), 0x0001);
    assert_eq!(attach_flags(Layer::L2, false, 1), 0x1002);
    assert_eq!(attach_flags(Layer::L3, false, 2), 0x1101);
    assert_eq!(attach_flags(Layer::L2, true, 8), 0x0102);
    assert_eq!(attach_flags(Layer::L3, false, 0), 0x1001);
    assert_eq!(IFF_NO_PI, 0x1000);
    assert_eq!(IFF_MULTI_QUEUE, 0x0100);
}

/// The kernel as far as these tests need it: it hands out descriptors,
/// names interfaces, and keeps the attributes that are stored.
struct Kernel {
    next_fd: i32,
    opened: Vec<i32>,
    closed: Vec<i32>,
    assigned: [u8; 16],
    attached: Vec<(i32, i16)>,
    fail_open_at: Option<usize>,
    fail_attach_at: Option<usize>,
    flags: i16,
    addresses: HashMap<u64, SockAddr>,
    mtu: i32,
}

impl Kernel {
    fn new() -> Self {
        Kernel {
            next_fd: 3,
            opened: Vec::new(),
            closed: Vec::new(),
            assigned: *b"tun7\0\0\0\0\0\0\0\0\0\0\0\0",
            attached: Vec::new(),
            fail_open_at: None,
            fail_attach_at: None,
            flags: 0,
            addresses: HashMap::new(),
            mtu: 1500,
        }
    }

    fn open(&mut self) -> Event {
        if self.fail_open_at == Some(self.opened.len()) {
            return Event::Failed(Error::Io(std::io::Error::from_raw_os_error(24)));
        }
        let fd = self.next_fd;
        self.next_fd += 1;
        self.opened.push(fd);
        Event::Opened(fd)
    }

    fn perform(&mut self, action: &Action) -> Event {
        match action {
            Action::OpenDevice | Action::OpenControl => self.open(),
            Action::Attach { fd, code, request } => {
                assert_eq!(*code, TUNSETIFF);
                if self.fail_attach_at == Some(self.attached.len()) {
                    return Event::Failed(Error::NixError(nix::errno::Errno::EBUSY));
                }
                let flags = match request.payload {
                    Payload::Flags(f) => f,
                    other => panic!("attach without flags: {other:?}"),
                };
                self.attached.push((*fd, flags));
                if request.name[0] != 0 {
                    self.assigned = request.name;
                }
                Event::Attached(self.assigned)
            }
            other => panic!("nothing to perform for {other:?}"),
        }
    }

    fn create(&mut self, config: &Configuration) -> Result<Tun, Error> {
        let (mut state, mut action) = Creation::start(config);
        loop {
            match action {
                Action::Done(tun) => return Ok(tun),
                Action::Fail { error, release } => {
                    self.closed.extend(release);
                    return Err(error);
                }
                other => {
                    let event = self.perform(&other);
                    (state, action) = state.advance(event);
                }
            }
        }
    }

    fn ioctl(&mut self, call: ControlCall) -> Result<Payload, Error> {
        match call.request.payload {
            Payload::Flags(f) => {
                assert_eq!(call.code, SIOCSIFFLAGS);
                self.flags = f;
                Ok(Payload::Flags(f))
            }
            Payload::Mtu(m) => {
                assert_eq!(call.code, SIOCSIFMTU);
                self.mtu = m;
                Ok(Payload::Mtu(m))
            }
            Payload::Address(a) => {
                self.addresses.insert(call.code - 1, a);
                Ok(Payload::Address(a))
            }
            Payload::NewName(n) => {
                assert_eq!(call.code, SIOCSIFNAME);
                self.assigned = n;
                Ok(Payload::NewName(n))
            }
            Payload::Zeroed => match call.code {
                SIOCGIFFLAGS => Ok(Payload::Flags(self.flags)),
                SIOCGIFMTU => Ok(Payload::Mtu(self.mtu)),
                code => self
                    .addresses
                    .get(&code)
                    .map(|a| Payload::Address(*a))
                    .ok_or(Error::NixError(nix::errno::Errno::EADDRNOTAVAIL)),
            },
        }
    }
}

/// A device as a program would build it around the library's.
struct Device {
    tun: Tun,
    kernel: std::cell::RefCell<Kernel>,
}

impl Device {
    fn build(config: &Configuration) -> Result<Device, Error> {
        let mut kernel = Kernel::new();
        let tun = kernel.create(config)?;
        let mut dev = Device { tun, kernel: std::cell::RefCell::new(kernel) };
        dev.configure(config)?;
        Ok(dev)
    }

    fn get_address(&self, op: ControlOp) -> Result<Ipv4Address, Error> {
        match self.kernel.borrow_mut().ioctl(self.tun.control(op))? {
            Payload::Address(sock) => Ok(Ipv4Address::from_sockaddr(sock)),
            other => panic!("no address in {other:?}"),
        }
    }

    fn set(&mut self, op: ControlOp) -> Result<(), Error> {
        self.kernel.borrow_mut().ioctl(self.tun.control(op)).map(|_| ())
    }
}

impl Interface for Device {
    type Queue = Queue;

    fn name(&self) -> Result<String, Error> {
        Ok(self.tun.name())
    }

    fn set_name(&mut self, name: &str) -> Result<(), Error> {
        let outcome = match self.tun.rename_call(name) {
            Ok(call) => self.kernel.borrow_mut().ioctl(call).map(|_| ()),
            Err(e) => Err(e),
        };
        self.tun.set_name(name, outcome)
    }

    fn enable(&mut self, value: bool) -> Result<(), Error> {
        let flags = self.flags(None)?;
        self.flags(Some(enabled_flags(flags, value)))?;
        Ok(())
    }

    fn flags(&self, flags: Option<i16>) -> Result<i16, Error> {
        let op = match flags {
            Some(f) => ControlOp::SetFlags(f),
            None => ControlOp::GetFlags,
        };
        match self.kernel.borrow_mut().ioctl(self.tun.control(op))? {
            Payload::Flags(f) => Ok(f),
            other => panic!("no flags in {other:?}"),
        }
    }

    fn address(&self) -> Result<Ipv4Address, Error> {
        self.get_address(ControlOp::GetAddress)
    }

    fn set_address(&mut self, addr: Ipv4Address) -> Result<(), Error> {
        self.set(ControlOp::SetAddress(addr))
    }

    fn destination(&self) -> Result<Ipv4Address, Error> {
        self.get_address(ControlOp::GetDestination)
    }

    fn set_destination(&mut self, addr: Ipv4Address) -> Result<(), Error> {
        self.set(ControlOp::SetDestination(addr))
    }

    fn broadcast(&self) -> Result<Ipv4Address, Error> {
        self.get_address(ControlOp::GetBroadcast)
    }

    fn set_broadcast(&mut self, addr: Ipv4Address) -> Result<(), Error> {
        self.set(ControlOp::SetBroadcast(addr))
    }

    fn netmask(&self) -> Result<Ipv4Address, Error> {
        self.get_address(ControlOp::GetNetmask)
    }

    fn set_netmask(&mut self, addr: Ipv4Address) -> Result<(), Error> {
        self.set(ControlOp::SetNetmask(addr))
    }

    fn mtu(&self) -> Result<i32, Error> {
        match self.kernel.borrow_mut().ioctl(self.tun.control(ControlOp::GetMtu))? {
            Payload::Mtu(m) => Ok(m),
            other => panic!("no mtu in {other:?}"),
        }
    }

    fn set_mtu(&mut self, mtu: i32) -> Result<(), Error> {
        self.set(ControlOp::SetMtu(mtu))
    }

    fn queue(&mut self, _index: usize) -> Option<&mut Queue> {
        None
    }
}

#[test]
fn create_for_linux() {
    let mut config = Configuration::default();

    let mut dev = Device::build(
        config
            .name("tun0")
            .address("192.168.50.1")
            .netmask("255.255.255.0")
            .mtu(1400),
    )
    .unwrap();

    assert_eq!("tun0", dev.name().unwrap());

    dev.set_name("tun9").unwrap();
    assert_eq!("tun9", dev.name().unwrap());

    assert_eq!(Ipv4Address::new(192, 168, 50, 1), dev.address().unwrap());

    assert_eq!(Ipv4Address::new(255, 255, 255, 0), dev.netmask().unwrap());

    assert_eq!(1400, dev.mtu().unwrap());
}

#[test]
fn creation_asks_for_one_queue_then_the_control_socket() {
    let mut config = Configuration::default();
    config.name("tun0");
    let (state, action) = Creation::start(&config);
    assert!(matches!(action, Action::OpenDevice));
    let (state, action) = state.advance(Event::Opened(5));
    match action {
        Action::Attach { fd, code, request } => {
            assert_eq!(fd, 5);
            assert_eq!(code, TUNSETIFF);
            assert_eq!(interface_name(&request.name), "tun0");
            assert!(matches!(request.payload, Payload::Flags(0x1001)));
        }
        other => panic!("{other:?}"),
    }
    let (state, action) = state.advance(Event::Attached(*b"tun0\0\0\0\0\0\0\0\0\0\0\0\0"));
    assert!(matches!(action, Action::OpenControl));
    let (state, action) = state.advance(Event::Opened(6));
    let tun = match action {
        Action::Done(tun) => tun,
        other => panic!("{other:?}"),
    };
    assert_eq!(tun.name(), "tun0");
    assert_eq!(tun.queues(), 1);
    assert_eq!(tun.as_raw_fd(), 5);
    assert_eq!(tun.queue(0).unwrap().as_raw_fd(), 5);
    assert!(tun.queue(1).is_none());
    assert!(!tun.has_packet_information());
    assert_eq!(tun.control(ControlOp::GetMtu).fd, 6);
    assert_eq!(tun.control_fd(), 6);
    // The creation is over: whatever comes now is refused.
    let (_, action) = state.advance(Event::Opened(9));
    assert!(matches!(action, Action::Fail { error: Error::InvalidConfig, release } if release.is_empty()));
}

#[test]
fn kernel_assigned_name_is_read_back() {
    let mut kernel = Kernel::new();
    let tun = kernel.create(&Configuration::default()).unwrap();
    assert_eq!(tun.name(), "tun7");
    assert_eq!(kernel.attached, vec![(3, 0x1001)]);
}

#[test]
fn queue_count_zero_fails_before_anything_is_opened() {
    let mut config = Configuration::default();
    config.queues(0);
    let mut kernel = Kernel::new();
    assert!(matches!(kernel.create(&config), Err(Error::InvalidQueuesNumber)));
    assert!(kernel.opened.is_empty());
    assert!(kernel.closed.is_empty());
    let (_, action) = Creation::start(&config);
    assert!(matches!(action, Action::Fail { error: Error::InvalidQueuesNumber, release } if release.is_empty()));
    // The count is looked at before the name.
    config.name("a-name-that-is-much-too-long");
    assert!(matches!(kernel.create(&config), Err(Error::InvalidQueuesNumber)));
}

#[test]
fn over_long_name_fails_before_anything_is_opened() {
    let mut config = Configuration::default();
    config.name("0123456789abcdefg");
    let mut kernel = Kernel::new();
    assert!(matches!(kernel.create(&config), Err(Error::NameTooLong)));
    assert!(kernel.opened.is_empty());
    config.name("0123456789abcdef");
    assert!(kernel.create(&config).is_ok());
}

#[test]
fn several_queues_share_one_interface() {
    let mut config = Configuration::default();
    config.queues(3).platform(|p| {
        p.packet_information(true);
    });
    let mut kernel = Kernel::new();
    let tun = kernel.create(&config).unwrap();
    assert_eq!(tun.queues(), 3);
    assert_eq!(kernel.attached, vec![(3, 0x0101), (4, 0x0101), (5, 0x0101)]);
    let fds: Vec<i32> = (0..3).map(|i| tun.queue(i).unwrap().as_raw_fd()).collect();
    assert_eq!(fds, vec![3, 4, 5]);
    for i in 0..3 {
        assert!(tun.queue(i).unwrap().has_packet_information());
    }
    assert!(tun.queue(3).is_none());
    assert!(tun.has_packet_information());
    assert_eq!(tun.control(ControlOp::GetFlags).fd, 6);
    assert_eq!(tun.name(), "tun7");
}

#[test]
fn failed_open_hands_back_what_was_opened() {
    let mut config = Configuration::default();
    config.queues(3);
    let mut kernel = Kernel::new();
    kernel.fail_open_at = Some(2);
    let err = kernel.create(&config).unwrap_err();
    assert!(matches!(err, Error::Io(e) if e.raw_os_error() == Some(24)));
    assert_eq!(kernel.opened, vec![3, 4]);
    assert_eq!(kernel.closed, vec![3, 4]);
}

#[test]
fn failed_attach_hands_back_the_descriptor_too() {
    let mut config = Configuration::default();
    config.queues(2);
    let mut kernel = Kernel::new();
    kernel.fail_attach_at = Some(1);
    let err = kernel.create(&config).unwrap_err();
    assert!(matches!(err, Error::NixError(nix::errno::Errno::EBUSY)));
    assert_eq!(kernel.closed, vec![3, 4]);
}

#[test]
fn failed_control_socket_hands_back_the_queues() {
    let mut kernel = Kernel::new();
    kernel.fail_open_at = Some(1);
    assert!(kernel.create(&Configuration::default()).is_err());
    assert_eq!(kernel.closed, vec![3]);
}

#[test]
fn negative_descriptor_is_refused() {
    let (state, _) = Creation::start(&Configuration::default());
    let (_, action) = state.advance(Event::Opened(-1));
    assert!(matches!(action, Action::Fail { error: Error::InvalidDescriptor, release } if release.is_empty()));

    let (state, _) = Creation::start(&Configuration::default());
    let (state, _) = state.advance(Event::Opened(4));
    let (state, _) = state.advance(Event::Attached([0u8; 16]));
    let (_, action) = state.advance(Event::Opened(-5));
    assert!(matches!(action, Action::Fail { error: Error::InvalidDescriptor, release } if release == vec![4]));
}

#[test]
fn event_out_of_turn_ends_the_creation() {
    let (state, _) = Creation::start(&Configuration::default());
    let (_, action) = state.advance(Event::Attached([0u8; 16]));
    assert!(matches!(action, Action::Fail { error: Error::InvalidConfig, release } if release.is_empty()));

    let (state, _) = Creation::start(&Configuration::default());
    let (state, _) = state.advance(Event::Opened(4));
    let (_, action) = state.advance(Event::Opened(5));
    assert!(matches!(action, Action::Fail { error: Error::InvalidConfig, release } if release == vec![4]));
}

#[test]
fn name_that_is_no_text_is_refused() {
    let (state, _) = Creation::start(&Configuration::default());
    let (state, _) = state.advance(Event::Opened(4));
    let (state, _) = state.advance(Event::Attached([0xffu8; 16]));
    let (_, action) = state.advance(Event::Opened(5));
    assert!(matches!(action, Action::Fail { error: Error::InvalidName, release } if release == vec![4, 5]));
}

#[test]
fn over_long_new_name_is_refused_and_the_old_one_stays() {
    let mut config = Configuration::default();
    config.name("tun0");
    let mut dev = Device::build(&config).unwrap();
    assert!(matches!(dev.tun.rename_call("0123456789abcdefg"), Err(Error::NameTooLong)));
    assert!(matches!(dev.set_name("0123456789abcdefg"), Err(Error::NameTooLong)));
    assert_eq!(dev.name().unwrap(), "tun0");
    // Even a caller that claims success cannot get the name in.
    assert!(matches!(dev.tun.set_name("0123456789abcdefg", Ok(())), Err(Error::NameTooLong)));
    assert_eq!(dev.tun.name(), "tun0");
    assert_eq!(interface_name(&dev.tun.ifreq().name), "tun0");
}

#[test]
fn failed_renaming_leaves_the_name() {
    let mut kernel = Kernel::new();
    let mut tun = kernel.create(&Configuration::default()).unwrap();
    let r = tun.set_name("tun9", Err(Error::NixError(nix::errno::Errno::EPERM)));
    assert!(matches!(r, Err(Error::NixError(nix::errno::Errno::EPERM))));
    assert_eq!(tun.name(), "tun7");
    tun.set_name("tun9", Ok(())).unwrap();
    assert_eq!(tun.name(), "tun9");
}

#[test]
fn rename_call_names_both_the_old_and_the_new() {
    let mut kernel = Kernel::new();
    let tun = kernel.create(&Configuration::default()).unwrap();
    let call = tun.rename_call("tun9").unwrap();
    assert_eq!(call.code, SIOCSIFNAME);
    assert_eq!(call.fd, 4);
    assert_eq!(interface_name(&call.request.name), "tun7");
    assert!(matches!(call.request.payload, Payload::NewName(n) if interface_name(&n) == "tun9"));
}

#[test]
fn control_call_goes_to_the_control_descriptor() {
    let mut kernel = Kernel::new();
    let tun = kernel.create(&Configuration::default()).unwrap();
    let addr = Ipv4Address::new(10, 0, 0, 1);
    let call = tun.control(ControlOp::SetAddress(addr));
    assert_eq!(call.fd, 4);
    assert_eq!(call.code, SIOCSIFADDR);
    assert_eq!(interface_name(&call.request.name), "tun7");
    assert!(matches!(call.request.payload, Payload::Address(s) if s == addr.to_sockaddr()));
    let call = tun.control(ControlOp::GetNetmask);
    assert_eq!(call.code, SIOCGIFNETMASK);
    assert!(matches!(call.request.payload, Payload::Zeroed));
    assert_eq!(SIOCSIFNETMASK, SIOCGIFNETMASK + 1);
    assert_eq!(SIOCSIFADDR, SIOCGIFADDR + 1);
    assert!(matches!(tun.ifreq().payload, Payload::Zeroed));
}

#[test]
fn enabling_goes_through_the_flags() {
    let mut config = Configuration::default();
    config.up();
    let mut dev = Device::build(&config).unwrap();
    assert_eq!(dev.flags(None).unwrap(), 0x41);
    dev.enable(false).unwrap();
    assert_eq!(dev.flags(None).unwrap(), 0x40);
}
