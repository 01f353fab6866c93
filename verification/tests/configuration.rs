use cross_platform_tun::address::Ipv4Address;
use cross_platform_tun::configuration::{Configuration, Layer};
use cross_platform_tun::interface::{configure_plan, ControlRequest, Interface, Setup};
use cross_platform_tun::error::Error;
use cross_platform_tun::platform::TunConf;

#[test]
fn default_configuration_asks_for_nothing() {
    let c = Configuration::default();
    assert!(c.name.is_none());
    assert!(!c.platform.packet_information);
    assert!(c.address.is_none());
    assert!(c.destination.is_none());
    assert!(c.broadcast.is_none());
    assert!(c.netmask.is_none());
    assert!(c.mtu.is_none());
    assert!(!c.enabled);
    assert_eq!(c.layer, Layer::L3);
    assert!(c.queues.is_none());
    assert!(c.raw_fd.is_none());
    assert_eq!(Layer::default(), Layer::L3);
    assert!(!TunConf::default().packet_information);
}

#[test]
fn builder_sets_what_it_is_told_and_nothing_else() {
    let mut c = Configuration::default();
    c.name("utun6")
        .address("192.168.50.1")
        .netmask("255.255.255.0")
        .mtu(1400)
        .up();
    assert_eq!(c.name.as_deref(), Some("utun6"));
    assert_eq!(c.address, Some(Ipv4Address::new(192, 168, 50, 1)));
    assert_eq!(c.netmask, Some(Ipv4Address::new(255, 255, 255, 0)));
    assert_eq!(c.mtu, Some(1400));
    assert!(c.enabled);
    assert!(c.destination.is_none());
    assert!(c.broadcast.is_none());
    assert_eq!(c.layer, Layer::L3);
    assert!(c.queues.is_none());

    c.destination(0x0a00_0001u32)
        .broadcast(Ipv4Address::new(10, 0, 0, 255))
        .layer(Layer::L2)
        .queues(4)
        .raw_fd(9)
        .down();
    assert_eq!(c.destination, Some(Ipv4Address::new(10, 0, 0, 1)));
    assert_eq!(c.broadcast, Some(Ipv4Address::new(10, 0, 0, 255)));
    assert_eq!(c.layer, Layer::L2);
    assert_eq!(c.queues, Some(4));
    assert_eq!(c.raw_fd, Some(9));
    assert!(!c.enabled);
    assert_eq!(c.mtu, Some(1400));
}

#[test]
fn platform_hook_reaches_the_platform_part() {
    let mut c = Configuration::default();
    c.platform(|p| {
        p.packet_information(true);
    });
    assert!(c.platform.packet_information);
    let mut conf = TunConf::default();
    conf.packet_information(true).packet_information(false);
    assert!(!conf.packet_information);
}

#[test]
fn later_changes_do_not_reach_a_snapshot() {
    let mut c = Configuration::default();
    c.mtu(1400);
    let snapshot = c.clone();
    c.mtu(9000);
    assert_eq!(snapshot.mtu, Some(1400));
}

#[test]
fn plan_of_an_empty_configuration_only_brings_the_interface_down() {
    let c = Configuration::default();
    assert_eq!(configure_plan(&c), vec![ControlRequest::Enable(false)]);
}

#[test]
fn plan_follows_the_fixed_order() {
    let mut c = Configuration::default();
    c.up()
        .mtu(1400)
        .netmask("255.255.255.0")
        .broadcast("192.168.50.255")
        .destination("192.168.50.2")
        .address("192.168.50.1");
    assert_eq!(
        configure_plan(&c),
        vec![
            ControlRequest::Address(Ipv4Address::new(192, 168, 50, 1)),
            ControlRequest::Destination(Ipv4Address::new(192, 168, 50, 2)),
            ControlRequest::Broadcast(Ipv4Address::new(192, 168, 50, 255)),
            ControlRequest::Netmask(Ipv4Address::new(255, 255, 255, 0)),
            ControlRequest::Mtu(1400),
            ControlRequest::Enable(true),
        ]
    );
}

#[test]
fn plan_leaves_absent_attributes_out() {
    let mut c = Configuration::default();
    c.netmask("255.255.0.0").address("10.1.0.1");
    assert_eq!(
        configure_plan(&c),
        vec![
            ControlRequest::Address(Ipv4Address::new(10, 1, 0, 1)),
            ControlRequest::Netmask(Ipv4Address::new(255, 255, 0, 0)),
            ControlRequest::Enable(false),
        ]
    );
}

/// A device that only writes down what it is asked to do.
struct Recorder {
    calls: Vec<String>,
    fail_at: Option<usize>,
}

impl Recorder {
    fn note(&mut self, call: String) -> Result<(), Error> {
        self.calls.push(call);
        if self.fail_at == Some(self.calls.len()) {
            Err(Error::NotImplemented)
        } else {
            Ok(())
        }
    }
}

impl Interface for Recorder {
    type Queue = ();

    fn name(&self) -> Result<String, Error> {
        Ok("rec0".into())
    }

    fn set_name(&mut self, name: &str) -> Result<(), Error> {
        self.note(format!("name {name}"))
    }

    fn enable(&mut self, value: bool) -> Result<(), Error> {
        self.note(format!("enable {value}"))
    }

    fn flags(&self, _flags: Option<i16>) -> Result<i16, Error> {
        Ok(0)
    }

    fn address(&self) -> Result<Ipv4Address, Error> {
        Err(Error::NotImplemented)
    }

    fn set_address(&mut self, addr: Ipv4Address) -> Result<(), Error> {
        self.note(format!("address {:?}", addr.octets()))
    }

    fn destination(&self) -> Result<Ipv4Address, Error> {
        Err(Error::NotImplemented)
    }

    fn set_destination(&mut self, addr: Ipv4Address) -> Result<(), Error> {
        self.note(format!("destination {:?}", addr.octets()))
    }

    fn broadcast(&self) -> Result<Ipv4Address, Error> {
        Err(Error::NotImplemented)
    }

    fn set_broadcast(&mut self, addr: Ipv4Address) -> Result<(), Error> {
        self.note(format!("broadcast {:?}", addr.octets()))
    }

    fn netmask(&self) -> Result<Ipv4Address, Error> {
        Err(Error::NotImplemented)
    }

    fn set_netmask(&mut self, addr: Ipv4Address) -> Result<(), Error> {
        self.note(format!("netmask {:?}", addr.octets()))
    }

    fn mtu(&self) -> Result<i32, Error> {
        Err(Error::NotImplemented)
    }

    fn set_mtu(&mut self, mtu: i32) -> Result<(), Error> {
        self.note(format!("mtu {mtu}"))
    }

    fn queue(&mut self, _index: usize) -> Option<&mut ()> {
        None
    }
}

#[test]
fn configure_issues_the_plan_in_order() {
    let mut c = Configuration::default();
    c.address("192.168.50.1").netmask("255.255.255.0").mtu(1400).up();
    let mut dev = Recorder { calls: Vec::new(), fail_at: None };
    dev.configure(&c).unwrap();
    assert_eq!(
        dev.calls,
        vec![
            "address [192, 168, 50, 1]".to_string(),
            "netmask [255, 255, 255, 0]".to_string(),
            "mtu 1400".to_string(),
            "enable true".to_string(),
        ]
    );
}

#[test]
fn configure_stops_at_the_first_failure() {
    let mut c = Configuration::default();
    c.address("192.168.50.1").destination("192.168.50.2").mtu(1400).up();
    let mut dev = Recorder { calls: Vec::new(), fail_at: Some(2) };
    assert!(matches!(dev.configure(&c), Err(Error::NotImplemented)));
    assert_eq!(
        dev.calls,
        vec!["address [192, 168, 50, 1]".to_string(), "destination [192, 168, 50, 2]".to_string()]
    );
}

#[test]
fn setup_goes_through_the_plan_step_by_step() {
    let mut c = Configuration::default();
    c.address("10.0.0.1").mtu(1400).up();
    let mut setup = Setup::new(&c);
    assert_eq!(setup.pending(), Some(ControlRequest::Address(Ipv4Address::new(10, 0, 0, 1))));
    // Asking again changes nothing.
    assert_eq!(setup.pending(), Some(ControlRequest::Address(Ipv4Address::new(10, 0, 0, 1))));
    setup.record(Ok(())).unwrap();
    assert_eq!(setup.pending(), Some(ControlRequest::Mtu(1400)));
    setup.record(Ok(())).unwrap();
    assert_eq!(setup.pending(), Some(ControlRequest::Enable(true)));
    setup.record(Ok(())).unwrap();
    assert_eq!(setup.pending(), None);
    setup.record(Ok(())).unwrap();
    assert_eq!(setup.pending(), None);
}

#[test]
fn setup_gives_up_after_a_failure() {
    let mut c = Configuration::default();
    c.address("10.0.0.1").mtu(1400).up();
    let mut setup = Setup::new(&c);
    setup.record(Ok(())).unwrap();
    let r = setup.record(Err(Error::NixError(nix::errno::Errno::EPERM)));
    assert!(matches!(r, Err(Error::NixError(nix::errno::Errno::EPERM))));
    assert_eq!(setup.pending(), None);
}
