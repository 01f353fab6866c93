//! What a caller asks of a device before it exists.

use crate::address::{IntoIpv4Addr, Ipv4Address};
use crate::platform::TunConf;
use vstd::prelude::*;
use vstd::string::StringExecFns;

verus! {

/// The layer at which the interface works: Ethernet frames, or IP packets.
#[derive(Debug, Clone, Copy, PartialEq, Eq, Structural)]
pub enum Layer {
    L2,
    L3,
}

impl Default for Layer {
    fn default() -> (layer: Self)
        ensures
            layer == Layer::L3,
    {
        Layer::L3
    }
}

/// The attributes of a device to be created. An attribute that is absent is
/// left as the platform sets it. The configuration is read once, when the
/// device is created.
#[derive(Debug, Clone)]
pub struct Configuration {
    pub name: Option<String>,
    pub platform: TunConf,
    pub address: Option<Ipv4Address>,
    pub destination: Option<Ipv4Address>,
    pub broadcast: Option<Ipv4Address>,
    pub netmask: Option<Ipv4Address>,
    pub mtu: Option<i32>,
    /// Whether the interface is brought up once it is created.
    pub enabled: bool,
    pub layer: Layer,
    pub queues: Option<usize>,
    pub raw_fd: Option<i32>,
}

impl Default for Configuration {
    fn default() -> (config: Self)
        ensures
            config.name is None,
            !config.platform.packet_information,
            config.address is None,
            config.destination is None,
            config.broadcast is None,
            config.netmask is None,
            config.mtu is None,
            !config.enabled,
            config.layer == Layer::L3,
            config.queues is None,
            config.raw_fd is None,
    {
        Configuration {
            name: None,
            platform: TunConf::default(),
            address: None,
            destination: None,
            broadcast: None,
            netmask: None,
            mtu: None,
            enabled: false,
            layer: Layer::L3,
            queues: None,
            raw_fd: None,
        }
    }
}

impl Configuration {
    /// Lets the closure set what the platform offers beyond the common
    /// attributes.
    pub fn platform<F: FnOnce(&mut TunConf)>(&mut self, f: F) -> (config: &mut Self)
        requires
            forall|conf: &mut TunConf| f.requires((conf,)),
        ensures
            exists|conf: &mut TunConf|
                {
                    &&& *conf == old(self).platform
                    &&& *final(conf) == config.platform
                    &&& #[trigger] f.ensures((conf,), ())
                },
            *config == (Configuration { platform: config.platform, ..*old(self) }),
            *final(self) == *final(config),
    {
        f(&mut self.platform);
        self
    }

    /// Asks for an interface of this name.
    pub fn name(&mut self, name: &str) -> (config: &mut Self)
        ensures
            config.name is Some,
            config.name->0@ == name@,
            *config == (Configuration { name: config.name, ..*old(self) }),
            *final(self) == *final(config),
    {
        self.name = Some(String::from_str(name));
        self
    }

    /// Asks for this address. The value has to stand for an address: what
    /// does not is found out with `into_ipv4` before the configuration is
    /// built, where the failure can be handled.
    pub fn address<A: IntoIpv4Addr>(&mut self, value: A) -> (config: &mut Self)
        requires
            value.ipv4() is Some,
        ensures
            *config == (Configuration { address: value.ipv4(), ..*old(self) }),
            *final(self) == *final(config),
    {
        match value.into_ipv4() {
            Ok(addr) => {
                self.address = Some(addr);
            },
            Err(_) => {},
        }
        self
    }

    /// Asks for this address of the other end of the link; see `address`.
    pub fn destination<A: IntoIpv4Addr>(&mut self, value: A) -> (config: &mut Self)
        requires
            value.ipv4() is Some,
        ensures
            *config == (Configuration { destination: value.ipv4(), ..*old(self) }),
            *final(self) == *final(config),
    {
        match value.into_ipv4() {
            Ok(addr) => {
                self.destination = Some(addr);
            },
            Err(_) => {},
        }
        self
    }

    /// Asks for this broadcast address; see `address`.
    pub fn broadcast<A: IntoIpv4Addr>(&mut self, value: A) -> (config: &mut Self)
        requires
            value.ipv4() is Some,
        ensures
            *config == (Configuration { broadcast: value.ipv4(), ..*old(self) }),
            *final(self) == *final(config),
    {
        match value.into_ipv4() {
            Ok(addr) => {
                self.broadcast = Some(addr);
            },
            Err(_) => {},
        }
        self
    }

    /// Asks for this network mask; see `address`.
    pub fn netmask<A: IntoIpv4Addr>(&mut self, value: A) -> (config: &mut Self)
        requires
            value.ipv4() is Some,
        ensures
            *config == (Configuration { netmask: value.ipv4(), ..*old(self) }),
            *final(self) == *final(config),
    {
        match value.into_ipv4() {
            Ok(addr) => {
                self.netmask = Some(addr);
            },
            Err(_) => {},
        }
        self
    }

    /// Asks for this largest packet size.
    pub fn mtu(&mut self, value: i32) -> (config: &mut Self)
        ensures
            *config == (Configuration { mtu: Some(value), ..*old(self) }),
            *final(self) == *final(config),
    {
        self.mtu = Some(value);
        self
    }

    /// Asks for the interface to be brought up once it is created.
    pub fn up(&mut self) -> (config: &mut Self)
        ensures
            *config == (Configuration { enabled: true, ..*old(self) }),
            *final(self) == *final(config),
    {
        self.enabled = true;
        self
    }

    /// Asks for the interface to be left down.
    pub fn down(&mut self) -> (config: &mut Self)
        ensures
            *config == (Configuration { enabled: false, ..*old(self) }),
            *final(self) == *final(config),
    {
        self.enabled = false;
        self
    }

    /// Asks for an interface of this layer.
    pub fn layer(&mut self, layer: Layer) -> (config: &mut Self)
        ensures
            *config == (Configuration { layer, ..*old(self) }),
            *final(self) == *final(config),
    {
        self.layer = layer;
        self
    }

    /// Asks for this number of queues. The number is checked when the device
    /// is created.
    pub fn queues(&mut self, queues: usize) -> (config: &mut Self)
        ensures
            *config == (Configuration { queues: Some(queues), ..*old(self) }),
            *final(self) == *final(config),
    {
        self.queues = Some(queues);
        self
    }

    /// Hands in a descriptor that is already open.
    pub fn raw_fd(&mut self, fd: i32) -> (config: &mut Self)
        ensures
            *config == (Configuration { raw_fd: Some(fd), ..*old(self) }),
            *final(self) == *final(config),
    {
        self.raw_fd = Some(fd);
        self
    }
}

} // verus!
