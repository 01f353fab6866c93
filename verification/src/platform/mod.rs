//! What differs between the two families of platforms that the library knows.

pub mod linux;
pub mod macos;
pub mod posix;
pub mod request;

use vstd::prelude::*;

verus! {

/// The two ways in which a kernel hands out a virtual interface: a character
/// device with several queues, or a control socket with a single one.
#[derive(Debug, Clone, Copy, PartialEq, Eq, Structural)]
pub enum Platform {
    Linux,
    MacOs,
}

/// What a platform lets a caller choose beyond the common configuration.
#[derive(Debug, Clone, Copy)]
pub struct TunConf {
    /// Whether each packet is to carry the packet-information header. The
    /// control-socket family has no such choice: there the header is always
    /// present.
    pub packet_information: bool,
}

impl Default for TunConf {
    fn default() -> (conf: Self)
        ensures
            !conf.packet_information,
    {
        TunConf { packet_information: false }
    }
}

impl TunConf {
    /// Asks for the packet-information header, or declines it.
    pub fn packet_information(&mut self, value: bool) -> (conf: &mut Self)
        ensures
            conf.packet_information == value,
            *final(self) == *final(conf),
    {
        self.packet_information = value;
        self
    }
}

} // verus!
