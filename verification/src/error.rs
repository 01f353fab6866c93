//! The closed set of failures that the library reports.

use vstd::prelude::*;
use vstd::string::StringExecFns;

verus! {

/// `std::io::Error`, carried through unread.
#[verifier::external_type_specification]
#[verifier::external_body]
pub struct ExIoError(std::io::Error);

/// `nix::errno::Errno`, the error number of a control call, carried through
/// unread.
#[verifier::external_type_specification]
#[verifier::external_body]
pub struct ExErrno(nix::errno::Errno);

/// Everything that can go wrong while a device is configured, created or
/// controlled. The last two variants carry a failure of the operating
/// system through unchanged.
#[derive(Debug)]
pub enum Error {
    InvalidConfig,
    NotImplemented,
    NameTooLong,
    InvalidName,
    InvalidAddress,
    UnsupportedLayer,
    InvalidDescriptor,
    InvalidQueuesNumber,
    /// A control call that the kernel refused.
    NixError(nix::errno::Errno),
    /// A system call that failed.
    Io(std::io::Error),
}

impl From<nix::errno::Errno> for Error {
    fn from(e: nix::errno::Errno) -> (error: Self) {
        Error::NixError(e)
    }
}

impl vstd::std_specs::convert::FromSpecImpl<nix::errno::Errno> for Error {
    open spec fn obeys_from_spec() -> bool {
        true
    }

    open spec fn from_spec(e: nix::errno::Errno) -> Self {
        Error::NixError(e)
    }
}

impl From<std::io::Error> for Error {
    fn from(e: std::io::Error) -> (error: Self) {
        Error::Io(e)
    }
}

impl vstd::std_specs::convert::FromSpecImpl<std::io::Error> for Error {
    open spec fn obeys_from_spec() -> bool {
        true
    }

    open spec fn from_spec(e: std::io::Error) -> Self {
        Error::Io(e)
    }
}

/// The text of a variant that carries nothing; `None` for the two that wrap
/// a foreign error, whose text is theirs.
pub open spec fn fixed_message(e: Error) -> Option<Seq<char>> {
    match e {
        Error::InvalidConfig => Some("invalid configuration"@),
        Error::NotImplemented => Some("not implementated"@),
        Error::NameTooLong => Some("device name too long"@),
        Error::InvalidName => Some("invalid device name"@),
        Error::InvalidAddress => Some("invalid address"@),
        Error::UnsupportedLayer => Some("unsuported network layer of operation"@),
        Error::InvalidDescriptor => Some("invalid file descriptor"@),
        Error::InvalidQueuesNumber => Some("invalid queues number"@),
        Error::NixError(_) => None,
        Error::Io(_) => None,
    }
}

/// `Display` of `nix::errno::Errno`: the constant's name and its description.
#[verifier::external_body]
fn errno_text(e: &nix::errno::Errno) -> String {
    format!("{}", e)
}

/// `Display` of `std::io::Error`, which for a system error asks the platform
/// for the text.
#[verifier::external_body]
fn io_error_text(e: &std::io::Error) -> String {
    format!("{}", e)
}

impl Error {
    /// The human-readable text of the error.
    pub fn message(&self) -> (text: String)
        ensures
            fixed_message(*self) matches Some(m) ==> text@ == m,
    {
        match self {
            Error::InvalidConfig => String::from_str("invalid configuration"),
            Error::NotImplemented => String::from_str("not implementated"),
            Error::NameTooLong => String::from_str("device name too long"),
            Error::InvalidName => String::from_str("invalid device name"),
            Error::InvalidAddress => String::from_str("invalid address"),
            Error::UnsupportedLayer => String::from_str("unsuported network layer of operation"),
            Error::InvalidDescriptor => String::from_str("invalid file descriptor"),
            Error::InvalidQueuesNumber => String::from_str("invalid queues number"),
            Error::NixError(e) => errno_text(e),
            Error::Io(e) => io_error_text(e),
        }
    }
}

} // verus!
