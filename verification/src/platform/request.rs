//! The interface request: the structure through which every attribute of an
//! interface is read and written. It names the interface in a field of fixed
//! size and carries one value in a slot that all operations share.

use crate::address::{Ipv4AddrExt, Ipv4Address, SockAddr};
use vstd::prelude::*;
use vstd::string::StringSliceAdditionalSpecFns;
use vstd::utf8::{decode_utf8, valid_utf8};

verus! {

/// The size of the name field of a request, in bytes.
pub const NAME_LEN: usize = 16;

/// What the shared slot of a request holds. A request that is only to be
/// filled in by the kernel goes out with the slot zeroed.
#[derive(Debug, Clone, Copy)]
pub enum Payload {
    Zeroed,
    Flags(i16),
    Address(SockAddr),
    Mtu(i32),
    NewName([u8; 16]),
}

/// An interface request.
#[derive(Debug, Clone, Copy)]
pub struct IfReq {
    pub name: [u8; 16],
    pub payload: Payload,
}

/// One control call: the descriptor to issue it on, the platform's code of
/// the operation, and the request that goes with it.
#[derive(Debug, Clone, Copy)]
pub struct ControlCall {
    pub fd: i32,
    pub code: u64,
    pub request: IfReq,
}

/// An operation on one attribute of an interface.
#[derive(Debug, Clone, Copy, PartialEq, Eq, Structural)]
pub enum ControlOp {
    GetFlags,
    SetFlags(i16),
    GetAddress,
    SetAddress(Ipv4Address),
    GetDestination,
    SetDestination(Ipv4Address),
    GetBroadcast,
    SetBroadcast(Ipv4Address),
    GetNetmask,
    SetNetmask(Ipv4Address),
    GetMtu,
    SetMtu(i32),
}

/// What the shared slot holds when the request for an operation goes out:
/// the value to store, or zeros for the kernel to overwrite.
pub open spec fn payload_of(op: ControlOp) -> Payload {
    match op {
        ControlOp::SetFlags(flags) => Payload::Flags(flags),
        ControlOp::SetAddress(addr) => Payload::Address(addr.sockaddr()),
        ControlOp::SetDestination(addr) => Payload::Address(addr.sockaddr()),
        ControlOp::SetBroadcast(addr) => Payload::Address(addr.sockaddr()),
        ControlOp::SetNetmask(addr) => Payload::Address(addr.sockaddr()),
        ControlOp::SetMtu(mtu) => Payload::Mtu(mtu),
        _ => Payload::Zeroed,
    }
}

/// The request for an operation on the interface of a name.
pub fn request_for(name: &str, op: ControlOp) -> (request: IfReq)
    requires
        name.spec_bytes().len() <= NAME_LEN,
    ensures
        request.name@ == padded(name.spec_bytes()),
        request.payload == payload_of(op),
{
    let payload = match op {
        ControlOp::SetFlags(flags) => Payload::Flags(flags),
        ControlOp::SetAddress(addr) => Payload::Address(addr.to_sockaddr()),
        ControlOp::SetDestination(addr) => Payload::Address(addr.to_sockaddr()),
        ControlOp::SetBroadcast(addr) => Payload::Address(addr.to_sockaddr()),
        ControlOp::SetNetmask(addr) => Payload::Address(addr.to_sockaddr()),
        ControlOp::SetMtu(mtu) => Payload::Mtu(mtu),
        _ => Payload::Zeroed,
    };
    IfReq { name: name_field(name), payload }
}

/// The flag of an interface that is up.
pub const IFF_UP: i16 = 0x1;

/// The flag of an interface whose resources are allocated.
pub const IFF_RUNNING: i16 = 0x40;

/// The flags of an interface brought up, which also marks it as running, or
/// brought down, which clears only the flag that says it is up.
pub open spec fn flags_enabled(flags: i16, value: bool) -> i16 {
    if value {
        flags | (IFF_UP | IFF_RUNNING)
    } else {
        flags & !IFF_UP
    }
}

/// Works out the flags to store so that the interface is up, or down, from
/// the flags that it has.
pub fn enabled_flags(flags: i16, value: bool) -> (r: i16)
    ensures
        r == flags_enabled(flags, value),
{
    if value {
        flags | (IFF_UP | IFF_RUNNING)
    } else {
        flags & !IFF_UP
    }
}

/// Bringing an interface up or down leaves every other flag as it was; up
/// sets both marks, down clears the one.
pub proof fn lemma_flags_enabled(flags: i16, value: bool)
    ensures
        value ==> flags_enabled(flags, value) & IFF_UP == IFF_UP,
        value ==> flags_enabled(flags, value) & IFF_RUNNING == IFF_RUNNING,
        !value ==> flags_enabled(flags, value) & IFF_UP == 0,
        value ==> flags_enabled(flags, value) & !(IFF_UP | IFF_RUNNING) == flags & !(IFF_UP
            | IFF_RUNNING),
        !value ==> flags_enabled(flags, value) & !IFF_UP == flags & !IFF_UP,
{
    assert((flags | (0x1i16 | 0x40i16)) & 0x1i16 == 0x1i16) by (bit_vector);
    assert((flags | (0x1i16 | 0x40i16)) & 0x40i16 == 0x40i16) by (bit_vector);
    assert((flags & !0x1i16) & 0x1i16 == 0) by (bit_vector);
    assert((flags | (0x1i16 | 0x40i16)) & !(0x1i16 | 0x40i16) == flags & !(0x1i16 | 0x40i16))
        by (bit_vector);
    assert((flags & !0x1i16) & !0x1i16 == flags & !0x1i16) by (bit_vector);
}

/// A name as the name field holds it: its bytes, then zeros to the end.
pub open spec fn padded(name: Seq<u8>) -> Seq<u8>
    recommends
        name.len() <= NAME_LEN,
{
    Seq::new(
        NAME_LEN as nat,
        |i: int|
            if i < name.len() {
                name[i]
            } else {
                0u8
            },
    )
}

/// The number of bytes in front of the first zero byte, or the length where
/// there is none.
pub open spec fn nul_position(field: Seq<u8>) -> nat
    decreases field.len(),
{
    if field.len() == 0 || field[0] == 0 {
        0
    } else {
        1 + nul_position(field.drop_first())
    }
}

/// The bytes of a field up to its first zero byte.
pub open spec fn before_nul(field: Seq<u8>) -> Seq<u8> {
    field.take(nul_position(field) as int)
}

/// A position in front of which no byte is zero, and which is the end or
/// holds a zero, is the position of the first zero.
pub proof fn lemma_nul_position(field: Seq<u8>, n: int)
    requires
        0 <= n <= field.len(),
        forall|j: int| 0 <= j < n ==> field[j] != 0,
        n == field.len() || field[n] == 0,
    ensures
        nul_position(field) == n,
    decreases field.len(),
{
    if n > 0 {
        let rest = field.drop_first();
        assert forall|j: int| 0 <= j < n - 1 implies rest[j] != 0 by {
            assert(rest[j] == field[j + 1]);
        }
        lemma_nul_position(rest, n - 1);
    }
}

/// The field for a name: the bytes of the name, the rest zero.
pub fn name_field(name: &str) -> (field: [u8; 16])
    requires
        name.spec_bytes().len() <= NAME_LEN,
    ensures
        field@ == padded(name.spec_bytes()),
{
    let bytes = name.as_bytes();
    let mut field = [0u8; 16];
    let mut i: usize = 0;
    while i < bytes.len()
        invariant
            i <= bytes@.len() <= 16,
            bytes@ == name.spec_bytes(),
            forall|j: int| 0 <= j < i ==> field@[j] == bytes@[j],
            forall|j: int| i <= j < 16 ==> field@[j] == 0,
        decreases bytes@.len() - i,
    {
        field[i] = bytes[i];
        i += 1;
    }
    assert(field@ =~= padded(name.spec_bytes()));
    field
}

/// What `String::from_utf8_lossy` makes of a sequence of bytes.
pub uninterp spec fn lossy_text(bytes: Seq<u8>) -> Seq<char>;

/// `String::from_utf8_lossy` turns bytes into text. Bytes that are UTF-8 are
/// decoded as they are; for others the text holds replacement characters.
#[verifier::external_body]
fn text_of(bytes: &[u8]) -> (text: String)
    ensures
        text@ == lossy_text(bytes@),
        valid_utf8(bytes@) ==> text@ == decode_utf8(bytes@),
{
    String::from_utf8_lossy(bytes).into_owned()
}

/// The name that a field holds: the text of its bytes up to the first zero.
/// Bytes that are UTF-8 are the name as it is encoded; of any others the
/// name is what becomes of them when they are read as text.
pub open spec fn name_in(field: Seq<u8>) -> Seq<char> {
    if valid_utf8(before_nul(field)) {
        decode_utf8(before_nul(field))
    } else {
        lossy_text(before_nul(field))
    }
}

/// Reads the name that the kernel wrote into a name field.
pub fn interface_name(field: &[u8; 16]) -> (name: String)
    ensures
        name@ == name_in(field@),
        valid_utf8(before_nul(field@)) ==> name@ == decode_utf8(before_nul(field@)),
{
    let mut n: usize = 0;
    let mut prefix: Vec<u8> = Vec::new();
    while n < 16 && field[n] != 0
        invariant
            n <= 16,
            forall|j: int| 0 <= j < n ==> field@[j] != 0,
            prefix@ == field@.take(n as int),
        decreases 16 - n,
    {
        prefix.push(field[n]);
        n += 1;
        assert(prefix@ =~= field@.take(n as int));
    }
    proof {
        lemma_nul_position(field@, n as int);
    }
    text_of(prefix.as_slice())
}

/// A name that fits the field with room for the closing zero, and holds no
/// zero itself, is read back from its field as it was written.
pub proof fn lemma_name_round_trip(name: Seq<char>)
    requires
        vstd::utf8::encode_utf8(name).len() < NAME_LEN,
        forall|j: int| 0 <= j < vstd::utf8::encode_utf8(name).len() ==> vstd::utf8::encode_utf8(
            name,
        )[j] != 0,
    ensures
        before_nul(padded(vstd::utf8::encode_utf8(name))) == vstd::utf8::encode_utf8(name),
        valid_utf8(before_nul(padded(vstd::utf8::encode_utf8(name)))),
        decode_utf8(before_nul(padded(vstd::utf8::encode_utf8(name)))) == name,
{
    let bytes = vstd::utf8::encode_utf8(name);
    let field = padded(bytes);
    lemma_nul_position(field, bytes.len() as int);
    assert(before_nul(field) =~= bytes);
    vstd::utf8::encode_utf8_valid_utf8(name);
    vstd::utf8::encode_utf8_decode_utf8(name);
}

} // verus!
