//! IPv4 addresses: where they come from, and how a control request carries
//! them.

use crate::error::Error;
use vstd::prelude::*;
use vstd::string::StringSliceAdditionalSpecFns;

verus! {

/// An IPv4 address: its four octets as they are written, `a.b.c.d`.
#[derive(Debug, Clone, Copy, PartialEq, Eq, Structural)]
pub struct Ipv4Address {
    pub a: u8,
    pub b: u8,
    pub c: u8,
    pub d: u8,
}

/// The address that a 32-bit number stands for, its most significant byte
/// first.
pub open spec fn address_of_bits(bits: u32) -> Ipv4Address {
    Ipv4Address {
        a: (bits / 0x100_0000) as u8,
        b: (bits / 0x1_0000 % 0x100) as u8,
        c: (bits / 0x100 % 0x100) as u8,
        d: (bits % 0x100) as u8,
    }
}

/// The 32 bits of a signed number, read as an unsigned one.
pub open spec fn bits_of_signed(value: i32) -> u32 {
    if value >= 0 {
        value as u32
    } else {
        (value + 0x1_0000_0000) as u32
    }
}

impl Ipv4Address {
    pub fn new(a: u8, b: u8, c: u8, d: u8) -> (addr: Self)
        ensures
            addr == (Ipv4Address { a, b, c, d }),
    {
        Ipv4Address { a, b, c, d }
    }

    /// The four octets in the order in which they are written and sent.
    pub fn octets(&self) -> (o: [u8; 4])
        ensures
            o@ == seq![self.a, self.b, self.c, self.d],
    {
        let o = [self.a, self.b, self.c, self.d];
        assert(o@ =~= seq![self.a, self.b, self.c, self.d]);
        o
    }

    /// The address as one number, its first octet the most significant.
    pub open spec fn bits(self) -> u32 {
        (self.a * 0x100_0000 + self.b * 0x1_0000 + self.c * 0x100 + self.d) as u32
    }

    /// The address that a number stands for.
    pub fn from_bits(bits: u32) -> (addr: Self)
        ensures
            addr == address_of_bits(bits),
            addr.bits() == bits,
    {
        let a: u8 = (bits >> 24) as u8;
        let b: u8 = ((bits >> 16) & 0xff) as u8;
        let c: u8 = ((bits >> 8) & 0xff) as u8;
        let d: u8 = (bits & 0xff) as u8;
        assert(bits >> 24 == bits / 0x100_0000 && (bits >> 24) < 0x100) by (bit_vector);
        assert((bits >> 16) & 0xff == bits / 0x1_0000 % 0x100) by (bit_vector);
        assert((bits >> 8) & 0xff == bits / 0x100 % 0x100) by (bit_vector);
        assert(bits & 0xff == bits % 0x100) by (bit_vector);
        Ipv4Address { a, b, c, d }
    }
}

/// Every number is the number of the address that it stands for.
pub proof fn lemma_bits_round_trip(bits: u32)
    ensures
        address_of_bits(bits).bits() == bits,
{
}

/// What can be taken for an IPv4 address.
pub trait IntoIpv4Addr {
    /// The address that the value stands for, if it stands for one.
    spec fn ipv4(&self) -> Option<Ipv4Address>;

    /// The address that the value stands for, or `InvalidAddress`.
    fn into_ipv4(&self) -> (r: Result<Ipv4Address, Error>)
        ensures
            match self.ipv4() {
                Some(addr) => r == Ok::<Ipv4Address, Error>(addr),
                None => r == Err::<Ipv4Address, Error>(Error::InvalidAddress),
            },
    ;
}

impl IntoIpv4Addr for u32 {
    open spec fn ipv4(&self) -> Option<Ipv4Address> {
        Some(address_of_bits(*self))
    }

    fn into_ipv4(&self) -> (r: Result<Ipv4Address, Error>) {
        Ok(Ipv4Address::from_bits(*self))
    }
}

impl IntoIpv4Addr for i32 {
    open spec fn ipv4(&self) -> Option<Ipv4Address> {
        Some(address_of_bits(bits_of_signed(*self)))
    }

    fn into_ipv4(&self) -> (r: Result<Ipv4Address, Error>) {
        let value: i32 = *self;
        let bits: u32 = value as u32;
        assert(bits == bits_of_signed(value)) by (bit_vector)
            requires
                bits == value as u32,
        ;
        Ok(Ipv4Address::from_bits(bits))
    }
}

impl IntoIpv4Addr for Ipv4Address {
    open spec fn ipv4(&self) -> Option<Ipv4Address> {
        Some(*self)
    }

    fn into_ipv4(&self) -> (r: Result<Ipv4Address, Error>) {
        Ok(*self)
    }
}

/// Whether a byte is a decimal digit.
pub open spec fn is_digit(b: u8) -> bool {
    0x30 <= b <= 0x39
}

/// The digit for a number below ten.
pub open spec fn digit(d: u8) -> u8 {
    (0x30 + d) as u8
}

/// An octet as it is written: in decimal, without leading zeros.
pub open spec fn octet_text(v: u8) -> Seq<u8> {
    if v < 10 {
        seq![digit(v)]
    } else if v < 100 {
        seq![digit(v / 10), digit(v % 10)]
    } else {
        seq![digit(v / 100), digit(v / 10 % 10), digit(v % 10)]
    }
}

/// An address as it is written: its four octets with dots between them.
pub open spec fn dotted_quad(addr: Ipv4Address) -> Seq<u8> {
    octet_text(addr.a) + seq![0x2eu8] + octet_text(addr.b) + seq![0x2eu8] + octet_text(addr.c)
        + seq![0x2eu8] + octet_text(addr.d)
}

/// The address that a text stands for: the one that is written so, if there
/// is one. Nothing may be added to the digits and nothing left out.
pub open spec fn address_of_text(text: Seq<u8>) -> Option<Ipv4Address> {
    if exists|addr: Ipv4Address| dotted_quad(addr) == text {
        Some(choose|addr: Ipv4Address| dotted_quad(addr) == text)
    } else {
        None
    }
}

/// The number of digits in a row from a position on.
pub open spec fn digit_run(text: Seq<u8>, start: int) -> nat
    decreases text.len() - start,
{
    if 0 <= start < text.len() && is_digit(text[start]) {
        1 + digit_run(text, start + 1)
    } else {
        0
    }
}

/// The octet that is written at a position, and the position behind it: one
/// to three digits, no zero in front of another digit, at most 255.
pub open spec fn octet_at(text: Seq<u8>, start: int) -> Option<(u8, int)> {
    let n = digit_run(text, start);
    if n == 0 || n > 3 {
        None
    } else if n > 1 && text[start] == 0x30 {
        None
    } else {
        let value: int = if n == 1 {
            text[start] - 0x30
        } else if n == 2 {
            (text[start] - 0x30) * 10 + (text[start + 1] - 0x30)
        } else {
            (text[start] - 0x30) * 100 + (text[start + 1] - 0x30) * 10 + (text[start + 2] - 0x30)
        };
        if value > 255 {
            None
        } else {
            Some((value as u8, start + n))
        }
    }
}

/// Whether a dot stands at a position.
pub open spec fn dot_at(text: Seq<u8>, at: int) -> bool {
    0 <= at < text.len() && text[at] == 0x2e
}

/// Reads a text from left to right as four octets with dots between them.
pub open spec fn scan(text: Seq<u8>) -> Option<Ipv4Address> {
    match octet_at(text, 0) {
        Some((a, e1)) if dot_at(text, e1) => match octet_at(text, e1 + 1) {
            Some((b, e2)) if dot_at(text, e2) => match octet_at(text, e2 + 1) {
                Some((c, e3)) if dot_at(text, e3) => match octet_at(text, e3 + 1) {
                    Some((d, e4)) if e4 == text.len() => Some(Ipv4Address { a, b, c, d }),
                    _ => None,
                },
                _ => None,
            },
            _ => None,
        },
        _ => None,
    }
}

/// An octet read at a position is written there.
proof fn lemma_octet_at_sound(text: Seq<u8>, start: int)
    requires
        0 <= start,
        octet_at(text, start) is Some,
    ensures
        octet_at(text, start) matches Some((v, end)) && start < end <= text.len()
            && text.subrange(start, end) == octet_text(v),
{
    reveal_with_fuel(digit_run, 5);
    let (v, end) = octet_at(text, start)->0;
    assert(text.subrange(start, end) =~= octet_text(v));
}

/// An octet written at a position, with no digit behind it, is read there.
proof fn lemma_octet_at_complete(text: Seq<u8>, start: int, v: u8)
    requires
        0 <= start,
        start + octet_text(v).len() <= text.len(),
        text.subrange(start, start + octet_text(v).len()) == octet_text(v),
        start + octet_text(v).len() == text.len() || !is_digit(
            text[start + octet_text(v).len()],
        ),
    ensures
        octet_at(text, start) == Some((v, start + octet_text(v).len())),
{
    reveal_with_fuel(digit_run, 5);
    let t = octet_text(v);
    let piece = text.subrange(start, start + t.len());
    assert(piece.len() == t.len());
    assert(forall|i: int| 0 <= i < t.len() ==> text[start + i] == #[trigger] piece[i]);
    assert(text[start] == t[0]);
    if t.len() >= 2 {
        assert(text[start + 1] == piece[1]);
    }
    if t.len() >= 3 {
        assert(text[start + 2] == piece[2]);
    }
}

/// What is read from a text is what the text says.
pub proof fn lemma_scan_sound(text: Seq<u8>)
    requires
        scan(text) is Some,
    ensures
        dotted_quad(scan(text)->0) == text,
{
    let (a, e1) = octet_at(text, 0)->0;
    lemma_octet_at_sound(text, 0);
    let (b, e2) = octet_at(text, e1 + 1)->0;
    lemma_octet_at_sound(text, e1 + 1);
    let (c, e3) = octet_at(text, e2 + 1)->0;
    lemma_octet_at_sound(text, e2 + 1);
    let (d, e4) = octet_at(text, e3 + 1)->0;
    lemma_octet_at_sound(text, e3 + 1);
    let dot = seq![0x2eu8];
    assert(text =~= text.subrange(0, e1) + dot + text.subrange(e1 + 1, e2) + dot + text.subrange(
        e2 + 1,
        e3,
    ) + dot + text.subrange(e3 + 1, e4));
}

/// An address as it is written is read as that address.
pub proof fn lemma_scan_complete(addr: Ipv4Address)
    ensures
        scan(dotted_quad(addr)) == Some(addr),
{
    let text = dotted_quad(addr);
    let dot = seq![0x2eu8];
    let ta = octet_text(addr.a);
    let tb = octet_text(addr.b);
    let tc = octet_text(addr.c);
    let td = octet_text(addr.d);
    let e1 = ta.len() as int;
    let e2 = e1 + 1 + tb.len();
    let e3 = e2 + 1 + tc.len();
    let e4 = e3 + 1 + td.len();
    assert(text.len() == e4);
    assert(text.subrange(0, e1) =~= ta);
    assert(text[e1] == 0x2e);
    assert(text.subrange(e1 + 1, e2) =~= tb);
    assert(text[e2] == 0x2e);
    assert(text.subrange(e2 + 1, e3) =~= tc);
    assert(text[e3] == 0x2e);
    assert(text.subrange(e3 + 1, e4) =~= td);
    lemma_octet_at_complete(text, 0, addr.a);
    lemma_octet_at_complete(text, e1 + 1, addr.b);
    lemma_octet_at_complete(text, e2 + 1, addr.c);
    lemma_octet_at_complete(text, e3 + 1, addr.d);
}

/// A text stands for at most one address, and reading it from left to right
/// finds that address or finds that there is none.
pub proof fn lemma_scan_is_address_of_text(text: Seq<u8>)
    ensures
        scan(text) == address_of_text(text),
        forall|addr: Ipv4Address| dotted_quad(addr) == text ==> address_of_text(text) == Some(addr),
{
    assert forall|addr: Ipv4Address| dotted_quad(addr) == text implies scan(text) == Some(
        addr,
    ) by {
        lemma_scan_complete(addr);
    }
    if scan(text) is Some {
        lemma_scan_sound(text);
    }
}

/// Reads the octet at a position.
fn parse_octet(text: &[u8], start: usize) -> (r: Option<(u8, usize)>)
    requires
        start <= text@.len(),
    ensures
        match r {
            Some((v, end)) => octet_at(text@, start as int) == Some((v, end as int)),
            None => octet_at(text@, start as int) is None,
        },
{
    proof {
        reveal_with_fuel(digit_run, 5);
    }
    let len = text.len();
    let mut n: usize = 0;
    let mut value: u32 = 0;
    while n < 4 && n < len - start && text[start + n] >= 0x30 && text[start + n] <= 0x39
        invariant
            n <= 4,
            start + n <= len,
            len == text@.len(),
            n >= 1 ==> is_digit(text@[start as int]),
            n >= 2 ==> is_digit(text@[start + 1]),
            n >= 3 ==> is_digit(text@[start + 2]),
            n >= 4 ==> is_digit(text@[start + 3]),
            n == 0 ==> value == 0,
            n == 1 ==> value == text@[start as int] - 0x30,
            n == 2 ==> value == (text@[start as int] - 0x30) * 10 + (text@[start + 1] - 0x30),
            n == 3 ==> value == (text@[start as int] - 0x30) * 100 + (text@[start + 1] - 0x30)
                * 10 + (text@[start + 2] - 0x30),
            value <= 9999,
        decreases 4 - n,
    {
        let d: u32 = (text[start + n] - 0x30) as u32;
        value = value * 10 + d;
        n += 1;
    }
    if n == 0 || n > 3 {
        return None;
    }
    if n > 1 && text[start] == 0x30 {
        return None;
    }
    if value > 255 {
        return None;
    }
    Some((value as u8, start + n))
}

/// Reads a text as an address.
pub fn parse_ipv4(text: &[u8]) -> (r: Option<Ipv4Address>)
    ensures
        r == address_of_text(text@),
{
    proof {
        lemma_scan_is_address_of_text(text@);
    }
    let len = text.len();
    let (a, e1) = match parse_octet(text, 0) {
        Some(r) => r,
        None => {
            return None;
        },
    };
    if !(e1 < len && text[e1] == 0x2e) {
        return None;
    }
    let (b, e2) = match parse_octet(text, e1 + 1) {
        Some(r) => r,
        None => {
            return None;
        },
    };
    if !(e2 < len && text[e2] == 0x2e) {
        return None;
    }
    let (c, e3) = match parse_octet(text, e2 + 1) {
        Some(r) => r,
        None => {
            return None;
        },
    };
    if !(e3 < len && text[e3] == 0x2e) {
        return None;
    }
    let (d, e4) = match parse_octet(text, e3 + 1) {
        Some(r) => r,
        None => {
            return None;
        },
    };
    if e4 != len {
        return None;
    }
    Some(Ipv4Address { a, b, c, d })
}

impl IntoIpv4Addr for str {
    open spec fn ipv4(&self) -> Option<Ipv4Address> {
        address_of_text(self.spec_bytes())
    }

    fn into_ipv4(&self) -> (r: Result<Ipv4Address, Error>) {
        match parse_ipv4(self.as_bytes()) {
            Some(addr) => Ok(addr),
            None => Err(Error::InvalidAddress),
        }
    }
}

impl IntoIpv4Addr for &str {
    open spec fn ipv4(&self) -> Option<Ipv4Address> {
        address_of_text(self.spec_bytes())
    }

    fn into_ipv4(&self) -> (r: Result<Ipv4Address, Error>) {
        match parse_ipv4(self.as_bytes()) {
            Some(addr) => Ok(addr),
            None => Err(Error::InvalidAddress),
        }
    }
}

impl IntoIpv4Addr for String {
    open spec fn ipv4(&self) -> Option<Ipv4Address> {
        address_of_text(vstd::utf8::encode_utf8(self@))
    }

    fn into_ipv4(&self) -> (r: Result<Ipv4Address, Error>) {
        match parse_ipv4(self.as_str().as_bytes()) {
            Some(addr) => Ok(addr),
            None => Err(Error::InvalidAddress),
        }
    }
}

/// The address family of IPv4 in a socket address.
pub const AF_INET: u16 = 2;

/// A socket address as a control request carries it: the family, a port, and
/// the four octets in the order of the network. What the platform's
/// structure holds beyond these is zero.
#[derive(Debug, Clone, Copy, PartialEq, Eq, Structural)]
pub struct SockAddr {
    pub family: u16,
    pub port: u16,
    pub addr: Ipv4Address,
}

/// An address type that goes into and comes out of a socket address.
pub trait Ipv4AddrExt: Sized {
    /// The socket address of the family IPv4 that holds the address.
    spec fn sockaddr(&self) -> SockAddr;

    /// The address that a socket address holds, whatever its family says.
    spec fn of_sockaddr(sock: SockAddr) -> Self;

    fn to_sockaddr(&self) -> (sock: SockAddr)
        ensures
            sock == self.sockaddr(),
    ;

    fn from_sockaddr(sock: SockAddr) -> (addr: Self)
        ensures
            addr == Self::of_sockaddr(sock),
    ;
}

/// A socket address that gives up the address which it holds.
pub trait SockAddrExt<T> {
    /// The address that the socket address holds.
    spec fn ipv4addr(self) -> T;

    fn into_ipv4addr(self) -> (addr: T)
        ensures
            addr == self.ipv4addr(),
    ;
}

impl<T: Ipv4AddrExt> SockAddrExt<T> for SockAddr {
    open spec fn ipv4addr(self) -> T {
        T::of_sockaddr(self)
    }

    fn into_ipv4addr(self) -> (addr: T) {
        T::from_sockaddr(self)
    }
}

impl Ipv4AddrExt for Ipv4Address {
    open spec fn sockaddr(&self) -> SockAddr {
        SockAddr { family: AF_INET, port: 0, addr: *self }
    }

    open spec fn of_sockaddr(sock: SockAddr) -> Ipv4Address {
        sock.addr
    }

    fn to_sockaddr(&self) -> (sock: SockAddr) {
        SockAddr { family: AF_INET, port: 0, addr: *self }
    }

    fn from_sockaddr(sock: SockAddr) -> (addr: Ipv4Address) {
        sock.addr
    }
}

/// An address put into a socket address comes out of it unchanged.
pub proof fn lemma_sockaddr_round_trip(addr: Ipv4Address)
    ensures
        Ipv4Address::of_sockaddr(addr.sockaddr()) == addr,
        SockAddrExt::<Ipv4Address>::ipv4addr(addr.sockaddr()) == addr,
        addr.sockaddr().family == AF_INET,
{
}

} // verus!
