use vstd::prelude::*;

use crate::consts::{
    ATYP_DOMAIN, ATYP_IPV4, ATYP_IPV6, METHOD_NO_ACCEPTABLE, METHOD_NO_AUTH, METHOD_PASSWORD,
    SOCKS_VERSION,
};

verus! {

/// Why a handshake or request frame could not be decoded.
#[derive(Clone, Copy, Debug, PartialEq, Eq, Structural)]
pub enum ProtocolError {
    /// The bytes end before the frame does.
    Truncated,
    /// The version byte is not the SOCKS version.
    UnsupportedVersion,
    /// The address-type byte is none of IPv4, domain, IPv6.
    UnknownAddressType,
}

/// A target address as it stands on the wire.
#[derive(Debug)]
pub enum Address {
    /// Four address bytes.
    IpV4(Vec<u8>),
    /// The domain name's raw bytes, at most 255 of them.
    Domain(Vec<u8>),
    /// Sixteen address bytes.
    IpV6(Vec<u8>),
}

/// The mathematical value of an [`Address`].
pub enum AddressView {
    IpV4(Seq<u8>),
    Domain(Seq<u8>),
    IpV6(Seq<u8>),
}

impl View for Address {
    type V = AddressView;

    open spec fn view(&self) -> AddressView {
        match self {
            Address::IpV4(b) => AddressView::IpV4(b@),
            Address::Domain(b) => AddressView::Domain(b@),
            Address::IpV6(b) => AddressView::IpV6(b@),
        }
    }
}

impl AddressView {
    /// The address fits its encoding: 4 or 16 bytes, or a domain of at most 255.
    pub open spec fn wf(self) -> bool {
        match self {
            AddressView::IpV4(b) => b.len() == 4,
            AddressView::Domain(b) => b.len() <= 255,
            AddressView::IpV6(b) => b.len() == 16,
        }
    }

    /// The address-type byte that announces this address.
    pub open spec fn atyp(self) -> u8 {
        match self {
            AddressView::IpV4(_) => ATYP_IPV4,
            AddressView::Domain(_) => ATYP_DOMAIN,
            AddressView::IpV6(_) => ATYP_IPV6,
        }
    }

    /// The address field that follows the address-type byte.
    pub open spec fn field(self) -> Seq<u8> {
        match self {
            AddressView::IpV4(b) => b,
            AddressView::Domain(b) => seq![b.len() as u8] + b,
            AddressView::IpV6(b) => b,
        }
    }
}

/// A client's connection request: command, target address and port.
#[derive(Debug)]
pub struct SocksRequest {
    pub cmd: u8,
    pub address: Address,
    pub port: u16,
}

/// The mathematical value of a [`SocksRequest`].
pub struct SocksRequestView {
    pub cmd: u8,
    pub address: AddressView,
    pub port: u16,
}

impl View for SocksRequest {
    type V = SocksRequestView;

    open spec fn view(&self) -> SocksRequestView {
        SocksRequestView { cmd: self.cmd, address: self.address@, port: self.port }
    }
}

/// The port that two bytes give in network order.
pub open spec fn be_u16(hi: u8, lo: u8) -> u16 {
    (hi as int * 256 + lo as int) as u16
}

/// The two bytes of a port in network order.
pub open spec fn port_bytes(port: u16) -> Seq<u8> {
    seq![(port / 256) as u8, (port % 256) as u8]
}

/// The request frame that carries `r`, with a zero reserved byte.
pub open spec fn encode_request(r: SocksRequestView) -> Seq<u8> {
    seq![SOCKS_VERSION, r.cmd, 0x00u8, r.address.atyp()] + r.address.field() + port_bytes(r.port)
}

/// The request that `b` holds with `address` and the port at `port_at`, and
/// the length of its frame.
pub open spec fn request_at(b: Seq<u8>, address: AddressView, port_at: int) -> (
    SocksRequestView,
    nat,
) {
    (
        SocksRequestView { cmd: b[1], address, port: be_u16(b[port_at], b[port_at + 1]) },
        (port_at + 2) as nat,
    )
}

/// What the front of `b` decodes to as a request frame: the request and the
/// frame's length, or why it does not. The version is checked first, the
/// reserved byte is ignored, and an unknown address type fails before any
/// address byte is looked at.
pub open spec fn decode_request(b: Seq<u8>) -> Result<(SocksRequestView, nat), ProtocolError> {
    if b.len() < 1 {
        Err(ProtocolError::Truncated)
    } else if b[0] != SOCKS_VERSION {
        Err(ProtocolError::UnsupportedVersion)
    } else if b.len() < 4 {
        Err(ProtocolError::Truncated)
    } else if b[3] == ATYP_IPV4 {
        if b.len() < 10 {
            Err(ProtocolError::Truncated)
        } else {
            Ok(request_at(b, AddressView::IpV4(b.subrange(4, 8)), 8))
        }
    } else if b[3] == ATYP_DOMAIN {
        if b.len() < 5 {
            Err(ProtocolError::Truncated)
        } else if b.len() < 7 + b[4] {
            Err(ProtocolError::Truncated)
        } else {
            Ok(request_at(b, AddressView::Domain(b.subrange(5, 5 + b[4])), 5 + b[4]))
        }
    } else if b[3] == ATYP_IPV6 {
        if b.len() < 22 {
            Err(ProtocolError::Truncated)
        } else {
            Ok(request_at(b, AddressView::IpV6(b.subrange(4, 20)), 20))
        }
    } else {
        Err(ProtocolError::UnknownAddressType)
    }
}

/// Copies `b[start..end]` into a new vector.
fn copy_range(b: &[u8], start: usize, end: usize) -> (r: Vec<u8>)
    requires
        start <= end <= b@.len(),
    ensures
        r@ == b@.subrange(start as int, end as int),
{
    let mut r: Vec<u8> = Vec::new();
    let mut i: usize = start;
    while i < end
        invariant
            start <= i <= end <= b@.len(),
            r@ == b@.subrange(start as int, i as int),
        decreases end - i,
    {
        r.push(b[i]);
        i = i + 1;
    }
    r
}

/// Reads the port at `b[at]`, `b[at + 1]` in network order.
fn read_port(b: &[u8], at: usize) -> (r: u16)
    requires
        at + 2 <= b@.len(),
    ensures
        r == be_u16(b@[at as int], b@[at as int + 1]),
{
    (b[at] as u16) * 256 + (b[at + 1] as u16)
}

impl SocksRequest {
    /// Decodes the request frame at the front of `buf`: the request and the
    /// number of bytes that the frame takes, or the protocol error.
    pub fn read_from(buf: &[u8]) -> (r: Result<(SocksRequest, usize), ProtocolError>)
        ensures
            match r {
                Ok((req, n)) => decode_request(buf@) == Ok::<(SocksRequestView, nat), ProtocolError>((req@, n as nat)),
                Err(e) => decode_request(buf@) == Err::<(SocksRequestView, nat), ProtocolError>(e),
            },
    {
        if buf.len() < 1 {
            return Err(ProtocolError::Truncated);
        }
        if buf[0] != SOCKS_VERSION {
            return Err(ProtocolError::UnsupportedVersion);
        }
        if buf.len() < 4 {
            return Err(ProtocolError::Truncated);
        }
        let cmd = buf[1];
        let atyp = buf[3];
        let (address, port_at) = if atyp == ATYP_IPV4 {
            if buf.len() < 10 {
                return Err(ProtocolError::Truncated);
            }
            (Address::IpV4(copy_range(buf, 4, 8)), 8usize)
        } else if atyp == ATYP_DOMAIN {
            if buf.len() < 5 {
                return Err(ProtocolError::Truncated);
            }
            let len = buf[4] as usize;
            if buf.len() < 7 + len {
                return Err(ProtocolError::Truncated);
            }
            (Address::Domain(copy_range(buf, 5, 5 + len)), 5 + len)
        } else if atyp == ATYP_IPV6 {
            if buf.len() < 22 {
                return Err(ProtocolError::Truncated);
            }
            (Address::IpV6(copy_range(buf, 4, 20)), 20usize)
        } else {
            return Err(ProtocolError::UnknownAddressType);
        };
        let port = read_port(buf, port_at);
        Ok((SocksRequest { cmd, address, port }, port_at + 2))
    }

    /// Encodes this request as a frame, with a zero reserved byte.
    pub fn encode(&self) -> (r: Vec<u8>)
        requires
            self@.address.wf(),
        ensures
            r@ == encode_request(self@),
    {
        let mut r: Vec<u8> = Vec::new();
        r.push(SOCKS_VERSION);
        r.push(self.cmd);
        r.push(0x00);
        let bytes = match &self.address {
            Address::IpV4(b) => {
                r.push(ATYP_IPV4);
                b
            },
            Address::Domain(b) => {
                r.push(ATYP_DOMAIN);
                r.push(b.len() as u8);
                b
            },
            Address::IpV6(b) => {
                r.push(ATYP_IPV6);
                b
            },
        };
        let ghost head = r@;
        let mut i: usize = 0;
        while i < bytes.len()
            invariant
                i <= bytes@.len(),
                r@ == head + bytes@.subrange(0, i as int),
            decreases bytes@.len() - i,
        {
            r.push(bytes[i]);
            i = i + 1;
        }
        r.push((self.port / 256) as u8);
        r.push((self.port % 256) as u8);
        assert(bytes@.subrange(0, bytes@.len() as int) == bytes@);
        assert(r@ =~= encode_request(self@));
        r
    }
}

/// Decoding the frame that encodes a well-formed request gives that request
/// back, with the frame's whole length, whatever bytes follow the frame.
pub proof fn lemma_request_round_trip(r: SocksRequestView, rest: Seq<u8>)
    requires
        r.address.wf(),
    ensures
        decode_request(encode_request(r) + rest) == Ok::<(SocksRequestView, nat), ProtocolError>(
            (r, encode_request(r).len()),
        ),
{
    let e = encode_request(r);
    let b = e + rest;
    let f = r.address.field();
    let port_at: int = 4 + f.len() as int;
    assert(b[0] == SOCKS_VERSION);
    assert(b[1] == r.cmd);
    assert(b[3] == r.address.atyp());
    assert(b[port_at] == (r.port / 256) as u8);
    assert(b[port_at + 1] == (r.port % 256) as u8);
    assert(be_u16((r.port / 256) as u8, (r.port % 256) as u8) == r.port);
    match r.address {
        AddressView::IpV4(a) => {
            assert(b.subrange(4, 8) =~= a);
        },
        AddressView::Domain(a) => {
            assert(b[4] == a.len() as u8);
            assert(b.subrange(5, 5 + a.len() as int) =~= a);
        },
        AddressView::IpV6(a) => {
            assert(b.subrange(4, 20) =~= a);
        },
    }
}

/// A request whose domain length byte is zero decodes to an empty domain, and
/// once four header bytes of a valid version are there, an address type
/// outside IPv4, domain and IPv6 fails with `UnknownAddressType` whatever
/// bytes follow the header.
pub proof fn lemma_request_address_boundaries(b: Seq<u8>)
    requires
        b.len() >= 4,
        b[0] == SOCKS_VERSION,
    ensures
        b[3] == ATYP_DOMAIN && b.len() >= 7 && b[4] == 0 ==> (decode_request(b) matches Ok((r, n))
            && r.address == AddressView::Domain(Seq::<u8>::empty()) && n == 7),
        b[3] != ATYP_IPV4 && b[3] != ATYP_DOMAIN && b[3] != ATYP_IPV6 ==> decode_request(b)
            == Err::<(SocksRequestView, nat), ProtocolError>(ProtocolError::UnknownAddressType)
            && decode_request(b.subrange(0, 4)) == decode_request(b),
{
    if b.len() >= 7 {
        assert(b.subrange(5, 5) =~= Seq::<u8>::empty());
    }
}

/// A client greeting: the version, the method count and the offered methods.
#[derive(Debug)]
pub struct Proxy {
    pub ver: u8,
    pub nmethods: u8,
    pub methods: Vec<u8>,
}

/// What the front of `b` decodes to as a greeting: the offered methods and the
/// frame's length, or why it does not. The version is checked first.
pub open spec fn decode_greeting(b: Seq<u8>) -> Result<(Seq<u8>, nat), ProtocolError> {
    if b.len() < 1 {
        Err(ProtocolError::Truncated)
    } else if b[0] != SOCKS_VERSION {
        Err(ProtocolError::UnsupportedVersion)
    } else if b.len() < 2 || b.len() < 2 + b[1] {
        Err(ProtocolError::Truncated)
    } else {
        Ok((b.subrange(2, 2 + b[1]), (2 + b[1]) as nat))
    }
}

impl Proxy {
    /// Decodes the greeting at the front of `buf`: the greeting and the number
    /// of bytes that it takes, or the protocol error.
    pub fn read_from(buf: &[u8]) -> (r: Result<(Proxy, usize), ProtocolError>)
        ensures
            match r {
                Ok((g, n)) => decode_greeting(buf@) == Ok::<(Seq<u8>, nat), ProtocolError>(
                    (g.methods@, n as nat),
                ) && g.ver == SOCKS_VERSION && g.nmethods as nat == g.methods@.len(),
                Err(e) => decode_greeting(buf@) == Err::<(Seq<u8>, nat), ProtocolError>(e),
            },
    {
        if buf.len() < 1 {
            return Err(ProtocolError::Truncated);
        }
        if buf[0] != SOCKS_VERSION {
            return Err(ProtocolError::UnsupportedVersion);
        }
        if buf.len() < 2 || buf.len() < 2 + buf[1] as usize {
            return Err(ProtocolError::Truncated);
        }
        let nmethods = buf[1];
        let methods = copy_range(buf, 2, 2 + nmethods as usize);
        Ok((Proxy { ver: SOCKS_VERSION, nmethods, methods }, 2 + nmethods as usize))
    }
}

/// The method that the server picks from `offered`: username/password when
/// credentials are configured and it is offered, no authentication when none
/// are configured and it is offered, and otherwise none acceptable.
pub open spec fn select_method_spec(has_credentials: bool, offered: Seq<u8>) -> u8 {
    if has_credentials {
        if offered.contains(METHOD_PASSWORD) {
            METHOD_PASSWORD
        } else {
            METHOD_NO_ACCEPTABLE
        }
    } else if offered.contains(METHOD_NO_AUTH) {
        METHOD_NO_AUTH
    } else {
        METHOD_NO_ACCEPTABLE
    }
}

/// Whether `v` holds `x`.
fn offers(v: &Vec<u8>, x: u8) -> (r: bool)
    ensures
        r == v@.contains(x),
{
    let mut i: usize = 0;
    while i < v.len()
        invariant
            i <= v@.len(),
            forall|j: int| 0 <= j < i ==> v@[j] != x,
        decreases v@.len() - i,
    {
        if v[i] == x {
            return true;
        }
        i = i + 1;
    }
    false
}

/// Picks the method to answer a greeting with.
pub fn select_method(has_credentials: bool, offered: &Vec<u8>) -> (r: u8)
    ensures
        r == select_method_spec(has_credentials, offered@),
{
    if has_credentials {
        if offers(offered, METHOD_PASSWORD) {
            METHOD_PASSWORD
        } else {
            METHOD_NO_ACCEPTABLE
        }
    } else if offers(offered, METHOD_NO_AUTH) {
        METHOD_NO_AUTH
    } else {
        METHOD_NO_ACCEPTABLE
    }
}

/// The method-selection frame.
pub open spec fn method_frame(method: u8) -> Seq<u8> {
    seq![SOCKS_VERSION, method]
}

/// Encodes the method-selection frame for `method`.
pub fn encode_method_selection(method: u8) -> (r: Vec<u8>)
    ensures
        r@ == method_frame(method),
{
    let mut r: Vec<u8> = Vec::new();
    r.push(SOCKS_VERSION);
    r.push(method);
    assert(r@ =~= method_frame(method));
    r
}

/// The outcome that a connect reply reports.
#[derive(Clone, Copy, Debug, PartialEq, Eq, Structural)]
pub enum ReplyCode {
    Success,
    GeneralFailure,
    ConnectionNotAllowed,
    NetworkUnreachable,
    HostUnreachable,
    ConnectionRefused,
    TtlExpired,
    CommandNotSupported,
    AddressTypeNotSupported,
}

impl ReplyCode {
    /// The reply code's byte on the wire.
    pub open spec fn spec_byte(self) -> u8 {
        match self {
            ReplyCode::Success => 0x00,
            ReplyCode::GeneralFailure => 0x01,
            ReplyCode::ConnectionNotAllowed => 0x02,
            ReplyCode::NetworkUnreachable => 0x03,
            ReplyCode::HostUnreachable => 0x04,
            ReplyCode::ConnectionRefused => 0x05,
            ReplyCode::TtlExpired => 0x06,
            ReplyCode::CommandNotSupported => 0x07,
            ReplyCode::AddressTypeNotSupported => 0x08,
        }
    }

    /// The reply code's byte on the wire.
    pub fn to_byte(&self) -> (r: u8)
        ensures
            r == self.spec_byte(),
    {
        match self {
            ReplyCode::Success => 0x00,
            ReplyCode::GeneralFailure => 0x01,
            ReplyCode::ConnectionNotAllowed => 0x02,
            ReplyCode::NetworkUnreachable => 0x03,
            ReplyCode::HostUnreachable => 0x04,
            ReplyCode::ConnectionRefused => 0x05,
            ReplyCode::TtlExpired => 0x06,
            ReplyCode::CommandNotSupported => 0x07,
            ReplyCode::AddressTypeNotSupported => 0x08,
        }
    }
}

/// The connect reply for `code`, with a zero-filled IPv4 bound address and port.
pub open spec fn reply_frame(code: ReplyCode) -> Seq<u8> {
    seq![SOCKS_VERSION, code.spec_byte(), 0x00u8, ATYP_IPV4, 0u8, 0u8, 0u8, 0u8, 0u8, 0u8]
}

/// Encodes the connect reply for `code`.
pub fn encode_reply(code: ReplyCode) -> (r: Vec<u8>)
    ensures
        r@ == reply_frame(code),
{
    let mut r: Vec<u8> = Vec::new();
    r.push(SOCKS_VERSION);
    r.push(code.to_byte());
    r.push(0x00);
    r.push(ATYP_IPV4);
    let mut i: usize = 0;
    while i < 6
        invariant
            i <= 6,
            r@.len() == 4 + i,
            r@.subrange(0, 4) == seq![SOCKS_VERSION, code.spec_byte(), 0x00u8, ATYP_IPV4],
            forall|j: int| 4 <= j < r@.len() ==> r@[j] == 0u8,
        decreases 6 - i,
    {
        r.push(0);
        i = i + 1;
    }
    assert(r@ =~= reply_frame(code));
    r
}

} // verus!
