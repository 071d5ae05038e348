use vstd::prelude::*;

verus! {

/// The SOCKS protocol version that every handshake and request frame carries.
pub const SOCKS_VERSION: u8 = 0x05;

/// The version of the username/password sub-negotiation.
pub const AUTH_VERSION: u8 = 0x01;

/// Auth reply status: credentials accepted.
pub const AUTH_SUCCESS: u8 = 0x00;

/// Auth reply status: credentials rejected.
pub const AUTH_FAILURE: u8 = 0x01;

/// Method: no authentication required.
pub const METHOD_NO_AUTH: u8 = 0x00;

/// Method: username/password sub-negotiation.
pub const METHOD_PASSWORD: u8 = 0x02;

/// Method selection value meaning that no offered method is acceptable.
pub const METHOD_NO_ACCEPTABLE: u8 = 0xFF;

/// The CONNECT command, the only one this server carries out.
pub const CMD_CONNECT: u8 = 0x01;

/// Address type: four IPv4 bytes follow.
pub const ATYP_IPV4: u8 = 0x01;

/// Address type: a length byte and that many domain-name bytes follow.
pub const ATYP_DOMAIN: u8 = 0x03;

/// Address type: sixteen IPv6 bytes follow.
pub const ATYP_IPV6: u8 = 0x04;

} // verus!
