//! Address translation between host socket addresses and the engine's
//! fixed-size tagged wire structure, plus the rule for choosing among
//! resolved candidates.
use vstd::prelude::*;

verus! {

/// Address-family tag of an IPv4 socket address.
pub const AF_INET: u16 = 2;

/// Address-family tag of an IPv6 socket address.
pub const AF_INET6: u16 = 10;

/// Byte length of the populated v4 variant of the wire structure.
pub const SOCKADDR_IN_LEN: u32 = 16;

/// Byte length of the populated v6 variant of the wire structure.
pub const SOCKADDR_IN6_LEN: u32 = 28;

/// Relies on libc::AF_INET: the IPv4 address-family tag, 2 on the targeted
/// platforms.
#[verifier::external_body]
fn af_inet() -> (r: u16)
    ensures
        r == AF_INET,
{
    libc::AF_INET as u16
}

/// Relies on libc::AF_INET6: the IPv6 address-family tag, 10 on the targeted
/// platforms.
#[verifier::external_body]
fn af_inet6() -> (r: u16)
    ensures
        r == AF_INET6,
{
    libc::AF_INET6 as u16
}

/// Relies on libc::sockaddr_in's layout: family and port of two bytes each,
/// a four-byte address and eight bytes of padding, 16 bytes in all.
#[verifier::external_body]
fn sockaddr_in_len() -> (r: u32)
    ensures
        r == SOCKADDR_IN_LEN,
{
    core::mem::size_of::<libc::sockaddr_in>() as u32
}

/// Relies on libc::sockaddr_in6's layout: family and port of two bytes each,
/// four bytes of flow information, a sixteen-byte address and a four-byte
/// scope, 28 bytes in all.
#[verifier::external_body]
fn sockaddr_in6_len() -> (r: u32)
    ensures
        r == SOCKADDR_IN6_LEN,
{
    core::mem::size_of::<libc::sockaddr_in6>() as u32
}

/// A host socket address: a plain value with no ownership concerns.
#[derive(Clone, Copy, Debug, PartialEq, Eq)]
pub enum HostAddress {
    V4 { addr: [u8; 4], port: u16 },
    V6 { addr: [u8; 16], port: u16, flowinfo: u32, scope_id: u32 },
}

/// The populated variant of the engine's address union. The port is held as
/// its two wire bytes, most significant first (network byte order).
#[derive(Clone, Copy, Debug, PartialEq, Eq)]
pub enum WireSocket {
    V4 { family: u16, port: (u8, u8), addr: [u8; 4] },
    V6 { family: u16, port: (u8, u8), addr: [u8; 16], flowinfo: u32, scope_id: u32 },
}

/// The engine's tagged address structure: a populated variant plus an
/// explicit `size` recording that variant's byte length. The engine
/// misreads any value whose `size` disagrees with the variant.
#[derive(Clone, Copy, Debug, PartialEq, Eq)]
pub struct WireAddress {
    pub size: u32,
    pub socket: WireSocket,
}

/// A wire address whose family tag and `size` agree with its variant.
pub open spec fn wire_well_formed(w: WireAddress) -> bool {
    match w.socket {
        WireSocket::V4 { family, .. } => family == AF_INET && w.size == SOCKADDR_IN_LEN,
        WireSocket::V6 { family, .. } => family == AF_INET6 && w.size == SOCKADDR_IN6_LEN,
    }
}

/// The wire form of a host address: family tag, port in network byte order,
/// address bytes, and the populated variant's byte length as `size`.
pub open spec fn encode_spec(h: HostAddress) -> WireAddress {
    match h {
        HostAddress::V4 { addr, port } => WireAddress {
            size: SOCKADDR_IN_LEN,
            socket: WireSocket::V4 {
                family: AF_INET,
                port: ((port / 256) as u8, (port % 256) as u8),
                addr,
            },
        },
        HostAddress::V6 { addr, port, flowinfo, scope_id } => WireAddress {
            size: SOCKADDR_IN6_LEN,
            socket: WireSocket::V6 {
                family: AF_INET6,
                port: ((port / 256) as u8, (port % 256) as u8),
                addr,
                flowinfo,
                scope_id,
            },
        },
    }
}

/// The host address a wire address denotes, or `None` where the family tag
/// or `size` disagrees with the populated variant.
pub open spec fn decode_spec(w: WireAddress) -> Option<HostAddress> {
    match w.socket {
        WireSocket::V4 { family, port, addr } => if family == AF_INET && w.size
            == SOCKADDR_IN_LEN {
            Some(
                HostAddress::V4 {
                    addr,
                    port: ((port.0 as u16) * 256 + (port.1 as u16)) as u16,
                },
            )
        } else {
            None
        },
        WireSocket::V6 { family, port, addr, flowinfo, scope_id } => if family == AF_INET6
            && w.size == SOCKADDR_IN6_LEN {
            Some(
                HostAddress::V6 {
                    addr,
                    port: ((port.0 as u16) * 256 + (port.1 as u16)) as u16,
                    flowinfo,
                    scope_id,
                },
            )
        } else {
            None
        },
    }
}

/// Converts a host address into the engine's wire structure. Pure and total:
/// every host address has exactly one wire form.
pub fn encode(host: &HostAddress) -> (r: WireAddress)
    ensures
        r == encode_spec(*host),
        wire_well_formed(r),
{
    match host {
        HostAddress::V4 { addr, port } => WireAddress {
            size: sockaddr_in_len(),
            socket: WireSocket::V4 {
                family: af_inet(),
                port: ((*port / 256) as u8, (*port % 256) as u8),
                addr: *addr,
            },
        },
        HostAddress::V6 { addr, port, flowinfo, scope_id } => WireAddress {
            size: sockaddr_in6_len(),
            socket: WireSocket::V6 {
                family: af_inet6(),
                port: ((*port / 256) as u8, (*port % 256) as u8),
                addr: *addr,
                flowinfo: *flowinfo,
                scope_id: *scope_id,
            },
        },
    }
}

/// Reads a wire structure back into a host address; rejects a value whose
/// family tag or `size` disagrees with the populated variant.
pub fn decode(wire: &WireAddress) -> (r: Option<HostAddress>)
    ensures
        r == decode_spec(*wire),
{
    match &wire.socket {
        WireSocket::V4 { family, port, addr } => {
            if *family == AF_INET && wire.size == SOCKADDR_IN_LEN {
                Some(
                    HostAddress::V4 {
                        addr: *addr,
                        port: (port.0 as u16) * 256 + (port.1 as u16),
                    },
                )
            } else {
                None
            }
        },
        WireSocket::V6 { family, port, addr, flowinfo, scope_id } => {
            if *family == AF_INET6 && wire.size == SOCKADDR_IN6_LEN {
                Some(
                    HostAddress::V6 {
                        addr: *addr,
                        port: (port.0 as u16) * 256 + (port.1 as u16),
                        flowinfo: *flowinfo,
                        scope_id: *scope_id,
                    },
                )
            } else {
                None
            }
        },
    }
}

/// A textual host:port pair that name resolution turned into no address at
/// all; carries the original input.
#[derive(Debug, PartialEq, Eq)]
pub struct ResolutionError {
    pub input: String,
}

/// Chooses among resolved candidates for a textual host:port pair: the first
/// candidate, deterministically, whatever its family. An empty candidate
/// list is a resolution failure carrying the original input.
pub fn resolve_first(input: &str, candidates: &Vec<HostAddress>) -> (r: Result<
    HostAddress,
    ResolutionError,
>)
    ensures
        candidates@.len() > 0 ==> r == Ok::<HostAddress, ResolutionError>(candidates@[0]),
        candidates@.len() == 0 ==> (r matches Err(e) && e.input@ == input@),
{
    if candidates.len() > 0 {
        Ok(candidates[0])
    } else {
        Err(ResolutionError { input: String::from_str(input) })
    }
}

/// Law: encoding any host address yields a well-formed wire address, and
/// decoding it back recovers the family, port, address bytes and the rest
/// exactly.
pub proof fn lemma_encode_decode_round_trip(h: HostAddress)
    ensures
        wire_well_formed(encode_spec(h)),
        decode_spec(encode_spec(h)) == Some(h),
{
    let port = match h {
        HostAddress::V4 { port, .. } => port,
        HostAddress::V6 { port, .. } => port,
    };
    vstd::arithmetic::div_mod::lemma_fundamental_div_mod(port as int, 256);
}

/// Law: every well-formed wire address denotes a host address, and encoding
/// that host address reproduces the wire address exactly.
pub proof fn lemma_decode_encode_round_trip(w: WireAddress)
    requires
        wire_well_formed(w),
    ensures
        decode_spec(w) is Some,
        encode_spec(decode_spec(w)->Some_0) == w,
{
    let port = match w.socket {
        WireSocket::V4 { port, .. } => port,
        WireSocket::V6 { port, .. } => port,
    };
    let p: int = (port.0 as int) * 256 + (port.1 as int);
    assert(p / 256 == port.0 as int && p % 256 == port.1 as int) by {
        vstd::arithmetic::div_mod::lemma_fundamental_div_mod_converse(
            p,
            256,
            port.0 as int,
            port.1 as int,
        );
    }
}

} // verus!
