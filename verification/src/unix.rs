//! The Unix flavour of the address wrapper.
//!
//! On Unix-family systems the native socket-API address struct is
//! `libc::in_addr`, a C-layout struct holding the whole four-byte payload in
//! one `u32` field, `s_addr`. The wrapper stores that struct as-is, so a value
//! can be handed to a foreign socket call without copying or transformation.

use vstd::prelude::*;
use vstd::std_specs::convert::IntoSpec;

verus! {

/// Relies on `libc::in_addr` (Linux and the other Unix targets): a C-layout
/// struct whose single public field `s_addr` is a `u32` (`in_addr_t`) holding
/// the address payload. Declaring it with its field visible lets verified code
/// build and read the struct directly; nothing else of libc is assumed.
#[verifier::external_type_specification]
pub struct ExInAddr(libc::in_addr);

/// Wrapper around `libc::in_addr` on which `From` is implemented.
///
/// Its mathematical view is the 32-bit payload word.
#[derive(Copy, Clone)]
pub struct InAddr(pub libc::in_addr);

impl View for InAddr {
    type V = u32;

    open spec fn view(&self) -> u32 {
        self.0.s_addr
    }
}

impl InAddr {
    /// Builds the wrapper from anything convertible into it: the payload word,
    /// the native struct, or a four-octet address.
    pub fn new<T: core::convert::Into<Self>>(t: T) -> (r: Self)
        ensures
            T::obeys_into_spec() ==> r == t.into_spec(),
    {
        t.into()
    }
}

impl core::convert::From<u32> for InAddr {
    /// Places the payload word directly into the native struct.
    fn from(value: u32) -> (r: Self) {
        InAddr(libc::in_addr { s_addr: value })
    }
}

impl vstd::std_specs::convert::FromSpecImpl<u32> for InAddr {
    open spec fn obeys_from_spec() -> bool {
        true
    }

    open spec fn from_spec(value: u32) -> Self {
        InAddr(libc::in_addr { s_addr: value })
    }
}

impl core::convert::From<InAddr> for u32 {
    /// Reads the payload word back out of the native struct.
    fn from(addr: InAddr) -> (r: u32) {
        addr.0.s_addr
    }
}

impl vstd::std_specs::convert::FromSpecImpl<InAddr> for u32 {
    open spec fn obeys_from_spec() -> bool {
        true
    }

    open spec fn from_spec(addr: InAddr) -> u32 {
        addr@
    }
}

impl core::convert::From<libc::in_addr> for InAddr {
    /// Wraps the native struct unchanged.
    fn from(addr: libc::in_addr) -> (r: Self) {
        InAddr(addr)
    }
}

impl vstd::std_specs::convert::FromSpecImpl<libc::in_addr> for InAddr {
    open spec fn obeys_from_spec() -> bool {
        true
    }

    open spec fn from_spec(addr: libc::in_addr) -> Self {
        InAddr(addr)
    }
}

impl core::convert::From<InAddr> for libc::in_addr {
    /// Unwraps the native struct unchanged.
    fn from(addr: InAddr) -> (r: libc::in_addr) {
        addr.0
    }
}

impl vstd::std_specs::convert::FromSpecImpl<InAddr> for libc::in_addr {
    open spec fn obeys_from_spec() -> bool {
        true
    }

    open spec fn from_spec(addr: InAddr) -> libc::in_addr {
        addr.0
    }
}

impl core::convert::From<crate::ipv4::Ipv4Addr> for InAddr {
    /// Packs the four octets into the payload word, first octet lowest, so the
    /// bytes keep their on-wire order in memory.
    fn from(addr: crate::ipv4::Ipv4Addr) -> (r: Self) {
        InAddr(libc::in_addr {
            s_addr: crate::bytes::assemble_word(addr.o0, addr.o1, addr.o2, addr.o3),
        })
    }
}

impl vstd::std_specs::convert::FromSpecImpl<crate::ipv4::Ipv4Addr> for InAddr {
    open spec fn obeys_from_spec() -> bool {
        true
    }

    open spec fn from_spec(addr: crate::ipv4::Ipv4Addr) -> Self {
        InAddr(
            libc::in_addr {
                s_addr: crate::bytes::word_of_bytes(addr.o0, addr.o1, addr.o2, addr.o3),
            },
        )
    }
}

impl core::convert::From<InAddr> for crate::ipv4::Ipv4Addr {
    /// Splits the payload word into the four octets, lowest byte first, so the
    /// octets come out in their on-wire order.
    fn from(addr: InAddr) -> (r: crate::ipv4::Ipv4Addr) {
        let v: u32 = addr.0.s_addr;
        crate::ipv4::Ipv4Addr {
            o0: crate::bytes::extract_byte0(v),
            o1: crate::bytes::extract_byte1(v),
            o2: crate::bytes::extract_byte2(v),
            o3: crate::bytes::extract_byte3(v),
        }
    }
}

impl vstd::std_specs::convert::FromSpecImpl<InAddr> for crate::ipv4::Ipv4Addr {
    open spec fn obeys_from_spec() -> bool {
        true
    }

    open spec fn from_spec(addr: InAddr) -> crate::ipv4::Ipv4Addr {
        crate::ipv4::Ipv4Addr {
            o0: crate::bytes::byte0(addr@),
            o1: crate::bytes::byte1(addr@),
            o2: crate::bytes::byte2(addr@),
            o3: crate::bytes::byte3(addr@),
        }
    }
}

impl InAddr {
    /// The canonical dotted-decimal text of the address, obtained by
    /// converting through the four-octet form.
    pub fn format_text(&self) -> (r: String)
        ensures
            r@ == crate::ipv4::dotted_text(
                crate::bytes::byte0(self@),
                crate::bytes::byte1(self@),
                crate::bytes::byte2(self@),
                crate::bytes::byte3(self@),
            ),
    {
        let ip = crate::ipv4::Ipv4Addr::from(*self);
        ip.to_text()
    }
}

/// Converting a payload word into an address and reading it back yields the
/// word: the wrapper stores it unchanged.
pub proof fn lemma_integer_round_trip(v: u32)
    ensures
        <u32 as vstd::std_specs::convert::FromSpec<InAddr>>::from_spec(
            <InAddr as vstd::std_specs::convert::FromSpec<u32>>::from_spec(v),
        ) == v,
{
}

/// Unwrapping an address into the native struct and wrapping that struct
/// again yields the same address, bit for bit.
pub proof fn lemma_native_round_trip(a: InAddr)
    ensures
        <InAddr as vstd::std_specs::convert::FromSpec<libc::in_addr>>::from_spec(
            <libc::in_addr as vstd::std_specs::convert::FromSpec<InAddr>>::from_spec(a),
        ) == a,
{
}

/// Converting a four-octet address into the wrapper and back yields the same
/// four octets: the pair of conversions is the identity.
pub proof fn lemma_ipv4_round_trip(o: crate::ipv4::Ipv4Addr)
    ensures
        <crate::ipv4::Ipv4Addr as vstd::std_specs::convert::FromSpec<InAddr>>::from_spec(
            <InAddr as vstd::std_specs::convert::FromSpec<crate::ipv4::Ipv4Addr>>::from_spec(o),
        ) == o,
{
    crate::bytes::lemma_bytes_of_word_of_bytes(o.o0, o.o1, o.o2, o.o3);
}

/// An address built from a payload word converts to exactly the four-octet
/// address whose octets are the word's bytes, least significant first: no
/// conversion reorders bytes.
pub proof fn lemma_cross_representation(v: u32)
    ensures
        <crate::ipv4::Ipv4Addr as vstd::std_specs::convert::FromSpec<InAddr>>::from_spec(
            <InAddr as vstd::std_specs::convert::FromSpec<u32>>::from_spec(v),
        ) == (crate::ipv4::Ipv4Addr {
            o0: crate::bytes::byte0(v),
            o1: crate::bytes::byte1(v),
            o2: crate::bytes::byte2(v),
            o3: crate::bytes::byte3(v),
        }),
{
}

/// A copy of an address is an independent, equal value: everything either
/// converts to is determined by the value alone, so the two convert alike,
/// and nothing done with one value can change the other.
pub proof fn lemma_copy_independence(a: InAddr, b: InAddr)
    requires
        b == a,
    ensures
        b@ == a@,
        <u32 as vstd::std_specs::convert::FromSpec<InAddr>>::from_spec(b) == <u32 as vstd::std_specs::convert::FromSpec<InAddr>>::from_spec(a),
        <crate::ipv4::Ipv4Addr as vstd::std_specs::convert::FromSpec<InAddr>>::from_spec(b) == <crate::ipv4::Ipv4Addr as vstd::std_specs::convert::FromSpec<InAddr>>::from_spec(a),
        <libc::in_addr as vstd::std_specs::convert::FromSpec<InAddr>>::from_spec(b) == <libc::in_addr as vstd::std_specs::convert::FromSpec<InAddr>>::from_spec(a),
{
}

} // verus!
