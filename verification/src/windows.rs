//! The Windows flavour of the address wrapper.
//!
//! On Windows the native socket-API address struct keeps its four-byte
//! payload in a union of views: four bytes, two 16-bit words, or one 32-bit
//! word, all over the same storage. This module carries that layout as a
//! four-byte store with the word view read and written explicitly, so every
//! byte of the store is always a defined value: building an address first
//! zeroes the whole store and then writes the word view, and the word view
//! can never reflect stale bytes from before the zeroing.

use vstd::prelude::*;
use vstd::std_specs::convert::IntoSpec;

verus! {

/// The union of views over the four payload bytes, carried as the backing
/// store itself: byte `b0` is the least significant byte of the word view.
#[derive(Copy, Clone, PartialEq, Eq, Structural, Debug)]
pub struct InAddrUnion {
    pub b0: u8,
    pub b1: u8,
    pub b2: u8,
    pub b3: u8,
}

impl InAddrUnion {
    /// A store of four zero bytes: every view of it is defined.
    pub fn zeroed() -> (r: Self)
        ensures
            r == (InAddrUnion { b0: 0, b1: 0, b2: 0, b3: 0 }),
    {
        InAddrUnion { b0: 0, b1: 0, b2: 0, b3: 0 }
    }

    /// Writes the 32-bit word view: every byte of the store is overwritten,
    /// so nothing of the old contents can show through any view.
    pub fn set_word(&mut self, v: u32)
        ensures
            *final(self) == (InAddrUnion {
                b0: crate::bytes::byte0(v),
                b1: crate::bytes::byte1(v),
                b2: crate::bytes::byte2(v),
                b3: crate::bytes::byte3(v),
            }),
    {
        self.b0 = crate::bytes::extract_byte0(v);
        self.b1 = crate::bytes::extract_byte1(v);
        self.b2 = crate::bytes::extract_byte2(v);
        self.b3 = crate::bytes::extract_byte3(v);
    }

    /// Reads the 32-bit word view of the store.
    pub fn word(&self) -> (r: u32)
        ensures
            r == self.word_view(),
    {
        crate::bytes::assemble_word(self.b0, self.b1, self.b2, self.b3)
    }

    /// The 32-bit word view of the store.
    pub open spec fn word_view(&self) -> u32 {
        crate::bytes::word_of_bytes(self.b0, self.b1, self.b2, self.b3)
    }
}

/// The Windows-layout native address struct: the union is its only field.
#[derive(Copy, Clone, PartialEq, Eq, Structural, Debug)]
pub struct WinInAddr {
    pub s_un: InAddrUnion,
}

/// Wrapper around the Windows-layout struct on which `From` is implemented.
///
/// Its mathematical view is the 32-bit payload word.
#[derive(Copy, Clone, PartialEq, Eq, Structural, Debug)]
pub struct InAddr(pub WinInAddr);

impl View for InAddr {
    type V = u32;

    open spec fn view(&self) -> u32 {
        self.0.s_un.word_view()
    }
}

impl InAddr {
    /// Builds the wrapper from anything convertible into it: the payload word,
    /// the native-layout struct, or a four-octet address.
    pub fn new<T: core::convert::Into<Self>>(t: T) -> (r: Self)
        ensures
            T::obeys_into_spec() ==> r == t.into_spec(),
    {
        t.into()
    }

    /// The canonical dotted-decimal text of the address, obtained by
    /// converting through the four-octet form.
    pub fn format_text(&self) -> (r: String)
        ensures
            r@ == crate::ipv4::dotted_text(
                crate::bytes::byte0(self@),
                crate::bytes::byte1(self@),
                crate::bytes::byte2(self@),
                crate::bytes::byte3(self@),
            ),
    {
        let ip = crate::ipv4::Ipv4Addr::from(*self);
        ip.to_text()
    }
}

impl core::convert::From<u32> for InAddr {
    /// Zeroes the whole union store, then writes the payload word through the
    /// 32-bit view, as the Windows layout demands.
    fn from(value: u32) -> (r: Self) {
        let mut un = InAddrUnion::zeroed();
        un.set_word(value);
        InAddr(WinInAddr { s_un: un })
    }
}

impl vstd::std_specs::convert::FromSpecImpl<u32> for InAddr {
    open spec fn obeys_from_spec() -> bool {
        true
    }

    open spec fn from_spec(value: u32) -> Self {
        InAddr(
            WinInAddr {
                s_un: InAddrUnion {
                    b0: crate::bytes::byte0(value),
                    b1: crate::bytes::byte1(value),
                    b2: crate::bytes::byte2(value),
                    b3: crate::bytes::byte3(value),
                },
            },
        )
    }
}

impl core::convert::From<InAddr> for u32 {
    /// Reads the payload word back through the 32-bit view of the union.
    fn from(addr: InAddr) -> (r: u32) {
        addr.0.s_un.word()
    }
}

impl vstd::std_specs::convert::FromSpecImpl<InAddr> for u32 {
    open spec fn obeys_from_spec() -> bool {
        true
    }

    open spec fn from_spec(addr: InAddr) -> u32 {
        addr@
    }
}

impl core::convert::From<WinInAddr> for InAddr {
    /// Wraps the native-layout struct unchanged.
    fn from(addr: WinInAddr) -> (r: Self) {
        InAddr(addr)
    }
}

impl vstd::std_specs::convert::FromSpecImpl<WinInAddr> for InAddr {
    open spec fn obeys_from_spec() -> bool {
        true
    }

    open spec fn from_spec(addr: WinInAddr) -> Self {
        InAddr(addr)
    }
}

impl core::convert::From<InAddr> for WinInAddr {
    /// Unwraps the native-layout struct unchanged.
    fn from(addr: InAddr) -> (r: WinInAddr) {
        addr.0
    }
}

impl vstd::std_specs::convert::FromSpecImpl<InAddr> for WinInAddr {
    open spec fn obeys_from_spec() -> bool {
        true
    }

    open spec fn from_spec(addr: InAddr) -> WinInAddr {
        addr.0
    }
}

impl core::convert::From<crate::ipv4::Ipv4Addr> for InAddr {
    /// Packs the four octets into the payload word, first octet lowest, so the
    /// bytes keep their on-wire order in the store.
    fn from(addr: crate::ipv4::Ipv4Addr) -> (r: Self) {
        InAddr(
            WinInAddr { s_un: InAddrUnion { b0: addr.o0, b1: addr.o1, b2: addr.o2, b3: addr.o3 } },
        )
    }
}

impl vstd::std_specs::convert::FromSpecImpl<crate::ipv4::Ipv4Addr> for InAddr {
    open spec fn obeys_from_spec() -> bool {
        true
    }

    open spec fn from_spec(addr: crate::ipv4::Ipv4Addr) -> Self {
        InAddr(
            WinInAddr { s_un: InAddrUnion { b0: addr.o0, b1: addr.o1, b2: addr.o2, b3: addr.o3 } },
        )
    }
}

impl core::convert::From<InAddr> for crate::ipv4::Ipv4Addr {
    /// Splits the payload word into the four octets, lowest byte first, so the
    /// octets come out in their on-wire order.
    fn from(addr: InAddr) -> (r: crate::ipv4::Ipv4Addr) {
        let un = addr.0.s_un;
        proof {
            crate::bytes::lemma_bytes_of_word_of_bytes(un.b0, un.b1, un.b2, un.b3);
        }
        crate::ipv4::Ipv4Addr { o0: un.b0, o1: un.b1, o2: un.b2, o3: un.b3 }
    }
}

impl vstd::std_specs::convert::FromSpecImpl<InAddr> for crate::ipv4::Ipv4Addr {
    open spec fn obeys_from_spec() -> bool {
        true
    }

    open spec fn from_spec(addr: InAddr) -> crate::ipv4::Ipv4Addr {
        crate::ipv4::Ipv4Addr {
            o0: crate::bytes::byte0(addr@),
            o1: crate::bytes::byte1(addr@),
            o2: crate::bytes::byte2(addr@),
            o3: crate::bytes::byte3(addr@),
        }
    }
}

/// Converting a payload word into an address and reading it back through the
/// 32-bit union view yields exactly the word, and the converted-from store
/// holds nothing but the word's bytes: no view reflects stale contents.
pub proof fn lemma_integer_round_trip(v: u32)
    ensures
        <u32 as vstd::std_specs::convert::FromSpec<InAddr>>::from_spec(
            <InAddr as vstd::std_specs::convert::FromSpec<u32>>::from_spec(v),
        ) == v,
{
    crate::bytes::lemma_word_of_bytes_of_word(v);
}

/// Unwrapping an address into the native-layout struct and wrapping that
/// struct again yields the same address, bit for bit.
pub proof fn lemma_native_round_trip(a: InAddr)
    ensures
        <InAddr as vstd::std_specs::convert::FromSpec<WinInAddr>>::from_spec(
            <WinInAddr as vstd::std_specs::convert::FromSpec<InAddr>>::from_spec(a),
        ) == a,
{
}

/// Converting a four-octet address into the wrapper and back yields the same
/// four octets: the pair of conversions is the identity.
pub proof fn lemma_ipv4_round_trip(o: crate::ipv4::Ipv4Addr)
    ensures
        <crate::ipv4::Ipv4Addr as vstd::std_specs::convert::FromSpec<InAddr>>::from_spec(
            <InAddr as vstd::std_specs::convert::FromSpec<crate::ipv4::Ipv4Addr>>::from_spec(o),
        ) == o,
{
    crate::bytes::lemma_bytes_of_word_of_bytes(o.o0, o.o1, o.o2, o.o3);
}

/// An address built from a payload word converts to exactly the four-octet
/// address whose octets are the word's bytes, least significant first: no
/// conversion reorders bytes.
pub proof fn lemma_cross_representation(v: u32)
    ensures
        <crate::ipv4::Ipv4Addr as vstd::std_specs::convert::FromSpec<InAddr>>::from_spec(
            <InAddr as vstd::std_specs::convert::FromSpec<u32>>::from_spec(v),
        ) == (crate::ipv4::Ipv4Addr {
            o0: crate::bytes::byte0(v),
            o1: crate::bytes::byte1(v),
            o2: crate::bytes::byte2(v),
            o3: crate::bytes::byte3(v),
        }),
{
    crate::bytes::lemma_word_of_bytes_of_word(v);
}

/// A copy of an address is an independent, equal value: everything either
/// converts to is determined by the value alone, so the two convert alike,
/// and nothing done with one value can change the other.
pub proof fn lemma_copy_independence(a: InAddr, b: InAddr)
    requires
        b == a,
    ensures
        b@ == a@,
        <u32 as vstd::std_specs::convert::FromSpec<InAddr>>::from_spec(b) == <u32 as vstd::std_specs::convert::FromSpec<InAddr>>::from_spec(a),
        <crate::ipv4::Ipv4Addr as vstd::std_specs::convert::FromSpec<InAddr>>::from_spec(b) == <crate::ipv4::Ipv4Addr as vstd::std_specs::convert::FromSpec<InAddr>>::from_spec(a),
        <WinInAddr as vstd::std_specs::convert::FromSpec<InAddr>>::from_spec(b) == <WinInAddr as vstd::std_specs::convert::FromSpec<InAddr>>::from_spec(a),
{
}

} // verus!
