//! A common interface to the socket-level IPv4 address structure (`in_addr`)
//! across Unix and Windows.
//!
//! The address payload is four bytes, carried around as the platform's native
//! socket-API struct. Each platform module offers the same surface: a newtype
//! wrapper `InAddr` around the native struct, with conversions to and from a
//! raw `u32` (the payload as one machine word), the native struct itself, and
//! a four-octet [`Ipv4Addr`] value, plus dotted-decimal text. No conversion
//! reorders bytes: the 32-bit payload is treated as an opaque bit pattern.
//!
//! * [`unix`] wraps `libc::in_addr`, whose single field holds the word.
//! * [`windows`] mirrors the Windows layout, where the same four bytes sit in
//!   a union of views and the word view is the one read and written.
//!
//! The Unix variant is re-exported at the crate root.

pub mod bytes;
pub mod ipv4;
pub mod unix;
pub mod windows;

pub use crate::ipv4::Ipv4Addr;
pub use crate::unix::InAddr;

