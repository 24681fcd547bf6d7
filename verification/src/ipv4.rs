//! A four-octet IPv4 address value and its dotted-decimal text form.
//!
//! The octets are stored in the order they are written in text and sit in
//! memory on the wire: `o0` is the first octet of `"o0.o1.o2.o3"` and the
//! least significant byte of the payload word.

use vstd::prelude::*;
use vstd::string::StringExecFns;

verus! {

/// A structured IPv4 address: four octets, first to last.
#[derive(Copy, Clone, PartialEq, Eq, Structural, Debug)]
pub struct Ipv4Addr {
    pub o0: u8,
    pub o1: u8,
    pub o2: u8,
    pub o3: u8,
}

impl Ipv4Addr {
    /// Builds an address from its four octets, first to last.
    pub fn new(o0: u8, o1: u8, o2: u8, o3: u8) -> (r: Self)
        ensures
            r == (Ipv4Addr { o0, o1, o2, o3 }),
    {
        Ipv4Addr { o0, o1, o2, o3 }
    }

    /// The canonical dotted-decimal text of the address.
    pub fn to_text(&self) -> (r: String)
        ensures
            r@ == dotted_text(self.o0, self.o1, self.o2, self.o3),
    {
        let mut s = String::new();
        push_octet(&mut s, self.o0);
        push_dot(&mut s);
        push_octet(&mut s, self.o1);
        push_dot(&mut s);
        push_octet(&mut s, self.o2);
        push_dot(&mut s);
        push_octet(&mut s, self.o3);
        proof {
            assert(s@ =~= dotted_text(self.o0, self.o1, self.o2, self.o3));
        }
        s
    }
}

/// The decimal digit `d` as a character.
pub open spec fn digit_char(d: int) -> char {
    if d == 0 {
        '0'
    } else if d == 1 {
        '1'
    } else if d == 2 {
        '2'
    } else if d == 3 {
        '3'
    } else if d == 4 {
        '4'
    } else if d == 5 {
        '5'
    } else if d == 6 {
        '6'
    } else if d == 7 {
        '7'
    } else if d == 8 {
        '8'
    } else {
        '9'
    }
}

/// The shortest decimal text of an octet value: one to three digits, no
/// leading zero except for zero itself.
pub open spec fn octet_text(n: int) -> Seq<char> {
    if n < 10 {
        seq![digit_char(n)]
    } else if n < 100 {
        seq![digit_char(n / 10), digit_char(n % 10)]
    } else {
        seq![digit_char(n / 100), digit_char((n / 10) % 10), digit_char(n % 10)]
    }
}

/// The dotted-decimal text of four octets: their decimal texts joined by dots.
pub open spec fn dotted_text(o0: u8, o1: u8, o2: u8, o3: u8) -> Seq<char> {
    octet_text(o0 as int) + seq!['.'] + octet_text(o1 as int) + seq!['.'] + octet_text(o2 as int)
        + seq!['.'] + octet_text(o3 as int)
}

/// One decimal digit as a borrowed string.
fn digit_str(d: u8) -> (r: &'static str)
    requires
        d < 10,
    ensures
        r@ == seq![digit_char(d as int)],
{
    let r: &'static str = if d == 0 {
        "0"
    } else if d == 1 {
        "1"
    } else if d == 2 {
        "2"
    } else if d == 3 {
        "3"
    } else if d == 4 {
        "4"
    } else if d == 5 {
        "5"
    } else if d == 6 {
        "6"
    } else if d == 7 {
        "7"
    } else if d == 8 {
        "8"
    } else {
        "9"
    };
    proof {
        reveal_strlit("0");
        reveal_strlit("1");
        reveal_strlit("2");
        reveal_strlit("3");
        reveal_strlit("4");
        reveal_strlit("5");
        reveal_strlit("6");
        reveal_strlit("7");
        reveal_strlit("8");
        reveal_strlit("9");
        assert(r@ =~= seq![digit_char(d as int)]);
    }
    r
}

/// Appends one dot to the text being built.
fn push_dot(s: &mut String)
    ensures
        final(s)@ == old(s)@ + seq!['.'],
{
    s.append(".");
    proof {
        reveal_strlit(".");
        assert(s@ =~= old(s)@ + seq!['.']);
    }
}

/// Appends the decimal text of one octet to the text being built.
fn push_octet(s: &mut String, n: u8)
    ensures
        final(s)@ == old(s)@ + octet_text(n as int),
{
    if n >= 100 {
        let d2: u8 = n / 100;
        let d1: u8 = (n / 10) % 10;
        let d0: u8 = n % 10;
        s.append(digit_str(d2));
        s.append(digit_str(d1));
        s.append(digit_str(d0));
        proof {
            assert(s@ =~= old(s)@ + octet_text(n as int));
        }
    } else if n >= 10 {
        let d1: u8 = n / 10;
        let d0: u8 = n % 10;
        s.append(digit_str(d1));
        s.append(digit_str(d0));
        proof {
            assert(s@ =~= old(s)@ + octet_text(n as int));
        }
    } else {
        s.append(digit_str(n));
        proof {
            assert(s@ =~= old(s)@ + octet_text(n as int));
        }
    }
}

} // verus!
