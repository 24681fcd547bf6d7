use in_addr::ipv4::Ipv4Addr;
use in_addr::windows::{InAddr, InAddrUnion, WinInAddr};

#[test]
fn win_integer_round_trip() {
    for v in [0u32, 1, 0x7F, 0x0100007F, 0xDEADBEEF, 0xFFFFFFFF] {
        let a = InAddr::from(v);
        assert_eq!(u32::from(a), v);
    }
}

#[test]
fn union_word_view_after_build() {
    let a = InAddr::from(0x0100007Fu32);
    let native: WinInAddr = a.into();
    assert_eq!(native.s_un.word(), 0x0100007F);
    assert_eq!(native.s_un.b0, 0x7F);
    assert_eq!(native.s_un.b1, 0x00);
    assert_eq!(native.s_un.b2, 0x00);
    assert_eq!(native.s_un.b3, 0x01);
}

#[test]
fn union_write_overwrites_every_byte() {
    let mut un = InAddrUnion {
        b0: 0xAA,
        b1: 0xBB,
        b2: 0xCC,
        b3: 0xDD,
    };
    un.set_word(0x01020304);
    assert_eq!(un.b0, 0x04);
    assert_eq!(un.b1, 0x03);
    assert_eq!(un.b2, 0x02);
    assert_eq!(un.b3, 0x01);
    assert_eq!(un.word(), 0x01020304);
}

#[test]
fn union_zeroed_is_all_zero() {
    let un = InAddrUnion::zeroed();
    assert_eq!(un.word(), 0);
    assert_eq!((un.b0, un.b1, un.b2, un.b3), (0, 0, 0, 0));
}

#[test]
fn win_native_round_trip() {
    let a = InAddr::from(0x0A00000Bu32);
    let native: WinInAddr = a.into();
    let back = InAddr::from(native);
    assert_eq!(back, a);
}

#[test]
fn win_ipv4_round_trip() {
    for o in [
        Ipv4Addr::new(0, 0, 0, 0),
        Ipv4Addr::new(127, 0, 0, 1),
        Ipv4Addr::new(255, 255, 255, 255),
    ] {
        let a = InAddr::from(o);
        assert_eq!(Ipv4Addr::from(a), o);
    }
}

#[test]
fn win_cross_representation_consistency() {
    let a = InAddr::from(0x44332211u32);
    assert_eq!(Ipv4Addr::from(a), Ipv4Addr::new(0x11, 0x22, 0x33, 0x44));
}

#[test]
fn win_new_accepts_every_source() {
    let from_word = InAddr::new(0x0100007Fu32);
    let from_octets = InAddr::new(Ipv4Addr::new(127, 0, 0, 1));
    let from_native = InAddr::new(WinInAddr {
        s_un: InAddrUnion {
            b0: 0x7F,
            b1: 0,
            b2: 0,
            b3: 1,
        },
    });
    assert_eq!(from_word, from_octets);
    assert_eq!(from_word, from_native);
}

#[test]
fn win_format_text_loopback() {
    let a = InAddr::from(0x0100007Fu32);
    assert_eq!(a.format_text(), "127.0.0.1");
}
