use libratone_rs::address::{parse_ipv4, parse_octet, split_at_each, IpAddress};

#[test]
fn ipv4_literals() {
    assert_eq!(IpAddress::parse(b"192.168.178.75"), Some(IpAddress::V4(192, 168, 178, 75)));
    assert_eq!(IpAddress::parse(b"0.0.0.0"), Some(IpAddress::V4(0, 0, 0, 0)));
    assert_eq!(IpAddress::parse(b"255.255.255.255"), Some(IpAddress::V4(255, 255, 255, 255)));
    assert_eq!(parse_ipv4(b"1.2.3.4"), Some(IpAddress::V4(1, 2, 3, 4)));
}

#[test]
fn what_is_no_ipv4_literal() {
    for text in [
        "", ".", "1", "1.2.3", "1.2.3.", ".1.2.3", "1.2.3.4.", "1.2.3.4.5", "1..3.4", "256.1.1.1",
        "1.2.3.256", "01.2.3.4", "1.2.3.04", "1.2.3.4 ", " 1.2.3.4", "1.2.3.a", "1.2.3.-4",
        "1.2.3.+4", "1,2,3,4", "1.2.3.1000", "0x1.2.3.4", "1.2.3.4\n",
    ] {
        assert_eq!(parse_ipv4(text.as_bytes()), None, "{:?}", text);
    }
}

#[test]
fn more_ipv4_literals() {
    let samples = [
        ("10.0.0.1", Some(IpAddress::V4(10, 0, 0, 1))),
        ("127.0.0.1", Some(IpAddress::V4(127, 0, 0, 1))),
        ("9.99.199.249", Some(IpAddress::V4(9, 99, 199, 249))),
        ("192.168.10.10", Some(IpAddress::V4(192, 168, 10, 10))),
        ("1.1.1.01", None),
        ("300.1.1.1", None),
        ("00.0.0.0", None),
        ("0.0.0.00", None),
        ("a.b.c.d", None),
        ("25.255.05.1", None),
    ];
    for (text, expected) in samples {
        assert_eq!(parse_ipv4(text.as_bytes()), expected, "{:?}", text);
    }
}

#[test]
fn octets() {
    assert_eq!(parse_octet(b"0"), Some(0));
    assert_eq!(parse_octet(b"9"), Some(9));
    assert_eq!(parse_octet(b"10"), Some(10));
    assert_eq!(parse_octet(b"255"), Some(255));
    assert_eq!(parse_octet(b"256"), None);
    assert_eq!(parse_octet(b"00"), None);
    assert_eq!(parse_octet(b"010"), None);
    assert_eq!(parse_octet(b""), None);
    assert_eq!(parse_octet(b"1234"), None);
    assert_eq!(parse_octet(b"1a"), None);
}

#[test]
fn splitting() {
    let pieces = |text: &str| -> Vec<String> {
        split_at_each(text.as_bytes(), b'.')
            .into_iter()
            .map(|p| String::from_utf8(p).unwrap())
            .collect()
    };
    assert_eq!(pieces(""), vec![""]);
    assert_eq!(pieces("a"), vec!["a"]);
    assert_eq!(pieces("."), vec!["", ""]);
    assert_eq!(pieces("a.b"), vec!["a", "b"]);
    assert_eq!(pieces("a..b."), vec!["a", "", "b", ""]);
    assert_eq!(pieces(".a"), vec!["", "a"]);
}

#[test]
fn ipv6_literals() {
    let samples = [
        ("::", IpAddress::V6(0, 0, 0, 0, 0, 0, 0, 0)),
        ("::1", IpAddress::V6(0, 0, 0, 0, 0, 0, 0, 1)),
        ("1::", IpAddress::V6(1, 0, 0, 0, 0, 0, 0, 0)),
        ("2001:db8::1", IpAddress::V6(0x2001, 0xdb8, 0, 0, 0, 0, 0, 1)),
        ("1:2:3:4:5:6:7:8", IpAddress::V6(1, 2, 3, 4, 5, 6, 7, 8)),
        ("FE80::AbCd", IpAddress::V6(0xfe80, 0, 0, 0, 0, 0, 0, 0xabcd)),
        ("ffff:ffff:ffff:ffff:ffff:ffff:ffff:ffff", IpAddress::V6(
            0xffff, 0xffff, 0xffff, 0xffff, 0xffff, 0xffff, 0xffff, 0xffff,
        )),
        (
            "0000:0001:0020:0300:4000:0000:0000:0000",
            IpAddress::V6(0, 1, 0x20, 0x300, 0x4000, 0, 0, 0),
        ),
        ("::ffff:192.168.1.1", IpAddress::V6(0, 0, 0, 0, 0, 0xffff, 0xc0a8, 0x0101)),
        ("::1.2.3.4", IpAddress::V6(0, 0, 0, 0, 0, 0, 0x0102, 0x0304)),
        ("1:2:3:4:5:6:1.2.3.4", IpAddress::V6(1, 2, 3, 4, 5, 6, 0x0102, 0x0304)),
        ("1:2:3:4:5::1.2.3.4", IpAddress::V6(1, 2, 3, 4, 5, 0, 0x0102, 0x0304)),
        ("1:2:3:4:5:6:7::", IpAddress::V6(1, 2, 3, 4, 5, 6, 7, 0)),
        ("::2:3:4:5:6:7:8", IpAddress::V6(0, 2, 3, 4, 5, 6, 7, 8)),
        ("1:2:3::6:7:8", IpAddress::V6(1, 2, 3, 0, 0, 6, 7, 8)),
        ("1::8", IpAddress::V6(1, 0, 0, 0, 0, 0, 0, 8)),
    ];
    for (text, expected) in samples {
        assert_eq!(IpAddress::parse(text.as_bytes()), Some(expected), "{:?}", text);
    }
}

#[test]
fn what_is_no_address() {
    for text in [
        "", ":", ":::", "1::2::3", "1:2:3:4:5:6:7", "1:2:3:4:5:6:7:8:9", "12345::", "g::",
        "1:2:3:4:5:6:7::8", "1.2.3.4::", "::1.2.3.4:5", "1:2:3:4:5:6::1.2.3.4", "::1.2.3",
        " ::1", "::1 ", "1:2:3:4:5:6:7:1.2.3.4", "fe80::1%eth0", "1:", ":1", "1:2:3:4:5:6:7:",
        ":1:2:3:4:5:6:7", "::01.2.3.4", "::1.2.3.256", "1:2:3:4:5:6:7:8::", "::1:2:3:4:5:6:7:8",
        "[::1]", "1.2.3.4:5",
    ] {
        assert_eq!(IpAddress::parse(text.as_bytes()), None, "{:?}", text);
    }
}

fn written(address: IpAddress) -> String {
    String::from_utf8(address.to_bytes()).unwrap()
}

#[test]
fn addresses_as_text() {
    assert_eq!(written(IpAddress::V4(192, 168, 178, 75)), "192.168.178.75");
    assert_eq!(written(IpAddress::V4(0, 0, 0, 0)), "0.0.0.0");
    assert_eq!(written(IpAddress::V4(255, 100, 10, 1)), "255.100.10.1");
    assert_eq!(written(IpAddress::V6(0, 0, 0, 0, 0, 0, 0, 0)), "::");
    assert_eq!(written(IpAddress::V6(0, 0, 0, 0, 0, 0, 0, 1)), "::1");
    assert_eq!(written(IpAddress::V6(1, 0, 0, 0, 0, 0, 0, 0)), "1::");
    assert_eq!(written(IpAddress::V6(0x2001, 0xdb8, 0, 0, 0, 0, 0, 1)), "2001:db8::1");
    assert_eq!(written(IpAddress::V6(0x2001, 0xdb8, 0, 0, 1, 0, 0, 1)), "2001:db8::1:0:0:1");
    assert_eq!(written(IpAddress::V6(0x2001, 0, 0, 1, 0, 0, 0, 1)), "2001:0:0:1::1");
    assert_eq!(written(IpAddress::V6(1, 0, 2, 0, 3, 0, 4, 0)), "1:0:2:0:3:0:4:0");
    assert_eq!(written(IpAddress::V6(1, 2, 3, 4, 5, 6, 7, 8)), "1:2:3:4:5:6:7:8");
    assert_eq!(
        written(IpAddress::V6(0xffff, 0xabcd, 0x10, 0x100, 0x1000, 0xf, 0xa0, 0xb00)),
        "ffff:abcd:10:100:1000:f:a0:b00"
    );
    assert_eq!(written(IpAddress::V6(0, 0, 0, 0, 0, 0xffff, 0xc0a8, 0x0101)), "::ffff:192.168.1.1");
    assert_eq!(written(IpAddress::V6(0, 0, 0, 0, 0, 0, 0x0102, 0x0304)), "::102:304");
    assert_eq!(written(IpAddress::V6(0, 0, 1, 0, 0, 0, 0, 0)), "0:0:1::");
}

#[test]
fn written_addresses_read_back() {
    let samples = [
        IpAddress::V4(192, 168, 178, 75),
        IpAddress::V4(0, 0, 0, 0),
        IpAddress::V4(255, 255, 255, 255),
        IpAddress::V6(0, 0, 0, 0, 0, 0, 0, 0),
        IpAddress::V6(0, 0, 0, 0, 0, 0, 0, 1),
        IpAddress::V6(1, 0, 0, 0, 0, 0, 0, 0),
        IpAddress::V6(0x2001, 0xdb8, 0, 0, 1, 0, 0, 1),
        IpAddress::V6(1, 0, 2, 0, 3, 0, 4, 0),
        IpAddress::V6(0, 0, 0, 0, 0, 0xffff, 0xc0a8, 0x0101),
        IpAddress::V6(0xffff, 0xabcd, 0x10, 0x100, 0x1000, 0xf, 0xa0, 0xb00),
    ];
    for address in samples {
        assert_eq!(IpAddress::parse(&address.to_bytes()), Some(address));
    }
}
