use polly::identity::{extract_real_ip, normalize_ip, IpForm};
use polly::text::{is_whitespace, trim};

#[test]
fn peer_outside_the_proxy_range_is_the_client() {
    assert_eq!(extract_real_ip("203.0.113.7", Some("1.2.3.4"), Some("5.6.7.8")), "203.0.113.7");
    assert_eq!(extract_real_ip("17.2.0.1", Some("1.2.3.4"), None), "17.2.0.1");
    assert_eq!(extract_real_ip("1172.0.0.1", Some("1.2.3.4"), None), "1172.0.0.1");
    assert_eq!(extract_real_ip("172", Some("1.2.3.4"), None), "172");
    assert_eq!(extract_real_ip("", Some("1.2.3.4"), None), "");
    assert_eq!(extract_real_ip("::1", None, None), "::1");
}

#[test]
fn proxy_hands_on_the_first_forwarded_address() {
    assert_eq!(extract_real_ip("172.17.0.1", Some("1.2.3.4"), Some("5.6.7.8")), "1.2.3.4");
    assert_eq!(
        extract_real_ip("172.17.0.1", Some("1.2.3.4, 10.0.0.1, 172.17.0.9"), None),
        "1.2.3.4"
    );
    assert_eq!(extract_real_ip("172.17.0.1", Some("  1.2.3.4\t,10.0.0.1"), None), "1.2.3.4");
    assert_eq!(extract_real_ip("172.17.0.1", Some("2001:db8::1 , x"), None), "2001:db8::1");
    assert_eq!(extract_real_ip("172.", Some("a,b"), None), "a");
}

#[test]
fn empty_first_forwarded_address_is_taken_as_it_is() {
    assert_eq!(extract_real_ip("172.17.0.1", Some(""), Some("5.6.7.8")), "");
    assert_eq!(extract_real_ip("172.17.0.1", Some(",1.2.3.4"), Some("5.6.7.8")), "");
    assert_eq!(extract_real_ip("172.17.0.1", Some("   , 1.2.3.4"), None), "");
}

#[test]
fn proxy_falls_back_to_real_ip_and_then_to_itself() {
    assert_eq!(extract_real_ip("172.17.0.1", None, Some("5.6.7.8")), "5.6.7.8");
    // the real-IP header is not trimmed
    assert_eq!(extract_real_ip("172.17.0.1", None, Some(" 5.6.7.8 ")), " 5.6.7.8 ");
    assert_eq!(extract_real_ip("172.17.0.1", None, None), "172.17.0.1");
}

#[test]
fn ipv4_passes_unchanged() {
    assert_eq!(normalize_ip("203.0.113.7", &IpForm::V4), "203.0.113.7");
    assert_eq!(normalize_ip("0.0.0.0", &IpForm::V4), "0.0.0.0");
}

#[test]
fn ipv6_is_cut_to_four_segments() {
    let segments = [0x2001, 0x0db8, 0x85a3, 0x0000, 0x0000, 0x8a2e, 0x0370, 0x7334];
    assert_eq!(
        normalize_ip("2001:db8:85a3::8a2e:370:7334", &IpForm::V6(segments)),
        "2001:db8:85a3:0::"
    );
    assert_eq!(normalize_ip("::1", &IpForm::V6([0, 0, 0, 0, 0, 0, 0, 1])), "0:0:0:0::");
    assert_eq!(
        normalize_ip("x", &IpForm::V6([0xffff, 0xf, 0x10, 0xabc, 1, 2, 3, 4])),
        "ffff:f:10:abc::"
    );
    assert_eq!(
        normalize_ip("x", &IpForm::V6([0x1000, 0x0100, 0x0010, 0x0001, 0, 0, 0, 0])),
        "1000:100:10:1::"
    );
}

#[test]
fn neighbours_in_one_allocation_share_an_identity() {
    let one = [0x2001, 0xdb8, 1, 2, 0, 0, 0, 1];
    let other = [0x2001, 0xdb8, 1, 2, 0xffff, 0xffff, 0xffff, 0xffff];
    let elsewhere = [0x2001, 0xdb8, 1, 3, 0, 0, 0, 1];
    assert_eq!(normalize_ip("a", &IpForm::V6(one)), normalize_ip("b", &IpForm::V6(other)));
    assert_ne!(normalize_ip("a", &IpForm::V6(one)), normalize_ip("a", &IpForm::V6(elsewhere)));
}

#[test]
fn ipv6_prefix_follows_the_standard_formatting() {
    for segments in [[0u16; 8], [0xffff; 8], [0x1, 0x12, 0x123, 0x1234, 0, 0, 0, 0]] {
        let expected =
            format!("{:x}:{:x}:{:x}:{:x}::", segments[0], segments[1], segments[2], segments[3]);
        assert_eq!(normalize_ip("", &IpForm::V6(segments)), expected);
    }
}

#[test]
fn what_is_no_address_is_taken_literally() {
    assert_eq!(normalize_ip("not an ip", &IpForm::Unparsed), "not an ip");
    assert_eq!(normalize_ip("", &IpForm::Unparsed), "");
    assert_eq!(normalize_ip("1.2.3.4.5", &IpForm::Unparsed), "1.2.3.4.5");
}

#[test]
fn trim_follows_the_standard_library() {
    for text in [
        "",
        " ",
        "a",
        "  a b  ",
        "\t\n x \r\n",
        "\u{a0}x\u{3000}",
        "\u{2003}wide\u{2028}",
        "\u{85}\u{1680}y\u{205f}\u{202f}",
        "no-space",
        " \u{200b}zero width is no space ",
        "ünï cödé ",
        "   ",
    ] {
        assert_eq!(trim(text), text.trim());
    }
}

#[test]
fn white_space_is_what_the_standard_library_calls_so() {
    for code in 0..0x11_0000u32 {
        if let Some(c) = char::from_u32(code) {
            assert_eq!(is_whitespace(c), c.is_whitespace(), "U+{:04X}", code);
        }
    }
}
