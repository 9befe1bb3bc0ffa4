use blog_backend::utils::ip_utils::extract_first_bytes;

#[test]
fn ipv4_extract_first_bytes() {
    let sut = "111.12.22.254";
    let expected = String::from("111.12.22");
    let sut2 = "127.0.0.1";
    let expected2 = String::from("127.0.0");
    assert_eq!(extract_first_bytes(sut), expected);
    assert_eq!(extract_first_bytes(sut2), expected2);
}

#[test]
fn ipv6_extract_first_bytes() {
    let sut = "::1";
    let expected = String::from("::1");
    let sut2 = "2001:0db8:85a3:0000:0000:8a2e:0370:7334";
    let expected2 = String::from("2001:0db8:85a3:0000:0000:8a2e");
    let sut3 = "fe80::9656:d028:8652:66b6";
    let expected3 = String::from("fe80::9656:d028");
    assert_eq!(extract_first_bytes(sut), expected);
    assert_eq!(extract_first_bytes(sut2), expected2);
    assert_eq!(extract_first_bytes(sut3), expected3);
}

#[test]
fn invalid_ipv4_gives_same_value() {
    let sut = "222.82";
    let expected = String::from("222.82");
    assert_eq!(extract_first_bytes(sut), expected);
}

#[test]
fn invalid_address_gives_same_value() {
    let sut = "not an address";
    let expected = String::from("not an address");
    assert_eq!(extract_first_bytes(sut), expected);
}

#[test]
fn private_ipv4_drops_last_octet() {
    assert_eq!(extract_first_bytes("192.168.1.5"), "192.168.1");
}

#[test]
fn compressed_ipv6_keeps_current_behaviour() {
    // A "::" counts as two separators, so a compressed address may lose
    // fewer than two of its groups.
    assert_eq!(extract_first_bytes("::"), "");
    assert_eq!(extract_first_bytes("::2"), "");
    assert_eq!(extract_first_bytes("fe80::1"), "fe80");
    assert_eq!(extract_first_bytes("1::"), "1");
    assert_eq!(extract_first_bytes("a:b"), "a:b");
    assert_eq!(extract_first_bytes("a:b:c"), "a");
}

#[test]
fn dotted_text_is_cut_on_three_dots_only() {
    assert_eq!(extract_first_bytes("..."), "..");
    assert_eq!(extract_first_bytes("1.2.3.4.5"), "1.2.3.4.5");
    assert_eq!(extract_first_bytes("a.b.c.d"), "a.b.c");
    // Three dots win over colons.
    assert_eq!(extract_first_bytes("::ffff:10.0.0.1"), "::ffff:10.0.0");
    assert_eq!(extract_first_bytes(""), "");
}
