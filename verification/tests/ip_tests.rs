use ddns::ip::classify_ip;
use ddns::ip::IpFamily;

#[test]
fn classifies_plain_ipv4() {
    assert_eq!(classify_ip("1.2.3.4"), Some(IpFamily::V4));
    assert_eq!(classify_ip("0.0.0.0"), Some(IpFamily::V4));
    assert_eq!(classify_ip("255.255.255.255"), Some(IpFamily::V4));
    assert_eq!(classify_ip("192.168.0.1"), Some(IpFamily::V4));
}

#[test]
fn rejects_malformed_ipv4() {
    assert_eq!(classify_ip("256.1.1.1"), None);
    assert_eq!(classify_ip("01.2.3.4"), None);
    assert_eq!(classify_ip("1.2.3"), None);
    assert_eq!(classify_ip("1.2.3.4.5"), None);
    assert_eq!(classify_ip("1.2.3."), None);
    assert_eq!(classify_ip(".1.2.3.4"), None);
    assert_eq!(classify_ip("1..2.3"), None);
    assert_eq!(classify_ip("1.2.3.a"), None);
    assert_eq!(classify_ip(""), None);
    assert_eq!(classify_ip("not-an-ip"), None);
    assert_eq!(classify_ip("1.2.3.4 "), None);
}

#[test]
fn classifies_full_ipv6() {
    assert_eq!(classify_ip("1:2:3:4:5:6:7:8"), Some(IpFamily::V6));
    assert_eq!(
        classify_ip("2001:0db8:85a3:0000:0000:8a2e:0370:7334"),
        Some(IpFamily::V6)
    );
    assert_eq!(classify_ip("0:0:0:0:0:0:0:1"), Some(IpFamily::V6));
}

#[test]
fn classifies_compressed_ipv6() {
    assert_eq!(classify_ip("::"), Some(IpFamily::V6));
    assert_eq!(classify_ip("::1"), Some(IpFamily::V6));
    assert_eq!(classify_ip("1::"), Some(IpFamily::V6));
    assert_eq!(classify_ip("2001:db8::8a2e:370:7334"), Some(IpFamily::V6));
    assert_eq!(classify_ip("fe80::1"), Some(IpFamily::V6));
    assert_eq!(classify_ip("1:2:3:4:5:6:7::"), Some(IpFamily::V6));
    assert_eq!(classify_ip("::2:3:4:5:6:7:8"), Some(IpFamily::V6));
}

#[test]
fn classifies_ipv6_with_embedded_ipv4() {
    assert_eq!(classify_ip("::ffff:192.168.0.1"), Some(IpFamily::V6));
    assert_eq!(classify_ip("1:2:3:4:5:6:77.77.88.88"), Some(IpFamily::V6));
    assert_eq!(classify_ip("1:2::3.4.5.6"), Some(IpFamily::V6));
}

#[test]
fn rejects_malformed_embedded_ipv4() {
    assert_eq!(classify_ip("::ffff:256.1.1.1"), None);
    assert_eq!(classify_ip("::1.2.3.4.5"), None);
    assert_eq!(classify_ip("::01.2.3.4"), None);
    assert_eq!(classify_ip("1.2.3.4::"), None);
}

#[test]
fn elision_must_stand_for_a_group() {
    // With an elision present, at most seven explicit groups fit.
    assert_eq!(classify_ip("1::ffff:1.2.3.4"), Some(IpFamily::V6));
    assert_eq!(classify_ip("1:2:3:4:5:6::7:8"), None);
    assert_eq!(classify_ip("1:2:3:4:5::6.7.8.9"), Some(IpFamily::V6));
    assert_eq!(classify_ip("1:2:3:4:5:6::7.8.9.10"), None);
}

#[test]
fn rejects_malformed_ipv6() {
    assert_eq!(classify_ip("1:2:3:4:5:6:7:8:9"), None);
    assert_eq!(classify_ip(":::"), None);
    assert_eq!(classify_ip("1::2::3"), None);
    assert_eq!(classify_ip(":1:2:3:4:5:6:7"), None);
    assert_eq!(classify_ip("1:2:3:4:5:6:7:"), None);
    assert_eq!(classify_ip("::1:2:3:4:5:6:7:8"), None);
    assert_eq!(classify_ip("1:2:3:4:5:6:7:8::"), None);
    assert_eq!(classify_ip("12345::"), None);
    assert_eq!(classify_ip("g::1"), None);
    assert_eq!(classify_ip("1:2:3:4:5:1.2.3.4"), None);
    assert_eq!(classify_ip("1:2:3:4:5:6:7:1.2.3.4"), None);
}
