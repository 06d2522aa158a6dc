use packet_sniffer::classify::{ipv4_string, Ipv4Address};
use packet_sniffer::render::decimal_string;

#[test]
fn decimal_zero() {
    assert_eq!(decimal_string(0), "0");
}

#[test]
fn decimal_single_digit() {
    assert_eq!(decimal_string(9), "9");
}

#[test]
fn decimal_two_digits() {
    assert_eq!(decimal_string(10), "10");
}

#[test]
fn decimal_byte_max() {
    assert_eq!(decimal_string(255), "255");
}

#[test]
fn decimal_port_max() {
    assert_eq!(decimal_string(65535), "65535");
}

#[test]
fn decimal_large() {
    assert_eq!(decimal_string(18446744073709551615), "18446744073709551615");
}

#[test]
fn ipv4_dotted() {
    let ip = Ipv4Address { a: 192, b: 168, c: 0, d: 1 };
    assert_eq!(ipv4_string(&ip), "192.168.0.1");
}

#[test]
fn ipv4_dotted_extremes() {
    let ip = Ipv4Address { a: 0, b: 255, c: 10, d: 100 };
    assert_eq!(ipv4_string(&ip), "0.255.10.100");
}
