use packet_sniffer::capture::{capture_step, select_interface, CaptureError, CaptureStep};
use packet_sniffer::lister::Interface;

fn iface(index: u32, name: &str) -> Interface {
    Interface { index, name: name.to_string(), addresses: vec![] }
}

/// A complete TCP-over-IPv4 frame from 10.0.0.1:443 to 192.168.1.2:50000.
fn tcp_frame() -> Vec<u8> {
    let mut frame: Vec<u8> = vec![0u8; 14];
    frame[12] = 0x08;
    let mut ip: Vec<u8> = vec![0u8; 20];
    ip[0] = 0x45;
    ip[3] = 40;
    ip[9] = 6;
    ip[12..16].copy_from_slice(&[10, 0, 0, 1]);
    ip[16..20].copy_from_slice(&[192, 168, 1, 2]);
    frame.extend(ip);
    let mut tcp: Vec<u8> = vec![0u8; 20];
    tcp[0] = 1;
    tcp[1] = 187;
    tcp[2] = 195;
    tcp[3] = 80;
    frame.extend(tcp);
    frame
}

#[test]
fn no_argument_fails_before_anything_else() {
    let args: Vec<String> = vec!["sniffer".to_string()];
    let ifaces = vec![iface(1, "lo"), iface(2, "eth0")];
    assert_eq!(
        select_interface(&args, &ifaces),
        Err(CaptureError::MissingInterfaceName)
    );
}

#[test]
fn empty_arguments_fail_the_same_way() {
    let args: Vec<String> = vec![];
    assert_eq!(
        select_interface(&args, &vec![]),
        Err(CaptureError::MissingInterfaceName)
    );
}

#[test]
fn unknown_name_is_reported() {
    let args: Vec<String> = vec!["sniffer".to_string(), "wlan1".to_string()];
    let ifaces = vec![iface(1, "lo"), iface(2, "eth0")];
    assert_eq!(
        select_interface(&args, &ifaces),
        Err(CaptureError::UnknownInterface)
    );
}

#[test]
fn exact_name_match_is_found() {
    let args: Vec<String> = vec!["sniffer".to_string(), "eth0".to_string()];
    let ifaces = vec![iface(1, "lo"), iface(2, "eth0"), iface(3, "wlan0")];
    assert_eq!(select_interface(&args, &ifaces), Ok(1));
}

#[test]
fn first_of_equally_named_interfaces_wins() {
    let args: Vec<String> = vec!["sniffer".to_string(), "eth0".to_string()];
    let ifaces = vec![iface(1, "lo"), iface(2, "eth0"), iface(5, "eth0")];
    assert_eq!(select_interface(&args, &ifaces), Ok(1));
}

#[test]
fn name_match_is_exact_not_prefix() {
    let args: Vec<String> = vec!["sniffer".to_string(), "eth".to_string()];
    let ifaces = vec![iface(1, "eth0"), iface(2, "eth1")];
    assert_eq!(
        select_interface(&args, &ifaces),
        Err(CaptureError::UnknownInterface)
    );
}

#[test]
fn raised_stop_token_ends_the_loop_first() {
    let frame = tcp_frame();
    assert_eq!(capture_step(true, Some(&frame)), CaptureStep::Stop);
    assert_eq!(capture_step(true, None), CaptureStep::Stop);
}

#[test]
fn read_failure_is_fatal() {
    assert_eq!(capture_step(false, None), CaptureStep::ReadFailed);
}

#[test]
fn short_frame_is_fatal() {
    let frame: Vec<u8> = vec![0u8; 10];
    assert_eq!(capture_step(false, Some(&frame)), CaptureStep::ShortFrame);
}

#[test]
fn classified_frame_yields_its_line() {
    let frame = tcp_frame();
    assert_eq!(
        capture_step(false, Some(&frame)),
        CaptureStep::Print("Got a TCP packet 10.0.0.1:443 to 192.168.1.2:50000".to_string())
    );
}

#[test]
fn malformed_frame_stays_silent() {
    // Claims IPv4 but carries only ten of the twenty header bytes.
    let mut frame: Vec<u8> = vec![0u8; 14];
    frame[12] = 0x08;
    frame.extend(vec![0u8; 10]);
    assert_eq!(capture_step(false, Some(&frame)), CaptureStep::Silent);
}
