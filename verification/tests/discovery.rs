use libratone_rs::address::IpAddress;
use libratone_rs::discovery_reply::{
    ssdp_multicast_addr, DiscoveryError, DiscoveryReply, Field, MAX_HEADERS, SEARCH_REQUEST_BODY,
    SSDP_MULTICAST_PORT,
};

const DATA: &str = "NOTIFY * HTTP/1.1 \r\n\
HOST: 239.255.255.250:1800\r\n\
PROTOCOL: Version 1.0\r\n\
NTS: ssdp-alive\r\n\
DeviceName: Device Name_9999-H0020000-07-12345\r\n\
DeviceID: 0123456789ab\r\n\
DeviceState: F,S,P\r\n\
PORT: 7777\r\n\
ZoneID: \r\n\
Creator: \r\n\
IPAddr: 192.168.178.75\r\n\
ColorCode: 2003\r\n\
FWVersion: 809;1,1;1,1\r\n\
StereoPairID: ";

fn sample() -> DiscoveryReply {
    DiscoveryReply {
        device_name: "Device Name_9999-H0020000-07-12345".to_string(),
        device_id: "0123456789ab".to_string(),
        device_state: "F,S,P".to_string(),
        port: 7777,
        zone_id: "".to_string(),
        creator: "".to_string(),
        ip_address: IpAddress::V4(192, 168, 178, 75),
        color_code: "2003".to_string(),
        firmware_version: "809;1,1;1,1".to_string(),
        stereo_pair_id: "".to_string(),
    }
}

#[test]
fn discovery_reply_parse_test() {
    assert_eq!(DiscoveryReply::parse(DATA.as_bytes()).unwrap(), sample());
}

#[test]
fn parse_accepts_a_correct_start_line() {
    let fixed = DATA.replacen("HTTP/1.1 \r\n", "HTTP/1.1\r\n", 1);
    assert_eq!(DiscoveryReply::parse(fixed.as_bytes()).unwrap(), sample());
}

#[test]
fn parse_rejects_another_method() {
    let search = DATA.replacen("NOTIFY * HTTP/1.1 \r\n", "M-SEARCH * HTTP/1.1\r\n", 1);
    assert_eq!(DiscoveryReply::parse(search.as_bytes()), Err(DiscoveryError::BadRequestLine));
    let broken = DATA.replacen("NOTIFY", "M-SEARCH", 1);
    assert!(DiscoveryReply::parse(broken.as_bytes()).is_err());
    assert_eq!(
        DiscoveryReply::parse(b"M-SEARCH * HTTP/1.1"),
        Err(DiscoveryError::BadRequestLine)
    );
}

#[test]
fn parse_rejects_another_path() {
    let other = DATA.replacen("NOTIFY * HTTP/1.1 \r\n", "NOTIFY /x HTTP/1.1\r\n", 1);
    assert_eq!(DiscoveryReply::parse(other.as_bytes()), Err(DiscoveryError::BadRequestLine));
}

#[test]
fn parse_reports_the_first_missing_header() {
    let without = DATA.replacen("DeviceState: F,S,P\r\n", "", 1);
    assert_eq!(
        DiscoveryReply::parse(without.as_bytes()),
        Err(DiscoveryError::MissingHeader(Field::DeviceState))
    );
    let without_two = without.replacen("ColorCode: 2003\r\n", "", 1);
    assert_eq!(
        DiscoveryReply::parse(without_two.as_bytes()),
        Err(DiscoveryError::MissingHeader(Field::DeviceState))
    );
    assert_eq!(
        DiscoveryReply::parse(b"NOTIFY * HTTP/1.1\r\n\r\n"),
        Err(DiscoveryError::MissingHeader(Field::DeviceName))
    );
}

#[test]
fn parse_rejects_a_bad_port_or_address() {
    let bad_port = DATA.replacen("PORT: 7777", "PORT: 65536", 1);
    assert_eq!(DiscoveryReply::parse(bad_port.as_bytes()), Err(DiscoveryError::BadHeader));
    let bad_ip = DATA.replacen("IPAddr: 192.168.178.75", "IPAddr: 192.168.178.256", 1);
    assert_eq!(DiscoveryReply::parse(bad_ip.as_bytes()), Err(DiscoveryError::BadHeader));
    let padded = DATA.replacen("IPAddr: 192.168.178.75", "IPAddr: 192.168.178.075", 1);
    assert_eq!(DiscoveryReply::parse(padded.as_bytes()), Err(DiscoveryError::BadHeader));
}

#[test]
fn parse_rejects_what_is_no_request() {
    assert_eq!(DiscoveryReply::parse(b"NOTIFY * HTTP/9.9\r\n\r\n"), Err(DiscoveryError::BadHeader));
    assert_eq!(DiscoveryReply::parse(b""), Err(DiscoveryError::BadRequestLine));
}

#[test]
fn parse_takes_the_last_of_repeated_headers() {
    let twice = DATA.replacen("ColorCode: 2003\r\n", "ColorCode: 1\r\nColorCode: 2\r\n", 1);
    let reply = DiscoveryReply::parse(twice.as_bytes()).unwrap();
    assert_eq!(reply.color_code, "2");
}

#[test]
fn parse_ignores_case_variants_of_names() {
    let lower = DATA.replacen("DeviceID:", "deviceid:", 1);
    assert_eq!(
        DiscoveryReply::parse(lower.as_bytes()),
        Err(DiscoveryError::MissingHeader(Field::DeviceID))
    );
}

#[test]
fn search_constants() {
    assert_eq!(SSDP_MULTICAST_PORT, 1800);
    assert_eq!(SEARCH_REQUEST_BODY, "M-SEARCH * HTTP/1.1");
    assert_eq!(ssdp_multicast_addr(), IpAddress::V4(239, 255, 255, 250));
    assert_eq!(MAX_HEADERS, 16);
}
