use socks5_relay::destination::Destination;
use socks5_relay::error::ProxyError;
use socks5_relay::stream::run_handshake;

fn dest(host: &str, port: u16) -> Destination {
    Destination::new(host.to_string(), port)
}

#[test]
fn connect_to_ipv4_target_parses() {
    let input = [0x05, 0x01, 0x00, 0x05, 0x01, 0x00, 0x01, 0x7f, 0x00, 0x00, 0x01, 0x00, 0x50];
    let out = run_handshake(&input);
    assert_eq!(out.result, Ok(dest("127.0.0.1", 80)));
    assert_eq!(out.consumed, 13);
    assert_eq!(out.replied, vec![0x05, 0x00]);
}

#[test]
fn connect_to_domain_target_parses() {
    let mut input = vec![0x05, 0x01, 0x00, 0x05, 0x01, 0x00, 0x03, 11];
    input.extend_from_slice(b"example.com");
    input.extend_from_slice(&[0x01, 0xbb]);
    let out = run_handshake(&input);
    assert_eq!(out.result, Ok(dest("example.com", 443)));
    assert_eq!(out.consumed, input.len());
    assert_eq!(out.replied, vec![0x05, 0x00]);
}

#[test]
fn ipv4_host_is_dotted_quad_and_port_is_big_endian() {
    let input = [5, 2, 0, 1, 5, 1, 0, 1, 192, 168, 10, 255, 0x1f, 0x90];
    let out = run_handshake(&input);
    assert_eq!(out.result, Ok(dest("192.168.10.255", 8080)));
    assert_eq!(out.consumed, 14);
}

#[test]
fn ipv4_extremes() {
    let low = run_handshake(&[5, 0, 5, 1, 0, 1, 0, 0, 0, 0, 0, 0]);
    assert_eq!(low.result, Ok(dest("0.0.0.0", 0)));
    let high = run_handshake(&[5, 0, 5, 1, 0, 1, 255, 255, 255, 255, 255, 255]);
    assert_eq!(high.result, Ok(dest("255.255.255.255", 65535)));
}

#[test]
fn domain_takes_exactly_the_announced_bytes() {
    let mut input = vec![5, 1, 0, 5, 1, 0, 3, 3];
    input.extend_from_slice(b"a.b");
    input.extend_from_slice(&[0x00, 0x16]);
    input.extend_from_slice(b"trailing");
    let out = run_handshake(&input);
    assert_eq!(out.result, Ok(dest("a.b", 22)));
    assert_eq!(out.consumed, 8 + 3 + 2);
}

#[test]
fn domain_of_multibyte_text_is_decoded() {
    let name = "m\u{fc}nchen.example".as_bytes();
    let mut input = vec![5, 1, 0, 5, 1, 0, 3, name.len() as u8];
    input.extend_from_slice(name);
    input.extend_from_slice(&[0x00, 0x50]);
    let out = run_handshake(&input);
    assert_eq!(out.result, Ok(dest("m\u{fc}nchen.example", 80)));
    assert_eq!(out.result.unwrap().host.chars().count(), 15);
}

#[test]
fn domain_of_invalid_text_is_malformed() {
    let input = [5, 1, 0, 5, 1, 0, 3, 2, 0xff, 0xfe, 0x00, 0x50];
    let out = run_handshake(&input);
    assert_eq!(out.result, Err(ProxyError::MalformedRequest));
    assert_eq!(out.consumed, 10);
    assert_eq!(out.replied, vec![0x05, 0x00]);
}

#[test]
fn domain_of_overlong_encoding_is_malformed() {
    let input = [5, 1, 0, 5, 1, 0, 3, 2, 0xc0, 0xaf, 0x00, 0x50];
    let out = run_handshake(&input);
    assert_eq!(out.result, Err(ProxyError::MalformedRequest));
}

#[test]
fn empty_domain_is_accepted_as_empty_host() {
    let input = [5, 1, 0, 5, 1, 0, 3, 0, 0x00, 0x50];
    let out = run_handshake(&input);
    assert_eq!(out.result, Ok(dest("", 80)));
    assert_eq!(out.consumed, 10);
}

#[test]
fn longest_domain_is_accepted() {
    let name = vec![b'a'; 255];
    let mut input = vec![5, 1, 0, 5, 1, 0, 3, 255];
    input.extend_from_slice(&name);
    input.extend_from_slice(&[0x01, 0xbb]);
    let out = run_handshake(&input);
    assert_eq!(out.result, Ok(dest(&"a".repeat(255), 443)));
    assert_eq!(out.consumed, 8 + 255 + 2);
}

#[test]
fn wrong_version_is_refused_before_the_request() {
    let input = [0x04, 0x01, 0x00, 0x05, 0x01, 0x00, 0x01, 0x7f, 0x00, 0x00, 0x01, 0x00, 0x50];
    let out = run_handshake(&input);
    assert_eq!(out.result, Err(ProxyError::UnsupportedVersion));
    assert_eq!(out.consumed, 2);
    assert_eq!(out.replied, Vec::<u8>::new());
}

#[test]
fn bind_and_udp_associate_are_refused() {
    for command in [0x00u8, 0x02, 0x03, 0xff] {
        let input = [5, 1, 0, 5, command, 0, 1, 127, 0, 0, 1, 0, 80];
        let out = run_handshake(&input);
        assert_eq!(out.result, Err(ProxyError::UnsupportedCommand));
        assert_eq!(out.consumed, 7);
        assert_eq!(out.replied, vec![0x05, 0x00]);
    }
}

#[test]
fn ipv6_and_unknown_address_types_are_refused() {
    for tag in [0x00u8, 0x02, 0x04, 0x05, 0xff] {
        let mut input = vec![5, 1, 0, 5, 1, 0, tag];
        input.extend_from_slice(&[0u8; 18]);
        let out = run_handshake(&input);
        assert_eq!(out.result, Err(ProxyError::UnsupportedAddressType));
        assert_eq!(out.consumed, 7);
    }
}

#[test]
fn command_is_judged_before_address_type() {
    let out = run_handshake(&[5, 1, 0, 5, 2, 0, 4]);
    assert_eq!(out.result, Err(ProxyError::UnsupportedCommand));
}

#[test]
fn request_version_and_reserved_byte_are_not_judged() {
    let out = run_handshake(&[5, 1, 0, 9, 1, 7, 1, 10, 0, 0, 1, 0, 53]);
    assert_eq!(out.result, Ok(dest("10.0.0.1", 53)));
}

#[test]
fn method_list_is_read_but_ignored() {
    let out = run_handshake(&[5, 3, 0x02, 0x80, 0xff, 5, 1, 0, 1, 1, 2, 3, 4, 0, 1]);
    assert_eq!(out.result, Ok(dest("1.2.3.4", 1)));
    assert_eq!(out.consumed, 15);
    assert_eq!(out.replied, vec![0x05, 0x00]);
}

#[test]
fn truncated_streams_are_malformed() {
    let full = [5u8, 1, 0, 5, 1, 0, 3, 3, b'a', b'.', b'b', 0, 22];
    for cut in 0..full.len() {
        let out = run_handshake(&full[..cut]);
        assert_eq!(out.result, Err(ProxyError::MalformedRequest), "cut at {}", cut);
        assert_eq!(out.consumed, cut);
        let answered = cut >= 3;
        assert_eq!(out.replied, if answered { vec![5u8, 0] } else { vec![] });
    }
    assert_eq!(run_handshake(&full).result, Ok(dest("a.b", 22)));
}

#[test]
fn truncated_ipv4_request_is_malformed() {
    let full = [5u8, 0, 5, 1, 0, 1, 8, 8, 4, 4, 0, 53];
    for cut in 0..full.len() {
        let out = run_handshake(&full[..cut]);
        assert_eq!(out.result, Err(ProxyError::MalformedRequest), "cut at {}", cut);
        assert_eq!(out.consumed, cut);
    }
    assert_eq!(run_handshake(&full).result, Ok(dest("8.8.4.4", 53)));
}

#[test]
fn parsed_host_never_exceeds_one_length_byte() {
    let name = "\u{20ac}".repeat(85);
    assert_eq!(name.len(), 255);
    let mut input = vec![5, 1, 0, 5, 1, 0, 3, 255];
    input.extend_from_slice(name.as_bytes());
    input.extend_from_slice(&[0x00, 0x50]);
    let out = run_handshake(&input);
    let dest = out.result.unwrap();
    assert_eq!(dest.host.chars().count(), 85);
    assert_eq!(dest.host.len(), 255);
    assert_eq!(dest.port, 80);

    let quad = run_handshake(&[5, 0, 5, 1, 0, 1, 255, 255, 255, 255, 0, 1]).result.unwrap();
    assert_eq!(quad.host.len(), 15);
}
