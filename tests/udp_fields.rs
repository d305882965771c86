use pdu_decoder::bits::BitCursor;
use pdu_decoder::udp::{
    parse_udp_header_checksum, parse_udp_header_destination_port, parse_udp_header_length,
    parse_udp_header_payload, parse_udp_header_source_port,
};

#[test]
fn test_parse_udp_header_source_port() {
    let data: [u8; 4] = [1, 2, 3, 4];
    match parse_udp_header_source_port(BitCursor::new(&data)) {
        Ok((_, source_port)) => {
            assert_eq!(source_port.0, 258);
        },
        _ => panic!("Invalid packet")
    }
}

#[test]
fn test_parse_udp_header_destination_port() {
    let data: [u8; 4] = [8, 9, 10, 11];
    match parse_udp_header_destination_port(BitCursor::new(&data)) {
        Ok((_, dest_port)) => {
            assert_eq!(dest_port.0, 2057);
        },
        _ => panic!("Invalid packet")
    }
}

#[test]
fn test_parse_udp_header_length() {
    let data: [u8; 4] = [12, 13, 14, 15];
    match parse_udp_header_length(BitCursor::new(&data)) {
        Ok((_, length)) => {
            assert_eq!(length.0, 3085);
        },
        _ => panic!("Invalid packet")
    }
}

#[test]
fn test_parse_udp_header_checksum() {
    let data: [u8; 4] = [16, 17, 18, 19];
    match parse_udp_header_checksum(BitCursor::new(&data)) {
        Ok((_, source_port)) => {
            assert_eq!(source_port.0, 4113);
        },
        _ => panic!("Invalid packet")
    }
}

#[test]
fn test_parse_udp_header_payload() {
    let data: [u8; 4] = [20, 21, 22, 23];
    match parse_udp_header_payload(BitCursor::new(&data), 9) {
        Ok((_, payload)) => {
            assert_eq!(payload.0[0], 20);
        },
        _ => panic!("Invalid packet")
    }
}

#[test]
fn test_parse_udp_header_payload_badlength() {
    let data: [u8; 4] = [24, 25, 26, 27];
    match parse_udp_header_payload(BitCursor::new(&data), 50) {
        Err(_) => {
            assert!(true);
        },
        _ => panic!("Expected error")
    }
}
