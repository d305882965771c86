use pdu_decoder::bits::BitCursor;
use pdu_decoder::context::Context;
use pdu_decoder::option_list::{parse_tcp_option, TcpOption};
use pdu_decoder::tcp::{
    parse_tcp_header_ack, parse_tcp_header_acknowledgment_number, parse_tcp_header_checksum,
    parse_tcp_header_cwr, parse_tcp_header_data_offset, parse_tcp_header_destination_port,
    parse_tcp_header_ece, parse_tcp_header_fin, parse_tcp_header_options, parse_tcp_header_payload,
    parse_tcp_header_psh, parse_tcp_header_reserved, parse_tcp_header_rst,
    parse_tcp_header_sequence_number, parse_tcp_header_source_port, parse_tcp_header_syn,
    parse_tcp_header_urg, parse_tcp_header_urgent_pointer, parse_tcp_header_window_size,
};
use pdu_decoder::tcp_option::{
    parse_eol_option, parse_eol_option_option_kind, parse_maximum_segment_size_option,
    parse_maximum_segment_size_option_maximum_segment_size,
    parse_maximum_segment_size_option_option_kind, parse_maximum_segment_size_option_option_length,
    parse_noop_option, parse_noop_option_option_kind, parse_sack_permitted_option,
    parse_sack_permitted_option_option_kind, parse_sack_permitted_option_option_length,
    parse_timestamp_option, parse_timestamp_option_option_kind,
    parse_timestamp_option_option_length, parse_timestamp_option_timestamp_echo_reply,
    parse_timestamp_option_timestamp_value, parse_window_scale_factor_option,
    parse_window_scale_factor_option_option_kind, parse_window_scale_factor_option_option_length,
    parse_window_scale_factor_option_window_scale_factor,
};

#[test]
fn test_parse_tcp_header_source_port() {
    let data: [u8; 4] = [1, 2, 3, 4];
    match parse_tcp_header_source_port(BitCursor::new(&data)) {
        Ok((_, source_port)) => {
            assert_eq!(source_port.0, 258);
        },
        _ => panic!("Invalid packet")
    }
}

#[test]
fn test_parse_tcp_header_destination_port() {
    let data: [u8; 4] = [1, 2, 3, 4];
    match parse_tcp_header_destination_port(BitCursor::new(&data)) {
        Ok((_, dest_port)) => {
            assert_eq!(dest_port.0, 258);
        },
        _ => panic!("Invalid packet")
    }
}

#[test]
fn test_parse_tcp_header_sequence_number() {
    let data: [u8; 4] = [1, 2, 3, 4];
    match parse_tcp_header_sequence_number(BitCursor::new(&data)) {
        Ok((_, seq_num)) => {
            assert_eq!(seq_num.0, 16909060);
        },
        _ => panic!("Invalid packet")
    }
}

#[test]
fn test_parse_tcp_header_acknowledgment_number() {
    let data: [u8; 4] = [1, 2, 3, 4];
    match parse_tcp_header_acknowledgment_number(BitCursor::new(&data)) {
        Ok((_, ack_num)) => {
            assert_eq!(ack_num.0, 16909060);
        },
        _ => panic!("Invalid packet")
    }
}

#[test]
fn test_parse_tcp_header_data_offset() {
    let data: [u8; 4] = [16, 2, 3, 4];
    match parse_tcp_header_data_offset(BitCursor::new(&data)) {
        Ok((_, doffset)) => {
            assert_eq!(doffset.0, 1);
        },
        _ => panic!("Invalid packet")
    }
}

#[test]
fn test_parse_tcp_header_reserved() {
    let data: [u8; 4] = [16, 2, 3, 4];
    match parse_tcp_header_reserved(BitCursor::new(&data)) {
        Ok((_, reserved)) => {
            assert_eq!(reserved.0, 1);
        },
        _ => panic!("Invalid packet")
    }
}

#[test]
fn test_parse_tcp_header_cwr() {
    let data: [u8; 4] = [255, 2, 3, 4];
    match parse_tcp_header_cwr(BitCursor::new(&data)) {
        Ok((_, cwr)) => {
            assert_eq!(cwr.0, 1);
        },
        _ => panic!("Invalid packet")
    }
}

#[test]
fn test_parse_tcp_header_ece() {
    let data: [u8; 4] = [255, 2, 3, 4];
    match parse_tcp_header_ece(BitCursor::new(&data)) {
        Ok((_, ece)) => {
            assert_eq!(ece.0, 1);
        },
        _ => panic!("Invalid packet")
    }
}

#[test]
fn test_parse_tcp_header_urg() {
    let data: [u8; 4] = [255, 2, 3, 4];
    match parse_tcp_header_urg(BitCursor::new(&data)) {
        Ok((_, urg)) => {
            assert_eq!(urg.0, 1);
        },
        _ => panic!("Invalid packet")
    }
}

#[test]
fn test_parse_tcp_header_ack() {
    let data: [u8; 4] = [255, 2, 3, 4];
    match parse_tcp_header_ack(BitCursor::new(&data)) {
        Ok((_, ack)) => {
            assert_eq!(ack.0, 1);
        },
        _ => panic!("Invalid packet")
    }
}

#[test]
fn test_parse_tcp_header_psh() {
    let data: [u8; 4] = [255, 2, 3, 4];
    match parse_tcp_header_psh(BitCursor::new(&data)) {
        Ok((_, psh)) => {
            assert_eq!(psh.0, 1);
        },
        _ => panic!("Invalid packet")
    }
}

#[test]
fn test_parse_tcp_header_rst() {
    let data: [u8; 4] = [255, 2, 3, 4];
    match parse_tcp_header_rst(BitCursor::new(&data)) {
        Ok((_, rst)) => {
            assert_eq!(rst.0, 1);
        },
        _ => panic!("Invalid packet")
    }
}

#[test]
fn test_parse_tcp_header_syn() {
    let data: [u8; 4] = [255, 2, 3, 4];
    match parse_tcp_header_syn(BitCursor::new(&data)) {
        Ok((_, syn)) => {
            assert_eq!(syn.0, 1);
        },
        _ => panic!("Invalid packet")
    }
}

#[test]
fn test_parse_tcp_header_fin() {
    let data: [u8; 4] = [255, 2, 3, 4];
    match parse_tcp_header_fin(BitCursor::new(&data)) {
        Ok((_, fin)) => {
            assert_eq!(fin.0, 1);
        },
        _ => panic!("Invalid packet")
    }
}

#[test]
fn test_parse_tcp_header_window_size() {
    let data: [u8; 4] = [1, 2, 3, 4];
    match parse_tcp_header_window_size(BitCursor::new(&data)) {
        Ok((_, window_size)) => {
            assert_eq!(window_size.0, 258);
        },
        _ => panic!("Invalid packet")
    }
}

#[test]
fn test_parse_tcp_header_checksum() {
    let data: [u8; 4] = [1, 2, 3, 4];
    match parse_tcp_header_checksum(BitCursor::new(&data)) {
        Ok((_, checksum)) => {
            assert_eq!(checksum.0, 258);
        },
        _ => panic!("Invalid packet")
    }
}

#[test]
fn test_parse_tcp_header_urgent_pointer() {
    let data: [u8; 4] = [1, 2, 3, 4];
    match parse_tcp_header_urgent_pointer(BitCursor::new(&data)) {
        Ok((_, urg_pointer)) => {
            assert_eq!(urg_pointer.0, 258);
        },
        _ => panic!("Invalid packet")
    }
}

#[test]
fn test_parse_eol_option_option_kind() {
    let data: [u8; 4] = [1, 2, 3, 4];
    match parse_eol_option_option_kind(BitCursor::new(&data)) {
        Ok((_, option_kind)) => {
            assert_eq!(option_kind.0, 1);
        },
        _ => panic!("Invalid packet")
    }
}

#[test]
fn test_parse_eol_option() {
    let data: [u8; 4] = [0, 2, 3, 4];
    match parse_eol_option(BitCursor::new(&data)) {
        Ok((_, eol_option)) => {
            assert_eq!(eol_option.option_kind.0, 0);
        },
        _ => panic!("Invalid packet")
    }
}

#[test]
fn test_parse_eol_option_badkind() {
    let data: [u8; 4] = [1, 2, 3, 4];
    match parse_eol_option(BitCursor::new(&data)) {
        Err(_) => assert!(true),
        _ => panic!("Expected error")
    }
}

#[test]
fn test_parse_noop_option_option_kind() {
    let data: [u8; 4] = [1, 2, 3, 4];
    match parse_noop_option_option_kind(BitCursor::new(&data)) {
        Ok((_, option_kind)) => {
            assert_eq!(option_kind.0, 1);
        },
        _ => panic!("Invalid packet")
    }
}

#[test]
fn test_parse_noop_option() {
    let data: [u8; 4] = [1, 2, 3, 4];
    match parse_noop_option(BitCursor::new(&data)) {
        Ok((_, noop_option)) => {
            assert_eq!(noop_option.option_kind.0, 1);
        },
        _ => panic!("Invalid packet")
    }
}

#[test]
fn test_parse_noop_option_badkind() {
    let data: [u8; 4] = [0, 2, 3, 4];
    match parse_noop_option(BitCursor::new(&data)) {
        Err(_) => assert!(true),
        _ => panic!("Expected error")
    }
}

#[test]
fn test_parse_maximum_segment_size_option_option_kind() {
    let data: [u8; 4] = [1, 2, 3, 4];
    match parse_maximum_segment_size_option_option_kind(BitCursor::new(&data)) {
        Ok((_, option_kind)) => {
            assert_eq!(option_kind.0, 1);
        },
        _ => panic!("Invalid packet")
    }
}

#[test]
fn test_parse_maximum_segment_size_option_option_length() {
    let data: [u8; 4] = [1, 2, 3, 4];
    match parse_maximum_segment_size_option_option_length(BitCursor::new(&data)) {
        Ok((_, length)) => {
            assert_eq!(length.0, 1);
        },
        _ => panic!("Invalid packet")
    }
}

#[test]
fn test_parse_maximum_segment_size_option_maximum_segment_size() {
    let data: [u8; 4] = [1, 2, 3, 4];
    match parse_maximum_segment_size_option_maximum_segment_size(BitCursor::new(&data)) {
        Ok((_, size)) => {
            assert_eq!(size.0, 258);
        },
        _ => panic!("Invalid packet")
    }
}

#[test]
fn test_parse_maximum_segment_size_option() {
    let data: [u8; 4] = [2, 4, 1, 2];
    match parse_maximum_segment_size_option(BitCursor::new(&data)) {
        Ok((_, mss_option)) => {
            assert_eq!(mss_option.option_kind.0, 2);
            assert_eq!(mss_option.option_length.0, 4);
            assert_eq!(mss_option.maximum_segment_size.0, 258);
        },
        _ => panic!("Invalid packet")
    }
}

#[test]
fn test_parse_maximum_segment_size_option_badkind() {
    let data: [u8; 4] = [0, 2, 3, 4];
    match parse_maximum_segment_size_option(BitCursor::new(&data)) {
        Err(_) => assert!(true),
        _ => panic!("Expected error")
    }
}

#[test]
fn test_parse_maximum_segment_size_option_badlength() {
    let data: [u8; 4] = [2, 2, 3, 4];
    match parse_maximum_segment_size_option(BitCursor::new(&data)) {
        Err(_) => assert!(true),
        _ => panic!("Expected error")
    }
}

#[test]
fn test_parse_window_scale_factor_option_option_kind() {
    let data: [u8; 4] = [1, 2, 3, 4];
    match parse_window_scale_factor_option_option_kind(BitCursor::new(&data)) {
        Ok((_, option_kind)) => {
            assert_eq!(option_kind.0, 1);
        },
        _ => panic!("Invalid packet")
    }
}

#[test]
fn test_parse_window_scale_factor_option_option_length() {
    let data: [u8; 4] = [1, 2, 3, 4];
    match parse_window_scale_factor_option_option_length(BitCursor::new(&data)) {
        Ok((_, length)) => {
            assert_eq!(length.0, 1);
        },
        _ => panic!("Invalid packet")
    }
}

#[test]
fn test_parse_window_scale_factor_option_window_scale_factor() {
    let data: [u8; 4] = [1, 2, 3, 4];
    match parse_window_scale_factor_option_window_scale_factor(BitCursor::new(&data)) {
        Ok((_, scale_factor)) => {
            assert_eq!(scale_factor.0, 1);
        },
        _ => panic!("Invalid packet")
    }
}

#[test]
fn test_parse_window_scale_factor_option() {
    let data: [u8; 4] = [3, 3, 1, 2];
    match parse_window_scale_factor_option(BitCursor::new(&data)) {
        Ok((_, wsf_option)) => {
            assert_eq!(wsf_option.option_kind.0, 3);
            assert_eq!(wsf_option.option_length.0, 3);
            assert_eq!(wsf_option.window_scale_factor.0, 1);
        },
        _ => panic!("Invalid packet")
    }
}

#[test]
fn test_parse_window_scale_factor_option_badkind() {
    let data: [u8; 4] = [0, 3, 1, 2];
    match parse_window_scale_factor_option(BitCursor::new(&data)) {
        Err(_) => assert!(true),
        _ => panic!("Expected error")

    }
}

#[test]
fn test_parse_window_scale_factor_option_badlength() {
    let data: [u8; 4] = [3, 4, 1, 2];
    match parse_window_scale_factor_option(BitCursor::new(&data)) {
        Err(_) => assert!(true),
        _ => panic!("Invalid packet")
    }
}

#[test]
fn test_parse_timestamp_option_option_kind() {
    let data: [u8; 4] = [1, 2, 3, 4];
    match parse_timestamp_option_option_kind(BitCursor::new(&data)) {
        Ok((_, option_kind)) => {
            assert_eq!(option_kind.0, 1);
        },
        _ => panic!("Invalid packet")
    }
}

#[test]
fn test_parse_timestamp_option_option_length() {
    let data: [u8; 4] = [1, 2, 3, 4];
    match parse_timestamp_option_option_length(BitCursor::new(&data)) {
        Ok((_, length)) => {
            assert_eq!(length.0, 1);
        },
        _ => panic!("Invalid packet")
    }
}

#[test]
fn test_parse_timestamp_option_timestamp_value() {
    let data: [u8; 4] = [1, 2, 3, 4];
    match parse_timestamp_option_timestamp_value(BitCursor::new(&data)) {
        Ok((_, tsval)) => {
            assert_eq!(tsval.0, 16909060);
        },
        _ => panic!("Invalid packet")
    }
}

#[test]
fn test_parse_timestamp_option_timestamp_echo_reply() {
    let data: [u8; 4] = [1, 2, 3, 4];
    match parse_timestamp_option_timestamp_echo_reply(BitCursor::new(&data)) {
        Ok((_, tsecr)) => {
            assert_eq!(tsecr.0, 16909060);
        },
        _ => panic!("Invalid packet")
    }
}

#[test]
fn test_parse_timestamp_option() {
    let data: [u8; 10] = [8, 10, 1, 2, 3, 4, 1, 2, 3, 4];
    match parse_timestamp_option(BitCursor::new(&data)) {
        Ok((_, ts_option)) => {
            assert_eq!(ts_option.option_kind.0, 8);
            assert_eq!(ts_option.option_length.0, 10);
            assert_eq!(ts_option.timestamp_value.0, 16909060);
            assert_eq!(ts_option.timestamp_echo_reply.0, 16909060);
        },
        _ => panic!("Invalid packet")
    }
}

#[test]
fn test_parse_timestamp_option_badkind() {
    let data: [u8; 10] = [0, 10, 1, 2, 3, 4, 1, 2, 3, 4];
    match parse_timestamp_option(BitCursor::new(&data)) {
        Err(_) => assert!(true),
        _ => panic!("Expected error")
    }
}

#[test]
fn test_parse_timestamp_option_badlength() {
    let data: [u8; 10] = [8, 9, 1, 2, 3, 4, 1, 2, 3, 4];
    match parse_timestamp_option(BitCursor::new(&data)) {
        Err(_) => assert!(true),
        _ => panic!("Expected error")
    }
}

#[test]
fn test_parse_sack_permitted_option_option_kind() {
    let data: [u8; 4] = [1, 2, 3, 4];
    match parse_sack_permitted_option_option_kind(BitCursor::new(&data)) {
        Ok((_, option_kind)) => {
            assert_eq!(option_kind.0, 1);
        },
        _ => panic!("Invalid packet")
    }
}

#[test]
fn test_parse_sack_permitted_option_option_length() {
    let data: [u8; 4] = [1, 2, 3, 4];
    match parse_sack_permitted_option_option_length(BitCursor::new(&data)) {
        Ok((_, length)) => {
            assert_eq!(length.0, 1);
        },
        _ => panic!("Invalid packet")
    }
}

#[test]
fn test_parse_sack_permitted_option() {
    let data: [u8; 4] = [4, 2, 3, 4];
    match parse_sack_permitted_option(BitCursor::new(&data)) {
        Ok((_, sack_permitted_option)) => {
            assert_eq!(sack_permitted_option.option_kind.0, 4);
            assert_eq!(sack_permitted_option.option_length.0, 2);
        },
        _ => panic!("Invalid packet")
    }
}

#[test]
fn test_parse_sack_permitted_option_badkind() {
    let data: [u8; 4] = [0, 2, 3, 4];
    match parse_sack_permitted_option(BitCursor::new(&data)) {
        Err(_) => assert!(true),
        _ => panic!("Expected error")
    }
}

#[test]
fn test_parse_sack_permitted_option_badlength() {
    let data: [u8; 4] = [4, 3, 3, 4];
    match parse_sack_permitted_option(BitCursor::new(&data)) {
        Err(_) => assert!(true),
        _ => panic!("Expected error")
    }
}

#[test]
fn test_parse_tcp_option() {
    let data: [u8; 10] = [8, 10, 1, 2, 3, 4, 1, 2, 3, 4];
    match parse_tcp_option(BitCursor::new(&data)) {
        Ok((_, TcpOption::TimestampOption(_))) => assert!(true),
        _ => panic!("Invalid packet")
    }
}

#[test]
fn test_parse_tcp_option_badkind() {
    let data: [u8; 10] = [12, 10, 1, 2, 3, 4, 1, 2, 3, 4];
    match parse_tcp_option(BitCursor::new(&data)) {
        Err(_) => assert!(true),
        _ => panic!("Invalid packet")
    }
}

#[test]
fn test_parse_tcp_header_options() {
    let data: [u8; 12] = [4, 2, 8, 10, 1, 2, 3, 4, 1, 2, 3, 4];
    match parse_tcp_header_options(BitCursor::new(&data), 8) {
        Ok((_, tcp_options)) => {
            assert_eq!(tcp_options.0.len(), 2);
            assert!(matches!(tcp_options.0[0], TcpOption::SackPermittedOption(_)));
            assert!(matches!(tcp_options.0[1], TcpOption::TimestampOption(_)));
        },
        _ => panic!("Invalid packet")
    }
}

#[test]
fn test_parse_tcp_header_payload() {
    let data: [u8; 12] = [4, 2, 8, 10, 1, 2, 3, 4, 1, 2, 3, 4];
    let context = Context::new(((data.len() * 8) + 160) as u32);
    match parse_tcp_header_payload(BitCursor::new(&data), &context, 5) {
        Ok((_, payload)) => {
            assert_eq!(payload.0.len(), data.len());
            assert_eq!(payload.0, data);
        },
        _ => panic!("Invalid packet")
    }
}
