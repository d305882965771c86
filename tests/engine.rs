use pdu_decoder::bits::BitCursor;
use pdu_decoder::chained::{
    chain_parsing, get_single_bit, len_parser, search_pattern, take_1_bit, take_3,
};
use pdu_decoder::computed::{test_function, transform_seq, Blue, Green, Red};
use pdu_decoder::context::Context;
use pdu_decoder::error::DecodeError;
use pdu_decoder::field::{check, decode_field, Constraint};
use pdu_decoder::fixed_format::{parse_fixed_width_field_format, parse_optional_field_format};
use pdu_decoder::option_list::{decode_option_list, TcpOption};
use pdu_decoder::pdu::{decode_pdu, parse_pdu, Pdu};
use pdu_decoder::record::{decode_fixed_message, decode_record, FieldDef};
use pdu_decoder::sample::{parse_fruits, parse_mango, parse_small_struct, parse_test_struct, Fruits, SeqNum};
use pdu_decoder::stun::{decode_stun_message_type, parse_stun_messagetype_split};
use pdu_decoder::tcp::{parse_tcp_header, parse_tcp_header_options, DATA_OFFSET_KEY};
use pdu_decoder::tcp_option::parse_sack_range_option;
use pdu_decoder::udp::parse_udp_header;

fn plain(width: usize) -> FieldDef<'static> {
    FieldDef { width, constraint: Constraint::Unconstrained }
}

fn tcp_segment(data_offset: u8, options: &[u8], payload: &[u8]) -> Vec<u8> {
    let mut v = vec![0x30, 0x39, 0x00, 0x50, 0, 0, 0, 1, 0, 0, 0, 2];
    v.push(data_offset << 4);
    v.push(0x12);
    v.extend_from_slice(&[0xff, 0xff, 0xab, 0xcd, 0, 0]);
    v.extend_from_slice(options);
    v.extend_from_slice(payload);
    v
}

#[test]
fn two_sixteen_bit_fields() {
    let data: [u8; 4] = [0x01, 0x02, 0x03, 0x04];
    let (end, values) = decode_record(&BitCursor::new(&data), &[plain(16), plain(16)]).unwrap();
    assert_eq!(values, vec![258, 772]);
    assert_eq!(end.bit_offset, 32);
    assert_eq!(end.remaining_bits(), 0);
    let (values, rest) = decode_fixed_message(&data, 32, &[plain(16), plain(16)]).unwrap();
    assert_eq!(values, vec![258, 772]);
    assert_eq!(rest, 0);
}

#[test]
fn bits_cross_byte_boundaries() {
    let data: [u8; 2] = [0b1010_1100, 0b0101_0011];
    let c = BitCursor::new(&data);
    let (c, a) = c.take(3).unwrap();
    assert_eq!(a, 0b101);
    let (c, b) = c.take(7).unwrap();
    assert_eq!(b, 0b0110001);
    assert_eq!(c.bit_offset, 10);
    let (c, z) = c.take(0).unwrap();
    assert_eq!(z, 0);
    assert_eq!(c.bit_offset, 10);
    assert_eq!(c.take(7).unwrap_err(), DecodeError::InsufficientData { bit_offset: 10 });
    let (_, d) = c.take(6).unwrap();
    assert_eq!(d, 0b010011);
}

#[test]
fn sixty_four_bit_field() {
    let data: [u8; 9] = [0x80, 0, 0, 0, 0, 0, 0, 0x01, 0xff];
    let (c, v) = BitCursor::new(&data).take(64).unwrap();
    assert_eq!(v, 0x8000_0000_0000_0001);
    assert_eq!(c.bit_offset, 64);
    let (c, _) = BitCursor::new(&data).take(4).unwrap();
    let (_, w) = c.take(64).unwrap();
    assert_eq!(w, 0x0000_0000_0000_001f);
}

#[test]
fn field_constraints() {
    let data: [u8; 1] = [0x2a];
    let c = BitCursor::new(&data);
    assert_eq!(decode_field(&c, 8, Constraint::Literal(42)).unwrap().1, 42);
    assert_eq!(
        decode_field(&c, 8, Constraint::Literal(41)).unwrap_err(),
        DecodeError::ConstraintViolation { bit_offset: 0 }
    );
    assert_eq!(decode_field(&c, 8, Constraint::OneOf(&[1, 42, 7])).unwrap().1, 42);
    assert_eq!(
        decode_field(&c, 8, Constraint::OneOf(&[1, 7])).unwrap_err(),
        DecodeError::UnknownDiscriminant { bit_offset: 0 }
    );
    assert_eq!(check(Constraint::Unconstrained, 5, 9), Ok(9));
}

#[test]
fn literal_field_fails_whatever_surrounds_it() {
    let layout = [plain(4), FieldDef { width: 4, constraint: Constraint::Literal(5) }, plain(8)];
    for first in 0u8..16 {
        for last in [0u8, 0x7f, 0xff] {
            let data = [(first << 4) | 6, last];
            assert_eq!(
                decode_record(&BitCursor::new(&data), &layout).unwrap_err(),
                DecodeError::ConstraintViolation { bit_offset: 4 }
            );
        }
    }
}

#[test]
fn record_failure_is_the_first_field_failure() {
    let data: [u8; 1] = [0xff];
    let layout = [plain(4), FieldDef { width: 4, constraint: Constraint::Literal(0) }, plain(8)];
    assert_eq!(
        decode_record(&BitCursor::new(&data), &layout).unwrap_err(),
        DecodeError::ConstraintViolation { bit_offset: 4 }
    );
}

#[test]
fn option_list_stops_at_end_marker() {
    let data: [u8; 10] = [0, 1, 1, 1, 1, 1, 1, 1, 1, 1];
    let (c, options) = decode_option_list(BitCursor::new(&data), 10).unwrap();
    assert!(options.is_empty());
    assert_eq!(c.bit_offset, 8);
    assert_eq!(10 - c.bit_offset / 8, 9);
}

#[test]
fn option_length_not_the_mandated_one() {
    let data: [u8; 4] = [2, 3, 1, 2];
    assert_eq!(
        decode_option_list(BitCursor::new(&data), 4).unwrap_err(),
        DecodeError::ConstraintViolation { bit_offset: 8 }
    );
}

#[test]
fn option_overrunning_budget_is_a_constraint_violation() {
    let data: [u8; 12] = [1, 8, 10, 1, 2, 3, 4, 1, 2, 3, 4, 0];
    assert_eq!(
        decode_option_list(BitCursor::new(&data), 8).unwrap_err(),
        DecodeError::ConstraintViolation { bit_offset: 16 }
    );
}

#[test]
fn option_list_never_reads_past_budget() {
    let data: [u8; 6] = [1, 1, 1, 1, 2, 4];
    let (c, options) = decode_option_list(BitCursor::new(&data), 4).unwrap();
    assert_eq!(options.len(), 4);
    assert!(options.iter().all(|o| matches!(o, TcpOption::NoopOption(_))));
    assert_eq!(c.bit_offset, 32);
    let short: [u8; 2] = [1, 8];
    assert_eq!(
        decode_option_list(BitCursor::new(&short), 2).unwrap_err(),
        DecodeError::InsufficientData { bit_offset: 16 }
    );
}

#[test]
fn option_list_unknown_kind() {
    let data: [u8; 4] = [12, 2, 0, 0];
    assert_eq!(
        decode_option_list(BitCursor::new(&data), 4).unwrap_err(),
        DecodeError::UnknownDiscriminant { bit_offset: 0 }
    );
}

#[test]
fn sack_range_option_blocks() {
    let data: [u8; 18] = [5, 18, 0, 0, 0, 1, 0, 0, 0, 2, 0, 0, 1, 0, 0, 0, 2, 0];
    let (c, o) = parse_sack_range_option(BitCursor::new(&data)).unwrap();
    assert_eq!(c.bit_offset, 144);
    assert_eq!(o.blocks.len(), 2);
    assert_eq!(o.blocks[0].left_edge, 1);
    assert_eq!(o.blocks[0].right_edge, 2);
    assert_eq!(o.blocks[1].left_edge, 256);
    assert_eq!(o.blocks[1].right_edge, 512);
    let bad: [u8; 11] = [5, 11, 0, 0, 0, 1, 0, 0, 0, 2, 0];
    assert_eq!(
        parse_sack_range_option(BitCursor::new(&bad)).unwrap_err(),
        DecodeError::ConstraintViolation { bit_offset: 8 }
    );
}

#[test]
fn tcp_header_with_options_and_payload() {
    let options = [2, 4, 0x05, 0xb4, 1, 3, 3, 7, 0, 0, 0, 0];
    let bytes = tcp_segment(8, &options, b"hi");
    let mut ctx = Context::new((bytes.len() * 8) as u32);
    let (end, h) = parse_tcp_header(BitCursor::new(&bytes), &mut ctx).unwrap();
    assert_eq!(end.bit_offset, bytes.len() * 8);
    assert_eq!(h.source_port.0, 12345);
    assert_eq!(h.destination_port.0, 80);
    assert_eq!(h.sequence_number.0, 1);
    assert_eq!(h.acknowledgment_number.0, 2);
    assert_eq!(h.data_offset.0, 8);
    assert_eq!(h.syn.0, 1);
    assert_eq!(h.ack.0, 1);
    assert_eq!(h.fin.0, 0);
    assert_eq!(h.window_size.0, 65535);
    assert_eq!(h.checksum.0, 0xabcd);
    let opts = h.options.unwrap().0;
    assert_eq!(opts.len(), 3);
    assert!(matches!(&opts[0], TcpOption::MaximumSegmentSizeOption(o) if o.maximum_segment_size.0 == 1460));
    assert!(matches!(opts[1], TcpOption::NoopOption(_)));
    assert!(matches!(&opts[2], TcpOption::WindowScaleFactorOption(o) if o.window_scale_factor.0 == 7));
    assert_eq!(h.payload.0, b"hi");
    assert_eq!(ctx.get(DATA_OFFSET_KEY), Ok(8));
}

#[test]
fn tcp_header_without_options() {
    let bytes = tcp_segment(5, &[], &[]);
    let mut ctx = Context::new(160);
    let (_, h) = parse_tcp_header(BitCursor::new(&bytes), &mut ctx).unwrap();
    assert!(h.options.is_none());
    assert!(h.payload.0.is_empty());
}

#[test]
fn tcp_header_rejects_small_data_offset() {
    let bytes = tcp_segment(4, &[], &[]);
    let mut ctx = Context::new(160);
    assert_eq!(
        parse_tcp_header(BitCursor::new(&bytes), &mut ctx).unwrap_err(),
        DecodeError::ConstraintViolation { bit_offset: 96 }
    );
}

#[test]
fn tcp_header_shorter_than_declared_header() {
    let bytes = tcp_segment(6, &[1, 1, 1, 1], &[]);
    let mut ctx = Context::new(160);
    assert_eq!(
        parse_tcp_header(BitCursor::new(&bytes), &mut ctx).unwrap_err(),
        DecodeError::LengthMismatch { consumed: 192, declared: 160 }
    );
}

#[test]
fn tcp_option_area_past_buffer() {
    let data: [u8; 4] = [1, 1, 1, 1];
    assert_eq!(
        parse_tcp_header_options(BitCursor::new(&data), 7).unwrap_err(),
        DecodeError::InsufficientData { bit_offset: 0 }
    );
}

#[test]
fn context_lookup() {
    let mut ctx = Context::new(64);
    assert_eq!(ctx.data_size(), 64);
    assert_eq!(ctx.get(3), Err(DecodeError::InternalDefinitionError));
    ctx.set(3, 10);
    ctx.set(4, 11);
    ctx.set(3, 12);
    assert_eq!(ctx.get(3), Ok(12));
    assert_eq!(ctx.get(4), Ok(11));
}

#[test]
fn udp_datagram() {
    let bytes: [u8; 13] = [0x82, 0x8e, 0, 53, 0, 13, 0, 0, b'H', b'e', b'l', b'l', b'o'];
    let ctx = Context::new(104);
    let (end, h) = parse_udp_header(BitCursor::new(&bytes), &ctx).unwrap();
    assert_eq!(end.bit_offset, 104);
    assert_eq!(h.source_port.0, 33422);
    assert_eq!(h.destination_port.0, 53);
    assert_eq!(h.length.0, 13);
    assert_eq!(h.checksum.0, 0);
    assert_eq!(h.payload.0, "Hello".as_bytes());
}

#[test]
fn udp_length_disagrees_with_declared_length() {
    let bytes: [u8; 13] = [0x82, 0x8e, 0, 53, 0, 12, 0, 0, b'H', b'e', b'l', b'l', b'o'];
    let ctx = Context::new(104);
    assert_eq!(
        parse_udp_header(BitCursor::new(&bytes), &ctx).unwrap_err(),
        DecodeError::LengthMismatch { consumed: 96, declared: 104 }
    );
    let short: [u8; 8] = [0, 1, 0, 2, 0, 7, 0, 0];
    assert_eq!(
        parse_udp_header(BitCursor::new(&short), &Context::new(64)).unwrap_err(),
        DecodeError::ConstraintViolation { bit_offset: 32 }
    );
}

#[test]
fn header_without_payload_field_and_trailing_bytes() {
    let data = [7u8; 32];
    let layout = [plain(32), plain(32), plain(32), plain(32), plain(32)];
    assert_eq!(
        decode_fixed_message(&data, 256, &layout).unwrap_err(),
        DecodeError::LengthMismatch { consumed: 160, declared: 256 }
    );
    assert!(decode_fixed_message(&data, 160, &layout).is_ok());
}

#[test]
fn dispatcher_falls_through_to_second_candidate() {
    let bytes: [u8; 12] = [0x82, 0x8e, 0, 53, 0, 12, 0, 0, 1, 2, 3, 4];
    let ctx = Context::new(96);
    match parse_pdu(BitCursor::new(&bytes), &ctx) {
        Ok((end, Pdu::UdpHeader(h))) => {
            assert_eq!(end.bit_offset, 96);
            assert_eq!(h.payload.0, &[1, 2, 3, 4]);
        },
        other => panic!("unexpected {:?}", other),
    }
    let (m, rest) = decode_pdu(&bytes, 96).unwrap();
    assert!(matches!(m, Pdu::UdpHeader(_)));
    assert_eq!(rest, 0);
}

#[test]
fn dispatcher_prefers_earlier_candidate() {
    // Twenty bytes that read both as a bare TCP header and as a UDP
    // datagram whose length field (bytes 4 and 5) counts all twenty.
    let bytes: [u8; 20] = [0, 1, 0, 2, 0, 20, 0, 0, 0, 0, 0, 0, 0x50, 0, 0, 0, 0, 0, 0, 0];
    assert!(parse_udp_header(BitCursor::new(&bytes), &Context::new(160)).is_ok());
    let (m, _) = decode_pdu(&bytes, 160).unwrap();
    assert!(matches!(m, Pdu::TcpHeader(_)));
}

#[test]
fn dispatcher_with_no_match() {
    let bytes: [u8; 3] = [1, 2, 3];
    assert_eq!(decode_pdu(&bytes, 24).unwrap_err(), DecodeError::NoMatchingVariant);
}

#[test]
fn decoding_twice_gives_the_same_result() {
    let bytes = tcp_segment(6, &[4, 2, 1, 0], b"xyz");
    let a = decode_pdu(&bytes, (bytes.len() * 8) as u32);
    let b = decode_pdu(&bytes, (bytes.len() * 8) as u32);
    assert_eq!(a, b);
    let bad = decode_pdu(&bytes[..10], 80);
    assert_eq!(bad, decode_pdu(&bytes[..10], 80));
    assert_eq!(bad.unwrap_err(), DecodeError::NoMatchingVariant);
}

#[test]
fn stun_message_type_bits() {
    // m11..m7 = 0, c1 = 1, m6..m4 = 0, c0 = 0, m3 m2 = 0, m1 = 1, m0 = 0.
    let ok: [u8; 2] = [0b0000_0100, 0b0000_1000];
    let (c, m) = parse_stun_messagetype_split(BitCursor::new(&ok)).unwrap();
    assert_eq!(c.bit_offset, 14);
    assert_eq!(m.c1.0, 1);
    assert_eq!(m.m1.0, 1);
    assert_eq!(m.m0.0, 0);
    let bad: [u8; 2] = [0b0000_0100, 0b0000_0000];
    assert_eq!(
        parse_stun_messagetype_split(BitCursor::new(&bad)).unwrap_err(),
        DecodeError::ConstraintViolation { bit_offset: 0 }
    );
}

#[test]
fn fixed_width_format() {
    let mut data = vec![0b1100_0000, 0, 0, 0x01];
    data.extend_from_slice(&[0xff; 8]);
    data.extend_from_slice(&[0, 0, 0, 0, 0, 0x2a]);
    data.push(0x7e);
    let (c, f) = parse_fixed_width_field_format(BitCursor::new(&data)).unwrap();
    assert_eq!(c.bit_offset, 152);
    assert_eq!(f.field2.0, 3);
    assert_eq!(f.field30.0, 1);
    assert_eq!(f.field64.0, u64::MAX);
    assert_eq!(f.field48.0, 42);
    assert_eq!(f.field8.0, 0x7e);
    let short = [0u8; 18];
    assert_eq!(
        parse_fixed_width_field_format(BitCursor::new(&short)).unwrap_err(),
        DecodeError::InsufficientData { bit_offset: 144 }
    );
}

#[test]
fn optional_field_format() {
    let data: [u8; 5] = [9, 0, 0, 1, 0];
    let (_, f) = parse_optional_field_format(BitCursor::new(&data)).unwrap();
    assert_eq!(f.field8.0, 9);
    assert_eq!(f.optionalfield.0, 256);
}

#[test]
fn sample_structs() {
    let input: [u8; 4] = [0b1000_0101, 0b0111_1111, 0b1010_1010, 0b0100_0110];
    let (c, s) = parse_small_struct(BitCursor::new(&input)).unwrap();
    assert_eq!(c.bit_offset, 11);
    assert_eq!(s.seq, SeqNum(0b100));
    assert_eq!(s.f6.0, 0b001010);
    assert_eq!(s.unused.0, 0b11);
    let (c, t) = parse_test_struct(BitCursor::new(&input)).unwrap();
    assert_eq!(c.bit_offset, 22);
    assert_eq!(t.fruit, Fruits::Mango);
    assert_eq!(t.seq.0, 0b000);
    assert_eq!(t.f6.0, 0b101011);
    assert_eq!(t.smallstruct.seq.0, 0b111);
    assert_eq!(t.smallstruct.f6.0, 0b111010);
    assert_eq!(t.smallstruct.unused.0, 0b10);
}

#[test]
fn fruit_codes() {
    let data: [u8; 1] = [0b0001_1011];
    let c = BitCursor::new(&data);
    let (c, a) = parse_fruits(c).unwrap();
    let (c, b) = parse_fruits(c).unwrap();
    let (c, d) = parse_fruits(c).unwrap();
    let (_, e) = parse_fruits(c).unwrap();
    assert_eq!([a, b, d, e], [Fruits::Orange, Fruits::Mango, Fruits::Lychee, Fruits::Cherry]);
    assert_eq!(
        parse_mango(BitCursor::new(&data)).unwrap_err(),
        DecodeError::ConstraintViolation { bit_offset: 0 }
    );
}

#[test]
fn chained_fields_are_read_back_to_back() {
    let input: [u8; 4] = [0b0100_0010, 0b0111_1111, 0b1010_0000, 0b0000_0110];
    let (c, t) = chain_parsing(BitCursor::new(&input)).unwrap();
    assert_eq!(c.bit_offset, 24);
    assert_eq!(t.f1, 0);
    assert_eq!(t.f2, 0b10);
    assert_eq!(t.f3, 0b000100111);
    assert_eq!(t.f4, 0b1111);
    assert_eq!(t.f5, 0b101);
    assert_eq!(t.f6, 0);
    let sample: [u8; 4] = [0x42, 0x7f, 0x00, 0x06];
    let (c, t) = chain_parsing(BitCursor::new(&sample)).unwrap();
    assert_eq!(c.bit_offset, 24);
    assert_eq!((t.f1, t.f2, t.f3, t.f4, t.f5, t.f6), (0, 2, 39, 15, 0, 0));
    let (c, _) = chain_parsing(BitCursor::new(&sample[..3])).unwrap();
    assert_eq!(c.remaining_bits(), 0);
    assert_eq!(
        chain_parsing(BitCursor::new(&sample[..2])).unwrap_err(),
        DecodeError::InsufficientData { bit_offset: 16 }
    );
}

#[test]
fn single_bit_reads_skip_nothing() {
    let input: [u8; 2] = [0b0100_0010, 0b0111_1111];
    let (c, bit) = take_1_bit(BitCursor::new(&input)).unwrap();
    assert_eq!((bit, c.bit_offset), (0, 1));
    let (c, three) = take_3(BitCursor::new(&input)).unwrap();
    assert_eq!(three, (0, 0b10, 0b0001001));
    assert_eq!(c.bit_offset, 10);
    let pattern: [u8; 1] = [0b0010];
    let (c, v) = search_pattern(BitCursor::new(&pattern)).unwrap();
    assert_eq!((v, c.bit_offset), (2, 8));
    let shifted: [u8; 2] = [0x00, 0x20];
    let (c, _) = BitCursor::new(&shifted).take(4).unwrap();
    let (c, v) = search_pattern(c).unwrap();
    assert_eq!((v, c.bit_offset), (2, 12));
    assert_eq!(
        search_pattern(BitCursor::new(&input)).unwrap_err(),
        DecodeError::ConstraintViolation { bit_offset: 0 }
    );
}

#[test]
fn stun_message_type_at_top_level() {
    let data: [u8; 4] = [0x46, 0x7f, 0x00, 0x00];
    assert_eq!(
        decode_stun_message_type(&data, 32).unwrap_err(),
        DecodeError::LengthMismatch { consumed: 14, declared: 32 }
    );
    let (m, rest) = decode_stun_message_type(&data, 14).unwrap();
    assert_eq!(rest, 0);
    assert_eq!((m.c1.0, m.m1.0, m.m10.0), (1, 1, 1));
}

#[test]
fn byte_slices() {
    let input: [u8; 4] = [2, 9, 8, 7];
    let (c, one) = get_single_bit(BitCursor::new(&input)).unwrap();
    assert_eq!(one, &[2]);
    assert_eq!(c.bit_offset, 8);
    let (c, data) = len_parser(BitCursor::new(&input)).unwrap();
    assert_eq!(data, &[9, 8]);
    assert_eq!(c.bit_offset, 24);
    let (c, _) = BitCursor::new(&input).take(3).unwrap();
    assert_eq!(get_single_bit(c).unwrap_err(), DecodeError::InternalDefinitionError);
}

#[test]
fn computed_values() {
    assert_eq!(transform_seq(SeqNum(5)).0, 5);
    assert_eq!(test_function(Red(0x12), Green(0x34), Blue(0x56)).0, 0x123456);
}
