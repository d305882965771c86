use vstd::prelude::*;

use crate::bits::{bytes_spec, lemma_bytes_len, take_spec, yields_as, yields_view, BitCursor};
use crate::context::Context;
use crate::error::DecodeError;
use crate::field::{Constraint, Payload};
use crate::option_list::{
    decode_option_list, option_list_spec, options_view, TcpOption, TcpOptionView,
};
use crate::record::{
    decode_record, layout_ok, lemma_record_framing, lemma_record_values_bound, record_spec, FieldDef,
};

verus! {

/// The sending port.
#[derive(Debug, Clone, Copy, PartialEq, Eq, Structural)]
pub struct SourcePort(pub u16);

/// The receiving port.
#[derive(Debug, Clone, Copy, PartialEq, Eq, Structural)]
pub struct DestinationPort(pub u16);

/// The sequence number of the segment's first data byte.
#[derive(Debug, Clone, Copy, PartialEq, Eq, Structural)]
pub struct SequenceNumber(pub u32);

/// The next sequence number the sender expects.
#[derive(Debug, Clone, Copy, PartialEq, Eq, Structural)]
pub struct AcknowledgmentNumber(pub u32);

/// The header's length in 32-bit words.
#[derive(Debug, Clone, Copy, PartialEq, Eq, Structural)]
pub struct DataOffset(pub u8);

/// Bits reserved for future use.
#[derive(Debug, Clone, Copy, PartialEq, Eq, Structural)]
pub struct Reserved(pub u8);

/// Congestion window reduced flag.
#[derive(Debug, Clone, Copy, PartialEq, Eq, Structural)]
pub struct Cwr(pub u8);

/// ECN-echo flag.
#[derive(Debug, Clone, Copy, PartialEq, Eq, Structural)]
pub struct Ece(pub u8);

/// Urgent pointer significant flag.
#[derive(Debug, Clone, Copy, PartialEq, Eq, Structural)]
pub struct Urg(pub u8);

/// Acknowledgment field significant flag.
#[derive(Debug, Clone, Copy, PartialEq, Eq, Structural)]
pub struct Ack(pub u8);

/// Push flag.
#[derive(Debug, Clone, Copy, PartialEq, Eq, Structural)]
pub struct Psh(pub u8);

/// Reset flag.
#[derive(Debug, Clone, Copy, PartialEq, Eq, Structural)]
pub struct Rst(pub u8);

/// Synchronize flag.
#[derive(Debug, Clone, Copy, PartialEq, Eq, Structural)]
pub struct Syn(pub u8);

/// No more data flag.
#[derive(Debug, Clone, Copy, PartialEq, Eq, Structural)]
pub struct Fin(pub u8);

/// The number of bytes the sender will accept.
#[derive(Debug, Clone, Copy, PartialEq, Eq, Structural)]
pub struct WindowSize(pub u16);

/// The checksum over header, payload and pseudo-header.
#[derive(Debug, Clone, Copy, PartialEq, Eq, Structural)]
pub struct Checksum(pub u16);

/// Where urgent data ends, as an offset from the sequence number.
#[derive(Debug, Clone, Copy, PartialEq, Eq, Structural)]
pub struct UrgentPointer(pub u16);

/// The options of a TCP header.
#[derive(Debug, Clone, PartialEq, Eq)]
pub struct TcpOptions(pub Vec<TcpOption>);

/// Reads the source port field of a TCP header, without checking it.
pub fn parse_tcp_header_source_port<'a>(input: BitCursor<'a>) -> (r: Result<(BitCursor<'a>, SourcePort), DecodeError>)
    requires
        input.wf(),
    ensures
        yields_as(r, input, take_spec(input.buffer@, input.bit_offset as int, 16), |v: u64| SourcePort(v as u16)),
{
    let (c, v) = input.take(16)?;
    Ok((c, SourcePort(v as u16)))
}

/// Reads the destination port field of a TCP header, without checking it.
pub fn parse_tcp_header_destination_port<'a>(input: BitCursor<'a>) -> (r: Result<(BitCursor<'a>, DestinationPort), DecodeError>)
    requires
        input.wf(),
    ensures
        yields_as(r, input, take_spec(input.buffer@, input.bit_offset as int, 16), |v: u64| DestinationPort(v as u16)),
{
    let (c, v) = input.take(16)?;
    Ok((c, DestinationPort(v as u16)))
}

/// Reads the sequence number field of a TCP header, without checking it.
pub fn parse_tcp_header_sequence_number<'a>(input: BitCursor<'a>) -> (r: Result<(BitCursor<'a>, SequenceNumber), DecodeError>)
    requires
        input.wf(),
    ensures
        yields_as(r, input, take_spec(input.buffer@, input.bit_offset as int, 32), |v: u64| SequenceNumber(v as u32)),
{
    let (c, v) = input.take(32)?;
    Ok((c, SequenceNumber(v as u32)))
}

/// Reads the acknowledgment number field of a TCP header, without checking it.
pub fn parse_tcp_header_acknowledgment_number<'a>(input: BitCursor<'a>) -> (r: Result<(BitCursor<'a>, AcknowledgmentNumber), DecodeError>)
    requires
        input.wf(),
    ensures
        yields_as(r, input, take_spec(input.buffer@, input.bit_offset as int, 32), |v: u64| AcknowledgmentNumber(v as u32)),
{
    let (c, v) = input.take(32)?;
    Ok((c, AcknowledgmentNumber(v as u32)))
}

/// Reads the data offset field of a TCP header, without checking it.
pub fn parse_tcp_header_data_offset<'a>(input: BitCursor<'a>) -> (r: Result<(BitCursor<'a>, DataOffset), DecodeError>)
    requires
        input.wf(),
    ensures
        yields_as(r, input, take_spec(input.buffer@, input.bit_offset as int, 4), |v: u64| DataOffset(v as u8)),
{
    let (c, v) = input.take(4)?;
    Ok((c, DataOffset(v as u8)))
}

/// Reads the reserved field of a TCP header, without checking it.
pub fn parse_tcp_header_reserved<'a>(input: BitCursor<'a>) -> (r: Result<(BitCursor<'a>, Reserved), DecodeError>)
    requires
        input.wf(),
    ensures
        yields_as(r, input, take_spec(input.buffer@, input.bit_offset as int, 4), |v: u64| Reserved(v as u8)),
{
    let (c, v) = input.take(4)?;
    Ok((c, Reserved(v as u8)))
}

/// Reads the cwr field of a TCP header, without checking it.
pub fn parse_tcp_header_cwr<'a>(input: BitCursor<'a>) -> (r: Result<(BitCursor<'a>, Cwr), DecodeError>)
    requires
        input.wf(),
    ensures
        yields_as(r, input, take_spec(input.buffer@, input.bit_offset as int, 1), |v: u64| Cwr(v as u8)),
{
    let (c, v) = input.take(1)?;
    Ok((c, Cwr(v as u8)))
}

/// Reads the ece field of a TCP header, without checking it.
pub fn parse_tcp_header_ece<'a>(input: BitCursor<'a>) -> (r: Result<(BitCursor<'a>, Ece), DecodeError>)
    requires
        input.wf(),
    ensures
        yields_as(r, input, take_spec(input.buffer@, input.bit_offset as int, 1), |v: u64| Ece(v as u8)),
{
    let (c, v) = input.take(1)?;
    Ok((c, Ece(v as u8)))
}

/// Reads the urg field of a TCP header, without checking it.
pub fn parse_tcp_header_urg<'a>(input: BitCursor<'a>) -> (r: Result<(BitCursor<'a>, Urg), DecodeError>)
    requires
        input.wf(),
    ensures
        yields_as(r, input, take_spec(input.buffer@, input.bit_offset as int, 1), |v: u64| Urg(v as u8)),
{
    let (c, v) = input.take(1)?;
    Ok((c, Urg(v as u8)))
}

/// Reads the ack field of a TCP header, without checking it.
pub fn parse_tcp_header_ack<'a>(input: BitCursor<'a>) -> (r: Result<(BitCursor<'a>, Ack), DecodeError>)
    requires
        input.wf(),
    ensures
        yields_as(r, input, take_spec(input.buffer@, input.bit_offset as int, 1), |v: u64| Ack(v as u8)),
{
    let (c, v) = input.take(1)?;
    Ok((c, Ack(v as u8)))
}

/// Reads the psh field of a TCP header, without checking it.
pub fn parse_tcp_header_psh<'a>(input: BitCursor<'a>) -> (r: Result<(BitCursor<'a>, Psh), DecodeError>)
    requires
        input.wf(),
    ensures
        yields_as(r, input, take_spec(input.buffer@, input.bit_offset as int, 1), |v: u64| Psh(v as u8)),
{
    let (c, v) = input.take(1)?;
    Ok((c, Psh(v as u8)))
}

/// Reads the rst field of a TCP header, without checking it.
pub fn parse_tcp_header_rst<'a>(input: BitCursor<'a>) -> (r: Result<(BitCursor<'a>, Rst), DecodeError>)
    requires
        input.wf(),
    ensures
        yields_as(r, input, take_spec(input.buffer@, input.bit_offset as int, 1), |v: u64| Rst(v as u8)),
{
    let (c, v) = input.take(1)?;
    Ok((c, Rst(v as u8)))
}

/// Reads the syn field of a TCP header, without checking it.
pub fn parse_tcp_header_syn<'a>(input: BitCursor<'a>) -> (r: Result<(BitCursor<'a>, Syn), DecodeError>)
    requires
        input.wf(),
    ensures
        yields_as(r, input, take_spec(input.buffer@, input.bit_offset as int, 1), |v: u64| Syn(v as u8)),
{
    let (c, v) = input.take(1)?;
    Ok((c, Syn(v as u8)))
}

/// Reads the fin field of a TCP header, without checking it.
pub fn parse_tcp_header_fin<'a>(input: BitCursor<'a>) -> (r: Result<(BitCursor<'a>, Fin), DecodeError>)
    requires
        input.wf(),
    ensures
        yields_as(r, input, take_spec(input.buffer@, input.bit_offset as int, 1), |v: u64| Fin(v as u8)),
{
    let (c, v) = input.take(1)?;
    Ok((c, Fin(v as u8)))
}

/// Reads the window size field of a TCP header, without checking it.
pub fn parse_tcp_header_window_size<'a>(input: BitCursor<'a>) -> (r: Result<(BitCursor<'a>, WindowSize), DecodeError>)
    requires
        input.wf(),
    ensures
        yields_as(r, input, take_spec(input.buffer@, input.bit_offset as int, 16), |v: u64| WindowSize(v as u16)),
{
    let (c, v) = input.take(16)?;
    Ok((c, WindowSize(v as u16)))
}

/// Reads the checksum field of a TCP header, without checking it.
pub fn parse_tcp_header_checksum<'a>(input: BitCursor<'a>) -> (r: Result<(BitCursor<'a>, Checksum), DecodeError>)
    requires
        input.wf(),
    ensures
        yields_as(r, input, take_spec(input.buffer@, input.bit_offset as int, 16), |v: u64| Checksum(v as u16)),
{
    let (c, v) = input.take(16)?;
    Ok((c, Checksum(v as u16)))
}

/// Reads the urgent pointer field of a TCP header, without checking it.
pub fn parse_tcp_header_urgent_pointer<'a>(input: BitCursor<'a>) -> (r: Result<(BitCursor<'a>, UrgentPointer), DecodeError>)
    requires
        input.wf(),
    ensures
        yields_as(r, input, take_spec(input.buffer@, input.bit_offset as int, 16), |v: u64| UrgentPointer(v as u16)),
{
    let (c, v) = input.take(16)?;
    Ok((c, UrgentPointer(v as u16)))
}

/// The twenty bytes that start every TCP header.
pub open spec fn tcp_fixed_layout() -> Seq<FieldDef<'static>> {
    seq![
        FieldDef { width: 16, constraint: Constraint::Unconstrained },
        FieldDef { width: 16, constraint: Constraint::Unconstrained },
        FieldDef { width: 32, constraint: Constraint::Unconstrained },
        FieldDef { width: 32, constraint: Constraint::Unconstrained },
        FieldDef { width: 4, constraint: Constraint::Unconstrained },
        FieldDef { width: 4, constraint: Constraint::Unconstrained },
        FieldDef { width: 1, constraint: Constraint::Unconstrained },
        FieldDef { width: 1, constraint: Constraint::Unconstrained },
        FieldDef { width: 1, constraint: Constraint::Unconstrained },
        FieldDef { width: 1, constraint: Constraint::Unconstrained },
        FieldDef { width: 1, constraint: Constraint::Unconstrained },
        FieldDef { width: 1, constraint: Constraint::Unconstrained },
        FieldDef { width: 1, constraint: Constraint::Unconstrained },
        FieldDef { width: 1, constraint: Constraint::Unconstrained },
        FieldDef { width: 16, constraint: Constraint::Unconstrained },
        FieldDef { width: 16, constraint: Constraint::Unconstrained },
        FieldDef { width: 16, constraint: Constraint::Unconstrained },
    ]
}

fn tcp_fixed_fields() -> (r: Vec<FieldDef<'static>>)
    ensures
        r@ == tcp_fixed_layout(),
        layout_ok(r@),
{
    let r = vec![
        FieldDef { width: 16, constraint: Constraint::Unconstrained },
        FieldDef { width: 16, constraint: Constraint::Unconstrained },
        FieldDef { width: 32, constraint: Constraint::Unconstrained },
        FieldDef { width: 32, constraint: Constraint::Unconstrained },
        FieldDef { width: 4, constraint: Constraint::Unconstrained },
        FieldDef { width: 4, constraint: Constraint::Unconstrained },
        FieldDef { width: 1, constraint: Constraint::Unconstrained },
        FieldDef { width: 1, constraint: Constraint::Unconstrained },
        FieldDef { width: 1, constraint: Constraint::Unconstrained },
        FieldDef { width: 1, constraint: Constraint::Unconstrained },
        FieldDef { width: 1, constraint: Constraint::Unconstrained },
        FieldDef { width: 1, constraint: Constraint::Unconstrained },
        FieldDef { width: 1, constraint: Constraint::Unconstrained },
        FieldDef { width: 1, constraint: Constraint::Unconstrained },
        FieldDef { width: 16, constraint: Constraint::Unconstrained },
        FieldDef { width: 16, constraint: Constraint::Unconstrained },
        FieldDef { width: 16, constraint: Constraint::Unconstrained },
    ];
    assert(r@ =~= tcp_fixed_layout());
    r
}

/// A TCP header with its options and the payload that follows it.
#[derive(Debug, Clone, PartialEq, Eq)]
pub struct TcpHeader<'a> {
    pub source_port: SourcePort,
    pub destination_port: DestinationPort,
    pub sequence_number: SequenceNumber,
    pub acknowledgment_number: AcknowledgmentNumber,
    pub data_offset: DataOffset,
    pub reserved: Reserved,
    pub cwr: Cwr,
    pub ece: Ece,
    pub urg: Urg,
    pub ack: Ack,
    pub psh: Psh,
    pub rst: Rst,
    pub syn: Syn,
    pub fin: Fin,
    pub window_size: WindowSize,
    pub checksum: Checksum,
    pub urgent_pointer: UrgentPointer,
    pub options: Option<TcpOptions>,
    pub payload: Payload<'a>,
}

/// A TCP header as a value of the model.
pub struct TcpHeaderView {
    pub source_port: SourcePort,
    pub destination_port: DestinationPort,
    pub sequence_number: SequenceNumber,
    pub acknowledgment_number: AcknowledgmentNumber,
    pub data_offset: DataOffset,
    pub reserved: Reserved,
    pub cwr: Cwr,
    pub ece: Ece,
    pub urg: Urg,
    pub ack: Ack,
    pub psh: Psh,
    pub rst: Rst,
    pub syn: Syn,
    pub fin: Fin,
    pub window_size: WindowSize,
    pub checksum: Checksum,
    pub urgent_pointer: UrgentPointer,
    pub options: Option<Seq<TcpOptionView>>,
    pub payload: Seq<u8>,
}

impl<'a> View for TcpHeader<'a> {
    type V = TcpHeaderView;

    open spec fn view(&self) -> TcpHeaderView {
        TcpHeaderView {
            source_port: self.source_port,
            destination_port: self.destination_port,
            sequence_number: self.sequence_number,
            acknowledgment_number: self.acknowledgment_number,
            data_offset: self.data_offset,
            reserved: self.reserved,
            cwr: self.cwr,
            ece: self.ece,
            urg: self.urg,
            ack: self.ack,
            psh: self.psh,
            rst: self.rst,
            syn: self.syn,
            fin: self.fin,
            window_size: self.window_size,
            checksum: self.checksum,
            urgent_pointer: self.urgent_pointer,
            options: match self.options {
                Some(o) => Some(options_view(o.0@)),
                None => None,
            },
            payload: self.payload.0@,
        }
    }
}

/// The header built from the values of [`tcp_fixed_layout`], its options and
/// its payload.
pub open spec fn tcp_header_from(
    vs: Seq<u64>,
    options: Option<Seq<TcpOptionView>>,
    payload: Seq<u8>,
) -> TcpHeaderView {
    TcpHeaderView {
        source_port: SourcePort(vs[0] as u16),
        destination_port: DestinationPort(vs[1] as u16),
        sequence_number: SequenceNumber(vs[2] as u32),
        acknowledgment_number: AcknowledgmentNumber(vs[3] as u32),
        data_offset: DataOffset(vs[4] as u8),
        reserved: Reserved(vs[5] as u8),
        cwr: Cwr(vs[6] as u8),
        ece: Ece(vs[7] as u8),
        urg: Urg(vs[8] as u8),
        ack: Ack(vs[9] as u8),
        psh: Psh(vs[10] as u8),
        rst: Rst(vs[11] as u8),
        syn: Syn(vs[12] as u8),
        fin: Fin(vs[13] as u8),
        window_size: WindowSize(vs[14] as u16),
        checksum: Checksum(vs[15] as u16),
        urgent_pointer: UrgentPointer(vs[16] as u16),
        options,
        payload,
    }
}


/// The context key under which a TCP header's data offset is stored.
pub const DATA_OFFSET_KEY: u32 = 1;

/// Decoding the option area of a header whose data offset is `doff`, from
/// bit `pos`: `doff - 5` words of options, which must lie in the buffer.
pub open spec fn options_area_spec(bytes: Seq<u8>, pos: int, doff: int) -> Result<
    (int, Seq<TcpOptionView>),
    DecodeError,
> {
    if doff < 5 {
        Err(DecodeError::ConstraintViolation { bit_offset: pos as usize })
    } else if pos + 32 * (doff - 5) > bytes.len() * 8 {
        Err(DecodeError::InsufficientData { bit_offset: pos as usize })
    } else {
        option_list_spec(bytes, pos, pos + 32 * (doff - 5))
    }
}

/// Decoding the payload from bit `pos`: whatever the declared length of the
/// message leaves after a header of `doff` words, as whole bytes.
pub open spec fn payload_spec(bytes: Seq<u8>, pos: int, declared: int, doff: int) -> Result<
    (int, Seq<u8>),
    DecodeError,
> {
    if declared < 32 * doff || (declared - 32 * doff) % 8 != 0 {
        Err(DecodeError::LengthMismatch { consumed: (32 * doff) as usize, declared: declared as usize })
    } else {
        bytes_spec(bytes, pos, ((declared - 32 * doff) / 8) as nat)
    }
}

/// Decoding what follows the fixed part of a TCP header that starts at bit
/// `pos`, whose fixed part ends at bit `p` and whose data offset is `doff`:
/// the options, if the data offset leaves room for any, then the payload.
pub open spec fn tcp_body_spec(bytes: Seq<u8>, pos: int, p: int, doff: int, declared: int) -> Result<
    (int, (Option<Seq<TcpOptionView>>, Seq<u8>)),
    DecodeError,
> {
    let options: Result<Option<Seq<TcpOptionView>>, DecodeError> = if doff > 5 {
        match options_area_spec(bytes, p, doff) {
            Ok((_, os)) => Ok(Some(os)),
            Err(e) => Err(e),
        }
    } else {
        Ok(None)
    };
    match options {
        Ok(o) => match payload_spec(bytes, pos + 32 * doff, declared, doff) {
            Ok((q, pl)) => Ok((q, (o, pl))),
            Err(e) => Err(e),
        },
        Err(e) => Err(e),
    }
}

/// Decoding a TCP header at bit `pos` of a message of `declared` bits.
pub open spec fn tcp_header_spec(bytes: Seq<u8>, pos: int, declared: int) -> Result<
    (int, TcpHeaderView),
    DecodeError,
> {
    match record_spec(bytes, pos, tcp_fixed_layout()) {
        Ok((p, vs)) => if vs[4] < 5 {
            Err(DecodeError::ConstraintViolation { bit_offset: (pos + 96) as usize })
        } else {
            match tcp_body_spec(bytes, pos, p, vs[4] as int, declared) {
                Ok((q, (o, pl))) => Ok((q, tcp_header_from(vs, o, pl))),
                Err(e) => Err(e),
            }
        },
        Err(e) => Err(e),
    }
}

/// Decodes the option area of a header whose data offset is `data_offset`:
/// `ConstraintViolation` where that is below five words, `InsufficientData`
/// where the area runs past the buffer, else the option list over it.
pub fn parse_tcp_header_options<'a>(input: BitCursor<'a>, data_offset: u8) -> (r: Result<
    (BitCursor<'a>, TcpOptions),
    DecodeError,
>)
    requires
        input.wf(),
    ensures
        match (r, options_area_spec(input.buffer@, input.bit_offset as int, data_offset as int)) {
            (Ok((c, os)), Ok((p, ws))) => c.buffer == input.buffer && c.bit_offset == p && c.wf()
                && options_view(os.0@) == ws,
            (Err(e), Err(f)) => e == f,
            _ => false,
        },
{
    if data_offset < 5 {
        return Err(DecodeError::ConstraintViolation { bit_offset: input.bit_offset });
    }
    let budget = (data_offset as usize - 5) * 4;
    if 8 * budget > input.remaining_bits() {
        return Err(DecodeError::InsufficientData { bit_offset: input.bit_offset });
    }
    let (c, os) = decode_option_list(input, budget)?;
    Ok((c, TcpOptions(os)))
}

/// Decodes the payload that follows a header of `data_offset` words: the
/// bits that the context's declared length leaves, as whole bytes borrowed
/// from the buffer. `LengthMismatch` where the header alone is longer than
/// the declared length, or where what is left is not whole bytes.
pub fn parse_tcp_header_payload<'a>(input: BitCursor<'a>, ctx: &Context, data_offset: u8) -> (r:
    Result<(BitCursor<'a>, Payload<'a>), DecodeError>)
    requires
        input.wf(),
    ensures
        match (
            r,
            payload_spec(
                input.buffer@,
                input.bit_offset as int,
                ctx.declared_bits() as int,
                data_offset as int,
            ),
        ) {
            (Ok((c, pl)), Ok((p, ws))) => c.buffer == input.buffer && c.bit_offset == p && c.wf()
                && pl.0@ == ws,
            (Err(e), Err(f)) => e == f,
            _ => false,
        },
{
    let declared = ctx.data_size() as usize;
    let header_bits = data_offset as usize * 32;
    if declared < header_bits || (declared - header_bits) % 8 != 0 {
        return Err(DecodeError::LengthMismatch { consumed: header_bits, declared });
    }
    let (c, b) = input.take_bytes((declared - header_bits) / 8)?;
    Ok((c, Payload(b)))
}

/// Decodes the options and the payload of a TCP header that started at
/// `start`, whose fixed part ends at `fixed_end` and whose data offset is
/// `doff`.
fn decode_tcp_body<'a>(start: BitCursor<'a>, fixed_end: BitCursor<'a>, doff: u64, ctx: &Context) -> (r:
    Result<(BitCursor<'a>, (Option<TcpOptions>, Payload<'a>)), DecodeError>)
    requires
        start.wf(),
        fixed_end.wf(),
        fixed_end.buffer == start.buffer,
        fixed_end.bit_offset == start.bit_offset + 160,
        5 <= doff < 16,
    ensures
        match (
            r,
            tcp_body_spec(
                start.buffer@,
                start.bit_offset as int,
                fixed_end.bit_offset as int,
                doff as int,
                ctx.declared_bits() as int,
            ),
        ) {
            (Ok((c, (o, pl))), Ok((p, (wo, wpl)))) => c.buffer == start.buffer && c.bit_offset == p
                && c.wf() && pl.0@ == wpl && match (o, wo) {
                (Some(os), Some(ws)) => options_view(os.0@) == ws,
                (None, None) => true,
                _ => false,
            },
            (Err(e), Err(f)) => e == f,
            _ => false,
        },
{
    let options = if doff > 5 {
        let (_, os) = parse_tcp_header_options(fixed_end, doff as u8)?;
        Some(os)
    } else {
        None
    };
    let header_end = BitCursor {
        buffer: start.buffer,
        bit_offset: start.bit_offset + 32 * (doff as usize),
    };
    let (q, payload) = parse_tcp_header_payload(header_end, ctx, doff as u8)?;
    Ok((q, (options, payload)))
}

/// Decodes a TCP header, its options and its payload. The data offset is
/// stored in the context under [`DATA_OFFSET_KEY`] and read back to size the
/// option area; the payload takes what the declared length leaves.
pub fn parse_tcp_header<'a>(input: BitCursor<'a>, ctx: &mut Context) -> (r: Result<
    (BitCursor<'a>, TcpHeader<'a>),
    DecodeError,
>)
    requires
        input.wf(),
    ensures
        yields_view(
            r,
            input,
            tcp_header_spec(input.buffer@, input.bit_offset as int, old(ctx).declared_bits() as int),
        ),
        final(ctx).declared_bits() == old(ctx).declared_bits(),
        r is Ok ==> final(ctx).values() == old(ctx).values().insert(
            DATA_OFFSET_KEY,
            r->Ok_0.1.data_offset.0 as u64,
        ),
{
    let fields = tcp_fixed_fields();
    let (c, vs) = decode_record(&input, fields.as_slice())?;
    proof {
        lemma_record_framing(input.buffer@, input.bit_offset as int, tcp_fixed_layout());
        lemma_record_values_bound(input.buffer@, input.bit_offset as int, tcp_fixed_layout());
        vstd::arithmetic::power2::lemma2_to64();
        assert(vs@[4] < 16);
        reveal_with_fuel(crate::record::layout_bits, 18);
    }
    if vs[4] < 5 {
        return Err(DecodeError::ConstraintViolation { bit_offset: input.bit_offset + 96 });
    }
    ctx.set(DATA_OFFSET_KEY, vs[4]);
    let doff = ctx.get(DATA_OFFSET_KEY)?;
    let (q, (options, payload)) = decode_tcp_body(input, c, doff, ctx)?;
    let h = TcpHeader {
        source_port: SourcePort(vs[0] as u16),
        destination_port: DestinationPort(vs[1] as u16),
        sequence_number: SequenceNumber(vs[2] as u32),
        acknowledgment_number: AcknowledgmentNumber(vs[3] as u32),
        data_offset: DataOffset(vs[4] as u8),
        reserved: Reserved(vs[5] as u8),
        cwr: Cwr(vs[6] as u8),
        ece: Ece(vs[7] as u8),
        urg: Urg(vs[8] as u8),
        ack: Ack(vs[9] as u8),
        psh: Psh(vs[10] as u8),
        rst: Rst(vs[11] as u8),
        syn: Syn(vs[12] as u8),
        fin: Fin(vs[13] as u8),
        window_size: WindowSize(vs[14] as u16),
        checksum: Checksum(vs[15] as u16),
        urgent_pointer: UrgentPointer(vs[16] as u16),
        options,
        payload,
    };
    Ok((q, h))
}


/// A decoded TCP header spans its data offset in words and then its payload,
/// and together they take exactly the declared length.
pub proof fn lemma_tcp_framing(bytes: Seq<u8>, pos: int, declared: int)
    requires
        0 <= pos,
        tcp_header_spec(bytes, pos, declared) is Ok,
    ensures
        ({
            let (q, h) = tcp_header_spec(bytes, pos, declared)->Ok_0;
            &&& q == pos + 32 * h.data_offset.0 + 8 * h.payload.len()
            &&& q == pos + declared
        }),
{
    let (p, vs) = record_spec(bytes, pos, tcp_fixed_layout())->Ok_0;
    lemma_record_values_bound(bytes, pos, tcp_fixed_layout());
    lemma_record_framing(bytes, pos, tcp_fixed_layout());
    vstd::arithmetic::power2::lemma2_to64();
    assert(vs[4] < 16);
    let doff = vs[4] as int;
    lemma_bytes_len(bytes, pos + 32 * doff, ((declared - 32 * doff) / 8) as nat);
}

} // verus!
