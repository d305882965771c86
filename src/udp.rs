use vstd::prelude::*;

use crate::bits::{bytes_spec, lemma_bytes_len, take_spec, yields_as, yields_view, BitCursor};
use crate::context::Context;
use crate::error::DecodeError;
use crate::field::{Constraint, Payload};
use crate::record::{
    decode_record, layout_ok, lemma_record_framing, lemma_record_values_bound, record_spec, FieldDef,
};

verus! {

/// The sending port.
#[derive(Debug, Clone, Copy, PartialEq, Eq, Structural)]
pub struct SourcePort(pub u16);

/// The receiving port.
#[derive(Debug, Clone, Copy, PartialEq, Eq, Structural)]
pub struct DestinationPort(pub u16);

/// The datagram's length in bytes, header included.
#[derive(Debug, Clone, Copy, PartialEq, Eq, Structural)]
pub struct Length(pub u16);

/// The checksum over header, payload and pseudo-header.
#[derive(Debug, Clone, Copy, PartialEq, Eq, Structural)]
pub struct Checksum(pub u16);

/// Reads the source port field of a UDP header, without checking it.
pub fn parse_udp_header_source_port<'a>(input: BitCursor<'a>) -> (r: Result<(BitCursor<'a>, SourcePort), DecodeError>)
    requires
        input.wf(),
    ensures
        yields_as(r, input, take_spec(input.buffer@, input.bit_offset as int, 16), |v: u64| SourcePort(v as u16)),
{
    let (c, v) = input.take(16)?;
    Ok((c, SourcePort(v as u16)))
}

/// Reads the destination port field of a UDP header, without checking it.
pub fn parse_udp_header_destination_port<'a>(input: BitCursor<'a>) -> (r: Result<(BitCursor<'a>, DestinationPort), DecodeError>)
    requires
        input.wf(),
    ensures
        yields_as(r, input, take_spec(input.buffer@, input.bit_offset as int, 16), |v: u64| DestinationPort(v as u16)),
{
    let (c, v) = input.take(16)?;
    Ok((c, DestinationPort(v as u16)))
}

/// Reads the length field of a UDP header, without checking it.
pub fn parse_udp_header_length<'a>(input: BitCursor<'a>) -> (r: Result<(BitCursor<'a>, Length), DecodeError>)
    requires
        input.wf(),
    ensures
        yields_as(r, input, take_spec(input.buffer@, input.bit_offset as int, 16), |v: u64| Length(v as u16)),
{
    let (c, v) = input.take(16)?;
    Ok((c, Length(v as u16)))
}

/// Reads the checksum field of a UDP header, without checking it.
pub fn parse_udp_header_checksum<'a>(input: BitCursor<'a>) -> (r: Result<(BitCursor<'a>, Checksum), DecodeError>)
    requires
        input.wf(),
    ensures
        yields_as(r, input, take_spec(input.buffer@, input.bit_offset as int, 16), |v: u64| Checksum(v as u16)),
{
    let (c, v) = input.take(16)?;
    Ok((c, Checksum(v as u16)))
}

/// The eight bytes that start every UDP header.
pub open spec fn udp_fixed_layout() -> Seq<FieldDef<'static>> {
    seq![
        FieldDef { width: 16, constraint: Constraint::Unconstrained },
        FieldDef { width: 16, constraint: Constraint::Unconstrained },
        FieldDef { width: 16, constraint: Constraint::Unconstrained },
        FieldDef { width: 16, constraint: Constraint::Unconstrained },
    ]
}

fn udp_fixed_fields() -> (r: Vec<FieldDef<'static>>)
    ensures
        r@ == udp_fixed_layout(),
        layout_ok(r@),
{
    let r = vec![
        FieldDef { width: 16, constraint: Constraint::Unconstrained },
        FieldDef { width: 16, constraint: Constraint::Unconstrained },
        FieldDef { width: 16, constraint: Constraint::Unconstrained },
        FieldDef { width: 16, constraint: Constraint::Unconstrained },
    ];
    assert(r@ =~= udp_fixed_layout());
    r
}

/// A UDP header and the payload that its length field counts.
#[derive(Debug, Clone, Copy, PartialEq, Eq)]
pub struct UdpHeader<'a> {
    pub source_port: SourcePort,
    pub destination_port: DestinationPort,
    pub length: Length,
    pub checksum: Checksum,
    pub payload: Payload<'a>,
}

/// A UDP header as a value of the model.
pub struct UdpHeaderView {
    pub source_port: SourcePort,
    pub destination_port: DestinationPort,
    pub length: Length,
    pub checksum: Checksum,
    pub payload: Seq<u8>,
}

impl<'a> View for UdpHeader<'a> {
    type V = UdpHeaderView;

    open spec fn view(&self) -> UdpHeaderView {
        UdpHeaderView {
            source_port: self.source_port,
            destination_port: self.destination_port,
            length: self.length,
            checksum: self.checksum,
            payload: self.payload.0@,
        }
    }
}

/// Decoding the payload of a datagram whose length field is `length`, from
/// bit `pos`: the bytes that the length counts beyond the eight-byte header.
pub open spec fn udp_payload_spec(bytes: Seq<u8>, pos: int, length: int) -> Result<
    (int, Seq<u8>),
    DecodeError,
> {
    if length < 8 {
        Err(DecodeError::ConstraintViolation { bit_offset: pos as usize })
    } else {
        bytes_spec(bytes, pos, (length - 8) as nat)
    }
}

/// Decoding a UDP datagram at bit `pos` of a message of `declared` bits. The
/// length field must be at least eight; the datagram must take exactly the
/// declared length.
pub open spec fn udp_header_spec(bytes: Seq<u8>, pos: int, declared: int) -> Result<
    (int, UdpHeaderView),
    DecodeError,
> {
    match record_spec(bytes, pos, udp_fixed_layout()) {
        Ok((p, vs)) => if vs[2] < 8 {
            Err(DecodeError::ConstraintViolation { bit_offset: (pos + 32) as usize })
        } else {
            match bytes_spec(bytes, p, (vs[2] - 8) as nat) {
                Ok((q, pl)) => if q - pos != declared {
                    Err(
                        DecodeError::LengthMismatch {
                            consumed: (q - pos) as usize,
                            declared: declared as usize,
                        },
                    )
                } else {
                    Ok(
                        (
                            q,
                            UdpHeaderView {
                                source_port: SourcePort(vs[0] as u16),
                                destination_port: DestinationPort(vs[1] as u16),
                                length: Length(vs[2] as u16),
                                checksum: Checksum(vs[3] as u16),
                                payload: pl,
                            },
                        ),
                    )
                },
                Err(e) => Err(e),
            }
        },
        Err(e) => Err(e),
    }
}

/// Decodes the payload of a datagram whose length field is `length`:
/// `ConstraintViolation` where the length is below the header's eight bytes.
pub fn parse_udp_header_payload<'a>(input: BitCursor<'a>, length: u16) -> (r: Result<
    (BitCursor<'a>, Payload<'a>),
    DecodeError,
>)
    requires
        input.wf(),
    ensures
        match (r, udp_payload_spec(input.buffer@, input.bit_offset as int, length as int)) {
            (Ok((c, pl)), Ok((p, ws))) => c.buffer == input.buffer && c.bit_offset == p && c.wf()
                && pl.0@ == ws,
            (Err(e), Err(f)) => e == f,
            _ => false,
        },
{
    if length < 8 {
        return Err(DecodeError::ConstraintViolation { bit_offset: input.bit_offset });
    }
    let (c, b) = input.take_bytes((length - 8) as usize)?;
    Ok((c, Payload(b)))
}

/// Decodes a UDP datagram: its header, then the payload that the length
/// field counts. `LengthMismatch` where the datagram does not take exactly
/// the context's declared length.
pub fn parse_udp_header<'a>(input: BitCursor<'a>, ctx: &Context) -> (r: Result<
    (BitCursor<'a>, UdpHeader<'a>),
    DecodeError,
>)
    requires
        input.wf(),
    ensures
        yields_view(
            r,
            input,
            udp_header_spec(input.buffer@, input.bit_offset as int, ctx.declared_bits() as int),
        ),
{
    let fields = udp_fixed_fields();
    let (c, vs) = decode_record(&input, fields.as_slice())?;
    proof {
        lemma_record_framing(input.buffer@, input.bit_offset as int, udp_fixed_layout());
        lemma_record_values_bound(input.buffer@, input.bit_offset as int, udp_fixed_layout());
        vstd::arithmetic::power2::lemma2_to64();
        assert(vs@[2] < 65536);
        reveal_with_fuel(crate::record::layout_bits, 5);
    }
    if vs[2] < 8 {
        return Err(DecodeError::ConstraintViolation { bit_offset: input.bit_offset + 32 });
    }
    let (q, payload) = parse_udp_header_payload(c, vs[2] as u16)?;
    let consumed = q.bit_offset - input.bit_offset;
    let declared = ctx.data_size() as usize;
    if consumed != declared {
        return Err(DecodeError::LengthMismatch { consumed, declared });
    }
    let h = UdpHeader {
        source_port: SourcePort(vs[0] as u16),
        destination_port: DestinationPort(vs[1] as u16),
        length: Length(vs[2] as u16),
        checksum: Checksum(vs[3] as u16),
        payload,
    };
    Ok((q, h))
}


/// A decoded UDP datagram spans its eight-byte header and then its payload,
/// and together they take exactly the declared length.
pub proof fn lemma_udp_framing(bytes: Seq<u8>, pos: int, declared: int)
    requires
        0 <= pos,
        udp_header_spec(bytes, pos, declared) is Ok,
    ensures
        ({
            let (q, h) = udp_header_spec(bytes, pos, declared)->Ok_0;
            &&& q == pos + 64 + 8 * h.payload.len()
            &&& q == pos + declared
            &&& h.payload.len() == h.length.0 - 8
        }),
{
    lemma_record_framing(bytes, pos, udp_fixed_layout());
    lemma_record_values_bound(bytes, pos, udp_fixed_layout());
    vstd::arithmetic::power2::lemma2_to64();
    reveal_with_fuel(crate::record::layout_bits, 5);
    let (p, vs) = record_spec(bytes, pos, udp_fixed_layout())->Ok_0;
    assert(vs[2] < 65536);
    lemma_bytes_len(bytes, p, (vs[2] - 8) as nat);
}

} // verus!
