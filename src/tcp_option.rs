use vstd::arithmetic::power2::lemma2_to64;
use vstd::prelude::*;

use crate::bits::{take_spec, yields, yields_as, yields_view, BitCursor};
use crate::error::DecodeError;
use crate::field::Constraint;
use crate::record::{
    decode_record, lemma_record_values_bound, lemma_record_framing, layout_ok, map_record, record_spec, FieldDef,
};

verus! {

/// The kind byte that starts every TCP option.
#[derive(Debug, Clone, Copy, PartialEq, Eq, Structural)]
pub struct OptionKind(pub u8);

/// The length byte of a TCP option: the whole option's size in bytes.
#[derive(Debug, Clone, Copy, PartialEq, Eq, Structural)]
pub struct OptionLength(pub u8);

/// The largest segment the sender is willing to receive.
#[derive(Debug, Clone, Copy, PartialEq, Eq, Structural)]
pub struct MaximumSegmentSize(pub u16);

/// The shift applied to the advertised window.
#[derive(Debug, Clone, Copy, PartialEq, Eq, Structural)]
pub struct WindowScaleFactor(pub u8);

/// The sender's timestamp clock.
#[derive(Debug, Clone, Copy, PartialEq, Eq, Structural)]
pub struct TimestampValue(pub u32);

/// The timestamp being echoed back.
#[derive(Debug, Clone, Copy, PartialEq, Eq, Structural)]
pub struct TimestampEchoReply(pub u32);

/// Reads the option kind field of an end-of-option-list option, without checking it.
pub fn parse_eol_option_option_kind<'a>(input: BitCursor<'a>) -> (r: Result<(BitCursor<'a>, OptionKind), DecodeError>)
    requires
        input.wf(),
    ensures
        yields_as(r, input, take_spec(input.buffer@, input.bit_offset as int, 8), |v: u64| OptionKind(v as u8)),
{
    let (c, v) = input.take(8)?;
    Ok((c, OptionKind(v as u8)))
}

/// An end-of-option-list option.
#[derive(Debug, Clone, Copy, PartialEq, Eq, Structural)]
pub struct EolOption {
    pub option_kind: OptionKind,
}

/// The layout of an end-of-option-list option.
pub open spec fn eol_option_layout() -> Seq<FieldDef<'static>> {
    seq![
        FieldDef { width: 8, constraint: Constraint::Literal(0) },
    ]
}

fn eol_option_fields() -> (r: Vec<FieldDef<'static>>)
    ensures
        r@ == eol_option_layout(),
        layout_ok(r@),
{
    let r = vec![
        FieldDef { width: 8, constraint: Constraint::Literal(0) },
    ];
    assert(r@ =~= eol_option_layout());
    r
}

/// The record built from the field values of [`eol_option_layout`].
pub open spec fn eol_option_from(vs: Seq<u64>) -> EolOption {
    EolOption { option_kind: OptionKind(vs[0] as u8) }
}

/// Decoding an end-of-option-list option at bit `pos`.
pub open spec fn eol_option_spec(bytes: Seq<u8>, pos: int) -> Result<(int, EolOption), DecodeError> {
    map_record(record_spec(bytes, pos, eol_option_layout()), |vs: Seq<u64>| eol_option_from(vs))
}

/// Decodes an end-of-option-list option: its kind must be 0,
/// else a `ConstraintViolation`.
pub fn parse_eol_option<'a>(input: BitCursor<'a>) -> (r: Result<(BitCursor<'a>, EolOption), DecodeError>)
    requires
        input.wf(),
    ensures
        yields(r, input, eol_option_spec(input.buffer@, input.bit_offset as int)),
{
    let fields = eol_option_fields();
    let (c, vs) = decode_record(&input, fields.as_slice())?;
    proof {
        lemma_record_framing(input.buffer@, input.bit_offset as int, eol_option_layout());
    }
    Ok((c, EolOption { option_kind: OptionKind(vs[0] as u8) }))
}

/// Reads the option kind field of a no-operation option, without checking it.
pub fn parse_noop_option_option_kind<'a>(input: BitCursor<'a>) -> (r: Result<(BitCursor<'a>, OptionKind), DecodeError>)
    requires
        input.wf(),
    ensures
        yields_as(r, input, take_spec(input.buffer@, input.bit_offset as int, 8), |v: u64| OptionKind(v as u8)),
{
    let (c, v) = input.take(8)?;
    Ok((c, OptionKind(v as u8)))
}

/// A no-operation option.
#[derive(Debug, Clone, Copy, PartialEq, Eq, Structural)]
pub struct NoopOption {
    pub option_kind: OptionKind,
}

/// The layout of a no-operation option.
pub open spec fn noop_option_layout() -> Seq<FieldDef<'static>> {
    seq![
        FieldDef { width: 8, constraint: Constraint::Literal(1) },
    ]
}

fn noop_option_fields() -> (r: Vec<FieldDef<'static>>)
    ensures
        r@ == noop_option_layout(),
        layout_ok(r@),
{
    let r = vec![
        FieldDef { width: 8, constraint: Constraint::Literal(1) },
    ];
    assert(r@ =~= noop_option_layout());
    r
}

/// The record built from the field values of [`noop_option_layout`].
pub open spec fn noop_option_from(vs: Seq<u64>) -> NoopOption {
    NoopOption { option_kind: OptionKind(vs[0] as u8) }
}

/// Decoding a no-operation option at bit `pos`.
pub open spec fn noop_option_spec(bytes: Seq<u8>, pos: int) -> Result<(int, NoopOption), DecodeError> {
    map_record(record_spec(bytes, pos, noop_option_layout()), |vs: Seq<u64>| noop_option_from(vs))
}

/// Decodes a no-operation option: its kind must be 1,
/// else a `ConstraintViolation`.
pub fn parse_noop_option<'a>(input: BitCursor<'a>) -> (r: Result<(BitCursor<'a>, NoopOption), DecodeError>)
    requires
        input.wf(),
    ensures
        yields(r, input, noop_option_spec(input.buffer@, input.bit_offset as int)),
{
    let fields = noop_option_fields();
    let (c, vs) = decode_record(&input, fields.as_slice())?;
    proof {
        lemma_record_framing(input.buffer@, input.bit_offset as int, noop_option_layout());
    }
    Ok((c, NoopOption { option_kind: OptionKind(vs[0] as u8) }))
}

/// Reads the option kind field of a maximum segment size option, without checking it.
pub fn parse_maximum_segment_size_option_option_kind<'a>(input: BitCursor<'a>) -> (r: Result<(BitCursor<'a>, OptionKind), DecodeError>)
    requires
        input.wf(),
    ensures
        yields_as(r, input, take_spec(input.buffer@, input.bit_offset as int, 8), |v: u64| OptionKind(v as u8)),
{
    let (c, v) = input.take(8)?;
    Ok((c, OptionKind(v as u8)))
}

/// Reads the option length field of a maximum segment size option, without checking it.
pub fn parse_maximum_segment_size_option_option_length<'a>(input: BitCursor<'a>) -> (r: Result<(BitCursor<'a>, OptionLength), DecodeError>)
    requires
        input.wf(),
    ensures
        yields_as(r, input, take_spec(input.buffer@, input.bit_offset as int, 8), |v: u64| OptionLength(v as u8)),
{
    let (c, v) = input.take(8)?;
    Ok((c, OptionLength(v as u8)))
}

/// Reads the maximum segment size field of a maximum segment size option, without checking it.
pub fn parse_maximum_segment_size_option_maximum_segment_size<'a>(input: BitCursor<'a>) -> (r: Result<(BitCursor<'a>, MaximumSegmentSize), DecodeError>)
    requires
        input.wf(),
    ensures
        yields_as(r, input, take_spec(input.buffer@, input.bit_offset as int, 16), |v: u64| MaximumSegmentSize(v as u16)),
{
    let (c, v) = input.take(16)?;
    Ok((c, MaximumSegmentSize(v as u16)))
}

/// A maximum segment size option.
#[derive(Debug, Clone, Copy, PartialEq, Eq, Structural)]
pub struct MaximumSegmentSizeOption {
    pub option_kind: OptionKind,
    pub option_length: OptionLength,
    pub maximum_segment_size: MaximumSegmentSize,
}

/// The layout of a maximum segment size option.
pub open spec fn maximum_segment_size_option_layout() -> Seq<FieldDef<'static>> {
    seq![
        FieldDef { width: 8, constraint: Constraint::Literal(2) },
        FieldDef { width: 8, constraint: Constraint::Literal(4) },
        FieldDef { width: 16, constraint: Constraint::Unconstrained },
    ]
}

fn maximum_segment_size_option_fields() -> (r: Vec<FieldDef<'static>>)
    ensures
        r@ == maximum_segment_size_option_layout(),
        layout_ok(r@),
{
    let r = vec![
        FieldDef { width: 8, constraint: Constraint::Literal(2) },
        FieldDef { width: 8, constraint: Constraint::Literal(4) },
        FieldDef { width: 16, constraint: Constraint::Unconstrained },
    ];
    assert(r@ =~= maximum_segment_size_option_layout());
    r
}

/// The record built from the field values of [`maximum_segment_size_option_layout`].
pub open spec fn maximum_segment_size_option_from(vs: Seq<u64>) -> MaximumSegmentSizeOption {
    MaximumSegmentSizeOption { option_kind: OptionKind(vs[0] as u8), option_length: OptionLength(vs[1] as u8), maximum_segment_size: MaximumSegmentSize(vs[2] as u16) }
}

/// Decoding a maximum segment size option at bit `pos`.
pub open spec fn maximum_segment_size_option_spec(bytes: Seq<u8>, pos: int) -> Result<(int, MaximumSegmentSizeOption), DecodeError> {
    map_record(record_spec(bytes, pos, maximum_segment_size_option_layout()), |vs: Seq<u64>| maximum_segment_size_option_from(vs))
}

/// Decodes a maximum segment size option: its kind must be 2 and
/// its length 4, else a `ConstraintViolation`.
pub fn parse_maximum_segment_size_option<'a>(input: BitCursor<'a>) -> (r: Result<(BitCursor<'a>, MaximumSegmentSizeOption), DecodeError>)
    requires
        input.wf(),
    ensures
        yields(r, input, maximum_segment_size_option_spec(input.buffer@, input.bit_offset as int)),
{
    let fields = maximum_segment_size_option_fields();
    let (c, vs) = decode_record(&input, fields.as_slice())?;
    proof {
        lemma_record_framing(input.buffer@, input.bit_offset as int, maximum_segment_size_option_layout());
    }
    Ok((c, MaximumSegmentSizeOption { option_kind: OptionKind(vs[0] as u8), option_length: OptionLength(vs[1] as u8), maximum_segment_size: MaximumSegmentSize(vs[2] as u16) }))
}

/// Reads the option kind field of a window scale option, without checking it.
pub fn parse_window_scale_factor_option_option_kind<'a>(input: BitCursor<'a>) -> (r: Result<(BitCursor<'a>, OptionKind), DecodeError>)
    requires
        input.wf(),
    ensures
        yields_as(r, input, take_spec(input.buffer@, input.bit_offset as int, 8), |v: u64| OptionKind(v as u8)),
{
    let (c, v) = input.take(8)?;
    Ok((c, OptionKind(v as u8)))
}

/// Reads the option length field of a window scale option, without checking it.
pub fn parse_window_scale_factor_option_option_length<'a>(input: BitCursor<'a>) -> (r: Result<(BitCursor<'a>, OptionLength), DecodeError>)
    requires
        input.wf(),
    ensures
        yields_as(r, input, take_spec(input.buffer@, input.bit_offset as int, 8), |v: u64| OptionLength(v as u8)),
{
    let (c, v) = input.take(8)?;
    Ok((c, OptionLength(v as u8)))
}

/// Reads the window scale factor field of a window scale option, without checking it.
pub fn parse_window_scale_factor_option_window_scale_factor<'a>(input: BitCursor<'a>) -> (r: Result<(BitCursor<'a>, WindowScaleFactor), DecodeError>)
    requires
        input.wf(),
    ensures
        yields_as(r, input, take_spec(input.buffer@, input.bit_offset as int, 8), |v: u64| WindowScaleFactor(v as u8)),
{
    let (c, v) = input.take(8)?;
    Ok((c, WindowScaleFactor(v as u8)))
}

/// A window scale option.
#[derive(Debug, Clone, Copy, PartialEq, Eq, Structural)]
pub struct WindowScaleFactorOption {
    pub option_kind: OptionKind,
    pub option_length: OptionLength,
    pub window_scale_factor: WindowScaleFactor,
}

/// The layout of a window scale option.
pub open spec fn window_scale_factor_option_layout() -> Seq<FieldDef<'static>> {
    seq![
        FieldDef { width: 8, constraint: Constraint::Literal(3) },
        FieldDef { width: 8, constraint: Constraint::Literal(3) },
        FieldDef { width: 8, constraint: Constraint::Unconstrained },
    ]
}

fn window_scale_factor_option_fields() -> (r: Vec<FieldDef<'static>>)
    ensures
        r@ == window_scale_factor_option_layout(),
        layout_ok(r@),
{
    let r = vec![
        FieldDef { width: 8, constraint: Constraint::Literal(3) },
        FieldDef { width: 8, constraint: Constraint::Literal(3) },
        FieldDef { width: 8, constraint: Constraint::Unconstrained },
    ];
    assert(r@ =~= window_scale_factor_option_layout());
    r
}

/// The record built from the field values of [`window_scale_factor_option_layout`].
pub open spec fn window_scale_factor_option_from(vs: Seq<u64>) -> WindowScaleFactorOption {
    WindowScaleFactorOption { option_kind: OptionKind(vs[0] as u8), option_length: OptionLength(vs[1] as u8), window_scale_factor: WindowScaleFactor(vs[2] as u8) }
}

/// Decoding a window scale option at bit `pos`.
pub open spec fn window_scale_factor_option_spec(bytes: Seq<u8>, pos: int) -> Result<(int, WindowScaleFactorOption), DecodeError> {
    map_record(record_spec(bytes, pos, window_scale_factor_option_layout()), |vs: Seq<u64>| window_scale_factor_option_from(vs))
}

/// Decodes a window scale option: its kind must be 3 and
/// its length 3, else a `ConstraintViolation`.
pub fn parse_window_scale_factor_option<'a>(input: BitCursor<'a>) -> (r: Result<(BitCursor<'a>, WindowScaleFactorOption), DecodeError>)
    requires
        input.wf(),
    ensures
        yields(r, input, window_scale_factor_option_spec(input.buffer@, input.bit_offset as int)),
{
    let fields = window_scale_factor_option_fields();
    let (c, vs) = decode_record(&input, fields.as_slice())?;
    proof {
        lemma_record_framing(input.buffer@, input.bit_offset as int, window_scale_factor_option_layout());
    }
    Ok((c, WindowScaleFactorOption { option_kind: OptionKind(vs[0] as u8), option_length: OptionLength(vs[1] as u8), window_scale_factor: WindowScaleFactor(vs[2] as u8) }))
}

/// Reads the option kind field of a SACK-permitted option, without checking it.
pub fn parse_sack_permitted_option_option_kind<'a>(input: BitCursor<'a>) -> (r: Result<(BitCursor<'a>, OptionKind), DecodeError>)
    requires
        input.wf(),
    ensures
        yields_as(r, input, take_spec(input.buffer@, input.bit_offset as int, 8), |v: u64| OptionKind(v as u8)),
{
    let (c, v) = input.take(8)?;
    Ok((c, OptionKind(v as u8)))
}

/// Reads the option length field of a SACK-permitted option, without checking it.
pub fn parse_sack_permitted_option_option_length<'a>(input: BitCursor<'a>) -> (r: Result<(BitCursor<'a>, OptionLength), DecodeError>)
    requires
        input.wf(),
    ensures
        yields_as(r, input, take_spec(input.buffer@, input.bit_offset as int, 8), |v: u64| OptionLength(v as u8)),
{
    let (c, v) = input.take(8)?;
    Ok((c, OptionLength(v as u8)))
}

/// A SACK-permitted option.
#[derive(Debug, Clone, Copy, PartialEq, Eq, Structural)]
pub struct SackPermittedOption {
    pub option_kind: OptionKind,
    pub option_length: OptionLength,
}

/// The layout of a SACK-permitted option.
pub open spec fn sack_permitted_option_layout() -> Seq<FieldDef<'static>> {
    seq![
        FieldDef { width: 8, constraint: Constraint::Literal(4) },
        FieldDef { width: 8, constraint: Constraint::Literal(2) },
    ]
}

fn sack_permitted_option_fields() -> (r: Vec<FieldDef<'static>>)
    ensures
        r@ == sack_permitted_option_layout(),
        layout_ok(r@),
{
    let r = vec![
        FieldDef { width: 8, constraint: Constraint::Literal(4) },
        FieldDef { width: 8, constraint: Constraint::Literal(2) },
    ];
    assert(r@ =~= sack_permitted_option_layout());
    r
}

/// The record built from the field values of [`sack_permitted_option_layout`].
pub open spec fn sack_permitted_option_from(vs: Seq<u64>) -> SackPermittedOption {
    SackPermittedOption { option_kind: OptionKind(vs[0] as u8), option_length: OptionLength(vs[1] as u8) }
}

/// Decoding a SACK-permitted option at bit `pos`.
pub open spec fn sack_permitted_option_spec(bytes: Seq<u8>, pos: int) -> Result<(int, SackPermittedOption), DecodeError> {
    map_record(record_spec(bytes, pos, sack_permitted_option_layout()), |vs: Seq<u64>| sack_permitted_option_from(vs))
}

/// Decodes a SACK-permitted option: its kind must be 4 and
/// its length 2, else a `ConstraintViolation`.
pub fn parse_sack_permitted_option<'a>(input: BitCursor<'a>) -> (r: Result<(BitCursor<'a>, SackPermittedOption), DecodeError>)
    requires
        input.wf(),
    ensures
        yields(r, input, sack_permitted_option_spec(input.buffer@, input.bit_offset as int)),
{
    let fields = sack_permitted_option_fields();
    let (c, vs) = decode_record(&input, fields.as_slice())?;
    proof {
        lemma_record_framing(input.buffer@, input.bit_offset as int, sack_permitted_option_layout());
    }
    Ok((c, SackPermittedOption { option_kind: OptionKind(vs[0] as u8), option_length: OptionLength(vs[1] as u8) }))
}

/// Reads the option kind field of a timestamp option, without checking it.
pub fn parse_timestamp_option_option_kind<'a>(input: BitCursor<'a>) -> (r: Result<(BitCursor<'a>, OptionKind), DecodeError>)
    requires
        input.wf(),
    ensures
        yields_as(r, input, take_spec(input.buffer@, input.bit_offset as int, 8), |v: u64| OptionKind(v as u8)),
{
    let (c, v) = input.take(8)?;
    Ok((c, OptionKind(v as u8)))
}

/// Reads the option length field of a timestamp option, without checking it.
pub fn parse_timestamp_option_option_length<'a>(input: BitCursor<'a>) -> (r: Result<(BitCursor<'a>, OptionLength), DecodeError>)
    requires
        input.wf(),
    ensures
        yields_as(r, input, take_spec(input.buffer@, input.bit_offset as int, 8), |v: u64| OptionLength(v as u8)),
{
    let (c, v) = input.take(8)?;
    Ok((c, OptionLength(v as u8)))
}

/// Reads the timestamp value field of a timestamp option, without checking it.
pub fn parse_timestamp_option_timestamp_value<'a>(input: BitCursor<'a>) -> (r: Result<(BitCursor<'a>, TimestampValue), DecodeError>)
    requires
        input.wf(),
    ensures
        yields_as(r, input, take_spec(input.buffer@, input.bit_offset as int, 32), |v: u64| TimestampValue(v as u32)),
{
    let (c, v) = input.take(32)?;
    Ok((c, TimestampValue(v as u32)))
}

/// Reads the timestamp echo reply field of a timestamp option, without checking it.
pub fn parse_timestamp_option_timestamp_echo_reply<'a>(input: BitCursor<'a>) -> (r: Result<(BitCursor<'a>, TimestampEchoReply), DecodeError>)
    requires
        input.wf(),
    ensures
        yields_as(r, input, take_spec(input.buffer@, input.bit_offset as int, 32), |v: u64| TimestampEchoReply(v as u32)),
{
    let (c, v) = input.take(32)?;
    Ok((c, TimestampEchoReply(v as u32)))
}

/// A timestamp option.
#[derive(Debug, Clone, Copy, PartialEq, Eq, Structural)]
pub struct TimestampOption {
    pub option_kind: OptionKind,
    pub option_length: OptionLength,
    pub timestamp_value: TimestampValue,
    pub timestamp_echo_reply: TimestampEchoReply,
}

/// The layout of a timestamp option.
pub open spec fn timestamp_option_layout() -> Seq<FieldDef<'static>> {
    seq![
        FieldDef { width: 8, constraint: Constraint::Literal(8) },
        FieldDef { width: 8, constraint: Constraint::Literal(10) },
        FieldDef { width: 32, constraint: Constraint::Unconstrained },
        FieldDef { width: 32, constraint: Constraint::Unconstrained },
    ]
}

fn timestamp_option_fields() -> (r: Vec<FieldDef<'static>>)
    ensures
        r@ == timestamp_option_layout(),
        layout_ok(r@),
{
    let r = vec![
        FieldDef { width: 8, constraint: Constraint::Literal(8) },
        FieldDef { width: 8, constraint: Constraint::Literal(10) },
        FieldDef { width: 32, constraint: Constraint::Unconstrained },
        FieldDef { width: 32, constraint: Constraint::Unconstrained },
    ];
    assert(r@ =~= timestamp_option_layout());
    r
}

/// The record built from the field values of [`timestamp_option_layout`].
pub open spec fn timestamp_option_from(vs: Seq<u64>) -> TimestampOption {
    TimestampOption { option_kind: OptionKind(vs[0] as u8), option_length: OptionLength(vs[1] as u8), timestamp_value: TimestampValue(vs[2] as u32), timestamp_echo_reply: TimestampEchoReply(vs[3] as u32) }
}

/// Decoding a timestamp option at bit `pos`.
pub open spec fn timestamp_option_spec(bytes: Seq<u8>, pos: int) -> Result<(int, TimestampOption), DecodeError> {
    map_record(record_spec(bytes, pos, timestamp_option_layout()), |vs: Seq<u64>| timestamp_option_from(vs))
}

/// Decodes a timestamp option: its kind must be 8 and
/// its length 10, else a `ConstraintViolation`.
pub fn parse_timestamp_option<'a>(input: BitCursor<'a>) -> (r: Result<(BitCursor<'a>, TimestampOption), DecodeError>)
    requires
        input.wf(),
    ensures
        yields(r, input, timestamp_option_spec(input.buffer@, input.bit_offset as int)),
{
    let fields = timestamp_option_fields();
    let (c, vs) = decode_record(&input, fields.as_slice())?;
    proof {
        lemma_record_framing(input.buffer@, input.bit_offset as int, timestamp_option_layout());
    }
    Ok((c, TimestampOption { option_kind: OptionKind(vs[0] as u8), option_length: OptionLength(vs[1] as u8), timestamp_value: TimestampValue(vs[2] as u32), timestamp_echo_reply: TimestampEchoReply(vs[3] as u32) }))
}

/// The kind and length that start a SACK option.
pub open spec fn sack_range_head_layout() -> Seq<FieldDef<'static>> {
    seq![
        FieldDef { width: 8, constraint: Constraint::Literal(5) },
        FieldDef { width: 8, constraint: Constraint::Unconstrained },
    ]
}

fn sack_range_head_fields() -> (r: Vec<FieldDef<'static>>)
    ensures
        r@ == sack_range_head_layout(),
        layout_ok(r@),
{
    let r = vec![
        FieldDef { width: 8, constraint: Constraint::Literal(5) },
        FieldDef { width: 8, constraint: Constraint::Unconstrained },
    ];
    assert(r@ =~= sack_range_head_layout());
    r
}

/// One acknowledged block of a SACK option.
pub open spec fn sack_block_layout() -> Seq<FieldDef<'static>> {
    seq![
        FieldDef { width: 32, constraint: Constraint::Unconstrained },
        FieldDef { width: 32, constraint: Constraint::Unconstrained },
    ]
}

fn sack_block_fields() -> (r: Vec<FieldDef<'static>>)
    ensures
        r@ == sack_block_layout(),
        layout_ok(r@),
{
    let r = vec![
        FieldDef { width: 32, constraint: Constraint::Unconstrained },
        FieldDef { width: 32, constraint: Constraint::Unconstrained },
    ];
    assert(r@ =~= sack_block_layout());
    r
}


/// Decoding `f` applied to the value that `r` decoded.
pub open spec fn map_outcome<S, T>(r: Result<(int, S), DecodeError>, f: spec_fn(S) -> T) -> Result<
    (int, T),
    DecodeError,
> {
    match r {
        Ok((p, v)) => Ok((p, f(v))),
        Err(e) => Err(e),
    }
}

/// One block of sequence numbers that a SACK option acknowledges.
#[derive(Debug, Clone, Copy, PartialEq, Eq, Structural)]
pub struct SackBlock {
    pub left_edge: u32,
    pub right_edge: u32,
}

/// A SACK option: its kind, its length and the blocks that the length counts.
#[derive(Debug, Clone, PartialEq, Eq)]
pub struct SackRangeOption {
    pub option_kind: OptionKind,
    pub option_length: OptionLength,
    pub blocks: Vec<SackBlock>,
}

/// A SACK option as a value of the model.
pub struct SackRangeView {
    pub option_kind: OptionKind,
    pub option_length: OptionLength,
    pub blocks: Seq<SackBlock>,
}

impl View for SackRangeOption {
    type V = SackRangeView;

    open spec fn view(&self) -> SackRangeView {
        SackRangeView {
            option_kind: self.option_kind,
            option_length: self.option_length,
            blocks: self.blocks@,
        }
    }
}

/// A SACK option's length counts its two leading bytes and at least one
/// block of eight bytes.
pub open spec fn sack_length_ok(len: u64) -> bool {
    len >= 10 && (len - 2) % 8 == 0
}

/// Decoding `n` SACK blocks from bit `pos`.
pub open spec fn sack_blocks_spec(bytes: Seq<u8>, pos: int, n: nat) -> Result<
    (int, Seq<SackBlock>),
    DecodeError,
>
    decreases n,
{
    if n == 0 {
        Ok((pos, Seq::empty()))
    } else {
        match record_spec(bytes, pos, sack_block_layout()) {
            Ok((p, vs)) => match sack_blocks_spec(bytes, p, (n - 1) as nat) {
                Ok((q, bs)) => Ok(
                    (q, seq![SackBlock { left_edge: vs[0] as u32, right_edge: vs[1] as u32 }] + bs),
                ),
                Err(e) => Err(e),
            },
            Err(e) => Err(e),
        }
    }
}

/// Decoding a SACK option at bit `pos`.
pub open spec fn sack_range_option_spec(bytes: Seq<u8>, pos: int) -> Result<
    (int, SackRangeView),
    DecodeError,
> {
    match record_spec(bytes, pos, sack_range_head_layout()) {
        Ok((p, vs)) => if !sack_length_ok(vs[1]) {
            Err(DecodeError::ConstraintViolation { bit_offset: (pos + 8) as usize })
        } else {
            match sack_blocks_spec(bytes, p, ((vs[1] - 2) / 8) as nat) {
                Ok((q, bs)) => Ok(
                    (
                        q,
                        SackRangeView {
                            option_kind: OptionKind(vs[0] as u8),
                            option_length: OptionLength(vs[1] as u8),
                            blocks: bs,
                        },
                    ),
                ),
                Err(e) => Err(e),
            }
        },
        Err(e) => Err(e),
    }
}

/// Decoded SACK blocks take eight bytes each.
pub proof fn lemma_sack_blocks_width(bytes: Seq<u8>, pos: int, n: nat)
    requires
        sack_blocks_spec(bytes, pos, n) is Ok,
    ensures
        sack_blocks_spec(bytes, pos, n)->Ok_0.0 == pos + 64 * n,
    decreases n,
{
    if n > 0 {
        lemma_record_framing(bytes, pos, sack_block_layout());
        reveal_with_fuel(crate::record::layout_bits, 3);
        let p = record_spec(bytes, pos, sack_block_layout())->Ok_0.0;
        lemma_sack_blocks_width(bytes, p, (n - 1) as nat);
    }
}

/// Decodes `n` SACK blocks.
fn decode_sack_blocks<'a>(input: &BitCursor<'a>, n: usize) -> (r: Result<
    (BitCursor<'a>, Vec<SackBlock>),
    DecodeError,
>)
    requires
        input.wf(),
    ensures
        match (r, sack_blocks_spec(input.buffer@, input.bit_offset as int, n as nat)) {
            (Ok((c, bs)), Ok((p, ws))) => c.buffer == input.buffer && c.bit_offset == p && c.wf()
                && bs@ == ws,
            (Err(e), Err(f)) => e == f,
            _ => false,
        },
{
    let fields = sack_block_fields();
    let mut blocks: Vec<SackBlock> = Vec::new();
    let mut at = *input;
    let mut i: usize = 0;
    proof {
        match sack_blocks_spec(input.buffer@, input.bit_offset as int, n as nat) {
            Ok((q, bs)) => {
                assert(blocks@ + bs =~= bs);
            },
            Err(_) => {},
        }
    }
    while i < n
        invariant
            i <= n,
            fields@ == sack_block_layout(),
            layout_ok(fields@),
            at.wf(),
            at.buffer == input.buffer,
            match sack_blocks_spec(input.buffer@, input.bit_offset as int, n as nat) {
                Ok((q, bs)) => match sack_blocks_spec(input.buffer@, at.bit_offset as int, (n - i) as nat) {
                    Ok((q2, bs2)) => q == q2 && bs == blocks@ + bs2,
                    Err(_) => false,
                },
                Err(e) => sack_blocks_spec(input.buffer@, at.bit_offset as int, (n - i) as nat)
                    == Err::<(int, Seq<SackBlock>), DecodeError>(e),
            },
        decreases n - i,
    {
        let ghost before = blocks@;
        match decode_record(&at, fields.as_slice()) {
            Ok((next, vs)) => {
                proof {
                    lemma_record_framing(at.buffer@, at.bit_offset as int, sack_block_layout());
                }
                let b = SackBlock { left_edge: vs[0] as u32, right_edge: vs[1] as u32 };
                blocks.push(b);
                proof {
                    match sack_blocks_spec(input.buffer@, next.bit_offset as int, (n - i - 1) as nat) {
                        Ok((q, bs)) => {
                            assert(before + (seq![b] + bs) =~= blocks@ + bs);
                        },
                        Err(_) => {},
                    }
                }
                at = next;
            },
            Err(e) => {
                return Err(e);
            },
        }
        i = i + 1;
    }
    proof {
        match sack_blocks_spec(input.buffer@, input.bit_offset as int, n as nat) {
            Ok((q, bs)) => {
                assert(blocks@ + Seq::<SackBlock>::empty() =~= blocks@);
            },
            Err(_) => {},
        }
    }
    Ok((at, blocks))
}

/// Decodes a SACK option: kind 5, then a length that counts the two leading
/// bytes and a whole number of eight-byte blocks (else `ConstraintViolation`),
/// then the blocks.
pub fn parse_sack_range_option<'a>(input: BitCursor<'a>) -> (r: Result<
    (BitCursor<'a>, SackRangeOption),
    DecodeError,
>)
    requires
        input.wf(),
    ensures
        yields_view(r, input, sack_range_option_spec(input.buffer@, input.bit_offset as int)),
{
    let head = sack_range_head_fields();
    let (c, vs) = decode_record(&input, head.as_slice())?;
    proof {
        lemma_record_framing(input.buffer@, input.bit_offset as int, sack_range_head_layout());
        lemma_record_values_bound(input.buffer@, input.bit_offset as int, sack_range_head_layout());
        lemma2_to64();
        assert(vs@[1] < 256);
    }
    let len = vs[1];
    if len < 10 || (len - 2) % 8 != 0 {
        return Err(DecodeError::ConstraintViolation { bit_offset: input.bit_offset + 8 });
    }
    let n = ((len - 2) / 8) as usize;
    let (c2, blocks) = decode_sack_blocks(&c, n)?;
    Ok((
        c2,
        SackRangeOption {
            option_kind: OptionKind(vs[0] as u8),
            option_length: OptionLength(vs[1] as u8),
            blocks,
        },
    ))
}

} // verus!
