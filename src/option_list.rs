use vstd::prelude::*;

use crate::bits::{take_spec, yields_view, BitCursor};
use crate::error::DecodeError;
use crate::record::{layout_bits, lemma_record_framing, record_spec};
use crate::tcp_option::{
    eol_option_spec, map_outcome, maximum_segment_size_option_spec, noop_option_spec,
    parse_eol_option, parse_maximum_segment_size_option, parse_noop_option,
    parse_sack_permitted_option, parse_sack_range_option, parse_timestamp_option,
    parse_window_scale_factor_option, sack_permitted_option_spec, sack_range_option_spec,
    timestamp_option_spec, window_scale_factor_option_spec, sack_length_ok, noop_option_layout,
    maximum_segment_size_option_layout, window_scale_factor_option_layout,
    sack_permitted_option_layout, timestamp_option_layout, sack_range_head_layout,
    lemma_sack_blocks_width, EolOption, MaximumSegmentSizeOption,
    NoopOption, SackPermittedOption, SackRangeOption, SackRangeView, TimestampOption,
    WindowScaleFactorOption,
};

verus! {

/// Any one TCP option.
#[derive(Debug, Clone, PartialEq, Eq)]
pub enum TcpOption {
    EolOption(EolOption),
    NoopOption(NoopOption),
    MaximumSegmentSizeOption(MaximumSegmentSizeOption),
    WindowScaleFactorOption(WindowScaleFactorOption),
    TimestampOption(TimestampOption),
    SackPermittedOption(SackPermittedOption),
    SackRangeOption(SackRangeOption),
}

/// A TCP option as a value of the model.
pub enum TcpOptionView {
    EolOption(EolOption),
    NoopOption(NoopOption),
    MaximumSegmentSizeOption(MaximumSegmentSizeOption),
    WindowScaleFactorOption(WindowScaleFactorOption),
    TimestampOption(TimestampOption),
    SackPermittedOption(SackPermittedOption),
    SackRangeOption(SackRangeView),
}

impl View for TcpOption {
    type V = TcpOptionView;

    open spec fn view(&self) -> TcpOptionView {
        match self {
            TcpOption::EolOption(o) => TcpOptionView::EolOption(*o),
            TcpOption::NoopOption(o) => TcpOptionView::NoopOption(*o),
            TcpOption::MaximumSegmentSizeOption(o) => TcpOptionView::MaximumSegmentSizeOption(*o),
            TcpOption::WindowScaleFactorOption(o) => TcpOptionView::WindowScaleFactorOption(*o),
            TcpOption::TimestampOption(o) => TcpOptionView::TimestampOption(*o),
            TcpOption::SackPermittedOption(o) => TcpOptionView::SackPermittedOption(*o),
            TcpOption::SackRangeOption(o) => TcpOptionView::SackRangeOption(o@),
        }
    }
}

/// The views of a sequence of options.
pub open spec fn options_view(os: Seq<TcpOption>) -> Seq<TcpOptionView> {
    os.map_values(|o: TcpOption| o@)
}

/// Decoding a single option at bit `pos`, whichever kind it is: the
/// candidates are tried in a fixed order and the first that decodes wins.
pub open spec fn tcp_option_spec(bytes: Seq<u8>, pos: int) -> Result<(int, TcpOptionView), DecodeError> {
    if eol_option_spec(bytes, pos) is Ok {
        map_outcome(eol_option_spec(bytes, pos), |o| TcpOptionView::EolOption(o))
    } else if noop_option_spec(bytes, pos) is Ok {
        map_outcome(noop_option_spec(bytes, pos), |o| TcpOptionView::NoopOption(o))
    } else if maximum_segment_size_option_spec(bytes, pos) is Ok {
        map_outcome(
            maximum_segment_size_option_spec(bytes, pos),
            |o| TcpOptionView::MaximumSegmentSizeOption(o),
        )
    } else if window_scale_factor_option_spec(bytes, pos) is Ok {
        map_outcome(
            window_scale_factor_option_spec(bytes, pos),
            |o| TcpOptionView::WindowScaleFactorOption(o),
        )
    } else if timestamp_option_spec(bytes, pos) is Ok {
        map_outcome(timestamp_option_spec(bytes, pos), |o| TcpOptionView::TimestampOption(o))
    } else if sack_permitted_option_spec(bytes, pos) is Ok {
        map_outcome(
            sack_permitted_option_spec(bytes, pos),
            |o| TcpOptionView::SackPermittedOption(o),
        )
    } else if sack_range_option_spec(bytes, pos) is Ok {
        map_outcome(sack_range_option_spec(bytes, pos), |o| TcpOptionView::SackRangeOption(o))
    } else {
        Err(DecodeError::NoMatchingVariant)
    }
}

/// Decodes one option of any kind by trying each kind's decoder in turn from
/// the same position; `NoMatchingVariant` where none of them decodes.
pub fn parse_tcp_option<'a>(input: BitCursor<'a>) -> (r: Result<(BitCursor<'a>, TcpOption), DecodeError>)
    requires
        input.wf(),
    ensures
        yields_view(r, input, tcp_option_spec(input.buffer@, input.bit_offset as int)),
{
    if let Ok((c, o)) = parse_eol_option(input) {
        return Ok((c, TcpOption::EolOption(o)));
    }
    if let Ok((c, o)) = parse_noop_option(input) {
        return Ok((c, TcpOption::NoopOption(o)));
    }
    if let Ok((c, o)) = parse_maximum_segment_size_option(input) {
        return Ok((c, TcpOption::MaximumSegmentSizeOption(o)));
    }
    if let Ok((c, o)) = parse_window_scale_factor_option(input) {
        return Ok((c, TcpOption::WindowScaleFactorOption(o)));
    }
    if let Ok((c, o)) = parse_timestamp_option(input) {
        return Ok((c, TcpOption::TimestampOption(o)));
    }
    if let Ok((c, o)) = parse_sack_permitted_option(input) {
        return Ok((c, TcpOption::SackPermittedOption(o)));
    }
    if let Ok((c, o)) = parse_sack_range_option(input) {
        return Ok((c, TcpOption::SackRangeOption(o)));
    }
    Err(DecodeError::NoMatchingVariant)
}


/// The kinds that carry a length byte and a body.
pub open spec fn kind_has_body(kind: u64) -> bool {
    kind == 2 || kind == 3 || kind == 4 || kind == 5 || kind == 8
}

/// Whether `len` is a length that an option of kind `kind` may declare.
pub open spec fn length_fits_kind(kind: u64, len: u64) -> bool {
    if kind == 2 {
        len == 4
    } else if kind == 3 {
        len == 3
    } else if kind == 4 {
        len == 2
    } else if kind == 8 {
        len == 10
    } else {
        sack_length_ok(len)
    }
}

/// Decoding the option of kind `kind` (one with a body, or a no-operation)
/// that starts at bit `pos`.
pub open spec fn option_body_spec(bytes: Seq<u8>, pos: int, kind: u64) -> Result<
    (int, Option<TcpOptionView>),
    DecodeError,
> {
    if kind == 1 {
        map_outcome(noop_option_spec(bytes, pos), |o| Some(TcpOptionView::NoopOption(o)))
    } else if kind == 2 {
        map_outcome(
            maximum_segment_size_option_spec(bytes, pos),
            |o| Some(TcpOptionView::MaximumSegmentSizeOption(o)),
        )
    } else if kind == 3 {
        map_outcome(
            window_scale_factor_option_spec(bytes, pos),
            |o| Some(TcpOptionView::WindowScaleFactorOption(o)),
        )
    } else if kind == 4 {
        map_outcome(
            sack_permitted_option_spec(bytes, pos),
            |o| Some(TcpOptionView::SackPermittedOption(o)),
        )
    } else if kind == 8 {
        map_outcome(timestamp_option_spec(bytes, pos), |o| Some(TcpOptionView::TimestampOption(o)))
    } else {
        map_outcome(sack_range_option_spec(bytes, pos), |o| Some(TcpOptionView::SackRangeOption(o)))
    }
}

/// Decoding one entry of an option list at bit `pos`, with the list's budget
/// ending at bit `end`. `None` stands for the end-of-list marker.
pub open spec fn option_entry_spec(bytes: Seq<u8>, pos: int, end: int) -> Result<
    (int, Option<TcpOptionView>),
    DecodeError,
> {
    if pos + 8 > end {
        Err(DecodeError::InsufficientData { bit_offset: pos as usize })
    } else {
        match take_spec(bytes, pos, 8) {
            Ok((p1, kind)) => if kind == 0 {
                Ok((p1, None))
            } else if kind == 1 {
                option_body_spec(bytes, pos, kind)
            } else if !kind_has_body(kind) {
                Err(DecodeError::UnknownDiscriminant { bit_offset: pos as usize })
            } else if p1 + 8 > end {
                Err(DecodeError::InsufficientData { bit_offset: p1 as usize })
            } else {
                match take_spec(bytes, p1, 8) {
                    Ok((_, len)) => if !length_fits_kind(kind, len) || pos + 8 * len > end {
                        Err(DecodeError::ConstraintViolation { bit_offset: p1 as usize })
                    } else {
                        option_body_spec(bytes, pos, kind)
                    },
                    Err(e) => Err(e),
                }
            },
            Err(e) => Err(e),
        }
    }
}

/// Decoding an option list from bit `pos` with a budget that ends at bit
/// `end`: entries follow one another until the budget is used up or the
/// end-of-list marker is read.
pub open spec fn option_list_spec(bytes: Seq<u8>, pos: int, end: int) -> Result<
    (int, Seq<TcpOptionView>),
    DecodeError,
>
    decreases end - pos,
{
    if pos >= end {
        Ok((pos, Seq::empty()))
    } else {
        match option_entry_spec(bytes, pos, end) {
            Ok((p, None)) => Ok((p, Seq::empty())),
            Ok((p, Some(o))) => if p <= pos || p > end {
                Err(DecodeError::InternalDefinitionError)
            } else {
                match option_list_spec(bytes, p, end) {
                    Ok((q, os)) => Ok((q, seq![o] + os)),
                    Err(e) => Err(e),
                }
            },
            Err(e) => Err(e),
        }
    }
}

/// An entry of an option list ends after it starts and within the budget:
/// its body takes exactly the bytes that its length declares.
pub proof fn lemma_option_entry_bounds(bytes: Seq<u8>, pos: int, end: int)
    requires
        option_entry_spec(bytes, pos, end) is Ok,
    ensures
        pos < option_entry_spec(bytes, pos, end)->Ok_0.0 <= end,
{
    reveal_with_fuel(layout_bits, 5);
    reveal_with_fuel(record_spec, 3);
    let kind = take_spec(bytes, pos, 8)->Ok_0.1;
    if kind == 1 {
        lemma_record_framing(bytes, pos, noop_option_layout());
    } else if kind == 2 {
        lemma_record_framing(bytes, pos, maximum_segment_size_option_layout());
    } else if kind == 3 {
        lemma_record_framing(bytes, pos, window_scale_factor_option_layout());
    } else if kind == 4 {
        lemma_record_framing(bytes, pos, sack_permitted_option_layout());
    } else if kind == 8 {
        lemma_record_framing(bytes, pos, timestamp_option_layout());
    } else if kind == 5 {
        let head = sack_range_head_layout();
        lemma_record_framing(bytes, pos, head);
        let (p, vs) = record_spec(bytes, pos, head)->Ok_0;
        assert(head.drop_first() =~= seq![head[1]]);
        assert(seq![head[1]].drop_first() =~= Seq::<crate::record::FieldDef>::empty());
        let len = vs[1];
        lemma_sack_blocks_width(bytes, p, ((len - 2) / 8) as nat);
        assert(8 * ((len - 2) / 8) == len - 2);
    }
}

/// An option list never reads beyond its budget.
pub proof fn lemma_option_list_within_budget(bytes: Seq<u8>, pos: int, end: int)
    requires
        pos <= end,
        option_list_spec(bytes, pos, end) is Ok,
    ensures
        pos <= option_list_spec(bytes, pos, end)->Ok_0.0 <= end,
    decreases end - pos,
{
    if pos < end {
        lemma_option_entry_bounds(bytes, pos, end);
        let (p, o) = option_entry_spec(bytes, pos, end)->Ok_0;
        if o is Some {
            lemma_option_list_within_budget(bytes, p, end);
        }
    }
}


/// The view of an optional option.
pub open spec fn entry_view(o: Option<TcpOption>) -> Option<TcpOptionView> {
    match o {
        Some(x) => Some(x@),
        None => None,
    }
}

/// Decodes one entry of an option list whose budget ends at bit `end`.
fn decode_option_entry<'a>(at: BitCursor<'a>, end: usize) -> (r: Result<
    (BitCursor<'a>, Option<TcpOption>),
    DecodeError,
>)
    requires
        at.wf(),
        at.bit_offset < end,
    ensures
        match (r, option_entry_spec(at.buffer@, at.bit_offset as int, end as int)) {
            (Ok((c, o)), Ok((p, w))) => c.buffer == at.buffer && c.bit_offset == p && c.wf()
                && entry_view(o) == w,
            (Err(e), Err(f)) => e == f,
            _ => false,
        },
{
    if end - at.bit_offset < 8 {
        return Err(DecodeError::InsufficientData { bit_offset: at.bit_offset });
    }
    let (c1, kind) = at.take(8)?;
    if kind == 0 {
        return Ok((c1, None));
    }
    if kind == 1 {
        let (c, o) = parse_noop_option(at)?;
        return Ok((c, Some(TcpOption::NoopOption(o))));
    }
    if !(kind == 2 || kind == 3 || kind == 4 || kind == 5 || kind == 8) {
        return Err(DecodeError::UnknownDiscriminant { bit_offset: at.bit_offset });
    }
    if end - c1.bit_offset < 8 {
        return Err(DecodeError::InsufficientData { bit_offset: c1.bit_offset });
    }
    let (_, len) = c1.take(8)?;
    let fits = if kind == 2 {
        len == 4
    } else if kind == 3 {
        len == 3
    } else if kind == 4 {
        len == 2
    } else if kind == 8 {
        len == 10
    } else {
        len >= 10 && (len - 2) % 8 == 0
    };
    if !fits || len > ((end - at.bit_offset) / 8) as u64 {
        return Err(DecodeError::ConstraintViolation { bit_offset: c1.bit_offset });
    }
    if kind == 2 {
        let (c, o) = parse_maximum_segment_size_option(at)?;
        Ok((c, Some(TcpOption::MaximumSegmentSizeOption(o))))
    } else if kind == 3 {
        let (c, o) = parse_window_scale_factor_option(at)?;
        Ok((c, Some(TcpOption::WindowScaleFactorOption(o))))
    } else if kind == 4 {
        let (c, o) = parse_sack_permitted_option(at)?;
        Ok((c, Some(TcpOption::SackPermittedOption(o))))
    } else if kind == 8 {
        let (c, o) = parse_timestamp_option(at)?;
        Ok((c, Some(TcpOption::TimestampOption(o))))
    } else {
        let (c, o) = parse_sack_range_option(at)?;
        Ok((c, Some(TcpOption::SackRangeOption(o))))
    }
}

/// `r` with the options `prefix` put before those it holds.
pub open spec fn prepend_options(
    prefix: Seq<TcpOptionView>,
    r: Result<(int, Seq<TcpOptionView>), DecodeError>,
) -> Result<(int, Seq<TcpOptionView>), DecodeError> {
    match r {
        Ok((q, os)) => Ok((q, prefix + os)),
        Err(e) => Err(e),
    }
}

/// Decodes a list of options that may take up to `budget` bytes. The list
/// ends when the budget is used up or at the end-of-list marker, which is
/// consumed but not recorded; bytes of the budget left after the marker are
/// not read. Reading past the budget is an `InsufficientData` even where the
/// buffer goes on, and an option whose length runs past the budget is a
/// `ConstraintViolation`.
pub fn decode_option_list<'a>(input: BitCursor<'a>, budget: usize) -> (r: Result<
    (BitCursor<'a>, Vec<TcpOption>),
    DecodeError,
>)
    requires
        input.wf(),
        input.bit_offset + 8 * budget <= usize::MAX,
    ensures
        match (
            r,
            option_list_spec(
                input.buffer@,
                input.bit_offset as int,
                input.bit_offset + 8 * budget,
            ),
        ) {
            (Ok((c, os)), Ok((p, ws))) => c.buffer == input.buffer && c.bit_offset == p && c.wf()
                && options_view(os@) == ws,
            (Err(e), Err(f)) => e == f,
            _ => false,
        },
        r is Ok ==> r->Ok_0.0.bit_offset <= input.bit_offset + 8 * budget,
{
    let end = input.bit_offset + 8 * budget;
    let ghost bytes = input.buffer@;
    let ghost start = input.bit_offset as int;
    let mut options: Vec<TcpOption> = Vec::new();
    let mut at = input;
    proof {
        match option_list_spec(bytes, start, end as int) {
            Ok((q, os)) => {
                assert(options_view(options@) + os =~= os);
            },
            Err(_) => {},
        }
    }
    while at.bit_offset < end
        invariant
            at.wf(),
            at.buffer == input.buffer,
            input.bit_offset <= at.bit_offset <= end,
            end == input.bit_offset + 8 * budget,
            bytes == input.buffer@,
            start == input.bit_offset,
            option_list_spec(bytes, start, end as int) == prepend_options(
                options_view(options@),
                option_list_spec(bytes, at.bit_offset as int, end as int),
            ),
        decreases end - at.bit_offset,
    {
        let ghost before = options_view(options@);
        let (next, entry) = decode_option_entry(at, end)?;
        proof {
            lemma_option_entry_bounds(bytes, at.bit_offset as int, end as int);
        }
        match entry {
            None => {
                proof {
                    assert(options_view(options@) + Seq::<TcpOptionView>::empty() =~= options_view(
                        options@,
                    ));
                    lemma_option_list_within_budget(bytes, start, end as int);
                }
                return Ok((next, options));
            },
            Some(o) => {
                options.push(o);
                proof {
                    assert(options_view(options@) =~= before + seq![o@]);
                    match option_list_spec(bytes, next.bit_offset as int, end as int) {
                        Ok((q, os)) => {
                            assert(before + (seq![o@] + os) =~= options_view(options@) + os);
                        },
                        Err(_) => {},
                    }
                }
                at = next;
            },
        }
    }
    proof {
        assert(options_view(options@) + Seq::<TcpOptionView>::empty() =~= options_view(options@));
        lemma_option_list_within_budget(bytes, start, end as int);
    }
    Ok((at, options))
}


/// An option whose declared length runs past what is left of the budget is a
/// `ConstraintViolation` at its length byte, not an `InsufficientData`, even
/// where the buffer holds the bytes.
pub proof fn lemma_option_overrun(bytes: Seq<u8>, pos: int, end: int)
    requires
        pos + 16 <= end,
        pos + 16 <= bytes.len() * 8,
        0 <= pos,
        kind_has_body(take_spec(bytes, pos, 8)->Ok_0.1),
        pos + 8 * take_spec(bytes, pos + 8, 8)->Ok_0.1 > end,
    ensures
        option_entry_spec(bytes, pos, end) == Err::<(int, Option<TcpOptionView>), DecodeError>(
            DecodeError::ConstraintViolation { bit_offset: (pos + 8) as usize },
        ),
{
}

} // verus!
