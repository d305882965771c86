use vstd::prelude::*;

use crate::bits::{yields_view, BitCursor};
use crate::context::Context;
use crate::error::DecodeError;
use crate::tcp::{parse_tcp_header, tcp_header_spec, TcpHeader, TcpHeaderView};
use crate::udp::{parse_udp_header, udp_header_spec, UdpHeader, UdpHeaderView};

verus! {

/// A decoded message: exactly one of the formats that the dispatcher knows.
#[derive(Debug, Clone, PartialEq, Eq)]
pub enum Pdu<'a> {
    TcpHeader(TcpHeader<'a>),
    UdpHeader(UdpHeader<'a>),
}

/// A decoded message as a value of the model.
pub enum PduView {
    TcpHeader(TcpHeaderView),
    UdpHeader(UdpHeaderView),
}

impl<'a> View for Pdu<'a> {
    type V = PduView;

    open spec fn view(&self) -> PduView {
        match self {
            Pdu::TcpHeader(h) => PduView::TcpHeader(h@),
            Pdu::UdpHeader(h) => PduView::UdpHeader(h@),
        }
    }
}

/// Dispatching a message at bit `pos` of `declared` bits: the candidate
/// formats are tried in order, each from the same position, and the first
/// that decodes is the result; `NoMatchingVariant` where none does.
pub open spec fn pdu_spec(bytes: Seq<u8>, pos: int, declared: int) -> Result<(int, PduView), DecodeError> {
    match tcp_header_spec(bytes, pos, declared) {
        Ok((q, h)) => Ok((q, PduView::TcpHeader(h))),
        Err(_) => match udp_header_spec(bytes, pos, declared) {
            Ok((q, h)) => Ok((q, PduView::UdpHeader(h))),
            Err(_) => Err(DecodeError::NoMatchingVariant),
        },
    }
}

/// Decodes a message as the first candidate format that fits: a TCP header,
/// then a UDP datagram. Each candidate starts from `input` with a context of
/// its own, so a rejected one leaves nothing behind; its error is dropped.
pub fn parse_pdu<'a>(input: BitCursor<'a>, ctx: &Context) -> (r: Result<
    (BitCursor<'a>, Pdu<'a>),
    DecodeError,
>)
    requires
        input.wf(),
    ensures
        yields_view(r, input, pdu_spec(input.buffer@, input.bit_offset as int, ctx.declared_bits() as int)),
{
    let mut tcp_ctx = Context::new(ctx.data_size());
    if let Ok((c, h)) = parse_tcp_header(input, &mut tcp_ctx) {
        return Ok((c, Pdu::TcpHeader(h)));
    }
    let udp_ctx = Context::new(ctx.data_size());
    if let Ok((c, h)) = parse_udp_header(input, &udp_ctx) {
        return Ok((c, Pdu::UdpHeader(h)));
    }
    Err(DecodeError::NoMatchingVariant)
}

/// Decoding a whole message of `declared` bits held in `bytes`: the message
/// and the bits left after it, which must be none.
pub open spec fn decode_spec(bytes: Seq<u8>, declared: int) -> Result<(PduView, int), DecodeError> {
    match pdu_spec(bytes, 0, declared) {
        Ok((q, m)) => if q != declared {
            Err(DecodeError::LengthMismatch { consumed: q as usize, declared: declared as usize })
        } else {
            Ok((m, declared - q))
        },
        Err(e) => Err(e),
    }
}

/// Decodes a whole message of `declared_bits` bits from the start of
/// `buffer`, and returns it with the number of declared bits left unread.
/// Every declared bit must be accounted for: a message that ends before or
/// after the declared length is a `LengthMismatch`.
pub fn decode_pdu<'a>(buffer: &'a [u8], declared_bits: u32) -> (r: Result<(Pdu<'a>, usize), DecodeError>)
    requires
        buffer@.len() * 8 <= usize::MAX,
    ensures
        match (r, decode_spec(buffer@, declared_bits as int)) {
            (Ok((m, rest)), Ok((w, wrest))) => m@ == w && rest == wrest,
            (Err(e), Err(f)) => e == f,
            _ => false,
        },
{
    let ctx = Context::new(declared_bits);
    let start = BitCursor::new(buffer);
    let (end, m) = parse_pdu(start, &ctx)?;
    let declared = declared_bits as usize;
    if end.bit_offset != declared {
        return Err(DecodeError::LengthMismatch { consumed: end.bit_offset, declared });
    }
    Ok((m, declared - end.bit_offset))
}


/// When two candidates would both decode the same bits, the dispatcher
/// returns the one earlier in its order.
pub proof fn lemma_dispatch_prefers_earlier(bytes: Seq<u8>, pos: int, declared: int)
    requires
        tcp_header_spec(bytes, pos, declared) is Ok,
        udp_header_spec(bytes, pos, declared) is Ok,
    ensures
        pdu_spec(bytes, pos, declared) == Ok::<(int, PduView), DecodeError>(
            (
                tcp_header_spec(bytes, pos, declared)->Ok_0.0,
                PduView::TcpHeader(tcp_header_spec(bytes, pos, declared)->Ok_0.1),
            ),
        ),
{
}

/// A later candidate is returned exactly when every earlier one fails, and
/// the earlier ones' failures are not passed on.
pub proof fn lemma_dispatch_falls_through(bytes: Seq<u8>, pos: int, declared: int)
    requires
        tcp_header_spec(bytes, pos, declared) is Err,
    ensures
        udp_header_spec(bytes, pos, declared) is Ok ==> pdu_spec(bytes, pos, declared) == Ok::<
            (int, PduView),
            DecodeError,
        >(
            (
                udp_header_spec(bytes, pos, declared)->Ok_0.0,
                PduView::UdpHeader(udp_header_spec(bytes, pos, declared)->Ok_0.1),
            ),
        ),
        udp_header_spec(bytes, pos, declared) is Err ==> pdu_spec(bytes, pos, declared) == Err::<
            (int, PduView),
            DecodeError,
        >(DecodeError::NoMatchingVariant),
{
}

/// Decoding is a function of the buffer's contents and the declared length:
/// two decodes of the same bytes with the same length have the same outcome,
/// the same message or the same error at the same position.
pub proof fn lemma_decode_deterministic(a: Seq<u8>, b: Seq<u8>, declared: int)
    requires
        a == b,
    ensures
        decode_spec(a, declared) == decode_spec(b, declared),
{
}

/// A successful decode accounts for every declared bit: what it consumed and
/// what it left add up to the declared length, and nothing is left.
pub proof fn lemma_decode_accounts_for_all_bits(bytes: Seq<u8>, declared: int)
    requires
        decode_spec(bytes, declared) is Ok,
    ensures
        pdu_spec(bytes, 0, declared)->Ok_0.0 + decode_spec(bytes, declared)->Ok_0.1 == declared,
        decode_spec(bytes, declared)->Ok_0.1 == 0,
{
}

} // verus!
