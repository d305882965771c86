use vstd::arithmetic::power2::{lemma_pow2_unfold, lemma_pow2_pos, pow2};
use vstd::prelude::*;

use crate::error::DecodeError;

verus! {

/// The bit at global position `i` of `bytes`, numbering each byte's bits from
/// the most significant one.
pub open spec fn bit_at(bytes: Seq<u8>, i: int) -> nat {
    ((bytes[i / 8] as nat) / pow2((7 - i % 8) as nat)) % 2
}

/// The unsigned integer whose big-endian binary form is the `width` bits of
/// `bytes` that start at bit `start`.
pub open spec fn bits_value(bytes: Seq<u8>, start: int, width: nat) -> nat
    decreases width,
{
    if width == 0 {
        0
    } else {
        2 * bits_value(bytes, start, (width - 1) as nat) + bit_at(bytes, start + width - 1)
    }
}

/// A value read from `width` bits is below `2^width`.
pub proof fn lemma_bits_value_bound(bytes: Seq<u8>, start: int, width: nat)
    ensures
        bits_value(bytes, start, width) < pow2(width),
    decreases width,
{
    if width > 0 {
        lemma_bits_value_bound(bytes, start, (width - 1) as nat);
        lemma_pow2_unfold(width);
    } else {
        lemma_pow2_pos(0);
        reveal(pow2);
    }
}

} // verus!

verus! {

/// Where reading `width` bits at bit `pos` of `bytes` ends, and what it reads.
pub open spec fn take_spec(bytes: Seq<u8>, pos: int, width: nat) -> Result<(int, u64), DecodeError> {
    if pos + width <= bytes.len() * 8 {
        Ok((pos + width, bits_value(bytes, pos, width) as u64))
    } else {
        Err(DecodeError::InsufficientData { bit_offset: pos as usize })
    }
}

/// `r`, the outcome of a decode step that started at `from`, is the outcome
/// `s` of the model: on success the same end position and value over the same
/// buffer, on failure the same error.
pub open spec fn yields<'a, T>(
    r: Result<(BitCursor<'a>, T), DecodeError>,
    from: BitCursor<'a>,
    s: Result<(int, T), DecodeError>,
) -> bool {
    match (r, s) {
        (Ok((c, v)), Ok((p, w))) => c.buffer == from.buffer && c.bit_offset == p && c.wf() && v
            == w,
        (Err(e), Err(f)) => e == f,
        _ => false,
    }
}

/// `r`, the outcome of a decode step that started at `from`, is the model's
/// outcome `s` with `f` applied to the value on success.
pub open spec fn yields_as<'a, S, T>(
    r: Result<(BitCursor<'a>, T), DecodeError>,
    from: BitCursor<'a>,
    s: Result<(int, S), DecodeError>,
    f: spec_fn(S) -> T,
) -> bool {
    match (r, s) {
        (Ok((c, v)), Ok((p, w))) => c.buffer == from.buffer && c.bit_offset == p && c.wf() && v
            == f(w),
        (Err(e), Err(g)) => e == g,
        _ => false,
    }
}

/// `r`, the outcome of a decode step that started at `from`, is the model's
/// outcome `s`, its value compared by view.
pub open spec fn yields_view<'a, T: View>(
    r: Result<(BitCursor<'a>, T), DecodeError>,
    from: BitCursor<'a>,
    s: Result<(int, T::V), DecodeError>,
) -> bool {
    match (r, s) {
        (Ok((c, v)), Ok((p, w))) => c.buffer == from.buffer && c.bit_offset == p && c.wf() && v@
            == w,
        (Err(e), Err(g)) => e == g,
        _ => false,
    }
}

/// Where reading `n` whole bytes at bit `pos` of `bytes` ends, and the bytes.
/// Such a field must start on a byte boundary: elsewhere the format that asked
/// for it is at fault.
pub open spec fn bytes_spec(bytes: Seq<u8>, pos: int, n: nat) -> Result<(int, Seq<u8>), DecodeError> {
    if pos % 8 != 0 {
        Err(DecodeError::InternalDefinitionError)
    } else if pos + 8 * n <= bytes.len() * 8 {
        Ok((pos + 8 * n, bytes.subrange(pos / 8, pos / 8 + n)))
    } else {
        Err(DecodeError::InsufficientData { bit_offset: pos as usize })
    }
}

/// Reading bits from a suffix of a buffer reads the same bits of the buffer.
pub proof fn lemma_bits_value_suffix(bytes: Seq<u8>, k: int, start: int, width: nat)
    requires
        0 <= k <= bytes.len(),
        0 <= start,
        start + width <= (bytes.len() - k) * 8,
    ensures
        bits_value(bytes.subrange(k, bytes.len() as int), start, width) == bits_value(
            bytes,
            start + 8 * k,
            width,
        ),
    decreases width,
{
    if width > 0 {
        lemma_bits_value_suffix(bytes, k, start, (width - 1) as nat);
        let i = start + width - 1;
        assert((i + 8 * k) / 8 == i / 8 + k && (i + 8 * k) % 8 == i % 8) by (nonlinear_arith)
            requires
                i >= 0,
                k >= 0,
        ;
    }
}

/// A read position in a byte buffer, counted in bits from its start.
#[derive(Debug, Clone, Copy, PartialEq, Eq)]
pub struct BitCursor<'a> {
    pub buffer: &'a [u8],
    pub bit_offset: usize,
}

/// Relies on nom::bits::complete::take: it reads `count` bits of `input`,
/// most significant first, after skipping `bit` bits of its first byte, and
/// fails when fewer bits are left.
#[verifier::external_body]
fn nom_take_bits(input: &[u8], bit: usize, count: usize) -> (r: Option<u64>)
    requires
        bit < 8,
        count <= 64,
        input@.len() * 8 <= usize::MAX,
    ensures
        count == 0 ==> r == Some(0u64),
        count > 0 && bit + count <= input@.len() * 8 ==> r == Some(
            bits_value(input@, bit as int, count as nat) as u64,
        ),
        count > 0 && bit + count > input@.len() * 8 ==> r is None,
{
    nom::bits::complete::take::<_, u64, _, nom::error::Error<(&[u8], usize)>>(count)(
        (input, bit),
    ).ok().map(|(_, v)| v)
}

impl<'a> BitCursor<'a> {
    /// The offset lies within the buffer, whose length in bits fits in `usize`.
    pub open spec fn wf(&self) -> bool {
        &&& self.buffer@.len() * 8 <= usize::MAX
        &&& self.bit_offset <= self.buffer@.len() * 8
    }

    /// The buffer's length in bits.
    pub open spec fn total_bits(&self) -> int {
        (self.buffer@.len() * 8) as int
    }

    /// A cursor at the first bit of `buffer`.
    pub fn new(buffer: &'a [u8]) -> (r: BitCursor<'a>)
        requires
            buffer@.len() * 8 <= usize::MAX,
        ensures
            r.wf(),
            r.buffer == buffer,
            r.bit_offset == 0,
    {
        BitCursor { buffer, bit_offset: 0 }
    }

    /// The bits of the buffer that lie after the cursor.
    pub fn remaining_bits(&self) -> (r: usize)
        requires
            self.wf(),
        ensures
            r == self.total_bits() - self.bit_offset,
    {
        self.buffer.len() * 8 - self.bit_offset
    }

    /// Reads the next `width` bits as a big-endian unsigned integer and
    /// returns it with a cursor moved past them; `InsufficientData` where the
    /// buffer ends first.
    pub fn take(&self, width: usize) -> (r: Result<(BitCursor<'a>, u64), DecodeError>)
        requires
            self.wf(),
            width <= 64,
        ensures
            yields(r, *self, take_spec(self.buffer@, self.bit_offset as int, width as nat)),
            r is Ok ==> r->Ok_0.0.wf(),
    {
        let byte = self.bit_offset / 8;
        let bit = self.bit_offset % 8;
        let rest = &self.buffer[byte..self.buffer.len()];
        proof {
            if width > 0 && self.bit_offset + width <= self.total_bits() {
                lemma_bits_value_suffix(self.buffer@, byte as int, bit as int, width as nat);
            }
            lemma_bits_value_bound(self.buffer@, self.bit_offset as int, width as nat);
            vstd::arithmetic::power2::lemma2_to64();
            if width < 64 {
                vstd::arithmetic::power2::lemma_pow2_strictly_increases(width as nat, 64);
            }
        }
        match nom_take_bits(rest, bit, width) {
            Some(v) => {
                proof {
                    if width == 0 {
                        reveal_with_fuel(bits_value, 1);
                    }
                }
                Ok((BitCursor { buffer: self.buffer, bit_offset: self.bit_offset + width }, v))
            },
            None => Err(DecodeError::InsufficientData { bit_offset: self.bit_offset }),
        }
    }

    /// Takes the next `n` whole bytes as a slice of the buffer, without
    /// copying them.
    pub fn take_bytes(&self, n: usize) -> (r: Result<(BitCursor<'a>, &'a [u8]), DecodeError>)
        requires
            self.wf(),
        ensures
            match (r, bytes_spec(self.buffer@, self.bit_offset as int, n as nat)) {
                (Ok((c, b)), Ok((p, w))) => c.buffer == self.buffer && c.bit_offset == p && c.wf()
                    && b@ == w,
                (Err(e), Err(g)) => e == g,
                _ => false,
            },
    {
        if self.bit_offset % 8 != 0 {
            return Err(DecodeError::InternalDefinitionError);
        }
        let start = self.bit_offset / 8;
        if n > self.buffer.len() - start {
            return Err(DecodeError::InsufficientData { bit_offset: self.bit_offset });
        }
        let taken = &self.buffer[start..start + n];
        Ok((BitCursor { buffer: self.buffer, bit_offset: self.bit_offset + 8 * n }, taken))
    }
}

} // verus!

verus! {

/// A successful byte read yields as many bytes as it asked for.
pub proof fn lemma_bytes_len(bytes: Seq<u8>, pos: int, n: nat)
    requires
        0 <= pos,
        bytes_spec(bytes, pos, n) is Ok,
    ensures
        bytes_spec(bytes, pos, n)->Ok_0.1.len() == n,
        bytes_spec(bytes, pos, n)->Ok_0.0 == pos + 8 * n,
{
    assert(pos / 8 + n <= bytes.len()) by (nonlinear_arith)
        requires
            pos % 8 == 0,
            pos + 8 * n <= bytes.len() * 8,
            0 <= pos,
    ;
}

} // verus!
