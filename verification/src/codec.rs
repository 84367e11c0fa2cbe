//! Wire codec for a `SpanContext`: a single hyphen-delimited text value of
//! the shape `v1-<32 hex digits>-<16 hex digits>-<2 hex digits>`, carried in
//! a request header. Decoding is pure and total: it never panics and always
//! returns a typed result.

use vstd::prelude::*;
use vstd::arithmetic::div_mod::{lemma_div_denominator, lemma_fundamental_div_mod};
use vstd::arithmetic::mul::lemma_mul_inequality;
use crate::span::SpanContext;

verus! {

/// Why a header value failed to decode.
#[derive(Clone, Copy, PartialEq, Eq, Structural, Debug)]
pub enum DecodeError {
    /// Field count, field width or version tag does not match.
    Malformed,
    /// A field is not valid hexadecimal.
    InvalidHex,
}

/// Total length of an encoded context: `2 + 1 + 32 + 1 + 16 + 1 + 2`.
pub const ENCODED_LEN: usize = 55;

/// The lowercase hex digit for a value in `0..16`.
pub open spec fn hex_char_of(v: int) -> u8 {
    if v < 10 {
        (48 + v) as u8
    } else {
        (87 + v) as u8
    }
}

/// ASCII `0-9`, `a-f` or `A-F`.
pub open spec fn is_hex_digit(c: u8) -> bool {
    (48 <= c && c <= 57) || (97 <= c && c <= 102) || (65 <= c && c <= 70)
}

/// The value of a hex digit; meaningful only under `is_hex_digit`.
pub open spec fn hex_digit_val(c: u8) -> int {
    if 48 <= c && c <= 57 {
        c - 48
    } else if 97 <= c {
        c - 87
    } else {
        c - 55
    }
}

pub open spec fn pow16(k: nat) -> int
    decreases k,
{
    if k == 0 {
        1
    } else {
        16 * pow16((k - 1) as nat)
    }
}

/// The `k`-th least significant base-16 digit of `v`.
pub open spec fn nibble_of(v: int, k: int) -> int {
    (v / pow16(k as nat)) % 16
}

/// `v` written as `width` lowercase hex digits, most significant first.
pub open spec fn hex_encode(v: int, width: nat) -> Seq<u8> {
    Seq::new(width, |j: int| hex_char_of(nibble_of(v, width - 1 - j)))
}

pub open spec fn all_hex(s: Seq<u8>) -> bool {
    forall|i: int| 0 <= i < s.len() ==> is_hex_digit(s[i])
}

/// The numeric value of a sequence of hex digits, most significant first.
pub open spec fn hex_val(s: Seq<u8>) -> int
    decreases s.len(),
{
    if s.len() == 0 {
        0
    } else {
        16 * hex_val(s.drop_last()) + hex_digit_val(s.last())
    }
}

pub open spec fn flag_byte(sampled: bool) -> int {
    if sampled {
        1
    } else {
        0
    }
}

/// The encoded form of a context: version tag `v1`, then the three hex
/// fields, hyphen-delimited (byte 45 is `-`, 118 is `v`, 49 is `1`).
pub open spec fn encode_spec(ctx: SpanContext) -> Seq<u8> {
    seq![118u8, 49u8, 45u8] + hex_encode(ctx.trace_id as int, 32) + seq![45u8] + hex_encode(
        ctx.span_id as int,
        16,
    ) + seq![45u8] + hex_encode(flag_byte(ctx.sampled), 2)
}

/// No field byte is a hyphen: a stray hyphen would change the field count.
pub open spec fn dash_free(s: Seq<u8>, lo: int, hi: int) -> bool {
    forall|i: int| lo <= i < hi ==> s[i] != 45
}

/// The field count, the field widths and the version tag all match.
pub open spec fn shape_ok(s: Seq<u8>) -> bool {
    &&& s.len() == 55
    &&& s[0] == 118
    &&& s[1] == 49
    &&& s[2] == 45
    &&& s[35] == 45
    &&& s[52] == 45
    &&& dash_free(s, 3, 35)
    &&& dash_free(s, 36, 52)
    &&& dash_free(s, 53, 55)
}

pub open spec fn fields_hex(s: Seq<u8>) -> bool {
    &&& all_hex(s.subrange(3, 35))
    &&& all_hex(s.subrange(36, 52))
    &&& all_hex(s.subrange(53, 55))
}

/// What decoding returns for every input. The sampled flag is the low bit
/// of the flags byte.
pub open spec fn decode_spec(s: Seq<u8>) -> Result<SpanContext, DecodeError> {
    if !shape_ok(s) {
        Err(DecodeError::Malformed)
    } else if !fields_hex(s) {
        Err(DecodeError::InvalidHex)
    } else {
        Ok(
            SpanContext {
                trace_id: hex_val(s.subrange(3, 35)) as u128,
                span_id: hex_val(s.subrange(36, 52)) as u64,
                sampled: hex_val(s.subrange(53, 55)) % 2 == 1,
            },
        )
    }
}

/// The concrete powers the codec works with: the bounds of the flags byte,
/// of a span id and of a trace id.
pub proof fn lemma_pow16_concrete()
    ensures
        pow16(2) == 256,
        pow16(16) == 0x10000000000000000,
        pow16(32) == 0x100000000000000000000000000000000,
{
    assert(pow16(0) == 1);
    assert(pow16(1) == 16);
    assert(pow16(2) == 256);
    assert(pow16(3) == 0x1000);
    assert(pow16(4) == 0x10000);
    assert(pow16(5) == 0x100000);
    assert(pow16(6) == 0x1000000);
    assert(pow16(7) == 0x10000000);
    assert(pow16(8) == 0x100000000);
    assert(pow16(9) == 0x1000000000);
    assert(pow16(10) == 0x10000000000);
    assert(pow16(11) == 0x100000000000);
    assert(pow16(12) == 0x1000000000000);
    assert(pow16(13) == 0x10000000000000);
    assert(pow16(14) == 0x100000000000000);
    assert(pow16(15) == 0x1000000000000000);
    assert(pow16(16) == 0x10000000000000000);
    assert(pow16(17) == 0x100000000000000000);
    assert(pow16(18) == 0x1000000000000000000);
    assert(pow16(19) == 0x10000000000000000000);
    assert(pow16(20) == 0x100000000000000000000);
    assert(pow16(21) == 0x1000000000000000000000);
    assert(pow16(22) == 0x10000000000000000000000);
    assert(pow16(23) == 0x100000000000000000000000);
    assert(pow16(24) == 0x1000000000000000000000000);
    assert(pow16(25) == 0x10000000000000000000000000);
    assert(pow16(26) == 0x100000000000000000000000000);
    assert(pow16(27) == 0x1000000000000000000000000000);
    assert(pow16(28) == 0x10000000000000000000000000000);
    assert(pow16(29) == 0x100000000000000000000000000000);
    assert(pow16(30) == 0x1000000000000000000000000000000);
    assert(pow16(31) == 0x10000000000000000000000000000000);
    assert(pow16(32) == 0x100000000000000000000000000000000);
}

pub proof fn lemma_pow16_pos(k: nat)
    ensures
        pow16(k) >= 1,
    decreases k,
{
    if k > 0 {
        lemma_pow16_pos((k - 1) as nat);
    }
}

pub proof fn lemma_pow16_mono(a: nat, b: nat)
    requires
        a <= b,
    ensures
        pow16(a) <= pow16(b),
    decreases b,
{
    if a < b {
        lemma_pow16_mono(a, (b - 1) as nat);
        lemma_pow16_pos((b - 1) as nat);
    }
}

/// Shifting out the least significant digit renumbers the others.
proof fn lemma_nibble_shift(v: int, k: nat)
    requires
        v >= 0,
    ensures
        nibble_of(v / 16, k as int) == nibble_of(v, k as int + 1),
{
    lemma_pow16_pos(k);
    lemma_div_denominator(v, 16, pow16(k));
    assert(pow16((k + 1) as nat) == 16 * pow16(k));
}

/// A fixed-width rendering splits into its leading digits and its last one.
proof fn lemma_hex_encode_step(v: int, width: nat)
    requires
        v >= 0,
        width >= 1,
    ensures
        hex_encode(v, width).drop_last() =~= hex_encode(v / 16, (width - 1) as nat),
        hex_encode(v, width).last() == hex_char_of(v % 16),
{
    assert forall|j: int| 0 <= j < width - 1 implies hex_encode(v, width)[j] == hex_encode(
        v / 16,
        (width - 1) as nat,
    )[j] by {
        lemma_nibble_shift(v, (width - 2 - j) as nat);
    };
    assert(pow16(0) == 1);
    assert(v / 1 == v);
}

/// Each hex digit decodes back to its value, and is never a hyphen.
proof fn lemma_hex_digit_roundtrip(d: int)
    requires
        0 <= d < 16,
    ensures
        is_hex_digit(hex_char_of(d)),
        hex_digit_val(hex_char_of(d)) == d,
        hex_char_of(d) != 45,
{
}

/// A value below `16^width` survives the round trip through its
/// fixed-width hex rendering.
pub proof fn lemma_hex_encode_val(v: int, width: nat)
    requires
        0 <= v < pow16(width),
    ensures
        all_hex(hex_encode(v, width)),
        hex_val(hex_encode(v, width)) == v,
    decreases width,
{
    assert forall|j: int| 0 <= j < width implies is_hex_digit(hex_encode(v, width)[j]) by {
        lemma_pow16_pos((width - 1 - j) as nat);
        lemma_hex_digit_roundtrip(nibble_of(v, width - 1 - j));
    };
    if width == 0 {
        assert(hex_encode(v, 0) =~= Seq::<u8>::empty());
    } else {
        lemma_hex_encode_step(v, width);
        lemma_pow16_pos((width - 1) as nat);
        lemma_fundamental_div_mod(v, 16);
        if v / 16 >= pow16((width - 1) as nat) {
            lemma_mul_inequality(pow16((width - 1) as nat), v / 16, 16);
            assert(false);
        }
        if v / 16 < 0 {
            lemma_mul_inequality(v / 16, -1, 16);
            assert(false);
        }
        lemma_hex_encode_val(v / 16, (width - 1) as nat);
        lemma_hex_digit_roundtrip(v % 16);
        assert(hex_val(hex_encode(v, width)) == 16 * (v / 16) + v % 16);
    }
}

/// The lowercase hex digit for a value in `0..16`, executable form.
fn hex_char(d: u8) -> (c: u8)
    requires
        d < 16,
    ensures
        c == hex_char_of(d as int),
{
    if d < 10 {
        48 + d
    } else {
        87 + d
    }
}

/// `v` written as `width` lowercase hex digits, most significant first.
fn hex_field(v: u128, width: usize) -> (r: Vec<u8>)
    requires
        width <= 32,
        (v as int) < pow16(width as nat),
    ensures
        r@ == hex_encode(v as int, width as nat),
{
    let mut digits: Vec<u8> = Vec::new();
    let mut x: u128 = v;
    let mut i: usize = 0;
    while i < width
        invariant
            i <= width <= 32,
            x as int == v as int / pow16(i as nat),
            digits@.len() == i,
            forall|k: int| 0 <= k < i ==> digits@[k] == hex_char_of(nibble_of(v as int, k)),
        decreases width - i,
    {
        proof {
            lemma_pow16_pos(i as nat);
            lemma_div_denominator(v as int, pow16(i as nat), 16);
            assert(pow16((i + 1) as nat) == 16 * pow16(i as nat));
        }
        let d: u8 = (x % 16) as u8;
        digits.push(hex_char(d));
        x = x / 16;
        i = i + 1;
    }
    let mut out: Vec<u8> = Vec::new();
    let mut j: usize = 0;
    while j < width
        invariant
            j <= width <= 32,
            digits@.len() == width,
            forall|k: int| 0 <= k < width ==> digits@[k] == hex_char_of(nibble_of(v as int, k)),
            out@.len() == j,
            forall|k: int| 0 <= k < j ==> out@[k] == hex_char_of(nibble_of(v as int, width - 1 - k)),
        decreases width - j,
    {
        out.push(digits[width - 1 - j]);
        j = j + 1;
    }
    proof {
        assert(out@ =~= hex_encode(v as int, width as nat));
    }
    out
}

/// Encode a context for the propagation header.
pub fn encode(ctx: &SpanContext) -> (r: Vec<u8>)
    ensures
        r@ == encode_spec(*ctx),
{
    proof {
        lemma_pow16_concrete();
    }
    let mut out: Vec<u8> = Vec::new();
    out.push(118);
    out.push(49);
    out.push(45);
    let mut t = hex_field(ctx.trace_id, 32);
    out.append(&mut t);
    out.push(45);
    let mut sp = hex_field(ctx.span_id as u128, 16);
    out.append(&mut sp);
    out.push(45);
    let mut fl = hex_field(if ctx.sampled { 1 } else { 0 }, 2);
    out.append(&mut fl);
    proof {
        assert(out@ =~= encode_spec(*ctx));
    }
    out
}

/// True iff the range `lo..hi` of `s` holds a hyphen.
fn has_dash(s: &[u8], lo: usize, hi: usize) -> (r: bool)
    requires
        lo <= hi && hi <= s@.len(),
    ensures
        r == !dash_free(s@, lo as int, hi as int),
{
    let mut i: usize = lo;
    while i < hi
        invariant
            lo <= i <= hi <= s@.len(),
            forall|k: int| lo <= k < i ==> s@[k] != 45,
        decreases hi - i,
    {
        if s[i] == 45 {
            assert(s@[i as int] == 45);
            return true;
        }
        i = i + 1;
    }
    false
}

/// Parse the range `lo..hi` of `s` as hex digits, most significant first.
fn parse_hex(s: &[u8], lo: usize, hi: usize) -> (r: Option<u128>)
    requires
        lo <= hi && hi <= s@.len(),
        hi - lo <= 32,
    ensures
        (match r {
            Some(v) => all_hex(s@.subrange(lo as int, hi as int)) && v as int == hex_val(
                s@.subrange(lo as int, hi as int),
            ) && (v as int) < pow16((hi - lo) as nat),
            None => !all_hex(s@.subrange(lo as int, hi as int)),
        }),
{
    let mut v: u128 = 0;
    let mut i: usize = lo;
    while i < hi
        invariant
            lo <= i <= hi <= s@.len(),
            hi - lo <= 32,
            all_hex(s@.subrange(lo as int, i as int)),
            v as int == hex_val(s@.subrange(lo as int, i as int)),
            (v as int) < pow16((i - lo) as nat),
        decreases hi - i,
    {
        let c = s[i];
        let d: u8;
        if 48 <= c && c <= 57 {
            d = c - 48;
        } else if 97 <= c && c <= 102 {
            d = c - 87;
        } else if 65 <= c && c <= 70 {
            d = c - 55;
        } else {
            proof {
                assert(s@.subrange(lo as int, hi as int)[i - lo] == s@[i as int]);
            }
            return None;
        }
        proof {
            let prefix = s@.subrange(lo as int, i as int);
            let prefix2 = s@.subrange(lo as int, i + 1);
            assert(prefix2.drop_last() =~= prefix);
            assert(prefix2.last() == s@[i as int]);
            assert(hex_digit_val(s@[i as int]) == d as int);
            assert(pow16((i + 1 - lo) as nat) == 16 * pow16((i - lo) as nat));
            lemma_pow16_mono((i + 1 - lo) as nat, 32);
            lemma_pow16_concrete();
            assert forall|k: int| 0 <= k < prefix2.len() implies is_hex_digit(prefix2[k]) by {
                if k < prefix.len() {
                    assert(prefix2[k] == prefix[k]);
                }
            };
        }
        v = v * 16 + (d as u128);
        i = i + 1;
    }
    proof {
        assert(s@.subrange(lo as int, i as int) =~= s@.subrange(lo as int, hi as int));
    }
    Some(v)
}

/// Decode a propagation header value. Never panics: every input yields
/// `Ok` or a typed error, `Malformed` when the field count, a field width
/// or the version tag does not match, `InvalidHex` when the shape is right
/// but a field holds a non-hex byte.
pub fn decode(s: &[u8]) -> (r: Result<SpanContext, DecodeError>)
    ensures
        r == decode_spec(s@),
{
    if s.len() != ENCODED_LEN {
        return Err(DecodeError::Malformed);
    }
    if s[0] != 118 || s[1] != 49 || s[2] != 45 || s[35] != 45 || s[52] != 45 {
        return Err(DecodeError::Malformed);
    }
    if has_dash(s, 3, 35) || has_dash(s, 36, 52) || has_dash(s, 53, 55) {
        return Err(DecodeError::Malformed);
    }
    let t = match parse_hex(s, 3, 35) {
        Some(v) => v,
        None => {
            return Err(DecodeError::InvalidHex);
        },
    };
    let sp = match parse_hex(s, 36, 52) {
        Some(v) => v,
        None => {
            return Err(DecodeError::InvalidHex);
        },
    };
    let fl = match parse_hex(s, 53, 55) {
        Some(v) => v,
        None => {
            return Err(DecodeError::InvalidHex);
        },
    };
    proof {
        lemma_pow16_concrete();
    }
    Ok(SpanContext { trace_id: t, span_id: sp as u64, sampled: fl % 2 == 1 })
}

/// Every input whose field count, field widths or version tag do not
/// match decodes to `Malformed` — and to nothing else; decoding itself is
/// total and never panics.
pub proof fn lemma_decode_misshaped(s: Seq<u8>)
    ensures
        !shape_ok(s) <==> decode_spec(s) == Err::<SpanContext, DecodeError>(DecodeError::Malformed),
{
}

/// Round trip: every encoded context decodes back to itself.
pub proof fn lemma_encode_decode(ctx: SpanContext)
    ensures
        decode_spec(encode_spec(ctx)) == Ok::<SpanContext, DecodeError>(ctx),
{
    let e = encode_spec(ctx);
    lemma_pow16_concrete();
    lemma_hex_encode_val(ctx.trace_id as int, 32);
    lemma_hex_encode_val(ctx.span_id as int, 16);
    lemma_hex_encode_val(flag_byte(ctx.sampled), 2);
    assert(e.len() == 55);
    assert(e.subrange(3, 35) =~= hex_encode(ctx.trace_id as int, 32));
    assert(e.subrange(36, 52) =~= hex_encode(ctx.span_id as int, 16));
    assert(e.subrange(53, 55) =~= hex_encode(flag_byte(ctx.sampled), 2));
    assert(dash_free(e, 3, 35));
    assert(dash_free(e, 36, 52));
    assert(dash_free(e, 53, 55));
    assert(shape_ok(e));
    assert(fields_hex(e));
    assert(hex_val(e.subrange(3, 35)) == ctx.trace_id as int);
    assert(hex_val(e.subrange(36, 52)) == ctx.span_id as int);
    assert(hex_val(e.subrange(53, 55)) == flag_byte(ctx.sampled));
}

} // verus!
