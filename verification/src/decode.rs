use vstd::prelude::*;
use vstd::arithmetic::div_mod::{
    lemma_fundamental_div_mod_converse_div, lemma_fundamental_div_mod_converse_mod,
    lemma_multiply_divide_lt,
};
use crate::error::PipelineError;
use crate::tensor::BatchTensor;

verus! {

/// The magnitude of a 32-bit floating-point value's bit pattern: the
/// pattern with the sign bit stripped.
pub open spec fn f32_bits_magnitude(bits: u32) -> u32 {
    if bits >= 0x8000_0000 {
        (bits - 0x8000_0000) as u32
    } else {
        bits
    }
}

/// Whether a 32-bit floating-point bit pattern denotes no number at all:
/// its magnitude lies above the infinity pattern `0x7F80_0000`.
pub open spec fn f32_bits_is_nan(bits: u32) -> bool {
    f32_bits_magnitude(bits) > 0x7F80_0000
}

/// Whether a bit pattern denotes a value within `[0, 1]`: zero through one
/// (whose patterns order as the values do), or negative zero.
pub open spec fn unit_interval_bits(bits: u32) -> bool {
    bits <= 0x3F80_0000 || bits == 0x8000_0000
}

/// The bit pattern that clamping a 32-bit floating-point value to `[0, 1]`
/// yields: values below zero clamp to zero, values above one clamp to one,
/// negative zero and everything in between pass through, and a pattern that
/// denotes no number passes through unchanged, exactly as the hardware
/// comparisons behind a clamp would leave it.
pub open spec fn clamp_unit_spec(bits: u32) -> u32 {
    if f32_bits_is_nan(bits) {
        bits
    } else if bits == 0x8000_0000 {
        bits
    } else if bits > 0x8000_0000 {
        0
    } else if bits > 0x3F80_0000 {
        0x3F80_0000
    } else {
        bits
    }
}

/// Clamps one scalar, given by its bit pattern, to `[0, 1]`.
pub fn clamp_unit(bits: u32) -> (r: u32)
    ensures
        r == clamp_unit_spec(bits),
{
    let magnitude = if bits >= 0x8000_0000 {
        bits - 0x8000_0000
    } else {
        bits
    };
    if magnitude > 0x7F80_0000 {
        bits
    } else if bits == 0x8000_0000 {
        bits
    } else if bits > 0x8000_0000 {
        0
    } else if bits > 0x3F80_0000 {
        0x3F80_0000
    } else {
        bits
    }
}

/// Law: a clamped scalar lies within `[0, 1]`, whatever its magnitude was,
/// as long as it was a number at all.
pub proof fn lemma_clamp_unit_in_range(bits: u32)
    requires
        !f32_bits_is_nan(bits),
    ensures
        unit_interval_bits(clamp_unit_spec(bits)),
{
}

/// Clamps every scalar of a decoded tensor to `[0, 1]`: the last act of
/// both decode paths before the scalars become pixels. Every scalar that is
/// a number ends within the unit interval, whatever its magnitude was.
pub fn clamp_tensor(t: &BatchTensor) -> (r: BatchTensor)
    requires
        t.wf(),
    ensures
        r.wf(),
        r.batch == t.batch,
        r.row == t.row,
        r.data@.len() == t.data@.len(),
        forall|k: int| 0 <= k < t.data@.len() ==> r.data@[k] == clamp_unit_spec(#[trigger] t.data@[k]),
        forall|k: int|
            0 <= k < t.data@.len() && !f32_bits_is_nan(t.data@[k]) ==> unit_interval_bits(
                #[trigger] r.data@[k],
            ),
{
    let mut data: Vec<u32> = Vec::new();
    let mut k: usize = 0;
    while k < t.data.len()
        invariant
            k <= t.data@.len(),
            data@.len() == k,
            forall|j: int| 0 <= j < k ==> data@[j] == clamp_unit_spec(#[trigger] t.data@[j]),
        decreases t.data@.len() - k,
    {
        data.push(clamp_unit(t.data[k]));
        k += 1;
    }
    BatchTensor { batch: t.batch, row: t.row, data }
}

/// For a channel-last position `k = ((b*h + y)*w + x)*c + ch`, the
/// channel-first position `((b*c + ch)*h + y)*w + x` the scalar comes from.
pub open spec fn channel_last_src(k: int, c: int, h: int, w: int) -> int {
    let ch = k % c;
    let x = (k / c) % w;
    let y = (k / (c * w)) % h;
    let b = k / (c * w * h);
    ((b * c + ch) * h + y) * w + x
}

/// A channel-first scalar buffer (batch, channel, row, column) rearranged to
/// channel-last order (batch, row, column, channel).
pub open spec fn channel_last_data(data: Seq<u32>, c: int, h: int, w: int) -> Seq<u32> {
    Seq::new(data.len(), |k: int| data[channel_last_src(k, c, h, w)])
}

/// Rearranges the decoder network's output from channel-first layout
/// (`c` channels of `h` by `w` scalars per batch element) to the
/// channel-last layout an image buffer wants: within each batch element,
/// position `(y, x, channel)` of the result holds what position
/// `(channel, y, x)` of the input held.
pub fn to_channel_last(t: &BatchTensor, c: usize, h: usize, w: usize) -> (r: BatchTensor)
    requires
        t.wf(),
        t.row == c * h * w,
        c >= 1,
        h >= 1,
        w >= 1,
    ensures
        r.wf(),
        r.batch == t.batch,
        r.row == t.row,
        r.data@ == channel_last_data(t.data@, c as int, h as int, w as int),
{
    let len = t.data.len();
    proof {
        assert((c * w) * h == (c * h) * w && 1 <= c * w <= (c * w) * h) by (nonlinear_arith)
            requires
                c >= 1,
                h >= 1,
                w >= 1,
        ;
    }
    let cw: usize = c * w;
    let cwh: usize = cw * h;
    let mut data: Vec<u32> = Vec::new();
    let mut k: usize = 0;
    while k < len
        invariant
            k <= len,
            len == t.data@.len(),
            t.data@.len() == t.batch * t.row,
            t.row == c * h * w,
            cw == c * w,
            cwh == cw * h,
            cwh == t.row,
            cw >= 1,
            cwh >= 1,
            c >= 1,
            h >= 1,
            w >= 1,
            data@.len() == k,
            forall|j: int|
                0 <= j < k ==> data@[j] == t.data@[
                    #[trigger] channel_last_src(j, c as int, h as int, w as int)
                ],
        decreases len - k,
    {
        let ch = k % c;
        let x = (k / c) % w;
        let y = (k / cw) % h;
        let b = k / cwh;
        proof {
            assert(k < (cwh as int) * (t.batch as int)) by (nonlinear_arith)
                requires
                    k < (t.batch as int) * (cwh as int),
            ;
            lemma_multiply_divide_lt(k as int, cwh as int, t.batch as int);
            lemma_channel_first_index_bound(
                b as int,
                ch as int,
                y as int,
                x as int,
                t.batch as int,
                c as int,
                h as int,
                w as int,
            );
        }
        let src = ((b * c + ch) * h + y) * w + x;
        data.push(t.data[src]);
        k += 1;
    }
    proof {
        assert(data@ =~= channel_last_data(t.data@, c as int, h as int, w as int));
    }
    BatchTensor { batch: t.batch, row: t.row, data }
}

/// Positions `(b, ch, y, x)` within bounds flatten, channel-first, to a
/// position below `batch * c * h * w`, and each prefix of the flattening is
/// bounded by the matching prefix of the extents.
proof fn lemma_channel_first_index_bound(
    b: int,
    ch: int,
    y: int,
    x: int,
    batch: int,
    c: int,
    h: int,
    w: int,
)
    requires
        0 <= b < batch,
        0 <= ch < c,
        0 <= y < h,
        0 <= x < w,
    ensures
        0 <= b * c + ch < batch * c,
        0 <= (b * c + ch) * h + y < (batch * c) * h,
        0 <= ((b * c + ch) * h + y) * w + x < ((batch * c) * h) * w,
        batch * c <= (batch * c) * h <= ((batch * c) * h) * w,
        ((batch * c) * h) * w == batch * ((c * w) * h),
{
    assert(0 <= b * c + ch < batch * c) by (nonlinear_arith)
        requires
            0 <= b < batch,
            0 <= ch < c,
    ;
    assert(0 <= (b * c + ch) * h + y < (batch * c) * h) by (nonlinear_arith)
        requires
            0 <= b * c + ch < batch * c,
            0 <= y < h,
    ;
    assert(0 <= ((b * c + ch) * h + y) * w + x < ((batch * c) * h) * w) by (nonlinear_arith)
        requires
            0 <= (b * c + ch) * h + y < (batch * c) * h,
            0 <= x < w,
    ;
    assert(batch * c <= (batch * c) * h <= ((batch * c) * h) * w) by (nonlinear_arith)
        requires
            batch * c >= 1,
            h >= 1,
            w >= 1,
    ;
    assert(((batch * c) * h) * w == batch * ((c * w) * h)) by (nonlinear_arith);
}

/// Law: the channel-last rearrangement is the per-sample transpose it
/// claims to be. For every batch element `b`, channel `ch`, row `y` and
/// column `x` within the extents, position `(b, y, x, ch)` of the
/// rearranged buffer holds the scalar that position `(b, ch, y, x)` of the
/// channel-first buffer held.
pub proof fn lemma_channel_last_positions(
    data: Seq<u32>,
    batch: int,
    c: int,
    h: int,
    w: int,
    b: int,
    ch: int,
    y: int,
    x: int,
)
    requires
        data.len() == batch * (c * h * w),
        0 <= b < batch,
        0 <= ch < c,
        0 <= y < h,
        0 <= x < w,
    ensures
        0 <= ((b * h + y) * w + x) * c + ch < data.len(),
        channel_last_data(data, c, h, w)[((b * h + y) * w + x) * c + ch] == data[((b * c + ch) * h
            + y) * w + x],
{
    let dst = ((b * h + y) * w + x) * c + ch;
    // The destination position lies within the buffer.
    lemma_channel_first_index_bound(b, y, x, ch, batch, h, w, c);
    assert(((batch * h) * w) * c == batch * (c * h * w)) by (nonlinear_arith);
    // Peel the channel: dst divides by c into (b*h + y)*w + x with rest ch.
    lemma_fundamental_div_mod_converse_mod(dst, c, (b * h + y) * w + x, ch);
    lemma_fundamental_div_mod_converse_div(dst, c, (b * h + y) * w + x, ch);
    // Peel the column from the quotient.
    lemma_fundamental_div_mod_converse_mod((b * h + y) * w + x, w, b * h + y, x);
    // Peel rows and columns at once: dst divides by c*w into b*h + y.
    assert(((b * h + y) * w + x) * c + ch == (b * h + y) * (c * w) + (x * c + ch))
        by (nonlinear_arith);
    assert(0 <= x * c + ch < c * w) by (nonlinear_arith)
        requires
            0 <= ch < c,
            0 <= x < w,
    ;
    lemma_fundamental_div_mod_converse_div(dst, c * w, b * h + y, x * c + ch);
    lemma_fundamental_div_mod_converse_mod(b * h + y, h, b, y);
    // Peel the batch element: dst divides by c*w*h into b.
    assert(((b * h + y) * w + x) * c + ch == b * (c * w * h) + ((y * w + x) * c + ch))
        by (nonlinear_arith);
    assert(0 <= (y * w + x) * c + ch < c * w * h) by (nonlinear_arith)
        requires
            0 <= ch < c,
            0 <= x < w,
            0 <= y < h,
    ;
    lemma_fundamental_div_mod_converse_div(dst, c * w * h, b, (y * w + x) * c + ch);
    assert(channel_last_src(dst, c, h, w) == ((b * c + ch) * h + y) * w + x);
}

/// Checks that a pixel buffer of `len` scalars fills an image of the given
/// size exactly: three scalars (red, green, blue) per pixel. Any mismatch is
/// a fatal decode error.
pub fn check_image_buffer(width: u32, height: u32, len: usize) -> (r: Result<(), PipelineError>)
    ensures
        r is Ok <==> len == 3 * width * height,
        r is Err ==> r == Err::<(), PipelineError>(PipelineError::DecodeError),
{
    proof {
        assert((3 * (width as int)) * (height as int) < 0x1_0000_0000_0000_0000_0000u128)
            by (nonlinear_arith)
            requires
                0 <= width < 0x1_0000_0000,
                0 <= height < 0x1_0000_0000,
        ;
    }
    let expected: u128 = 3 * (width as u128) * (height as u128);
    if (len as u128) == expected {
        Ok(())
    } else {
        Err(PipelineError::DecodeError)
    }
}

} // verus!
