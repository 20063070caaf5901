use vstd::prelude::*;
use vstd::arithmetic::div_mod::lemma_fundamental_div_mod_converse;

use crate::error::TextureError;

verus! {

/// The number of bytes that an RGBA8 image of the given size holds.
pub open spec fn rgba_len(width: int, height: int) -> int {
    width * height * 4
}

/// The rows of `s`, each `row_len` elements long, in reverse order.
///
/// A texture keeps its rows bottom-up, so this maps between the visual
/// top-to-bottom order and the order in which the texture stores them.
pub open spec fn flip_rows(s: Seq<u8>, row_len: nat, rows: nat) -> Seq<u8> {
    Seq::new(
        row_len * rows,
        |i: int| s[(rows - 1 - i / (row_len as int)) * row_len + i % (row_len as int)],
    )
}

/// What the mapped contents of a texture hold after an upload of `rgba`, a
/// `width` by `height` RGBA8 image given top row first: a texture stores its
/// rows bottom row first.
pub open spec fn stored_rows(rgba: Seq<u8>, width: nat, height: nat) -> Seq<u8> {
    flip_rows(rgba, width * 4, height)
}

/// The error that a raw upload of `len` bytes at the given size fails with, if any.
pub open spec fn raw_error(width: u16, height: u16, len: int) -> Option<TextureError> {
    if width == 0 || height == 0 {
        Some(TextureError::InvalidSize { width: width as u32, height: height as u32 })
    } else if len != rgba_len(width as int, height as int) {
        Some(
            TextureError::SizeMismatch {
                width: width as u32,
                height: height as u32,
                expected: rgba_len(width as int, height as int) as u64,
                actual: len as u64,
            },
        )
    } else {
        None
    }
}

pub(crate) proof fn lemma_rgba_len_bound(width: u16, height: u16)
    ensures
        0 <= (width as int) * (height as int) <= 65535 * 65535,
        rgba_len(width as int, height as int) <= 4 * 65535 * 65535,
{
    assert(0 <= (width as int) * (height as int) <= 65535 * 65535) by (nonlinear_arith)
        requires
            width <= 65535,
            height <= 65535,
    ;
}

/// Checks the parameters of a raw RGBA8 upload before anything is allocated:
/// both dimensions must be nonzero, and `rgba` must hold exactly
/// `width * height * 4` bytes.
pub fn check_raw(width: u16, height: u16, rgba: &[u8]) -> (r: Result<(), TextureError>)
    ensures
        r is Ok <==> raw_error(width, height, rgba@.len() as int) is None,
        r is Err ==> r == Err::<(), TextureError>(raw_error(width, height, rgba@.len() as int)->Some_0),
{
    if width == 0 || height == 0 {
        return Err(TextureError::InvalidSize { width: width as u32, height: height as u32 });
    }
    proof {
        lemma_rgba_len_bound(width, height);
    }
    let expected: u64 = width as u64 * height as u64 * 4;
    if expected != rgba.len() as u64 {
        Err(
            TextureError::SizeMismatch {
                width: width as u32,
                height: height as u32,
                expected,
                actual: rgba.len() as u64,
            },
        )
    } else {
        Ok(())
    }
}

/// Turns the mapped contents of a texture, stored bottom row first, into
/// RGBA8 bytes ordered top row first, left to right.
///
/// Fails, and returns no partial data, when `mapped` does not hold the whole
/// `width` by `height` texture.
pub fn rows_top_down(mapped: &[u8], width: u16, height: u16) -> (r: Result<Vec<u8>, TextureError>)
    ensures
        r is Ok <==> mapped@.len() == rgba_len(width as int, height as int),
        r is Ok ==> r->Ok_0@ == flip_rows(mapped@, (width * 4) as nat, height as nat),
        r is Err ==> r == Err::<Vec<u8>, TextureError>(
            TextureError::IncompleteReadback {
                expected: rgba_len(width as int, height as int) as u64,
                actual: mapped@.len() as u64,
            },
        ),
{
    proof {
        lemma_rgba_len_bound(width, height);
    }
    let expected: u64 = width as u64 * height as u64 * 4;
    if expected != mapped.len() as u64 {
        return Err(TextureError::IncompleteReadback { expected, actual: mapped.len() as u64 });
    }
    let row_len: usize = width as usize * 4;
    let rows: usize = height as usize;
    let ghost rl = row_len as int;
    let ghost hh = rows as int;
    assert(mapped@.len() == rl * hh) by (nonlinear_arith)
        requires
            mapped@.len() == (width as int) * (height as int) * 4,
            rl == width * 4,
            hh == height as int,
    ;
    assert(mapped@.len() <= usize::MAX);
    let mut out: Vec<u8> = Vec::with_capacity(mapped.len());
    let mut r: usize = 0;
    while r < rows
        invariant
            rl == row_len as int,
            hh == rows as int,
            mapped@.len() == rl * hh,
            mapped@.len() <= usize::MAX,
            r <= rows,
            out@.len() == r * rl,
            forall|i: int|
                0 <= i < out@.len() ==> out@[i] == mapped@[(hh - 1 - i / rl) * rl + i % rl],
        decreases rows - r,
    {
        assert((hh - 1 - r) * rl + rl <= hh * rl) by (nonlinear_arith)
            requires
                0 <= r < hh,
                rl >= 0,
        ;
        assert(0 <= (hh - 1 - r) * rl) by (nonlinear_arith)
            requires
                0 <= r < hh,
                rl >= 0,
        ;
        assert((hh - 1 - r) * rl <= usize::MAX);
        let start: usize = (rows - 1 - r) * row_len;
        let mut c: usize = 0;
        while c < row_len
            invariant
                rl == row_len as int,
                hh == rows as int,
                mapped@.len() == rl * hh,
                mapped@.len() <= usize::MAX,
                r < rows,
                start == (hh - 1 - r) * rl,
                start + rl <= mapped@.len(),
                c <= row_len,
                out@.len() == r * rl + c,
                forall|i: int|
                    0 <= i < out@.len() ==> out@[i] == mapped@[(hh - 1 - i / rl) * rl + i % rl],
            decreases row_len - c,
        {
            let ghost i = out@.len() as int;
            out.push(mapped[start + c]);
            proof {
                lemma_fundamental_div_mod_converse(i, rl, r as int, c as int);
            }
            c += 1;
        }
        assert(out@.len() == (r + 1) * rl) by (nonlinear_arith)
            requires
                out@.len() == r * rl + rl,
        ;
        r += 1;
    }
    assert(out@.len() == rl * hh) by (nonlinear_arith)
        requires
            out@.len() == r * rl,
            r == hh,
    ;
    assert(out@ =~= flip_rows(mapped@, (width * 4) as nat, height as nat));
    Ok(out)
}

/// Whether `pixels` is a `size` by `size` RGBA8 image whose every pixel is `color`.
pub open spec fn is_solid(pixels: Seq<u8>, size: u16, color: Seq<u8>) -> bool {
    &&& pixels.len() == rgba_len(size as int, size as int)
    &&& forall|i: int| 0 <= i < pixels.len() ==> pixels[i] == color[i % 4]
}

/// The RGBA8 bytes of a `size` by `size` square of one color.
///
/// A size of zero fails with the error that a zero-sized upload gets.
pub fn solid_rgba8(size: u16, color: [u8; 4]) -> (r: Result<Vec<u8>, TextureError>)
    ensures
        r is Ok <==> size > 0,
        r is Ok ==> is_solid(r->Ok_0@, size, color@),
        r is Ok ==> raw_error(size, size, r->Ok_0@.len() as int) is None,
        r is Err ==> r == Err::<Vec<u8>, TextureError>(raw_error(size, size, 0)->Some_0),
{
    if size == 0 {
        return Err(TextureError::InvalidSize { width: 0, height: 0 });
    }
    proof {
        lemma_rgba_len_bound(size, size);
    }
    let count: usize = size as usize * size as usize;
    let mut out: Vec<u8> = Vec::new();
    let mut p: usize = 0;
    while p < count
        invariant
            count == (size as int) * (size as int),
            count <= 65535 * 65535,
            p <= count,
            out@.len() == p * 4,
            forall|i: int| 0 <= i < out@.len() ==> out@[i] == color@[i % 4],
        decreases count - p,
    {
        let mut k: usize = 0;
        while k < 4
            invariant
                p < count,
                count <= 65535 * 65535,
                k <= 4,
                out@.len() == p * 4 + k,
                forall|i: int| 0 <= i < out@.len() ==> out@[i] == color@[i % 4],
            decreases 4 - k,
        {
            let ghost i = out@.len() as int;
            out.push(color[k]);
            proof {
                lemma_fundamental_div_mod_converse(i, 4, p as int, k as int);
            }
            k += 1;
        }
        p += 1;
    }
    assert(out@.len() == rgba_len(size as int, size as int));
    Ok(out)
}

/// Uploading RGBA8 bytes and reading them back gives the same bytes: the
/// texture holds the rows bottom-up, and readback puts them top-down again.
pub proof fn lemma_readback_round_trip(rgba: Seq<u8>, width: u16, height: u16)
    requires
        rgba.len() == rgba_len(width as int, height as int),
    ensures
        flip_rows(stored_rows(rgba, width as nat, height as nat), (width * 4) as nat, height as nat)
            == rgba,
{
    let rl = (width * 4) as nat;
    let hh = height as nat;
    let once = flip_rows(rgba, rl, hh);
    let twice = flip_rows(once, rl, hh);
    assert(rgba.len() == rl * hh) by (nonlinear_arith)
        requires
            rgba.len() == (width as int) * (height as int) * 4,
            rl == width * 4,
            hh == height as int,
    ;
    assert forall|i: int| 0 <= i < rgba.len() implies twice[i] == rgba[i] by {
        let q = i / (rl as int);
        let m = i % (rl as int);
        assert(rl > 0) by (nonlinear_arith)
            requires
                0 <= i < rl * hh,
        ;
        assert(i == q * rl + m && 0 <= m < rl && 0 <= q < hh) by (nonlinear_arith)
            requires
                rl > 0,
                q == i / (rl as int),
                m == i % (rl as int),
                0 <= i < rl * hh,
        ;
        let j = (hh - 1 - q) * rl + m;
        assert(0 <= j < rl * hh) by (nonlinear_arith)
            requires
                j == (hh - 1 - q) * rl + m,
                0 <= q < hh,
                0 <= m < rl,
        ;
        lemma_fundamental_div_mod_converse(j, rl as int, hh - 1 - q, m);
    }
    assert(twice =~= rgba);
}

/// The stored form of an image's pixels holds as many bytes as the image.
pub proof fn lemma_stored_len(rgba: Seq<u8>, width: u16, height: u16)
    ensures
        stored_rows(rgba, width as nat, height as nat).len() == rgba_len(width as int, height as int),
{
    assert(((width * 4) as nat) * (height as nat) == (width as int) * (height as int) * 4)
        by (nonlinear_arith);
}

/// Two readbacks of the same texture contents give the same bytes.
pub proof fn lemma_readback_repeatable(first: Seq<u8>, second: Seq<u8>, width: u16, height: u16)
    requires
        first == second,
    ensures
        flip_rows(first, (width * 4) as nat, height as nat) == flip_rows(
            second,
            (width * 4) as nat,
            height as nat,
        ),
{
}

/// The first row that readback yields is the top row of the image, which the
/// texture stores last.
pub proof fn lemma_first_row_is_top(mapped: Seq<u8>, width: u16, height: u16, col: int)
    requires
        mapped.len() == rgba_len(width as int, height as int),
        height > 0,
        0 <= col < width * 4,
    ensures
        flip_rows(mapped, (width * 4) as nat, height as nat)[col] == mapped[(height - 1) * (
        width * 4) + col],
{
    let rl = (width * 4) as int;
    assert(col < rl * height) by (nonlinear_arith)
        requires
            0 <= col < rl,
            height > 0,
    ;
    lemma_fundamental_div_mod_converse(col, rl, 0, col);
}

} // verus!
