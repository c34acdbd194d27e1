//! Verified operations on raw RGBA pixel buffers: rectangular cropping and
//! BGRA-to-RGBA channel reordering.
//!
//! A buffer holds `height` rows of `width` pixels, top-left origin, row-major,
//! 4 bytes (R, G, B, A) per pixel.

use crate::errors::Error;
use vstd::arithmetic::div_mod::lemma_fundamental_div_mod;
use vstd::arithmetic::div_mod::lemma_fundamental_div_mod_converse;
use vstd::prelude::*;

verus! {

/// A sequence of bytes is a well-formed `w`-by-`h` RGBA buffer when it holds
/// exactly 4 bytes per pixel.
pub open spec fn rgba_wf(data: Seq<u8>, w: int, h: int) -> bool {
    data.len() == 4 * w * h
}

/// The source byte index in the full image that byte `k` of the cropped
/// output reads from: byte `k` belongs to pixel `k / 4`, channel `k % 4`,
/// at output row `(k / 4) / w` and column `(k / 4) % w`.
pub open spec fn crop_src_index(src_w: int, x: int, y: int, w: int, k: int) -> int {
    let pix = k / 4;
    let c = k % 4;
    let row = pix / w;
    let col = pix % w;
    4 * ((y + row) * src_w + (x + col)) + c
}

/// The first `n` pixels (4·n bytes) of the crop of `data` at offset (x, y),
/// taken row-major with output width `w`.
pub open spec fn crop_prefix(data: Seq<u8>, src_w: int, x: int, y: int, w: int, n: int) -> Seq<
    u8,
> {
    Seq::new((4 * n) as nat, |k: int| data[crop_src_index(src_w, x, y, w, k)])
}

/// The `w`-by-`h` crop of `data` (an RGBA buffer `src_w` pixels wide) whose
/// top-left corner sits at (x, y) of the source.
pub open spec fn crop_bytes(data: Seq<u8>, src_w: int, x: int, y: int, w: int, h: int) -> Seq<
    u8,
> {
    crop_prefix(data, src_w, x, y, w, h * w)
}

/// Decomposing the flat byte index of channel `c` of pixel (i, j) recovers
/// the pixel number, the channel, the row and the column.
proof fn lemma_flat_index_parts(i: int, j: int, w: int, c: int)
    requires
        0 <= c < 4,
        0 <= j < w,
        0 <= i,
    ensures
        (4 * (i * w + j) + c) / 4 == i * w + j,
        (4 * (i * w + j) + c) % 4 == c,
        (i * w + j) / w == i,
        (i * w + j) % w == j,
{
    lemma_fundamental_div_mod_converse(4 * (i * w + j) + c, 4, i * w + j, c);
    lemma_fundamental_div_mod_converse(i * w + j, w, i, j);
}

/// A cell of a rows-by-cols grid has a flat index below rows·cols.
proof fn lemma_grid_bound(row: int, col: int, rows: int, cols: int) by (nonlinear_arith)
    requires
        0 <= row < rows,
        0 <= col < cols,
    ensures
        0 <= row * cols + col,
        4 * (row * cols + col) + 3 < 4 * (rows * cols),
        4 * (rows * cols) == 4 * cols * rows,
{
}

/// Advancing the pixel count by one row's worth or by one pixel.
proof fn lemma_count_step(i: int, w: int) by (nonlinear_arith)
    ensures
        (i + 1) * w == i * w + w,
{
}

/// Cropping the whole image is the identity.
pub proof fn lemma_crop_identity(data: Seq<u8>, w: int, h: int)
    requires
        0 <= w,
        0 <= h,
        rgba_wf(data, w, h),
    ensures
        crop_bytes(data, w, 0, 0, w, h) == data,
{
    assert(4 * (h * w) == 4 * w * h) by (nonlinear_arith);
    if w > 0 {
        assert forall|k: int| 0 <= k < 4 * (h * w) implies crop_src_index(w, 0, 0, w, k) == k by {
            let pix = k / 4;
            let c = k % 4;
            let row = pix / w;
            let col = pix % w;
            lemma_fundamental_div_mod(k, 4);
            lemma_fundamental_div_mod(pix, w);
            assert(k == 4 * pix + c);
            assert(pix == w * row + col);
            assert(crop_src_index(w, 0, 0, w, k) == 4 * (row * w + col) + c);
        }
        assert(crop_bytes(data, w, 0, 0, w, h) =~= data);
    } else {
        assert(4 * (h * w) == 0) by (nonlinear_arith)
            requires
                w == 0,
        ;
        assert(crop_bytes(data, w, 0, 0, w, h) =~= data);
    }
}

/// Crops the rectangle at (x, y), `w` wide and `h` high, out of an RGBA
/// buffer `src_w`-by-`src_h`. The rectangle must lie inside the source
/// (`x + w <= src_w` and `y + h <= src_h`; reaching the exact edge is fine)
/// or the crop is rejected with a bounds error; nothing panics and no
/// wrapped or partial pixels are ever returned.
pub fn crop_rgba(data: &Vec<u8>, src_w: u32, src_h: u32, x: u32, y: u32, w: u32, h: u32) -> (r:
    Result<Vec<u8>, Error>)
    requires
        rgba_wf(data@, src_w as int, src_h as int),
    ensures
        x + w <= src_w && y + h <= src_h ==> (r matches Ok(out) && out@ == crop_bytes(
            data@,
            src_w as int,
            x as int,
            y as int,
            w as int,
            h as int,
        )),
        !(x + w <= src_w && y + h <= src_h) ==> r == Err::<Vec<u8>, Error>(Error::Bounds),
{
    if !(x as u64 + w as u64 <= src_w as u64 && y as u64 + h as u64 <= src_h as u64) {
        return Err(Error::Bounds);
    }
    // bind the length so the prover sees that it fits in usize
    let _data_len: usize = data.len();
    let ghost gd = data@;
    let ghost gsw = src_w as int;
    let ghost gx = x as int;
    let ghost gy = y as int;
    let ghost gw = w as int;
    let mut out: Vec<u8> = Vec::new();
    proof {
        assert(out@ =~= crop_prefix(gd, gsw, gx, gy, gw, 0));
    }
    let mut i: u32 = 0;
    while i < h
        invariant
            rgba_wf(gd, gsw, src_h as int),
            gd == data@,
            gd.len() <= usize::MAX,
            gsw == src_w as int,
            gx == x as int,
            gy == y as int,
            gw == w as int,
            x + w <= src_w,
            y + h <= src_h,
            i <= h,
            out@ == crop_prefix(gd, gsw, gx, gy, gw, i as int * gw),
        decreases h - i,
    {
        let mut j: u32 = 0;
        while j < w
            invariant
                rgba_wf(gd, gsw, src_h as int),
                gd == data@,
                gd.len() <= usize::MAX,
                gsw == src_w as int,
                gx == x as int,
                gy == y as int,
                gw == w as int,
                x + w <= src_w,
                y + h <= src_h,
                i < h,
                j <= w,
                out@ == crop_prefix(gd, gsw, gx, gy, gw, i as int * gw + j as int),
            decreases w - j,
        {
            proof {
                lemma_grid_bound(gy + i, gx + j as int, src_h as int, gsw);
                lemma_grid_bound(i as int, j as int, h as int, gw);
            }
            let src_pix: usize = (y as usize + i as usize) * (src_w as usize) + (x as usize
                + j as usize);
            let off: usize = 4 * src_pix;
            let b0: u8 = data[off];
            let b1: u8 = data[off + 1];
            let b2: u8 = data[off + 2];
            let b3: u8 = data[off + 3];
            out.push(b0);
            out.push(b1);
            out.push(b2);
            out.push(b3);
            proof {
                let n = i as int * gw + j as int;
                let base = 4 * ((gy + i) * gsw + (gx + j));
                lemma_flat_index_parts(i as int, j as int, gw, 0);
                lemma_flat_index_parts(i as int, j as int, gw, 1);
                lemma_flat_index_parts(i as int, j as int, gw, 2);
                lemma_flat_index_parts(i as int, j as int, gw, 3);
                assert(crop_src_index(gsw, gx, gy, gw, 4 * n) == base);
                assert(crop_src_index(gsw, gx, gy, gw, 4 * n + 1) == base + 1);
                assert(crop_src_index(gsw, gx, gy, gw, 4 * n + 2) == base + 2);
                assert(crop_src_index(gsw, gx, gy, gw, 4 * n + 3) == base + 3);
                assert(out@ =~= crop_prefix(gd, gsw, gx, gy, gw, n + 1));
            }
            j = j + 1;
        }
        i = i + 1;
        proof {
            lemma_count_step(i as int - 1, gw);
            assert(out@ == crop_prefix(gd, gsw, gx, gy, gw, i as int * gw));
        }
    }
    proof {
        assert(out@ == crop_bytes(gd, gsw, gx, gy, gw, h as int));
    }
    Ok(out)
}

/// Where channel `c` of an output pixel whose BGRA bytes start at `base` is
/// read from: the R and B channels swap places, G and A stay.
pub open spec fn spec_swizzle(base: int, c: int) -> int {
    if c == 0 {
        base + 2
    } else if c == 1 {
        base + 1
    } else if c == 2 {
        base
    } else {
        base + 3
    }
}

/// The byte that position `k` of the RGBA output takes from a BGRA source
/// whose rows are `bpr` bytes apart and whose pixels are `bpp` bytes apart.
pub open spec fn bgra_src_index(bpr: int, bpp: int, w: int, k: int) -> int {
    let pix = k / 4;
    let c = k % 4;
    let row = pix / w;
    let col = pix % w;
    spec_swizzle(row * bpr + col * bpp, c)
}

/// The first `n` pixels of the RGBA image read off a BGRA source.
pub open spec fn rgba_prefix(raw: Seq<u8>, bpr: int, bpp: int, w: int, n: int) -> Seq<u8> {
    Seq::new((4 * n) as nat, |k: int| raw[bgra_src_index(bpr, bpp, w, k)])
}

/// The `w`-by-`h` RGBA image read off a BGRA source buffer with `bpr` bytes
/// per row and `bpp` bytes per pixel.
pub open spec fn rgba_from_bgra(raw: Seq<u8>, w: int, h: int, bpr: int, bpp: int) -> Seq<u8> {
    rgba_prefix(raw, bpr, bpp, w, h * w)
}

/// All four BGRA bytes of pixel (i, j) lie inside the raw buffer.
proof fn lemma_row_offset_bound(i: int, j: int, h: int, w: int, bpr: int, bpp: int, len: int) by (nonlinear_arith)
    requires
        0 <= i < h,
        0 <= j < w,
        4 <= bpp,
        w * bpp <= bpr,
        h * bpr <= len,
    ensures
        0 <= i * bpr,
        0 <= j * bpp,
        i * bpr + j * bpp + 3 < len,
{
}

/// Reorders a raw BGRA capture (as native surfaces hand it out, possibly with
/// padded rows) into a tightly packed top-left-origin RGBA buffer. This keeps
/// the capture adapter's promise that pixel data leaves it as RGBA regardless
/// of the byte order of the underlying surface.
pub fn bgra_to_rgba(
    raw: &Vec<u8>,
    width: u32,
    height: u32,
    bytes_per_row: usize,
    bytes_per_pixel: usize,
) -> (r: Vec<u8>)
    requires
        4 <= bytes_per_pixel,
        width as int * bytes_per_pixel as int <= bytes_per_row as int,
        height as int * bytes_per_row as int <= raw@.len(),
    ensures
        r@ == rgba_from_bgra(
            raw@,
            width as int,
            height as int,
            bytes_per_row as int,
            bytes_per_pixel as int,
        ),
        r@.len() == 4 * (width as int) * (height as int),
{
    // bind the length so the prover sees that it fits in usize
    let _raw_len: usize = raw.len();
    let ghost gr = raw@;
    let ghost gbpr = bytes_per_row as int;
    let ghost gbpp = bytes_per_pixel as int;
    let ghost gw = width as int;
    let mut out: Vec<u8> = Vec::new();
    proof {
        assert(out@ =~= rgba_prefix(gr, gbpr, gbpp, gw, 0));
    }
    let mut i: u32 = 0;
    while i < height
        invariant
            4 <= gbpp,
            gw * gbpp <= gbpr,
            height as int * gbpr <= gr.len(),
            gr.len() <= usize::MAX,
            gr == raw@,
            gbpr == bytes_per_row as int,
            gbpp == bytes_per_pixel as int,
            gw == width as int,
            i <= height,
            out@ == rgba_prefix(gr, gbpr, gbpp, gw, i as int * gw),
        decreases height - i,
    {
        let mut j: u32 = 0;
        while j < width
            invariant
                4 <= gbpp,
                gw * gbpp <= gbpr,
                height as int * gbpr <= gr.len(),
                gr.len() <= usize::MAX,
                gr == raw@,
                gbpr == bytes_per_row as int,
                gbpp == bytes_per_pixel as int,
                gw == width as int,
                i < height,
                j <= width,
                out@ == rgba_prefix(gr, gbpr, gbpp, gw, i as int * gw + j as int),
            decreases width - j,
        {
            proof {
                lemma_row_offset_bound(
                    i as int,
                    j as int,
                    height as int,
                    gw,
                    gbpr,
                    gbpp,
                    gr.len() as int,
                );
            }
            let base: usize = (i as usize) * bytes_per_row + (j as usize) * bytes_per_pixel;
            let b: u8 = raw[base];
            let g: u8 = raw[base + 1];
            let rr: u8 = raw[base + 2];
            let a: u8 = raw[base + 3];
            out.push(rr);
            out.push(g);
            out.push(b);
            out.push(a);
            proof {
                let n = i as int * gw + j as int;
                let base = i as int * gbpr + j as int * gbpp;
                lemma_flat_index_parts(i as int, j as int, gw, 0);
                lemma_flat_index_parts(i as int, j as int, gw, 1);
                lemma_flat_index_parts(i as int, j as int, gw, 2);
                lemma_flat_index_parts(i as int, j as int, gw, 3);
                assert(bgra_src_index(gbpr, gbpp, gw, 4 * n) == base + 2);
                assert(bgra_src_index(gbpr, gbpp, gw, 4 * n + 1) == base + 1);
                assert(bgra_src_index(gbpr, gbpp, gw, 4 * n + 2) == base);
                assert(bgra_src_index(gbpr, gbpp, gw, 4 * n + 3) == base + 3);
                assert(out@ =~= rgba_prefix(gr, gbpr, gbpp, gw, n + 1));
            }
            j = j + 1;
        }
        i = i + 1;
        proof {
            lemma_count_step(i as int - 1, gw);
            assert(out@ == rgba_prefix(gr, gbpr, gbpp, gw, i as int * gw));
        }
    }
    proof {
        assert(out@ == rgba_from_bgra(gr, gw, height as int, gbpr, gbpp));
        assert(4 * (height as int * gw) == 4 * gw * (height as int)) by (nonlinear_arith);
    }
    out
}

} // verus!
