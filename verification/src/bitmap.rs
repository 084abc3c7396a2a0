//! Packing a luminance raster into the printer's compressed-hex graphic
//! format: one bit per pixel, rows padded to whole bytes with white, two
//! uppercase hexadecimal characters per byte.

use crate::model::Bitmap;
use crate::text::push_dec_u64;
use crate::text::push_hex_byte;
use crate::text::spec_dec_nat;
use crate::text::spec_hex_byte;
use vstd::prelude::*;
use vstd::string::StringExecFns;

verus! {

/// Packed bytes per row: the pixel width padded up to the next multiple of
/// 8, divided by 8.
pub open spec fn spec_bytes_per_row(width: nat) -> nat {
    (width + 7) / 8
}

/// Whether the packed bit for column `x` of row `y` is set: the column lies
/// inside the raster, its sample exists, and its luminance is below 128.
/// Padding columns and missing samples count as white and stay clear.
pub open spec fn spec_bit(bmp: Bitmap, y: int, x: int) -> bool {
    &&& 0 <= x < bmp.width
    &&& y * bmp.width + x < bmp.pixels@.len()
    &&& bmp.pixels@[y * bmp.width + x] < 128
}

/// The packed byte covering columns `8i .. 8i + 8` of row `y`, most
/// significant bit first.
pub open spec fn spec_row_byte(bmp: Bitmap, y: int, i: int) -> nat {
    (if spec_bit(bmp, y, 8 * i) {
        128nat
    } else {
        0nat
    }) + (if spec_bit(bmp, y, 8 * i + 1) {
        64nat
    } else {
        0nat
    }) + (if spec_bit(bmp, y, 8 * i + 2) {
        32nat
    } else {
        0nat
    }) + (if spec_bit(bmp, y, 8 * i + 3) {
        16nat
    } else {
        0nat
    }) + (if spec_bit(bmp, y, 8 * i + 4) {
        8nat
    } else {
        0nat
    }) + (if spec_bit(bmp, y, 8 * i + 5) {
        4nat
    } else {
        0nat
    }) + (if spec_bit(bmp, y, 8 * i + 6) {
        2nat
    } else {
        0nat
    }) + (if spec_bit(bmp, y, 8 * i + 7) {
        1nat
    } else {
        0nat
    })
}

/// The hex text of the first `i` packed bytes of row `y`.
pub open spec fn spec_row_hex_prefix(bmp: Bitmap, y: int, i: int) -> Seq<char>
    decreases i,
{
    if i <= 0 {
        Seq::empty()
    } else {
        spec_row_hex_prefix(bmp, y, i - 1) + spec_hex_byte(spec_row_byte(bmp, y, i - 1))
    }
}

/// The hex text of one whole packed row.
pub open spec fn spec_row_hex(bmp: Bitmap, y: int) -> Seq<char> {
    spec_row_hex_prefix(bmp, y, spec_bytes_per_row(bmp.width as nat) as int)
}

/// The hex text of the first `y` rows, top to bottom.
pub open spec fn spec_rows_hex(bmp: Bitmap, y: int) -> Seq<char>
    decreases y,
{
    if y <= 0 {
        Seq::empty()
    } else {
        spec_rows_hex(bmp, y - 1) + spec_row_hex(bmp, y - 1)
    }
}

/// The whole hex payload: every row of the raster.
pub open spec fn spec_hex_payload(bmp: Bitmap) -> Seq<char> {
    spec_rows_hex(bmp, bmp.height as int)
}

/// Total packed bytes across the raster.
pub open spec fn spec_total_bytes(bmp: Bitmap) -> nat {
    (bmp.height as nat) * spec_bytes_per_row(bmp.width as nat)
}

/// The graphic-field directive embedding the packed raster: the byte count
/// (twice), the bytes per row, and the hex payload.
pub open spec fn spec_image_zpl(bmp: Bitmap) -> Seq<char> {
    "^GFA,"@ + spec_dec_nat(spec_total_bytes(bmp)) + ", "@ + spec_dec_nat(spec_total_bytes(bmp))
        + ", "@ + spec_dec_nat(spec_bytes_per_row(bmp.width as nat)) + ","@ + spec_hex_payload(bmp)
        + "\n"@
}

fn bit_at(bmp: &Bitmap, y: u32, x: u64) -> (r: bool)
    ensures
        r == spec_bit(*bmp, y as int, x as int),
{
    if x < bmp.width as u64 {
        proof {
            assert((y as int) * (bmp.width as int) + (x as int) < 0xffff_ffff_ffff_ffff)
                by (nonlinear_arith)
                requires
                    y as int <= 0xffff_ffff,
                    bmp.width as int <= 0xffff_ffff,
                    0 <= (x as int) && (x as int) < (bmp.width as int),
                    0 <= y as int;
        }
        let idx: u64 = (y as u64) * (bmp.width as u64) + x;
        if idx < bmp.pixels.len() as u64 {
            bmp.pixels[idx as usize] < 128
        } else {
            false
        }
    } else {
        false
    }
}

fn row_byte_at(bmp: &Bitmap, y: u32, i: u64) -> (b: u8)
    requires
        i < 0x2000_0000,
    ensures
        b as nat == spec_row_byte(*bmp, y as int, i as int),
{
    let base: u64 = 8 * i;
    let mut b: u8 = 0;
    if bit_at(bmp, y, base) {
        b = b + 128;
    }
    if bit_at(bmp, y, base + 1) {
        b = b + 64;
    }
    if bit_at(bmp, y, base + 2) {
        b = b + 32;
    }
    if bit_at(bmp, y, base + 3) {
        b = b + 16;
    }
    if bit_at(bmp, y, base + 4) {
        b = b + 8;
    }
    if bit_at(bmp, y, base + 5) {
        b = b + 4;
    }
    if bit_at(bmp, y, base + 6) {
        b = b + 2;
    }
    if bit_at(bmp, y, base + 7) {
        b = b + 1;
    }
    b
}

/// Serializes a raster into the graphic-field directive. A pixel is dark
/// (bit set) when its luminance is below 128; rows are padded to a multiple
/// of 8 columns with white; each packed byte renders as two uppercase hex
/// characters, rows in order, top to bottom.
pub fn image_to_zpl(bmp: &Bitmap) -> (res: String)
    ensures
        res@ == spec_image_zpl(*bmp),
{
    let width = bmp.width;
    let height = bmp.height;
    let bpr: u64 = (width as u64 + 7) / 8;
    let mut hex = String::new();
    proof {
        assert(hex@ =~= spec_rows_hex(*bmp, 0));
    }
    let mut y: u32 = 0;
    while y < height
        invariant
            width == bmp.width,
            height == bmp.height,
            bpr as nat == spec_bytes_per_row(bmp.width as nat),
            y <= height,
            hex@ == spec_rows_hex(*bmp, y as int),
        decreases height - y,
    {
        let mut i: u64 = 0;
        while i < bpr
            invariant
                width == bmp.width,
                bpr as nat == spec_bytes_per_row(bmp.width as nat),
                i <= bpr,
                hex@ == spec_rows_hex(*bmp, y as int) + spec_row_hex_prefix(
                    *bmp,
                    y as int,
                    i as int,
                ),
            decreases bpr - i,
        {
            let b = row_byte_at(bmp, y, i);
            push_hex_byte(&mut hex, b);
            proof {
                assert(hex@ =~= spec_rows_hex(*bmp, y as int) + spec_row_hex_prefix(
                    *bmp,
                    y as int,
                    i as int + 1,
                ));
            }
            i = i + 1;
        }
        proof {
            assert(spec_rows_hex(*bmp, y as int + 1) == spec_rows_hex(*bmp, y as int)
                + spec_row_hex(*bmp, y as int));
        }
        y = y + 1;
    }
    proof {
        assert((height as int) * (bpr as int) <= 0x1_0000_0000_0000_0000 - 1) by (nonlinear_arith)
            requires
                0 <= height as int <= 0xffff_ffff,
                0 <= bpr as int <= 0x2000_0000;
    }
    let total: u64 = (height as u64) * bpr;
    let mut out = String::new();
    out.append("^GFA,");
    push_dec_u64(&mut out, total);
    out.append(", ");
    push_dec_u64(&mut out, total);
    out.append(", ");
    push_dec_u64(&mut out, bpr);
    out.append(",");
    out.append(hex.as_str());
    out.append("\n");
    proof {
        assert(out@ =~= spec_image_zpl(*bmp));
    }
    out
}

proof fn lemma_sample_index_in_bounds(bmp: Bitmap, y: int, x: int)
    requires
        bmp.wf(),
        0 <= y < bmp.height,
        0 <= x < bmp.width,
    ensures
        0 <= y * bmp.width + x < bmp.pixels@.len(),
{
    assert(0 <= y * bmp.width + x < bmp.width * bmp.height) by (nonlinear_arith)
        requires
            0 <= y < bmp.height,
            0 <= x < bmp.width;
}

/// For a well-formed raster, a packed bit inside the raster is set exactly
/// when its luminance sample is below 128: the bounds tests in `spec_bit`
/// never mask a sample of a well-formed raster.
pub proof fn lemma_bit_of_wf_sample(bmp: Bitmap, y: int, x: int)
    requires
        bmp.wf(),
        0 <= y < bmp.height,
        0 <= x < bmp.width,
    ensures
        spec_bit(bmp, y, x) == (bmp.pixels@[y * bmp.width + x] < 128),
{
    lemma_sample_index_in_bounds(bmp, y, x);
}

/// Bytes per row is the ceiling of width over 8: exact for a width that is
/// a multiple of 8, one byte more otherwise.
pub proof fn lemma_bytes_per_row_is_ceil(width: nat)
    ensures
        width % 8 == 0 ==> spec_bytes_per_row(width) == width / 8,
        width % 8 != 0 ==> spec_bytes_per_row(width) == width / 8 + 1,
{
}

/// A packed byte whose in-raster pixels are all light (luminance at least
/// 128) is zero: the padding columns never set a bit, so padding cannot
/// flip a boundary byte whose raster pixels are light.
pub proof fn lemma_light_byte_is_zero(bmp: Bitmap, y: int, i: int)
    requires
        0 <= y,
        0 <= i,
        forall|x: int|
            8 * i <= x < 8 * i + 8 && 0 <= x < bmp.width ==> #[trigger] bmp.pixels@[y * bmp.width
                + x] >= 128,
    ensures
        spec_row_byte(bmp, y, i) == 0,
{
    assert forall|x: int| 8 * i <= x < 8 * i + 8 implies !spec_bit(bmp, y, x) by {
        if 0 <= x < bmp.width {
            assert(bmp.pixels@[y * bmp.width + x] >= 128);
        }
    }
    assert(!spec_bit(bmp, y, 8 * i));
    assert(!spec_bit(bmp, y, 8 * i + 1));
    assert(!spec_bit(bmp, y, 8 * i + 2));
    assert(!spec_bit(bmp, y, 8 * i + 3));
    assert(!spec_bit(bmp, y, 8 * i + 4));
    assert(!spec_bit(bmp, y, 8 * i + 5));
    assert(!spec_bit(bmp, y, 8 * i + 6));
    assert(!spec_bit(bmp, y, 8 * i + 7));
}

/// In a fully dark raster, every packed byte that covers raster columns
/// alone is 0xFF.
pub proof fn lemma_dark_full_byte(bmp: Bitmap, y: int, i: int)
    requires
        bmp.wf(),
        0 <= y < bmp.height,
        0 <= i,
        8 * i + 8 <= bmp.width,
        forall|k: int| 0 <= k < bmp.pixels@.len() ==> bmp.pixels@[k] < 128,
    ensures
        spec_row_byte(bmp, y, i) == 255,
{
    assert forall|x: int| 8 * i <= x < 8 * i + 8 implies spec_bit(bmp, y, x) by {
        lemma_sample_index_in_bounds(bmp, y, x);
        assert(bmp.pixels@[y * bmp.width + x] < 128);
    }
    assert(spec_bit(bmp, y, 8 * i));
    assert(spec_bit(bmp, y, 8 * i + 1));
    assert(spec_bit(bmp, y, 8 * i + 2));
    assert(spec_bit(bmp, y, 8 * i + 3));
    assert(spec_bit(bmp, y, 8 * i + 4));
    assert(spec_bit(bmp, y, 8 * i + 5));
    assert(spec_bit(bmp, y, 8 * i + 6));
    assert(spec_bit(bmp, y, 8 * i + 7));
}

/// In a fully dark raster whose width is not a multiple of 8, each row's
/// boundary byte has exactly its top `width % 8` bits set: it is never
/// zeroed by the padding, which fills only the low bits.
pub proof fn lemma_dark_boundary_byte(bmp: Bitmap, y: int)
    requires
        bmp.wf(),
        0 <= y < bmp.height,
        bmp.width % 8 != 0,
        forall|k: int| 0 <= k < bmp.pixels@.len() ==> bmp.pixels@[k] < 128,
    ensures
        spec_row_byte(bmp, y, bmp.width as int / 8) == (if bmp.width % 8 == 1 {
            128nat
        } else if bmp.width % 8 == 2 {
            192nat
        } else if bmp.width % 8 == 3 {
            224nat
        } else if bmp.width % 8 == 4 {
            240nat
        } else if bmp.width % 8 == 5 {
            248nat
        } else if bmp.width % 8 == 6 {
            252nat
        } else {
            254nat
        }),
{
    let i = bmp.width as int / 8;
    assert(8 * i + bmp.width % 8 == bmp.width);
    assert forall|x: int| 8 * i <= x < 8 * i + 8 implies spec_bit(bmp, y, x) == (x
        < bmp.width) by {
        if 0 <= x < bmp.width {
            lemma_sample_index_in_bounds(bmp, y, x);
            assert(bmp.pixels@[y * bmp.width + x] < 128);
        }
    }
    assert(spec_bit(bmp, y, 8 * i) == (8 * i < bmp.width));
    assert(spec_bit(bmp, y, 8 * i + 1) == (8 * i + 1 < bmp.width));
    assert(spec_bit(bmp, y, 8 * i + 2) == (8 * i + 2 < bmp.width));
    assert(spec_bit(bmp, y, 8 * i + 3) == (8 * i + 3 < bmp.width));
    assert(spec_bit(bmp, y, 8 * i + 4) == (8 * i + 4 < bmp.width));
    assert(spec_bit(bmp, y, 8 * i + 5) == (8 * i + 5 < bmp.width));
    assert(spec_bit(bmp, y, 8 * i + 6) == (8 * i + 6 < bmp.width));
    assert(spec_bit(bmp, y, 8 * i + 7) == (8 * i + 7 < bmp.width));
}

} // verus!
