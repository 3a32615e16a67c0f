//! Assembly of a rendered frame into the byte buffer the PNG encoder takes:
//! the order in which scanlines are rendered, and the row-major flattening.

use vstd::prelude::*;

verus! {

/// The three bytes of one RGB pixel, in order.
pub open spec fn pixel_bytes(px: [u8; 3]) -> Seq<u8> {
    seq![px@[0], px@[1], px@[2]]
}

/// The bytes of one row of pixels, pixel after pixel.
pub open spec fn row_bytes(row: Seq<[u8; 3]>) -> Seq<u8>
    decreases row.len(),
{
    if row.len() == 0 {
        Seq::empty()
    } else {
        row_bytes(row.drop_last()) + pixel_bytes(row.last())
    }
}

/// The bytes of a frame given as rows: row after row, each as `row_bytes`.
pub open spec fn frame_bytes(rows: Seq<Vec<[u8; 3]>>) -> Seq<u8>
    decreases rows.len(),
{
    if rows.len() == 0 {
        Seq::empty()
    } else {
        frame_bytes(rows.drop_last()) + row_bytes(rows.last()@)
    }
}

/// Every row holds exactly `width` pixels.
pub open spec fn rows_of_width(rows: Seq<Vec<[u8; 3]>>, width: nat) -> bool {
    forall|r: int| 0 <= r < rows.len() ==> (#[trigger] rows[r])@.len() == width
}

/// Flattens the rendered rows, in order, into one buffer of RGB bytes.
pub fn flatten_rows(rows: &Vec<Vec<[u8; 3]>>) -> (buf: Vec<u8>)
    ensures
        buf@ == frame_bytes(rows@),
{
    let mut buf: Vec<u8> = Vec::new();
    let mut r: usize = 0;
    while r < rows.len()
        invariant
            r <= rows@.len(),
            buf@ == frame_bytes(rows@.take(r as int)),
        decreases rows@.len() - r,
    {
        let row = &rows[r];
        let ghost before = buf@;
        let mut i: usize = 0;
        while i < row.len()
            invariant
                i <= row@.len(),
                row == rows@[r as int],
                buf@ == before + row_bytes(row@.take(i as int)),
            decreases row@.len() - i,
        {
            let px = row[i];
            buf.push(px[0]);
            buf.push(px[1]);
            buf.push(px[2]);
            assert(row@.take(i + 1).drop_last() =~= row@.take(i as int));
            assert(buf@ =~= before + row_bytes(row@.take(i + 1)));
            i = i + 1;
        }
        assert(row@.take(row@.len() as int) =~= row@);
        assert(rows@.take(r + 1).drop_last() =~= rows@.take(r as int));
        r = r + 1;
    }
    assert(rows@.take(rows@.len() as int) =~= rows@);
    buf
}

/// The order in which scanlines are rendered and stored: from the top
/// scanline (`height - 1`) down to scanline `0`.
pub fn scanline_order(height: usize) -> (order: Vec<usize>)
    ensures
        order@.len() == height,
        forall|r: int| 0 <= r < height ==> #[trigger] order@[r] == height - 1 - r,
{
    let mut order: Vec<usize> = Vec::new();
    let mut j: usize = height;
    while j > 0
        invariant
            j <= height,
            order@.len() == height - j,
            forall|r: int| 0 <= r < order@.len() ==> #[trigger] order@[r] == height - 1 - r,
        decreases j,
    {
        j = j - 1;
        order.push(j);
    }
    order
}

/// A row of `n` pixels is `3 * n` bytes, pixel `i` at offset `3 * i`.
pub proof fn lemma_row_bytes_layout(row: Seq<[u8; 3]>)
    ensures
        row_bytes(row).len() == 3 * row.len(),
        forall|i: int, k: int|
            0 <= i < row.len() && 0 <= k < 3 ==> #[trigger] row_bytes(row)[3 * i + k] == row[i]@[k],
    decreases row.len(),
{
    if row.len() > 0 {
        let front = row.drop_last();
        lemma_row_bytes_layout(front);
        assert forall|i: int, k: int| 0 <= i < row.len() && 0 <= k < 3 implies #[trigger] row_bytes(
            row,
        )[3 * i + k] == row[i]@[k] by {
            if i < front.len() {
                assert(row[i] == front[i]);
            }
        }
    }
}

/// A frame of rows that are all `width` pixels wide is
/// `3 * width * rows.len()` bytes, and the pixel in row `r`, column `i` has
/// its byte `k` at offset `3 * (width * r + i) + k`: row-major RGB.
pub proof fn lemma_frame_bytes_layout(rows: Seq<Vec<[u8; 3]>>, width: nat)
    requires
        rows_of_width(rows, width),
    ensures
        frame_bytes(rows).len() == 3 * width * rows.len(),
        forall|r: int, i: int, k: int|
            0 <= r < rows.len() && 0 <= i < width && 0 <= k < 3 ==> #[trigger] frame_bytes(
                rows,
            )[3 * (width * r + i) + k] == rows[r]@[i]@[k],
    decreases rows.len(),
{
    if rows.len() > 0 {
        let front = rows.drop_last();
        let h = rows.len() - 1;
        assert(rows_of_width(front, width)) by {
            assert forall|r: int| 0 <= r < front.len() implies (#[trigger] front[r])@.len()
                == width by {
                assert(front[r] == rows[r]);
            }
        }
        lemma_frame_bytes_layout(front, width);
        lemma_row_bytes_layout(rows.last()@);
        assert(rows[h]@.len() == width);
        assert(3 * width * rows.len() == 3 * width * h + 3 * width) by (nonlinear_arith)
            requires
                h == rows.len() - 1,
        ;
        assert forall|r: int, i: int, k: int|
            0 <= r < rows.len() && 0 <= i < width && 0 <= k < 3 implies #[trigger] frame_bytes(
                rows,
            )[3 * (width * r + i) + k] == rows[r]@[i]@[k] by {
            let off = 3 * (width * r + i) + k;
            if r < h {
                assert(off < 3 * width * h) by (nonlinear_arith)
                    requires
                        0 <= r < h,
                        0 <= i < width,
                        0 <= k < 3,
                        off == 3 * (width * r + i) + k,
                ;
                assert(front[r] == rows[r]);
            } else {
                assert(off == 3 * width * h + (3 * i + k)) by (nonlinear_arith)
                    requires
                        r == h,
                        off == 3 * (width * r + i) + k,
                ;
                assert(rows.last() == rows[h]);
            }
        }
    }
}

/// Scanline `j` of a frame whose rows were rendered in `scanline_order`
/// lands in image row `height - 1 - j`: the top scanline is the first row
/// of the buffer, so the stored image is upright. Its pixel `i` has byte
/// `k` at offset `3 * (width * (height - 1 - j) + i) + k`.
pub proof fn lemma_scanline_placement(
    order: Seq<usize>,
    rows: Seq<Vec<[u8; 3]>>,
    width: nat,
    j: int,
    i: int,
    k: int,
)
    requires
        rows.len() == order.len(),
        forall|r: int| 0 <= r < order.len() ==> #[trigger] order[r] == order.len() - 1 - r,
        rows_of_width(rows, width),
        0 <= j < order.len(),
        0 <= i < width,
        0 <= k < 3,
    ensures
        order[order.len() - 1 - j] == j,
        frame_bytes(rows)[3 * (width * (order.len() - 1 - j) + i) + k]
            == rows[order.len() - 1 - j]@[i]@[k],
{
    lemma_frame_bytes_layout(rows, width);
    let r = order.len() - 1 - j;
    assert(order[r] == j);
    assert(frame_bytes(rows)[3 * (width * r + i) + k] == rows[r]@[i]@[k]);
}

} // verus!
