//! Reading rendered frames back for export: the row padding that texture
//! copies require, removing it again, and the dispatches of a Gaussian
//! splat frame.
use vstd::prelude::*;

verus! {

/// The row alignment, in bytes, of texture-to-buffer copies.
pub const COPY_ROW_ALIGN: u32 = 256;

/// The bytes of one unpadded row of RGBA8 pixels.
pub open spec fn unpadded_row(width: u32) -> int {
    width * 4
}

/// The bytes of one row padded to the copy alignment.
pub open spec fn padded_row(width: u32) -> int {
    let u = unpadded_row(width);
    u + (256 - u % 256) % 256
}

/// The bytes per row of a copy of a `width`-pixel RGBA8 frame: four bytes
/// per pixel, padded to a multiple of 256.
pub fn padded_bytes_per_row(width: u32) -> (r: u32)
    requires
        width * 4 + 255 <= u32::MAX,
    ensures
        r == padded_row(width),
        r % 256 == 0,
        unpadded_row(width) <= r < unpadded_row(width) + 256,
{
    let unpadded = width * 4;
    let padding = (COPY_ROW_ALIGN - unpadded % COPY_ROW_ALIGN) % COPY_ROW_ALIGN;
    unpadded + padding
}

/// The frame without row padding: of each padded row, its first
/// `unpadded` bytes, rows in order.
pub open spec fn unpadded_frame(data: Seq<u8>, padded: int, unpadded: int, rows: int) -> Seq<u8>
    decreases rows,
{
    if rows <= 0 {
        seq![]
    } else {
        unpadded_frame(data, padded, unpadded, rows - 1) + data.subrange(
            (rows - 1) * padded,
            (rows - 1) * padded + unpadded,
        )
    }
}

/// Removes the row padding of a frame read back from a copy: `data` holds
/// `height` rows of `padded` bytes, of which the first `unpadded` are
/// pixels.
pub fn unpad_rows(data: &[u8], padded: usize, unpadded: usize, height: usize) -> (out: Vec<u8>)
    requires
        unpadded <= padded,
        data@.len() == padded * height,
    ensures
        out@ == unpadded_frame(data@, padded as int, unpadded as int, height as int),
        out@.len() == unpadded * height,
{
    let mut out: Vec<u8> = Vec::new();
    let total = data.len();
    let mut row: usize = 0;
    while row < height
        invariant
            unpadded <= padded,
            data@.len() == padded * height,
            total == data@.len(),
            row <= height,
            out@ == unpadded_frame(data@, padded as int, unpadded as int, row as int),
            out@.len() == unpadded * row,
        decreases height - row,
    {
        proof {
            assert((row + 1) * padded <= padded * height) by (nonlinear_arith)
                requires
                    row < height,
            ;
            assert(row * padded + unpadded <= padded * height) by (nonlinear_arith)
                requires
                    unpadded <= padded,
                    row < height,
            ;
        }
        let start = row * padded;
        let mut col: usize = 0;
        let ghost before = out@;
        while col < unpadded
            invariant
                unpadded <= padded,
                data@.len() == padded * height,
                start == row * padded,
                total == data@.len(),
                start + unpadded <= data@.len(),
                col <= unpadded,
                out@ == before + data@.subrange(start as int, start + col),
            decreases unpadded - col,
        {
            out.push(data[start + col]);
            assert(data@.subrange(start as int, start + col + 1) =~= data@.subrange(
                start as int,
                start + col,
            ).push(data@[start + col]));
            col = col + 1;
        }
        proof {
            assert(out@.len() == unpadded * (row + 1)) by (nonlinear_arith)
                requires
                    out@.len() == unpadded * row + unpadded,
            ;
        }
        row = row + 1;
    }
    out
}

/// The pixel at column byte `c` of row `r` of the unpadded frame is the
/// byte at the same place in the padded rows.
pub proof fn lemma_unpadded_frame_index(data: Seq<u8>, padded: int, unpadded: int, rows: int, r: int, c: int)
    requires
        0 <= unpadded <= padded,
        data.len() == padded * rows,
        0 <= r < rows,
        0 <= c < unpadded,
    ensures
        unpadded_frame(data, padded, unpadded, rows).len() == unpadded * rows,
        unpadded_frame(data, padded, unpadded, rows)[r * unpadded + c] == data[r * padded + c],
    decreases rows,
{
    assert(padded * (rows - 1) <= padded * rows) by (nonlinear_arith)
        requires
            padded >= 0,
            rows >= 1,
    ;
    lemma_unpadded_frame_len(data, padded, unpadded, rows);
    lemma_unpadded_frame_len(data, padded, unpadded, rows - 1);
    assert((rows - 1) * padded + unpadded <= padded * rows) by (nonlinear_arith)
        requires
            unpadded <= padded,
            rows >= 1,
    ;
    if r < rows - 1 {
        assert(padded * (rows - 1) <= data.len()) by (nonlinear_arith)
            requires
                data.len() == padded * rows,
                padded >= 0,
                rows >= 1,
        ;
        assert(r * unpadded + c < unpadded * (rows - 1)) by (nonlinear_arith)
            requires
                r < rows - 1,
                0 <= c < unpadded,
                r >= 0,
        ;
        lemma_unpadded_frame_index(data.take(padded * (rows - 1)), padded, unpadded, rows - 1, r, c);
        lemma_unpadded_frame_prefix(data, padded, unpadded, rows - 1);
        assert(r * padded + c < padded * (rows - 1)) by (nonlinear_arith)
            requires
                r < rows - 1,
                0 <= c < unpadded,
                unpadded <= padded,
                r >= 0,
        ;
    } else {
        assert(r * unpadded + c - unpadded * (rows - 1) == c) by (nonlinear_arith)
            requires
                r == rows - 1,
        ;
    }
}

proof fn lemma_unpadded_frame_len(data: Seq<u8>, padded: int, unpadded: int, rows: int)
    requires
        0 <= unpadded <= padded,
        rows >= 0,
        data.len() >= padded * rows,
    ensures
        unpadded_frame(data, padded, unpadded, rows).len() == unpadded * rows,
    decreases rows,
{
    if rows > 0 {
        assert(padded * (rows - 1) <= padded * rows && (rows - 1) * padded + unpadded <= padded * rows
            && (rows - 1) * padded >= 0) by (nonlinear_arith)
            requires
                0 <= unpadded <= padded,
                rows >= 1,
        ;
        lemma_unpadded_frame_len(data, padded, unpadded, rows - 1);
        let last = data.subrange((rows - 1) * padded, (rows - 1) * padded + unpadded);
        assert(unpadded_frame(data, padded, unpadded, rows) == unpadded_frame(
            data,
            padded,
            unpadded,
            rows - 1,
        ) + last);
        assert(last.len() == unpadded);
        assert(unpadded * (rows - 1) + unpadded == unpadded * rows) by (nonlinear_arith);
    } else {
        assert(unpadded * rows == 0) by (nonlinear_arith)
            requires
                rows == 0,
        ;
    }
}

proof fn lemma_unpadded_frame_prefix(data: Seq<u8>, padded: int, unpadded: int, rows: int)
    requires
        0 <= unpadded <= padded,
        rows >= 0,
        data.len() >= padded * rows,
    ensures
        unpadded_frame(data, padded, unpadded, rows) == unpadded_frame(
            data.take(padded * rows),
            padded,
            unpadded,
            rows,
        ),
    decreases rows,
{
    if rows > 0 {
        assert(padded * (rows - 1) <= padded * rows && (rows - 1) * padded + unpadded <= padded * rows)
            by (nonlinear_arith)
            requires
                unpadded <= padded,
                rows >= 1,
                padded >= 0,
        ;
        lemma_unpadded_frame_prefix(data, padded, unpadded, rows - 1);
        lemma_unpadded_frame_prefix(data.take(padded * rows), padded, unpadded, rows - 1);
        assert(data.take(padded * rows).take(padded * (rows - 1)) =~= data.take(padded * (rows - 1)));
        assert(data.take(padded * rows).subrange((rows - 1) * padded, (rows - 1) * padded + unpadded)
            =~= data.subrange((rows - 1) * padded, (rows - 1) * padded + unpadded));
    }
}

/// Captures of Gaussian splat frames for export.
pub struct GaussianExporter;

impl GaussianExporter {
    /// The preprocess workgroups for `count` splats: one per 256.
    pub fn preprocess_workgroups(count: u32) -> (r: u32)
        requires
            count + 255 <= u32::MAX,
        ensures
            r == (count + 255) / 256,
    {
        (count + 255) / 256
    }

    /// The preprocess workgroups of a frame of `count` splats, or `None`
    /// when there are none and the frame is only cleared and copied.
    pub fn frame_workgroups(count: u32) -> (r: Option<u32>)
        requires
            count + 255 <= u32::MAX,
        ensures
            r == if count > 0 {
                Some(((count + 255) / 256) as u32)
            } else {
                None
            },
    {
        if count > 0 {
            Some(Self::preprocess_workgroups(count))
        } else {
            None
        }
    }
}

/// What the export loop does in a frame.
#[derive(Clone, Copy, Debug)]
pub enum ExportStep {
    /// Capture frame `frame`; on the first frame the frame counter starts
    /// again and the shader is resized to the export size when it differs.
    Capture { frame: u32, restart: bool, resize_to: Option<(u32, u32)> },
    /// The export is over: resize back to the window when the size differs,
    /// and complete the export.
    Finish { resize_to: Option<(u32, u32)> },
}

/// The export loop's step, given the next frame to export (if any), the
/// shader's current size, the export size and the window size.
pub fn export_step(next_frame: Option<u32>, current: (u32, u32), export: (u32, u32), window: (u32, u32)) -> (s: ExportStep)
    ensures
        s == match next_frame {
            Some(f) => ExportStep::Capture {
                frame: f,
                restart: f == 0,
                resize_to: if f == 0 && current != export {
                    Some(export)
                } else {
                    None
                },
            },
            None => ExportStep::Finish {
                resize_to: if current != window {
                    Some(window)
                } else {
                    None
                },
            },
        },
{
    match next_frame {
        Some(f) => {
            let resize_to = if f == 0 && (current.0 != export.0 || current.1 != export.1) {
                Some(export)
            } else {
                None
            };
            ExportStep::Capture { frame: f, restart: f == 0, resize_to }
        },
        None => ExportStep::Finish {
            resize_to: if current.0 != window.0 || current.1 != window.1 {
                Some(window)
            } else {
                None
            },
        },
    }
}

} // verus!
