//! Headwear Side sprite proof: atlas cell selection.

use vstd::prelude::*;

verus! {

/// Number of Side cells in the 2×2 atlas.
pub const CELL_COUNT: usize = 4;

/// Side sprite edge in pixels.
pub const SPRITE_PX: u32 = 256;

/// Atlas edge in pixels (2×2 cells).
pub const ATLAS_PX: u32 = 512;

/// Clamp a requested cell to the last valid cell.
pub fn clamp_cell(cell: u8) -> (c: u8)
    ensures
        c == (if cell < 3 {
            cell
        } else {
            3
        }),
{
    if cell < (CELL_COUNT - 1) as u8 {
        cell
    } else {
        (CELL_COUNT - 1) as u8
    }
}

/// Pixel origin of a cell in the atlas: `a=r0c0, b=r0c1, c=r1c0, d=r1c1`.
pub fn cell_origin_px(cell: u8) -> (p: (u32, u32))
    ensures
        ({
            let i = if cell < 3 {
                cell as int
            } else {
                3
            };
            p.0 == (i % 2) * 256 && p.1 == (i / 2) * 256
        }),
{
    let i = clamp_cell(cell) as u32;
    ((i % 2) * SPRITE_PX, (i / 2) * SPRITE_PX)
}

} // verus!
