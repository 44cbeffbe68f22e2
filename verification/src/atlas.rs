//! Glyph atlas indexing.
//!
//! The atlas is a sprite sheet holding every glyph in a fixed grid, indexed
//! by byte value: byte `c` sits in column `c % SPRITE_COLS` and row
//! `c / SPRITE_COLS`. The lookup does no bounds check against the atlas row
//! count; a byte whose row lies past `SPRITE_ROWS` yields a source rectangle
//! outside the sheet, and the backend's blit defines what happens then.

use crate::draw::Rect;
use vstd::prelude::*;

verus! {

/// Width of one atlas cell in pixels.
pub const SPRITE_W: u32 = 9;

/// Height of one atlas cell in pixels.
pub const SPRITE_H: u32 = 16;

/// Number of glyph columns in the atlas.
pub const SPRITE_COLS: u32 = 32;

/// Number of glyph rows in the atlas.
pub const SPRITE_ROWS: u32 = 8;

/// Horizontal pixel offset of the glyph grid inside the sheet.
pub const SPRITE_OFFSET_X: u32 = 7;

/// Vertical pixel offset of the glyph grid inside the sheet.
pub const SPRITE_OFFSET_Y: u32 = 8;

/// Integer multiplier applied to cell pixel dimensions on screen.
pub const SCALE: u32 = 2;

/// Atlas column of byte `c`.
pub open spec fn glyph_col(c: u8) -> int {
    c as int % SPRITE_COLS as int
}

/// Atlas row of byte `c`.
pub open spec fn glyph_row(c: u8) -> int {
    c as int / SPRITE_COLS as int
}

/// Grid position of byte `c` in the atlas: column `c % SPRITE_COLS`, row
/// `c / SPRITE_COLS`, for every byte value.
pub fn atlas_index(c: u8) -> (r: (u32, u32))
    ensures
        r.0 == glyph_col(c),
        r.1 == glyph_row(c),
{
    (c as u32 % SPRITE_COLS, c as u32 / SPRITE_COLS)
}

/// The source rectangle of byte `c` in the atlas sheet: its cell's grid
/// position scaled to pixels, shifted by the sheet offset.
pub open spec fn glyph_src_rect(c: u8) -> Rect {
    Rect {
        x: (glyph_col(c) * SPRITE_W + SPRITE_OFFSET_X) as i32,
        y: (glyph_row(c) * SPRITE_H + SPRITE_OFFSET_Y) as i32,
        w: SPRITE_W,
        h: SPRITE_H,
    }
}

/// Computes the source rectangle of byte `c`.
pub fn atlas_src_rect(c: u8) -> (r: Rect)
    ensures
        r == glyph_src_rect(c),
{
    let col = c as u32 % SPRITE_COLS;
    let row = c as u32 / SPRITE_COLS;
    Rect {
        x: (col * SPRITE_W + SPRITE_OFFSET_X) as i32,
        y: (row * SPRITE_H + SPRITE_OFFSET_Y) as i32,
        w: SPRITE_W,
        h: SPRITE_H,
    }
}

} // verus!
