//! Plain value types for drawing: colors, pixel rectangles, and the blit
//! commands a frame is made of.
//!
//! The terminal does not touch a canvas itself; every draw call appends
//! `Blit` commands to the pending frame, and the graphics backend executes
//! them in order when the frame is presented.

use crate::atlas;
use vstd::prelude::*;

verus! {

/// An RGB color.
#[derive(Debug, Copy, Clone, PartialEq, Eq, Structural)]
pub struct Color {
    pub r: u8,
    pub g: u8,
    pub b: u8,
}

impl Color {
    pub fn rgb(r: u8, g: u8, b: u8) -> (c: Color)
        ensures
            c == (Color { r, g, b }),
    {
        Color { r, g, b }
    }
}

/// A pixel-space rectangle: position of the top-left corner, then width and
/// height.
#[derive(Debug, Copy, Clone, PartialEq, Eq, Structural)]
pub struct Rect {
    pub x: i32,
    pub y: i32,
    pub w: u32,
    pub h: u32,
}

/// One drawing command of a frame.
#[derive(Debug, Copy, Clone, PartialEq, Eq, Structural)]
pub enum Blit {
    /// Fill the whole canvas with a color.
    Clear { color: Color },
    /// Stretch the single-pixel fill texture, tinted `color`, over `dest`.
    Fill { dest: Rect, color: Color },
    /// Copy the atlas cell `src`, tinted `color`, onto `dest`; pixels of the
    /// atlas' keyed-out background stay transparent.
    Glyph { src: Rect, dest: Rect, color: Color },
}

/// The destination rectangle of the cell at grid position `pos`: cell size
/// times scale, at the scaled pixel position.
pub open spec fn cell_dest_rect(pos: (u32, u32)) -> Rect {
    Rect {
        x: (pos.0 * atlas::SPRITE_W * atlas::SCALE) as i32,
        y: (pos.1 * atlas::SPRITE_H * atlas::SCALE) as i32,
        w: (atlas::SPRITE_W * atlas::SCALE) as u32,
        h: (atlas::SPRITE_H * atlas::SCALE) as u32,
    }
}

/// The commands a single glyph cell produces: an optional background fill of
/// the destination cell, then the glyph itself.
pub open spec fn putc_cmds(c: u8, color: Color, pos: (u32, u32), bg: Option<Color>) -> Seq<Blit> {
    let glyph = Blit::Glyph { src: atlas::glyph_src_rect(c), dest: cell_dest_rect(pos), color };
    match bg {
        Some(b) => seq![Blit::Fill { dest: cell_dest_rect(pos), color: b }, glyph],
        None => seq![glyph],
    }
}

} // verus!
