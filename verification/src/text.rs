//! The text-layout model: how a byte string moves a port's cursor and which
//! glyph cells it emits.
//!
//! The policy is explicit newlines only. A line-feed byte returns the
//! cursor to the port's left inner edge one row down; every other byte is
//! drawn at the cursor, which then advances one cell right. Nothing clips
//! or wraps at the port's right or bottom edge: text runs past it.

use crate::draw::{putc_cmds, Blit, Color};
use crate::port::Port;
use vstd::prelude::*;

verus! {

/// The line-feed byte.
pub const LINE_FEED: u8 = 10;

/// The port after one byte: a line feed moves the cursor to the left inner
/// edge one row down; any other byte advances it one cell right. Geometry
/// is untouched.
pub open spec fn step_port(p: Port, c: u8) -> Port {
    if c == LINE_FEED {
        Port { cursor: (p.x_range_spec().0, (p.cursor.1 + 1) as u32), ..p }
    } else {
        Port { cursor: ((p.cursor.0 + 1) as u32, p.cursor.1), ..p }
    }
}

/// The commands one byte emits: none for a line feed, one glyph cell at the
/// cursor otherwise.
pub open spec fn step_cmds(p: Port, c: u8, color: Color, bg: Option<Color>) -> Seq<Blit> {
    if c == LINE_FEED {
        Seq::empty()
    } else {
        putc_cmds(c, color, p.cursor, bg)
    }
}

/// The port after a whole byte string, processed front to back.
pub open spec fn puts_steps(p: Port, s: Seq<u8>) -> Port
    decreases s.len(),
{
    if s.len() == 0 {
        p
    } else {
        puts_steps(step_port(p, s[0]), s.drop_first())
    }
}

/// The commands a whole byte string emits, in drawing order.
pub open spec fn puts_cmds(p: Port, s: Seq<u8>, color: Color, bg: Option<Color>) -> Seq<Blit>
    decreases s.len(),
{
    if s.len() == 0 {
        Seq::empty()
    } else {
        step_cmds(p, s[0], color, bg) + puts_cmds(step_port(p, s[0]), s.drop_first(), color, bg)
    }
}

/// Writing text never changes a port's geometry, only its cursor.
pub proof fn lemma_puts_keeps_geometry(p: Port, s: Seq<u8>)
    ensures
        puts_steps(p, s).orgin == p.orgin,
        puts_steps(p, s).size == p.size,
        puts_steps(p, s).margin == p.margin,
    decreases s.len(),
{
    if s.len() > 0 {
        lemma_puts_keeps_geometry(step_port(p, s[0]), s.drop_first());
    }
}

/// A line feed moves the cursor's x back to the port's left inner edge
/// (`x_range`'s lower bound) and moves y down by exactly one row, whatever
/// the previous column was.
pub proof fn lemma_line_feed(p: Port)
    requires
        p.cursor.1 < u32::MAX,
    ensures
        step_port(p, LINE_FEED).cursor.0 == p.x_range_spec().0,
        step_port(p, LINE_FEED).cursor.1 == p.cursor.1 + 1,
{
}

/// Text does not wrap at the right edge: a string without line feeds
/// advances the cursor's x by exactly its length, leaves y alone, and draws
/// its `i`th byte at column `start + i` even past the port's right bound.
pub proof fn lemma_no_wrap(p: Port, s: Seq<u8>, color: Color)
    requires
        p.cursor.0 + s.len() <= u32::MAX,
        forall|i: int| 0 <= i < s.len() ==> s[i] != LINE_FEED,
    ensures
        puts_steps(p, s).cursor.0 == p.cursor.0 + s.len(),
        puts_steps(p, s).cursor.1 == p.cursor.1,
        puts_cmds(p, s, color, None).len() == s.len(),
        forall|i: int|
            0 <= i < s.len() ==> puts_cmds(p, s, color, None)[i] == (Blit::Glyph {
                src: crate::atlas::glyph_src_rect(s[i]),
                dest: crate::draw::cell_dest_rect(((p.cursor.0 + i) as u32, p.cursor.1)),
                color,
            }),
    decreases s.len(),
{
    if s.len() > 0 {
        let p1 = step_port(p, s[0]);
        lemma_no_wrap(p1, s.drop_first(), color);
    }
}

} // verus!
