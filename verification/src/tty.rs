//! The terminal: grid sizing, the default port, event ingestion, and the
//! draw calls that turn text into blit commands.
//!
//! The terminal owns no window. A backend drives it in cycles: it collects
//! the platform's pending events and the window's pixel size and hands both
//! to `poll`; the host then issues draw calls, which append commands to the
//! pending frame; `present` hands the finished frame back to the backend,
//! which executes the commands on its canvas and flips the buffer.

use crate::atlas;
use crate::draw::{putc_cmds, Blit, Color, Rect};
use crate::port::Port;
use crate::queue::{push_policy, queue_cap, queue_inputs, Input, InputQueue};
use crate::text::{puts_cmds, puts_steps, step_cmds, step_port, LINE_FEED};
use vstd::prelude::*;
use vstd::string::StringSliceAdditionalSpecFns;

verus! {

/// How many input events the queue buffers before dropping new ones.
pub const QUEUE_CAP: usize = 20;

/// The glyph the box border is drawn with ('#').
pub const BOX_GLYPH: u8 = 35;

/// Largest grid x whose destination rectangle keeps its pixel x within
/// `i32`: the largest multiple of the scaled cell width (9 * 2 pixels)
/// below `i32::MAX`.
pub const MAX_CELL_X: u32 = 119_304_647;

/// Largest grid y whose destination rectangle keeps its pixel y within
/// `i32`: the largest multiple of the scaled cell height (16 * 2 pixels)
/// below `i32::MAX`.
pub const MAX_CELL_Y: u32 = 67_108_863;

/// A platform event, reduced to the plain values the terminal reads.
#[derive(Debug, Clone, PartialEq)]
pub enum Event {
    /// The window was asked to close.
    Quit,
    /// A key went down, with its key code (when the platform reports one)
    /// and modifier bitmask.
    KeyDown { keycode: Option<i32>, keymod: u16 },
    /// A decoded text fragment arrived.
    TextInput { text: String },
    /// Anything else; ignored.
    Other,
}

/// The input an event feeds into the queue, if any.
pub open spec fn event_input(e: Event) -> Option<Input> {
    match e {
        Event::KeyDown { keycode: Some(k), keymod } => Some(Input::Key(k, keymod)),
        Event::TextInput { text } => Some(Input::Text(text)),
        _ => None,
    }
}

/// Whether a quit request occurs among the events.
pub open spec fn has_quit(evs: Seq<Event>) -> bool
    decreases evs.len(),
{
    evs.len() > 0 && (evs[0] is Quit || has_quit(evs.drop_first()))
}

/// The queue contents after the events are ingested in order, each pushed
/// under the drop-on-full policy.
pub open spec fn ingest_events(s: Seq<Input>, cap: nat, evs: Seq<Event>) -> Seq<Input>
    decreases evs.len(),
{
    if evs.len() == 0 {
        s
    } else {
        let s1 = match event_input(evs[0]) {
            Some(inp) => push_policy(s, cap, inp),
            None => s,
        };
        ingest_events(s1, cap, evs.drop_first())
    }
}

/// How many of the events' inputs the queue drops for want of room when
/// they are ingested in order.
pub open spec fn dropped_events(s: Seq<Input>, cap: nat, evs: Seq<Event>) -> nat
    decreases evs.len(),
{
    if evs.len() == 0 {
        0
    } else {
        match event_input(evs[0]) {
            Some(inp) => (if s.len() < cap {
                0nat
            } else {
                1nat
            }) + dropped_events(push_policy(s, cap, inp), cap, evs.drop_first()),
            None => dropped_events(s, cap, evs.drop_first()),
        }
    }
}

/// A full queue stays exactly as it is, however many events arrive.
pub proof fn lemma_ingest_full(s: Seq<Input>, cap: nat, evs: Seq<Event>)
    requires
        s.len() >= cap,
    ensures
        ingest_events(s, cap, evs) == s,
    decreases evs.len(),
{
    if evs.len() > 0 {
        lemma_ingest_full(s, cap, evs.drop_first());
    }
}

/// While everything fits, ingestion is FIFO: the buffered inputs keep their
/// places and the events' inputs are appended in arrival order.
pub proof fn lemma_ingest_fifo(s: Seq<Input>, cap: nat, evs: Seq<Event>)
    requires
        s.len() + evs.len() <= cap,
        forall|i: int| 0 <= i < evs.len() ==> (#[trigger] event_input(evs[i])) is Some,
    ensures
        ingest_events(s, cap, evs).len() == s.len() + evs.len(),
        forall|i: int| 0 <= i < s.len() ==> ingest_events(s, cap, evs)[i] == s[i],
        forall|i: int|
            0 <= i < evs.len() ==> ingest_events(s, cap, evs)[s.len() + i] == event_input(
                evs[i],
            ).unwrap(),
    decreases evs.len(),
{
    if evs.len() > 0 {
        assert(event_input(evs[0]) is Some);
        let inp = event_input(evs[0]).unwrap();
        assert(push_policy(s, cap, inp) == s.push(inp));
        assert forall|i: int|
            0 <= i < evs.drop_first().len() implies (#[trigger] event_input(
            evs.drop_first()[i],
        )) is Some by {
            assert(evs.drop_first()[i] == evs[i + 1]);
        }
        lemma_ingest_fifo(s.push(inp), cap, evs.drop_first());
        let r = ingest_events(s, cap, evs);
        assert(r == ingest_events(s.push(inp), cap, evs.drop_first()));
        assert forall|i: int| 0 <= i < s.len() implies r[i] == s[i] by {
            assert(s.push(inp)[i] == s[i]);
        }
        assert forall|i: int| 0 <= i < evs.len() implies r[s.len() + i] == event_input(
            evs[i],
        ).unwrap() by {
            if i == 0 {
                assert(r[s.push(inp).len() - 1] == s.push(inp)[s.push(inp).len() - 1]);
                assert(s.push(inp)[s.len() as int] == inp);
            } else {
                assert(evs.drop_first()[i - 1] == evs[i]);
                assert(r[s.push(inp).len() + (i - 1)] == event_input(
                    evs.drop_first()[i - 1],
                ).unwrap());
            }
        }
    }
}

/// The terminal's state: whether it is still open, the buffered input, the
/// grid size, the default port, and the frame under construction.
pub struct SdlTTY {
    /// False once a quit request has been polled; it never goes back.
    pub is_open: bool,
    /// Buffered key and text input; `poll` fills it, the host drains it.
    pub input_buffer: InputQueue,
    /// The window's size in whole cells; partial cells are truncated away.
    pub size: (u32, u32),
    /// The default port. Every `poll` resets it to span the whole grid with
    /// no margin and the cursor at the top-left.
    pub main: Port,
    /// The blit commands of the frame under construction, in drawing order.
    pub frame: Vec<Blit>,
}

/// A fresh port spanning a whole grid of the given size: origin at the
/// top-left, the given margin, and the cursor at the inner top-left.
pub open spec fn main_port_spec(size: (u32, u32), margin: u32) -> Port {
    Port { orgin: (0, 0), size, margin, cursor: (margin, margin) }
}

/// Draw calls change the frame and nothing else.
pub open spec fn same_but_frame(a: SdlTTY, b: SdlTTY) -> bool {
    &&& a.is_open == b.is_open
    &&& a.input_buffer == b.input_buffer
    &&& a.size == b.size
    &&& a.main == b.main
}

impl SdlTTY {
    /// A fresh terminal: open, with an empty input queue of capacity
    /// `QUEUE_CAP`, no grid size yet (the first `poll` computes it), and an
    /// empty frame.
    pub fn new() -> (t: SdlTTY)
        ensures
            t.is_open,
            queue_inputs(t.input_buffer) == Seq::<Input>::empty(),
            queue_cap(t.input_buffer) == QUEUE_CAP,
            t.size == (0u32, 0u32),
            t.main == main_port_spec((0u32, 0u32), 0u32),
            t.frame@ == Seq::<Blit>::empty(),
    {
        SdlTTY {
            is_open: true,
            input_buffer: InputQueue::new(QUEUE_CAP),
            size: (0, 0),
            main: Port { orgin: (0, 0), size: (0, 0), margin: 0, cursor: (0, 0) },
            frame: Vec::new(),
        }
    }

    /// Ingests one cycle's pending events and re-derives the grid from the
    /// window's pixel size. A quit event closes the terminal for good; key
    /// and text events are queued in arrival order, each dropped when the
    /// queue is full, and the number of dropped events is returned so the
    /// caller can log the loss. The grid is the pixel size divided by the
    /// scaled cell size, truncating, and `main` is reset to a fresh
    /// full-grid port with no margin — a margin given to `get_main_port`
    /// earlier is not kept.
    pub fn poll(&mut self, events: &Vec<Event>, px_size: (u32, u32)) -> (dropped: usize)
        ensures
            final(self).is_open == (old(self).is_open && !has_quit(events@)),
            queue_cap(final(self).input_buffer) == queue_cap(old(self).input_buffer),
            queue_inputs(final(self).input_buffer) == ingest_events(
                queue_inputs(old(self).input_buffer),
                queue_cap(old(self).input_buffer),
                events@,
            ),
            dropped == dropped_events(
                queue_inputs(old(self).input_buffer),
                queue_cap(old(self).input_buffer),
                events@,
            ),
            final(self).size.0 == px_size.0 / atlas::SPRITE_W / atlas::SCALE,
            final(self).size.1 == px_size.1 / atlas::SPRITE_H / atlas::SCALE,
            final(self).main == main_port_spec(final(self).size, 0u32),
            final(self).frame == old(self).frame,
    {
        let ghost open0 = self.is_open;
        let ghost q0 = queue_inputs(self.input_buffer);
        let ghost cap = queue_cap(self.input_buffer);
        let ghost evs = events@;
        proof {
            assert(evs.skip(0) =~= evs);
        }
        let mut dropped: usize = 0;
        let mut i: usize = 0;
        while i < events.len()
            invariant
                0 <= i <= evs.len(),
                evs == events@,
                queue_cap(self.input_buffer) == cap,
                (open0 && !has_quit(evs)) == (self.is_open && !has_quit(evs.skip(i as int))),
                ingest_events(q0, cap, evs) == ingest_events(
                    queue_inputs(self.input_buffer),
                    cap,
                    evs.skip(i as int),
                ),
                dropped <= i,
                dropped + dropped_events(
                    queue_inputs(self.input_buffer),
                    cap,
                    evs.skip(i as int),
                ) == dropped_events(q0, cap, evs),
                self.size == old(self).size,
                self.main == old(self).main,
                self.frame == old(self).frame,
            decreases evs.len() - i,
        {
            proof {
                assert(evs.skip(i as int)[0] == evs[i as int]);
                assert(evs.skip(i as int).drop_first() =~= evs.skip(i as int + 1));
            }
            match &events[i] {
                Event::Quit => {
                    self.is_open = false;
                },
                Event::KeyDown { keycode, keymod } => {
                    match keycode {
                        Some(k) => {
                            let pushed = self.input_buffer.push(Input::Key(*k, *keymod));
                            if !pushed {
                                dropped = dropped + 1;
                            }
                        },
                        None => {},
                    }
                },
                Event::TextInput { text } => {
                    let t = text.clone();
                    let pushed = self.input_buffer.push(Input::Text(t));
                    if !pushed {
                        dropped = dropped + 1;
                    }
                },
                Event::Other => {},
            }
            i = i + 1;
        }
        proof {
            assert(evs.skip(evs.len() as int) =~= Seq::<Event>::empty());
        }
        self.size = (px_size.0 / atlas::SPRITE_W / atlas::SCALE, px_size.1 / atlas::SPRITE_H
            / atlas::SCALE);
        let m = self.get_main_port(0);
        self.main = m;
        dropped
    }

    /// Hands the finished frame to the backend and starts an empty one.
    /// The commands are returned in the order they were drawn.
    pub fn present(&mut self) -> (frame: Vec<Blit>)
        ensures
            frame@ == old(self).frame@,
            final(self).frame@ == Seq::<Blit>::empty(),
            same_but_frame(*old(self), *final(self)),
    {
        let mut f: Vec<Blit> = Vec::new();
        core::mem::swap(&mut f, &mut self.frame);
        f
    }

    /// Fills the canvas with `color` and puts the main cursor back to the
    /// top-left. Meant to open a frame, before that frame's draw calls.
    pub fn clear(&mut self, color: Color)
        ensures
            final(self).frame@ == old(self).frame@.push(Blit::Clear { color }),
            final(self).main.cursor == (0u32, 0u32),
            final(self).main.orgin == old(self).main.orgin,
            final(self).main.size == old(self).main.size,
            final(self).main.margin == old(self).main.margin,
            final(self).is_open == old(self).is_open,
            final(self).input_buffer == old(self).input_buffer,
            final(self).size == old(self).size,
    {
        self.frame.push(Blit::Clear { color });
        self.main.cursor = (0, 0);
    }

    /// Draws one glyph cell at the absolute grid position `pos`: first the
    /// background fill when `bg` is given, then byte `c`'s glyph, both
    /// covering the cell's scaled destination rectangle.
    pub fn putc(&mut self, c: u8, color: Color, pos: (u32, u32), bg: Option<Color>)
        requires
            pos.0 <= MAX_CELL_X,
            pos.1 <= MAX_CELL_Y,
        ensures
            final(self).frame@ == old(self).frame@ + putc_cmds(c, color, pos, bg),
            same_but_frame(*old(self), *final(self)),
    {
        let src_rect = atlas::atlas_src_rect(c);
        let dest_rect = Rect {
            x: (pos.0 * atlas::SPRITE_W * atlas::SCALE) as i32,
            y: (pos.1 * atlas::SPRITE_H * atlas::SCALE) as i32,
            w: atlas::SPRITE_W * atlas::SCALE,
            h: atlas::SPRITE_H * atlas::SCALE,
        };
        match bg {
            Some(b) => {
                self.frame.push(Blit::Fill { dest: dest_rect, color: b });
            },
            None => {},
        }
        self.frame.push(Blit::Glyph { src: src_rect, dest: dest_rect, color });
        proof {
            assert(self.frame@ =~= old(self).frame@ + putc_cmds(c, color, pos, bg));
        }
    }

    /// Draws one glyph cell at a position relative to the port's inner
    /// area: on each axis, origin plus margin plus the given offset.
    pub fn putc_port(&mut self, c: u8, color: Color, pos: (u32, u32), bg: Option<Color>, port: &Port)
        requires
            port.orgin.0 + pos.0 + port.margin <= MAX_CELL_X,
            port.orgin.1 + pos.1 + port.margin <= MAX_CELL_Y,
        ensures
            final(self).frame@ == old(self).frame@ + putc_cmds(
                c,
                color,
                (
                    (port.orgin.0 + pos.0 + port.margin) as u32,
                    (port.orgin.1 + pos.1 + port.margin) as u32,
                ),
                bg,
            ),
            same_but_frame(*old(self), *final(self)),
    {
        self.putc(
            c,
            color,
            (port.orgin.0 + pos.0 + port.margin, port.orgin.1 + pos.1 + port.margin),
            bg,
        );
    }

    /// A fresh port spanning the whole grid with the given margin and the
    /// cursor at the inner top-left. A factory: the terminal keeps no
    /// reference to the returned port.
    pub fn get_main_port(&self, margin: u32) -> (p: Port)
        ensures
            p == main_port_spec(self.size, margin),
    {
        Port { orgin: (0, 0), size: self.size, margin, cursor: (margin, margin) }
    }

    /// Draws a border of `BOX_GLYPH` cells along the port's four edges: the
    /// full top and bottom rows column by column, then the full left and
    /// right columns row by row. Corners are drawn twice. No background is
    /// filled, so the border is transparent outside the glyph's own pixels.
    pub fn box_port(&mut self, color: Color, port: &mut Port)
        requires
            old(port).size.0 >= 1,
            old(port).size.1 >= 1,
            old(port).orgin.0 + old(port).size.0 - 1 <= MAX_CELL_X,
            old(port).orgin.1 + old(port).size.1 - 1 <= MAX_CELL_Y,
        ensures
            *final(port) == *old(port),
            final(self).frame@ == old(self).frame@ + box_cmds(*old(port), color),
            same_but_frame(*old(self), *final(self)),
    {
        let ghost t0 = *old(self);
        let ghost frame0 = self.frame@;
        let ghost p = *port;
        let mut x: u32 = 0;
        while x < port.size.0
            invariant
                *port == p,
                p.size.0 >= 1,
                p.size.1 >= 1,
                p.orgin.0 + p.size.0 - 1 <= MAX_CELL_X,
                p.orgin.1 + p.size.1 - 1 <= MAX_CELL_Y,
                x <= p.size.0,
                self.frame@ == frame0 + box_row_cmds(p, color, x as int),
                same_but_frame(t0, *self),
            decreases p.size.0 - x,
        {
            self.putc(BOX_GLYPH, color, (port.orgin.0 + x, port.orgin.1), None);
            self.putc(BOX_GLYPH, color, (port.orgin.0 + x, port.orgin.1 + port.size.1 - 1), None);
            proof {
                assert(self.frame@ =~= frame0 + box_row_cmds(p, color, x as int + 1));
            }
            x = x + 1;
        }
        let ghost rows = box_row_cmds(p, color, p.size.0 as int);
        let mut y: u32 = 0;
        while y < port.size.1
            invariant
                *port == p,
                p.size.0 >= 1,
                p.size.1 >= 1,
                p.orgin.0 + p.size.0 - 1 <= MAX_CELL_X,
                p.orgin.1 + p.size.1 - 1 <= MAX_CELL_Y,
                y <= p.size.1,
                self.frame@ == frame0 + rows + box_col_cmds(p, color, y as int),
                same_but_frame(t0, *self),
            decreases p.size.1 - y,
        {
            self.putc(BOX_GLYPH, color, (port.orgin.0, port.orgin.1 + y), None);
            self.putc(BOX_GLYPH, color, (port.orgin.0 + port.size.0 - 1, port.orgin.1 + y), None);
            proof {
                assert(self.frame@ =~= frame0 + rows + box_col_cmds(p, color, y as int + 1));
            }
            y = y + 1;
        }
        proof {
            assert(self.frame@ =~= frame0 + box_cmds(p, color));
        }
    }

    /// Writes a byte string into the port at its cursor, line feeds
    /// wrapping to the left inner edge one row down, everything else
    /// advancing the cursor one cell right; no clipping at the port's
    /// edges. The cursor ends where the layout model says.
    pub fn puts_port(&mut self, s: &str, color: Color, bg: Option<Color>, port: &mut Port)
        requires
            old(port).wf(),
            old(port).cursor.0 + s.spec_bytes().len() <= MAX_CELL_X,
            old(port).x_range_spec().0 + s.spec_bytes().len() <= MAX_CELL_X,
            old(port).cursor.1 + s.spec_bytes().len() <= MAX_CELL_Y,
        ensures
            *final(port) == puts_steps(*old(port), s.spec_bytes()),
            final(self).frame@ == old(self).frame@ + puts_cmds(
                *old(port),
                s.spec_bytes(),
                color,
                bg,
            ),
            same_but_frame(*old(self), *final(self)),
    {
        let ghost t0 = *old(self);
        let ghost frame0 = self.frame@;
        let ghost p0 = *port;
        let ghost sb = s.spec_bytes();
        proof {
            assert(sb.skip(0) =~= sb);
        }
        let bytes: &[u8] = s.as_bytes();
        let n: usize = bytes.len();
        let mut i: usize = 0;
        while i < n
            invariant
                i <= sb.len(),
                n == sb.len(),
                bytes@ == sb,
                port.orgin == p0.orgin,
                port.size == p0.size,
                port.margin == p0.margin,
                p0.wf(),
                p0.x_range_spec().0 + sb.len() <= MAX_CELL_X,
                port.cursor.0 + (sb.len() - i) <= MAX_CELL_X,
                port.cursor.1 + (sb.len() - i) <= MAX_CELL_Y,
                puts_steps(p0, sb) == puts_steps(*port, sb.skip(i as int)),
                frame0 + puts_cmds(p0, sb, color, bg) == self.frame@ + puts_cmds(
                    *port,
                    sb.skip(i as int),
                    color,
                    bg,
                ),
                same_but_frame(t0, *self),
            decreases n - i,
        {
            let ghost pp = *port;
            let ghost fprev = self.frame@;
            let c: u8 = *vstd::slice::slice_index_get(bytes, i);
            if c == LINE_FEED {
                let xr = port.get_x_range();
                port.cursor = (xr.0, port.cursor.1 + 1);
            } else {
                self.putc(c, color, port.cursor, bg);
                port.cursor = (port.cursor.0 + 1, port.cursor.1);
            }
            proof {
                assert(sb.skip(i as int)[0] == sb[i as int]);
                assert(sb.skip(i as int).drop_first() =~= sb.skip(i as int + 1));
                assert(*port == step_port(pp, sb[i as int]));
                assert(puts_cmds(pp, sb.skip(i as int), color, bg) == step_cmds(
                    pp,
                    sb[i as int],
                    color,
                    bg,
                ) + puts_cmds(*port, sb.skip(i as int + 1), color, bg));
                assert(fprev + (step_cmds(pp, sb[i as int], color, bg) + puts_cmds(
                    *port,
                    sb.skip(i as int + 1),
                    color,
                    bg,
                )) =~= self.frame@ + puts_cmds(*port, sb.skip(i as int + 1), color, bg));
            }
            i = i + 1;
        }
        proof {
            assert(sb.skip(sb.len() as int) =~= Seq::<u8>::empty());
            assert(self.frame@ =~= frame0 + puts_cmds(p0, sb, color, bg));
        }
    }

    /// Writes a byte string through the terminal's own main port and keeps
    /// the moved cursor.
    pub fn puts(&mut self, s: &str, color: Color, bg: Option<Color>)
        requires
            old(self).main.wf(),
            old(self).main.cursor.0 + s.spec_bytes().len() <= MAX_CELL_X,
            old(self).main.x_range_spec().0 + s.spec_bytes().len() <= MAX_CELL_X,
            old(self).main.cursor.1 + s.spec_bytes().len() <= MAX_CELL_Y,
        ensures
            final(self).main == puts_steps(old(self).main, s.spec_bytes()),
            final(self).frame@ == old(self).frame@ + puts_cmds(
                old(self).main,
                s.spec_bytes(),
                color,
                bg,
            ),
            final(self).is_open == old(self).is_open,
            final(self).input_buffer == old(self).input_buffer,
            final(self).size == old(self).size,
    {
        let mut m = self.main;
        self.puts_port(s, color, bg, &mut m);
        self.main = m;
    }

    /// Draws a byte string along the port's origin row, starting at the
    /// left inner edge, each glyph over a `bg`-filled cell — a title baked
    /// into the top border row. No clipping at the port's right edge.
    pub fn puts_title(&mut self, s: &str, color: Color, bg: Color, port: &mut Port)
        requires
            old(port).wf(),
            old(port).x_range_spec().0 + s.spec_bytes().len() <= MAX_CELL_X,
            old(port).orgin.1 <= MAX_CELL_Y,
        ensures
            *final(port) == *old(port),
            final(self).frame@ == old(self).frame@ + title_cmds(
                *old(port),
                s.spec_bytes(),
                color,
                bg,
            ),
            same_but_frame(*old(self), *final(self)),
    {
        let ghost t0 = *old(self);
        let ghost frame0 = self.frame@;
        let ghost p = *port;
        let ghost sb = s.spec_bytes();
        let bytes: &[u8] = s.as_bytes();
        let n: usize = bytes.len();
        let mut x: u32 = port.get_x_range().0;
        let mut i: usize = 0;
        while i < n
            invariant
                i <= sb.len(),
                n == sb.len(),
                bytes@ == sb,
                *port == p,
                p.wf(),
                p.x_range_spec().0 + sb.len() <= MAX_CELL_X,
                p.orgin.1 <= MAX_CELL_Y,
                x == p.x_range_spec().0 + i,
                self.frame@ == frame0 + title_cmds_upto(p, sb, color, bg, i as int),
                same_but_frame(t0, *self),
            decreases n - i,
        {
            let c: u8 = *vstd::slice::slice_index_get(bytes, i);
            self.putc(c, color, (x, port.orgin.1), Some(bg));
            proof {
                assert(self.frame@ =~= frame0 + title_cmds_upto(p, sb, color, bg, i as int + 1));
            }
            x = x + 1;
            i = i + 1;
        }
    }
}

/// The commands of the border's top and bottom rows for the port's first
/// `n` columns: at each column one glyph on the port's top row and one on
/// its bottom row.
pub open spec fn box_row_cmds(p: Port, color: Color, n: int) -> Seq<Blit>
    decreases n,
{
    if n <= 0 {
        Seq::empty()
    } else {
        box_row_cmds(p, color, n - 1) + putc_cmds(
            BOX_GLYPH,
            color,
            ((p.orgin.0 + n - 1) as u32, p.orgin.1),
            None,
        ) + putc_cmds(
            BOX_GLYPH,
            color,
            ((p.orgin.0 + n - 1) as u32, (p.orgin.1 + p.size.1 - 1) as u32),
            None,
        )
    }
}

/// The commands of the border's left and right columns for the port's
/// first `n` rows: at each row one glyph in the port's leftmost column and
/// one in its rightmost.
pub open spec fn box_col_cmds(p: Port, color: Color, n: int) -> Seq<Blit>
    decreases n,
{
    if n <= 0 {
        Seq::empty()
    } else {
        box_col_cmds(p, color, n - 1) + putc_cmds(
            BOX_GLYPH,
            color,
            (p.orgin.0, (p.orgin.1 + n - 1) as u32),
            None,
        ) + putc_cmds(
            BOX_GLYPH,
            color,
            ((p.orgin.0 + p.size.0 - 1) as u32, (p.orgin.1 + n - 1) as u32),
            None,
        )
    }
}

/// Everything the border of a port draws: both full rows, then both full
/// columns.
pub open spec fn box_cmds(p: Port, color: Color) -> Seq<Blit> {
    box_row_cmds(p, color, p.size.0 as int) + box_col_cmds(p, color, p.size.1 as int)
}

/// A glyph placement of the border glyph.
pub open spec fn is_box_glyph(b: Blit) -> bool {
    b matches Blit::Glyph { src, .. } && src == atlas::glyph_src_rect(BOX_GLYPH)
}

proof fn lemma_box_row_cmds(p: Port, color: Color, n: int)
    requires
        n >= 0,
    ensures
        box_row_cmds(p, color, n).len() == 2 * n,
        forall|i: int| 0 <= i < 2 * n ==> is_box_glyph(#[trigger] box_row_cmds(p, color, n)[i]),
    decreases n,
{
    if n > 0 {
        lemma_box_row_cmds(p, color, n - 1);
    }
}

proof fn lemma_box_col_cmds(p: Port, color: Color, n: int)
    requires
        n >= 0,
    ensures
        box_col_cmds(p, color, n).len() == 2 * n,
        forall|i: int| 0 <= i < 2 * n ==> is_box_glyph(#[trigger] box_col_cmds(p, color, n)[i]),
    decreases n,
{
    if n > 0 {
        lemma_box_col_cmds(p, color, n - 1);
    }
}

/// The border of a port of size `(w, h)` consists of exactly `2*w + 2*h`
/// glyph placements — the four corners counted twice — and every one of
/// them places the border glyph.
pub proof fn lemma_box_cmds(p: Port, color: Color)
    ensures
        box_cmds(p, color).len() == 2 * p.size.0 + 2 * p.size.1,
        forall|i: int|
            0 <= i < box_cmds(p, color).len() ==> is_box_glyph(#[trigger] box_cmds(p, color)[i]),
{
    lemma_box_row_cmds(p, color, p.size.0 as int);
    lemma_box_col_cmds(p, color, p.size.1 as int);
}

/// The commands of a title's first `n` bytes: byte `i` drawn over a filled
/// cell at column `x_range.0 + i` of the port's origin row.
pub open spec fn title_cmds_upto(p: Port, s: Seq<u8>, color: Color, bg: Color, n: int) -> Seq<Blit>
    decreases n,
{
    if n <= 0 {
        Seq::empty()
    } else {
        title_cmds_upto(p, s, color, bg, n - 1) + putc_cmds(
            s[n - 1],
            color,
            ((p.x_range_spec().0 + n - 1) as u32, p.orgin.1),
            Some(bg),
        )
    }
}

/// The commands a whole title draws.
pub open spec fn title_cmds(p: Port, s: Seq<u8>, color: Color, bg: Color) -> Seq<Blit> {
    title_cmds_upto(p, s, color, bg, s.len() as int)
}

} // verus!
