//! A character-grid text-rendering layer ("TTY emulation") for a windowing
//! backend: glyph lookup in a fixed-layout sprite atlas, rectangular
//! viewports ("ports") with margins and a cursor, a bounded input-event
//! queue, and a terminal that turns text into an explicit sequence of blit
//! commands which a graphics backend executes.

pub mod atlas;
pub mod draw;
pub mod port;
pub mod queue;
pub mod text;
pub mod tty;
