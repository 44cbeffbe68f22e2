use sdl_tty::atlas;
use sdl_tty::draw::{Blit, Color, Rect};
use sdl_tty::port::Port;
use sdl_tty::tty::SdlTTY;

fn fg() -> Color {
    Color { r: 200, g: 200, b: 200 }
}

fn bg() -> Color {
    Color { r: 0, g: 0, b: 80 }
}

fn cell_rect(x: u32, y: u32) -> Rect {
    Rect {
        x: (x * atlas::SPRITE_W * atlas::SCALE) as i32,
        y: (y * atlas::SPRITE_H * atlas::SCALE) as i32,
        w: atlas::SPRITE_W * atlas::SCALE,
        h: atlas::SPRITE_H * atlas::SCALE,
    }
}

#[test]
fn putc_emits_glyph_and_optional_fill() {
    let mut t = SdlTTY::new();
    t.putc(65, fg(), (3, 2), None);
    t.putc(66, fg(), (4, 2), Some(bg()));
    let frame = t.present();
    assert_eq!(frame.len(), 3);
    assert_eq!(
        frame[0],
        Blit::Glyph { src: atlas::atlas_src_rect(65), dest: cell_rect(3, 2), color: fg() }
    );
    assert_eq!(frame[1], Blit::Fill { dest: cell_rect(4, 2), color: bg() });
    assert_eq!(
        frame[2],
        Blit::Glyph { src: atlas::atlas_src_rect(66), dest: cell_rect(4, 2), color: fg() }
    );
    // present started a fresh frame.
    assert_eq!(t.present().len(), 0);
}

#[test]
fn clear_opens_frame_and_resets_cursor() {
    let mut t = SdlTTY::new();
    t.main.cursor = (5, 5);
    t.clear(bg());
    assert_eq!(t.main.cursor, (0, 0));
    let frame = t.present();
    assert_eq!(frame, vec![Blit::Clear { color: bg() }]);
}

#[test]
fn putc_port_is_relative_to_the_inner_origin() {
    let mut t = SdlTTY::new();
    let p = Port { orgin: (3, 9), size: (10, 10), margin: 1, cursor: (0, 0) };
    t.putc_port(65, fg(), (0, 0), None, &p);
    let frame = t.present();
    // Origin plus margin on each axis: (3+0+1, 9+0+1).
    assert_eq!(
        frame[0],
        Blit::Glyph { src: atlas::atlas_src_rect(65), dest: cell_rect(4, 10), color: fg() }
    );
}

#[test]
fn puts_scenario_with_line_feed() {
    let mut t = SdlTTY::new();
    t.main = Port { orgin: (0, 0), size: (10, 5), margin: 1, cursor: (1, 1) };
    t.puts("AB\nC", fg(), None);
    // A at (1,1), B at (2,1), line feed to (1,2), C at (1,2).
    assert_eq!(t.main.cursor, (2, 2));
    let frame = t.present();
    assert_eq!(frame.len(), 3);
    assert_eq!(
        frame[0],
        Blit::Glyph { src: atlas::atlas_src_rect(b'A'), dest: cell_rect(1, 1), color: fg() }
    );
    assert_eq!(
        frame[1],
        Blit::Glyph { src: atlas::atlas_src_rect(b'B'), dest: cell_rect(2, 1), color: fg() }
    );
    assert_eq!(
        frame[2],
        Blit::Glyph { src: atlas::atlas_src_rect(b'C'), dest: cell_rect(1, 2), color: fg() }
    );
}

#[test]
fn line_feed_returns_to_left_inner_edge_from_any_column() {
    let mut t = SdlTTY::new();
    let mut p = Port { orgin: (2, 0), size: (10, 5), margin: 1, cursor: (9, 2) };
    t.puts_port("\n", fg(), None, &mut p);
    // x back to get_x_range().0 = 3, y up by exactly one.
    assert_eq!(p.cursor, (3, 3));
    let mut q = Port { orgin: (2, 0), size: (10, 5), margin: 1, cursor: (4, 0) };
    t.puts_port("\n", fg(), None, &mut q);
    assert_eq!(q.cursor, (3, 1));
}

#[test]
fn long_line_overflows_without_wrapping() {
    let mut t = SdlTTY::new();
    // Inner width is 2 (x range 1..3), but eight bytes go in.
    let mut p = Port { orgin: (0, 0), size: (4, 3), margin: 1, cursor: (1, 1) };
    t.puts_port("ABCDEFGH", fg(), None, &mut p);
    assert_eq!(p.cursor, (9, 1));
    let frame = t.present();
    assert_eq!(frame.len(), 8);
    for (i, cmd) in frame.iter().enumerate() {
        // The Nth byte lands at start_x + N - 1, past the right bound.
        let expect = Blit::Glyph {
            src: atlas::atlas_src_rect(b"ABCDEFGH"[i]),
            dest: cell_rect(1 + i as u32, 1),
            color: fg(),
        };
        assert_eq!(*cmd, expect);
    }
}

#[test]
fn box_port_draws_the_border_glyph_everywhere() {
    let mut t = SdlTTY::new();
    let mut p = Port { orgin: (0, 0), size: (4, 3), margin: 1, cursor: (0, 0) };
    t.box_port(fg(), &mut p);
    let frame = t.present();
    // 2*W + 2*H placements, corners drawn twice.
    assert_eq!(frame.len(), (2 * 4 + 2 * 3) as usize);
    for cmd in &frame {
        match cmd {
            Blit::Glyph { src, color, .. } => {
                assert_eq!(*src, atlas::atlas_src_rect(35));
                assert_eq!(*color, fg());
            },
            other => panic!("border drew {:?}", other),
        }
    }
    // The port itself is untouched.
    assert_eq!(p, Port { orgin: (0, 0), size: (4, 3), margin: 1, cursor: (0, 0) });
}

#[test]
fn box_port_rows_then_columns() {
    let mut t = SdlTTY::new();
    let mut p = Port { orgin: (0, 0), size: (2, 2), margin: 0, cursor: (0, 0) };
    t.box_port(fg(), &mut p);
    let frame = t.present();
    let dests: Vec<Rect> = frame
        .iter()
        .map(|c| match c {
            Blit::Glyph { dest, .. } => *dest,
            other => panic!("border drew {:?}", other),
        })
        .collect();
    // Top/bottom per column, then left/right per row.
    let cells = [(0, 0), (0, 1), (1, 0), (1, 1), (0, 0), (1, 0), (0, 1), (1, 1)];
    let expect: Vec<Rect> = cells.iter().map(|&(x, y)| cell_rect(x, y)).collect();
    assert_eq!(dests, expect);
}

#[test]
fn box_port_follows_the_port_origin() {
    let mut t = SdlTTY::new();
    let mut p = Port { orgin: (5, 3), size: (2, 2), margin: 0, cursor: (0, 0) };
    t.box_port(fg(), &mut p);
    let frame = t.present();
    let dests: Vec<Rect> = frame
        .iter()
        .map(|c| match c {
            Blit::Glyph { dest, .. } => *dest,
            other => panic!("border drew {:?}", other),
        })
        .collect();
    // Every placement lies on the port's own edges, not at the grid's.
    let cells = [(5, 3), (5, 4), (6, 3), (6, 4), (5, 3), (6, 3), (5, 4), (6, 4)];
    let expect: Vec<Rect> = cells.iter().map(|&(x, y)| cell_rect(x, y)).collect();
    assert_eq!(dests, expect);
}

#[test]
fn puts_title_fills_the_origin_row() {
    let mut t = SdlTTY::new();
    let mut p = Port { orgin: (0, 2), size: (10, 5), margin: 1, cursor: (0, 0) };
    t.puts_title("Hi", fg(), bg(), &mut p);
    let frame = t.present();
    // Each byte: a fill, then the glyph, along row orgin.1 from x_range.0.
    assert_eq!(frame.len(), 4);
    assert_eq!(frame[0], Blit::Fill { dest: cell_rect(1, 2), color: bg() });
    assert_eq!(
        frame[1],
        Blit::Glyph { src: atlas::atlas_src_rect(b'H'), dest: cell_rect(1, 2), color: fg() }
    );
    assert_eq!(frame[2], Blit::Fill { dest: cell_rect(2, 2), color: bg() });
    assert_eq!(
        frame[3],
        Blit::Glyph { src: atlas::atlas_src_rect(b'i'), dest: cell_rect(2, 2), color: fg() }
    );
    // The port is handed back unchanged.
    assert_eq!(p.cursor, (0, 0));
}

#[test]
fn multibyte_text_renders_one_cell_per_byte() {
    let mut t = SdlTTY::new();
    let mut p = Port { orgin: (0, 0), size: (10, 5), margin: 0, cursor: (0, 0) };
    // A two-byte encoded character takes two cells: byte-indexed, not
    // text-aware.
    t.puts_port("é", fg(), None, &mut p);
    assert_eq!(p.cursor, (2, 0));
    assert_eq!(t.present().len(), 2);
}
