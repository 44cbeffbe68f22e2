use sdl_tty::atlas;
use sdl_tty::port::Port;

#[test]
fn atlas_index_examples() {
    // Byte c sits at column c % 32, row c / 32.
    assert_eq!(atlas::atlas_index(0), (0, 0));
    assert_eq!(atlas::atlas_index(32), (0, 1));
    assert_eq!(atlas::atlas_index(35), (3, 1));
    assert_eq!(atlas::atlas_index(255), (31, 7));
}

#[test]
fn atlas_index_all_bytes() {
    for c in 0..=255u8 {
        let (x, y) = atlas::atlas_index(c);
        assert_eq!(x, c as u32 % atlas::SPRITE_COLS);
        assert_eq!(y, c as u32 / atlas::SPRITE_COLS);
    }
}

#[test]
fn atlas_src_rect_exact() {
    // '#' = 35: column 3, row 1 -> (3*9+7, 1*16+8, 9, 16).
    let r = atlas::atlas_src_rect(35);
    assert_eq!(r.x, 34);
    assert_eq!(r.y, 24);
    assert_eq!(r.w, 9);
    assert_eq!(r.h, 16);
}

#[test]
fn range_widths_are_size_minus_two_margins() {
    let p = Port { orgin: (5, 7), size: (10, 8), margin: 2, cursor: (0, 0) };
    let xr = p.get_x_range();
    let yr = p.get_y_range();
    assert_eq!(xr, (7, 13));
    assert_eq!(yr, (9, 13));
    assert_eq!(xr.1 - xr.0, p.size.0 - 2 * p.margin);
    assert_eq!(yr.1 - yr.0, p.size.1 - 2 * p.margin);
}

#[test]
fn drawable_subtracts_one_margin() {
    let p = Port { orgin: (5, 7), size: (10, 8), margin: 2, cursor: (0, 0) };
    assert_eq!(p.get_drawable(), (8, 6));
}

#[test]
fn set_c_inner_is_relative_to_inner_origin() {
    let mut p = Port { orgin: (2, 3), size: (10, 10), margin: 1, cursor: (0, 0) };
    p.set_c_inner(4, 5);
    assert_eq!(p.cursor, (7, 9));
    assert_eq!(p.orgin, (2, 3));
    assert_eq!(p.size, (10, 10));
    assert_eq!(p.margin, 1);
}
