use kernel::framebuffer::writer::{
    convert_color_to_16, convert_color_to_8, glyph_row, glyph_writes, Color, ColorCode, CurrentColor,
    FramebufferInfo, RgbColor, ScreenOp, Writer,
};

fn rgb(width: u32, height: u32) -> FramebufferInfo {
    FramebufferInfo {
        address: 0xfd00_0000,
        pitch: width * 4,
        width,
        height,
        bpp: 32,
        framebuffer_type: 1,
    }
}

#[test]
fn color_codes() {
    assert_eq!(ColorCode::new(Color::LightGreen, Color::Black).value(), 0x0a);
    assert_eq!(ColorCode::new(Color::White, Color::Blue).value(), 0x1f);
    assert_eq!(Color::Yellow.value(), 14);
}

#[test]
fn writer_for_each_framebuffer_type() {
    let mut info = rgb(640, 480);
    assert!(Writer::new(&info).is_some());
    info.framebuffer_type = 0;
    assert!(Writer::new(&info).is_none());
    info.framebuffer_type = 3;
    assert!(Writer::new(&info).is_none());
    info.framebuffer_type = 2;
    let w = Writer::new(&info).unwrap();
    assert_eq!(w.grid_columns(), 640);
    assert_eq!(w.grid_rows(), 480);
    let w = Writer::new(&rgb(640, 480)).unwrap();
    assert!(w.is_valid());
    assert_eq!(w.grid_columns(), 80);
    assert_eq!(w.grid_rows(), 30);
    assert_eq!(w.cursor(), (0, 0));
}

#[test]
fn write_byte_draws_and_advances() {
    let mut w = Writer::new(&rgb(640, 480)).unwrap();
    let ops = w.write_byte(b'A');
    assert_eq!(ops, vec![ScreenOp::Draw { row: 0, col: 0, character: b'A' }]);
    assert_eq!(w.cursor(), (1, 0));
    let ops = w.write_byte(b'\n');
    assert!(ops.is_empty());
    assert_eq!(w.cursor(), (0, 1));
}

#[test]
fn write_byte_wraps_at_line_end() {
    let mut w = Writer::new(&rgb(16, 64)).unwrap();
    w.write_byte(b'a');
    w.write_byte(b'b');
    assert_eq!(w.cursor(), (2, 0));
    let ops = w.write_byte(b'c');
    assert_eq!(ops, vec![ScreenOp::Draw { row: 1, col: 0, character: b'c' }]);
    assert_eq!(w.cursor(), (1, 1));
}

#[test]
fn new_line_on_last_row_scrolls() {
    let mut w = Writer::new(&rgb(16, 32)).unwrap();
    assert_eq!(w.write_byte(b'\n'), vec![]);
    assert_eq!(w.cursor(), (0, 1));
    let ops = w.write_byte(b'\n');
    assert_eq!(
        ops,
        vec![
            ScreenOp::Scroll,
            ScreenOp::Draw { row: 1, col: 0, character: b' ' },
            ScreenOp::Draw { row: 1, col: 1, character: b' ' },
        ]
    );
    assert_eq!(w.cursor(), (0, 1));
    assert_eq!(w.scroll_move(), (0xfd00_0000, 0xfd00_0000 + 64 * 16, 64 * 16));
}

#[test]
fn draw_targets() {
    let w = Writer::new(&rgb(640, 480)).unwrap();
    assert_eq!(w.draw_target(0, 0), Some(0xfd00_0000));
    assert_eq!(w.draw_target(2, 3), Some(0xfd00_0000 + 2560 * 2 * 16 + 3 * 8 * 4));
    let mut text = rgb(80, 25);
    text.framebuffer_type = 2;
    let t = Writer::new(&text).unwrap();
    assert_eq!(t.draw_target(1, 1), None);
    let mut bpp16 = rgb(640, 480);
    bpp16.bpp = 16;
    assert_eq!(Writer::new(&bpp16).unwrap().draw_target(0, 0), None);
}

#[test]
fn invalid_geometry_is_reported() {
    assert!(!Writer::new(&rgb(16, 8)).unwrap().is_valid());
    let mut huge = rgb(640, 480);
    huge.pitch = 0xffff_ffff;
    assert!(!Writer::new(&huge).unwrap().is_valid());
}

#[test]
fn glyph_rows_pick_pixels() {
    let (left, right) = glyph_row(0b1010_0001, 0x00ff_ffff, 0x1);
    let lanes = |v: u128| [(v & 0xffff_ffff) as u32, (v >> 32) as u32, (v >> 64) as u32, (v >> 96) as u32];
    assert_eq!(lanes(left), [0x00ff_ffff, 0x1, 0x00ff_ffff, 0x1]);
    assert_eq!(lanes(right), [0x1, 0x1, 0x1, 0x00ff_ffff]);
}

#[test]
fn color_conversions() {
    assert_eq!(convert_color_to_16(0x00ff_ffff), 0x7fff);
    assert_eq!(convert_color_to_16(0x8000_00ff), 0x801f);
    assert_eq!(convert_color_to_16(0x0000_ff00), 0x03e0);
    assert_eq!(convert_color_to_8(0x00ff_ffff), 0xff);
    assert_eq!(convert_color_to_8(0x0000_00ff), 0xe0);
    assert_eq!(convert_color_to_8(0x00ff_0000), 0x03);
}

#[test]
fn writer_colors() {
    let _ = CurrentColor::Rgb(RgbColor { foreground: 0x18f018, background: 0 });
}

#[test]
fn write_str_writes_each_byte() {
    let mut w = Writer::new(&rgb(16, 32)).unwrap();
    let ops = w.write_str(b"ab\nc");
    assert_eq!(
        ops,
        vec![
            ScreenOp::Draw { row: 0, col: 0, character: b'a' },
            ScreenOp::Draw { row: 0, col: 1, character: b'b' },
            ScreenOp::Draw { row: 1, col: 0, character: b'c' },
        ]
    );
    assert_eq!(w.cursor(), (1, 1));
}

#[test]
fn clear_screen_blanks_every_cell() {
    let mut w = Writer::new(&rgb(16, 32)).unwrap();
    w.write_str(b"xyz");
    let ops = w.clear_screen();
    assert_eq!(ops.len(), 4);
    assert!(ops.iter().all(|op| matches!(op, ScreenOp::Draw { character: b' ', .. })));
    assert_eq!(w.cursor(), (0, 0));
}

#[test]
fn glyph_writes_cover_sixteen_rows() {
    let mut font = vec![0u8; 32];
    font[16] = 0xf0;
    font[31] = 0x01;
    let writes = glyph_writes(0x1000, 100, &font, 1, 0xaa, 0xbb);
    assert_eq!(writes.len(), 32);
    let lanes = |v: u128| [(v & 0xffff_ffff) as u32, (v >> 32) as u32, (v >> 64) as u32, (v >> 96) as u32];
    assert_eq!(writes[0].0, 0x1000);
    assert_eq!(lanes(writes[0].1), [0xaa; 4]);
    assert_eq!(writes[1].0, 0x1010);
    assert_eq!(lanes(writes[1].1), [0xbb; 4]);
    assert_eq!(writes[30].0, 0x1000 + 15 * 100);
    assert_eq!(writes[31].0, 0x1000 + 15 * 100 + 16);
    assert_eq!(lanes(writes[31].1), [0xbb, 0xbb, 0xbb, 0xaa]);
}

#[test]
fn text_writer_wraps_a_full_line() {
    let info = FramebufferInfo { address: 0xb8000, pitch: 160, width: 80, height: 25, bpp: 16, framebuffer_type: 2 };
    let mut w = Writer::new(&info).unwrap();
    assert!(w.is_valid());
    w.write_byte(b'A');
    assert_eq!(w.cursor(), (1, 0));
    for _ in 1..80 {
        w.write_byte(b'A');
    }
    assert_eq!(w.cursor(), (80, 0));
    let ops = w.write_byte(b'A');
    assert_eq!(w.cursor(), (1, 1));
    assert_eq!(ops, vec![ScreenOp::Draw { row: 1, col: 0, character: b'A' }]);
    w.write_byte(b'\n');
    assert_eq!(w.cursor(), (0, 2));
    assert_eq!(w.draw_target(0, 0), None);
}

#[test]
fn write_str_of_concatenation() {
    let mut a = Writer::new(&rgb(24, 32)).unwrap();
    let mut ops = a.write_str(b"hello");
    ops.extend(a.write_str(b" world\n!"));
    let mut b = Writer::new(&rgb(24, 32)).unwrap();
    assert_eq!(b.write_str(b"hello world\n!"), ops);
    assert_eq!(a.cursor(), b.cursor());
}

#[test]
fn relaxed_geometry_is_valid() {
    // A pitch*height just over 32 bits is fine when the last row and cell fit.
    let info = FramebufferInfo { address: 0, pitch: 0x0100_0000, width: 8, height: 256, bpp: 32, framebuffer_type: 1 };
    let w = Writer::new(&info).unwrap();
    assert!(w.is_valid());
    assert_eq!(w.scroll_move(), (0, 0x1000_0000, 0x1000_0000 * 15));
}
