use asciiview::plan::plan;
use asciiview::render::{Image, Pixel, render_cell, render_lines, render_frame, styled_text};

fn px(r: u8, g: u8, b: u8) -> Pixel {
    Pixel { red: r, green: g, blue: b }
}

fn checker_2x2() -> Image {
    let pixels = vec![px(0, 0, 0), px(255, 255, 255), px(0, 0, 0), px(255, 255, 255)];
    Image::new(2, 2, pixels).unwrap()
}

fn styled(p: Pixel, glyph: char) -> String {
    // what ansi_term emits for a true-color foreground
    format!("\u{1b}[38;2;{};{};{}m{}\u{1b}[0m", p.red, p.green, p.blue, glyph)
}

#[test]
fn image_new_validates_dimensions() {
    assert!(Image::new(0, 1, vec![]).is_none());
    assert!(Image::new(1, 0, vec![]).is_none());
    assert!(Image::new(2, 2, vec![px(0, 0, 0); 3]).is_none());
    assert!(Image::new(2, 2, vec![px(0, 0, 0); 4]).is_some());
}

#[test]
fn cell_keeps_true_color() {
    let c = render_cell(px(10, 200, 30));
    assert_eq!(c.color, px(10, 200, 30));
}

#[test]
fn black_white_checker_cells() {
    let img = checker_2x2();
    let st = plan(2, 2, 2, 2);
    assert_eq!(st.stride_x, 1);
    assert_eq!(st.stride_y, 1);
    let lines = render_lines(&img, &st);
    assert_eq!(lines.len(), 2);
    for row in &lines {
        assert_eq!(row.len(), 2);
        assert_eq!(row[0].glyph, ' ');
        assert_eq!(row[0].color, px(0, 0, 0));
        assert_eq!(row[1].glyph, '@');
        assert_eq!(row[1].color, px(255, 255, 255));
    }
}

#[test]
fn black_white_checker_text() {
    let img = checker_2x2();
    let out = render_frame(&img, 2, 2);
    let row = format!("{}{}\n", styled(px(0, 0, 0), ' '), styled(px(255, 255, 255), '@'));
    assert_eq!(out, format!("{}{}", row, row));
}

#[test]
fn hundred_square_sampled_grid() {
    // 100x100 image against an 80x24 terminal: 50 columns, 20 rows
    let pixels = vec![px(128, 128, 128); 100 * 100];
    let img = Image::new(100, 100, pixels).unwrap();
    let st = plan(100, 100, 80, 24);
    let lines = render_lines(&img, &st);
    assert_eq!(lines.len(), 20);
    for row in &lines {
        assert_eq!(row.len(), 50);
    }
}

#[test]
fn rendering_is_deterministic() {
    let mut pixels = Vec::new();
    for i in 0..(9 * 7) {
        let v = (i * 37 % 256) as u8;
        pixels.push(px(v, v.wrapping_add(91), v.wrapping_mul(3)));
    }
    let img = Image::new(9, 7, pixels.clone()).unwrap();
    let img2 = Image::new(9, 7, pixels).unwrap();
    let a = render_frame(&img, 5, 4);
    let b = render_frame(&img2, 5, 4);
    assert_eq!(a, b);
}

#[test]
fn styled_text_wraps_glyphs_in_escapes() {
    // the styling must actually wrap the glyph, not hand it back bare
    let img = Image::new(1, 1, vec![px(7, 8, 9)]).unwrap();
    let st = plan(1, 1, 10, 10);
    let out = styled_text(&img, &st);
    assert_ne!(out, " \n");
    assert!(out.contains('\u{1b}'));
    assert!(out.contains("38;2;7;8;9"));
    assert!(out.ends_with('\n'));
}

#[test]
fn uneven_stride_clamps_inside_image() {
    // 5 wide, stride 3: samples x = 0 and x = 3, both inside
    let mut pixels = Vec::new();
    for i in 0..5 {
        pixels.push(px(i as u8 * 50, 0, 0));
    }
    let img = Image::new(5, 1, pixels).unwrap();
    let st = plan(5, 1, 2, 1);
    assert_eq!(st.stride_x, 3);
    let lines = render_lines(&img, &st);
    assert_eq!(lines.len(), 1);
    assert_eq!(lines[0].len(), 2);
    assert_eq!(lines[0][0].color, px(0, 0, 0));
    assert_eq!(lines[0][1].color, px(150, 0, 0));
}
