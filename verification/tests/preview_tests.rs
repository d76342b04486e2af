use sshhub::preview::{
    frame_delay_ms, half_block, img_to_lines, is_gif_extension, Cell, GifAssembler, PreviewError, RawFrame,
    RgbaGrid, Rgb, DEFAULT_GIF_FRAME_MS,
};

const RED: [u8; 4] = [255, 0, 0, 255];
const BLUE: [u8; 4] = [0, 0, 255, 128];
const CLEAR: [u8; 4] = [9, 9, 9, 0];

fn rgb(p: [u8; 4]) -> Rgb {
    Rgb { r: p[0], g: p[1], b: p[2] }
}

#[test]
fn half_blocks() {
    assert_eq!(half_block(CLEAR, CLEAR), Cell { glyph: ' ', fg: None, bg: None });
    assert_eq!(half_block(RED, CLEAR), Cell { glyph: '\u{2580}', fg: Some(rgb(RED)), bg: None });
    assert_eq!(half_block(CLEAR, BLUE), Cell { glyph: '\u{2584}', fg: Some(rgb(BLUE)), bg: None });
    assert_eq!(half_block(RED, BLUE), Cell { glyph: '\u{2580}', fg: Some(rgb(RED)), bg: Some(rgb(BLUE)) });
}

#[test]
fn raw_buffer_must_hold_the_image() {
    assert!(RgbaGrid::from_raw(2, 2, vec![0; 16]).is_some());
    assert!(RgbaGrid::from_raw(2, 2, vec![0; 20]).is_some());
    assert!(RgbaGrid::from_raw(2, 2, vec![0; 15]).is_none());
    assert!(RgbaGrid::from_raw(0, 5, vec![]).is_some());
}

#[test]
fn pixels_are_row_major() {
    let mut buf = vec![];
    for p in [RED, BLUE, CLEAR, RED, BLUE, CLEAR] {
        buf.extend_from_slice(&p);
    }
    let img = RgbaGrid::from_raw(2, 3, buf).unwrap();
    assert_eq!((img.width(), img.height()), (2, 3));
    assert_eq!(img.get_pixel(1, 0), BLUE);
    assert_eq!(img.get_pixel(0, 1), CLEAR);
    assert_eq!(img.get_pixel(1, 2), CLEAR);
}

#[test]
fn picture_rows_pair_pixel_rows() {
    // 2 wide, 3 tall: rows (RED, BLUE), (CLEAR, RED), (BLUE, CLEAR)
    let mut buf = vec![];
    for p in [RED, BLUE, CLEAR, RED, BLUE, CLEAR] {
        buf.extend_from_slice(&p);
    }
    let img = RgbaGrid::from_raw(2, 3, buf).unwrap();
    let lines = img_to_lines(&img);
    assert_eq!(lines.len(), 2);
    assert_eq!(lines[0], vec![half_block(RED, CLEAR), half_block(BLUE, RED)]);
    // The odd last pixel row sits over transparency.
    assert_eq!(lines[1], vec![half_block(BLUE, CLEAR), half_block(CLEAR, CLEAR)]);
}

#[test]
fn empty_images_have_no_rows() {
    assert!(img_to_lines(&RgbaGrid::from_raw(0, 4, vec![]).unwrap()).is_empty());
    assert!(img_to_lines(&RgbaGrid::from_raw(4, 0, vec![]).unwrap()).is_empty());
}

#[test]
fn gif_frame_delays() {
    assert_eq!(frame_delay_ms(0), DEFAULT_GIF_FRAME_MS);
    assert_eq!(frame_delay_ms(1), 10);
    assert_eq!(frame_delay_ms(25), 250);
    assert_eq!(frame_delay_ms(u16::MAX), 655_350);
}

fn frame(delay: u16) -> RawFrame {
    RawFrame { width: 1, height: 1, buffer: RED.to_vec(), delay }
}

#[test]
fn gif_without_frames_is_refused() {
    assert_eq!(GifAssembler::new().finish().err(), Some(PreviewError::NoFrames));
}

#[test]
fn gif_frame_with_short_buffer_is_refused() {
    let bad = RawFrame { width: 2, height: 2, buffer: vec![0; 8], delay: 5 };
    assert_eq!(GifAssembler::new().push_frame(bad).err(), Some(PreviewError::InvalidFrame));
}

#[test]
fn gif_total_is_the_sum_of_delays() {
    let a = GifAssembler::new().push_frame(frame(10)).ok().unwrap();
    let a = a.push_frame(frame(0)).ok().unwrap();
    let a = a.push_frame(frame(5)).ok().unwrap();
    let anim = a.finish().ok().unwrap();
    assert_eq!(anim.total_ms(), 100 + 100 + 50);
    let delays: Vec<u64> = anim.frames().iter().map(|f| f.delay_ms).collect();
    assert_eq!(delays, vec![100, 100, 50]);
    assert_eq!(anim.frames()[0].lines, vec![vec![half_block(RED, CLEAR)]]);
}

#[test]
fn frame_shown_follows_the_clock_and_loops() {
    let a = GifAssembler::new().push_frame(frame(10)).ok().unwrap();
    let a = a.push_frame(frame(20)).ok().unwrap();
    let anim = a.finish().ok().unwrap();
    let ms: u128 = 1_000_000;
    assert_eq!(anim.pick_frame(0), 0);
    assert_eq!(anim.pick_frame(99 * ms), 0);
    assert_eq!(anim.pick_frame(100 * ms), 1);
    assert_eq!(anim.pick_frame(299 * ms), 1);
    assert_eq!(anim.pick_frame(300 * ms), 0);
    assert_eq!(anim.pick_frame(450 * ms), 1);
}

#[test]
fn gif_extension_in_any_case() {
    assert!(is_gif_extension(Some("gif")));
    assert!(is_gif_extension(Some("GIF")));
    assert!(is_gif_extension(Some("GiF")));
    assert!(!is_gif_extension(Some("png")));
    assert!(!is_gif_extension(Some("gifs")));
    assert!(!is_gif_extension(Some("")));
    assert!(!is_gif_extension(None));
}
