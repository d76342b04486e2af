use sshhub::config::{GameMetadata, Preview};
use sshhub::preview::{half_block, GifAssembler, RawFrame};
use sshhub::ui::{
    big_text, games_pane_lines, greeting, kick_banner_rect, preview_body, preview_v_offset, Ink, PreviewBody,
    Rect, TextStyle,
};

fn game(key: &str, name: &str, description: &str) -> GameMetadata {
    GameMetadata {
        key: key.to_string(),
        name: name.to_string(),
        description: description.to_string(),
        host: String::from("localhost"),
        port: 2222,
        image: None,
        preview: None,
    }
}

fn texts(line: &[sshhub::ui::StyledSpan]) -> Vec<(String, TextStyle)> {
    line.iter().map(|s| (s.text.clone(), s.style)).collect()
}

#[test]
fn greeting_names_the_user() {
    assert_eq!(
        texts(&greeting("ann", None)),
        vec![
            (String::from("Hello "), TextStyle::Plain),
            (String::from("ann"), TextStyle::AccentBold),
            (String::from("!"), TextStyle::Plain),
        ]
    );
}

#[test]
fn flash_replaces_the_greeting() {
    assert_eq!(
        texts(&greeting("ann", Some("could not connect"))),
        vec![(String::from("could not connect"), TextStyle::AlertBold)]
    );
}

#[test]
fn empty_games_pane() {
    let lines = games_pane_lines(&vec![], 0);
    assert_eq!(lines.len(), 1);
    assert_eq!(texts(&lines[0]), vec![(String::from("(no games configured)"), TextStyle::DarkGray)]);
}

#[test]
fn games_pane_numbers_and_highlights() {
    let games = vec![game("a", "Asterion", "maze"), game("s", "Stonks", "market")];
    let lines = games_pane_lines(&games, 1);
    assert_eq!(lines.len(), 6);
    assert_eq!(
        texts(&lines[0]),
        vec![(String::from("  1. "), TextStyle::White), (String::from("Asterion"), TextStyle::White)]
    );
    assert_eq!(texts(&lines[1]), vec![(String::from("     maze"), TextStyle::DarkGray)]);
    assert!(lines[2].is_empty());
    assert_eq!(
        texts(&lines[3]),
        vec![
            (String::from("\u{25b6} 2. "), TextStyle::AccentBold),
            (String::from("Stonks"), TextStyle::AccentBold)
        ]
    );
    assert_eq!(texts(&lines[4]), vec![(String::from("     market"), TextStyle::Gray)]);
}

#[test]
fn games_pane_counts_past_nine() {
    let games: Vec<GameMetadata> = (0..12).map(|i| game("k", &format!("g{i}"), "")).collect();
    let lines = games_pane_lines(&games, 99);
    assert_eq!(lines[33][0].text, "  12. ");
}

#[test]
fn banner_is_centred_above_the_slot() {
    let area = Rect { x: 0, y: 0, width: 80, height: 24 };
    assert_eq!(kick_banner_rect(area, 20), Rect { x: 15, y: 19, width: 50, height: 3 });
}

#[test]
fn banner_never_exceeds_a_small_area() {
    let area = Rect { x: 4, y: 0, width: 30, height: 2 };
    assert_eq!(kick_banner_rect(area, 0), Rect { x: 4, y: 0, width: 30, height: 2 });
}

#[test]
fn preview_offset_is_a_quarter_of_the_free_rows() {
    assert_eq!(preview_v_offset(20, 4), 4);
    assert_eq!(preview_v_offset(20, 30), 0);
    assert_eq!(preview_v_offset(10, 65_536 + 2), 2);
}

#[test]
fn preview_of_a_game_without_picture_is_its_description() {
    let g = game("a", "A", "a maze");
    match preview_body(Some(&g), 0) {
        PreviewBody::Caption(c) => assert_eq!(c, "a maze"),
        _ => panic!("expected a caption"),
    }
    match preview_body(None, 0) {
        PreviewBody::Caption(c) => assert_eq!(c, ""),
        _ => panic!("expected a caption"),
    }
}

#[test]
fn preview_of_a_static_picture() {
    let mut g = game("a", "A", "d");
    let pic = vec![vec![half_block([1, 2, 3, 255], [0, 0, 0, 0])]];
    g.preview = Some(Preview::Static(pic.clone()));
    match preview_body(Some(&g), 12345) {
        PreviewBody::Picture(l) => assert_eq!(*l, pic),
        _ => panic!("expected a picture"),
    }
}

#[test]
fn preview_of_an_animation_follows_the_clock() {
    let red = RawFrame { width: 1, height: 1, buffer: vec![255, 0, 0, 255], delay: 10 };
    let blue = RawFrame { width: 1, height: 1, buffer: vec![0, 0, 255, 255], delay: 10 };
    let anim = GifAssembler::new().push_frame(red).ok().unwrap().push_frame(blue).ok().unwrap().finish().ok().unwrap();
    let mut g = game("a", "A", "d");
    g.preview = Some(Preview::Animated(anim));
    let ms: u128 = 1_000_000;
    match preview_body(Some(&g), 150 * ms) {
        PreviewBody::Picture(l) => assert_eq!(l[0][0].fg.unwrap().b, 255),
        _ => panic!("expected a picture"),
    }
    match preview_body(Some(&g), 50 * ms) {
        PreviewBody::Picture(l) => assert_eq!(l[0][0].fg.unwrap().r, 255),
        _ => panic!("expected a picture"),
    }
}

#[test]
fn big_text_inks_blocks_and_accents() {
    let lines = big_text(&["\u{2588}\u{2557} ", "\u{2588}"]);
    assert_eq!(lines.len(), 2);
    assert_eq!(lines[0], vec![('\u{2588}', Ink::Block), ('\u{2557}', Ink::Accent), (' ', Ink::Accent)]);
    assert_eq!(lines[1], vec![('\u{2588}', Ink::Block)]);
}

#[test]
fn idle_banner_counts_the_seconds() {
    assert_eq!(sshhub::ui::idle_warning_text(9), "Idle: disconnecting in 9s");
    assert_eq!(sshhub::ui::idle_warning_text(10), "Idle: disconnecting in 10s");
}
