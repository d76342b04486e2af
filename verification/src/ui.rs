//! What the lobby screen shows, as styled text and rectangles; drawing it
//! is left to the terminal UI.
use vstd::prelude::*;
use crate::config::{GameMetadata, Preview};
use crate::preview::Cell;
use crate::text::{concat2, concat3, decimal, spec_decimal};
use vstd::string::{StrSliceExecFns, StringExecFns};

verus! {

/// The styles the lobby uses.
#[derive(Clone, Copy, Debug, PartialEq, Eq, Structural)]
pub enum TextStyle {
    /// The terminal's default.
    Plain,
    /// The hub's yellow, bold.
    AccentBold,
    /// Red, bold.
    AlertBold,
    White,
    Gray,
    DarkGray,
}

/// A run of text in one style.
pub struct StyledSpan {
    pub text: String,
    pub style: TextStyle,
}

/// A rectangle on screen, in cells.
#[derive(Clone, Copy, Debug, PartialEq, Eq, Structural)]
pub struct Rect {
    pub x: u16,
    pub y: u16,
    pub width: u16,
    pub height: u16,
}

/// Width of the idle-kick banner.
pub const BANNER_WIDTH: u16 = 50;

/// Height of the idle-kick banner.
pub const BANNER_HEIGHT: u16 = 3;

/// The text and style of a span.
pub open spec fn spec_span(s: StyledSpan) -> (Seq<char>, TextStyle) {
    (s.text@, s.style)
}

/// The spans of a line, as text and style.
pub open spec fn spec_spans(line: Seq<StyledSpan>) -> Seq<(Seq<char>, TextStyle)> {
    line.map_values(|s: StyledSpan| spec_span(s))
}

/// The greeting row: the flash message in red when there is one, else
/// "Hello <user>!" with the name highlighted.
pub open spec fn spec_greeting(username: Seq<char>, flash: Option<Seq<char>>) -> Seq<
    (Seq<char>, TextStyle),
> {
    match flash {
        Some(m) => seq![(m, TextStyle::AlertBold)],
        None => seq![
            ("Hello "@, TextStyle::Plain),
            (username, TextStyle::AccentBold),
            ("!"@, TextStyle::Plain),
        ],
    }
}

fn span(text: String, style: TextStyle) -> (s: StyledSpan)
    ensures
        s.text == text,
        s.style == style,
{
    StyledSpan { text, style }
}

/// The greeting row.
pub fn greeting(username: &str, flash: Option<&str>) -> (line: Vec<StyledSpan>)
    ensures
        spec_spans(line@) == spec_greeting(
            username@,
            match flash {
                Some(m) => Some(m@),
                None => None,
            },
        ),
{
    let mut line = Vec::new();
    match flash {
        Some(m) => {
            line.push(span(String::from_str(m), TextStyle::AlertBold));
        },
        None => {
            line.push(span(String::from_str("Hello "), TextStyle::Plain));
            line.push(span(String::from_str(username), TextStyle::AccentBold));
            line.push(span(String::from_str("!"), TextStyle::Plain));
        },
    }
    proof {
        assert(spec_spans(line@) =~= spec_greeting(
            username@,
            match flash {
                Some(m) => Some(m@),
                None => None,
            },
        ));
    }
    line
}

/// The marker in front of a game's row: an arrow on the highlighted one.
pub open spec fn spec_marker(selected: bool) -> Seq<char> {
    if selected { "\u{25b6} "@ } else { "  "@ }
}

/// The style of a game's name: accent when highlighted, else white.
pub open spec fn spec_name_style(selected: bool) -> TextStyle {
    if selected { TextStyle::AccentBold } else { TextStyle::White }
}

/// The style of a game's description: gray when highlighted, else dark gray.
pub open spec fn spec_desc_style(selected: bool) -> TextStyle {
    if selected { TextStyle::Gray } else { TextStyle::DarkGray }
}

/// The three rows of game `i` (numbered from one on screen): marker, number
/// and name; the indented description; a blank row.
pub open spec fn spec_game_rows(i: int, name: Seq<char>, description: Seq<char>, selected: bool) -> Seq<
    Seq<(Seq<char>, TextStyle)>,
> {
    seq![
        seq![
            (spec_marker(selected) + spec_decimal((i + 1) as nat) + ". "@, spec_name_style(selected)),
            (name, spec_name_style(selected)),
        ],
        seq![("     "@ + description, spec_desc_style(selected))],
        Seq::empty(),
    ]
}

/// The games pane: a placeholder row when there are no games, else three
/// rows per game.
pub open spec fn spec_games_pane(games: Seq<GameMetadata>, selected_idx: int) -> Seq<
    Seq<(Seq<char>, TextStyle)>,
> {
    if games.len() == 0 {
        seq![seq![("(no games configured)"@, TextStyle::DarkGray)]]
    } else {
        Seq::new(
            3 * games.len(),
            |r: int|
                spec_game_rows(
                    r / 3,
                    games[r / 3].name@,
                    games[r / 3].description@,
                    r / 3 == selected_idx,
                )[r % 3],
        )
    }
}

/// The rows of the games pane, with game `selected_idx` highlighted.
pub fn games_pane_lines(games: &Vec<GameMetadata>, selected_idx: usize) -> (lines: Vec<
    Vec<StyledSpan>,
>)
    requires
        games@.len() < usize::MAX,
    ensures
        lines@.len() == spec_games_pane(games@, selected_idx as int).len(),
        forall|r: int|
            0 <= r < lines@.len() ==> spec_spans(#[trigger] lines@[r]@) == spec_games_pane(
                games@,
                selected_idx as int,
            )[r],
{
    let mut lines: Vec<Vec<StyledSpan>> = Vec::new();
    if games.len() == 0 {
        let mut row = Vec::new();
        row.push(span(String::from_str("(no games configured)"), TextStyle::DarkGray));
        proof {
            assert(spec_spans(row@) =~= seq![("(no games configured)"@, TextStyle::DarkGray)]);
        }
        lines.push(row);
        return lines;
    }
    let mut i: usize = 0;
    while i < games.len()
        invariant
            games@.len() < usize::MAX,
            games@.len() > 0,
            i <= games@.len(),
            lines@.len() == 3 * i,
            forall|r: int|
                0 <= r < lines@.len() ==> spec_spans(#[trigger] lines@[r]@) == spec_games_pane(
                    games@,
                    selected_idx as int,
                )[r],
        decreases games@.len() - i,
    {
        let g = &games[i];
        let is_selected = i == selected_idx;
        let (marker, name_style, desc_style) = if is_selected {
            ("\u{25b6} ", TextStyle::AccentBold, TextStyle::Gray)
        } else {
            ("  ", TextStyle::White, TextStyle::DarkGray)
        };
        let number = decimal((i + 1) as u64);
        let head = concat3(marker, number.as_str(), ". ");
        let mut row1 = Vec::new();
        row1.push(span(head, name_style));
        row1.push(span(g.name.clone(), name_style));
        let mut row2 = Vec::new();
        row2.push(span(concat2("     ", g.description.as_str()), desc_style));
        let row3: Vec<StyledSpan> = Vec::new();
        let ghost rows = spec_game_rows(i as int, g.name@, g.description@, is_selected);
        proof {
            assert(spec_spans(row1@) =~= rows[0]);
            assert(spec_spans(row2@) =~= rows[1]);
            assert(spec_spans(row3@) =~= rows[2]);
        }
        lines.push(row1);
        lines.push(row2);
        lines.push(row3);
        proof {
            assert forall|r: int|
                0 <= r < lines@.len() implies spec_spans(#[trigger] lines@[r]@) == spec_games_pane(
                games@,
                selected_idx as int,
            )[r] by {
                if r >= 3 * i {
                    assert(r / 3 == i);
                    assert(r % 3 == r - 3 * i);
                }
            }
        }
        i += 1;
    }
    lines
}

/// Where the idle-kick banner goes: centred across `area`, one row above
/// the warning slot at `slot_y`, at most 50 by 3 cells and never larger
/// than `area`.
pub open spec fn spec_kick_banner_rect(area: Rect, slot_y: u16) -> Rect {
    Rect {
        x: (area.x + (if area.width >= BANNER_WIDTH { area.width - BANNER_WIDTH } else { 0 }) / 2) as u16,
        y: if slot_y >= 1 { (slot_y - 1) as u16 } else { 0 },
        width: if BANNER_WIDTH <= area.width { BANNER_WIDTH } else { area.width },
        height: if BANNER_HEIGHT <= area.height { BANNER_HEIGHT } else { area.height },
    }
}

/// Where the idle-kick banner goes. The banner's left edge must be a valid
/// column (the sum is `u16`).
pub fn kick_banner_rect(area: Rect, slot_y: u16) -> (r: Rect)
    requires
        area.x + (if area.width >= BANNER_WIDTH { area.width - BANNER_WIDTH } else { 0 }) / 2
            <= u16::MAX,
    ensures
        r == spec_kick_banner_rect(area, slot_y),
{
    Rect {
        x: area.x + area.width.saturating_sub(BANNER_WIDTH) / 2,
        y: slot_y.saturating_sub(1),
        width: if BANNER_WIDTH <= area.width { BANNER_WIDTH } else { area.width },
        height: if BANNER_HEIGHT <= area.height { BANNER_HEIGHT } else { area.height },
    }
}

/// The idle-kick banner's text for `secs` seconds left.
pub open spec fn spec_idle_warning_text(secs: u32) -> Seq<char> {
    "Idle: disconnecting in "@ + spec_decimal(secs as nat) + "s"@
}

/// The idle-kick banner's text for `secs` seconds left.
pub fn idle_warning_text(secs: u32) -> (s: String)
    ensures
        s@ == spec_idle_warning_text(secs),
{
    let n = decimal(secs as u64);
    concat3("Idle: disconnecting in ", n.as_str(), "s")
}

/// What the preview pane shows.
pub enum PreviewBody<'a> {
    /// A picture (static, or the current frame of an animation).
    Picture(&'a Vec<Vec<Cell>>),
    /// No picture: a blank row, then this text centred in dark gray.
    Caption(String),
}

/// What the preview pane shows for `game`, `elapsed` nanoseconds after it
/// was highlighted: its static picture, the animation frame due at that
/// time, or, without a picture, its description (nothing without a game).
pub fn preview_body(game: Option<&GameMetadata>, elapsed: u128) -> (b: PreviewBody<'_>)
    ensures
        match game {
            Some(g) => match g.preview {
                Some(Preview::Static(lines)) => b matches PreviewBody::Picture(l) && *l == lines,
                Some(Preview::Animated(anim)) => b matches PreviewBody::Picture(l) && *l
                    == anim.spec_frames()[anim.spec_pick_frame(elapsed)].lines,
                None => b matches PreviewBody::Caption(c) && c@ == g.description@,
            },
            None => b matches PreviewBody::Caption(c) && c@ == Seq::<char>::empty(),
        },
{
    match game {
        Some(g) => match &g.preview {
            Some(Preview::Static(lines)) => PreviewBody::Picture(lines),
            Some(Preview::Animated(anim)) => {
                let i = anim.pick_frame(elapsed);
                let frames = anim.frames();
                PreviewBody::Picture(&frames[i].lines)
            },
            None => PreviewBody::Caption(g.description.clone()),
        },
        None => PreviewBody::Caption(String::new()),
    }
}

/// Rows left blank above the preview: a quarter of the space the body
/// leaves free (the row count is taken as `u16`), so the picture sits
/// toward the top of the pane.
pub open spec fn spec_preview_v_offset(area_height: u16, rows: usize) -> u16 {
    let r = rows as u16;
    ((if area_height >= r { area_height - r } else { 0 }) / 4) as u16
}

/// Rows left blank above a preview body of `rows` rows in a pane
/// `area_height` rows tall.
pub fn preview_v_offset(area_height: u16, rows: usize) -> (o: u16)
    ensures
        o == spec_preview_v_offset(area_height, rows),
{
    area_height.saturating_sub(rows as u16) / 4
}

/// How a character of the big title is inked.
#[derive(Clone, Copy, Debug, PartialEq, Eq, Structural)]
pub enum Ink {
    /// A full block, in the block colour.
    Block,
    /// Any other character, in the accent colour.
    Accent,
}

/// The full-block character the big title is drawn with.
pub const FULL_BLOCK: char = '\u{2588}';

/// The inked characters of one title line.
pub open spec fn spec_title_line(line: Seq<char>) -> Seq<(char, Ink)> {
    line.map_values(|c: char| (c, if c == FULL_BLOCK { Ink::Block } else { Ink::Accent }))
}

/// The big title: every character of every line, full blocks in the block
/// colour and the rest in the accent colour.
pub fn big_text(lines_in: &[&str]) -> (lines: Vec<Vec<(char, Ink)>>)
    ensures
        lines@.len() == lines_in@.len(),
        forall|r: int| 0 <= r < lines@.len() ==> #[trigger] lines@[r]@ == spec_title_line(lines_in@[r]@),
{
    let mut lines: Vec<Vec<(char, Ink)>> = Vec::new();
    let mut r: usize = 0;
    while r < lines_in.len()
        invariant
            r <= lines_in@.len(),
            lines@.len() == r,
            forall|k: int| 0 <= k < r ==> #[trigger] lines@[k]@ == spec_title_line(lines_in@[k]@),
        decreases lines_in@.len() - r,
    {
        let line: &str = lines_in[r];
        let n = line.unicode_len();
        let mut cells: Vec<(char, Ink)> = Vec::new();
        let mut i: usize = 0;
        while i < n
            invariant
                n == line@.len(),
                i <= n,
                cells@.len() == i,
                forall|k: int| 0 <= k < i ==> #[trigger] cells@[k] == spec_title_line(line@)[k],
            decreases n - i,
        {
            let c = line.get_char(i);
            let ink = if c == FULL_BLOCK { Ink::Block } else { Ink::Accent };
            cells.push((c, ink));
            i += 1;
        }
        proof {
            assert(cells@ =~= spec_title_line(line@));
        }
        lines.push(cells);
        r += 1;
    }
    lines
}

} // verus!
