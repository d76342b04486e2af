//! Game preview pictures: RGBA pixels drawn with half-block characters (two
//! pixel rows per text row), and animated GIF previews.
use vstd::prelude::*;
use vstd::string::StrSliceExecFns;

verus! {

/// An RGB colour.
#[derive(Clone, Copy, Debug, PartialEq, Eq, Structural)]
pub struct Rgb {
    pub r: u8,
    pub g: u8,
    pub b: u8,
}

/// One character cell of a picture: the glyph with its foreground and
/// background colours (`None`: the terminal's default).
#[derive(Clone, Copy, Debug, PartialEq, Eq, Structural)]
pub struct Cell {
    pub glyph: char,
    pub fg: Option<Rgb>,
    pub bg: Option<Rgb>,
}

/// A fully transparent pixel, used below the last pixel row.
pub open spec fn spec_transparent() -> Seq<u8> {
    seq![0u8, 0u8, 0u8, 0u8]
}

/// The colour part of an RGBA pixel.
pub open spec fn spec_rgb(p: Seq<u8>) -> Rgb {
    Rgb { r: p[0], g: p[1], b: p[2] }
}

/// The cell that shows pixel `top` above pixel `btm`: an upper half block
/// in the top colour (over the bottom colour when that one is opaque too),
/// a lower half block when only the bottom one is opaque, a blank when
/// neither is. A pixel is opaque when its alpha is not zero.
pub open spec fn spec_half_block(top: Seq<u8>, btm: Seq<u8>) -> Cell {
    let top_on = top[3] > 0;
    let btm_on = btm[3] > 0;
    if !top_on && !btm_on {
        Cell { glyph: ' ', fg: None, bg: None }
    } else if top_on && !btm_on {
        Cell { glyph: '\u{2580}', fg: Some(spec_rgb(top)), bg: None }
    } else if !top_on && btm_on {
        Cell { glyph: '\u{2584}', fg: Some(spec_rgb(btm)), bg: None }
    } else {
        Cell { glyph: '\u{2580}', fg: Some(spec_rgb(top)), bg: Some(spec_rgb(btm)) }
    }
}

/// The cell for pixels `top` over `btm`.
pub fn half_block(top: [u8; 4], btm: [u8; 4]) -> (c: Cell)
    ensures
        c == spec_half_block(top@, btm@),
{
    let top_on = top[3] > 0;
    let btm_on = btm[3] > 0;
    if !top_on && !btm_on {
        Cell { glyph: ' ', fg: None, bg: None }
    } else if top_on && !btm_on {
        Cell { glyph: '\u{2580}', fg: Some(Rgb { r: top[0], g: top[1], b: top[2] }), bg: None }
    } else if !top_on && btm_on {
        Cell { glyph: '\u{2584}', fg: Some(Rgb { r: btm[0], g: btm[1], b: btm[2] }), bg: None }
    } else {
        Cell {
            glyph: '\u{2580}',
            fg: Some(Rgb { r: top[0], g: top[1], b: top[2] }),
            bg: Some(Rgb { r: btm[0], g: btm[1], b: btm[2] }),
        }
    }
}

/// A row-major RGBA image: four bytes per pixel.
pub struct RgbaGrid {
    width: u32,
    height: u32,
    data: Vec<u8>,
}

/// Whether `len` bytes hold a `width` by `height` RGBA image whose byte
/// count fits in `usize`.
pub open spec fn spec_fits(width: u32, height: u32, len: int) -> bool {
    4 * width * height <= usize::MAX && 4 * width * height <= len
}

impl RgbaGrid {
    #[verifier::type_invariant]
    spec fn inv(self) -> bool {
        spec_fits(self.width, self.height, self.data@.len() as int)
    }

    pub closed spec fn spec_width(self) -> u32 {
        self.width
    }

    pub closed spec fn spec_height(self) -> u32 {
        self.height
    }

    pub closed spec fn spec_data(self) -> Seq<u8> {
        self.data@
    }

    /// The four bytes of pixel `(x, y)`.
    pub open spec fn spec_pixel(self, x: int, y: int) -> Seq<u8> {
        spec_raw_pixel(self.spec_width(), self.spec_data(), x, y)
    }

    /// Take `buf` as a `width` by `height` RGBA image, as
    /// `ImageBuffer::from_raw` does: `None` when the buffer is too short or
    /// the byte count overflows `usize`.
    pub fn from_raw(width: u32, height: u32, buf: Vec<u8>) -> (g: Option<RgbaGrid>)
        ensures
            spec_fits(width, height, buf@.len() as int) ==> (g matches Some(g) && g.spec_width()
                == width && g.spec_height() == height && g.spec_data() == buf@),
            !spec_fits(width, height, buf@.len() as int) ==> g is None,
    {
        proof {
            let w = width as int;
            let h = height as int;
            assert(4 * w * h <= 4 * 0xffff_ffff * 0xffff_ffff) by (nonlinear_arith)
                requires 0 <= w <= 0xffff_ffff, 0 <= h <= 0xffff_ffff;
        }
        let needed: u128 = 4u128 * (width as u128) * (height as u128);
        if needed <= usize::MAX as u128 && needed <= buf.len() as u128 {
            Some(RgbaGrid { width, height, data: buf })
        } else {
            None
        }
    }

    pub fn width(&self) -> (w: u32)
        ensures
            w == self.spec_width(),
    {
        self.width
    }

    pub fn height(&self) -> (h: u32)
        ensures
            h == self.spec_height(),
    {
        self.height
    }

    /// Pixel `(x, y)`, which must lie in the image.
    pub fn get_pixel(&self, x: u32, y: u32) -> (p: [u8; 4])
        requires
            x < self.spec_width(),
            y < self.spec_height(),
        ensures
            p@ == self.spec_pixel(x as int, y as int),
    {
        proof {
            use_type_invariant(self);
            let w = self.width as int;
            let h = self.height as int;
            assert((y * w + x) * 4 + 4 <= 4 * w * h) by (nonlinear_arith)
                requires
                    0 <= x < w,
                    0 <= y < h,
            ;
        }
        let i: usize = ((y as usize) * (self.width as usize) + (x as usize)) * 4;
        let p = [self.data[i], self.data[i + 1], self.data[i + 2], self.data[i + 3]];
        proof {
            assert(p@ =~= self.spec_pixel(x as int, y as int));
        }
        p
    }
}

/// The four bytes of pixel `(x, y)` of a row-major RGBA buffer `width`
/// pixels wide.
pub open spec fn spec_raw_pixel(width: u32, data: Seq<u8>, x: int, y: int) -> Seq<u8> {
    let i = (y * width + x) * 4;
    data.subrange(i, i + 4)
}

/// Pixel `(x, y)` of a `width` by `height` RGBA buffer, or a transparent
/// pixel below the last row.
pub open spec fn spec_raw_pixel_or_clear(width: u32, height: u32, data: Seq<u8>, x: int, y: int) -> Seq<u8> {
    if y < height {
        spec_raw_pixel(width, data, x, y)
    } else {
        spec_transparent()
    }
}

/// Pixel `(x, y)`, or a transparent pixel below the last row.
pub open spec fn spec_pixel_or_clear(img: RgbaGrid, x: int, y: int) -> Seq<u8> {
    spec_raw_pixel_or_clear(img.spec_width(), img.spec_height(), img.spec_data(), x, y)
}

/// Number of text rows for `height` pixel rows: two pixel rows per text row.
pub open spec fn spec_row_pairs(height: u32) -> int {
    (height + 1) / 2
}

/// Text row `row` of the picture of a `width` by `height` RGBA buffer: one
/// half-block cell per pixel column.
pub open spec fn spec_raw_line(width: u32, height: u32, data: Seq<u8>, row: int) -> Seq<Cell> {
    Seq::new(
        width as nat,
        |x: int|
            spec_half_block(
                spec_raw_pixel_or_clear(width, height, data, x, 2 * row),
                spec_raw_pixel_or_clear(width, height, data, x, 2 * row + 1),
            ),
    )
}

/// The picture of a `width` by `height` RGBA buffer as text rows; none for
/// an empty image.
pub open spec fn spec_raw_lines(width: u32, height: u32, data: Seq<u8>) -> Seq<Seq<Cell>> {
    if width == 0 || height == 0 {
        Seq::empty()
    } else {
        Seq::new(spec_row_pairs(height) as nat, |row: int| spec_raw_line(width, height, data, row))
    }
}

/// Text row `row` of the picture: one half-block cell per pixel column.
pub open spec fn spec_line(img: RgbaGrid, row: int) -> Seq<Cell> {
    spec_raw_line(img.spec_width(), img.spec_height(), img.spec_data(), row)
}

/// The picture as text rows; none for an empty image.
pub open spec fn spec_img_lines(img: RgbaGrid) -> Seq<Seq<Cell>> {
    spec_raw_lines(img.spec_width(), img.spec_height(), img.spec_data())
}

/// The rows of a picture, by their views.
pub open spec fn spec_picture(lines: Vec<Vec<Cell>>) -> Seq<Seq<Cell>> {
    lines@.map_values(|l: Vec<Cell>| l@)
}

fn pixel_or_clear(img: &RgbaGrid, x: u32, y: u32) -> (p: [u8; 4])
    requires
        x < img.spec_width(),
    ensures
        p@ == spec_pixel_or_clear(*img, x as int, y as int),
{
    if y < img.height() {
        img.get_pixel(x, y)
    } else {
        let p = [0u8, 0u8, 0u8, 0u8];
        proof {
            assert(p@ =~= spec_transparent());
        }
        p
    }
}

/// The picture as rows of half-block cells, two pixel rows per text row
/// (an odd last pixel row over transparency); no rows for an empty image.
pub fn img_to_lines(img: &RgbaGrid) -> (lines: Vec<Vec<Cell>>)
    ensures
        lines@.len() == spec_img_lines(*img).len(),
        forall|r: int| 0 <= r < lines@.len() ==> #[trigger] lines@[r]@ == spec_img_lines(*img)[r],
{
    let mut lines: Vec<Vec<Cell>> = Vec::new();
    let width = img.width();
    let height = img.height();
    if width == 0 || height == 0 {
        return lines;
    }
    let row_pairs: u32 = height / 2 + height % 2;
    assert(row_pairs == spec_row_pairs(height));
    let mut row: u32 = 0;
    while row < row_pairs
        invariant
            width == img.spec_width(),
            height == img.spec_height(),
            width > 0 && height > 0,
            row_pairs == spec_row_pairs(height),
            row <= row_pairs,
            lines@.len() == row,
            forall|r: int| 0 <= r < row ==> #[trigger] lines@[r]@ == spec_line(*img, r),
        decreases row_pairs - row,
    {
        let y: u32 = row * 2;
        let mut spans: Vec<Cell> = Vec::new();
        let mut x: u32 = 0;
        while x < width
            invariant
                width == img.spec_width(),
                height == img.spec_height(),
                row < row_pairs,
                row_pairs == spec_row_pairs(height),
                y == 2 * row,
                x <= width,
                spans@.len() == x,
                forall|c: int| 0 <= c < x ==> #[trigger] spans@[c] == spec_line(*img, row as int)[c],
            decreases width - x,
        {
            let top = pixel_or_clear(img, x, y);
            let btm = pixel_or_clear(img, x, y + 1);
            spans.push(half_block(top, btm));
            x += 1;
        }
        proof {
            assert(spans@ =~= spec_line(*img, row as int));
        }
        lines.push(spans);
        row += 1;
    }
    lines
}

/// Case-insensitive ASCII lower-casing of one character.
pub open spec fn spec_ascii_lower(c: char) -> char {
    if 'A' <= c <= 'Z' { ((c as u32) + 32) as char } else { c }
}

/// Whether a file extension names a GIF (`gif` in any ASCII case).
pub open spec fn spec_is_gif_extension(ext: Option<Seq<char>>) -> bool {
    match ext {
        Some(e) => e.len() == 3 && spec_ascii_lower(e[0]) == 'g' && spec_ascii_lower(e[1]) == 'i'
            && spec_ascii_lower(e[2]) == 'f',
        None => false,
    }
}

fn ascii_lower(c: char) -> (l: char)
    ensures
        l == spec_ascii_lower(c),
{
    if 'A' <= c && c <= 'Z' {
        ((c as u8) + 32) as char
    } else {
        c
    }
}

/// Whether a preview file is a GIF, judged by its extension (text form, if
/// it has one): `gif` in any ASCII case is animated, anything else static.
pub fn is_gif_extension(ext: Option<&str>) -> (r: bool)
    ensures
        r == spec_is_gif_extension(
            match ext {
                Some(e) => Some(e@),
                None => None,
            },
        ),
{
    match ext {
        Some(e) => {
            if e.unicode_len() != 3 {
                return false;
            }
            ascii_lower(e.get_char(0)) == 'g' && ascii_lower(e.get_char(1)) == 'i' && ascii_lower(
                e.get_char(2),
            ) == 'f'
        },
        None => false,
    }
}

// ---------------------------------------------------------------------------
// Animated previews
// ---------------------------------------------------------------------------

/// Delay given to GIF frames that declare none, in milliseconds: browsers
/// clamp 0-delay frames to about 100 ms, so a broken GIF does not render
/// at infinite speed.
pub const DEFAULT_GIF_FRAME_MS: u64 = 100;

/// Nanoseconds in one millisecond.
pub const NANOS_PER_MILLI: u128 = 1_000_000;

/// Exclusive bound of what a `Duration` holds, in milliseconds.
pub const DURATION_LIMIT_MS: u128 = 18_446_744_073_709_551_616_000;

/// The display time of a GIF frame whose delay is `delay` hundredths of a
/// second, in milliseconds.
pub open spec fn spec_frame_delay_ms(delay: u16) -> u64 {
    if delay == 0 { DEFAULT_GIF_FRAME_MS } else { (delay * 10) as u64 }
}

/// The display time of a GIF frame whose delay is `delay` hundredths of a
/// second: that many tens of milliseconds, or the default when zero.
pub fn frame_delay_ms(delay: u16) -> (ms: u64)
    ensures
        ms == spec_frame_delay_ms(delay),
{
    let delay_ms: u64 = (delay as u64) * 10;
    if delay_ms == 0 {
        DEFAULT_GIF_FRAME_MS
    } else {
        delay_ms
    }
}

/// One frame of an animated preview: its picture and display time.
pub struct AnimatedFrame {
    pub lines: Vec<Vec<Cell>>,
    pub delay_ms: u64,
}

/// The display times of a run of frames.
pub open spec fn spec_delays(frames: Seq<AnimatedFrame>) -> Seq<u64> {
    frames.map_values(|f: AnimatedFrame| f.delay_ms)
}

/// The sum of a run of display times.
pub open spec fn spec_sum(delays: Seq<u64>) -> int
    decreases delays.len(),
{
    if delays.len() == 0 {
        0
    } else {
        spec_sum(delays.drop_last()) + delays.last()
    }
}

/// An animated preview: at least one frame, and their total display time.
pub struct AnimatedPreview {
    frames: Vec<AnimatedFrame>,
    total_ms: u128,
}

/// Why a GIF preview could not be built.
#[derive(Clone, Copy, Debug, PartialEq, Eq, Structural)]
pub enum PreviewError {
    /// A frame's pixel buffer is too short for its size.
    InvalidFrame,
    /// The GIF holds no frame.
    NoFrames,
    /// The file could not be decoded.
    Decode,
    /// The frames' total display time is more than a `Duration` holds.
    TooLong,
}

/// One decoded GIF frame, as the decoder hands it out in RGBA.
pub struct RawFrame {
    pub width: u16,
    pub height: u16,
    pub buffer: Vec<u8>,
    /// Delay in hundredths of a second.
    pub delay: u16,
}

/// The frames of a GIF preview, gathered one by one as they are decoded.
pub struct GifAssembler {
    frames: Vec<AnimatedFrame>,
    total_ms: u128,
}

impl GifAssembler {
    #[verifier::type_invariant]
    spec fn inv(self) -> bool {
        &&& self.total_ms == spec_sum(spec_delays(self.frames@))
        &&& self.total_ms < DURATION_LIMIT_MS
    }

    pub closed spec fn spec_frames(self) -> Seq<AnimatedFrame> {
        self.frames@
    }

    pub closed spec fn spec_total_ms(self) -> u128 {
        self.total_ms
    }

    /// No frame yet.
    pub fn new() -> (a: GifAssembler)
        ensures
            a.spec_frames().len() == 0,
            a.spec_total_ms() == 0,
    {
        let a = GifAssembler { frames: Vec::new(), total_ms: 0 };
        proof {
            assert(spec_delays(a.frames@) =~= Seq::<u64>::empty());
        }
        a
    }

    /// Add one decoded frame: its picture and display time join the
    /// preview; a pixel buffer too short for the frame's size is refused.
    /// The running total must stay below what a `Duration` holds.
    pub fn push_frame(self, raw: RawFrame) -> (r: Result<GifAssembler, PreviewError>)
        requires
            self.spec_total_ms() + spec_frame_delay_ms(raw.delay) < DURATION_LIMIT_MS,
        ensures
            !spec_fits(raw.width as u32, raw.height as u32, raw.buffer@.len() as int) ==> r == Err::<
                GifAssembler,
                PreviewError,
            >(PreviewError::InvalidFrame),
            spec_fits(raw.width as u32, raw.height as u32, raw.buffer@.len() as int) ==> (r matches Ok(
                next,
            ) && next.spec_frames().len() == self.spec_frames().len() + 1
                && next.spec_frames().drop_last() == self.spec_frames()
                && next.spec_frames().last().delay_ms == spec_frame_delay_ms(raw.delay)
                && spec_picture(next.spec_frames().last().lines) == spec_raw_lines(
                raw.width as u32,
                raw.height as u32,
                raw.buffer@,
            )
                && next.spec_total_ms() == self.spec_total_ms() + spec_frame_delay_ms(raw.delay)),
    {
        proof {
            use_type_invariant(&self);
        }
        let img = match RgbaGrid::from_raw(raw.width as u32, raw.height as u32, raw.buffer) {
            Some(img) => img,
            None => return Err(PreviewError::InvalidFrame),
        };
        let delay_ms = frame_delay_ms(raw.delay);
        let lines = img_to_lines(&img);
        proof {
            assert(spec_picture(lines) =~= spec_img_lines(img));
        }
        let frame = AnimatedFrame { lines, delay_ms };
        let GifAssembler { mut frames, total_ms } = self;
        let ghost old_frames = frames@;
        frames.push(frame);
        let total: u128 = total_ms + delay_ms as u128;
        proof {
            assert(spec_delays(frames@).drop_last() =~= spec_delays(old_frames));
            assert(frames@.drop_last() =~= old_frames);
        }
        Ok(GifAssembler { frames, total_ms: total })
    }

    /// The finished preview; a GIF without frames is refused.
    pub fn finish(self) -> (r: Result<AnimatedPreview, PreviewError>)
        ensures
            self.spec_frames().len() == 0 ==> r == Err::<AnimatedPreview, PreviewError>(
                PreviewError::NoFrames,
            ),
            self.spec_frames().len() > 0 ==> (r matches Ok(p) && p.spec_frames() == self.spec_frames()
                && p.spec_total_ms() == self.spec_total_ms()),
    {
        proof {
            use_type_invariant(&self);
        }
        if self.frames.len() == 0 {
            return Err(PreviewError::NoFrames);
        }
        Ok(AnimatedPreview { frames: self.frames, total_ms: self.total_ms })
    }
}

/// When frame `i` of a run leaves the screen, in nanoseconds from the start
/// of the loop: the display times of frames `0` to `i` added up.
pub open spec fn spec_frame_end(delays: Seq<u64>, i: int) -> int {
    spec_sum(delays.take(i + 1)) * NANOS_PER_MILLI
}

/// Whether frame `i` is on screen at loop position `t`: it has not left
/// the screen yet and every earlier frame has.
pub open spec fn spec_on_screen(delays: Seq<u64>, t: int, i: int) -> bool {
    &&& 0 <= i < delays.len()
    &&& t < spec_frame_end(delays, i)
    &&& forall|j: int| 0 <= j < i ==> #[trigger] spec_frame_end(delays, j) <= t
}

/// At most one frame is on screen at a time.
proof fn lemma_on_screen_unique(delays: Seq<u64>, t: int, i: int, k: int)
    requires
        spec_on_screen(delays, t, i),
        spec_on_screen(delays, t, k),
    ensures
        i == k,
{
    if i < k {
        assert(spec_frame_end(delays, i) <= t);
    } else if k < i {
        assert(spec_frame_end(delays, k) <= t);
    }
}

impl AnimatedPreview {
    #[verifier::type_invariant]
    spec fn inv(self) -> bool {
        &&& self.frames@.len() > 0
        &&& self.total_ms == spec_sum(spec_delays(self.frames@))
        &&& self.total_ms < DURATION_LIMIT_MS
    }

    pub closed spec fn spec_frames(self) -> Seq<AnimatedFrame> {
        self.frames@
    }

    pub closed spec fn spec_total_ms(self) -> u128 {
        self.total_ms
    }

    /// Where `elapsed` nanoseconds fall in one loop of the animation, as
    /// `Duration::from_nanos((elapsed % total) as u64)` computes it.
    pub open spec fn spec_loop_position(self, elapsed: u128) -> int {
        (((elapsed as int) % ((self.spec_total_ms() as int) * (NANOS_PER_MILLI as int))) as u64) as int
    }

    /// The frame shown `elapsed` nanoseconds after the animation started:
    /// the first one when the total display time is zero, else the frame on
    /// screen at the loop position (the one whose span holds it), or the
    /// last frame when none is.
    pub open spec fn spec_pick_frame(self, elapsed: u128) -> int {
        let delays = spec_delays(self.spec_frames());
        let t = self.spec_loop_position(elapsed);
        if self.spec_total_ms() == 0 {
            0
        } else if exists|i: int| spec_on_screen(delays, t, i) {
            choose|i: int| spec_on_screen(delays, t, i)
        } else {
            self.spec_frames().len() - 1
        }
    }

    /// The frames, in order.
    pub fn frames(&self) -> (f: &Vec<AnimatedFrame>)
        ensures
            f@ == self.spec_frames(),
            f@.len() > 0,
    {
        proof {
            use_type_invariant(self);
        }
        &self.frames
    }

    /// The total display time, in milliseconds.
    pub fn total_ms(&self) -> (t: u128)
        ensures
            t == self.spec_total_ms(),
            t == spec_sum(spec_delays(self.spec_frames())),
    {
        proof {
            use_type_invariant(self);
        }
        self.total_ms
    }

    /// The index of the frame shown `elapsed` nanoseconds after the
    /// animation started (the animation loops).
    pub fn pick_frame(&self, elapsed: u128) -> (i: usize)
        ensures
            i == self.spec_pick_frame(elapsed),
            i < self.spec_frames().len(),
    {
        proof {
            use_type_invariant(self);
        }
        if self.total_ms == 0 {
            return 0;
        }
        let total_ns: u128 = self.total_ms * NANOS_PER_MILLI;
        let t: u128 = ((elapsed % total_ns) as u64) as u128;
        let ghost delays = spec_delays(self.frames@);
        assert(t as int == self.spec_loop_position(elapsed));
        let mut acc: u128 = 0;
        let mut i: usize = 0;
        let n = self.frames.len();
        while i < n
            invariant
                n == self.frames@.len(),
                n > 0,
                delays == spec_delays(self.frames@),
                i <= n,
                acc <= DURATION_LIMIT_MS * NANOS_PER_MILLI,
                acc == spec_sum(delays.take(i as int)) * NANOS_PER_MILLI,
                forall|j: int| 0 <= j < i ==> #[trigger] spec_frame_end(delays, j) <= t,
                self.total_ms == spec_sum(delays),
                self.total_ms < DURATION_LIMIT_MS,
                self.total_ms != 0,
                t as int == self.spec_loop_position(elapsed),
            decreases n - i,
        {
            proof {
                lemma_sum_take_le(delays, i as int + 1);
                assert(delays.take(i as int + 1).drop_last() =~= delays.take(i as int));
                assert(delays.take(i as int + 1).last() == delays[i as int]);
            }
            let d: u128 = (self.frames[i].delay_ms as u128) * NANOS_PER_MILLI;
            assert(delays[i as int] == self.frames@[i as int].delay_ms);
            acc = acc + d;
            assert(acc == spec_frame_end(delays, i as int));
            if t < acc {
                proof {
                    assert(spec_on_screen(delays, t as int, i as int));
                    let c = choose|c: int| spec_on_screen(delays, t as int, c);
                    lemma_on_screen_unique(delays, t as int, i as int, c);
                }
                return i;
            }
            i += 1;
        }
        proof {
            assert forall|c: int| !spec_on_screen(delays, t as int, c) by {
                if 0 <= c < n {
                    assert(spec_frame_end(delays, c) <= t);
                }
            }
        }
        n - 1
    }
}

/// A prefix of a run of display times sums to no more than the whole run.
proof fn lemma_sum_take_le(delays: Seq<u64>, k: int)
    requires
        0 <= k <= delays.len(),
    ensures
        spec_sum(delays.take(k)) <= spec_sum(delays),
        spec_sum(delays.take(k)) >= 0,
    decreases delays.len() - k,
{
    if k < delays.len() {
        lemma_sum_take_le(delays, k + 1);
        assert(delays.take(k + 1).drop_last() =~= delays.take(k));
    } else {
        assert(delays.take(k) =~= delays);
    }
    lemma_sum_nonneg(delays.take(k));
}

proof fn lemma_sum_nonneg(delays: Seq<u64>)
    ensures
        spec_sum(delays) >= 0,
    decreases delays.len(),
{
    if delays.len() > 0 {
        lemma_sum_nonneg(delays.drop_last());
    }
}

// ---------------------------------------------------------------------------
// Laws
// ---------------------------------------------------------------------------

/// A pixel is drawn exactly when it is not fully transparent: an empty cell
/// only when both pixels are; a visible top pixel gives the upper half block
/// in its colour; a visible bottom pixel alone gives the lower half block in
/// its colour; the background is the bottom colour only when both are
/// visible.
pub proof fn lemma_visible_pixels_are_drawn(top: Seq<u8>, btm: Seq<u8>)
    requires
        top.len() == 4,
        btm.len() == 4,
    ensures
        (spec_half_block(top, btm).glyph == ' ') <==> (top[3] == 0 && btm[3] == 0),
        top[3] == 0 && btm[3] == 0 ==> spec_half_block(top, btm).fg is None,
        top[3] > 0 ==> spec_half_block(top, btm).glyph == '\u{2580}' && spec_half_block(top, btm).fg == Some(
            Rgb { r: top[0], g: top[1], b: top[2] },
        ),
        top[3] == 0 && btm[3] > 0 ==> spec_half_block(top, btm).glyph == '\u{2584}' && spec_half_block(
            top,
            btm,
        ).fg == Some(Rgb { r: btm[0], g: btm[1], b: btm[2] }),
        top[3] > 0 && btm[3] > 0 ==> spec_half_block(top, btm).bg == Some(
            Rgb { r: btm[0], g: btm[1], b: btm[2] },
        ),
        !(top[3] > 0 && btm[3] > 0) ==> spec_half_block(top, btm).bg is None,
{
}

/// The animation loops: one full loop later the same frame is shown (while
/// the loop position is not truncated, i.e. the loop lasts at most
/// `u64::MAX` nanoseconds).
pub proof fn lemma_animation_loops(anim: AnimatedPreview, elapsed: u128)
    requires
        anim.spec_total_ms() > 0,
        anim.spec_total_ms() * NANOS_PER_MILLI <= u64::MAX,
        elapsed + anim.spec_total_ms() * NANOS_PER_MILLI <= u128::MAX,
    ensures
        anim.spec_pick_frame((elapsed + anim.spec_total_ms() * NANOS_PER_MILLI) as u128)
            == anim.spec_pick_frame(elapsed),
{
    let t = (anim.spec_total_ms() as int) * (NANOS_PER_MILLI as int);
    let e = elapsed as int;
    assert((e + t) % t == e % t) by (nonlinear_arith)
        requires t > 0, e >= 0;
    let later = (elapsed + anim.spec_total_ms() * NANOS_PER_MILLI) as u128;
    assert(anim.spec_loop_position(later) == anim.spec_loop_position(elapsed));
}

/// Every text row of a picture is as wide as the image, and there is one
/// text row per two pixel rows (rounded up).
pub proof fn lemma_picture_shape(img: RgbaGrid)
    requires
        img.spec_width() > 0,
        img.spec_height() > 0,
    ensures
        2 * spec_img_lines(img).len() >= img.spec_height(),
        2 * spec_img_lines(img).len() <= img.spec_height() + 1,
        forall|r: int| 0 <= r < spec_img_lines(img).len() ==> #[trigger] spec_img_lines(img)[r].len()
            == img.spec_width(),
{
}

} // verus!
