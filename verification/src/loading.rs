//! Decoding preview files: a still image becomes a half-block picture, a
//! GIF an animated preview, frame by frame.
use vstd::prelude::*;
use crate::preview::{
    img_to_lines, spec_fits, spec_frame_delay_ms, spec_picture, spec_raw_lines, spec_sum,
    AnimatedFrame, AnimatedPreview, Cell, GifAssembler, PreviewError, RawFrame, RgbaGrid,
    DURATION_LIMIT_MS,
};

verus! {

/// A decoded GIF frame as plain values: width, height, RGBA pixels and
/// delay in hundredths of a second.
pub open spec fn spec_raw_frame(f: RawFrame) -> (u16, u16, Seq<u8>, u16) {
    (f.width, f.height, f.buffer@, f.delay)
}

/// A run of decoded GIF frames as plain values.
pub open spec fn spec_raw_frames(fs: Seq<RawFrame>) -> Seq<(u16, u16, Seq<u8>, u16)> {
    fs.map_values(|f: RawFrame| spec_raw_frame(f))
}

/// What the `gif` decoder yields for `bytes`, with RGBA colour output: the
/// frames read one after the other (`DecodeOptions::read_info`, then
/// `Decoder::read_next_frame` until it reports the end or an error), and
/// whether the stream ended without error.
pub uninterp spec fn spec_gif_decode(bytes: Seq<u8>) -> (Seq<(u16, u16, Seq<u8>, u16)>, bool);

/// Decode a GIF held in memory into RGBA frames: those read before the end
/// or the first error, and whether the end was reached without error.
#[verifier::external_body]
pub(crate) fn decode_gif_rgba(bytes: &[u8]) -> (r: (Vec<RawFrame>, bool))
    ensures
        (spec_raw_frames(r.0@), r.1) == spec_gif_decode(bytes@),
{
    let mut frames = Vec::new();
    let mut options = ::gif::DecodeOptions::new();
    options.set_color_output(::gif::ColorOutput::RGBA);
    let Ok(mut decoder) = options.read_info(bytes) else { return (frames, false) };
    loop {
        match decoder.read_next_frame() {
            Ok(Some(f)) => frames.push(
                RawFrame { width: f.width, height: f.height, buffer: f.buffer.to_vec(), delay: f.delay },
            ),
            Ok(None) => return (frames, true),
            Err(_) => return (frames, false),
        }
    }
}

/// What the `image` crate decodes `bytes` to, converted to RGBA 8-bit:
/// width, height and row-major pixels (`image::load_from_memory`, format
/// guessed from the content, then `into_rgba8`); `None` when decoding fails.
pub uninterp spec fn spec_image_rgba(bytes: Seq<u8>) -> Option<(u32, u32, Seq<u8>)>;

/// Decode a still image held in memory into RGBA pixels.
#[verifier::external_body]
pub(crate) fn decode_image_rgba(bytes: &[u8]) -> (r: Option<(u32, u32, Vec<u8>)>)
    ensures
        match r {
            Some((w, h, data)) => spec_image_rgba(bytes@) == Some((w, h, data@)),
            None => spec_image_rgba(bytes@) is None,
        },
{
    let img = ::image::load_from_memory(bytes).ok()?.into_rgba8();
    let (w, h) = (img.width(), img.height());
    Some((w, h, img.into_raw()))
}

/// A still preview from the bytes of an image file: its half-block
/// picture; `Decode` when the image does not decode, `InvalidFrame` when its
/// pixels do not fill its size.
pub fn load_static(bytes: &[u8]) -> (r: Result<Vec<Vec<Cell>>, PreviewError>)
    ensures
        match spec_image_rgba(bytes@) {
            None => r == Err::<Vec<Vec<Cell>>, PreviewError>(PreviewError::Decode),
            Some((w, h, data)) => if spec_fits(w, h, data.len() as int) {
                r matches Ok(lines) && spec_picture(lines) == spec_raw_lines(w, h, data)
            } else {
                r == Err::<Vec<Vec<Cell>>, PreviewError>(PreviewError::InvalidFrame)
            },
        },
{
    let (w, h, data) = match decode_image_rgba(bytes) {
        Some(d) => d,
        None => return Err(PreviewError::Decode),
    };
    let ghost d = data@;
    let img = match RgbaGrid::from_raw(w, h, data) {
        Some(img) => img,
        None => return Err(PreviewError::InvalidFrame),
    };
    let lines = img_to_lines(&img);
    proof {
        assert(spec_picture(lines) =~= spec_raw_lines(w, h, d));
    }
    Ok(lines)
}

/// Whether a decoded frame's pixels fill its size.
pub open spec fn spec_frame_fits(f: (u16, u16, Seq<u8>, u16)) -> bool {
    spec_fits(f.0 as u32, f.1 as u32, f.2.len() as int)
}

/// Whether every frame of a run fills its size.
pub open spec fn spec_all_fit(fs: Seq<(u16, u16, Seq<u8>, u16)>) -> bool {
    forall|i: int| 0 <= i < fs.len() ==> #[trigger] spec_frame_fits(fs[i])
}

/// The display times of a run of decoded frames, in milliseconds.
pub open spec fn spec_gif_delays(fs: Seq<(u16, u16, Seq<u8>, u16)>) -> Seq<u64> {
    fs.map_values(|f: (u16, u16, Seq<u8>, u16)| spec_frame_delay_ms(f.3))
}

/// Whether a preview frame shows a decoded frame: its picture and display
/// time.
pub open spec fn spec_shows(frame: AnimatedFrame, f: (u16, u16, Seq<u8>, u16)) -> bool {
    &&& frame.delay_ms == spec_frame_delay_ms(f.3)
    &&& spec_picture(frame.lines) == spec_raw_lines(f.0 as u32, f.1 as u32, f.2)
}

/// A run of frames that would be a preview but whose total display time is
/// more than a `Duration` holds.
pub open spec fn spec_gif_too_long(fs: Seq<(u16, u16, Seq<u8>, u16)>, complete: bool) -> bool {
    &&& spec_all_fit(fs)
    &&& complete
    &&& fs.len() > 0
    &&& spec_sum(spec_gif_delays(fs)) >= DURATION_LIMIT_MS
}

/// The animated preview built from decoded frames (`complete` when the
/// stream ended without error): `InvalidFrame` for the first frame whose
/// pixels do not fill its size, else `Decode` when the stream broke off,
/// else `NoFrames` for an empty GIF, else one preview frame per decoded
/// frame, in order, lasting their total display time.
pub open spec fn spec_gif_outcome(
    fs: Seq<(u16, u16, Seq<u8>, u16)>,
    complete: bool,
    r: Result<AnimatedPreview, PreviewError>,
) -> bool {
    if !spec_all_fit(fs) {
        r == Err::<AnimatedPreview, PreviewError>(PreviewError::InvalidFrame)
    } else if !complete {
        r == Err::<AnimatedPreview, PreviewError>(PreviewError::Decode)
    } else if fs.len() == 0 {
        r == Err::<AnimatedPreview, PreviewError>(PreviewError::NoFrames)
    } else {
        &&& r matches Ok(p)
        &&& p.spec_frames().len() == fs.len()
        &&& forall|i: int| 0 <= i < fs.len() ==> #[trigger] spec_shows(p.spec_frames()[i], fs[i])
        &&& p.spec_total_ms() == spec_sum(spec_gif_delays(fs))
    }
}

proof fn lemma_sum_prefix_le(d: Seq<u64>, k: int)
    requires
        0 <= k <= d.len(),
    ensures
        spec_sum(d.take(k)) <= spec_sum(d),
    decreases d.len() - k,
{
    if k < d.len() {
        lemma_sum_prefix_le(d, k + 1);
        assert(d.take(k + 1).drop_last() =~= d.take(k));
    } else {
        assert(d.take(k) =~= d);
    }
}

/// Whether a decoded frame's pixels fill its size.
fn frame_fits(f: &RawFrame) -> (b: bool)
    ensures
        b == spec_frame_fits(spec_raw_frame(*f)),
{
    proof {
        let w = f.width as int;
        let h = f.height as int;
        assert(4 * w * h <= 4 * 0xffff * 0xffff) by (nonlinear_arith)
            requires 0 <= w <= 0xffff, 0 <= h <= 0xffff;
    }
    let needed: u64 = 4u64 * (f.width as u64) * (f.height as u64);
    needed as u128 <= usize::MAX as u128 && needed as u128 <= f.buffer.len() as u128
}

/// Whether every frame fills its size.
fn all_fit(frames: &Vec<RawFrame>) -> (b: bool)
    ensures
        b == spec_all_fit(spec_raw_frames(frames@)),
{
    let ghost fs = spec_raw_frames(frames@);
    let mut i: usize = 0;
    while i < frames.len()
        invariant
            fs == spec_raw_frames(frames@),
            i <= frames.len(),
            forall|j: int| 0 <= j < i ==> #[trigger] spec_frame_fits(fs[j]),
        decreases frames.len() - i,
    {
        if !frame_fits(&frames[i]) {
            assert(!spec_frame_fits(fs[i as int]));
            return false;
        }
        i += 1;
    }
    true
}

/// Whether the frames' total display time reaches what a `Duration` holds.
fn reaches_limit(frames: &Vec<RawFrame>) -> (b: bool)
    ensures
        b == (spec_sum(spec_gif_delays(spec_raw_frames(frames@))) >= DURATION_LIMIT_MS),
{
    let ghost d = spec_gif_delays(spec_raw_frames(frames@));
    let mut total: u128 = 0;
    let mut i: usize = 0;
    while i < frames.len()
        invariant
            d == spec_gif_delays(spec_raw_frames(frames@)),
            i <= frames.len(),
            total == spec_sum(d.take(i as int)),
            total < DURATION_LIMIT_MS,
        decreases frames.len() - i,
    {
        let ms = crate::preview::frame_delay_ms(frames[i].delay);
        proof {
            assert(d.take(i + 1).drop_last() =~= d.take(i as int));
            assert(d[i as int] == ms);
        }
        total = total + ms as u128;
        i += 1;
        if total >= DURATION_LIMIT_MS {
            proof {
                lemma_sum_prefix_le(d, i as int);
            }
            return true;
        }
    }
    proof {
        assert(d.take(i as int) =~= d);
    }
    false
}

/// The animated preview built from decoded frames (`complete` when the
/// stream ended without error), as `spec_gif_outcome` describes. A run of
/// valid frames must last less than a `Duration` holds.
pub fn assemble_gif(frames: Vec<RawFrame>, complete: bool) -> (r: Result<AnimatedPreview, PreviewError>)
    requires
        !spec_gif_too_long(spec_raw_frames(frames@), complete),
    ensures
        spec_gif_outcome(spec_raw_frames(frames@), complete, r),
{
    let ghost fs = spec_raw_frames(frames@);
    let ghost d = spec_gif_delays(fs);
    if !all_fit(&frames) {
        return Err(PreviewError::InvalidFrame);
    }
    if !complete {
        return Err(PreviewError::Decode);
    }
    if frames.len() == 0 {
        return Err(PreviewError::NoFrames);
    }
    let mut gathered = GifAssembler::new();
    let n = frames.len();
    for raw in it: frames.into_iter()
        invariant
            fs == spec_raw_frames(it.seq()),
            d == spec_gif_delays(fs),
            n == fs.len(),
            spec_all_fit(fs),
            spec_sum(d) < DURATION_LIMIT_MS,
            gathered.spec_frames().len() == it.index(),
            forall|j: int| 0 <= j < it.index() ==> #[trigger] spec_shows(gathered.spec_frames()[j], fs[j]),
            gathered.spec_total_ms() == spec_sum(d.take(it.index() as int)),
    {
        let ghost k = it.index() as int;
        proof {
            assert(spec_raw_frame(raw) == fs[k]);
            assert(spec_frame_fits(fs[k]));
            assert(d.take(k + 1).drop_last() =~= d.take(k));
            lemma_sum_prefix_le(d, k + 1);
        }
        let ghost before = gathered.spec_frames();
        gathered = match gathered.push_frame(raw) {
            Ok(next) => next,
            Err(e) => return Err(e),
        };
        proof {
            assert forall|j: int| 0 <= j < k + 1 implies #[trigger] spec_shows(gathered.spec_frames()[j], fs[j]) by {
                if j < k {
                    assert(gathered.spec_frames()[j] == gathered.spec_frames().drop_last()[j]);
                }
            }
        }
    }
    proof {
        assert(d.take(n as int) =~= d);
    }
    gathered.finish()
}

/// An animated preview from the bytes of a GIF file, as `spec_gif_outcome`
/// describes for the decoded frames; `TooLong` when frames that would make
/// a preview last more than a `Duration` holds.
pub fn load_gif(bytes: &[u8]) -> (r: Result<AnimatedPreview, PreviewError>)
    ensures
        spec_gif_too_long(spec_gif_decode(bytes@).0, spec_gif_decode(bytes@).1) ==> r == Err::<
            AnimatedPreview,
            PreviewError,
        >(PreviewError::TooLong),
        !spec_gif_too_long(spec_gif_decode(bytes@).0, spec_gif_decode(bytes@).1) ==> spec_gif_outcome(
            spec_gif_decode(bytes@).0,
            spec_gif_decode(bytes@).1,
            r,
        ),
{
    let (frames, complete) = decode_gif_rgba(bytes);
    if complete && frames.len() > 0 && all_fit(&frames) && reaches_limit(&frames) {
        return Err(PreviewError::TooLong);
    }
    assemble_gif(frames, complete)
}

} // verus!
