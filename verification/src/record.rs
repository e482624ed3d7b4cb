//! The recorder: segment lifecycle, video pts monotonicity, and alignment
//! of an asynchronous Opus audio stream onto the video timeline.
//!
//! The recorder never touches the filesystem itself. One open output file
//! is represented by a value of a backend type implementing [`RecorderApi`];
//! the embedding program supplies the implementation (the actual container
//! writers), and every decision taken here is verified for every result
//! those writers may return.

use vstd::prelude::*;
use vstd::string::StringExecFns;

use vstd::arithmetic::div_mod::{
    lemma_basic_div, lemma_fundamental_div_mod, lemma_hoist_over_denominator,
    lemma_mod_division_less_than_divisor,
};

use crate::codec::{CodecFormat, EncodedVideoFrame, Message, VideoFrameBatch};
use crate::opus::lemma_packet_duration_positive;
use crate::opus::opus_packet_duration_us;
use crate::opus::spec_packet_duration_us;
use crate::sys::local_timestamp_string;

verus! {

/// Minimum wall-clock age, in seconds, below which a finalized segment is
/// deleted rather than kept.
pub const MIN_SECS: u64 = 1;

/// Best-effort notifications emitted while recording. Delivery is never
/// required for correctness.
#[derive(Debug)]
pub enum RecordState {
    NewFile(String),
    NewFrame,
    WriteTail,
    RemoveFile,
}

/// Why a backend could not be constructed. Returned by implementations of
/// [`RecorderApi::new`]; the recorder treats every variant the same way
/// (it latches into the permanently-failed state).
#[derive(Clone, Copy, Debug, PartialEq, Eq, Structural)]
pub enum BackendError {
    /// The codec family has no backend in this build.
    UnsupportedCodec,
    /// Directory or file creation failed.
    Filesystem,
    /// The underlying writer rejected the parameters.
    Construction,
}

/// Errors surfaced by the recorder.
#[derive(Clone, Copy, Debug, PartialEq, Eq, Structural)]
pub enum RecordError {
    /// A previous segment (re)construction failed; the recorder is
    /// permanently failed and every submission fails fast.
    AlreadyFailed,
    /// The incoming batch carries no mappable codec family.
    UnsupportedFrameType,
    /// The first frame offered to a fresh segment is not a keyframe.
    NonKeyFirstFrame,
    UnsupportedCodecForBackend,
    FilesystemError,
    BackendConstructionError,
}

/// How a [`BackendError`] surfaces as a [`RecordError`].
pub open spec fn spec_backend_error(e: BackendError) -> RecordError {
    match e {
        BackendError::UnsupportedCodec => RecordError::UnsupportedCodecForBackend,
        BackendError::Filesystem => RecordError::FilesystemError,
        BackendError::Construction => RecordError::BackendConstructionError,
    }
}

/// `true` exactly for the three construction-failure errors.
pub open spec fn is_construction_error(e: RecordError) -> bool {
    e == RecordError::UnsupportedCodecForBackend || e == RecordError::FilesystemError
        || e == RecordError::BackendConstructionError
}

fn backend_error_to_record(e: BackendError) -> (r: RecordError)
    ensures
        r == spec_backend_error(e),
{
    match e {
        BackendError::UnsupportedCodec => RecordError::UnsupportedCodecForBackend,
        BackendError::Filesystem => RecordError::FilesystemError,
        BackendError::Construction => RecordError::BackendConstructionError,
    }
}

/// Which muxer family serves a codec format.
#[derive(Clone, Copy, Debug, PartialEq, Eq, Structural)]
pub enum BackendKind {
    SoftwareMux,
    HardwareMux,
}

pub open spec fn spec_backend_kind(format: CodecFormat) -> BackendKind {
    if format.spec_is_webm_family() {
        BackendKind::SoftwareMux
    } else {
        BackendKind::HardwareMux
    }
}

/// The muxer family chosen, once, when a segment's backend is constructed.
pub fn backend_kind(format: CodecFormat) -> (k: BackendKind)
    ensures
        k == spec_backend_kind(format),
{
    if format.is_webm_family() {
        BackendKind::SoftwareMux
    } else {
        BackendKind::HardwareMux
    }
}

/// Session descriptor, fixed for the lifetime of a recorder.
#[derive(Debug)]
pub struct RecorderContext {
    /// Inbound (`true`) or outbound session; selects the filename prefix.
    pub server: bool,
    pub id: String,
    pub dir: String,
    pub display_idx: usize,
    /// Camera (`true`) or display source; part of the filename.
    pub camera: bool,
    pub tx: Option<std::sync::mpsc::Sender<RecordState>>,
}

/// Segment descriptor: output path plus the resolution and codec format the
/// segment was opened with. A segment is replaced whenever any of the three
/// differs from the incoming batch.
#[derive(Clone, Debug)]
pub struct RecorderContext2 {
    pub filename: String,
    pub width: usize,
    pub height: usize,
    pub format: CodecFormat,
}

pub open spec fn spec_direction(server: bool) -> Seq<char> {
    if server {
        "incoming"@
    } else {
        "outgoing"@
    }
}

pub open spec fn spec_source_kind(camera: bool) -> Seq<char> {
    if camera {
        "camera"@
    } else {
        "display"@
    }
}

pub open spec fn spec_decimal_digit(d: nat) -> char {
    if d == 0 {
        '0'
    } else if d == 1 {
        '1'
    } else if d == 2 {
        '2'
    } else if d == 3 {
        '3'
    } else if d == 4 {
        '4'
    } else if d == 5 {
        '5'
    } else if d == 6 {
        '6'
    } else if d == 7 {
        '7'
    } else if d == 8 {
        '8'
    } else {
        '9'
    }
}

/// Decimal rendering of `n`, most significant digit first, no leading zeros
/// (a single `'0'` for zero).
pub open spec fn spec_decimal(n: nat) -> Seq<char>
    decreases n,
{
    if n < 10 {
        seq![spec_decimal_digit(n)]
    } else {
        spec_decimal(n / 10).push(spec_decimal_digit(n % 10))
    }
}

/// The segment filename convention:
/// `{dir}/{direction}_{session-id}_{timestamp}_{sourcekind}{index}_{format}{ext}`.
pub open spec fn spec_filename(
    ctx: RecorderContext,
    ts: Seq<char>,
    format: CodecFormat,
) -> Seq<char> {
    ctx.dir@ + "/"@ + spec_direction(ctx.server) + "_"@ + ctx.id@ + "_"@ + ts + "_"@
        + spec_source_kind(ctx.camera) + spec_decimal(ctx.display_idx as nat) + "_"@
        + format.spec_name_lower() + format.spec_extension()
}

/// A filename that follows the convention for session `ctx` and format
/// `format`, for some timestamp string.
pub open spec fn is_conventional_filename(
    f: Seq<char>,
    ctx: RecorderContext,
    format: CodecFormat,
) -> bool {
    exists|ts: Seq<char>| f == spec_filename(ctx, ts, format)
}

/// Rotations of the same session and format are told apart by their
/// timestamp strings: whenever those differ (at equal length — the clock
/// renders a fixed-width digit run), the filenames differ. In particular
/// a segment opened by a pts-reset rotation, or by a resolution or codec
/// change, carries a filename distinct from the previous segment's
/// whenever the wall clock has moved by at least a millisecond.
pub proof fn lemma_filename_distinct(
    ctx: RecorderContext,
    ts1: Seq<char>,
    ts2: Seq<char>,
    format: CodecFormat,
)
    requires
        ts1.len() == ts2.len(),
        ts1 != ts2,
    ensures
        spec_filename(ctx, ts1, format) != spec_filename(ctx, ts2, format),
{
    let p = ctx.dir@ + "/"@ + spec_direction(ctx.server) + "_"@ + ctx.id@ + "_"@;
    let f1 = spec_filename(ctx, ts1, format);
    let f2 = spec_filename(ctx, ts2, format);
    if f1 == f2 {
        assert forall|i: int| 0 <= i < ts1.len() implies ts1[i] == ts2[i] by {
            assert(f1[p.len() + i] == ts1[i]);
            assert(f2[p.len() + i] == ts2[i]);
        }
        assert(ts1 =~= ts2);
    }
}

fn digit_str(d: u64) -> (r: &'static str)
    requires
        d < 10,
    ensures
        r@ == seq![spec_decimal_digit(d as nat)],
{
    proof {
        reveal_strlit("0");
        reveal_strlit("1");
        reveal_strlit("2");
        reveal_strlit("3");
        reveal_strlit("4");
        reveal_strlit("5");
        reveal_strlit("6");
        reveal_strlit("7");
        reveal_strlit("8");
        reveal_strlit("9");
    }
    if d == 0 {
        "0"
    } else if d == 1 {
        "1"
    } else if d == 2 {
        "2"
    } else if d == 3 {
        "3"
    } else if d == 4 {
        "4"
    } else if d == 5 {
        "5"
    } else if d == 6 {
        "6"
    } else if d == 7 {
        "7"
    } else if d == 8 {
        "8"
    } else {
        "9"
    }
}

/// Appends the decimal rendering of `n` to `s`.
fn push_decimal(s: &mut String, n: u64)
    ensures
        final(s)@ == old(s)@ + spec_decimal(n as nat),
    decreases n,
{
    if n >= 10 {
        push_decimal(s, n / 10);
        let d = digit_str(n % 10);
        s.append(d);
        proof {
            assert(final(s)@ == old(s)@ + spec_decimal(n as nat / 10) + seq![
                spec_decimal_digit(n as nat % 10),
            ]);
            assert(old(s)@ + spec_decimal(n as nat) == old(s)@ + spec_decimal(n as nat / 10)
                + seq![spec_decimal_digit(n as nat % 10)]) by {
                assert(spec_decimal(n as nat) == spec_decimal(n as nat / 10).push(
                    spec_decimal_digit(n as nat % 10),
                ));
                assert(old(s)@ + spec_decimal(n as nat) =~= old(s)@ + spec_decimal(n as nat / 10)
                    + seq![spec_decimal_digit(n as nat % 10)]);
            }
        }
    } else {
        let d = digit_str(n);
        s.append(d);
    }
}

impl RecorderContext2 {
    /// Computes this segment's output path from the session descriptor and
    /// a fresh wall-clock timestamp, keeping resolution and format.
    pub fn set_filename(&mut self, ctx: &RecorderContext)
        ensures
            final(self).width == old(self).width,
            final(self).height == old(self).height,
            final(self).format == old(self).format,
            is_conventional_filename(final(self).filename@, *ctx, final(self).format),
    {
        let ts = local_timestamp_string();
        let mut f = String::new();
        f.append(ctx.dir.as_str());
        f.append("/");
        f.append(if ctx.server {
            "incoming"
        } else {
            "outgoing"
        });
        f.append("_");
        f.append(ctx.id.as_str());
        f.append("_");
        f.append(ts.as_str());
        f.append("_");
        f.append(if ctx.camera {
            "camera"
        } else {
            "display"
        });
        push_decimal(&mut f, ctx.display_idx as u64);
        f.append("_");
        f.append(self.format.name_lower());
        f.append(self.format.extension());
        proof {
            assert(f@ =~= spec_filename(*ctx, ts@, self.format));
        }
        self.filename = f;
    }
}

/// `a * b`, saturating at `u64::MAX`.
pub open spec fn spec_sat_mul(a: u64, b: u64) -> u64 {
    if a * b > u64::MAX {
        u64::MAX
    } else {
        (a * b) as u64
    }
}

fn sat_mul(a: u64, b: u64) -> (r: u64)
    ensures
        r == spec_sat_mul(a, b),
{
    match a.checked_mul(b) {
        Some(v) => v,
        None => u64::MAX,
    }
}

/// `a + b`, saturating at `u64::MAX`.
pub open spec fn spec_sat_add(a: u64, b: u64) -> u64 {
    if a + b > u64::MAX {
        u64::MAX
    } else {
        (a + b) as u64
    }
}

/// The step by which one Opus packet advances the audio cursor: the
/// packet's estimated duration, or the 20 ms default when estimation
/// fails.
pub open spec fn spec_audio_step(data: Seq<u8>, sample_rate: u32) -> u64 {
    match spec_packet_duration_us(data, sample_rate) {
        Some(d) => d,
        None => 20_000,
    }
}

/// The audio-cursor step is always positive: estimation either fails
/// (20 ms default) or yields at least a microsecond.
pub proof fn lemma_audio_step_positive(data: Seq<u8>, sample_rate: u32)
    ensures
        spec_audio_step(data, sample_rate) >= 1,
{
    if spec_packet_duration_us(data, sample_rate) is Some {
        lemma_packet_duration_positive(data, sample_rate);
    }
}

/// The video timeline in microseconds: the pts baseline (milliseconds)
/// scaled by 1000, saturating; an unset baseline counts as zero.
pub open spec fn spec_video_us(pts: Option<i64>) -> u64 {
    spec_sat_mul(prev_pts_or_zero(pts) as u64, 1000)
}

/// The audio cursor after first-use seeding: an unset cursor is seeded
/// from the video timeline when the baseline is positive.
pub open spec fn spec_seeded_cursor(cursor: u64, pts: Option<i64>) -> u64 {
    if cursor == 0 && prev_pts_or_zero(pts) > 0 {
        spec_sat_mul(prev_pts_or_zero(pts) as u64, 1000)
    } else {
        cursor
    }
}

/// `a / b` rounded up.
pub open spec fn spec_ceil_div(a: int, b: int) -> int {
    (a + b - 1) / b
}

/// The cursor after fast-forwarding: the smallest point of the form
/// `cursor + k * step` at or beyond the video timeline when the cursor
/// lags behind it (saturating at `u64::MAX`), the cursor itself
/// otherwise.
pub open spec fn spec_aligned_cursor(cursor: u64, step: u64, video_us: u64) -> u64 {
    if cursor < video_us {
        let target = cursor + spec_ceil_div(video_us - cursor, step as int) * step;
        if target > u64::MAX {
            u64::MAX
        } else {
            target as u64
        }
    } else {
        cursor
    }
}

/// Rounding up by division: for positive `b`, `spec_ceil_div(a, b)` is
/// the least `k` with `k * b >= a`.
pub proof fn lemma_ceil_div(a: int, b: int)
    requires
        a >= 1,
        b >= 1,
    ensures
        spec_ceil_div(a, b) == a / b + (if a % b != 0 {
            1int
        } else {
            0int
        }),
        spec_ceil_div(a, b) * b >= a,
        (spec_ceil_div(a, b) - 1) * b < a,
{
    let q = a / b;
    let r = a % b;
    lemma_fundamental_div_mod(a, b);
    lemma_mod_division_less_than_divisor(a, b);
    if r == 0 {
        // (a + b - 1) == q * b + (b - 1)
        lemma_hoist_over_denominator(b - 1, q, b as nat);
        lemma_basic_div(b - 1, b);
        assert(spec_ceil_div(a, b) == q) by {
            assert((b - 1) / b == 0);
            assert(a + b - 1 == (b - 1) + q * b);
        }
    } else {
        // (a + b - 1) == (q + 1) * b + (r - 1)
        lemma_hoist_over_denominator(r - 1, q + 1, b as nat);
        lemma_basic_div(r - 1, b);
        assert(spec_ceil_div(a, b) == q + 1) by {
            assert((r - 1) / b == 0);
            assert(a + b - 1 == (r - 1) + (q + 1) * b) by (nonlinear_arith)
                requires
                    a == q * b + r,
            ;
        }
    }
    assert(spec_ceil_div(a, b) * b >= a) by (nonlinear_arith)
        requires
            a == q * b + r,
            0 <= r < b,
            spec_ceil_div(a, b) == q + (if r != 0 {
                1int
            } else {
                0int
            }),
    ;
    assert((spec_ceil_div(a, b) - 1) * b < a) by (nonlinear_arith)
        requires
            a == q * b + r,
            0 <= r < b,
            a >= 1,
            b >= 1,
            spec_ceil_div(a, b) == q + (if r != 0 {
                1int
            } else {
                0int
            }),
    ;
}

/// The fast-forward is tight: when the cursor lags and no saturation
/// occurs, the aligned cursor is step-aligned to the old cursor, lands at
/// or beyond the video timeline, and stays within one step of it.
pub proof fn lemma_aligned_cursor_tight(cursor: u64, step: u64, video_us: u64)
    requires
        step >= 1,
        cursor < video_us,
        cursor + spec_ceil_div(video_us - cursor, step as int) * step <= u64::MAX,
    ensures
        spec_aligned_cursor(cursor, step, video_us) >= video_us,
        spec_aligned_cursor(cursor, step, video_us) < video_us + step,
        (spec_aligned_cursor(cursor, step, video_us) - cursor) % (step as int) == 0,
{
    let behind = video_us - cursor;
    lemma_ceil_div(behind, step as int);
    let k = spec_ceil_div(behind, step as int);
    assert(k * step >= behind);
    assert((k - 1) * step < behind);
    assert(k * step < behind + step) by (nonlinear_arith)
        requires
            (k - 1) * step < behind,
    ;
    vstd::arithmetic::div_mod::lemma_mod_multiples_basic(k, step as int);
}

/// The construct/write/finalize surface of one open output segment.
///
/// Implementations live outside the verified library — they own the file
/// and the container writer. The recorder assumes nothing about their
/// behaviour: every decision it takes is verified for every result these
/// methods may return.
pub trait RecorderApi: Sized {
    /// Constructs the backend for one segment: creates the output
    /// directory and file named by `ctx2` and opens a writer of the given
    /// muxer family for its resolution and codec.
    fn new(kind: BackendKind, ctx: &RecorderContext, ctx2: &RecorderContext2) -> Result<
        Self,
        BackendError,
    >;

    /// Offers one encoded video frame; `true` if the writer accepted it.
    fn write_video(&mut self, frame: &EncodedVideoFrame) -> bool;

    /// Offers one Opus packet at `pts_us` microseconds on the segment
    /// timeline; `true` if the writer accepted it. Unsupported by default.
    fn write_audio(&mut self, _data: &[u8], _pts_us: u64) -> bool {
        false
    }

    /// Finalizes the segment, declaring `duration_ns` as its duration,
    /// then deletes the output file instead when `remove` is set.
    fn close(self, remove: bool, duration_ns: u64);
}

/// One open backend plus the bookkeeping the recorder keeps for it.
struct OpenBackend<B> {
    raw: B,
    filename: String,
    /// A keyframe has been accepted; frames before it are dropped.
    key: bool,
    /// At least one write (video or audio) succeeded.
    written: bool,
    start: std::time::Instant,
    last_video_ns: u64,
    last_audio_ns: u64,
}

impl<B: RecorderApi> OpenBackend<B> {
    /// Offers one frame to the writer, keeping the keyframe gate: frames
    /// before the first keyframe of the segment never reach the writer.
    fn forward_video(&mut self, frame: &EncodedVideoFrame) -> (wrote: bool)
        ensures
            final(self).filename == old(self).filename,
            final(self).start == old(self).start,
            final(self).last_audio_ns == old(self).last_audio_ns,
            final(self).key == (old(self).key || frame.key),
            final(self).written == (old(self).written || wrote),
            wrote ==> final(self).key,
            final(self).last_video_ns == if wrote {
                spec_sat_mul(frame.pts as u64, 1_000_000)
            } else {
                old(self).last_video_ns
            },
            !(old(self).key || frame.key) ==> !wrote && *final(self) == *old(self),
    {
        if frame.key {
            self.key = true;
        }
        if self.key {
            let pts_ns = sat_mul(#[verifier::truncate] (frame.pts as u64), 1_000_000);
            let ok = self.raw.write_video(frame);
            if ok {
                self.written = true;
                self.last_video_ns = pts_ns;
            }
            ok
        } else {
            false
        }
    }

    /// Offers one Opus packet to the writer at `pts_us` microseconds on
    /// the segment timeline.
    fn forward_audio(&mut self, data: &[u8], pts_us: u64) -> (wrote: bool)
        ensures
            final(self).filename == old(self).filename,
            final(self).start == old(self).start,
            final(self).key == old(self).key,
            final(self).last_video_ns == old(self).last_video_ns,
            final(self).written == (old(self).written || wrote),
            final(self).last_audio_ns == if wrote {
                spec_sat_mul(pts_us, 1000)
            } else {
                old(self).last_audio_ns
            },
    {
        let pts_ns = sat_mul(pts_us, 1000);
        let ok = self.raw.write_audio(data, pts_us);
        if ok {
            self.written = true;
            self.last_audio_ns = pts_ns;
        }
        ok
    }
}

/// Bookkeeping of the open backend, as contracts see it.
pub struct BackendView {
    pub filename: Seq<char>,
    pub key: bool,
    pub written: bool,
    pub last_video_ns: u64,
    pub last_audio_ns: u64,
}

/// The open segment descriptor, as contracts see it.
pub struct SegmentView {
    pub filename: Seq<char>,
    pub width: usize,
    pub height: usize,
    pub format: CodecFormat,
}

/// The recorder state, as contracts see it. `generation` counts backend
/// constructions: it grows by one exactly when a segment file is opened.
pub struct RecorderView {
    pub ctx: RecorderContext,
    pub failed: bool,
    pub segment: Option<SegmentView>,
    pub backend: Option<BackendView>,
    pub pts: Option<i64>,
    pub audio_cursor: u64,
    pub sample_rate: u32,
    pub generation: nat,
}

/// The front controller: detects format and resolution changes, rotates
/// segments, enforces pts monotonicity, aligns the audio timeline, and
/// emits notifications. Owns at most one open backend at any time.
pub struct Recorder<B: RecorderApi> {
    inner: Option<OpenBackend<B>>,
    ctx: RecorderContext,
    ctx2: Option<RecorderContext2>,
    pts: Option<i64>,
    check_failed: bool,
    /// Audio cursor in microseconds; 0 means unset.
    audio_pts_us: u64,
    /// Assumed Opus sample rate for duration estimation.
    audio_sample_rate: u32,
    generation: Ghost<nat>,
}

impl<B: RecorderApi> View for Recorder<B> {
    type V = RecorderView;

    closed spec fn view(&self) -> RecorderView {
        RecorderView {
            ctx: self.ctx,
            failed: self.check_failed,
            segment: match self.ctx2 {
                Some(c2) => Some(
                    SegmentView {
                        filename: c2.filename@,
                        width: c2.width,
                        height: c2.height,
                        format: c2.format,
                    },
                ),
                None => None,
            },
            backend: match self.inner {
                Some(ob) => Some(
                    BackendView {
                        filename: ob.filename@,
                        key: ob.key,
                        written: ob.written,
                        last_video_ns: ob.last_video_ns,
                        last_audio_ns: ob.last_audio_ns,
                    },
                ),
                None => None,
            },
            pts: self.pts,
            audio_cursor: self.audio_pts_us,
            sample_rate: self.audio_sample_rate,
            generation: self.generation@,
        }
    }
}

/// The finalize-or-delete decision for a segment: delete when nothing was
/// ever successfully written, or when the segment is younger than
/// [`MIN_SECS`] of wall-clock time.
pub fn should_remove(written: bool, elapsed_secs: u64) -> (r: bool)
    ensures
        r == (!written || elapsed_secs < MIN_SECS),
{
    !written || elapsed_secs < MIN_SECS
}

/// The comparison baseline for an incoming video timestamp: the last
/// accepted pts, or zero while the baseline is unset.
pub open spec fn prev_pts_or_zero(p: Option<i64>) -> i64 {
    match p {
        Some(v) => v,
        None => 0,
    }
}

/// A frame with timestamp `pts` forces a timeline-reset rotation exactly
/// when the baseline exceeds it.
pub open spec fn frame_resets(prev: Option<i64>, pts: i64) -> bool {
    prev_pts_or_zero(prev) > pts
}

/// How many timeline-reset rotations a run of timestamps triggers,
/// starting from baseline `prev`: each timestamp below its predecessor
/// (or below zero at an unset baseline) opens one fresh segment.
pub open spec fn spec_pts_rotations(prev: Option<i64>, pts: Seq<i64>) -> nat
    decreases pts.len(),
{
    if pts.len() == 0 {
        0
    } else {
        (if frame_resets(prev, pts[0]) {
            1nat
        } else {
            0nat
        }) + spec_pts_rotations(Some(pts[0]), pts.drop_first())
    }
}

/// The timestamps of a frame sequence, in order.
pub open spec fn batch_pts(frames: Seq<EncodedVideoFrame>) -> Seq<i64> {
    frames.map_values(|f: EncodedVideoFrame| f.pts)
}

/// Splitting one step off the rotation count: the count over the first
/// `i + 1` timestamps exceeds the count over the first `i` by one exactly
/// when the `i`-th timestamp resets against its predecessor.
pub proof fn lemma_rotations_take_succ(prev: Option<i64>, pts: Seq<i64>, i: int)
    requires
        0 <= i < pts.len(),
    ensures
        spec_pts_rotations(prev, pts.take(i + 1)) == spec_pts_rotations(prev, pts.take(i)) + (
        if frame_resets(
            if i == 0 {
                prev
            } else {
                Some(pts[i - 1])
            },
            pts[i],
        ) {
            1nat
        } else {
            0nat
        }),
    decreases i,
{
    if i == 0 {
        assert(pts.take(1)[0] == pts[0]);
        assert(pts.take(1).drop_first() =~= Seq::<i64>::empty());
        assert(pts.take(0) =~= Seq::<i64>::empty());
        assert(spec_pts_rotations(Some(pts[0]), Seq::<i64>::empty()) == 0);
        assert(spec_pts_rotations(prev, Seq::<i64>::empty()) == 0);
        assert(spec_pts_rotations(prev, pts.take(1)) == (if frame_resets(prev, pts[0]) {
            1nat
        } else {
            0nat
        }) + spec_pts_rotations(Some(pts[0]), pts.take(1).drop_first()));
    } else {
        let sub = pts.drop_first();
        lemma_rotations_take_succ(Some(pts[0]), sub, i - 1);
        assert(pts.take(i + 1)[0] == pts[0]);
        assert(pts.take(i)[0] == pts[0]);
        assert(pts.take(i + 1).drop_first() =~= sub.take(i));
        assert(pts.take(i).drop_first() =~= sub.take(i - 1));
        assert(sub[i - 1] == pts[i]);
        if i > 1 {
            assert(sub[i - 2] == pts[i - 1]);
        }
        assert(spec_pts_rotations(prev, pts.take(i + 1)) == (if frame_resets(prev, pts[0]) {
            1nat
        } else {
            0nat
        }) + spec_pts_rotations(Some(pts[0]), sub.take(i)));
        assert(spec_pts_rotations(prev, pts.take(i)) == (if frame_resets(prev, pts[0]) {
            1nat
        } else {
            0nat
        }) + spec_pts_rotations(Some(pts[0]), sub.take(i - 1)));
    }
}

/// The rotation count over a prefix never exceeds the count over the
/// whole run.
pub proof fn lemma_rotations_take_le(prev: Option<i64>, pts: Seq<i64>, j: int)
    requires
        0 <= j <= pts.len(),
    ensures
        spec_pts_rotations(prev, pts.take(j)) <= spec_pts_rotations(prev, pts),
    decreases pts.len(),
{
    if j == 0 {
        assert(pts.take(0) =~= Seq::<i64>::empty());
    } else {
        let sub = pts.drop_first();
        lemma_rotations_take_le(Some(pts[0]), sub, j - 1);
        assert(pts.take(j)[0] == pts[0]);
        assert(pts.take(j).drop_first() =~= sub.take(j - 1));
    }
}

/// A single frame whose timestamp falls below the accepted baseline
/// triggers exactly one timeline-reset rotation: one new segment is
/// opened for it, no more.
pub proof fn lemma_pts_decrease_one_rotation(prev: i64, pts: i64)
    requires
        pts < prev,
    ensures
        spec_pts_rotations(Some(prev), seq![pts]) == 1,
{
    assert(seq![pts].drop_first() =~= Seq::<i64>::empty());
    assert(spec_pts_rotations(Some(pts), Seq::<i64>::empty()) == 0);
}

/// Monotone timestamps trigger no timeline reset. Together with the
/// leading-keyframe condition this is why a batch with a leading keyframe
/// and non-decreasing pts lands in exactly one segment: the rotation
/// count is zero, so the segment generation does not move.
/// (A first frame with a negative pts is excluded: against an unset
/// baseline the recorder compares with zero and would rotate.)
pub proof fn lemma_monotone_pts_no_rotation(prev: Option<i64>, pts: Seq<i64>)
    requires
        forall|i: int| 0 <= i < pts.len() - 1 ==> #[trigger] pts[i] <= pts[i + 1],
        pts.len() > 0 ==> prev_pts_or_zero(prev) <= pts[0],
    ensures
        spec_pts_rotations(prev, pts) == 0,
    decreases pts.len(),
{
    if pts.len() > 0 {
        let sub = pts.drop_first();
        assert(forall|i: int| 0 <= i < sub.len() ==> #[trigger] sub[i] == pts[i + 1]);
        lemma_monotone_pts_no_rotation(Some(pts[0]), sub);
    }
}

/// Whether the open segment matches the incoming resolution and format.
pub open spec fn segment_matches(v: RecorderView, w: usize, h: usize, format: CodecFormat) -> bool {
    match v.segment {
        Some(s) => s.width == w && s.height == h && s.format == format,
        None => false,
    }
}

/// Whether a batch with these dimensions makes the rotation check open a
/// fresh segment.
pub open spec fn spec_check_fresh(v: RecorderView, w: usize, h: usize, format: CodecFormat) -> bool {
    !(segment_matches(v, w, h, format) && v.backend is Some)
}

/// A resolution or codec change always replaces the backend: a batch
/// whose dimensions or format differ from the open segment's makes the
/// rotation check open a fresh segment — on a successful submission the
/// segment generation then moves (see the generation clause of
/// `write_frame`), with the fresh filename computed before the old
/// backend is finalized.
pub proof fn lemma_dimension_change_is_fresh(
    v: RecorderView,
    w: usize,
    h: usize,
    format: CodecFormat,
)
    requires
        v.segment matches Some(s) && (s.width != w || s.height != h || s.format != format),
    ensures
        spec_check_fresh(v, w, h, format),
{
}

/// The pts baseline right after the rotation check: unset if the check
/// opened a fresh segment, untouched otherwise.
pub open spec fn spec_post_check_pts(
    v: RecorderView,
    w: usize,
    h: usize,
    format: CodecFormat,
) -> Option<i64> {
    if spec_check_fresh(v, w, h, format) {
        None
    } else {
        v.pts
    }
}

impl<B: RecorderApi> Recorder<B> {
    /// Consistency of the per-segment bookkeeping: an open backend belongs
    /// to the open segment, nothing can have been written to a segment
    /// whose pts baseline is still unset (no frame accepted yet), and
    /// every segment filename follows the convention for a known codec
    /// format.
    pub open spec fn wf_core(self) -> bool {
        &&& (self@.backend is Some ==> self@.segment is Some)
        &&& (match (self@.backend, self@.segment) {
            (Some(b), Some(s)) => b.filename == s.filename,
            _ => true,
        })
        &&& (match self@.backend {
            Some(b) => !self@.failed && self@.pts is None ==> !b.written && !b.key,
            None => true,
        })
        &&& (match self@.segment {
            Some(s) => is_conventional_filename(s.filename, self@.ctx, s.format) && s.format
                != CodecFormat::Unknown,
            None => true,
        })
    }

    /// The recorder's invariant: [`Self::wf_core`], and, while the
    /// recorder has not failed, an accepted video timestamp implies an
    /// open backend.
    pub open spec fn wf(self) -> bool {
        &&& self.wf_core()
        &&& (!self@.failed && self@.pts is Some ==> self@.backend is Some)
    }

    /// A fresh recorder: no segment, no backend, video timeline unset,
    /// audio cursor unset, not failed. Audio is assumed to be Opus at
    /// 48 kHz, the rate the remote stream uses.
    pub fn new(ctx: RecorderContext) -> (r: Result<Recorder<B>, RecordError>)
        ensures
            r matches Ok(rec) && rec.wf() && rec@ == (RecorderView {
                ctx,
                failed: false,
                segment: None,
                backend: None,
                pts: None,
                audio_cursor: 0,
                sample_rate: 48000,
                generation: 0,
            }),
    {
        Ok(
            Recorder {
                inner: None,
                ctx,
                ctx2: None,
                pts: None,
                check_failed: false,
                audio_pts_us: 0,
                audio_sample_rate: 48_000,
                generation: Ghost(0),
            },
        )
    }

    /// Whether a segment-construction failure has latched the recorder
    /// into the permanently-failed state.
    pub fn is_failed(&self) -> (r: bool)
        ensures
            r == self@.failed,
    {
        self.check_failed
    }

    /// The open segment's output path, if a segment is open.
    pub fn filename(&self) -> (r: Option<&String>)
        ensures
            match r {
                Some(f) => self@.segment matches Some(s) && f@ == s.filename,
                None => self@.segment is None,
            },
    {
        match &self.ctx2 {
            Some(c2) => Some(&c2.filename),
            None => None,
        }
    }

    /// The last accepted video pts, if any frame has been accepted into
    /// the current segment.
    pub fn last_pts(&self) -> (r: Option<i64>)
        ensures
            r == self@.pts,
    {
        self.pts
    }

    /// The audio cursor in microseconds; zero means unset.
    pub fn audio_cursor_us(&self) -> (r: u64)
        ensures
            r == self@.audio_cursor,
    {
        self.audio_pts_us
    }

    /// Best-effort notification; a missing or closed channel drops it.
    fn send_state(&self, state: RecordState) {
        match &self.ctx.tx {
            Some(tx) => {
                let _ = tx.send(state);
            },
            None => {},
        }
    }

    /// Finalizes or deletes the open backend, if any, emitting `WriteTail`
    /// or `RemoveFile`; leaves every other field alone.
    fn close_backend(&mut self) -> (r: Option<RecordState>)
        ensures
            final(self)@ == (RecorderView { backend: None, ..old(self)@ }),
            match old(self)@.backend {
                None => r is None,
                Some(b) => {
                    &&& (r == Some(RecordState::RemoveFile) || r == Some(RecordState::WriteTail))
                    &&& (!b.written ==> r == Some(RecordState::RemoveFile))
                    &&& (r == Some(RecordState::WriteTail) ==> b.written)
                },
            },
    {
        match self.inner.take() {
            None => None,
            Some(ob) => {
                let elapsed_secs = ob.start.elapsed().as_secs();
                let duration_ns = if ob.last_video_ns >= ob.last_audio_ns {
                    ob.last_video_ns
                } else {
                    ob.last_audio_ns
                };
                let remove = should_remove(ob.written, elapsed_secs);
                ob.raw.close(remove, duration_ns);
                self.send_state(
                    if remove {
                        RecordState::RemoveFile
                    } else {
                        RecordState::WriteTail
                    },
                );
                Some(
                    if remove {
                        RecordState::RemoveFile
                    } else {
                        RecordState::WriteTail
                    },
                )
            },
        }
    }

    /// Ends the current segment: finalizes or deletes the open backend and
    /// clears all per-segment state. The recorder stays usable; the next
    /// video batch opens a fresh segment.
    ///
    /// Returns the teardown notification that was emitted, if a backend
    /// was open. A segment to which nothing was ever written is always
    /// deleted (`RemoveFile`); in particular a recorder that never
    /// accepted a video frame into the current segment — never a keyframe
    /// — retains no file. `WriteTail` can only be returned for a segment
    /// with at least one successful write.
    pub fn close(&mut self) -> (r: Option<RecordState>)
        requires
            old(self).wf(),
        ensures
            final(self).wf(),
            final(self)@ == (RecorderView {
                segment: None,
                backend: None,
                pts: None,
                audio_cursor: 0,
                ..old(self)@
            }),
            match old(self)@.backend {
                None => r is None,
                Some(b) => {
                    &&& (r == Some(RecordState::RemoveFile) || r == Some(RecordState::WriteTail))
                    &&& (!b.written ==> r == Some(RecordState::RemoveFile))
                    &&& (r == Some(RecordState::WriteTail) ==> b.written)
                },
            },
            (!old(self)@.failed && old(self)@.pts is None && old(self)@.backend is Some) ==> r
                == Some(RecordState::RemoveFile),
    {
        let r = self.close_backend();
        self.ctx2 = None;
        self.pts = None;
        self.audio_pts_us = 0;
        r
    }

    /// The rotation check. If no segment is open, or the open segment's
    /// resolution or codec format differs from the incoming values, a
    /// fresh segment descriptor is computed (the new filename strictly
    /// before the old backend is touched), the old backend is finalized
    /// or deleted, and a new backend is constructed, resetting the pts
    /// baseline and the audio cursor and emitting `NewFile`. Construction
    /// failure latches the recorder into the permanently-failed state.
    fn check(&mut self, w: usize, h: usize, format: CodecFormat) -> (r: Result<(), RecordError>)
        requires
            old(self).wf_core(),
            !old(self)@.failed,
            format != CodecFormat::Unknown,
        ensures
            final(self).wf(),
            final(self)@.ctx == old(self)@.ctx,
            final(self)@.sample_rate == old(self)@.sample_rate,
            final(self)@.segment matches Some(s) && s.width == w && s.height == h && s.format
                == format,
            (segment_matches(old(self)@, w, h, format) && old(self)@.backend is Some) ==> r
                == Ok::<(), RecordError>(()),
            match r {
                Ok(()) => {
                    &&& !final(self)@.failed
                    &&& final(self)@.backend is Some
                    &&& if segment_matches(old(self)@, w, h, format) && old(self)@.backend
                        is Some {
                        final(self)@ == old(self)@
                    } else {
                        &&& final(self)@.generation == old(self)@.generation + 1
                        &&& final(self)@.pts is None
                        &&& final(self)@.audio_cursor == 0
                        &&& final(self)@.backend matches Some(b) && !b.key && !b.written
                            && b.last_video_ns == 0 && b.last_audio_ns == 0
                    }
                },
                Err(e) => {
                    &&& is_construction_error(e)
                    &&& final(self)@.failed
                    &&& final(self)@.backend is None
                    &&& final(self)@.generation == old(self)@.generation
                    &&& final(self)@.pts == old(self)@.pts
                },
            },
    {
        let needs_new = match &self.ctx2 {
            Some(c2) => c2.width != w || c2.height != h || c2.format != format,
            None => true,
        };
        if needs_new {
            let mut c2 = RecorderContext2 {
                width: w,
                height: h,
                format,
                filename: String::new(),
            };
            c2.set_filename(&self.ctx);
            self.ctx2 = Some(c2);
            let _ = self.close_backend();
        }
        if self.inner.is_none() {
            let kind = backend_kind(format);
            let filename = match &self.ctx2 {
                Some(c2) => c2.filename.clone(),
                None => {
                    proof {
                        assert(false);
                    }
                    String::new()
                },
            };
            let created = match &self.ctx2 {
                Some(c2) => B::new(kind, &self.ctx, c2),
                None => {
                    proof {
                        assert(false);
                    }
                    Err(BackendError::Construction)
                },
            };
            match created {
                Ok(raw) => {
                    self.inner = Some(
                        OpenBackend {
                            raw,
                            filename,
                            key: false,
                            written: false,
                            start: std::time::Instant::now(),
                            last_video_ns: 0,
                            last_audio_ns: 0,
                        },
                    );
                    self.pts = None;
                    self.audio_pts_us = 0;
                    self.generation = Ghost(self.generation@ + 1);
                    let announced = match &self.ctx2 {
                        Some(c2) => c2.filename.clone(),
                        None => {
                            proof {
                                assert(false);
                            }
                            String::new()
                        },
                    };
                    self.send_state(RecordState::NewFile(announced));
                },
                Err(e) => {
                    self.check_failed = true;
                    return Err(backend_error_to_record(e));
                },
            }
        }
        Ok(())
    }

    /// Validates one frame's timestamp. The first frame accepted into a
    /// fresh segment must be a keyframe. A pts below the baseline is a
    /// timeline reset: the recorder silently rotates to a brand-new
    /// segment with the same resolution and format and accepts the new
    /// pts as the fresh baseline.
    fn check_pts(
        &mut self,
        pts: i64,
        key: bool,
        w: usize,
        h: usize,
        format: CodecFormat,
    ) -> (r: Result<(), RecordError>)
        requires
            old(self).wf(),
            !old(self)@.failed,
            format != CodecFormat::Unknown,
            old(self)@.backend is Some,
            segment_matches(old(self)@, w, h, format),
        ensures
            final(self).wf(),
            final(self)@.ctx == old(self)@.ctx,
            final(self)@.sample_rate == old(self)@.sample_rate,
            final(self)@.segment matches Some(s) && s.width == w && s.height == h && s.format
                == format,
            (r == Err::<(), RecordError>(RecordError::NonKeyFirstFrame)) <==> (old(self)@.pts
                is None && !key),
            match r {
                Ok(()) => {
                    &&& !final(self)@.failed
                    &&& final(self)@.pts == Some(pts)
                    &&& final(self)@.backend is Some
                    &&& segment_matches(final(self)@, w, h, format)
                    &&& if frame_resets(old(self)@.pts, pts) {
                        &&& final(self)@.generation == old(self)@.generation + 1
                        &&& final(self)@.audio_cursor == 0
                        &&& final(self)@.backend matches Some(b) && !b.key && !b.written
                            && b.last_video_ns == 0 && b.last_audio_ns == 0
                    } else {
                        final(self)@ == (RecorderView { pts: Some(pts), ..old(self)@ })
                    }
                },
                Err(e) => {
                    if e == RecordError::NonKeyFirstFrame {
                        final(self)@ == old(self)@
                    } else {
                        &&& is_construction_error(e)
                        &&& frame_resets(old(self)@.pts, pts)
                        &&& final(self)@.failed
                        &&& final(self)@.backend is None
                        &&& final(self)@.generation == old(self)@.generation
                        &&& final(self)@.pts == Some(pts)
                    }
                },
            },
    {
        if self.pts.is_none() && !key {
            return Err(RecordError::NonKeyFirstFrame);
        }
        let old_pts = self.pts;
        self.pts = Some(pts);
        let baseline = match old_pts {
            Some(v) => v,
            None => 0,
        };
        if baseline > pts {
            let _ = self.close_backend();
            self.ctx2 = None;
            let res = self.check(w, h, format);
            match res {
                Ok(()) => {
                    self.pts = Some(pts);
                    Ok(())
                },
                Err(e) => Err(e),
            }
        } else {
            Ok(())
        }
    }

    /// Runs one batch of frames through pts validation and forwards each
    /// validated frame to the backend. Per-frame write failures do not
    /// abort the batch; a pts-validation failure does.
    #[verifier::loop_isolation(false)]
    fn process_batch(
        &mut self,
        frames: &Vec<EncodedVideoFrame>,
        w: usize,
        h: usize,
        format: CodecFormat,
    ) -> (r: Result<(), RecordError>)
        requires
            old(self).wf(),
            !old(self)@.failed,
            format != CodecFormat::Unknown,
            old(self)@.backend is Some,
            segment_matches(old(self)@, w, h, format),
        ensures
            final(self).wf(),
            final(self)@.ctx == old(self)@.ctx,
            final(self)@.sample_rate == old(self)@.sample_rate,
            final(self)@.segment matches Some(s) && s.width == w && s.height == h && s.format
                == format,
            (r == Err::<(), RecordError>(RecordError::NonKeyFirstFrame)) <==> (old(self)@.pts
                is None && frames@.len() > 0 && !frames@[0].key),
            match r {
                Ok(()) => {
                    &&& !final(self)@.failed
                    &&& final(self)@.backend is Some
                    &&& segment_matches(final(self)@, w, h, format)
                    &&& final(self)@.pts == (if frames@.len() == 0 {
                        old(self)@.pts
                    } else {
                        Some(frames@.last().pts)
                    })
                    &&& final(self)@.generation == old(self)@.generation + spec_pts_rotations(
                        old(self)@.pts,
                        batch_pts(frames@),
                    )
                    &&& final(self)@.audio_cursor == (if final(self)@.generation == old(self)@.generation {
                        old(self)@.audio_cursor
                    } else {
                        0
                    })
                    &&& (final(self)@.backend->Some_0.key ==> (old(self)@.backend->Some_0.key
                        || exists|j: int| 0 <= j < frames@.len() && frames@[j].key))
                },
                Err(e) => {
                    if e == RecordError::NonKeyFirstFrame {
                        final(self)@ == old(self)@
                    } else {
                        is_construction_error(e) && final(self)@.failed
                    }
                },
            },
            ((old(self)@.pts is None ==> frames@.len() == 0 || frames@[0].key)
                && spec_pts_rotations(old(self)@.pts, batch_pts(frames@)) == 0) ==> r == Ok::<
                (),
                RecordError,
            >(()),
    {
        let ghost v0 = self@;
        let mut i: usize = 0;
        while i < frames.len()
            invariant
                self.wf(),
                !self@.failed,
                self@.backend is Some,
                segment_matches(self@, w, h, format),
                self@.ctx == v0.ctx,
                self@.sample_rate == v0.sample_rate,
                i <= frames@.len(),
                i == 0 ==> self@ == v0,
                i > 0 ==> !(v0.pts is None && !frames@[0].key),
                self@.pts == (if i == 0 {
                    v0.pts
                } else {
                    Some(frames@[i - 1].pts)
                }),
                self@.generation == v0.generation + spec_pts_rotations(
                    v0.pts,
                    batch_pts(frames@).take(i as int),
                ),
                self@.audio_cursor == (if self@.generation == v0.generation {
                    v0.audio_cursor
                } else {
                    0
                }),
                (self@.backend->Some_0.key ==> (v0.backend->Some_0.key || exists|j: int|
                    0 <= j < i && frames@[j].key)),
            decreases frames@.len() - i,
        {
            let f = &frames[i];
            let ghost pre = self@;
            let res = self.check_pts(f.pts, f.key, w, h, format);
            match res {
                Err(e) => {
                    proof {
                        if e != RecordError::NonKeyFirstFrame {
                            assert(frame_resets(pre.pts, frames@[i as int].pts));
                            assert(batch_pts(frames@)[i as int] == frames@[i as int].pts);
                            lemma_rotations_take_succ(v0.pts, batch_pts(frames@), i as int);
                            lemma_rotations_take_le(v0.pts, batch_pts(frames@), i as int + 1);
                        }
                    }
                    return Err(e);
                },
                Ok(()) => {},
            }
            proof {
                assert(batch_pts(frames@)[i as int] == frames@[i as int].pts);
                lemma_rotations_take_succ(v0.pts, batch_pts(frames@), i as int);
                lemma_rotations_take_le(v0.pts, batch_pts(frames@), i as int + 1);
            }
            match &mut self.inner {
                Some(ob) => {
                    let _ = ob.forward_video(f);
                },
                None => {
                    proof {
                        assert(false);
                    }
                },
            }
            i = i + 1;
        }
        proof {
            assert(batch_pts(frames@).take(frames@.len() as int) =~= batch_pts(frames@));
        }
        Ok(())
    }

    /// Submits one batch of encoded video frames at the given resolution.
    ///
    /// Determines the codec family from the batch (failing with
    /// `UnsupportedFrameType` if unmappable), runs the rotation check,
    /// then validates and forwards each frame; per-frame write failures do
    /// not abort the batch. Emits `NewFrame` once per successful batch.
    /// With an open matching segment, a baseline-compatible leading frame
    /// and no pts decrease, success is guaranteed and the batch lands in
    /// the one open segment (the generation does not move).
    pub fn write_frame(&mut self, frame: &VideoFrameBatch, w: usize, h: usize) -> (r: Result<
        (),
        RecordError,
    >)
        requires
            old(self).wf(),
        ensures
            final(self).wf(),
            final(self)@.ctx == old(self)@.ctx,
            final(self)@.sample_rate == old(self)@.sample_rate,
            old(self)@.failed ==> r == Err::<(), RecordError>(RecordError::AlreadyFailed) && final(self)@ == old(self)@,
            r == Err::<(), RecordError>(RecordError::AlreadyFailed) ==> old(self)@.failed,
            (!old(self)@.failed && frame.spec_format() == CodecFormat::Unknown) ==> r == Err::<
                (),
                RecordError,
            >(RecordError::UnsupportedFrameType) && final(self)@ == old(self)@,
            r == Err::<(), RecordError>(RecordError::UnsupportedFrameType) ==> frame.spec_format()
                == CodecFormat::Unknown,
            (r == Err::<(), RecordError>(RecordError::NonKeyFirstFrame)) <==> (!old(self)@.failed
                && frame.spec_format() != CodecFormat::Unknown && !final(self)@.failed
                && spec_post_check_pts(old(self)@, w, h, frame.spec_format()) is None
                && frame.spec_frames().len() > 0 && !frame.spec_frames()[0].key),
            (r matches Err(e) && is_construction_error(e)) ==> final(self)@.failed,
            r == Err::<(), RecordError>(RecordError::NonKeyFirstFrame) ==> final(self)@.pts
                is None && final(self)@.backend is Some,
            (!old(self)@.failed && frame.spec_format() != CodecFormat::Unknown) ==> (final(self)@.segment matches Some(s) && s.width == w && s.height == h && s.format
                == frame.spec_format()),
            r == Ok::<(), RecordError>(()) ==> {
                let fmt = frame.spec_format();
                let pts1 = spec_post_check_pts(old(self)@, w, h, fmt);
                let gen1 = old(self)@.generation + (if spec_check_fresh(old(self)@, w, h, fmt) {
                    1nat
                } else {
                    0nat
                });
                &&& !final(self)@.failed
                &&& final(self)@.backend is Some
                &&& segment_matches(final(self)@, w, h, fmt)
                &&& final(self)@.pts == (if frame.spec_frames().len() == 0 {
                    pts1
                } else {
                    Some(frame.spec_frames().last().pts)
                })
                &&& final(self)@.generation == gen1 + spec_pts_rotations(
                    pts1,
                    batch_pts(frame.spec_frames()),
                )
                &&& final(self)@.audio_cursor == (if final(self)@.generation == old(self)@.generation {
                    old(self)@.audio_cursor
                } else {
                    0
                })
            },
            (!old(self)@.failed && frame.spec_format() != CodecFormat::Unknown && !spec_check_fresh(
                old(self)@,
                w,
                h,
                frame.spec_format(),
            ) && (old(self)@.pts is None ==> frame.spec_frames().len() == 0
                || frame.spec_frames()[0].key) && spec_pts_rotations(
                old(self)@.pts,
                batch_pts(frame.spec_frames()),
            ) == 0) ==> r == Ok::<(), RecordError>(()),
    {
        if self.check_failed {
            return Err(RecordError::AlreadyFailed);
        }
        let format = frame.format();
        if format == CodecFormat::Unknown {
            return Err(RecordError::UnsupportedFrameType);
        }
        match self.check(w, h, format) {
            Ok(()) => {},
            Err(e) => {
                return Err(e);
            },
        }
        let res = match frame {
            VideoFrameBatch::Vp8s(frames)
            | VideoFrameBatch::Vp9s(frames)
            | VideoFrameBatch::Av1s(frames)
            | VideoFrameBatch::H264s(frames)
            | VideoFrameBatch::H265s(frames) => self.process_batch(frames, w, h, format),
            VideoFrameBatch::Other => {
                proof {
                    assert(false);
                }
                Err(RecordError::UnsupportedFrameType)
            },
        };
        match res {
            Ok(()) => {
                self.send_state(RecordState::NewFrame);
                Ok(())
            },
            Err(e) => Err(e),
        }
    }

    /// Submits one protocol message: a batch of encoded video frames is
    /// forwarded to [`Self::write_frame`] with any error swallowed; every
    /// other message leaves the recorder untouched.
    pub fn write_message(&mut self, msg: &Message, w: usize, h: usize)
        requires
            old(self).wf(),
        ensures
            final(self).wf(),
            final(self)@.ctx == old(self)@.ctx,
            final(self)@.sample_rate == old(self)@.sample_rate,
            msg is Other ==> *final(self) == *old(self),
    {
        match msg {
            Message::VideoFrame(frame) => {
                let _ = self.write_frame(frame, w, h);
            },
            Message::Other => {},
        }
    }

    /// Submits one raw Opus packet.
    ///
    /// A quiet no-op — never an error — while the recorder has failed, no
    /// video frame has been accepted into the current segment (in
    /// particular before the segment's first keyframe: audio never
    /// reaches a backend before it), or no backend exists; in these cases
    /// the recorder is left exactly as it was. Otherwise the packet's
    /// duration is estimated from its framing (20 ms when estimation
    /// fails), the audio cursor is seeded from the video timeline on
    /// first use per segment, fast-forwarded in whole packet steps onto
    /// the video timeline if it lags, and the packet is offered to the
    /// backend at the cursor. On a successful write the cursor advances
    /// by the packet duration and `NewFrame` is emitted; on a failed
    /// write it advances only if that does not overshoot the video
    /// timeline.
    pub fn write_audio_opus(&mut self, data: &[u8])
        requires
            old(self).wf(),
        ensures
            final(self).wf(),
            (old(self)@.failed || old(self)@.pts is None || old(self)@.backend is None) ==> *final(self) == *old(self),
            final(self)@.ctx == old(self)@.ctx,
            final(self)@.failed == old(self)@.failed,
            final(self)@.segment == old(self)@.segment,
            final(self)@.pts == old(self)@.pts,
            final(self)@.sample_rate == old(self)@.sample_rate,
            final(self)@.generation == old(self)@.generation,
            (final(self)@.backend is Some) == (old(self)@.backend is Some),
            (!old(self)@.failed && old(self)@.pts is Some && old(self)@.backend is Some) ==> ({
                let step = spec_audio_step(data@, old(self)@.sample_rate);
                let video_us = spec_video_us(old(self)@.pts);
                let seeded = spec_seeded_cursor(old(self)@.audio_cursor, old(self)@.pts);
                let aligned = spec_aligned_cursor(seeded, step, video_us);
                let b = old(self)@.backend->Some_0;
                let b2 = final(self)@.backend->Some_0;
                &&& aligned >= seeded
                &&& (seeded < video_us ==> aligned >= video_us)
                &&& b2.filename == b.filename
                &&& b2.key == b.key
                &&& b2.last_video_ns == b.last_video_ns
                &&& ({
                    ||| (final(self)@.audio_cursor == spec_sat_add(aligned, step) && b2.written
                        && b2.last_audio_ns == spec_sat_mul(aligned, 1000))
                    ||| (final(self)@.audio_cursor == (if spec_sat_add(aligned, step)
                        <= video_us {
                        spec_sat_add(aligned, step)
                    } else {
                        aligned
                    }) && b2.written == b.written && b2.last_audio_ns == b.last_audio_ns)
                })
            }),
    {
        if self.check_failed {
            return ;
        }
        if self.pts.is_none() {
            return ;
        }
        if self.inner.is_none() {
            return ;
        }
        let baseline = match self.pts {
            Some(v) => v,
            None => 0,
        };
        if self.audio_pts_us == 0 && baseline > 0 {
            self.audio_pts_us = sat_mul(baseline as u64, 1000);
        }
        let inc = match opus_packet_duration_us(data, self.audio_sample_rate) {
            Some(d) => d,
            None => 20_000,
        };
        proof {
            lemma_audio_step_positive(data@, old(self)@.sample_rate);
            assert(inc == spec_audio_step(data@, old(self)@.sample_rate));
        }
        let video_us = sat_mul(#[verifier::truncate] (baseline as u64), 1000);
        let mut pts_us = self.audio_pts_us;
        proof {
            assert(pts_us == spec_seeded_cursor(old(self)@.audio_cursor, old(self)@.pts));
            assert(video_us == spec_video_us(old(self)@.pts));
        }
        if pts_us < video_us {
            let behind = video_us - pts_us;
            let q = behind / inc;
            proof {
                if behind % inc != 0 {
                    assert(inc >= 2) by {
                        if inc == 1 {
                            assert(behind as int % 1int == 0) by (nonlinear_arith);
                        }
                    }
                    vstd::arithmetic::div_mod::lemma_div_is_ordered_by_denominator(
                        behind as int,
                        2,
                        inc as int,
                    );
                    assert(behind as int / 2 <= u64::MAX as int / 2) by (nonlinear_arith)
                        requires
                            behind <= u64::MAX,
                    ;
                }
            }
            let steps = if behind % inc != 0 {
                q + 1
            } else {
                q
            };
            proof {
                lemma_ceil_div(behind as int, inc as int);
                assert(steps == spec_ceil_div(behind as int, inc as int));
            }
            let add = sat_mul(steps, inc);
            let new_pts = pts_us.saturating_add(add);
            self.audio_pts_us = new_pts;
            pts_us = new_pts;
            proof {
                assert(pts_us == spec_aligned_cursor(
                    spec_seeded_cursor(old(self)@.audio_cursor, old(self)@.pts),
                    inc,
                    video_us,
                ));
                assert(pts_us >= video_us);
            }
        }
        let wrote = match &mut self.inner {
            Some(ob) => ob.forward_audio(data, pts_us),
            None => {
                proof {
                    assert(false);
                }
                false
            },
        };
        if wrote {
            self.audio_pts_us = self.audio_pts_us.saturating_add(inc);
            self.send_state(RecordState::NewFrame);
        } else {
            let next = self.audio_pts_us.saturating_add(inc);
            if next <= video_us {
                self.audio_pts_us = next;
            }
        }
    }
}

} // verus!
