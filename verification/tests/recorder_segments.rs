use scrap::{
    BackendError, BackendKind, CodecFormat, EncodedVideoFrame, Message, RecordError,
    RecordState, Recorder, RecorderApi, RecorderContext, RecorderContext2, VideoFrameBatch,
};
use std::sync::mpsc::{channel, Receiver, Sender};

/// A backend whose writer accepts every video frame and every audio packet.
struct AcceptAll;

impl RecorderApi for AcceptAll {
    fn new(
        _kind: BackendKind,
        _ctx: &RecorderContext,
        _ctx2: &RecorderContext2,
    ) -> Result<Self, BackendError> {
        Ok(AcceptAll)
    }
    fn write_video(&mut self, _frame: &EncodedVideoFrame) -> bool {
        true
    }
    fn write_audio(&mut self, _data: &[u8], _pts_us: u64) -> bool {
        true
    }
    fn close(self, _remove: bool, _duration_ns: u64) {}
}

/// A backend that accepts video but has no audio support (the default).
struct NoAudio;

impl RecorderApi for NoAudio {
    fn new(
        _kind: BackendKind,
        _ctx: &RecorderContext,
        _ctx2: &RecorderContext2,
    ) -> Result<Self, BackendError> {
        Ok(NoAudio)
    }
    fn write_video(&mut self, _frame: &EncodedVideoFrame) -> bool {
        true
    }
    fn close(self, _remove: bool, _duration_ns: u64) {}
}

/// Backends whose construction fails, one per failure kind.
struct NoCodec;

impl RecorderApi for NoCodec {
    fn new(
        _kind: BackendKind,
        _ctx: &RecorderContext,
        _ctx2: &RecorderContext2,
    ) -> Result<Self, BackendError> {
        Err(BackendError::UnsupportedCodec)
    }
    fn write_video(&mut self, _frame: &EncodedVideoFrame) -> bool {
        false
    }
    fn close(self, _remove: bool, _duration_ns: u64) {}
}

struct NoFilesystem;

impl RecorderApi for NoFilesystem {
    fn new(
        _kind: BackendKind,
        _ctx: &RecorderContext,
        _ctx2: &RecorderContext2,
    ) -> Result<Self, BackendError> {
        Err(BackendError::Filesystem)
    }
    fn write_video(&mut self, _frame: &EncodedVideoFrame) -> bool {
        false
    }
    fn close(self, _remove: bool, _duration_ns: u64) {}
}

struct NoConstruction;

impl RecorderApi for NoConstruction {
    fn new(
        _kind: BackendKind,
        _ctx: &RecorderContext,
        _ctx2: &RecorderContext2,
    ) -> Result<Self, BackendError> {
        Err(BackendError::Construction)
    }
    fn write_video(&mut self, _frame: &EncodedVideoFrame) -> bool {
        false
    }
    fn close(self, _remove: bool, _duration_ns: u64) {}
}

fn ctx(tx: Sender<RecordState>) -> RecorderContext {
    RecorderContext {
        server: true,
        id: "s1".to_string(),
        dir: "records".to_string(),
        display_idx: 0,
        camera: false,
        tx: Some(tx),
    }
}

fn frame(pts: i64, key: bool) -> EncodedVideoFrame {
    EncodedVideoFrame {
        data: vec![1, 2, 3],
        pts,
        key,
    }
}

fn drain(rx: &Receiver<RecordState>) -> Vec<RecordState> {
    let mut out = Vec::new();
    while let Ok(s) = rx.try_recv() {
        out.push(s);
    }
    out
}

fn new_files(events: &[RecordState]) -> Vec<String> {
    let mut out = Vec::new();
    for e in events {
        if let RecordState::NewFile(f) = e {
            out.push(f.clone());
        }
    }
    out
}

fn wait_millis(ms: u64) {
    let start = std::time::Instant::now();
    while start.elapsed() < std::time::Duration::from_millis(ms) {}
}

#[test]
fn batch_lands_in_one_segment() {
    let (tx, rx) = channel();
    let mut rec: Recorder<AcceptAll> = Recorder::new(ctx(tx)).unwrap();
    let batch = VideoFrameBatch::Vp9s(vec![
        frame(0, true),
        frame(10, false),
        frame(20, false),
        frame(20, false),
        frame(30, false),
    ]);
    assert!(rec.write_frame(&batch, 640, 480).is_ok());
    let more = VideoFrameBatch::Vp9s(vec![frame(40, false), frame(50, false)]);
    assert!(rec.write_frame(&more, 640, 480).is_ok());
    let events = drain(&rx);
    assert_eq!(new_files(&events).len(), 1);
    assert_eq!(rec.last_pts(), Some(50));
}

#[test]
fn empty_batch_opens_segment() {
    let (tx, rx) = channel();
    let mut rec: Recorder<AcceptAll> = Recorder::new(ctx(tx)).unwrap();
    let batch = VideoFrameBatch::Vp8s(vec![]);
    assert!(rec.write_frame(&batch, 320, 200).is_ok());
    let events = drain(&rx);
    assert_eq!(new_files(&events).len(), 1);
    assert_eq!(rec.last_pts(), None);
    assert!(matches!(rec.close(), Some(RecordState::RemoveFile)));
}

#[test]
fn pts_decrease_rotates_once() {
    let (tx, rx) = channel();
    let mut rec: Recorder<AcceptAll> = Recorder::new(ctx(tx)).unwrap();
    let first = VideoFrameBatch::Vp9s(vec![frame(100, true)]);
    assert!(rec.write_frame(&first, 640, 480).is_ok());
    wait_millis(5);
    let reset = VideoFrameBatch::Vp9s(vec![frame(50, true)]);
    assert!(rec.write_frame(&reset, 640, 480).is_ok());
    let events = drain(&rx);
    let files = new_files(&events);
    assert_eq!(files.len(), 2);
    assert_ne!(files[0], files[1]);
    assert_eq!(rec.last_pts(), Some(50));
}

#[test]
fn resolution_change_replaces_backend() {
    let (tx, rx) = channel();
    let mut rec: Recorder<AcceptAll> = Recorder::new(ctx(tx)).unwrap();
    let first = VideoFrameBatch::Vp9s(vec![frame(0, true)]);
    assert!(rec.write_frame(&first, 640, 480).is_ok());
    wait_millis(5);
    let bigger = VideoFrameBatch::Vp9s(vec![frame(10, true)]);
    assert!(rec.write_frame(&bigger, 1280, 720).is_ok());
    let events = drain(&rx);
    let files = new_files(&events);
    assert_eq!(files.len(), 2);
    assert_ne!(files[0], files[1]);
    // the old segment is finalized-or-deleted before the new file is announced
    let teardown_at = events
        .iter()
        .position(|e| matches!(e, RecordState::RemoveFile | RecordState::WriteTail))
        .unwrap();
    let second_file_at = events
        .iter()
        .enumerate()
        .filter(|(_, e)| matches!(e, RecordState::NewFile(_)))
        .map(|(i, _)| i)
        .nth(1)
        .unwrap();
    assert!(teardown_at < second_file_at);
}

#[test]
fn codec_change_replaces_backend() {
    let (tx, rx) = channel();
    let mut rec: Recorder<AcceptAll> = Recorder::new(ctx(tx)).unwrap();
    let vp8 = VideoFrameBatch::Vp8s(vec![frame(0, true)]);
    assert!(rec.write_frame(&vp8, 640, 480).is_ok());
    wait_millis(5);
    let vp9 = VideoFrameBatch::Vp9s(vec![frame(10, true)]);
    assert!(rec.write_frame(&vp9, 640, 480).is_ok());
    let files = new_files(&drain(&rx));
    assert_eq!(files.len(), 2);
    assert_ne!(files[0], files[1]);
    assert!(files[0].ends_with("_vp8.webm"));
    assert!(files[1].ends_with("_vp9.webm"));
}

#[test]
fn never_keyframe_no_retained_file() {
    let (tx, rx) = channel();
    let mut rec: Recorder<AcceptAll> = Recorder::new(ctx(tx)).unwrap();
    let nonkey = VideoFrameBatch::Vp9s(vec![frame(0, false)]);
    assert_eq!(
        rec.write_frame(&nonkey, 640, 480),
        Err(RecordError::NonKeyFirstFrame)
    );
    // a backend was opened for the segment, but nothing was written
    assert_eq!(new_files(&drain(&rx)).len(), 1);
    assert!(matches!(rec.close(), Some(RecordState::RemoveFile)));
}

#[test]
fn no_backend_no_file_at_all() {
    let (tx, rx) = channel();
    let mut rec: Recorder<AcceptAll> = Recorder::new(ctx(tx)).unwrap();
    assert!(rec.close().is_none());
    assert!(drain(&rx).is_empty());
}

#[test]
fn audio_before_keyframe_never_reaches_backend() {
    let (tx, rx) = channel();
    let mut rec: Recorder<AcceptAll> = Recorder::new(ctx(tx)).unwrap();
    rec.write_audio_opus(&[0x00]);
    rec.write_audio_opus(&[0xFF, 2]);
    assert!(drain(&rx).is_empty());
    assert_eq!(rec.audio_cursor_us(), 0);
    assert!(rec.close().is_none());
}

#[test]
fn audio_after_keyframe_advances_cursor() {
    let (tx, rx) = channel();
    let mut rec: Recorder<AcceptAll> = Recorder::new(ctx(tx)).unwrap();
    let batch = VideoFrameBatch::Vp9s(vec![frame(1000, true)]);
    assert!(rec.write_frame(&batch, 640, 480).is_ok());
    // seeded at 1000 ms -> 1_000_000 us, accepted, advanced by 5000 us
    rec.write_audio_opus(&[0x00]);
    assert_eq!(rec.audio_cursor_us(), 1_005_000);
    // a NewFrame is emitted for the accepted packet
    let events = drain(&rx);
    assert!(events
        .iter()
        .filter(|e| matches!(e, RecordState::NewFrame))
        .count() >= 2);
}

#[test]
fn audio_cursor_fast_forwards_to_video_timeline() {
    let (tx, _rx) = channel();
    let mut rec: Recorder<AcceptAll> = Recorder::new(ctx(tx)).unwrap();
    let batch = VideoFrameBatch::Vp9s(vec![frame(1000, true)]);
    assert!(rec.write_frame(&batch, 640, 480).is_ok());
    rec.write_audio_opus(&[0x00]);
    assert_eq!(rec.audio_cursor_us(), 1_005_000);
    let later = VideoFrameBatch::Vp9s(vec![frame(2000, false)]);
    assert!(rec.write_frame(&later, 640, 480).is_ok());
    // cursor lags 995_000 us behind 2_000_000; 199 steps of 5000 us catch up
    rec.write_audio_opus(&[0x00]);
    assert_eq!(rec.audio_cursor_us(), 2_005_000);
}

#[test]
fn rejected_audio_holds_cursor_at_timeline() {
    let (tx, _rx) = channel();
    let mut rec: Recorder<NoAudio> = Recorder::new(ctx(tx)).unwrap();
    let batch = VideoFrameBatch::Vp9s(vec![frame(1000, true)]);
    assert!(rec.write_frame(&batch, 640, 480).is_ok());
    // the backend rejects audio; advancing would overshoot the video
    // timeline, so the cursor holds and waits for video to catch up
    rec.write_audio_opus(&[0x00]);
    assert_eq!(rec.audio_cursor_us(), 1_000_000);
    rec.write_audio_opus(&[0x00]);
    assert_eq!(rec.audio_cursor_us(), 1_000_000);
}

#[test]
fn rotation_resets_audio_cursor() {
    let (tx, _rx) = channel();
    let mut rec: Recorder<AcceptAll> = Recorder::new(ctx(tx)).unwrap();
    let batch = VideoFrameBatch::Vp9s(vec![frame(1000, true)]);
    assert!(rec.write_frame(&batch, 640, 480).is_ok());
    rec.write_audio_opus(&[0x00]);
    assert_eq!(rec.audio_cursor_us(), 1_005_000);
    // resolution change: new segment, audio cursor unset again
    let bigger = VideoFrameBatch::Vp9s(vec![frame(2000, true)]);
    assert!(rec.write_frame(&bigger, 1280, 720).is_ok());
    assert_eq!(rec.audio_cursor_us(), 0);
}

#[test]
fn pts_reset_also_resets_audio_cursor() {
    let (tx, _rx) = channel();
    let mut rec: Recorder<AcceptAll> = Recorder::new(ctx(tx)).unwrap();
    let batch = VideoFrameBatch::Vp9s(vec![frame(1000, true)]);
    assert!(rec.write_frame(&batch, 640, 480).is_ok());
    rec.write_audio_opus(&[0x00]);
    assert_eq!(rec.audio_cursor_us(), 1_005_000);
    let reset = VideoFrameBatch::Vp9s(vec![frame(10, true)]);
    assert!(rec.write_frame(&reset, 640, 480).is_ok());
    assert_eq!(rec.audio_cursor_us(), 0);
}

#[test]
fn young_segment_deleted_on_close() {
    let (tx, _rx) = channel();
    let mut rec: Recorder<AcceptAll> = Recorder::new(ctx(tx)).unwrap();
    let batch = VideoFrameBatch::Vp9s(vec![frame(0, true)]);
    assert!(rec.write_frame(&batch, 640, 480).is_ok());
    // one frame was written, but the segment is younger than a second
    assert!(matches!(rec.close(), Some(RecordState::RemoveFile)));
}

#[test]
fn old_enough_segment_kept_on_close() {
    let (tx, _rx) = channel();
    let mut rec: Recorder<AcceptAll> = Recorder::new(ctx(tx)).unwrap();
    let batch = VideoFrameBatch::Vp9s(vec![frame(0, true)]);
    assert!(rec.write_frame(&batch, 640, 480).is_ok());
    wait_millis(1100);
    assert!(matches!(rec.close(), Some(RecordState::WriteTail)));
}

#[test]
fn unsupported_frame_type() {
    let (tx, rx) = channel();
    let mut rec: Recorder<AcceptAll> = Recorder::new(ctx(tx)).unwrap();
    assert_eq!(
        rec.write_frame(&VideoFrameBatch::Other, 640, 480),
        Err(RecordError::UnsupportedFrameType)
    );
    assert!(drain(&rx).is_empty());
    assert!(!rec.is_failed());
}

#[test]
fn construction_failure_latches_unsupported_codec() {
    let (tx, rx) = channel();
    let mut rec: Recorder<NoCodec> = Recorder::new(ctx(tx)).unwrap();
    let batch = VideoFrameBatch::H264s(vec![frame(0, true)]);
    assert_eq!(
        rec.write_frame(&batch, 640, 480),
        Err(RecordError::UnsupportedCodecForBackend)
    );
    assert!(rec.is_failed());
    assert!(drain(&rx).is_empty());
    assert_eq!(
        rec.write_frame(&batch, 640, 480),
        Err(RecordError::AlreadyFailed)
    );
    // audio submissions are quiet no-ops in the failed state
    rec.write_audio_opus(&[0x00]);
    assert_eq!(rec.audio_cursor_us(), 0);
}

#[test]
fn construction_failure_latches_filesystem() {
    let (tx, _rx) = channel();
    let mut rec: Recorder<NoFilesystem> = Recorder::new(ctx(tx)).unwrap();
    let batch = VideoFrameBatch::Vp9s(vec![frame(0, true)]);
    assert_eq!(
        rec.write_frame(&batch, 640, 480),
        Err(RecordError::FilesystemError)
    );
    assert!(rec.is_failed());
}

#[test]
fn construction_failure_latches_backend() {
    let (tx, _rx) = channel();
    let mut rec: Recorder<NoConstruction> = Recorder::new(ctx(tx)).unwrap();
    let batch = VideoFrameBatch::Vp9s(vec![frame(0, true)]);
    assert_eq!(
        rec.write_frame(&batch, 640, 480),
        Err(RecordError::BackendConstructionError)
    );
    assert!(rec.is_failed());
}

#[test]
fn filename_follows_convention() {
    let (tx, rx) = channel();
    let mut rec: Recorder<AcceptAll> = Recorder::new(ctx(tx)).unwrap();
    let batch = VideoFrameBatch::Vp9s(vec![frame(0, true)]);
    assert!(rec.write_frame(&batch, 640, 480).is_ok());
    let files = new_files(&drain(&rx));
    assert_eq!(files.len(), 1);
    assert!(files[0].starts_with("records/incoming_s1_"));
    assert!(files[0].contains("_display0_"));
    assert!(files[0].ends_with("_vp9.webm"));
    assert_eq!(rec.filename().unwrap(), &files[0]);
}

#[test]
fn filename_outgoing_camera_mp4() {
    let (tx, rx) = channel();
    let mut rec: Recorder<AcceptAll> = Recorder::new(RecorderContext {
        server: false,
        id: "ab12".to_string(),
        dir: "out".to_string(),
        display_idx: 3,
        camera: true,
        tx: Some(tx),
    })
    .unwrap();
    let batch = VideoFrameBatch::H265s(vec![frame(0, true)]);
    assert!(rec.write_frame(&batch, 640, 480).is_ok());
    let files = new_files(&drain(&rx));
    assert_eq!(files.len(), 1);
    assert!(files[0].starts_with("out/outgoing_ab12_"));
    assert!(files[0].contains("_camera3_"));
    assert!(files[0].ends_with("_h265.mp4"));
}

#[test]
fn backend_kind_by_family() {
    assert_eq!(scrap::backend_kind(CodecFormat::VP8), BackendKind::SoftwareMux);
    assert_eq!(scrap::backend_kind(CodecFormat::VP9), BackendKind::SoftwareMux);
    assert_eq!(scrap::backend_kind(CodecFormat::AV1), BackendKind::SoftwareMux);
    assert_eq!(scrap::backend_kind(CodecFormat::H264), BackendKind::HardwareMux);
    assert_eq!(scrap::backend_kind(CodecFormat::H265), BackendKind::HardwareMux);
}

#[test]
fn write_message_forwards_video_and_ignores_rest() {
    let (tx, rx) = channel();
    let mut rec: Recorder<AcceptAll> = Recorder::new(ctx(tx)).unwrap();
    rec.write_message(&Message::Other, 640, 480);
    assert!(drain(&rx).is_empty());
    let msg = Message::VideoFrame(VideoFrameBatch::Vp9s(vec![frame(0, true)]));
    rec.write_message(&msg, 640, 480);
    let events = drain(&rx);
    assert_eq!(new_files(&events).len(), 1);
    // a failing submission is swallowed: a non-key first frame on the next
    // fresh segment leaves no visible error
    rec.close();
    let nonkey = Message::VideoFrame(VideoFrameBatch::Vp9s(vec![frame(0, false)]));
    rec.write_message(&nonkey, 640, 480);
    assert!(!rec.is_failed());
}

#[test]
fn recorder_usable_after_close() {
    let (tx, rx) = channel();
    let mut rec: Recorder<AcceptAll> = Recorder::new(ctx(tx)).unwrap();
    let batch = VideoFrameBatch::Vp9s(vec![frame(0, true)]);
    assert!(rec.write_frame(&batch, 640, 480).is_ok());
    wait_millis(5);
    rec.close();
    assert!(rec.write_frame(&batch, 640, 480).is_ok());
    assert_eq!(new_files(&drain(&rx)).len(), 2);
}
