//! Recording of an already-encoded remote-desktop media stream to disk.
//!
//! The core is the segment-lifecycle engine: a controller that decides when
//! to open or replace an output file, enforces monotonic video timestamps
//! within a segment, aligns an asynchronous Opus audio stream onto the video
//! timeline, and guarantees that every segment is either finalized or
//! deleted. The actual container writers (and all file I/O) sit behind a
//! backend trait that the embedding program implements.

pub mod camera;
pub mod codec;
pub mod opus;
pub mod record;
pub mod sys;

pub use camera::{
    primary_camera_exists, CameraBackend, CameraError, CameraInfo, Cameras, DisplayInfo,
    Resolution, PRIMARY_CAMERA_IDX,
};
pub use codec::{CodecFormat, EncodedVideoFrame, Message, VideoFrameBatch};
pub use opus::{
    opus_head_bytes, opus_nb_frames, opus_packet_duration_us, opus_samples_per_frame,
};
pub use record::{
    backend_kind, should_remove, BackendError, BackendKind, RecordError, RecordState, Recorder,
    RecorderApi, RecorderContext, RecorderContext2, MIN_SECS,
};
