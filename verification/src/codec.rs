//! Codec families and encoded-video-frame batches as the recorder sees them.

use vstd::prelude::*;

verus! {

/// Codec family of an encoded video stream.
#[derive(Clone, Copy, Debug, PartialEq, Eq, Structural)]
pub enum CodecFormat {
    VP8,
    VP9,
    AV1,
    H264,
    H265,
    Unknown,
}

impl CodecFormat {
    /// The software (WebM) muxer owns these families; every other known
    /// family goes to the hardware muxer.
    pub open spec fn spec_is_webm_family(self) -> bool {
        self == CodecFormat::VP8 || self == CodecFormat::VP9 || self == CodecFormat::AV1
    }

    pub fn is_webm_family(&self) -> (r: bool)
        ensures
            r == self.spec_is_webm_family(),
    {
        matches!(self, CodecFormat::VP8 | CodecFormat::VP9 | CodecFormat::AV1)
    }

    /// Lower-case family name as it appears in segment filenames.
    pub open spec fn spec_name_lower(self) -> Seq<char> {
        match self {
            CodecFormat::VP8 => "vp8"@,
            CodecFormat::VP9 => "vp9"@,
            CodecFormat::AV1 => "av1"@,
            CodecFormat::H264 => "h264"@,
            CodecFormat::H265 => "h265"@,
            CodecFormat::Unknown => "unknown"@,
        }
    }

    pub fn name_lower(&self) -> (r: &'static str)
        ensures
            r@ == self.spec_name_lower(),
    {
        match self {
            CodecFormat::VP8 => "vp8",
            CodecFormat::VP9 => "vp9",
            CodecFormat::AV1 => "av1",
            CodecFormat::H264 => "h264",
            CodecFormat::H265 => "h265",
            CodecFormat::Unknown => "unknown",
        }
    }

    /// `.webm` for the software-muxed families, `.mp4` otherwise.
    pub open spec fn spec_extension(self) -> Seq<char> {
        if self.spec_is_webm_family() {
            ".webm"@
        } else {
            ".mp4"@
        }
    }

    pub fn extension(&self) -> (r: &'static str)
        ensures
            r@ == self.spec_extension(),
    {
        if self.is_webm_family() {
            ".webm"
        } else {
            ".mp4"
        }
    }
}

/// One externally-encoded video frame: opaque payload bytes, presentation
/// timestamp in milliseconds, keyframe flag.
#[derive(Clone, Debug)]
pub struct EncodedVideoFrame {
    pub data: Vec<u8>,
    pub pts: i64,
    pub key: bool,
}

/// A batch of encoded frames tagged by codec family, as one video-frame
/// message delivers them. `Other` stands for any payload the recorder
/// cannot map to a codec family.
#[derive(Clone, Debug)]
pub enum VideoFrameBatch {
    Vp8s(Vec<EncodedVideoFrame>),
    Vp9s(Vec<EncodedVideoFrame>),
    Av1s(Vec<EncodedVideoFrame>),
    H264s(Vec<EncodedVideoFrame>),
    H265s(Vec<EncodedVideoFrame>),
    Other,
}

/// A protocol message as the recorder sees it: it may carry a batch of
/// encoded video frames; every other message is ignored by the recorder.
#[derive(Clone, Debug)]
pub enum Message {
    VideoFrame(VideoFrameBatch),
    Other,
}

impl VideoFrameBatch {
    pub open spec fn spec_format(self) -> CodecFormat {
        match self {
            VideoFrameBatch::Vp8s(_) => CodecFormat::VP8,
            VideoFrameBatch::Vp9s(_) => CodecFormat::VP9,
            VideoFrameBatch::Av1s(_) => CodecFormat::AV1,
            VideoFrameBatch::H264s(_) => CodecFormat::H264,
            VideoFrameBatch::H265s(_) => CodecFormat::H265,
            VideoFrameBatch::Other => CodecFormat::Unknown,
        }
    }

    /// Codec family carried by this batch; `Unknown` if unmappable.
    pub fn format(&self) -> (r: CodecFormat)
        ensures
            r == self.spec_format(),
    {
        match self {
            VideoFrameBatch::Vp8s(_) => CodecFormat::VP8,
            VideoFrameBatch::Vp9s(_) => CodecFormat::VP9,
            VideoFrameBatch::Av1s(_) => CodecFormat::AV1,
            VideoFrameBatch::H264s(_) => CodecFormat::H264,
            VideoFrameBatch::H265s(_) => CodecFormat::H265,
            VideoFrameBatch::Other => CodecFormat::Unknown,
        }
    }

    /// The frames of the batch, in submission order; empty for `Other`.
    pub open spec fn spec_frames(self) -> Seq<EncodedVideoFrame> {
        match self {
            VideoFrameBatch::Vp8s(v) => v@,
            VideoFrameBatch::Vp9s(v) => v@,
            VideoFrameBatch::Av1s(v) => v@,
            VideoFrameBatch::H264s(v) => v@,
            VideoFrameBatch::H265s(v) => v@,
            VideoFrameBatch::Other => Seq::empty(),
        }
    }
}

} // verus!
