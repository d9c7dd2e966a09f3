use vstd::prelude::*;
use vstd::string::StringExecFns;
use crate::textfmt::{dec_seq, dec_string};

verus! {

/// Every way the decode pipeline can fail.  Each error is detected at its
/// origin and returned immediately; no stage recovers or retries.
#[derive(Clone, Copy, Debug, PartialEq, Eq, Structural)]
pub enum PipelineError {
    /// The textual payload is not valid under the expected binary encoding.
    PayloadDecode,
    /// No supported image signature matches the decoded bytes.
    UnrecognizedFormat,
    /// A still image buffer could not be decoded into a canvas.
    StillDecode,
    /// An animation container could not be opened at all.
    AnimationDecode,
    /// One frame of an animation failed to decode.
    FrameDecode { frame: usize },
    /// A canvas's dimensions differ from the composite size the panel
    /// geometry demands.
    DimensionMismatch {
        got_width: usize,
        got_height: usize,
        expected_width: usize,
        expected_height: usize,
    },
    /// A chunk was requested at or beyond the total frame count.
    ChunkOutOfRange { chunk_start: usize, total_frames: usize },
    /// A successfully decoded result could not be serialized.
    Serialization,
}

impl PipelineError {
    /// The human-readable description of this failure: it names the stage
    /// that failed and, for dimension and range errors, the offending and
    /// the expected values.
    pub open spec fn spec_message(self) -> Seq<char> {
        match self {
            PipelineError::PayloadDecode => "Failed to decode base64"@,
            PipelineError::UnrecognizedFormat => "Failed to determine image format"@,
            PipelineError::StillDecode => "Failed to decode image"@,
            PipelineError::AnimationDecode => "Failed to decode GIF"@,
            PipelineError::FrameDecode { frame } => "Failed to decode GIF frame "@
                + dec_seq(frame as nat),
            PipelineError::DimensionMismatch { got_width, got_height, expected_width,
                expected_height } => "Image dimensions do not match: got "@
                + dec_seq(got_width as nat) + "x"@ + dec_seq(got_height as nat)
                + ", expected "@ + dec_seq(expected_width as nat) + "x"@
                + dec_seq(expected_height as nat),
            PipelineError::ChunkOutOfRange { chunk_start, total_frames } => "Chunk start "@
                + dec_seq(chunk_start as nat) + " exceeds total frames "@
                + dec_seq(total_frames as nat),
            PipelineError::Serialization => "Failed to serialize panel data"@,
        }
    }

    /// Render the failure as its human-readable message.
    pub fn message(&self) -> (r: String)
        ensures
            r@ == self.spec_message(),
    {
        match self {
            PipelineError::PayloadDecode => "Failed to decode base64".to_owned(),
            PipelineError::UnrecognizedFormat => "Failed to determine image format".to_owned(),
            PipelineError::StillDecode => "Failed to decode image".to_owned(),
            PipelineError::AnimationDecode => "Failed to decode GIF".to_owned(),
            PipelineError::FrameDecode { frame } => {
                let mut s = "Failed to decode GIF frame ".to_owned();
                s.append(dec_string(*frame).as_str());
                proof {
                    assert(s@ =~= self.spec_message());
                }
                s
            },
            PipelineError::DimensionMismatch { got_width, got_height, expected_width,
                expected_height } => {
                let mut s = "Image dimensions do not match: got ".to_owned();
                s.append(dec_string(*got_width).as_str());
                s.append("x");
                s.append(dec_string(*got_height).as_str());
                s.append(", expected ");
                s.append(dec_string(*expected_width).as_str());
                s.append("x");
                s.append(dec_string(*expected_height).as_str());
                proof {
                    assert(s@ =~= self.spec_message());
                }
                s
            },
            PipelineError::ChunkOutOfRange { chunk_start, total_frames } => {
                let mut s = "Chunk start ".to_owned();
                s.append(dec_string(*chunk_start).as_str());
                s.append(" exceeds total frames ");
                s.append(dec_string(*total_frames).as_str());
                proof {
                    assert(s@ =~= self.spec_message());
                }
                s
            },
            PipelineError::Serialization => "Failed to serialize panel data".to_owned(),
        }
    }
}

} // verus!
