//! The container header.

use vstd::prelude::*;

verus! {

/// The nine-byte prologue of a container.
#[derive(Debug, Clone, Copy, PartialEq, Eq, Structural)]
pub struct FlvHeader {
    /// The version of the container format.
    pub version: u8,
    /// Whether the container announces audio tags.
    pub is_audio_present: bool,
    /// Whether the container announces video tags.
    pub is_video_present: bool,
    /// Number of bytes between the end of the prologue and the first tag.
    pub remaining: u32,
}

impl Default for FlvHeader {
    fn default() -> (r: Self)
        ensures
            r == (FlvHeader {
                version: 0,
                is_audio_present: false,
                is_video_present: false,
                remaining: 0,
            }),
    {
        FlvHeader { version: 0, is_audio_present: false, is_video_present: false, remaining: 0 }
    }
}

} // verus!
