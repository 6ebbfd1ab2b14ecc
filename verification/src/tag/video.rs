//! Video tags.

use crate::fourcc::Fourcc;
use crate::reader::bytes_content;
use crate::reader::contents;
use bytes::Bytes;
use vstd::prelude::*;

pub mod mpeg4_avc;

verus! {

/// A video payload: its header, the track it belongs to and the coded data.
#[derive(Clone, Debug, PartialEq)]
pub struct VideoTag {
    pub header: VideoTagHeader,
    pub body: VideoTagBody,
    /// Track id; zero unless the header is an extended one.
    pub track_id: u8,
}

/// What a [`VideoTag`] stands for, with every buffer replaced by its bytes.
pub struct VideoTagView {
    pub header: VideoTagHeader,
    pub track_id: u8,
    pub pts_offset: i32,
    pub param_count: u32,
    pub nalus: Seq<Seq<u8>>,
}

impl View for VideoTag {
    type V = VideoTagView;

    open spec fn view(&self) -> VideoTagView {
        VideoTagView {
            header: self.header,
            track_id: self.track_id,
            pts_offset: self.body.pts_offset,
            param_count: self.body.param_count,
            nalus: contents(self.body.nalus@),
        }
    }
}

/// The coded data of a video tag.
#[derive(Clone, Debug, PartialEq)]
pub struct VideoTagBody {
    /// Presentation time minus decode time, in milliseconds.
    pub pts_offset: i32,
    /// How many of the leading entries of `nalus` are parameter sets.
    pub param_count: u32,
    /// The coded segments, in stream order.
    pub nalus: Vec<Bytes>,
}

/// The packet subtype of a video tag.
#[derive(Copy, Clone, Debug, Eq, PartialEq, Structural)]
pub enum VideoPacketType {
    /// 0
    SequenceStart,
    /// 1
    CodedFrames,
    /// 2
    SequenceEnd,
    /// 3, coded frames whose composition time offset is implicitly zero
    CodedFramesX,
    /// 4, the body carries metadata and no video data
    Metadata,
    /// 5
    MPEG2TSSequenceStart,
    /// 6, turns on multitrack mode
    Multitrack,
    /// 7, announces a modifier record in front of the real subtype
    ModEx,
    /// Any other code.
    Unknown(u8),
}

impl From<u8> for VideoPacketType {
    fn from(value: u8) -> (r: Self) {
        match value {
            0 => VideoPacketType::SequenceStart,
            1 => VideoPacketType::CodedFrames,
            2 => VideoPacketType::SequenceEnd,
            3 => VideoPacketType::CodedFramesX,
            4 => VideoPacketType::Metadata,
            5 => VideoPacketType::MPEG2TSSequenceStart,
            6 => VideoPacketType::Multitrack,
            7 => VideoPacketType::ModEx,
            v => VideoPacketType::Unknown(v),
        }
    }
}

impl VideoPacketType {
    /// The variant that the code `value` stands for.
    pub open spec fn from_code(value: u8) -> Self {
        match value {
            0 => VideoPacketType::SequenceStart,
            1 => VideoPacketType::CodedFrames,
            2 => VideoPacketType::SequenceEnd,
            3 => VideoPacketType::CodedFramesX,
            4 => VideoPacketType::Metadata,
            5 => VideoPacketType::MPEG2TSSequenceStart,
            6 => VideoPacketType::Multitrack,
            7 => VideoPacketType::ModEx,
            v => VideoPacketType::Unknown(v),
        }
    }
}

impl vstd::std_specs::convert::FromSpecImpl<u8> for VideoPacketType {
    open spec fn obeys_from_spec() -> bool {
        true
    }

    open spec fn from_spec(value: u8) -> Self {
        Self::from_code(value)
    }
}

/// How the payload of a modifier record is to be read.
#[derive(Debug, Clone, Copy, PartialEq, Eq, Structural)]
pub enum VideoPacketModExType {
    /// 0, a nanosecond offset to the tag's timestamp
    TimestampOffsetNano,
    /// Any other code.
    Unknown(u8),
}

impl From<u8> for VideoPacketModExType {
    fn from(value: u8) -> (r: Self) {
        match value {
            0 => VideoPacketModExType::TimestampOffsetNano,
            v => VideoPacketModExType::Unknown(v),
        }
    }
}

impl VideoPacketModExType {
    /// The variant that the code `value` stands for.
    pub open spec fn from_code(value: u8) -> Self {
        match value {
            0 => VideoPacketModExType::TimestampOffsetNano,
            v => VideoPacketModExType::Unknown(v),
        }
    }
}

impl vstd::std_specs::convert::FromSpecImpl<u8> for VideoPacketModExType {
    open spec fn obeys_from_spec() -> bool {
        true
    }

    open spec fn from_spec(value: u8) -> Self {
        Self::from_code(value)
    }
}

/// How the tracks of a multitrack tag are laid out.
#[derive(Debug, Clone, Copy, PartialEq, Eq, Structural)]
pub enum AvMultitrackType {
    /// 0
    OneTrack,
    /// 1
    ManyTracks,
    /// 2
    ManyTracksManyCodecs,
    /// Any other code.
    Unknown(u8),
}

impl From<u8> for AvMultitrackType {
    fn from(value: u8) -> (r: Self) {
        match value {
            0 => AvMultitrackType::OneTrack,
            1 => AvMultitrackType::ManyTracks,
            2 => AvMultitrackType::ManyTracksManyCodecs,
            t => AvMultitrackType::Unknown(t),
        }
    }
}

impl AvMultitrackType {
    /// The variant that the code `value` stands for.
    pub open spec fn from_code(value: u8) -> Self {
        match value {
            0 => AvMultitrackType::OneTrack,
            1 => AvMultitrackType::ManyTracks,
            2 => AvMultitrackType::ManyTracksManyCodecs,
            t => AvMultitrackType::Unknown(t),
        }
    }
}

impl vstd::std_specs::convert::FromSpecImpl<u8> for AvMultitrackType {
    open spec fn obeys_from_spec() -> bool {
        true
    }

    open spec fn from_spec(value: u8) -> Self {
        Self::from_code(value)
    }
}

/// The header of a video payload.
#[derive(Copy, Clone, Debug, Eq, PartialEq, Structural)]
pub struct VideoTagHeader {
    pub frame_type: VideoFrameType,
    pub pkt_type: VideoPacketType,
    pub multitrack: bool,
    pub fourcc: Fourcc,
    pub has_body: bool,
    pub multitrack_type: AvMultitrackType,
    /// Whether the header uses the extended encoding.
    pub enhanced: bool,
}

/// One modifier record of an extended video header.
#[derive(Debug, Clone, PartialEq, Eq)]
pub struct PacketExData {
    /// The subtype that follows the record.
    pub pkt_type: VideoPacketType,
    /// How the record's payload is to be read.
    pub ex_type: VideoPacketModExType,
    /// The nanosecond offset, where the record carries one; zero otherwise.
    pub dts_offset_ns: u32,
    /// What is left of the record's payload after interpreting it.
    pub ex_data: Bytes,
}

/// What a [`PacketExData`] stands for, with the buffer replaced by its bytes.
pub struct PacketExDataView {
    pub pkt_type: VideoPacketType,
    pub ex_type: VideoPacketModExType,
    pub dts_offset_ns: u32,
    pub ex_data: Seq<u8>,
}

impl View for PacketExData {
    type V = PacketExDataView;

    open spec fn view(&self) -> PacketExDataView {
        PacketExDataView {
            pkt_type: self.pkt_type,
            ex_type: self.ex_type,
            dts_offset_ns: self.dts_offset_ns,
            ex_data: bytes_content(self.ex_data),
        }
    }
}

/// A command carried by a command frame.
#[derive(Copy, Clone, Debug, Eq, PartialEq, Structural)]
pub enum VideoCommand {
    /// 0
    StartSeek,
    /// 1
    EndSeek,
    /// Any other code.
    Unknown(u8),
}

/// The type of a video frame.
#[derive(Copy, Clone, Debug, Eq, PartialEq, Structural)]
pub enum VideoFrameType {
    /// 1
    Key,
    /// 2
    Inter,
    /// 3
    DisposableInter,
    /// 4
    Generated,
    /// 5
    Command,
    /// Any other code.
    Unknown(u8),
}

impl From<u8> for VideoFrameType {
    fn from(value: u8) -> (r: Self) {
        match value {
            1 => VideoFrameType::Key,
            2 => VideoFrameType::Inter,
            3 => VideoFrameType::DisposableInter,
            4 => VideoFrameType::Generated,
            5 => VideoFrameType::Command,
            t => VideoFrameType::Unknown(t),
        }
    }
}

impl VideoFrameType {
    /// The variant that the code `value` stands for.
    pub open spec fn from_code(value: u8) -> Self {
        match value {
            1 => VideoFrameType::Key,
            2 => VideoFrameType::Inter,
            3 => VideoFrameType::DisposableInter,
            4 => VideoFrameType::Generated,
            5 => VideoFrameType::Command,
            t => VideoFrameType::Unknown(t),
        }
    }
}

impl vstd::std_specs::convert::FromSpecImpl<u8> for VideoFrameType {
    open spec fn obeys_from_spec() -> bool {
        true
    }

    open spec fn from_spec(value: u8) -> Self {
        Self::from_code(value)
    }
}

/// The codec of a video tag with a plain (not extended) header.
#[allow(clippy::upper_case_acronyms)]
#[derive(Copy, Clone, Debug, Eq, PartialEq, Structural)]
pub enum CodecID {
    /// 2
    SorensonH263,
    /// 3
    Screen1,
    /// 4
    VP6,
    /// 5
    VP6Alpha,
    /// 6
    Screen2,
    /// 7, H.264
    AVC,
    /// 8
    RealH263,
    /// 12, H.265
    Hevc,
    /// Any other code.
    Unknown(u8),
}

impl From<u8> for CodecID {
    fn from(value: u8) -> (r: Self) {
        match value {
            2 => CodecID::SorensonH263,
            3 => CodecID::Screen1,
            4 => CodecID::VP6,
            5 => CodecID::VP6Alpha,
            6 => CodecID::Screen2,
            7 => CodecID::AVC,
            8 => CodecID::RealH263,
            12 => CodecID::Hevc,
            c => CodecID::Unknown(c),
        }
    }
}

impl CodecID {
    /// The variant that the code `value` stands for.
    pub open spec fn from_code(value: u8) -> Self {
        match value {
            2 => CodecID::SorensonH263,
            3 => CodecID::Screen1,
            4 => CodecID::VP6,
            5 => CodecID::VP6Alpha,
            6 => CodecID::Screen2,
            7 => CodecID::AVC,
            8 => CodecID::RealH263,
            12 => CodecID::Hevc,
            c => CodecID::Unknown(c),
        }
    }
}

impl vstd::std_specs::convert::FromSpecImpl<u8> for CodecID {
    open spec fn obeys_from_spec() -> bool {
        true
    }

    open spec fn from_spec(value: u8) -> Self {
        Self::from_code(value)
    }
}

/// The packet type of an H.264 or H.265 tag with a plain header.
#[allow(clippy::upper_case_acronyms)]
#[derive(Copy, Clone, Debug, Eq, PartialEq, Structural)]
pub enum AvcPacketType {
    /// 0, a configuration record
    SequenceHeader,
    /// 1, a sequence of NAL units
    NALU,
    /// 2
    EndOfSequence,
    /// Any other code.
    Unknown(u8),
}

impl From<u8> for AvcPacketType {
    fn from(value: u8) -> (r: Self) {
        match value {
            0 => AvcPacketType::SequenceHeader,
            1 => AvcPacketType::NALU,
            2 => AvcPacketType::EndOfSequence,
            t => AvcPacketType::Unknown(t),
        }
    }
}

impl AvcPacketType {
    /// The variant that the code `value` stands for.
    pub open spec fn from_code(value: u8) -> Self {
        match value {
            0 => AvcPacketType::SequenceHeader,
            1 => AvcPacketType::NALU,
            2 => AvcPacketType::EndOfSequence,
            t => AvcPacketType::Unknown(t),
        }
    }
}

impl vstd::std_specs::convert::FromSpecImpl<u8> for AvcPacketType {
    open spec fn obeys_from_spec() -> bool {
        true
    }

    open spec fn from_spec(value: u8) -> Self {
        Self::from_code(value)
    }
}

} // verus!

