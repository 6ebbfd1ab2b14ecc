//! Tags: the records that make up the body of a container.

use vstd::prelude::*;

pub mod audio;
pub mod meta;
pub mod video;

verus! {

/// One record of the container: its header and the decoded payload.
#[derive(Clone, Debug, PartialEq)]
pub struct FlvTag {
    /// The header part of the tag.
    pub header: FlvTagHeader,
    /// The payload, decoded according to the header's tag type.
    pub data: FlvTagData,
}

/// What a [`FlvTag`] stands for, with every buffer replaced by its bytes.
pub struct FlvTagView {
    pub header: FlvTagHeader,
    pub data: FlvTagDataView,
}

impl View for FlvTag {
    type V = FlvTagView;

    open spec fn view(&self) -> FlvTagView {
        FlvTagView { header: self.header, data: self.data@ }
    }
}

/// The kind of a tag.
#[derive(Copy, Clone, Debug, Eq, PartialEq, Structural)]
pub enum FlvTagType {
    /// Audio, code 8.
    Audio,
    /// Video, code 9.
    Video,
    /// Script data, code 18.
    Metadata,
    /// Any other code.
    Unknown(u8),
}

impl From<u8> for FlvTagType {
    fn from(value: u8) -> (r: Self) {
        match value {
            8 => FlvTagType::Audio,
            9 => FlvTagType::Video,
            18 => FlvTagType::Metadata,
            t => FlvTagType::Unknown(t),
        }
    }
}

impl FlvTagType {
    /// The variant that the code `value` stands for.
    pub open spec fn from_code(value: u8) -> Self {
        match value {
            8 => FlvTagType::Audio,
            9 => FlvTagType::Video,
            18 => FlvTagType::Metadata,
            t => FlvTagType::Unknown(t),
        }
    }
}

impl vstd::std_specs::convert::FromSpecImpl<u8> for FlvTagType {
    open spec fn obeys_from_spec() -> bool {
        true
    }

    open spec fn from_spec(value: u8) -> Self {
        Self::from_code(value)
    }
}

impl From<FlvTagType> for u8 {
    fn from(value: FlvTagType) -> (r: Self) {
        match value {
            FlvTagType::Audio => 8,
            FlvTagType::Video => 9,
            FlvTagType::Metadata => 18,
            FlvTagType::Unknown(v) => v,
        }
    }
}

impl FlvTagType {
    /// The code that stands for the tag type.
    pub open spec fn code(self) -> u8 {
        match self {
            FlvTagType::Audio => 8,
            FlvTagType::Video => 9,
            FlvTagType::Metadata => 18,
            FlvTagType::Unknown(v) => v,
        }
    }
}

impl vstd::std_specs::convert::FromSpecImpl<FlvTagType> for u8 {
    open spec fn obeys_from_spec() -> bool {
        true
    }

    open spec fn from_spec(value: FlvTagType) -> Self {
        value.code()
    }
}

/// The header that precedes every payload.
#[derive(Copy, Clone, Debug, Eq, PartialEq, Structural)]
pub struct FlvTagHeader {
    /// The kind of payload, from the low five bits of the first byte.
    pub tag_type: FlvTagType,
    /// Length of the payload in bytes (24 bits).
    pub data_size: u32,
    /// Decode time in milliseconds: 24 low bits and an 8-bit extension on top.
    pub timestamp: u32,
    /// Stream id (24 bits), zero in practice.
    pub stream_id: u32,
}

/// The decoded payload of a tag.
#[derive(Clone, Debug, PartialEq)]
pub enum FlvTagData {
    /// Audio payload.
    Audio(audio::AudioTag),
    /// Video payload.
    Video(video::VideoTag),
    /// Script data payload.
    Meta(meta::MetaTag),
    /// Payload of a tag whose kind is not known; it is not interpreted.
    Unknown,
}

} // verus!

verus! {

/// What a [`FlvTagData`] stands for, with every buffer replaced by its bytes.
pub enum FlvTagDataView {
    Audio(audio::AudioTagView),
    Video(video::VideoTagView),
    Meta(meta::MetaTagView),
    Unknown,
}

impl View for FlvTagData {
    type V = FlvTagDataView;

    open spec fn view(&self) -> FlvTagDataView {
        match self {
            FlvTagData::Audio(tag) => FlvTagDataView::Audio(tag@),
            FlvTagData::Video(tag) => FlvTagDataView::Video(tag@),
            FlvTagData::Meta(tag) => FlvTagDataView::Meta(tag@),
            FlvTagData::Unknown => FlvTagDataView::Unknown,
        }
    }
}

} // verus!
