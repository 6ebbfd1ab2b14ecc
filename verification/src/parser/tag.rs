//! Decoders for tag headers and tag payloads.

use crate::error::Error;
use crate::parser::tag::audio::spec_audio_tag;
use crate::parser::tag::meta::spec_meta_tag;
use crate::parser::tag::video::spec_video_tag;
use crate::parser::FlvParser;
use crate::reader::be24;
use crate::reader::FlvReader;
use crate::tag::FlvTag;
use crate::tag::FlvTagData;
use crate::tag::FlvTagDataView;
use crate::tag::FlvTagHeader;
use crate::tag::FlvTagType;
use crate::tag::FlvTagView;
use vstd::prelude::*;

pub mod audio;
pub mod ex_data;
pub mod meta;
pub mod video;

verus! {

/// The tag header at the front of `s`, and the bytes after it: the tag type
/// in the low five bits of the first byte, a 24-bit payload size, the low 24
/// bits of the timestamp, its high eight bits, and a 24-bit stream id.
pub open spec fn spec_tag_header(s: Seq<u8>) -> Result<(FlvTagHeader, Seq<u8>), Error> {
    if s.len() < 11 {
        Err(Error::Truncated)
    } else {
        Ok(
            (
                FlvTagHeader {
                    tag_type: FlvTagType::from_code(s[0] & 0b11111),
                    data_size: be24(s.skip(1)) as u32,
                    timestamp: (s[7] * 0x100_0000 + be24(s.skip(4))) as u32,
                    stream_id: be24(s.skip(8)) as u32,
                },
                s.skip(11),
            ),
        )
    }
}

/// The fields of a tag header are as wide as the header has bits for them:
/// five bits of tag type, 24 bits of payload size, 24 bits of stream id.
pub proof fn lemma_tag_header_bounds(s: Seq<u8>)
    requires
        s.len() >= 11,
    ensures
        spec_tag_header(s) is Ok,
        spec_tag_header(s)->Ok_0.0.tag_type.code() < 32,
        spec_tag_header(s)->Ok_0.0.data_size < 0x100_0000,
        spec_tag_header(s)->Ok_0.0.stream_id < 0x100_0000,
{
    let first = s[0];
    assert(first & 0b11111 < 32) by (bit_vector);
}

/// The payload `s` of a tag of type `tag_type`, decoded by a parser that
/// remembers the NAL unit length width `width`: the data, the width
/// remembered afterwards, and the bytes that were not used. A payload of
/// unknown type is not looked at.
pub open spec fn spec_flv_data(width: u8, tag_type: FlvTagType, s: Seq<u8>) -> Result<
    (FlvTagDataView, u8, Seq<u8>),
    Error,
> {
    match tag_type {
        FlvTagType::Audio => match spec_audio_tag(s) {
            Err(e) => Err(e),
            Ok((tag, rest)) => Ok((FlvTagDataView::Audio(tag), width, rest)),
        },
        FlvTagType::Video => match spec_video_tag(width, s) {
            Err(e) => Err(e),
            Ok((tag, after, rest)) => Ok((FlvTagDataView::Video(tag), after, rest)),
        },
        FlvTagType::Metadata => match spec_meta_tag(s) {
            Err(e) => Err(e),
            Ok((tag, rest)) => Ok((FlvTagDataView::Meta(tag), width, rest)),
        },
        FlvTagType::Unknown(_) => Ok((FlvTagDataView::Unknown, width, s)),
    }
}

/// The tag at the front of `s`: a tag header and, decoded from everything
/// after it, the payload.
pub open spec fn spec_tag(width: u8, s: Seq<u8>) -> Result<(FlvTagView, u8, Seq<u8>), Error> {
    match spec_tag_header(s) {
        Err(e) => Err(e),
        Ok((header, body)) => match spec_flv_data(width, header.tag_type, body) {
            Err(e) => Err(e),
            Ok((data, after, rest)) => Ok((FlvTagView { header, data }, after, rest)),
        },
    }
}

impl FlvParser {
    /// Decodes the eleven-byte header of a tag.
    pub fn parse_tag_header<R: FlvReader>(&mut self, reader: &mut R) -> (r: Result<
        FlvTagHeader,
        Error,
    >)
        ensures
            match spec_tag_header(old(reader).pending()) {
                Ok((header, rest)) => r == Ok::<FlvTagHeader, Error>(header) && final(
                    reader
                ).pending() == rest,
                Err(e) => r == Err::<FlvTagHeader, Error>(e),
            },
            final(self).nalu_length() == old(self).nalu_length(),
    {
        let flags: u8 = reader.read_u8()?;
        let tag_type: FlvTagType = FlvTagType::from(flags & 0b11111);
        // the size of the payload
        let data_size: u32 = reader.read_u24()?;
        // the timestamp in milliseconds, low 24 bits first
        let timestamp: u32 = reader.read_u24()?;
        let timestamp_extended: u8 = reader.read_u8()?;
        let stream_id: u32 = reader.read_u24()?;
        Ok(
            FlvTagHeader {
                tag_type,
                data_size,
                timestamp: timestamp_extended as u32 * 0x100_0000 + timestamp,
                stream_id,
            },
        )
    }

    /// Decodes the payload of a tag of type `tag_type`.
    pub fn parse_flv_data<R: FlvReader>(&mut self, reader: &mut R, tag_type: FlvTagType) -> (r:
        Result<FlvTagData, Error>)
        ensures
            match spec_flv_data(old(self).nalu_length(), tag_type, old(reader).pending()) {
                Ok((data, width, rest)) => r is Ok && r->Ok_0@ == data && final(
                    self
                ).nalu_length() == width && final(reader).pending() == rest,
                Err(e) => r is Err && r->Err_0 == e && final(self).nalu_length() == old(
                    self,
                ).nalu_length(),
            },
    {
        Ok(
            match tag_type {
                FlvTagType::Audio => FlvTagData::Audio(self.parse_audio_tag(reader)?),
                FlvTagType::Video => FlvTagData::Video(self.parse_video_tag(reader)?),
                FlvTagType::Metadata => FlvTagData::Meta(self.parse_meta_tag(reader)?),
                FlvTagType::Unknown(_) => FlvTagData::Unknown,
            },
        )
    }

    /// Decodes a tag: its header and, from everything after it, its payload.
    pub fn parse_tag<R: FlvReader>(&mut self, reader: &mut R) -> (r: Result<FlvTag, Error>)
        ensures
            match spec_tag(old(self).nalu_length(), old(reader).pending()) {
                Ok((tag, width, rest)) => r is Ok && r->Ok_0@ == tag && final(self).nalu_length()
                    == width && final(reader).pending() == rest,
                Err(e) => r is Err && r->Err_0 == e && final(self).nalu_length() == old(
                    self,
                ).nalu_length(),
            },
    {
        let header: FlvTagHeader = self.parse_tag_header(reader)?;
        let data: FlvTagData = self.parse_flv_data(reader, header.tag_type)?;
        Ok(FlvTag { header, data })
    }
}

} // verus!
