//! Video payloads: plain and extended headers, track fields and coded data.

use crate::error::Error;
use crate::fourcc::Fourcc;
use crate::fourcc::VIDEO_AVC;
use crate::fourcc::VIDEO_HEVC;
use crate::fourcc::VIDEO_REAL_H263;
use crate::fourcc::VIDEO_SCREEN1;
use crate::fourcc::VIDEO_SCREEN2;
use crate::fourcc::VIDEO_SORENSON_H263;
use crate::fourcc::VIDEO_VP6;
use crate::fourcc::VIDEO_VP6_ALPHA;
use crate::parser::tag::ex_data::spec_packet_ex_data;
use crate::parser::FlvParser;
use crate::reader::be24;
use crate::reader::be32;
use crate::reader::contents;
use crate::reader::signed24;
use crate::reader::FlvReader;
use crate::tag::video::mpeg4_avc::spec_avc_record;
use crate::tag::video::mpeg4_avc::spec_nalu_seq;
use crate::tag::video::mpeg4_avc::Mpeg4AvcNALUSeq;
use crate::tag::video::mpeg4_avc::Mpeg4AvcParser;
use crate::tag::video::mpeg4_avc::Mpeg4AvcRecord;
use crate::tag::video::AvMultitrackType;
use crate::tag::video::AvcPacketType;
use crate::tag::video::CodecID;
use crate::tag::video::PacketExData;
use crate::tag::video::VideoFrameType;
use crate::tag::video::VideoPacketType;
use crate::tag::video::VideoTag;
use crate::tag::video::VideoTagBody;
use crate::tag::video::VideoTagHeader;
use crate::tag::video::VideoTagView;
use bytes::Bytes;
use vstd::prelude::*;

verus! {

/// The identifier that stands for a codec of the plain header encoding.
pub open spec fn legacy_fourcc(codec: CodecID) -> Fourcc {
    match codec {
        CodecID::SorensonH263 => Fourcc(VIDEO_SORENSON_H263),
        CodecID::Screen1 => Fourcc(VIDEO_SCREEN1),
        CodecID::VP6 => Fourcc(VIDEO_VP6),
        CodecID::VP6Alpha => Fourcc(VIDEO_VP6_ALPHA),
        CodecID::Screen2 => Fourcc(VIDEO_SCREEN2),
        CodecID::AVC => Fourcc(VIDEO_AVC),
        CodecID::RealH263 => Fourcc(VIDEO_REAL_H263),
        CodecID::Hevc => Fourcc(VIDEO_HEVC),
        CodecID::Unknown(_) => Fourcc(0),
    }
}

/// Walks the chain of modifier records at the front of `s`: as long as the
/// subtype is `ModEx`, one record follows and names the next subtype. Gives
/// the first subtype that is not `ModEx` and the bytes after the chain.
pub open spec fn spec_resolve_mod_ex(pkt_type: VideoPacketType, s: Seq<u8>) -> Result<
    (VideoPacketType, Seq<u8>),
    Error,
>
    decreases s.len(),
{
    if pkt_type != VideoPacketType::ModEx {
        Ok((pkt_type, s))
    } else {
        match spec_packet_ex_data(s) {
            Err(e) => Err(e),
            Ok((record, rest)) => spec_resolve_mod_ex(record.pkt_type, rest),
        }
    }
}

/// The video header at the front of `s`, and the bytes after it.
///
/// The top bit of the first byte tells the extended encoding from the plain
/// one, bits 4 to 6 are the frame type and the low four bits the subtype. A
/// plain header ends there, and its low four bits also name the codec. An
/// extended header goes on with the chain of modifier records and then with
/// a command byte (command frames, unless the subtype is `Metadata`), or
/// with the multitrack kind and, unless every track names its own codec, a
/// codec identifier (subtype `Multitrack`), or with a codec identifier alone.
pub open spec fn spec_video_tag_header(s: Seq<u8>) -> Result<(VideoTagHeader, Seq<u8>), Error> {
    if s.len() < 1 {
        Err(Error::Truncated)
    } else {
        let frame_type = VideoFrameType::from_code((s[0] & 0x70) >> 4);
        let first_type = VideoPacketType::from_code(s[0] & 0x0f);
        if (s[0] >> 7) & 1 == 0 {
            Ok(
                (
                    VideoTagHeader {
                        frame_type,
                        pkt_type: first_type,
                        multitrack: false,
                        fourcc: legacy_fourcc(CodecID::from_code(s[0] & 0x0f)),
                        has_body: true,
                        multitrack_type: AvMultitrackType::OneTrack,
                        enhanced: false,
                    },
                    s.skip(1),
                ),
            )
        } else {
            match spec_resolve_mod_ex(first_type, s.skip(1)) {
                Err(e) => Err(e),
                Ok((pkt_type, rest)) => {
                    let header = VideoTagHeader {
                        frame_type,
                        pkt_type,
                        multitrack: false,
                        fourcc: Fourcc(0),
                        has_body: true,
                        multitrack_type: AvMultitrackType::OneTrack,
                        enhanced: true,
                    };
                    if pkt_type != VideoPacketType::Metadata && frame_type
                        == VideoFrameType::Command {
                        if rest.len() < 1 {
                            Err(Error::Truncated)
                        } else {
                            Ok((VideoTagHeader { has_body: false, ..header }, rest.skip(1)))
                        }
                    } else if pkt_type == VideoPacketType::Multitrack {
                        if rest.len() < 1 {
                            Err(Error::Truncated)
                        } else {
                            let kind = AvMultitrackType::from_code(rest[0]);
                            if kind == AvMultitrackType::ManyTracksManyCodecs {
                                Ok(
                                    (
                                        VideoTagHeader {
                                            multitrack: true,
                                            multitrack_type: kind,
                                            ..header
                                        },
                                        rest.skip(1),
                                    ),
                                )
                            } else if rest.len() < 5 {
                                Err(Error::Truncated)
                            } else {
                                Ok(
                                    (
                                        VideoTagHeader {
                                            multitrack: true,
                                            multitrack_type: kind,
                                            fourcc: Fourcc(be32(rest.skip(1)) as u32),
                                            ..header
                                        },
                                        rest.skip(5),
                                    ),
                                )
                            }
                        }
                    } else if rest.len() < 4 {
                        Err(Error::Truncated)
                    } else {
                        Ok(
                            (
                                VideoTagHeader { fourcc: Fourcc(be32(rest) as u32), ..header },
                                rest.skip(4),
                            ),
                        )
                    }
                },
            }
        }
    }
}

/// The track fields that follow an extended header: a codec identifier
/// where every track names its own codec, the track id, and, unless the tag
/// holds one track only, the 24-bit size of the track's data, which is passed
/// over. Gives the codec identifier in force, the track id and the bytes
/// after the fields.
pub open spec fn spec_track_fields(header: VideoTagHeader, s: Seq<u8>) -> Result<
    (Fourcc, u8, Seq<u8>),
    Error,
> {
    let codec_len: int = if header.multitrack_type == AvMultitrackType::ManyTracksManyCodecs {
        4
    } else {
        0
    };
    let size_len: int = if header.multitrack_type != AvMultitrackType::OneTrack {
        3
    } else {
        0
    };
    if s.len() < codec_len + 1 + size_len {
        Err(Error::Truncated)
    } else {
        Ok(
            (
                if codec_len == 4 {
                    Fourcc(be32(s) as u32)
                } else {
                    header.fourcc
                },
                s[codec_len],
                s.skip(codec_len + 1 + size_len),
            ),
        )
    }
}

/// What follows an extended header `header` in `s`: the track fields, then,
/// for coded frames of H.264 or H.265, a signed 24-bit presentation time
/// offset and the rest as one unit; for other coded frames the rest as one
/// unit; for every other subtype nothing.
pub open spec fn spec_enhanced_body(header: VideoTagHeader, s: Seq<u8>) -> Result<
    (VideoTagView, Seq<u8>),
    Error,
> {
    match spec_track_fields(header, s) {
        Err(e) => Err(e),
        Ok((fourcc, track_id, rest)) => {
            let tag = VideoTagView {
                header: VideoTagHeader { fourcc, ..header },
                track_id,
                pts_offset: 0,
                param_count: 0,
                nalus: Seq::empty(),
            };
            if header.pkt_type == VideoPacketType::CodedFrames && (fourcc == Fourcc(VIDEO_AVC)
                || fourcc == Fourcc(VIDEO_HEVC)) {
                if rest.len() < 3 {
                    Err(Error::Truncated)
                } else {
                    Ok(
                        (
                            VideoTagView {
                                pts_offset: signed24(be24(rest)) as i32,
                                nalus: seq![rest.skip(3)],
                                ..tag
                            },
                            Seq::empty(),
                        ),
                    )
                }
            } else if header.pkt_type == VideoPacketType::CodedFrames || header.pkt_type
                == VideoPacketType::CodedFramesX {
                Ok((VideoTagView { nalus: seq![rest], ..tag }, Seq::empty()))
            } else {
                Ok((tag, rest))
            }
        },
    }
}

/// What follows a plain header `header` in `s`, for a parser that remembers
/// the NAL unit length width `width`; the result holds the width remembered
/// afterwards.
///
/// For H.264 and H.265: a packet type, a signed 24-bit presentation time
/// offset and then, by packet type, a configuration record, whose parameter
/// sets become the units (sequence sets first) and are all counted as
/// parameters, or a NAL unit sequence, or nothing. For any other codec the
/// rest is one unit.
pub open spec fn spec_legacy_body(width: u8, header: VideoTagHeader, s: Seq<u8>) -> Result<
    (VideoTagView, u8, Seq<u8>),
    Error,
> {
    let tag = VideoTagView {
        header,
        track_id: 0,
        pts_offset: 0,
        param_count: 0,
        nalus: Seq::empty(),
    };
    if header.fourcc == Fourcc(VIDEO_AVC) || header.fourcc == Fourcc(VIDEO_HEVC) {
        if s.len() < 4 {
            Err(Error::Truncated)
        } else {
            let timed = VideoTagView {
                pts_offset: signed24(be24(s.skip(1))) as i32,
                ..tag
            };
            match AvcPacketType::from_code(s[0]) {
                AvcPacketType::SequenceHeader => match spec_avc_record(s.skip(4)) {
                    Err(e) => Err(e),
                    Ok((record, rest)) => Ok(
                        (
                            VideoTagView {
                                param_count: (record.sps.len() + record.pps.len()) as u32,
                                nalus: record.sps + record.pps,
                                ..timed
                            },
                            record.nalu_length,
                            rest,
                        ),
                    ),
                },
                AvcPacketType::NALU => match spec_nalu_seq(width, s.skip(4)) {
                    Err(e) => Err(e),
                    Ok((nalus, rest)) => Ok((VideoTagView { nalus, ..timed }, width, rest)),
                },
                _ => Ok((timed, width, s.skip(4))),
            }
        }
    } else {
        Ok((VideoTagView { nalus: seq![s], ..tag }, width, Seq::empty()))
    }
}

/// The video payload at the front of `s`, for a parser that remembers the
/// NAL unit length width `width`: the tag, the width remembered afterwards
/// and the bytes that were not used.
pub open spec fn spec_video_tag(width: u8, s: Seq<u8>) -> Result<
    (VideoTagView, u8, Seq<u8>),
    Error,
> {
    match spec_video_tag_header(s) {
        Err(e) => Err(e),
        Ok((header, rest)) => {
            if header.enhanced {
                match spec_enhanced_body(header, rest) {
                    Err(e) => Err(e),
                    Ok((tag, unused)) => Ok((tag, width, unused)),
                }
            } else {
                spec_legacy_body(width, header, rest)
            }
        },
    }
}

impl FlvParser {
    /// Walks the chain of modifier records and returns the subtype it ends
    /// with.
    fn resolve_mod_ex<R: FlvReader>(&mut self, first: VideoPacketType, reader: &mut R) -> (r:
        Result<VideoPacketType, Error>)
        ensures
            match spec_resolve_mod_ex(first, old(reader).pending()) {
                Ok((pkt_type, rest)) => r == Ok::<VideoPacketType, Error>(pkt_type) && final(reader).pending() == rest,
                Err(e) => r == Err::<VideoPacketType, Error>(e),
            },
            final(self).nalu_length() == old(self).nalu_length(),
    {
        let ghost s0 = old(reader).pending();
        let mut pkt_type: VideoPacketType = first;
        while pkt_type == VideoPacketType::ModEx
            invariant
                s0 == old(reader).pending(),
                self.nalu_length() == old(self).nalu_length(),
                spec_resolve_mod_ex(first, s0) == spec_resolve_mod_ex(pkt_type, reader.pending()),
            decreases reader.pending().len(),
        {
            let ex_data: PacketExData = self.parse_packet_ex_data(reader)?;
            pkt_type = ex_data.pkt_type;
        }
        Ok(pkt_type)
    }

    /// Decodes the header of a video payload.
    pub fn parse_video_tag_header<R: FlvReader>(&mut self, reader: &mut R) -> (r: Result<
        VideoTagHeader,
        Error,
    >)
        ensures
            match spec_video_tag_header(old(reader).pending()) {
                Ok((header, rest)) => r == Ok::<VideoTagHeader, Error>(header) && final(reader).pending() == rest,
                Err(e) => r == Err::<VideoTagHeader, Error>(e),
            },
            final(self).nalu_length() == old(self).nalu_length(),
    {
        let header: u8 = reader.read_u8()?;
        let frame_type: VideoFrameType = VideoFrameType::from((header & 0x70) >> 4);
        let enhanced: bool = (header >> 7) & 1 > 0;
        let mut fourcc: Fourcc = Fourcc::default();
        let mut multitrack: bool = false;
        let mut has_body: bool = true;
        let mut multitrack_type: AvMultitrackType = AvMultitrackType::OneTrack;
        let mut pkt_type: VideoPacketType = VideoPacketType::from(header & 0x0f);
        if enhanced {
            pkt_type = self.resolve_mod_ex(pkt_type, reader)?;
            if pkt_type != VideoPacketType::Metadata && frame_type == VideoFrameType::Command {
                let _: u8 = reader.read_u8()?;
                // a command frame carries no video data
                has_body = false;
            } else if pkt_type == VideoPacketType::Multitrack {
                multitrack = true;
                multitrack_type = AvMultitrackType::from(reader.read_u8()?);
                if multitrack_type != AvMultitrackType::ManyTracksManyCodecs {
                    fourcc = Fourcc::from(reader.read_u32()?);
                }
            } else {
                fourcc = Fourcc::from(reader.read_u32()?);
            }
        } else {
            fourcc =
            match CodecID::from(header & 0x0f) {
                CodecID::SorensonH263 => Fourcc(VIDEO_SORENSON_H263),
                CodecID::Screen1 => Fourcc(VIDEO_SCREEN1),
                CodecID::VP6 => Fourcc(VIDEO_VP6),
                CodecID::VP6Alpha => Fourcc(VIDEO_VP6_ALPHA),
                CodecID::Screen2 => Fourcc(VIDEO_SCREEN2),
                CodecID::AVC => Fourcc(VIDEO_AVC),
                CodecID::RealH263 => Fourcc(VIDEO_REAL_H263),
                CodecID::Hevc => Fourcc(VIDEO_HEVC),
                CodecID::Unknown(_) => Fourcc::default(),
            };
        }
        Ok(
            VideoTagHeader {
                pkt_type,
                multitrack,
                has_body,
                multitrack_type,
                fourcc,
                frame_type,
                enhanced,
            },
        )
    }

    /// Decodes a video payload.
    pub fn parse_video_tag<R: FlvReader>(&mut self, reader: &mut R) -> (r: Result<VideoTag, Error>)
        ensures
            match spec_video_tag(old(self).nalu_length(), old(reader).pending()) {
                Ok((tag, width, rest)) => r is Ok && r->Ok_0@ == tag && final(self).nalu_length()
                    == width && final(reader).pending() == rest,
                Err(e) => r is Err && r->Err_0 == e && final(self).nalu_length() == old(
                    self,
                ).nalu_length(),
            },
    {
        let mut header: VideoTagHeader = self.parse_video_tag_header(reader)?;
        let mut track_id: u8 = 0;
        let mut pts_offset: i32 = 0;
        let mut param_count: u32 = 0;
        let mut nalus: Vec<Bytes> = Vec::new();
        assert(contents(nalus@) =~= Seq::<Seq<u8>>::empty());
        if header.enhanced {
            if header.multitrack_type == AvMultitrackType::ManyTracksManyCodecs {
                // every track names its own codec
                header.fourcc = Fourcc::from(reader.read_u32()?);
            }
            // zero is the default track; higher ids stand for tracks of
            // lesser priority
            track_id = reader.read_u8()?;
            if header.multitrack_type != AvMultitrackType::OneTrack {
                // the size of this track's data, from which the next track
                // could be found
                let _: u32 = reader.read_u24()?;
            }
            match header.pkt_type {
                VideoPacketType::CodedFrames => {
                    if header.fourcc == Fourcc(VIDEO_AVC) || header.fourcc == Fourcc(VIDEO_HEVC) {
                        // the composition time offset, in milliseconds
                        pts_offset = reader.read_i24()?;
                    }
                    let unit: Bytes = reader.read_to_end()?;
                    nalus.push(unit);
                    assert(contents(nalus@) =~= seq![unit.pending()]);
                },
                VideoPacketType::CodedFramesX => {
                    let unit: Bytes = reader.read_to_end()?;
                    nalus.push(unit);
                    assert(contents(nalus@) =~= seq![unit.pending()]);
                },
                _ => {},
            }
        } else if header.fourcc == Fourcc(VIDEO_AVC) || header.fourcc == Fourcc(VIDEO_HEVC) {
            let mut avc: Mpeg4AvcParser = match &self.mpeg4_avc_parser {
                Some(p) => Mpeg4AvcParser { nalu_length: p.nalu_length },
                None => Mpeg4AvcParser::default(),
            };
            let ghost body = reader.pending();
            let packet_type: AvcPacketType = AvcPacketType::from(reader.read_u8()?);
            pts_offset = reader.read_i24()?;
            assert(reader.pending() =~= body.skip(4));
            match packet_type {
                AvcPacketType::SequenceHeader => {
                    let mut x: Mpeg4AvcRecord = avc.parse_record(reader)?;
                    let ghost sps = contents(x.sps@);
                    let ghost pps = contents(x.pps@);
                    param_count = x.sps.len() as u32 + x.pps.len() as u32;
                    nalus.append(&mut x.sps);
                    nalus.append(&mut x.pps);
                    assert(contents(nalus@) =~= sps + pps);
                },
                AvcPacketType::NALU => {
                    let x: Mpeg4AvcNALUSeq = avc.parse_nalu_seq(reader)?;
                    nalus = x.nalus;
                },
                _ => {},
            }
            self.mpeg4_avc_parser = Some(avc);
        } else {
            let unit: Bytes = reader.read_to_end()?;
            nalus.push(unit);
            assert(contents(nalus@) =~= seq![unit.pending()]);
        }
        Ok(VideoTag { header, track_id, body: VideoTagBody { pts_offset, param_count, nalus } })
    }
}

} // verus!
