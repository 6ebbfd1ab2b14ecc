//! Decoders for the container header, tag headers and tag payloads.

use crate::error::Error;
use crate::header::FlvHeader;
use crate::reader::be32;
use crate::reader::be_bytes;
use crate::reader::lemma_be_bytes_read_back;
use crate::reader::FlvReader;
use crate::tag::video::mpeg4_avc::Mpeg4AvcParser;
use vstd::prelude::*;

pub mod tag;

verus! {

/// Decoder for everything a container holds. Between video tags it remembers
/// the NAL unit length width that the last configuration record declared.
#[derive(Debug, Clone)]
pub struct FlvParser {
    mpeg4_avc_parser: Option<Mpeg4AvcParser>,
}

/// The container header at the front of `s`, and the bytes after it.
pub open spec fn spec_flv_header(s: Seq<u8>) -> Result<(FlvHeader, Seq<u8>), Error> {
    if s.len() < 3 {
        Err(Error::Truncated)
    } else if !(s[0] == 0x46 && s[1] == 0x4c && s[2] == 0x56) {
        Err(Error::InvalidSignature)
    } else if s.len() < 9 {
        Err(Error::Truncated)
    } else {
        let body_offset = be32(s.skip(5));
        Ok(
            (
                FlvHeader {
                    version: s[3],
                    is_audio_present: s[4] & 0b0000_0100 != 0,
                    is_video_present: s[4] & 0b0000_0001 != 0,
                    remaining: if body_offset >= 9 {
                        (body_offset - 9) as u32
                    } else {
                        0
                    },
                },
                s.skip(9),
            ),
        )
    }
}

/// The nine bytes of the container header that `header` was decoded from,
/// with no flag set but those for audio and video.
pub open spec fn flv_header_bytes(header: FlvHeader) -> Seq<u8> {
    let audio: int = if header.is_audio_present {
        4
    } else {
        0
    };
    let video: int = if header.is_video_present {
        1
    } else {
        0
    };
    seq![0x46u8, 0x4cu8, 0x56u8, header.version, (audio + video) as u8] + be_bytes(
        header.remaining + 9,
        4,
    )
}

/// Decoding the bytes of a container header gives the header back and leaves
/// what follows them.
pub proof fn lemma_flv_header_round_trip(header: FlvHeader, rest: Seq<u8>)
    requires
        header.remaining + 9 <= u32::MAX,
    ensures
        spec_flv_header(flv_header_bytes(header) + rest) == Ok::<(FlvHeader, Seq<u8>), Error>(
            (header, rest),
        ),
{
    let s = flv_header_bytes(header) + rest;
    lemma_be_bytes_read_back(header.remaining + 9, 4, rest);
    assert(s.skip(9) =~= rest);
    assert(4u8 & 0b0000_0100 != 0 && 4u8 & 0b0000_0001 == 0) by (bit_vector);
    assert(5u8 & 0b0000_0100 != 0 && 5u8 & 0b0000_0001 != 0) by (bit_vector);
    assert(1u8 & 0b0000_0100 == 0 && 1u8 & 0b0000_0001 != 0) by (bit_vector);
    assert(0u8 & 0b0000_0100 == 0 && 0u8 & 0b0000_0001 == 0) by (bit_vector);
}

/// A container header that starts with `FLV` is decoded into exactly its
/// version, its two flags and its body offset less the nine bytes of the
/// header itself, and what follows it is left.
pub proof fn lemma_flv_header_fields(version: u8, flags: u8, body_offset: u32, rest: Seq<u8>)
    ensures
        spec_flv_header(
            seq![0x46u8, 0x4cu8, 0x56u8, version, flags] + be_bytes(body_offset as int, 4) + rest,
        ) == Ok::<(FlvHeader, Seq<u8>), Error>(
            (
                FlvHeader {
                    version,
                    is_audio_present: flags & 0b0000_0100 != 0,
                    is_video_present: flags & 0b0000_0001 != 0,
                    remaining: if body_offset >= 9 {
                        (body_offset - 9) as u32
                    } else {
                        0
                    },
                },
                rest,
            ),
        ),
{
    let front = seq![0x46u8, 0x4cu8, 0x56u8, version, flags];
    let s = front + be_bytes(body_offset as int, 4) + rest;
    lemma_be_bytes_read_back(body_offset as int, 4, rest);
    assert(s.skip(9) =~= rest);
}

/// Bytes that do not start with `FLV` are refused for their signature,
/// whatever follows the first three.
pub proof fn lemma_flv_header_signature(s: Seq<u8>)
    requires
        s.len() >= 3,
        s.take(3) != seq![0x46u8, 0x4cu8, 0x56u8],
    ensures
        spec_flv_header(s) == Err::<(FlvHeader, Seq<u8>), Error>(Error::InvalidSignature),
{
    if s[0] == 0x46 && s[1] == 0x4c && s[2] == 0x56 {
        assert(s.take(3) =~= seq![0x46u8, 0x4cu8, 0x56u8]);
    }
}

impl Default for FlvParser {
    fn default() -> (r: Self)
        ensures
            r.nalu_length() == 0,
    {
        FlvParser { mpeg4_avc_parser: None }
    }
}

impl FlvParser {
    /// A parser that has seen no configuration record yet.
    pub fn new() -> (r: Self)
        ensures
            r.nalu_length() == 0,
    {
        FlvParser { mpeg4_avc_parser: None }
    }

    /// The NAL unit length width that the parser remembers; zero before the
    /// first configuration record.
    pub closed spec fn nalu_length(&self) -> u8 {
        match self.mpeg4_avc_parser {
            Some(p) => p.nalu_length,
            None => 0,
        }
    }

    /// Decodes the nine-byte container header.
    pub fn parse_header<R: FlvReader>(&mut self, reader: &mut R) -> (r: Result<FlvHeader, Error>)
        ensures
            match spec_flv_header(old(reader).pending()) {
                Ok((header, rest)) => r == Ok::<FlvHeader, Error>(header) && final(reader).pending()
                    == rest,
                Err(e) => r == Err::<FlvHeader, Error>(e),
            },
            final(self).nalu_length() == old(self).nalu_length(),
    {
        let mut signature: [u8; 3] = [0u8; 3];
        reader.read_to_slice(&mut signature)?;
        if !(signature[0] == 0x46 && signature[1] == 0x4c && signature[2] == 0x56) {
            return Err(Error::InvalidSignature);
        }
        let version: u8 = reader.read_u8()?;
        let flags: u8 = reader.read_u8()?;
        let is_audio_present: bool = (flags & 0b0000_0100) != 0;
        let is_video_present: bool = (flags & 0b0000_0001) != 0;
        let data_offset: u32 = reader.read_u32()?;
        // the prologue itself takes nine bytes of the declared offset
        let remaining: u32 = if data_offset >= 9 {
            data_offset - 9
        } else {
            0
        };
        Ok(FlvHeader { version, is_audio_present, is_video_present, remaining })
    }
}

} // verus!
