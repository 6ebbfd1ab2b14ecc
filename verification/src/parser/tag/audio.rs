//! Audio payloads.

use crate::error::Error;
use crate::parser::FlvParser;
use crate::reader::decodes;
use crate::reader::FlvReader;
use crate::tag::audio::AudioTag;
use crate::tag::audio::AudioTagBody;
use crate::tag::audio::AudioTagHeader;
use crate::tag::audio::AudioTagView;
use crate::tag::audio::SoundFormat;
use crate::tag::audio::SoundRate;
use crate::tag::audio::SoundSize;
use crate::tag::audio::SoundType;
use vstd::prelude::*;

verus! {

/// The fields packed into the first byte `b` of an audio payload: format in
/// the top four bits, then two bits of rate, one of sample size, one of
/// channel layout.
pub open spec fn audio_header_of(b: u8) -> AudioTagHeader {
    AudioTagHeader {
        sound_format: SoundFormat::from_code(b >> 4),
        sound_rate: SoundRate::from_code((b >> 2) & 0b11),
        sound_size: SoundSize::from_code((b >> 1) & 1),
        sound_type: SoundType::from_code(b & 1),
    }
}

/// The audio header at the front of `s`, and the bytes after it.
pub open spec fn spec_audio_tag_header(s: Seq<u8>) -> Result<(AudioTagHeader, Seq<u8>), Error> {
    if s.len() < 1 {
        Err(Error::Truncated)
    } else {
        Ok((audio_header_of(s[0]), s.skip(1)))
    }
}

/// The audio payload that `s` is: the header byte, and everything after it
/// as data.
pub open spec fn spec_audio_tag(s: Seq<u8>) -> Result<(AudioTagView, Seq<u8>), Error> {
    if s.len() < 1 {
        Err(Error::Truncated)
    } else {
        Ok((AudioTagView { header: audio_header_of(s[0]), data: s.skip(1) }, Seq::empty()))
    }
}

impl FlvParser {
    /// Decodes the one-byte header of an audio payload.
    pub fn parse_audio_tag_header<R: FlvReader>(&mut self, reader: &mut R) -> (r: Result<
        AudioTagHeader,
        Error,
    >)
        ensures
            match spec_audio_tag_header(old(reader).pending()) {
                Ok((header, rest)) => r == Ok::<AudioTagHeader, Error>(header) && final(
                    reader
                ).pending() == rest,
                Err(e) => r == Err::<AudioTagHeader, Error>(e),
            },
            final(self).nalu_length() == old(self).nalu_length(),
    {
        let header: u8 = reader.read_u8()?;
        Ok(
            AudioTagHeader {
                sound_format: SoundFormat::from(header >> 4),
                sound_rate: SoundRate::from((header >> 2) & 0b11),
                sound_size: SoundSize::from((header >> 1) & 1),
                sound_type: SoundType::from(header & 1),
            },
        )
    }

    /// Takes everything that is left as the body of an audio payload.
    pub fn parse_audio_tag_body<R: FlvReader>(&mut self, reader: &mut R) -> (r: Result<
        AudioTagBody,
        Error,
    >)
        ensures
            r is Ok,
            r->Ok_0@ == old(reader).pending(),
            final(reader).pending() == Seq::<u8>::empty(),
            final(self).nalu_length() == old(self).nalu_length(),
    {
        Ok(AudioTagBody { data: reader.read_to_end()? })
    }

    /// Decodes an audio payload.
    pub fn parse_audio_tag<R: FlvReader>(&mut self, reader: &mut R) -> (r: Result<AudioTag, Error>)
        ensures
            decodes(spec_audio_tag(old(reader).pending()), r, final(reader).pending()),
            final(self).nalu_length() == old(self).nalu_length(),
    {
        let header: AudioTagHeader = self.parse_audio_tag_header(reader)?;
        let body: AudioTagBody = self.parse_audio_tag_body(reader)?;
        Ok(AudioTag { header, body })
    }
}

} // verus!
