//! Audio tags.

use crate::reader::bytes_content;
use crate::reader::FlvReader;
use bytes::Bytes;
use vstd::prelude::*;

verus! {

/// An audio payload: the one-byte header and the bytes after it.
#[derive(Clone, Debug, PartialEq)]
pub struct AudioTag {
    /// The fields packed into the first byte.
    pub header: AudioTagHeader,
    /// Everything after the first byte.
    pub body: AudioTagBody,
}

/// What an [`AudioTag`] stands for, with the buffer replaced by its bytes.
pub struct AudioTagView {
    pub header: AudioTagHeader,
    pub data: Seq<u8>,
}

impl View for AudioTag {
    type V = AudioTagView;

    open spec fn view(&self) -> AudioTagView {
        AudioTagView { header: self.header, data: bytes_content(self.body.data) }
    }
}

/// The fields of the first byte of an audio payload.
#[derive(Copy, Clone, Debug, Eq, PartialEq, Structural)]
pub struct AudioTagHeader {
    /// Bits 4 to 7.
    pub sound_format: SoundFormat,
    /// Bits 2 and 3.
    pub sound_rate: SoundRate,
    /// Bit 1.
    pub sound_size: SoundSize,
    /// Bit 0.
    pub sound_type: SoundType,
}

/// The uninterpreted bytes of an audio payload.
#[derive(Clone, Debug, PartialEq)]
pub struct AudioTagBody {
    pub data: Bytes,
}

impl View for AudioTagBody {
    type V = Seq<u8>;

    open spec fn view(&self) -> Seq<u8> {
        bytes_content(self.data)
    }
}

/// The audio format.
#[allow(clippy::upper_case_acronyms)]
#[allow(non_camel_case_types)]
#[derive(Copy, Clone, Debug, Eq, PartialEq, Structural)]
pub enum SoundFormat {
    /// 0
    PcmPlatformEndian,
    /// 1
    ADPCM,
    /// 2
    MP3,
    /// 3
    PcmLittleEndian,
    /// 4
    Nellymoser16kHzMono,
    /// 5
    Nellymoser8kHzMono,
    /// 6
    Nellymoser,
    /// 7
    PcmALaw,
    /// 8
    PcmMuLaw,
    /// 9, announces an extended header
    ExHeader,
    /// 10
    AAC,
    /// 11
    Speex,
    /// 14
    MP3_8kHz,
    /// 15
    DeviceSpecific,
    /// Any other code.
    Unknown(u8),
}

impl From<u8> for SoundFormat {
    fn from(value: u8) -> (r: Self) {
        match value {
            0 => SoundFormat::PcmPlatformEndian,
            1 => SoundFormat::ADPCM,
            2 => SoundFormat::MP3,
            3 => SoundFormat::PcmLittleEndian,
            4 => SoundFormat::Nellymoser16kHzMono,
            5 => SoundFormat::Nellymoser8kHzMono,
            6 => SoundFormat::Nellymoser,
            7 => SoundFormat::PcmALaw,
            8 => SoundFormat::PcmMuLaw,
            9 => SoundFormat::ExHeader,
            10 => SoundFormat::AAC,
            11 => SoundFormat::Speex,
            14 => SoundFormat::MP3_8kHz,
            15 => SoundFormat::DeviceSpecific,
            v => SoundFormat::Unknown(v),
        }
    }
}

impl SoundFormat {
    /// The variant that the code `value` stands for.
    pub open spec fn from_code(value: u8) -> Self {
        match value {
            0 => SoundFormat::PcmPlatformEndian,
            1 => SoundFormat::ADPCM,
            2 => SoundFormat::MP3,
            3 => SoundFormat::PcmLittleEndian,
            4 => SoundFormat::Nellymoser16kHzMono,
            5 => SoundFormat::Nellymoser8kHzMono,
            6 => SoundFormat::Nellymoser,
            7 => SoundFormat::PcmALaw,
            8 => SoundFormat::PcmMuLaw,
            9 => SoundFormat::ExHeader,
            10 => SoundFormat::AAC,
            11 => SoundFormat::Speex,
            14 => SoundFormat::MP3_8kHz,
            15 => SoundFormat::DeviceSpecific,
            v => SoundFormat::Unknown(v),
        }
    }
}

impl vstd::std_specs::convert::FromSpecImpl<u8> for SoundFormat {
    open spec fn obeys_from_spec() -> bool {
        true
    }

    open spec fn from_spec(value: u8) -> Self {
        Self::from_code(value)
    }
}

/// The audio sampling rate.
#[allow(non_camel_case_types)]
#[derive(Copy, Clone, Debug, Eq, PartialEq, Structural)]
pub enum SoundRate {
    /// 0, 5.5 kHz
    _5_5KHZ,
    /// 1, 11 kHz
    _11KHZ,
    /// 2, 22 kHz
    _22KHZ,
    /// 3, 44 kHz
    _44KHZ,
    /// Any other code.
    Unknown(u8),
}

impl From<u8> for SoundRate {
    fn from(value: u8) -> (r: Self) {
        match value {
            0 => SoundRate::_5_5KHZ,
            1 => SoundRate::_11KHZ,
            2 => SoundRate::_22KHZ,
            3 => SoundRate::_44KHZ,
            v => SoundRate::Unknown(v),
        }
    }
}

impl SoundRate {
    /// The variant that the code `value` stands for.
    pub open spec fn from_code(value: u8) -> Self {
        match value {
            0 => SoundRate::_5_5KHZ,
            1 => SoundRate::_11KHZ,
            2 => SoundRate::_22KHZ,
            3 => SoundRate::_44KHZ,
            v => SoundRate::Unknown(v),
        }
    }
}

impl vstd::std_specs::convert::FromSpecImpl<u8> for SoundRate {
    open spec fn obeys_from_spec() -> bool {
        true
    }

    open spec fn from_spec(value: u8) -> Self {
        Self::from_code(value)
    }
}

/// The size of each audio sample.
#[allow(non_camel_case_types)]
#[derive(Copy, Clone, Debug, Eq, PartialEq, Structural)]
pub enum SoundSize {
    /// 0, 8 bits
    _8Bit,
    /// 1, 16 bits
    _16Bit,
    /// Any other code.
    Unknown(u8),
}

impl From<u8> for SoundSize {
    fn from(value: u8) -> (r: Self) {
        match value {
            0 => SoundSize::_8Bit,
            1 => SoundSize::_16Bit,
            v => SoundSize::Unknown(v),
        }
    }
}

impl SoundSize {
    /// The variant that the code `value` stands for.
    pub open spec fn from_code(value: u8) -> Self {
        match value {
            0 => SoundSize::_8Bit,
            1 => SoundSize::_16Bit,
            v => SoundSize::Unknown(v),
        }
    }
}

impl vstd::std_specs::convert::FromSpecImpl<u8> for SoundSize {
    open spec fn obeys_from_spec() -> bool {
        true
    }

    open spec fn from_spec(value: u8) -> Self {
        Self::from_code(value)
    }
}

/// Mono or stereo.
#[derive(Copy, Clone, Debug, Eq, PartialEq, Structural)]
pub enum SoundType {
    /// 0
    Mono,
    /// 1
    Stereo,
    /// Any other code.
    Unknown(u8),
}

impl From<u8> for SoundType {
    fn from(value: u8) -> (r: Self) {
        match value {
            0 => SoundType::Mono,
            1 => SoundType::Stereo,
            v => SoundType::Unknown(v),
        }
    }
}

impl SoundType {
    /// The variant that the code `value` stands for.
    pub open spec fn from_code(value: u8) -> Self {
        match value {
            0 => SoundType::Mono,
            1 => SoundType::Stereo,
            v => SoundType::Unknown(v),
        }
    }
}

impl vstd::std_specs::convert::FromSpecImpl<u8> for SoundType {
    open spec fn obeys_from_spec() -> bool {
        true
    }

    open spec fn from_spec(value: u8) -> Self {
        Self::from_code(value)
    }
}

/// The body of an audio tag whose format is AAC.
#[derive(Clone, Debug, PartialEq)]
pub struct AACAudioPacket {
    /// Whether the data is a sequence header or raw frames.
    pub packet_type: AACPacketType,
    /// The bytes after the packet type.
    pub aac_data: Bytes,
}

/// What an [`AACAudioPacket`] stands for, with the buffer replaced by its
/// bytes.
pub struct AACAudioPacketView {
    pub packet_type: AACPacketType,
    pub aac_data: Seq<u8>,
}

impl View for AACAudioPacket {
    type V = AACAudioPacketView;

    open spec fn view(&self) -> AACAudioPacketView {
        AACAudioPacketView {
            packet_type: self.packet_type,
            aac_data: bytes_content(self.aac_data),
        }
    }
}

/// The type of an AAC packet.
#[derive(Copy, Clone, Debug, Eq, PartialEq, Structural)]
pub enum AACPacketType {
    /// 0
    SequenceHeader,
    /// Anything else.
    Raw,
}

impl From<u8> for AACPacketType {
    fn from(value: u8) -> (r: Self) {
        match value {
            0 => AACPacketType::SequenceHeader,
            _ => AACPacketType::Raw,
        }
    }
}

impl AACPacketType {
    /// The variant that the code `value` stands for.
    pub open spec fn from_code(value: u8) -> Self {
        match value {
            0 => AACPacketType::SequenceHeader,
            _ => AACPacketType::Raw,
        }
    }
}

impl vstd::std_specs::convert::FromSpecImpl<u8> for AACPacketType {
    open spec fn obeys_from_spec() -> bool {
        true
    }

    open spec fn from_spec(value: u8) -> Self {
        Self::from_code(value)
    }
}

/// Splits the body of an AAC audio tag into its packet type and data.
pub fn aac_audio_packet(reader: Bytes) -> (packet: AACAudioPacket)
    requires
        bytes_content(reader).len() >= 1,
    ensures
        packet@ == (AACAudioPacketView {
            packet_type: AACPacketType::from_code(bytes_content(reader)[0]),
            aac_data: bytes_content(reader).skip(1),
        }),
{
    let mut reader = reader;
    let packet_type: u8 = match reader.read_u8() {
        Ok(v) => v,
        Err(_) => unreached(),
    };
    AACAudioPacket { packet_type: AACPacketType::from(packet_type), aac_data: reader }
}

} // verus!
