use bytes::Bytes;
use flowly_flv::error::Error;
use flowly_flv::parser::FlvParser;
use flowly_flv::reader::FlvReader;
use flowly_flv::tag::audio::aac_audio_packet;
use flowly_flv::tag::audio::AACPacketType;
use flowly_flv::tag::audio::AudioTagHeader;
use flowly_flv::tag::audio::SoundFormat;
use flowly_flv::tag::audio::SoundRate;
use flowly_flv::tag::audio::SoundSize;
use flowly_flv::tag::audio::SoundType;

fn buf(data: &[u8]) -> Bytes {
    Bytes::copy_from_slice(data)
}

#[test]
fn audio_header_splits_the_first_byte() {
    // 1010 11 1 1: AAC, 44 kHz, 16 bit, stereo
    let h = FlvParser::new().parse_audio_tag_header(&mut buf(&[0xAF])).unwrap();
    assert_eq!(
        h,
        AudioTagHeader {
            sound_format: SoundFormat::AAC,
            sound_rate: SoundRate::_44KHZ,
            sound_size: SoundSize::_16Bit,
            sound_type: SoundType::Stereo,
        }
    );
    // 0010 01 0 0: MP3, 11 kHz, 8 bit, mono
    let g = FlvParser::new().parse_audio_tag_header(&mut buf(&[0x24])).unwrap();
    assert_eq!(
        g,
        AudioTagHeader {
            sound_format: SoundFormat::MP3,
            sound_rate: SoundRate::_11KHZ,
            sound_size: SoundSize::_8Bit,
            sound_type: SoundType::Mono,
        }
    );
}

#[test]
fn audio_header_of_unassigned_format() {
    let h = FlvParser::new().parse_audio_tag_header(&mut buf(&[0xC0])).unwrap();
    assert_eq!(h.sound_format, SoundFormat::Unknown(12));
    let g = FlvParser::new().parse_audio_tag_header(&mut buf(&[0xD8])).unwrap();
    assert_eq!(g.sound_format, SoundFormat::Unknown(13));
    assert_eq!(g.sound_rate, SoundRate::_22KHZ);
}

#[test]
fn audio_tag_keeps_the_rest_as_data() {
    let mut b = buf(&[0xAF, 0x01, 0x02, 0x03]);
    let tag = FlvParser::new().parse_audio_tag(&mut b).unwrap();
    assert_eq!(tag.header.sound_format, SoundFormat::AAC);
    assert_eq!(&tag.body.data[..], &[1, 2, 3]);
    assert_eq!(b.available(), 0);
    let only_header = FlvParser::new().parse_audio_tag(&mut buf(&[0x00])).unwrap();
    assert_eq!(only_header.header.sound_format, SoundFormat::PcmPlatformEndian);
    assert_eq!(only_header.body.data.len(), 0);
}

#[test]
fn audio_tag_without_header_is_truncated() {
    assert_eq!(FlvParser::new().parse_audio_tag(&mut buf(&[])).err(), Some(Error::Truncated));
    assert_eq!(
        FlvParser::new().parse_audio_tag_header(&mut buf(&[])).err(),
        Some(Error::Truncated)
    );
}

#[test]
fn audio_body_is_everything() {
    let mut b = buf(&[9, 8, 7]);
    let body = FlvParser::new().parse_audio_tag_body(&mut b).unwrap();
    assert_eq!(&body.data[..], &[9, 8, 7]);
    assert_eq!(b.available(), 0);
}

#[test]
fn sound_enum_codes() {
    let formats = [
        SoundFormat::PcmPlatformEndian,
        SoundFormat::ADPCM,
        SoundFormat::MP3,
        SoundFormat::PcmLittleEndian,
        SoundFormat::Nellymoser16kHzMono,
        SoundFormat::Nellymoser8kHzMono,
        SoundFormat::Nellymoser,
        SoundFormat::PcmALaw,
        SoundFormat::PcmMuLaw,
        SoundFormat::ExHeader,
        SoundFormat::AAC,
        SoundFormat::Speex,
        SoundFormat::Unknown(12),
        SoundFormat::Unknown(13),
        SoundFormat::MP3_8kHz,
        SoundFormat::DeviceSpecific,
        SoundFormat::Unknown(16),
    ];
    for (code, format) in formats.iter().enumerate() {
        assert_eq!(SoundFormat::from(code as u8), *format);
    }
    assert_eq!(SoundRate::from(0), SoundRate::_5_5KHZ);
    assert_eq!(SoundRate::from(1), SoundRate::_11KHZ);
    assert_eq!(SoundRate::from(2), SoundRate::_22KHZ);
    assert_eq!(SoundRate::from(3), SoundRate::_44KHZ);
    assert_eq!(SoundRate::from(4), SoundRate::Unknown(4));
    assert_eq!(SoundSize::from(0), SoundSize::_8Bit);
    assert_eq!(SoundSize::from(1), SoundSize::_16Bit);
    assert_eq!(SoundSize::from(2), SoundSize::Unknown(2));
    assert_eq!(SoundType::from(0), SoundType::Mono);
    assert_eq!(SoundType::from(1), SoundType::Stereo);
    assert_eq!(SoundType::from(9), SoundType::Unknown(9));
    assert_eq!(AACPacketType::from(0), AACPacketType::SequenceHeader);
    assert_eq!(AACPacketType::from(1), AACPacketType::Raw);
    assert_eq!(AACPacketType::from(200), AACPacketType::Raw);
}

#[test]
fn aac_packet_splits_off_the_type() {
    let p = aac_audio_packet(buf(&[0x00, 0x12, 0x10]));
    assert_eq!(p.packet_type, AACPacketType::SequenceHeader);
    assert_eq!(&p.aac_data[..], &[0x12, 0x10]);
    let q = aac_audio_packet(buf(&[0x01]));
    assert_eq!(q.packet_type, AACPacketType::Raw);
    assert_eq!(q.aac_data.len(), 0);
}
