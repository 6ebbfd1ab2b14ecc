use bytes::Bytes;
use flowly_flv::error::Error;
use flowly_flv::fourcc;
use flowly_flv::fourcc::Fourcc;
use flowly_flv::parser::FlvParser;
use flowly_flv::tag::meta::MetaDataValue;
use flowly_flv::tag::FlvTag;
use flowly_flv::tag::FlvTagData;
use flowly_flv::tag::FlvTagHeader;
use flowly_flv::tag::FlvTagType;

#[test]
fn fourcc_as_text() {
    assert_eq!(Fourcc(fourcc::VIDEO_AVC).to_string(), "avc1");
    assert_eq!(Fourcc(fourcc::VIDEO_HEVC).to_string(), "hvc1");
    assert_eq!(Fourcc(fourcc::AUDIO_MP3).to_string(), ".mp3");
    assert_eq!(Fourcc(fourcc::VIDEO_SORENSON_H263).to_string(), "362M");
    assert_eq!(Fourcc(0).to_string(), "\0\0\0\0");
    assert_eq!(Fourcc(0x2020_C3A9).to_string(), "  \u{e9}");
}

#[test]
fn fourcc_that_is_not_text() {
    assert_eq!(Fourcc(0xFFFF_FFFF).to_string(), "<ERR>");
    assert_eq!(Fourcc(0x6176_63C3).to_string(), "<ERR>");
    assert_eq!(Fourcc(0x8061_6263).to_string(), "<ERR>");
}

#[test]
fn error_in_words() {
    assert_eq!(Error::InvalidSignature.to_string(), "flv error: invalid signature");
    assert_eq!(
        Error::ParseMetaError("no such field".to_string()).to_string(),
        "parse meta error: no such field"
    );
    assert_eq!(Error::ParseMetaError(String::new()).to_string(), "parse meta error: ");
    assert_eq!(
        Error::Truncated.to_string(),
        "io error: not enough bytes left to read the value"
    );
    assert_eq!(Error::IoError.to_string(), "io error: the byte source failed");
}

#[test]
fn meta_value_clone_is_equal() {
    let data = [
        3u8, 0, 1, b'a', 10, 0, 0, 0, 2, 2, 0, 1, b'x', 3, 0, 1, b'k', 5, 0, 0, 9, 0, 1, b'b', 0,
        1, 2, 3, 4, 5, 6, 7, 8, 0, 0, 9,
    ];
    let v = FlvParser::new().parse_meta_value(&mut Bytes::copy_from_slice(&data)).unwrap();
    let copy = v.clone();
    assert_eq!(copy, v);
    match &copy {
        MetaDataValue::Object(o) => {
            assert_eq!(o.len(), 2);
            assert_eq!(o.clone(), *o);
            assert_eq!(o.properties[1].clone(), o.properties[1]);
        },
        other => panic!("not an object: {:?}", other),
    }
}

#[test]
fn tag_clone_is_equal() {
    let mut parser = FlvParser::new();
    let meta = parser
        .parse_meta_tag(&mut Bytes::from_static(&[2, 0, 2, b'o', b'n', 8, 0, 0, 0, 0, 0, 0, 9]))
        .unwrap();
    assert_eq!(meta.clone(), meta);
    let video = parser.parse_video_tag(&mut Bytes::from_static(&[0x22, 1, 2, 3])).unwrap();
    let tag = FlvTag {
        header: FlvTagHeader {
            tag_type: FlvTagType::Video,
            data_size: 4,
            timestamp: 9,
            stream_id: 0,
        },
        data: FlvTagData::Video(video),
    };
    assert_eq!(tag.clone(), tag);
    let mut other = parser.clone();
    assert_eq!(
        other.parse_video_tag(&mut Bytes::from_static(&[0x22, 1, 2, 3])).unwrap(),
        parser.parse_video_tag(&mut Bytes::from_static(&[0x22, 1, 2, 3])).unwrap()
    );
}

#[test]
fn parser_default_has_no_width() {
    let mut p = FlvParser::default();
    let tag = p.parse_video_tag(&mut Bytes::from_static(&[0x27, 1, 0, 0, 0, 0, 1, 9])).unwrap();
    assert_eq!(tag.body.nalus.len(), 0);
}

#[test]
fn parse_tag_reads_header_and_payload() {
    let mut p = FlvParser::new();
    let mut b = Bytes::from_static(&[8, 0, 0, 2, 0, 0, 7, 0, 0, 0, 0, 0xAF, 0x42]);
    let tag = p.parse_tag(&mut b).unwrap();
    assert_eq!(tag.header.tag_type, FlvTagType::Audio);
    assert_eq!(tag.header.timestamp, 7);
    match &tag.data {
        FlvTagData::Audio(a) => assert_eq!(&a.body.data[..], &[0x42]),
        other => panic!("not audio: {:?}", other),
    }
    let mut short = Bytes::from_static(&[8, 0, 0, 2, 0, 0, 7, 0, 0, 0]);
    assert_eq!(p.parse_tag(&mut short).err(), Some(Error::Truncated));
    let mut unknown = Bytes::from_static(&[1, 0, 0, 2, 0, 0, 7, 0, 0, 0, 0, 1, 2]);
    let tag = p.parse_tag(&mut unknown).unwrap();
    assert_eq!(tag.data, FlvTagData::Unknown);
    assert_eq!(&unknown[..], &[1, 2]);
}

#[test]
fn parse_flv_data_goes_by_tag_type() {
    let mut p = FlvParser::new();
    let payload = Bytes::from_static(&[0x22, 1, 2]);
    assert!(matches!(
        p.parse_flv_data(&mut payload.clone(), FlvTagType::Video),
        Ok(FlvTagData::Video(_))
    ));
    assert!(matches!(
        p.parse_flv_data(&mut payload.clone(), FlvTagType::Audio),
        Ok(FlvTagData::Audio(_))
    ));
    assert!(matches!(
        p.parse_flv_data(&mut payload.clone(), FlvTagType::Unknown(3)),
        Ok(FlvTagData::Unknown)
    ));
    assert_eq!(
        p.parse_flv_data(&mut payload.clone(), FlvTagType::Metadata).err(),
        Some(Error::Truncated)
    );
}
