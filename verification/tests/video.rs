use bytes::Bytes;
use flowly_flv::error::Error;
use flowly_flv::fourcc;
use flowly_flv::fourcc::Fourcc;
use flowly_flv::parser::FlvParser;
use flowly_flv::reader::FlvReader;
use flowly_flv::tag::video::mpeg4_avc::Mpeg4AvcParser;
use flowly_flv::tag::video::AvMultitrackType;
use flowly_flv::tag::video::AvcPacketType;
use flowly_flv::tag::video::CodecID;
use flowly_flv::tag::video::VideoFrameType;
use flowly_flv::tag::video::VideoPacketModExType;
use flowly_flv::tag::video::VideoPacketType;
use flowly_flv::tag::video::VideoTag;

fn buf(data: &[u8]) -> Bytes {
    Bytes::copy_from_slice(data)
}

fn units(tag: &VideoTag) -> Vec<Vec<u8>> {
    tag.body.nalus.iter().map(|b| b.to_vec()).collect()
}

/// profile 0x64, compatibility 0, level 0x1f, the given length field, one
/// sequence set `[0x67, 0x64]`, one picture set `[0x68]`
fn record(length_field: u8) -> Vec<u8> {
    vec![0x01, 0x64, 0x00, 0x1F, length_field, 0xE1, 0x00, 0x02, 0x67, 0x64, 0x01, 0x00, 0x01, 0x68]
}

#[test]
fn avc_record_fields_come_back() {
    let mut p = Mpeg4AvcParser::default();
    assert_eq!(p.nalu_length, 0);
    let mut b = buf(&record(0xFD));
    let r = p.parse_record(&mut b).unwrap();
    assert_eq!(r.profile, 0x64);
    assert_eq!(r.compatibility, 0);
    assert_eq!(r.level, 0x1F);
    assert_eq!(r.nalu_length, 2);
    assert_eq!(p.nalu_length, 2);
    assert_eq!(r.sps.len(), 1);
    assert_eq!(&r.sps[0][..], &[0x67, 0x64]);
    assert_eq!(r.pps.len(), 1);
    assert_eq!(&r.pps[0][..], &[0x68]);
    assert_eq!(b.available(), 0);
}

#[test]
fn avc_record_width_is_length_field_plus_one() {
    for (field, width) in [(0u8, 1u8), (1, 2), (2, 3), (3, 4), (0xFC, 1), (0xFF, 4)] {
        let mut p = Mpeg4AvcParser::default();
        p.parse_record(&mut buf(&record(field))).unwrap();
        assert_eq!(p.nalu_length, width);
    }
}

#[test]
fn avc_record_counts_sequence_sets_in_five_bits() {
    let mut p = Mpeg4AvcParser::default();
    // 0xE2: two sequence sets; no picture sets
    let mut b = buf(&[1, 2, 3, 4, 0xFF, 0xE2, 0, 1, 0xAA, 0, 0, 0, 9]);
    let r = p.parse_record(&mut b).unwrap();
    assert_eq!(r.sps.len(), 2);
    assert_eq!(&r.sps[0][..], &[0xAA]);
    assert_eq!(r.sps[1].len(), 0);
    assert_eq!(r.pps.len(), 0);
    assert_eq!(&b[..], &[9]);
}

#[test]
fn avc_record_that_is_short_is_truncated_and_keeps_the_width() {
    let mut p = Mpeg4AvcParser { nalu_length: 3 };
    assert_eq!(p.parse_record(&mut buf(&[1, 2, 3, 4, 0xFD])).err(), Some(Error::Truncated));
    assert_eq!(p.nalu_length, 3);
    let mut cut = record(0xFD);
    cut.pop();
    assert_eq!(p.parse_record(&mut buf(&cut)).err(), Some(Error::Truncated));
    assert_eq!(p.nalu_length, 3);
}

#[test]
fn nalu_seq_with_two_byte_lengths() {
    let mut p = Mpeg4AvcParser::default();
    p.parse_record(&mut buf(&record(0b01))).unwrap();
    assert_eq!(p.nalu_length, 2);
    let mut b = buf(&[0x00, 0x03, 1, 2, 3, 0x00, 0x01, 9, 0x00, 0x00]);
    let seq = p.parse_nalu_seq(&mut b).unwrap();
    assert_eq!(seq.nalus.len(), 3);
    assert_eq!(&seq.nalus[0][..], &[1, 2, 3]);
    assert_eq!(&seq.nalus[1][..], &[9]);
    assert_eq!(seq.nalus[2].len(), 0);
    assert_eq!(b.available(), 0);
}

#[test]
fn nalu_seq_ends_at_a_partial_length() {
    let mut p = Mpeg4AvcParser { nalu_length: 2 };
    let mut b = buf(&[0x00, 0x02, 7, 8, 0x00]);
    let seq = p.parse_nalu_seq(&mut b).unwrap();
    assert_eq!(seq.nalus.len(), 1);
    assert_eq!(&seq.nalus[0][..], &[7, 8]);
    assert_eq!(&b[..], &[0x00]);
}

#[test]
fn nalu_seq_of_each_width() {
    let cases: [(u8, &[u8]); 4] = [
        (1, &[2, 0xA, 0xB]),
        (2, &[0, 2, 0xA, 0xB]),
        (3, &[0, 0, 2, 0xA, 0xB]),
        (4, &[0, 0, 0, 2, 0xA, 0xB]),
    ];
    for (width, data) in cases {
        let mut p = Mpeg4AvcParser { nalu_length: width };
        let seq = p.parse_nalu_seq(&mut buf(data)).unwrap();
        assert_eq!(seq.nalus.len(), 1);
        assert_eq!(&seq.nalus[0][..], &[0xA, 0xB]);
    }
}

#[test]
fn nalu_seq_with_a_short_unit_is_truncated() {
    let mut p = Mpeg4AvcParser { nalu_length: 2 };
    assert_eq!(p.parse_nalu_seq(&mut buf(&[0x00, 0x03, 1, 2])).err(), Some(Error::Truncated));
}

#[test]
fn nalu_seq_without_a_width_is_empty() {
    let mut p = Mpeg4AvcParser::default();
    let mut b = buf(&[0, 1, 2]);
    let seq = p.parse_nalu_seq(&mut b).unwrap();
    assert_eq!(seq.nalus.len(), 0);
    assert_eq!(b.available(), 3);
    let mut q = Mpeg4AvcParser { nalu_length: 5 };
    assert_eq!(q.parse_nalu_seq(&mut b).unwrap().nalus.len(), 0);
}

#[test]
fn legacy_header_names_the_codec() {
    let codec = |first: u8| {
        FlvParser::new().parse_video_tag_header(&mut buf(&[first])).unwrap().fourcc
    };
    assert_eq!(codec(0x12), Fourcc(fourcc::VIDEO_SORENSON_H263));
    assert_eq!(codec(0x13), Fourcc(fourcc::VIDEO_SCREEN1));
    assert_eq!(codec(0x14), Fourcc(fourcc::VIDEO_VP6));
    assert_eq!(codec(0x15), Fourcc(fourcc::VIDEO_VP6_ALPHA));
    assert_eq!(codec(0x16), Fourcc(fourcc::VIDEO_SCREEN2));
    assert_eq!(codec(0x17), Fourcc(fourcc::VIDEO_AVC));
    assert_eq!(codec(0x18), Fourcc(fourcc::VIDEO_REAL_H263));
    assert_eq!(codec(0x1C), Fourcc(fourcc::VIDEO_HEVC));
    assert_eq!(codec(0x10), Fourcc::default());
    assert_eq!(codec(0x1F), Fourcc(0));
}

#[test]
fn legacy_header_fields() {
    let h = FlvParser::new().parse_video_tag_header(&mut buf(&[0x27, 0xFF])).unwrap();
    assert_eq!(h.frame_type, VideoFrameType::Inter);
    assert_eq!(h.pkt_type, VideoPacketType::ModEx);
    assert!(!h.enhanced);
    assert!(!h.multitrack);
    assert!(h.has_body);
    assert_eq!(h.multitrack_type, AvMultitrackType::OneTrack);
    let k = FlvParser::new().parse_video_tag_header(&mut buf(&[0x1C])).unwrap();
    assert_eq!(k.frame_type, VideoFrameType::Key);
    assert_eq!(k.pkt_type, VideoPacketType::Unknown(12));
}

#[test]
fn frame_type_is_bits_four_to_six() {
    let of = |first: u8| {
        FlvParser::new().parse_video_tag_header(&mut buf(&[first])).unwrap().frame_type
    };
    assert_eq!(of(0x10), VideoFrameType::Key);
    assert_eq!(of(0x20), VideoFrameType::Inter);
    assert_eq!(of(0x30), VideoFrameType::DisposableInter);
    assert_eq!(of(0x40), VideoFrameType::Generated);
    assert_eq!(of(0x50), VideoFrameType::Command);
    assert_eq!(of(0x60), VideoFrameType::Unknown(6));
    assert_eq!(of(0x70), VideoFrameType::Unknown(7));
    assert_eq!(of(0x00), VideoFrameType::Unknown(0));
    assert_eq!(of(0x07), VideoFrameType::Unknown(0));
}

#[test]
fn enhanced_header_reads_the_fourcc() {
    let mut b = buf(&[0x91, b'h', b'v', b'c', b'1', 0xEE]);
    let h = FlvParser::new().parse_video_tag_header(&mut b).unwrap();
    assert!(h.enhanced);
    assert_eq!(h.frame_type, VideoFrameType::Key);
    assert_eq!(h.pkt_type, VideoPacketType::CodedFrames);
    assert_eq!(h.fourcc, Fourcc(fourcc::VIDEO_HEVC));
    assert!(h.has_body);
    assert!(!h.multitrack);
    assert_eq!(b.available(), 1);
}

#[test]
fn enhanced_command_frame_has_no_body() {
    let mut b = buf(&[0xD1, 0x00, 0x77]);
    let h = FlvParser::new().parse_video_tag_header(&mut b).unwrap();
    assert_eq!(h.frame_type, VideoFrameType::Command);
    assert!(!h.has_body);
    assert_eq!(h.fourcc, Fourcc(0));
    assert_eq!(b.available(), 1);
}

#[test]
fn enhanced_metadata_command_frame_reads_the_fourcc() {
    let mut b = buf(&[0xD4, b'a', b'v', b'c', b'1']);
    let h = FlvParser::new().parse_video_tag_header(&mut b).unwrap();
    assert_eq!(h.pkt_type, VideoPacketType::Metadata);
    assert!(h.has_body);
    assert_eq!(h.fourcc, Fourcc(fourcc::VIDEO_AVC));
}

#[test]
fn enhanced_multitrack_header() {
    let mut b = buf(&[0x96, 0x01, b'v', b'p', b'0', b'9']);
    let h = FlvParser::new().parse_video_tag_header(&mut b).unwrap();
    assert!(h.multitrack);
    assert_eq!(h.pkt_type, VideoPacketType::Multitrack);
    assert_eq!(h.multitrack_type, AvMultitrackType::ManyTracks);
    assert_eq!(h.fourcc, Fourcc(fourcc::VIDEO_VP9));
    let mut c = buf(&[0x96, 0x02, b'v', b'p', b'0', b'9']);
    let k = FlvParser::new().parse_video_tag_header(&mut c).unwrap();
    assert_eq!(k.multitrack_type, AvMultitrackType::ManyTracksManyCodecs);
    assert_eq!(k.fourcc, Fourcc(0));
    assert_eq!(c.available(), 4);
}

#[test]
fn mod_ex_record_with_timestamp_offset() {
    // three bytes of payload, trailer 0x01: timestamp offset, next subtype 1
    let mut b = buf(&[0x02, 0x01, 0x02, 0x03, 0x01, 0xAA]);
    let r = FlvParser::new().parse_packet_ex_data(&mut b).unwrap();
    assert_eq!(r.ex_type, VideoPacketModExType::TimestampOffsetNano);
    assert_eq!(r.pkt_type, VideoPacketType::CodedFrames);
    assert_eq!(r.dts_offset_ns, 0x010203);
    assert_eq!(r.ex_data.len(), 0);
    assert_eq!(&b[..], &[0xAA]);
}

#[test]
fn mod_ex_record_of_other_size_is_not_decoded() {
    let mut b = buf(&[0x01, 0x01, 0x02, 0x07]);
    let r = FlvParser::new().parse_packet_ex_data(&mut b).unwrap();
    assert_eq!(r.ex_type, VideoPacketModExType::TimestampOffsetNano);
    assert_eq!(r.pkt_type, VideoPacketType::ModEx);
    assert_eq!(r.dts_offset_ns, 0);
    assert_eq!(&r.ex_data[..], &[1, 2]);
}

#[test]
fn mod_ex_record_of_unknown_type() {
    let mut b = buf(&[0x02, 0x01, 0x02, 0x03, 0x13]);
    let r = FlvParser::new().parse_packet_ex_data(&mut b).unwrap();
    assert_eq!(r.ex_type, VideoPacketModExType::Unknown(0x10));
    assert_eq!(r.pkt_type, VideoPacketType::CodedFramesX);
    assert_eq!(r.dts_offset_ns, 0);
    assert_eq!(&r.ex_data[..], &[1, 2, 3]);
}

#[test]
fn mod_ex_record_with_sixteen_bit_size() {
    let mut data = vec![0xFF, 0x01, 0x00];
    data.extend(std::iter::repeat(5u8).take(257));
    data.push(0x02);
    data.push(0x99);
    let mut b = buf(&data);
    let r = FlvParser::new().parse_packet_ex_data(&mut b).unwrap();
    assert_eq!(r.ex_data.len(), 257);
    assert_eq!(r.pkt_type, VideoPacketType::SequenceEnd);
    assert_eq!(&b[..], &[0x99]);
}

#[test]
fn mod_ex_record_with_largest_size() {
    let mut data = vec![0xFF, 0xFF, 0xFF];
    data.extend(std::iter::repeat(0u8).take(65536));
    data.push(0x01);
    let mut b = buf(&data);
    let r = FlvParser::new().parse_packet_ex_data(&mut b).unwrap();
    assert_eq!(r.ex_data.len(), 65536);
    assert_eq!(b.available(), 0);
}

#[test]
fn mod_ex_record_that_is_short_is_truncated() {
    assert_eq!(FlvParser::new().parse_packet_ex_data(&mut buf(&[])).err(), Some(Error::Truncated));
    assert_eq!(
        FlvParser::new().parse_packet_ex_data(&mut buf(&[0xFF, 0x00])).err(),
        Some(Error::Truncated)
    );
    assert_eq!(
        FlvParser::new().parse_packet_ex_data(&mut buf(&[0x02, 1, 2])).err(),
        Some(Error::Truncated)
    );
    assert_eq!(
        FlvParser::new().parse_packet_ex_data(&mut buf(&[0x02, 1, 2, 3])).err(),
        Some(Error::Truncated)
    );
}

#[test]
fn enhanced_header_walks_the_mod_ex_chain() {
    // subtype 7, one record naming 7 again, one record naming 1, fourcc
    let mut b = buf(&[
        0x97, 0x00, 0xAA, 0x17, 0x02, 1, 2, 3, 0x01, b'a', b'v', b'c', b'1', 0x55,
    ]);
    let h = FlvParser::new().parse_video_tag_header(&mut b).unwrap();
    assert_eq!(h.pkt_type, VideoPacketType::CodedFrames);
    assert_eq!(h.fourcc, Fourcc(fourcc::VIDEO_AVC));
    assert_eq!(&b[..], &[0x55]);
}

#[test]
fn enhanced_header_with_a_cut_chain_is_truncated() {
    let mut b = buf(&[0x97, 0x00, 0xAA]);
    assert_eq!(FlvParser::new().parse_video_tag_header(&mut b).err(), Some(Error::Truncated));
    assert_eq!(FlvParser::new().parse_video_tag_header(&mut buf(&[])).err(), Some(Error::Truncated));
    assert_eq!(
        FlvParser::new().parse_video_tag_header(&mut buf(&[0x91, b'a', b'v'])).err(),
        Some(Error::Truncated)
    );
}

#[test]
fn legacy_avc_sequence_header_gives_parameter_sets() {
    let mut p = FlvParser::new();
    let mut data = vec![0x17, 0x00, 0x00, 0x00, 0x2A];
    data.extend(record(0b01));
    let tag = p.parse_video_tag(&mut buf(&data)).unwrap();
    assert_eq!(tag.header.fourcc, Fourcc(fourcc::VIDEO_AVC));
    assert_eq!(tag.track_id, 0);
    assert_eq!(tag.body.pts_offset, 42);
    assert_eq!(tag.body.param_count, 2);
    assert_eq!(units(&tag), vec![vec![0x67, 0x64], vec![0x68]]);
}

#[test]
fn legacy_avc_nalus_use_the_remembered_width() {
    let mut p = FlvParser::new();
    let mut data = vec![0x17, 0x00, 0x00, 0x00, 0x00];
    data.extend(record(0b01));
    p.parse_video_tag(&mut buf(&data)).unwrap();
    let frame = [0x27, 0x01, 0xFF, 0xFF, 0xFE, 0x00, 0x02, 0xA, 0xB, 0x00, 0x01, 0xC, 0x00];
    let tag = p.parse_video_tag(&mut buf(&frame)).unwrap();
    assert_eq!(tag.body.pts_offset, -2);
    assert_eq!(tag.body.param_count, 0);
    assert_eq!(units(&tag), vec![vec![0xA, 0xB], vec![0xC]]);
    // the width stays for the tags that follow
    let again = p.parse_video_tag(&mut buf(&[0x27, 0x01, 0, 0, 0, 0x00, 0x01, 0xD])).unwrap();
    assert_eq!(units(&again), vec![vec![0xD]]);
}

#[test]
fn legacy_avc_nalus_before_any_record_are_empty() {
    let mut p = FlvParser::new();
    let tag = p.parse_video_tag(&mut buf(&[0x27, 0x01, 0, 0, 5, 0x00, 0x01, 0xD])).unwrap();
    assert_eq!(tag.body.pts_offset, 5);
    assert_eq!(tag.body.nalus.len(), 0);
}

#[test]
fn legacy_hevc_goes_the_same_way() {
    let mut p = FlvParser::new();
    let mut data = vec![0x1C, 0x00, 0x00, 0x00, 0x00];
    data.extend(record(0b11));
    let tag = p.parse_video_tag(&mut buf(&data)).unwrap();
    assert_eq!(tag.header.fourcc, Fourcc(fourcc::VIDEO_HEVC));
    assert_eq!(tag.body.param_count, 2);
    let frame = [0x2C, 0x01, 0, 0, 0, 0, 0, 0, 1, 0xEE];
    let tag = p.parse_video_tag(&mut buf(&frame)).unwrap();
    assert_eq!(units(&tag), vec![vec![0xEE]]);
}

#[test]
fn legacy_avc_end_of_sequence_has_no_units() {
    let mut p = FlvParser::new();
    let mut b = buf(&[0x17, 0x02, 0, 0, 1, 9, 9]);
    let tag = p.parse_video_tag(&mut b).unwrap();
    assert_eq!(tag.body.pts_offset, 1);
    assert_eq!(tag.body.nalus.len(), 0);
    assert_eq!(b.available(), 2);
    let other = p.parse_video_tag(&mut buf(&[0x17, 0x09, 0, 0, 0])).unwrap();
    assert_eq!(other.body.nalus.len(), 0);
}

#[test]
fn legacy_avc_that_is_short_is_truncated() {
    let mut p = FlvParser::new();
    assert_eq!(p.parse_video_tag(&mut buf(&[0x17])).err(), Some(Error::Truncated));
    assert_eq!(p.parse_video_tag(&mut buf(&[0x17, 0x00, 0, 0])).err(), Some(Error::Truncated));
    assert_eq!(p.parse_video_tag(&mut buf(&[0x17, 0x00, 0, 0, 0, 1, 2])).err(), Some(Error::Truncated));
}

#[test]
fn legacy_other_codec_is_one_unit() {
    let mut p = FlvParser::new();
    let tag = p.parse_video_tag(&mut buf(&[0x22, 1, 2, 3])).unwrap();
    assert_eq!(tag.header.fourcc, Fourcc(fourcc::VIDEO_SORENSON_H263));
    assert_eq!(tag.body.pts_offset, 0);
    assert_eq!(tag.body.param_count, 0);
    assert_eq!(units(&tag), vec![vec![1, 2, 3]]);
    let empty = p.parse_video_tag(&mut buf(&[0x22])).unwrap();
    assert_eq!(units(&empty), vec![Vec::<u8>::new()]);
}

#[test]
fn enhanced_coded_frames_of_avc_carry_an_offset() {
    let mut p = FlvParser::new();
    let data = [0x91, b'a', b'v', b'c', b'1', 0x03, 0xFF, 0xFF, 0xFF, 1, 2, 3];
    let tag = p.parse_video_tag(&mut buf(&data)).unwrap();
    assert_eq!(tag.track_id, 3);
    assert_eq!(tag.body.pts_offset, -1);
    assert_eq!(tag.body.param_count, 0);
    assert_eq!(units(&tag), vec![vec![1, 2, 3]]);
}

#[test]
fn enhanced_coded_frames_of_other_codecs_carry_none() {
    let mut p = FlvParser::new();
    let data = [0x91, b'a', b'v', b'0', b'1', 0x00, 9, 8, 7, 6];
    let tag = p.parse_video_tag(&mut buf(&data)).unwrap();
    assert_eq!(tag.header.fourcc, Fourcc(fourcc::VIDEO_AV1));
    assert_eq!(tag.body.pts_offset, 0);
    assert_eq!(units(&tag), vec![vec![9, 8, 7, 6]]);
}

#[test]
fn enhanced_coded_frames_x_carry_no_offset() {
    let mut p = FlvParser::new();
    let data = [0x93, b'h', b'v', b'c', b'1', 0x00, 9, 8, 7, 6];
    let tag = p.parse_video_tag(&mut buf(&data)).unwrap();
    assert_eq!(tag.header.pkt_type, VideoPacketType::CodedFramesX);
    assert_eq!(tag.body.pts_offset, 0);
    assert_eq!(units(&tag), vec![vec![9, 8, 7, 6]]);
}

#[test]
fn enhanced_sequence_start_extracts_nothing() {
    let mut p = FlvParser::new();
    let mut b = buf(&[0x90, b'a', b'v', b'c', b'1', 0x02, 1, 2, 3]);
    let tag = p.parse_video_tag(&mut b).unwrap();
    assert_eq!(tag.header.pkt_type, VideoPacketType::SequenceStart);
    assert_eq!(tag.track_id, 2);
    assert_eq!(tag.body.nalus.len(), 0);
    assert_eq!(b.available(), 3);
}

#[test]
fn enhanced_many_tracks_skip_the_track_size() {
    let mut p = FlvParser::new();
    let data = [0x96, 0x01, b'v', b'p', b'0', b'8', 0x07, 0x00, 0x00, 0x02, 5, 5];
    let mut b = buf(&data);
    let tag = p.parse_video_tag(&mut b).unwrap();
    assert_eq!(tag.track_id, 7);
    assert_eq!(tag.header.fourcc, Fourcc(fourcc::VIDEO_VP8));
    assert_eq!(tag.header.multitrack_type, AvMultitrackType::ManyTracks);
    assert_eq!(tag.body.nalus.len(), 0);
    assert_eq!(&b[..], &[5, 5]);
}

#[test]
fn enhanced_many_codecs_read_a_fourcc_per_track() {
    let mut p = FlvParser::new();
    let data = [0x96, 0x02, b'a', b'v', b'0', b'1', 0x01, 0x00, 0x00, 0x00];
    let tag = p.parse_video_tag(&mut buf(&data)).unwrap();
    assert_eq!(tag.header.fourcc, Fourcc(fourcc::VIDEO_AV1));
    assert_eq!(tag.track_id, 1);
    assert_eq!(tag.header.multitrack_type, AvMultitrackType::ManyTracksManyCodecs);
}

#[test]
fn enhanced_tag_without_track_id_is_truncated() {
    let mut p = FlvParser::new();
    assert_eq!(
        p.parse_video_tag(&mut buf(&[0x91, b'a', b'v', b'c', b'1'])).err(),
        Some(Error::Truncated)
    );
    assert_eq!(
        p.parse_video_tag(&mut buf(&[0x91, b'a', b'v', b'c', b'1', 0, 1, 2])).err(),
        Some(Error::Truncated)
    );
}

#[test]
fn video_enum_codes() {
    assert_eq!(VideoPacketType::from(0), VideoPacketType::SequenceStart);
    assert_eq!(VideoPacketType::from(1), VideoPacketType::CodedFrames);
    assert_eq!(VideoPacketType::from(2), VideoPacketType::SequenceEnd);
    assert_eq!(VideoPacketType::from(3), VideoPacketType::CodedFramesX);
    assert_eq!(VideoPacketType::from(4), VideoPacketType::Metadata);
    assert_eq!(VideoPacketType::from(5), VideoPacketType::MPEG2TSSequenceStart);
    assert_eq!(VideoPacketType::from(6), VideoPacketType::Multitrack);
    assert_eq!(VideoPacketType::from(7), VideoPacketType::ModEx);
    assert_eq!(VideoPacketType::from(8), VideoPacketType::Unknown(8));
    assert_eq!(AvMultitrackType::from(0), AvMultitrackType::OneTrack);
    assert_eq!(AvMultitrackType::from(1), AvMultitrackType::ManyTracks);
    assert_eq!(AvMultitrackType::from(2), AvMultitrackType::ManyTracksManyCodecs);
    assert_eq!(AvMultitrackType::from(3), AvMultitrackType::Unknown(3));
    assert_eq!(VideoPacketModExType::from(0), VideoPacketModExType::TimestampOffsetNano);
    assert_eq!(VideoPacketModExType::from(1), VideoPacketModExType::Unknown(1));
    assert_eq!(CodecID::from(7), CodecID::AVC);
    assert_eq!(CodecID::from(12), CodecID::Hevc);
    assert_eq!(CodecID::from(9), CodecID::Unknown(9));
    assert_eq!(AvcPacketType::from(0), AvcPacketType::SequenceHeader);
    assert_eq!(AvcPacketType::from(1), AvcPacketType::NALU);
    assert_eq!(AvcPacketType::from(2), AvcPacketType::EndOfSequence);
    assert_eq!(AvcPacketType::from(3), AvcPacketType::Unknown(3));
    assert_eq!(VideoFrameType::from(1), VideoFrameType::Key);
    assert_eq!(VideoFrameType::from(5), VideoFrameType::Command);
    assert_eq!(VideoFrameType::from(0), VideoFrameType::Unknown(0));
}

#[test]
fn fourcc_bytes_are_big_endian() {
    assert_eq!(Fourcc(fourcc::VIDEO_AVC).to_bytes(), *b"avc1");
    assert_eq!(Fourcc(fourcc::VIDEO_HEVC).to_bytes(), *b"hvc1");
    assert_eq!(Fourcc(fourcc::VIDEO_VP8).to_bytes(), *b"vp08");
    assert_eq!(Fourcc(fourcc::VIDEO_VP9).to_bytes(), *b"vp09");
    assert_eq!(Fourcc(fourcc::VIDEO_AV1).to_bytes(), *b"av01");
    assert_eq!(Fourcc(fourcc::AUDIO_AAC).to_bytes(), *b"mp4a");
    assert_eq!(Fourcc(fourcc::AUDIO_MP3).to_bytes(), *b".mp3");
    assert_eq!(Fourcc(fourcc::AUDIO_OPUS).to_bytes(), *b"Opus");
    assert_eq!(Fourcc(fourcc::AUDIO_FLAC).to_bytes(), *b"fLaC");
    assert_eq!(Fourcc(fourcc::AUDIO_AC3).to_bytes(), *b"ac-3");
    assert_eq!(Fourcc(fourcc::AUDIO_EC3).to_bytes(), *b"ec-3");
    assert_eq!(Fourcc(fourcc::VIDEO_SORENSON_H263).to_bytes(), *b"362M");
    assert_eq!(Fourcc(fourcc::VIDEO_SCREEN1).to_bytes(), *b"1RCS");
    assert_eq!(Fourcc(fourcc::VIDEO_SCREEN2).to_bytes(), *b"2RCS");
    assert_eq!(Fourcc(fourcc::VIDEO_VP6).to_bytes(), *b"60PV");
    assert_eq!(Fourcc(fourcc::VIDEO_VP6_ALPHA).to_bytes(), *b"a6PV");
    assert_eq!(Fourcc(fourcc::VIDEO_REAL_H263).to_bytes(), *b"362H");
    assert_eq!(Fourcc::from(0x01020304).to_bytes(), [1, 2, 3, 4]);
    assert_eq!(Fourcc::default().to_bytes(), [0, 0, 0, 0]);
    assert_eq!(Fourcc::from(0x61766331), Fourcc(fourcc::VIDEO_AVC));
}
