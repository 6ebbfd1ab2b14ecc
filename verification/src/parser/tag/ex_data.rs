//! Modifier records of extended video headers.

use crate::error::Error;
use crate::parser::FlvParser;
use crate::reader::be16;
use crate::reader::be24;
use crate::reader::decodes;
use crate::reader::FlvReader;
use crate::tag::video::PacketExData;
use crate::tag::video::PacketExDataView;
use crate::tag::video::VideoPacketModExType;
use crate::tag::video::VideoPacketType;
use bytes::Bytes;
use vstd::prelude::*;

verus! {

/// Length of the payload of the modifier record at the front of `s`, and
/// the number of bytes that encode that length: one byte holding the length
/// minus one, or, where that byte is 255, two more bytes holding the length
/// minus one.
pub open spec fn spec_ex_data_size(s: Seq<u8>) -> Result<(int, int), Error> {
    if s.len() < 1 {
        Err(Error::Truncated)
    } else if s[0] != 255 {
        Ok((s[0] + 1, 1))
    } else if s.len() < 3 {
        Err(Error::Truncated)
    } else {
        Ok((be16(s.skip(1)) + 1, 3))
    }
}

/// The modifier record at the front of `s`, and the bytes after it: the
/// length, that many bytes of payload, and a trailer byte whose high nibble
/// says how to read the payload and whose low nibble is the next subtype. A
/// three-byte payload of a timestamp offset is decoded and used up.
pub open spec fn spec_packet_ex_data(s: Seq<u8>) -> Result<(PacketExDataView, Seq<u8>), Error> {
    match spec_ex_data_size(s) {
        Err(e) => Err(e),
        Ok((size, prefix)) => {
            if s.len() < prefix + size + 1 {
                Err(Error::Truncated)
            } else {
                let payload = s.subrange(prefix, prefix + size);
                let trailer = s[prefix + size];
                let ex_type = VideoPacketModExType::from_code(trailer & 0xf0);
                let offset_given = ex_type == VideoPacketModExType::TimestampOffsetNano && size
                    == 3;
                Ok(
                    (
                        PacketExDataView {
                            pkt_type: VideoPacketType::from_code(trailer & 0x0f),
                            ex_type,
                            dts_offset_ns: if offset_given {
                                be24(payload) as u32
                            } else {
                                0
                            },
                            ex_data: if offset_given {
                                Seq::empty()
                            } else {
                                payload
                            },
                        },
                        s.skip(prefix + size + 1),
                    ),
                )
            }
        },
    }
}

impl FlvParser {
    /// Decodes one modifier record of an extended video header.
    pub fn parse_packet_ex_data<R: FlvReader>(&mut self, reader: &mut R) -> (r: Result<
        PacketExData,
        Error,
    >)
        ensures
            decodes(spec_packet_ex_data(old(reader).pending()), r, final(reader).pending()),
            final(self).nalu_length() == old(self).nalu_length(),
    {
        let ghost s = old(reader).pending();
        // the length of the record's payload, from 1 to 256 bytes
        let short: u8 = reader.read_u8()?;
        let mut ex_size: usize = short as usize + 1;
        // where eight bits are not enough, sixteen follow
        if ex_size == 256 {
            ex_size = reader.read_u16()? as usize + 1;
        }
        let ghost prefix = spec_ex_data_size(s)->Ok_0.1;
        let mut ex_data: Bytes = reader.read_to_bytes(ex_size)?;
        assert(ex_data.pending() =~= s.subrange(prefix, prefix + ex_size));
        let ex_hdr: u8 = reader.read_u8()?;
        assert(reader.pending() =~= s.skip(prefix + ex_size + 1));
        let ex_type: VideoPacketModExType = VideoPacketModExType::from(ex_hdr & 0xf0);
        let pkt_type: u8 = ex_hdr & 0x0f;
        let mut dts_offset_ns: u32 = 0;
        if ex_type == VideoPacketModExType::TimestampOffsetNano && ex_size == 3 {
            dts_offset_ns = ex_data.read_u24()?;
            assert(ex_data.pending() =~= Seq::<u8>::empty());
        }
        Ok(PacketExData { dts_offset_ns, ex_data, pkt_type: VideoPacketType::from(pkt_type), ex_type })
    }
}

} // verus!
