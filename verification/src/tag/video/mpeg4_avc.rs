//! Configuration records and NAL unit sequences of H.264 and H.265.

use crate::error::Error;
use crate::reader::be16;
use crate::reader::be24;
use crate::reader::be32;
use crate::reader::be_bytes;
use crate::reader::be_limit;
use crate::reader::lemma_be_bytes_read_back;
use crate::reader::contents;
use crate::reader::decodes;
use crate::reader::FlvReader;
use bytes::Bytes;
use vstd::prelude::*;

verus! {

/// A decoder configuration record.
#[derive(Clone, Debug)]
pub struct Mpeg4AvcRecord {
    pub profile: u8,
    pub compatibility: u8,
    pub level: u8,
    /// Width in bytes of the length that precedes each NAL unit, 1 to 4.
    pub nalu_length: u8,
    /// Sequence parameter sets, in record order.
    pub sps: Vec<Bytes>,
    /// Picture parameter sets, in record order.
    pub pps: Vec<Bytes>,
}

/// What a [`Mpeg4AvcRecord`] stands for, with every buffer replaced by its
/// bytes.
pub struct Mpeg4AvcRecordView {
    pub profile: u8,
    pub compatibility: u8,
    pub level: u8,
    pub nalu_length: u8,
    pub sps: Seq<Seq<u8>>,
    pub pps: Seq<Seq<u8>>,
}

impl View for Mpeg4AvcRecord {
    type V = Mpeg4AvcRecordView;

    open spec fn view(&self) -> Mpeg4AvcRecordView {
        Mpeg4AvcRecordView {
            profile: self.profile,
            compatibility: self.compatibility,
            level: self.level,
            nalu_length: self.nalu_length,
            sps: contents(self.sps@),
            pps: contents(self.pps@),
        }
    }
}

impl Default for Mpeg4AvcRecord {
    fn default() -> (r: Self)
        ensures
            r@ == (Mpeg4AvcRecordView {
                profile: 0,
                compatibility: 0,
                level: 0,
                nalu_length: 0,
                sps: Seq::empty(),
                pps: Seq::empty(),
            }),
    {
        let r = Mpeg4AvcRecord {
            profile: 0,
            compatibility: 0,
            level: 0,
            nalu_length: 0,
            sps: Vec::new(),
            pps: Vec::new(),
        };
        assert(contents(r.pps@) =~= Seq::<Seq<u8>>::empty());
        r
    }
}

/// Decoder of configuration records and NAL unit sequences. It remembers the
/// length width that the last configuration record declared.
#[derive(Clone, Debug)]
pub struct Mpeg4AvcParser {
    /// Width in bytes of the length that precedes each NAL unit; zero until a
    /// configuration record has been read.
    pub nalu_length: u8,
}

impl Default for Mpeg4AvcParser {
    fn default() -> (r: Self)
        ensures
            r.nalu_length == 0,
    {
        Self { nalu_length: 0 }
    }
}

/// A sequence of NAL units.
#[derive(Clone, Debug)]
pub struct Mpeg4AvcNALUSeq {
    pub nalus: Vec<Bytes>,
}

impl View for Mpeg4AvcNALUSeq {
    type V = Seq<Seq<u8>>;

    open spec fn view(&self) -> Seq<Seq<u8>> {
        contents(self.nalus@)
    }
}

} // verus!

verus! {

/// The decoded list `head` put in front of the outcome `r` of decoding the
/// rest.
pub open spec fn prepend(head: Seq<Seq<u8>>, r: Result<(Seq<Seq<u8>>, Seq<u8>), Error>) -> Result<
    (Seq<Seq<u8>>, Seq<u8>),
    Error,
> {
    match r {
        Ok((tail, rest)) => Ok((head + tail, rest)),
        Err(e) => Err(e),
    }
}

/// `count` parameter sets at the front of `s`, each a 16-bit length followed
/// by that many bytes, and the bytes after the last of them.
pub open spec fn spec_parameter_sets(s: Seq<u8>, count: nat) -> Result<
    (Seq<Seq<u8>>, Seq<u8>),
    Error,
>
    decreases count,
{
    if count == 0 {
        Ok((Seq::empty(), s))
    } else if s.len() < 2 || s.len() < 2 + be16(s) {
        Err(Error::Truncated)
    } else {
        prepend(
            seq![s.subrange(2, 2 + be16(s))],
            spec_parameter_sets(s.skip(2 + be16(s)), (count - 1) as nat),
        )
    }
}

/// The configuration record at the front of `s`, and the bytes after it: a
/// version byte that is passed over, profile, compatibility and level, a byte
/// whose low two bits are the NAL unit length width minus one, the number of
/// sequence parameter sets in the low five bits of a byte, those sets, the
/// number of picture parameter sets, and those sets.
pub open spec fn spec_avc_record(s: Seq<u8>) -> Result<(Mpeg4AvcRecordView, Seq<u8>), Error> {
    if s.len() < 6 {
        Err(Error::Truncated)
    } else {
        match spec_parameter_sets(s.skip(6), (s[5] & 0x1f) as nat) {
            Err(e) => Err(e),
            Ok((sps, after_sps)) => {
                if after_sps.len() < 1 {
                    Err(Error::Truncated)
                } else {
                    match spec_parameter_sets(after_sps.skip(1), after_sps[0] as nat) {
                        Err(e) => Err(e),
                        Ok((pps, rest)) => Ok(
                            (
                                Mpeg4AvcRecordView {
                                    profile: s[1],
                                    compatibility: s[2],
                                    level: s[3],
                                    nalu_length: ((s[4] & 0x03) + 1) as u8,
                                    sps,
                                    pps,
                                },
                                rest,
                            ),
                        ),
                    }
                }
            },
        }
    }
}

/// The NAL unit length at the front of `s`, read big-endian from `width`
/// bytes; `None` where `width` is not 1 to 4 or fewer than `width` bytes are
/// left.
pub open spec fn spec_nalu_size(width: u8, s: Seq<u8>) -> Option<int> {
    if width == 1 && s.len() >= 1 {
        Some(s[0] as int)
    } else if width == 2 && s.len() >= 2 {
        Some(be16(s))
    } else if width == 3 && s.len() >= 3 {
        Some(be24(s))
    } else if width == 4 && s.len() >= 4 {
        Some(be32(s))
    } else {
        None
    }
}

/// The NAL units at the front of `s`, each preceded by its length in `width`
/// bytes, and the bytes after the last of them. The sequence ends where no
/// further length can be read; a unit that is shorter than its length says
/// is an error.
pub open spec fn spec_nalu_seq(width: u8, s: Seq<u8>) -> Result<(Seq<Seq<u8>>, Seq<u8>), Error>
    decreases s.len(),
{
    match spec_nalu_size(width, s) {
        None => Ok((Seq::empty(), s)),
        Some(size) => {
            if s.len() < width + size {
                Err(Error::Truncated)
            } else {
                prepend(
                    seq![s.subrange(width as int, width + size)],
                    spec_nalu_seq(width, s.skip(width + size)),
                )
            }
        },
    }
}

/// The bytes of a NAL unit sequence: each unit of `units` preceded by its
/// length in `width` bytes.
pub open spec fn nalu_seq_bytes(width: u8, units: Seq<Seq<u8>>) -> Seq<u8>
    decreases units.len(),
{
    if units.len() == 0 {
        Seq::empty()
    } else {
        be_bytes(units[0].len() as int, width as int) + units[0] + nalu_seq_bytes(
            width,
            units.skip(1),
        )
    }
}

/// A unit behind its length is split off as the first unit of the sequence.
proof fn lemma_nalu_seq_first(width: u8, unit: Seq<u8>, more: Seq<u8>)
    requires
        1 <= width <= 4,
        unit.len() < be_limit(width as int),
    ensures
        spec_nalu_seq(width, be_bytes(unit.len() as int, width as int) + unit + more) == prepend(
            seq![unit],
            spec_nalu_seq(width, more),
        ),
{
    let size = unit.len() as int;
    let prefix = be_bytes(size, width as int);
    let s = prefix + unit + more;
    lemma_be_bytes_read_back(size, width as int, unit + more);
    assert(s.subrange(width as int, width + size) =~= unit);
    assert(s.skip(width + size) =~= more);
}

/// Units that are written one after the other, each behind its length, are
/// split into exactly those units again; bytes at the end that are too few
/// for a length end the sequence and stay.
pub proof fn lemma_nalu_seq_splits(width: u8, units: Seq<Seq<u8>>, tail: Seq<u8>)
    requires
        1 <= width <= 4,
        forall|i: int| 0 <= i < units.len() ==> (#[trigger] units[i]).len() < be_limit(width as int),
        tail.len() < width,
    ensures
        spec_nalu_seq(width, nalu_seq_bytes(width, units) + tail) == Ok::<
            (Seq<Seq<u8>>, Seq<u8>),
            Error,
        >((units, tail)),
    decreases units.len(),
{
    let s = nalu_seq_bytes(width, units) + tail;
    if units.len() == 0 {
        assert(units =~= Seq::<Seq<u8>>::empty());
    } else {
        let more = nalu_seq_bytes(width, units.skip(1)) + tail;
        assert(s =~= be_bytes(units[0].len() as int, width as int) + units[0] + more);
        lemma_nalu_seq_first(width, units[0], more);
        lemma_nalu_seq_splits(width, units.skip(1), tail);
        assert(seq![units[0]] + units.skip(1) =~= units);
    }
}

/// A configuration record declares a NAL unit length width of 1 to 4: one
/// more than the low two bits of its fifth byte.
pub proof fn lemma_avc_record_width(s: Seq<u8>)
    requires
        spec_avc_record(s) is Ok,
    ensures
        s.len() >= 6,
        spec_avc_record(s)->Ok_0.0.nalu_length == (s[4] & 0x03) + 1,
        1 <= spec_avc_record(s)->Ok_0.0.nalu_length <= 4,
{
    let field = s[4];
    assert(field & 0x03 <= 3) by (bit_vector);
}

/// Reads `count` parameter sets.
fn read_parameter_sets<R: FlvReader>(reader: &mut R, count: usize) -> (r: Result<
    Vec<Bytes>,
    Error,
>)
    ensures
        match spec_parameter_sets(old(reader).pending(), count as nat) {
            Ok((sets, rest)) => r is Ok && contents(r->Ok_0@) == sets && final(reader).pending()
                == rest,
            Err(e) => r is Err && r->Err_0 == e,
        },
        r is Ok ==> r->Ok_0@.len() == count,
{
    let ghost s0 = old(reader).pending();
    let mut sets: Vec<Bytes> = Vec::new();
    let mut i: usize = 0;
    while i < count
        invariant
            i <= count,
            sets@.len() == i,
            s0 == old(reader).pending(),
            spec_parameter_sets(s0, count as nat) == prepend(
                contents(sets@),
                spec_parameter_sets(reader.pending(), (count - i) as nat),
            ),
        decreases count - i,
    {
        let ghost cur = reader.pending();
        let ghost before = contents(sets@);
        let size: u16 = reader.read_u16()?;
        let data: Bytes = reader.read_to_bytes(size as usize)?;
        sets.push(data);
        i += 1;
        proof {
            let first = cur.subrange(2, 2 + be16(cur));
            assert(data.pending() =~= first);
            assert(reader.pending() =~= cur.skip(2 + be16(cur)));
            match spec_parameter_sets(reader.pending(), (count - i) as nat) {
                Ok((tail, rest)) => {
                    assert(before + (seq![first] + tail) =~= contents(sets@) + tail);
                },
                Err(_) => {},
            }
        }
    }
    Ok(sets)
}

impl Mpeg4AvcParser {
    /// Decodes a configuration record and remembers the NAL unit length
    /// width that it declares.
    pub fn parse_record<R: FlvReader>(&mut self, reader: &mut R) -> (r: Result<
        Mpeg4AvcRecord,
        Error,
    >)
        ensures
            decodes(spec_avc_record(old(reader).pending()), r, final(reader).pending()),
            r is Ok ==> final(self).nalu_length == r->Ok_0.nalu_length,
            r is Ok ==> 1 <= r->Ok_0.nalu_length <= 4,
            r is Ok ==> r->Ok_0.sps@.len() <= 31 && r->Ok_0.pps@.len() <= 255,
            r is Err ==> final(self).nalu_length == old(self).nalu_length,
    {
        let ghost s = old(reader).pending();
        // version
        let _: u8 = reader.read_u8()?;
        let profile: u8 = reader.read_u8()?;
        let compatibility: u8 = reader.read_u8()?;
        let level: u8 = reader.read_u8()?;
        let length_field: u8 = reader.read_u8()?;
        assert(length_field & 0x03 <= 3) by (bit_vector);
        let nalu_length: u8 = (length_field & 0x03) + 1;
        let count_field: u8 = reader.read_u8()?;
        let nb_sps: u8 = count_field & 0x1f;
        assert(count_field & 0x1f <= 31) by (bit_vector);
        assert(reader.pending() =~= s.skip(6));
        let sps: Vec<Bytes> = read_parameter_sets(reader, nb_sps as usize)?;
        let nb_pps: u8 = reader.read_u8()?;
        let pps: Vec<Bytes> = read_parameter_sets(reader, nb_pps as usize)?;
        // coded frames that follow are split by the width declared here
        self.nalu_length = nalu_length;
        Ok(Mpeg4AvcRecord { profile, compatibility, level, nalu_length, sps, pps })
    }

    /// Reads the length of the next NAL unit, if one can be read.
    fn read_nalu_size<R: FlvReader>(&mut self, reader: &mut R) -> (r: Option<usize>)
        ensures
            *final(self) == *old(self),
            match spec_nalu_size(old(self).nalu_length, old(reader).pending()) {
                Some(size) => r == Some(size as usize) && final(reader).pending() == old(
                    reader,
                ).pending().skip(old(self).nalu_length as int),
                None => r is None && final(reader).pending() == old(reader).pending(),
            },
    {
        let read: Result<usize, Error> = match self.nalu_length {
            1 => match reader.read_u8() {
                Ok(v) => Ok(v as usize),
                Err(e) => Err(e),
            },
            2 => match reader.read_u16() {
                Ok(v) => Ok(v as usize),
                Err(e) => Err(e),
            },
            3 => match reader.read_u24() {
                Ok(v) => Ok(v as usize),
                Err(e) => Err(e),
            },
            4 => match reader.read_u32() {
                Ok(v) => Ok(v as usize),
                Err(e) => Err(e),
            },
            _ => Err(Error::Truncated),
        };
        match read {
            Ok(size) => Some(size),
            Err(_) => None,
        }
    }

    /// Decodes a sequence of NAL units, each preceded by its length in as
    /// many bytes as the last configuration record declared.
    pub fn parse_nalu_seq<R: FlvReader>(&mut self, reader: &mut R) -> (r: Result<
        Mpeg4AvcNALUSeq,
        Error,
    >)
        ensures
            decodes(
                spec_nalu_seq(old(self).nalu_length, old(reader).pending()),
                r,
                final(reader).pending(),
            ),
            *final(self) == *old(self),
    {
        let ghost s0 = old(reader).pending();
        let ghost width = self.nalu_length;
        let mut nalus: Vec<Bytes> = Vec::new();
        loop
            invariant
                *self == *old(self),
                width == self.nalu_length,
                s0 == old(reader).pending(),
                spec_nalu_seq(width, s0) == prepend(
                    contents(nalus@),
                    spec_nalu_seq(width, reader.pending()),
                ),
            decreases reader.pending().len(),
        {
            let ghost cur = reader.pending();
            let ghost before = contents(nalus@);
            let size: usize = match self.read_nalu_size(reader) {
                Some(size) => size,
                None => {
                    return Ok(Mpeg4AvcNALUSeq { nalus });
                },
            };
            let unit: Bytes = reader.read_to_bytes(size)?;
            nalus.push(unit);
            proof {
                let first = cur.subrange(width as int, width + size);
                assert(unit.pending() =~= first);
                assert(reader.pending() =~= cur.skip(width + size));
                match spec_nalu_seq(width, reader.pending()) {
                    Ok((tail, rest)) => {
                        assert(before + (seq![first] + tail) =~= contents(nalus@) + tail);
                    },
                    Err(_) => {},
                }
            }
        }
    }
}

} // verus!
