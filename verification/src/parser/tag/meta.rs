//! Script data payloads.

use crate::error::Error;
use crate::parser::FlvParser;
use crate::reader::be16;
use crate::reader::be32;
use crate::reader::be64;
use crate::reader::decodes;
use crate::reader::signed16;
use crate::reader::FlvReader;
use crate::tag::meta::value_wf;
use crate::tag::meta::values_model;
use crate::tag::meta::values_wf;
use crate::tag::meta::MetaDataDate;
use crate::tag::meta::MetaDataObject;
use crate::tag::meta::MetaDataValue;
use crate::tag::meta::MetaTag;
use crate::tag::meta::MetaTagView;
use crate::tag::meta::MetaValue;
use bytes::Bytes;
use vstd::prelude::*;

verus! {

/// The string at the front of `s`, a 16-bit length followed by that many
/// bytes, and the bytes after it.
pub open spec fn spec_meta_string(s: Seq<u8>) -> Result<(Seq<u8>, Seq<u8>), Error> {
    if s.len() < 2 || s.len() < 2 + be16(s) {
        Err(Error::Truncated)
    } else {
        Ok((s.subrange(2, 2 + be16(s)), s.skip(2 + be16(s))))
    }
}

/// Whether `s` starts with the three bytes that end a list of properties.
pub open spec fn at_object_end(s: Seq<u8>) -> bool {
    s.len() >= 3 && s[0] == 0 && s[1] == 0 && s[2] == 9
}

/// The value at the front of `s`, a type marker and what the marker calls
/// for, and the bytes after it.
pub open spec fn spec_meta_value(s: Seq<u8>) -> Result<(MetaValue, Seq<u8>), Error>
    decreases s.len(), 0nat,
{
    if s.len() < 1 {
        Err(Error::Truncated)
    } else {
        let body = s.skip(1);
        let marker = s[0];
        if marker == 0 {
            if body.len() < 8 {
                Err(Error::Truncated)
            } else {
                Ok((MetaValue::Number(be64(body) as u64), body.skip(8)))
            }
        } else if marker == 1 {
            if body.len() < 1 {
                Err(Error::Truncated)
            } else {
                Ok((MetaValue::Boolean(body[0] != 0), body.skip(1)))
            }
        } else if marker == 2 {
            match spec_meta_string(body) {
                Err(e) => Err(e),
                Ok((text, rest)) => Ok((MetaValue::String(text), rest)),
            }
        } else if marker == 3 {
            match spec_meta_properties(Map::empty(), body) {
                Err(e) => Err(e),
                Ok((properties, rest)) => Ok((MetaValue::Object(properties), rest)),
            }
        } else if marker == 5 {
            Ok((MetaValue::Null, body))
        } else if marker == 6 {
            Ok((MetaValue::Undefined, body))
        } else if marker == 7 {
            if body.len() < 2 {
                Err(Error::Truncated)
            } else {
                Ok((MetaValue::Reference(be16(body) as u16), body.skip(2)))
            }
        } else if marker == 8 {
            // the declared number of properties is not used
            if body.len() < 4 {
                Err(Error::Truncated)
            } else {
                match spec_meta_properties(Map::empty(), body.skip(4)) {
                    Err(e) => Err(e),
                    Ok((properties, rest)) => Ok((MetaValue::ECMAArray(properties), rest)),
                }
            }
        } else if marker == 10 {
            if body.len() < 4 {
                Err(Error::Truncated)
            } else {
                match spec_meta_items(Seq::empty(), body.skip(4), be32(body) as nat) {
                    Err(e) => Err(e),
                    Ok((items, rest)) => Ok((MetaValue::StrictArray(items), rest)),
                }
            }
        } else if marker == 11 {
            if body.len() < 10 {
                Err(Error::Truncated)
            } else {
                Ok(
                    (
                        MetaValue::Date(
                            MetaDataDate {
                                date_time: be64(body) as u64,
                                local_date_time_offset: signed16(be16(body.skip(8))) as i16,
                            },
                        ),
                        body.skip(10),
                    ),
                )
            }
        } else if marker == 12 {
            if body.len() < 4 || body.len() < 4 + be32(body) {
                Err(Error::Truncated)
            } else {
                Ok(
                    (
                        MetaValue::LongString(body.subrange(4, 4 + be32(body))),
                        body.skip(4 + be32(body)),
                    ),
                )
            }
        } else {
            Ok((MetaValue::Unknown(marker), body))
        }
    }
}

/// The properties at the front of `s`, added one after the other to those
/// already in `acc`, and the bytes after them.
///
/// Each property is a string key followed by a value. The list ends with the
/// bytes `00 00 09`, which are used up, or where fewer than three bytes are
/// left, which stay. Every value uses up at least its marker (see
/// [`lemma_meta_value_consumes`]), so the test on the lengths never fails.
pub open spec fn spec_meta_properties(acc: Map<Seq<u8>, MetaValue>, s: Seq<u8>) -> Result<
    (Map<Seq<u8>, MetaValue>, Seq<u8>),
    Error,
>
    decreases s.len(), 1nat,
{
    if s.len() < 3 {
        Ok((acc, s))
    } else if at_object_end(s) {
        Ok((acc, s.skip(3)))
    } else {
        match spec_meta_string(s) {
            Err(e) => Err(e),
            Ok((key, after_key)) => match spec_meta_value(after_key) {
                Err(e) => Err(e),
                Ok((value, rest)) => {
                    if rest.len() < s.len() {
                        spec_meta_properties(acc.insert(key, value), rest)
                    } else {
                        Err(Error::Truncated)
                    }
                },
            },
        }
    }
}

/// `count` values at the front of `s`, added one after the other to those
/// already in `acc`, and the bytes after them. Every value uses up at least
/// its marker (see [`lemma_meta_value_consumes`]), so the test on the
/// lengths never fails.
pub open spec fn spec_meta_items(acc: Seq<MetaValue>, s: Seq<u8>, count: nat) -> Result<
    (Seq<MetaValue>, Seq<u8>),
    Error,
>
    decreases s.len(), 1nat,
{
    if count == 0 {
        Ok((acc, s))
    } else {
        match spec_meta_value(s) {
            Err(e) => Err(e),
            Ok((value, rest)) => {
                if rest.len() < s.len() {
                    spec_meta_items(acc.push(value), rest, (count - 1) as nat)
                } else {
                    Err(Error::Truncated)
                }
            },
        }
    }
}

/// The script data payload at the front of `s`: a byte that is passed over,
/// the name as a string, and one value.
pub open spec fn spec_meta_tag(s: Seq<u8>) -> Result<(MetaTagView, Seq<u8>), Error> {
    if s.len() < 1 {
        Err(Error::Truncated)
    } else {
        match spec_meta_string(s.skip(1)) {
            Err(e) => Err(e),
            Ok((name, after_name)) => match spec_meta_value(after_name) {
                Err(e) => Err(e),
                Ok((value, rest)) => Ok((MetaTagView { name, value }, rest)),
            },
        }
    }
}

/// A list of properties leaves no more bytes than it was given.
pub proof fn lemma_meta_properties_consume(acc: Map<Seq<u8>, MetaValue>, s: Seq<u8>)
    ensures
        spec_meta_properties(acc, s) is Ok ==> spec_meta_properties(acc, s)->Ok_0.1.len()
            <= s.len(),
    decreases s.len(),
{
    if s.len() >= 3 && !at_object_end(s) {
        match spec_meta_string(s) {
            Err(_) => {},
            Ok((key, after_key)) => match spec_meta_value(after_key) {
                Err(_) => {},
                Ok((value, rest)) => {
                    if rest.len() < s.len() {
                        lemma_meta_properties_consume(acc.insert(key, value), rest);
                    }
                },
            },
        }
    }
}

/// A list of values leaves no more bytes than it was given.
pub proof fn lemma_meta_items_consume(acc: Seq<MetaValue>, s: Seq<u8>, count: nat)
    ensures
        spec_meta_items(acc, s, count) is Ok ==> spec_meta_items(acc, s, count)->Ok_0.1.len()
            <= s.len(),
    decreases s.len(),
{
    if count > 0 {
        match spec_meta_value(s) {
            Err(_) => {},
            Ok((value, rest)) => {
                if rest.len() < s.len() {
                    lemma_meta_items_consume(acc.push(value), rest, (count - 1) as nat);
                }
            },
        }
    }
}

/// A value uses up at least one byte.
pub proof fn lemma_meta_value_consumes(s: Seq<u8>)
    ensures
        spec_meta_value(s) is Ok ==> spec_meta_value(s)->Ok_0.1.len() < s.len(),
{
    if s.len() >= 1 {
        let body = s.skip(1);
        lemma_meta_properties_consume(Map::empty(), body);
        if body.len() >= 4 {
            lemma_meta_properties_consume(Map::empty(), body.skip(4));
            lemma_meta_items_consume(Seq::empty(), body.skip(4), be32(body) as nat);
        }
    }
}

/// The number of properties that an ECMA array declares plays no part in
/// decoding it: with any four bytes in its place the same properties are
/// decoded and the same bytes are left.
pub proof fn lemma_ecma_array_count_unused(count: Seq<u8>, other: Seq<u8>, body: Seq<u8>)
    requires
        count.len() == 4,
        other.len() == 4,
    ensures
        spec_meta_value(seq![8u8] + count + body) == spec_meta_value(seq![8u8] + other + body),
{
    let a = seq![8u8] + count + body;
    let b = seq![8u8] + other + body;
    assert(a.skip(1).skip(4) =~= body);
    assert(b.skip(1).skip(4) =~= body);
}

/// The end marker ends a list of properties: the properties gathered so far
/// are the result, and what follows the marker is left.
pub proof fn lemma_meta_object_end(acc: Map<Seq<u8>, MetaValue>, rest: Seq<u8>)
    ensures
        spec_meta_properties(acc, seq![0u8, 0u8, 9u8] + rest) == Ok::<
            (Map<Seq<u8>, MetaValue>, Seq<u8>),
            Error,
        >((acc, rest)),
{
    let s = seq![0u8, 0u8, 9u8] + rest;
    assert(s.skip(3) =~= rest);
}

impl FlvParser {
    /// Decodes a string with a 16-bit length.
    pub fn parse_meta_string<R: FlvReader>(&mut self, reader: &mut R) -> (r: Result<Bytes, Error>)
        ensures
            match spec_meta_string(old(reader).pending()) {
                Ok((text, rest)) => r is Ok && r->Ok_0.pending() == text && final(reader).pending()
                    == rest,
                Err(e) => r is Err && r->Err_0 == e,
            },
            final(self).nalu_length() == old(self).nalu_length(),
    {
        let len: usize = reader.read_u16()? as usize;
        reader.read_to_bytes(len)
    }

    /// Decodes the properties of an object or an ECMA array, up to and
    /// including the end marker.
    pub fn parse_meta_object<R: FlvReader>(&mut self, reader: &mut R) -> (r: Result<
        MetaDataObject,
        Error,
    >)
        ensures
            decodes(
                spec_meta_properties(Map::empty(), old(reader).pending()),
                r,
                final(reader).pending(),
            ),
            r is Ok ==> r->Ok_0.wf(),
            final(self).nalu_length() == old(self).nalu_length(),
        decreases old(reader).pending().len(), 1nat,
    {
        let ghost s0 = old(reader).pending();
        let mut props: MetaDataObject = MetaDataObject::new();
        loop
            invariant
                s0 == old(reader).pending(),
                reader.pending().len() <= s0.len(),
                self.nalu_length() == old(self).nalu_length(),
                props.wf(),
                spec_meta_properties(Map::empty(), s0) == spec_meta_properties(
                    props@,
                    reader.pending(),
                ),
            decreases reader.pending().len(),
        {
            if reader.available() < 3 {
                return Ok(props);
            }
            let marker: &[u8] = reader.peek(0..3)?;
            if marker[0] == 0 && marker[1] == 0 && marker[2] == 9 {
                let _: u32 = reader.read_u24()?;
                return Ok(props);
            }
            let key: Bytes = self.parse_meta_string(reader)?;
            proof {
                lemma_meta_value_consumes(reader.pending());
            }
            let value: MetaDataValue = self.parse_meta_value(reader)?;
            props.insert(key, value);
        }
    }

    /// Decodes one value.
    pub fn parse_meta_value<R: FlvReader>(&mut self, reader: &mut R) -> (r: Result<
        MetaDataValue,
        Error,
    >)
        ensures
            decodes(spec_meta_value(old(reader).pending()), r, final(reader).pending()),
            r is Ok ==> value_wf(r->Ok_0),
            final(self).nalu_length() == old(self).nalu_length(),
        decreases old(reader).pending().len(), 0nat,
    {
        let ghost s = old(reader).pending();
        let marker: u8 = reader.read_u8()?;
        let ghost body = reader.pending();
        Ok(
            match marker {
                0 => MetaDataValue::Number(reader.read_f64()?),
                1 => MetaDataValue::Boolean(reader.read_u8()? != 0),
                2 => MetaDataValue::String(self.parse_meta_string(reader)?),
                3 => MetaDataValue::Object(self.parse_meta_object(reader)?),
                5 => MetaDataValue::Null,
                6 => MetaDataValue::Undefined,
                7 => MetaDataValue::Reference(reader.read_u16()?),
                8 => {
                    let _: u32 = reader.read_u32()?;
                    MetaDataValue::ECMAArray(self.parse_meta_object(reader)?)
                },
                10 => {
                    let len: u32 = reader.read_u32()?;
                    let ghost items0 = reader.pending();
                    let mut arr: Vec<MetaDataValue> = Vec::new();
                    let mut i: u32 = 0;
                    while i < len
                        invariant
                            i <= len,
                            s == old(reader).pending(),
                            s.len() >= 5,
                            s[0] == 10,
                            len == be32(s.skip(1)),
                            items0 == s.skip(1).skip(4),
                            reader.pending().len() < s.len(),
                            self.nalu_length() == old(self).nalu_length(),
                            values_wf(arr@),
                            spec_meta_items(Seq::empty(), items0, len as nat) == spec_meta_items(
                                values_model(arr@),
                                reader.pending(),
                                (len - i) as nat,
                            ),
                        decreases len - i,
                    {
                        let ghost before = arr@;
                        proof {
                            lemma_meta_value_consumes(reader.pending());
                        }
                        let value: MetaDataValue = self.parse_meta_value(reader)?;
                        arr.push(value);
                        i += 1;
                        assert(arr@.drop_last() =~= before);
                    }
                    MetaDataValue::StrictArray(arr)
                },
                11 => {
                    let date_time: u64 = reader.read_f64()?;
                    let local_date_time_offset: i16 = reader.read_i16()?;
                    assert(reader.pending() =~= body.skip(10));
                    MetaDataValue::Date(MetaDataDate { date_time, local_date_time_offset })
                },
                12 => {
                    let len: usize = reader.read_u32()? as usize;
                    let text: Bytes = reader.read_to_bytes(len)?;
                    assert(text.pending() =~= body.subrange(4, 4 + be32(body)));
                    assert(reader.pending() =~= body.skip(4 + be32(body)));
                    MetaDataValue::LongString(text)
                },
                id => MetaDataValue::Unknown(id),
            },
        )
    }

    /// Decodes a script data payload.
    pub fn parse_meta_tag<R: FlvReader>(&mut self, reader: &mut R) -> (r: Result<MetaTag, Error>)
        ensures
            decodes(spec_meta_tag(old(reader).pending()), r, final(reader).pending()),
            r is Ok ==> value_wf(r->Ok_0.value),
            final(self).nalu_length() == old(self).nalu_length(),
    {
        let _: u8 = reader.read_u8()?;
        let name: Bytes = self.parse_meta_string(reader)?;
        let value: MetaDataValue = self.parse_meta_value(reader)?;
        Ok(MetaTag { name, value })
    }
}

} // verus!
