//! Four-character codec identifiers.

use crate::reader::be_bytes;
use vstd::prelude::*;
use vstd::string::StringExecFns;
use vstd::utf8::decode_utf8;
use vstd::utf8::valid_utf8;

verus! {

pub const AUDIO_AC3: u32 = 0x6163_2d33;

pub const AUDIO_EC3: u32 = 0x6563_2d33;

pub const AUDIO_OPUS: u32 = 0x4f70_7573;

pub const AUDIO_MP3: u32 = 0x2e6d_7033;

pub const AUDIO_FLAC: u32 = 0x664c_6143;

pub const AUDIO_AAC: u32 = 0x6d70_3461;

pub const VIDEO_VP8: u32 = 0x7670_3038;

pub const VIDEO_VP9: u32 = 0x7670_3039;

pub const VIDEO_AV1: u32 = 0x6176_3031;

pub const VIDEO_AVC: u32 = 0x6176_6331;

pub const VIDEO_HEVC: u32 = 0x6876_6331;

/// Sorenson H.263, `M263` with the last character first.
pub const VIDEO_SORENSON_H263: u32 = 0x3336_324d;

/// Screen video, `SCR1` with the last character first.
pub const VIDEO_SCREEN1: u32 = 0x3152_4353;

/// On2 VP6, `VP06` with the last character first.
pub const VIDEO_VP6: u32 = 0x3630_5056;

/// On2 VP6 with alpha channel, `VP6a` with the last character first.
pub const VIDEO_VP6_ALPHA: u32 = 0x6136_5056;

/// Screen video version 2, `SCR2` with the last character first.
pub const VIDEO_SCREEN2: u32 = 0x3252_4353;

/// RealNetworks H.263, `H263` with the last character first.
pub const VIDEO_REAL_H263: u32 = 0x3336_3248;

/// A four-byte codec identifier. The field is the four bytes read as one
/// big-endian number, so two identifiers are equal exactly when their bytes
/// are.
#[derive(Clone, Copy, PartialEq, Eq, Hash, Debug, Structural)]
pub struct Fourcc(pub u32);

impl Fourcc {
    /// The four bytes, first byte first.
    pub open spec fn bytes(self) -> Seq<u8> {
        be_bytes(self.0 as int, 4)
    }

    /// The four bytes, first byte first.
    pub fn to_bytes(self) -> (out: [u8; 4])
        ensures
            out@ == self.bytes(),
    {
        let out: [u8; 4] = [
            (self.0 / 0x100_0000) as u8,
            (self.0 / 0x1_0000 % 0x100) as u8,
            (self.0 / 0x100 % 0x100) as u8,
            (self.0 % 0x100) as u8,
        ];
        out
    }
}

/// `core::str::from_utf8`: the text that `bytes` encode, where they are
/// valid UTF-8, and nothing where they are not.
#[verifier::external_body]
fn str_from_utf8(bytes: &[u8]) -> (r: Option<&str>)
    ensures
        r is Some <==> valid_utf8(bytes@),
        r is Some ==> r->Some_0@ == decode_utf8(bytes@),
{
    core::str::from_utf8(bytes).ok()
}

impl Fourcc {
    /// The identifier as text: its four bytes read as UTF-8, or `<ERR>`
    /// where they are not UTF-8.
    pub open spec fn text(self) -> Seq<char> {
        if valid_utf8(self.bytes()) {
            decode_utf8(self.bytes())
        } else {
            "<ERR>"@
        }
    }

    /// The identifier as text.
    pub fn to_string(&self) -> (s: String)
        ensures
            s@ == self.text(),
    {
        let bytes: [u8; 4] = self.to_bytes();
        match str_from_utf8(bytes.as_slice()) {
            Some(text) => String::from_str(text),
            None => String::from_str("<ERR>"),
        }
    }
}

impl Default for Fourcc {
    fn default() -> (r: Self)
        ensures
            r == Fourcc(0),
    {
        Fourcc(0)
    }
}

impl From<u32> for Fourcc {
    fn from(value: u32) -> (r: Self) {
        Fourcc(value)
    }
}

impl vstd::std_specs::convert::FromSpecImpl<u32> for Fourcc {
    open spec fn obeys_from_spec() -> bool {
        true
    }

    open spec fn from_spec(value: u32) -> Self {
        Fourcc(value)
    }
}

} // verus!
