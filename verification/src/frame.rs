//! Coded frames for a frame pipeline: the video tags of a container, picked
//! by track and brought to a common shape.

use crate::demux::spec_advance;
use crate::demux::spec_demux;
use crate::demux::spec_run;
use crate::demux::state_rank;
use crate::demux::lemma_advance_rank;
use crate::demux::DemuxLoop;
use crate::demux::DemuxState;
use crate::demux::ReadEvent;
use crate::demux::ReadOutcome;
use crate::error::Error;
use crate::fourcc::Fourcc;
use crate::reader::bytes_content;
use crate::reader::contents;
use crate::reader::FlvReader;
use crate::tag::FlvTag;
use crate::tag::FlvTagData;
use crate::tag::FlvTagDataView;
use crate::tag::FlvTagView;
use bytes::Bytes;
use vstd::prelude::*;

verus! {

/// Flag of a stream that carries audio.
pub const AUDIO_STREAM: u32 = 0x1_0000;

/// Flag of a stream that carries video.
pub const VIDEO_STREAM: u32 = 0x2_0000;

/// Flag of a stream that carries metadata.
pub const METADATA_STREAM: u32 = 0x4_0000;

/// One coded video frame.
#[derive(Debug)]
pub struct FlvFrame {
    /// Decode time of the tag, in milliseconds.
    timestamp: u32,
    track_id: u32,
    flags: u32,
    /// Presentation time minus decode time of the tag, in milliseconds.
    pts_offset: i32,
    codec: Fourcc,
    params_count: u32,
    payload: Vec<Bytes>,
}

/// What a [`FlvFrame`] stands for. Times are a thousand times those of the
/// tag, which counts in milliseconds.
pub struct FlvFrameView {
    /// Decode time.
    pub dts: u64,
    /// Presentation time minus decode time.
    pub pts_offset: i64,
    pub track_id: u32,
    pub flags: u32,
    pub codec: Fourcc,
    /// How many of the leading segments of `payload` are parameter sets.
    pub params_count: u32,
    /// The coded segments, parameter sets first.
    pub payload: Seq<Seq<u8>>,
}

impl View for FlvFrame {
    type V = FlvFrameView;

    closed spec fn view(&self) -> FlvFrameView {
        FlvFrameView {
            dts: (self.timestamp * 1000) as u64,
            pts_offset: (self.pts_offset * 1000) as i64,
            track_id: self.track_id,
            flags: self.flags,
            codec: self.codec,
            params_count: self.params_count,
            payload: contents(self.payload@),
        }
    }
}

impl FlvFrameView {
    /// How many segments are parameter sets: the declared count, or all of
    /// them where fewer are there.
    pub open spec fn params_len(self) -> int {
        if self.params_count <= self.payload.len() {
            self.params_count as int
        } else {
            self.payload.len() as int
        }
    }
}

impl FlvFrame {
    /// Presentation time: decode time plus the presentation time offset.
    pub fn pts(&self) -> (r: i64)
        ensures
            r == self@.dts + self@.pts_offset,
    {
        self.timestamp as i64 * 1000 + self.pts_offset as i64 * 1000
    }

    /// Decode time.
    pub fn dts(&self) -> (r: u64)
        ensures
            r == self@.dts,
    {
        self.timestamp as u64 * 1000
    }

    /// Wall-clock time at which the stream began; a container does not say.
    pub fn timestamp(&self) -> (r: Option<u64>)
        ensures
            r is None,
    {
        None
    }

    /// Codec of the payload.
    pub fn codec(&self) -> (r: Fourcc)
        ensures
            r == self@.codec,
    {
        self.codec
    }

    /// Frame flags.
    pub fn flags(&self) -> (r: u32)
        ensures
            r == self@.flags,
    {
        self.flags
    }

    /// Track that the frame belongs to.
    pub fn track(&self) -> (r: u32)
        ensures
            r == self@.track_id,
    {
        self.track_id
    }

    /// The parameter sets: the leading segments of the payload.
    pub fn params(&self) -> (r: &[Bytes])
        ensures
            contents(r@) == self@.payload.take(self@.params_len()),
    {
        let all: &[Bytes] = self.payload.as_slice();
        let n: usize = if (self.params_count as usize) <= all.len() {
            self.params_count as usize
        } else {
            all.len()
        };
        let head: &[Bytes] = &all[0..n];
        head
    }

    /// The coded units: the segments of the payload after the parameter
    /// sets.
    pub fn units(&self) -> (r: &[Bytes])
        ensures
            contents(r@) == self@.payload.skip(self@.params_len()),
    {
        let all: &[Bytes] = self.payload.as_slice();
        let n: usize = if (self.params_count as usize) <= all.len() {
            self.params_count as usize
        } else {
            all.len()
        };
        let tail: &[Bytes] = &all[n..all.len()];
        tail
    }
}

/// The tag type mask that stands for the stream flags `flags`: bit 8 for
/// audio, bit 9 for video, bit 18 for metadata.
pub open spec fn spec_tag_type_filter(flags: u32) -> u64 {
    let audio: u64 = if flags & AUDIO_STREAM == AUDIO_STREAM {
        0x100
    } else {
        0
    };
    let video: u64 = if flags & VIDEO_STREAM == VIDEO_STREAM {
        0x200
    } else {
        0
    };
    let metadata: u64 = if flags & METADATA_STREAM == METADATA_STREAM {
        0x4_0000
    } else {
        0
    };
    audio | video | metadata
}

/// Whether the mask `tracks_filter` lets the track `track_id` through: bit
/// `n` stands for track `n`; a track without a bit is let through.
pub open spec fn track_selected(tracks_filter: u64, track_id: u8) -> bool {
    track_id >= 64 || tracks_filter & (1u64 << track_id) != 0
}

/// The frame that the tag `tag` becomes, if it becomes one: only a video tag
/// of a track that the mask lets through does.
pub open spec fn spec_frame(tracks_filter: u64, tag: FlvTagView) -> Option<FlvFrameView> {
    match tag.data {
        FlvTagDataView::Video(video) => {
            if track_selected(tracks_filter, video.track_id) {
                Some(
                    FlvFrameView {
                        dts: (tag.header.timestamp * 1000) as u64,
                        pts_offset: (video.pts_offset * 1000) as i64,
                        track_id: video.track_id as u32,
                        flags: 0,
                        codec: video.header.fourcc,
                        params_count: video.param_count,
                        payload: video.nalus,
                    },
                )
            } else {
                None
            }
        },
        _ => None,
    }
}

/// The frames that the tags `tags` become, in order.
pub open spec fn spec_frames(tracks_filter: u64, tags: Seq<FlvTagView>) -> Seq<FlvFrameView>
    decreases tags.len(),
{
    if tags.len() == 0 {
        Seq::empty()
    } else {
        let rest = spec_frames(tracks_filter, tags.skip(1));
        match spec_frame(tracks_filter, tags[0]) {
            Some(frame) => seq![frame] + rest,
            None => rest,
        }
    }
}

/// Every frame comes from a track that the mask lets through: a track with
/// a bit in the mask has its bit set.
pub proof fn lemma_frames_of_selected_tracks(tracks_filter: u64, tags: Seq<FlvTagView>)
    ensures
        forall|i: int|
            0 <= i < spec_frames(tracks_filter, tags).len() ==> {
                let track = (#[trigger] spec_frames(tracks_filter, tags)[i]).track_id;
                track < 64 ==> tracks_filter & (1u64 << track) != 0
            },
    decreases tags.len(),
{
    if tags.len() > 0 {
        lemma_frames_of_selected_tracks(tracks_filter, tags.skip(1));
        let rest = spec_frames(tracks_filter, tags.skip(1));
        match spec_frame(tracks_filter, tags[0]) {
            Some(frame) => {
                assert forall|i: int| 0 <= i < (seq![frame] + rest).len() implies {
                    let t = (#[trigger] (seq![frame] + rest)[i]).track_id;
                    t < 64 ==> tracks_filter & (1u64 << t) != 0
                } by {
                    if i > 0 {
                        assert((seq![frame] + rest)[i] == rest[i - 1]);
                    }
                }
            },
            None => {},
        }
    }
}

/// A sequence of frames and how it ended.
pub struct FrameResult {
    /// The frames, in stream order.
    pub frames: Seq<FlvFrameView>,
    /// The error that ended the sequence, if one did.
    pub error: Option<Error>,
}

/// The frames of a container and how reading it ended.
#[derive(Debug)]
pub struct FrameOutput {
    /// The frames, in stream order.
    pub frames: Vec<FlvFrame>,
    /// The error that ended the sequence, if one did.
    pub error: Option<Error>,
}

/// What each frame of a list stands for, in order.
pub open spec fn frame_views(frames: Seq<FlvFrame>) -> Seq<FlvFrameView> {
    frames.map_values(|f: FlvFrame| f@)
}

impl View for FrameOutput {
    type V = FrameResult;

    open spec fn view(&self) -> FrameResult {
        FrameResult { frames: frame_views(self.frames@), error: self.error }
    }
}

/// Turns the tags of a container into frames.
#[derive(Debug, Clone, Copy)]
pub struct FlvDemuxer {
    flags_filter: u32,
    tracks_filter: u64,
}

/// What decides which frames a [`FlvDemuxer`] produces.
pub struct FlvDemuxerView {
    /// The kinds of stream to read, as stream flags.
    pub flags_filter: u32,
    /// The tracks to let through.
    pub tracks_filter: u64,
}

impl View for FlvDemuxer {
    type V = FlvDemuxerView;

    closed spec fn view(&self) -> FlvDemuxerView {
        FlvDemuxerView { flags_filter: self.flags_filter, tracks_filter: self.tracks_filter }
    }
}

/// The frames that a demuxer `d` produces from the container `s`.
pub open spec fn spec_handle(d: FlvDemuxerView, s: Seq<u8>) -> FrameResult {
    let tags = spec_demux(spec_tag_type_filter(d.flags_filter), s);
    FrameResult { frames: spec_frames(d.tracks_filter, tags.tags), error: tags.error }
}

impl Default for FlvDemuxer {
    fn default() -> (r: Self)
        ensures
            r@ == (FlvDemuxerView {
                flags_filter: VIDEO_STREAM,
                tracks_filter: 0xffff_ffff_ffff_ffff,
            }),
    {
        FlvDemuxer { flags_filter: VIDEO_STREAM, tracks_filter: 0xffff_ffff_ffff_ffff }
    }
}

impl FlvDemuxer {
    /// A demuxer that reads the kinds of stream flagged in `flags_filter` and
    /// lets through the tracks of `tracks_filter`.
    pub fn new(flags_filter: u32, tracks_filter: u64) -> (r: Self)
        ensures
            r@ == (FlvDemuxerView { flags_filter, tracks_filter }),
    {
        FlvDemuxer { flags_filter, tracks_filter }
    }

    /// The tag type mask to demultiplex with.
    pub fn tag_type_filter(&self) -> (r: u64)
        ensures
            r == spec_tag_type_filter(self@.flags_filter),
    {
        let mut tag_type_filter: u64 = 0;
        if self.flags_filter & AUDIO_STREAM == AUDIO_STREAM {
            tag_type_filter |= 0x100;
        }
        if self.flags_filter & VIDEO_STREAM == VIDEO_STREAM {
            tag_type_filter |= 0x200;
        }
        if self.flags_filter & METADATA_STREAM == METADATA_STREAM {
            tag_type_filter |= 0x4_0000;
        }
        assert(forall|a: u64| #[trigger] (0u64 | a) == a) by (bit_vector);
        assert(forall|a: u64| #[trigger] (a | 0u64) == a) by (bit_vector);
        tag_type_filter
    }

    /// Turns a tag into a frame, if it is a video tag of a track that is let
    /// through.
    pub fn handle_tag(&self, tag: FlvTag) -> (r: Option<FlvFrame>)
        ensures
            match spec_frame(self@.tracks_filter, tag@) {
                Some(frame) => r is Some && r->Some_0@ == frame,
                None => r is None,
            },
    {
        match tag.data {
            FlvTagData::Video(vtag) => {
                let selected: bool = vtag.track_id >= 64 || self.tracks_filter & (1u64
                    << vtag.track_id) != 0;
                if selected {
                    Some(
                        FlvFrame {
                            timestamp: tag.header.timestamp,
                            track_id: vtag.track_id as u32,
                            flags: 0,
                            pts_offset: vtag.body.pts_offset,
                            codec: vtag.header.fourcc,
                            params_count: vtag.body.param_count,
                            payload: vtag.body.nalus,
                        },
                    )
                } else {
                    None
                }
            },
            FlvTagData::Audio(_) => None,
            FlvTagData::Meta(_) => None,
            FlvTagData::Unknown => None,
        }
    }

    /// Demultiplexes a container that is held in memory as a whole and turns
    /// its tags into frames.
    pub fn handle(&self, input: Bytes) -> (out: FrameOutput)
        ensures
            out@ == spec_handle(self@, bytes_content(input)),
    {
        let ghost s0 = bytes_content(input);
        let ghost tracks = self@.tracks_filter;
        let tag_types: u64 = self.tag_type_filter();
        let mut source: Bytes = input;
        let mut demux: DemuxLoop = DemuxLoop::new(tag_types);
        let mut frames: Vec<FlvFrame> = Vec::new();
        loop
            invariant
                s0 == bytes_content(input),
                tracks == self@.tracks_filter,
                tag_types == spec_tag_type_filter(self@.flags_filter),
                spec_handle(self@, s0).frames == frame_views(frames@) + spec_frames(
                    tracks,
                    spec_run(demux@, source.pending()).tags,
                ),
                spec_handle(self@, s0).error == spec_run(demux@, source.pending()).error,
            decreases source.pending().len(), state_rank(demux@.state),
        {
            let ghost before = frame_views(frames@);
            let n: usize = match demux.wanted() {
                Some(n) => n,
                None => {
                    return FrameOutput { frames, error: None };
                },
            };
            // a read that cannot be served in full meets the end of the input
            let outcome: ReadOutcome = match source.read_to_bytes(n) {
                Ok(chunk) => ReadOutcome::Data(chunk),
                Err(_) => ReadOutcome::EndOfInput,
            };
            proof {
                if outcome is EndOfInput {
                    reveal(spec_advance);
                    assert(spec_advance(demux@, ReadEvent::EndOfInput).next.state
                        == DemuxState::End);
                }
                if n == 0 {
                    lemma_advance_rank(demux@, Seq::empty());
                    assert(outcome@ == ReadEvent::Data(Seq::<u8>::empty())) by {
                        assert(outcome->Data_0.pending() =~= Seq::<u8>::empty());
                    }
                }
            }
            match demux.advance(outcome) {
                Some(Ok(tag)) => {
                    let ghost next = spec_run(demux@, source.pending());
                    let ghost first = tag@;
                    assert((seq![first] + next.tags).skip(1) =~= next.tags);
                    match self.handle_tag(tag) {
                        Some(frame) => {
                            frames.push(frame);
                            assert(frame_views(frames@) =~= before + seq![frame@]);
                        },
                        None => {},
                    }
                },
                Some(Err(e)) => {
                    return FrameOutput { frames, error: Some(e) };
                },
                None => {
                    if demux.wanted().is_none() {
                        return FrameOutput { frames, error: None };
                    }
                },
            }
        }
    }
}

} // verus!
