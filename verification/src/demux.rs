//! The streaming loop, as a state machine that is fed the outcome of each
//! read, and a run of that machine over a container held in memory.

use crate::error::Error;
use crate::parser::spec_flv_header;
use crate::parser::tag::spec_flv_data;
use crate::parser::tag::spec_tag_header;
use crate::parser::FlvParser;
use crate::reader::bytes_content;
use crate::reader::FlvReader;
use crate::tag::FlvTag;
use crate::tag::FlvTagHeader;
use crate::tag::FlvTagType;
use crate::tag::FlvTagView;
use bytes::Bytes;
use vstd::prelude::*;

pub mod framing;

verus! {

/// A tag type mask that lets every tag through.
pub const DEMUX_ALL_TYPES: u64 = 0xffff_ffff_ffff_ffff;

/// Whether the mask `tag_types` has the bit of `tag_type` set: bit `n`
/// stands for the tag type with code `n`.
pub open spec fn type_selected(tag_types: u64, tag_type: FlvTagType) -> bool {
    let code = tag_type.code();
    code < 64 && tag_types & (1u64 << code) != 0
}

/// The mask [`DEMUX_ALL_TYPES`] lets through every tag type that a mask has
/// a bit for, and so every tag type that a tag header can hold.
pub proof fn lemma_all_types_selected(tag_type: FlvTagType)
    ensures
        type_selected(DEMUX_ALL_TYPES, tag_type) <==> tag_type.code() < 64,
{
    let code = tag_type.code();
    assert(code < 64 ==> 0xffff_ffff_ffff_ffffu64 & (1u64 << code) != 0) by (bit_vector);
}

/// Where the loop stands, and so what it reads next.
#[derive(Copy, Clone, Debug, PartialEq, Eq, Structural)]
pub enum DemuxState {
    /// Nothing has been read; the nine bytes of the container header come
    /// next.
    Start,
    /// The container header has been read; the bytes between it and the
    /// first tag come next.
    HeaderRead { remaining: u32 },
    /// Between two tags; the four bytes that hold the size of the previous
    /// tag come next.
    BackPointer,
    /// The eleven bytes of a tag header come next.
    TagHeader,
    /// The payload of the tag with this header comes next.
    Payload { header: FlvTagHeader },
    /// The sequence has ended.
    End,
}

/// How a read from the byte source ended.
#[derive(Debug)]
pub enum ReadOutcome {
    /// All the bytes asked for.
    Data(Bytes),
    /// The source ended before it had delivered all the bytes asked for.
    EndOfInput,
    /// The source failed.
    Failed,
}

/// What a [`ReadOutcome`] stands for, with the buffer replaced by its bytes.
pub enum ReadEvent {
    Data(Seq<u8>),
    EndOfInput,
    Failed,
}

impl View for ReadOutcome {
    type V = ReadEvent;

    open spec fn view(&self) -> ReadEvent {
        match self {
            ReadOutcome::Data(bytes) => ReadEvent::Data(bytes_content(*bytes)),
            ReadOutcome::EndOfInput => ReadEvent::EndOfInput,
            ReadOutcome::Failed => ReadEvent::Failed,
        }
    }
}

/// Everything that decides how the loop goes on.
pub struct DemuxLoopView {
    pub state: DemuxState,
    /// The NAL unit length width that the parser remembers.
    pub width: u8,
    /// The tag types to let through.
    pub tag_types: u64,
}

/// What one step of the loop leads to.
pub struct DemuxStep {
    /// The loop after the step.
    pub next: DemuxLoopView,
    /// What the step adds to the sequence, if anything.
    pub item: Option<Result<FlvTagView, Error>>,
}

/// The number of bytes that the loop reads next; `None` once the sequence
/// has ended.
pub open spec fn spec_wanted(state: DemuxState) -> Option<usize> {
    match state {
        DemuxState::Start => Some(9),
        DemuxState::HeaderRead { remaining } => Some(remaining as usize),
        DemuxState::BackPointer => Some(4),
        DemuxState::TagHeader => Some(11),
        DemuxState::Payload { header } => Some(header.data_size as usize),
        DemuxState::End => None,
    }
}

/// The step that the loop `d` takes when the read it asked for ends with
/// `event`.
///
/// A source that fails ends the sequence with an error, and so does one that
/// ends before the first tag. A source that ends later ends the sequence
/// without one. A tag whose type the mask leaves out is passed over; the
/// payload of any other tag is decoded and either joins the sequence or ends
/// it with the decoder's error.
#[verifier::opaque]
pub open spec fn spec_advance(d: DemuxLoopView, event: ReadEvent) -> DemuxStep {
    let to = |state: DemuxState| DemuxStep { next: DemuxLoopView { state, ..d }, item: None };
    let fail = |e: Error|
        DemuxStep { next: DemuxLoopView { state: DemuxState::End, ..d }, item: Some(Err(e)) };
    match event {
        ReadEvent::Failed => fail(Error::IoError),
        ReadEvent::EndOfInput => match d.state {
            DemuxState::Start | DemuxState::HeaderRead { .. } => fail(Error::IoError),
            _ => to(DemuxState::End),
        },
        ReadEvent::Data(bytes) => match d.state {
            DemuxState::Start => match spec_flv_header(bytes) {
                Err(e) => fail(e),
                Ok((header, _)) => if header.remaining > 0 {
                    to(DemuxState::HeaderRead { remaining: header.remaining })
                } else {
                    to(DemuxState::BackPointer)
                },
            },
            DemuxState::HeaderRead { .. } => to(DemuxState::BackPointer),
            DemuxState::BackPointer => to(DemuxState::TagHeader),
            DemuxState::TagHeader => match spec_tag_header(bytes) {
                Err(e) => fail(e),
                Ok((header, _)) => to(DemuxState::Payload { header }),
            },
            DemuxState::Payload { header } => {
                if !type_selected(d.tag_types, header.tag_type) {
                    to(DemuxState::BackPointer)
                } else {
                    match spec_flv_data(d.width, header.tag_type, bytes) {
                        Err(e) => fail(e),
                        Ok((data, width, _)) => DemuxStep {
                            next: DemuxLoopView { state: DemuxState::BackPointer, width, ..d },
                            item: Some(Ok(FlvTagView { header, data })),
                        },
                    }
                }
            },
            DemuxState::End => to(DemuxState::End),
        },
    }
}

/// The streaming loop. It owns the parser, and with it what the parser
/// remembers from one video tag to the next.
#[derive(Debug)]
pub struct DemuxLoop {
    state: DemuxState,
    tag_types: u64,
    parser: FlvParser,
}

impl View for DemuxLoop {
    type V = DemuxLoopView;

    closed spec fn view(&self) -> DemuxLoopView {
        DemuxLoopView {
            state: self.state,
            width: self.parser.nalu_length(),
            tag_types: self.tag_types,
        }
    }
}

/// Whether the mask `tag_types` has the bit of `tag_type` set.
pub fn is_type_selected(tag_types: u64, tag_type: FlvTagType) -> (r: bool)
    ensures
        r == type_selected(tag_types, tag_type),
{
    let code: u8 = u8::from(tag_type);
    code < 64 && tag_types & (1u64 << code) != 0
}

impl DemuxLoop {
    /// A loop at its start that lets through the tag types of `tag_types`.
    pub fn new(tag_types: u64) -> (r: Self)
        ensures
            r@ == (DemuxLoopView { state: DemuxState::Start, width: 0, tag_types }),
    {
        DemuxLoop { state: DemuxState::Start, tag_types, parser: FlvParser::new() }
    }

    /// Where the loop stands.
    pub fn state(&self) -> (r: DemuxState)
        ensures
            r == self@.state,
    {
        self.state
    }

    /// The number of bytes to read next and to hand to [`DemuxLoop::advance`];
    /// `None` once the sequence has ended.
    pub fn wanted(&self) -> (r: Option<usize>)
        ensures
            r == spec_wanted(self@.state),
    {
        match self.state {
            DemuxState::Start => Some(9),
            DemuxState::HeaderRead { remaining } => Some(remaining as usize),
            DemuxState::BackPointer => Some(4),
            DemuxState::TagHeader => Some(11),
            DemuxState::Payload { header } => Some(header.data_size as usize),
            DemuxState::End => None,
        }
    }

    /// Takes the outcome of the read that the loop asked for and returns what
    /// joins the sequence, if anything.
    pub fn advance(&mut self, outcome: ReadOutcome) -> (item: Option<Result<FlvTag, Error>>)
        requires
            spec_wanted(old(self)@.state) is Some,
            outcome@ matches ReadEvent::Data(bytes) ==> spec_wanted(old(self)@.state) == Some(
                bytes.len() as usize,
            ),
        ensures
            final(self)@ == spec_advance(old(self)@, outcome@).next,
            match spec_advance(old(self)@, outcome@).item {
                None => item is None,
                Some(Ok(tag)) => item is Some && item->Some_0 is Ok && item->Some_0->Ok_0@ == tag,
                Some(Err(e)) => item is Some && item->Some_0 is Err && item->Some_0->Err_0 == e,
            },
    {
        reveal(spec_advance);
        let mut data: Bytes = match outcome {
            ReadOutcome::Data(data) => data,
            ReadOutcome::EndOfInput => {
                let at_tag: bool = match self.state {
                    DemuxState::Start => false,
                    DemuxState::HeaderRead { .. } => false,
                    _ => true,
                };
                self.state = DemuxState::End;
                if at_tag {
                    return None;
                } else {
                    return Some(Err(Error::IoError));
                }
            },
            ReadOutcome::Failed => {
                self.state = DemuxState::End;
                return Some(Err(Error::IoError));
            },
        };
        match self.state {
            DemuxState::Start => {
                match self.parser.parse_header(&mut data) {
                    Ok(header) => {
                        if header.remaining > 0 {
                            self.state = DemuxState::HeaderRead { remaining: header.remaining };
                        } else {
                            self.state = DemuxState::BackPointer;
                        }
                        None
                    },
                    Err(e) => {
                        self.state = DemuxState::End;
                        Some(Err(e))
                    },
                }
            },
            DemuxState::HeaderRead { .. } => {
                self.state = DemuxState::BackPointer;
                None
            },
            DemuxState::BackPointer => {
                self.state = DemuxState::TagHeader;
                None
            },
            DemuxState::TagHeader => {
                match self.parser.parse_tag_header(&mut data) {
                    Ok(header) => {
                        self.state = DemuxState::Payload { header };
                        None
                    },
                    Err(e) => {
                        self.state = DemuxState::End;
                        Some(Err(e))
                    },
                }
            },
            DemuxState::Payload { header } => {
                if is_type_selected(self.tag_types, header.tag_type) {
                    match self.parser.parse_flv_data(&mut data, header.tag_type) {
                        Ok(tag_data) => {
                            self.state = DemuxState::BackPointer;
                            Some(Ok(FlvTag { header, data: tag_data }))
                        },
                        Err(e) => {
                            self.state = DemuxState::End;
                            Some(Err(e))
                        },
                    }
                } else {
                    self.state = DemuxState::BackPointer;
                    None
                }
            },
            DemuxState::End => None,
        }
    }
}

/// A sequence of tags and how it ended.
pub struct DemuxResult {
    /// The tags, in stream order.
    pub tags: Seq<FlvTagView>,
    /// The error that ended the sequence, if one did.
    pub error: Option<Error>,
}

impl DemuxResult {
    /// The empty sequence that ends without an error.
    pub open spec fn done() -> DemuxResult {
        DemuxResult { tags: Seq::empty(), error: None }
    }

    /// The empty sequence that ends with the error `e`.
    pub open spec fn failed(e: Error) -> DemuxResult {
        DemuxResult { tags: Seq::empty(), error: Some(e) }
    }

    /// The sequence with `tags` in front of it.
    pub open spec fn after(self, tags: Seq<FlvTagView>) -> DemuxResult {
        DemuxResult { tags: tags + self.tags, error: self.error }
    }
}

/// Orders the states that may follow one another without a byte being read.
pub open spec fn state_rank(state: DemuxState) -> nat {
    match state {
        DemuxState::Start => 3,
        DemuxState::HeaderRead { .. } => 2,
        DemuxState::Payload { .. } => 1,
        _ => 0,
    }
}

/// A step that reads no byte leads to a state of lower rank.
pub proof fn lemma_advance_rank(d: DemuxLoopView, bytes: Seq<u8>)
    requires
        spec_wanted(d.state) == Some(bytes.len() as usize),
        bytes.len() == 0,
    ensures
        state_rank(spec_advance(d, ReadEvent::Data(bytes)).next.state) < state_rank(d.state),
{
    reveal(spec_advance);
}

/// The sequence that the loop `d` produces from a byte source that delivers
/// `s` and then ends: each read takes the bytes it asks for from the front
/// of what is left, or meets the end of input where fewer are left.
pub open spec fn spec_run(d: DemuxLoopView, s: Seq<u8>) -> DemuxResult
    decreases s.len(), state_rank(d.state),
    via spec_run_decreases
{
    match spec_wanted(d.state) {
        None => DemuxResult::done(),
        Some(n) => {
            if s.len() < n {
                match spec_advance(d, ReadEvent::EndOfInput).item {
                    Some(Err(e)) => DemuxResult::failed(e),
                    _ => DemuxResult::done(),
                }
            } else {
                let step = spec_advance(d, ReadEvent::Data(s.take(n as int)));
                match step.item {
                    Some(Err(e)) => DemuxResult::failed(e),
                    Some(Ok(tag)) => spec_run(step.next, s.skip(n as int)).after(seq![tag]),
                    None => spec_run(step.next, s.skip(n as int)),
                }
            }
        },
    }
}

#[via_fn]
proof fn spec_run_decreases(d: DemuxLoopView, s: Seq<u8>) {
    if spec_wanted(d.state) == Some(0usize) {
        lemma_advance_rank(d, s.take(0));
    }
}

/// The sequence of tags that the container `s` holds, for a consumer that
/// lets through the tag types of `tag_types`.
pub open spec fn spec_demux(tag_types: u64, s: Seq<u8>) -> DemuxResult {
    spec_run(DemuxLoopView { state: DemuxState::Start, width: 0, tag_types }, s)
}

/// What each tag of a list stands for, in order.
pub open spec fn tag_views(tags: Seq<FlvTag>) -> Seq<FlvTagView> {
    tags.map_values(|t: FlvTag| t@)
}

/// The tags of a container and how reading it ended.
#[derive(Debug)]
pub struct DemuxOutput {
    /// The tags, in stream order.
    pub tags: Vec<FlvTag>,
    /// The error that ended the sequence, if one did.
    pub error: Option<Error>,
}

impl View for DemuxOutput {
    type V = DemuxResult;

    open spec fn view(&self) -> DemuxResult {
        DemuxResult { tags: tag_views(self.tags@), error: self.error }
    }
}

/// Demultiplexes a container that is held in memory as a whole, letting
/// through the tag types of `tag_types`.
pub fn demux_flv_stream(input: Bytes, tag_types: u64) -> (out: DemuxOutput)
    ensures
        out@ == spec_demux(tag_types, bytes_content(input)),
{
    let ghost s0 = bytes_content(input);
    let mut source: Bytes = input;
    let mut demux: DemuxLoop = DemuxLoop::new(tag_types);
    let mut tags: Vec<FlvTag> = Vec::new();
    loop
        invariant
            s0 == bytes_content(input),
            spec_demux(tag_types, s0) == spec_run(demux@, source.pending()).after(
                tag_views(tags@),
            ),
        decreases source.pending().len(), state_rank(demux@.state),
    {
        let ghost before = tag_views(tags@);
        let n: usize = match demux.wanted() {
            Some(n) => n,
            None => {
                return DemuxOutput { tags, error: None };
            },
        };
        // a read that cannot be served in full meets the end of the input
        let outcome: ReadOutcome = match source.read_to_bytes(n) {
            Ok(chunk) => ReadOutcome::Data(chunk),
            Err(_) => ReadOutcome::EndOfInput,
        };
        proof {
            if outcome is EndOfInput {
                reveal(spec_advance);
                assert(spec_advance(demux@, ReadEvent::EndOfInput).next.state == DemuxState::End);
            }
            if n == 0 {
                lemma_advance_rank(demux@, Seq::empty());
                assert(outcome@ == ReadEvent::Data(Seq::<u8>::empty())) by {
                    assert(outcome->Data_0.pending() =~= Seq::<u8>::empty());
                }
            }
        }
        match demux.advance(outcome) {
            Some(Ok(tag)) => {
                tags.push(tag);
                proof {
                    let next = spec_run(demux@, source.pending());
                    assert(tag_views(tags@) =~= before + seq![tag@]);
                    assert(before + (seq![tag@] + next.tags) =~= tag_views(tags@) + next.tags);
                }
            },
            Some(Err(e)) => {
                return DemuxOutput { tags, error: Some(e) };
            },
            None => {
                if demux.wanted().is_none() {
                    return DemuxOutput { tags, error: None };
                }
            },
        }
    }
}

} // verus!
