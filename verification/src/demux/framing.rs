//! How the loop treats a container that is made of whole tags, and one that
//! stops in the middle of a tag.

use crate::demux::lemma_advance_rank;
use crate::demux::spec_advance;
use crate::demux::spec_demux;
use crate::demux::spec_run;
use crate::demux::spec_wanted;
use crate::demux::state_rank;
use crate::demux::type_selected;
use crate::demux::DemuxLoopView;
use crate::demux::DemuxResult;
use crate::demux::DemuxState;
use crate::demux::ReadEvent;
use crate::parser::spec_flv_header;
use crate::parser::tag::spec_flv_data;
use crate::parser::tag::spec_tag_header;
use crate::tag::FlvTagHeader;
use crate::tag::FlvTagView;
use vstd::prelude::*;

verus! {

/// The loop between two tags, with a parser that remembers the NAL unit
/// length width `width`.
pub open spec fn between_tags(width: u8, tag_types: u64) -> DemuxLoopView {
    DemuxLoopView { state: DemuxState::BackPointer, width, tag_types }
}

/// The tag header of the record `r`: the eleven bytes after the four bytes
/// that hold the size of the previous tag.
pub open spec fn record_header(r: Seq<u8>) -> FlvTagHeader
    recommends
        r.len() >= 15,
{
    spec_tag_header(r.subrange(4, 15))->Ok_0.0
}

/// Whether `r` is one whole tag as it stands in a container: the size of
/// the previous tag, a tag header, and as many bytes of payload as the
/// header declares.
pub open spec fn complete_record(r: Seq<u8>) -> bool {
    r.len() >= 15 && r.len() == 15 + record_header(r).data_size
}

/// Whether `t` is the front of a tag that the end of input cut short: it
/// stops within the size of the previous tag, within the tag header, or
/// within the payload.
pub open spec fn cut_short(t: Seq<u8>) -> bool {
    t.len() < 15 || t.len() < 15 + record_header(t).data_size
}

/// The records of `records` one after the other.
pub open spec fn concat_records(records: Seq<Seq<u8>>) -> Seq<u8>
    decreases records.len(),
{
    if records.len() == 0 {
        Seq::empty()
    } else {
        records[0] + concat_records(records.skip(1))
    }
}

/// Whether each record of `records` is a whole tag of a type that the mask
/// lets through and whose payload decodes, for a parser that remembers
/// `width` before the first of them.
pub open spec fn records_decode(width: u8, tag_types: u64, records: Seq<Seq<u8>>) -> bool
    decreases records.len(),
{
    records.len() == 0 || {
        let header = record_header(records[0]);
        &&& complete_record(records[0])
        &&& type_selected(tag_types, header.tag_type)
        &&& match spec_flv_data(width, header.tag_type, records[0].skip(15)) {
            Ok((_, after, _)) => records_decode(after, tag_types, records.skip(1)),
            Err(_) => false,
        }
    }
}

/// A whole tag at the front of the input is taken as one: where the mask
/// leaves its type out, it adds nothing and the loop goes on behind it;
/// where its payload decodes, it comes first in the sequence; where its
/// payload does not decode, the sequence ends with the decoder's error.
pub proof fn lemma_run_complete_record(width: u8, tag_types: u64, r: Seq<u8>, rest: Seq<u8>)
    requires
        complete_record(r),
    ensures
        spec_run(between_tags(width, tag_types), r + rest) == if !type_selected(
            tag_types,
            record_header(r).tag_type,
        ) {
            spec_run(between_tags(width, tag_types), rest)
        } else {
            match spec_flv_data(width, record_header(r).tag_type, r.skip(15)) {
                Err(e) => DemuxResult::failed(e),
                Ok((data, after, _)) => spec_run(between_tags(after, tag_types), rest).after(
                    seq![FlvTagView { header: record_header(r), data }],
                ),
            }
        },
{
    reveal(spec_advance);
    let s = r + rest;
    let header = record_header(r);
    let d0 = between_tags(width, tag_types);
    let d1 = DemuxLoopView { state: DemuxState::TagHeader, ..d0 };
    let d2 = DemuxLoopView { state: DemuxState::Payload { header }, ..d0 };
    let size = header.data_size as int;
    assert(s.skip(4).skip(11).take(size) =~= r.skip(15));
    assert(s.skip(4).skip(11).skip(size) =~= rest);
    assert(spec_run(d0, s) == spec_run(d1, s.skip(4)));
    assert(spec_run(d1, s.skip(4)) == spec_run(d2, s.skip(4).skip(11)));
}

/// A tag that the end of input cut short adds nothing to the sequence and
/// ends it without an error.
pub proof fn lemma_run_cut_short(width: u8, tag_types: u64, t: Seq<u8>)
    requires
        cut_short(t),
    ensures
        spec_run(between_tags(width, tag_types), t) == DemuxResult::done(),
{
    reveal(spec_advance);
    let d0 = between_tags(width, tag_types);
    let d1 = DemuxLoopView { state: DemuxState::TagHeader, ..d0 };
    if t.len() >= 4 {
        assert(spec_run(d0, t) == spec_run(d1, t.skip(4)));
        if t.len() >= 15 {
            let d2 = DemuxLoopView {
                state: DemuxState::Payload { header: record_header(t) },
                ..d0
            };
            assert(spec_run(d1, t.skip(4)) == spec_run(d2, t.skip(4).skip(11)));
        }
    }
}

/// A run of whole tags that are all let through and all decode, followed by
/// the end of input or by a tag that the end of input cut short, gives one
/// item for each whole tag and ends without an error.
pub proof fn lemma_run_records(
    width: u8,
    tag_types: u64,
    records: Seq<Seq<u8>>,
    tail: Seq<u8>,
)
    requires
        records_decode(width, tag_types, records),
        cut_short(tail),
    ensures
        spec_run(between_tags(width, tag_types), concat_records(records) + tail).tags.len()
            == records.len(),
        spec_run(between_tags(width, tag_types), concat_records(records) + tail).error is None,
    decreases records.len(),
{
    if records.len() == 0 {
        lemma_run_cut_short(width, tag_types, tail);
    } else {
        let r = records[0];
        let rest = concat_records(records.skip(1)) + tail;
        assert(concat_records(records) + tail =~= r + rest);
        lemma_run_complete_record(width, tag_types, r, rest);
        let after = spec_flv_data(width, record_header(r).tag_type, r.skip(15))->Ok_0.1;
        lemma_run_records(after, tag_types, records.skip(1), tail);
    }
}

/// The same for a whole container: after a container header and the bytes
/// that it tells to pass over, a run of whole tags that are all let through
/// and all decode, followed by the end of input or by a tag that the end of
/// input cut short, gives one item for each whole tag and ends without an
/// error.
pub proof fn lemma_demux_records(
    tag_types: u64,
    prologue: Seq<u8>,
    records: Seq<Seq<u8>>,
    tail: Seq<u8>,
)
    requires
        prologue.len() >= 9,
        spec_flv_header(prologue.take(9)) is Ok,
        prologue.len() == 9 + spec_flv_header(prologue.take(9))->Ok_0.0.remaining,
        records_decode(0, tag_types, records),
        cut_short(tail),
    ensures
        spec_demux(tag_types, prologue + concat_records(records) + tail).tags.len()
            == records.len(),
        spec_demux(tag_types, prologue + concat_records(records) + tail).error is None,
{
    reveal(spec_advance);
    let body = concat_records(records) + tail;
    let s = prologue + concat_records(records) + tail;
    let header = spec_flv_header(prologue.take(9))->Ok_0.0;
    let d0 = DemuxLoopView { state: DemuxState::Start, width: 0, tag_types };
    if header.remaining > 0 {
        let d1 = DemuxLoopView {
            state: DemuxState::HeaderRead { remaining: header.remaining },
            ..d0
        };
        assert(s.skip(9).skip(header.remaining as int) =~= body);
        assert(spec_run(d1, s.skip(9)) == spec_run(between_tags(0, tag_types), body));
    } else {
        assert(s.skip(9) =~= body);
    }
    lemma_run_records(0, tag_types, records, tail);
}

/// Every tag of the sequence is of a type that the mask lets through.
pub proof fn lemma_run_yields_selected(d: DemuxLoopView, s: Seq<u8>)
    ensures
        forall|i: int|
            0 <= i < spec_run(d, s).tags.len() ==> type_selected(
                d.tag_types,
                (#[trigger] spec_run(d, s).tags[i]).header.tag_type,
            ),
    decreases s.len(), state_rank(d.state),
{
    reveal(spec_advance);
    match spec_wanted(d.state) {
        None => {},
        Some(n) => {
            if s.len() >= n {
                let step = spec_advance(d, ReadEvent::Data(s.take(n as int)));
                if n == 0 {
                    lemma_advance_rank(d, s.take(n as int));
                }
                match step.item {
                    Some(Err(_)) => {},
                    _ => {
                        lemma_run_yields_selected(step.next, s.skip(n as int));
                    },
                }
            }
        },
    }
}

} // verus!
