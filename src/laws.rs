use vstd::prelude::*;

use crate::header::{all_zero, ScanError};
use crate::scan::{
    block_at, fail_spec, feed_spec, fresh_state, next_spec, padded, readable, scan_from,
    scan_measure, wanted_spec, EntryView, FedView, ScanState,
};

verus! {

/// What a driver that reads blocks from a store holding `data` does for one
/// request of the scanner: it reads the block that `wanted` names and feeds
/// it, or reports the read as failed when the block lies past the end.
pub open spec fn stream_once(st: ScanState, data: Seq<u8>) -> (ScanState, FedView) {
    match wanted_spec(st) {
        None => (st, FedView::Finished),
        Some(off) => if readable(data, off) {
            feed_spec(st, block_at(data, off))
        } else {
            fail_spec(st)
        },
    }
}

pub open spec fn fed_item(f: FedView) -> Option<Result<EntryView, ScanError>> {
    match f {
        FedView::Item(x) => Some(x),
        _ => None,
    }
}

/// One value of a block-by-block scan: a second block is read when the
/// first was all zero.
pub open spec fn stream_next(st: ScanState, data: Seq<u8>) -> (ScanState, Option<Result<EntryView, ScanError>>) {
    let (s1, f1) = stream_once(st, data);
    if f1 is NeedMore {
        let (s2, f2) = stream_once(s1, data);
        (s2, fed_item(f2))
    } else {
        (s1, fed_item(f1))
    }
}

/// Scanning block by block from a store and scanning a resident buffer agree:
/// from every state, over the same archive bytes, one step of each leads to
/// the same state and the same value, so both yield the same entries in the
/// same order and end the same way.
pub proof fn lemma_backends_agree(data: Seq<u8>, st: ScanState)
    requires
        st.pos >= 0,
    ensures
        stream_next(st, data) == next_spec(st, data),
{
}

/// Consecutive entries of a scan: entry `i + 1`'s header follows entry `i`'s
/// header block and its payload rounded up to whole blocks, and each payload
/// starts right after its header.
pub proof fn lemma_offsets_advance(data: Seq<u8>, st: ScanState, i: int)
    requires
        st.pos >= 0,
        0 <= i < scan_from(data, st).0.len(),
    ensures
        scan_from(data, st).0[i].entry_pos == scan_from(data, st).0[i].header_pos + 512,
        i == 0 ==> scan_from(data, st).0[0].header_pos == st.pos,
        i + 1 < scan_from(data, st).0.len() ==> scan_from(data, st).0[i + 1].header_pos
            == scan_from(data, st).0[i].header_pos + 512 + padded(
            scan_from(data, st).0[i].entry_sz,
        ),
    decreases scan_measure(data, st),
{
    let (st2, item) = next_spec(st, data);
    let rest = scan_from(data, st2);
    assert(item is Some && item->Some_0 is Ok);
    let e = item->Some_0->Ok_0;
    assert(scan_from(data, st).0 == seq![e] + rest.0);
    assert(padded(e.entry_sz) >= 0) by (nonlinear_arith)
        requires
            e.entry_sz >= 0,
    ;
    if i + 1 < scan_from(data, st).0.len() {
        lemma_offsets_advance(data, st2, i);
        if i > 0 {
            lemma_offsets_advance(data, st2, i - 1);
        } else {
            lemma_offsets_advance(data, st2, 0);
        }
    } else if i > 0 {
        lemma_offsets_advance(data, st2, i - 1);
    }
}

/// An archive of exactly two all-zero blocks yields no entry and no error.
pub proof fn lemma_empty_archive(data: Seq<u8>)
    requires
        data.len() == 1024,
        all_zero(data),
    ensures
        scan_from(data, fresh_state()) == (Seq::<EntryView>::empty(), None::<ScanError>),
{
    assert(all_zero(block_at(data, 0)));
    assert(all_zero(block_at(data, 512)));
}

/// An all-zero block followed by a block that is not all zero ends the scan
/// with `MissingTerminator`, and nothing comes after it.
pub proof fn lemma_lone_zero_block(data: Seq<u8>, st: ScanState)
    requires
        st.pos >= 0,
        !st.closed,
        !st.pending,
        readable(data, st.pos + 512),
        all_zero(block_at(data, st.pos)),
        !all_zero(block_at(data, st.pos + 512)),
    ensures
        next_spec(st, data).1 == Some(Err::<EntryView, ScanError>(ScanError::MissingTerminator)),
        next_spec(next_spec(st, data).0, data).1 is None,
        scan_from(data, st) == (Seq::<EntryView>::empty(), Some(ScanError::MissingTerminator)),
{
}

} // verus!
