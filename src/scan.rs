use vstd::prelude::*;

use crate::header::{all_zero, decode_header, header_spec, is_zero_block, ScanError, BLOCK_SZ};

verus! {

/// One decoded entry: where its header and payload sit, the payload's size,
/// whether it is a regular file, and its path.
pub struct RawTarEntry {
    pub header_pos: u64,
    pub entry_pos: u64,
    pub entry_sz: u64,
    pub is_file: bool,
    pub path: String,
}

/// The mathematical value of a `RawTarEntry`.
pub struct EntryView {
    pub header_pos: int,
    pub entry_pos: int,
    pub entry_sz: int,
    pub is_file: bool,
    pub path: Seq<char>,
}

impl View for RawTarEntry {
    type V = EntryView;

    open spec fn view(&self) -> EntryView {
        EntryView {
            header_pos: self.header_pos as int,
            entry_pos: self.entry_pos as int,
            entry_sz: self.entry_sz as int,
            is_file: self.is_file,
            path: self.path@,
        }
    }
}

impl RawTarEntry {
    /// Byte offset of the entry's payload.
    pub fn raw_file_position(&self) -> (r: u64)
        ensures
            r == self.entry_pos,
    {
        self.entry_pos
    }

    /// Size of the entry's payload in bytes.
    pub fn size(&self) -> (r: u64)
        ensures
            r == self.entry_sz,
    {
        self.entry_sz
    }
}

/// Bytes that a payload of `sz` bytes occupies: whole blocks.
pub open spec fn padded(sz: int) -> int {
    (sz + 511) / 512 * 512
}

pub open spec fn readable(data: Seq<u8>, pos: int) -> bool {
    0 <= pos && pos + 512 <= data.len()
}

pub open spec fn block_at(data: Seq<u8>, pos: int) -> Seq<u8> {
    data.subrange(pos, pos + 512)
}

/// The state of a scan: the offset of the next header, whether the scan has
/// ended, and whether one all-zero block has been seen at `pos`.
pub struct ScanState {
    pub pos: int,
    pub closed: bool,
    pub pending: bool,
}

pub open spec fn fresh_state() -> ScanState {
    ScanState { pos: 0, closed: false, pending: false }
}

/// What one step of a scan produces.
pub enum Step {
    Entry(EntryView, int),
    End,
    Fail(ScanError),
}

/// The step for a header block `b` at `pos` that is not all zero. An entry
/// whose next header would lie outside a 64-bit offset space is a read failure.
pub open spec fn entry_step(b: Seq<u8>, pos: int) -> Step {
    match header_spec(b) {
        Err(e) => Step::Fail(e),
        Ok((path, sz, is_file)) => {
            let next = pos + 512 + padded(sz as int);
            if next + 1024 > u64::MAX {
                Step::Fail(ScanError::IoError)
            } else {
                Step::Entry(
                    EntryView {
                        header_pos: pos,
                        entry_pos: pos + 512,
                        entry_sz: sz as int,
                        is_file,
                        path,
                    },
                    next,
                )
            }
        },
    }
}

/// The step once an all-zero block has been seen at `pos`.
pub open spec fn terminator_step(data: Seq<u8>, pos: int) -> Step {
    if !readable(data, pos + 512) {
        Step::Fail(ScanError::IoError)
    } else if all_zero(block_at(data, pos + 512)) {
        Step::End
    } else {
        Step::Fail(ScanError::MissingTerminator)
    }
}

/// One step of a scan of the archive `data` at the header offset `pos`.
pub open spec fn scan_step(data: Seq<u8>, pos: int) -> Step {
    if !readable(data, pos) {
        Step::Fail(ScanError::IoError)
    } else if all_zero(block_at(data, pos)) {
        terminator_step(data, pos)
    } else {
        entry_step(block_at(data, pos), pos)
    }
}

/// The state and the value that a step leads to.
pub open spec fn after_step(st: ScanState, s: Step) -> (ScanState, Option<Result<EntryView, ScanError>>) {
    match s {
        Step::Entry(e, next) => (ScanState { pos: next, closed: false, pending: false }, Some(Ok(e))),
        Step::End => (ScanState { pos: st.pos + 1024, closed: true, pending: false }, None),
        Step::Fail(e) => (ScanState { pos: st.pos, closed: true, pending: false }, Some(Err(e))),
    }
}

/// A measure that every entry a scan produces makes smaller.
pub open spec fn scan_measure(data: Seq<u8>, st: ScanState) -> nat {
    if st.closed {
        0
    } else if st.pos > data.len() {
        1
    } else {
        (data.len() - st.pos + 2) as nat
    }
}

/// Everything a scan of `data` from `st` produces: its entries in order, and
/// the error that ended it, if one did.
pub open spec fn scan_from(data: Seq<u8>, st: ScanState) -> (Seq<EntryView>, Option<ScanError>)
    decreases scan_measure(data, st),
{
    let (st2, item) = next_spec(st, data);
    match item {
        None => (Seq::empty(), None),
        Some(Err(e)) => (Seq::empty(), Some(e)),
        Some(Ok(e)) => {
            let rest = scan_from(data, st2);
            (seq![e] + rest.0, rest.1)
        },
    }
}

/// What `next` does on the archive `data` from the state `st`.
pub open spec fn next_spec(st: ScanState, data: Seq<u8>) -> (ScanState, Option<Result<EntryView, ScanError>>) {
    if st.closed {
        (st, None)
    } else if st.pending {
        after_step(st, terminator_step(data, st.pos))
    } else {
        after_step(st, scan_step(data, st.pos))
    }
}

pub open spec fn item_view(r: Option<Result<RawTarEntry, ScanError>>) -> Option<Result<EntryView, ScanError>> {
    match r {
        None => None,
        Some(Ok(e)) => Some(Ok(e@)),
        Some(Err(e)) => Some(Err(e)),
    }
}

/// What feeding one block to the scanner yields.
pub enum Fed {
    /// The block was all zero: hand over the following block.
    NeedMore,
    /// An entry, or the error that ends the scan.
    Item(Result<RawTarEntry, ScanError>),
    /// The scan has ended.
    Finished,
}

pub enum FedView {
    NeedMore,
    Item(Result<EntryView, ScanError>),
    Finished,
}

impl View for Fed {
    type V = FedView;

    open spec fn view(&self) -> FedView {
        match self {
            Fed::NeedMore => FedView::NeedMore,
            Fed::Item(Ok(e)) => FedView::Item(Ok(e@)),
            Fed::Item(Err(e)) => FedView::Item(Err(*e)),
            Fed::Finished => FedView::Finished,
        }
    }
}

pub open spec fn fed_of(p: (ScanState, Option<Result<EntryView, ScanError>>)) -> (ScanState, FedView) {
    match p.1 {
        None => (p.0, FedView::Finished),
        Some(x) => (p.0, FedView::Item(x)),
    }
}

/// What `feed` does with the block `b` from the state `st`.
pub open spec fn feed_spec(st: ScanState, b: Seq<u8>) -> (ScanState, FedView) {
    if st.closed {
        (st, FedView::Finished)
    } else if st.pending {
        if all_zero(b) {
            fed_of(after_step(st, Step::End))
        } else {
            fed_of(after_step(st, Step::Fail(ScanError::MissingTerminator)))
        }
    } else if all_zero(b) {
        (ScanState { pending: true, ..st }, FedView::NeedMore)
    } else {
        fed_of(after_step(st, entry_step(b, st.pos)))
    }
}

/// What `read_failed` does from the state `st`.
pub open spec fn fail_spec(st: ScanState) -> (ScanState, FedView) {
    if st.closed {
        (st, FedView::Finished)
    } else {
        fed_of(after_step(st, Step::Fail(ScanError::IoError)))
    }
}

/// The offset of the block that the scanner asks for next.
pub open spec fn wanted_spec(st: ScanState) -> Option<int> {
    if st.closed {
        None
    } else if st.pending {
        Some(st.pos + 512)
    } else {
        Some(st.pos)
    }
}

/// A source of header blocks over the archive bytes `archive()`.
pub trait RawBufferedTarExt {
    spec fn archive(&self) -> Seq<u8>;

    /// The 512 bytes at `pos`, or `IoError` when they lie past the end.
    fn raw_header(&self, pos: u64) -> (r: Result<&[u8], ScanError>)
        ensures
            match r {
                Ok(b) => readable(self.archive(), pos as int) && b@ == block_at(
                    self.archive(),
                    pos as int,
                ),
                Err(e) => !readable(self.archive(), pos as int) && e == ScanError::IoError,
            },
    ;

    /// A scan from the start of the archive.
    fn raw_entries(&self) -> (r: RawTarEntries)
        ensures
            r.wf(),
            r@ == fresh_state(),
    {
        RawTarEntries::new()
    }
}

/// The scanner: a forward-only walk over the headers of an archive. It is fed
/// blocks either by `next`, from a `RawBufferedTarExt`, or block by block
/// through `wanted` and `feed`.
pub struct RawTarEntries {
    pos: u64,
    closed: bool,
    pending: bool,
}

impl View for RawTarEntries {
    type V = ScanState;

    closed spec fn view(&self) -> ScanState {
        ScanState { pos: self.pos as int, closed: self.closed, pending: self.pending }
    }
}

impl RawTarEntries {
    /// While the scan runs, its offset stays far enough from the end of the
    /// 64-bit range that the terminator can always be addressed.
    pub open spec fn wf(&self) -> bool {
        self@.closed || self@.pos + 1024 <= u64::MAX
    }

    /// A scan from offset 0.
    pub fn new() -> (r: RawTarEntries)
        ensures
            r.wf(),
            r@ == fresh_state(),
    {
        RawTarEntries { pos: 0, closed: false, pending: false }
    }

    /// Offset of the next header.
    pub fn position(&self) -> (r: u64)
        ensures
            r == self@.pos,
    {
        self.pos
    }

    /// Whether the scan has ended.
    pub fn is_closed(&self) -> (r: bool)
        ensures
            r == self@.closed,
    {
        self.closed
    }

    /// The offset of the block to hand to `feed` next; `None` once the scan has ended.
    pub fn wanted(&self) -> (r: Option<u64>)
        requires
            self.wf(),
        ensures
            match r {
                Some(o) => wanted_spec(self@) == Some(o as int),
                None => wanted_spec(self@) is None,
            },
    {
        if self.closed {
            None
        } else if self.pending {
            Some(self.pos + 512)
        } else {
            Some(self.pos)
        }
    }

    /// Decodes the non-zero header block `b` at the current offset.
    fn take_entry(&mut self, b: &[u8]) -> (r: Result<RawTarEntry, ScanError>)
        requires
            old(self).wf(),
            !old(self)@.closed,
            b@.len() == BLOCK_SZ,
        ensures
            final(self).wf(),
            after_step(old(self)@, entry_step(b@, old(self)@.pos)) == (
                final(self)@,
                Some(
                    match r {
                        Ok(e) => Ok::<EntryView, ScanError>(e@),
                        Err(e) => Err::<EntryView, ScanError>(e),
                    },
                ),
            ),
    {
        match decode_header(b) {
            Err(e) => {
                self.closed = true;
                self.pending = false;
                Err(e)
            },
            Ok((path, sz, is_file)) => {
                let pos = self.pos as u128;
                let sz128 = sz as u128;
                let blocks = (sz128 + 511) / 512;
                proof {
                    assert(blocks * 512 <= sz128 + 511) by (nonlinear_arith)
                        requires
                            blocks == (sz128 + 511) / 512,
                    ;
                }
                let next: u128 = pos + 512 + blocks * 512;
                if next + 1024 > u64::MAX as u128 {
                    self.closed = true;
                    self.pending = false;
                    Err(ScanError::IoError)
                } else {
                    let e = RawTarEntry {
                        header_pos: self.pos,
                        entry_pos: self.pos + 512,
                        entry_sz: sz,
                        is_file,
                        path,
                    };
                    self.pos = next as u64;
                    self.pending = false;
                    Ok(e)
                }
            },
        }
    }

    /// Hands the scanner the block at the offset that `wanted` gave.
    pub fn feed(&mut self, block: &[u8]) -> (r: Fed)
        requires
            old(self).wf(),
            block@.len() == BLOCK_SZ,
        ensures
            final(self).wf(),
            (final(self)@, r@) == feed_spec(old(self)@, block@),
    {
        if self.closed {
            return Fed::Finished;
        }
        let zero = is_zero_block(block);
        if self.pending {
            self.pending = false;
            self.closed = true;
            if zero {
                self.pos = self.pos + 1024;
                Fed::Finished
            } else {
                Fed::Item(Err(ScanError::MissingTerminator))
            }
        } else if zero {
            self.pending = true;
            Fed::NeedMore
        } else {
            Fed::Item(self.take_entry(block))
        }
    }

    /// Tells the scanner that the block at the offset that `wanted` gave could
    /// not be read: the scan ends with `IoError`.
    pub fn read_failed(&mut self) -> (r: Fed)
        requires
            old(self).wf(),
        ensures
            final(self).wf(),
            (final(self)@, r@) == fail_spec(old(self)@),
    {
        if self.closed {
            Fed::Finished
        } else {
            self.closed = true;
            self.pending = false;
            Fed::Item(Err(ScanError::IoError))
        }
    }

    /// The next entry of the archive that `src` holds, the error that ends
    /// the scan, or `None` once it has ended.
    pub fn next<S: RawBufferedTarExt>(&mut self, src: &S) -> (r: Option<Result<RawTarEntry, ScanError>>)
        requires
            old(self).wf(),
        ensures
            final(self).wf(),
            (final(self)@, item_view(r)) == next_spec(old(self)@, src.archive()),
    {
        let mut rounds: usize = 0;
        while rounds < 2
            invariant
                self.wf(),
                rounds <= 1,
                rounds == 1 ==> self@.pending && !self@.closed && self@.pos == old(self)@.pos
                    && !old(self)@.pending && !old(self)@.closed && all_zero(
                    block_at(src.archive(), self@.pos),
                ) && readable(src.archive(), self@.pos),
                rounds == 0 ==> self@ == old(self)@,
            decreases 2 - rounds,
        {
            let off = match self.wanted() {
                Some(o) => o,
                None => {
                    return None;
                },
            };
            let fed = match src.raw_header(off) {
                Ok(b) => self.feed(b),
                Err(_) => self.read_failed(),
            };
            match fed {
                Fed::NeedMore => {},
                Fed::Item(x) => {
                    return Some(x);
                },
                Fed::Finished => {
                    return None;
                },
            }
            rounds = rounds + 1;
        }
        None
    }
}

} // verus!
