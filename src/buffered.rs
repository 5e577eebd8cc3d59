use vstd::prelude::*;

use crate::header::{ScanError, BLOCK_SZ};
use crate::scan::{fresh_state, scan_from, scan_measure, RawBufferedTarExt, RawTarEntry};

verus! {

/// An archive held whole in memory. Its header blocks are handed out as
/// slices of the buffer, without a copy.
pub struct BufferedTarFile {
    inner: Vec<u8>,
}

impl BufferedTarFile {
    /// An archive over the bytes `inner`.
    pub fn new(inner: Vec<u8>) -> (r: BufferedTarFile)
        ensures
            r.archive() == inner@,
    {
        BufferedTarFile { inner }
    }

    /// Scans the whole archive: its entries in order, and the error that
    /// ended the scan, if one did.
    pub fn entries(&self) -> (r: (Vec<RawTarEntry>, Option<ScanError>))
        ensures
            r.0@.map_values(|e: RawTarEntry| e@) == scan_from(self.archive(), fresh_state()).0,
            r.1 == scan_from(self.archive(), fresh_state()).1,
    {
        let ghost data = self.archive();
        let ghost total = scan_from(data, fresh_state());
        let mut it = self.raw_entries();
        let mut out: Vec<RawTarEntry> = Vec::new();
        loop
            invariant
                it.wf(),
                data == self.archive(),
                total == scan_from(data, fresh_state()),
                out@.map_values(|e: RawTarEntry| e@) + scan_from(data, it@).0 == total.0,
                scan_from(data, it@).1 == total.1,
            decreases scan_measure(data, it@),
        {
            let ghost before = it@;
            match it.next(self) {
                None => {
                    assert(out@.map_values(|e: RawTarEntry| e@) =~= total.0);
                    return (out, None);
                },
                Some(Err(e)) => {
                    assert(out@.map_values(|e: RawTarEntry| e@) =~= total.0);
                    return (out, Some(e));
                },
                Some(Ok(e)) => {
                    let ghost v = e@;
                    let ghost prev = out@.map_values(|e: RawTarEntry| e@);
                    out.push(e);
                    proof {
                        let rest = scan_from(data, it@).0;
                        assert(scan_from(data, before).0 == seq![v] + rest);
                        assert(out@.map_values(|e: RawTarEntry| e@) =~= prev.push(v));
                        assert(prev.push(v) + rest =~= prev + (seq![v] + rest));
                    }
                },
            }
        }
    }
}

impl RawBufferedTarExt for BufferedTarFile {
    closed spec fn archive(&self) -> Seq<u8> {
        self.inner@
    }

    fn raw_header(&self, pos: u64) -> (r: Result<&[u8], ScanError>) {
        let len = self.inner.len();
        if pos > len as u64 || len as u64 - pos < BLOCK_SZ {
            Err(ScanError::IoError)
        } else {
            let start = pos as usize;
            Ok(vstd::slice::slice_subrange(self.inner.as_slice(), start, start + 512))
        }
    }
}

} // verus!
