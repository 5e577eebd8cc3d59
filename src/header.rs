use vstd::prelude::*;
use vstd::utf8::{decode_utf8, valid_utf8};

verus! {

/// Size of a header block, and the unit in which payloads are padded.
pub const BLOCK_SZ: u64 = 512;

/// Length of the `name` field at the start of a header block.
pub const NAME_LEN: usize = 100;

/// Byte range of the octal `size` field.
pub const SIZE_START: usize = 124;

pub const SIZE_END: usize = 136;

/// Offset of the type flag byte.
pub const TYPEFLAG_POS: usize = 156;

/// Why a scan stopped early.
#[derive(Clone, Copy, Debug, PartialEq, Eq, Structural)]
pub enum ScanError {
    /// A block could not be read: a failed read or seek, a short read, or an
    /// offset past the end of the archive.
    IoError,
    /// No NUL byte within the 100-byte name field.
    InvalidPath,
    /// The name bytes are not valid UTF-8.
    InvalidEncoding,
    /// The size field is not well-formed octal, or does not fit in 64 bits.
    InvalidSize,
    /// An all-zero block not followed by a second all-zero block.
    MissingTerminator,
}

pub open spec fn all_zero(b: Seq<u8>) -> bool {
    forall|i: int| 0 <= i < b.len() ==> b[i] == 0
}

/// Index of the first NUL of the name field at or after `i`, or 100 when there is none.
pub open spec fn nul_index(b: Seq<u8>, i: nat) -> nat
    decreases 100 - i,
{
    if i >= 100 {
        100
    } else if b[i as int] == 0 {
        i
    } else {
        nul_index(b, i + 1)
    }
}

pub open spec fn is_octal_digit(c: u8) -> bool {
    48 <= c <= 55
}

pub open spec fn is_size_pad(c: u8) -> bool {
    c == 0 || c == 32
}

/// End of the run of octal digits of `f` that starts at `i`.
pub open spec fn digit_run(f: Seq<u8>, i: nat) -> nat
    decreases f.len() - i,
{
    if i >= f.len() || !is_octal_digit(f[i as int]) {
        i
    } else {
        digit_run(f, i + 1)
    }
}

/// The number that a string of octal digits spells.
pub open spec fn octal_value(d: Seq<u8>) -> nat
    decreases d.len(),
{
    if d.len() == 0 {
        0
    } else {
        octal_value(d.drop_last()) * 8 + (d.last() - 48) as nat
    }
}

/// A size field is one or more octal digits followed only by NULs and spaces.
pub open spec fn size_field_ok(f: Seq<u8>) -> bool {
    let k = digit_run(f, 0);
    &&& k >= 1
    &&& forall|i: int| k <= i < f.len() ==> is_size_pad(f[i])
}

pub open spec fn size_field_value(f: Seq<u8>) -> nat {
    octal_value(f.subrange(0, digit_run(f, 0) as int))
}

pub open spec fn parse_size_spec(f: Seq<u8>) -> Result<u64, ScanError> {
    if size_field_ok(f) && size_field_value(f) <= u64::MAX {
        Ok(size_field_value(f) as u64)
    } else {
        Err(ScanError::InvalidSize)
    }
}

pub open spec fn is_regular_flag(t: u8) -> bool {
    t == 48 || t == 0
}

/// What a non-zero header block decodes to: its path, payload size and
/// whether it is a regular file.
pub open spec fn header_spec(b: Seq<u8>) -> Result<(Seq<char>, u64, bool), ScanError> {
    let k = nul_index(b, 0);
    let name = b.subrange(0, k as int);
    if k >= 100 {
        Err(ScanError::InvalidPath)
    } else if !valid_utf8(name) {
        Err(ScanError::InvalidEncoding)
    } else {
        match parse_size_spec(b.subrange(SIZE_START as int, SIZE_END as int)) {
            Err(e) => Err(e),
            Ok(sz) => Ok((decode_utf8(name), sz, is_regular_flag(b[TYPEFLAG_POS as int]))),
        }
    }
}

/// Whether every byte of the block is zero.
pub fn is_zero_block(b: &[u8]) -> (r: bool)
    ensures
        r == all_zero(b@),
{
    let mut i: usize = 0;
    while i < b.len()
        invariant
            i <= b@.len(),
            forall|j: int| 0 <= j < i ==> b@[j] == 0,
        decreases b@.len() - i,
    {
        if b[i] != 0 {
            return false;
        }
        i = i + 1;
    }
    true
}

/// Length of the path in the name field: the index of its first NUL, or
/// `None` when the first 100 bytes hold none.
pub fn path_len(b: &[u8]) -> (r: Option<usize>)
    requires
        b@.len() >= NAME_LEN,
    ensures
        match r {
            Some(k) => k == nul_index(b@, 0) && k < NAME_LEN,
            None => nul_index(b@, 0) >= NAME_LEN,
        },
{
    let mut k: usize = 0;
    while k < NAME_LEN
        invariant
            k <= NAME_LEN,
            b@.len() >= NAME_LEN,
            nul_index(b@, 0) == nul_index(b@, k as nat),
        decreases NAME_LEN - k,
    {
        if b[k] == 0 {
            return Some(k);
        }
        k = k + 1;
    }
    None
}

proof fn lemma_octal_prefix_grows(d: Seq<u8>, i: int, j: int)
    requires
        0 <= i <= j <= d.len(),
    ensures
        octal_value(d.subrange(0, i)) <= octal_value(d.subrange(0, j)),
    decreases j - i,
{
    if i < j {
        lemma_octal_prefix_grows(d, i, j - 1);
        assert(d.subrange(0, j).drop_last() =~= d.subrange(0, j - 1));
    }
}

/// Parses a size field: octal digits, then only NULs and spaces.
pub fn parse_size(f: &[u8]) -> (r: Result<u64, ScanError>)
    ensures
        r == parse_size_spec(f@),
{
    let mut i: usize = 0;
    let mut acc: u64 = 0;
    let mut overflow = false;
    while i < f.len() && 48 <= f[i] && f[i] <= 55
        invariant
            i <= f@.len(),
            digit_run(f@, 0) == digit_run(f@, i as nat),
            forall|j: int| 0 <= j < i ==> is_octal_digit(#[trigger] f@[j]),
            !overflow ==> acc == octal_value(f@.subrange(0, i as int)),
            overflow ==> octal_value(f@.subrange(0, i as int)) > u64::MAX,
        decreases f@.len() - i,
    {
        let d = (f[i] - 48) as u64;
        proof {
            assert(f@.subrange(0, i + 1).drop_last() =~= f@.subrange(0, i as int));
        }
        if !overflow {
            match acc.checked_mul(8) {
                Some(m) => match m.checked_add(d) {
                    Some(v) => {
                        acc = v;
                    },
                    None => {
                        overflow = true;
                    },
                },
                None => {
                    overflow = true;
                },
            }
        } else {
            proof {
                lemma_octal_prefix_grows(f@, i as int, i + 1);
            }
        }
        i = i + 1;
    }
    let k = i;
    assert(digit_run(f@, k as nat) == k);
    if k == 0 {
        return Err(ScanError::InvalidSize);
    }
    while i < f.len()
        invariant
            k <= i <= f@.len(),
            digit_run(f@, 0) == k,
            forall|j: int| k <= j < i ==> is_size_pad(#[trigger] f@[j]),
        decreases f@.len() - i,
    {
        if f[i] != 0 && f[i] != 32 {
            return Err(ScanError::InvalidSize);
        }
        i = i + 1;
    }
    if overflow {
        Err(ScanError::InvalidSize)
    } else {
        Ok(acc)
    }
}

/// Whether a type flag byte marks a regular file (`'0'` or NUL).
pub fn is_regular(t: u8) -> (r: bool)
    ensures
        r == is_regular_flag(t),
{
    t == 48 || t == 0
}

/// Relies on std::str::from_utf8: `Ok` exactly when the bytes are valid
/// UTF-8, and then the text is those bytes.
#[verifier::external_body]
fn text_of_utf8(b: &[u8]) -> (r: Option<String>)
    ensures
        r is Some <==> valid_utf8(b@),
        r is Some ==> r->Some_0@ == decode_utf8(b@),
{
    match std::str::from_utf8(b) {
        Ok(s) => Some(s.to_string()),
        Err(_) => None,
    }
}

/// Decodes the path, size and type of a header block.
pub fn decode_header(b: &[u8]) -> (r: Result<(String, u64, bool), ScanError>)
    requires
        b@.len() == BLOCK_SZ,
    ensures
        match r {
            Ok((p, sz, f)) => header_spec(b@) == Ok::<(Seq<char>, u64, bool), ScanError>(
                (p@, sz, f),
            ),
            Err(e) => header_spec(b@) == Err::<(Seq<char>, u64, bool), ScanError>(e),
        },
{
    let k = match path_len(b) {
        Some(k) => k,
        None => {
            return Err(ScanError::InvalidPath);
        },
    };
    let name = vstd::slice::slice_subrange(b, 0, k);
    let path = match text_of_utf8(name) {
        Some(p) => p,
        None => {
            return Err(ScanError::InvalidEncoding);
        },
    };
    let sz = match parse_size(vstd::slice::slice_subrange(b, SIZE_START, SIZE_END)) {
        Ok(sz) => sz,
        Err(e) => {
            return Err(e);
        },
    };
    Ok((path, sz, is_regular(b[TYPEFLAG_POS])))
}

} // verus!
