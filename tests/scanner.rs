use extar::header::{decode_header, is_regular, is_zero_block, parse_size, path_len};
use extar::{
    BufferedTarFile, Fed, RawBufferedTarExt, RawTarEntries, RawTarEntry, ScanError, BLOCK_SZ,
};

fn header(name: &[u8], size: u64, typeflag: u8) -> Vec<u8> {
    let mut b = vec![0u8; 512];
    b[..name.len()].copy_from_slice(name);
    let digits = format!("{:011o}", size);
    b[124..135].copy_from_slice(digits.as_bytes());
    b[156] = typeflag;
    b
}

fn push_entry(archive: &mut Vec<u8>, name: &[u8], size: u64, typeflag: u8) {
    archive.extend_from_slice(&header(name, size, typeflag));
    let padded = ((size + 511) / 512 * 512) as usize;
    let mut payload = vec![0u8; padded];
    for (i, byte) in payload.iter_mut().take(size as usize).enumerate() {
        *byte = b'x' + (i % 3) as u8;
    }
    archive.extend_from_slice(&payload);
}

fn terminate(archive: &mut Vec<u8>) {
    archive.extend_from_slice(&[0u8; 1024]);
}

fn two_file_archive() -> Vec<u8> {
    let mut a = Vec::new();
    push_entry(&mut a, b"a.txt", 4, b'0');
    push_entry(&mut a, b"b/c.txt", 1000, b'0');
    terminate(&mut a);
    a
}

fn scan_resident(bytes: Vec<u8>) -> Vec<Result<RawTarEntry, ScanError>> {
    let tar = BufferedTarFile::new(bytes);
    let mut it = tar.raw_entries();
    let mut out = Vec::new();
    while let Some(x) = it.next(&tar) {
        out.push(x);
    }
    assert!(it.next(&tar).is_none());
    out
}

// Drives the scanner block by block, as a reader over a stream would.
fn scan_streamed(bytes: &[u8]) -> Vec<Result<RawTarEntry, ScanError>> {
    let mut it = RawTarEntries::new();
    let mut out = Vec::new();
    let mut scratch = vec![0u8; 512];
    while let Some(off) = it.wanted() {
        let off = off as usize;
        let fed = if off + 512 <= bytes.len() {
            scratch.copy_from_slice(&bytes[off..off + 512]);
            it.feed(&scratch)
        } else {
            it.read_failed()
        };
        match fed {
            Fed::NeedMore => {}
            Fed::Item(x) => out.push(x),
            Fed::Finished => break,
        }
    }
    assert!(it.wanted().is_none());
    out
}

fn summary(items: &[Result<RawTarEntry, ScanError>]) -> Vec<Result<(u64, u64, u64, bool, String), ScanError>> {
    items
        .iter()
        .map(|x| match x {
            Ok(e) => Ok((e.header_pos, e.entry_pos, e.entry_sz, e.is_file, e.path.clone())),
            Err(e) => Err(*e),
        })
        .collect()
}

#[test]
fn two_regular_files_then_terminator() {
    let items = scan_resident(two_file_archive());
    assert_eq!(
        summary(&items),
        vec![
            Ok((0, 512, 4, true, "a.txt".to_string())),
            Ok((1024, 1536, 1000, true, "b/c.txt".to_string())),
        ]
    );
    let first = items[0].as_ref().unwrap();
    assert_eq!(first.raw_file_position(), 512);
    assert_eq!(first.size(), 4);
    let second = items[1].as_ref().unwrap();
    assert_eq!(second.raw_file_position(), 1536);
    assert_eq!(second.size(), 1000);
}

#[test]
fn entries_of_whole_archive() {
    let tar = BufferedTarFile::new(two_file_archive());
    let (entries, err) = tar.entries();
    assert_eq!(err, None);
    assert_eq!(entries.len(), 2);
    assert_eq!(entries[0].path, "a.txt");
    assert_eq!(entries[1].path, "b/c.txt");
    assert_eq!(entries[1].header_pos, 1024);
}

#[test]
fn scanner_position_after_terminator() {
    let bytes = two_file_archive();
    let len = bytes.len() as u64;
    let tar = BufferedTarFile::new(bytes);
    let mut it = tar.raw_entries();
    assert!(it.next(&tar).is_some());
    assert_eq!(it.position(), 1024);
    assert!(it.next(&tar).is_some());
    assert_eq!(it.position(), 2560);
    assert!(it.next(&tar).is_none());
    assert!(it.is_closed());
    assert_eq!(it.position(), len);
}

#[test]
fn two_zero_blocks_are_an_empty_archive() {
    assert!(scan_resident(vec![0u8; 1024]).is_empty());
    assert!(scan_streamed(&[0u8; 1024]).is_empty());
    let tar = BufferedTarFile::new(vec![0u8; 1024]);
    let (entries, err) = tar.entries();
    assert!(entries.is_empty());
    assert_eq!(err, None);
}

#[test]
fn lone_zero_block_is_missing_terminator() {
    let mut a = vec![0u8; 512];
    a.extend_from_slice(&header(b"late.txt", 1, b'0'));
    a.extend_from_slice(&[0u8; 512]);
    let items = scan_resident(a.clone());
    assert_eq!(summary(&items), vec![Err(ScanError::MissingTerminator)]);
    assert_eq!(summary(&scan_streamed(&a)), vec![Err(ScanError::MissingTerminator)]);
}

#[test]
fn zero_block_after_entries_without_second_is_missing_terminator() {
    let mut a = Vec::new();
    push_entry(&mut a, b"one", 10, b'0');
    a.extend_from_slice(&[0u8; 512]);
    push_entry(&mut a, b"two", 0, b'0');
    terminate(&mut a);
    let items = scan_resident(a);
    assert_eq!(
        summary(&items),
        vec![Ok((0, 512, 10, true, "one".to_string())), Err(ScanError::MissingTerminator)]
    );
}

#[test]
fn streamed_and_resident_scans_agree() {
    let mut a = Vec::new();
    push_entry(&mut a, b"dir/", 0, b'5');
    push_entry(&mut a, b"dir/x", 513, b'0');
    push_entry(&mut a, b"link", 0, b'2');
    push_entry(&mut a, b"dir/y", 512, 0);
    terminate(&mut a);
    let resident = summary(&scan_resident(a.clone()));
    let streamed = summary(&scan_streamed(&a));
    assert_eq!(resident.len(), 4);
    assert_eq!(resident, streamed);

    let truncated = &a[..a.len() - 512];
    assert_eq!(summary(&scan_resident(truncated.to_vec())), summary(&scan_streamed(truncated)));
    let bad = {
        let mut b = a.clone();
        b[2048 + 124] = b'9';
        b
    };
    assert_eq!(summary(&scan_resident(bad.clone())), summary(&scan_streamed(&bad)));
}

#[test]
fn boundary_sizes_pad_to_whole_blocks() {
    let mut a = Vec::new();
    push_entry(&mut a, b"empty", 0, b'0');
    push_entry(&mut a, b"one_block", 512, b'0');
    push_entry(&mut a, b"two_blocks", 513, b'0');
    push_entry(&mut a, b"last", 1, b'0');
    terminate(&mut a);
    let items = summary(&scan_resident(a));
    assert_eq!(
        items,
        vec![
            Ok((0, 512, 0, true, "empty".to_string())),
            Ok((512, 1024, 512, true, "one_block".to_string())),
            Ok((1536, 2048, 513, true, "two_blocks".to_string())),
            Ok((3072, 3584, 1, true, "last".to_string())),
        ]
    );
}

#[test]
fn type_flag_separates_regular_files() {
    let mut a = Vec::new();
    push_entry(&mut a, b"d/", 0, b'5');
    push_entry(&mut a, b"f", 0, 0);
    push_entry(&mut a, b"s", 0, b'2');
    terminate(&mut a);
    let flags: Vec<bool> = scan_resident(a).into_iter().map(|x| x.unwrap().is_file).collect();
    assert_eq!(flags, vec![false, true, false]);
    assert!(is_regular(b'0'));
    assert!(is_regular(0));
    assert!(!is_regular(b'5'));
}

#[test]
fn name_without_nul_is_invalid_path() {
    let mut h = header(b"", 0, b'0');
    for byte in h.iter_mut().take(100) {
        *byte = b'n';
    }
    let mut a = h.clone();
    terminate(&mut a);
    assert_eq!(summary(&scan_resident(a)), vec![Err(ScanError::InvalidPath)]);
    assert_eq!(path_len(&h), None);
    h[99] = 0;
    assert_eq!(path_len(&h), Some(99));
}

#[test]
fn name_not_utf8_is_invalid_encoding() {
    let mut a = header(&[b'a', 0xff, b'b'], 0, b'0');
    terminate(&mut a);
    assert_eq!(summary(&scan_resident(a)), vec![Err(ScanError::InvalidEncoding)]);
    let h = header("caf\u{e9}.txt".as_bytes(), 3, b'0');
    let (path, size, is_file) = decode_header(&h).unwrap();
    assert_eq!(path, "caf\u{e9}.txt");
    assert_eq!(size, 3);
    assert!(is_file);
}

#[test]
fn bad_size_field_is_invalid_size() {
    let mut h = header(b"f", 0, b'0');
    h[124..136].copy_from_slice(b"0000000009\0\0");
    let mut a = h;
    terminate(&mut a);
    assert_eq!(summary(&scan_resident(a)), vec![Err(ScanError::InvalidSize)]);
}

#[test]
fn size_field_forms() {
    assert_eq!(parse_size(b"00000000004\0"), Ok(4));
    assert_eq!(parse_size(b"00000001750\0"), Ok(1000));
    assert_eq!(parse_size(b"1000 \0\0\0\0\0\0\0"), Ok(512));
    assert_eq!(parse_size(b"777777777777"), Ok(0o777777777777));
    assert_eq!(parse_size(b"\0\0\0\0\0\0\0\0\0\0\0\0"), Err(ScanError::InvalidSize));
    assert_eq!(parse_size(b" 0000000004\0"), Err(ScanError::InvalidSize));
    assert_eq!(parse_size(b"0000000004 7"), Err(ScanError::InvalidSize));
    assert_eq!(parse_size(b"0000000008\0\0"), Err(ScanError::InvalidSize));
    assert_eq!(parse_size(b"2000000000000000000000"), Err(ScanError::InvalidSize));
    assert_eq!(parse_size(b"1777777777777777777777"), Ok(u64::MAX));
}

#[test]
fn reads_past_the_end_are_io_errors() {
    assert_eq!(summary(&scan_resident(Vec::new())), vec![Err(ScanError::IoError)]);
    assert_eq!(summary(&scan_streamed(&[])), vec![Err(ScanError::IoError)]);
    let mut a = Vec::new();
    push_entry(&mut a, b"only", 4, b'0');
    assert_eq!(
        summary(&scan_resident(a.clone())),
        vec![Ok((0, 512, 4, true, "only".to_string())), Err(ScanError::IoError)]
    );
    a.extend_from_slice(&[0u8; 512]);
    assert_eq!(
        summary(&scan_resident(a)),
        vec![Ok((0, 512, 4, true, "only".to_string())), Err(ScanError::IoError)]
    );
    let tar = BufferedTarFile::new(vec![0u8; 700]);
    assert_eq!(tar.raw_header(0).map(|b| b.len()), Ok(512));
    assert_eq!(tar.raw_header(512).map(|b| b.len()), Err(ScanError::IoError));
    assert_eq!(tar.raw_header(u64::MAX).map(|b| b.len()), Err(ScanError::IoError));
}

#[test]
fn zero_block_detection() {
    assert!(is_zero_block(&[0u8; 512]));
    let mut b = [0u8; 512];
    b[511] = 1;
    assert!(!is_zero_block(&b));
    assert_eq!(BLOCK_SZ, 512);
}
