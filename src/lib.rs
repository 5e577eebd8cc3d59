//! A header-only scanner for tar archives: it walks the 512-byte header
//! blocks of an archive and yields each entry's path, offsets, size and kind,
//! without reading payloads.

pub mod header;
pub mod scan;
pub mod buffered;
pub mod laws;

pub use buffered::BufferedTarFile;
pub use header::{ScanError, BLOCK_SZ};
pub use scan::{Fed, RawBufferedTarExt, RawTarEntries, RawTarEntry};
