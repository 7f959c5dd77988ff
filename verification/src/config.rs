//! The per-entry configuration of an archive.

use vstd::prelude::*;

verus! {

/// How an entry's content is stored.
#[derive(Clone, Copy, Debug, PartialEq, Eq, Structural)]
pub enum Compression {
    /// As it is, without compression.
    Stored,
    /// Deflate-compressed.
    Deflated,
}

/// The configuration that the file entries of one archive are written with.
/// A directory marker takes the permissions and is always stored.
#[derive(Clone, Copy, Debug, PartialEq, Eq, Structural)]
pub struct EntryConfig {
    pub compression: Compression,
    /// Unix permission bits; the archive keeps the lower nine.
    pub permissions: u32,
}

impl EntryConfig {
    /// The fixed configuration of the packer: entries are stored, not
    /// compressed, with mode 0755.
    pub fn fixed() -> (config: EntryConfig)
        ensures
            config.compression == Compression::Stored,
            config.permissions == 0o755,
    {
        EntryConfig { compression: Compression::Stored, permissions: 0o755 }
    }
}

} // verus!
