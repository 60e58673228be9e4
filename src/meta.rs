//! The metadata model: one archive, its comment and its entries.

use vstd::prelude::*;

use crate::time::SysTime;

verus! {

/// How an entry's payload is compressed; methods other than these two are
/// recorded as `Store`.
#[derive(Clone, Copy, Debug, PartialEq, Eq, Structural)]
pub enum Method {
    Store,
    Deflate,
}

/// The numeric tag of a method in the table's `item_method` column.
pub open spec fn spec_method_code(m: Method) -> u8 {
    match m {
        Method::Store => 0,
        Method::Deflate => 8,
    }
}

impl Method {
    /// The numeric tag of this method: 0 for `Store`, 8 for `Deflate`.
    pub fn code(&self) -> (r: u8)
        ensures
            r == spec_method_code(*self),
    {
        match self {
            Method::Store => 0,
            Method::Deflate => 8,
        }
    }
}

/// One entry of an archive.
pub struct ZipItemMeta {
    pub name: String,
    pub comment: String,
    pub method: Method,
    pub modified: SysTime,
    pub crc32: u32,
    pub compressed_size: u64,
    pub uncompressed_size: u64,
}

/// The archive-level comment and the entries, in the archive's own order.
pub struct ZipFileMeta {
    pub comment: String,
    pub files: Vec<ZipItemMeta>,
}

/// An archive's metadata under the identifier its caller gave it.
pub struct Zip {
    pub zip_id: String,
    pub meta: ZipFileMeta,
}

} // verus!

verus! {

/// Why a conversion failed.
#[derive(Debug)]
pub enum ZipMetaError {
    /// The archive could not be opened or read; the text says why.
    IOError(String),
    /// The columnar layer refused the assembled columns.
    EncodingError,
}

} // verus!
