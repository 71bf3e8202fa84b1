//! In-memory decoding of the fixture archive.
//!
//! The fixture is shipped as a gzip-compressed tar archive. This module
//! turns the raw bytes of such an archive into the list of entries it
//! holds: first the gzip stream is inflated, then the tar stream is walked
//! entry by entry. Both steps work on plain byte buffers; reading the
//! archive file from disk and writing the entries out is the caller's
//! business.

use vstd::prelude::*;

verus! {

/// One entry of the fixture archive: its path inside the archive, the tar
/// type byte (`b'5'` marks a directory), and its contents.
#[derive(Debug, PartialEq, Eq)]
pub struct ArchiveEntry {
    pub path: String,
    pub type_byte: u8,
    pub data: Vec<u8>,
}

impl View for ArchiveEntry {
    type V = (Seq<char>, u8, Seq<u8>);

    open spec fn view(&self) -> (Seq<char>, u8, Seq<u8>) {
        (self.path@, self.type_byte, self.data@)
    }
}

/// Why a byte buffer could not be decoded as a fixture archive.
#[derive(Clone, Copy, Debug, PartialEq, Eq)]
pub enum UnpackError {
    /// The bytes are not a well-formed gzip stream.
    BadGzip,
    /// The inflated bytes are not a well-formed tar stream.
    BadArchive,
}

/// What inflating `b` as a gzip stream yields, or `None` where `b` is not
/// a well-formed gzip stream. The result depends on the bytes alone.
pub uninterp spec fn gunzip_of(b: Seq<u8>) -> Option<Seq<u8>>;

/// The entries that walking `b` as a tar stream yields, in order, each as
/// path, type byte and contents, or `None` where `b` is not a well-formed
/// tar stream. The result depends on the bytes alone.
pub uninterp spec fn tar_entries_of(b: Seq<u8>) -> Option<Seq<(Seq<char>, u8, Seq<u8>)>>;

#[verifier::external_type_specification]
#[verifier::external_body]
pub struct ExIoError(std::io::Error);

/// Relies on `flate2::read::GzDecoder` over an in-memory slice: reading it
/// to the end inflates the gzip stream, and reports an error on malformed
/// input. The outcome is a function of the input bytes.
#[verifier::external_body]
fn gunzip(data: &Vec<u8>) -> (r: Result<Vec<u8>, std::io::Error>)
    ensures
        match r {
            Ok(v) => gunzip_of(data@) == Some(v@),
            Err(_) => gunzip_of(data@) is None,
        },
{
    let mut decoder = flate2::read::GzDecoder::new(data.as_slice());
    let mut out = Vec::new();
    match std::io::Read::read_to_end(&mut decoder, &mut out) {
        Ok(_) => Ok(out),
        Err(e) => Err(e),
    }
}

/// Relies on `tar::Archive` over an in-memory slice: `entries` yields the
/// archive's entries in order, and each entry's `path_bytes`, header type
/// byte and contents are converted to plain values. The outcome is a
/// function of the input bytes.
#[verifier::external_body]
fn tar_entry_list(data: &Vec<u8>) -> (r: Result<Vec<ArchiveEntry>, std::io::Error>)
    ensures
        match r {
            Ok(v) => tar_entries_of(data@) == Some(v@.map_values(|e: ArchiveEntry| e@)),
            Err(_) => tar_entries_of(data@) is None,
        },
{
    let mut archive = tar::Archive::new(data.as_slice());
    let entries = match archive.entries() {
        Ok(e) => e,
        Err(e) => return Err(e),
    };
    entries.map(|item| {
        let mut entry = item?;
        let path = String::from_utf8_lossy(&entry.path_bytes()).into_owned();
        let type_byte = entry.header().entry_type().as_byte();
        let mut data = Vec::new();
        std::io::Read::read_to_end(&mut entry, &mut data)?;
        Ok(ArchiveEntry { path, type_byte, data })
    }).collect()
}

/// Decodes the raw bytes of a gzip-compressed tar archive into its entry
/// list. Succeeds exactly when the bytes inflate as a gzip stream and the
/// inflated bytes walk as a tar stream; the error names the first stage
/// that failed.
pub fn unpack_archive(gz: &Vec<u8>) -> (r: Result<Vec<ArchiveEntry>, UnpackError>)
    ensures
        match r {
            Ok(v) => {
                &&& gunzip_of(gz@) matches Some(t)
                &&& tar_entries_of(t) == Some(v@.map_values(|e: ArchiveEntry| e@))
            },
            Err(UnpackError::BadGzip) => gunzip_of(gz@) is None,
            Err(UnpackError::BadArchive) => {
                &&& gunzip_of(gz@) matches Some(t)
                &&& tar_entries_of(t) is None
            },
        },
{
    match gunzip(gz) {
        Err(_) => Err(UnpackError::BadGzip),
        Ok(tar_bytes) => match tar_entry_list(&tar_bytes) {
            Err(_) => Err(UnpackError::BadArchive),
            Ok(entries) => Ok(entries),
        },
    }
}

} // verus!
