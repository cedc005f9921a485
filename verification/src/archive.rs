//! In-process packaging: wrapping a staged file's bytes into a
//! single-entry compressed archive.
//!
//! The archive format itself comes from the `zip` crate; this module pins
//! down everything around the call: the entry is named after the staged
//! file, and the bytes produced are a function of the entry name and the
//! data alone, so equal inputs give byte-identical archives.

use vstd::prelude::*;
use crate::names::{file_name, spec_file_name};

verus! {

/// The bytes of the archive holding `data` as its single entry, named
/// `name` and deflate-compressed. A function of its arguments alone: the
/// entry metadata is fixed (no clock or environment flows in), and the
/// compressor is deterministic.
pub uninterp spec fn zip_entry_of(name: Seq<char>, data: Seq<u8>) -> Seq<u8>;

/// Whether the writer accepts an entry of this name and this data. Like
/// the bytes themselves it depends on the arguments alone: writing goes
/// to an in-memory buffer under constant options, and the writer turns
/// an entry down only for what the arguments carry (a name or a size
/// beyond the archive format's limits).
pub uninterp spec fn zip_ok(name: Seq<char>, data: Seq<u8>) -> bool;

/// Relies on `zip::ZipWriter` writing to an in-memory buffer: one
/// `start_file` with a fixed-timestamp, deflate-compressed options value,
/// one `write_all` of the data, one `finish`. With the options constant
/// `SimpleFileOptions::DEFAULT` the entry's metadata never varies, so
/// both the outcome and the output depend on the name and the data alone.
#[verifier::external_body]
fn zip_bytes(name: &str, data: &Vec<u8>) -> (r: Option<Vec<u8>>)
    ensures
        r is Some == zip_ok(name@, data@),
        (match r {
            Some(b) => b@ == zip_entry_of(name@, data@),
            None => true,
        }),
{
    let options = zip::write::SimpleFileOptions::DEFAULT.compression_method(
        zip::CompressionMethod::Deflated,
    );
    let mut writer = zip::ZipWriter::new(std::io::Cursor::new(Vec::new()));
    if writer.start_file(name, options).is_err() {
        return None;
    }
    if std::io::Write::write_all(&mut writer, data).is_err() {
        return None;
    }
    match writer.finish() {
        Ok(cursor) => Some(cursor.into_inner()),
        Err(_) => None,
    }
}

/// The archive bytes for one packaging step: `data` is the content of the
/// staged file at `source_path`, and the single entry is named after that
/// file. Packaging succeeds exactly when the writer accepts the entry —
/// a fact of the name and data alone — and then the bytes are exactly
/// the archive of that name and content; `None` (an entry beyond the
/// format's limits) makes the job abort.
pub fn package_archive(source_path: &str, data: &Vec<u8>) -> (r: Option<Vec<u8>>)
    ensures
        r is Some == zip_ok(spec_file_name(source_path@), data@),
        (match r {
            Some(b) => b@ == zip_entry_of(spec_file_name(source_path@), data@),
            None => true,
        }),
{
    let name = file_name(source_path);
    zip_bytes(name.as_str(), data)
}

} // verus!
