//! The zip archive whose entry is under attack, read through the `zip` crate.
//!
//! Everything that this module states about the `zip` crate is taken on
//! trust; the rest of the library is proved on top of it.

use std::io::Cursor;
use std::io::Read;
use vstd::prelude::*;
use zip::result::ZipError;
use zip::ZipArchive;

verus! {

/// `std::io::Cursor`, an in-memory reader; nothing is known of its inside.
#[verifier::external_type_specification]
#[verifier::external_body]
#[verifier::reject_recursive_types(T)]
pub struct ExCursor<T>(Cursor<T>);

/// `zip::ZipArchive`, an opened archive; nothing is known of its inside.
#[verifier::external_type_specification]
#[verifier::external_body]
#[verifier::reject_recursive_types(R)]
pub struct ExZipArchive<R>(ZipArchive<R>);

/// `zip::result::ZipError`, the reason why the `zip` crate rejected a request.
#[verifier::external_type_specification]
#[verifier::external_body]
pub struct ExZipError(ZipError);

/// The bytes of the zip file that an opened archive reads from.
pub uninterp spec fn archive_bytes(archive: ZipArchive<Cursor<Vec<u8>>>) -> Seq<u8>;

/// Whether `zip::ZipArchive::new` accepts `bytes` as a zip file.
pub uninterp spec fn is_archive(bytes: Seq<u8>) -> bool;

/// The entry names that `zip::ZipArchive::file_names` lists for the zip file
/// `bytes`, in the order in which it lists them.
pub uninterp spec fn entry_names(bytes: Seq<u8>) -> Seq<Seq<char>>;

/// The first `length` bytes of the entry `name` of the zip file `bytes`, as
/// `zip::ZipArchive::by_name_decrypt` with `password` lets them be read, and
/// `None` where it refuses or that many bytes cannot be read.
pub uninterp spec fn decrypted_header(
    bytes: Seq<u8>,
    name: Seq<char>,
    password: Seq<char>,
    length: nat,
) -> Option<Seq<u8>>;

/// An opened zip archive held in memory.
///
/// The only way to make one is [`ArchiveHandle::open`], so what can be read
/// from a handle depends on nothing but the bytes it was opened on.
pub struct ArchiveHandle {
    inner: ZipArchive<Cursor<Vec<u8>>>,
}

impl View for ArchiveHandle {
    type V = Seq<u8>;

    /// The bytes of the zip file.
    closed spec fn view(&self) -> Seq<u8> {
        archive_bytes(self.inner)
    }
}

/// Calls `zip::ZipArchive::new` on an in-memory reader over `bytes`.
///
/// Trusted: whether the call succeeds depends on `bytes` alone, and the
/// archive it returns reads from exactly these bytes.
#[verifier::external_body]
fn open_archive(bytes: Vec<u8>) -> (opened: Result<ZipArchive<Cursor<Vec<u8>>>, ZipError>)
    ensures
        opened is Ok <==> is_archive(bytes@),
        opened matches Ok(archive) ==> archive_bytes(archive) == bytes@,
{
    ZipArchive::new(Cursor::new(bytes))
}

impl ArchiveHandle {
    /// Opens the zip file `bytes`.
    pub fn open(bytes: Vec<u8>) -> (opened: Result<ArchiveHandle, ZipError>)
        ensures
            opened is Ok <==> is_archive(bytes@),
            opened matches Ok(archive) ==> archive@ == bytes@,
    {
        match open_archive(bytes) {
            Ok(inner) => Ok(ArchiveHandle { inner }),
            Err(error) => Err(error),
        }
    }

    /// Calls `zip::ZipArchive::file_names` and copies each name.
    ///
    /// Trusted: the names and their order depend on the archive's bytes alone.
    #[verifier::external_body]
    pub(crate) fn file_names(&self) -> (names: Vec<String>)
        ensures
            names@.map_values(|name: String| name@) == entry_names(self@),
    {
        self.inner.file_names().map(|name| name.to_string()).collect()
    }

    /// Calls `zip::ZipArchive::by_name_decrypt` for the entry `name` with the
    /// UTF-8 bytes of `password`, and fills `buffer` from the reader that it
    /// returns with `read_exact`. That reader borrows the archive, so it is
    /// read here and only the bytes leave. Every error, of the one call or
    /// of the other, gives `None`.
    ///
    /// Trusted: the outcome depends on the archive's bytes, `name`,
    /// `password` and the length of `buffer` alone, and the archive's bytes
    /// stay as they are. Nothing is claimed about which passwords are
    /// accepted, nor about what is read.
    #[verifier::external_body]
    pub(crate) fn read_decrypted_header(
        &mut self,
        name: &str,
        password: &str,
        buffer: Vec<u8>,
    ) -> (header: Option<Vec<u8>>)
        ensures
            final(self)@ == old(self)@,
            match header {
                Some(bytes) => decrypted_header(old(self)@, name@, password@, buffer@.len())
                    == Some(bytes@),
                None => decrypted_header(old(self)@, name@, password@, buffer@.len()) is None,
            },
    {
        let mut buffer = buffer;
        match self.inner.by_name_decrypt(name, password.as_bytes()) {
            Ok(mut file) => match file.read_exact(&mut buffer) {
                Ok(()) => Some(buffer),
                Err(_) => None,
            },
            Err(_) => None,
        }
    }
}

} // verus!
