//! One run: the archive, the entry under attack and the signature expected.

use crate::archive::{entry_names, is_archive, ArchiveHandle};
use crate::engine::{bytes_of, first_verified, verify, VerificationError};
use crate::resolver::{resolve, resolve_spec, TypeError};
use crate::text::text_of;
use vstd::prelude::*;
use vstd::std_specs::iter::IteratorSpec;
use zip::result::ZipError;

verus! {

/// What the user asks for.
#[derive(Debug)]
pub struct Args {
    /// Name of the zip file.
    pub zip_name: String,
    /// Name of the entry to test extraction with.
    pub file_name: String,
    /// Type identifier of the entry, where the user gives one.
    pub file_extension: Option<String>,
}

/// A run that is ready to start.
pub struct Config {
    /// The archive that holds the entry.
    pub archive: ArchiveHandle,
    /// Name of the entry to decrypt.
    pub file_name: String,
    /// The bytes with which the decrypted entry has to begin; `None` where
    /// the type of the entry is not known.
    pub file_header: Option<Vec<u8>>,
}

/// Why a run could not be set up.
#[derive(Debug)]
pub enum ConfigError {
    /// No type was given and the entry's name has no extension.
    NoExtension,
    /// The bytes are not a zip archive that can be read.
    InvalidArchive(ZipError),
    /// The archive has no entry of the given name.
    EntryNotFound,
}

/// Whether the archive lists an entry named `file_name`.
pub fn check_if_file_exists_in_zip(archive: &ArchiveHandle, file_name: &str) -> (exists: bool)
    ensures
        exists == entry_names(archive@).contains(file_name@),
{
    let names = archive.file_names();
    let wanted = file_name.to_owned();
    let ghost listed = names@.map_values(|name: String| name@);
    let mut i: usize = 0;
    while i < names.len()
        invariant
            i <= names.len(),
            wanted@ == file_name@,
            listed == names@.map_values(|name: String| name@),
            listed == entry_names(archive@),
            forall|k: int| 0 <= k < i ==> listed[k] != file_name@,
        decreases names.len() - i,
    {
        if names[i] == wanted {
            assert(listed[i as int] == file_name@);
            return true;
        }
        i += 1;
    }
    false
}

impl Config {
    /// Sets a run up from the user's request and the bytes of the zip file
    /// that the request names.
    ///
    /// The type is settled first, then the archive is opened, then the entry
    /// is looked for; the first of these that fails gives the error. A type
    /// that is not in the table is no error here: the run is set up without
    /// a header, and [`run`] reports it.
    pub fn new(args: Args, zip_bytes: Vec<u8>) -> (made: Result<Config, ConfigError>)
        ensures
            match resolve_spec(text_of(args.file_extension), args.file_name@) {
                Err(TypeError::NoExtension) => made matches Err(ConfigError::NoExtension),
                resolved => if !is_archive(zip_bytes@) {
                    made matches Err(ConfigError::InvalidArchive(_))
                } else if !entry_names(zip_bytes@).contains(args.file_name@) {
                    made matches Err(ConfigError::EntryNotFound)
                } else {
                    &&& made matches Ok(config)
                    &&& config.archive@ == zip_bytes@
                    &&& config.file_name == args.file_name
                    &&& bytes_of(config.file_header) == match resolved {
                        Ok(signature) => Some(signature),
                        Err(_) => None,
                    }
                },
            },
    {
        let file_header = match resolve(args.file_extension, args.file_name.clone()) {
            Ok(signature) => Some(signature),
            Err(TypeError::UnknownFileType) => None,
            Err(TypeError::NoExtension) => {
                return Err(ConfigError::NoExtension);
            },
        };
        let archive = match ArchiveHandle::open(zip_bytes) {
            Ok(archive) => archive,
            Err(error) => {
                return Err(ConfigError::InvalidArchive(error));
            },
        };
        if check_if_file_exists_in_zip(&archive, args.file_name.as_str()) {
            Ok(Config { archive, file_name: args.file_name, file_header })
        } else {
            Err(ConfigError::EntryNotFound)
        }
    }
}

/// Runs the search that `config` describes over the candidates that
/// `passwords` yields, and returns the first of them that verifies.
///
/// Without a header to look for nothing is tried. The candidates must be a
/// sequence that comes to an end, as for [`verify`].
pub fn run<R: Iterator<Item = String>>(config: Config, passwords: R) -> (outcome: Result<
    String,
    &'static str,
>)
    requires
        passwords.obeys_prophetic_iter_laws(),
        passwords.decrease() is Some,
    ensures
        match config.file_header {
            None => outcome matches Err(message) && message@ == "Unable to detect file header"@,
            Some(header) => match first_verified(
                config.archive@,
                config.file_name@,
                header@,
                passwords.remaining(),
            ) {
                Some(password) => outcome == Ok::<String, &'static str>(password),
                None => outcome matches Err(message) && message@ == "Password wasn't found"@,
            },
        },
{
    let mut config = config;
    let mut passwords = passwords;
    match config.file_header {
        None => Err("Unable to detect file header"),
        Some(header) => {
            match verify(
                &mut config.archive,
                config.file_name.as_str(),
                header.as_slice(),
                &mut passwords,
            ) {
                Ok(password) => Ok(password),
                Err(VerificationError::PasswordNotFound) => Err("Password wasn't found"),
            }
        },
    }
}

} // verus!
