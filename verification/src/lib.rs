//! Recovers the password of one entry of a traditionally encrypted zip archive
//! by trying candidates in order and recognising the right one by the leading
//! bytes ("magic number") of the decrypted entry.
//!
//! * [`registry`] maps a type identifier to the signature of that type.
//! * [`resolver`] picks the signature for a run, from an explicit identifier
//!   or from the extension of the entry's name.
//! * [`engine`] tries the candidates and stops at the first that fits.
//! * [`config`] puts a run together and starts it.
//! * [`archive`] is the door to the `zip` crate, which does the decrypting.

pub mod archive;
pub mod config;
pub mod engine;
pub mod file_type;
pub mod registry;
pub mod resolver;
pub mod text;

pub use crate::archive::ArchiveHandle;
pub use crate::config::{check_if_file_exists_in_zip, run, Args, Config, ConfigError};
pub use crate::engine::{is_header_valid, try_password, verify, VerificationError};
pub use crate::file_type::{Archive, FileType, Jpg, Wmv};
pub use crate::registry::get_header;
pub use crate::resolver::{guess_file_type, resolve, TypeError};
