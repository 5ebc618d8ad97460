//! The file formats whose leading bytes are known.

use vstd::prelude::*;

verus! {

/// The formats that can be told by their leading bytes.
#[derive(Clone, Copy, Debug, PartialEq, Eq, Structural)]
pub enum FileType {
    /// Advanced Systems Format containers: `asf`, `wma`, `wmv`.
    Wmv,
    /// Portable Network Graphics.
    Png,
    /// JPEG images.
    Jpg,
    /// Zip containers: `zip`, `apk`, `jar`.
    Archive,
    /// XML documents that open with a declaration.
    Xml,
}

impl FileType {
    /// The bytes with which every file of this format begins.
    pub open spec fn signature_spec(self) -> Seq<u8> {
        match self {
            FileType::Wmv => seq![
                0x30u8, 0x26u8, 0xB2u8, 0x75u8, 0x8Eu8, 0x66u8, 0xCFu8, 0x11u8,
                0xA6u8, 0xD9u8, 0x00u8, 0xAAu8, 0x00u8, 0x62u8, 0xCEu8, 0x6Cu8,
            ],
            FileType::Png => seq![0x89u8, 0x50u8, 0x4Eu8, 0x47u8, 0x0Du8, 0x0Au8, 0x1Au8, 0x0Au8],
            FileType::Jpg => seq![0xFFu8, 0xD8u8],
            FileType::Archive => seq![0x50u8, 0x4Bu8, 0x03u8, 0x04u8],
            FileType::Xml => seq![0x3Cu8, 0x3Fu8, 0x78u8, 0x6Du8, 0x6Cu8, 0x20u8],
        }
    }

    /// Gives the signature of this format as bytes.
    pub fn signature(&self) -> (bytes: Vec<u8>)
        ensures
            bytes@ == self.signature_spec(),
    {
        match self {
            FileType::Wmv => vec![
                0x30, 0x26, 0xB2, 0x75, 0x8E, 0x66, 0xCF, 0x11, 0xA6, 0xD9, 0x00, 0xAA, 0x00, 0x62,
                0xCE, 0x6C,
            ],
            FileType::Png => vec![0x89, 0x50, 0x4E, 0x47, 0x0D, 0x0A, 0x1A, 0x0A],
            FileType::Jpg => vec![0xFF, 0xD8],
            FileType::Archive => vec![0x50, 0x4B, 0x03, 0x04],
            FileType::Xml => vec![0x3C, 0x3F, 0x78, 0x6D, 0x6C, 0x20],
        }
    }
}

/// An Advanced Systems Format file (`asf`, `wma`, `wmv`), known by its header.
#[derive(PartialEq, Eq, Debug)]
pub struct Wmv {
    pub header: Vec<u8>,
}

impl Default for Wmv {
    fn default() -> (wmv: Wmv)
        ensures
            wmv.header@ == FileType::Wmv.signature_spec(),
    {
        Wmv { header: FileType::Wmv.signature() }
    }
}

/// A JPEG image, known by its header.
#[derive(PartialEq, Eq, Debug)]
pub struct Jpg {
    pub header: Vec<u8>,
}

impl Default for Jpg {
    fn default() -> (jpg: Jpg)
        ensures
            jpg.header@ == FileType::Jpg.signature_spec(),
    {
        Jpg { header: FileType::Jpg.signature() }
    }
}

/// A zip container (`zip`, `apk`, `jar`), known by its header.
#[derive(PartialEq, Eq, Debug)]
pub struct Archive {
    pub header: Vec<u8>,
}

impl Default for Archive {
    fn default() -> (archive: Archive)
        ensures
            archive.header@ == FileType::Archive.signature_spec(),
    {
        Archive { header: FileType::Archive.signature() }
    }
}

} // verus!
