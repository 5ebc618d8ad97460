//! The table from type identifiers to signatures.

use crate::file_type::FileType;
use crate::text::{chars_of, spells};
use vstd::prelude::*;

verus! {

/// The format that a lower-case identifier names, if it names one.
///
/// This table is the one place where identifiers are tied to formats.
pub open spec fn file_type_of(identifier: Seq<char>) -> Option<FileType> {
    if identifier == "asf"@ || identifier == "wma"@ || identifier == "wmv"@ {
        Some(FileType::Wmv)
    } else if identifier == "png"@ {
        Some(FileType::Png)
    } else if identifier == "jpg"@ {
        Some(FileType::Jpg)
    } else if identifier == "zip"@ || identifier == "apk"@ || identifier == "jar"@ {
        Some(FileType::Archive)
    } else if identifier == "xml"@ {
        Some(FileType::Xml)
    } else {
        None
    }
}

/// The signature that a lower-case identifier stands for, if it is known.
pub open spec fn signature_of(identifier: Seq<char>) -> Option<Seq<u8>> {
    match file_type_of(identifier) {
        Some(file_type) => Some(file_type.signature_spec()),
        None => None,
    }
}

/// Looks an identifier up in the table. The identifier is matched as it
/// stands: capitals are not folded here.
pub fn lookup(identifier: &Vec<char>) -> (found: Option<FileType>)
    ensures
        found == file_type_of(identifier@),
{
    if spells(identifier, "asf") || spells(identifier, "wma") || spells(identifier, "wmv") {
        Some(FileType::Wmv)
    } else if spells(identifier, "png") {
        Some(FileType::Png)
    } else if spells(identifier, "jpg") {
        Some(FileType::Jpg)
    } else if spells(identifier, "zip") || spells(identifier, "apk") || spells(identifier, "jar") {
        Some(FileType::Archive)
    } else if spells(identifier, "xml") {
        Some(FileType::Xml)
    } else {
        None
    }
}

/// The signature for a lower-case type identifier, or `None` for a string
/// that is no identifier.
pub fn get_header(extension: &str) -> (header: Option<Vec<u8>>)
    ensures
        match header {
            Some(bytes) => signature_of(extension@) == Some(bytes@),
            None => signature_of(extension@) is None,
        },
{
    let identifier = chars_of(extension);
    match lookup(&identifier) {
        Some(file_type) => Some(file_type.signature()),
        None => None,
    }
}

/// The table, entry by entry: each of the nine identifiers stands for the
/// bytes given here, and every other string stands for nothing.
pub proof fn lemma_signature_table(identifier: Seq<char>)
    ensures
        identifier == "asf"@ || identifier == "wma"@ || identifier == "wmv"@ ==> signature_of(
            identifier,
        ) == Some(
            seq![
                0x30u8, 0x26u8, 0xB2u8, 0x75u8, 0x8Eu8, 0x66u8, 0xCFu8, 0x11u8,
                0xA6u8, 0xD9u8, 0x00u8, 0xAAu8, 0x00u8, 0x62u8, 0xCEu8, 0x6Cu8,
            ],
        ),
        identifier == "png"@ ==> signature_of(identifier) == Some(
            seq![0x89u8, 0x50u8, 0x4Eu8, 0x47u8, 0x0Du8, 0x0Au8, 0x1Au8, 0x0Au8],
        ),
        identifier == "jpg"@ ==> signature_of(identifier) == Some(seq![0xFFu8, 0xD8u8]),
        identifier == "zip"@ || identifier == "apk"@ || identifier == "jar"@ ==> signature_of(
            identifier,
        ) == Some(seq![0x50u8, 0x4Bu8, 0x03u8, 0x04u8]),
        identifier == "xml"@ ==> signature_of(identifier) == Some(
            seq![0x3Cu8, 0x3Fu8, 0x78u8, 0x6Du8, 0x6Cu8, 0x20u8],
        ),
        !(identifier == "asf"@ || identifier == "wma"@ || identifier == "wmv"@ || identifier
            == "png"@ || identifier == "jpg"@ || identifier == "zip"@ || identifier == "apk"@
            || identifier == "jar"@ || identifier == "xml"@) ==> signature_of(identifier) is None,
{
    reveal_strlit("asf");
    reveal_strlit("wma");
    reveal_strlit("wmv");
    reveal_strlit("png");
    reveal_strlit("jpg");
    reveal_strlit("zip");
    reveal_strlit("apk");
    reveal_strlit("jar");
    reveal_strlit("xml");
    assert("asf"@[0] == 'a' && "wma"@[0] == 'w' && "wmv"@[0] == 'w');
    assert("png"@[0] == 'p' && "jpg"@[0] == 'j' && "xml"@[0] == 'x');
    assert("zip"@[0] == 'z' && "apk"@[0] == 'a' && "jar"@[0] == 'j');
    assert("asf"@[1] == 's' && "apk"@[1] == 'p');
    assert("jpg"@[1] == 'p' && "jar"@[1] == 'a');
}

} // verus!
