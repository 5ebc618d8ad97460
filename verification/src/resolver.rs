//! From an explicit type identifier, or from a file name, to a signature.

use crate::registry::{lookup, signature_of};
use crate::text::{chars_of, normalize, normalized, text_of};
use vstd::prelude::*;
use vstd::string::StrSliceExecFns;

verus! {

/// Why no signature could be chosen.
#[derive(Clone, Copy, Debug, PartialEq, Eq, Structural)]
pub enum TypeError {
    /// The identifier, given or taken from the file name, is not in the table.
    UnknownFileType,
    /// The file name has nothing after its last dot, or is empty.
    NoExtension,
}

/// What stands behind the last dot of `file_name`; the whole name where it
/// has no dot.
pub open spec fn extension_of(file_name: Seq<char>) -> Seq<char> {
    match file_name.index_of_last('.') {
        Some(dot) => file_name.subrange(dot + 1, file_name.len() as int),
        None => file_name,
    }
}

/// The signature for a run: by the explicit identifier where there is one,
/// else by the extension of the file name. Identifiers are looked up in
/// lower case.
pub open spec fn resolve_spec(explicit: Option<Seq<char>>, file_name: Seq<char>) -> Result<
    Seq<u8>,
    TypeError,
> {
    let identifier = match explicit {
        Some(identifier) => identifier,
        None => extension_of(file_name),
    };
    if explicit is None && identifier.len() == 0 {
        Err(TypeError::NoExtension)
    } else {
        match signature_of(normalized(identifier)) {
            Some(signature) => Ok(signature),
            None => Err(TypeError::UnknownFileType),
        }
    }
}

/// Takes the type identifier from a file name: the text behind its last dot,
/// or the whole name where it has no dot. A name that leaves nothing to take
/// (it is empty or ends in a dot) is refused.
pub fn guess_file_type(file_name: &str) -> (guessed: Result<String, &'static str>)
    ensures
        match guessed {
            Ok(extension) => extension@ == extension_of(file_name@) && extension@.len() > 0,
            Err(message) => extension_of(file_name@).len() == 0
                && message@ == "failed to guess file type"@,
        },
{
    let chars = chars_of(file_name);
    let mut start: usize = chars.len();
    while start > 0 && chars[start - 1] != '.'
        invariant
            start <= chars.len(),
            forall|k: int| start <= k < chars.len() ==> chars[k] != '.',
        decreases start,
    {
        start -= 1;
    }
    proof {
        chars@.index_of_last_ensures('.');
        if start > 0 {
            assert(chars@.contains('.')) by {
                assert(chars@[start - 1] == '.');
            }
        }
    }
    if start == chars.len() {
        Err("failed to guess file type")
    } else {
        Ok(file_name.substring_char(start, chars.len()).to_owned())
    }
}

/// Chooses the signature for a run: by `explicit` where it is given, else
/// by the extension of `file_name`. Capitals in the identifier do not
/// matter. A file name without any dot is taken whole as the identifier.
pub fn resolve(explicit: Option<String>, file_name: String) -> (resolved: Result<
    Vec<u8>,
    TypeError,
>)
    ensures
        match resolve_spec(text_of(explicit), file_name@) {
            Ok(signature) => resolved matches Ok(bytes) && bytes@ == signature,
            Err(error) => resolved matches Err(reason) && reason == error,
        },
{
    let identifier = match explicit {
        Some(identifier) => identifier,
        None => match guess_file_type(file_name.as_str()) {
            Ok(extension) => extension,
            Err(_) => {
                return Err(TypeError::NoExtension);
            },
        },
    };
    let folded = normalize(&chars_of(identifier.as_str()));
    match lookup(&folded) {
        Some(file_type) => Ok(file_type.signature()),
        None => Err(TypeError::UnknownFileType),
    }
}

/// The extension is the part of the name behind its last dot: it ends the
/// name, holds no dot, and either is the whole name or stands right behind
/// a dot.
pub proof fn lemma_extension_of(file_name: Seq<char>)
    ensures
        extension_of(file_name).is_suffix_of(file_name),
        !extension_of(file_name).contains('.'),
        extension_of(file_name).len() < file_name.len() ==> file_name[file_name.len()
            - extension_of(file_name).len() - 1] == '.',
        !file_name.contains('.') ==> extension_of(file_name) == file_name,
{
    file_name.index_of_last_ensures('.');
    let extension = extension_of(file_name);
    let start = file_name.len() - extension.len();
    assert(extension =~= file_name.subrange(start, file_name.len() as int));
    if extension.contains('.') {
        let k = choose|k: int| 0 <= k < extension.len() && extension[k] == '.';
        assert(file_name[start + k] == '.');
    }
}

/// Capitals do not matter in an explicit identifier: two identifiers with
/// the same lower-case form resolve alike.
pub proof fn lemma_resolve_ignores_case(first: Seq<char>, second: Seq<char>, file_name: Seq<char>)
    requires
        normalized(first) == normalized(second),
    ensures
        resolve_spec(Some(first), file_name) == resolve_spec(Some(second), file_name),
{
}

/// Capitals do not matter in an extension either.
pub proof fn lemma_resolve_ignores_extension_case(first: Seq<char>, second: Seq<char>)
    requires
        normalized(extension_of(first)) == normalized(extension_of(second)),
    ensures
        resolve_spec(None, first) == resolve_spec(None, second),
{
    assert(normalized(extension_of(first)).len() == extension_of(first).len());
    assert(normalized(extension_of(second)).len() == extension_of(second).len());
}

} // verus!
