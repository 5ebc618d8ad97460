//! The search: candidates are tried in order, and the first whose decrypted
//! entry begins with the expected signature is the answer.

use crate::archive::{decrypted_header, ArchiveHandle};
use vstd::prelude::*;
use vstd::std_specs::iter::IteratorSpec;

verus! {

/// Why a search ended without a password.
#[derive(Clone, Copy, Debug, PartialEq, Eq, Structural)]
pub enum VerificationError {
    /// Every candidate was tried and none fits.
    PasswordNotFound,
}

/// What an attempt read, as plain bytes.
pub open spec fn bytes_of(read: Option<Vec<u8>>) -> Option<Seq<u8>> {
    match read {
        Some(bytes) => Some(bytes@),
        None => None,
    }
}

/// Whether what was read of a decrypted entry begins with `signature`.
/// A failed attempt (`None`) never does, nor do fewer bytes than the
/// signature has.
pub open spec fn header_matches(read: Option<Seq<u8>>, signature: Seq<u8>) -> bool {
    read matches Some(bytes) && signature.is_prefix_of(bytes)
}

/// Whether `password` opens the entry `name` of the zip file `archive` to
/// something that begins with `signature`.
pub open spec fn password_verifies(
    archive: Seq<u8>,
    name: Seq<char>,
    signature: Seq<u8>,
    password: Seq<char>,
) -> bool {
    header_matches(decrypted_header(archive, name, password, signature.len()), signature)
}

/// The first of `candidates` that verifies, if any does.
pub open spec fn first_verified(
    archive: Seq<u8>,
    name: Seq<char>,
    signature: Seq<u8>,
    candidates: Seq<String>,
) -> Option<String>
    decreases candidates.len(),
{
    if candidates.len() == 0 {
        None
    } else if password_verifies(archive, name, signature, candidates[0]@) {
        Some(candidates[0])
    } else {
        first_verified(archive, name, signature, candidates.drop_first())
    }
}

/// How many of `candidates` a search takes from the front: all up to and
/// including the first that verifies, or all of them where none does.
pub open spec fn candidates_tried(
    archive: Seq<u8>,
    name: Seq<char>,
    signature: Seq<u8>,
    candidates: Seq<String>,
) -> nat
    decreases candidates.len(),
{
    if candidates.len() == 0 {
        0
    } else if password_verifies(archive, name, signature, candidates[0]@) {
        1
    } else {
        1 + candidates_tried(archive, name, signature, candidates.drop_first())
    }
}

/// Compares what an attempt read with the expected signature.
pub fn is_header_valid(read: &Option<Vec<u8>>, file_header: &[u8]) -> (valid: bool)
    ensures
        valid == header_matches(bytes_of(*read), file_header@),
{
    match read {
        None => false,
        Some(bytes) => {
            if bytes.len() < file_header.len() {
                return false;
            }
            let mut i: usize = 0;
            while i < file_header.len()
                invariant
                    *read == Some(*bytes),
                    i <= file_header.len() <= bytes.len(),
                    forall|k: int| 0 <= k < i ==> bytes[k] == file_header[k],
                decreases file_header.len() - i,
            {
                if bytes[i] != file_header[i] {
                    assert(bytes@.subrange(0, file_header@.len() as int)[i as int]
                        != file_header@[i as int]);
                    return false;
                }
                i += 1;
            }
            true
        },
    }
}

/// One attempt: decrypts the entry `entry_name` with `password` and tells
/// whether it begins with `signature`. A password that the archive refuses,
/// and an entry that cannot be read that far, count as no match.
pub fn try_password(
    archive: &mut ArchiveHandle,
    entry_name: &str,
    signature: &[u8],
    password: &str,
) -> (verified: bool)
    ensures
        final(archive)@ == old(archive)@,
        verified == password_verifies(old(archive)@, entry_name@, signature@, password@),
{
    let buffer: Vec<u8> = vec![0u8; signature.len()];
    let read = archive.read_decrypted_header(entry_name, password, buffer);
    is_header_valid(&read, signature)
}

/// Tries the candidates that `passwords` yields, in order, against the entry
/// `entry_name`, and returns the first that verifies. `passwords` is left
/// right behind that candidate, or empty where none verifies: nothing behind
/// the answer is taken from it, let alone tried.
///
/// The candidates must be a sequence that comes to an end and then stays
/// ended; that is what the two conditions on `passwords` say. A failed
/// attempt never ends the search: it goes on with the next candidate.
pub fn verify<R: Iterator<Item = String>>(
    archive: &mut ArchiveHandle,
    entry_name: &str,
    signature: &[u8],
    passwords: &mut R,
) -> (found: Result<String, VerificationError>)
    requires
        (*old(passwords)).obeys_prophetic_iter_laws(),
        (*old(passwords)).decrease() is Some,
    ensures
        final(archive)@ == old(archive)@,
        found == match first_verified(
            old(archive)@,
            entry_name@,
            signature@,
            (*old(passwords)).remaining(),
        ) {
            Some(password) => Ok::<String, VerificationError>(password),
            None => Err(VerificationError::PasswordNotFound),
        },
        (*final(passwords)).remaining() == (*old(passwords)).remaining().skip(
            candidates_tried(
                old(archive)@,
                entry_name@,
                signature@,
                (*old(passwords)).remaining(),
            ) as int,
        ),
{
    let ghost mut tried: int = 0;
    loop
        invariant
            (*passwords).obeys_prophetic_iter_laws(),
            (*passwords).decrease() is Some,
            archive@ == old(archive)@,
            0 <= tried <= (*old(passwords)).remaining().len(),
            (*passwords).remaining() == (*old(passwords)).remaining().skip(tried),
            first_verified(archive@, entry_name@, signature@, (*old(passwords)).remaining())
                == first_verified(archive@, entry_name@, signature@, (*passwords).remaining()),
            candidates_tried(archive@, entry_name@, signature@, (*old(passwords)).remaining())
                == tried + candidates_tried(
                archive@,
                entry_name@,
                signature@,
                (*passwords).remaining(),
            ),
        decreases (*passwords).decrease()->0,
    {
        match passwords.next() {
            None => {
                return Err(VerificationError::PasswordNotFound);
            },
            Some(password) => {
                proof {
                    tried = tried + 1;
                }
                if try_password(archive, entry_name, signature, password.as_str()) {
                    return Ok(password);
                }
            },
        }
    }
}

/// A read that is shorter than the signature matches nothing.
pub proof fn lemma_short_read_never_matches(read: Seq<u8>, signature: Seq<u8>)
    requires
        read.len() < signature.len(),
    ensures
        !header_matches(Some(read), signature),
{
}

/// The first candidate in order that verifies is the answer, whatever comes
/// behind it, and the search takes nothing behind it.
pub proof fn lemma_first_match_wins(
    archive: Seq<u8>,
    name: Seq<char>,
    signature: Seq<u8>,
    candidates: Seq<String>,
    k: int,
)
    requires
        0 <= k < candidates.len(),
        password_verifies(archive, name, signature, candidates[k]@),
        forall|j: int| 0 <= j < k ==> !password_verifies(archive, name, signature, candidates[j]@),
    ensures
        first_verified(archive, name, signature, candidates) == Some(candidates[k]),
        candidates_tried(archive, name, signature, candidates) == k + 1,
    decreases k,
{
    if k > 0 {
        assert(!password_verifies(archive, name, signature, candidates[0]@));
        let rest = candidates.drop_first();
        assert(rest[k - 1] == candidates[k]);
        assert forall|j: int| 0 <= j < k - 1 implies !password_verifies(
            archive,
            name,
            signature,
            rest[j]@,
        ) by {
            assert(rest[j] == candidates[j + 1]);
        }
        lemma_first_match_wins(archive, name, signature, rest, k - 1);
    }
}

/// Of two candidates that both verify, the one that comes first in the
/// sequence is the answer, provided that nothing before it verifies.
pub proof fn lemma_earlier_candidate_wins(
    archive: Seq<u8>,
    name: Seq<char>,
    signature: Seq<u8>,
    candidates: Seq<String>,
    earlier: int,
    later: int,
)
    requires
        0 <= earlier < later < candidates.len(),
        password_verifies(archive, name, signature, candidates[earlier]@),
        password_verifies(archive, name, signature, candidates[later]@),
        forall|j: int|
            0 <= j < earlier ==> !password_verifies(archive, name, signature, candidates[j]@),
    ensures
        first_verified(archive, name, signature, candidates) == Some(candidates[earlier]),
        candidates_tried(archive, name, signature, candidates) <= later,
{
    lemma_first_match_wins(archive, name, signature, candidates, earlier);
}

/// Where no candidate verifies, the search finds nothing and takes them all.
pub proof fn lemma_no_match_exhausts(
    archive: Seq<u8>,
    name: Seq<char>,
    signature: Seq<u8>,
    candidates: Seq<String>,
)
    requires
        forall|j: int|
            0 <= j < candidates.len() ==> !password_verifies(
                archive,
                name,
                signature,
                candidates[j]@,
            ),
    ensures
        first_verified(archive, name, signature, candidates) is None,
        candidates_tried(archive, name, signature, candidates) == candidates.len(),
    decreases candidates.len(),
{
    if candidates.len() > 0 {
        assert(!password_verifies(archive, name, signature, candidates[0]@));
        let rest = candidates.drop_first();
        assert forall|j: int| 0 <= j < rest.len() implies !password_verifies(
            archive,
            name,
            signature,
            rest[j]@,
        ) by {
            assert(rest[j] == candidates[j + 1]);
        }
        lemma_no_match_exhausts(archive, name, signature, rest);
    }
}

/// What a search returns is one of the candidates, it verifies, and nothing
/// before it does; where it returns nothing, no candidate verifies.
pub proof fn lemma_first_verified(
    archive: Seq<u8>,
    name: Seq<char>,
    signature: Seq<u8>,
    candidates: Seq<String>,
)
    ensures
        match first_verified(archive, name, signature, candidates) {
            Some(password) => {
                let k = candidates_tried(archive, name, signature, candidates) - 1;
                &&& 0 <= k < candidates.len()
                &&& candidates[k] == password
                &&& password_verifies(archive, name, signature, password@)
                &&& forall|j: int|
                    0 <= j < k ==> !password_verifies(archive, name, signature, candidates[j]@)
            },
            None => forall|j: int|
                0 <= j < candidates.len() ==> !password_verifies(
                    archive,
                    name,
                    signature,
                    candidates[j]@,
                ),
        },
    decreases candidates.len(),
{
    if candidates.len() > 0 && !password_verifies(archive, name, signature, candidates[0]@) {
        let rest = candidates.drop_first();
        lemma_first_verified(archive, name, signature, rest);
        match first_verified(archive, name, signature, candidates) {
            Some(password) => {
                let k = candidates_tried(archive, name, signature, candidates) - 1;
                assert(rest[k - 1] == candidates[k]);
                assert forall|j: int| 0 <= j < k implies !password_verifies(
                    archive,
                    name,
                    signature,
                    candidates[j]@,
                ) by {
                    if j > 0 {
                        assert(rest[j - 1] == candidates[j]);
                    }
                }
            },
            None => {
                assert forall|j: int| 0 <= j < candidates.len() implies !password_verifies(
                    archive,
                    name,
                    signature,
                    candidates[j]@,
                ) by {
                    if j > 0 {
                        assert(rest[j - 1] == candidates[j]);
                    }
                }
            },
        }
    }
}

} // verus!
