//! How a stored deck or spread is resolved from a path: which deserializer a
//! file's extension selects, and which of the candidates found under a
//! directory is taken.
use vstd::prelude::*;
use vstd::string::*;

verus! {

/// The text formats that an element file can be read from.
#[derive(PartialEq, Eq, Debug, Clone, Copy, Structural)]
pub enum FileFormat {
    Json,
}

/// Why an element could not be resolved.
#[derive(PartialEq, Eq, Debug, Clone, Copy, Structural)]
pub enum LoadError {
    /// The file has no extension to pick a deserializer by.
    MissingExtension,
    /// No deserializer is known for the file's extension.
    UnsupportedExtension,
    /// Nothing was found to choose from.
    NoCandidates,
    /// The chosen index names no candidate.
    SelectionOutOfRange,
}

/// How the element is taken from the candidates that were found.
#[derive(PartialEq, Eq, Debug, Clone, Copy, Structural)]
pub enum Pick {
    /// The one candidate is taken as it is, without asking.
    Only,
    /// The reader chooses among several candidates.
    Menu,
}

pub open spec fn format_of(ext: Option<Seq<char>>) -> Result<FileFormat, LoadError> {
    match ext {
        None => Err(LoadError::MissingExtension),
        Some(e) => if e == "json"@ {
            Ok(FileFormat::Json)
        } else {
            Err(LoadError::UnsupportedExtension)
        },
    }
}

pub open spec fn pick_of(count: nat) -> Result<Pick, LoadError> {
    if count == 0 {
        Err(LoadError::NoCandidates)
    } else if count == 1 {
        Ok(Pick::Only)
    } else {
        Ok(Pick::Menu)
    }
}

pub open spec fn taken<T>(candidates: Seq<T>, choice: int) -> Result<T, LoadError> {
    if candidates.len() == 0 {
        Err(LoadError::NoCandidates)
    } else if candidates.len() == 1 {
        Ok(candidates[0])
    } else if 0 <= choice < candidates.len() {
        Ok(candidates[choice])
    } else {
        Err(LoadError::SelectionOutOfRange)
    }
}

/// The deserializer for a file with extension `ext`: `json` is the one known
/// extension; a missing or any other extension is an error.
pub fn format_for_extension(ext: &Option<String>) -> (r: Result<FileFormat, LoadError>)
    ensures
        r == format_of(
            match ext {
                Some(e) => Some(e@),
                None => None,
            },
        ),
{
    match ext {
        None => Err(LoadError::MissingExtension),
        Some(e) => {
            let json = String::from_str("json");
            if *e == json {
                Ok(FileFormat::Json)
            } else {
                Err(LoadError::UnsupportedExtension)
            }
        },
    }
}

/// Whether `count` candidates need the reader to choose: one is taken
/// directly, none is an error.
pub fn candidate_pick(count: usize) -> (r: Result<Pick, LoadError>)
    ensures
        r == pick_of(count as nat),
{
    if count == 0 {
        Err(LoadError::NoCandidates)
    } else if count == 1 {
        Ok(Pick::Only)
    } else {
        Ok(Pick::Menu)
    }
}

/// Removes and returns the chosen candidate. A single candidate is returned
/// whatever `choice` is; with several, `choice` must index one of them.
pub fn take_candidate<T>(candidates: Vec<T>, choice: usize) -> (r: Result<T, LoadError>)
    ensures
        r == taken(candidates@, choice as int),
{
    let mut candidates = candidates;
    let n = candidates.len();
    if n == 0 {
        Err(LoadError::NoCandidates)
    } else if n == 1 {
        Ok(candidates.remove(0))
    } else if choice < n {
        Ok(candidates.remove(choice))
    } else {
        Err(LoadError::SelectionOutOfRange)
    }
}

/// Resolving exactly one candidate asks the reader nothing and yields that
/// candidate, whatever choice would have been passed along.
pub proof fn lemma_single_candidate_taken_directly<T>(candidates: Seq<T>, choice: int)
    requires
        candidates.len() == 1,
    ensures
        pick_of(candidates.len()) == Ok::<Pick, LoadError>(Pick::Only),
        taken(candidates, choice) == Ok::<T, LoadError>(candidates[0]),
{
}

} // verus!
