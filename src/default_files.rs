//! Where the packaged element files go and when they are (re)written.
use vstd::prelude::*;
use vstd::string::*;

verus! {

/// The two kinds of stored element.
#[derive(PartialEq, Eq, Debug, Clone, Copy, Structural)]
pub enum ElementType {
    Spread,
    Deck,
}

pub open spec fn dir_name_of(element: ElementType) -> Seq<char> {
    match element {
        ElementType::Deck => "default_decks"@,
        ElementType::Spread => "default_spreads"@,
    }
}

pub open spec fn file_names_of(element: ElementType) -> Seq<Seq<char>> {
    match element {
        ElementType::Deck => seq!["standard_deck.json"@],
        ElementType::Spread => seq!["debug_spread.json"@, "celtic_cross.json"@],
    }
}

/// The directory, under the data directory, that holds the packaged files
/// of an element kind.
pub fn default_dir_name(element: ElementType) -> (r: String)
    ensures
        r@ == dir_name_of(element),
{
    match element {
        ElementType::Deck => String::from_str("default_decks"),
        ElementType::Spread => String::from_str("default_spreads"),
    }
}

/// The names of the packaged files of an element kind.
pub fn default_file_names(element: ElementType) -> (r: Vec<String>)
    ensures
        r@.len() == file_names_of(element).len(),
        forall|i: int| 0 <= i < r@.len() ==> #[trigger] r@[i]@ == file_names_of(element)[i],
{
    let mut names: Vec<String> = Vec::new();
    match element {
        ElementType::Deck => {
            names.push(String::from_str("standard_deck.json"));
        },
        ElementType::Spread => {
            names.push(String::from_str("debug_spread.json"));
            names.push(String::from_str("celtic_cross.json"));
        },
    }
    names
}

/// A packaged file is written when it is not there yet, or when overwriting
/// was asked for.
pub fn should_write_file(present: bool, overwrite: bool) -> (r: bool)
    ensures
        r == (!present || overwrite),
{
    !present || overwrite
}

} // verus!
