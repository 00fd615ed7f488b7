//! Plain data handed to the command-line front end when it presents a
//! numbered list of choices.

use vstd::prelude::*;

verus! {

/// One selectable entry in a command-line option list.
#[derive(Debug, Clone)]
pub struct CLIOption {
    pub title: String,
    pub artist: Option<String>,
    pub url: Option<String>,
    pub id: Option<u64>,
}

} // verus!
