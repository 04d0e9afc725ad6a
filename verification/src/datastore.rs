//! The datastore file and how it comes into being.
//!
//! The file holds all the records as one text. Whoever runs a command looks
//! whether the file is there, asks `init_datastore` what to do, and does it.

use vstd::prelude::*;
use vstd::string::StringExecFns;
use crate::report::{initialized_message, initialized_text, reading_message, reading_text};

verus! {

/// Where the datastore lies, relative to the working directory.
pub const DATASTORE_PATH: &'static str = "datastore.json";

/// The text of a datastore without records.
pub const EMPTY_DATASTORE: &'static str = "[]";

/// What has to be done before a command can run.
#[derive(Debug)]
pub struct Initialization {
    /// The text to create the datastore file with; `None` where the file is
    /// there and is left as it is.
    pub create: Option<String>,
    /// The line to print.
    pub message: String,
}

/// The text that initialization writes: the empty datastore where there is no
/// file yet, and nothing where there is one.
pub open spec fn creation(exists: bool) -> Option<Seq<char>> {
    if exists {
        None
    } else {
        Some(EMPTY_DATASTORE@)
    }
}

/// The datastore file after initialization. A file is modelled by its
/// contents, and `None` stands for a file that does not exist.
pub open spec fn after_init(file: Option<Seq<char>>) -> Option<Seq<char>> {
    match creation(file is Some) {
        Some(contents) => Some(contents),
        None => file,
    }
}

/// Decides how to initialize the datastore at `path`, given whether a file
/// exists there. A missing file is created as an empty datastore; a file that
/// exists is not touched, whatever it holds.
pub fn init_datastore(path: &str, exists: bool) -> (plan: Initialization)
    ensures
        match plan.create {
            Some(contents) => creation(exists) == Some(contents@),
            None => creation(exists) is None,
        },
        exists ==> plan.message@ == reading_message(path@),
        !exists ==> plan.message@ == initialized_message(path@),
{
    if exists {
        Initialization { create: None, message: reading_text(path) }
    } else {
        Initialization {
            create: Some(String::from_str(EMPTY_DATASTORE)),
            message: initialized_text(path),
        }
    }
}

/// Initialization leaves a datastore that exists as it is.
pub proof fn lemma_init_keeps_existing(file: Option<Seq<char>>)
    requires
        file is Some,
    ensures
        after_init(file) == file,
{
}

/// After initialization the datastore exists, and initializing it once more
/// changes nothing.
pub proof fn lemma_init_idempotent(file: Option<Seq<char>>)
    ensures
        after_init(file) is Some,
        after_init(after_init(file)) == after_init(file),
{
}

} // verus!
