//! The lines that the commands report, as texts.

use vstd::prelude::*;
use vstd::string::StringExecFns;
use crate::decimal::{decimal, decimal_string};

verus! {

/// Reported after an expense was recorded under `id`.
pub open spec fn added_message(id: u32) -> Seq<char> {
    "Expense added successfully with ID: "@ + decimal(id as nat)
}

/// Reported after the expense with `id` was removed.
pub open spec fn deleted_message(id: u32) -> Seq<char> {
    "Expense with ID: '"@ + decimal(id as nat) + "' deleted successfully"@
}

/// Reported when no expense carries `id`.
pub open spec fn not_found_message(id: u32) -> Seq<char> {
    "No expense found with ID: "@ + decimal(id as nat)
}

/// Reported in place of a table when nothing is recorded.
pub open spec fn no_expenses_message() -> Seq<char> {
    "No expenses found"@
}

/// Reported after a new datastore was created at `path`.
pub open spec fn initialized_message(path: Seq<char>) -> Seq<char> {
    "Datastore initialized at '"@ + path + "'"@
}

/// Reported when the datastore at `path` was there already.
pub open spec fn reading_message(path: Seq<char>) -> Seq<char> {
    "Reading from datastore at '"@ + path + "'"@
}

pub(crate) fn added_text(id: u32) -> (text: String)
    ensures
        text@ == added_message(id),
{
    let mut text = String::from_str("Expense added successfully with ID: ");
    text.append(decimal_string(id).as_str());
    text
}

pub(crate) fn deleted_text(id: u32) -> (text: String)
    ensures
        text@ == deleted_message(id),
{
    let mut text = String::from_str("Expense with ID: '");
    text.append(decimal_string(id).as_str());
    text.append("' deleted successfully");
    text
}

pub(crate) fn not_found_text(id: u32) -> (text: String)
    ensures
        text@ == not_found_message(id),
{
    let mut text = String::from_str("No expense found with ID: ");
    text.append(decimal_string(id).as_str());
    text
}

pub(crate) fn no_expenses_text() -> (text: String)
    ensures
        text@ == no_expenses_message(),
{
    String::from_str("No expenses found")
}

pub(crate) fn initialized_text(path: &str) -> (text: String)
    ensures
        text@ == initialized_message(path@),
{
    let mut text = String::from_str("Datastore initialized at '");
    text.append(path);
    text.append("'");
    text
}

pub(crate) fn reading_text(path: &str) -> (text: String)
    ensures
        text@ == reading_message(path@),
{
    let mut text = String::from_str("Reading from datastore at '");
    text.append(path);
    text.append("'");
    text
}

} // verus!
