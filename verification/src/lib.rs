//! Rules of a small expense tracker: how ids are assigned, what a deletion
//! removes, how the records are laid out as a table, and what each command
//! reports. Reading and writing the datastore file is left to the caller; the
//! functions here take the records as plain values and say what has to be
//! stored and printed.

pub mod commands;
pub mod datastore;
pub mod decimal;
pub mod expense;
pub mod listing;
pub mod report;
pub mod table;
pub mod text;

pub use commands::{add_expense, delete_expense, next_id, Outcome};
pub use datastore::{init_datastore, Initialization, DATASTORE_PATH, EMPTY_DATASTORE};
pub use expense::{highest_id, Expense};
pub use listing::{list_expenses, Listing};
