//! The table that a listing is laid out in.
//!
//! The table itself is `prettytable::Table`. Nothing of that crate is
//! verified here: this file states what the library relies on, and the
//! functions that fill a table are proved against these statements.

use vstd::prelude::*;
use crate::text::{no_escape, single_line};

verus! {

/// Makes `prettytable::Table` known as a type whose values are carried
/// around without being looked into.
#[verifier::external_type_specification]
#[verifier::external_body]
pub struct ExTable(prettytable::Table);

/// The rows that `table` holds, first to last, each as the texts of its cells
/// from left to right. The text of a cell is what `Cell::get_content` returns.
pub uninterp spec fn table_rows(table: prettytable::Table) -> Seq<Seq<Seq<char>>>;

/// The text that a cell made by `Cell::new` from `text` holds: the lines of
/// `text`, joined again.
pub uninterp spec fn cell_text(text: Seq<char>) -> Seq<char>;

/// What a cell made from `text` shows. A text that stays on one line is kept
/// as it is; any other text is broken into lines by the table, and the cell
/// holds `cell_text(text)`.
pub open spec fn shown(text: Seq<char>) -> Seq<char> {
    if single_line(text) {
        text
    } else {
        cell_text(text)
    }
}

/// What the cells of a row made from `texts` show.
pub open spec fn shown_row(texts: Seq<Seq<char>>) -> Seq<Seq<char>> {
    texts.map_values(|text: Seq<char>| shown(text))
}

/// Calls `Table::new`. Believed of it: the new table has no rows.
#[verifier::external_body]
pub(crate) fn new_table() -> (table: prettytable::Table)
    ensures
        table_rows(table) == Seq::<Seq<Seq<char>>>::empty(),
{
    prettytable::Table::new()
}

/// Makes one cell from each text with `Cell::new`, a row from the cells with
/// `Row::new`, and appends it with `Table::add_row`.
///
/// Believed of these three: `Table::add_row` pushes the row behind the rows
/// that are there and changes none of them; `Row::new` keeps the cells in the
/// order given; `Cell::new` keeps the lines of its text, and
/// `Cell::get_content` joins them again, which for a text on a single line
/// gives the text itself.
///
/// `Cell::new` measures each line of its text and stops the program when it
/// miscounts inside a terminal control sequence. A text without an escape
/// character has no such sequence, hence the `requires`.
#[verifier::external_body]
pub(crate) fn add_row(table: &mut prettytable::Table, texts: &Vec<String>)
    requires
        forall|j: int| 0 <= j < texts.len() ==> no_escape(#[trigger] texts[j]@),
    ensures
        table_rows(*final(table)) == table_rows(*old(table)).push(
            texts@.map_values(|text: String| cell_text(text@)),
        ),
        forall|j: int|
            0 <= j < texts.len() && single_line(#[trigger] texts[j]@) ==> table_rows(
                *final(table),
            ).last()[j] == texts[j]@,
{
    table.add_row(prettytable::Row::new(texts.iter().map(|text| prettytable::Cell::new(text)).collect()));
}

} // verus!
