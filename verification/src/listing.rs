//! The command that shows the records: one table row for each expense, under
//! a row of column titles.

use vstd::prelude::*;
use vstd::string::StringExecFns;
use crate::decimal::{decimal, decimal_string, lemma_decimal_digits};
use crate::expense::Expense;
use crate::report::{no_expenses_message, no_expenses_text};
use crate::table::{add_row, new_table, shown, shown_row, table_rows};
use crate::text::{is_free_of_escape, no_escape, single_line};

verus! {

/// What there is to show for a request to list the expenses.
#[derive(Debug)]
pub enum Listing {
    /// Nothing is recorded: the line to print instead of a table.
    Message(String),
    /// The table to print.
    Table(prettytable::Table),
    /// The texts of the table's cells, row by row. They are handed out as
    /// they are where one of them holds an escape character: the table would
    /// have to measure a terminal control sequence, which it is not trusted
    /// with here.
    Rows(Vec<Vec<String>>),
}

/// The titles of the three columns.
pub open spec fn title_row() -> Seq<Seq<char>> {
    seq!["ID"@, "Description"@, "Amount"@]
}

/// The cells of the row that shows `expense`: its id in decimal notation, its
/// description, and its amount as the text that the record holds for it.
pub open spec fn expense_row(expense: Expense<String>) -> Seq<Seq<char>> {
    seq![decimal(expense.id as nat), expense.description@, expense.amount@]
}

/// The cells of the whole listing: the titles, then one row for each record
/// of `s`, in the order of `s`.
pub open spec fn listing_rows(s: Seq<Expense<String>>) -> Seq<Seq<Seq<char>>> {
    seq![title_row()] + s.map_values(|expense: Expense<String>| expense_row(expense))
}

/// No description and no amount of `s` holds an escape character.
pub open spec fn printable(s: Seq<Expense<String>>) -> bool {
    forall|i: int|
        0 <= i < s.len() ==> no_escape((#[trigger] s[i]).description@) && no_escape(
            s[i].amount@,
        )
}

/// What the table holds in the row of `expense`: the id as it is written, and
/// what a cell shows of the description and of the amount.
pub open spec fn shown_expense(expense: Expense<String>) -> Seq<Seq<char>> {
    seq![decimal(expense.id as nat), shown(expense.description@), shown(expense.amount@)]
}

/// What the table of the records `s` holds: the titles, then one row for each
/// record of `s`, in the order of `s`.
pub open spec fn table_of(s: Seq<Expense<String>>) -> Seq<Seq<Seq<char>>> {
    seq![title_row()] + s.map_values(|expense: Expense<String>| shown_expense(expense))
}

/// No cell of `rows` holds an escape character.
pub open spec fn free_of_escape(rows: Seq<Seq<Seq<char>>>) -> bool {
    forall|i: int, j: int|
        0 <= i < rows.len() && 0 <= j < rows[i].len() ==> no_escape(#[trigger] rows[i][j])
}

fn titles() -> (cells: Vec<String>)
    ensures
        cells.deep_view() == title_row(),
{
    let mut cells: Vec<String> = Vec::new();
    cells.push(String::from_str("ID"));
    cells.push(String::from_str("Description"));
    cells.push(String::from_str("Amount"));
    cells
}

fn cells_of(expense: &Expense<String>) -> (cells: Vec<String>)
    ensures
        cells.deep_view() == expense_row(*expense),
{
    let mut cells: Vec<String> = Vec::new();
    cells.push(decimal_string(expense.id));
    cells.push(expense.description.clone());
    cells.push(expense.amount.clone());
    cells
}

/// Lays the records out as the texts of a table's cells.
pub fn expense_rows(expenses: &Vec<Expense<String>>) -> (rows: Vec<Vec<String>>)
    ensures
        rows.deep_view() == listing_rows(expenses@),
{
    let mut rows: Vec<Vec<String>> = Vec::new();
    rows.push(titles());
    let mut i: usize = 0;
    while i < expenses.len()
        invariant
            i <= expenses.len(),
            rows.deep_view() == listing_rows(expenses@.take(i as int)),
        decreases expenses.len() - i,
    {
        let ghost before = rows.deep_view();
        rows.push(cells_of(&expenses[i]));
        assert(listing_rows(expenses@.take(i + 1)) == before.push(
            expense_row(expenses@[i as int]),
        ));
        i += 1;
    }
    assert(expenses@.take(i as int) == expenses@);
    rows
}

fn row_is_free_of_escape(cells: &Vec<String>) -> (free: bool)
    ensures
        free == forall|j: int| 0 <= j < cells.len() ==> no_escape(#[trigger] cells[j]@),
{
    let mut j: usize = 0;
    while j < cells.len()
        invariant
            j <= cells.len(),
            forall|k: int| 0 <= k < j ==> no_escape(#[trigger] cells[k]@),
        decreases cells.len() - j,
    {
        if !is_free_of_escape(cells[j].as_str()) {
            return false;
        }
        j += 1;
    }
    true
}

/// Tells whether no cell of `rows` holds an escape character.
pub fn rows_are_free_of_escape(rows: &Vec<Vec<String>>) -> (free: bool)
    ensures
        free == free_of_escape(rows.deep_view()),
{
    let mut i: usize = 0;
    while i < rows.len()
        invariant
            i <= rows.len(),
            forall|k: int, j: int|
                0 <= k < i && 0 <= j < rows[k].len() ==> no_escape(#[trigger] rows[k][j]@),
        decreases rows.len() - i,
    {
        if !row_is_free_of_escape(&rows[i]) {
            proof {
                let j = choose|j: int| 0 <= j < rows[i as int].len() && !no_escape(rows[i as int][j]@);
                assert(rows.deep_view()[i as int][j] == rows[i as int][j]@);
            }
            return false;
        }
        i += 1;
    }
    true
}

/// Fills a table with one row for each row of `rows`, in their order.
pub fn build_table(rows: &Vec<Vec<String>>) -> (table: prettytable::Table)
    requires
        free_of_escape(rows.deep_view()),
    ensures
        table_rows(table) == rows.deep_view().map_values(|cells: Seq<Seq<char>>| shown_row(cells)),
{
    let mut table = new_table();
    let mut i: usize = 0;
    while i < rows.len()
        invariant
            i <= rows.len(),
            free_of_escape(rows.deep_view()),
            table_rows(table) == rows.deep_view().take(i as int).map_values(
                |cells: Seq<Seq<char>>| shown_row(cells),
            ),
        decreases rows.len() - i,
    {
        let ghost before = table_rows(table);
        let ghost cells = rows.deep_view()[i as int];
        proof {
            assert forall|j: int| 0 <= j < rows[i as int].len() implies no_escape(
                #[trigger] rows[i as int][j]@,
            ) by {
                assert(rows.deep_view()[i as int][j] == rows[i as int][j]@);
            }
        }
        add_row(&mut table, &rows[i]);
        proof {
            assert(table_rows(table).last() == shown_row(cells));
            assert(table_rows(table) == before.push(shown_row(cells)));
            assert(rows.deep_view().take(i + 1) == rows.deep_view().take(i as int).push(cells));
        }
        i += 1;
    }
    assert(rows.deep_view().take(i as int) == rows.deep_view());
    table
}

/// The titles stay on one line and are free of escape characters.
proof fn lemma_titles_are_plain()
    ensures
        title_row().len() == 3,
        forall|j: int| 0 <= j < 3 ==> no_escape(#[trigger] title_row()[j]),
        forall|j: int| 0 <= j < 3 ==> single_line(#[trigger] title_row()[j]),
{
    reveal_strlit("ID");
    reveal_strlit("Description");
    reveal_strlit("Amount");
}

/// How the cells of a listing relate to the records: the titles and the ids
/// never hold an escape character, so the cells are free of them exactly
/// where the descriptions and the amounts are; and a table shows the titles
/// and the ids as they are written.
pub proof fn lemma_listing_rows(s: Seq<Expense<String>>)
    ensures
        free_of_escape(listing_rows(s)) <==> printable(s),
        listing_rows(s).map_values(|cells: Seq<Seq<char>>| shown_row(cells)) == table_of(s),
{
    let rows = listing_rows(s);
    lemma_titles_are_plain();
    assert forall|i: int| 0 <= i < s.len() implies #[trigger] rows[i + 1] == expense_row(s[i])
        && no_escape(decimal(s[i].id as nat)) && single_line(decimal(s[i].id as nat)) by {
        lemma_decimal_digits(s[i].id as nat);
    }
    if printable(s) {
        assert forall|i: int, j: int|
            0 <= i < rows.len() && 0 <= j < rows[i].len() implies no_escape(
            #[trigger] rows[i][j],
        ) by {
            if i > 0 {
                assert(rows[(i - 1) + 1] == expense_row(s[i - 1]));
            }
        }
    }
    if free_of_escape(rows) {
        assert forall|i: int| 0 <= i < s.len() implies no_escape((#[trigger] s[i]).description@)
            && no_escape(s[i].amount@) by {
            assert(rows[i + 1][1] == s[i].description@);
            assert(rows[i + 1][2] == s[i].amount@);
        }
    }
    let table = rows.map_values(|cells: Seq<Seq<char>>| shown_row(cells));
    assert forall|i: int| 0 <= i < table.len() implies table[i] == table_of(s)[i] by {
        if i > 0 {
            assert(rows[(i - 1) + 1] == expense_row(s[i - 1]));
        }
    }
}

/// Shows the records. With nothing recorded there is only a line to print.
/// Otherwise the result is a table of the titles and one row for each
/// expense, in the order of the records; or, where a description or an
/// amount holds an escape character, the texts of that table's cells.
pub fn list_expenses(expenses: &Vec<Expense<String>>) -> (listing: Listing)
    ensures
        match listing {
            Listing::Message(message) => expenses.len() == 0 && message@ == no_expenses_message(),
            Listing::Table(table) => expenses.len() > 0 && printable(expenses@) && table_rows(table)
                == table_of(expenses@),
            Listing::Rows(rows) => expenses.len() > 0 && !printable(expenses@) && rows.deep_view()
                == listing_rows(expenses@),
        },
{
    if expenses.len() == 0 {
        return Listing::Message(no_expenses_text());
    }
    proof {
        lemma_listing_rows(expenses@);
    }
    let rows = expense_rows(expenses);
    if rows_are_free_of_escape(&rows) {
        Listing::Table(build_table(&rows))
    } else {
        Listing::Rows(rows)
    }
}

} // verus!
