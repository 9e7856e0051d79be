//! The first table of an HTML document, as the `table_extract` crate reads
//! it: a header row that names the columns, and rows of cells.
//!
//! A header or a cell is the inner HTML of its element, written out anew by
//! the `scraper` crate. This library builds `scraper` with its feature
//! `deterministic`, under which an element's attributes are written in the
//! order the page has them; without it the order would differ from run to
//! run, and a text would not decide its table.

use table_extract::Table;
use vstd::prelude::*;

verus! {

#[verifier::external_type_specification]
#[verifier::external_body]
pub struct ExTable(table_extract::Table);

/// The rows of a table, each with its cells in order.
pub uninterp spec fn table_rows(table: Table) -> Seq<Seq<Seq<char>>>;

/// The position of each column that the table's header row names.
pub uninterp spec fn table_headers(table: Table) -> Map<Seq<char>, int>;

/// The headers and rows of the table that `Table::find_first` makes of a
/// text, where it finds one. With attributes kept in their written order
/// the text alone decides them.
pub uninterp spec fn first_table(html: Seq<char>) -> Option<
    (Map<Seq<char>, int>, Seq<Seq<Seq<char>>>),
>;

/// The cell of `row` under the column that `headers` knows as `header`.
pub open spec fn cell_under(headers: Map<Seq<char>, int>, row: Seq<Seq<char>>, header: Seq<char>)
    -> Option<Seq<char>> {
    if headers.contains_key(header) && 0 <= headers[header] < row.len() {
        Some(row[headers[header]])
    } else {
        None
    }
}

/// `Table::find_first`: the first table of the text, where there is one.
/// Headers and rows are what `first_table` names for the text.
#[verifier::external_body]
fn find_first(html: &str) -> (found: Option<Table>)
    ensures
        match found {
            Some(table) => first_table(html@) == Some((table_headers(table), table_rows(table))),
            None => first_table(html@) is None,
        },
{
    Table::find_first(html)
}

/// The number of rows that `Table::iter` yields.
#[verifier::external_body]
fn row_count(table: &Table) -> (n: usize)
    ensures
        n == table_rows(*table).len(),
{
    table.iter().count()
}

/// `Row::get` on the row that `Table::iter` yields at position `row`: the
/// cell at the position that the headers give for `header`, where the
/// headers name it and the row is that long.
#[verifier::external_body]
pub(crate) fn cell(table: &Table, row: usize, header: &str) -> (value: Option<String>)
    requires
        row < table_rows(*table).len(),
    ensures
        crate::text::option_view(value) == cell_under(
            table_headers(*table),
            table_rows(*table)[row as int],
            header@,
        ),
{
    table.iter().nth(row).and_then(|r| r.get(header)).map(|v| v.to_string())
}

/// Reads the first table of a page, where the page has one.
pub fn first(html: &str) -> (found: Option<Table>)
    ensures
        match found {
            Some(table) => first_table(html@) == Some((table_headers(table), table_rows(table))),
            None => first_table(html@) is None,
        },
{
    find_first(html)
}

/// The number of rows of a table.
pub fn rows(table: &Table) -> (n: usize)
    ensures
        n == table_rows(*table).len(),
{
    row_count(table)
}

} // verus!
