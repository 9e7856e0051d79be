//! The table source: a page whose events are the rows of a table with
//! named columns.

use crate::aggregate::{aggregate, merged, pages_view, Source};
use crate::calendar::{iso_text, CalendarDate};
use crate::common::{all_listings, or_empty, shows_view, ScrapeError, Show, ShowView};
use crate::dates::{header_date, resolve_header};
use crate::html::{
    attr_value, elements, elements_named, node_attr, node_text, parsed_document, read_document,
    text_below,
};
use crate::table::{cell, cell_under, first_table, table_headers, table_rows};
use crate::text::{cut, cut_at_first, lemma_pieces_len, occurrences, option_view, pieces, split, trim, trimmed};
use table_extract::Table;
use vstd::prelude::*;

verus! {

/// The page of the table source.
pub const URL: &'static str = "https://19hz.info/eventlisting_BayArea.php";

/// The column that holds an event's title, as a link, and its venue.
pub const TITLE_VENUE: &'static str = "Event Title @ Venue";

/// The column that holds an event's date and, after a line break, its time.
pub const DATE_TIME: &'static str = "Date/Time";

/// The column that holds price and age restriction.
pub const PRICE_AGE: &'static str = "Price | Age";

/// The column that holds the organizers.
pub const ORGANIZERS: &'static str = "Organizers";

/// The column that holds the tags.
pub const TAGS: &'static str = "Tags";

/// What stands between title and venue.
pub const TITLE_VENUE_SEPARATOR: char = '@';

/// What stands between date and time.
pub const LINE_BREAK: &'static str = "<br>";

/// The element that holds a title.
pub const ANCHOR: &'static str = "a";

/// The attribute of an anchor that holds its link.
pub const HREF: &'static str = "href";

/// The first anchor of an HTML fragment: its text and, where it has one,
/// its link.
pub open spec fn anchor_of(fragment: Seq<char>) -> Option<(Seq<char>, Option<Seq<char>>)> {
    let nodes = parsed_document(fragment);
    let anchors = elements_named(nodes, ANCHOR@);
    if anchors.len() == 0 {
        None
    } else {
        Some((text_below(nodes, anchors[0]), attr_value(nodes[anchors[0]], HREF@)))
    }
}

/// Title fragment and venue of a title-and-venue cell: the cell has exactly
/// one separator, and what stands after it is the venue.
pub open spec fn title_and_venue(value: Seq<char>) -> Option<(Seq<char>, Seq<char>)> {
    let parts = pieces(value, TITLE_VENUE_SEPARATOR);
    if parts.len() == 2 && trimmed(parts[1]).len() > 0 {
        Some((trimmed(parts[0]), trimmed(parts[1])))
    } else {
        None
    }
}

/// Date and time of a date-and-time cell: what stands before the first line
/// break is the date, which must resolve; what stands after it is the time.
pub open spec fn date_and_time(value: Seq<char>, today: CalendarDate) -> Option<
    (CalendarDate, Option<Seq<char>>),
> {
    let (date, time) = cut_at_first(value, LINE_BREAK@);
    match header_date(date, today) {
        Some(resolved) => Some((resolved, time)),
        None => None,
    }
}

/// The show that a row gives, or none where the row is dropped: it must
/// have a title-and-venue cell of two parts with a venue, an anchor in the
/// title part, and a date that resolves.
pub open spec fn row_show(
    headers: Map<Seq<char>, int>,
    row: Seq<Seq<char>>,
    today: CalendarDate,
) -> Option<ShowView> {
    match cell_under(headers, row, TITLE_VENUE@) {
        Some(title_venue) => match title_and_venue(title_venue) {
            Some((fragment, venue)) => match anchor_of(fragment) {
                Some((title, link)) => match cell_under(headers, row, DATE_TIME@) {
                    Some(date_time) => match date_and_time(date_time, today) {
                        Some((date, time)) => Some(
                            ShowView {
                                venue,
                                artists: seq![title],
                                date: iso_text(date.year as int, date.month as int, date.day as int),
                                details: or_empty(cell_under(headers, row, PRICE_AGE@)),
                                time,
                                organizers: cell_under(headers, row, ORGANIZERS@),
                                link,
                                tags: cell_under(headers, row, TAGS@),
                            },
                        ),
                        None => None,
                    },
                    None => None,
                },
                None => None,
            },
            None => None,
        },
        None => None,
    }
}

/// The shows of the rows, in the rows' order, the dropped rows left out.
pub open spec fn table_shows(
    headers: Map<Seq<char>, int>,
    rows: Seq<Seq<Seq<char>>>,
    today: CalendarDate,
) -> Seq<ShowView>
    decreases rows.len(),
{
    if rows.len() == 0 {
        Seq::empty()
    } else {
        let before = table_shows(headers, rows.drop_last(), today);
        match row_show(headers, rows.last(), today) {
            Some(show) => before.push(show),
            None => before,
        }
    }
}

/// The shows of a page: those of its first table, or the failure to find
/// one.
pub open spec fn page_shows(html: Seq<char>, today: CalendarDate) -> Result<
    Seq<ShowView>,
    ScrapeError,
> {
    match first_table(html) {
        Some((headers, rows)) => Ok(table_shows(headers, rows, today)),
        None => Err(ScrapeError::NoTable),
    }
}

/// Splits a title-and-venue cell into title fragment and venue.
pub fn split_title_venue(value: &str) -> (r: Option<(String, String)>)
    ensures
        match r {
            Some((fragment, venue)) => title_and_venue(value@) == Some((fragment@, venue@)),
            None => title_and_venue(value@) is None,
        },
        occurrences(value@, TITLE_VENUE_SEPARATOR) != 1 ==> r is None,
{
    let parts = split(value, TITLE_VENUE_SEPARATOR);
    if parts.len() != 2 {
        return None;
    }
    let fragment = trim(parts[0].as_str());
    let venue = trim(parts[1].as_str());
    if venue.as_str().is_empty() {
        return None;
    }
    Some((fragment, venue))
}

/// Finds the first anchor of an HTML fragment and reads its text and link.
pub fn read_anchor(fragment: &str) -> (r: Option<(String, Option<String>)>)
    ensures
        match r {
            Some((title, link)) => anchor_of(fragment@) == Some((title@, option_view(link))),
            None => anchor_of(fragment@) is None,
        },
{
    let doc = read_document(fragment);
    let anchors = elements(&doc, ANCHOR);
    if anchors.len() == 0 {
        return None;
    }
    let first = anchors[0];
    let link = node_attr(&doc, first, HREF);
    let title = node_text(&doc, first);
    Some((title, link))
}

/// Splits a date-and-time cell and resolves its date.
pub fn read_date_time(value: &str, today: &CalendarDate) -> (r: Option<
    (CalendarDate, Option<String>),
>)
    requires
        today.is_valid(),
    ensures
        match r {
            Some((date, time)) => date_and_time(value@, *today) == Some((date, option_view(time)))
                && date.is_valid(),
            None => date_and_time(value@, *today) is None,
        },
{
    let (date, time) = cut(value, LINE_BREAK);
    match resolve_header(date.as_str(), today) {
        Some(resolved) => Some((resolved, time)),
        None => None,
    }
}

/// Reads one row of the table into a show, or drops it.
pub fn parse_row(table: &Table, row: usize, today: &CalendarDate) -> (r: Option<Show>)
    requires
        today.is_valid(),
        row < table_rows(*table).len(),
    ensures
        match r {
            Some(show) => row_show(table_headers(*table), table_rows(*table)[row as int], *today)
                == Some(show@) && crate::common::is_listing(show@),
            None => row_show(table_headers(*table), table_rows(*table)[row as int], *today)
                is None,
        },
{
    let title_venue = match cell(table, row, TITLE_VENUE) {
        Some(value) => value,
        None => { return None; },
    };
    let (fragment, venue) = match split_title_venue(title_venue.as_str()) {
        Some(parts) => parts,
        None => { return None; },
    };
    let (title, link) = match read_anchor(fragment.as_str()) {
        Some(anchor) => anchor,
        None => { return None; },
    };
    let date_time = match cell(table, row, DATE_TIME) {
        Some(value) => value,
        None => { return None; },
    };
    let (date, time) = match read_date_time(date_time.as_str(), today) {
        Some(parts) => parts,
        None => { return None; },
    };
    let details = match cell(table, row, PRICE_AGE) {
        Some(value) => value,
        None => String::new(),
    };
    let organizers = cell(table, row, ORGANIZERS);
    let tags = cell(table, row, TAGS);
    let mut artists: Vec<String> = Vec::new();
    artists.push(title);
    let show = Show {
        venue,
        artists,
        date: date.to_iso(),
        details,
        time,
        organizers,
        link,
        tags,
    };
    proof {
        assert(show@.artists == seq![title@]);
    }
    Some(show)
}

/// Reads a table into shows, row by row.
pub fn parse_table(table: &Table, today: &CalendarDate) -> (r: Vec<Show>)
    requires
        today.is_valid(),
    ensures
        shows_view(r@) == table_shows(table_headers(*table), table_rows(*table), *today),
        all_listings(shows_view(r@)),
{
    let n = crate::table::rows(table);
    let ghost headers = table_headers(*table);
    let ghost rows = table_rows(*table);
    let mut shows: Vec<Show> = Vec::new();
    let mut i: usize = 0;
    while i < n
        invariant
            today.is_valid(),
            headers == table_headers(*table),
            rows == table_rows(*table),
            n == rows.len(),
            i <= n,
            shows_view(shows@) == table_shows(headers, rows.take(i as int), *today),
            all_listings(shows_view(shows@)),
        decreases n - i,
    {
        let ghost before = shows_view(shows@);
        proof {
            assert(rows.take(i + 1).drop_last() == rows.take(i as int));
        }
        match parse_row(table, i, today) {
            Some(show) => {
                shows.push(show);
                proof {
                    assert(shows_view(shows@) == before.push(show@));
                }
            },
            None => {},
        }
        i += 1;
    }
    proof {
        assert(rows.take(n as int) == rows);
    }
    shows
}

/// Reads the first table of a page into shows.
pub fn parse_19hz_info(html: &str, today: &CalendarDate) -> (r: Result<Vec<Show>, ScrapeError>)
    requires
        today.is_valid(),
    ensures
        match r {
            Ok(shows) => page_shows(html@, *today) == Ok::<Seq<ShowView>, ScrapeError>(
                shows_view(shows@),
            ) && all_listings(shows_view(shows@)),
            Err(e) => page_shows(html@, *today) == Err::<Seq<ShowView>, ScrapeError>(e),
        },
{
    match crate::table::first(html) {
        Some(table) => Ok(parse_table(&table, today)),
        None => Err(ScrapeError::NoTable),
    }
}

/// The addresses of the pages of this source, in the order they are read.
pub fn urls() -> (r: Vec<&'static str>)
    ensures
        r@.len() == 1,
        r@[0]@ == URL@,
{
    let mut r: Vec<&'static str> = Vec::new();
    r.push(URL);
    r
}

/// Gathers the shows of this source from what fetching its pages gave, one
/// outcome for each page in the order of `urls`.
pub fn scrape(pages: &Vec<Result<String, ScrapeError>>, today: &CalendarDate) -> (r: Vec<Show>)
    requires
        today.is_valid(),
    ensures
        shows_view(r@) == merged(Source::Table, pages_view(pages@), *today),
        all_listings(shows_view(r@)),
{
    aggregate(Source::Table, pages, today)
}

/// A row whose title-and-venue cell does not hold exactly one separator
/// gives no show.
pub proof fn lemma_malformed_title_dropped(
    headers: Map<Seq<char>, int>,
    row: Seq<Seq<char>>,
    today: CalendarDate,
)
    requires
        cell_under(headers, row, TITLE_VENUE@) matches Some(value) && occurrences(
            value,
            TITLE_VENUE_SEPARATOR,
        ) != 1,
    ensures
        row_show(headers, row, today) is None,
{
    lemma_pieces_len(cell_under(headers, row, TITLE_VENUE@)->0, TITLE_VENUE_SEPARATOR);
}

/// The shows of two runs of rows, one after the other, are the shows of
/// the first followed by those of the second.
pub proof fn lemma_table_shows_add(
    headers: Map<Seq<char>, int>,
    first: Seq<Seq<Seq<char>>>,
    second: Seq<Seq<Seq<char>>>,
    today: CalendarDate,
)
    ensures
        table_shows(headers, first + second, today) == table_shows(headers, first, today)
            + table_shows(headers, second, today),
    decreases second.len(),
{
    if second.len() == 0 {
    } else {
        lemma_table_shows_add(headers, first, second.drop_last(), today);
        assert((first + second).drop_last() == first + second.drop_last());
    }
}

/// A dropped row leaves no trace: the shows of a table are those of the
/// table without that row.
pub proof fn lemma_dropped_row_absent(
    headers: Map<Seq<char>, int>,
    before: Seq<Seq<Seq<char>>>,
    row: Seq<Seq<char>>,
    after: Seq<Seq<Seq<char>>>,
    today: CalendarDate,
)
    requires
        row_show(headers, row, today) is None,
    ensures
        table_shows(headers, before + seq![row] + after, today) == table_shows(
            headers,
            before + after,
            today,
        ),
{
    lemma_table_shows_add(headers, before + seq![row], after, today);
    lemma_table_shows_add(headers, before, seq![row], today);
    lemma_table_shows_add(headers, before, after, today);
    assert(table_shows(headers, seq![row], today) == Seq::<ShowView>::empty()) by {
        reveal_with_fuel(table_shows, 2);
    }
}

} // verus!
