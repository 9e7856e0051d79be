//! The record that every source is normalised into.

use crate::calendar::{date_exists, iso_text, MAX_YEAR, MIN_YEAR};
use crate::text::option_view;
use vstd::prelude::*;
use vstd::string::StringExecFns;

verus! {

/// Why a page of a source gives no shows.
#[derive(Clone, Copy, Debug, PartialEq, Eq, Structural)]
pub enum ScrapeError {
    /// The page could not be fetched.
    Transport,
    /// The page holds no table.
    NoTable,
    /// The page holds no list.
    NoList,
}

/// One event listing.
#[derive(Clone, Debug, PartialEq, Eq)]
pub struct Show {
    pub venue: String,
    pub artists: Vec<String>,
    pub date: String,
    pub details: String,
    pub time: Option<String>,
    pub organizers: Option<String>,
    pub link: Option<String>,
    pub tags: Option<String>,
}

/// What a `Show` holds, as mathematical values.
pub struct ShowView {
    pub venue: Seq<char>,
    pub artists: Seq<Seq<char>>,
    pub date: Seq<char>,
    pub details: Seq<char>,
    pub time: Option<Seq<char>>,
    pub organizers: Option<Seq<char>>,
    pub link: Option<Seq<char>>,
    pub tags: Option<Seq<char>>,
}

impl View for Show {
    type V = ShowView;

    open spec fn view(&self) -> ShowView {
        ShowView {
            venue: self.venue@,
            artists: crate::text::strings_view(self.artists@),
            date: self.date@,
            details: self.details@,
            time: option_view(self.time),
            organizers: option_view(self.organizers),
            link: option_view(self.link),
            tags: option_view(self.tags),
        }
    }
}

/// What a sequence of shows holds.
pub open spec fn shows_view(shows: Seq<Show>) -> Seq<ShowView> {
    shows.map_values(|s: Show| s@)
}

/// `text` is a date of the calendar written as `YYYY-MM-DD`.
pub open spec fn is_resolved_date(text: Seq<char>) -> bool {
    exists|year: int, month: int, day: int|
        MIN_YEAR <= year <= MAX_YEAR && date_exists(year, month, day) && text == #[trigger] iso_text(
            year,
            month,
            day,
        )
}

/// What holds of every show that an extractor emits: it names a venue, and
/// its date is a full date of the calendar.
pub open spec fn is_listing(show: ShowView) -> bool {
    show.venue.len() > 0 && is_resolved_date(show.date)
}

/// Every show of the sequence is a listing.
pub open spec fn all_listings(shows: Seq<ShowView>) -> bool {
    forall|i: int| 0 <= i < shows.len() ==> is_listing(#[trigger] shows[i])
}

/// The parts with `sep` between each two of them.
pub open spec fn joined(parts: Seq<Seq<char>>, sep: Seq<char>) -> Seq<char>
    decreases parts.len(),
{
    if parts.len() == 0 {
        Seq::empty()
    } else if parts.len() == 1 {
        parts[0]
    } else {
        joined(parts.drop_last(), sep) + sep + parts.last()
    }
}

/// The text of an optional field: empty where the field is absent.
pub open spec fn or_empty(field: Option<Seq<char>>) -> Seq<char> {
    match field {
        Some(text) => text,
        None => Seq::empty(),
    }
}

/// A show written out for reading, one field to a line, with an empty line
/// after the last.
pub open spec fn show_text(show: ShowView) -> Seq<char> {
    "date: "@ + show.date + "\nvenue "@ + show.venue + "\nartists: "@ + joined(
        show.artists,
        ", "@,
    ) + "\ndetails: "@ + show.details + "\ntime: "@ + or_empty(show.time) + "\norganizers: "@
        + or_empty(show.organizers) + "\nlink: "@ + or_empty(show.link) + "\ntags: "@ + or_empty(
        show.tags,
    ) + "\n\n"@
}

/// Appends an optional field, or nothing where it is absent.
fn append_or_empty(out: &mut String, field: &Option<String>)
    ensures
        final(out)@ == old(out)@ + or_empty(option_view(*field)),
{
    match field {
        Some(text) => out.append(text.as_str()),
        None => {},
    }
}

/// The parts with `sep` between each two of them.
pub fn join(parts: &Vec<String>, sep: &str) -> (r: String)
    ensures
        r@ == joined(crate::text::strings_view(parts@), sep@),
{
    let mut out = String::new();
    let mut i: usize = 0;
    let ghost all = crate::text::strings_view(parts@);
    while i < parts.len()
        invariant
            i <= parts.len(),
            all == crate::text::strings_view(parts@),
            out@ == joined(all.take(i as int), sep@),
        decreases parts.len() - i,
    {
        proof {
            assert(all.take(i + 1).drop_last() == all.take(i as int));
        }
        if i > 0 {
            out.append(sep);
        }
        out.append(parts[i].as_str());
        i += 1;
    }
    proof {
        assert(all.take(parts.len() as int) == all);
    }
    out
}

impl Show {
    /// The show written out for reading.
    pub fn to_text(&self) -> (r: String)
        ensures
            r@ == show_text(self@),
    {
        let mut out = String::from_str("date: ");
        out.append(self.date.as_str());
        out.append("\nvenue ");
        out.append(self.venue.as_str());
        out.append("\nartists: ");
        let artists = join(&self.artists, ", ");
        out.append(artists.as_str());
        out.append("\ndetails: ");
        out.append(self.details.as_str());
        out.append("\ntime: ");
        append_or_empty(&mut out, &self.time);
        out.append("\norganizers: ");
        append_or_empty(&mut out, &self.organizers);
        out.append("\nlink: ");
        append_or_empty(&mut out, &self.link);
        out.append("\ntags: ");
        append_or_empty(&mut out, &self.tags);
        out.append("\n\n");
        out
    }
}

} // verus!
