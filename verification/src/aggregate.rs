//! One source's pages gathered into one run of shows: a page that could
//! not be fetched, or that lacks what the source's extractor looks for,
//! gives nothing and stops nothing.

use crate::calendar::CalendarDate;
use crate::common::{all_listings, shows_view, ScrapeError, Show, ShowView};
use vstd::prelude::*;

verus! {

/// The two sources, each with a page shape and an extractor of its own.
#[derive(Clone, Copy, Debug, PartialEq, Eq, Structural)]
pub enum Source {
    /// Events as the rows of a table.
    Table,
    /// Events as items of nested lists under dated anchors.
    List,
}

/// What fetching a page gave, as mathematical values: its text, or the
/// failure.
pub open spec fn page_view(page: Result<String, ScrapeError>) -> Result<Seq<char>, ScrapeError> {
    match page {
        Ok(html) => Ok(html@),
        Err(e) => Err(e),
    }
}

/// What fetching the pages gave.
pub open spec fn pages_view(pages: Seq<Result<String, ScrapeError>>) -> Seq<
    Result<Seq<char>, ScrapeError>,
> {
    pages.map_values(|p: Result<String, ScrapeError>| page_view(p))
}

/// The shows that a source's extractor reads from a page.
pub open spec fn extracted(source: Source, html: Seq<char>, today: CalendarDate) -> Result<
    Seq<ShowView>,
    ScrapeError,
> {
    match source {
        Source::Table => crate::lib19hz::page_shows(html, today),
        Source::List => crate::libfoopee::page_shows(html, today),
    }
}

/// What one page adds to the result: its shows, or nothing where it was
/// not fetched or the extractor failed on it.
pub open spec fn page_yield(
    source: Source,
    page: Result<Seq<char>, ScrapeError>,
    today: CalendarDate,
) -> Seq<ShowView> {
    match page {
        Ok(html) => match extracted(source, html, today) {
            Ok(shows) => shows,
            Err(_) => Seq::empty(),
        },
        Err(_) => Seq::empty(),
    }
}

/// The shows of all pages: page after page in the given order, each
/// page's shows in the order of the page.
pub open spec fn merged(
    source: Source,
    pages: Seq<Result<Seq<char>, ScrapeError>>,
    today: CalendarDate,
) -> Seq<ShowView>
    decreases pages.len(),
{
    if pages.len() == 0 {
        Seq::empty()
    } else {
        merged(source, pages.drop_last(), today) + page_yield(source, pages.last(), today)
    }
}

/// Runs a source's extractor on a page.
pub fn extract(source: Source, html: &str, today: &CalendarDate) -> (r: Result<
    Vec<Show>,
    ScrapeError,
>)
    requires
        today.is_valid(),
    ensures
        match r {
            Ok(shows) => extracted(source, html@, *today) == Ok::<Seq<ShowView>, ScrapeError>(
                shows_view(shows@),
            ) && all_listings(shows_view(shows@)),
            Err(e) => extracted(source, html@, *today) == Err::<Seq<ShowView>, ScrapeError>(e),
        },
{
    match source {
        Source::Table => crate::lib19hz::parse_19hz_info(html, today),
        Source::List => crate::libfoopee::parse(html, today),
    }
}

/// Gathers the shows of a source from what fetching its pages gave.
pub fn aggregate(source: Source, pages: &Vec<Result<String, ScrapeError>>, today: &CalendarDate)
    -> (r: Vec<Show>)
    requires
        today.is_valid(),
    ensures
        shows_view(r@) == merged(source, pages_view(pages@), *today),
        all_listings(shows_view(r@)),
{
    let ghost all = pages_view(pages@);
    let mut shows: Vec<Show> = Vec::new();
    let mut i: usize = 0;
    while i < pages.len()
        invariant
            i <= pages.len(),
            today.is_valid(),
            all == pages_view(pages@),
            shows_view(shows@) == merged(source, all.take(i as int), *today),
            all_listings(shows_view(shows@)),
        decreases pages.len() - i,
    {
        let ghost before = shows_view(shows@);
        proof {
            assert(all.take(i + 1).drop_last() == all.take(i as int));
        }
        match &pages[i] {
            Ok(html) => match extract(source, html.as_str(), today) {
                Ok(mut found) => {
                    let ghost added = shows_view(found@);
                    shows.append(&mut found);
                    proof {
                        assert(shows_view(shows@) == before + added);
                    }
                },
                Err(_) => {},
            },
            Err(_) => {},
        }
        i += 1;
    }
    proof {
        assert(all.take(pages.len() as int) == all);
    }
    shows
}

/// A page that could not be fetched adds nothing: the shows are those of
/// the other pages.
pub proof fn lemma_failed_page_adds_nothing(
    source: Source,
    before: Seq<Result<Seq<char>, ScrapeError>>,
    failure: ScrapeError,
    after: Seq<Result<Seq<char>, ScrapeError>>,
    today: CalendarDate,
)
    ensures
        merged(source, before + seq![Err(failure)] + after, today) == merged(
            source,
            before + after,
            today,
        ),
{
    let failed: Seq<Result<Seq<char>, ScrapeError>> = seq![Err(failure)];
    lemma_merged_add(source, before + failed, after, today);
    lemma_merged_add(source, before, failed, today);
    lemma_merged_add(source, before, after, today);
    assert(merged(source, failed, today) == Seq::<ShowView>::empty()) by {
        reveal_with_fuel(merged, 2);
    }
}

/// The shows of two runs of pages, one after the other, are the shows of
/// the first followed by those of the second.
pub proof fn lemma_merged_add(
    source: Source,
    first: Seq<Result<Seq<char>, ScrapeError>>,
    second: Seq<Result<Seq<char>, ScrapeError>>,
    today: CalendarDate,
)
    ensures
        merged(source, first + second, today) == merged(source, first, today) + merged(
            source,
            second,
            today,
        ),
    decreases second.len(),
{
    if second.len() == 0 {
    } else {
        lemma_merged_add(source, first, second.drop_last(), today);
        assert((first + second).drop_last() == first + second.drop_last());
    }
}

} // verus!
