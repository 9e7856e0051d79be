use show_scraper::aggregate::{aggregate, extract, Source};
use show_scraper::calendar::CalendarDate;
use show_scraper::common::ScrapeError;

fn today() -> CalendarDate {
    CalendarDate::new(2023, 2, 1).expect("a date of the calendar")
}

const LIST_A: &str = "<ul><li><a name=\"feb_03\">d</a><ul><li><a>Venue A</a><a>One</a> a</li>\
<li><a>Venue B</a><a>Two</a> b</li></ul></li></ul>";

const LIST_B: &str = "<ul><li><a name=\"feb_04\">d</a><ul><li><a>Venue C</a><a>Three</a> c</li></ul></li></ul>";

const TABLE: &str = "<table><tr><th>Date/Time</th><th>Event Title @ Venue</th></tr>\
<tr><td>Sun: Feb 5<br>9pm</td><td><a href=\"u\">T</a> @ V</td></tr></table>";

fn venues(source: Source, pages: Vec<Result<String, ScrapeError>>) -> Vec<String> {
    aggregate(source, &pages, &today()).into_iter().map(|s| s.venue).collect()
}

#[test]
fn each_source_runs_its_own_extractor() {
    assert_eq!(extract(Source::Table, TABLE, &today()).map(|s| s.len()), Ok(1));
    assert_eq!(extract(Source::List, TABLE, &today()), Err(ScrapeError::NoList));
    assert_eq!(extract(Source::List, LIST_A, &today()).map(|s| s.len()), Ok(2));
    assert_eq!(extract(Source::Table, LIST_A, &today()), Err(ScrapeError::NoTable));
}

#[test]
fn pages_are_merged_in_their_order() {
    assert_eq!(
        venues(Source::List, vec![Ok(LIST_A.to_string()), Ok(LIST_B.to_string())]),
        vec!["Venue A", "Venue B", "Venue C"]
    );
    assert_eq!(
        venues(Source::List, vec![Ok(LIST_B.to_string()), Ok(LIST_A.to_string())]),
        vec!["Venue C", "Venue A", "Venue B"]
    );
}

#[test]
fn one_page_fetched_and_one_failed() {
    let good = aggregate(Source::List, &vec![Ok(LIST_A.to_string())], &today());
    assert_eq!(good.len(), 2);
    let both = aggregate(
        Source::List,
        &vec![Ok(LIST_A.to_string()), Err(ScrapeError::Transport)],
        &today(),
    );
    assert_eq!(both, good);
    let both = aggregate(
        Source::List,
        &vec![Err(ScrapeError::Transport), Ok(LIST_A.to_string())],
        &today(),
    );
    assert_eq!(both, good);
}

#[test]
fn a_page_of_the_wrong_shape_gives_nothing() {
    assert_eq!(
        venues(Source::List, vec![Ok(TABLE.to_string()), Ok(LIST_B.to_string())]),
        vec!["Venue C"]
    );
    assert_eq!(venues(Source::Table, vec![Ok(LIST_A.to_string()), Ok(TABLE.to_string())]), vec!["V"]);
}

#[test]
fn nothing_fetched_is_an_empty_result() {
    assert_eq!(venues(Source::List, vec![]), Vec::<String>::new());
    assert_eq!(
        venues(Source::Table, vec![Err(ScrapeError::Transport), Err(ScrapeError::Transport)]),
        Vec::<String>::new()
    );
}
