use select::document::Document;
use select::predicate::Name;
use show_scraper::calendar::CalendarDate;
use show_scraper::common::{ScrapeError, Show};
use show_scraper::html::{children, elements, read_document};
use show_scraper::libfoopee::{
    parse, parse_date_list, parse_date_node, parse_document, parse_item, scrape, urls,
};

fn today() -> CalendarDate {
    CalendarDate::new(2023, 2, 15).expect("a date of the calendar")
}

fn show(venue: &str, artists: &[&str], date: &str, details: &str) -> Show {
    Show {
        venue: venue.to_string(),
        artists: artists.iter().map(|a| a.to_string()).collect(),
        date: date.to_string(),
        details: details.to_string(),
        time: None,
        organizers: None,
        link: None,
        tags: None,
    }
}

fn first(doc: &Document, name: &str) -> usize {
    doc.find(Name(name)).next().expect("an element of that name").index()
}

const GROUP: &str = "<ul><li><a name=\"mar_10\"><b>Fri Mar 10</b></a>\
<ul><li><a>Venue X</a><a>Artist A</a> some details</li></ul></li></ul>";

#[test]
fn a_dated_group_with_one_item() {
    assert_eq!(
        parse(GROUP, &today()),
        Ok(vec![show("Venue X", &["Artist A"], "2023-03-10", "some details")])
    );
}

const PAGE: &str = "<html><head><title>The List</title></head><body><h1>By date</h1>
<ul>
<li><a name=\"feb_17\"><b>Fri Feb 17</b></a>
<ul>
<li><b><a href=\"by-club.1.html#A\">Bottom of the Hill, S.F.</a></b> <a href=\"by-band.0.html#B\">Band One</a>, <a href=\"by-band.1.html#C\"> Band Two </a> a/a $15 8pm **</li>
<li><b><a href=\"by-club.2.html#D\">924 Gilman Street, Berkeley</a></b> <a href=\"by-band.2.html#E\">Solo</a> a/a $10 7pm</li>
</ul>
</li>
<li><a name=\"jan_05\"><b>Fri Jan 5</b></a>
<ul>
<li><b><a href=\"by-club.3.html#F\">The Chapel, S.F.</a></b> 21+ $20 9pm</li>
</ul>
</li>
</ul>
<ul><li><a name=\"mar_01\">later list</a><ul><li><a>Ignored</a> x</li></ul></li></ul>
</body></html>";

fn page_shows() -> Vec<Show> {
    vec![
        show("Bottom of the Hill, S.F.", &["Band One", "Band Two"], "2023-02-17", "a/a $15 8pm **"),
        show("924 Gilman Street, Berkeley", &["Solo"], "2023-02-17", "a/a $10 7pm"),
        show("The Chapel, S.F.", &[], "2024-01-05", "21+ $20 9pm"),
    ]
}

#[test]
fn groups_and_items_keep_their_order() {
    assert_eq!(parse(PAGE, &today()), Ok(page_shows()));
}

#[test]
fn a_page_without_a_list_fails() {
    assert_eq!(parse("<html><body><p>nothing</p></body></html>", &today()), Err(ScrapeError::NoList));
    assert_eq!(parse("", &today()), Err(ScrapeError::NoList));
}

#[test]
fn an_empty_list_gives_no_shows() {
    assert_eq!(parse("<ul></ul>", &today()), Ok(vec![]));
}

#[test]
fn a_child_without_a_dated_anchor_is_no_group() {
    let html = "<ul><li><a href=\"x\">no date</a><ul><li><a>V</a> d</li></ul></li>\
<li><a name=\"mar_10\">d</a><ul><li><a>Venue X</a> d</li></ul></li> text </ul>";
    assert_eq!(parse(html, &today()), Ok(vec![show("Venue X", &[], "2023-03-10", "d")]));
}

#[test]
fn a_group_whose_date_does_not_resolve_is_dropped() {
    let html = "<ul><li><a name=\"someday\">?</a><ul><li><a>V</a> d</li></ul></li>\
<li><a name=\"feb_30\">?</a><ul><li><a>V</a> d</li></ul></li>\
<li><a name=\"mar_11\">d</a><ul><li><a>Venue Y</a> e</li></ul></li></ul>";
    assert_eq!(parse(html, &today()), Ok(vec![show("Venue Y", &[], "2023-03-11", "e")]));
}

#[test]
fn an_item_without_a_venue_is_dropped() {
    let html = "<ul><li><a name=\"mar_10\">d</a><ul><li>no anchor at all</li>\
<li><a> </a><a>Artist</a> blank venue</li><li><a>Venue Z</a><a>Artist</a> kept</li></ul></li></ul>";
    assert_eq!(parse(html, &today()), Ok(vec![show("Venue Z", &["Artist"], "2023-03-10", "kept")]));
}

#[test]
fn details_are_what_follows_the_last_anchor() {
    let html = "<ul><li><a name=\"mar_10\">d</a><ul>\
<li><a>V1</a><a>A1</a></li>\
<li><a>V2</a> <i>free</i></li>\
<li>before <a>V3</a>   after   </li>\
</ul></li></ul>";
    assert_eq!(
        parse(html, &today()),
        Ok(vec![
            show("V1", &["A1"], "2023-03-10", ""),
            show("V2", &[], "2023-03-10", "free"),
            show("V3", &[], "2023-03-10", "after"),
        ])
    );
}

#[test]
fn the_first_dated_anchor_dates_the_group() {
    let html = "<ul><li><a href=\"top\">plain</a><a name=\"mar_12\">first</a><a name=\"apr_01\">second</a>\
<ul><li><a>V</a> d</li></ul></li></ul>";
    assert_eq!(parse(html, &today()), Ok(vec![show("V", &[], "2023-03-12", "d")]));
}

#[test]
fn parse_date_node_applies_the_wrap_rule() {
    let doc = Document::from("<a name=\"jan_05\">x</a><a name=\"mar_10\">y</a><a href=\"z\">z</a><b name=\"nope\"></b>");
    let anchors: Vec<usize> = doc.find(Name("a")).map(|n| n.index()).collect();
    assert_eq!(parse_date_node(&doc, anchors[0], &today()), Some(CalendarDate { year: 2024, month: 1, day: 5 }));
    assert_eq!(parse_date_node(&doc, anchors[1], &today()), Some(CalendarDate { year: 2023, month: 3, day: 10 }));
    assert_eq!(parse_date_node(&doc, anchors[2], &today()), None);
    assert_eq!(parse_date_node(&doc, first(&doc, "b"), &today()), None);
}

#[test]
fn parse_date_list_reads_one_group() {
    let doc = Document::from(GROUP);
    let group = first(&doc, "li");
    assert_eq!(
        parse_date_list(&doc, group, &today()),
        Some(vec![show("Venue X", &["Artist A"], "2023-03-10", "some details")])
    );
    let plain = Document::from("<ul><li><a>no date</a><ul><li><a>V</a> d</li></ul></li></ul>");
    assert_eq!(parse_date_list(&plain, first(&plain, "li"), &today()), None);
    let empty = Document::from("<ul><li><a name=\"mar_10\">d</a></li></ul>");
    assert_eq!(parse_date_list(&empty, first(&empty, "li"), &today()), Some(vec![]));
}

#[test]
fn parse_item_reads_venue_artists_and_details() {
    let doc = Document::from("<ul><li><a>Venue X</a><a> Artist A </a>, <a>Artist B</a>  $5 </li></ul>");
    let date = CalendarDate { year: 2023, month: 3, day: 10 };
    assert_eq!(
        parse_item(&doc, first(&doc, "li"), &date),
        Some(show("Venue X", &["Artist A", "Artist B"], "2023-03-10", "$5"))
    );
    let bare = Document::from("<ul><li>text only</li></ul>");
    assert_eq!(parse_item(&bare, first(&bare, "li"), &date), None);
}

#[test]
fn parse_document_reads_a_document_made_by_the_library() {
    let doc = read_document(PAGE);
    assert_eq!(parse_document(&doc, &today()), Ok(page_shows()));
    let none = read_document("<p>no list</p>");
    assert_eq!(parse_document(&none, &today()), Err(ScrapeError::NoList));
}

#[test]
fn elements_and_children_give_indices_of_the_document() {
    let doc = read_document(GROUP);
    assert_eq!(doc, Document::from(GROUP));
    let lists = elements(&doc, "ul");
    let expected: Vec<usize> = doc.find(Name("ul")).map(|n| n.index()).collect();
    assert_eq!(lists, expected);
    assert_eq!(lists.len(), 2);
    assert!(elements(&doc, "table").is_empty());
    let groups = children(&doc, lists[0]);
    assert_eq!(groups, vec![first(&doc, "li")]);
    assert_eq!(
        parse_date_list(&doc, groups[0], &today()),
        Some(vec![show("Venue X", &["Artist A"], "2023-03-10", "some details")])
    );
    let items = children(&doc, lists[1]);
    assert_eq!(items.len(), 1);
    assert_eq!(
        parse_item(&doc, items[0], &today()),
        Some(show("Venue X", &["Artist A"], "2023-02-15", "some details"))
    );
    let text_node = children(&doc, items[0])[2];
    assert!(children(&doc, text_node).is_empty());
}

#[test]
fn the_list_source_has_two_pages() {
    assert_eq!(
        urls(),
        vec![
            "http://www.foopee.com/punk/the-list/by-date.0.html",
            "http://www.foopee.com/punk/the-list/by-date.1.html",
        ]
    );
}

#[test]
fn foopee_scrape_works() {
    let pages = vec![Ok(PAGE.to_string()), Ok(GROUP.to_string())];
    assert!(scrape(&pages, &today()).len() > 1);
}

#[test]
fn scrape_skips_the_page_that_failed() {
    let pages = vec![Ok(PAGE.to_string()), Err(ScrapeError::Transport)];
    assert_eq!(scrape(&pages, &today()), page_shows());
    let pages = vec![Err(ScrapeError::Transport), Ok(PAGE.to_string())];
    assert_eq!(scrape(&pages, &today()), page_shows());
}
