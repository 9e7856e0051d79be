//! The list source: a page whose events hang in nested lists under
//! anchors that carry the date in their `name` attribute.

use crate::aggregate::{aggregate, merged, pages_view, Source};
use crate::calendar::{iso_text, CalendarDate};
use crate::common::{all_listings, is_listing, shows_view, ScrapeError, Show, ShowView};
use crate::dates::{compact_date, resolve_compact};
use crate::html::{
    attr_value, children, children_of, document_nodes, elements, elements_named, find_below,
    find_nested_below, found_below, indices, is_parsed, node_attr, node_text, parsed_document,
    read_document, text_below, within, HtmlNode, Selector,
};
use crate::text::{trim, trimmed};
use select::document::Document;
use vstd::prelude::*;

verus! {

/// The first page of the list source.
pub const FIRST_URL: &'static str = "http://www.foopee.com/punk/the-list/by-date.0.html";

/// The second page of the list source.
pub const SECOND_URL: &'static str = "http://www.foopee.com/punk/the-list/by-date.1.html";

/// The element that is a list.
pub const LIST: &'static str = "ul";

/// The element that is an item of a list.
pub const ITEM: &'static str = "li";

/// The element that is an anchor.
pub const ANCHOR: &'static str = "a";

/// The attribute of an anchor that holds a date.
pub const DATE_ATTR: &'static str = "name";

/// The value of the attribute `attr` of the first of the `candidates` that
/// has it.
pub open spec fn first_with_attr(nodes: Seq<HtmlNode>, candidates: Seq<int>, attr: Seq<char>)
    -> Option<Seq<char>>
    decreases candidates.len(),
{
    if candidates.len() == 0 {
        None
    } else {
        match attr_value(nodes[candidates[0]], attr) {
            Some(value) => Some(value),
            None => first_with_attr(nodes, candidates.skip(1), attr),
        }
    }
}

/// The date that a node's first dated anchor holds, as the page writes it.
pub open spec fn date_fragment(nodes: Seq<HtmlNode>, node: int) -> Option<Seq<char>> {
    first_with_attr(nodes, found_below(nodes, node, Selector::Named(ANCHOR@)), DATE_ATTR@)
}

/// The details of an item: the text of its last child, where that child
/// stands after the item's last anchor.
pub open spec fn item_details(nodes: Seq<HtmlNode>, item: int, last_anchor: int) -> Seq<char> {
    let children = children_of(nodes, item);
    if children.len() > 0 && children.last() > last_anchor {
        trimmed(text_below(nodes, children.last()))
    } else {
        Seq::empty()
    }
}

/// The show that an item gives on a date, or none where the item is
/// dropped: its first anchor names the venue, each further anchor an
/// artist.
pub open spec fn item_show(nodes: Seq<HtmlNode>, item: int, date: CalendarDate) -> Option<
    ShowView,
> {
    let anchors = found_below(nodes, item, Selector::Named(ANCHOR@));
    if anchors.len() == 0 {
        None
    } else {
        let venue = trimmed(text_below(nodes, anchors[0]));
        if venue.len() == 0 {
            None
        } else {
            Some(
                ShowView {
                    venue,
                    artists: Seq::new(
                        (anchors.len() - 1) as nat,
                        |k: int| trimmed(text_below(nodes, anchors[k + 1])),
                    ),
                    date: iso_text(date.year as int, date.month as int, date.day as int),
                    details: item_details(nodes, item, anchors.last()),
                    time: None,
                    organizers: None,
                    link: None,
                    tags: None,
                },
            )
        }
    }
}

/// The shows of the items on a date, in the items' order, the dropped
/// items left out.
pub open spec fn items_shows(nodes: Seq<HtmlNode>, items: Seq<int>, date: CalendarDate) -> Seq<
    ShowView,
>
    decreases items.len(),
{
    if items.len() == 0 {
        Seq::empty()
    } else {
        let before = items_shows(nodes, items.drop_last(), date);
        match item_show(nodes, items.last(), date) {
            Some(show) => before.push(show),
            None => before,
        }
    }
}

/// The shows of a date group: those of the items below the node, on the
/// date that the node's dated anchor resolves to. None where the node has
/// no dated anchor or the date does not resolve.
pub open spec fn group_shows(nodes: Seq<HtmlNode>, node: int, today: CalendarDate) -> Option<
    Seq<ShowView>,
> {
    match date_fragment(nodes, node) {
        Some(fragment) => match compact_date(fragment, today) {
            Some(date) => Some(
                items_shows(
                    nodes,
                    found_below(nodes, node, Selector::NamedUnder(LIST@, ITEM@)),
                    date,
                ),
            ),
            None => None,
        },
        None => None,
    }
}

/// The shows of the groups, in the groups' order.
pub open spec fn groups_shows(nodes: Seq<HtmlNode>, groups: Seq<int>, today: CalendarDate) -> Seq<
    ShowView,
>
    decreases groups.len(),
{
    if groups.len() == 0 {
        Seq::empty()
    } else {
        let before = groups_shows(nodes, groups.drop_last(), today);
        match group_shows(nodes, groups.last(), today) {
            Some(shows) => before + shows,
            None => before,
        }
    }
}

/// The shows of a document: those of the groups that are the children of
/// its first list, or the failure to find a list.
pub open spec fn document_shows(nodes: Seq<HtmlNode>, today: CalendarDate) -> Result<
    Seq<ShowView>,
    ScrapeError,
> {
    let lists = elements_named(nodes, LIST@);
    if lists.len() == 0 {
        Err(ScrapeError::NoList)
    } else {
        Ok(groups_shows(nodes, children_of(nodes, lists[0]), today))
    }
}

/// The shows of a page: those of the document that the page parses to.
pub open spec fn page_shows(html: Seq<char>, today: CalendarDate) -> Result<
    Seq<ShowView>,
    ScrapeError,
> {
    document_shows(parsed_document(html), today)
}

/// Resolves the date that an anchor carries in its `name` attribute.
pub fn parse_date_node(doc: &Document, node: usize, today: &CalendarDate) -> (r: Option<
    CalendarDate,
>)
    requires
        today.is_valid(),
        node < document_nodes(*doc).len(),
    ensures
        r == match attr_value(document_nodes(*doc)[node as int], DATE_ATTR@) {
            Some(fragment) => compact_date(fragment, *today),
            None => None,
        },
        r matches Some(date) ==> date.is_valid(),
{
    match node_attr(doc, node, DATE_ATTR) {
        Some(fragment) => resolve_compact(fragment.as_str(), today),
        None => None,
    }
}

/// Finds the first anchor below a node that carries a date.
fn find_date_node(doc: &Document, node: usize) -> (r: Option<usize>)
    requires
        is_parsed(document_nodes(*doc)),
        node < document_nodes(*doc).len(),
    ensures
        match r {
            Some(found) => found < document_nodes(*doc).len() && date_fragment(
                document_nodes(*doc),
                node as int,
            ) == attr_value(document_nodes(*doc)[found as int], DATE_ATTR@) && attr_value(
                document_nodes(*doc)[found as int],
                DATE_ATTR@,
            ) is Some,
            None => date_fragment(document_nodes(*doc), node as int) is None,
        },
{
    let anchors = find_below(doc, node, ANCHOR);
    let ghost nodes = document_nodes(*doc);
    let ghost all = indices(anchors@);
    let mut i: usize = 0;
    assert(all.skip(0) == all);
    while i < anchors.len()
        invariant
            i <= anchors.len(),
            nodes == document_nodes(*doc),
            all == indices(anchors@),
            all == found_below(nodes, node as int, Selector::Named(ANCHOR@)),
            within(all, nodes),
            first_with_attr(nodes, all, DATE_ATTR@) == first_with_attr(
                nodes,
                all.skip(i as int),
                DATE_ATTR@,
            ),
        decreases anchors.len() - i,
    {
        let candidate = anchors[i];
        let value = node_attr(doc, candidate, DATE_ATTR);
        if value.is_some() {
            return Some(candidate);
        }
        assert(all.skip(i as int).skip(1) == all.skip(i + 1));
        i += 1;
    }
    None
}

/// Reads one item of a date group into a show, or drops it.
pub fn parse_item(doc: &Document, item: usize, date: &CalendarDate) -> (r: Option<Show>)
    requires
        is_parsed(document_nodes(*doc)),
        item < document_nodes(*doc).len(),
        date.is_valid(),
    ensures
        match r {
            Some(show) => item_show(document_nodes(*doc), item as int, *date) == Some(show@)
                && is_listing(show@),
            None => item_show(document_nodes(*doc), item as int, *date) is None,
        },
{
    let anchors = find_below(doc, item, ANCHOR);
    let ghost nodes = document_nodes(*doc);
    let ghost all = indices(anchors@);
    if anchors.len() == 0 {
        return None;
    }
    let venue = trim(node_text(doc, anchors[0]).as_str());
    if venue.as_str().is_empty() {
        return None;
    }
    let mut artists: Vec<String> = Vec::new();
    let mut i: usize = 1;
    while i < anchors.len()
        invariant
            1 <= i <= anchors.len(),
            is_parsed(document_nodes(*doc)),
            nodes == document_nodes(*doc),
            all == indices(anchors@),
            within(all, nodes),
            artists.len() == i - 1,
            forall|k: int|
                0 <= k < i - 1 ==> #[trigger] artists@[k]@ == trimmed(
                    text_below(nodes, all[k + 1]),
                ),
        decreases anchors.len() - i,
    {
        assert(all[i as int] == anchors[i as int]);
        artists.push(trim(node_text(doc, anchors[i]).as_str()));
        i += 1;
    }
    let last_anchor = anchors[anchors.len() - 1];
    let children = children(doc, item);
    let details = if children.len() > 0 && children[children.len() - 1] > last_anchor {
        trim(node_text(doc, children[children.len() - 1]).as_str())
    } else {
        String::new()
    };
    let show = Show {
        venue,
        artists,
        date: date.to_iso(),
        details,
        time: None,
        organizers: None,
        link: None,
        tags: None,
    };
    proof {
        assert(show@.artists =~= Seq::new(
            (all.len() - 1) as nat,
            |k: int| trimmed(text_below(nodes, all[k + 1])),
        ));
    }
    Some(show)
}

/// Reads one child of the page's list: the shows of its items, where it is
/// a date group whose date resolves.
pub fn parse_date_list(doc: &Document, node: usize, today: &CalendarDate) -> (r: Option<
    Vec<Show>,
>)
    requires
        is_parsed(document_nodes(*doc)),
        node < document_nodes(*doc).len(),
        today.is_valid(),
    ensures
        match r {
            Some(shows) => group_shows(document_nodes(*doc), node as int, *today) == Some(
                shows_view(shows@),
            ) && all_listings(shows_view(shows@)),
            None => group_shows(document_nodes(*doc), node as int, *today) is None,
        },
{
    let date_node = match find_date_node(doc, node) {
        Some(found) => found,
        None => { return None; },
    };
    let date = match parse_date_node(doc, date_node, today) {
        Some(date) => date,
        None => { return None; },
    };
    let items = find_nested_below(doc, node, LIST, ITEM);
    let ghost nodes = document_nodes(*doc);
    let ghost all = indices(items@);
    let mut shows: Vec<Show> = Vec::new();
    let mut i: usize = 0;
    while i < items.len()
        invariant
            i <= items.len(),
            is_parsed(document_nodes(*doc)),
            date.is_valid(),
            nodes == document_nodes(*doc),
            all == indices(items@),
            within(all, nodes),
            shows_view(shows@) == items_shows(nodes, all.take(i as int), date),
            all_listings(shows_view(shows@)),
        decreases items.len() - i,
    {
        let ghost before = shows_view(shows@);
        proof {
            assert(all.take(i + 1).drop_last() == all.take(i as int));
            assert(all[i as int] == items[i as int]);
        }
        match parse_item(doc, items[i], &date) {
            Some(show) => {
                shows.push(show);
                proof {
                    assert(shows_view(shows@) == before.push(show@));
                }
            },
            None => {},
        }
        i += 1;
    }
    proof {
        assert(all.take(items.len() as int) == all);
    }
    Some(shows)
}

/// Reads the first list of a document into shows, group by group.
pub fn parse_document(doc: &Document, today: &CalendarDate) -> (r: Result<
    Vec<Show>,
    ScrapeError,
>)
    requires
        is_parsed(document_nodes(*doc)),
        today.is_valid(),
    ensures
        match r {
            Ok(shows) => document_shows(document_nodes(*doc), *today) == Ok::<
                Seq<ShowView>,
                ScrapeError,
            >(shows_view(shows@)) && all_listings(shows_view(shows@)),
            Err(e) => document_shows(document_nodes(*doc), *today) == Err::<
                Seq<ShowView>,
                ScrapeError,
            >(e),
        },
{
    let ghost nodes = document_nodes(*doc);
    let lists = elements(doc, LIST);
    if lists.len() == 0 {
        return Err(ScrapeError::NoList);
    }
    assert(indices(lists@)[0] == lists[0]);
    let groups = children(doc, lists[0]);
    let ghost all = indices(groups@);
    let mut shows: Vec<Show> = Vec::new();
    let mut i: usize = 0;
    while i < groups.len()
        invariant
            i <= groups.len(),
            is_parsed(document_nodes(*doc)),
            today.is_valid(),
            nodes == document_nodes(*doc),
            all == indices(groups@),
            within(all, nodes),
            shows_view(shows@) == groups_shows(nodes, all.take(i as int), *today),
            all_listings(shows_view(shows@)),
        decreases groups.len() - i,
    {
        let ghost before = shows_view(shows@);
        proof {
            assert(all.take(i + 1).drop_last() == all.take(i as int));
            assert(all[i as int] == groups[i as int]);
        }
        match parse_date_list(doc, groups[i], today) {
            Some(mut found) => {
                let ghost added = shows_view(found@);
                shows.append(&mut found);
                proof {
                    assert(shows_view(shows@) == before + added);
                }
            },
            None => {},
        }
        i += 1;
    }
    proof {
        assert(all.take(groups.len() as int) == all);
    }
    Ok(shows)
}

/// Parses a page and reads its first list into shows.
pub fn parse(html: &str, today: &CalendarDate) -> (r: Result<Vec<Show>, ScrapeError>)
    requires
        today.is_valid(),
    ensures
        match r {
            Ok(shows) => page_shows(html@, *today) == Ok::<Seq<ShowView>, ScrapeError>(
                shows_view(shows@),
            ) && all_listings(shows_view(shows@)),
            Err(e) => page_shows(html@, *today) == Err::<Seq<ShowView>, ScrapeError>(e),
        },
{
    let doc = read_document(html);
    parse_document(&doc, today)
}

/// The addresses of the pages of this source, in the order they are read.
pub fn urls() -> (r: Vec<&'static str>)
    ensures
        r@.len() == 2,
        r@[0]@ == FIRST_URL@,
        r@[1]@ == SECOND_URL@,
{
    let mut r: Vec<&'static str> = Vec::new();
    r.push(FIRST_URL);
    r.push(SECOND_URL);
    r
}

/// Gathers the shows of this source from what fetching its pages gave, one
/// outcome for each page in the order of `urls`.
pub fn scrape(pages: &Vec<Result<String, ScrapeError>>, today: &CalendarDate) -> (r: Vec<Show>)
    requires
        today.is_valid(),
    ensures
        shows_view(r@) == merged(Source::List, pages_view(pages@), *today),
        all_listings(shows_view(r@)),
{
    aggregate(Source::List, pages, today)
}

} // verus!
