//! HTML documents as the `select` crate parses them, and the questions this
//! library asks of them. A node is known by its index in the document.
//!
//! `select` builds a document, and collects a node's text, by recursion
//! over the nesting of elements: a page nested deeply enough exhausts the
//! stack there.

use select::document::Document;
use select::predicate::{Name, Predicate};
use vstd::prelude::*;

verus! {

#[verifier::external_type_specification]
#[verifier::external_body]
pub struct ExDocument(select::document::Document);

/// What a node is: a run of text, an element with its local name and its
/// attributes (local name and value of each, in the order they were
/// written), or a comment.
pub enum NodeData {
    Text(Seq<char>),
    Element { name: Seq<char>, attrs: Seq<(Seq<char>, Seq<char>)> },
    Comment(Seq<char>),
}

/// One node of a document: what it is, and the indices of the nodes around
/// it in the tree.
pub struct HtmlNode {
    pub parent: Option<int>,
    pub prev: Option<int>,
    pub next: Option<int>,
    pub first_child: Option<int>,
    pub last_child: Option<int>,
    pub data: NodeData,
}

/// What to look for below a node.
pub enum Selector {
    /// The elements of this name.
    Named(Seq<char>),
    /// The elements of the second name that have an ancestor of the first.
    NamedUnder(Seq<char>, Seq<char>),
}

/// The nodes that a document holds, in the order of their indices.
pub uninterp spec fn document_nodes(doc: Document) -> Seq<HtmlNode>;

/// The nodes of the document that `Document::from` builds from a text.
pub uninterp spec fn parsed_document(html: Seq<char>) -> Seq<HtmlNode>;

/// The indices that `Node::find` yields below a node, in the order it
/// yields them.
pub uninterp spec fn found_below(nodes: Seq<HtmlNode>, node: int, selector: Selector) -> Seq<int>;

/// The text that `Node::text` collects from a node and all below it.
pub uninterp spec fn text_below(nodes: Seq<HtmlNode>, node: int) -> Seq<char>;

/// The indices that `Node::children` yields for a node, in order.
pub uninterp spec fn children_of(nodes: Seq<HtmlNode>, node: int) -> Seq<int>;

/// The nodes are those of a document that was parsed from some text.
pub open spec fn is_parsed(nodes: Seq<HtmlNode>) -> bool {
    exists|html: Seq<char>| nodes == #[trigger] parsed_document(html)
}

/// Every index of `found` is that of a node.
pub open spec fn within(found: Seq<int>, nodes: Seq<HtmlNode>) -> bool {
    forall|k: int| 0 <= k < found.len() ==> 0 <= #[trigger] found[k] < nodes.len()
}

/// Whether the node is an element of the given name.
pub open spec fn is_named(node: HtmlNode, name: Seq<char>) -> bool {
    node.data matches NodeData::Element { name: n, .. } && n == name
}

/// The indices of the elements of the given name, in ascending order.
pub open spec fn elements_named(nodes: Seq<HtmlNode>, name: Seq<char>) -> Seq<int> {
    Seq::new(nodes.len(), |i: int| i).filter(
        |i: int| 0 <= i < nodes.len() && is_named(nodes[i], name),
    )
}

/// The value of the first attribute of the given name among `attrs`.
pub open spec fn first_value(attrs: Seq<(Seq<char>, Seq<char>)>, name: Seq<char>) -> Option<
    Seq<char>,
>
    decreases attrs.len(),
{
    if attrs.len() == 0 {
        None
    } else if attrs[0].0 == name {
        Some(attrs[0].1)
    } else {
        first_value(attrs.skip(1), name)
    }
}

/// The value of a node's attribute of the given name: that of the first
/// such attribute of an element, none for any other node.
pub open spec fn attr_value(node: HtmlNode, name: Seq<char>) -> Option<Seq<char>> {
    match node.data {
        NodeData::Element { attrs, .. } => first_value(attrs, name),
        _ => None,
    }
}

/// The indices of a vector as mathematical integers.
pub open spec fn indices(v: Seq<usize>) -> Seq<int> {
    v.map_values(|i: usize| i as int)
}

/// `Document::from` on a text: the document holds the nodes that the name
/// `parsed_document` gives for that text.
#[verifier::external_body]
fn parse_html(html: &str) -> (doc: Document)
    ensures
        document_nodes(doc) == parsed_document(html@),
{
    Document::from(html)
}

/// `Document::find` with the predicate `Name`: it walks all nodes by
/// ascending index and yields the elements whose name is `name`.
#[verifier::external_body]
fn find_in_document(doc: &Document, name: &str) -> (found: Vec<usize>)
    ensures
        indices(found@) == elements_named(document_nodes(*doc), name@),
{
    doc.find(Name(name)).map(|node| node.index()).collect()
}

/// `Node::find` with the predicate `Name`, on the node of the given index:
/// the found nodes' indices are those that `found_below` names, and each is
/// an index of the document.
#[verifier::external_body]
pub(crate) fn find_below(doc: &Document, node: usize, name: &str) -> (found: Vec<usize>)
    requires
        is_parsed(document_nodes(*doc)),
        node < document_nodes(*doc).len(),
    ensures
        indices(found@) == found_below(document_nodes(*doc), node as int, Selector::Named(name@)),
        within(indices(found@), document_nodes(*doc)),
{
    doc.nth(node).unwrap().find(Name(name)).map(|n| n.index()).collect()
}

/// `Node::find` with `Name(outer).descendant(Name(inner))`, on the node of
/// the given index: the found nodes' indices are those that `found_below`
/// names, and each is an index of the document.
#[verifier::external_body]
pub(crate) fn find_nested_below(doc: &Document, node: usize, outer: &str, inner: &str) -> (found:
    Vec<usize>)
    requires
        is_parsed(document_nodes(*doc)),
        node < document_nodes(*doc).len(),
    ensures
        indices(found@) == found_below(
            document_nodes(*doc),
            node as int,
            Selector::NamedUnder(outer@, inner@),
        ),
        within(indices(found@), document_nodes(*doc)),
{
    doc.nth(node).unwrap().find(Name(outer).descendant(Name(inner))).map(|n| n.index()).collect()
}

/// `Node::attr` on the node of the given index: the value of the first
/// attribute of that name, where the node is an element and has one.
#[verifier::external_body]
pub(crate) fn node_attr(doc: &Document, node: usize, name: &str) -> (value: Option<String>)
    requires
        node < document_nodes(*doc).len(),
    ensures
        crate::text::option_view(value) == attr_value(document_nodes(*doc)[node as int], name@),
{
    doc.nth(node).unwrap().attr(name).map(|v| v.to_string())
}

/// `Node::text` on the node of the given index.
#[verifier::external_body]
pub(crate) fn node_text(doc: &Document, node: usize) -> (text: String)
    requires
        is_parsed(document_nodes(*doc)),
        node < document_nodes(*doc).len(),
    ensures
        text@ == text_below(document_nodes(*doc), node as int),
{
    doc.nth(node).unwrap().text()
}

/// `Node::children` on the node of the given index: the children's indices
/// are those that `children_of` names, and each is an index of the document.
#[verifier::external_body]
fn node_children(doc: &Document, node: usize) -> (children: Vec<usize>)
    requires
        is_parsed(document_nodes(*doc)),
        node < document_nodes(*doc).len(),
    ensures
        indices(children@) == children_of(document_nodes(*doc), node as int),
        within(indices(children@), document_nodes(*doc)),
{
    doc.nth(node).unwrap().children().map(|n| n.index()).collect()
}

/// Parses a text into a document.
pub fn read_document(html: &str) -> (doc: Document)
    ensures
        document_nodes(doc) == parsed_document(html@),
        is_parsed(document_nodes(doc)),
{
    parse_html(html)
}

/// The elements of a name in the whole document, by ascending index.
pub fn elements(doc: &Document, name: &str) -> (found: Vec<usize>)
    ensures
        indices(found@) == elements_named(document_nodes(*doc), name@),
        within(indices(found@), document_nodes(*doc)),
{
    proof {
        lemma_elements_named_within(document_nodes(*doc), name@);
    }
    find_in_document(doc, name)
}

/// The children of a node, in order.
pub fn children(doc: &Document, node: usize) -> (found: Vec<usize>)
    requires
        is_parsed(document_nodes(*doc)),
        node < document_nodes(*doc).len(),
    ensures
        indices(found@) == children_of(document_nodes(*doc), node as int),
        within(indices(found@), document_nodes(*doc)),
{
    node_children(doc, node)
}

/// Every index among the elements of a name is that of a node.
pub proof fn lemma_elements_named_within(nodes: Seq<HtmlNode>, name: Seq<char>)
    ensures
        within(elements_named(nodes, name), nodes),
{
    let all = Seq::new(nodes.len(), |i: int| i);
    let keep = |i: int| 0 <= i < nodes.len() && is_named(nodes[i], name);
    assert forall|k: int| 0 <= k < elements_named(nodes, name).len() implies 0
        <= #[trigger] elements_named(nodes, name)[k] < nodes.len() by {
        all.lemma_filter_pred(keep, k);
    }
}

} // verus!
