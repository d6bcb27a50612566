//! What the library reads of an HTML page: elements picked by a CSS selector,
//! reduced to plain strings. Parsing and matching are done by `scraper`; the
//! two functions that call it, `select` and `select_rows`, hand its answers
//! over and are believed, not proved.

use vstd::prelude::*;

verus! {

/// One element of a page, as far as the library looks at it.
#[derive(Clone, Debug, PartialEq, Eq)]
pub struct Element {
    /// The element's child nodes in order: the text of a child that is a text
    /// node, `None` for a child of any other kind.
    pub children: Vec<Option<String>>,
    /// The value of the attribute that was asked for, if the element has it.
    pub attr: Option<String>,
}

/// The model of an [`Element`].
pub struct ElementView {
    pub children: Seq<Option<Seq<char>>>,
    pub attr: Option<Seq<char>>,
}

/// The first text among child nodes.
pub open spec fn first_text(children: Seq<Option<Seq<char>>>) -> Option<Seq<char>>
    decreases children.len(),
{
    if children.len() == 0 {
        None
    } else if children[0] is Some {
        children[0]
    } else {
        first_text(children.drop_first())
    }
}

impl ElementView {
    /// The element's own text: that of its first child that is a text node.
    /// Text inside a child element is not the element's own.
    pub open spec fn own_text(self) -> Option<Seq<char>> {
        first_text(self.children)
    }
}

impl DeepView for Element {
    type V = ElementView;

    open spec fn deep_view(&self) -> ElementView {
        ElementView { children: self.children.deep_view(), attr: self.attr.deep_view() }
    }
}

impl View for Element {
    type V = ElementView;

    open spec fn view(&self) -> ElementView {
        self.deep_view()
    }
}

impl Element {
    /// The element's own text: that of its first child that is a text node.
    pub fn own_text(&self) -> (text: Option<&str>)
        ensures
            match text {
                Some(found) => self@.own_text() == Some(found@),
                None => self@.own_text() is None,
            },
    {
        let ghost all = self.children.deep_view();
        let mut i: usize = 0;
        assert(all.skip(0) =~= all);
        while i < self.children.len()
            invariant
                i <= self.children.len(),
                all == self.children.deep_view(),
                first_text(all) == first_text(all.skip(i as int)),
            decreases self.children.len() - i,
        {
            assert(all.skip(i as int)[0] == self.children@[i as int].deep_view());
            if let Some(found) = &self.children[i] {
                return Some(found.as_str());
            }
            assert(all.skip(i as int).drop_first() =~= all.skip(i + 1));
            i += 1;
        }
        None
    }
}

/// One row of a listing, as far as the library looks at it.
#[derive(Clone, Debug, PartialEq, Eq)]
pub struct Row {
    /// The value of the row's own attribute that was asked for.
    pub flag: Option<String>,
    /// For each cell inside the row, its first text node.
    pub cells: Vec<Option<String>>,
    /// For each link inside the row, the value of the attribute asked for.
    pub links: Vec<Option<String>>,
}

/// The model of a [`Row`].
pub struct RowView {
    pub flag: Option<Seq<char>>,
    pub cells: Seq<Option<Seq<char>>>,
    pub links: Seq<Option<Seq<char>>>,
}

impl DeepView for Row {
    type V = RowView;

    open spec fn deep_view(&self) -> RowView {
        RowView {
            flag: self.flag.deep_view(),
            cells: self.cells.deep_view(),
            links: self.links.deep_view(),
        }
    }
}

impl View for Row {
    type V = RowView;

    open spec fn view(&self) -> RowView {
        self.deep_view()
    }
}

/// The elements of the document `html` that match `selector`, in the order in
/// which `scraper` yields them, each with its child nodes and its attribute
/// `attr`; `None` where `selector` is no valid selector.
pub uninterp spec fn selected(html: Seq<char>, selector: Seq<char>, attr: Seq<char>) -> Option<
    Seq<ElementView>,
>;

/// The rows of the document `html`: the elements that match `row`, each with
/// its attribute `flag`, the first text node of each descendant that matches
/// `cell`, and the attribute `target` of each descendant that matches `link`;
/// `None` where one of the three selectors is not valid.
pub uninterp spec fn selected_rows(
    html: Seq<char>,
    row: Seq<char>,
    flag: Seq<char>,
    cell: Seq<char>,
    link: Seq<char>,
    target: Seq<char>,
) -> Option<Seq<RowView>>;

/// Parses `html` with `scraper::Html::parse_document`, parses `selector` with
/// `scraper::Selector::parse` and walks `Html::select`.
///
/// Believed: the answer depends on the three strings alone. Each element is
/// reduced to its child nodes, as `NodeRef::children` of `ego_tree` yields
/// them, each mapped by `Node::as_text`, and to `ElementRef::attr(attr)`.
/// Nothing is claimed about which elements match.
#[verifier::external_body]
pub(crate) fn select(html: &str, selector: &str, attr: &str) -> (out: Option<Vec<Element>>)
    ensures
        out.deep_view() == selected(html@, selector@, attr@),
{
    let document = scraper::Html::parse_document(html);
    let selector = scraper::Selector::parse(selector).ok()?;
    let mut out = Vec::new();
    for element in document.select(&selector) {
        out.push(Element {
            children: element.children().map(|c| c.value().as_text().map(|t| t.to_string())).collect(),
            attr: element.attr(attr).map(String::from),
        });
    }
    Some(out)
}

/// Parses `html` with `scraper::Html::parse_document`, the selectors `row`,
/// `cell` and `link` with `scraper::Selector::parse`, walks `Html::select` for
/// the rows and `ElementRef::select` inside each row.
///
/// Believed: the answer depends on the six strings alone. Nothing is claimed
/// about which elements match.
#[verifier::external_body]
pub(crate) fn select_rows(
    html: &str,
    row: &str,
    flag: &str,
    cell: &str,
    link: &str,
    target: &str,
) -> (out: Option<Vec<Row>>)
    ensures
        out.deep_view() == selected_rows(html@, row@, flag@, cell@, link@, target@),
{
    let document = scraper::Html::parse_document(html);
    let row = scraper::Selector::parse(row).ok()?;
    let cell = scraper::Selector::parse(cell).ok()?;
    let link = scraper::Selector::parse(link).ok()?;
    let mut out = Vec::new();
    for r in document.select(&row) {
        out.push(Row {
            flag: r.attr(flag).map(String::from),
            cells: r.select(&cell).map(|c| c.text().next().map(String::from)).collect(),
            links: r.select(&link).map(|a| a.attr(target).map(String::from)).collect(),
        });
    }
    Some(out)
}

} // verus!
