//! The listing resolver: from the rows of the listing page to the entries to
//! download.
//!
//! A malformed row is fatal: it ends the resolution, and no row after it is
//! looked at. A row without a link is merely skipped.

use vstd::prelude::*;
use crate::json::{json_field, lookup, JsonField, JsonFieldView};
use crate::markup::{select_rows, selected_rows, Row, RowView};
use crate::text::{same_text, trim, trimmed};

verus! {

/// Why a listing cannot be trusted. Each of these ends the crawl.
#[derive(Clone, Copy, Debug, PartialEq, Eq, Structural)]
pub enum ListingError {
    /// A selector for the listing was refused by the selector parser.
    Selector,
    /// The row has no status cell.
    NoStatusCell,
    /// The status cell holds no text, or white space only.
    EmptyStatus,
    /// The row's inline data is not valid JSON.
    MalformedJson,
    /// The row's inline data has no `url` field.
    MissingUrl,
    /// The `url` field of the row's inline data is no string.
    NonStringUrl,
    /// The row's first link carries no address.
    LinkWithoutHref,
    /// The address is the empty string.
    EmptyUrl,
}

impl ListingError {
    /// The error in words.
    pub open spec fn message_of(self) -> Seq<char> {
        match self {
            ListingError::Selector => "can't select rows"@,
            ListingError::NoStatusCell => "no status"@,
            ListingError::EmptyStatus => "empty status"@,
            ListingError::MalformedJson => "can't parse data as json"@,
            ListingError::MissingUrl => "no url"@,
            ListingError::NonStringUrl => "non-string url"@,
            ListingError::LinkWithoutHref => "link has no URL"@,
            ListingError::EmptyUrl => "empty url"@,
        }
    }

    /// The error in words.
    pub fn message(&self) -> (text: &'static str)
        ensures
            text@ == self.message_of(),
    {
        match self {
            ListingError::Selector => "can't select rows",
            ListingError::NoStatusCell => "no status",
            ListingError::EmptyStatus => "empty status",
            ListingError::MalformedJson => "can't parse data as json",
            ListingError::MissingUrl => "no url",
            ListingError::NonStringUrl => "non-string url",
            ListingError::LinkWithoutHref => "link has no URL",
            ListingError::EmptyUrl => "empty url",
        }
    }
}

/// One entry of the listing. Neither field is empty.
#[derive(Clone, Debug, PartialEq, Eq)]
pub struct ListingEntry {
    /// The status, which names the directory that the file goes to.
    pub status: String,
    /// Where to fetch the file, or the landing page that leads to it.
    pub url: String,
}

/// The model of a [`ListingEntry`].
pub struct ListingEntryView {
    pub status: Seq<char>,
    pub url: Seq<char>,
}

impl ListingEntryView {
    /// Neither the status nor the address is empty.
    pub open spec fn wf(self) -> bool {
        self.status.len() > 0 && self.url.len() > 0
    }
}

impl DeepView for ListingEntry {
    type V = ListingEntryView;

    open spec fn deep_view(&self) -> ListingEntryView {
        ListingEntryView { status: self.status@, url: self.url@ }
    }
}

impl View for ListingEntry {
    type V = ListingEntryView;

    open spec fn view(&self) -> ListingEntryView {
        self.deep_view()
    }
}

/// What one row of the listing comes to.
#[derive(Clone, Debug, PartialEq, Eq)]
pub enum Resolution {
    /// An entry to download.
    Entry(ListingEntry),
    /// Nothing: the row has no link. The crawl goes on with the next row.
    Skip,
    /// The row is malformed. The crawl ends here.
    Fatal(ListingError),
}

/// The model of a [`Resolution`].
pub enum ResolutionView {
    Entry(ListingEntryView),
    Skip,
    Fatal(ListingError),
}

impl DeepView for Resolution {
    type V = ResolutionView;

    open spec fn deep_view(&self) -> ResolutionView {
        match self {
            Resolution::Entry(entry) => ResolutionView::Entry(entry@),
            Resolution::Skip => ResolutionView::Skip,
            Resolution::Fatal(error) => ResolutionView::Fatal(*error),
        }
    }
}

impl View for Resolution {
    type V = ResolutionView;

    open spec fn view(&self) -> ResolutionView {
        self.deep_view()
    }
}

/// The status of a row: the first text node of its first status cell, without
/// the white space around it. A row without such a cell, or with an empty
/// status, is malformed.
pub open spec fn status_of(row: RowView) -> Result<Seq<char>, ListingError> {
    if row.cells.len() == 0 {
        Err(ListingError::NoStatusCell)
    } else {
        match row.cells[0] {
            Some(text) if trim(text).len() > 0 => Ok(trim(text)),
            _ => Err(ListingError::EmptyStatus),
        }
    }
}

/// Whether a row carries inline data: the attribute is there and is not the
/// word `false`.
pub open spec fn has_inline_data(flag: Option<Seq<char>>) -> bool {
    flag matches Some(value) && value != "false"@
}

/// The address that a looked-up `url` field gives: only a string will do.
pub open spec fn url_of_field(field: JsonFieldView) -> Result<Seq<char>, ListingError> {
    match field {
        JsonFieldView::Text(url) => Ok(url),
        JsonFieldView::Malformed => Err(ListingError::MalformedJson),
        JsonFieldView::Absent => Err(ListingError::MissingUrl),
        _ => Err(ListingError::NonStringUrl),
    }
}

/// The address of a row, `None` where the row has no link at all: the `url`
/// field of the inline data where the row carries some, else the address of
/// the row's first link. `field` is what stands under `url` in the inline
/// data; it is not looked at where the row carries none.
pub open spec fn url_given(row: RowView, field: JsonFieldView) -> Result<
    Option<Seq<char>>,
    ListingError,
> {
    if has_inline_data(row.flag) {
        match url_of_field(field) {
            Ok(url) => Ok(Some(url)),
            Err(error) => Err(error),
        }
    } else if row.links.len() == 0 {
        Ok(None)
    } else {
        match row.links[0] {
            Some(href) => Ok(Some(href)),
            None => Err(ListingError::LinkWithoutHref),
        }
    }
}

/// What a row comes to, given the `url` field of its inline data. The status
/// is judged first, then the address.
pub open spec fn settled(row: RowView, field: JsonFieldView) -> ResolutionView {
    match status_of(row) {
        Err(error) => ResolutionView::Fatal(error),
        Ok(status) => match url_given(row, field) {
            Err(error) => ResolutionView::Fatal(error),
            Ok(None) => ResolutionView::Skip,
            Ok(Some(url)) => if url.len() == 0 {
                ResolutionView::Fatal(ListingError::EmptyUrl)
            } else {
                ResolutionView::Entry(ListingEntryView { status, url })
            },
        },
    }
}

/// What a row comes to.
pub open spec fn resolution(row: RowView) -> ResolutionView {
    settled(row, json_field(row.flag->0, "url"@))
}

/// The status of a row.
fn status_text(row: &Row) -> (r: Result<String, ListingError>)
    ensures
        match r {
            Ok(status) => status_of(row@) == Ok::<Seq<char>, ListingError>(status@),
            Err(error) => status_of(row@) == Err::<Seq<char>, ListingError>(error),
        },
{
    if row.cells.len() == 0 {
        return Err(ListingError::NoStatusCell);
    }
    assert(row@.cells[0] == row.cells@[0].deep_view());
    match &row.cells[0] {
        Some(text) => {
            let status = trimmed(text.as_str());
            if status.is_empty() {
                Err(ListingError::EmptyStatus)
            } else {
                Ok(status.to_owned())
            }
        },
        None => Err(ListingError::EmptyStatus),
    }
}

/// Turns a looked-up `url` field into an address.
pub fn url_from_field(field: JsonField) -> (r: Result<String, ListingError>)
    ensures
        match r {
            Ok(url) => url_of_field(field@) == Ok::<Seq<char>, ListingError>(url@),
            Err(error) => url_of_field(field@) == Err::<Seq<char>, ListingError>(error),
        },
{
    match field {
        JsonField::Text(url) => Ok(url),
        JsonField::Malformed => Err(ListingError::MalformedJson),
        JsonField::Absent => Err(ListingError::MissingUrl),
        _ => Err(ListingError::NonStringUrl),
    }
}

/// The inline data of a row, where it carries some.
pub fn inline_data(row: &Row) -> (data: Option<&str>)
    ensures
        has_inline_data(row@.flag) <==> data is Some,
        data matches Some(text) ==> row@.flag == Some(text@),
{
    match &row.flag {
        Some(data) => if same_text(data.as_str(), "false") {
            None
        } else {
            Some(data.as_str())
        },
        None => None,
    }
}

/// The address of a row, given the `url` field of its inline data.
fn url_text(row: &Row, field: JsonField) -> (r: Result<Option<String>, ListingError>)
    ensures
        match r {
            Ok(url) => url_given(row@, field@) == Ok::<Option<Seq<char>>, ListingError>(
                url.deep_view(),
            ),
            Err(error) => url_given(row@, field@) == Err::<Option<Seq<char>>, ListingError>(error),
        },
{
    if inline_data(row).is_some() {
        return match url_from_field(field) {
            Ok(url) => Ok(Some(url)),
            Err(error) => Err(error),
        };
    }
    if row.links.len() == 0 {
        return Ok(None);
    }
    assert(row@.links[0] == row.links@[0].deep_view());
    match &row.links[0] {
        Some(href) => Ok(Some(href.clone())),
        None => Err(ListingError::LinkWithoutHref),
    }
}

/// Settles what a row comes to, once the `url` field of its inline data has
/// been looked up. Where the row carries no inline data, `field` is not
/// looked at.
pub fn settle(row: &Row, field: JsonField) -> (r: Resolution)
    ensures
        r@ == settled(row@, field@),
        r@ matches ResolutionView::Entry(entry) ==> entry.wf(),
{
    let status = match status_text(row) {
        Ok(status) => status,
        Err(error) => {
            return Resolution::Fatal(error);
        },
    };
    match url_text(row, field) {
        Err(error) => Resolution::Fatal(error),
        Ok(None) => Resolution::Skip,
        Ok(Some(url)) => if url.as_str().is_empty() {
            Resolution::Fatal(ListingError::EmptyUrl)
        } else {
            Resolution::Entry(ListingEntry { status, url })
        },
    }
}

/// Resolves one row of the listing: looks up the `url` field of its inline
/// data, where it carries some, and settles the row.
pub fn resolve(row: &Row) -> (r: Resolution)
    ensures
        r@ == resolution(row@),
        r@ matches ResolutionView::Entry(entry) ==> entry.wf(),
{
    let field = match inline_data(row) {
        Some(data) => lookup(data, "url"),
        None => JsonField::Absent,
    };
    settle(row, field)
}

/// Whether `found` is what the rows come to, one by one, up to and including
/// the first malformed row, and no further.
pub open spec fn resolves(rows: Seq<RowView>, found: Seq<ResolutionView>) -> bool {
    &&& found.len() <= rows.len()
    &&& forall|i: int| 0 <= i < found.len() ==> found[i] == resolution(#[trigger] rows[i])
    &&& forall|i: int| 0 <= i < found.len() - 1 ==> !(#[trigger] found[i] is Fatal)
    &&& found.len() < rows.len() ==> found.len() > 0 && found.last() is Fatal
}

/// Resolves the rows of a listing in order and stops after the first
/// malformed row.
pub fn resolve_rows(rows: &Vec<Row>) -> (found: Vec<Resolution>)
    ensures
        resolves(rows.deep_view(), found.deep_view()),
{
    let mut found: Vec<Resolution> = Vec::new();
    let ghost all = rows.deep_view();
    let mut i: usize = 0;
    while i < rows.len()
        invariant
            i <= rows.len(),
            all == rows.deep_view(),
            found.deep_view().len() == i,
            forall|k: int| 0 <= k < i ==> found.deep_view()[k] == resolution(#[trigger] all[k]),
            forall|k: int| 0 <= k < i ==> !(#[trigger] found.deep_view()[k] is Fatal),
        decreases rows.len() - i,
    {
        let r = resolve(&rows[i]);
        let stop = match &r {
            Resolution::Fatal(_) => true,
            _ => false,
        };
        let ghost before = found.deep_view();
        assert(all[i as int] == rows[i as int]@);
        found.push(r);
        assert(found.deep_view() =~= before.push(r@));
        i += 1;
        if stop {
            return found;
        }
    }
    found
}

/// What marks a row of the listing.
pub open spec fn row_selector() -> Seq<char> {
    "tr[class*=\"spec\"]"@
}

/// What marks the status cell of a row.
pub open spec fn cell_selector() -> Seq<char> {
    "td[class=\"status\"]"@
}

/// What marks a link of a row.
pub open spec fn link_selector() -> Seq<char> {
    "a[href]"@
}

/// The rows of the listing page `html`, as `scraper` finds them.
pub open spec fn listing_rows(html: Seq<char>) -> Option<Seq<RowView>> {
    selected_rows(
        html,
        row_selector(),
        "data-recommended"@,
        cell_selector(),
        link_selector(),
        "href"@,
    )
}

/// Reads a listing page: finds its rows and resolves them.
pub fn read_listing(html: &str) -> (found: Vec<Resolution>)
    ensures
        match listing_rows(html@) {
            Some(rows) => resolves(rows, found.deep_view()),
            None => found.deep_view() == seq![ResolutionView::Fatal(ListingError::Selector)],
        },
{
    match select_rows(
        html,
        "tr[class*=\"spec\"]",
        "data-recommended",
        "td[class=\"status\"]",
        "a[href]",
        "href",
    ) {
        Some(rows) => resolve_rows(&rows),
        None => {
            let mut found: Vec<Resolution> = Vec::new();
            found.push(Resolution::Fatal(ListingError::Selector));
            assert(found.deep_view() =~= seq![ResolutionView::Fatal(ListingError::Selector)]);
            found
        },
    }
}

/// A row whose status cell is empty is malformed, whatever else it holds.
pub proof fn lemma_empty_status_is_fatal(row: RowView)
    requires
        row.cells.len() > 0,
        row.cells[0] matches Some(text) ==> trim(text).len() == 0,
    ensures
        resolution(row) == ResolutionView::Fatal(ListingError::EmptyStatus),
{
}

/// An entry has a status and an address; neither is empty.
pub proof fn lemma_entries_are_whole(row: RowView)
    ensures
        resolution(row) matches ResolutionView::Entry(entry) ==> entry.wf(),
{
}

/// The first malformed row is the last one looked at: the resolutions end
/// with it, and no row after it is resolved.
pub proof fn lemma_nothing_after_fatal(rows: Seq<RowView>, found: Seq<ResolutionView>, k: int)
    requires
        resolves(rows, found),
        0 <= k < rows.len(),
        resolution(rows[k]) is Fatal,
    ensures
        found.len() <= k + 1,
        (forall|i: int| 0 <= i < k ==> !(resolution(#[trigger] rows[i]) is Fatal)) ==> found.len()
            == k + 1 && found.last() == resolution(rows[k]),
{
    if found.len() > k + 1 {
        assert(found[k] == resolution(rows[k]));
    }
    if forall|i: int| 0 <= i < k ==> !(resolution(#[trigger] rows[i]) is Fatal) {
        if found.len() < k + 1 {
            assert(found.last() == resolution(rows[found.len() - 1]));
        }
    }
}

/// A listing without a malformed row is resolved to its end.
pub proof fn lemma_sound_listing_is_read_whole(rows: Seq<RowView>, found: Seq<ResolutionView>)
    requires
        resolves(rows, found),
        forall|i: int| 0 <= i < rows.len() ==> !(resolution(#[trigger] rows[i]) is Fatal),
    ensures
        found.len() == rows.len(),
{
    if found.len() < rows.len() {
        assert(found.last() == resolution(rows[found.len() - 1]));
    }
}

/// The rows decide what they come to: two resolutions of the same rows are
/// the same.
pub proof fn lemma_resolution_is_unique(
    rows: Seq<RowView>,
    first: Seq<ResolutionView>,
    second: Seq<ResolutionView>,
)
    requires
        resolves(rows, first),
        resolves(rows, second),
    ensures
        first == second,
{
    if first.len() < second.len() {
        assert(first.last() == resolution(rows[first.len() - 1]));
        assert(second[first.len() - 1] == resolution(rows[first.len() - 1]));
    }
    if second.len() < first.len() {
        assert(second.last() == resolution(rows[second.len() - 1]));
        assert(first[second.len() - 1] == resolution(rows[second.len() - 1]));
    }
    assert(first.len() == second.len());
    assert forall|i: int| 0 <= i < first.len() implies first[i] == second[i] by {
        assert(first[i] == resolution(rows[i]));
    }
    assert(first =~= second);
}

} // verus!
