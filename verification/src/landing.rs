//! Landing pages: HTML pages that stand between a listing entry and its file.

use vstd::prelude::*;
use crate::error::DownloadError;
use crate::markup::{first_text, select, selected, Element, ElementView};
use crate::text::same_text;

verus! {

/// The two labels that mark the download link. The second ends in a space.
pub open spec fn is_download_label(text: Seq<char>) -> bool {
    text == "Download Now"@ || text == "Download Specification "@
}

/// Whether an anchor is the download link: its own text is one of the two
/// labels, letter for letter. A label inside a child element does not count.
pub open spec fn is_button(anchor: ElementView) -> bool {
    anchor.own_text() matches Some(text) && is_download_label(text)
}

/// The address behind the first download link among `anchors`.
pub open spec fn link_in(anchors: Seq<ElementView>) -> Result<Seq<char>, DownloadError>
    decreases anchors.len(),
{
    if anchors.len() == 0 {
        Err(DownloadError::NoDownloadButton)
    } else if is_button(anchors[0]) {
        match anchors[0].attr {
            Some(href) => Ok(href),
            None => Err(DownloadError::ButtonWithoutUrl),
        }
    } else {
        link_in(anchors.drop_first())
    }
}

/// The address that the landing page `html` leads to.
pub open spec fn landing_link(html: Seq<char>) -> Result<Seq<char>, DownloadError> {
    match selected(html, "a"@, "href"@) {
        Some(anchors) => link_in(anchors),
        None => Err(DownloadError::Selector),
    }
}

/// Whether `anchor` is the download link.
pub fn button(anchor: &Element) -> (r: bool)
    ensures
        r == is_button(anchor@),
{
    match anchor.own_text() {
        Some(text) => same_text(text, "Download Now") || same_text(
            text,
            "Download Specification ",
        ),
        None => false,
    }
}

/// Picks the download link among the anchors of a landing page: the first
/// anchor with an accepted label decides, by its `href` or by the lack of it.
pub fn pick_download_link(anchors: &Vec<Element>) -> (r: Result<String, DownloadError>)
    ensures
        match r {
            Ok(url) => link_in(anchors.deep_view()) == Ok::<Seq<char>, DownloadError>(url@),
            Err(e) => link_in(anchors.deep_view()) == Err::<Seq<char>, DownloadError>(e),
        },
{
    let ghost all = anchors.deep_view();
    let mut i: usize = 0;
    assert(all.skip(0) =~= all);
    while i < anchors.len()
        invariant
            i <= anchors.len(),
            all == anchors.deep_view(),
            link_in(all) == link_in(all.skip(i as int)),
        decreases anchors.len() - i,
    {
        assert(all.skip(i as int)[0] == anchors[i as int]@);
        if button(&anchors[i]) {
            return match &anchors[i].attr {
                Some(href) => Ok(href.clone()),
                None => Err(DownloadError::ButtonWithoutUrl),
            };
        }
        assert(all.skip(i as int).drop_first() =~= all.skip(i + 1));
        i += 1;
    }
    Err(DownloadError::NoDownloadButton)
}

/// Finds the address that a landing page leads to.
pub fn find_download_link(html: &str) -> (r: Result<String, DownloadError>)
    ensures
        match r {
            Ok(url) => landing_link(html@) == Ok::<Seq<char>, DownloadError>(url@),
            Err(e) => landing_link(html@) == Err::<Seq<char>, DownloadError>(e),
        },
{
    match select(html, "a", "href") {
        Some(anchors) => pick_download_link(&anchors),
        None => Err(DownloadError::Selector),
    }
}

/// Among child nodes that are no text nodes there is no text.
proof fn lemma_no_text(children: Seq<Option<Seq<char>>>)
    requires
        forall|i: int| 0 <= i < children.len() ==> children[i] is None,
    ensures
        first_text(children) is None,
    decreases children.len(),
{
    if children.len() > 0 {
        lemma_no_text(children.drop_first());
    }
}

/// Only an anchor's own text makes it the download link: an anchor that has
/// no text node among its children is none, whatever its child elements
/// hold.
pub proof fn lemma_label_must_be_own_text(anchor: ElementView)
    requires
        forall|i: int| 0 <= i < anchor.children.len() ==> anchor.children[i] is None,
    ensures
        anchor.own_text() is None,
        !is_button(anchor),
{
    lemma_no_text(anchor.children);
}

/// A page none of whose anchors is the download link has no download
/// button.
pub proof fn lemma_no_button(anchors: Seq<ElementView>)
    requires
        forall|i: int| 0 <= i < anchors.len() ==> !is_button(#[trigger] anchors[i]),
    ensures
        link_in(anchors) == Err::<Seq<char>, DownloadError>(DownloadError::NoDownloadButton),
    decreases anchors.len(),
{
    if anchors.len() > 0 {
        assert(!is_button(anchors[0]));
        assert forall|i: int| 0 <= i < anchors.drop_first().len() implies !is_button(
            #[trigger] anchors.drop_first()[i],
        ) by {
            assert(anchors.drop_first()[i] == anchors[i + 1]);
        }
        lemma_no_button(anchors.drop_first());
    }
}

/// The first download link decides: where no anchor before `i` is the
/// download link and the anchor at `i` is, the page leads to that anchor's
/// address, or nowhere where it has none.
pub proof fn lemma_first_button_decides(anchors: Seq<ElementView>, i: int)
    requires
        0 <= i < anchors.len(),
        is_button(anchors[i]),
        forall|k: int| 0 <= k < i ==> !is_button(#[trigger] anchors[k]),
    ensures
        link_in(anchors) == match anchors[i].attr {
            Some(href) => Ok::<Seq<char>, DownloadError>(href),
            None => Err(DownloadError::ButtonWithoutUrl),
        },
    decreases i,
{
    if i > 0 {
        assert(!is_button(anchors[0]));
        assert forall|k: int| 0 <= k < i - 1 implies !is_button(
            #[trigger] anchors.drop_first()[k],
        ) by {
            assert(anchors.drop_first()[k] == anchors[k + 1]);
        }
        assert(anchors.drop_first()[i - 1] == anchors[i]);
        lemma_first_button_decides(anchors.drop_first(), i - 1);
    }
}

} // verus!
