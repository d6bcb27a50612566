use btspecs::error::DownloadError;
use btspecs::landing::{button, find_download_link, pick_download_link};
use btspecs::markup::Element;

fn anchor(text: Option<&str>, href: Option<&str>) -> Element {
    Element { children: text.iter().map(|t| Some(t.to_string())).collect(), attr: href.map(String::from) }
}

fn element(children: &[Option<&str>], href: Option<&str>) -> Element {
    Element { children: children.iter().map(|c| c.map(String::from)).collect(), attr: href.map(String::from) }
}

#[test]
fn landing_page_leads_to_the_file() {
    let page = "<html><body><a href=\"https://x/real.pdf\">Download Now</a></body></html>";
    assert_eq!(find_download_link(page), Ok("https://x/real.pdf".to_string()));
}

#[test]
fn landing_page_without_button_is_an_error() {
    let page = "<html><body><a href=\"https://x/real.pdf\">Download</a><p>Download Now</p></body></html>";
    assert_eq!(find_download_link(page), Err(DownloadError::NoDownloadButton));
    assert_eq!(find_download_link(""), Err(DownloadError::NoDownloadButton));
    assert_eq!(find_download_link("plain text, no markup"), Err(DownloadError::NoDownloadButton));
}

#[test]
fn second_label_needs_its_trailing_space() {
    let with = "<a href=\"/spec.zip\">Download Specification </a>";
    let without = "<a href=\"/spec.zip\">Download Specification</a>";
    assert_eq!(find_download_link(with), Ok("/spec.zip".to_string()));
    assert_eq!(find_download_link(without), Err(DownloadError::NoDownloadButton));
    assert_eq!(
        find_download_link("<a href=\"/spec.zip\">Download Now </a>"),
        Err(DownloadError::NoDownloadButton)
    );
    assert_eq!(
        find_download_link("<a href=\"/spec.zip\"> Download Now</a>"),
        Err(DownloadError::NoDownloadButton)
    );
}

#[test]
fn first_button_decides() {
    let page = "<a href=\"/about\">About</a>\
                <a href=\"/first.pdf\">Download Now</a>\
                <a href=\"/second.pdf\">Download Now</a>";
    assert_eq!(find_download_link(page), Ok("/first.pdf".to_string()));
    let page = "<a>Download Now</a><a href=\"/second.pdf\">Download Now</a>";
    assert_eq!(find_download_link(page), Err(DownloadError::ButtonWithoutUrl));
}

#[test]
fn label_inside_a_child_element_does_not_count() {
    let nested = "<a href=\"https://x/real.pdf\"><b>Download Now</b></a>";
    assert_eq!(find_download_link(nested), Err(DownloadError::NoDownloadButton));
    let nested = "<a href=\"/nested.pdf\"><span>Download Specification </span></a>";
    assert_eq!(find_download_link(nested), Err(DownloadError::NoDownloadButton));
    let deeper = "<a href=\"/deep.pdf\"><span>Download Now</span></a><a href=\"/own.pdf\">Download Now</a>";
    assert_eq!(find_download_link(deeper), Ok("/own.pdf".to_string()));
}

#[test]
fn label_is_the_first_text_of_the_anchor_itself() {
    let split = "<a href=\"/split.pdf\">Download <b>Now</b></a>";
    assert_eq!(find_download_link(split), Err(DownloadError::NoDownloadButton));
    let led = "<a href=\"/led.pdf\">Download Now<b> (PDF)</b></a>";
    assert_eq!(find_download_link(led), Ok("/led.pdf".to_string()));
    let icon = "<a href=\"/icon.pdf\"><img src=\"pdf.png\">Download Now</a>";
    assert_eq!(find_download_link(icon), Ok("/icon.pdf".to_string()));
    let noted = "<a href=\"/noted.pdf\"><!-- button -->Download Now<br>today</a>";
    assert_eq!(find_download_link(noted), Ok("/noted.pdf".to_string()));
    let later = "<a href=\"/later.pdf\">Get it<br>Download Now</a>";
    assert_eq!(find_download_link(later), Err(DownloadError::NoDownloadButton));
    let empty = "<a href=\"/empty.pdf\"></a>";
    assert_eq!(find_download_link(empty), Err(DownloadError::NoDownloadButton));
}

#[test]
fn own_text_is_the_first_child_that_is_text() {
    assert_eq!(element(&[], None).own_text(), None);
    assert_eq!(element(&[None, None], Some("x")).own_text(), None);
    assert_eq!(element(&[Some("a")], None).own_text(), Some("a"));
    assert_eq!(element(&[None, Some("a"), Some("b")], None).own_text(), Some("a"));
    assert_eq!(element(&[Some(""), Some("b")], None).own_text(), Some(""));
}

#[test]
fn href_is_handed_out_as_written() {
    let page = "<a class=\"btn\" href=\" https://x/a b.pdf?x=1&amp;y=2 \">Download Now</a>";
    assert_eq!(find_download_link(page), Ok(" https://x/a b.pdf?x=1&y=2 ".to_string()));
    assert_eq!(find_download_link("<a href=\"\">Download Now</a>"), Ok(String::new()));
}

#[test]
fn button_is_told_by_its_text() {
    assert!(button(&anchor(Some("Download Now"), None)));
    assert!(button(&anchor(Some("Download Specification "), Some("x"))));
    assert!(!button(&anchor(Some("Download Specification"), Some("x"))));
    assert!(!button(&anchor(Some("download now"), Some("x"))));
    assert!(!button(&anchor(Some(""), Some("x"))));
    assert!(!button(&anchor(None, Some("x"))));
    assert!(button(&element(&[None, Some("Download Now"), Some("more")], Some("x"))));
    assert!(!button(&element(&[None, Some("more"), Some("Download Now")], Some("x"))));
    assert!(!button(&element(&[None], Some("x"))));
}

#[test]
fn picking_walks_the_anchors_in_order() {
    assert_eq!(pick_download_link(&vec![]), Err(DownloadError::NoDownloadButton));
    let anchors = vec![
        anchor(None, Some("/none")),
        anchor(Some("Home"), Some("/home")),
        anchor(Some("Download Specification "), Some("/spec")),
        anchor(Some("Download Now"), Some("/now")),
    ];
    assert_eq!(pick_download_link(&anchors), Ok("/spec".to_string()));
    let anchors = vec![anchor(Some("Download Now"), None), anchor(Some("Download Now"), Some("/now"))];
    assert_eq!(pick_download_link(&anchors), Err(DownloadError::ButtonWithoutUrl));
    let anchors = vec![anchor(Some("Home"), Some("/home")), anchor(None, None)];
    assert_eq!(pick_download_link(&anchors), Err(DownloadError::NoDownloadButton));
}
