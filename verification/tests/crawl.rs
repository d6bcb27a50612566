use btspecs::crawl::{Crawl, CrawlAction};
use btspecs::download::{Action, Event, Outcome, Target};
use btspecs::error::{DownloadError, StoreStep};
use btspecs::listing::{read_listing, ListingEntry, ListingError, Resolution};
use btspecs::response::{Header, Response};

fn entry(status: &str, url: &str) -> Resolution {
    Resolution::Entry(ListingEntry { status: status.to_string(), url: url.to_string() })
}

fn pdf(name: &str) -> Event {
    Event::Response(Response {
        status: 200,
        content_type: Header::Text("application/pdf".to_string()),
        content_disposition: Header::Text(format!("attachment;filename=\"{}\"", name)),
    })
}

fn fetch(row: usize, url: &str) -> CrawlAction {
    CrawlAction::Entry { row, action: Action::Fetch { url: url.to_string() } }
}

fn finish(row: usize, outcome: Outcome) -> CrawlAction {
    CrawlAction::Entry { row, action: Action::Finish { outcome } }
}

fn store(row: usize, step: StoreStep, status: &str, filename: &str) -> CrawlAction {
    let target = Target { root: "/data".to_string(), status: status.to_string(), filename: filename.to_string() };
    CrawlAction::Entry { row, action: Action::Store { step, target } }
}

fn probe(row: usize, status: &str, filename: &str) -> CrawlAction {
    let target = Target { root: "/data".to_string(), status: status.to_string(), filename: filename.to_string() };
    CrawlAction::Entry { row, action: Action::Probe { target } }
}

fn drive(mut crawl: Crawl, events: Vec<Event>) -> Vec<CrawlAction> {
    let mut asked = vec![crawl.action()];
    for event in events {
        crawl = crawl.advance(event);
        asked.push(crawl.action());
    }
    asked
}

#[test]
fn empty_listing_exits_at_once() {
    let crawl = Crawl::new("/data".to_string(), vec![]);
    assert_eq!(crawl.action(), CrawlAction::Exit { fatal: None });
    assert_eq!(crawl.clone().advance(Event::Done), crawl);
}

#[test]
fn failed_entry_does_not_stop_the_crawl() {
    let rows = vec![entry("Adopted", "/a"), entry("Adopted", "/b"), entry("Withdrawn", "/c")];
    let asked = drive(
        Crawl::new("/data".to_string(), rows),
        vec![
            pdf("a.pdf"),
            Event::Exists(true),
            Event::Done,
            Event::Failed,
            Event::Done,
            pdf("c.pdf"),
            Event::Exists(false),
            Event::Done,
            Event::Done,
            Event::Done,
            Event::Done,
            Event::Done,
        ],
    );
    assert_eq!(
        asked,
        vec![
            fetch(0, "/a"),
            probe(0, "Adopted", "a.pdf"),
            finish(0, Outcome::Skipped),
            fetch(1, "/b"),
            finish(1, Outcome::Failed(DownloadError::Fetch)),
            fetch(2, "/c"),
            probe(2, "Withdrawn", "c.pdf"),
            store(2, StoreStep::CreateDir, "Withdrawn", "c.pdf"),
            store(2, StoreStep::CreateTemp, "Withdrawn", "c.pdf"),
            store(2, StoreStep::Copy, "Withdrawn", "c.pdf"),
            store(2, StoreStep::Commit, "Withdrawn", "c.pdf"),
            finish(2, Outcome::Written),
            CrawlAction::Exit { fatal: None },
        ]
    );
}

#[test]
fn any_event_acknowledges_a_finished_download() {
    for ack in [Event::Done, Event::Failed, Event::Exists(true), Event::Page("x".to_string()), pdf("x.pdf")] {
        let rows = vec![entry("Adopted", "/a"), entry("Adopted", "/b")];
        let asked = drive(Crawl::new("/data".to_string(), rows), vec![Event::Failed, ack]);
        assert_eq!(asked[1], finish(0, Outcome::Failed(DownloadError::Fetch)));
        assert_eq!(asked[2], fetch(1, "/b"));
    }
}

#[test]
fn skipped_row_is_reported_and_left_behind() {
    let rows = vec![Resolution::Skip, entry("Adopted", "/a"), Resolution::Skip];
    let asked = drive(
        Crawl::new("/data".to_string(), rows),
        vec![Event::Done, Event::Failed, Event::Done, Event::Done, Event::Done],
    );
    assert_eq!(
        asked,
        vec![
            CrawlAction::Skip { row: 0 },
            fetch(1, "/a"),
            finish(1, Outcome::Failed(DownloadError::Fetch)),
            CrawlAction::Skip { row: 2 },
            CrawlAction::Exit { fatal: None },
            CrawlAction::Exit { fatal: None },
        ]
    );
}

#[test]
fn malformed_row_ends_the_crawl_with_its_error() {
    let rows = vec![entry("Adopted", "/a"), Resolution::Fatal(ListingError::EmptyStatus), entry("Adopted", "/b")];
    let asked = drive(
        Crawl::new("/data".to_string(), rows),
        vec![Event::Failed, Event::Done, Event::Done, pdf("b.pdf"), Event::Failed],
    );
    assert_eq!(
        asked,
        vec![
            fetch(0, "/a"),
            finish(0, Outcome::Failed(DownloadError::Fetch)),
            CrawlAction::Exit { fatal: Some(ListingError::EmptyStatus) },
            CrawlAction::Exit { fatal: Some(ListingError::EmptyStatus) },
            CrawlAction::Exit { fatal: Some(ListingError::EmptyStatus) },
            CrawlAction::Exit { fatal: Some(ListingError::EmptyStatus) },
        ]
    );
}

#[test]
fn event_that_does_not_answer_leaves_the_crawl_alone() {
    let crawl = Crawl::new("/data".to_string(), vec![entry("Adopted", "/a")]);
    assert_eq!(crawl.clone().advance(Event::Done), crawl);
    assert_eq!(crawl.clone().advance(Event::Exists(false)), crawl);
    let probing = crawl.advance(pdf("a.pdf"));
    assert_eq!(probing.clone().advance(Event::Done), probing);
    assert_eq!(probing.position, 0);
}

#[test]
fn listing_entry_ends_as_a_file_under_its_status() {
    let listing = "<table><tr class=\"spec\" data-recommended='{\"url\":\"https://example/spec\"}'>\
                   <td class=\"status\">Adopted</td></tr></table>";
    let crawl = Crawl::new("<root>".to_string(), read_listing(listing));
    let target = Target {
        root: "<root>".to_string(),
        status: "Adopted".to_string(),
        filename: "core-spec.pdf".to_string(),
    };
    let asked = drive(
        crawl,
        vec![pdf("core-spec.pdf"), Event::Exists(false), Event::Done, Event::Done, Event::Done, Event::Done, Event::Done],
    );
    assert_eq!(asked[0], fetch(0, "https://example/spec"));
    assert_eq!(asked[1], CrawlAction::Entry { row: 0, action: Action::Probe { target: target.clone() } });
    assert_eq!(asked[5], CrawlAction::Entry { row: 0, action: Action::Store { step: StoreStep::Commit, target } });
    assert_eq!(asked[6], finish(0, Outcome::Written));
    assert_eq!(asked[7], CrawlAction::Exit { fatal: None });
}

#[test]
fn second_crawl_reads_no_body() {
    let rows = vec![entry("Adopted", "/a"), entry("Adopted", "/b")];
    let asked = drive(
        Crawl::new("/data".to_string(), rows),
        vec![pdf("a.pdf"), Event::Exists(true), Event::Done, pdf("b.pdf"), Event::Exists(true), Event::Done],
    );
    for action in &asked {
        assert!(!matches!(action, CrawlAction::Entry { action: Action::Store { .. }, .. }), "{:?}", action);
        assert!(!matches!(action, CrawlAction::Entry { action: Action::ReadPage, .. }), "{:?}", action);
    }
    assert_eq!(asked[2], finish(0, Outcome::Skipped));
    assert_eq!(asked[5], finish(1, Outcome::Skipped));
    assert_eq!(asked[6], CrawlAction::Exit { fatal: None });
}
