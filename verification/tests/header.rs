use btspecs::error::DownloadError;
use btspecs::header::content_disposition_to_filename;

const REJECTED: DownloadError = DownloadError::UnsupportedContentDisposition;

#[test]
fn header_names_the_file() {
    assert_eq!(content_disposition_to_filename("attachment;filename=\"spec.pdf\""), Ok("spec.pdf"));
    assert_eq!(
        content_disposition_to_filename("attachment;filename=\"core-spec.pdf\""),
        Ok("core-spec.pdf")
    );
}

#[test]
fn header_name_may_be_empty() {
    assert_eq!(content_disposition_to_filename("attachment;filename=\"\""), Ok(""));
}

#[test]
fn header_name_is_returned_verbatim() {
    assert_eq!(
        content_disposition_to_filename("attachment;filename=\" Core v5.3 \""),
        Ok(" Core v5.3 ")
    );
    assert_eq!(
        content_disposition_to_filename("attachment;filename=\"a\";size=\"3\""),
        Ok("a\";size=\"3")
    );
    assert_eq!(
        content_disposition_to_filename("attachment;filename=\"sp\u{e9}c \u{1F4C4}.pdf\""),
        Ok("sp\u{e9}c \u{1F4C4}.pdf")
    );
    assert_eq!(content_disposition_to_filename("attachment;filename=\"\"\""), Ok("\""));
}

#[test]
fn header_without_the_exact_form_is_rejected() {
    let values = [
        "",
        "attachment",
        "attachment;filename=",
        "attachment;filename=\"",
        "attachment;filename=spec.pdf",
        "attachment;filename=\"spec.pdf",
        "attachment;filename=\"spec.pdf\" ",
        "attachment;filename=\"spec.pdf\";",
        "attachment;filename=\"spec.pdf\"\n",
        " attachment;filename=\"spec.pdf\"",
        "attachment; filename=\"spec.pdf\"",
        "attachment;filename =\"spec.pdf\"",
        "Attachment;filename=\"spec.pdf\"",
        "attachment;Filename=\"spec.pdf\"",
        "inline;filename=\"spec.pdf\"",
        "attachment;filename*=UTF-8''spec.pdf",
        "attachment;filename='spec.pdf'",
        "xattachment;filename=\"spec.pdf\"",
    ];
    for value in values {
        assert_eq!(content_disposition_to_filename(value), Err(REJECTED), "{:?}", value);
    }
}

#[test]
fn header_name_with_a_line_feed_is_rejected() {
    assert_eq!(content_disposition_to_filename("attachment;filename=\"a\nb\""), Err(REJECTED));
    assert_eq!(content_disposition_to_filename("attachment;filename=\"\n\""), Err(REJECTED));
    assert_eq!(content_disposition_to_filename("attachment;filename=\"a\rb\""), Ok("a\rb"));
}

#[test]
fn header_agrees_with_the_pattern() {
    let pattern = regex::Regex::new("^attachment;filename=\"(.*)\"$").unwrap();
    let heads = ["", "attachment;filename=\"", "attachment;filename=", "attachment;", " attachment;filename=\""];
    let names = ["", "a", "spec.pdf", "a b", "a\"b", "\"", "a\nb", "\n", "\u{e9}\u{1F4C4}", "a;b=\"c"];
    let tails = ["", "\"", "\"\"", "\" ", "\"\n", "\";x"];
    for head in heads {
        for name in names {
            for tail in tails {
                let value = format!("{}{}{}", head, name, tail);
                let expected = pattern.captures(&value).map(|c| c.get(1).unwrap().as_str());
                assert_eq!(content_disposition_to_filename(&value).ok(), expected, "{:?}", value);
            }
        }
    }
}
