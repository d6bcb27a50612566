//! The content-disposition header: the only source of a file's name.

use vstd::prelude::*;
use crate::error::DownloadError;
use crate::text::chars_of;

verus! {

/// What every accepted header value begins with.
pub open spec fn attachment_prefix() -> Seq<char> {
    "attachment;filename=\""@
}

/// The one header value that names `name`: the prefix, the name, a closing
/// quote, and nothing else.
pub open spec fn attachment_header(name: Seq<char>) -> Seq<char> {
    attachment_prefix() + name + seq!['"']
}

/// A name may hold any character but a line feed; quotes and the empty name
/// are allowed.
pub open spec fn is_filename(name: Seq<char>) -> bool {
    forall|i: int| 0 <= i < name.len() ==> name[i] != '\n'
}

/// Whether a header value has the accepted form for some name.
pub open spec fn names_attachment(value: Seq<char>) -> bool {
    exists|name: Seq<char>| is_filename(name) && value == #[trigger] attachment_header(name)
}

/// What stands between the prefix and the last character of a header value:
/// the name, where the value has the accepted form.
pub open spec fn attachment_name(value: Seq<char>) -> Seq<char> {
    value.subrange(attachment_prefix().len() as int, value.len() - 1)
}

/// The header written for a name is accepted, and gives that name back.
pub proof fn lemma_header_gives_name(name: Seq<char>)
    requires
        is_filename(name),
    ensures
        names_attachment(attachment_header(name)),
        attachment_name(attachment_header(name)) == name,
{
    assert(attachment_name(attachment_header(name)) =~= name);
}

/// An accepted header value is the header written for its name, and for no
/// other name.
pub proof fn lemma_name_gives_header(value: Seq<char>)
    requires
        names_attachment(value),
    ensures
        is_filename(attachment_name(value)),
        value == attachment_header(attachment_name(value)),
        forall|name: Seq<char>|
            value == #[trigger] attachment_header(name) ==> name == attachment_name(value),
{
    let witness = choose|name: Seq<char>|
        is_filename(name) && value == #[trigger] attachment_header(name);
    assert(attachment_name(value) =~= witness);
    assert forall|name: Seq<char>| value == #[trigger] attachment_header(name) implies name
        == attachment_name(value) by {
        assert(attachment_name(attachment_header(name)) =~= name);
    }
}

/// Extracts the file name from a content-disposition value.
///
/// Succeeds exactly on values of the form `attachment;filename="<name>"` and
/// returns `<name>` as it stands. No other parameter, no encoded form and no
/// extra whitespace is tolerated.
pub fn content_disposition_to_filename(s: &str) -> (r: Result<&str, DownloadError>)
    ensures
        match r {
            Ok(name) => names_attachment(s@) && name@ == attachment_name(s@),
            Err(e) => !names_attachment(s@) && e == DownloadError::UnsupportedContentDisposition,
        },
{
    let prefix = "attachment;filename=\"";
    proof {
        reveal_strlit("attachment;filename=\"");
    }
    let chars = chars_of(s);
    let n = chars.len();
    if n < 22 {
        assert forall|name: Seq<char>| is_filename(name) implies s@
            != #[trigger] attachment_header(name) by {
            assert(attachment_header(name).len() == 22 + name.len());
        }
        return Err(DownloadError::UnsupportedContentDisposition);
    }
    let mut i: usize = 0;
    while i < 21
        invariant
            i <= 21,
            n >= 22,
            chars@ == s@,
            n == chars@.len(),
            prefix@ == attachment_prefix(),
            prefix@.len() == 21,
            forall|k: int| 0 <= k < i ==> chars@[k] == prefix@[k],
        decreases 21 - i,
    {
        if chars[i] != prefix.get_char(i) {
            assert forall|name: Seq<char>| is_filename(name) implies s@
                != #[trigger] attachment_header(name) by {
                assert(attachment_header(name)[i as int] == prefix@[i as int]);
            }
            return Err(DownloadError::UnsupportedContentDisposition);
        }
        i += 1;
    }
    if chars[n - 1] != '"' {
        assert forall|name: Seq<char>| is_filename(name) implies s@
            != #[trigger] attachment_header(name) by {
            assert(attachment_header(name).last() == '"');
        }
        return Err(DownloadError::UnsupportedContentDisposition);
    }
    let mut j: usize = 21;
    while j < n - 1
        invariant
            21 <= j <= n - 1,
            attachment_prefix().len() == 21,
            chars@ == s@,
            n == chars@.len(),
            forall|k: int| 21 <= k < j ==> chars@[k] != '\n',
        decreases n - j,
    {
        if chars[j] == '\n' {
            assert forall|name: Seq<char>| is_filename(name) implies s@
                != #[trigger] attachment_header(name) by {
                if s@ == attachment_header(name) {
                    assert(attachment_header(name)[j as int] == name[j - 21]);
                }
            }
            return Err(DownloadError::UnsupportedContentDisposition);
        }
        j += 1;
    }
    let name = s.substring_char(21, n - 1);
    proof {
        assert(s@ =~= attachment_header(name@));
    }
    Ok(name)
}

} // verus!
