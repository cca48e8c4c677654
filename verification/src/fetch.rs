//! Decisions of the per-image fetch step: whether a response counts as a
//! success and under which name the image is stored.
//!
//! A stored image is named `<identifier>.<extension>`. The identifier is a
//! freshly drawn random UUID; the extension is read off the trailing path
//! segment of the image's URL. Neither holds a `/`, so every image lies
//! directly in the output directory.

use crate::text::{chars_of, push_char};
use vstd::prelude::*;
use vstd::string::StringExecFns;

verus! {

/// Why one image could not be fetched and stored. Every variant is
/// recoverable: the download loop skips the item and goes on.
#[derive(Debug, Clone, Copy, PartialEq, Eq, Structural)]
pub enum FetchError {
    /// The request did not complete (connection, TLS, timeout).
    Transport,
    /// The image endpoint answered with a status outside the success class.
    Status { code: u16 },
    /// The output directory or the file could not be written.
    Filesystem,
}

/// The success class of HTTP status codes.
pub open spec fn success_status(code: u16) -> bool {
    200 <= code < 300
}

/// Whether an HTTP status code indicates success.
pub fn is_success(code: u16) -> (ok: bool)
    ensures
        ok == success_status(code),
{
    200 <= code && code < 300
}

/// What the answer of the image endpoint means for the fetch: success for a
/// status of the success class, else the status error that carries the code.
pub fn check_status(code: u16) -> (outcome: Result<(), FetchError>)
    ensures
        outcome == if success_status(code) {
            Ok::<(), FetchError>(())
        } else {
            Err::<(), FetchError>(FetchError::Status { code })
        },
{
    if is_success(code) {
        Ok(())
    } else {
        Err(FetchError::Status { code })
    }
}

/// The extension given to an image whose URL shows none.
pub open spec fn default_extension() -> Seq<char> {
    "jpg"@
}

/// The trailing path segment of a URL: what follows its last `/`, or all of
/// it where it has none.
pub open spec fn trailing_segment(url: Seq<char>) -> Seq<char> {
    match url.index_of_last('/') {
        Some(slash) => url.skip(slash + 1),
        None => url,
    }
}

/// The file extension that a URL shows: of its trailing path segment, what
/// follows the last `.`, cut off before the first `?` if there is one. Where
/// the segment has no `.`, or nothing is left after the cut, it is the
/// default extension.
pub open spec fn extension_of(url: Seq<char>) -> Seq<char> {
    let segment = trailing_segment(url);
    match segment.index_of_last('.') {
        None => default_extension(),
        Some(dot) => {
            let tail = segment.skip(dot + 1);
            let shown = match tail.index_of_first('?') {
                Some(mark) => tail.take(mark),
                None => tail,
            };
            if shown.len() == 0 {
                default_extension()
            } else {
                shown
            }
        },
    }
}

/// The trailing path segment of a URL holds no `/`.
proof fn lemma_segment_has_no_slash(url: Seq<char>)
    ensures
        !trailing_segment(url).contains('/'),
{
    url.index_of_last_ensures('/');
    if let Some(slash) = url.index_of_last('/') {
        let segment = url.skip(slash + 1);
        assert forall|i: int| 0 <= i < segment.len() implies segment[i] != '/' by {
            assert(segment[i] == url[slash + 1 + i]);
        }
    }
}

/// An extension is never empty and holds none of `/`, `.` and `?`: it names
/// no directory, and a file name has no dot behind the one that separates
/// identifier and extension.
pub proof fn lemma_extension_is_plain(url: Seq<char>)
    ensures
        extension_of(url).len() > 0,
        !extension_of(url).contains('/'),
        !extension_of(url).contains('.'),
        !extension_of(url).contains('?'),
{
    reveal_strlit("jpg");
    let segment = trailing_segment(url);
    lemma_segment_has_no_slash(url);
    segment.index_of_last_ensures('.');
    if let Some(dot) = segment.index_of_last('.') {
        let tail = segment.skip(dot + 1);
        tail.index_of_first_ensures('?');
        let shown = match tail.index_of_first('?') {
            Some(mark) => tail.take(mark),
            None => tail,
        };
        assert forall|i: int| 0 <= i < shown.len() implies shown[i] != '/' && shown[i] != '.'
            && shown[i] != '?' by {
            assert(shown[i] == tail[i]);
            assert(tail[i] == segment[dot + 1 + i]);
            assert(segment.contains(segment[dot + 1 + i]));
        }
    }
}

/// The file extension for the image at `url`.
pub fn file_extension(url: &str) -> (ext: String)
    ensures
        ext@ == extension_of(url@),
{
    let chars = chars_of(url);
    let n = chars.len();
    let mut from: usize = n;
    while from > 0 && chars[from - 1] != '/'
        invariant
            from <= n,
            n == chars@.len(),
            forall|j: int| from <= j < n ==> chars@[j] != '/',
        decreases from,
    {
        from -= 1;
    }
    let ghost segment = chars@.skip(from as int);
    proof {
        chars@.index_of_last_ensures('/');
        if from > 0 {
            assert(chars@[from - 1] == '/');
        } else {
            assert(segment == chars@);
        }
        assert(segment == trailing_segment(chars@));
    }
    let mut start: usize = n;
    while start > from && chars[start - 1] != '.'
        invariant
            from <= start <= n,
            n == chars@.len(),
            forall|j: int| start <= j < n ==> chars@[j] != '.',
        decreases start,
    {
        start -= 1;
    }
    proof {
        segment.index_of_last_ensures('.');
        assert forall|k: int| start - from <= k < segment.len() implies segment[k] != '.' by {
            assert(segment[k] == chars@[from + k]);
        }
    }
    if start == from {
        return String::from_str("jpg");
    }
    assert(segment.index_of_last('.') == Some(start - 1 - from)) by {
        assert(segment[start - 1 - from] == '.');
    }
    let mut end: usize = start;
    while end < n && chars[end] != '?'
        invariant
            start <= end <= n,
            n == chars@.len(),
            forall|j: int| start <= j < end ==> chars@[j] != '?',
        decreases n - end,
    {
        end += 1;
    }
    let ghost tail = segment.skip(start - from);
    proof {
        assert(tail == chars@.skip(start as int));
        tail.index_of_first_ensures('?');
        if end < n {
            assert(tail[end - start] == '?');
        }
        assert(tail.take(end - start) == chars@.subrange(start as int, end as int));
        assert(end == n ==> tail == chars@.subrange(start as int, end as int));
    }
    if end == start {
        return String::from_str("jpg");
    }
    let mut ext = String::new();
    let mut i: usize = start;
    while i < end
        invariant
            start <= i <= end <= n,
            n == chars@.len(),
            ext@ == chars@.subrange(start as int, i as int),
        decreases end - i,
    {
        push_char(&mut ext, chars[i]);
        i += 1;
    }
    ext
}

/// The name under which the image at `url` is stored when `id` is its
/// identifier.
pub open spec fn file_name_of(id: Seq<char>, url: Seq<char>) -> Seq<char> {
    id + seq!['.'] + extension_of(url)
}

/// The file name for the image at `url` under the identifier `id`.
pub fn file_name(id: &str, url: &str) -> (name: String)
    ensures
        name@ == file_name_of(id@, url@),
{
    let mut name = String::from_str(id);
    push_char(&mut name, '.');
    let ext = file_extension(url);
    name.append(ext.as_str());
    name
}

/// A lower-case hexadecimal digit.
pub open spec fn is_lower_hex(c: char) -> bool {
    ('0' <= c <= '9') || ('a' <= c <= 'f')
}

/// Whether `c` can stand at position `i` of a hyphenated UUID: a hyphen
/// behind the 8th, 12th, 16th and 20th digit, a digit elsewhere.
pub open spec fn fits_position(i: int, c: char) -> bool {
    if i == 8 || i == 13 || i == 18 || i == 23 {
        c == '-'
    } else {
        is_lower_hex(c)
    }
}

/// The shape of a random (version 4) UUID in its hyphenated lower-case
/// notation: 36 characters, of which four are hyphens and the others
/// digits, with `4` as the version digit and `8`, `9`, `a` or `b` as the
/// variant digit.
pub open spec fn is_identifier(id: Seq<char>) -> bool {
    &&& id.len() == 36
    &&& forall|i: int| 0 <= i < 36 ==> fits_position(i, #[trigger] id[i])
    &&& id[14] == '4'
    &&& (id[19] == '8' || id[19] == '9' || id[19] == 'a' || id[19] == 'b')
}

/// `uuid::Uuid::new_v4`, written out by the `Display` impl of `uuid::Uuid`.
/// The contract states the notation only: the digits themselves are random,
/// so nothing relates the results of two calls. The call panics if the
/// operating system hands out no random bytes.
#[verifier::external_body]
fn fresh_identifier() -> (id: String)
    ensures
        is_identifier(id@),
{
    format!("{}", uuid::Uuid::new_v4())
}

/// A file name for the image at `url` under a freshly drawn identifier.
pub fn fresh_file_name(url: &str) -> (name: String)
    ensures
        exists|id: Seq<char>| is_identifier(id) && name@ == #[trigger] file_name_of(id, url@),
{
    let id = fresh_identifier();
    file_name(id.as_str(), url)
}

/// A file name under a well-formed identifier holds no `/`: the file lies
/// directly in the directory that it is stored in, whatever the URL.
pub proof fn lemma_file_name_is_flat(id: Seq<char>, url: Seq<char>)
    requires
        is_identifier(id),
    ensures
        !file_name_of(id, url).contains('/'),
{
    lemma_extension_is_plain(url);
    let ext = extension_of(url);
    let name = file_name_of(id, url);
    assert forall|i: int| 0 <= i < name.len() implies name[i] != '/' by {
        if i < 36 {
            assert(name[i] == id[i]);
            assert(fits_position(i, id[i]));
        } else if i > 36 {
            assert(name[i] == ext[i - 37]);
            assert(ext.contains(ext[i - 37]));
        }
    }
}

/// Stored images never share a name unless they share an identifier: two
/// different identifiers give two different file names, whatever the URLs,
/// alike or not.
pub proof fn lemma_file_names_differ(
    id1: Seq<char>,
    url1: Seq<char>,
    id2: Seq<char>,
    url2: Seq<char>,
)
    requires
        is_identifier(id1),
        is_identifier(id2),
        id1 != id2,
    ensures
        file_name_of(id1, url1) != file_name_of(id2, url2),
{
    let name1 = file_name_of(id1, url1);
    let name2 = file_name_of(id2, url2);
    assert(name1.take(36) == id1);
    assert(name2.take(36) == id2);
}

} // verus!
