use std::borrow::Cow;

use base64::Engine;

use vstd::prelude::*;
use vstd::string::*;

use crate::text::{chars_of, eq_ignore_ascii_case, same_ignoring_ascii_case};
use crate::url::{has_scheme, is_ascii_alpha, percent_decode, percent_decoded_text, starts_with_scheme};

verus! {

/// The MIME type of an image file with the given extension. The extension is matched without its ASCII case.
pub open spec fn image_mime_of(extension: Seq<char>) -> Option<Seq<char>> {
    if same_ignoring_ascii_case(extension, "png"@) {
        Some("image/png"@)
    } else if same_ignoring_ascii_case(extension, "jpg"@) {
        Some("image/jpeg"@)
    } else if same_ignoring_ascii_case(extension, "jpeg"@) {
        Some("image/jpeg"@)
    } else if same_ignoring_ascii_case(extension, "gif"@) {
        Some("image/gif"@)
    } else if same_ignoring_ascii_case(extension, "svg"@) {
        Some("image/svg+xml"@)
    } else if same_ignoring_ascii_case(extension, "webp"@) {
        Some("image/webp"@)
    } else if same_ignoring_ascii_case(extension, "avif"@) {
        Some("image/avif"@)
    } else if same_ignoring_ascii_case(extension, "bmp"@) {
        Some("image/bmp"@)
    } else if same_ignoring_ascii_case(extension, "ico"@) {
        Some("image/x-icon"@)
    } else {
        None
    }
}

/// The MIME type of an image file with the given extension.
pub fn image_mime(extension: &str) -> (mime: Option<&'static str>)
    ensures
        match mime {
            Some(m) => image_mime_of(extension@) == Some(m@),
            None => image_mime_of(extension@) is None,
        },
{
    if eq_ignore_ascii_case(extension, "png") {
        Some("image/png")
    } else if eq_ignore_ascii_case(extension, "jpg") {
        Some("image/jpeg")
    } else if eq_ignore_ascii_case(extension, "jpeg") {
        Some("image/jpeg")
    } else if eq_ignore_ascii_case(extension, "gif") {
        Some("image/gif")
    } else if eq_ignore_ascii_case(extension, "svg") {
        Some("image/svg+xml")
    } else if eq_ignore_ascii_case(extension, "webp") {
        Some("image/webp")
    } else if eq_ignore_ascii_case(extension, "avif") {
        Some("image/avif")
    } else if eq_ignore_ascii_case(extension, "bmp") {
        Some("image/bmp")
    } else if eq_ignore_ascii_case(extension, "ico") {
        Some("image/x-icon")
    } else {
        None
    }
}

/// The index of the first occurrence of a character in a text, or the length of the text if it does not occur.
pub open spec fn first_index_of(s: Seq<char>, c: char) -> int
    decreases s.len(),
{
    if s.len() == 0 {
        0
    } else if s[0] == c {
        0
    } else {
        1 + first_index_of(s.drop_first(), c)
    }
}

proof fn lemma_first_index_of(s: Seq<char>, c: char, i: int)
    requires
        0 <= i <= s.len(),
        forall|j: int| 0 <= j < i ==> s[j] != c,
        i == s.len() || s[i] == c,
    ensures
        first_index_of(s, c) == i,
    decreases i,
{
    if i > 0 {
        lemma_first_index_of(s.drop_first(), c, i - 1);
    }
}

fn find_char(v: &Vec<char>, end: usize, c: char) -> (i: usize)
    requires
        end <= v@.len(),
    ensures
        i == first_index_of(v@.subrange(0, end as int), c),
        i <= end,
{
    let mut i: usize = 0;
    while i < end && v[i] != c
        invariant
            end <= v@.len(),
            i <= end,
            forall|j: int| 0 <= j < i ==> v@[j] != c,
        decreases end - i,
    {
        i += 1;
    }
    proof {
        lemma_first_index_of(v@.subrange(0, end as int), c, i as int);
    }
    i
}

/// The local file which an image URL refers to, still relative to the base path, with the fragment of the URL.
#[derive(Debug, Clone, PartialEq, Eq)]
pub struct LocalImageUrl {
    /// The path of the image file, with its percent-encoded octets decoded.
    pub path: String,
    /// The fragment of the URL, without its `#`.
    pub fragment: Option<String>,
}

/// Which local file an image URL refers to. Empty URLs, URLs which start with `#`, `/` or `\`, URLs with a scheme,
/// and URLs whose decoded path is absolute refer to no local file. The query is dropped and the fragment is kept
/// apart.
pub open spec fn local_image_of(url: Seq<char>) -> Option<(Seq<char>, Option<Seq<char>>)> {
    if url.len() == 0 || url[0] == '#' || url[0] == '/' || url[0] == '\\' || starts_with_scheme(url) {
        None
    } else {
        let hash = first_index_of(url, '#');
        let path_and_query = url.subrange(0, hash);
        let path = path_and_query.subrange(0, first_index_of(path_and_query, '?'));
        let fragment = if hash < url.len() {
            Some(url.subrange(hash + 1, url.len() as int))
        } else {
            None
        };
        let decoded = percent_decoded_text(path);
        if is_absolute_path(decoded) {
            None
        } else {
            Some((decoded, fragment))
        }
    }
}

/// Whether a path is absolute on some system: it starts with `/` or `\`, or with a drive letter, `:` and `/` or `\`.
pub open spec fn is_absolute_path(path: Seq<char>) -> bool {
    ||| path.len() > 0 && (path[0] == '/' || path[0] == '\\')
    ||| path.len() > 2 && is_ascii_alpha(path[0]) && path[1] == ':' && (path[2] == '/' || path[2] == '\\')
}

/// Check whether a path is absolute on some system.
fn absolute_path(path: &str) -> (res: bool)
    ensures
        res == is_absolute_path(path@),
{
    let v = chars_of(path);
    let n = v.len();
    (n > 0 && (v[0] == '/' || v[0] == '\\')) || (n > 2 && (('a' <= v[0] && v[0] <= 'z') || ('A' <= v[0]
        && v[0] <= 'Z')) && v[1] == ':' && (v[2] == '/' || v[2] == '\\'))
}

/// Find the local file which an image URL refers to. This is the part of the image embedding which looks at the URL alone.
pub fn local_image_url(url: &str) -> (local: Option<LocalImageUrl>)
    ensures
        match local {
            Some(l) => local_image_of(url@) == Some(
                (
                    l.path@,
                    match l.fragment {
                        Some(f) => Some(f@),
                        None => None,
                    },
                ),
            ),
            None => local_image_of(url@) is None,
        },
{
    let v = chars_of(url);
    let n = v.len();
    if n == 0 || v[0] == '#' || v[0] == '/' || v[0] == '\\' || has_scheme(url) {
        return None;
    }
    let hash = find_char(&v, n, '#');
    assert(v@.subrange(0, n as int) =~= url@);
    let query = find_char(&v, hash, '?');
    assert(v@.subrange(0, hash as int).subrange(0, query as int) =~= url@.subrange(0, query as int));
    let path_url = url.substring_char(0, query);
    let decoded = percent_decode(path_url);
    let path = match decoded {
        Cow::Borrowed(p) => p.to_owned(),
        Cow::Owned(p) => p,
    };
    // A Markdown file should not be able to pull in a file from anywhere on the disk.
    if absolute_path(path.as_str()) {
        return None;
    }
    let fragment = if hash < n {
        Some(url.substring_char(hash + 1, n).to_owned())
    } else {
        None
    };
    Some(LocalImageUrl { path, fragment })
}

/// The Base64 digit of a value below 64, in the standard alphabet.
pub open spec fn base64_digit(x: int) -> char {
    if x < 26 {
        (65 + x) as char
    } else if x < 52 {
        (97 + x - 26) as char
    } else if x < 62 {
        (48 + x - 52) as char
    } else if x == 62 {
        '+'
    } else {
        '/'
    }
}

/// The standard Base64 encoding of some bytes, with `=` padding.
pub open spec fn base64_standard(bytes: Seq<u8>) -> Seq<char>
    decreases bytes.len(),
{
    let b0 = if bytes.len() > 0 { bytes[0] as int } else { 0 };
    let b1 = if bytes.len() > 1 { bytes[1] as int } else { 0 };
    let b2 = if bytes.len() > 2 { bytes[2] as int } else { 0 };
    if bytes.len() == 0 {
        seq![]
    } else if bytes.len() == 1 {
        seq![base64_digit(b0 / 4), base64_digit((b0 % 4) * 16), '=', '=']
    } else if bytes.len() == 2 {
        seq![
            base64_digit(b0 / 4),
            base64_digit((b0 % 4) * 16 + b1 / 16),
            base64_digit((b1 % 16) * 4),
            '=',
        ]
    } else {
        seq![
            base64_digit(b0 / 4),
            base64_digit((b0 % 4) * 16 + b1 / 16),
            base64_digit((b1 % 16) * 4 + b2 / 64),
            base64_digit(b2 % 64),
        ] + base64_standard(bytes.subrange(3, bytes.len() as int))
    }
}

/// Encode bytes in Base64.
///
/// Calls `Engine::encode` of the `STANDARD` engine of the `base64` crate, which encodes with the standard alphabet
/// of RFC 4648 and pads with `=`; the contract states that encoding.
#[verifier::external_body]
fn base64_encode(bytes: &[u8]) -> (encoded: String)
    ensures
        encoded@ == base64_standard(bytes@),
{
    base64::engine::general_purpose::STANDARD.encode(bytes)
}

/// The `data` URL of an image: its MIME type, its Base64-encoded bytes and the fragment of the URL it replaces.
pub open spec fn data_url_of(mime: Seq<char>, image: Seq<u8>, fragment: Option<Seq<char>>) -> Seq<char> {
    "data:"@ + mime + ";base64,"@ + base64_standard(image) + match fragment {
        Some(f) => "#"@ + f,
        None => Seq::empty(),
    }
}

/// Turn the bytes of an image into a `data` URL.
pub fn data_url(mime: &str, image: &[u8], fragment: Option<&str>) -> (url: String)
    ensures
        url@ == data_url_of(
            mime@,
            image@,
            match fragment {
                Some(f) => Some(f@),
                None => None,
            },
        ),
{
    let mut url = String::from_str("data:");
    url.append(mime);
    url.append(";base64,");
    let encoded = base64_encode(image);
    url.append(encoded.as_str());
    match fragment {
        Some(f) => {
            url.append("#");
            url.append(f);
        },
        None => {},
    }
    assert(url@ =~= data_url_of(
        mime@,
        image@,
        match fragment {
            Some(f) => Some(f@),
            None => None,
        },
    ));
    url
}

/// Where the file name of a path starts: after its last `/` or `\`, or at its start when it has none.
pub open spec fn file_name_start(path: Seq<char>) -> int
    decreases path.len(),
{
    if path.len() == 0 {
        0
    } else if path.last() == '/' || path.last() == '\\' {
        path.len() as int
    } else {
        file_name_start(path.drop_last())
    }
}

/// The index of the last `.` of a text, or -1 when it has none.
pub open spec fn last_dot(s: Seq<char>) -> int
    decreases s.len(),
{
    if s.len() == 0 {
        -1
    } else if s.last() == '.' {
        s.len() - 1
    } else {
        last_dot(s.drop_last())
    }
}

/// The extension of a path: what follows the last `.` of its file name, when that `.` does not start the name.
pub open spec fn path_extension(path: Seq<char>) -> Option<Seq<char>> {
    let name = path.subrange(file_name_start(path), path.len() as int);
    if last_dot(name) > 0 {
        Some(name.subrange(last_dot(name) + 1, name.len() as int))
    } else {
        None
    }
}

/// The MIME type of an image file, by the extension of its path.
pub open spec fn image_mime_of_path(path: Seq<char>) -> Option<Seq<char>> {
    match path_extension(path) {
        Some(extension) => image_mime_of(extension),
        None => None,
    }
}

proof fn lemma_file_name_start(path: Seq<char>, k: int)
    requires
        0 <= k <= path.len(),
        forall|j: int| k <= j < path.len() ==> path[j] != '/' && path[j] != '\\',
        k == 0 || path[k - 1] == '/' || path[k - 1] == '\\',
    ensures
        file_name_start(path) == k,
    decreases path.len(),
{
    if path.len() > k {
        lemma_file_name_start(path.drop_last(), k);
    }
}

proof fn lemma_last_dot(s: Seq<char>, k: int)
    requires
        -1 <= k < s.len(),
        forall|j: int| k < j < s.len() ==> s[j] != '.',
        k == -1 || s[k] == '.',
    ensures
        last_dot(s) == k,
    decreases s.len(),
{
    if s.len() > k + 1 {
        lemma_last_dot(s.drop_last(), k);
    }
}

/// Find where the file name of a path, given by its characters, starts.
pub(crate) fn file_name_index(v: &Vec<char>) -> (start: usize)
    ensures
        start == file_name_start(v@),
        start <= v@.len(),
{
    let n = v.len();
    let mut start: usize = n;
    while start > 0 && v[start - 1] != '/' && v[start - 1] != '\\'
        invariant
            n == v@.len(),
            start <= n,
            forall|j: int| start <= j < n ==> v@[j] != '/' && v@[j] != '\\',
        decreases start,
    {
        start -= 1;
    }
    proof {
        lemma_file_name_start(v@, start as int);
    }
    start
}

/// Find where the last `.` of the characters of a path from `start` on stands, or `start` when there is none: the
/// result is one past that `.`.
pub(crate) fn last_dot_index(v: &Vec<char>, start: usize) -> (dot: usize)
    requires
        start <= v@.len(),
    ensures
        start <= dot <= v@.len(),
        last_dot(v@.subrange(start as int, v@.len() as int)) == dot - start - 1,
{
    let n = v.len();
    let ghost name = v@.subrange(start as int, n as int);
    let mut dot: usize = n;
    while dot > start && v[dot - 1] != '.'
        invariant
            n == v@.len(),
            start <= dot <= n,
            forall|j: int| dot <= j < n ==> v@[j] != '.',
        decreases dot,
    {
        dot -= 1;
    }
    proof {
        assert forall|j: int| (dot - start) as int - 1 < j < name.len() implies name[j] != '.' by {
            assert(name[j] == v@[start + j]);
        }
        lemma_last_dot(name, dot - start - 1);
    }
    dot
}

/// Find the MIME type of an image file by the extension of its path.
pub fn path_image_mime(path: &str) -> (mime: Option<&'static str>)
    ensures
        match mime {
            Some(m) => image_mime_of_path(path@) == Some(m@),
            None => image_mime_of_path(path@) is None,
        },
{
    let v = chars_of(path);
    let n = v.len();
    let start = file_name_index(&v);
    let ghost name = path@.subrange(start as int, n as int);
    let dot = last_dot_index(&v, start);
    if dot - start > 1 {
        let extension = path.substring_char(dot, n);
        assert(extension@ =~= name.subrange(last_dot(name) + 1, name.len() as int));
        image_mime(extension)
    } else {
        None
    }
}

} // verus!
