//! The addresses of the add-on service, and what a download is called.

use crate::text::{decimal, push_decimal, to_chars};
use vstd::prelude::*;
use vstd::utf8::encode_utf8;

verus! {

/// Where the add-on service lives.
pub const BASE_URL: &'static str = "https://addons-ecs.forgesvc.net/api/v2";

/// The game whose add-ons are searched.
pub const GAME_ID: i32 = 432;

/// The section of the game's add-ons that holds the modpacks.
pub const SECTION_ID: i32 = 4471;

/// Whether the byte `b` may stand in a query as it is: an ASCII letter or
/// digit, or one of `-`, `.`, `_` and `~`.
pub open spec fn is_unreserved(b: u8) -> bool {
    ||| 0x30 <= b <= 0x39
    ||| 0x41 <= b <= 0x5a
    ||| 0x61 <= b <= 0x7a
    ||| b == 0x2d
    ||| b == 0x2e
    ||| b == 0x5f
    ||| b == 0x7e
}

/// The upper-case hexadecimal digit for `n`, for `n` below sixteen.
pub open spec fn hex_digit(n: nat) -> char {
    if n < 10 {
        (n + 48) as char
    } else {
        (n + 55) as char
    }
}

/// How the byte `b` is written in a query: as itself if it is unreserved,
/// else as a percent sign and its two hexadecimal digits.
pub open spec fn encoded_byte(b: u8) -> Seq<char> {
    if is_unreserved(b) {
        seq![b as char]
    } else {
        seq!['%', hex_digit((b / 16) as nat), hex_digit((b % 16) as nat)]
    }
}

/// `bytes` percent-encoded, byte by byte.
pub open spec fn percent_encoded(bytes: Seq<u8>) -> Seq<char>
    decreases bytes.len(),
{
    if bytes.len() == 0 {
        Seq::empty()
    } else {
        percent_encoded(bytes.drop_last()) + encoded_byte(bytes.last())
    }
}

/// Whether `c` can stand in a query without ending it or splitting it: a
/// percent sign or an unreserved character.
pub open spec fn is_query_safe(c: char) -> bool {
    c == '%' || (c as u32 <= 0x7f && is_unreserved(c as u8))
}

/// Percent-encoded text is safe in a query: each of its characters is a
/// percent sign or an unreserved character, whatever the bytes were.
pub proof fn lemma_percent_encoded_is_safe(bytes: Seq<u8>)
    ensures
        forall|i: int|
            0 <= i < percent_encoded(bytes).len() ==> is_query_safe(
                #[trigger] percent_encoded(bytes)[i],
            ),
    decreases bytes.len(),
{
    if bytes.len() > 0 {
        lemma_percent_encoded_is_safe(bytes.drop_last());
        let b = bytes.last();
        let head = percent_encoded(bytes.drop_last());
        let piece = encoded_byte(b);
        assert forall|i: int| 0 <= i < piece.len() implies is_query_safe(#[trigger] piece[i]) by {
            if !is_unreserved(b) {
                assert(0 <= b / 16 < 16 && 0 <= b % 16 < 16);
            }
        }
        assert forall|i: int| 0 <= i < percent_encoded(bytes).len() implies is_query_safe(
            #[trigger] percent_encoded(bytes)[i],
        ) by {
            if i < head.len() {
                assert(percent_encoded(bytes)[i] == head[i]);
            } else {
                assert(percent_encoded(bytes)[i] == piece[i - head.len()]);
            }
        }
    }
}

/// The number that the hexadecimal digit `c` stands for; zero for a
/// character that is none.
pub open spec fn hex_value(c: char) -> nat {
    if '0' <= c <= '9' {
        (c as u32 - 48) as nat
    } else if 'A' <= c <= 'F' {
        (c as u32 - 55) as nat
    } else if 'a' <= c <= 'f' {
        (c as u32 - 87) as nat
    } else {
        0
    }
}

/// The bytes that percent-encoded `text` stands for: a percent sign and the
/// two characters after it give one byte, any other character gives its own.
pub open spec fn percent_decoded(text: Seq<char>) -> Seq<u8>
    decreases text.len(),
{
    if text.len() == 0 {
        Seq::empty()
    } else if text[0] == '%' && text.len() >= 3 {
        seq![(hex_value(text[1]) * 16 + hex_value(text[2])) as u8] + percent_decoded(text.skip(3))
    } else {
        seq![text[0] as u8] + percent_decoded(text.drop_first())
    }
}

/// Decoding undoes encoding, also in front of more text.
proof fn lemma_percent_decoded_after(bytes: Seq<u8>, rest: Seq<char>)
    ensures
        percent_decoded(percent_encoded(bytes) + rest) == bytes + percent_decoded(rest),
    decreases bytes.len(),
{
    if bytes.len() > 0 {
        let b = bytes.last();
        let tail = encoded_byte(b) + rest;
        lemma_percent_decoded_after(bytes.drop_last(), tail);
        assert(percent_encoded(bytes) + rest =~= percent_encoded(bytes.drop_last()) + tail);
        if is_unreserved(b) {
            assert(tail.drop_first() =~= rest);
        } else {
            assert(tail.skip(3) =~= rest);
        }
    }
}

/// Percent-encoding loses nothing: decoding what was encoded gives the bytes
/// back.
pub proof fn lemma_percent_round_trip(bytes: Seq<u8>)
    ensures
        percent_decoded(percent_encoded(bytes)) == bytes,
{
    lemma_percent_decoded_after(bytes, Seq::empty());
}

/// Whether the byte `b` may stand in a query as it is.
pub fn unreserved(b: u8) -> (r: bool)
    ensures
        r == is_unreserved(b),
{
    (0x30 <= b && b <= 0x39) || (0x41 <= b && b <= 0x5a) || (0x61 <= b && b <= 0x7a) || b == 0x2d
        || b == 0x2e || b == 0x5f || b == 0x7e
}

fn hex(n: u8) -> (c: char)
    requires
        n < 16,
    ensures
        c == hex_digit(n as nat),
{
    if n < 10 {
        (n + 48) as char
    } else {
        (n + 55) as char
    }
}

/// Appends the UTF-8 bytes of `text`, percent-encoded, to `out`.
pub fn push_percent_encoded(out: &mut String, text: &str)
    ensures
        final(out)@ == old(out)@ + percent_encoded(encode_utf8(text@)),
{
    let bytes = text.as_bytes();
    let mut i: usize = 0;
    while i < bytes.len()
        invariant
            i <= bytes.len(),
            bytes@ == encode_utf8(text@),
            out@ == old(out)@ + percent_encoded(bytes@.take(i as int)),
        decreases bytes.len() - i,
    {
        let b: u8 = bytes[i];
        assert(bytes@.take(i + 1).drop_last() =~= bytes@.take(i as int));
        if unreserved(b) {
            out.push(b as char);
        } else {
            out.push('%');
            out.push(hex(b / 16));
            out.push(hex(b % 16));
        }
        i = i + 1;
    }
    assert(bytes@.take(i as int) =~= bytes@);
}

/// The address that searches the modpacks for `term` and asks for at most
/// `page_size` of them. The term goes in percent-encoded.
pub open spec fn spec_search_url(term: Seq<char>, page_size: u64) -> Seq<char> {
    BASE_URL@ + "/addon/search?gameId="@ + decimal(GAME_ID as nat) + "&sectionId="@ + decimal(
        SECTION_ID as nat,
    ) + "&pageSize="@ + decimal(page_size as nat) + "&searchFilter="@ + percent_encoded(
        encode_utf8(term),
    )
}

/// The address of the project `id`.
pub open spec fn spec_project_url(id: u64) -> Seq<char> {
    BASE_URL@ + "/addon/"@ + decimal(id as nat)
}

/// The address of the file `file_id` of the project `project_id`.
pub open spec fn spec_file_url(project_id: u64, file_id: u64) -> Seq<char> {
    spec_project_url(project_id) + "/file/"@ + decimal(file_id as nat)
}

/// The address that answers with the place from which the file `file_id` of
/// the project `project_id` can be downloaded.
pub open spec fn spec_download_url_endpoint(project_id: u64, file_id: u64) -> Seq<char> {
    spec_file_url(project_id, file_id) + "/download-url"@
}

/// The address that searches the modpacks for `term`.
pub fn search_url(term: &str, page_size: u64) -> (url: String)
    ensures
        url@ == spec_search_url(term@, page_size),
{
    let mut url = String::from_str(BASE_URL);
    url.append("/addon/search?gameId=");
    push_decimal(&mut url, GAME_ID as u64);
    url.append("&sectionId=");
    push_decimal(&mut url, SECTION_ID as u64);
    url.append("&pageSize=");
    push_decimal(&mut url, page_size);
    url.append("&searchFilter=");
    push_percent_encoded(&mut url, term);
    url
}

/// The address of the project `id`.
pub fn project_url(id: u64) -> (url: String)
    ensures
        url@ == spec_project_url(id),
{
    let mut url = String::from_str(BASE_URL);
    url.append("/addon/");
    push_decimal(&mut url, id);
    url
}

/// The address of the file `file_id` of the project `project_id`.
pub fn file_url(project_id: u64, file_id: u64) -> (url: String)
    ensures
        url@ == spec_file_url(project_id, file_id),
{
    let mut url = project_url(project_id);
    url.append("/file/");
    push_decimal(&mut url, file_id);
    url
}

/// The address that answers with the download address of a file.
pub fn download_url_endpoint(project_id: u64, file_id: u64) -> (url: String)
    ensures
        url@ == spec_download_url_endpoint(project_id, file_id),
{
    let mut url = file_url(project_id, file_id);
    url.append("/download-url");
    url
}

/// What follows the last `/` of `path`: all of `path` if it has none, and
/// nothing if it ends in one.
pub open spec fn last_segment(path: Seq<char>) -> Seq<char>
    decreases path.len(),
{
    if path.len() == 0 || path.last() == '/' {
        Seq::empty()
    } else {
        last_segment(path.drop_last()).push(path.last())
    }
}

/// The last segment of a path is its longest end without a `/`: it is an
/// end of the path, it holds no `/`, and what stands before it is nothing or
/// ends in `/`.
pub proof fn lemma_last_segment(path: Seq<char>)
    ensures
        last_segment(path).len() <= path.len(),
        last_segment(path) == path.subrange(
            path.len() - last_segment(path).len(),
            path.len() as int,
        ),
        forall|i: int| 0 <= i < last_segment(path).len() ==> last_segment(path)[i] != '/',
        last_segment(path).len() == path.len() || path[path.len() - last_segment(path).len() - 1]
            == '/',
    decreases path.len(),
{
    if path.len() > 0 && path.last() != '/' {
        lemma_last_segment(path.drop_last());
    }
}

/// The name under which what `url` points to is saved when none is given: the
/// last segment of `url`, in the current directory.
pub fn file_name_from_url(url: &str) -> (name: String)
    ensures
        name@ == "./"@ + last_segment(url@),
{
    let chars = to_chars(url);
    let len: usize = chars.len();
    let mut cut: usize = len;
    assert(chars@.take(len as int) =~= chars@);
    while cut > 0 && chars[cut - 1] != '/'
        invariant
            cut <= len == chars.len(),
            last_segment(chars@) == last_segment(chars@.take(cut as int)) + chars@.subrange(
                cut as int,
                len as int,
            ),
        decreases cut,
    {
        assert(chars@.take(cut as int).drop_last() =~= chars@.take(cut - 1));
        cut = cut - 1;
    }
    let mut name = String::from_str("./");
    let mut i: usize = cut;
    while i < len
        invariant
            cut <= i <= len == chars.len(),
            name@ == "./"@ + chars@.subrange(cut as int, i as int),
        decreases len - i,
    {
        name.push(chars[i]);
        i = i + 1;
    }
    name
}

/// Where a download from `url` is saved: under `file_name` if one is given,
/// else under the name that `url` ends in, in the current directory.
pub fn destination(file_name: Option<&str>, url: &str) -> (path: String)
    ensures
        path@ == match file_name {
            Some(name) => name@,
            None => "./"@ + last_segment(url@),
        },
{
    match file_name {
        Some(name) => String::from_str(name),
        None => file_name_from_url(url),
    }
}

} // verus!
