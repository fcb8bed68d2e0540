//! Cached page contents: the file that keeps a page, named by the SHA-256
//! of its URL, and the record kept in it.

use vstd::prelude::*;
use sha2::Digest;
use crate::text::{byte_len, owned, push_char, push_str};

verus! {

/// What SHA-256 gives for a sequence of bytes.
pub uninterp spec fn sha256_of(data: Seq<u8>) -> Seq<u8>;

/// `sha2::Sha256::digest`: the SHA-256 digest of the bytes, 32 bytes long.
#[verifier::external_body]
fn sha256(data: &[u8]) -> (r: Vec<u8>)
    ensures
        r@ == sha256_of(data@),
        r@.len() == 32,
{
    sha2::Sha256::digest(data).to_vec()
}

/// The lower-case hexadecimal digit for `d < 16`.
pub open spec fn hex_digit(d: nat) -> char {
    if d < 10 {
        ((d + 48) as u32) as char
    } else {
        ((d + 87) as u32) as char
    }
}

/// Bytes in lower-case hexadecimal, two digits each.
pub open spec fn hex_text(bytes: Seq<u8>) -> Seq<char>
    decreases bytes.len(),
{
    if bytes.len() == 0 {
        Seq::empty()
    } else {
        hex_text(bytes.drop_last()) + seq![hex_digit((bytes.last() / 16) as nat), hex_digit((bytes.last() % 16) as nat)]
    }
}

fn hex_char(d: u8) -> (c: char)
    requires
        d < 16,
    ensures
        c == hex_digit(d as nat),
{
    if d < 10 {
        (d + 48) as char
    } else {
        (d + 87) as char
    }
}

/// Writes bytes in lower-case hexadecimal.
pub fn to_hex(bytes: &[u8]) -> (r: String)
    ensures
        r@ == hex_text(bytes@),
{
    let mut r = String::new();
    let mut i: usize = 0;
    while i < bytes.len()
        invariant
            0 <= i <= bytes.len(),
            r@ == hex_text(bytes@.take(i as int)),
        decreases bytes.len() - i,
    {
        let b = bytes[i];
        assert(bytes@.take(i as int + 1).drop_last() =~= bytes@.take(i as int));
        push_char(&mut r, hex_char(b / 16));
        push_char(&mut r, hex_char(b % 16));
        assert(r@ =~= hex_text(bytes@.take(i as int + 1)));
        i = i + 1;
    }
    assert(bytes@.take(bytes.len() as int) =~= bytes@);
    r
}

/// The name of the file that caches the page of a URL: the SHA-256 of the
/// URL's UTF-8 bytes in hexadecimal, then `.json`.
pub open spec fn cache_file_name(url: Seq<char>) -> Seq<char> {
    hex_text(sha256_of(vstd::utf8::encode_utf8(url))) + ".json"@
}

/// A lower-case hexadecimal digit.
pub open spec fn is_hex_digit(c: char) -> bool {
    ('0' <= c <= '9') || ('a' <= c <= 'f')
}

/// Hexadecimal text has two digits per byte.
pub proof fn lemma_hex_text(bytes: Seq<u8>)
    ensures
        hex_text(bytes).len() == 2 * bytes.len(),
        forall|i: int| 0 <= i < hex_text(bytes).len() ==> is_hex_digit(#[trigger] hex_text(bytes)[i]),
    decreases bytes.len(),
{
    if bytes.len() > 0 {
        let p = bytes.drop_last();
        lemma_hex_text(p);
        let hi = (bytes.last() / 16) as nat;
        let lo = (bytes.last() % 16) as nat;
        assert(is_hex_digit(hex_digit(hi)) && is_hex_digit(hex_digit(lo)));
        let t = hex_text(bytes);
        assert forall|i: int| 0 <= i < t.len() implies is_hex_digit(#[trigger] t[i]) by {
            if i < hex_text(p).len() {
                assert(t[i] == hex_text(p)[i]);
            }
        }
    }
}

/// The cache file name for a URL: 64 lower-case hexadecimal digits, then
/// `.json`.
pub fn generate_cache_filename(url: &str) -> (r: String)
    ensures
        r@ == cache_file_name(url@),
        r@.len() == 69,
        forall|i: int| 0 <= i < 64 ==> is_hex_digit(#[trigger] r@[i]),
        r@.skip(64) == ".json"@,
{
    proof {
        reveal_strlit(".json");
    }
    let digest = sha256(url.as_bytes());
    let mut r = to_hex(digest.as_slice());
    proof {
        lemma_hex_text(digest@);
    }
    let ghost h = r@;
    push_str(&mut r, ".json");
    assert(r@.skip(64) =~= ".json"@);
    assert forall|i: int| 0 <= i < 64 implies is_hex_digit(#[trigger] r@[i]) by {
        assert(r@[i] == h[i]);
    }
    r
}

/// A cached page.
#[derive(Debug, Clone)]
pub struct PageCache {
    pub url: String,
    pub title: String,
    pub content: String,
    pub timestamp: i64,
    /// Length of the content in bytes.
    pub content_length: usize,
}

/// The record that caches a page at the given time.
pub fn page_cache_record(url: &str, title: &str, content: &str, timestamp: i64) -> (r: PageCache)
    ensures
        r.url@ == url@,
        r.title@ == title@,
        r.content@ == content@,
        r.timestamp == timestamp,
        r.content_length == crate::text::utf8_len(content@),
{
    PageCache {
        url: owned(url),
        title: owned(title),
        content: owned(content),
        timestamp,
        content_length: byte_len(content),
    }
}

/// The directory the user chose for cached pages, where one was chosen: a
/// path that is empty counts as none.
pub fn chosen_data_dir(custom_path: Option<&str>) -> (r: Option<String>)
    ensures
        match custom_path {
            Some(p) => if p@.len() > 0 {
                r matches Some(d) && d@ == p@
            } else {
                r is None
            },
            None => r is None,
        },
{
    match custom_path {
        Some(p) => {
            if crate::text::is_empty_text(p) {
                None
            } else {
                Some(owned(p))
            }
        },
        None => None,
    }
}

/// Whether a character separates the components of a path on the platform.
pub open spec fn is_path_separator(c: char, windows: bool) -> bool {
    c == '/' || (windows && c == '\\')
}

/// The default directory of cached pages, under the temporary directory:
/// `cosurf/data/pages`, with the platform's separator.
pub open spec fn default_data_dir(temp_dir: Seq<char>, windows: bool) -> Seq<char> {
    let sep: Seq<char> = if windows { seq!['\\'] } else { seq!['/'] };
    let base = if temp_dir.len() > 0 && !is_path_separator(temp_dir.last(), windows) {
        temp_dir + sep
    } else {
        temp_dir
    };
    base + "cosurf"@ + sep + "data"@ + sep + "pages"@
}

/// The directory of cached pages: the one the user chose, else
/// `cosurf/data/pages` under the temporary directory.
pub fn get_user_data_dir(custom_path: Option<&str>, temp_dir: &str, windows: bool) -> (r: String)
    ensures
        r@ == match custom_path {
            Some(p) => if p@.len() > 0 {
                p@
            } else {
                default_data_dir(temp_dir@, windows)
            },
            None => default_data_dir(temp_dir@, windows),
        },
{
    if let Some(d) = chosen_data_dir(custom_path) {
        return d;
    }
    let sep = if windows { '\\' } else { '/' };
    let mut r = owned(temp_dir);
    let chars = crate::text::chars_of(temp_dir);
    let n = chars.len();
    if n > 0 {
        let last = chars[n - 1];
        if !(last == '/' || (windows && last == '\\')) {
            push_char(&mut r, sep);
        }
    }
    push_str(&mut r, "cosurf");
    push_char(&mut r, sep);
    push_str(&mut r, "data");
    push_char(&mut r, sep);
    push_str(&mut r, "pages");
    proof {
        let s: Seq<char> = if windows { seq!['\\'] } else { seq!['/'] };
        assert(seq![sep] =~= s);
    }
    r
}

/// Seconds after which a cached page expires where the caller names no age.
pub open spec fn default_max_age_seconds() -> int {
    86400
}

/// Whether a cache file of the given age, in seconds, has expired.
pub fn cache_expired(age_seconds: i64, max_age_seconds: Option<i64>) -> (r: bool)
    ensures
        r == (age_seconds > match max_age_seconds {
            Some(m) => m as int,
            None => default_max_age_seconds(),
        }),
{
    let max_age = match max_age_seconds {
        Some(m) => m,
        None => 86400,
    };
    age_seconds > max_age
}

} // verus!
