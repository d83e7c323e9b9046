//! Where the SHA256 of a download comes from: a checksum page read with a
//! regex, a JSON document read along a path, or the download itself.
use vstd::prelude::*;
use crate::manifest::HashConfig;
use crate::outside_text::opt_view;
use crate::providers::{capture_first_group, capture_group_1};
use crate::sharpcap::{hex_of, push_hex};
use crate::text::{chars_of, has_prefix, split_chars, split_on, string_from_chars, string_from_str};

verus! {

/// How the hash of a download is found.
#[derive(Debug)]
pub enum HashMethod {
    /// Fetch the page at the URL template (filled with the version) and take
    /// group 1 of the regex.
    UrlRegex { url_template: String, regex: String },
    /// Fetch the JSON document at the URL template and read the string at the path.
    JsonPath { url_template: String, path: String },
    /// Download the file and hash it.
    Download,
}

/// The method a hash configuration calls for: none without configuration; a
/// page and regex when both are given; else a JSON path when it and a URL are
/// given; else hashing the download.
pub open spec fn is_hash_method(config: Option<HashConfig>, r: Option<HashMethod>) -> bool {
    match config {
        None => r is None,
        Some(c) => match (c.url, c.regex, c.jsonpath) {
            (Some(u), Some(x), _) => r matches Some(HashMethod::UrlRegex { url_template, regex })
                && url_template@ == u@ && regex@ == x@,
            (Some(u), None, Some(p)) => r matches Some(HashMethod::JsonPath { url_template, path })
                && url_template@ == u@ && path@ == p@,
            _ => r matches Some(HashMethod::Download),
        },
    }
}

/// Discover how to find the SHA256 hash for a download: one method per
/// manifest based on which fields are present.
pub fn hash_method(config: Option<&HashConfig>) -> (r: Option<HashMethod>)
    ensures
        is_hash_method(
            match config {
                Some(c) => Some(*c),
                None => None,
            },
            r,
        ),
{
    let c = match config {
        Some(c) => c,
        None => return None,
    };
    match (&c.url, &c.regex, &c.jsonpath) {
        (Some(u), Some(x), _) => Some(HashMethod::UrlRegex {
            url_template: string_from_str(u.as_str()),
            regex: string_from_str(x.as_str()),
        }),
        (Some(u), None, Some(p)) => Some(HashMethod::JsonPath {
            url_template: string_from_str(u.as_str()),
            path: string_from_str(p.as_str()),
        }),
        _ => Some(HashMethod::Download),
    }
}

/// The hash on a checksum page: group 1 of the regex; nothing when the regex
/// does not compile or does not capture.
pub fn hash_from_body(body: &str, regex: &str) -> (r: Option<String>)
    ensures
        opt_view(r) == match capture_group_1(regex@, body@) {
            Ok(Some(h)) => Some(h),
            _ => None,
        },
{
    match capture_first_group(regex, body) {
        Ok(Some(h)) => Some(h),
        _ => None,
    }
}

/// `s` without every leading repetition of `p` (std `str::trim_start_matches`).
pub open spec fn trim_leading(s: Seq<char>, p: Seq<char>) -> Seq<char>
    decreases s.len(),
{
    if p.len() > 0 && has_prefix(s, p) {
        trim_leading(s.skip(p.len() as int), p)
    } else {
        s
    }
}

/// The keys of a simple JSON path: without the leading `$.`, split at dots.
pub open spec fn path_keys(path: Seq<char>) -> Seq<Seq<char>> {
    split_on(trim_leading(path, "$."@), '.')
}

/// The keys of a simple JSON path (`$.a.b` gives `a` and `b`).
pub fn jsonpath_keys(path: &str) -> (r: Vec<String>)
    ensures
        r@.map_values(|s: String| s@) == path_keys(path@),
{
    let v = chars_of(path);
    let mut i: usize = 0;
    proof {
        reveal_strlit("$.");
        assert(v@.skip(0) =~= v@);
    }
    while v.len() - i >= 2 && v[i] == '$' && v[i + 1] == '.'
        invariant
            v@ == path@,
            i <= v@.len(),
            trim_leading(path@, "$."@) == trim_leading(v@.skip(i as int), "$."@),
        decreases v@.len() - i,
    {
        proof {
            reveal_strlit("$.");
            let t = v@.skip(i as int);
            assert(t.take(2) =~= "$."@);
            assert(t.skip(2) =~= v@.skip(i + 2));
        }
        i = i + 2;
    }
    proof {
        reveal_strlit("$.");
        let t = v@.skip(i as int);
        if t.len() >= 2 && t.take(2) == "$."@ {
            assert(t[0] == t.take(2)[0] && t[1] == t.take(2)[1]);
        }
    }
    let rest = crate::text::copy_range(v.as_slice(), i, v.len());
    proof {
        assert(rest@ =~= v@.skip(i as int));
    }
    let pieces = split_chars(rest.as_slice(), '.');
    let mut out: Vec<String> = Vec::new();
    let mut k: usize = 0;
    while k < pieces.len()
        invariant
            k <= pieces@.len(),
            pieces@.len() == split_on(rest@, '.').len(),
            forall|j: int| 0 <= j < pieces@.len() ==> #[trigger] pieces@[j]@ == split_on(rest@, '.')[j],
            out@.map_values(|s: String| s@) == split_on(rest@, '.').take(k as int),
        decreases pieces@.len() - k,
    {
        let ghost old_out = out@;
        let piece = string_from_chars(pieces[k].as_slice());
        proof {
            assert(piece@ == split_on(rest@, '.')[k as int]);
        }
        out.push(piece);
        proof {
            assert(out@.map_values(|s: String| s@) =~= old_out.map_values(|s: String| s@).push(piece@));
            assert(split_on(rest@, '.').take(k + 1) =~= split_on(rest@, '.').take(k as int).push(piece@));
        }
        k = k + 1;
    }
    proof {
        assert(split_on(rest@, '.').take(pieces@.len() as int) =~= split_on(rest@, '.'));
    }
    out
}

/// A JSON document as plain values.
#[derive(Debug)]
pub enum JsonValue {
    Null,
    Bool(bool),
    /// A number, as its text.
    Number(String),
    Str(String),
    Array(Vec<JsonValue>),
    /// An object's members; each key at most once.
    Object(Vec<(String, JsonValue)>),
}

/// The value of the first member with the given key.
pub open spec fn member(fields: Seq<(String, JsonValue)>, key: Seq<char>) -> Option<JsonValue>
    decreases fields.len(),
{
    if fields.len() == 0 {
        None
    } else if fields[0].0@ == key {
        Some(fields[0].1)
    } else {
        member(fields.drop_first(), key)
    }
}

/// The value reached by following object keys from `v` (`serde_json::Value::get`
/// at each step: only objects have members).
pub open spec fn value_at(v: JsonValue, keys: Seq<Seq<char>>) -> Option<JsonValue>
    decreases keys.len(),
{
    if keys.len() == 0 {
        Some(v)
    } else {
        match v {
            JsonValue::Object(fields) => match member(fields@, keys[0]) {
                Some(c) => value_at(c, keys.drop_first()),
                None => None,
            },
            _ => None,
        }
    }
}

/// The string reached by following object keys, if a string is there.
pub open spec fn string_at(v: JsonValue, keys: Seq<Seq<char>>) -> Option<Seq<char>> {
    match value_at(v, keys) {
        Some(JsonValue::Str(s)) => Some(s@),
        _ => None,
    }
}

fn find_member<'a>(fields: &'a Vec<(String, JsonValue)>, key: &str) -> (r: Option<&'a JsonValue>)
    ensures
        match member(fields@, key@) {
            Some(c) => r matches Some(x) && *x == c,
            None => r is None,
        },
{
    let mut i: usize = 0;
    proof {
        assert(fields@.skip(0) =~= fields@);
    }
    while i < fields.len()
        invariant
            i <= fields@.len(),
            member(fields@, key@) == member(fields@.skip(i as int), key@),
        decreases fields@.len() - i,
    {
        proof {
            assert(fields@.skip(i as int).drop_first() =~= fields@.skip(i + 1));
            assert(fields@.skip(i as int)[0] == fields@[i as int]);
        }
        if crate::text::str_equals(fields[i].0.as_str(), key) {
            return Some(&fields[i].1);
        }
        i = i + 1;
    }
    proof {
        assert(fields@.skip(i as int).len() == 0);
    }
    None
}

/// The hash in a JSON document: the string found by following the keys.
pub fn json_string_at(doc: &JsonValue, keys: &Vec<String>) -> (r: Option<String>)
    ensures
        opt_view(r) == string_at(*doc, keys@.map_values(|s: String| s@)),
{
    let ghost ks = keys@.map_values(|s: String| s@);
    let mut cur: &JsonValue = doc;
    let mut i: usize = 0;
    proof {
        assert(ks.skip(0) =~= ks);
    }
    while i < keys.len()
        invariant
            i <= keys@.len(),
            ks == keys@.map_values(|s: String| s@),
            string_at(*doc, ks) == string_at(*cur, ks.skip(i as int)),
        decreases keys@.len() - i,
    {
        proof {
            assert(ks.skip(i as int).drop_first() =~= ks.skip(i + 1));
            assert(ks.skip(i as int)[0] == keys@[i as int]@);
        }
        match cur {
            JsonValue::Object(fields) => match find_member(fields, keys[i].as_str()) {
                Some(c) => {
                    cur = c;
                },
                None => return None,
            },
            _ => return None,
        }
        i = i + 1;
    }
    proof {
        assert(ks.skip(i as int).len() == 0);
    }
    match cur {
        JsonValue::Str(s) => Some(string_from_str(s.as_str())),
        _ => None,
    }
}

/// The SHA-256 digest of some bytes, as `sha2` computes it.
pub uninterp spec fn sha256_of(bytes: Seq<u8>) -> Seq<u8>;

/// Hashes bytes with `sha2::Sha256::digest`; the digest has 32 bytes.
#[verifier::external_body]
fn sha256_digest(bytes: &[u8]) -> (r: Vec<u8>)
    ensures
        r@ == sha256_of(bytes@),
        r@.len() == 32,
{
    <sha2::Sha256 as sha2::Digest>::digest(bytes).to_vec()
}

/// The SHA256 of a download, as 64 lower-case hexadecimal digits.
pub fn sha256_hex(bytes: &[u8]) -> (r: String)
    ensures
        r@ == hex_of(sha256_of(bytes@)),
        r@.len() == 64,
{
    let digest = sha256_digest(bytes);
    let mut out: Vec<char> = Vec::new();
    push_hex(&mut out, digest.as_slice(), 0, digest.len());
    proof {
        assert(digest@.subrange(0, digest@.len() as int) =~= digest@);
        crate::sharpcap::lemma_hex_len(digest@);
    }
    string_from_chars(out.as_slice())
}

} // verus!
