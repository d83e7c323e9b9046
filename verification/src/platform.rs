//! Calls into std for UTF-8 decoding and file name extensions.
use vstd::prelude::*;
use vstd::utf8::{decode_utf8, valid_utf8};
use crate::outside_text::opt_view;

verus! {

/// Decodes UTF-8 bytes (std `str::from_utf8`): `Some` exactly for valid UTF-8,
/// holding the decoded characters.
#[verifier::external_body]
pub(crate) fn utf8_decode(bytes: &[u8]) -> (r: Option<String>)
    ensures
        r is Some <==> valid_utf8(bytes@),
        r matches Some(s) ==> s@ == decode_utf8(bytes@),
{
    match std::str::from_utf8(bytes) {
        Ok(s) => Some(s.to_string()),
        Err(_) => None,
    }
}

/// Whether `c` separates path components on some platform (`/` everywhere,
/// `\` on Windows).
pub open spec fn is_path_separator(c: char) -> bool {
    c == '/' || c == '\\'
}

/// Whether the `.` at `n` starts a plain extension of `p`: `p` does not begin
/// with two separators (no Windows UNC, device or verbatim prefix), the `.` is
/// preceded by a character that is neither a separator nor `:`, and what
/// follows it is non-empty and holds no `.`, separator or `:`. Such a path has
/// the same file name ending and extension in Unix and in Windows syntax.
pub open spec fn plain_extension_at(p: Seq<char>, n: int) -> bool {
    &&& 1 <= n && n + 1 < p.len()
    &&& p[n] == '.'
    &&& !is_path_separator(p[n - 1]) && p[n - 1] != ':'
    &&& !(is_path_separator(p[0]) && is_path_separator(p[1]))
    &&& forall|j: int| n < j < p.len() ==> #[trigger] p[j] != '.' && !is_path_separator(p[j]) && p[j] != ':'
}

/// The plain extension a path ends in, if it ends in one.
pub open spec fn plain_extension(p: Seq<char>) -> Option<Seq<char>> {
    if exists|n: int| plain_extension_at(p, n) {
        let n = choose|n: int| plain_extension_at(p, n);
        Some(p.subrange(n + 1, p.len() as int))
    } else {
        None
    }
}

/// A path ends in at most one plain extension: the one after its last `.`.
pub proof fn lemma_plain_extension_at_last(p: Seq<char>, n: int)
    requires
        plain_extension_at(p, n),
    ensures
        plain_extension(p) == Some(p.subrange(n + 1, p.len() as int)),
{
    let m = choose|m: int| plain_extension_at(p, m);
    if m < n {
        assert(p[n] != '.');
    } else if n < m {
        assert(p[m] != '.');
    }
}

/// Whether the character at `j` of what follows a file name is a separator,
/// or a `.` that forms a component of its own (between separators, or after
/// a separator at the end).
pub open spec fn trailing_char_ok(t: Seq<char>, j: int) -> bool {
    is_path_separator(t[j]) || (t[j] == '.' && j > 0 && is_path_separator(t[j - 1]) && (j + 1 == t.len()
        || is_path_separator(t[j + 1])))
}

/// Whether `t` is made of separators and `.` components only: what may
/// follow the final component of a path.
pub open spec fn only_separators_and_dots(t: Seq<char>) -> bool {
    forall|j: int| 0 <= j < t.len() ==> #[trigger] trailing_char_ok(t, j)
}

/// Whether a path begins with the Windows verbatim prefix `\\?\`, under
/// which `/` does not separate components.
pub open spec fn has_verbatim_prefix(p: Seq<char>) -> bool {
    p.len() >= 4 && p[0] == '\\' && p[1] == '\\' && p[2] == '?' && p[3] == '\\'
}

/// Whether `e` follows the `.` at `i` of `p` as the extension of its final
/// component: the `.` is not the first character of that component (a name
/// that begins with its only `.` has no extension), so something precedes it
/// that is not `/` (which separates components everywhere but under a
/// verbatim prefix); `e` holds no `.`; and after it come only separators and
/// `.` components.
pub open spec fn extension_at(p: Seq<char>, i: int, e: Seq<char>) -> bool {
    &&& 0 < i && i + 1 + e.len() <= p.len()
    &&& p[i] == '.'
    &&& (p[i - 1] == '/' ==> has_verbatim_prefix(p))
    &&& p.subrange(i + 1, i + 1 + e.len()) == e
    &&& forall|j: int| 0 <= j < e.len() ==> #[trigger] e[j] != '.'
    &&& only_separators_and_dots(p.subrange(i + 1 + e.len(), p.len() as int))
}

/// Whether `e` is the extension of the final component of `p`, after its
/// trailing separators and `.` components, in some platform's syntax.
pub open spec fn is_final_extension(p: Seq<char>, e: Seq<char>) -> bool {
    exists|i: int| #[trigger] extension_at(p, i, e)
}

/// The extension of the file name of a path (std `Path::extension`). What it
/// is depends on the platform's path syntax (which characters separate
/// components, which prefixes are recognised). On every platform it is the
/// part of the file name (the final component, which only separators and `.`
/// components may follow) after its last `.`, and there is none when the file
/// name begins with its only `.` (see `extension_at`). And where the path ends in a plain
/// extension (`plain_extension_at`), the documented rule (the part of the
/// final component after its last `.`, unless that component begins with its
/// only `.`) gives that extension on every platform, which is stated too.
#[verifier::external_body]
pub(crate) fn path_extension(path: &str) -> (r: Option<String>)
    ensures
        r matches Some(e) ==> is_final_extension(path@, e@),
        plain_extension(path@) is Some ==> opt_view(r) == plain_extension(path@),
{
    std::path::Path::new(path).extension().map(|e| e.to_string_lossy().into_owned())
}

} // verus!
