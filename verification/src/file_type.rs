//! Recognising installer kinds from the first bytes of a download.
use vstd::prelude::*;
use vstd::slice::{slice_subrange, slice_to_vec};
use vstd::utf8::{decode_utf8, valid_utf8};
use crate::audit_types::FileType;
use crate::platform::{is_final_extension, lemma_plain_extension_at_last, path_extension, plain_extension_at, utf8_decode};
use crate::text::chars_of;

verus! {

/// Minimum bytes needed for magic byte detection.
pub const MIN_DETECTION_BYTES: usize = 8;

/// Whether `n` occurs in `h` starting at `i`.
pub open spec fn bytes_at(h: Seq<u8>, i: int, n: Seq<u8>) -> bool {
    0 <= i && i + n.len() <= h.len() && h.subrange(i, i + n.len()) == n
}

/// The first position at or after `i` where `n` occurs in `h`, or -1.
pub open spec fn first_match_from(h: Seq<u8>, n: Seq<u8>, i: int) -> int
    decreases h.len() + 1 - i,
{
    if i < 0 || i + n.len() > h.len() {
        -1
    } else if bytes_at(h, i, n) {
        i
    } else {
        first_match_from(h, n, i + 1)
    }
}

/// The first position of a non-empty `n` in `h` (the first window of `h`
/// equal to `n`).
pub open spec fn find_bytes_spec(h: Seq<u8>, n: Seq<u8>) -> Option<int> {
    if n.len() == 0 || n.len() > h.len() {
        None
    } else {
        let r = first_match_from(h, n, 0);
        if r < 0 {
            None
        } else {
            Some(r)
        }
    }
}

/// Whether a non-empty `n` occurs in `h`.
pub open spec fn contains_bytes_spec(h: Seq<u8>, n: Seq<u8>) -> bool {
    find_bytes_spec(h, n) is Some
}

proof fn lemma_first_match_from(h: Seq<u8>, n: Seq<u8>, i: int)
    requires
        0 <= i,
    ensures
        first_match_from(h, n, i) == -1 || (i <= first_match_from(h, n, i) && first_match_from(h, n, i) + n.len() <= h.len()),
    decreases h.len() + 1 - i,
{
    if !(i + n.len() > h.len()) && !bytes_at(h, i, n) {
        lemma_first_match_from(h, n, i + 1);
    }
}

fn bytes_equal_at(h: &[u8], i: usize, n: &[u8]) -> (r: bool)
    requires
        i + n@.len() <= h@.len(),
    ensures
        r == bytes_at(h@, i as int, n@),
{
    assert(h@.len() == h.len());
    let mut j: usize = 0;
    while j < n.len()
        invariant
            i + n@.len() <= h@.len(),
            h@.len() <= usize::MAX,
            j <= n@.len(),
            forall|k: int| 0 <= k < j ==> h@[i + k] == n@[k],
        decreases n@.len() - j,
    {
        if h[i + j] != n[j] {
            proof {
                assert(h@.subrange(i as int, i + n@.len())[j as int] != n@[j as int]);
            }
            return false;
        }
        j = j + 1;
    }
    proof {
        assert(h@.subrange(i as int, i + n@.len()) =~= n@);
    }
    true
}

fn find_bytes(haystack: &[u8], needle: &[u8]) -> (r: Option<usize>)
    ensures
        match r {
            Some(i) => find_bytes_spec(haystack@, needle@) == Some(i as int),
            None => find_bytes_spec(haystack@, needle@) is None,
        },
{
    if needle.len() == 0 || needle.len() > haystack.len() {
        return None;
    }
    let last = haystack.len() - needle.len();
    assert(haystack@.len() == haystack.len());
    let mut i: usize = 0;
    while i <= last
        invariant
            needle@.len() > 0,
            last + needle@.len() == haystack@.len(),
            haystack@.len() <= usize::MAX,
            i <= last + 1,
            first_match_from(haystack@, needle@, 0) == first_match_from(haystack@, needle@, i as int),
        decreases last + 1 - i,
    {
        if bytes_equal_at(haystack, i, needle) {
            return Some(i);
        }
        i = i + 1;
    }
    None
}

fn contains_bytes(haystack: &[u8], needle: &[u8]) -> (r: bool)
    ensures
        r == contains_bytes_spec(haystack@, needle@),
{
    find_bytes(haystack, needle).is_some()
}

/// The `NullsoftInst` marker of NSIS installers.
pub open spec fn nullsoft_marker() -> Seq<u8> {
    seq![0x4Eu8, 0x75, 0x6C, 0x6C, 0x73, 0x6F, 0x66, 0x74, 0x49, 0x6E, 0x73, 0x74]
}

/// The `EF BE AD DE` magic of NSIS installers.
pub open spec fn nsis_magic() -> Seq<u8> {
    seq![0xEFu8, 0xBE, 0xAD, 0xDE]
}

/// The `Inno Setup` marker.
pub open spec fn inno_marker() -> Seq<u8> {
    seq![0x49u8, 0x6E, 0x6E, 0x6F, 0x20, 0x53, 0x65, 0x74, 0x75, 0x70]
}

/// The OLE compound document header of MSI files.
pub open spec fn msi_magic() -> Seq<u8> {
    seq![0xD0u8, 0xCF, 0x11, 0xE0, 0xA1, 0xB1, 0x1A, 0xE1]
}

/// The local file header of ZIP archives.
pub open spec fn zip_magic() -> Seq<u8> {
    seq![0x50u8, 0x4B, 0x03, 0x04]
}

/// The central directory entry signature of ZIP archives.
pub open spec fn central_dir_sig() -> Seq<u8> {
    seq![0x50u8, 0x4B, 0x01, 0x02]
}

/// Which installer a PE executable is, by the markers it contains.
pub open spec fn classify_pe_spec(b: Seq<u8>) -> FileType {
    if contains_bytes_spec(b, nullsoft_marker()) || contains_bytes_spec(b, nsis_magic()) {
        FileType::Nsis
    } else if contains_bytes_spec(b, inno_marker()) {
        FileType::InnoSetup
    } else {
        FileType::PeExe
    }
}

/// The file type recognised from the first bytes: MSI, ZIP, or (after `MZ`)
/// an executable classified by its installer markers.
pub open spec fn detect_spec(b: Seq<u8>) -> FileType {
    if b.len() < 2 {
        FileType::Unknown
    } else if b.len() >= 8 && b.take(8) == msi_magic() {
        FileType::Msi
    } else if b.len() >= 4 && b.take(4) == zip_magic() {
        FileType::Zip
    } else if b[0] == 0x4D && b[1] == 0x5A {
        classify_pe_spec(b)
    } else {
        FileType::Unknown
    }
}

fn classify_pe(bytes: &[u8]) -> (r: FileType)
    ensures
        r == classify_pe_spec(bytes@),
{
    let nullsoft: Vec<u8> = vec![0x4E, 0x75, 0x6C, 0x6C, 0x73, 0x6F, 0x66, 0x74, 0x49, 0x6E, 0x73, 0x74];
    let magic: Vec<u8> = vec![0xEF, 0xBE, 0xAD, 0xDE];
    let inno: Vec<u8> = vec![0x49, 0x6E, 0x6E, 0x6F, 0x20, 0x53, 0x65, 0x74, 0x75, 0x70];
    proof {
        assert(nullsoft@ =~= nullsoft_marker());
        assert(magic@ =~= nsis_magic());
        assert(inno@ =~= inno_marker());
    }
    if contains_bytes(bytes, nullsoft.as_slice()) || contains_bytes(bytes, magic.as_slice()) {
        return FileType::Nsis;
    }
    if contains_bytes(bytes, inno.as_slice()) {
        return FileType::InnoSetup;
    }
    FileType::PeExe
}

/// Detect the file type from the first bytes of a downloaded file.
///
/// - `4D 5A` -> PE executable (further classified by installer signatures)
/// - `50 4B 03 04` -> ZIP archive
/// - `D0 CF 11 E0 A1 B1 1A E1` -> MSI (OLE Compound Document)
pub fn detect_file_type(bytes: &[u8]) -> (r: FileType)
    ensures
        r == detect_spec(bytes@),
{
    if bytes.len() < 2 {
        return FileType::Unknown;
    }
    if bytes.len() >= 8 && bytes[0] == 0xD0 && bytes[1] == 0xCF && bytes[2] == 0x11 && bytes[3]
        == 0xE0 && bytes[4] == 0xA1 && bytes[5] == 0xB1 && bytes[6] == 0x1A && bytes[7] == 0xE1 {
        proof {
            assert(bytes@.take(8) =~= msi_magic());
        }
        return FileType::Msi;
    }
    proof {
        if bytes@.len() >= 8 && bytes@.take(8) == msi_magic() {
            assert(bytes@.take(8)[0] == bytes@[0]);
            assert(bytes@.take(8)[1] == bytes@[1]);
            assert(bytes@.take(8)[2] == bytes@[2]);
            assert(bytes@.take(8)[3] == bytes@[3]);
            assert(bytes@.take(8)[4] == bytes@[4]);
            assert(bytes@.take(8)[5] == bytes@[5]);
            assert(bytes@.take(8)[6] == bytes@[6]);
            assert(bytes@.take(8)[7] == bytes@[7]);
        }
    }
    if bytes.len() >= 4 && bytes[0] == 0x50 && bytes[1] == 0x4B && bytes[2] == 0x03 && bytes[3]
        == 0x04 {
        proof {
            assert(bytes@.take(4) =~= zip_magic());
        }
        return FileType::Zip;
    }
    proof {
        if bytes@.len() >= 4 && bytes@.take(4) == zip_magic() {
            assert(bytes@.take(4)[0] == bytes@[0]);
            assert(bytes@.take(4)[1] == bytes@[1]);
            assert(bytes@.take(4)[2] == bytes@[2]);
            assert(bytes@.take(4)[3] == bytes@[3]);
        }
    }
    if bytes[0] == 0x4D && bytes[1] == 0x5A {
        return classify_pe(bytes);
    }
    FileType::Unknown
}

/// The length of the file name of the central directory entry at `abs`
/// (little-endian `u16` at offset 28).
pub open spec fn name_len_at(b: Seq<u8>, abs: int) -> int {
    b[abs + 28] as int + 256 * (b[abs + 29] as int)
}

/// The file names of the ZIP central directory entries found by scanning
/// from `pos` for entry signatures; the scan stops at the first entry whose
/// name would run past the end.
pub open spec fn entry_names_from(b: Seq<u8>, pos: int) -> Seq<Seq<u8>>
    decreases b.len() - pos,
{
    if pos < 0 || !(pos + 46 < b.len()) {
        Seq::empty()
    } else {
        match find_bytes_spec(b.skip(pos), central_dir_sig()) {
            None => Seq::empty(),
            Some(off) => {
                let abs = pos + off;
                if off < 0 || abs + 46 > b.len() {
                    Seq::empty()
                } else {
                    let end = abs + 46 + name_len_at(b, abs);
                    if end <= b.len() {
                        seq![b.subrange(abs + 46, end)] + entry_names_from(b, end)
                    } else {
                        Seq::empty()
                    }
                }
            },
        }
    }
}

/// The file names of the entries of a ZIP archive's central directory, in order.
pub fn zip_entry_names(bytes: &[u8]) -> (r: Vec<Vec<u8>>)
    ensures
        r@.len() == entry_names_from(bytes@, 0).len(),
        forall|k: int| 0 <= k < r@.len() ==> #[trigger] r@[k]@ == entry_names_from(bytes@, 0)[k],
{
    let sig: Vec<u8> = vec![0x50, 0x4B, 0x01, 0x02];
    proof {
        assert(sig@ =~= central_dir_sig());
    }
    let len = bytes.len();
    let mut names: Vec<Vec<u8>> = Vec::new();
    let mut pos: usize = 0;
    let ghost acc: Seq<Seq<u8>> = Seq::empty();
    while pos < len && len - pos > 46
        invariant
            len == bytes@.len(),
            pos <= len,
            sig@ == central_dir_sig(),
            names@.len() == acc.len(),
            forall|k: int| 0 <= k < names@.len() ==> #[trigger] names@[k]@ == acc[k],
            entry_names_from(bytes@, 0) == acc + entry_names_from(bytes@, pos as int),
        decreases len - pos,
    {
        let rest = slice_subrange(bytes, pos, len);
        proof {
            assert(rest@ =~= bytes@.skip(pos as int));
        }
        let found = find_bytes(rest, sig.as_slice());
        let mut stop = true;
        if let Some(off) = found {
            proof {
                lemma_first_match_from(rest@, sig@, 0);
            }
            let abs = pos + off;
            if abs <= len && len - abs >= 46 {
                let name_len = (bytes[abs + 28] as usize) + (bytes[abs + 29] as usize) * 256;
                let name_start = abs + 46;
                if name_len <= len - name_start {
                    let name_end = name_start + name_len;
                    let name = slice_subrange(bytes, name_start, name_end);
                    let owned = slice_to_vec(name);
                    proof {
                        assert(owned@ == bytes@.subrange(name_start as int, name_end as int));
                        let ghost old_acc = acc;
                        acc = acc.push(owned@);
                        assert(seq![owned@] + entry_names_from(bytes@, name_end as int) == entry_names_from(bytes@, pos as int));
                        assert(old_acc + (seq![owned@] + entry_names_from(bytes@, name_end as int)) =~= acc + entry_names_from(bytes@, name_end as int));
                    }
                    names.push(owned);
                    pos = name_end;
                    stop = false;
                }
            }
        }
        if stop {
            proof {
                assert(entry_names_from(bytes@, pos as int) == Seq::<Seq<u8>>::empty());
                assert(acc + Seq::<Seq<u8>>::empty() =~= acc);
                assert(entry_names_from(bytes@, len as int) == Seq::<Seq<u8>>::empty());
                assert(acc =~= acc + Seq::<Seq<u8>>::empty());
            }
            pos = len;
        }
    }
    proof {
        assert(entry_names_from(bytes@, pos as int) == Seq::<Seq<u8>>::empty());
        assert(acc + Seq::<Seq<u8>>::empty() =~= acc);
    }
    names
}


/// A character with ASCII letters lowered.
pub open spec fn ascii_lower(c: char) -> char {
    if 'A' <= c && c <= 'Z' {
        ((c as u32) + 32) as char
    } else {
        c
    }
}

/// Equality up to ASCII case.
pub open spec fn eq_ignore_ascii_case(a: Seq<char>, b: Seq<char>) -> bool {
    a.len() == b.len() && forall|i: int| 0 <= i < a.len() ==> ascii_lower(#[trigger] a[i]) == ascii_lower(b[i])
}

/// Whether an extension names an installer: `exe` or `msi`, in any ASCII case.
pub open spec fn installer_extension(e: Seq<char>) -> bool {
    eq_ignore_ascii_case(e, seq!['e', 'x', 'e']) || eq_ignore_ascii_case(e, seq!['m', 's', 'i'])
}

fn lower_char(c: char) -> (r: char)
    ensures
        r == ascii_lower(c),
{
    if 'A' <= c && c <= 'Z' {
        let u = c as u8;
        (u + 32) as char
    } else {
        c
    }
}

fn eq_ignore_case_chars(a: &[char], b: &[char]) -> (r: bool)
    ensures
        r == eq_ignore_ascii_case(a@, b@),
{
    if a.len() != b.len() {
        return false;
    }
    let mut i: usize = 0;
    while i < a.len()
        invariant
            a@.len() == b@.len(),
            i <= a@.len(),
            forall|k: int| 0 <= k < i ==> ascii_lower(#[trigger] a@[k]) == ascii_lower(b@[k]),
        decreases a@.len() - i,
    {
        if lower_char(a[i]) != lower_char(b[i]) {
            return false;
        }
        i = i + 1;
    }
    true
}

/// Whether an extension names an installer (`exe` or `msi`, ignoring ASCII case).
pub fn is_installer_extension(ext: &str) -> (r: bool)
    ensures
        r == installer_extension(ext@),
{
    let e = chars_of(ext);
    let exe: Vec<char> = vec!['e', 'x', 'e'];
    let msi: Vec<char> = vec!['m', 's', 'i'];
    proof {
        assert(exe@ =~= seq!['e', 'x', 'e']);
        assert(msi@ =~= seq!['m', 's', 'i']);
    }
    eq_ignore_case_chars(e.as_slice(), exe.as_slice()) || eq_ignore_case_chars(e.as_slice(), msi.as_slice())
}

/// Whether some central directory entry of a ZIP archive has a UTF-8 name
/// whose final component (after trailing separators and `.` components)
/// has an installer extension.
pub open spec fn has_installer_like_entry(b: Seq<u8>) -> bool {
    exists|k: int, e: Seq<char>|
        #![trigger entry_names_from(b, 0)[k], installer_extension(e)]
        0 <= k < entry_names_from(b, 0).len() && valid_utf8(entry_names_from(b, 0)[k])
            && is_final_extension(decode_utf8(entry_names_from(b, 0)[k]), e)
            && installer_extension(e)
}

/// Whether a name ends in a plain `.exe` or `.msi` extension (in any ASCII
/// case), one that every platform's path syntax reads as its extension.
pub open spec fn plain_installer_name(t: Seq<char>) -> bool {
    plain_extension_at(t, t.len() - 4) && installer_extension(t.subrange(t.len() - 3, t.len() as int))
}

/// Whether some central directory entry of a ZIP archive has a UTF-8 name
/// that ends in a plain installer extension.
pub open spec fn has_plain_installer_entry(b: Seq<u8>) -> bool {
    exists|k: int|
        #![trigger entry_names_from(b, 0)[k]]
        0 <= k < entry_names_from(b, 0).len() && valid_utf8(entry_names_from(b, 0)[k])
            && plain_installer_name(decode_utf8(entry_names_from(b, 0)[k]))
}

/// Check if a ZIP archive contains a nested installer (exe or msi): some
/// central directory entry whose UTF-8 name has an `exe` or `msi` extension.
/// It answers `true` for every archive with an entry named plainly so, and
/// only for archives with an entry whose final name component has such an
/// extension.
pub fn zip_contains_installer(bytes: &[u8]) -> (r: bool)
    ensures
        r ==> has_installer_like_entry(bytes@),
        has_plain_installer_entry(bytes@) ==> r,
{
    let names = zip_entry_names(bytes);
    let mut i: usize = 0;
    while i < names.len()
        invariant
            i <= names@.len(),
            names@.len() == entry_names_from(bytes@, 0).len(),
            forall|k: int| 0 <= k < names@.len() ==> #[trigger] names@[k]@ == entry_names_from(bytes@, 0)[k],
            forall|k: int| 0 <= k < i ==> !(valid_utf8(#[trigger] entry_names_from(bytes@, 0)[k])
                && plain_installer_name(decode_utf8(entry_names_from(bytes@, 0)[k]))),
        decreases names@.len() - i,
    {
        proof {
            assert(names@[i as int]@ == entry_names_from(bytes@, 0)[i as int]);
        }
        if let Some(text) = utf8_decode(names[i].as_slice()) {
            let ghost t = text@;
            let ext_opt = path_extension(text.as_str());
            proof {
                if plain_installer_name(t) {
                    lemma_plain_extension_at_last(t, t.len() - 4);
                }
            }
            if let Some(ext) = ext_opt {
                if is_installer_extension(ext.as_str()) {
                    proof {
                        assert(names@[i as int]@ == entry_names_from(bytes@, 0)[i as int]);
                        assert(installer_extension(ext@));
                    }
                    return true;
                }
            }
        }
        i = i + 1;
    }
    false
}

} // verus!
