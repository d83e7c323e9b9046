//! What the catalog compiler decides: which manifest files load, the search
//! form of aliases, where a package's icon is looked for and how it is
//! stored, and which files hold versions.
use vstd::prelude::*;
use crate::manifest::{pairs_view, Install, Manifest};
use crate::outside_text::opt_view;
use crate::text::{chars_of, concat2, has_prefix, replace_all, replace_str, string_from_chars, string_from_str};
use crate::validate::{
    apply_default_switches, errors_view, validate_manifest, validation_error_text,
    validation_errors, with_default_switches,
};

verus! {

/// Result of loading manifests from a directory.
pub struct LoadResult {
    pub manifests: Vec<Manifest>,
    pub errors: Vec<String>,
}

/// The messages of a file that loads with problems: each validation error of
/// a parsed manifest, or the file name and the parse error.
pub open spec fn entry_errors(file: Seq<char>, parsed: Result<Manifest, String>) -> Seq<Seq<char>> {
    match parsed {
        Ok(m) => validation_errors(m, file).map_values(|e| validation_error_text(e)),
        Err(e) => seq![file + ": "@ + e@],
    }
}

/// The error messages of all files, in order.
pub open spec fn load_errors(entries: Seq<(String, Result<Manifest, String>)>) -> Seq<Seq<char>>
    decreases entries.len(),
{
    if entries.len() == 0 {
        Seq::empty()
    } else {
        load_errors(entries.drop_last()) + entry_errors(entries.last().0@, entries.last().1)
    }
}

/// The manifests that parsed and validated, in order.
pub open spec fn valid_manifests(entries: Seq<(String, Result<Manifest, String>)>) -> Seq<Manifest>
    decreases entries.len(),
{
    if entries.len() == 0 {
        Seq::empty()
    } else {
        let rest = valid_manifests(entries.drop_last());
        match entries.last().1 {
            Ok(m) => if validation_errors(m, entries.last().0@).len() == 0 {
                rest.push(m)
            } else {
                rest
            },
            Err(_) => rest,
        }
    }
}

/// A manifest once the default installer switches are applied to it.
pub open spec fn with_defaults(before: Manifest, after: Manifest) -> bool {
    &&& after == Manifest { install: after.install, ..before }
    &&& pairs_view(after.install.switches@) == with_default_switches(
        pairs_view(before.install.switches@),
        before.install.method@,
    )
    &&& after.install == Install { switches: after.install.switches, ..before.install }
}

/// Collects the manifests of a directory from each `.toml` file's name and
/// what parsing it gave: a manifest that validates is kept, with the default
/// installer switches applied; the errors of the others are collected.
pub fn load_outcome(entries: Vec<(String, Result<Manifest, String>)>) -> (r: LoadResult)
    ensures
        r.errors@.map_values(|s: String| s@) == load_errors(entries@),
        r.manifests@.len() == valid_manifests(entries@).len(),
        forall|i: int| 0 <= i < r.manifests@.len() ==> with_defaults(valid_manifests(entries@)[i], #[trigger] r.manifests@[i]),
{
    let ghost all = entries@;
    let mut manifests: Vec<Manifest> = Vec::new();
    let mut errors: Vec<String> = Vec::new();
    let mut rest = entries;
    proof {
        assert(all.take(0) =~= Seq::<(String, Result<Manifest, String>)>::empty());
        assert(all.skip(0) =~= all);
    }
    let n = rest.len();
    let mut i: usize = 0;
    while rest.len() > 0
        invariant
            all.len() == n,
            i + rest@.len() == all.len(),
            rest@ == all.skip(i as int),
            errors@.map_values(|s: String| s@) == load_errors(all.take(i as int)),
            manifests@ == valid_manifests(all.take(i as int)),
        decreases rest@.len(),
    {
        let (file, parsed) = rest.remove(0);
        proof {
            assert(rest@ =~= all.skip(i + 1));
            assert(all.take(i + 1).drop_last() =~= all.take(i as int));
            assert(all.take(i + 1).last() == all[i as int]);
        }
        let ghost errors_before = errors@.map_values(|s: String| s@);
        match parsed {
            Ok(m) => {
                let found = validate_manifest(&m, file.as_str());
                if found.len() == 0 {
                    manifests.push(m);
                    proof {
                        assert(errors_view(found@).len() == 0);
                    }
                } else {
                    let mut k: usize = 0;
                    while k < found.len()
                        invariant
                            k <= found@.len(),
                            errors_view(found@) == validation_errors(m, file@),
                            errors@.map_values(|s: String| s@) == errors_before + errors_view(found@).take(k as int).map_values(|e| validation_error_text(e)),
                        decreases found@.len() - k,
                    {
                        let ghost old_errors = errors@;
                        let msg = found[k].message();
                        errors.push(msg);
                        proof {
                            assert(errors@.map_values(|s: String| s@) =~= old_errors.map_values(|s: String| s@).push(msg@));
                            assert(errors_view(found@).take(k + 1).map_values(|e| validation_error_text(e)) =~= errors_view(found@).take(k as int).map_values(|e| validation_error_text(e)).push(validation_error_text(found@[k as int]@)));
                        }
                        k = k + 1;
                    }
                    proof {
                        assert(errors_view(found@).take(found@.len() as int) =~= errors_view(found@));
                    }
                }
            },
            Err(e) => {
                let ghost old_errors = errors@;
                let msg = concat2(file.as_str(), concat2(": ", e.as_str()).as_str());
                errors.push(msg);
                proof {
                    assert(errors@.map_values(|s: String| s@) =~= old_errors.map_values(|s: String| s@).push(msg@));
                    assert(msg@ =~= file@ + ": "@ + e@);
                }
            },
        }
        i = i + 1;
    }
    proof {
        assert(all.take(all.len() as int) =~= all);
    }
    let ghost valid = manifests@;
    let mut pending = manifests;
    let mut ready: Vec<Manifest> = Vec::new();
    proof {
        assert(valid.skip(0) =~= valid);
    }
    while pending.len() > 0
        invariant
            ready@.len() + pending@.len() == valid.len(),
            pending@ == valid.skip(ready@.len() as int),
            forall|k: int| 0 <= k < ready@.len() ==> with_defaults(valid[k], #[trigger] ready@[k]),
        decreases pending@.len(),
    {
        let ghost j: int = ready@.len() as int;
        let mut m = pending.remove(0);
        let ghost before_m = m;
        proof {
            assert(before_m == valid[j as int]);
            assert(pending@ =~= valid.skip(j + 1));
        }
        apply_default_switches(&mut m.install);
        proof {
            assert(with_defaults(before_m, m));
        }
        ready.push(m);
    }
    LoadResult { manifests: ready, errors }
}

/// The search form of aliases: each without dots and hyphens, joined by
/// spaces; none without aliases.
pub open spec fn aliases_for_search(aliases: Seq<Seq<char>>) -> Option<Seq<char>> {
    if aliases.len() == 0 {
        None
    } else {
        Some(crate::text::join_with(aliases.map_values(|a: Seq<char>| without_dots_and_hyphens(a)), " "@))
    }
}

/// A text without its `.` and `-` characters.
pub open spec fn without_dots_and_hyphens(s: Seq<char>) -> Seq<char>
    decreases s.len(),
{
    if s.len() == 0 {
        Seq::empty()
    } else if s.last() == '.' || s.last() == '-' {
        without_dots_and_hyphens(s.drop_last())
    } else {
        without_dots_and_hyphens(s.drop_last()).push(s.last())
    }
}

fn strip_dots_and_hyphens(s: &str) -> (r: Vec<char>)
    ensures
        r@ == without_dots_and_hyphens(s@),
{
    let v = chars_of(s);
    let mut out: Vec<char> = Vec::new();
    let mut i: usize = 0;
    while i < v.len()
        invariant
            v@ == s@,
            i <= v@.len(),
            out@ == without_dots_and_hyphens(s@.take(i as int)),
        decreases v@.len() - i,
    {
        proof {
            assert(s@.take(i + 1).drop_last() =~= s@.take(i as int));
        }
        if v[i] != '.' && v[i] != '-' {
            out.push(v[i]);
        }
        i = i + 1;
    }
    proof {
        assert(s@.take(s@.len() as int) =~= s@);
    }
    out
}

/// Normalize aliases for full-text search: strip dots and hyphens, join with spaces.
pub fn normalized_aliases(aliases: &Vec<String>) -> (r: Option<String>)
    ensures
        opt_view(r) == aliases_for_search(aliases@.map_values(|s: String| s@)),
{
    if aliases.len() == 0 {
        return None;
    }
    let mut parts: Vec<Vec<char>> = Vec::new();
    let mut i: usize = 0;
    while i < aliases.len()
        invariant
            i <= aliases@.len(),
            parts@.map_values(|p: Vec<char>| p@) == aliases@.take(i as int).map_values(|s: String| without_dots_and_hyphens(s@)),
        decreases aliases@.len() - i,
    {
        let ghost before = parts@;
        let p = strip_dots_and_hyphens(aliases[i].as_str());
        parts.push(p);
        proof {
            assert(parts@.map_values(|p: Vec<char>| p@) =~= before.map_values(|p: Vec<char>| p@).push(without_dots_and_hyphens(aliases@[i as int]@)));
            assert(aliases@.take(i + 1).map_values(|s: String| without_dots_and_hyphens(s@)) =~= aliases@.take(i as int).map_values(|s: String| without_dots_and_hyphens(s@)).push(without_dots_and_hyphens(aliases@[i as int]@)));
        }
        i = i + 1;
    }
    let sep: Vec<char> = vec![' '];
    let joined = crate::text::join_chars(&parts, sep.as_slice());
    proof {
        reveal_strlit(" ");
        assert(sep@ =~= " "@);
        assert(aliases@.take(aliases@.len() as int) =~= aliases@);
        assert(aliases@.map_values(|s: String| s@).map_values(|a: Seq<char>| without_dots_and_hyphens(a)) =~= aliases@.map_values(|s: String| without_dots_and_hyphens(s@)));
    }
    Some(string_from_chars(joined.as_slice()))
}

/// What std `str::to_lowercase` gives for a text.
pub uninterp spec fn lowercase_of(s: Seq<char>) -> Seq<char>;

/// Lower-cases a text with std `str::to_lowercase`.
#[verifier::external_body]
fn to_lowercase(s: &str) -> (r: String)
    ensures
        r@ == lowercase_of(s@),
{
    s.to_lowercase()
}

/// The icon file names looked for, in order: the manifest's `icon`, then the
/// publisher's slug (lower case, spaces made hyphens), each with `.png`.
pub open spec fn icon_names(m: Manifest) -> Seq<Seq<char>> {
    let explicit = match m.icon {
        Some(i) => seq![i@ + ".png"@],
        None => Seq::empty(),
    };
    let by_publisher = match m.publisher {
        Some(p) => seq![replace_all(lowercase_of(p@), " "@, "-"@) + ".png"@],
        None => Seq::empty(),
    };
    explicit + by_publisher
}

/// The file names, inside the icons directory, where a package's icon is looked for.
pub fn icon_file_names(manifest: &Manifest) -> (r: Vec<String>)
    ensures
        r@.map_values(|s: String| s@) == icon_names(*manifest),
{
    let mut out: Vec<String> = Vec::new();
    match &manifest.icon {
        Some(i) => out.push(concat2(i.as_str(), ".png")),
        None => {},
    }
    let ghost after_icon = out@.map_values(|s: String| s@);
    match &manifest.publisher {
        Some(p) => {
            proof {
                reveal_strlit(" ");
            }
            let lower = to_lowercase(p.as_str());
            let slug = replace_str(lower.as_str(), " ", "-");
            out.push(concat2(slug.as_str(), ".png"));
        },
        None => {},
    }
    proof {
        assert(out@.map_values(|s: String| s@) =~= icon_names(*manifest));
    }
    out
}

/// The digit of standard base64 for a value below 64.
pub open spec fn base64_digit(n: int) -> char {
    if n < 26 {
        (65 + n) as char
    } else if n < 52 {
        (97 + n - 26) as char
    } else if n < 62 {
        (48 + n - 52) as char
    } else if n == 62 {
        '+'
    } else {
        '/'
    }
}

/// Standard base64 with padding (RFC 4648): every three bytes become four
/// digits; a last group of one or two bytes is padded with `=`.
pub open spec fn base64_text(b: Seq<u8>) -> Seq<char>
    decreases b.len(),
{
    if b.len() == 0 {
        Seq::empty()
    } else {
        let x = b[0] as int;
        let y = if b.len() > 1 {
            b[1] as int
        } else {
            0
        };
        let z = if b.len() > 2 {
            b[2] as int
        } else {
            0
        };
        if b.len() == 1 {
            seq![base64_digit(x / 4), base64_digit((x % 4) * 16), '=', '=']
        } else if b.len() == 2 {
            seq![base64_digit(x / 4), base64_digit((x % 4) * 16 + y / 16), base64_digit((y % 16) * 4), '=']
        } else {
            seq![
                base64_digit(x / 4),
                base64_digit((x % 4) * 16 + y / 16),
                base64_digit((y % 16) * 4 + z / 64),
                base64_digit(z % 64),
            ] + base64_text(b.skip(3))
        }
    }
}

/// Encodes bytes as standard base64 with padding
/// (`base64::engine::general_purpose::STANDARD.encode`).
#[verifier::external_body]
fn base64_standard(bytes: &[u8]) -> (r: String)
    ensures
        r@ == base64_text(bytes@),
{
    base64::Engine::encode(&base64::engine::general_purpose::STANDARD, bytes)
}

/// An icon as it is stored in the catalog: its bytes in standard base64.
pub fn icon_base64(bytes: &[u8]) -> (r: String)
    ensures
        r@ == base64_text(bytes@),
{
    base64_standard(bytes)
}

/// The extension of a file name as std `Path::extension` defines it for a
/// single name: the part after the last `.`, unless there is no `.` or the
/// only one starts the name.
pub open spec fn file_extension(name: Seq<char>) -> Option<Seq<char>> {
    let i = last_dot(name);
    if i <= 0 {
        None
    } else {
        Some(name.skip(i + 1))
    }
}

/// The stem of a file name as std `Path::file_stem` defines it for a single
/// name: the part before the last `.`, or the whole name when it has no
/// extension.
pub open spec fn file_stem(name: Seq<char>) -> Seq<char> {
    let i = last_dot(name);
    if i <= 0 {
        name
    } else {
        name.take(i)
    }
}

/// The index of the last `.` of a name, or -1.
pub open spec fn last_dot(name: Seq<char>) -> int
    decreases name.len(),
{
    if name.len() == 0 {
        -1
    } else if name.last() == '.' {
        name.len() - 1
    } else {
        last_dot(name.drop_last())
    }
}

/// The version a file in a package's versions directory holds: the stem of a
/// `.json` file name; none for any other file.
pub open spec fn version_of_file(name: Seq<char>) -> Option<Seq<char>> {
    if file_extension(name) == Some("json"@) {
        Some(file_stem(name))
    } else {
        None
    }
}

/// The version a file name in a package's versions directory stands for.
pub fn version_file_version(file_name: &str) -> (r: Option<String>)
    ensures
        opt_view(r) == version_of_file(file_name@),
{
    let v = chars_of(file_name);
    let mut i: usize = v.len();
    let mut found = false;
    proof {
        assert(file_name@.take(v@.len() as int) =~= file_name@);
    }
    while i > 0
        invariant_except_break
            v@ == file_name@,
            i <= v@.len(),
            !found,
            last_dot(file_name@) == last_dot(file_name@.take(i as int)),
        ensures
            v@ == file_name@,
            i <= v@.len(),
            found ==> i >= 1 && last_dot(file_name@) == i - 1,
            !found ==> last_dot(file_name@) == -1,
        decreases i,
    {
        proof {
            assert(file_name@.take(i as int).drop_last() =~= file_name@.take(i - 1));
        }
        if v[i - 1] == '.' {
            found = true;
            break;
        }
        i = i - 1;
    }
    if !found || i == 1 {
        proof {
            reveal_strlit("json");
        }
        return None;
    }
    let dot = i - 1;
    let ext = crate::text::copy_range(v.as_slice(), dot + 1, v.len());
    let is_json = ext.len() == 4 && ext[0] == 'j' && ext[1] == 's' && ext[2] == 'o' && ext[3] == 'n';
    proof {
        reveal_strlit("json");
        assert(ext@ =~= file_name@.skip(dot + 1));
        if ext@ == "json"@ {
            assert(ext@[0] == 'j' && ext@[1] == 's' && ext@[2] == 'o' && ext@[3] == 'n');
        }
        if is_json {
            assert(ext@ =~= "json"@);
        }
    }
    if !is_json {
        return None;
    }
    let stem = crate::text::copy_range(v.as_slice(), 0, dot);
    proof {
        assert(stem@ =~= file_name@.take(dot as int));
    }
    Some(string_from_chars(stem.as_slice()))
}

/// The versions of the `.json` files among file names, in order.
pub open spec fn versions_of_files(files: Seq<Seq<char>>) -> Seq<Seq<char>>
    decreases files.len(),
{
    if files.len() == 0 {
        Seq::empty()
    } else {
        let rest = versions_of_files(files.drop_last());
        match version_of_file(files.last()) {
            Some(v) => rest.push(v),
            None => rest,
        }
    }
}

/// The versions imported from a package's versions directory: none when the
/// catalog has no package of that id (orphaned files), else the version of
/// each `.json` file, in order.
pub open spec fn imported_versions(known: Seq<Seq<char>>, package_id: Seq<char>, files: Seq<Seq<char>>) -> Seq<Seq<char>> {
    if known.contains(package_id) {
        versions_of_files(files)
    } else {
        Seq::empty()
    }
}

/// The versions to import from the files of a package's versions directory,
/// given the ids of the packages in the catalog.
pub fn version_imports(known_ids: &Vec<String>, package_id: &str, file_names: &Vec<String>) -> (r: Vec<String>)
    ensures
        r@.map_values(|s: String| s@) == imported_versions(
            known_ids@.map_values(|s: String| s@),
            package_id@,
            file_names@.map_values(|s: String| s@),
        ),
{
    let ghost known = known_ids@.map_values(|s: String| s@);
    let mut is_known = false;
    let mut i: usize = 0;
    while i < known_ids.len()
        invariant
            i <= known_ids@.len(),
            known == known_ids@.map_values(|s: String| s@),
            is_known == (exists|k: int| 0 <= k < i && known[k] == package_id@),
        decreases known_ids@.len() - i,
    {
        let same = crate::text::str_equals(known_ids[i].as_str(), package_id);
        proof {
            assert(known[i as int] == known_ids@[i as int]@);
            if same {
                assert(known[i as int] == package_id@);
            }
            assert((exists|k: int| 0 <= k < i + 1 && known[k] == package_id@) == ((exists|k: int| 0 <= k < i && known[k] == package_id@) || known[i as int] == package_id@));
        }
        if same {
            is_known = true;
        }
        i = i + 1;
    }
    let mut out: Vec<String> = Vec::new();
    if !is_known {
        proof {
            assert(!known.contains(package_id@));
        }
        return out;
    }
    proof {
        let k = choose|k: int| 0 <= k < known_ids@.len() && known[k] == package_id@;
        assert(known.contains(package_id@));
    }
    let ghost files = file_names@.map_values(|s: String| s@);
    let mut j: usize = 0;
    while j < file_names.len()
        invariant
            j <= file_names@.len(),
            files == file_names@.map_values(|s: String| s@),
            out@.map_values(|s: String| s@) == versions_of_files(files.take(j as int)),
        decreases file_names@.len() - j,
    {
        proof {
            assert(files.take(j + 1).drop_last() =~= files.take(j as int));
            assert(files.take(j + 1).last() == file_names@[j as int]@);
        }
        match version_file_version(file_names[j].as_str()) {
            Some(v) => {
                let ghost before = out@;
                out.push(v);
                proof {
                    assert(out@.map_values(|s: String| s@) =~= before.map_values(|s: String| s@).push(v@));
                }
            },
            None => {},
        }
        j = j + 1;
    }
    proof {
        assert(files.take(file_names@.len() as int) =~= files);
    }
    out
}

/// Version files of a package the catalog does not hold are never imported.
pub proof fn law_orphans_ignored(known: Seq<Seq<char>>, package_id: Seq<char>, files: Seq<Seq<char>>)
    requires
        !known.contains(package_id),
    ensures
        imported_versions(known, package_id, files).len() == 0,
{
}

/// Every manifest file is either kept (it parsed and validated) or reported,
/// and every message it is reported with starts with its file name.
pub proof fn law_file_kept_or_reported(file: Seq<char>, parsed: Result<Manifest, String>)
    ensures
        (entry_errors(file, parsed).len() == 0) == (parsed matches Ok(m) && validation_errors(m, file).len() == 0),
        forall|i: int| 0 <= i < entry_errors(file, parsed).len() ==> has_prefix(#[trigger] entry_errors(file, parsed)[i], file),
{
    match parsed {
        Ok(m) => {
            let errs = validation_errors(m, file);
            assert forall|i: int| 0 <= i < entry_errors(file, parsed).len() implies has_prefix(#[trigger] entry_errors(file, parsed)[i], file) by {
                crate::validate::lemma_errors_name_file(m, file, i);
                assert(entry_errors(file, parsed)[i] == validation_error_text(errs[i]));
            }
        },
        Err(e) => {
            assert((file + ": "@ + e@).take(file.len() as int) =~= file);
        },
    }
}

} // verus!
