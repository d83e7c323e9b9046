//! Which manifests a checker run takes, and the summary it prints.
use vstd::prelude::*;
use crate::manifest::Manifest;
use crate::numeric::{decimal, push_decimal};
use crate::text::{contains_str, join_chars, join_with, push_all, push_str_chars, seq_contains_seq, string_from_chars};

verus! {

/// Whether a checker run takes a manifest: it is not disabled, and without a
/// filter it is taken; with one, its id, category or provider contains it.
pub open spec fn is_selected(m: Manifest, filter: Option<Seq<char>>) -> bool {
    !m.disabled && match filter {
        None => true,
        Some(f) => seq_contains_seq(m.id@, f) || seq_contains_seq(m.category@, f) || (m.checkver matches Some(
            cv,
        ) && seq_contains_seq(cv.provider@, f)),
    }
}

/// Whether a checker run takes a manifest (substring match of the filter on
/// its id, category or provider; disabled manifests are skipped entirely).
pub fn selected(manifest: &Manifest, filter: Option<&str>) -> (r: bool)
    ensures
        r == is_selected(
            *manifest,
            match filter {
                Some(f) => Some(f@),
                None => None,
            },
        ),
{
    if manifest.disabled {
        return false;
    }
    match filter {
        None => true,
        Some(f) => contains_str(manifest.id.as_str(), f) || contains_str(manifest.category.as_str(), f) || match &manifest.checkver {
            Some(cv) => contains_str(cv.provider.as_str(), f),
            None => false,
        },
    }
}

/// A count, and the items in parentheses when there are any.
pub open spec fn counted(label: Seq<char>, items: Seq<Seq<char>>) -> Seq<char> {
    "  "@ + label + ": "@ + decimal(items.len()) + if items.len() > 0 {
        " ("@ + join_with(items, ", "@) + ")"@
    } else {
        Seq::empty()
    }
}

/// A new version as listed in the summary: the id and the version.
pub open spec fn new_version_item(p: (Seq<char>, Seq<char>)) -> Seq<char> {
    p.0 + " "@ + p.1
}

/// A persistent failure as listed in the summary.
pub open spec fn persistent_item(p: (Seq<char>, u32, u64)) -> Seq<char> {
    p.0 + " \u{2014} "@ + decimal(p.1 as nat) + " consecutive, issue #"@ + decimal(p.2 as nat) + " created"@
}

/// The summary of a checker run, line by line.
pub open spec fn run_summary_text(checked: nat, concurrency: nat, new_versions: Seq<(Seq<char>, Seq<char>)>, failed: Seq<Seq<char>>, skipped: Seq<Seq<char>>, persistent: Seq<(Seq<char>, u32, u64)>) -> Seq<Seq<char>> {
    seq![
        "Checked "@ + decimal(checked) + " manifests ("@ + decimal(concurrency) + " concurrent)"@,
        counted("New versions"@, new_versions.map_values(|p: (Seq<char>, Seq<char>)| new_version_item(p))),
        counted("Failed"@, failed),
        counted("Skipped"@, skipped),
        counted("Persistent failures"@, persistent.map_values(|p: (Seq<char>, u32, u64)| persistent_item(p))),
    ]
}

fn counted_line(label: &str, items: &Vec<Vec<char>>) -> (r: String)
    ensures
        r@ == counted(label@, items@.map_values(|v: Vec<char>| v@)),
{
    let mut out: Vec<char> = Vec::new();
    push_str_chars(&mut out, "  ");
    push_str_chars(&mut out, label);
    push_str_chars(&mut out, ": ");
    push_decimal(&mut out, items.len() as u64);
    if items.len() > 0 {
        push_str_chars(&mut out, " (");
        let sep: Vec<char> = vec![',', ' '];
        let joined = join_chars(items, sep.as_slice());
        proof {
            reveal_strlit(", ");
            assert(sep@ =~= ", "@);
        }
        push_all(&mut out, joined.as_slice());
        push_str_chars(&mut out, ")");
    }
    proof {
        assert(out@ =~= counted(label@, items@.map_values(|v: Vec<char>| v@)));
    }
    string_from_chars(out.as_slice())
}

fn char_lists(v: &Vec<String>) -> (r: Vec<Vec<char>>)
    ensures
        r@.map_values(|x: Vec<char>| x@) == v@.map_values(|s: String| s@),
{
    let mut out: Vec<Vec<char>> = Vec::new();
    let mut i: usize = 0;
    while i < v.len()
        invariant
            i <= v@.len(),
            out@.map_values(|x: Vec<char>| x@) == v@.take(i as int).map_values(|s: String| s@),
        decreases v@.len() - i,
    {
        let ghost before = out@;
        let c = crate::text::chars_of(v[i].as_str());
        out.push(c);
        proof {
            assert(out@.map_values(|x: Vec<char>| x@) =~= before.map_values(|x: Vec<char>| x@).push(v@[i as int]@));
            assert(v@.take(i + 1).map_values(|s: String| s@) =~= v@.take(i as int).map_values(|s: String| s@).push(v@[i as int]@));
        }
        i = i + 1;
    }
    proof {
        assert(v@.take(v@.len() as int) =~= v@);
    }
    out
}

/// The summary a checker run prints: how many manifests were checked, the
/// new versions, the failed and skipped manifests, and the persistent
/// failures an issue was opened for.
pub fn run_summary_lines(checked: u64, concurrency: u64, new_versions: &Vec<(String, String)>, failed: &Vec<String>, skipped: &Vec<String>, persistent: &Vec<(String, u32, u64)>) -> (r: Vec<String>)
    ensures
        r@.map_values(|s: String| s@) == run_summary_text(
            checked as nat,
            concurrency as nat,
            new_versions@.map_values(|p: (String, String)| (p.0@, p.1@)),
            failed@.map_values(|s: String| s@),
            skipped@.map_values(|s: String| s@),
            persistent@.map_values(|p: (String, u32, u64)| (p.0@, p.1, p.2)),
        ),
{
    let mut head: Vec<char> = Vec::new();
    push_str_chars(&mut head, "Checked ");
    push_decimal(&mut head, checked);
    push_str_chars(&mut head, " manifests (");
    push_decimal(&mut head, concurrency);
    push_str_chars(&mut head, " concurrent)");

    let mut versions: Vec<Vec<char>> = Vec::new();
    let mut i: usize = 0;
    while i < new_versions.len()
        invariant
            i <= new_versions@.len(),
            versions@.map_values(|x: Vec<char>| x@) == new_versions@.take(i as int).map_values(
                |p: (String, String)| (p.0@, p.1@),
            ).map_values(|p: (Seq<char>, Seq<char>)| new_version_item(p)),
        decreases new_versions@.len() - i,
    {
        let ghost before = versions@;
        let mut item: Vec<char> = Vec::new();
        push_str_chars(&mut item, new_versions[i].0.as_str());
        push_str_chars(&mut item, " ");
        push_str_chars(&mut item, new_versions[i].1.as_str());
        versions.push(item);
        proof {
            let p = (new_versions@[i as int].0@, new_versions@[i as int].1@);
            assert(versions@.map_values(|x: Vec<char>| x@) =~= before.map_values(|x: Vec<char>| x@).push(new_version_item(p)));
            assert(new_versions@.take(i + 1).map_values(|p: (String, String)| (p.0@, p.1@)) =~= new_versions@.take(i as int).map_values(|p: (String, String)| (p.0@, p.1@)).push(p));
        }
        i = i + 1;
    }
    proof {
        assert(new_versions@.take(new_versions@.len() as int) =~= new_versions@);
    }

    let mut lasting: Vec<Vec<char>> = Vec::new();
    let mut k: usize = 0;
    while k < persistent.len()
        invariant
            k <= persistent@.len(),
            lasting@.map_values(|x: Vec<char>| x@) == persistent@.take(k as int).map_values(
                |p: (String, u32, u64)| (p.0@, p.1, p.2),
            ).map_values(|p: (Seq<char>, u32, u64)| persistent_item(p)),
        decreases persistent@.len() - k,
    {
        let ghost before = lasting@;
        let mut item: Vec<char> = Vec::new();
        push_str_chars(&mut item, persistent[k].0.as_str());
        push_str_chars(&mut item, " \u{2014} ");
        push_decimal(&mut item, persistent[k].1 as u64);
        push_str_chars(&mut item, " consecutive, issue #");
        push_decimal(&mut item, persistent[k].2);
        push_str_chars(&mut item, " created");
        lasting.push(item);
        proof {
            let p = (persistent@[k as int].0@, persistent@[k as int].1, persistent@[k as int].2);
            assert(lasting@.map_values(|x: Vec<char>| x@) =~= before.map_values(|x: Vec<char>| x@).push(persistent_item(p)));
            assert(persistent@.take(k + 1).map_values(|p: (String, u32, u64)| (p.0@, p.1, p.2)) =~= persistent@.take(k as int).map_values(|p: (String, u32, u64)| (p.0@, p.1, p.2)).push(p));
        }
        k = k + 1;
    }
    proof {
        assert(persistent@.take(persistent@.len() as int) =~= persistent@);
    }

    let failed_items = char_lists(failed);
    let skipped_items = char_lists(skipped);
    let mut lines: Vec<String> = Vec::new();
    lines.push(string_from_chars(head.as_slice()));
    lines.push(counted_line("New versions", &versions));
    lines.push(counted_line("Failed", &failed_items));
    lines.push(counted_line("Skipped", &skipped_items));
    lines.push(counted_line("Persistent failures", &lasting));
    proof {
        assert(lines@.map_values(|s: String| s@) =~= run_summary_text(
            checked as nat,
            concurrency as nat,
            new_versions@.map_values(|p: (String, String)| (p.0@, p.1@)),
            failed@.map_values(|s: String| s@),
            skipped@.map_values(|s: String| s@),
            persistent@.map_values(|p: (String, u32, u64)| (p.0@, p.1, p.2)),
        ));
    }
    lines
}

} // verus!
