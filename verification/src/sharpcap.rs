//! SharpCap's obfuscated download URLs, and named download URL resolvers.
use vstd::prelude::*;
use vstd::string::StringSliceAdditionalSpecFns;
use crate::manifest::{lookup, pairs_view};
use crate::text::{chars_of, push_all, push_str_chars, str_equals, string_from_chars};

verus! {

/// Sixteen random bytes from the thread-local generator (`rand::rng().fill`).
/// Nothing is promised of the value.
#[verifier::external_body]
fn random_bytes() -> (r: [u8; 16]) {
    let mut b = [0u8; 16];
    rand::Rng::fill(&mut rand::rng(), &mut b);
    b
}

/// The lower-case hexadecimal digit for a value below 16.
pub open spec fn hex_digit(n: int) -> char {
    if n < 10 {
        (n + 48) as char
    } else {
        (n - 10 + 97) as char
    }
}

/// Two lower-case hexadecimal digits for a byte.
pub open spec fn hex_byte(b: u8) -> Seq<char> {
    seq![hex_digit(b as int / 16), hex_digit(b as int % 16)]
}

/// Lower-case hexadecimal of bytes, two digits each.
pub open spec fn hex_of(bs: Seq<u8>) -> Seq<char>
    decreases bs.len(),
{
    if bs.len() == 0 {
        Seq::empty()
    } else {
        hex_of(bs.drop_last()) + hex_byte(bs.last())
    }
}

fn hex_char(n: u8) -> (r: char)
    requires
        n < 16,
    ensures
        r == hex_digit(n as int),
{
    if n < 10 {
        (n + 48) as char
    } else {
        (n - 10 + 97) as char
    }
}

pub(crate) fn push_hex(out: &mut Vec<char>, bs: &[u8], from: usize, to: usize)
    requires
        from <= to <= bs@.len(),
    ensures
        final(out)@ == old(out)@ + hex_of(bs@.subrange(from as int, to as int)),
{
    let ghost start = out@;
    let mut i = from;
    while i < to
        invariant
            from <= i <= to,
            to <= bs@.len(),
            out@ == start + hex_of(bs@.subrange(from as int, i as int)),
        decreases to - i,
    {
        let b = bs[i];
        out.push(hex_char(b / 16));
        out.push(hex_char(b % 16));
        proof {
            assert(bs@.subrange(from as int, i + 1).drop_last() =~= bs@.subrange(from as int, i as int));
            assert(out@ =~= start + hex_of(bs@.subrange(from as int, i + 1)));
        }
        i = i + 1;
    }
}

/// The bytes of a random version-4 UUID: version nibble 4, variant bits `10`.
pub open spec fn uuid_v4_bytes(raw: Seq<u8>) -> Seq<u8> {
    raw.update(6, (raw[6] & 0x0f) | 0x40).update(8, (raw[8] & 0x3f) | 0x80)
}

/// The five dash-separated groups of a UUID's text: 8, 4, 4, 4 and 12 hex digits.
pub open spec fn uuid_groups(b: Seq<u8>) -> Seq<Seq<char>> {
    seq![
        hex_of(b.subrange(0, 4)),
        hex_of(b.subrange(4, 6)),
        hex_of(b.subrange(6, 8)),
        hex_of(b.subrange(8, 10)),
        hex_of(b.subrange(10, 16)),
    ]
}

/// The download id built from the version's bytes and the UUID groups.
pub open spec fn sharpcap_dlid(v: Seq<u8>, bits: Seq<Seq<char>>) -> Seq<char> {
    if v[9] == 46u8 {
        seq!['a', v[0] as char] + bits[0].skip(2) + seq!['-', v[2] as char] + bits[1].skip(1) + seq![
            '-',
            v[4] as char,
        ] + bits[2].skip(1) + seq!['-', v[5] as char] + bits[3].skip(1) + seq!['-', v[6] as char]
            + bits[4].subrange(1, 10) + seq![v[8] as char, v[7] as char]
    } else {
        seq![v[0] as char] + bits[0].skip(1) + seq!['-', v[2] as char] + bits[1].skip(1) + seq![
            '-',
            v[4] as char,
        ] + bits[2].skip(1) + seq!['-', v[5] as char] + bits[3].skip(1) + seq!['-', v[6] as char]
            + bits[4].subrange(1, 11) + seq![v[7] as char]
    }
}

/// The SharpCap URL for a version (as UTF-8 bytes, at least ten of them), an
/// architecture suffix, and the 16 random bytes the UUID is made from.
pub open spec fn sharpcap_url(version: Seq<u8>, arch: Seq<char>, raw: Seq<u8>) -> Seq<char> {
    let base = "https://d.sharpcap.co.uk/file/"@ + sharpcap_dlid(version, uuid_groups(uuid_v4_bytes(raw)));
    if arch.len() > 0 {
        base + seq!['_'] + arch
    } else {
        base
    }
}

/// Generate a SharpCap download URL from a version, an architecture and the
/// 16 random bytes of the UUID the version digits are interleaved with.
/// `None` when the version is shorter than ten bytes.
pub fn sharpcap_download_url_with(version: &str, arch: &str, raw: [u8; 16]) -> (r: Option<String>)
    ensures
        version.spec_bytes().len() < 10 ==> r is None,
        version.spec_bytes().len() >= 10 ==> (r matches Some(u) && u@ == sharpcap_url(
            version.spec_bytes(),
            arch@,
            raw@,
        )),
{
    let v = version.as_bytes();
    if v.len() < 10 {
        return None;
    }
    let mut b = raw;
    b[6] = (b[6] & 0x0f) | 0x40;
    b[8] = (b[8] & 0x3f) | 0x80;
    proof {
        assert(b@ =~= uuid_v4_bytes(raw@));
    }
    let ghost bits = uuid_groups(b@);
    let mut out: Vec<char> = Vec::new();
    push_str_chars(&mut out, "https://d.sharpcap.co.uk/file/");
    let ghost prefix = out@;
    let mut g0: Vec<char> = Vec::new();
    push_hex(&mut g0, &b, 0, 4);
    let mut g1: Vec<char> = Vec::new();
    push_hex(&mut g1, &b, 4, 6);
    let mut g2: Vec<char> = Vec::new();
    push_hex(&mut g2, &b, 6, 8);
    let mut g3: Vec<char> = Vec::new();
    push_hex(&mut g3, &b, 8, 10);
    let mut g4: Vec<char> = Vec::new();
    push_hex(&mut g4, &b, 10, 16);
    proof {
        assert(g0@ =~= bits[0]);
        assert(g1@ =~= bits[1]);
        assert(g2@ =~= bits[2]);
        assert(g3@ =~= bits[3]);
        assert(g4@ =~= bits[4]);
        lemma_hex_len(b@.subrange(0, 4));
        lemma_hex_len(b@.subrange(4, 6));
        lemma_hex_len(b@.subrange(6, 8));
        lemma_hex_len(b@.subrange(8, 10));
        lemma_hex_len(b@.subrange(10, 16));
    }
    if v[9] == 46u8 {
        out.push('a');
        out.push(v[0] as char);
        push_all(&mut out, crate::text::copy_range(g0.as_slice(), 2, 8).as_slice());
        out.push('-');
        out.push(v[2] as char);
        push_all(&mut out, crate::text::copy_range(g1.as_slice(), 1, 4).as_slice());
        out.push('-');
        out.push(v[4] as char);
        push_all(&mut out, crate::text::copy_range(g2.as_slice(), 1, 4).as_slice());
        out.push('-');
        out.push(v[5] as char);
        push_all(&mut out, crate::text::copy_range(g3.as_slice(), 1, 4).as_slice());
        out.push('-');
        out.push(v[6] as char);
        push_all(&mut out, crate::text::copy_range(g4.as_slice(), 1, 10).as_slice());
        out.push(v[8] as char);
        out.push(v[7] as char);
    } else {
        out.push(v[0] as char);
        push_all(&mut out, crate::text::copy_range(g0.as_slice(), 1, 8).as_slice());
        out.push('-');
        out.push(v[2] as char);
        push_all(&mut out, crate::text::copy_range(g1.as_slice(), 1, 4).as_slice());
        out.push('-');
        out.push(v[4] as char);
        push_all(&mut out, crate::text::copy_range(g2.as_slice(), 1, 4).as_slice());
        out.push('-');
        out.push(v[5] as char);
        push_all(&mut out, crate::text::copy_range(g3.as_slice(), 1, 4).as_slice());
        out.push('-');
        out.push(v[6] as char);
        push_all(&mut out, crate::text::copy_range(g4.as_slice(), 1, 11).as_slice());
        out.push(v[7] as char);
    }
    proof {
        assert(out@ =~= prefix + sharpcap_dlid(v@, bits));
    }
    let a = chars_of(arch);
    if a.len() > 0 {
        out.push('_');
        push_all(&mut out, a.as_slice());
    }
    proof {
        assert(out@ =~= sharpcap_url(version.spec_bytes(), arch@, raw@));
    }
    Some(string_from_chars(out.as_slice()))
}

pub proof fn lemma_hex_len(bs: Seq<u8>)
    ensures
        hex_of(bs).len() == 2 * bs.len(),
    decreases bs.len(),
{
    if bs.len() > 0 {
        lemma_hex_len(bs.drop_last());
    }
}

/// Generate a SharpCap obfuscated download URL.
///
/// The version digits are interleaved into a random UUID to construct the
/// download path; `None` when the version is shorter than ten bytes.
pub fn sharpcap_download_url(version: &str, arch: &str) -> (r: Option<String>)
    ensures
        version.spec_bytes().len() < 10 ==> r is None,
        version.spec_bytes().len() >= 10 ==> exists|raw: Seq<u8>| raw.len() == 16 && (r matches Some(u) && u@ == sharpcap_url(version.spec_bytes(), arch@, raw)),
{
    let raw = random_bytes();
    let r = sharpcap_download_url_with(version, arch, raw);
    proof {
        if version.spec_bytes().len() >= 10 {
            assert(raw@.len() == 16);
        }
    }
    r
}

/// What a named resolver gives: the SharpCap URL (architecture from the
/// `arch` argument, `x64` by default) for some UUID; nothing for any other name.
pub open spec fn resolved_by(name: Seq<char>, version: Seq<char>, version_bytes: Seq<u8>, args: Seq<(Seq<char>, Seq<char>)>, r: Option<Seq<char>>) -> bool {
    if name == "sharpcap"@ {
        let arch = match lookup(args, "arch"@) {
            Some(a) => a,
            None => "x64"@,
        };
        if version_bytes.len() < 10 {
            r is None
        } else {
            exists|raw: Seq<u8>| raw.len() == 16 && r == Some(sharpcap_url(version_bytes, arch, raw))
        }
    } else {
        r is None
    }
}

fn lookup_arg<'a>(args: &'a Vec<(String, String)>, name: &str) -> (r: Option<&'a String>)
    ensures
        match r {
            Some(v) => lookup(pairs_view(args@), name@) == Some(v@),
            None => lookup(pairs_view(args@), name@) is None,
        },
{
    let ghost pv = pairs_view(args@);
    let mut i: usize = 0;
    proof {
        assert(pv.skip(0) =~= pv);
    }
    while i < args.len()
        invariant
            i <= args@.len(),
            pv == pairs_view(args@),
            lookup(pv, name@) == lookup(pv.skip(i as int), name@),
        decreases args@.len() - i,
    {
        proof {
            assert(pv.skip(i as int).drop_first() =~= pv.skip(i + 1));
            assert(pv.skip(i as int)[0] == (args@[i as int].0@, args@[i as int].1@));
        }
        if str_equals(args[i].0.as_str(), name) {
            return Some(&args[i].1);
        }
        i = i + 1;
    }
    None
}

/// Resolve a download URL using a named resolver.
/// Returns None if the resolver is unknown or fails.
pub fn resolve(name: &str, version: &str, args: &Vec<(String, String)>) -> (r: Option<String>)
    ensures
        resolved_by(name@, version@, version.spec_bytes(), pairs_view(args@), match r {
            Some(u) => Some(u@),
            None => None,
        }),
{
    if str_equals(name, "sharpcap") {
        let arch: &str = match lookup_arg(args, "arch") {
            Some(a) => a.as_str(),
            None => "x64",
        };
        let r = sharpcap_download_url(version, arch);
        proof {
            if version.spec_bytes().len() >= 10 {
                let raw = choose|raw: Seq<u8>| raw.len() == 16 && (r matches Some(u) && u@ == sharpcap_url(version.spec_bytes(), arch@, raw));
                assert(raw.len() == 16);
            }
        }
        r
    } else {
        None
    }
}

} // verus!
