use vstd::prelude::*;
use vstd::string::*;

use crate::platform::Platform;

verus! {

pub open spec fn arch_token() -> Seq<char> {
    seq!['%', 'a', 'r', 'c', 'h', '%']
}

pub open spec fn os_token() -> Seq<char> {
    seq!['%', 'o', 's', '%']
}

pub open spec fn target_token() -> Seq<char> {
    seq!['%', 't', 'a', 'r', 'g', 'e', 't', '%']
}

pub open spec fn version_token() -> Seq<char> {
    seq!['%', 'v', 'e', 'r', 's', 'i', 'o', 'n', '%']
}

pub open spec fn starts_with(s: Seq<char>, p: Seq<char>) -> bool {
    p.len() <= s.len() && s.subrange(0, p.len() as int) == p
}

/// The values that the tokens of a template stand for.
pub struct Facts {
    pub arch: Seq<char>,
    pub os: Seq<char>,
    pub target: Seq<char>,
    pub version: Seq<char>,
}

pub open spec fn facts_of(p: Platform, version: Seq<char>) -> Facts {
    Facts { arch: p.arch@, os: p.os@, target: p.target@, version }
}

/// A template with each token replaced by its value, scanning left to right;
/// a replacement is not scanned again.
pub open spec fn expand(t: Seq<char>, f: Facts) -> Seq<char>
    decreases t.len(),
{
    if t.len() == 0 {
        seq![]
    } else if starts_with(t, arch_token()) {
        f.arch + expand(t.skip(6), f)
    } else if starts_with(t, os_token()) {
        f.os + expand(t.skip(4), f)
    } else if starts_with(t, target_token()) {
        f.target + expand(t.skip(8), f)
    } else if starts_with(t, version_token()) {
        f.version + expand(t.skip(9), f)
    } else {
        seq![t[0]] + expand(t.skip(1), f)
    }
}

/// Whether `tok` occurs in `s` at position `i`.
fn occurs_at(s: &str, n: usize, i: usize, tok: &str) -> (r: bool)
    requires
        n == s@.len(),
        i <= n,
    ensures
        r == starts_with(s@.skip(i as int), tok@),
{
    let k = tok.unicode_len();
    if k > n - i {
        return false;
    }
    let mut j: usize = 0;
    while j < k
        invariant
            k == tok@.len(),
            i + k <= n,
            n == s@.len(),
            j <= k,
            forall|m: int| 0 <= m < j ==> s@[i + m] == tok@[m],
        decreases k - j,
    {
        if s.get_char(i + j) != tok.get_char(j) {
            assert(s@.skip(i as int).subrange(0, k as int)[j as int] != tok@[j as int]);
            return false;
        }
        j += 1;
    }
    assert(s@.skip(i as int).subrange(0, k as int) =~= tok@);
    true
}

proof fn lemma_skip_skip(t: Seq<char>, i: int, k: int)
    requires
        0 <= i,
        0 <= k,
        i + k <= t.len(),
    ensures
        t.skip(i).skip(k) =~= t.skip(i + k),
{
}

/// The token at position `i` of the template and its value, if one starts there.
fn token_at<'a>(template: &str, n: usize, i: usize, platform: &'a Platform, version: &'a str) -> (r: Option<(&'a str, usize)>)
    requires
        n == template@.len(),
        i < n,
    ensures
        match r {
            Some((rep, k)) => 0 < k && i + k <= n && expand(template@.skip(i as int), facts_of(*platform, version@))
                == rep@ + expand(template@.skip(i + k), facts_of(*platform, version@)),
            None => expand(template@.skip(i as int), facts_of(*platform, version@))
                == seq![template@[i as int]] + expand(template@.skip(i + 1), facts_of(*platform, version@)),
        },
{
    proof {
        reveal_strlit("%arch%");
        reveal_strlit("%os%");
        reveal_strlit("%target%");
        reveal_strlit("%version%");
        assert("%arch%"@ =~= arch_token());
        assert("%os%"@ =~= os_token());
        assert("%target%"@ =~= target_token());
        assert("%version%"@ =~= version_token());
    }
    let ghost t = template@;
    if occurs_at(template, n, i, "%arch%") {
        proof { lemma_skip_skip(t, i as int, 6); }
        Some((platform.arch.as_str(), 6))
    } else if occurs_at(template, n, i, "%os%") {
        proof { lemma_skip_skip(t, i as int, 4); }
        Some((platform.os.as_str(), 4))
    } else if occurs_at(template, n, i, "%target%") {
        proof { lemma_skip_skip(t, i as int, 8); }
        Some((platform.target.as_str(), 8))
    } else if occurs_at(template, n, i, "%version%") {
        proof { lemma_skip_skip(t, i as int, 9); }
        Some((version, 9))
    } else {
        proof { lemma_skip_skip(t, i as int, 1); }
        None
    }
}

/// Expands the tokens `%arch%`, `%os%`, `%target%` and `%version%` of an
/// artifact template.
pub fn expand_artifact_pattern(template: &str, platform: &Platform, version: &str) -> (r: String)
    ensures
        r@ == expand(template@, facts_of(*platform, version@)),
{
    let ghost f = facts_of(*platform, version@);
    let ghost t = template@;
    let n = template.unicode_len();
    let mut out = String::new();
    let mut start: usize = 0;
    let mut i: usize = 0;
    proof {
        assert(t.skip(0) =~= t);
        assert(out@ + t.subrange(0, 0) + t =~= t);
    }
    while i < n
        invariant
            n == t.len(),
            t == template@,
            f == facts_of(*platform, version@),
            start <= i <= n,
            out@ + t.subrange(start as int, i as int) + expand(t.skip(i as int), f) == expand(t, f),
        decreases n - i,
    {
        let ghost before = t.subrange(start as int, i as int);
        match token_at(template, n, i, platform, version) {
            None => {
                proof {
                    assert(before + seq![t[i as int]] =~= t.subrange(start as int, i + 1));
                    assert(out@ + t.subrange(start as int, i + 1) + expand(t.skip(i + 1), f)
                        =~= out@ + before + (seq![t[i as int]] + expand(t.skip(i + 1), f)));
                }
                i += 1;
            },
            Some((rep, k)) => {
                let ghost out0 = out@;
                let piece = template.substring_char(start, i);
                out.append(piece);
                out.append(rep);
                i += k;
                start = i;
                proof {
                    assert(out@ == out0 + before + rep@);
                    assert(t.subrange(start as int, i as int) =~= Seq::<char>::empty());
                    assert(out@ + t.subrange(start as int, i as int) + expand(t.skip(i as int), f)
                        =~= out0 + before + (rep@ + expand(t.skip(i as int), f)));
                }
            },
        }
    }
    let rest = template.substring_char(start, n);
    out.append(rest);
    proof {
        assert(t.skip(n as int) =~= Seq::<char>::empty());
        assert(out@ =~= out@ + expand(t.skip(n as int), f));
    }
    out
}

/// No character of `s` is `%`, so no token occurs in it.
pub open spec fn free_of_percent(s: Seq<char>) -> bool {
    forall|i: int| 0 <= i < s.len() ==> s[i] != '%'
}

proof fn lemma_expand_plain(p: Seq<char>, rest: Seq<char>, f: Facts)
    requires
        free_of_percent(p),
    ensures
        expand(p + rest, f) == p + expand(rest, f),
    decreases p.len(),
{
    if p.len() > 0 {
        let s = p + rest;
        assert(s[0] == p[0]);
        assert(s.subrange(0, 1)[0] == p[0]);
        assert(!starts_with(s, arch_token()));
        assert(!starts_with(s, os_token()));
        assert(!starts_with(s, target_token()));
        assert(!starts_with(s, version_token()));
        assert(s.skip(1) =~= p.skip(1) + rest);
        lemma_expand_plain(p.skip(1), rest, f);
        assert(p =~= seq![p[0]] + p.skip(1));
        assert(seq![p[0]] + (p.skip(1) + expand(rest, f)) =~= p + expand(rest, f));
    } else {
        assert(p + rest =~= rest);
        assert(p + expand(rest, f) =~= expand(rest, f));
    }
}

proof fn lemma_expand_tokens(rest: Seq<char>, f: Facts)
    ensures
        expand(arch_token() + rest, f) == f.arch + expand(rest, f),
        expand(os_token() + rest, f) == f.os + expand(rest, f),
        expand(version_token() + rest, f) == f.version + expand(rest, f),
{
    let a = arch_token() + rest;
    assert(a.subrange(0, 6) =~= arch_token());
    assert(a.skip(6) =~= rest);
    let o = os_token() + rest;
    assert(o.subrange(0, 4) =~= os_token());
    assert(o.skip(4) =~= rest);
    if 6 <= o.len() {
        assert(o.subrange(0, 6)[1] != arch_token()[1]);
    }
    let v = version_token() + rest;
    assert(v.subrange(0, 9) =~= version_token());
    assert(v.skip(9) =~= rest);
    assert(v.subrange(0, 6)[1] != arch_token()[1]);
    assert(v.subrange(0, 4)[1] != os_token()[1]);
    assert(v.subrange(0, 8)[1] != target_token()[1]);
}

proof fn lemma_free_of_percent_concat(a: Seq<char>, b: Seq<char>)
    requires
        free_of_percent(a),
        free_of_percent(b),
    ensures
        free_of_percent(a + b),
{
    assert forall|i: int| 0 <= i < (a + b).len() implies (a + b)[i] != '%' by {
        if i >= a.len() {
            assert((a + b)[i] == b[i - a.len()]);
        }
    }
}

/// Expanding `tool-%version%-%os%-%arch%` gives the one literal string
/// `tool-<version>-<os>-<arch>`; where none of those values holds a `%`,
/// no token remains in it.
pub proof fn lemma_tool_template_expansion(f: Facts)
    ensures
        expand("tool-%version%-%os%-%arch%"@, f) == "tool-"@ + f.version + "-"@ + f.os + "-"@ + f.arch,
        free_of_percent(f.version) && free_of_percent(f.os) && free_of_percent(f.arch)
            ==> free_of_percent(expand("tool-%version%-%os%-%arch%"@, f)),
{
    reveal_strlit("tool-%version%-%os%-%arch%");
    reveal_strlit("tool-");
    reveal_strlit("-");
    let head = "tool-"@;
    let dash = "-"@;
    let empty = Seq::<char>::empty();
    let t = "tool-%version%-%os%-%arch%"@;
    assert(t =~= head + (version_token() + (dash + (os_token() + (dash + (arch_token() + empty))))));
    assert(free_of_percent(head));
    assert(free_of_percent(dash));
    lemma_expand_tokens(empty, f);
    assert(expand(empty, f) =~= empty);
    let arch_part = f.arch + empty;
    lemma_expand_plain(dash, arch_token() + empty, f);
    lemma_expand_tokens(dash + (arch_token() + empty), f);
    lemma_expand_plain(dash, os_token() + (dash + (arch_token() + empty)), f);
    lemma_expand_tokens(dash + (os_token() + (dash + (arch_token() + empty))), f);
    lemma_expand_plain(head, version_token() + (dash + (os_token() + (dash + (arch_token() + empty)))), f);
    assert(expand(t, f) =~= head + (f.version + (dash + (f.os + (dash + arch_part)))));
    assert(expand(t, f) =~= head + f.version + dash + f.os + dash + f.arch);
    if free_of_percent(f.version) && free_of_percent(f.os) && free_of_percent(f.arch) {
        lemma_free_of_percent_concat(head, f.version);
        lemma_free_of_percent_concat(head + f.version, dash);
        lemma_free_of_percent_concat(head + f.version + dash, f.os);
        lemma_free_of_percent_concat(head + f.version + dash + f.os, dash);
        lemma_free_of_percent_concat(head + f.version + dash + f.os + dash, f.arch);
    }
}

} // verus!
