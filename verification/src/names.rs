//! Project display names: deriving a readable name from a directory or
//! repository name, and pulling the repository name out of a git URL.

use vstd::prelude::*;
use crate::text::{
    ends_with_seq, spec_find, spec_split_ws, spec_trim, split_ws, string_from_chars,
    subrange_chars, to_chars, to_upper_char, trim_chars, upper_char, rfind_char,
};

verus! {

/// `-` and `_` replaced by spaces.
pub open spec fn spec_dash_to_space(s: Seq<char>) -> Seq<char> {
    s.map_values(|c: char| if c == '-' || c == '_' { ' ' } else { c })
}

/// The word with its first character upper-cased (ASCII).
pub open spec fn spec_capitalize(w: Seq<char>) -> Seq<char> {
    if w.len() == 0 {
        w
    } else {
        seq![upper_char(w[0])] + w.drop_first()
    }
}

/// The words joined with single spaces.
pub open spec fn spec_join_space(ws: Seq<Seq<char>>) -> Seq<char>
    decreases ws.len(),
{
    if ws.len() == 0 {
        Seq::empty()
    } else if ws.len() == 1 {
        ws.first()
    } else {
        ws.first() + seq![' '] + spec_join_space(ws.drop_first())
    }
}

proof fn lemma_join_push(ws: Seq<Seq<char>>, w: Seq<char>)
    ensures
        spec_join_space(ws.push(w)) == if ws.len() == 0 {
            w
        } else {
            spec_join_space(ws) + seq![' '] + w
        },
    decreases ws.len(),
{
    if ws.len() == 0 {
        assert(ws.push(w).len() == 1);
        assert(ws.push(w).first() == w);
    } else {
        assert(ws.push(w).first() == ws.first());
        assert(ws.push(w).drop_first() =~= ws.drop_first().push(w));
        lemma_join_push(ws.drop_first(), w);
        if ws.len() == 1 {
            assert(ws.drop_first().len() == 0);
            assert(spec_join_space(ws.push(w)) =~= spec_join_space(ws) + seq![' '] + w);
        } else {
            assert(spec_join_space(ws.push(w)) =~= spec_join_space(ws) + seq![' '] + w);
        }
    }
}

/// The formatted project name: separators become spaces, every word is
/// capitalized, words are joined by single spaces.
pub open spec fn spec_format_name(s: Seq<char>) -> Seq<char> {
    spec_join_space(
        spec_split_ws(spec_dash_to_space(s)).map_values(|w: Seq<char>| spec_capitalize(w)),
    )
}

/// Formats a raw directory or repository name for display.
pub fn format_project_name(name: &str) -> (r: String)
    ensures
        r@ == spec_format_name(name@),
{
    let nv = to_chars(name);
    let mut replaced: Vec<char> = Vec::new();
    let mut i: usize = 0;
    while i < nv.len()
        invariant
            i <= nv@.len(),
            replaced@ =~= spec_dash_to_space(nv@.subrange(0, i as int)),
        decreases nv@.len() - i,
    {
        let c = nv[i];
        if c == '-' || c == '_' {
            replaced.push(' ');
        } else {
            replaced.push(c);
        }
        assert(replaced@ =~= spec_dash_to_space(nv@.subrange(0, i + 1)));
        i += 1;
    }
    assert(nv@.subrange(0, nv@.len() as int) =~= nv@);
    let words = split_ws(&replaced);
    let ghost wv = words@.map_values(|v: Vec<char>| v@);
    let ghost cw = wv.map_values(|w: Seq<char>| spec_capitalize(w));
    let mut out: Vec<char> = Vec::new();
    let mut k: usize = 0;
    while k < words.len()
        invariant
            k <= words@.len(),
            wv == words@.map_values(|v: Vec<char>| v@),
            cw == wv.map_values(|w: Seq<char>| spec_capitalize(w)),
            cw.len() == words@.len(),
            wv == spec_split_ws(spec_dash_to_space(nv@)),
            nv@ == name@,
            out@ == spec_join_space(cw.take(k as int)),
        decreases words@.len() - k,
    {
        if k > 0 {
            out.push(' ');
        }
        let w = &words[k];
        if w.len() > 0 {
            out.push(to_upper_char(w[0]));
            let mut j: usize = 1;
            while j < w.len()
                invariant
                    1 <= j <= w@.len(),
                    w@.len() > 0,
                    out@ =~= if k > 0 {
                        spec_join_space(cw.take(k as int)) + seq![' ']
                    } else {
                        spec_join_space(cw.take(k as int))
                    } + seq![upper_char(w@[0])] + w@.subrange(1, j as int),
                decreases w@.len() - j,
            {
                out.push(w[j]);
                assert(w@.subrange(1, j + 1) =~= w@.subrange(1, j as int).push(w@[j as int]));
                assert(out@ =~= if k > 0 {
                    spec_join_space(cw.take(k as int)) + seq![' ']
                } else {
                    spec_join_space(cw.take(k as int))
                } + seq![upper_char(w@[0])] + w@.subrange(1, j + 1));
                j += 1;
            }
            assert(w@.subrange(1, w@.len() as int) =~= w@.drop_first());
        }
        proof {
            lemma_join_push(cw.take(k as int), spec_capitalize(wv[k as int]));
            assert(cw.take(k + 1) =~= cw.take(k as int).push(cw[k as int]));
            assert(cw[k as int] == spec_capitalize(wv[k as int]));
            if w@.len() == 0 {
                assert(spec_capitalize(wv[k as int]) =~= Seq::<char>::empty());
            } else {
                assert(spec_capitalize(wv[k as int]) =~= seq![upper_char(w@[0])]
                    + w@.drop_first());
            }
            assert(out@ =~= spec_join_space(cw.take(k + 1)));
        }
        k += 1;
    }
    assert(cw.take(words@.len() as int) =~= cw);
    string_from_chars(&out)
}

/// The `.git` suffix.
pub open spec fn git_suffix() -> Seq<char> {
    seq!['.', 'g', 'i', 't']
}

/// `s` with every trailing `.git` stripped.
pub open spec fn spec_strip_git_suffix(s: Seq<char>) -> Seq<char>
    decreases s.len(),
{
    if ends_with_seq(s, git_suffix()) {
        spec_strip_git_suffix(s.take(s.len() - 4))
    } else {
        s
    }
}

/// The segment after the last `/`, or all of `s`.
pub open spec fn spec_after_last_slash(s: Seq<char>) -> Seq<char>
    decreases s.len(),
{
    if s.len() == 0 {
        s
    } else if s.last() == '/' {
        Seq::empty()
    } else {
        spec_after_last_slash(s.drop_last()).push(s.last())
    }
}

proof fn lemma_after_last_slash_at(s: Seq<char>, i: int)
    requires
        0 <= i < s.len(),
        s[i] == '/',
        forall|j: int| i < j < s.len() ==> s[j] != '/',
    ensures
        spec_after_last_slash(s) == s.skip(i + 1),
    decreases s.len(),
{
    if i == s.len() - 1 {
        assert(s.skip(i + 1) =~= Seq::<char>::empty());
    } else {
        lemma_after_last_slash_at(s.drop_last(), i);
        assert(s.drop_last().skip(i + 1).push(s.last()) =~= s.skip(i + 1));
    }
}

proof fn lemma_after_last_slash_none(s: Seq<char>)
    requires
        forall|j: int| 0 <= j < s.len() ==> s[j] != '/',
    ensures
        spec_after_last_slash(s) == s,
    decreases s.len(),
{
    if s.len() > 0 {
        lemma_after_last_slash_none(s.drop_last());
        assert(s.drop_last().push(s.last()) =~= s);
    }
}

/// The `https://` prefix.
pub open spec fn https_prefix() -> Seq<char> {
    seq!['h', 't', 't', 'p', 's', ':', '/', '/']
}

/// The `http://` prefix.
pub open spec fn http_prefix() -> Seq<char> {
    seq!['h', 't', 't', 'p', ':', '/', '/']
}

/// The `git@` prefix.
pub open spec fn git_at_prefix() -> Seq<char> {
    seq!['g', 'i', 't', '@']
}

/// The `ssh://` prefix.
pub open spec fn ssh_prefix() -> Seq<char> {
    seq!['s', 's', 'h', ':', '/', '/']
}

/// `s` with its URL scheme removed: `https://`, `http://` and `ssh://` are
/// dropped; a `git@host:path` form keeps what follows the first colon; a
/// `git@` form without a colon is malformed.
pub open spec fn spec_strip_protocol(s: Seq<char>) -> Option<Seq<char>> {
    if crate::text::starts_with_seq(s, https_prefix()) {
        Some(s.skip(8))
    } else if crate::text::starts_with_seq(s, http_prefix()) {
        Some(s.skip(7))
    } else if crate::text::starts_with_seq(s, git_at_prefix()) {
        match spec_find(s, seq![':']) {
            Some(i) => Some(s.skip(i + 1)),
            None => None,
        }
    } else if crate::text::starts_with_seq(s, ssh_prefix()) {
        Some(s.skip(6))
    } else {
        Some(s)
    }
}

/// The error for a `git@` URL without a colon.
pub open spec fn bad_git_at_msg() -> Seq<char> {
    "Invalid Git URL format (git@)"@
}

/// The error for a URL whose repository segment is empty.
pub open spec fn empty_repo_msg() -> Seq<char> {
    "Invalid Git URL format: empty repository name"@
}

/// The display name carried by a git URL: the repository segment, stripped
/// of `.git`, formatted for display.
pub open spec fn spec_extract_name(url: Seq<char>) -> Result<Seq<char>, Seq<char>> {
    let t = spec_trim(url);
    match spec_strip_protocol(t) {
        None => Err(bad_git_at_msg()),
        Some(rest) => {
            let repo = spec_strip_git_suffix(spec_after_last_slash(rest));
            if repo.len() == 0 {
                Err(empty_repo_msg())
            } else {
                Ok(spec_format_name(repo))
            }
        },
    }
}

fn starts_with_lit(s: &Vec<char>, lit: &str) -> (r: bool)
    ensures
        r == crate::text::starts_with_seq(s@, lit@),
{
    let lv = to_chars(lit);
    crate::text::starts_with_chars(s, &lv)
}

/// Strips a trailing `.git`, repeatedly.
fn strip_git_suffix(s: Vec<char>) -> (r: Vec<char>)
    ensures
        r@ == spec_strip_git_suffix(s@),
    decreases s@.len(),
{
    let mut pat: Vec<char> = Vec::new();
    pat.push('.');
    pat.push('g');
    pat.push('i');
    pat.push('t');
    assert(pat@ =~= git_suffix());
    if crate::text::ends_with_chars(&s, &pat) {
        let t = subrange_chars(&s, 0, s.len() - 4);
        assert(t@ =~= s@.take(s@.len() - 4));
        strip_git_suffix(t)
    } else {
        s
    }
}

/// Extracts a display name from a git repository URL.
pub fn extract_project_name_from_url(url: &str) -> (r: Result<String, String>)
    ensures
        match r {
            Ok(name) => spec_extract_name(url@) == Ok::<Seq<char>, Seq<char>>(name@),
            Err(m) => spec_extract_name(url@) == Err::<Seq<char>, Seq<char>>(m@),
        },
{
    let uv = to_chars(url);
    let t = trim_chars(&uv);
    let tl = t.len();
    proof {
        reveal_strlit("https://");
        reveal_strlit("http://");
        reveal_strlit("git@");
        reveal_strlit("ssh://");
        assert("https://"@ =~= https_prefix());
        assert("http://"@ =~= http_prefix());
        assert("git@"@ =~= git_at_prefix());
        assert("ssh://"@ =~= ssh_prefix());
    }
    let rest: Vec<char>;
    if starts_with_lit(&t, "https://") {
        rest = subrange_chars(&t, 8, tl);
        assert(rest@ =~= t@.skip(8));
    } else if starts_with_lit(&t, "http://") {
        rest = subrange_chars(&t, 7, tl);
        assert(rest@ =~= t@.skip(7));
    } else if starts_with_lit(&t, "git@") {
        let mut colon: Vec<char> = Vec::new();
        colon.push(':');
        assert(colon@ =~= seq![':']);
        match crate::text::find_index(&t, &colon) {
            Some(i) => {
                rest = subrange_chars(&t, i + 1, tl);
                assert(rest@ =~= t@.skip(i + 1));
            },
            None => {
                return Err(String::from_str("Invalid Git URL format (git@)"));
            },
        }
    } else if starts_with_lit(&t, "ssh://") {
        rest = subrange_chars(&t, 6, tl);
        assert(rest@ =~= t@.skip(6));
    } else {
        rest = t;
    }
    let rl = rest.len();
    let last_part: Vec<char> = match rfind_char(&rest, '/') {
        Some(i) => {
            proof {
                lemma_after_last_slash_at(rest@, i as int);
            }
            let p = subrange_chars(&rest, i + 1, rl);
            assert(p@ =~= rest@.skip(i + 1));
            p
        },
        None => {
            proof {
                lemma_after_last_slash_none(rest@);
            }
            rest
        },
    };
    let repo = strip_git_suffix(last_part);
    if repo.len() == 0 {
        return Err(String::from_str("Invalid Git URL format: empty repository name"));
    }
    let repo_str = string_from_chars(&repo);
    Ok(format_project_name(repo_str.as_str()))
}

} // verus!
