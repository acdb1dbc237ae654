//! Port extraction under a defined precedence.
//!
//! For each service the port is tried from several sources in a fixed
//! order: an environment-file key (several aliases, first hit wins, a
//! trailing comment is stripped), then the framework's configuration file,
//! then the port named by the manifest's dev command, and finally the
//! framework's hard-coded default. Every source is read as plain text
//! handed in by the caller; nothing here touches the filesystem.

use vstd::prelude::*;
use crate::text::{
    all_digits, digits_value, is_digit, is_digit_char, match_at, parse_u16, spec_find,
    spec_digit_run_end, spec_lines, spec_skip_spaces, spec_trim, split_lines, to_chars, trim_chars,
    digit_run_end, skip_spaces, find_index, find_char, subrange_chars, eq_at,
};

verus! {

/// Everything in a digit run is a digit.
proof fn lemma_digit_run(s: Seq<char>, k: int, m: int)
    requires
        0 <= k <= m < spec_digit_run_end(s, k),
    ensures
        is_digit(s[m]),
    decreases m - k,
{
    if k < m {
        lemma_digit_run(s, k + 1, m);
    }
}

/// The run end never runs past the sequence, nor backwards.
proof fn lemma_digit_run_bounds(s: Seq<char>, k: int)
    requires
        0 <= k <= s.len(),
    ensures
        k <= spec_digit_run_end(s, k) <= s.len(),
    decreases s.len() - k,
{
    if k < s.len() && is_digit(s[k]) {
        lemma_digit_run_bounds(s, k + 1);
    }
}

/// The digits starting at `k`, read as a port if they fit.
pub open spec fn spec_run_port(s: Seq<char>, k: int) -> Option<u16> {
    let d = s.subrange(k, spec_digit_run_end(s, k));
    if digits_value(d) <= u16::MAX {
        Some(digits_value(d) as u16)
    } else {
        None
    }
}

/// Reads the digit run starting at `k` (which must hold a digit) as a port.
fn run_port(s: &Vec<char>, k: usize) -> (r: Option<u16>)
    requires
        k < s@.len(),
        is_digit(s@[k as int]),
    ensures
        r == spec_run_port(s@, k as int),
{
    let e = digit_run_end(s, k);
    proof {
        lemma_digit_run_bounds(s@, k as int);
    }
    let d = subrange_chars(s, k, e);
    proof {
        assert forall|j: int| 0 <= j < d@.len() implies is_digit(d@[j]) by {
            lemma_digit_run(s@, k as int, k + j);
        }
        lemma_digit_run_bounds(s@, k as int + 1);
        assert(spec_digit_run_end(s@, k as int) == spec_digit_run_end(s@, k as int + 1));
        assert(e > k);
        assert(all_digits(d@));
    }
    parse_u16(&d)
}

/// The prefix of `s` before the first `c`, or all of `s`.
pub open spec fn spec_upto_char(s: Seq<char>, c: char) -> Seq<char>
    decreases s.len(),
{
    if s.len() == 0 {
        s
    } else if s[0] == c {
        Seq::empty()
    } else {
        seq![s[0]] + spec_upto_char(s.drop_first(), c)
    }
}

proof fn lemma_upto_char_take(s: Seq<char>, c: char, i: int)
    requires
        0 <= i <= s.len(),
        forall|j: int| 0 <= j < i ==> s[j] != c,
        i == s.len() || s[i] == c,
    ensures
        spec_upto_char(s, c) == s.take(i),
    decreases i,
{
    if i == 0 {
        assert(s.take(0) =~= Seq::<char>::empty());
        if s.len() == 0 {
            assert(s.take(0) =~= s);
        }
    } else {
        lemma_upto_char_take(s.drop_first(), c, i - 1);
        assert(seq![s[0]] + s.drop_first().take(i - 1) =~= s.take(i));
    }
}

/// The prefix of `s` before the first `c`.
pub fn upto_char(s: &Vec<char>, c: char) -> (r: Vec<char>)
    ensures
        r@ == spec_upto_char(s@, c),
{
    match find_char(s, c) {
        Some(i) => {
            let r = subrange_chars(s, 0, i);
            proof {
                lemma_upto_char_take(s@, c, i as int);
                assert(s@.subrange(0, i as int) =~= s@.take(i as int));
            }
            r
        },
        None => {
            let r = subrange_chars(s, 0, s.len());
            proof {
                lemma_upto_char_take(s@, c, s@.len() as int);
                assert(s@.subrange(0, s@.len() as int) =~= s@.take(s@.len() as int));
            }
            r
        },
    }
}

/// The port denoted by an environment-file value: trimmed, cut at the first
/// comment mark, trimmed again, then read as a decimal number.
pub open spec fn spec_env_value_port(raw: Seq<char>) -> Option<u16> {
    let v = spec_trim(spec_upto_char(spec_trim(raw), '#'));
    if all_digits(v) && digits_value(v) <= u16::MAX {
        Some(digits_value(v) as u16)
    } else {
        None
    }
}

fn env_value_port(raw: &Vec<char>) -> (r: Option<u16>)
    ensures
        r == spec_env_value_port(raw@),
{
    let t1 = trim_chars(raw);
    let cut = upto_char(&t1, '#');
    let v = trim_chars(&cut);
    parse_u16(&v)
}

/// The port a line yields for one key: the text after the first `KEY=`.
pub open spec fn spec_line_key_port(line: Seq<char>, key: Seq<char>) -> Option<u16> {
    match spec_find(line, key + seq!['=']) {
        Some(pos) => spec_env_value_port(line.skip(pos + key.len() + 1)),
        None => None,
    }
}

fn line_key_port(line: &Vec<char>, key: &Vec<char>) -> (r: Option<u16>)
    ensures
        r == spec_line_key_port(line@, key@),
{
    let mut pat: Vec<char> = Vec::new();
    let mut i: usize = 0;
    while i < key.len()
        invariant
            i <= key@.len(),
            pat@ =~= key@.take(i as int),
        decreases key@.len() - i,
    {
        pat.push(key[i]);
        assert(pat@ =~= key@.take(i + 1));
        i += 1;
    }
    pat.push('=');
    assert(pat@ =~= key@ + seq!['=']);
    let ll = line.len();
    match find_index(line, &pat) {
        Some(pos) => {
            let value = subrange_chars(line, pos + pat.len(), ll);
            assert(value@ =~= line@.skip(pos + key@.len() + 1));
            env_value_port(&value)
        },
        None => None,
    }
}

/// The first key, in order, whose value in `line` parses as a port.
pub open spec fn spec_keys_port(line: Seq<char>, keys: Seq<Seq<char>>) -> Option<u16>
    decreases keys.len(),
{
    if keys.len() == 0 {
        None
    } else {
        match spec_line_key_port(line, keys.first()) {
            Some(p) => Some(p),
            None => spec_keys_port(line, keys.drop_first()),
        }
    }
}

/// The first line, in order, that yields a port for some key.
pub open spec fn spec_scan_lines(lines: Seq<Seq<char>>, keys: Seq<Seq<char>>) -> Option<u16>
    decreases lines.len(),
{
    if lines.len() == 0 {
        None
    } else {
        match spec_keys_port(lines.first(), keys) {
            Some(p) => Some(p),
            None => spec_scan_lines(lines.drop_first(), keys),
        }
    }
}

/// The view of each key.
pub open spec fn views_of_strs(v: Seq<&str>) -> Seq<Seq<char>> {
    v.map_values(|s: &str| s@)
}

/// The port an environment file yields for the given keys: lines are tried
/// in order, and within a line the keys in their order; the first value
/// that parses wins.
pub open spec fn spec_env_port(content: Seq<char>, keys: Seq<Seq<char>>) -> Option<u16> {
    spec_scan_lines(spec_lines(content), keys)
}

/// Extracts a port from environment-file text, trying each key alias.
pub fn extract_port_from_env(content: &str, keys: Vec<&str>) -> (r: Option<u16>)
    ensures
        r == spec_env_port(content@, views_of_strs(keys@)),
{
    let cv = to_chars(content);
    let lines = split_lines(&cv);
    let ghost lv = lines@.map_values(|v: Vec<char>| v@);
    let ghost kv = views_of_strs(keys@);
    assert(lv.skip(0) =~= lv);
    let mut i: usize = 0;
    while i < lines.len()
        invariant
            i <= lines@.len(),
            lv == lines@.map_values(|v: Vec<char>| v@),
            kv == views_of_strs(keys@),
            lv.len() == lines@.len(),
            kv.len() == keys@.len(),
            lv == spec_lines(cv@),
            cv@ == content@,
            spec_scan_lines(lv, kv) == spec_scan_lines(lv.skip(i as int), kv),
        decreases lines@.len() - i,
    {
        assert(lv.skip(i as int).first() == lv[i as int]);
        assert(lv.skip(i as int).drop_first() =~= lv.skip(i + 1));
        let ghost line_view = lv[i as int];
        assert(kv.skip(0) =~= kv);
        let mut k: usize = 0;
        while k < keys.len()
            invariant
                k <= keys@.len(),
                i < lines@.len(),
                lv == lines@.map_values(|v: Vec<char>| v@),
                kv == views_of_strs(keys@),
                kv.len() == keys@.len(),
                lv.len() == lines@.len(),
                line_view == lv[i as int],
                lv == spec_lines(content@),
                spec_scan_lines(lv, kv) == spec_scan_lines(lv.skip(i as int), kv),
                lv.skip(i as int).first() == line_view,
                spec_keys_port(line_view, kv) == spec_keys_port(line_view, kv.skip(k as int)),
            decreases keys@.len() - k,
        {
            assert(kv.skip(k as int).first() == kv[k as int]);
            assert(kv.skip(k as int).drop_first() =~= kv.skip(k + 1));
            let key_chars = to_chars(keys[k]);
            match line_key_port(&lines[i], &key_chars) {
                Some(p) => {
                    assert(spec_keys_port(line_view, kv) == Some(p));
                    assert(spec_scan_lines(lv.skip(i as int), kv) == Some(p));
                    return Some(p);
                },
                None => {},
            }
            k += 1;
        }
        assert(kv.skip(keys@.len() as int) =~= Seq::<Seq<char>>::empty());
        assert(spec_keys_port(line_view, kv) is None);
        i += 1;
    }
    assert(lv.skip(lines@.len() as int) =~= Seq::<Seq<char>>::empty());
    None
}

/// The first newline at or after `k`, or the end of `s`.
pub open spec fn spec_next_newline(s: Seq<char>, k: int) -> int
    decreases s.len() - k,
{
    if 0 <= k < s.len() && s[k] != '\n' {
        spec_next_newline(s, k + 1)
    } else {
        k
    }
}

fn next_newline(s: &Vec<char>, k: usize) -> (r: usize)
    requires
        k <= s@.len(),
    ensures
        r as int == spec_next_newline(s@, k as int),
        k <= r <= s@.len(),
    decreases s@.len() - k,
{
    if k < s.len() && s[k] != '\n' {
        next_newline(s, k + 1)
    } else {
        k
    }
}

/// The first position in `[k, limit)` holding a colon directly followed by
/// a digit, if any.
pub open spec fn spec_first_colon_digit(s: Seq<char>, k: int, limit: int) -> Option<int>
    decreases limit - k,
{
    if k < 0 || k + 1 >= limit || limit > s.len() {
        None
    } else if s[k] == ':' && is_digit(s[k + 1]) {
        Some(k)
    } else {
        spec_first_colon_digit(s, k + 1, limit)
    }
}

fn first_colon_digit(s: &Vec<char>, k: usize, limit: usize) -> (r: Option<usize>)
    requires
        k <= limit <= s@.len(),
    ensures
        match r {
            Some(i) => spec_first_colon_digit(s@, k as int, limit as int) == Some(i as int) && k
                <= i && i + 1 < limit && s@[i as int] == ':' && is_digit(s@[i + 1]),
            None => spec_first_colon_digit(s@, k as int, limit as int) is None,
        },
    decreases limit - k,
{
    if limit - k < 2 {
        None
    } else if s[k] == ':' && is_digit_char(s[k + 1]) {
        Some(k)
    } else {
        first_colon_digit(s, k + 1, limit)
    }
}

/// The port named after `marker` on the same line: the first colon followed
/// by a digit after the marker, its digit run read as a number.
pub open spec fn spec_port_after_colon(content: Seq<char>, marker: Seq<char>) -> Option<u16> {
    match spec_find(content, marker) {
        None => None,
        Some(i) => {
            let start = i + marker.len();
            let limit = spec_next_newline(content, start);
            match spec_first_colon_digit(content, start, limit) {
                None => None,
                Some(j) => spec_run_port(content, j + 1),
            }
        },
    }
}

/// Finds the port named after `marker` (a colon and digits on its line).
pub fn port_after_colon(content: &str, marker: &str) -> (r: Option<u16>)
    ensures
        r == spec_port_after_colon(content@, marker@),
{
    let cv = to_chars(content);
    let mv = to_chars(marker);
    let cl = cv.len();
    match find_index(&cv, &mv) {
        None => None,
        Some(i) => {
            assert(i + mv@.len() <= cl);
            let start = i + mv.len();
            let limit = next_newline(&cv, start);
            match first_colon_digit(&cv, start, limit) {
                None => None,
                Some(j) => run_port(&cv, j + 1),
            }
        },
    }
}

/// The port written directly after `marker`, with optional whitespace
/// between them.
pub open spec fn spec_port_after_marker(content: Seq<char>, marker: Seq<char>) -> Option<u16> {
    match spec_find(content, marker) {
        None => None,
        Some(i) => {
            let m = spec_skip_spaces(content, i + marker.len());
            if m < content.len() && is_digit(content[m]) {
                spec_run_port(content, m)
            } else {
                None
            }
        },
    }
}

/// Finds the port written directly after `marker`.
pub fn port_after_marker(content: &str, marker: &str) -> (r: Option<u16>)
    ensures
        r == spec_port_after_marker(content@, marker@),
{
    let cv = to_chars(content);
    let mv = to_chars(marker);
    let cl = cv.len();
    match find_index(&cv, &mv) {
        None => None,
        Some(i) => {
            assert(i + mv@.len() <= cl);
            let m = skip_spaces(&cv, i + mv.len());
            if m < cv.len() && is_digit_char(cv[m]) {
                run_port(&cv, m)
            } else {
                None
            }
        },
    }
}

/// The first match of `flag` at or after `k` that is not preceded by a
/// closing quote, if any.
pub open spec fn spec_flag_before_quote(s: Seq<char>, flag: Seq<char>, k: int) -> Option<int>
    decreases s.len() - k,
{
    if k < 0 || flag.len() == 0 || k + flag.len() > s.len() {
        None
    } else if match_at(s, flag, k) {
        Some(k)
    } else if s[k] == '"' {
        None
    } else {
        spec_flag_before_quote(s, flag, k + 1)
    }
}

fn flag_before_quote(s: &Vec<char>, flag: &Vec<char>, k: usize) -> (r: Option<usize>)
    requires
        k <= s@.len(),
    ensures
        match r {
            Some(i) => spec_flag_before_quote(s@, flag@, k as int) == Some(i as int) && k <= i && i
                + flag@.len() <= s@.len(),
            None => spec_flag_before_quote(s@, flag@, k as int) is None,
        },
    decreases s@.len() - k,
{
    if flag.len() == 0 || s.len() - k < flag.len() {
        None
    } else if eq_at(s, flag, k) {
        Some(k)
    } else if s[k] == '"' {
        None
    } else {
        flag_before_quote(s, flag, k + 1)
    }
}

/// The `"dev":` manifest key.
pub open spec fn spec_dev_key() -> Seq<char> {
    seq!['"', 'd', 'e', 'v', '"', ':']
}

/// The port in a manifest's dev command: the quoted command after `"dev":`
/// must begin with `prefix`, and the digits after `flag` (still inside the
/// same quoted command) name the port.
pub open spec fn spec_dev_command_port(content: Seq<char>, prefix: Seq<char>, flag: Seq<char>)
    -> Option<u16> {
    match spec_find(content, spec_dev_key()) {
        None => None,
        Some(i) => {
            let j = spec_skip_spaces(content, i + 6);
            if j < content.len() && content[j] == '"' && match_at(content, prefix, j + 1) {
                match spec_flag_before_quote(content, flag, j + 1 + prefix.len()) {
                    None => None,
                    Some(k) => {
                        let m = spec_skip_spaces(content, k + flag.len());
                        if m > k + flag.len() && m < content.len() && is_digit(content[m]) {
                            spec_run_port(content, m)
                        } else {
                            None
                        }
                    },
                }
            } else {
                None
            }
        },
    }
}

/// Finds the port in a manifest dev command beginning with `prefix`.
pub fn dev_command_port(content: &str, prefix: &str, flag: &str) -> (r: Option<u16>)
    ensures
        r == spec_dev_command_port(content@, prefix@, flag@),
{
    let cv = to_chars(content);
    let pv = to_chars(prefix);
    let fv = to_chars(flag);
    let mut key: Vec<char> = Vec::new();
    key.push('"');
    key.push('d');
    key.push('e');
    key.push('v');
    key.push('"');
    key.push(':');
    assert(key@ =~= spec_dev_key());
    let cl = cv.len();
    match find_index(&cv, &key) {
        None => None,
        Some(i) => {
            assert(i + 6 <= cl);
            let j = skip_spaces(&cv, i + 6);
            if j < cl && cv[j] == '"' && pv.len() <= cl - (j + 1) && eq_at(&cv, &pv, j + 1) {
                match flag_before_quote(&cv, &fv, j + 1 + pv.len()) {
                    None => None,
                    Some(k) => {
                        assert(k + fv@.len() <= cl);
                        let m = skip_spaces(&cv, k + fv.len());
                        if m > k + fv.len() && m < cl && is_digit_char(cv[m]) {
                            run_port(&cv, m)
                        } else {
                            None
                        }
                    },
                }
            } else {
                proof {
                    if j < cv@.len() && cv@[j as int] == '"' && j + 1 + pv@.len() > cv@.len() {
                        assert(!match_at(cv@, pv@, j + 1));
                    }
                }
                None
            }
        },
    }
}

/// The backend's environment-file key aliases.
pub open spec fn backend_env_keys() -> Seq<Seq<char>> {
    seq!["PORT"@, "BACKEND_PORT"@, "PAYLOAD_PORT"@]
}

/// The frontend's environment-file key aliases.
pub open spec fn frontend_env_keys() -> Seq<Seq<char>> {
    seq!["PORT"@, "NEXT_PORT"@]
}

/// The backend port under the defined precedence: environment file first,
/// then the framework configuration, then the manifest dev command, then
/// the framework default.
pub open spec fn spec_backend_port(
    env: Option<Seq<char>>,
    config: Option<Seq<char>>,
    pkg: Option<Seq<char>>,
) -> u16 {
    let e = match env {
        Some(c) => spec_env_port(c, backend_env_keys()),
        None => None,
    };
    match e {
        Some(p) => p,
        None => {
            let c = match config {
                Some(c) => spec_port_after_colon(c, "serverURL"@),
                None => None,
            };
            match c {
                Some(p) => p,
                None => {
                    let d = match pkg {
                        Some(c) => spec_dev_command_port(c, "payload"@, "--port"@),
                        None => None,
                    };
                    match d {
                        Some(p) => p,
                        None => 3010,
                    }
                },
            }
        },
    }
}

/// The frontend port under the same precedence, with the frontend's
/// sources and default.
pub open spec fn spec_frontend_port(
    env: Option<Seq<char>>,
    config: Option<Seq<char>>,
    pkg: Option<Seq<char>>,
) -> u16 {
    let e = match env {
        Some(c) => spec_env_port(c, frontend_env_keys()),
        None => None,
    };
    match e {
        Some(p) => p,
        None => {
            let c = match config {
                Some(c) => spec_port_after_marker(c, "port:"@),
                None => None,
            };
            match c {
                Some(p) => p,
                None => {
                    let d = match pkg {
                        Some(c) => spec_dev_command_port(c, "next dev"@, "-p"@),
                        None => None,
                    };
                    match d {
                        Some(p) => p,
                        None => 3000,
                    }
                },
            }
        },
    }
}

/// The view of an optional text.
pub open spec fn opt_view(o: Option<&str>) -> Option<Seq<char>> {
    match o {
        Some(s) => Some(s@),
        None => None,
    }
}

/// The backend's port: `.env` keys first, then `payload.config.ts`'s
/// server URL, then the manifest's dev command, then 3010.
pub fn detect_backend_port(env: Option<&str>, config: Option<&str>, package: Option<&str>) -> (r:
    u16)
    ensures
        r == spec_backend_port(opt_view(env), opt_view(config), opt_view(package)),
{
    let e = match env {
        Some(c) => {
            let r = extract_port_from_env(c, vec!["PORT", "BACKEND_PORT", "PAYLOAD_PORT"]);
            proof {
                assert(views_of_strs(seq!["PORT", "BACKEND_PORT", "PAYLOAD_PORT"])
                    =~= backend_env_keys());
            }
            r
        },
        None => None,
    };
    match e {
        Some(p) => p,
        None => {
            let c = match config {
                Some(c) => port_after_colon(c, "serverURL"),
                None => None,
            };
            match c {
                Some(p) => p,
                None => {
                    let d = match package {
                        Some(c) => dev_command_port(c, "payload", "--port"),
                        None => None,
                    };
                    match d {
                        Some(p) => p,
                        None => 3010,
                    }
                },
            }
        },
    }
}

/// The frontend's port: `.env.local` keys first, then `next.config.js`'s
/// port entry, then the manifest's dev command, then 3000.
pub fn detect_frontend_port(env: Option<&str>, config: Option<&str>, package: Option<&str>) -> (r:
    u16)
    ensures
        r == spec_frontend_port(opt_view(env), opt_view(config), opt_view(package)),
{
    let e = match env {
        Some(c) => {
            let r = extract_port_from_env(c, vec!["PORT", "NEXT_PORT"]);
            proof {
                assert(views_of_strs(seq!["PORT", "NEXT_PORT"]) =~= frontend_env_keys());
            }
            r
        },
        None => None,
    };
    match e {
        Some(p) => p,
        None => {
            let c = match config {
                Some(c) => port_after_marker(c, "port:"),
                None => None,
            };
            match c {
                Some(p) => p,
                None => {
                    let d = match package {
                        Some(c) => dev_command_port(c, "next dev", "-p"),
                        None => None,
                    };
                    match d {
                        Some(p) => p,
                        None => 3000,
                    }
                },
            }
        },
    }
}

} // verus!
