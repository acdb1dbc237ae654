//! Character-level string utilities shared by the rest of the crate.
//!
//! All searching, casing and numeric conversion is done over `Vec<char>`
//! (viewed as `Seq<char>`), so every operation has an exact specification.

use vstd::prelude::*;
use vstd::string::StrSliceExecFns;
use vstd::string::StringExecFns;

verus! {

/// True when `n` occurs in `h` starting at index `i`.
pub open spec fn match_at(h: Seq<char>, n: Seq<char>, i: int) -> bool {
    0 <= i && i + n.len() <= h.len() && h.subrange(i, i + n.len() as int) == n
}

/// True when `n` occurs somewhere in `h`.
pub open spec fn contains_seq(h: Seq<char>, n: Seq<char>) -> bool {
    exists|i: int| match_at(h, n, i)
}

/// The characters of `s`, as a vector.
pub fn to_chars(s: &str) -> (v: Vec<char>)
    ensures
        v@ == s@,
{
    let n = s.unicode_len();
    let mut v: Vec<char> = Vec::new();
    let mut i: usize = 0;
    while i < n
        invariant
            i <= n,
            n == s@.len(),
            v@ == s@.subrange(0, i as int),
        decreases n - i,
    {
        v.push(s.get_char(i));
        assert(v@ =~= s@.subrange(0, i + 1 as int));
        i += 1;
    }
    assert(v@ =~= s@);
    v
}

/// Relies on `String`'s `FromIterator<char>` impl: collecting yields exactly
/// the characters of the iterator, in order.
#[verifier::external_body]
pub fn string_from_chars(v: &Vec<char>) -> (r: String)
    ensures
        r@ == v@,
{
    v.iter().collect()
}

/// Equality of two string slices, decided character by character.
pub fn str_eq(a: &str, b: &str) -> (r: bool)
    ensures
        r == (a@ == b@),
{
    let an = a.unicode_len();
    let bn = b.unicode_len();
    if an != bn {
        assert(a@ != b@);
        return false;
    }
    let mut i: usize = 0;
    while i < an
        invariant
            i <= an,
            an == a@.len(),
            bn == b@.len(),
            an == bn,
            forall|j: int| 0 <= j < i ==> a@[j] == b@[j],
        decreases an - i,
    {
        if a.get_char(i) != b.get_char(i) {
            assert(a@ != b@);
            return false;
        }
        i += 1;
    }
    assert(a@ =~= b@);
    true
}

/// Whether `n` occurs in `h` at position `i`.
pub fn eq_at(h: &Vec<char>, n: &Vec<char>, i: usize) -> (r: bool)
    requires
        i + n@.len() <= h@.len(),
    ensures
        r == match_at(h@, n@, i as int),
{
    let hl = h.len();
    let nl = n.len();
    let mut k: usize = 0;
    while k < nl
        invariant
            k <= nl,
            nl == n@.len(),
            hl == h@.len(),
            i + n@.len() <= h@.len(),
            forall|j: int| 0 <= j < k ==> h@[i + j] == n@[j],
        decreases nl - k,
    {
        if h[i + k] != n[k] {
            assert(!match_at(h@, n@, i as int)) by {
                if h@.subrange(i as int, i + n@.len() as int) == n@ {
                    assert(h@.subrange(i as int, i + n@.len() as int)[k as int] == h@[i + k]);
                }
            }
            return false;
        }
        k += 1;
    }
    assert(h@.subrange(i as int, i + n@.len() as int) =~= n@);
    true
}

/// First index at which `n` occurs in `h`, if any.
pub fn find_sub(h: &Vec<char>, n: &Vec<char>) -> (r: Option<usize>)
    ensures
        match r {
            Some(i) => match_at(h@, n@, i as int) && forall|j: int|
                0 <= j < i ==> !match_at(h@, n@, j),
            None => !contains_seq(h@, n@),
        },
{
    if n.len() > h.len() {
        assert(forall|i: int| !match_at(h@, n@, i));
        return None;
    }
    if n.len() == 0 {
        assert(h@.subrange(0, 0) =~= n@);
        return Some(0);
    }
    let hl = h.len();
    let last = hl - n.len();
    let mut i: usize = 0;
    loop
        invariant
            i <= last + 1,
            hl == h@.len(),
            last == h@.len() - n@.len(),
            0 < n@.len() <= h@.len(),
            forall|j: int| 0 <= j < i ==> !match_at(h@, n@, j),
        decreases last + 1 - i,
    {
        if i > last {
            assert(!contains_seq(h@, n@)) by {
                if contains_seq(h@, n@) {
                    let j = choose|j: int| match_at(h@, n@, j);
                    assert(j <= last);
                }
            }
            return None;
        }
        if eq_at(h, n, i) {
            return Some(i);
        }
        i += 1;
    }
}

/// Whether `n` occurs somewhere in `h`.
pub fn contains_chars(h: &Vec<char>, n: &Vec<char>) -> (r: bool)
    ensures
        r == contains_seq(h@, n@),
{
    match find_sub(h, n) {
        Some(_) => true,
        None => false,
    }
}

/// Whether the string `h` contains the string `n`.
pub fn contains_str(h: &str, n: &str) -> (r: bool)
    ensures
        r == contains_seq(h@, n@),
{
    let hv = to_chars(h);
    let nv = to_chars(n);
    contains_chars(&hv, &nv)
}

/// True when `p` is a prefix of `s`.
pub open spec fn starts_with_seq(s: Seq<char>, p: Seq<char>) -> bool {
    p.len() <= s.len() && s.subrange(0, p.len() as int) == p
}

/// True when `p` is a suffix of `s`.
pub open spec fn ends_with_seq(s: Seq<char>, p: Seq<char>) -> bool {
    p.len() <= s.len() && s.subrange(s.len() - p.len(), s.len() as int) == p
}

/// Whether `p` is a prefix of `s`.
pub fn starts_with_chars(s: &Vec<char>, p: &Vec<char>) -> (r: bool)
    ensures
        r == starts_with_seq(s@, p@),
{
    if p.len() > s.len() {
        return false;
    }
    eq_at(s, p, 0)
}

/// Whether `p` is a suffix of `s`.
pub fn ends_with_chars(s: &Vec<char>, p: &Vec<char>) -> (r: bool)
    ensures
        r == ends_with_seq(s@, p@),
{
    if p.len() > s.len() {
        return false;
    }
    let i = s.len() - p.len();
    let r = eq_at(s, p, i);
    assert(s@.subrange(i as int, i + p@.len() as int) =~= s@.subrange(
        s@.len() - p@.len(),
        s@.len() as int,
    ));
    r
}

/// ASCII lower-casing of one character.
pub open spec fn lower_char(c: char) -> char {
    if 'A' <= c && c <= 'Z' {
        ((c as int) + 32) as char
    } else {
        c
    }
}

/// ASCII upper-casing of one character.
pub open spec fn upper_char(c: char) -> char {
    if 'a' <= c && c <= 'z' {
        ((c as int) - 32) as char
    } else {
        c
    }
}

/// ASCII lower-casing of a sequence.
pub open spec fn lower_seq(s: Seq<char>) -> Seq<char> {
    s.map_values(|c: char| lower_char(c))
}

/// The ASCII lower-case form of one character.
pub fn to_lower_char(c: char) -> (r: char)
    ensures
        r == lower_char(c),
{
    match c {
        'A' => 'a',
        'B' => 'b',
        'C' => 'c',
        'D' => 'd',
        'E' => 'e',
        'F' => 'f',
        'G' => 'g',
        'H' => 'h',
        'I' => 'i',
        'J' => 'j',
        'K' => 'k',
        'L' => 'l',
        'M' => 'm',
        'N' => 'n',
        'O' => 'o',
        'P' => 'p',
        'Q' => 'q',
        'R' => 'r',
        'S' => 's',
        'T' => 't',
        'U' => 'u',
        'V' => 'v',
        'W' => 'w',
        'X' => 'x',
        'Y' => 'y',
        'Z' => 'z',
        _ => c,
    }
}

/// The ASCII upper-case form of one character.
pub fn to_upper_char(c: char) -> (r: char)
    ensures
        r == upper_char(c),
{
    match c {
        'a' => 'A',
        'b' => 'B',
        'c' => 'C',
        'd' => 'D',
        'e' => 'E',
        'f' => 'F',
        'g' => 'G',
        'h' => 'H',
        'i' => 'I',
        'j' => 'J',
        'k' => 'K',
        'l' => 'L',
        'm' => 'M',
        'n' => 'N',
        'o' => 'O',
        'p' => 'P',
        'q' => 'Q',
        'r' => 'R',
        's' => 'S',
        't' => 'T',
        'u' => 'U',
        'v' => 'V',
        'w' => 'W',
        'x' => 'X',
        'y' => 'Y',
        'z' => 'Z',
        _ => c,
    }
}

/// The ASCII lower-case form of a character vector.
pub fn lower_chars(s: &Vec<char>) -> (r: Vec<char>)
    ensures
        r@ == lower_seq(s@),
{
    let mut r: Vec<char> = Vec::new();
    let mut i: usize = 0;
    while i < s.len()
        invariant
            i <= s@.len(),
            r@ =~= lower_seq(s@.subrange(0, i as int)),
        decreases s@.len() - i,
    {
        r.push(to_lower_char(s[i]));
        assert(lower_seq(s@.subrange(0, i + 1)) =~= lower_seq(s@.subrange(0, i as int)).push(
            lower_char(s@[i as int]),
        ));
        i += 1;
    }
    assert(s@.subrange(0, s@.len() as int) =~= s@);
    r
}

/// The ASCII lower-case form of a string.
pub fn lower_str(s: &str) -> (r: Vec<char>)
    ensures
        r@ == lower_seq(s@),
{
    let v = to_chars(s);
    lower_chars(&v)
}

/// True for an ASCII decimal digit.
pub open spec fn is_digit(c: char) -> bool {
    '0' <= c && c <= '9'
}

/// The numeric value of an ASCII digit.
pub open spec fn digit_val(c: char) -> nat {
    ((c as int) - ('0' as int)) as nat
}

/// Whether `c` is an ASCII digit.
pub fn is_digit_char(c: char) -> (r: bool)
    ensures
        r == is_digit(c),
{
    c >= '0' && c <= '9'
}

/// The numeric value denoted by a digit sequence, most significant first.
pub open spec fn digits_value(s: Seq<char>) -> nat
    decreases s.len(),
{
    if s.len() == 0 {
        0
    } else {
        digits_value(s.drop_last()) * 10 + digit_val(s.last())
    }
}

/// True when `s` is a nonempty run of ASCII digits.
pub open spec fn all_digits(s: Seq<char>) -> bool {
    s.len() > 0 && forall|i: int| 0 <= i < s.len() ==> is_digit(s[i])
}

/// A digit appended to a digit sequence cannot lower its value.
proof fn lemma_digits_value_push(s: Seq<char>, c: char)
    ensures
        digits_value(s.push(c)) == digits_value(s) * 10 + digit_val(c),
{
    assert(s.push(c).drop_last() =~= s);
    assert(s.push(c).last() == c);
}

/// The decimal digits of `n`, most significant first.
pub open spec fn spec_digits(n: nat) -> Seq<char>
    decreases n,
{
    if n < 10 {
        seq![digit_char(n)]
    } else {
        spec_digits(n / 10).push(digit_char(n % 10))
    }
}

/// The digit character for a value below ten.
pub open spec fn digit_char(d: nat) -> char {
    if d == 0 {
        '0'
    } else if d == 1 {
        '1'
    } else if d == 2 {
        '2'
    } else if d == 3 {
        '3'
    } else if d == 4 {
        '4'
    } else if d == 5 {
        '5'
    } else if d == 6 {
        '6'
    } else if d == 7 {
        '7'
    } else if d == 8 {
        '8'
    } else {
        '9'
    }
}

/// The digit character of `d`, for `d < 10`.
pub fn digit_to_char(d: u64) -> (r: char)
    requires
        d < 10,
    ensures
        r == digit_char(d as nat),
{
    match d {
        0 => '0',
        1 => '1',
        2 => '2',
        3 => '3',
        4 => '4',
        5 => '5',
        6 => '6',
        7 => '7',
        8 => '8',
        _ => '9',
    }
}

/// Appends the decimal digits of `n` to `out`.
pub fn push_u64_digits(n: u64, out: &mut Vec<char>)
    ensures
        final(out)@ == old(out)@ + spec_digits(n as nat),
    decreases n,
{
    if n < 10 {
        out.push(digit_to_char(n));
        assert(out@ =~= old(out)@ + spec_digits(n as nat));
    } else {
        push_u64_digits(n / 10, out);
        out.push(digit_to_char(n % 10));
        assert(out@ =~= old(out)@ + spec_digits(n as nat));
    }
}

/// The decimal notation of `n`.
pub fn u64_to_string(n: u64) -> (r: String)
    ensures
        r@ == spec_digits(n as nat),
{
    let mut v: Vec<char> = Vec::new();
    push_u64_digits(n, &mut v);
    string_from_chars(&v)
}

/// The value of a digit prefix never exceeds the value of the whole run.
proof fn lemma_digits_value_prefix(s: Seq<char>, i: int)
    requires
        0 <= i <= s.len(),
    ensures
        digits_value(s.take(i)) <= digits_value(s),
    decreases s.len() - i,
{
    if i < s.len() {
        assert(s.take(i + 1).drop_last() =~= s.take(i));
        assert(digits_value(s.take(i + 1)) == digits_value(s.take(i)) * 10 + digit_val(
            s.take(i + 1).last(),
        ));
        lemma_digits_value_prefix(s, i + 1);
    } else {
        assert(s.take(i) =~= s);
    }
}

/// Parses a nonempty run of ASCII digits as a `u16`.
pub fn parse_u16(s: &Vec<char>) -> (r: Option<u16>)
    ensures
        match r {
            Some(v) => all_digits(s@) && digits_value(s@) == v as nat && digits_value(s@)
                <= u16::MAX,
            None => !all_digits(s@) || digits_value(s@) > u16::MAX,
        },
{
    if s.len() == 0 {
        return None;
    }
    let mut acc: u32 = 0;
    let mut i: usize = 0;
    while i < s.len()
        invariant
            0 < s@.len(),
            i <= s@.len(),
            acc <= u16::MAX,
            acc as nat == digits_value(s@.take(i as int)),
            forall|j: int| 0 <= j < i ==> is_digit(s@[j]),
        decreases s@.len() - i,
    {
        let c = s[i];
        if !is_digit_char(c) {
            return None;
        }
        let d = digit_value_of(c);
        proof {
            lemma_digits_value_push(s@.take(i as int), c);
            assert(s@.take(i + 1) =~= s@.take(i as int).push(c));
        }
        acc = acc * 10 + (d as u32);
        if acc > 65535 {
            proof {
                lemma_digits_value_prefix(s@, i + 1);
            }
            return None;
        }
        i += 1;
    }
    assert(s@.take(s@.len() as int) =~= s@);
    Some(acc as u16)
}

/// The numeric value of an ASCII digit character.
pub fn digit_value_of(c: char) -> (d: u8)
    requires
        is_digit(c),
    ensures
        d as nat == digit_val(c),
        d < 10,
{
    match c {
        '0' => 0,
        '1' => 1,
        '2' => 2,
        '3' => 3,
        '4' => 4,
        '5' => 5,
        '6' => 6,
        '7' => 7,
        '8' => 8,
        _ => {
            assert(c == '9');
            9
        },
    }
}

/// Parses a nonempty run of ASCII digits as a `u32`.
pub fn parse_u32(s: &Vec<char>) -> (r: Option<u32>)
    ensures
        match r {
            Some(v) => all_digits(s@) && digits_value(s@) == v as nat && digits_value(s@)
                <= u32::MAX,
            None => !all_digits(s@) || digits_value(s@) > u32::MAX,
        },
{
    if s.len() == 0 {
        return None;
    }
    let mut acc: u64 = 0;
    let mut i: usize = 0;
    while i < s.len()
        invariant
            0 < s@.len(),
            i <= s@.len(),
            acc <= u32::MAX,
            acc as nat == digits_value(s@.take(i as int)),
            forall|j: int| 0 <= j < i ==> is_digit(s@[j]),
        decreases s@.len() - i,
    {
        let c = s[i];
        if !is_digit_char(c) {
            return None;
        }
        let d = digit_value_of(c);
        proof {
            lemma_digits_value_push(s@.take(i as int), c);
            assert(s@.take(i + 1) =~= s@.take(i as int).push(c));
        }
        acc = acc * 10 + (d as u64);
        if acc > 0xffff_ffff {
            proof {
                lemma_digits_value_prefix(s@, i + 1);
            }
            return None;
        }
        i += 1;
    }
    assert(s@.take(s@.len() as int) =~= s@);
    Some(acc as u32)
}

/// True for the ASCII whitespace characters this crate strips.
pub open spec fn is_space(c: char) -> bool {
    c == ' ' || c == '\t' || c == '\r' || c == '\n'
}

/// Whether `c` is ASCII whitespace.
pub fn is_space_char(c: char) -> (r: bool)
    ensures
        r == is_space(c),
{
    c == ' ' || c == '\t' || c == '\r' || c == '\n'
}

/// `s` with leading whitespace removed.
pub open spec fn spec_trim_start(s: Seq<char>) -> Seq<char>
    decreases s.len(),
{
    if s.len() > 0 && is_space(s[0]) {
        spec_trim_start(s.drop_first())
    } else {
        s
    }
}

/// `s` with trailing whitespace removed.
pub open spec fn spec_trim_end(s: Seq<char>) -> Seq<char>
    decreases s.len(),
{
    if s.len() > 0 && is_space(s.last()) {
        spec_trim_end(s.drop_last())
    } else {
        s
    }
}

/// `s` with surrounding whitespace removed.
pub open spec fn spec_trim(s: Seq<char>) -> Seq<char> {
    spec_trim_end(spec_trim_start(s))
}

proof fn lemma_trim_start_skip(s: Seq<char>, a: int)
    requires
        0 <= a <= s.len(),
        forall|j: int| 0 <= j < a ==> is_space(s[j]),
        a == s.len() || !is_space(s[a]),
    ensures
        spec_trim_start(s) == s.skip(a),
    decreases a,
{
    if a == 0 {
        assert(s.skip(0) =~= s);
    } else {
        lemma_trim_start_skip(s.drop_first(), a - 1);
        assert(s.drop_first().skip(a - 1) =~= s.skip(a));
    }
}

proof fn lemma_trim_end_take(s: Seq<char>, b: int)
    requires
        0 <= b <= s.len(),
        forall|j: int| b <= j < s.len() ==> is_space(s[j]),
        b == 0 || !is_space(s[b - 1]),
    ensures
        spec_trim_end(s) == s.take(b),
    decreases s.len() - b,
{
    if b == s.len() {
        assert(s.take(b) =~= s);
    } else {
        lemma_trim_end_take(s.drop_last(), b);
        assert(s.drop_last().take(b) =~= s.take(b));
    }
}

/// `s` with surrounding ASCII whitespace removed.
pub fn trim_chars(s: &Vec<char>) -> (r: Vec<char>)
    ensures
        r@ == spec_trim(s@),
{
    let len = s.len();
    let mut a: usize = 0;
    while a < len && is_space_char(s[a])
        invariant
            a <= len,
            len == s@.len(),
            forall|j: int| 0 <= j < a ==> is_space(s@[j]),
        decreases len - a,
    {
        a += 1;
    }
    let mut b: usize = len;
    while b > a && is_space_char(s[b - 1])
        invariant
            a <= b <= len,
            len == s@.len(),
            forall|j: int| b <= j < len ==> is_space(s@[j]),
        decreases b,
    {
        b -= 1;
    }
    let mut r: Vec<char> = Vec::new();
    let mut i: usize = a;
    while i < b
        invariant
            a <= i <= b <= len,
            len == s@.len(),
            r@ =~= s@.subrange(a as int, i as int),
        decreases b - i,
    {
        r.push(s[i]);
        assert(r@ =~= s@.subrange(a as int, i + 1));
        i += 1;
    }
    proof {
        lemma_trim_start_skip(s@, a as int);
        let t = s@.skip(a as int);
        lemma_trim_end_take(t, b - a);
        assert(t.take(b - a) =~= s@.subrange(a as int, b as int));
    }
    r
}

/// First index of `c` in `s`, if any.
pub fn find_char(s: &Vec<char>, c: char) -> (r: Option<usize>)
    ensures
        match r {
            Some(i) => i < s@.len() && s@[i as int] == c && forall|j: int|
                0 <= j < i ==> s@[j] != c,
            None => forall|j: int| 0 <= j < s@.len() ==> s@[j] != c,
        },
{
    let mut i: usize = 0;
    while i < s.len()
        invariant
            i <= s@.len(),
            forall|j: int| 0 <= j < i ==> s@[j] != c,
        decreases s@.len() - i,
    {
        if s[i] == c {
            return Some(i);
        }
        i += 1;
    }
    None
}

/// Last index of `c` in `s`, if any.
pub fn rfind_char(s: &Vec<char>, c: char) -> (r: Option<usize>)
    ensures
        match r {
            Some(i) => i < s@.len() && s@[i as int] == c && forall|j: int|
                i < j < s@.len() ==> s@[j] != c,
            None => forall|j: int| 0 <= j < s@.len() ==> s@[j] != c,
        },
{
    let mut i: usize = s.len();
    while i > 0
        invariant
            i <= s@.len(),
            forall|j: int| i <= j < s@.len() ==> s@[j] != c,
        decreases i,
    {
        i -= 1;
        if s[i] == c {
            return Some(i);
        }
    }
    None
}

/// The lines of `s`, splitting at each newline character.
pub open spec fn spec_lines(s: Seq<char>) -> Seq<Seq<char>>
    decreases s.len(),
{
    if s.len() == 0 {
        seq![Seq::<char>::empty()]
    } else if s[0] == '\n' {
        seq![Seq::<char>::empty()] + spec_lines(s.drop_first())
    } else {
        let rest = spec_lines(s.drop_first());
        seq![seq![s[0]] + rest.first()] + rest.drop_first()
    }
}

/// Splitting always yields at least one line.
pub proof fn lemma_spec_lines_len(s: Seq<char>)
    ensures
        spec_lines(s).len() >= 1,
    decreases s.len(),
{
    if s.len() > 0 {
        lemma_spec_lines_len(s.drop_first());
    }
}

fn split_lines_from(s: &Vec<char>, i: usize) -> (r: Vec<Vec<char>>)
    requires
        i <= s@.len(),
    ensures
        r@.map_values(|v: Vec<char>| v@) == spec_lines(s@.skip(i as int)),
        r@.len() >= 1,
    decreases s@.len() - i,
{
    proof {
        lemma_spec_lines_len(s@.skip(i as int));
    }
    if i == s.len() {
        let mut r: Vec<Vec<char>> = Vec::new();
        r.push(Vec::new());
        assert(s@.skip(i as int) =~= Seq::<char>::empty());
        assert(r@.map_values(|v: Vec<char>| v@) =~~= spec_lines(s@.skip(i as int)));
        r
    } else {
        let c = s[i];
        let mut rest = split_lines_from(s, i + 1);
        assert(s@.skip(i as int).drop_first() =~= s@.skip(i + 1));
        if c == '\n' {
            rest.insert(0, Vec::new());
            assert(rest@.map_values(|v: Vec<char>| v@) =~~= spec_lines(s@.skip(i as int)));
            rest
        } else {
            let mut first_line = rest.remove(0);
            first_line.insert(0, c);
            rest.insert(0, first_line);
            assert(rest@.map_values(|v: Vec<char>| v@) =~~= spec_lines(s@.skip(i as int)));
            rest
        }
    }
}

/// The lines of `s`, in order, split at each newline character.
pub fn split_lines(s: &Vec<char>) -> (r: Vec<Vec<char>>)
    ensures
        r@.map_values(|v: Vec<char>| v@) == spec_lines(s@),
        r@.len() >= 1,
{
    let r = split_lines_from(s, 0);
    assert(s@.skip(0) =~= s@);
    r
}

/// The first index at or after `k` where `n` matches in `h`, if any.
pub open spec fn spec_find_from(h: Seq<char>, n: Seq<char>, k: int) -> Option<int>
    decreases h.len() - k,
{
    if k < 0 || k + n.len() > h.len() {
        None
    } else if n.len() == 0 {
        Some(k)
    } else if match_at(h, n, k) {
        Some(k)
    } else {
        spec_find_from(h, n, k + 1)
    }
}

/// The first index where `n` matches in `h`, if any.
pub open spec fn spec_find(h: Seq<char>, n: Seq<char>) -> Option<int> {
    spec_find_from(h, n, 0)
}

proof fn lemma_spec_find_from_step(h: Seq<char>, n: Seq<char>, k: int, i: int)
    requires
        0 <= k <= i,
        match_at(h, n, i),
        forall|j: int| k <= j < i ==> !match_at(h, n, j),
    ensures
        spec_find_from(h, n, k) == Some(i),
    decreases i - k,
{
    if k < i {
        if n.len() == 0 {
            assert(h.subrange(k, k) =~= n);
            assert(match_at(h, n, k));
        }
        lemma_spec_find_from_step(h, n, k + 1, i);
    }
}

/// A first match in the sense of `find_sub` is what `spec_find` denotes.
pub proof fn lemma_spec_find_of_first(h: Seq<char>, n: Seq<char>, i: int)
    requires
        match_at(h, n, i),
        forall|j: int| 0 <= j < i ==> !match_at(h, n, j),
    ensures
        spec_find(h, n) == Some(i),
{
    lemma_spec_find_from_step(h, n, 0, i);
}

proof fn lemma_spec_find_from_absent(h: Seq<char>, n: Seq<char>, k: int)
    requires
        !contains_seq(h, n),
        k >= 0,
    ensures
        spec_find_from(h, n, k) is None,
    decreases h.len() - k,
{
    if n.len() == 0 {
        assert(h.subrange(0, 0) =~= n);
        assert(match_at(h, n, 0));
    } else if !(k + n.len() > h.len()) {
        lemma_spec_find_from_absent(h, n, k + 1);
    }
}

/// Without a match anywhere, `spec_find` denotes nothing.
pub proof fn lemma_spec_find_absent(h: Seq<char>, n: Seq<char>)
    requires
        !contains_seq(h, n),
    ensures
        spec_find(h, n) is None,
{
    lemma_spec_find_from_absent(h, n, 0);
}

/// First match of `n` in `h`, as `spec_find` denotes it.
pub fn find_index(h: &Vec<char>, n: &Vec<char>) -> (r: Option<usize>)
    ensures
        match r {
            Some(i) => spec_find(h@, n@) == Some(i as int) && match_at(h@, n@, i as int),
            None => spec_find(h@, n@) is None,
        },
{
    match find_sub(h, n) {
        Some(i) => {
            proof {
                lemma_spec_find_of_first(h@, n@, i as int);
            }
            Some(i)
        },
        None => {
            proof {
                lemma_spec_find_absent(h@, n@);
            }
            None
        },
    }
}

/// The characters of `s` between `a` and `b`.
pub fn subrange_chars(s: &Vec<char>, a: usize, b: usize) -> (r: Vec<char>)
    requires
        a <= b <= s@.len(),
    ensures
        r@ == s@.subrange(a as int, b as int),
{
    let mut r: Vec<char> = Vec::new();
    let mut i: usize = a;
    while i < b
        invariant
            a <= i <= b <= s@.len(),
            r@ =~= s@.subrange(a as int, i as int),
        decreases b - i,
    {
        r.push(s[i]);
        assert(r@ =~= s@.subrange(a as int, i + 1));
        i += 1;
    }
    r
}

/// The first index at or after `k` holding a non-space character, `s.len()`
/// if there is none.
pub open spec fn spec_skip_spaces(s: Seq<char>, k: int) -> int
    decreases s.len() - k,
{
    if 0 <= k < s.len() && is_space(s[k]) {
        spec_skip_spaces(s, k + 1)
    } else {
        k
    }
}

/// Skips spaces in `s` from `k` on.
pub fn skip_spaces(s: &Vec<char>, k: usize) -> (r: usize)
    requires
        k <= s@.len(),
    ensures
        r as int == spec_skip_spaces(s@, k as int),
        k <= r <= s@.len(),
    decreases s@.len() - k,
{
    if k < s.len() && is_space_char(s[k]) {
        skip_spaces(s, k + 1)
    } else {
        k
    }
}

/// The end of the digit run starting at `k`.
pub open spec fn spec_digit_run_end(s: Seq<char>, k: int) -> int
    decreases s.len() - k,
{
    if 0 <= k < s.len() && is_digit(s[k]) {
        spec_digit_run_end(s, k + 1)
    } else {
        k
    }
}

/// Scans past the digit run starting at `k`.
pub fn digit_run_end(s: &Vec<char>, k: usize) -> (r: usize)
    requires
        k <= s@.len(),
    ensures
        r as int == spec_digit_run_end(s@, k as int),
        k <= r <= s@.len(),
    decreases s@.len() - k,
{
    if k < s.len() && is_digit_char(s[k]) {
        digit_run_end(s, k + 1)
    } else {
        k
    }
}

/// Appends all of `s` to `out`.
pub fn append_chars(out: &mut Vec<char>, s: &Vec<char>)
    ensures
        final(out)@ == old(out)@ + s@,
{
    let mut i: usize = 0;
    while i < s.len()
        invariant
            i <= s@.len(),
            out@ =~= old(out)@ + s@.subrange(0, i as int),
        decreases s@.len() - i,
    {
        out.push(s[i]);
        assert(out@ =~= old(out)@ + s@.subrange(0, i + 1));
        i += 1;
    }
    assert(out@ =~= old(out)@ + s@);
}

/// Appends the characters of the string `s` to `out`.
pub fn append_str(out: &mut Vec<char>, s: &str)
    ensures
        final(out)@ == old(out)@ + s@,
{
    let v = to_chars(s);
    append_chars(out, &v);
}

/// The parts joined with `sep` between them.
pub open spec fn spec_join_sep(ws: Seq<Seq<char>>, sep: char) -> Seq<char>
    decreases ws.len(),
{
    if ws.len() == 0 {
        Seq::empty()
    } else if ws.len() == 1 {
        ws.first()
    } else {
        ws.first() + seq![sep] + spec_join_sep(ws.drop_first(), sep)
    }
}

/// Joining one more part appends a separator and the part.
pub proof fn lemma_join_sep_push(ws: Seq<Seq<char>>, w: Seq<char>, sep: char)
    ensures
        spec_join_sep(ws.push(w), sep) == if ws.len() == 0 {
            w
        } else {
            spec_join_sep(ws, sep) + seq![sep] + w
        },
    decreases ws.len(),
{
    if ws.len() == 0 {
        assert(ws.push(w).len() == 1);
        assert(ws.push(w).first() == w);
    } else {
        assert(ws.push(w).first() == ws.first());
        assert(ws.push(w).drop_first() =~= ws.drop_first().push(w));
        lemma_join_sep_push(ws.drop_first(), w, sep);
        if ws.len() == 1 {
            assert(spec_join_sep(ws.push(w), sep) =~= spec_join_sep(ws, sep) + seq![sep] + w);
        } else {
            assert(spec_join_sep(ws.push(w), sep) =~= spec_join_sep(ws, sep) + seq![sep] + w);
        }
    }
}

/// Appends the parts to `out`, separated by `sep`.
pub fn append_joined(out: &mut Vec<char>, parts: &Vec<String>, sep: char)
    ensures
        final(out)@ == old(out)@ + spec_join_sep(
            parts@.map_values(|s: String| s@),
            sep,
        ),
{
    let ghost pv = parts@.map_values(|s: String| s@);
    let mut i: usize = 0;
    while i < parts.len()
        invariant
            i <= parts@.len(),
            pv == parts@.map_values(|s: String| s@),
            pv.len() == parts@.len(),
            out@ == old(out)@ + spec_join_sep(pv.take(i as int), sep),
        decreases parts@.len() - i,
    {
        if i > 0 {
            out.push(sep);
        }
        append_str(out, parts[i].as_str());
        proof {
            lemma_join_sep_push(pv.take(i as int), pv[i as int], sep);
            assert(pv.take(i + 1) =~= pv.take(i as int).push(pv[i as int]));
            assert(out@ =~= old(out)@ + spec_join_sep(pv.take(i + 1), sep));
        }
        i += 1;
    }
    assert(pv.take(parts@.len() as int) =~= pv);
}

/// The whitespace-separated tokens of `s`.
pub open spec fn spec_split_ws(s: Seq<char>) -> Seq<Seq<char>>
    decreases s.len(),
{
    if s.len() == 0 {
        Seq::<Seq<char>>::empty()
    } else if is_space(s[0]) {
        spec_split_ws(s.drop_first())
    } else {
        let rest = spec_split_ws(s.drop_first());
        if s.len() > 1 && !is_space(s[1]) {
            seq![seq![s[0]] + rest.first()] + rest.drop_first()
        } else {
            seq![seq![s[0]]] + rest
        }
    }
}

proof fn lemma_split_ws_head(s: Seq<char>)
    requires
        s.len() > 0,
        !is_space(s[0]),
    ensures
        spec_split_ws(s).len() >= 1,
{
}

fn split_ws_from(s: &Vec<char>, i: usize) -> (r: Vec<Vec<char>>)
    requires
        i <= s@.len(),
    ensures
        r@.map_values(|v: Vec<char>| v@) == spec_split_ws(s@.skip(i as int)),
    decreases s@.len() - i,
{
    if i == s.len() {
        let r: Vec<Vec<char>> = Vec::new();
        assert(s@.skip(i as int) =~= Seq::<char>::empty());
        assert(r@.map_values(|v: Vec<char>| v@) =~~= spec_split_ws(s@.skip(i as int)));
        r
    } else {
        let c = s[i];
        let mut rest = split_ws_from(s, i + 1);
        assert(s@.skip(i as int).drop_first() =~= s@.skip(i + 1));
        if is_space_char(c) {
            rest
        } else {
            let follow_joined = i + 1 < s.len() && !is_space_char(s[i + 1]);
            if follow_joined {
                proof {
                    assert(s@.skip(i + 1)[0] == s@[i + 1]);
                    lemma_split_ws_head(s@.skip(i + 1));
                }
                let mut first_tok = rest.remove(0);
                first_tok.insert(0, c);
                rest.insert(0, first_tok);
                assert(rest@.map_values(|v: Vec<char>| v@) =~~= spec_split_ws(s@.skip(i as int)));
                rest
            } else {
                let mut tok: Vec<char> = Vec::new();
                tok.push(c);
                rest.insert(0, tok);
                assert(rest@.map_values(|v: Vec<char>| v@) =~~= spec_split_ws(s@.skip(i as int)));
                rest
            }
        }
    }
}

/// The whitespace-separated tokens of `s`, in order.
pub fn split_ws(s: &Vec<char>) -> (r: Vec<Vec<char>>)
    ensures
        r@.map_values(|v: Vec<char>| v@) == spec_split_ws(s@),
{
    let r = split_ws_from(s, 0);
    assert(s@.skip(0) =~= s@);
    r
}

} // verus!
