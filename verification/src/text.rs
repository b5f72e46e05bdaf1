//! Verified text utilities: line splitting, whitespace tokenization,
//! trimming, and ASCII case-insensitive matching, each proved against a
//! specification over sequences of characters.

use vstd::prelude::*;

verus! {

/// Whitespace as this library's parsers understand it: the Unicode
/// code points with the White_Space property, written out.
pub open spec fn is_ws(c: char) -> bool {
    let u = c as u32;
    u == 0x20 || (0x9 <= u && u <= 0xD) || u == 0x85 || u == 0xA0 || u == 0x1680 || (0x2000 <= u
        && u <= 0x200A) || u == 0x2028 || u == 0x2029 || u == 0x202F || u == 0x205F || u == 0x3000
}

fn is_ws_exec(c: char) -> (r: bool)
    ensures
        r == is_ws(c),
{
    let u = c as u32;
    u == 0x20 || (0x9 <= u && u <= 0xD) || u == 0x85 || u == 0xA0 || u == 0x1680 || (0x2000 <= u
        && u <= 0x200A) || u == 0x2028 || u == 0x2029 || u == 0x202F || u == 0x205F || u == 0x3000
}

/// Index of the first occurrence of `c` in `s`, or `s.len()` if absent.
pub open spec fn find_char(s: Seq<char>, c: char) -> nat
    decreases s.len(),
{
    if s.len() == 0 {
        0
    } else if s[0] == c {
        0
    } else {
        1 + find_char(s.drop_first(), c)
    }
}

pub proof fn lemma_find_char(s: Seq<char>, c: char)
    ensures
        find_char(s, c) <= s.len(),
        find_char(s, c) < s.len() ==> s[find_char(s, c) as int] == c,
        forall|k: int| 0 <= k < find_char(s, c) ==> s[k] != c,
    decreases s.len(),
{
    if s.len() > 0 && s[0] != c {
        lemma_find_char(s.drop_first(), c);
        let f = find_char(s, c);
        assert(f == 1 + find_char(s.drop_first(), c));
        if f < s.len() {
            assert(s.drop_first()[f - 1] == s[f as int]);
        }
        assert forall|k: int| 0 <= k < f implies s[k] != c by {
            if k > 0 {
                assert(s.drop_first()[k - 1] == s[k]);
            }
        }
    }
}

/// First occurrence of `c`, or the character count when `c` is absent.
pub fn find_char_at(s: &str, c: char) -> (r: usize)
    ensures
        r == find_char(s@, c),
{
    proof {
        lemma_find_char(s@, c);
    }
    let n = s.unicode_len();
    let mut i: usize = 0;
    while i < n && s.get_char(i) != c
        invariant
            n == s@.len(),
            0 <= i <= n,
            forall|k: int| 0 <= k < i ==> s@[k] != c,
        decreases n - i,
    {
        i = i + 1;
    }
    proof {
        if i < find_char(s@, c) {
            assert(s@[i as int] != c);
        }
        if i > find_char(s@, c) {
            assert(s@[find_char(s@, c) as int] == c);
        }
    }
    i
}

/// Length of the leading whitespace run of `s`.
pub open spec fn ws_run(s: Seq<char>) -> nat
    decreases s.len(),
{
    if s.len() == 0 || !is_ws(s[0]) {
        0
    } else {
        1 + ws_run(s.drop_first())
    }
}

pub proof fn lemma_ws_run(s: Seq<char>)
    ensures
        ws_run(s) <= s.len(),
        ws_run(s) < s.len() ==> !is_ws(s[ws_run(s) as int]),
        forall|k: int| 0 <= k < ws_run(s) ==> is_ws(s[k]),
    decreases s.len(),
{
    if s.len() > 0 && is_ws(s[0]) {
        lemma_ws_run(s.drop_first());
        let f = ws_run(s);
        if f < s.len() {
            assert(s.drop_first()[f - 1] == s[f as int]);
        }
        assert forall|k: int| 0 <= k < f implies is_ws(s[k]) by {
            if k > 0 {
                assert(s.drop_first()[k - 1] == s[k]);
            }
        }
    }
}

/// Length of the leading non-whitespace run of `s`.
pub open spec fn word_run(s: Seq<char>) -> nat
    decreases s.len(),
{
    if s.len() == 0 || is_ws(s[0]) {
        0
    } else {
        1 + word_run(s.drop_first())
    }
}

pub proof fn lemma_word_run(s: Seq<char>)
    ensures
        word_run(s) <= s.len(),
        word_run(s) < s.len() ==> is_ws(s[word_run(s) as int]),
        forall|k: int| 0 <= k < word_run(s) ==> !is_ws(s[k]),
    decreases s.len(),
{
    if s.len() > 0 && !is_ws(s[0]) {
        lemma_word_run(s.drop_first());
        let f = word_run(s);
        if f < s.len() {
            assert(s.drop_first()[f - 1] == s[f as int]);
        }
        assert forall|k: int| 0 <= k < f implies !is_ws(s[k]) by {
            if k > 0 {
                assert(s.drop_first()[k - 1] == s[k]);
            }
        }
    }
}

fn ws_run_at(s: &str, from: usize) -> (r: usize)
    requires
        from <= s@.len(),
    ensures
        r == from + ws_run(s@.skip(from as int)),
        r <= s@.len(),
{
    proof {
        lemma_ws_run(s@.skip(from as int));
    }
    let n = s.unicode_len();
    let mut i: usize = from;
    while i < n && is_ws_exec(s.get_char(i))
        invariant
            n == s@.len(),
            from <= i <= n,
            forall|k: int| from <= k < i ==> is_ws(s@[k]),
        decreases n - i,
    {
        i = i + 1;
    }
    proof {
        let t = s@.skip(from as int);
        let w = ws_run(t);
        assert(forall|k: int| 0 <= k < t.len() ==> t[k] == s@[from + k]);
        if i - from < w {
            assert(is_ws(t[i - from as int]));
        }
        if i - from > w {
            assert(!is_ws(t[w as int]));
            assert(is_ws(s@[from + w]));
        }
    }
    i
}

fn word_run_at(s: &str, from: usize) -> (r: usize)
    requires
        from <= s@.len(),
    ensures
        r == from + word_run(s@.skip(from as int)),
        r <= s@.len(),
{
    proof {
        lemma_word_run(s@.skip(from as int));
    }
    let n = s.unicode_len();
    let mut i: usize = from;
    while i < n && !is_ws_exec(s.get_char(i))
        invariant
            n == s@.len(),
            from <= i <= n,
            forall|k: int| from <= k < i ==> !is_ws(s@[k]),
        decreases n - i,
    {
        i = i + 1;
    }
    proof {
        let t = s@.skip(from as int);
        let w = word_run(t);
        assert(forall|k: int| 0 <= k < t.len() ==> t[k] == s@[from + k]);
        if i - from < w {
            assert(!is_ws(t[i - from as int]));
        }
        if i - from > w {
            assert(is_ws(t[w as int]));
            assert(!is_ws(s@[from + w]));
        }
    }
    i
}

/// The whitespace-delimited tokens of `s`, in order.
pub open spec fn tokens_of(s: Seq<char>) -> Seq<Seq<char>>
    decreases s.len(),
{
    if s.len() == 0 {
        seq![]
    } else if is_ws(s[0]) {
        tokens_of(s.drop_first())
    } else {
        let k: int = 1 + word_run(s.drop_first()) as int;
        if k >= s.len() {
            seq![s]
        } else {
            seq![s.take(k)] + tokens_of(s.skip(k))
        }
    }
}

/// The whitespace-delimited tokens of `s`, as owned strings.
pub fn tokens(s: &str) -> (r: Vec<String>)
    ensures
        r.deep_view() == tokens_of(s@),
    decreases s@.len(),
{
    let n = s.unicode_len();
    if n == 0 {
        let r: Vec<String> = Vec::new();
        assert(r.deep_view() =~= tokens_of(s@));
        r
    } else if is_ws_exec(s.get_char(0)) {
        let rest = s.substring_char(1, n);
        assert(rest@ =~= s@.drop_first());
        tokens(rest)
    } else {
        proof {
            lemma_word_run(s@);
        }
        let k = word_run_at(s, 0);
        proof {
            assert(s@.skip(0) =~= s@);
            assert(k == word_run(s@));
            assert(word_run(s@) == 1 + word_run(s@.drop_first()));
        }
        let word = s.substring_char(0, k);
        if k >= n {
            let mut r: Vec<String> = Vec::new();
            r.push(String::from_str(word));
            proof {
                assert(word@ =~= s@);
                assert(r.deep_view() =~= tokens_of(s@));
            }
            r
        } else {
            let tail = s.substring_char(k, n);
            let mut rest = tokens(tail);
            let ghost rest_vv = rest@;
            let ghost rest_dv = rest.deep_view();
            proof {
                assert(tail@ =~= s@.skip(k as int));
            }
            let mut r: Vec<String> = Vec::new();
            r.push(String::from_str(word));
            r.append(&mut rest);
            proof {
                assert(word@ =~= s@.take(k as int));
                assert(r@ =~= seq![r@[0]] + rest_vv);
                assert forall|j: int| 0 < j < r@.len() implies r.deep_view()[j]
                    == rest_dv[j - 1] by {
                    assert(r@[j] == rest_vv[j - 1]);
                    assert(rest_dv[j - 1] == rest_vv[j - 1]@);
                }
                assert(r.deep_view() =~= seq![s@.take(k as int)] + rest_dv);
            }
            r
        }
    }
}

/// A line with one trailing carriage return removed, as the line-splitter
/// treats a "\r\n" ending like a bare "\n".
pub open spec fn strip_cr(l: Seq<char>) -> Seq<char> {
    if l.len() > 0 && l.last() == '\r' {
        l.drop_last()
    } else {
        l
    }
}

/// The lines of `s`: maximal segments separated by '\n', where a segment
/// ending in '\r' loses that final character and a trailing line break
/// produces no final empty line.
pub open spec fn lines_of(s: Seq<char>) -> Seq<Seq<char>>
    decreases s.len(),
{
    if s.len() == 0 {
        seq![]
    } else {
        let i = find_char(s, '\n') as int;
        if i >= s.len() {
            seq![s]
        } else {
            seq![strip_cr(s.take(i))] + lines_of(s.skip(i + 1))
        }
    }
}

/// Split `s` into its lines, as owned strings.
pub fn lines(s: &str) -> (r: Vec<String>)
    ensures
        r.deep_view() == lines_of(s@),
    decreases s@.len(),
{
    let n = s.unicode_len();
    if n == 0 {
        let r: Vec<String> = Vec::new();
        assert(r.deep_view() =~= lines_of(s@));
        r
    } else {
        proof {
            lemma_find_char(s@, '\n');
        }
        let i = find_char_at(s, '\n');
        if i >= n {
            let mut r: Vec<String> = Vec::new();
            r.push(String::from_str(s));
            assert(r.deep_view() =~= lines_of(s@));
            r
        } else {
            let head0 = s.substring_char(0, i);
            let hn = head0.unicode_len();
            let head = if hn > 0 && head0.get_char(hn - 1) == '\r' {
                let h = head0.substring_char(0, hn - 1);
                proof {
                    assert(h@ =~= strip_cr(s@.take(i as int)));
                }
                h
            } else {
                proof {
                    assert(head0@ =~= strip_cr(s@.take(i as int)));
                }
                head0
            };
            let tail = s.substring_char(i + 1, n);
            let mut rest = lines(tail);
            let ghost rest_vv = rest@;
            let ghost rest_dv = rest.deep_view();
            proof {
                assert(tail@ =~= s@.skip(i + 1));
            }
            let mut r: Vec<String> = Vec::new();
            r.push(String::from_str(head));
            r.append(&mut rest);
            proof {
                assert(r@ =~= seq![r@[0]] + rest_vv);
                assert forall|j: int| 0 < j < r@.len() implies r.deep_view()[j]
                    == rest_dv[j - 1] by {
                    assert(r@[j] == rest_vv[j - 1]);
                    assert(rest_dv[j - 1] == rest_vv[j - 1]@);
                }
                assert(r.deep_view() =~= seq![strip_cr(s@.take(i as int))] + rest_dv);
            }
            r
        }
    }
}

/// Length of the trailing whitespace run of `s`.
pub open spec fn ws_run_end(s: Seq<char>) -> nat
    decreases s.len(),
{
    if s.len() == 0 || !is_ws(s.last()) {
        0
    } else {
        1 + ws_run_end(s.drop_last())
    }
}

pub proof fn lemma_ws_run_end(s: Seq<char>)
    ensures
        ws_run_end(s) <= s.len(),
        ws_run_end(s) < s.len() ==> !is_ws(s[s.len() - 1 - ws_run_end(s)]),
        forall|k: int| s.len() - ws_run_end(s) <= k < s.len() ==> is_ws(s[k]),
    decreases s.len(),
{
    if s.len() > 0 && is_ws(s.last()) {
        lemma_ws_run_end(s.drop_last());
        assert forall|k: int| s.len() - ws_run_end(s) <= k < s.len() implies is_ws(s[k]) by {
            if k < s.len() - 1 {
                assert(s.drop_last()[k] == s[k]);
            }
        }
    }
}

/// `s` with leading and trailing whitespace removed.
pub open spec fn trim_of(s: Seq<char>) -> Seq<char> {
    let a = ws_run(s) as int;
    if a >= s.len() {
        seq![]
    } else {
        let t = s.skip(a);
        t.take(t.len() - ws_run_end(t))
    }
}

/// Remove leading and trailing whitespace.
pub fn trim(s: &str) -> (r: String)
    ensures
        r@ == trim_of(s@),
{
    proof {
        lemma_ws_run(s@);
        assert(s@.skip(0) =~= s@);
    }
    let n = s.unicode_len();
    let a = ws_run_at(s, 0);
    if a >= n {
        proof {
            assert(trim_of(s@) =~= Seq::<char>::empty());
        }
        String::new()
    } else {
        let ghost t = s@.skip(a as int);
        proof {
            lemma_ws_run_end(t);
        }
        let mut j: usize = n;
        while j > a && is_ws_exec(s.get_char(j - 1))
            invariant
                n == s@.len(),
                a <= j <= n,
                a < n,
                forall|k: int| j <= k < n ==> is_ws(s@[k]),
            decreases j,
        {
            j = j - 1;
        }
        proof {
            let e = ws_run_end(t) as int;
            assert(forall|k: int| 0 <= k < t.len() ==> t[k] == s@[a + k]);
            assert(!is_ws(t[0]));
            if e == t.len() {
                assert(is_ws(t[0]));
            }
            if j - a < t.len() - e {
                assert(is_ws(s@[n - 1 - e]));
                assert(!is_ws(t[t.len() - 1 - e]));
            }
            if j - a > t.len() - e {
                assert(j > a);
                assert(is_ws(t[j - 1 - a]));
                assert(!is_ws(s@[j - 1]));
            }
            assert(j - a == t.len() - e);
        }
        let r = s.substring_char(a, j);
        proof {
            assert(r@ =~= trim_of(s@));
        }
        String::from_str(r)
    }
}

/// Character-for-character equality of two string slices.
pub fn str_eq(a: &str, b: &str) -> (r: bool)
    ensures
        r == (a@ == b@),
{
    let n = a.unicode_len();
    if n != b.unicode_len() {
        return false;
    }
    let mut i: usize = 0;
    while i < n
        invariant
            n == a@.len(),
            n == b@.len(),
            0 <= i <= n,
            forall|k: int| 0 <= k < i ==> a@[k] == b@[k],
        decreases n - i,
    {
        if a.get_char(i) != b.get_char(i) {
            return false;
        }
        i = i + 1;
    }
    proof {
        assert(a@ =~= b@);
    }
    true
}

/// The lower-case counterpart of an ASCII letter, as a code point.
/// Case folding here is deliberately ASCII-only: the words the parsers
/// match this way ("id", "success") are ASCII, and no non-ASCII character
/// folds onto an ASCII letter one for one.
pub open spec fn lower_char(c: char) -> u32 {
    if 65 <= c as u32 && c as u32 <= 90 {
        (c as u32 + 32) as u32
    } else {
        c as u32
    }
}

/// Whether two characters are equal up to ASCII case.
pub open spec fn eq_ci(a: char, b: char) -> bool {
    lower_char(a) == lower_char(b)
}

fn eq_ci_exec(a: char, b: char) -> (r: bool)
    ensures
        r == eq_ci(a, b),
{
    let x = a as u32;
    let y = b as u32;
    let xl = if 65 <= x && x <= 90 {
        x + 32
    } else {
        x
    };
    let yl = if 65 <= y && y <= 90 {
        y + 32
    } else {
        y
    };
    xl == yl
}

/// Whether `p` is a prefix of `s`, up to ASCII case.
pub open spec fn prefix_ci(s: Seq<char>, p: Seq<char>) -> bool {
    p.len() <= s.len() && forall|k: int| 0 <= k < p.len() ==> eq_ci(s[k], p[k])
}

/// Whether `s` begins with `p`, up to ASCII case.
pub fn starts_with_ci(s: &str, p: &str) -> (r: bool)
    ensures
        r == prefix_ci(s@, p@),
{
    let m = p.unicode_len();
    if m > s.unicode_len() {
        return false;
    }
    let mut i: usize = 0;
    while i < m
        invariant
            m == p@.len(),
            m <= s@.len(),
            0 <= i <= m,
            forall|k: int| 0 <= k < i ==> eq_ci(s@[k], p@[k]),
        decreases m - i,
    {
        if !eq_ci_exec(s.get_char(i), p.get_char(i)) {
            return false;
        }
        i = i + 1;
    }
    true
}

/// Whether `s` contains `p` somewhere, up to ASCII case.
pub open spec fn contains_ci(s: Seq<char>, p: Seq<char>) -> bool {
    exists|i: int| 0 <= i <= s.len() - p.len() && prefix_ci(s.skip(i), p)
}

/// Search `s` for an occurrence of `p`, up to ASCII case.
pub fn find_ci(s: &str, p: &str) -> (r: bool)
    ensures
        r == contains_ci(s@, p@),
{
    let n = s.unicode_len();
    let m = p.unicode_len();
    if m > n {
        return false;
    }
    let mut i: usize = 0;
    while i <= n - m
        invariant
            n == s@.len(),
            m == p@.len(),
            m <= n,
            0 <= i <= n - m + 1,
            forall|k: int| 0 <= k < i ==> !prefix_ci(s@.skip(k), p@),
        decreases n - i,
    {
        let mut j: usize = 0;
        let mut ok = true;
        while j < m
            invariant
                n == s@.len(),
                m == p@.len(),
                m <= n,
                0 <= i <= n - m,
                0 <= j <= m,
                ok ==> forall|k: int| 0 <= k < j ==> eq_ci(s@[i + k], p@[k]),
                !ok ==> !prefix_ci(s@.skip(i as int), p@),
            decreases m - j,
        {
            if ok && !eq_ci_exec(s.get_char(i + j), p.get_char(j)) {
                proof {
                    assert(s@.skip(i as int)[j as int] == s@[i + j]);
                }
                ok = false;
            }
            j = j + 1;
        }
        if ok {
            proof {
                assert(forall|k: int| 0 <= k < m ==> s@.skip(i as int)[k] == s@[i + k]);
                assert(prefix_ci(s@.skip(i as int), p@));
            }
            return true;
        }
        i = i + 1;
    }
    proof {
        assert(forall|k: int| 0 <= k <= n - m ==> !prefix_ci(s@.skip(k), p@));
    }
    false
}

/// The part of `s` before its first '.', or all of `s` when it has none.
pub open spec fn before_dot(s: Seq<char>) -> Seq<char> {
    let i = find_char(s, '.') as int;
    if i >= s.len() {
        s
    } else {
        s.take(i)
    }
}

/// Truncate `s` at its first '.'.
pub fn take_before_dot(s: &str) -> (r: String)
    ensures
        r@ == before_dot(s@),
{
    proof {
        lemma_find_char(s@, '.');
    }
    let n = s.unicode_len();
    let i = find_char_at(s, '.');
    if i >= n {
        String::from_str(s)
    } else {
        String::from_str(s.substring_char(0, i))
    }
}

/// One trailing '.' of `s` removed, if it ends with one.
pub open spec fn strip_trailing_dot(s: Seq<char>) -> Seq<char> {
    if s.len() > 0 && s.last() == '.' {
        s.drop_last()
    } else {
        s
    }
}

/// Remove one trailing '.'.
pub fn drop_trailing_dot(s: &str) -> (r: String)
    ensures
        r@ == strip_trailing_dot(s@),
{
    let n = s.unicode_len();
    if n > 0 && s.get_char(n - 1) == '.' {
        let r = String::from_str(s.substring_char(0, n - 1));
        proof {
            assert(r@ =~= s@.drop_last());
        }
        r
    } else {
        String::from_str(s)
    }
}

/// The text of a boolean, as the command line spells it.
pub open spec fn bool_text(b: bool) -> Seq<char> {
    if b {
        "true"@
    } else {
        "false"@
    }
}

/// Render a boolean as "true" or "false".
pub fn bool_str(b: bool) -> (r: String)
    ensures
        r@ == bool_text(b),
{
    if b {
        String::from_str("true")
    } else {
        String::from_str("false")
    }
}

} // verus!
