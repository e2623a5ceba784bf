//! Character and string helpers shared by the sysfs parsers.

use vstd::prelude::*;

verus! {

/// The characters of `s`, in order.
pub fn chars_of(s: &str) -> (v: Vec<char>)
    ensures
        v@ == s@,
{
    let mut v: Vec<char> = Vec::new();
    for c in it: s.chars()
        invariant
            v@ == it.history(),
    {
        v.push(c);
    }
    v
}

/// A fresh vector holding the characters `v`.
pub fn copy_chars(v: &[char]) -> (r: Vec<char>)
    ensures
        r@ == v@,
{
    let mut r: Vec<char> = Vec::new();
    let mut k: usize = 0;
    while k < v.len()
        invariant
            0 <= k <= v@.len(),
            r@ == v@.take(k as int),
        decreases v.len() - k,
    {
        r.push(v[k]);
        assert(v@.take(k + 1) =~= v@.take(k as int).push(v@[k as int]));
        k = k + 1;
    }
    assert(v@.take(v@.len() as int) =~= v@);
    r
}

/// Whether two character sequences hold the same characters.
pub fn chars_eq(a: &[char], b: &[char]) -> (r: bool)
    ensures
        r == (a@ == b@),
{
    if a.len() != b.len() {
        return false;
    }
    let mut i: usize = 0;
    while i < a.len()
        invariant
            0 <= i <= a.len(),
            a@.len() == b@.len(),
            forall|k: int| 0 <= k < i ==> a@[k] == b@[k],
        decreases a.len() - i,
    {
        if a[i] != b[i] {
            return false;
        }
        i = i + 1;
    }
    assert(a@ =~= b@);
    true
}

/// Whether the characters `a` spell the string `b`.
pub fn chars_eq_str(a: &[char], b: &str) -> (r: bool)
    ensures
        r == (a@ == b@),
{
    let bv = chars_of(b);
    chars_eq(a, bv.as_slice())
}

/// Whether two strings hold the same characters.
pub fn str_eq(a: &str, b: &str) -> (r: bool)
    ensures
        r == (a@ == b@),
{
    let av = chars_of(a);
    chars_eq_str(av.as_slice(), b)
}

/// The characters that carry the Unicode `White_Space` property, which is what
/// `char::is_whitespace` and the trimming and splitting of `str` accept.
pub open spec fn is_white(c: char) -> bool {
    let u = c as u32;
    ||| 0x09 <= u <= 0x0d
    ||| u == 0x20
    ||| u == 0x85
    ||| u == 0xa0
    ||| u == 0x1680
    ||| 0x2000 <= u <= 0x200a
    ||| u == 0x2028
    ||| u == 0x2029
    ||| u == 0x202f
    ||| u == 0x205f
    ||| u == 0x3000
}

pub fn is_whitespace(c: char) -> (r: bool)
    ensures
        r == is_white(c),
{
    let u = c as u32;
    (0x09 <= u && u <= 0x0d) || u == 0x20 || u == 0x85 || u == 0xa0 || u == 0x1680 || (0x2000
        <= u && u <= 0x200a) || u == 0x2028 || u == 0x2029 || u == 0x202f || u == 0x205f || u
        == 0x3000
}

/// ASCII decimal digits `0..=9`.
pub open spec fn is_digit(c: char) -> bool {
    '0' as u32 <= c as u32 <= '9' as u32
}

pub fn is_ascii_digit(c: char) -> (r: bool)
    ensures
        r == is_digit(c),
{
    let u = c as u32;
    '0' as u32 <= u && u <= '9' as u32
}

/// What separates the runs that [`split_runs`] returns.
#[derive(Debug, Clone, Copy, PartialEq, Eq, Structural)]
pub enum Separator {
    /// Any Unicode whitespace (as `str::split_whitespace`).
    White,
    /// Anything that is not an ASCII digit.
    NonDigit,
    /// One given character.
    Char(char),
}

pub open spec fn is_sep(k: Separator, c: char) -> bool {
    match k {
        Separator::White => is_white(c),
        Separator::NonDigit => !is_digit(c),
        Separator::Char(d) => c == d,
    }
}

pub fn is_separator(k: Separator, c: char) -> (r: bool)
    ensures
        r == is_sep(k, c),
{
    match k {
        Separator::White => is_whitespace(c),
        Separator::NonDigit => !is_ascii_digit(c),
        Separator::Char(d) => c == d,
    }
}

/// Length of the longest prefix of `s` free of separators.
pub open spec fn leading_run(s: Seq<char>, k: Separator) -> nat
    decreases s.len(),
{
    if s.len() == 0 || is_sep(k, s[0]) {
        0
    } else {
        1 + leading_run(s.drop_first(), k)
    }
}

pub proof fn lemma_leading_run_bounds(s: Seq<char>, k: Separator)
    ensures
        0 <= leading_run(s, k) <= s.len(),
        s.len() > 0 && !is_sep(k, s[0]) ==> leading_run(s, k) >= 1,
    decreases s.len(),
{
    if s.len() > 0 && !is_sep(k, s[0]) {
        lemma_leading_run_bounds(s.drop_first(), k);
    }
}

/// The maximal non-empty runs of `s` that contain no separator, in order.
pub open spec fn runs(s: Seq<char>, k: Separator) -> Seq<Seq<char>>
    decreases s.len(),
{
    if s.len() == 0 {
        seq![]
    } else if is_sep(k, s[0]) {
        runs(s.drop_first(), k)
    } else {
        let n = leading_run(s, k);
        proof {
            lemma_leading_run_bounds(s, k);
        }
        seq![s.take(n as int)] + runs(s.skip(n as int), k)
    }
}

/// The whitespace-separated words of `s`, as `str::split_whitespace` yields them.
pub open spec fn words(s: Seq<char>) -> Seq<Seq<char>> {
    runs(s, Separator::White)
}

proof fn lemma_leading_run_exact(s: Seq<char>, k: Separator, i: int, j: int)
    requires
        0 <= i <= j <= s.len(),
        forall|m: int| i <= m < j ==> !is_sep(k, #[trigger] s[m]),
        j == s.len() || is_sep(k, s[j]),
    ensures
        leading_run(s.skip(i), k) == j - i,
    decreases j - i,
{
    if i < j {
        lemma_leading_run_exact(s, k, i + 1, j);
        assert(s.skip(i).drop_first() =~= s.skip(i + 1));
    }
}

/// The runs of `s` between separators of kind `k`; see [`runs`].
pub fn split_runs(s: &[char], k: Separator) -> (r: Vec<Vec<char>>)
    ensures
        r.deep_view() == runs(s@, k),
{
    let n = s.len();
    let mut out: Vec<Vec<char>> = Vec::new();
    let mut i: usize = 0;
    assert(s@.skip(0) =~= s@);
    assert(out.deep_view() =~= Seq::<Seq<char>>::empty());
    assert(out.deep_view() + runs(s@, k) =~= runs(s@, k));
    while i < n
        invariant
            n == s@.len(),
            0 <= i <= n,
            runs(s@, k) == out.deep_view() + runs(s@.skip(i as int), k),
        decreases n - i,
    {
        let ghost rest = s@.skip(i as int);
        assert(rest.drop_first() =~= s@.skip(i + 1));
        if is_separator(k, s[i]) {
            i = i + 1;
        } else {
            let mut j: usize = i;
            let mut w: Vec<char> = Vec::new();
            while j < n && !is_separator(k, s[j])
                invariant
                    n == s@.len(),
                    i <= j <= n,
                    w@ == s@.subrange(i as int, j as int),
                    forall|m: int| i <= m < j ==> !is_sep(k, #[trigger] s@[m]),
                decreases n - j,
            {
                w.push(s[j]);
                j = j + 1;
            }
            proof {
                lemma_leading_run_exact(s@, k, i as int, j as int);
                assert(rest.take(j - i) =~= w@);
                assert(rest.skip(j - i) =~= s@.skip(j as int));
            }
            let ghost before = out.deep_view();
            assert(w.deep_view() =~= w@);
            out.push(w);
            assert(out.deep_view() =~= before.push(w@));
            assert(runs(s@, k) =~= out.deep_view() + runs(s@.skip(j as int), k));
            i = j;
        }
    }
    assert(s@.skip(n as int) =~= Seq::<char>::empty());
    assert(out.deep_view() + Seq::<Seq<char>>::empty() =~= out.deep_view());
    out
}


/// Appends `c` to `s`: std's `String::push`, which the documentation states
/// appends the given char to the end of the string.
#[verifier::external_body]
fn push_char(s: &mut String, c: char)
    ensures
        final(s)@ == old(s)@.push(c),
{
    s.push(c);
}

/// A `String` holding the characters `v`.
pub fn string_of(v: &[char]) -> (r: String)
    ensures
        r@ == v@,
{
    let mut r = String::new();
    let mut i: usize = 0;
    while i < v.len()
        invariant
            0 <= i <= v.len(),
            r@ == v@.take(i as int),
        decreases v.len() - i,
    {
        push_char(&mut r, v[i]);
        assert(v@.take(i + 1) =~= v@.take(i as int).push(v@[i as int]));
        i = i + 1;
    }
    assert(v@.take(v.len() as int) =~= v@);
    r
}

/// An owned copy of `s`.
pub fn owned(s: &str) -> (r: String)
    ensures
        r@ == s@,
{
    let v = chars_of(s);
    string_of(v.as_slice())
}

/// The words `ws` joined by single spaces.
pub open spec fn joined(ws: Seq<Seq<char>>) -> Seq<char>
    decreases ws.len(),
{
    if ws.len() == 0 {
        seq![]
    } else if ws.len() == 1 {
        ws[0]
    } else {
        joined(ws.drop_last()) + seq![' '] + ws.last()
    }
}

/// `ws` joined by single spaces, as `[&str]::join(" ")` does.
pub fn join_words(ws: &[&str]) -> (r: String)
    ensures
        r@ == joined(ws.deep_view()),
{
    let ghost all = ws.deep_view();
    let mut out: Vec<char> = Vec::new();
    let mut i: usize = 0;
    while i < ws.len()
        invariant
            0 <= i <= ws@.len(),
            all == ws.deep_view(),
            out@ == joined(all.take(i as int)),
        decreases ws.len() - i,
    {
        let ghost before = out@;
        let w = chars_of(ws[i]);
        if i > 0 {
            out.push(' ');
        }
        let ghost mid = out@;
        let mut k: usize = 0;
        while k < w.len()
            invariant
                0 <= k <= w@.len(),
                out@ == mid + w@.take(k as int),
            decreases w.len() - k,
        {
            out.push(w[k]);
            assert(w@.take(k + 1) =~= w@.take(k as int).push(w@[k as int]));
            k = k + 1;
        }
        assert(w@.take(w@.len() as int) =~= w@);
        assert(all.take(i + 1).drop_last() =~= all.take(i as int));
        assert(all.take(i + 1).last() == ws@[i as int]@);
        if i == 0 {
            assert(all.take(1) =~= seq![ws@[0]@]);
            assert(out@ =~= joined(all.take(1)));
        } else {
            assert(out@ =~= before + seq![' '] + w@);
        }
        i = i + 1;
    }
    assert(all.take(all.len() as int) =~= all);
    string_of(out.as_slice())
}

/// The string `a` followed by `b`.
pub fn concat(a: &str, b: &str) -> (r: String)
    ensures
        r@ == a@ + b@,
{
    let mut v = chars_of(a);
    let bv = chars_of(b);
    let ghost av = v@;
    let mut i: usize = 0;
    while i < bv.len()
        invariant
            0 <= i <= bv@.len(),
            v@ == av + bv@.take(i as int),
        decreases bv.len() - i,
    {
        v.push(bv[i]);
        assert(bv@.take(i + 1) =~= bv@.take(i as int).push(bv@[i as int]));
        i = i + 1;
    }
    assert(bv@.take(bv@.len() as int) =~= bv@);
    string_of(v.as_slice())
}

/// Whether `list` holds the string `s`.
pub fn contains_str(list: &[String], s: &str) -> (r: bool)
    ensures
        r == list.deep_view().contains(s@),
{
    let mut i: usize = 0;
    while i < list.len()
        invariant
            0 <= i <= list@.len(),
            forall|k: int| 0 <= k < i ==> list.deep_view()[k] != s@,
        decreases list.len() - i,
    {
        assert(list.deep_view()[i as int] == list@[i as int]@);
        if str_eq(list[i].as_str(), s) {
            assert(list.deep_view()[i as int] == s@);
            return true;
        }
        i = i + 1;
    }
    false
}

/// The whitespace-separated words of `s` as owned strings.
pub fn split_whitespace(s: &str) -> (r: Vec<String>)
    ensures
        r.deep_view() == words(s@),
{
    let cs = chars_of(s);
    let runs_found = split_runs(cs.as_slice(), Separator::White);
    let mut out: Vec<String> = Vec::new();
    let mut i: usize = 0;
    while i < runs_found.len()
        invariant
            0 <= i <= runs_found.len(),
            runs_found.deep_view() == words(s@),
            out.deep_view() == runs_found.deep_view().take(i as int),
        decreases runs_found.len() - i,
    {
        let w = string_of(runs_found[i].as_slice());
        let ghost before = out.deep_view();
        out.push(w);
        assert(out.deep_view() =~= before.push(w@));
        assert(runs_found.deep_view()[i as int] == runs_found[i as int]@);
        assert(runs_found.deep_view().take(i + 1) =~= runs_found.deep_view().take(i as int).push(
            runs_found.deep_view()[i as int],
        ));
        i = i + 1;
    }
    assert(runs_found.deep_view().take(runs_found.len() as int) =~= runs_found.deep_view());
    out
}

/// The Unicode lowercase mapping of a string, as `str::to_lowercase` computes it.
pub uninterp spec fn unicode_lowercase(s: Seq<char>) -> Seq<char>;

/// Whether every character of `s` is ASCII and none is an upper case letter.
pub open spec fn plain_lowercase(s: Seq<char>) -> bool {
    forall|i: int| 0 <= i < s.len() ==> (#[trigger] s[i] as u32) < 128 && !('A' <= s[i] && s[i] <= 'Z')
}

/// std's `str::to_lowercase`: the lowercase equivalent of `s` under the Unicode
/// lowercase mapping, which depends on `s` alone. Of the mapping only this is
/// stated: a character without a lowercase mapping stays as it is
/// (`char::to_lowercase`), and among ASCII characters only `A` to `Z` have
/// one, so ASCII text without upper case letters comes back unchanged.
#[verifier::external_body]
pub(crate) fn to_lowercase(s: &str) -> (r: String)
    ensures
        r@ == unicode_lowercase(s@),
        plain_lowercase(s@) ==> r@ == s@,
{
    s.to_lowercase()
}

/// `s` without leading whitespace.
pub open spec fn trim_start_white(s: Seq<char>) -> Seq<char>
    decreases s.len(),
{
    if s.len() > 0 && is_white(s[0]) {
        trim_start_white(s.drop_first())
    } else {
        s
    }
}

/// `s` without trailing whitespace.
pub open spec fn trim_end_white(s: Seq<char>) -> Seq<char>
    decreases s.len(),
{
    if s.len() > 0 && is_white(s.last()) {
        trim_end_white(s.drop_last())
    } else {
        s
    }
}

/// `s` without leading and trailing whitespace, as `str::trim` returns it.
pub open spec fn trim_white(s: Seq<char>) -> Seq<char> {
    trim_end_white(trim_start_white(s))
}

/// `s` with whitespace removed from both ends.
pub fn trim(s: &[char]) -> (r: Vec<char>)
    ensures
        r@ == trim_white(s@),
{
    let n = s.len();
    let mut i: usize = 0;
    assert(s@.skip(0) =~= s@);
    while i < n && is_whitespace(s[i])
        invariant
            n == s@.len(),
            0 <= i <= n,
            trim_start_white(s@) == trim_start_white(s@.skip(i as int)),
        decreases n - i,
    {
        assert(s@.skip(i as int).drop_first() =~= s@.skip(i + 1));
        i = i + 1;
    }
    let ghost t = s@.skip(i as int);
    assert(trim_start_white(s@) == t);
    let mut j: usize = n;
    assert(t.take(t.len() as int) =~= t);
    while j > i && is_whitespace(s[j - 1])
        invariant
            n == s@.len(),
            0 <= i <= j <= n,
            t == s@.skip(i as int),
            trim_end_white(t) == trim_end_white(t.take(j - i)),
        decreases j,
    {
        assert(t.take(j - i).drop_last() =~= t.take(j - 1 - i));
        j = j - 1;
    }
    let mut r: Vec<char> = Vec::new();
    let mut k: usize = i;
    while k < j
        invariant
            n == s@.len(),
            0 <= i <= k <= j <= n,
            r@ == s@.subrange(i as int, k as int),
        decreases j - k,
    {
        r.push(s[k]);
        assert(s@.subrange(i as int, k + 1) =~= s@.subrange(i as int, k as int).push(s@[k as int]));
        k = k + 1;
    }
    assert(t.take(j - i) =~= r@);
    r
}


/// The value of `c` as a digit of base `radix` (`0-9`, then `a-z` or `A-Z`),
/// if it is one.
pub open spec fn digit_value(c: char, radix: nat) -> Option<nat> {
    let u = c as u32;
    let v: int = if '0' as u32 <= u <= '9' as u32 {
        u - '0' as u32
    } else if 'a' as u32 <= u <= 'z' as u32 {
        u - 'a' as u32 + 10
    } else if 'A' as u32 <= u <= 'Z' as u32 {
        u - 'A' as u32 + 10
    } else {
        radix as int
    };
    if v < radix {
        Some(v as nat)
    } else {
        None
    }
}

/// The value of the digit string `d` in base `radix`, if every character is a
/// digit of that base.
pub open spec fn digits_value(d: Seq<char>, radix: nat) -> Option<nat>
    decreases d.len(),
{
    if d.len() == 0 {
        Some(0)
    } else {
        match (digits_value(d.drop_last(), radix), digit_value(d.last(), radix)) {
            (Some(v), Some(x)) => Some(v * radix + x),
            _ => None,
        }
    }
}

/// The unsigned integer that `from_str_radix` reads from `s`: an optional `+`,
/// then at least one digit of base `radix`, with a value at most `max`.
pub open spec fn parse_unsigned(s: Seq<char>, radix: nat, max: nat) -> Option<nat> {
    let d = if s.len() > 0 && s[0] == '+' {
        s.drop_first()
    } else {
        s
    };
    if d.len() == 0 {
        None
    } else {
        match digits_value(d, radix) {
            Some(v) => if v <= max {
                Some(v)
            } else {
                None
            },
            None => None,
        }
    }
}

pub fn digit_of(c: char, radix: u32) -> (r: Option<u32>)
    requires
        2 <= radix <= 36,
    ensures
        r matches Some(v) ==> digit_value(c, radix as nat) == Some(v as nat),
        r is None ==> digit_value(c, radix as nat) is None,
{
    let u = c as u32;
    let v: u32 = if '0' as u32 <= u && u <= '9' as u32 {
        u - '0' as u32
    } else if 'a' as u32 <= u && u <= 'z' as u32 {
        u - 'a' as u32 + 10
    } else if 'A' as u32 <= u && u <= 'Z' as u32 {
        u - 'A' as u32 + 10
    } else {
        radix
    };
    if v < radix {
        Some(v)
    } else {
        None
    }
}

proof fn lemma_digits_value_grows(d: Seq<char>, radix: nat, i: int, j: int)
    requires
        radix >= 2,
        0 <= i <= j <= d.len(),
        digits_value(d.take(i), radix) is Some,
        digits_value(d.take(j), radix) is Some,
    ensures
        digits_value(d.take(j), radix)->0 >= digits_value(d.take(i), radix)->0,
    decreases j - i,
{
    if i < j {
        assert(d.take(j).drop_last() =~= d.take(j - 1));
        lemma_digits_value_grows(d, radix, i, j - 1);
        let v = digits_value(d.take(j - 1), radix)->0;
        let x = digit_value(d.take(j).last(), radix)->0;
        assert(v * radix + x >= v) by (nonlinear_arith)
            requires
                radix >= 2,
                x >= 0,
                v >= 0,
        ;
    }
}

proof fn lemma_digits_value_invalid(d: Seq<char>, radix: nat, i: int, j: int)
    requires
        0 <= i < j <= d.len(),
        digit_value(d[i], radix) is None,
    ensures
        digits_value(d.take(j), radix) is None,
    decreases j - i,
{
    assert(d.take(j).drop_last() =~= d.take(j - 1));
    if i < j - 1 {
        lemma_digits_value_invalid(d, radix, i, j - 1);
    }
}

/// `u32::from_str_radix` on the characters `s`.
pub fn parse_u32_radix(s: &[char], radix: u32) -> (r: Option<u32>)
    requires
        2 <= radix <= 36,
    ensures
        r matches Some(v) ==> parse_unsigned(s@, radix as nat, u32::MAX as nat) == Some(v as nat),
        r is None ==> parse_unsigned(s@, radix as nat, u32::MAX as nat) is None,
{
    let start: usize = if s.len() > 0 && s[0] == '+' {
        1
    } else {
        0
    };
    let ghost d = if s@.len() > 0 && s@[0] == '+' {
        s@.drop_first()
    } else {
        s@
    };
    assert(d =~= s@.skip(start as int));
    if start == s.len() {
        return None;
    }
    let mut acc: u32 = 0;
    let mut i: usize = start;
    let ghost r = radix as nat;
    assert(d.take(0) =~= Seq::<char>::empty());
    while i < s.len()
        invariant
            2 <= radix <= 36,
            r == radix as nat,
            start <= i <= s@.len(),
            start < s@.len(),
            d =~= s@.skip(start as int),
            d == (if s@.len() > 0 && s@[0] == '+' {
                s@.drop_first()
            } else {
                s@
            }),
            digits_value(d.take(i - start), r) == Some(acc as nat),
        decreases s.len() - i,
    {
        let k: usize = i - start;
        assert(d[k as int] == s@[i as int]);
        assert(d.take(k + 1).drop_last() =~= d.take(k as int));
        assert(d.take(k + 1).last() == s@[i as int]);
        match digit_of(s[i], radix) {
            None => {
                proof {
                    lemma_digits_value_invalid(d, r, k as int, d.len() as int);
                    assert(d.take(d.len() as int) =~= d);
                }
                return None;
            },
            Some(x) => {
                let m = acc.checked_mul(radix);
                let next = match m {
                    Some(m) => m.checked_add(x),
                    None => None,
                };
                match next {
                    None => {
                        proof {
                            assert(acc as nat * r + x as nat > u32::MAX) by (nonlinear_arith)
                                requires
                                    m is None ==> acc as nat * r > u32::MAX,
                                    m matches Some(mm) ==> mm as nat == acc as nat * r && mm as nat + x as nat > u32::MAX,
                            ;
                            if digits_value(d, r) is Some {
                                assert(d.take(d.len() as int) =~= d);
                                lemma_digits_value_grows(d, r, k + 1, d.len() as int);
                            }
                        }
                        return None;
                    },
                    Some(v) => {
                        acc = v;
                    },
                }
            },
        }
        i = i + 1;
    }
    assert(d.take(s.len() - start) =~= d);
    Some(acc)
}

/// `s` with every leading repetition of the non-empty pattern `p` removed, as
/// `str::trim_start_matches` returns it.
pub open spec fn trim_start_matches(s: Seq<char>, p: Seq<char>) -> Seq<char>
    decreases s.len(),
{
    if p.len() > 0 && p.len() <= s.len() && s.take(p.len() as int) == p {
        trim_start_matches(s.skip(p.len() as int), p)
    } else {
        s
    }
}

/// Whether `p` is a prefix of `s`.
pub open spec fn has_prefix(s: Seq<char>, p: Seq<char>) -> bool {
    p.len() <= s.len() && s.take(p.len() as int) == p
}

pub fn starts_with(s: &[char], p: &[char]) -> (r: bool)
    ensures
        r == has_prefix(s@, p@),
{
    assert(s@.skip(0) =~= s@);
    starts_with_at(s, 0, p)
}

/// Whether `p` occurs in `s` at position `at`.
pub fn starts_with_at(s: &[char], at: usize, p: &[char]) -> (r: bool)
    requires
        at <= s@.len(),
    ensures
        r == has_prefix(s@.skip(at as int), p@),
{
    let ghost t = s@.skip(at as int);
    if p.len() > s.len() - at {
        return false;
    }
    let n = s.len();
    let mut i: usize = 0;
    while i < p.len()
        invariant
            n == s@.len(),
            at <= s@.len(),
            t == s@.skip(at as int),
            p@.len() <= t.len(),
            t.len() == s@.len() - at,
            at + p@.len() <= s@.len(),
            0 <= i <= p@.len(),
            forall|k: int| 0 <= k < i ==> t[k] == p@[k],
        decreases p.len() - i,
    {
        if s[at + i] != p[i] {
            assert(t.take(p@.len() as int)[i as int] != p@[i as int]);
            return false;
        }
        i = i + 1;
    }
    assert(t.take(p@.len() as int) =~= p@);
    true
}

/// `s` without all leading repetitions of `p`.
pub fn trim_start_matching(s: &[char], p: &[char]) -> (r: Vec<char>)
    ensures
        r@ == trim_start_matches(s@, p@),
{
    let mut i: usize = 0;
    assert(s@.skip(0) =~= s@);
    if p.len() > 0 {
        while p.len() <= s.len() - i && starts_with_at(s, i, p)
            invariant
                p@.len() > 0,
                0 <= i <= s@.len(),
                trim_start_matches(s@, p@) == trim_start_matches(s@.skip(i as int), p@),
            decreases s.len() - i,
        {
            assert(s@.skip(i as int).skip(p@.len() as int) =~= s@.skip(i + p@.len()));
            i = i + p.len();
        }
    }
    let mut r: Vec<char> = Vec::new();
    let mut k: usize = i;
    while k < s.len()
        invariant
            0 <= i <= k <= s@.len(),
            r@ == s@.subrange(i as int, k as int),
        decreases s.len() - k,
    {
        r.push(s[k]);
        assert(s@.subrange(i as int, k + 1) =~= s@.subrange(i as int, k as int).push(s@[k as int]));
        k = k + 1;
    }
    assert(r@ =~= s@.skip(i as int));
    r
}

/// `c` with ASCII `A-Z` mapped to `a-z`, as `char::to_ascii_lowercase` does.
pub open spec fn ascii_lower(c: char) -> char {
    if 'A' as u32 <= c as u32 <= 'Z' as u32 {
        ((c as u32) + 32) as char
    } else {
        c
    }
}

pub fn to_ascii_lowercase(c: char) -> (r: char)
    ensures
        r == ascii_lower(c),
{
    let u = c as u32;
    if 'A' as u32 <= u && u <= 'Z' as u32 {
        ((u + 32) as u8) as char
    } else {
        c
    }
}

/// The uppercase hexadecimal digit of `d` (below 16).
pub open spec fn hex_upper_char(d: nat) -> char {
    if d < 10 {
        (d + 48) as char
    } else {
        (d + 55) as char
    }
}

/// The uppercase hexadecimal numeral of `v`, without leading zeros.
pub open spec fn hex_upper_digits(v: nat) -> Seq<char>
    decreases v,
{
    if v < 16 {
        seq![hex_upper_char(v)]
    } else {
        hex_upper_digits(v / 16).push(hex_upper_char(v % 16))
    }
}

/// `s` left-padded with `0` to at least `width` characters.
pub open spec fn pad_zeros(s: Seq<char>, width: nat) -> Seq<char> {
    if s.len() >= width {
        s
    } else {
        Seq::new((width - s.len()) as nat, |i: int| '0') + s
    }
}

/// The uppercase hexadecimal numeral of `v`.
pub fn hex_upper(v: u32) -> (r: Vec<char>)
    ensures
        r@ == hex_upper_digits(v as nat),
    decreases v,
{
    let d = v % 16;
    let c = if d < 10 {
        ((d + 48) as u8) as char
    } else {
        ((d + 55) as u8) as char
    };
    if v < 16 {
        let mut r: Vec<char> = Vec::new();
        r.push(c);
        assert(r@ =~= seq![hex_upper_char(v as nat)]);
        r
    } else {
        let mut r = hex_upper(v / 16);
        r.push(c);
        r
    }
}

/// `v` as uppercase hex, zero-padded to four digits (`format!("{v:04X}")`).
pub fn hex_upper_4(v: u32) -> (r: Vec<char>)
    ensures
        r@ == pad_zeros(hex_upper_digits(v as nat), 4),
{
    let digits = hex_upper(v);
    let mut r: Vec<char> = Vec::new();
    if digits.len() < 4 {
        let pad = 4 - digits.len();
        let mut i: usize = 0;
        while i < pad
            invariant
                0 <= i <= pad,
                r@ == Seq::new(i as nat, |k: int| '0'),
            decreases pad - i,
        {
            r.push('0');
            assert(r@ =~= Seq::new((i + 1) as nat, |k: int| '0'));
            i = i + 1;
        }
    }
    let ghost head = r@;
    let mut k: usize = 0;
    while k < digits.len()
        invariant
            0 <= k <= digits@.len(),
            r@ == head + digits@.take(k as int),
        decreases digits.len() - k,
    {
        r.push(digits[k]);
        assert(digits@.take(k + 1) =~= digits@.take(k as int).push(digits@[k as int]));
        k = k + 1;
    }
    assert(digits@.take(digits@.len() as int) =~= digits@);
    assert(r@ =~= pad_zeros(hex_upper_digits(v as nat), 4));
    r
}

/// The pieces of `s` between occurrences of `c`, empty pieces included, as
/// `str::split(c)` yields them.
pub open spec fn pieces(s: Seq<char>, c: char) -> Seq<Seq<char>>
    decreases s.len(),
{
    if leading_run(s, Separator::Char(c)) >= s.len() {
        seq![s]
    } else {
        let n = leading_run(s, Separator::Char(c));
        proof {
            lemma_leading_run_bounds(s, Separator::Char(c));

        }
        seq![s.take(n as int)] + pieces(s.skip(n as int + 1), c)
    }
}

/// The pieces of `s` between occurrences of `c`; see [`pieces`].
pub fn split_char(s: &[char], c: char) -> (r: Vec<Vec<char>>)
    ensures
        r.deep_view() == pieces(s@, c),
{
    let n = s.len();
    let mut out: Vec<Vec<char>> = Vec::new();
    let mut i: usize = 0;
    assert(s@.skip(0) =~= s@);
    assert(out.deep_view() + pieces(s@, c) =~= pieces(s@, c));
    loop
        invariant
            n == s@.len(),
            0 <= i <= n,
            pieces(s@, c) == out.deep_view() + pieces(s@.skip(i as int), c),
        decreases n - i,
    {
        let mut j: usize = i;
        let mut w: Vec<char> = Vec::new();
        while j < n && s[j] != c
            invariant
                n == s@.len(),
                i <= j <= n,
                w@ == s@.subrange(i as int, j as int),
                forall|m: int| i <= m < j ==> !is_sep(Separator::Char(c), #[trigger] s@[m]),
            decreases n - j,
        {
            w.push(s[j]);
            j = j + 1;
        }
        let ghost rest = s@.skip(i as int);
        proof {
            lemma_leading_run_exact(s@, Separator::Char(c), i as int, j as int);
            assert(rest.take(j - i) =~= w@);
        }
        let ghost before = out.deep_view();
        assert(w.deep_view() =~= w@);
        out.push(w);
        assert(out.deep_view() =~= before.push(rest.take(j - i)));
        if j >= n {
            assert(rest.take(j - i) =~= rest);
            assert(pieces(rest, c) =~= seq![rest]);
            assert(pieces(s@, c) =~= out.deep_view());
            return out;
        }
        assert(rest.skip(j - i + 1) =~= s@.skip(j + 1));
        assert(pieces(s@, c) =~= out.deep_view() + pieces(s@.skip(j + 1), c));
        i = j + 1;
    }
}

/// Whether `a` and `b` are equal when ASCII letters are compared without case
/// (`str::eq_ignore_ascii_case`).
pub open spec fn eq_ignore_ascii_case(a: Seq<char>, b: Seq<char>) -> bool {
    a.len() == b.len() && forall|i: int| 0 <= i < a.len() ==> ascii_lower(a[i]) == ascii_lower(b[i])
}

pub fn chars_eq_ignore_ascii_case(a: &[char], b: &[char]) -> (r: bool)
    ensures
        r == eq_ignore_ascii_case(a@, b@),
{
    if a.len() != b.len() {
        return false;
    }
    let mut i: usize = 0;
    while i < a.len()
        invariant
            0 <= i <= a@.len(),
            a@.len() == b@.len(),
            forall|k: int| 0 <= k < i ==> ascii_lower(a@[k]) == ascii_lower(b@[k]),
        decreases a.len() - i,
    {
        if to_ascii_lowercase(a[i]) != to_ascii_lowercase(b[i]) {
            return false;
        }
        i = i + 1;
    }
    true
}

/// Whether `p` occurs somewhere in `s` (`str::contains`).
pub open spec fn contains_sub(s: Seq<char>, p: Seq<char>) -> bool {
    exists|i: int| 0 <= i <= s.len() && #[trigger] has_prefix(s.skip(i), p)
}

/// Whether `p` occurs somewhere in `s`.
pub fn str_contains(s: &str, p: &str) -> (r: bool)
    ensures
        r == contains_sub(s@, p@),
{
    let sc = chars_of(s);
    let pc = chars_of(p);
    let mut i: usize = 0;
    loop
        invariant
            sc@ == s@,
            pc@ == p@,
            0 <= i <= sc@.len(),
            forall|k: int| 0 <= k < i ==> !#[trigger] has_prefix(s@.skip(k), p@),
        decreases sc.len() - i,
    {
        if starts_with_at(sc.as_slice(), i, pc.as_slice()) {
            return true;
        }
        if i == sc.len() {
            return false;
        }
        i = i + 1;
    }
}

} // verus!
