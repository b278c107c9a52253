//! Parsing of one progress line printed by the download tool.
//!
//! Accepted shape (the tag opens the line):
//! `[download] <percent>% of [~]<size> [at <rate>] ETA <eta>`,
//! with one or more whitespace characters between the parts.
//! The ETA clause is mandatory: a line without it does not match.
use vstd::prelude::*;
use vstd::string::*;

verus! {

/// Character classes used by the progress grammar.
#[derive(Clone, Copy, PartialEq, Eq)]
pub enum CharClass {
    Space,
    Digit,
    Number,
    Token,
    Clock,
}

pub open spec fn is_digit(c: char) -> bool {
    ('0' as u32) <= (c as u32) && (c as u32) <= ('9' as u32)
}

pub open spec fn is_letter(c: char) -> bool {
    (('a' as u32) <= (c as u32) && (c as u32) <= ('z' as u32))
    || (('A' as u32) <= (c as u32) && (c as u32) <= ('Z' as u32))
}

pub open spec fn in_class(c: char, k: CharClass) -> bool {
    match k {
        CharClass::Space => c == ' ' || c == '\t' || c == '\n' || c == '\r' || c == '\x0B'
            || c == '\x0C',
        CharClass::Digit => is_digit(c),
        CharClass::Number => is_digit(c) || c == '.',
        CharClass::Token => is_digit(c) || is_letter(c) || c == '_' || c == '.' || c == '/',
        CharClass::Clock => is_digit(c) || c == ':',
    }
}

/// End of the maximal run of characters of class `k` that starts at `i`.
pub open spec fn run_end(s: Seq<char>, i: int, k: CharClass) -> int
    decreases s.len() - i,
{
    if 0 <= i < s.len() && in_class(s[i], k) {
        run_end(s, i + 1, k)
    } else {
        i
    }
}

/// `lit` occurs in `s` at position `i`.
pub open spec fn has_at(s: Seq<char>, i: int, lit: Seq<char>) -> bool {
    0 <= i && i + lit.len() <= s.len() && s.subrange(i, i + lit.len()) == lit
}

pub open spec fn digit_value(c: char) -> nat {
    ((c as u32) - ('0' as u32)) as nat
}

/// Value of the decimal digits `s[b..e]`.
pub open spec fn digits_value(s: Seq<char>, b: int, e: int) -> nat
    decreases e - b,
{
    if e <= b {
        0
    } else {
        digits_value(s, b, e - 1) * 10 + digit_value(s[e - 1])
    }
}

/// `s[b..c]`, a run of digits and dots, is a decimal number: digits, then
/// optionally one dot followed by digits, with at least one digit in all.
pub open spec fn decimal_ok(s: Seq<char>, b: int, c: int) -> bool {
    let e = run_end(s, b, CharClass::Digit);
    if e == c {
        c > b
    } else {
        run_end(s, e + 1, CharClass::Digit) == c && c - b >= 2
    }
}

/// The decimal number `s[b..c]` in hundredths, with the fraction truncated.
pub open spec fn decimal_hundredths(s: Seq<char>, b: int, c: int) -> nat {
    let e = run_end(s, b, CharClass::Digit);
    let d1: nat = if e + 1 < c { digit_value(s[e + 1]) } else { 0 };
    let d2: nat = if e + 2 < c { digit_value(s[e + 2]) } else { 0 };
    digits_value(s, b, e) * 100 + d1 * 10 + d2
}

/// One hundred percent, in hundredths of a percent.
pub const FULL_PERCENT: u64 = 10000;

pub open spec fn capped_percent(v: nat) -> nat {
    if v >= FULL_PERCENT { FULL_PERCENT as nat } else { v }
}

/// A parsed progress line: the percentage (in hundredths of a percent,
/// at most one hundred percent), the total size, the rate if the line
/// gives one, and the estimated time left.
#[derive(Debug)]
pub struct ProgressUpdate {
    pub percent: u64,
    pub size: String,
    pub speed: Option<String>,
    pub eta: String,
}

pub struct ProgressView {
    pub percent: nat,
    pub size: Seq<char>,
    pub speed: Option<Seq<char>>,
    pub eta: Seq<char>,
}

impl View for ProgressUpdate {
    type V = ProgressView;

    open spec fn view(&self) -> ProgressView {
        ProgressView {
            percent: self.percent as nat,
            size: self.size@,
            speed: match self.speed {
                Some(r) => Some(r@),
                None => None,
            },
            eta: self.eta@,
        }
    }
}

pub open spec fn tag_text() -> Seq<char> {
    seq!['[', 'd', 'o', 'w', 'n', 'l', 'o', 'a', 'd', ']']
}

pub open spec fn of_text() -> Seq<char> {
    seq!['o', 'f']
}

pub open spec fn at_text() -> Seq<char> {
    seq!['a', 't']
}

pub open spec fn eta_text() -> Seq<char> {
    seq!['E', 'T', 'A']
}

/// The tail of a progress line that starts at `q`: `ETA <eta>`.
pub open spec fn eta_clause(s: Seq<char>, q: int) -> Option<Seq<char>> {
    if !has_at(s, q, eta_text()) {
        None
    } else {
        let a = run_end(s, q + 3, CharClass::Space);
        let b = run_end(s, a, CharClass::Clock);
        if a == q + 3 || b == a {
            None
        } else {
            Some(s.subrange(a, b))
        }
    }
}

/// What follows the size, starting at the whitespace at `p`:
/// an optional `at <rate>` clause and the ETA clause.
pub open spec fn rate_and_eta(s: Seq<char>, p: int) -> Option<(Option<Seq<char>>, Seq<char>)> {
    let q = run_end(s, p, CharClass::Space);
    if q == p {
        None
    } else if has_at(s, q, at_text()) && run_end(s, q + 2, CharClass::Space) > q + 2 {
        let r0 = run_end(s, q + 2, CharClass::Space);
        let r1 = run_end(s, r0, CharClass::Token);
        let t = run_end(s, r1, CharClass::Space);
        if r1 == r0 || t == r1 {
            None
        } else {
            match eta_clause(s, t) {
                Some(eta) => Some((Some(s.subrange(r0, r1)), eta)),
                None => None,
            }
        }
    } else {
        match eta_clause(s, q) {
            Some(eta) => Some((None, eta)),
            None => None,
        }
    }
}

/// What follows `of`, starting at the whitespace at `p`: the size and the rest.
pub open spec fn size_and_rest(s: Seq<char>, p: int) -> Option<(Seq<char>, Option<Seq<char>>, Seq<char>)> {
    let a = run_end(s, p, CharClass::Space);
    let b = if a < s.len() && s[a] == '~' { run_end(s, a + 1, CharClass::Space) } else { a };
    let c = run_end(s, b, CharClass::Token);
    if a == p || c == b {
        None
    } else {
        match rate_and_eta(s, c) {
            Some((rate, eta)) => Some((s.subrange(b, c), rate, eta)),
            None => None,
        }
    }
}

/// The meaning of a line: the progress it reports, or `None` when it does
/// not have the shape of a progress line.
pub open spec fn progress_of(s: Seq<char>) -> Option<ProgressView> {
    let p0 = tag_text().len() as int;
    let p1 = run_end(s, p0, CharClass::Space);
    let p2 = run_end(s, p1, CharClass::Number);
    if !has_at(s, 0, tag_text()) || p1 == p0 || !decimal_ok(s, p1, p2) || !(p2 < s.len()
        && s[p2] == '%') {
        None
    } else {
        let p3 = run_end(s, p2 + 1, CharClass::Space);
        if p3 == p2 + 1 || !has_at(s, p3, of_text()) {
            None
        } else {
            match size_and_rest(s, p3 + 2) {
                Some((size, rate, eta)) => Some(
                    ProgressView {
                        percent: capped_percent(decimal_hundredths(s, p1, p2)),
                        size,
                        speed: rate,
                        eta,
                    },
                ),
                None => None,
            }
        }
    }
}

fn char_in_class(c: char, k: CharClass) -> (r: bool)
    ensures
        r == in_class(c, k),
{
    let u = c as u32;
    let digit = '0' as u32 <= u && u <= '9' as u32;
    match k {
        CharClass::Space => c == ' ' || c == '\t' || c == '\n' || c == '\r' || c == '\x0B'
            || c == '\x0C',
        CharClass::Digit => digit,
        CharClass::Number => digit || c == '.',
        CharClass::Token => {
            let letter = ('a' as u32 <= u && u <= 'z' as u32) || ('A' as u32 <= u && u
                <= 'Z' as u32);
            digit || letter || c == '_' || c == '.' || c == '/'
        },
        CharClass::Clock => digit || c == ':',
    }
}

proof fn lemma_run_end_bounds(s: Seq<char>, i: int, k: CharClass)
    requires
        0 <= i <= s.len(),
    ensures
        i <= run_end(s, i, k) <= s.len(),
        forall|t: int| i <= t < run_end(s, i, k) ==> in_class(#[trigger] s[t], k),
        run_end(s, i, k) < s.len() ==> !in_class(s[run_end(s, i, k)], k),
    decreases s.len() - i,
{
    if i < s.len() && in_class(s[i], k) {
        lemma_run_end_bounds(s, i + 1, k);
    }
}

/// End of the run of class `k` in `s` from `i`.
fn scan(s: &str, n: usize, i: usize, k: CharClass) -> (r: usize)
    requires
        n == s@.len(),
        i <= n,
    ensures
        r as int == run_end(s@, i as int, k),
        i <= r <= n,
{
    let mut j = i;
    while j < n && char_in_class(s.get_char(j), k)
        invariant
            i <= j <= n,
            n == s@.len(),
            run_end(s@, j as int, k) == run_end(s@, i as int, k),
        decreases n - j,
    {
        j += 1;
    }
    j
}

/// Whether `lit` occurs in `s` at position `i`.
fn literal_at(s: &str, n: usize, i: usize, lit: &str) -> (r: bool)
    requires
        n == s@.len(),
        i <= n,
    ensures
        r == has_at(s@, i as int, lit@),
{
    let m = lit.unicode_len();
    if m > n - i {
        return false;
    }
    let mut j: usize = 0;
    while j < m
        invariant
            j <= m,
            i + m <= n,
            n == s@.len(),
            m == lit@.len(),
            forall|t: int| 0 <= t < j ==> s@[i + t] == lit@[t],
        decreases m - j,
    {
        if s.get_char(i + j) != lit.get_char(j) {
            assert(s@.subrange(i as int, i + m)[j as int] != lit@[j as int]);
            return false;
        }
        j += 1;
    }
    assert(s@.subrange(i as int, i + m) =~= lit@);
    true
}


pub open spec fn opt_view(o: Option<String>) -> Option<Seq<char>> {
    match o {
        Some(t) => Some(t@),
        None => None,
    }
}

proof fn lemma_digit_run_within_number(s: Seq<char>, i: int)
    requires
        0 <= i <= s.len(),
    ensures
        run_end(s, i, CharClass::Digit) <= run_end(s, i, CharClass::Number),
    decreases s.len() - i,
{
    lemma_run_end_bounds(s, i, CharClass::Number);
    if i < s.len() && in_class(s[i], CharClass::Digit) {
        lemma_digit_run_within_number(s, i + 1);
    }
}

/// The characters `s[from..to]` as a new string.
fn substring(s: &str, from: usize, to: usize) -> (r: String)
    requires
        from <= to <= s@.len(),
    ensures
        r@ == s@.subrange(from as int, to as int),
{
    String::from_str(s.substring_char(from, to))
}

fn digit_at(s: &str, n: usize, j: usize) -> (d: u64)
    requires
        n == s@.len(),
        j < n,
        is_digit(s@[j as int]),
    ensures
        d as nat == digit_value(s@[j as int]),
        d <= 9,
{
    let c = s.get_char(j);
    (c as u32 - '0' as u32) as u64
}

/// The percentage written at `s[b..c]`, in hundredths and capped at one
/// hundred percent; `None` when the run is not a decimal number.
fn percent_in(s: &str, n: usize, b: usize, c: usize) -> (r: Option<u64>)
    requires
        n == s@.len(),
        b <= n,
        c as int == run_end(s@, b as int, CharClass::Number),
    ensures
        r is Some <==> decimal_ok(s@, b as int, c as int),
        r matches Some(v) ==> v as nat == capped_percent(decimal_hundredths(s@, b as int, c as int)),
{
    proof {
        lemma_run_end_bounds(s@, b as int, CharClass::Number);
        lemma_run_end_bounds(s@, b as int, CharClass::Digit);
        lemma_digit_run_within_number(s@, b as int);
    }
    let e = scan(s, n, b, CharClass::Digit);
    if e == c {
        if c == b {
            return None;
        }
    } else {
        let f = scan(s, n, e + 1, CharClass::Digit);
        proof {
            lemma_run_end_bounds(s@, e + 1, CharClass::Digit);
        }
        if f != c || c - b < 2 {
            return None;
        }
    }
    let ghost sv = s@;
    let mut whole: u64 = 0;
    let mut j = b;
    while j < e
        invariant
            b <= j <= e,
            e as int == run_end(sv, b as int, CharClass::Digit),
            e <= n,
            n == sv.len(),
            sv == s@,
            forall|t: int| b <= t < e ==> in_class(#[trigger] sv[t], CharClass::Digit),
            whole <= 100,
            whole as nat == (if digits_value(sv, b as int, j as int) >= 100 {
                100
            } else {
                digits_value(sv, b as int, j as int)
            }),
        decreases e - j,
    {
        assert(in_class(sv[j as int], CharClass::Digit));
        let d = digit_at(s, n, j);
        assert(digits_value(sv, b as int, j + 1) == digits_value(sv, b as int, j as int) * 10
            + digit_value(sv[j as int]));
        if whole >= 100 || whole * 10 + d >= 100 {
            whole = 100;
        } else {
            whole = whole * 10 + d;
        }
        j += 1;
    }
    let d1: u64 = if e < c && c - e > 1 {
        digit_at(s, n, e + 1)
    } else {
        0
    };
    let d2: u64 = if e < c && c - e > 2 {
        digit_at(s, n, e + 2)
    } else {
        0
    };
    if whole >= 100 {
        Some(FULL_PERCENT)
    } else {
        let v = whole * 100 + d1 * 10 + d2;
        if v >= FULL_PERCENT {
            Some(FULL_PERCENT)
        } else {
            Some(v)
        }
    }
}

/// The ETA clause that starts at `q`.
fn eta_after(s: &str, n: usize, q: usize) -> (r: Option<String>)
    requires
        n == s@.len(),
        q <= n,
    ensures
        opt_view(r) == eta_clause(s@, q as int),
{
    proof {
        reveal_strlit("ETA");
        assert("ETA"@ =~= eta_text());
    }
    if !literal_at(s, n, q, "ETA") {
        return None;
    }
    let a = scan(s, n, q + 3, CharClass::Space);
    let b = scan(s, n, a, CharClass::Clock);
    if a == q + 3 || b == a {
        None
    } else {
        Some(substring(s, a, b))
    }
}

/// The optional rate clause and the ETA clause, after the size that ends at `p`.
fn rate_and_eta_after(s: &str, n: usize, p: usize) -> (r: Option<(Option<String>, String)>)
    requires
        n == s@.len(),
        p <= n,
    ensures
        match r {
            Some((rate, eta)) => rate_and_eta(s@, p as int) == Some((opt_view(rate), eta@)),
            None => rate_and_eta(s@, p as int) is None,
        },
{
    proof {
        reveal_strlit("at");
        assert("at"@ =~= at_text());
    }
    let q = scan(s, n, p, CharClass::Space);
    if q == p {
        return None;
    }
    if literal_at(s, n, q, "at") && scan(s, n, q + 2, CharClass::Space) > q + 2 {
        let r0 = scan(s, n, q + 2, CharClass::Space);
        let r1 = scan(s, n, r0, CharClass::Token);
        let t = scan(s, n, r1, CharClass::Space);
        if r1 == r0 || t == r1 {
            return None;
        }
        match eta_after(s, n, t) {
            Some(eta) => Some((Some(substring(s, r0, r1)), eta)),
            None => None,
        }
    } else {
        match eta_after(s, n, q) {
            Some(eta) => Some((None, eta)),
            None => None,
        }
    }
}

/// The size and what follows it, after `of` ends at `p`.
fn size_and_rest_after(s: &str, n: usize, p: usize) -> (r: Option<(String, Option<String>, String)>)
    requires
        n == s@.len(),
        p <= n,
    ensures
        match r {
            Some((size, rate, eta)) => size_and_rest(s@, p as int) == Some(
                (size@, opt_view(rate), eta@),
            ),
            None => size_and_rest(s@, p as int) is None,
        },
{
    let a = scan(s, n, p, CharClass::Space);
    let b = if a < n && s.get_char(a) == '~' {
        scan(s, n, a + 1, CharClass::Space)
    } else {
        a
    };
    let c = scan(s, n, b, CharClass::Token);
    if a == p || c == b {
        return None;
    }
    match rate_and_eta_after(s, n, c) {
        Some((rate, eta)) => Some((substring(s, b, c), rate, eta)),
        None => None,
    }
}

/// Parses one line of the download tool's output. Total: every line gives
/// either the progress it reports or `None`.
pub fn parse_progress_line(line: &str) -> (r: Option<ProgressUpdate>)
    ensures
        match r {
            Some(u) => progress_of(line@) == Some(u@),
            None => progress_of(line@) is None,
        },
        r matches Some(u) ==> u.percent <= FULL_PERCENT,
{
    proof {
        reveal_strlit("[download]");
        reveal_strlit("of");
        assert("[download]"@ =~= tag_text());
        assert("of"@ =~= of_text());
    }
    let n = line.unicode_len();
    if !literal_at(line, n, 0, "[download]") {
        return None;
    }
    let p0: usize = 10;
    let p1 = scan(line, n, p0, CharClass::Space);
    if p1 == p0 {
        return None;
    }
    let p2 = scan(line, n, p1, CharClass::Number);
    let percent = match percent_in(line, n, p1, p2) {
        Some(v) => v,
        None => {
            return None;
        },
    };
    if !(p2 < n && line.get_char(p2) == '%') {
        return None;
    }
    let p3 = scan(line, n, p2 + 1, CharClass::Space);
    if p3 == p2 + 1 || !literal_at(line, n, p3, "of") {
        return None;
    }
    match size_and_rest_after(line, n, p3 + 2) {
        Some((size, speed, eta)) => Some(ProgressUpdate { percent, size, speed, eta }),
        None => None,
    }
}

} // verus!
