//! Text helpers shared by the library: character access, Unicode
//! whitespace trimming and decimal rendering of integers.

use vstd::prelude::*;
use vstd::string::StringExecFns;

verus! {

/// Appends one character to a string (`String::push`).
#[verifier::external_body]
pub(crate) fn push_char(s: &mut String, c: char)
    ensures
        final(s)@ == old(s)@.push(c),
{
    s.push(c);
}

/// The characters of `s`, in order.
pub fn chars_of(s: &str) -> (v: Vec<char>)
    ensures
        v@ == s@,
{
    let mut v: Vec<char> = Vec::new();
    for c in it: s.chars()
        invariant
            v@ == it.seq().take(it.index() as int),
            it.seq() == s@,
    {
        v.push(c);
    }
    v
}

/// A string holding exactly the characters of `v`.
pub fn string_from_chars(v: &Vec<char>) -> (s: String)
    ensures
        s@ == v@,
{
    let mut s = String::new();
    let mut i: usize = 0;
    while i < v.len()
        invariant
            i <= v.len(),
            s@ == v@.take(i as int),
        decreases v.len() - i,
    {
        push_char(&mut s, v[i]);
        i = i + 1;
        assert(v@.take(i as int) == v@.take((i - 1) as int).push(v@[i - 1]));
    }
    assert(v@.take(v.len() as int) == v@);
    s
}

/// The Unicode `White_Space` property, as `char::is_whitespace` decides it.
pub open spec fn is_ws(c: char) -> bool {
    let u = c as u32;
    (0x09 <= u <= 0x0D) || u == 0x20 || u == 0x85 || u == 0xA0 || u == 0x1680
        || (0x2000 <= u <= 0x200A) || u == 0x2028 || u == 0x2029 || u == 0x202F
        || u == 0x205F || u == 0x3000
}

/// Executable form of [`is_ws`].
pub fn char_is_ws(c: char) -> (b: bool)
    ensures
        b == is_ws(c),
{
    let u = c as u32;
    (0x09 <= u && u <= 0x0D) || u == 0x20 || u == 0x85 || u == 0xA0 || u == 0x1680
        || (0x2000 <= u && u <= 0x200A) || u == 0x2028 || u == 0x2029 || u == 0x202F
        || u == 0x205F || u == 0x3000
}

/// `s` with its leading whitespace removed (`str::trim_start`).
pub open spec fn trim_start(s: Seq<char>) -> Seq<char>
    decreases s.len(),
{
    if s.len() > 0 && is_ws(s[0]) {
        trim_start(s.drop_first())
    } else {
        s
    }
}

/// `s` with its trailing whitespace removed (`str::trim_end`).
pub open spec fn trim_end(s: Seq<char>) -> Seq<char>
    decreases s.len(),
{
    if s.len() > 0 && is_ws(s.last()) {
        trim_end(s.drop_last())
    } else {
        s
    }
}

/// `s` with whitespace removed at both ends (`str::trim`).
pub open spec fn trim(s: Seq<char>) -> Seq<char> {
    trim_end(trim_start(s))
}

/// Whether `s` consists of whitespace only (`s.trim().is_empty()`).
pub open spec fn is_blank(s: Seq<char>) -> bool {
    forall|i: int| 0 <= i < s.len() ==> is_ws(#[trigger] s[i])
}

proof fn lemma_trim_start_from(s: Seq<char>, i: int)
    requires
        0 <= i <= s.len(),
        forall|j: int| 0 <= j < i ==> is_ws(#[trigger] s[j]),
        i == s.len() || !is_ws(s[i]),
    ensures
        trim_start(s) == s.subrange(i, s.len() as int),
    decreases i,
{
    if i > 0 {
        assert(is_ws(s[0]));
        let t = s.drop_first();
        assert forall|j: int| 0 <= j < i - 1 implies is_ws(#[trigger] t[j]) by {
            assert(t[j] == s[j + 1]);
        }
        lemma_trim_start_from(t, i - 1);
        assert(t.subrange(i - 1, t.len() as int) == s.subrange(i, s.len() as int));
    } else {
        assert(s.subrange(0, s.len() as int) == s);
    }
}

proof fn lemma_trim_end_to(s: Seq<char>, k: int)
    requires
        0 <= k <= s.len(),
        forall|j: int| k <= j < s.len() ==> is_ws(#[trigger] s[j]),
        k == 0 || !is_ws(s[k - 1]),
    ensures
        trim_end(s) == s.subrange(0, k),
    decreases s.len() - k,
{
    if k < s.len() {
        assert(is_ws(s.last()));
        let t = s.drop_last();
        assert forall|j: int| k <= j < t.len() implies is_ws(#[trigger] t[j]) by {
            assert(t[j] == s[j]);
        }
        lemma_trim_end_to(t, k);
        assert(t.subrange(0, k) == s.subrange(0, k));
    } else {
        assert(s.subrange(0, k) == s);
    }
}

/// Lemma: a blank sequence trims to nothing, and a sequence that trims to
/// nothing is blank.
pub proof fn lemma_trim_empty_iff_blank(s: Seq<char>)
    ensures
        (trim(s).len() == 0) == is_blank(s),
    decreases s.len(),
{
    if is_blank(s) {
        let n = s.len() as int;
        lemma_trim_start_from(s, n);
        assert(trim_start(s).len() == 0);
    } else {
        let f = first_non_ws(s, 0);
        lemma_first_non_ws(s, 0);
        lemma_trim_start_from(s, f);
        let t = s.subrange(f, s.len() as int);
        assert(t.len() > 0);
        assert(!is_ws(t[0]));
        let k = last_non_ws_end(t, t.len() as int);
        lemma_last_non_ws_end(t, t.len() as int);
        lemma_trim_end_to(t, k);
        assert(k >= 1) by {
            if k == 0 {
                assert(is_ws(t[0]));
            }
        }
    }
}

/// The first index at or after `i` holding a non-whitespace character,
/// or `s.len()`.
pub open spec fn first_non_ws(s: Seq<char>, i: int) -> int
    decreases s.len() - i,
{
    if i >= s.len() || i < 0 {
        if i < 0 { 0 } else { s.len() as int }
    } else if is_ws(s[i]) {
        first_non_ws(s, i + 1)
    } else {
        i
    }
}

pub proof fn lemma_first_non_ws(s: Seq<char>, i: int)
    requires
        0 <= i <= s.len(),
        forall|j: int| 0 <= j < i ==> is_ws(#[trigger] s[j]),
    ensures
        i <= first_non_ws(s, i) <= s.len(),
        forall|j: int| 0 <= j < first_non_ws(s, i) ==> is_ws(#[trigger] s[j]),
        first_non_ws(s, i) == s.len() || !is_ws(s[first_non_ws(s, i)]),
    decreases s.len() - i,
{
    if i < s.len() && is_ws(s[i]) {
        lemma_first_non_ws(s, i + 1);
    }
}

/// The smallest `k <= j` such that `s[k..j]` is whitespace only.
pub open spec fn last_non_ws_end(s: Seq<char>, j: int) -> int
    decreases j,
{
    if j <= 0 {
        0
    } else if j > s.len() {
        s.len() as int
    } else if is_ws(s[j - 1]) {
        last_non_ws_end(s, j - 1)
    } else {
        j
    }
}

pub proof fn lemma_last_non_ws_end(s: Seq<char>, j: int)
    requires
        0 <= j <= s.len(),
        forall|m: int| j <= m < s.len() ==> is_ws(#[trigger] s[m]),
    ensures
        0 <= last_non_ws_end(s, j) <= j,
        forall|m: int| last_non_ws_end(s, j) <= m < s.len() ==> is_ws(#[trigger] s[m]),
        last_non_ws_end(s, j) == 0 || !is_ws(s[last_non_ws_end(s, j) - 1]),
    decreases j,
{
    if j > 0 && is_ws(s[j - 1]) {
        lemma_last_non_ws_end(s, j - 1);
    }
}

/// Whether `s` is empty after trimming whitespace.
pub fn str_is_blank(s: &str) -> (b: bool)
    ensures
        b == is_blank(s@),
        b == (trim(s@).len() == 0),
{
    proof {
        lemma_trim_empty_iff_blank(s@);
    }
    let v = chars_of(s);
    let mut i: usize = 0;
    while i < v.len()
        invariant
            i <= v.len(),
            v@ == s@,
            forall|j: int| 0 <= j < i ==> is_ws(#[trigger] v@[j]),
        decreases v.len() - i,
    {
        if !char_is_ws(v[i]) {
            assert(!is_ws(s@[i as int]));
            proof {
                lemma_trim_empty_iff_blank(s@);
            }
            return false;
        }
        i = i + 1;
    }
    true
}

/// `s` without leading and trailing whitespace (`str::trim`), as a new string.
pub fn trim_str(s: &str) -> (t: String)
    ensures
        t@ == trim(s@),
{
    let v = chars_of(s);
    let n = v.len();
    let mut i: usize = 0;
    while i < n && char_is_ws(v[i])
        invariant
            i <= n,
            n == v.len(),
            v@ == s@,
            forall|j: int| 0 <= j < i ==> is_ws(#[trigger] v@[j]),
        decreases n - i,
    {
        i = i + 1;
    }
    proof {
        lemma_trim_start_from(s@, i as int);
    }
    let mut k: usize = n;
    while k > i && char_is_ws(v[k - 1])
        invariant
            i <= k <= n,
            n == v.len(),
            v@ == s@,
            forall|m: int| k <= m < n ==> is_ws(#[trigger] v@[m]),
        decreases k,
    {
        k = k - 1;
    }
    let ghost mid = s@.subrange(i as int, n as int);
    proof {
        assert forall|m: int| (k - i) <= m < mid.len() implies is_ws(#[trigger] mid[m]) by {
            assert(mid[m] == v@[m + i]);
        }
        if k > i {
            assert(mid[k - i - 1] == v@[k - 1]);
        }
        lemma_trim_end_to(mid, (k - i) as int);
        assert(mid.subrange(0, (k - i) as int) == s@.subrange(i as int, k as int));
    }
    let mut out = String::new();
    let mut p: usize = i;
    while p < k
        invariant
            i <= p <= k,
            k <= n,
            n == v.len(),
            out@ == v@.subrange(i as int, p as int),
        decreases k - p,
    {
        push_char(&mut out, v[p]);
        p = p + 1;
        assert(v@.subrange(i as int, p as int) == v@.subrange(i as int, (p - 1) as int).push(v@[p - 1]));
    }
    out
}

/// The decimal digits of `n` (no sign, no leading zeros; "0" for zero).
pub open spec fn decimal(n: nat) -> Seq<char>
    decreases n,
{
    if n < 10 {
        seq![digit_char(n)]
    } else {
        decimal(n / 10).push(digit_char(n % 10))
    }
}

/// The ASCII digit for `d < 10`.
pub open spec fn digit_char(d: nat) -> char {
    (('0' as u32) + d) as char
}

/// The decimal rendering of a signed integer (`i64::to_string`).
pub open spec fn signed_decimal(n: int) -> Seq<char> {
    if n < 0 {
        seq!['-'] + decimal((-n) as nat)
    } else {
        decimal(n as nat)
    }
}

fn digit(d: u64) -> (c: char)
    requires
        d < 10,
    ensures
        c == digit_char(d as nat),
{
    let c = match d {
        0 => '0',
        1 => '1',
        2 => '2',
        3 => '3',
        4 => '4',
        5 => '5',
        6 => '6',
        7 => '7',
        8 => '8',
        _ => '9',
    };
    c
}

/// The decimal rendering of `n` (`u64::to_string`).
pub fn u64_to_decimal(n: u64) -> (s: String)
    ensures
        s@ == decimal(n as nat),
    decreases n,
{
    if n < 10 {
        let mut s = String::new();
        push_char(&mut s, digit(n));
        assert(s@ == seq![digit_char(n as nat)]);
        s
    } else {
        let mut s = u64_to_decimal(n / 10);
        push_char(&mut s, digit(n % 10));
        s
    }
}

/// The decimal rendering of `n` (`i64::to_string`).
pub fn i64_to_decimal(n: i64) -> (s: String)
    ensures
        s@ == signed_decimal(n as int),
{
    if n < 0 {
        let mag: u64 = if n == i64::MIN { 9223372036854775808u64 } else { (-n) as u64 };
        let digits = u64_to_decimal(mag);
        let mut s = String::new();
        push_char(&mut s, '-');
        s.append(digits.as_str());
        s
    } else {
        u64_to_decimal(n as u64)
    }
}

/// Whether `pat` occurs in `s` at index `i`.
pub open spec fn occurs_at(s: Seq<char>, pat: Seq<char>, i: int) -> bool {
    0 <= i && i + pat.len() <= s.len() && s.subrange(i, i + pat.len()) == pat
}

/// The first index `>= i` at which `pat` occurs in `s` (`str::find`).
pub open spec fn find_from(s: Seq<char>, pat: Seq<char>, i: nat) -> Option<nat>
    decreases s.len() + 1 - i,
{
    if i + pat.len() > s.len() {
        None
    } else if occurs_at(s, pat, i as int) {
        Some(i)
    } else {
        find_from(s, pat, i + 1)
    }
}

/// The last index `<= j` at which `pat` occurs in `s`.
pub open spec fn rfind_from(s: Seq<char>, pat: Seq<char>, j: int) -> Option<nat>
    decreases j + 1,
{
    if j < 0 {
        None
    } else if occurs_at(s, pat, j) {
        Some(j as nat)
    } else {
        rfind_from(s, pat, j - 1)
    }
}

/// The first occurrence of `pat` in `s`.
pub open spec fn find_first(s: Seq<char>, pat: Seq<char>) -> Option<nat> {
    find_from(s, pat, 0)
}

/// The last occurrence of `pat` in `s` (`str::rfind`).
pub open spec fn find_last(s: Seq<char>, pat: Seq<char>) -> Option<nat> {
    rfind_from(s, pat, s.len() - pat.len())
}

/// Whether `pat` occurs in `s` (`str::contains`).
pub open spec fn contains_seq(s: Seq<char>, pat: Seq<char>) -> bool {
    find_first(s, pat) is Some
}

/// Whether `s` begins with `pat` (`str::starts_with`).
pub open spec fn starts_with_seq(s: Seq<char>, pat: Seq<char>) -> bool {
    pat.len() <= s.len() && s.subrange(0, pat.len() as int) == pat
}

/// Whether `pat` occurs in `hay` at index `i`.
pub fn occurs_at_exec(hay: &Vec<char>, pat: &Vec<char>, i: usize) -> (b: bool)
    ensures
        b == occurs_at(hay@, pat@, i as int),
{
    if pat.len() > hay.len() || i > hay.len() - pat.len() {
        return false;
    }
    let mut k: usize = 0;
    while k < pat.len()
        invariant
            k <= pat.len(),
            i + pat.len() <= hay.len(),
            forall|m: int| 0 <= m < k ==> hay@[i + m] == pat@[m],
        decreases pat.len() - k,
    {
        if hay[i + k] != pat[k] {
            assert(hay@.subrange(i as int, i + pat.len())[k as int] != pat@[k as int]);
            return false;
        }
        k = k + 1;
    }
    assert(hay@.subrange(i as int, i + pat.len()) =~= pat@);
    true
}

/// The first occurrence of `pat` in `hay` (see [`find_first`]).
pub fn find_first_exec(hay: &Vec<char>, pat: &Vec<char>) -> (r: Option<usize>)
    ensures
        match r {
            Some(i) => find_first(hay@, pat@) == Some(i as nat),
            None => find_first(hay@, pat@) is None,
        },
{
    if pat.len() > hay.len() {
        return None;
    }
    let last = hay.len() - pat.len();
    let mut i: usize = 0;
    loop
        invariant
            last + pat.len() == hay.len(),
            i <= last,
            find_first(hay@, pat@) == find_from(hay@, pat@, i as nat),
        decreases last - i,
    {
        if occurs_at_exec(hay, pat, i) {
            return Some(i);
        }
        if i == last {
            assert(find_from(hay@, pat@, (i + 1) as nat) is None);
            return None;
        }
        i = i + 1;
    }
}

/// The last occurrence of `pat` in `hay` (see [`find_last`]).
pub fn find_last_exec(hay: &Vec<char>, pat: &Vec<char>) -> (r: Option<usize>)
    ensures
        match r {
            Some(i) => find_last(hay@, pat@) == Some(i as nat),
            None => find_last(hay@, pat@) is None,
        },
{
    if pat.len() > hay.len() {
        return None;
    }
    let mut j: usize = hay.len() - pat.len();
    loop
        invariant
            j + pat.len() <= hay.len(),
            find_last(hay@, pat@) == rfind_from(hay@, pat@, j as int),
        decreases j,
    {
        if occurs_at_exec(hay, pat, j) {
            return Some(j);
        }
        if j == 0 {
            assert(rfind_from(hay@, pat@, -1) is None);
            return None;
        }
        j = j - 1;
    }
}

/// Whether `hay` begins with `pat`.
pub fn starts_with_exec(hay: &Vec<char>, pat: &Vec<char>) -> (b: bool)
    ensures
        b == starts_with_seq(hay@, pat@),
{
    occurs_at_exec(hay, pat, 0)
}

/// A found index is an occurrence at or after the start.
pub proof fn lemma_find_from_sound(s: Seq<char>, pat: Seq<char>, i: nat)
    ensures
        find_from(s, pat, i) matches Some(k) ==> occurs_at(s, pat, k as int) && k >= i,
    decreases s.len() + 1 - i,
{
    if i + pat.len() <= s.len() && !occurs_at(s, pat, i as int) {
        lemma_find_from_sound(s, pat, i + 1);
    }
}

/// A found index is an occurrence at or before the start.
pub proof fn lemma_rfind_from_sound(s: Seq<char>, pat: Seq<char>, j: int)
    ensures
        rfind_from(s, pat, j) matches Some(k) ==> occurs_at(s, pat, k as int) && k <= j,
    decreases j + 1,
{
    if j >= 0 && !occurs_at(s, pat, j) {
        lemma_rfind_from_sound(s, pat, j - 1);
    }
}

/// Trimming leading whitespace never lengthens a sequence.
pub proof fn lemma_trim_start_len(s: Seq<char>)
    ensures
        trim_start(s).len() <= s.len(),
    decreases s.len(),
{
    if s.len() > 0 && is_ws(s[0]) {
        lemma_trim_start_len(s.drop_first());
    }
}

/// The elements `a..b` of `v`.
pub fn sub_chars(v: &Vec<char>, a: usize, b: usize) -> (r: Vec<char>)
    requires
        a <= b <= v.len(),
    ensures
        r@ == v@.subrange(a as int, b as int),
{
    let mut r: Vec<char> = Vec::new();
    let mut i: usize = a;
    while i < b
        invariant
            a <= i <= b,
            b <= v.len(),
            r@ == v@.subrange(a as int, i as int),
        decreases b - i,
    {
        r.push(v[i]);
        i = i + 1;
        assert(v@.subrange(a as int, i as int) == v@.subrange(a as int, (i - 1) as int).push(v@[i - 1]));
    }
    r
}

/// `v` without its leading whitespace.
pub fn trim_start_chars(v: &Vec<char>) -> (r: Vec<char>)
    ensures
        r@ == trim_start(v@),
{
    let mut i: usize = 0;
    while i < v.len() && char_is_ws(v[i])
        invariant
            i <= v.len(),
            forall|j: int| 0 <= j < i ==> is_ws(#[trigger] v@[j]),
        decreases v.len() - i,
    {
        i = i + 1;
    }
    proof {
        lemma_trim_start_from(v@, i as int);
    }
    sub_chars(v, i, v.len())
}

/// `v` without leading and trailing whitespace.
pub fn trim_chars(v: &Vec<char>) -> (r: Vec<char>)
    ensures
        r@ == trim(v@),
{
    let s = string_from_chars(v);
    let t = trim_str(s.as_str());
    chars_of(t.as_str())
}

/// A trimmed sequence is empty or begins and ends with non-whitespace.
pub proof fn lemma_trim_edges(s: Seq<char>)
    ensures
        trim(s).len() == 0 || (!is_ws(trim(s)[0]) && !is_ws(trim(s).last())),
{
    let f = first_non_ws(s, 0);
    lemma_first_non_ws(s, 0);
    lemma_trim_start_from(s, f);
    let t = s.subrange(f, s.len() as int);
    let k = last_non_ws_end(t, t.len() as int);
    lemma_last_non_ws_end(t, t.len() as int);
    lemma_trim_end_to(t, k);
    if k > 0 {
        assert(trim(s) == t.subrange(0, k));
        assert(trim(s)[0] == s[f]);
        assert(trim(s).last() == t[k - 1]);
    }
}

/// Trimming twice is trimming once.
pub proof fn lemma_trim_idempotent(s: Seq<char>)
    ensures
        trim(trim(s)) == trim(s),
{
    lemma_trim_edges(s);
    let t = trim(s);
    if t.len() > 0 {
        lemma_trim_start_from(t, 0);
        assert(t.subrange(0, t.len() as int) =~= t);
        lemma_trim_end_to(t, t.len() as int);
    }
}

/// Lemma: trimming the start leaves a suffix that starts with a
/// non-whitespace character and ends where the text ends.
pub proof fn lemma_trim_start_edges(s: Seq<char>)
    ensures
        trim_start(s).len() == 0 || !is_ws(trim_start(s)[0]),
        trim_start(s).len() > 0 ==> trim_start(s).last() == s.last(),
{
    let f = first_non_ws(s, 0);
    lemma_first_non_ws(s, 0);
    lemma_trim_start_from(s, f);
}

/// Lemma: trimming the start keeps a suffix of the text.
pub proof fn lemma_trim_start_suffix(s: Seq<char>) -> (i: int)
    ensures
        0 <= i <= s.len(),
        trim_start(s) == s.subrange(i, s.len() as int),
{
    let f = first_non_ws(s, 0);
    lemma_first_non_ws(s, 0);
    lemma_trim_start_from(s, f);
    f
}

/// Lemma: trimming keeps a contiguous part of the text.
pub proof fn lemma_trim_subrange(s: Seq<char>) -> (ij: (int, int))
    ensures
        0 <= ij.0 <= ij.1 <= s.len(),
        trim(s) == s.subrange(ij.0, ij.1),
{
    let f = first_non_ws(s, 0);
    lemma_first_non_ws(s, 0);
    lemma_trim_start_from(s, f);
    let t = s.subrange(f, s.len() as int);
    let k = last_non_ws_end(t, t.len() as int);
    lemma_last_non_ws_end(t, t.len() as int);
    lemma_trim_end_to(t, k);
    assert(t.subrange(0, k) =~= s.subrange(f, f + k));
    (f, f + k)
}

} // verus!
