//! Character-level text utilities used by the vocabulary maps and by the
//! builders of synthetic identifiers: ASCII lowercasing, ASCII trimming,
//! substring search, and decimal rendering of integers.

use vstd::prelude::*;
use vstd::string::StrSliceExecFns;
use vstd::string::StringExecFns;

verus! {

/// ASCII whitespace: space, tab, line feed, carriage return.
pub open spec fn is_space(c: char) -> bool {
    c == ' ' || c == '\t' || c == '\n' || c == '\r'
}

/// ASCII lowercasing of one character; everything else is unchanged.
pub open spec fn lower_char(c: char) -> char {
    if 65 <= c as u32 && c as u32 <= 90 {
        (((c as u32) + 32) as u8) as char
    } else {
        c
    }
}

/// ASCII lowercasing of a character sequence.
pub open spec fn lower(s: Seq<char>) -> Seq<char> {
    Seq::new(s.len(), |i: int| lower_char(s[i]))
}

/// Index of the first character at or after `i` that is not ASCII whitespace,
/// or `s.len()` when only whitespace remains.
pub open spec fn first_nonspace(s: Seq<char>, i: int) -> int
    decreases s.len() - i when 0 <= i <= s.len()
{
    if i < s.len() {
        if is_space(s[i]) {
            first_nonspace(s, i + 1)
        } else {
            i
        }
    } else {
        i
    }
}

/// One past the last character before `i` that is not ASCII whitespace,
/// or `0` when only whitespace precedes `i`.
pub open spec fn last_nonspace_end(s: Seq<char>, i: int) -> int
    decreases i when 0 <= i <= s.len()
{
    if i > 0 {
        if is_space(s[i - 1]) {
            last_nonspace_end(s, i - 1)
        } else {
            i
        }
    } else {
        0
    }
}

/// The sequence with leading and trailing ASCII whitespace removed.
pub open spec fn trimmed(s: Seq<char>) -> Seq<char> {
    let a = first_nonspace(s, 0);
    if a == s.len() {
        Seq::<char>::empty()
    } else {
        s.subrange(a, last_nonspace_end(s, s.len() as int))
    }
}

/// A sequence is blank when every character is ASCII whitespace.
pub open spec fn is_blank(s: Seq<char>) -> bool {
    forall|i: int| 0 <= i < s.len() ==> is_space(s[i])
}

/// `n` occurs as a contiguous run of `h` starting at index `i`.
pub open spec fn contains_at(h: Seq<char>, n: Seq<char>, i: int) -> bool {
    0 <= i && i + n.len() <= h.len() && h.subrange(i, i + n.len()) == n
}

/// `n` occurs somewhere as a contiguous run of `h`.
pub open spec fn contains_seq(h: Seq<char>, n: Seq<char>) -> bool {
    exists|i: int| contains_at(h, n, i)
}

/// The decimal digit character for `d` (`0 <= d <= 9`).
pub open spec fn digit_char(d: int) -> char {
    ((d + 48) as u8) as char
}

/// The decimal rendering of a nonnegative integer, most significant digit
/// first, with no leading zeros (the rendering of zero is `"0"`).
pub open spec fn dec_digits(n: int) -> Seq<char>
    decreases n when n >= 0
{
    if n < 10 {
        seq![digit_char(n)]
    } else {
        dec_digits(n / 10) + seq![digit_char(n % 10)]
    }
}

/// The characters of `s`, in order.
pub fn chars_of(s: &str) -> (v: Vec<char>)
    ensures
        v@ == s@,
{
    let n = s.unicode_len();
    let mut v: Vec<char> = Vec::new();
    let mut i: usize = 0;
    while i < n
        invariant
            i <= n,
            n == s@.len(),
            v@ == s@.subrange(0, i as int),
        decreases n - i,
    {
        v.push(s.get_char(i));
        i = i + 1;
        assert(v@ =~= s@.subrange(0, i as int));
    }
    assert(v@ =~= s@);
    v
}

/// Whether `c` is ASCII whitespace.
pub fn is_space_char(c: char) -> (r: bool)
    ensures
        r == is_space(c),
{
    c == ' ' || c == '\t' || c == '\n' || c == '\r'
}

/// ASCII lowercasing of one character.
pub fn lower_char_of(c: char) -> (r: char)
    ensures
        r == lower_char(c),
{
    let u = c as u32;
    if 65 <= u && u <= 90 {
        ((u + 32) as u8) as char
    } else {
        c
    }
}

/// ASCII lowercasing of a character vector.
pub fn lower_vec(v: &Vec<char>) -> (r: Vec<char>)
    ensures
        r@ == lower(v@),
{
    let mut r: Vec<char> = Vec::new();
    let mut i: usize = 0;
    while i < v.len()
        invariant
            i <= v@.len(),
            r@.len() == i,
            forall|k: int| 0 <= k < i ==> r@[k] == lower_char(v@[k]),
        decreases v@.len() - i,
    {
        r.push(lower_char_of(v[i]));
        i = i + 1;
    }
    assert(r@ =~= lower(v@));
    r
}

/// The vector with leading and trailing ASCII whitespace removed.
pub fn trim_vec(v: &Vec<char>) -> (r: Vec<char>)
    ensures
        r@ == trimmed(v@),
{
    let n = v.len();
    let mut a: usize = 0;
    while a < n && is_space_char(v[a])
        invariant
            a <= n,
            n == v@.len(),
            first_nonspace(v@, 0) == first_nonspace(v@, a as int),
        decreases n - a,
    {
        a = a + 1;
    }
    if a == n {
        assert(first_nonspace(v@, 0) == n);
        return Vec::new();
    }
    assert(first_nonspace(v@, 0) == a);
    assert(!is_space(v@[a as int]));
    let mut b: usize = n;
    while is_space_char(v[b - 1])
        invariant
            a < b <= n,
            n == v@.len(),
            !is_space(v@[a as int]),
            last_nonspace_end(v@, n as int) == last_nonspace_end(v@, b as int),
        decreases b,
    {
        assert(b - 1 != a);
        b = b - 1;
    }
    assert(last_nonspace_end(v@, n as int) == b);
    let mut r: Vec<char> = Vec::new();
    let mut i: usize = a;
    while i < b
        invariant
            a <= i <= b <= n,
            n == v@.len(),
            r@ == v@.subrange(a as int, i as int),
        decreases b - i,
    {
        r.push(v[i]);
        i = i + 1;
        assert(r@ =~= v@.subrange(a as int, i as int));
    }
    r
}

/// Whether every character of `v` is ASCII whitespace.
pub fn is_blank_vec(v: &Vec<char>) -> (r: bool)
    ensures
        r == is_blank(v@),
{
    let mut i: usize = 0;
    while i < v.len()
        invariant
            i <= v@.len(),
            forall|k: int| 0 <= k < i ==> is_space(v@[k]),
        decreases v@.len() - i,
    {
        if !is_space_char(v[i]) {
            return false;
        }
        i = i + 1;
    }
    true
}

/// Whether every character of `s` is ASCII whitespace.
pub fn is_blank_str(s: &str) -> (r: bool)
    ensures
        r == is_blank(s@),
{
    let v = chars_of(s);
    is_blank_vec(&v)
}

/// Whether the two vectors hold the same characters.
pub fn chars_eq(a: &Vec<char>, b: &Vec<char>) -> (r: bool)
    ensures
        r == (a@ == b@),
{
    if a.len() != b.len() {
        return false;
    }
    let mut i: usize = 0;
    while i < a.len()
        invariant
            i <= a@.len(),
            a@.len() == b@.len(),
            forall|k: int| 0 <= k < i ==> a@[k] == b@[k],
        decreases a@.len() - i,
    {
        if a[i] != b[i] {
            return false;
        }
        i = i + 1;
    }
    assert(a@ =~= b@);
    true
}

/// Whether the two string slices hold the same characters.
pub fn str_eq(a: &str, b: &str) -> (r: bool)
    ensures
        r == (a@ == b@),
{
    let sa = String::from_str(a);
    let sb = String::from_str(b);
    sa == sb
}

fn match_at(h: &Vec<char>, n: &Vec<char>, i: usize) -> (r: bool)
    requires
        i + n@.len() <= h@.len(),
    ensures
        r == contains_at(h@, n@, i as int),
{
    let hl = h.len();
    let mut j: usize = 0;
    while j < n.len()
        invariant
            j <= n@.len(),
            i + n@.len() <= h@.len(),
            hl == h@.len(),
            forall|k: int| 0 <= k < j ==> h@[i + k] == n@[k],
        decreases n@.len() - j,
    {
        if h[i + j] != n[j] {
            assert(h@.subrange(i as int, i + n@.len())[j as int] != n@[j as int]);
            return false;
        }
        j = j + 1;
    }
    assert(h@.subrange(i as int, i + n@.len()) =~= n@);
    true
}

/// Whether `n` occurs as a contiguous run of `h`.
pub fn contains_vec(h: &Vec<char>, n: &Vec<char>) -> (r: bool)
    ensures
        r == contains_seq(h@, n@),
{
    if n.len() > h.len() {
        assert(forall|i: int| !contains_at(h@, n@, i));
        return false;
    }
    if n.len() == 0 {
        assert(h@.subrange(0, 0) =~= n@);
        assert(contains_at(h@, n@, 0));
        return true;
    }
    let hl = h.len();
    let last = h.len() - n.len();
    let mut i: usize = 0;
    while i <= last
        invariant
            i <= last + 1,
            last + n@.len() == h@.len(),
            n@.len() >= 1,
            hl == h@.len(),
            forall|k: int| 0 <= k < i ==> !contains_at(h@, n@, k),
        decreases last + 1 - i,
    {
        if match_at(h, n, i) {
            return true;
        }
        i = i + 1;
    }
    assert(forall|k: int| contains_at(h@, n@, k) ==> 0 <= k <= last);
    false
}

/// Whether the string `h` holds the string `n` as a contiguous run.
pub fn str_contains(h: &str, n: &str) -> (r: bool)
    ensures
        r == contains_seq(h@, n@),
{
    let hv = chars_of(h);
    let nv = chars_of(n);
    contains_vec(&hv, &nv)
}

/// Whether `text`, ASCII-trimmed and ASCII-lowercased, equals `phrase`
/// ASCII-lowercased.
pub fn matches_phrase(text: &str, phrase: &str) -> (r: bool)
    ensures
        r == (lower(trimmed(text@)) == lower(phrase@)),
{
    let tv = chars_of(text);
    let pv = chars_of(phrase);
    let t = lower_vec(&trim_vec(&tv));
    let p = lower_vec(&pv);
    chars_eq(&t, &p)
}

fn digit_str(d: u64) -> (r: &'static str)
    requires
        d < 10,
    ensures
        r@ == seq![digit_char(d as int)],
{
    proof {
        reveal_strlit("0");
        reveal_strlit("1");
        reveal_strlit("2");
        reveal_strlit("3");
        reveal_strlit("4");
        reveal_strlit("5");
        reveal_strlit("6");
        reveal_strlit("7");
        reveal_strlit("8");
        reveal_strlit("9");
    }
    let r = match d {
        0 => "0",
        1 => "1",
        2 => "2",
        3 => "3",
        4 => "4",
        5 => "5",
        6 => "6",
        7 => "7",
        8 => "8",
        _ => "9",
    };
    assert(r@ =~= seq![digit_char(d as int)]);
    r
}

/// The decimal rendering of `n`.
pub fn u64_to_string(n: u64) -> (r: String)
    ensures
        r@ == dec_digits(n as int),
    decreases n,
{
    if n < 10 {
        String::from_str(digit_str(n))
    } else {
        let mut s = u64_to_string(n / 10);
        s.append(digit_str(n % 10));
        s
    }
}

} // verus!
