//! Small verified text utilities: string comparison, appending, and decimal
//! rendering of integers.

use vstd::prelude::*;

verus! {

/// `<str as PartialEq>::eq`: two string slices are equal exactly when they
/// hold the same characters.
#[verifier::external_body]
pub(crate) fn str_eq(a: &str, b: &str) -> (r: bool)
    ensures
        r == (a@ == b@),
{
    a == b
}

/// `String::push`: appends one character.
#[verifier::external_body]
pub(crate) fn push_char(s: &mut String, c: char)
    ensures
        final(s)@ == old(s)@.push(c),
{
    s.push(c)
}

/// `String::push_str`: appends a string slice.
#[verifier::external_body]
pub(crate) fn push_str(s: &mut String, t: &str)
    ensures
        final(s)@ == old(s)@ + t@,
{
    s.push_str(t)
}

/// An owned copy of a string slice.
pub(crate) fn to_owned(t: &str) -> (s: String)
    ensures
        s@ == t@,
{
    t.to_owned()
}

/// The ASCII digit for a value below ten.
pub open spec fn digit_char(d: nat) -> char {
    (d + 48) as char
}

/// Decimal representation of a natural number, most significant digit first.
pub open spec fn dec_nat(n: nat) -> Seq<char>
    decreases n,
{
    if n < 10 {
        seq![digit_char(n)]
    } else {
        dec_nat(n / 10).push(digit_char(n % 10))
    }
}

/// Decimal representation of an integer, with a leading `-` when negative.
pub open spec fn dec_int(n: int) -> Seq<char> {
    if n < 0 {
        seq!['-'] + dec_nat((-n) as nat)
    } else {
        dec_nat(n as nat)
    }
}

fn digit(d: u64) -> (c: char)
    requires
        d < 10,
    ensures
        c == digit_char(d as nat),
{
    ((d as u8) + 48u8) as char
}

/// Appends the decimal representation of `n`.
pub fn push_u64(out: &mut String, n: u64)
    ensures
        final(out)@ == old(out)@ + dec_nat(n as nat),
    decreases n,
{
    if n >= 10 {
        push_u64(out, n / 10);
    }
    push_char(out, digit(n % 10));
}

/// Appends the decimal representation of `n`, signed.
pub fn push_i64(out: &mut String, n: i64)
    ensures
        final(out)@ == old(out)@ + dec_int(n as int),
{
    if n < 0 {
        push_char(out, '-');
        let m: u64 = (-(n as i128)) as u64;
        push_u64(out, m);
    } else {
        push_u64(out, n as u64);
    }
}

/// The decimal representation of an unsigned value as a new string.
pub fn u64_to_string(n: u64) -> (s: String)
    ensures
        s@ == dec_nat(n as nat),
{
    let mut s = String::new();
    push_u64(&mut s, n);
    s
}

/// The decimal representation of a signed value as a new string.
pub fn i64_to_string(n: i64) -> (s: String)
    ensures
        s@ == dec_int(n as int),
{
    let mut s = String::new();
    push_i64(&mut s, n);
    s
}

/// The Unicode `White_Space` property (what `str::trim` strips).
pub open spec fn is_white_space(c: char) -> bool {
    let u = c as u32;
    (0x09 <= u && u <= 0x0d) || u == 0x20 || u == 0x85 || u == 0xa0 || u == 0x1680 || (0x2000
        <= u && u <= 0x200a) || u == 0x2028 || u == 0x2029 || u == 0x202f || u == 0x205f || u
        == 0x3000
}

/// The characters left after leading white space is removed.
pub open spec fn trim_start(s: Seq<char>) -> Seq<char>
    decreases s.len(),
{
    if s.len() > 0 && is_white_space(s[0]) {
        trim_start(s.drop_first())
    } else {
        s
    }
}

/// The characters left after trailing white space is removed.
pub open spec fn trim_end(s: Seq<char>) -> Seq<char>
    decreases s.len(),
{
    if s.len() > 0 && is_white_space(s.last()) {
        trim_end(s.drop_last())
    } else {
        s
    }
}

fn is_white_space_exec(c: char) -> (r: bool)
    ensures
        r == is_white_space(c),
{
    let u = c as u32;
    (0x09 <= u && u <= 0x0d) || u == 0x20 || u == 0x85 || u == 0xa0 || u == 0x1680 || (0x2000
        <= u && u <= 0x200a) || u == 0x2028 || u == 0x2029 || u == 0x202f || u == 0x205f || u
        == 0x3000
}

proof fn lemma_trim_start_skip(s: Seq<char>, a: int)
    requires
        0 <= a <= s.len(),
        forall|i: int| 0 <= i < a ==> is_white_space(#[trigger] s[i]),
    ensures
        trim_start(s) == trim_start(s.subrange(a, s.len() as int)),
    decreases a,
{
    if a > 0 {
        assert(s.drop_first().subrange(a - 1, s.drop_first().len() as int) =~= s.subrange(
            a,
            s.len() as int,
        ));
        lemma_trim_start_skip(s.drop_first(), a - 1);
    } else {
        assert(s.subrange(0, s.len() as int) =~= s);
    }
}

proof fn lemma_trim_end_skip(s: Seq<char>, b: int)
    requires
        0 <= b <= s.len(),
        forall|i: int| b <= i < s.len() ==> is_white_space(#[trigger] s[i]),
    ensures
        trim_end(s) == trim_end(s.subrange(0, b)),
    decreases s.len() - b,
{
    if b < s.len() {
        assert(s.drop_last().subrange(0, b) =~= s.subrange(0, b));
        lemma_trim_end_skip(s.drop_last(), b);
    } else {
        assert(s.subrange(0, b) =~= s);
    }
}

/// The characters of `chars` with white space trimmed from both ends.
pub fn trim_vec(chars: &Vec<char>) -> (r: String)
    ensures
        r@ == trim_end(trim_start(chars@)),
{
    let ghost f = chars@;
    let n = chars.len();
    let mut a: usize = 0;
    while a < n && is_white_space_exec(chars[a])
        invariant
            n == chars@.len(),
            a <= n,
            forall|i: int| 0 <= i < a ==> is_white_space(#[trigger] f[i]),
            f == chars@,
        decreases n - a,
    {
        a = a + 1;
    }
    proof {
        lemma_trim_start_skip(f, a as int);
        assert(trim_start(f.subrange(a as int, n as int)) == f.subrange(a as int, n as int));
    }
    let ghost g = f.subrange(a as int, n as int);
    let mut b: usize = n;
    while b > a && is_white_space_exec(chars[b - 1])
        invariant
            n == chars@.len(),
            a <= b <= n,
            f == chars@,
            g == f.subrange(a as int, n as int),
            forall|i: int| b - a <= i < g.len() ==> is_white_space(#[trigger] g[i]),
        decreases b,
    {
        b = b - 1;
    }
    proof {
        lemma_trim_end_skip(g, b - a);
        let h = g.subrange(0, b - a);
        assert(h.len() == 0 || !is_white_space(h.last()));
    }
    let mut out = String::new();
    let mut k: usize = a;
    while k < b
        invariant
            a <= k <= b <= n,
            n == chars@.len(),
            f == chars@,
            out@ == f.subrange(a as int, k as int),
        decreases b - k,
    {
        push_char(&mut out, chars[k]);
        k = k + 1;
        assert(out@ =~= f.subrange(a as int, k as int));
    }
    proof {
        assert(out@ =~= f.subrange(a as int, n as int).subrange(0, b - a));
    }
    out
}

/// The characters of a string slice, in order.
pub fn chars_of(s: &str) -> (v: Vec<char>)
    ensures
        v@ == s@,
{
    let mut v: Vec<char> = Vec::new();
    for c in it: s.chars()
        invariant
            it.seq() == s@,
            v@ == s@.take(it.index()),
    {
        v.push(c);
        assert(v@ =~= s@.take(it.index() + 1));
    }
    assert(v@ =~= s@);
    v
}

/// `s` with white space trimmed from both ends.
pub open spec fn trimmed(s: Seq<char>) -> Seq<char> {
    trim_end(trim_start(s))
}

/// `str::trim`: the slice with leading and trailing white space removed.
pub fn trim(s: &str) -> (r: String)
    ensures
        r@ == trimmed(s@),
{
    let v = chars_of(s);
    trim_vec(&v)
}

/// Whether a string is empty after trimming.
pub fn is_blank(s: &str) -> (r: bool)
    ensures
        r == (trimmed(s@).len() == 0),
{
    let t = trim(s);
    t.as_str().unicode_len() == 0
}

} // verus!

verus! {

/// Whether `s` begins with `p`.
pub open spec fn has_prefix(s: Seq<char>, p: Seq<char>) -> bool {
    p.len() <= s.len() && s.subrange(0, p.len() as int) == p
}

/// Whether `s` ends with `p`.
pub open spec fn has_suffix(s: Seq<char>, p: Seq<char>) -> bool {
    p.len() <= s.len() && s.subrange(s.len() - p.len(), s.len() as int) == p
}

/// `s` with every leading copy of a non-empty `p` removed.
pub open spec fn strip_prefix_all(s: Seq<char>, p: Seq<char>) -> Seq<char>
    decreases s.len(),
{
    if p.len() > 0 && has_prefix(s, p) {
        strip_prefix_all(s.subrange(p.len() as int, s.len() as int), p)
    } else {
        s
    }
}

/// Whether `p` occurs in `s` at position `at`.
pub fn occurs_at(s: &Vec<char>, at: usize, p: &Vec<char>) -> (r: bool)
    ensures
        r == (at + p@.len() <= s@.len() && s@.subrange(at as int, at + p@.len()) == p@),
{
    if at > s.len() || p.len() > s.len() - at {
        return false;
    }
    let mut i: usize = 0;
    while i < p.len()
        invariant
            at + p@.len() <= s@.len(),
            s@.len() == s.len(),
            i <= p@.len(),
            forall|j: int| 0 <= j < i ==> s@[at + j] == p@[j],
        decreases p@.len() - i,
    {
        if s[at + i] != p[i] {
            assert(s@.subrange(at as int, at + p@.len())[i as int] != p@[i as int]);
            return false;
        }
        i = i + 1;
    }
    assert(s@.subrange(at as int, at + p@.len()) =~= p@);
    true
}

/// `str::starts_with`.
pub fn starts_with(s: &str, p: &str) -> (r: bool)
    ensures
        r == has_prefix(s@, p@),
{
    occurs_at(&chars_of(s), 0, &chars_of(p))
}

/// `str::ends_with`.
pub fn ends_with(s: &str, p: &str) -> (r: bool)
    ensures
        r == has_suffix(s@, p@),
{
    let sv = chars_of(s);
    let pv = chars_of(p);
    if pv.len() > sv.len() {
        return false;
    }
    occurs_at(&sv, sv.len() - pv.len(), &pv)
}

/// The characters `v[from..to]` as a string.
pub fn string_of(v: &Vec<char>, from: usize, to: usize) -> (r: String)
    requires
        from <= to <= v@.len(),
    ensures
        r@ == v@.subrange(from as int, to as int),
{
    let mut out = String::new();
    let mut k = from;
    while k < to
        invariant
            from <= k <= to <= v@.len(),
            out@ == v@.subrange(from as int, k as int),
        decreases to - k,
    {
        push_char(&mut out, v[k]);
        k = k + 1;
        assert(out@ =~= v@.subrange(from as int, k as int));
    }
    out
}

/// `str::trim_start_matches` with a string pattern: every leading copy of
/// `p` removed.
pub fn strip_prefixes(s: &str, p: &str) -> (r: String)
    ensures
        p@.len() > 0 ==> r@ == strip_prefix_all(s@, p@),
        p@.len() == 0 ==> r@ == s@,
{
    let sv = chars_of(s);
    let pv = chars_of(p);
    let mut at: usize = 0;
    if pv.len() > 0 {
        assert(sv@.subrange(0, sv@.len() as int) =~= sv@);
        let mut more = occurs_at(&sv, at, &pv);
        while more
            invariant
                at <= sv@.len(),
                sv@.len() == sv.len(),
                pv@.len() > 0,
                sv@ == s@,
                pv@ == p@,
                more == (at + pv@.len() <= sv@.len() && sv@.subrange(at as int, at + pv@.len())
                    == pv@),
                strip_prefix_all(s@, p@) == strip_prefix_all(sv@.subrange(at as int, sv@.len() as int), p@),
            decreases sv@.len() - at,
        {
            proof {
                let t = sv@.subrange(at as int, sv@.len() as int);
                assert(t.subrange(0, pv@.len() as int) =~= sv@.subrange(at as int, at + pv@.len()));
                assert(t.subrange(pv@.len() as int, t.len() as int) =~= sv@.subrange(
                    at + pv@.len(),
                    sv@.len() as int,
                ));
            }
            at = at + pv.len();
            more = occurs_at(&sv, at, &pv);
        }
        proof {
            let t = sv@.subrange(at as int, sv@.len() as int);
            if has_prefix(t, p@) {
                assert(t.subrange(0, pv@.len() as int) =~= sv@.subrange(at as int, at + pv@.len()));
            }
        }
    } else {
        assert(sv@.subrange(0, sv@.len() as int) =~= sv@);
    }
    string_of(&sv, at, sv.len())
}

} // verus!

verus! {

/// A character with ASCII upper case letters mapped to lower case.
pub open spec fn ascii_lower_char(c: char) -> char {
    if 'A' <= c && c <= 'Z' {
        ((c as u32) + 32) as char
    } else {
        c
    }
}

/// `str::to_ascii_lowercase`: ASCII letters lowered, everything else kept.
pub open spec fn ascii_lower(s: Seq<char>) -> Seq<char> {
    s.map_values(|c: char| ascii_lower_char(c))
}

/// `str::to_ascii_lowercase`.
pub fn to_ascii_lowercase(s: &str) -> (r: String)
    ensures
        r@ == ascii_lower(s@),
{
    let v = chars_of(s);
    let mut out = String::new();
    let mut i: usize = 0;
    while i < v.len()
        invariant
            i <= v@.len(),
            v@ == s@,
            out@ =~= ascii_lower(s@).take(i as int),
        decreases v@.len() - i,
    {
        let c = v[i];
        let l = if 'A' <= c && c <= 'Z' {
            char_from_u32((c as u32) + 32)
        } else {
            c
        };
        push_char(&mut out, l);
        i = i + 1;
    }
    out
}

/// The character with the code of an ASCII lower case letter.
fn char_from_u32(u: u32) -> (c: char)
    requires
        97 <= u <= 122,
    ensures
        c == u as char,
{
    let b = u as u8;
    b as char
}

/// `rep` before, between and after the characters of `s` (what replacing
/// the empty pattern does).
pub open spec fn interleave(s: Seq<char>, rep: Seq<char>) -> Seq<char>
    decreases s.len(),
{
    if s.len() == 0 {
        rep
    } else {
        rep + seq![s[0]] + interleave(s.drop_first(), rep)
    }
}

/// `s` with every non-overlapping occurrence of `pat` replaced by `rep`,
/// scanning from the left (`str::replace`); an empty pattern matches before,
/// between and after the characters.
pub open spec fn replace_all(s: Seq<char>, pat: Seq<char>, rep: Seq<char>) -> Seq<char>
    decreases s.len(),
{
    if pat.len() == 0 {
        interleave(s, rep)
    } else if s.len() == 0 {
        s
    } else if has_prefix(s, pat) {
        rep + replace_all(s.subrange(pat.len() as int, s.len() as int), pat, rep)
    } else {
        seq![s[0]] + replace_all(s.drop_first(), pat, rep)
    }
}

/// `rep` before, between and after the characters of `s`.
fn interleave_exec(s: &str, rep: &str) -> (r: String)
    ensures
        r@ == interleave(s@, rep@),
{
    let v = chars_of(s);
    let mut out = String::new();
    let mut i: usize = 0;
    assert(v@.subrange(0, v@.len() as int) =~= v@);
    while i < v.len()
        invariant
            i <= v@.len(),
            v@ == s@,
            interleave(s@, rep@) == out@ + interleave(v@.subrange(i as int, v@.len() as int), rep@),
        decreases v@.len() - i,
    {
        let ghost t = v@.subrange(i as int, v@.len() as int);
        let ghost before = out@;
        assert(t.drop_first() =~= v@.subrange(i + 1, v@.len() as int));
        assert(t[0] == v@[i as int]);
        push_str(&mut out, rep);
        push_char(&mut out, v[i]);
        i = i + 1;
        assert(out@ + interleave(t.drop_first(), rep@) =~= before + (rep@ + seq![t[0]]
            + interleave(t.drop_first(), rep@)));
    }
    push_str(&mut out, rep);
    assert(v@.subrange(i as int, v@.len() as int) =~= Seq::<char>::empty());
    out
}

/// `str::replace`.
pub fn replace(s: &str, pat: &str, rep: &str) -> (r: String)
    ensures
        r@ == replace_all(s@, pat@, rep@),
{
    if pat.unicode_len() == 0 {
        return interleave_exec(s, rep);
    }
    let v = chars_of(s);
    let p = chars_of(pat);
    let mut out = String::new();
    let mut i: usize = 0;
    assert(v@.subrange(0, v@.len() as int) =~= v@);
    while i < v.len()
        invariant
            i <= v@.len(),
            v@ == s@,
            p@ == pat@,
            p@.len() > 0,
            v@.len() == v.len(),
            replace_all(s@, pat@, rep@) == out@ + replace_all(
                v@.subrange(i as int, v@.len() as int),
                pat@,
                rep@,
            ),
        decreases v@.len() - i,
    {
        let ghost t = v@.subrange(i as int, v@.len() as int);
        if occurs_at(&v, i, &p) {
            assert(t.subrange(0, p@.len() as int) =~= v@.subrange(i as int, i + p@.len()));
            assert(t.subrange(p@.len() as int, t.len() as int) =~= v@.subrange(
                i + p@.len(),
                v@.len() as int,
            ));
            push_str(&mut out, rep);
            i = i + p.len();
        } else {
            proof {
                if has_prefix(t, pat@) {
                    assert(t.subrange(0, p@.len() as int) =~= v@.subrange(i as int, i + p@.len()));
                }
            }
            assert(t.drop_first() =~= v@.subrange(i + 1, v@.len() as int));
            push_char(&mut out, v[i]);
            i = i + 1;
        }
    }
    out
}

/// Whether every character is an ASCII digit (and there is at least one).
pub open spec fn all_digits(d: Seq<char>) -> bool {
    d.len() > 0 && forall|i: int| 0 <= i < d.len() ==> '0' <= #[trigger] d[i] && d[i] <= '9'
}

/// The value of a string of ASCII digits.
pub open spec fn digits_value(d: Seq<char>) -> nat
    decreases d.len(),
{
    if d.len() == 0 {
        0
    } else {
        digits_value(d.drop_last()) * 10 + ((d.last() as u32) - 48) as nat
    }
}

/// The integer `str::parse` reads: an optional `+` or `-` sign followed by
/// at least one ASCII digit.
pub open spec fn int_text_value(s: Seq<char>) -> Option<int> {
    if s.len() > 0 && (s[0] == '+' || s[0] == '-') {
        let body = s.drop_first();
        if all_digits(body) {
            if s[0] == '-' {
                Some(-(digits_value(body) as int))
            } else {
                Some(digits_value(body) as int)
            }
        } else {
            None
        }
    } else if all_digits(s) {
        Some(digits_value(s) as int)
    } else {
        None
    }
}

/// `str::parse::<i32>`: the value when the text is an integer in range.
pub open spec fn parse_i32(s: Seq<char>) -> Option<i32> {
    match int_text_value(s) {
        Some(v) => if i32::MIN <= v && v <= i32::MAX {
            Some(v as i32)
        } else {
            None
        },
        None => None,
    }
}

proof fn lemma_digits_value_monotone(d: Seq<char>, n: int)
    requires
        0 <= n <= d.len(),
        forall|i: int| 0 <= i < d.len() ==> '0' <= #[trigger] d[i] && d[i] <= '9',
    ensures
        digits_value(d.take(n)) <= digits_value(d),
    decreases d.len() - n,
{
    if n < d.len() {
        assert(d.take(n) =~= d.drop_last().take(n));
        lemma_digits_value_monotone(d.drop_last(), n);
    } else {
        assert(d.take(n) =~= d);
    }
}

/// `str::parse::<i32>`.
pub fn parse_i32_exec(s: &str) -> (r: Option<i32>)
    ensures
        r == parse_i32(s@),
{
    let v = chars_of(s);
    let n = v.len();
    let mut start: usize = 0;
    let mut neg = false;
    if n > 0 && (v[0] == '+' || v[0] == '-') {
        neg = v[0] == '-';
        start = 1;
    }
    if start == n {
        return None;
    }
    let ghost body = v@.subrange(start as int, n as int);
    let ghost expected = if all_digits(body) {
        Some(
            if neg {
                -(digits_value(body) as int)
            } else {
                digits_value(body) as int
            },
        )
    } else {
        None::<int>
    };
    proof {
        if start == 1 {
            assert(body =~= v@.drop_first());
        } else {
            assert(body =~= v@);
        }
        assert(int_text_value(s@) == expected);
    }
    let mut acc: u64 = 0;
    let mut i: usize = start;
    while i < n
        invariant
            start <= i <= n,
            n == v@.len(),
            int_text_value(s@) == expected,
            expected == if all_digits(body) {
                Some(
                    if neg {
                        -(digits_value(body) as int)
                    } else {
                        digits_value(body) as int
                    },
                )
            } else {
                None::<int>
            },
            body == v@.subrange(start as int, n as int),
            acc == digits_value(body.take(i - start)),
            acc <= 0x8000_0000,
            forall|j: int| start <= j < i ==> '0' <= #[trigger] v@[j] && v@[j] <= '9',
        decreases n - i,
    {
        let c = v[i];
        if !('0' <= c && c <= '9') {
            assert(!all_digits(body)) by {
                assert(body[i - start] == c);
            }
            return None;
        }
        assert(body.take(i - start + 1).drop_last() =~= body.take(i - start));
        let d = (c as u32 - 48) as u64;
        let next = acc * 10 + d;
        if next > 0x8000_0000 {
            proof {
                assert forall|j: int| 0 <= j < i + 1 - start implies '0' <= #[trigger] body.take(
                    i + 1 - start,
                )[j] && body.take(i + 1 - start)[j] <= '9' by {
                    assert(body.take(i + 1 - start)[j] == v@[start + j]);
                }
                if all_digits(body) {
                    lemma_digits_value_monotone(body, i + 1 - start);
                }
            }
            return None;
        }
        acc = next;
        i = i + 1;
    }
    assert(body.take(n - start) =~= body);
    assert(all_digits(body)) by {
        assert forall|j: int| 0 <= j < body.len() implies '0' <= #[trigger] body[j] && body[j]
            <= '9' by {
            assert(body[j] == v@[start + j]);
        }
    }
    if neg {
        let val: i64 = 0 - (acc as i64);
        Some(val as i32)
    } else if acc > 0x7FFF_FFFF {
        None
    } else {
        Some(acc as i32)
    }
}

} // verus!

verus! {

/// `str::strip_prefix`: the rest of `s` after `p`, if `s` begins with `p`.
pub fn strip_prefix(s: &str, p: &str) -> (r: Option<String>)
    ensures
        has_prefix(s@, p@) ==> (r matches Some(t) && t@ == s@.subrange(p@.len() as int, s@.len() as int)),
        !has_prefix(s@, p@) ==> r is None,
{
    let sv = chars_of(s);
    let pv = chars_of(p);
    if occurs_at(&sv, 0, &pv) {
        Some(string_of(&sv, pv.len(), sv.len()))
    } else {
        None
    }
}

} // verus!

verus! {

/// `Path::join` on Unix: an absolute `b` replaces `a`; otherwise `b` is
/// appended after a `/`, unless `a` is empty or already ends with one.
pub open spec fn join_path(a: Seq<char>, b: Seq<char>) -> Seq<char> {
    if has_prefix(b, "/"@) {
        b
    } else if a.len() == 0 || has_suffix(a, "/"@) {
        a + b
    } else {
        a + "/"@ + b
    }
}

/// Join two path components as `Path::join` does on Unix.
pub fn join(a: &str, b: &str) -> (r: String)
    ensures
        r@ == join_path(a@, b@),
{
    if starts_with(b, "/") {
        return to_owned(b);
    }
    let mut out = to_owned(a);
    if a.unicode_len() != 0 && !ends_with(a, "/") {
        push_str(&mut out, "/");
    }
    push_str(&mut out, b);
    out
}

} // verus!
