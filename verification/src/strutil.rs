//! Verified string helpers: equality, substring search, prefix/suffix tests,
//! and decimal formatting. These operate on `&str` views (`Seq<char>`) so the
//! rest of the library can state exact contracts about the text it builds.

use vstd::prelude::*;
use vstd::string::StrSliceExecFns;
use vstd::string::StringExecFns;

verus! {

/// `n` occurs in `h` starting at offset `i`.
pub open spec fn matches_at(h: Seq<char>, n: Seq<char>, i: int) -> bool {
    0 <= i && i + n.len() <= h.len() && h.subrange(i, i + n.len() as int) == n
}

/// `n` occurs somewhere in `h`.
pub open spec fn contains_seq(h: Seq<char>, n: Seq<char>) -> bool {
    exists|i: int| matches_at(h, n, i)
}

pub open spec fn starts_with_seq(h: Seq<char>, n: Seq<char>) -> bool {
    n.len() <= h.len() && h.subrange(0, n.len() as int) == n
}

pub open spec fn ends_with_seq(h: Seq<char>, n: Seq<char>) -> bool {
    n.len() <= h.len() && h.subrange(h.len() - n.len(), h.len() as int) == n
}

pub fn str_eq(a: &str, b: &str) -> (r: bool)
    ensures
        r == (a@ == b@),
{
    let a_len = a.unicode_len();
    let b_len = b.unicode_len();
    if a_len != b_len {
        return false;
    }
    let mut i: usize = 0;
    while i < a_len
        invariant
            a_len == a@.len(),
            b_len == b@.len(),
            a_len == b_len,
            i <= a_len,
            forall|j: int| 0 <= j < i ==> a@[j] == b@[j],
        decreases a_len - i,
    {
        if a.get_char(i) != b.get_char(i) {
            return false;
        }
        i = i + 1;
    }
    proof {
        assert(a@ =~= b@);
    }
    true
}

/// `n` occurs in `h` at offset `i`: the executable test.
fn match_at(h: &str, n: &str, i: usize) -> (r: bool)
    requires
        i + n@.len() <= h@.len(),
    ensures
        r == matches_at(h@, n@, i as int),
{
    let h_len = h.unicode_len();
    let n_len = n.unicode_len();
    let mut j: usize = 0;
    while j < n_len
        invariant
            h_len == h@.len(),
            n_len == n@.len(),
            i + n_len <= h_len,
            j <= n_len,
            forall|k: int| 0 <= k < j ==> h@[i + k] == n@[k],
        decreases n_len - j,
    {
        if h.get_char(i + j) != n.get_char(j) {
            proof {
                if matches_at(h@, n@, i as int) {
                    assert(h@.subrange(i as int, i + n@.len() as int)[j as int] == n@[j as int]);
                }
            }
            return false;
        }
        j = j + 1;
    }
    proof {
        assert(h@.subrange(i as int, i + n@.len() as int) =~= n@);
    }
    true
}

pub fn str_contains(h: &str, n: &str) -> (r: bool)
    ensures
        r == contains_seq(h@, n@),
{
    let h_len = h.unicode_len();
    let n_len = n.unicode_len();
    if n_len > h_len {
        proof {
            assert forall|i: int| !matches_at(h@, n@, i) by {}
        }
        return false;
    }
    let mut i: usize = 0;
    let last = h_len - n_len;
    loop
        invariant
            h_len == h@.len(),
            n_len == n@.len(),
            n_len <= h_len,
            last == h_len - n_len,
            i <= last,
            forall|k: int| 0 <= k < i ==> !matches_at(h@, n@, k),
        decreases last - i,
    {
        if match_at(h, n, i) {
            return true;
        }
        if i == last {
            proof {
                assert forall|k: int| !matches_at(h@, n@, k) by {
                    if 0 <= k < i {
                        assert(!matches_at(h@, n@, k));
                    }
                }
            }
            return false;
        }
        i = i + 1;
    }
}

pub fn str_starts_with(h: &str, n: &str) -> (r: bool)
    ensures
        r == starts_with_seq(h@, n@),
{
    let h_len = h.unicode_len();
    let n_len = n.unicode_len();
    if n_len > h_len {
        return false;
    }
    match_at(h, n, 0)
}

pub fn str_ends_with(h: &str, n: &str) -> (r: bool)
    ensures
        r == ends_with_seq(h@, n@),
{
    let h_len = h.unicode_len();
    let n_len = n.unicode_len();
    if n_len > h_len {
        return false;
    }
    match_at(h, n, h_len - n_len)
}

/// The decimal digit character for a value below ten.
pub open spec fn dec_digit(n: u8) -> char
    recommends
        n < 10,
{
    ((n + 48) as char)
}

/// The decimal representation of a number, most significant digit first,
/// with no leading zeros (a lone `0` for zero).
pub open spec fn dec_str(n: nat) -> Seq<char>
    decreases n,
{
    if n < 10 {
        seq![dec_digit(n as u8)]
    } else {
        dec_str(n / 10).push(dec_digit((n % 10) as u8))
    }
}

fn digit_str(d: u64) -> (r: &'static str)
    requires
        d < 10,
    ensures
        r@ == seq![dec_digit(d as u8)],
{
    proof {
        reveal_strlit("0");
        reveal_strlit("1");
        reveal_strlit("2");
        reveal_strlit("3");
        reveal_strlit("4");
        reveal_strlit("5");
        reveal_strlit("6");
        reveal_strlit("7");
        reveal_strlit("8");
        reveal_strlit("9");
    }
    let r = match d {
        0 => "0",
        1 => "1",
        2 => "2",
        3 => "3",
        4 => "4",
        5 => "5",
        6 => "6",
        7 => "7",
        8 => "8",
        _ => "9",
    };
    proof {
        assert(r@ =~= seq![dec_digit(d as u8)]);
    }
    r
}

pub fn u64_to_string(n: u64) -> (r: String)
    ensures
        r@ == dec_str(n as nat),
    decreases n,
{
    if n < 10 {
        digit_str(n).to_owned()
    } else {
        let mut s = u64_to_string(n / 10);
        s.append(digit_str(n % 10));
        proof {
            assert(s@ =~= dec_str(n as nat));
        }
        s
    }
}

/// Every character is a decimal digit.
pub open spec fn is_dec_digits(s: Seq<char>) -> bool {
    forall|i: int| 0 <= i < s.len() ==> 48 <= #[trigger] s[i] as int <= 57
}

/// The numeric value of one digit character.
pub open spec fn dec_digit_val(c: char) -> nat
    recommends
        48 <= c as int <= 57,
{
    (c as int - 48) as nat
}

/// The numeric value of a digit string, most significant digit first.
pub open spec fn dec_value(s: Seq<char>) -> nat
    decreases s.len(),
{
    if s.len() == 0 {
        0
    } else {
        dec_value(s.drop_last()) * 10 + dec_digit_val(s.last())
    }
}

proof fn lemma_dec_value_take_step(s: Seq<char>, k: int)
    requires
        0 <= k < s.len(),
    ensures
        dec_value(s.take(k + 1)) == dec_value(s.take(k)) * 10 + dec_digit_val(s[k]),
{
    assert(s.take(k + 1).drop_last() =~= s.take(k));
    assert(s.take(k + 1).last() == s[k]);
}

proof fn lemma_dec_value_take_monotone(s: Seq<char>, k: int)
    requires
        0 <= k <= s.len(),
    ensures
        dec_value(s.take(k)) <= dec_value(s),
    decreases s.len() - k,
{
    if k == s.len() {
        assert(s.take(k) =~= s);
    } else {
        lemma_dec_value_take_step(s, k);
        lemma_dec_value_take_monotone(s, k + 1);
    }
}

/// Parses a decimal string into a number: `Some` exactly when the text is
/// nonempty, all digits, and the value fits.
pub fn parse_u64(s: &str) -> (r: Option<u64>)
    ensures
        r matches Some(n) ==> s@.len() > 0 && is_dec_digits(s@) && n as nat == dec_value(s@),
        r is None ==> (s@.len() == 0 || !is_dec_digits(s@) || dec_value(s@) > u64::MAX),
{
    let len = s.unicode_len();
    if len == 0 {
        return None;
    }
    let mut acc: u64 = 0;
    let mut i: usize = 0;
    while i < len
        invariant
            len == s@.len(),
            i <= len,
            is_dec_digits(s@.take(i as int)),
            acc as nat == dec_value(s@.take(i as int)),
        decreases len - i,
    {
        let c = s.get_char(i);
        let code = c as u32;
        if code < 48 || code > 57 {
            return None;
        }
        let d: u64 = (code - 48) as u64;
        if acc > (u64::MAX - d) / 10 {
            proof {
                lemma_dec_value_take_step(s@, i as int);
                assert(dec_value(s@.take(i + 1)) > u64::MAX) by (nonlinear_arith)
                    requires
                        dec_value(s@.take(i + 1)) == dec_value(s@.take(i as int)) * 10
                            + dec_digit_val(s@[i as int]),
                        dec_value(s@.take(i as int)) > (u64::MAX - dec_digit_val(s@[i as int]))
                            / 10,
                        dec_digit_val(s@[i as int]) < 10,
                {}
                lemma_dec_value_take_monotone(s@, i + 1);
            }
            return None;
        }
        proof {
            lemma_dec_value_take_step(s@, i as int);
            assert(acc * 10 + d <= u64::MAX) by (nonlinear_arith)
                requires
                    acc <= (u64::MAX - d) / 10,
                    d < 10,
            {}
            assert(s@.take(i + 1) =~= s@.take(i as int).push(s@[i as int]));
        }
        acc = acc * 10 + d;
        i = i + 1;
    }
    proof {
        assert(s@.take(len as int) =~= s@);
    }
    Some(acc)
}

proof fn lemma_dec_str_push_value(prefix: Seq<char>, n: nat)
    requires
        n < 10,
    ensures
        dec_value(prefix.push(dec_digit(n as u8))) == dec_value(prefix) * 10 + n,
{
    assert(prefix.push(dec_digit(n as u8)).drop_last() =~= prefix);
    assert(prefix.push(dec_digit(n as u8)).last() == dec_digit(n as u8));
    assert(dec_digit(n as u8) as int == n + 48);
}

/// The position of the last occurrence of a character.
pub fn rfind_char(s: &str, c: char) -> (r: Option<usize>)
    ensures
        r matches Some(i) ==> i < s@.len() && s@[i as int] == c && (forall|j: int|
            i < j < s@.len() ==> s@[j] != c),
        r is None ==> forall|j: int| 0 <= j < s@.len() ==> s@[j] != c,
{
    let len = s.unicode_len();
    let mut i: usize = len;
    while i > 0
        invariant
            len == s@.len(),
            i <= len,
            forall|j: int| i <= j < len ==> s@[j] != c,
        decreases i,
    {
        i = i - 1;
        if s.get_char(i) == c {
            return Some(i);
        }
    }
    None
}

/// The position of the first occurrence of a character.
pub fn lfind_char(s: &str, c: char) -> (r: Option<usize>)
    ensures
        r matches Some(i) ==> i < s@.len() && s@[i as int] == c && (forall|j: int|
            0 <= j < i ==> s@[j] != c),
        r is None ==> forall|j: int| 0 <= j < s@.len() ==> s@[j] != c,
{
    let len = s.unicode_len();
    let mut i: usize = 0;
    while i < len
        invariant
            len == s@.len(),
            i <= len,
            forall|j: int| 0 <= j < i ==> s@[j] != c,
        decreases len - i,
    {
        if s.get_char(i) == c {
            return Some(i);
        }
        i = i + 1;
    }
    None
}

/// The text with every leading occurrence of the character removed.
pub open spec fn trim_leading(s: Seq<char>, c: char) -> Seq<char>
    decreases s.len(),
{
    if s.len() > 0 && s[0] == c {
        trim_leading(s.drop_first(), c)
    } else {
        s
    }
}

/// The text with every trailing occurrence of the character removed.
pub open spec fn trim_trailing(s: Seq<char>, c: char) -> Seq<char>
    decreases s.len(),
{
    if s.len() > 0 && s.last() == c {
        trim_trailing(s.drop_last(), c)
    } else {
        s
    }
}

proof fn lemma_trim_leading_suffix(s: Seq<char>, c: char, k: int)
    requires
        0 <= k <= s.len(),
        forall|j: int| 0 <= j < k ==> s[j] == c,
        k < s.len() ==> s[k] != c,
    ensures
        trim_leading(s, c) == s.subrange(k, s.len() as int),
    decreases k,
{
    if k == 0 {
        if s.len() > 0 {
            assert(s[0] != c);
        }
        assert(s.subrange(0, s.len() as int) =~= s);
    } else {
        assert(s[0] == c);
        lemma_trim_leading_suffix(s.drop_first(), c, k - 1);
        assert(s.drop_first().subrange(k - 1, s.drop_first().len() as int) =~= s.subrange(
            k,
            s.len() as int,
        ));
    }
}

proof fn lemma_trim_trailing_prefix(s: Seq<char>, c: char, k: int)
    requires
        0 <= k <= s.len(),
        forall|j: int| k <= j < s.len() ==> s[j] == c,
        k > 0 ==> s[k - 1] != c,
    ensures
        trim_trailing(s, c) == s.subrange(0, k),
    decreases s.len() - k,
{
    if k == s.len() {
        if s.len() > 0 {
            assert(s.last() != c);
        }
        assert(s.subrange(0, s.len() as int) =~= s);
    } else {
        assert(s.last() == c);
        lemma_trim_trailing_prefix(s.drop_last(), c, k);
        assert(s.drop_last().subrange(0, k) =~= s.subrange(0, k));
    }
}

/// Removes every leading occurrence of the character.
pub fn str_trim_leading<'a>(s: &'a str, c: char) -> (r: &'a str)
    ensures
        r@ == trim_leading(s@, c),
{
    let len = s.unicode_len();
    let mut i: usize = 0;
    while i < len && s.get_char(i) == c
        invariant
            len == s@.len(),
            i <= len,
            forall|j: int| 0 <= j < i ==> s@[j] == c,
        decreases len - i,
    {
        i = i + 1;
    }
    proof {
        lemma_trim_leading_suffix(s@, c, i as int);
    }
    s.substring_char(i, len)
}

/// Removes every trailing occurrence of the character.
pub fn str_trim_trailing<'a>(s: &'a str, c: char) -> (r: &'a str)
    ensures
        r@ == trim_trailing(s@, c),
{
    let len = s.unicode_len();
    let mut k: usize = len;
    while k > 0 && s.get_char(k - 1) == c
        invariant
            len == s@.len(),
            k <= len,
            forall|j: int| k <= j < len ==> s@[j] == c,
        decreases k,
    {
        k = k - 1;
    }
    proof {
        lemma_trim_trailing_prefix(s@, c, k as int);
    }
    s.substring_char(0, k)
}

/// Law: formatting a number and parsing it back yields the number: the
/// decimal text is nonempty, all digits, and its value is the number itself.
/// A process identifier written to the PID file is therefore read back
/// unchanged.
pub proof fn lemma_dec_str_roundtrip(n: nat)
    ensures
        dec_str(n).len() > 0,
        is_dec_digits(dec_str(n)),
        dec_value(dec_str(n)) == n,
    decreases n,
{
    if n < 10 {
        assert(dec_digit(n as u8) as int == n + 48);
        assert(dec_str(n) =~= Seq::empty().push(dec_digit(n as u8)));
        lemma_dec_str_push_value(Seq::empty(), n);
        assert(dec_value(Seq::<char>::empty()) == 0);
    } else {
        lemma_dec_str_roundtrip(n / 10);
        lemma_dec_str_push_value(dec_str(n / 10), n % 10);
        assert(dec_digit((n % 10) as u8) as int == n % 10 + 48);
        assert(is_dec_digits(dec_str(n))) by {
            let s = dec_str(n);
            assert(s =~= dec_str(n / 10).push(dec_digit((n % 10) as u8)));
            assert forall|i: int| 0 <= i < s.len() implies 48 <= #[trigger] s[i] as int <= 57 by {
                if i < s.len() - 1 {
                    assert(s[i] == dec_str(n / 10)[i]);
                }
            }
        }
    }
}

} // verus!
