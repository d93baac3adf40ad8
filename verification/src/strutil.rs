//! Small verified helpers for working with strings: equality, trimming,
//! splitting on the first space, and decimal formatting of integers.

use vstd::prelude::*;

verus! {

/// ASCII whitespace, as the line trimming and the word-boundary helpers see it.
pub open spec fn is_space(c: char) -> bool {
    c == ' ' || c == '\t' || c == '\n' || c == '\r' || c == '\x0c'
}

/// Executable test matching `is_space`.
pub fn char_is_space(c: char) -> (r: bool)
    ensures
        r == is_space(c),
{
    c == ' ' || c == '\t' || c == '\n' || c == '\r' || c == '\x0c'
}

/// Character-by-character string equality.
pub fn str_eq(a: &str, b: &str) -> (r: bool)
    ensures
        r == (a@ == b@),
{
    let alen = a.unicode_len();
    let blen = b.unicode_len();
    if alen != blen {
        return false;
    }
    let mut i: usize = 0;
    while i < alen
        invariant
            alen == a@.len(),
            alen == b@.len(),
            0 <= i <= alen,
            forall|j: int| 0 <= j < i ==> a@[j] == b@[j],
        decreases alen - i,
    {
        if a.get_char(i) != b.get_char(i) {
            return false;
        }
        i += 1;
    }
    proof {
        assert(a@ =~= b@);
    }
    true
}

/// Index of the first character at or after `i` that is not ASCII whitespace,
/// or the length of `s` if all of them are.
pub open spec fn first_non_space(s: Seq<char>, i: int) -> int
    decreases s.len() - i when 0 <= i <= s.len()
{
    if i >= s.len() {
        s.len() as int
    } else if !is_space(s[i]) {
        i
    } else {
        first_non_space(s, i + 1)
    }
}

/// Index of the last character at or before `i` that is not ASCII whitespace,
/// or -1 if all of them are.
pub open spec fn last_non_space(s: Seq<char>, i: int) -> int
    decreases i + 1 when i < s.len()
{
    if i < 0 {
        -1
    } else if !is_space(s[i]) {
        i
    } else {
        last_non_space(s, i - 1)
    }
}

proof fn lemma_last_non_space_le(s: Seq<char>, i: int)
    requires
        -1 <= i < s.len(),
    ensures
        last_non_space(s, i) <= i,
    decreases i + 1,
{
    if i >= 0 && is_space(s[i]) {
        lemma_last_non_space_le(s, i - 1);
    }
}

/// `s` with ASCII whitespace removed from both ends.
pub open spec fn spec_trim(s: Seq<char>) -> Seq<char> {
    let a = first_non_space(s, 0);
    let b = last_non_space(s, s.len() - 1);
    if a <= b {
        s.subrange(a, b + 1)
    } else {
        Seq::<char>::empty()
    }
}

/// Trims ASCII whitespace from both ends of `s`.
pub fn trim_str<'a>(s: &'a str) -> (r: &'a str)
    ensures
        r@ == spec_trim(s@),
{
    let len = s.unicode_len();
    let mut a: usize = 0;
    while a < len && char_is_space(s.get_char(a))
        invariant
            len == s@.len(),
            0 <= a <= len,
            first_non_space(s@, 0) == first_non_space(s@, a as int),
        decreases len - a,
    {
        a += 1;
    }
    if a == len {
        let r = s.substring_char(len, len);
        proof {
            assert(first_non_space(s@, 0) == s@.len());
            if s@.len() > 0 {
                lemma_last_non_space_le(s@, s@.len() - 1);
            }
            assert(r@ =~= spec_trim(s@));
        }
        return r;
    }
    let mut b: usize = len - 1;
    while char_is_space(s.get_char(b))
        invariant
            len == s@.len(),
            a < len,
            a <= b < len,
            !is_space(s@[a as int]),
            first_non_space(s@, 0) == a as int,
            last_non_space(s@, len - 1) == last_non_space(s@, b as int),
        decreases b,
    {
        proof {
            assert(last_non_space(s@, b as int) == last_non_space(s@, b - 1));
        }
        b -= 1;
    }
    let r = s.substring_char(a, b + 1);
    proof {
        assert(last_non_space(s@, len - 1) == b as int);
        assert(r@ =~= spec_trim(s@));
    }
    r
}

/// Index of the first `' '` at or after `i`, or the length of `s` if none.
pub open spec fn first_space_at(s: Seq<char>, i: int) -> int
    decreases s.len() - i when 0 <= i <= s.len()
{
    if i >= s.len() {
        s.len() as int
    } else if s[i] == ' ' {
        i
    } else {
        first_space_at(s, i + 1)
    }
}

/// The index of the first `' '` in `s`, or its length if none.
pub fn first_space_index(s: &str) -> (k: usize)
    ensures
        k == first_space_at(s@, 0),
        k <= s@.len(),
{
    let len = s.unicode_len();
    let mut k: usize = 0;
    while k < len && s.get_char(k) != ' '
        invariant
            len == s@.len(),
            0 <= k <= len,
            first_space_at(s@, 0) == first_space_at(s@, k as int),
        decreases len - k,
    {
        k += 1;
    }
    k
}

/// Splits `s` at the first space: the part before it and the part after it.
/// With no space in `s`, the first part is all of `s` and the second is empty.
pub fn split_first_space(s: &str) -> (r: (String, String))
    ensures
        ({
            let k = first_space_at(s@, 0);
            &&& 0 <= k <= s@.len()
            &&& (k == s@.len() ==> r.0@ == s@ && r.1@ == Seq::<char>::empty())
            &&& (k < s@.len() ==> r.0@ == s@.subrange(0, k) && r.1@ == s@.subrange(
                k + 1,
                s@.len() as int,
            ))
        }),
{
    let len = s.unicode_len();
    let mut k: usize = 0;
    while k < len && s.get_char(k) != ' '
        invariant
            len == s@.len(),
            0 <= k <= len,
            first_space_at(s@, 0) == first_space_at(s@, k as int),
        decreases len - k,
    {
        k += 1;
    }
    if k == len {
        let head = s.substring_char(0, len);
        proof {
            assert(head@ =~= s@);
        }
        (String::from_str(head), String::new())
    } else {
        let head = s.substring_char(0, k);
        let tail = s.substring_char(k + 1, len);
        (String::from_str(head), String::from_str(tail))
    }
}

/// Relies on String::push: appends the given character to the end of the string.
#[verifier::external_body]
pub fn push_char(s: &mut String, c: char)
    ensures
        final(s)@ == old(s)@.push(c),
{
    s.push(c);
}

/// The decimal digit `d` as a character; meaningful for `0 <= d <= 9`.
pub open spec fn digit_char(d: int) -> char {
    ((48 + d) as u8) as char
}

/// The decimal representation of a non-negative integer.
pub open spec fn dec_str(n: int) -> Seq<char>
    decreases n when n >= 0
{
    if n < 10 {
        seq![digit_char(n)]
    } else {
        dec_str(n / 10).push(digit_char(n % 10))
    }
}

/// The decimal representation of an integer, with a leading `-` if negative.
pub open spec fn int_str(n: int) -> Seq<char> {
    if n < 0 {
        seq!['-'].add(dec_str(-n))
    } else {
        dec_str(n)
    }
}

/// Formats `n` in decimal.
pub fn u64_to_string(n: u64) -> (s: String)
    ensures
        s@ == dec_str(n as int),
    decreases n,
{
    if n < 10 {
        let mut s = String::new();
        let c = (48 + (n as u8)) as char;
        proof {
            assert(c == digit_char(n as int));
        }
        push_char(&mut s, c);
        proof {
            assert(s@ =~= dec_str(n as int));
        }
        s
    } else {
        let mut s = u64_to_string(n / 10);
        let d = (n % 10) as u8;
        let c = (48 + d) as char;
        proof {
            assert(c == digit_char((n % 10) as int));
        }
        push_char(&mut s, c);
        s
    }
}

/// Formats `n` in decimal, with a leading `-` if negative.
pub fn i32_to_string(n: i32) -> (s: String)
    ensures
        s@ == int_str(n as int),
{
    if n >= 0 {
        u64_to_string(n as u64)
    } else {
        let mag = (-(n as i64)) as u64;
        let mut s = String::new();
        push_char(&mut s, '-');
        let digits = u64_to_string(mag);
        s.append(digits.as_str());
        proof {
            assert(s@ =~= int_str(n as int));
        }
        s
    }
}

} // verus!
