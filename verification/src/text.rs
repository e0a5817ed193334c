//! Small text utilities: the few string operations the core takes from
//! outside code, each behind a contract, and verified helpers built on them.

use vstd::prelude::*;
use vstd::string::StrSliceExecFns;

verus! {

/// The character sequence `str::to_lowercase` produces for `s`: a function
/// of the characters alone.
pub uninterp spec fn lower_of(s: Seq<char>) -> Seq<char>;

/// Relies on str::to_lowercase: the result depends on the characters alone
/// (Unicode lowercasing, no locale input), and an empty string stays empty.
#[verifier::external_body]
pub fn lowercase(s: &str) -> (r: String)
    ensures
        r@ == lower_of(s@),
        s@.len() == 0 ==> r@.len() == 0,
{
    s.to_lowercase()
}

/// The Damerau-Levenshtein edit distance `strsim::damerau_levenshtein`
/// computes between `a` and `b`: a function of the characters alone.
pub uninterp spec fn edit_distance_of(a: Seq<char>, b: Seq<char>) -> nat;

/// Relies on strsim::damerau_levenshtein: the unrestricted edit distance
/// between the two strings, a pure function of their characters.
#[verifier::external_body]
pub fn edit_distance(a: &str, b: &str) -> (r: usize)
    ensures
        r == edit_distance_of(a@, b@),
{
    strsim::damerau_levenshtein(a, b)
}

/// Compares two string slices by their characters.
pub fn str_eq(a: &str, b: &str) -> (r: bool)
    ensures
        r == (a@ == b@),
{
    let owned_a: String = a.to_owned();
    let owned_b: String = b.to_owned();
    owned_a == owned_b
}

/// `needle` occurs as a contiguous run of characters inside `hay`.
pub open spec fn spec_str_contains(hay: Seq<char>, needle: Seq<char>) -> bool {
    exists|i: int|
        0 <= i && i + needle.len() <= hay.len() && #[trigger] hay.subrange(i, i + needle.len())
            == needle
}

/// Whether `needle` occurs inside `hay`, compared character for character.
pub fn str_contains(hay: &str, needle: &str) -> (r: bool)
    ensures
        r == spec_str_contains(hay@, needle@),
{
    let hn: usize = hay.unicode_len();
    let nn: usize = needle.unicode_len();
    if nn > hn {
        return false;
    }
    if nn == 0 {
        proof {
            assert(needle@.len() == 0);
            assert(spec_str_contains(hay@, needle@)) by {
                assert(hay@.subrange(0, 0 + needle@.len() as int) =~= needle@);
            }
        }
        return true;
    }
    let mut i: usize = 0;
    while i <= hn - nn
        invariant
            0 <= i <= hn - nn + 1,
            1 <= nn <= hn,
            hn == hay@.len(),
            nn == needle@.len(),
            forall|k: int| 0 <= k < i ==> #[trigger] hay@.subrange(k, k + nn as int) != needle@,
        decreases hn - nn - i + 1,
    {
        let window = hay.substring_char(i, i + nn);
        if str_eq(window, needle) {
            return true;
        }
        i += 1;
    }
    false
}

/// Whether `c` is an ASCII digit.
pub open spec fn spec_is_digit(c: char) -> bool {
    48 <= c as int <= 57
}

/// Reads a whole string slice as an unsigned decimal number: every
/// character must be an ASCII digit, there must be at least one, and the
/// value must fit in a `u32`.
pub open spec fn spec_parse_u32(s: Seq<char>) -> Option<u32> {
    if s.len() > 0 && (forall|i: int| 0 <= i < s.len() ==> spec_is_digit(s[i]))
        && spec_digits_value(s) <= u32::MAX {
        Some(spec_digits_value(s) as u32)
    } else {
        None
    }
}

/// The number the digit characters of `s` spell in base ten.
pub open spec fn spec_digits_value(s: Seq<char>) -> int
    decreases s.len(),
{
    if s.len() == 0 {
        0
    } else {
        spec_digits_value(s.drop_last()) * 10 + (s.last() as int - 48)
    }
}

/// Parses a decimal `u32`; `None` when the string is empty, holds a
/// non-digit, or spells a value over `u32::MAX`.
pub fn parse_u32(s: &str) -> (r: Option<u32>)
    ensures
        r == spec_parse_u32(s@),
{
    let n: usize = s.unicode_len();
    if n == 0 {
        return None;
    }
    let mut value: u64 = 0;
    let mut i: usize = 0;
    proof {
        assert(s@.take(0int).len() == 0);
    }
    while i < n
        invariant
            0 <= i <= n,
            n == s@.len(),
            forall|k: int| 0 <= k < i ==> spec_is_digit(s@[k]),
            value == spec_digits_value(s@.take(i as int)),
            value <= u32::MAX,
        decreases n - i,
    {
        let c = s.get_char(i);
        let cv: u32 = c as u32;
        if !(48 <= cv && cv <= 57) {
            proof {
                assert(!(forall|k: int| 0 <= k < s@.len() ==> spec_is_digit(s@[k]))) by {
                    assert(!spec_is_digit(s@[i as int]));
                }
            }
            return None;
        }
        let digit: u64 = (cv - 48) as u64;
        proof {
            assert(s@.take(i as int + 1).drop_last() =~= s@.take(i as int));
            assert(s@.take(i as int + 1).last() == s@[i as int]);
        }
        let next: u64 = value * 10 + digit;
        if next > u32::MAX as u64 {
            proof {
                lemma_digits_value_grows(s@, i as int + 1);
            }
            return None;
        }
        value = next;
        i += 1;
    }
    proof {
        assert(s@.take(n as int) =~= s@);
    }
    Some(value as u32)
}

/// The value of a digit sequence is never negative.
proof fn lemma_digits_nonneg(s: Seq<char>)
    requires
        forall|k: int| 0 <= k < s.len() ==> spec_is_digit(s[k]),
    ensures
        spec_digits_value(s) >= 0,
    decreases s.len(),
{
    if s.len() > 0 {
        lemma_digits_nonneg(s.drop_last());
    }
}

/// Once a digit prefix spells a value over `u32::MAX`, the whole string
/// does too (or holds a later non-digit).
proof fn lemma_digits_value_grows(s: Seq<char>, i: int)
    requires
        0 <= i <= s.len(),
        forall|k: int| 0 <= k < i ==> spec_is_digit(s[k]),
    ensures
        spec_digits_value(s.take(i)) <= spec_digits_value(s) || exists|k: int|
            i <= k < s.len() && !spec_is_digit(s[k]),
    decreases s.len() - i,
{
    if i < s.len() {
        if spec_is_digit(s[i]) {
            assert(s.take(i + 1).drop_last() =~= s.take(i));
            assert(s.take(i + 1).last() == s[i]);
            assert(forall|k: int| 0 <= k < s.take(i).len() ==> spec_is_digit(s.take(i)[k]));
            lemma_digits_nonneg(s.take(i));
            assert(spec_digits_value(s.take(i)) <= spec_digits_value(s.take(i + 1)));
            lemma_digits_value_grows(s, i + 1);
        } else {
            assert(!spec_is_digit(s[i]));
        }
    } else {
        assert(s.take(i) =~= s);
    }
}

/// Whether `list` holds an entry whose characters are `needle`.
pub open spec fn spec_list_contains(list: Seq<String>, needle: Seq<char>) -> bool {
    exists|i: int| 0 <= i < list.len() && #[trigger] list[i]@ == needle
}

/// Whether `list` holds an entry whose characters are `needle`.
pub fn list_contains(list: &Vec<String>, needle: &str) -> (r: bool)
    ensures
        r == spec_list_contains(list@, needle@),
{
    let n: usize = list.len();
    let mut i: usize = 0;
    while i < n
        invariant
            0 <= i <= n,
            n == list@.len(),
            forall|k: int| 0 <= k < i ==> #[trigger] list@[k]@ != needle@,
        decreases n - i,
    {
        if str_eq(list[i].as_str(), needle) {
            proof {
                assert(list@[i as int]@ == needle@);
            }
            return true;
        }
        i += 1;
    }
    false
}

} // verus!
