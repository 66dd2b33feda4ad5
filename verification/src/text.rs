//! Small operations on text, stated over sequences of characters.

use vstd::prelude::*;
use vstd::string::StrSliceExecFns;
use vstd::string::StringExecFns;

verus! {

/// `prefix` is an initial segment of `s`.
pub open spec fn has_prefix(s: Seq<char>, prefix: Seq<char>) -> bool {
    prefix.len() <= s.len() && s.subrange(0, prefix.len() as int) == prefix
}

/// `s` without its first `n` characters; empty where `s` has no more than `n`.
pub open spec fn without_first(s: Seq<char>, n: nat) -> Seq<char> {
    if n <= s.len() {
        s.subrange(n as int, s.len() as int)
    } else {
        Seq::empty()
    }
}

/// `s` without its last character; empty where `s` is empty.
pub open spec fn without_last(s: Seq<char>) -> Seq<char> {
    if s.len() > 0 {
        s.subrange(0, s.len() - 1)
    } else {
        Seq::empty()
    }
}

/// The decimal digit `digit` as text.
pub open spec fn digit_text(digit: u8) -> Seq<char>
    recommends
        digit <= 9,
{
    seq![(digit + 48) as char]
}

/// The decimal digits of `n`, the most significant first, without leading
/// zeros.
pub open spec fn decimal_text(n: nat) -> Seq<char>
    decreases n,
{
    if n < 10 {
        digit_text(n as u8)
    } else {
        decimal_text(n / 10) + digit_text((n % 10) as u8)
    }
}

/// The integer `k` in decimal, with a minus sign where it is negative.
pub open spec fn integer_text(k: int) -> Seq<char> {
    if k < 0 {
        "-"@ + decimal_text((-k) as nat)
    } else {
        decimal_text(k as nat)
    }
}

/// The text of a decimal digit.
pub fn digit_str(digit: u8) -> (text: &'static str)
    requires
        digit <= 9,
    ensures
        text@ == digit_text(digit),
{
    proof {
        reveal_strlit("0");
        reveal_strlit("1");
        reveal_strlit("2");
        reveal_strlit("3");
        reveal_strlit("4");
        reveal_strlit("5");
        reveal_strlit("6");
        reveal_strlit("7");
        reveal_strlit("8");
        reveal_strlit("9");
    }
    let text = match digit {
        0 => "0",
        1 => "1",
        2 => "2",
        3 => "3",
        4 => "4",
        5 => "5",
        6 => "6",
        7 => "7",
        8 => "8",
        _ => "9",
    };
    assert(text@ =~= digit_text(digit));
    text
}

/// The decimal digits of `n`.
pub fn decimal_string(n: u64) -> (text: String)
    ensures
        text@ == decimal_text(n as nat),
    decreases n,
{
    if n < 10 {
        String::from_str(digit_str(n as u8))
    } else {
        let mut text = decimal_string(n / 10);
        text.append(digit_str((n % 10) as u8));
        text
    }
}

/// The integer `k` in decimal.
pub fn integer_string(k: i64) -> (text: String)
    ensures
        text@ == integer_text(k as int),
{
    if k < 0 {
        let magnitude: u64 = (-(k + 1)) as u64 + 1;
        let mut text = String::from_str("-");
        text.append(decimal_string(magnitude).as_str());
        text
    } else {
        decimal_string(k as u64)
    }
}

/// The text of an integer is made of decimal digits behind an optional minus
/// sign: it is never empty and holds no decimal point.
pub proof fn integers_show_no_point(k: int)
    ensures
        integer_text(k).len() >= 1,
        !integer_text(k).contains('.'),
{
    reveal_strlit("-");
    if k < 0 {
        decimal_text_is_digits((-k) as nat);
        let digits = decimal_text((-k) as nat);
        assert forall|i: int| 0 <= i < integer_text(k).len() implies integer_text(k)[i] != '.' by {
            if i > 0 {
                assert(integer_text(k)[i] == digits[i - 1]);
            }
        }
    } else {
        decimal_text_is_digits(k as nat);
    }
}

/// The decimal text of a natural number is a non-empty run of decimal digits
/// that begins with a zero only where the number is zero.
pub proof fn decimal_text_is_digits(n: nat)
    ensures
        decimal_text(n).len() >= 1,
        forall|i: int| 0 <= i < decimal_text(n).len() ==> '0' <= #[trigger] decimal_text(n)[i] <= '9',
        decimal_text(n)[0] == '0' <==> n == 0,
    decreases n,
{
    if n >= 10 {
        decimal_text_is_digits(n / 10);
    }
}

/// Whether two texts hold the same characters.
pub fn same_text(a: &str, b: &str) -> (same: bool)
    ensures
        same == (a@ == b@),
{
    let n: usize = a.unicode_len();
    if b.unicode_len() != n {
        return false;
    }
    let mut i: usize = 0;
    while i < n
        invariant
            i <= n,
            n == a@.len(),
            n == b@.len(),
            forall|j: int| 0 <= j < i ==> a@[j] == b@[j],
        decreases n - i,
    {
        if a.get_char(i) != b.get_char(i) {
            return false;
        }
        i += 1;
    }
    assert(a@ =~= b@);
    true
}

/// Whether `s` begins with `prefix`.
pub fn starts_with(s: &str, prefix: &str) -> (found: bool)
    ensures
        found == has_prefix(s@, prefix@),
{
    let n: usize = prefix.unicode_len();
    if s.unicode_len() < n {
        return false;
    }
    same_text(s.substring_char(0, n), prefix)
}

/// Whether `c` occurs in `s`.
pub fn contains_char(s: &str, c: char) -> (found: bool)
    ensures
        found == s@.contains(c),
{
    let n: usize = s.unicode_len();
    let mut i: usize = 0;
    while i < n
        invariant
            i <= n,
            n == s@.len(),
            forall|j: int| 0 <= j < i ==> s@[j] != c,
        decreases n - i,
    {
        if s.get_char(i) == c {
            return true;
        }
        i += 1;
    }
    false
}

/// A copy of `s` without its first `n` characters.
pub fn drop_first(s: &str, n: usize) -> (rest: String)
    ensures
        rest@ == without_first(s@, n as nat),
{
    let len: usize = s.unicode_len();
    if n <= len {
        String::from_str(s.substring_char(n, len))
    } else {
        String::new()
    }
}

/// A copy of `s` without its last character.
pub fn drop_last(s: &str) -> (rest: String)
    ensures
        rest@ == without_last(s@),
{
    let len: usize = s.unicode_len();
    if len > 0 {
        String::from_str(s.substring_char(0, len - 1))
    } else {
        String::new()
    }
}

} // verus!
