//! Plain-text helpers: ASCII-case-insensitive comparison (usernames are
//! unique up to ASCII case) and decimal rendering of account identifiers.

use vstd::prelude::*;

verus! {

/// Case-folded code point: ASCII uppercase letters map to their lowercase
/// counterparts, every other character is unchanged.
pub open spec fn fold_case(c: char) -> u32 {
    if 65 <= c as u32 && c as u32 <= 90 {
        (c as u32 + 32) as u32
    } else {
        c as u32
    }
}

/// Two character sequences are equal up to ASCII case.
pub open spec fn eq_ignore_case(a: Seq<char>, b: Seq<char>) -> bool {
    a.len() == b.len() && (forall|i: int| 0 <= i < a.len() ==> fold_case(a[i]) == fold_case(b[i]))
}

/// ASCII-case-insensitive string equality, as `str::eq_ignore_ascii_case`
/// decides it.
pub fn str_eq_ignore_case(a: &str, b: &str) -> (r: bool)
    ensures
        r == eq_ignore_case(a@, b@),
{
    let alen = a.unicode_len();
    let blen = b.unicode_len();
    if alen != blen {
        return false;
    }
    let mut i: usize = 0;
    while i < alen
        invariant
            0 <= i <= alen,
            alen == a@.len(),
            alen == b@.len(),
            forall|j: int| 0 <= j < i ==> fold_case(a@[j]) == fold_case(b@[j]),
        decreases alen - i,
    {
        let ca = a.get_char(i) as u32;
        let cb = b.get_char(i) as u32;
        let fa = if 65 <= ca && ca <= 90 { ca + 32 } else { ca };
        let fb = if 65 <= cb && cb <= 90 { cb + 32 } else { cb };
        if fa != fb {
            assert(fold_case(a@[i as int]) != fold_case(b@[i as int]));
            return false;
        }
        i = i + 1;
    }
    true
}

/// Character-for-character string equality.
pub fn str_eq(a: &str, b: &str) -> (r: bool)
    ensures
        r == (a@ == b@),
{
    let alen = a.unicode_len();
    let blen = b.unicode_len();
    if alen != blen {
        return false;
    }
    let mut i: usize = 0;
    while i < alen
        invariant
            0 <= i <= alen,
            alen == a@.len(),
            alen == b@.len(),
            forall|j: int| 0 <= j < i ==> a@[j] == b@[j],
        decreases alen - i,
    {
        if a.get_char(i) as u32 != b.get_char(i) as u32 {
            assert(a@[i as int] != b@[i as int]);
            return false;
        }
        assert(a@[i as int] == b@[i as int]);
        i = i + 1;
    }
    assert(a@ =~= b@);
    true
}

/// Whether `s` holds the character `c` anywhere.
pub fn str_has_char(s: &str, c: char) -> (r: bool)
    ensures
        r == s@.contains(c),
{
    let len = s.unicode_len();
    let mut i: usize = 0;
    while i < len
        invariant
            0 <= i <= len,
            len == s@.len(),
            forall|j: int| 0 <= j < i ==> s@[j] != c,
        decreases len - i,
    {
        if s.get_char(i) as u32 == c as u32 {
            assert(s@[i as int] == c);
            return true;
        }
        assert(s@[i as int] != c);
        i = i + 1;
    }
    assert(!s@.contains(c));
    false
}

/// The decimal digit character for `d` (`d` below ten).
pub open spec fn decimal_digit(d: nat) -> char {
    if d == 0 {
        '0'
    } else if d == 1 {
        '1'
    } else if d == 2 {
        '2'
    } else if d == 3 {
        '3'
    } else if d == 4 {
        '4'
    } else if d == 5 {
        '5'
    } else if d == 6 {
        '6'
    } else if d == 7 {
        '7'
    } else if d == 8 {
        '8'
    } else {
        '9'
    }
}

/// Decimal rendering of a natural number, most significant digit first,
/// without leading zeros (a single `'0'` for zero).
pub open spec fn decimal_of(n: nat) -> Seq<char>
    decreases n,
{
    if n < 10 {
        seq![decimal_digit(n)]
    } else {
        decimal_of(n / 10).push(decimal_digit(n % 10))
    }
}

/// Decimal rendering of a signed number: a leading `'-'` for negatives.
pub open spec fn signed_decimal_of(n: int) -> Seq<char> {
    if n >= 0 {
        decimal_of(n as nat)
    } else {
        seq!['-'] + decimal_of((-n) as nat)
    }
}

/// A one-character string slice holding the decimal digit for `d`.
fn digit_str(d: u64) -> (s: &'static str)
    requires
        d < 10,
    ensures
        s@ =~= seq![decimal_digit(d as nat)],
{
    match d {
        0 => {
            proof { reveal_strlit("0"); }
            "0"
        },
        1 => {
            proof { reveal_strlit("1"); }
            "1"
        },
        2 => {
            proof { reveal_strlit("2"); }
            "2"
        },
        3 => {
            proof { reveal_strlit("3"); }
            "3"
        },
        4 => {
            proof { reveal_strlit("4"); }
            "4"
        },
        5 => {
            proof { reveal_strlit("5"); }
            "5"
        },
        6 => {
            proof { reveal_strlit("6"); }
            "6"
        },
        7 => {
            proof { reveal_strlit("7"); }
            "7"
        },
        8 => {
            proof { reveal_strlit("8"); }
            "8"
        },
        _ => {
            proof { reveal_strlit("9"); }
            "9"
        },
    }
}

/// Renders `n` in decimal.
pub fn u64_to_decimal(n: u64) -> (s: String)
    ensures
        s@ == decimal_of(n as nat),
    decreases n,
{
    if n < 10 {
        let s = String::from_str(digit_str(n));
        assert(s@ =~= decimal_of(n as nat));
        s
    } else {
        let mut s = u64_to_decimal(n / 10);
        s.append(digit_str(n % 10));
        assert(s@ =~= decimal_of(n as nat));
        s
    }
}

/// Renders `n` in decimal, with a leading `'-'` when negative.
pub fn i64_to_decimal(n: i64) -> (s: String)
    ensures
        s@ == signed_decimal_of(n as int),
{
    if n >= 0 {
        u64_to_decimal(n as u64)
    } else {
        let wide: i128 = n as i128;
        let mag: u64 = (-wide) as u64;
        let mut s = String::from_str("-");
        proof { reveal_strlit("-"); }
        s.append(u64_to_decimal(mag).as_str());
        assert(s@ =~= signed_decimal_of(n as int));
        s
    }
}

/// Every character of a decimal rendering is a digit.
pub proof fn lemma_decimal_chars_are_digits(n: nat)
    ensures
        forall|i: int| 0 <= i < decimal_of(n).len() ==> 48 <= #[trigger] decimal_of(n)[i] as u32 <= 57,
    decreases n,
{
    if n < 10 {
        assert(48 <= decimal_digit(n) as u32 <= 57);
        assert(decimal_of(n)[0] == decimal_digit(n));
    } else {
        lemma_decimal_chars_are_digits(n / 10);
        let prefix = decimal_of(n / 10);
        assert(48 <= decimal_digit(n % 10) as u32 <= 57);
        assert forall|i: int| 0 <= i < decimal_of(n).len() implies 48 <= #[trigger] decimal_of(
            n,
        )[i] as u32 <= 57 by {
            if i < prefix.len() {
                assert(decimal_of(n)[i] == prefix[i]);
            } else {
                assert(decimal_of(n)[i] == decimal_digit(n % 10));
            }
        }
    }
}

/// A signed decimal rendering never holds a colon.
pub proof fn lemma_signed_decimal_no_colon(n: int)
    ensures
        !signed_decimal_of(n).contains(':'),
{
    if n >= 0 {
        lemma_decimal_chars_are_digits(n as nat);
    } else {
        lemma_decimal_chars_are_digits((-n) as nat);
    }
    assert forall|i: int| 0 <= i < signed_decimal_of(n).len() implies signed_decimal_of(n)[i]
        != ':' by {
        assert(':' as u32 == 58);
        assert('-' as u32 == 45);
    }
}

} // verus!
