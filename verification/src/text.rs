//! Character-level helpers: string equality, first occurrence of a
//! character, and the decimal read/print pair used for session cookies and
//! the challenge page's `count` parameter.

use vstd::prelude::*;

verus! {

/// True when `c` is a decimal digit (`'0'` through `'9'`).
pub open spec fn is_digit(c: char) -> bool {
    48 <= c as u32 <= 57
}

/// Numeric value of a single decimal digit.
pub open spec fn digit_val(c: char) -> nat {
    ((c as u32) - 48) as nat
}

/// True when every character of `s` is a decimal digit.
pub open spec fn all_digits(s: Seq<char>) -> bool {
    forall|i: int| 0 <= i < s.len() ==> is_digit(#[trigger] s[i])
}

/// Numeric value of a digit string, most significant digit first.
pub open spec fn dec_value(s: Seq<char>) -> nat
    decreases s.len(),
{
    if s.len() == 0 {
        0
    } else {
        dec_value(s.drop_last()) * 10 + digit_val(s.last())
    }
}

/// The digit character for a value below ten.
pub open spec fn digit_char(d: nat) -> char {
    if d == 0 {
        '0'
    } else if d == 1 {
        '1'
    } else if d == 2 {
        '2'
    } else if d == 3 {
        '3'
    } else if d == 4 {
        '4'
    } else if d == 5 {
        '5'
    } else if d == 6 {
        '6'
    } else if d == 7 {
        '7'
    } else if d == 8 {
        '8'
    } else {
        '9'
    }
}

/// Canonical decimal rendering of `n`, without leading zeroes.
pub open spec fn dec_str(n: nat) -> Seq<char>
    decreases n,
{
    if n < 10 {
        seq![digit_char(n)]
    } else {
        dec_str(n / 10).push(digit_char(n % 10))
    }
}

/// Index of the first occurrence of `c` in `s`, if any.
pub open spec fn find_first(s: Seq<char>, c: char) -> Option<int>
    decreases s.len(),
{
    if s.len() == 0 {
        None
    } else if s[0] == c {
        Some(0int)
    } else {
        match find_first(s.skip(1), c) {
            None => None,
            Some(i) => Some(i + 1),
        }
    }
}

/// What `find_first` returns is the first occurrence: in bounds, equal to
/// `c`, and with no occurrence of `c` before it; `None` means `c` does not
/// occur at all.
pub proof fn lemma_find_first(s: Seq<char>, c: char)
    ensures
        match find_first(s, c) {
            Some(i) => 0 <= i < s.len() && s[i] == c && (forall|j: int|
                0 <= j < i ==> s[j] != c),
            None => forall|j: int| 0 <= j < s.len() ==> s[j] != c,
        },
    decreases s.len(),
{
    if s.len() != 0 && s[0] != c {
        let t = s.skip(1);
        lemma_find_first(t, c);
        match find_first(t, c) {
            Some(i) => {
                assert(t[i] == s[i + 1]);
                assert forall|j: int| 0 <= j < i + 1 implies s[j] != c by {
                    if j > 0 {
                        assert(t[j - 1] == s[j]);
                    }
                }
            },
            None => {
                assert forall|j: int| 0 <= j < s.len() implies s[j] != c by {
                    if j > 0 {
                        assert(t[j - 1] == s[j]);
                    }
                }
            },
        }
    }
}

/// The value read from a digit string grows (weakly) as digits are added at
/// the end: the value of a prefix never exceeds the value of the whole.
pub proof fn lemma_dec_value_prefix(s: Seq<char>, i: int)
    requires
        0 <= i <= s.len(),
    ensures
        dec_value(s.take(i)) <= dec_value(s),
    decreases s.len() - i,
{
    if i < s.len() {
        assert(s.take(i + 1).drop_last() =~= s.take(i));
        assert(dec_value(s.take(i + 1)) == dec_value(s.take(i)) * 10 + digit_val(s.take(
            i + 1,
        ).last()));
        assert(dec_value(s.take(i)) <= dec_value(s.take(i)) * 10) by (nonlinear_arith);
        lemma_dec_value_prefix(s, i + 1);
    } else {
        assert(s.take(i) =~= s);
    }
}

/// The decimal rendering of `n` is a nonempty digit string that reads back
/// as `n`.
pub proof fn lemma_dec_str_value(n: nat)
    ensures
        dec_str(n).len() >= 1,
        all_digits(dec_str(n)),
        dec_value(dec_str(n)) == n,
    decreases n,
{
    if n < 10 {
        let s = dec_str(n);
        assert(s =~= seq![digit_char(n)]);
        assert(s.drop_last() =~= Seq::<char>::empty());
        assert(s.last() == digit_char(n));
        assert(digit_val(digit_char(n)) == n);
        assert(dec_value(s) == dec_value(s.drop_last()) * 10 + digit_val(s.last()));
        assert(dec_value(s.drop_last()) == 0);
    } else {
        lemma_dec_str_value(n / 10);
        let s = dec_str(n);
        assert(s =~= dec_str(n / 10).push(digit_char(n % 10)));
        assert(s.drop_last() =~= dec_str(n / 10));
        assert(s.last() == digit_char(n % 10));
        assert(digit_val(digit_char(n % 10)) == n % 10);
        assert(dec_value(s) == dec_value(s.drop_last()) * 10 + digit_val(s.last()));
        assert(dec_value(s) == (n / 10) * 10 + n % 10);
        assert((n / 10) * 10 + n % 10 == n) by (nonlinear_arith);
        assert forall|i: int| 0 <= i < s.len() implies is_digit(#[trigger] s[i]) by {
            if i < s.len() - 1 {
                assert(s[i] == dec_str(n / 10)[i]);
            }
        }
    }
}

/// True exactly when the two strings hold the same characters.
pub fn str_eq(a: &str, b: &str) -> (r: bool)
    ensures
        r == (a@ == b@),
{
    let na = a.unicode_len();
    let nb = b.unicode_len();
    if na != nb {
        return false;
    }
    let mut i: usize = 0;
    while i < na
        invariant
            na == a@.len(),
            na == b@.len(),
            0 <= i <= na,
            forall|j: int| 0 <= j < i ==> a@[j] == b@[j],
        decreases na - i,
    {
        if a.get_char(i) != b.get_char(i) {
            return false;
        }
        i = i + 1;
    }
    proof {
        assert(a@ =~= b@);
    }
    true
}

/// Index of the first occurrence of `c` in `s`, if there is one.
pub fn find_char(s: &str, c: char) -> (r: Option<usize>)
    ensures
        match r {
            Some(i) => find_first(s@, c) == Some(i as int),
            None => find_first(s@, c) is None,
        },
{
    proof {
        lemma_find_first(s@, c);
    }
    let n = s.unicode_len();
    let mut i: usize = 0;
    while i < n
        invariant
            n == s@.len(),
            0 <= i <= n,
            forall|j: int| 0 <= j < i ==> s@[j] != c,
        decreases n - i,
    {
        if s.get_char(i) == c {
            proof {
                lemma_find_first(s@, c);
                match find_first(s@, c) {
                    Some(fi) => {
                        if fi < i as int {
                            assert(s@[fi] != c);
                        }
                        if fi > i as int {
                            assert(s@[i as int] != c);
                        }
                    },
                    None => {
                        assert(s@[i as int] != c);
                    },
                }
            }
            return Some(i);
        }
        i = i + 1;
    }
    None
}

/// Reads a nonempty all-digit string as a `u64`; anything else, including a
/// value too large for `u64`, is `None`.
pub open spec fn parsed_u64(s: Seq<char>) -> Option<u64> {
    if s.len() > 0 && all_digits(s) && dec_value(s) <= u64::MAX {
        Some(dec_value(s) as u64)
    } else {
        None
    }
}

/// Decimal parse of a string, per `parsed_u64`.
pub fn parse_u64(s: &str) -> (r: Option<u64>)
    ensures
        r == parsed_u64(s@),
{
    let n = s.unicode_len();
    if n == 0 {
        return None;
    }
    let mut acc: u64 = 0;
    let mut i: usize = 0;
    while i < n
        invariant
            n == s@.len(),
            0 <= i <= n,
            all_digits(s@.take(i as int)),
            acc == dec_value(s@.take(i as int)),
        decreases n - i,
    {
        let c = s.get_char(i);
        let code = c as u32;
        if code < 48 || code > 57 {
            return None;
        }
        let d = (code - 48) as u64;
        proof {
            assert(s@.take(i + 1).drop_last() =~= s@.take(i as int));
        }
        let shifted = match acc.checked_mul(10) {
            Some(v) => v,
            None => {
                proof {
                    lemma_dec_value_prefix(s@, i + 1);
                }
                return None;
            },
        };
        acc = match shifted.checked_add(d) {
            Some(v) => v,
            None => {
                proof {
                    lemma_dec_value_prefix(s@, i + 1);
                }
                return None;
            },
        };
        i = i + 1;
    }
    proof {
        assert(s@.take(n as int) =~= s@);
    }
    Some(acc)
}

/// The digit character for `d`, as a one-character string.
pub fn digit_str(d: u64) -> (r: &'static str)
    requires
        d < 10,
    ensures
        r@ == seq![digit_char(d as nat)],
{
    proof {
        reveal_strlit("0");
        reveal_strlit("1");
        reveal_strlit("2");
        reveal_strlit("3");
        reveal_strlit("4");
        reveal_strlit("5");
        reveal_strlit("6");
        reveal_strlit("7");
        reveal_strlit("8");
        reveal_strlit("9");
    }
    let r: &'static str = if d == 0 {
        "0"
    } else if d == 1 {
        "1"
    } else if d == 2 {
        "2"
    } else if d == 3 {
        "3"
    } else if d == 4 {
        "4"
    } else if d == 5 {
        "5"
    } else if d == 6 {
        "6"
    } else if d == 7 {
        "7"
    } else if d == 8 {
        "8"
    } else {
        "9"
    };
    proof {
        assert(r@ =~= seq![digit_char(d as nat)]);
    }
    r
}

/// Canonical decimal rendering of `n`.
pub fn u64_to_string(n: u64) -> (r: String)
    ensures
        r@ == dec_str(n as nat),
    decreases n,
{
    if n < 10 {
        digit_str(n).to_owned()
    } else {
        let mut s = u64_to_string(n / 10);
        s.append(digit_str(n % 10));
        proof {
            assert(dec_str((n / 10) as nat).push(digit_char((n % 10) as nat)) =~= dec_str(
                (n / 10) as nat,
            ) + seq![digit_char((n % 10) as nat)]);
        }
        s
    }
}

} // verus!
