//! Small verified helpers for building and comparing the strings that the
//! validation pipeline records: decimal rendering for status codes and array
//! indices, and character-wise string comparison.

use vstd::prelude::*;
use vstd::string::StrSliceExecFns;
use vstd::string::StringExecFns;

verus! {

/// The one-character sequence for a decimal digit.
pub open spec fn digit_seq(d: nat) -> Seq<char> {
    if d == 0 {
        "0"@
    } else if d == 1 {
        "1"@
    } else if d == 2 {
        "2"@
    } else if d == 3 {
        "3"@
    } else if d == 4 {
        "4"@
    } else if d == 5 {
        "5"@
    } else if d == 6 {
        "6"@
    } else if d == 7 {
        "7"@
    } else if d == 8 {
        "8"@
    } else {
        "9"@
    }
}

/// Decimal rendering of a natural number, most significant digit first.
pub open spec fn spec_decimal(n: nat) -> Seq<char>
    decreases n,
{
    if n < 10 {
        digit_seq(n)
    } else {
        spec_decimal(n / 10) + digit_seq(n % 10)
    }
}

/// Appends the single decimal digit `d` to `s`.
fn append_digit(s: &mut String, d: u64)
    requires
        d < 10,
    ensures
        final(s)@ == old(s)@ + digit_seq(d as nat),
{
    if d == 0 {
        s.append("0");
    } else if d == 1 {
        s.append("1");
    } else if d == 2 {
        s.append("2");
    } else if d == 3 {
        s.append("3");
    } else if d == 4 {
        s.append("4");
    } else if d == 5 {
        s.append("5");
    } else if d == 6 {
        s.append("6");
    } else if d == 7 {
        s.append("7");
    } else if d == 8 {
        s.append("8");
    } else {
        s.append("9");
    }
}

/// Renders `n` in decimal.
pub fn decimal_string(n: u64) -> (r: String)
    ensures
        r@ == spec_decimal(n as nat),
    decreases n,
{
    if n < 10 {
        let mut r = String::new();
        append_digit(&mut r, n);
        assert(r@ =~= spec_decimal(n as nat));
        r
    } else {
        let mut r = decimal_string(n / 10);
        append_digit(&mut r, n % 10);
        r
    }
}

/// `pre` is a prefix of `s`.
pub open spec fn has_prefix(s: Seq<char>, pre: Seq<char>) -> bool {
    pre.len() <= s.len() && s.subrange(0, pre.len() as int) == pre
}

/// Character-wise prefix test, with the mathematical meaning in its contract.
pub fn str_has_prefix(s: &str, pre: &str) -> (r: bool)
    ensures
        r == has_prefix(s@, pre@),
{
    let ls = s.unicode_len();
    let lp = pre.unicode_len();
    if lp > ls {
        return false;
    }
    let mut i: usize = 0;
    while i < lp
        invariant
            i <= lp,
            lp == pre@.len(),
            lp <= ls,
            ls == s@.len(),
            forall|j: int| 0 <= j < i ==> s@[j] == pre@[j],
        decreases lp - i,
    {
        if s.get_char(i) != pre.get_char(i) {
            proof {
                assert(s@.subrange(0, lp as int)[i as int] != pre@[i as int]);
            }
            return false;
        }
        i = i + 1;
    }
    proof {
        assert(s@.subrange(0, lp as int) =~= pre@);
    }
    true
}

/// Character-wise string equality, with the mathematical meaning in its
/// contract.
pub fn str_eq(a: &str, b: &str) -> (r: bool)
    ensures
        r == (a@ == b@),
{
    let la = a.unicode_len();
    let lb = b.unicode_len();
    if la != lb {
        return false;
    }
    let mut i: usize = 0;
    while i < la
        invariant
            i <= la,
            la == a@.len(),
            la == b@.len(),
            forall|j: int| 0 <= j < i ==> a@[j] == b@[j],
        decreases la - i,
    {
        if a.get_char(i) != b.get_char(i) {
            return false;
        }
        i = i + 1;
    }
    proof {
        assert(a@ =~= b@);
    }
    true
}

} // verus!
