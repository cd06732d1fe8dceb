//! Helpers over strings, stated over their `Seq<char>` views: equality,
//! decimal numerals, and slashes in a row.

use vstd::prelude::*;
use vstd::string::StringExecFns;
use vstd::utf8::{encode_utf8, encode_utf8_decode_utf8};

verus! {

/// Tells whether two string slices hold the same characters, by comparing
/// their bytes.
///
/// Equal strings have equal UTF-8 encodings, and strings with equal
/// encodings are equal because decoding inverts encoding.
pub fn str_eq(a: &str, b: &str) -> (same: bool)
    ensures
        same == (a@ == b@),
{
    let x = a.as_bytes();
    let y = b.as_bytes();
    if x.len() != y.len() {
        return false;
    }
    let mut i: usize = 0;
    while i < x.len()
        invariant
            i <= x.len(),
            x.len() == y.len(),
            x@ == encode_utf8(a@),
            y@ == encode_utf8(b@),
            forall|k: int| 0 <= k < i ==> x@[k] == y@[k],
        decreases x.len() - i,
    {
        if x[i] != y[i] {
            return false;
        }
        i += 1;
    }
    proof {
        assert(x@ =~= y@);
        encode_utf8_decode_utf8(a@);
        encode_utf8_decode_utf8(b@);
    }
    true
}

/// The decimal digit that stands for `d`, for `d` below ten.
pub open spec fn digit(d: nat) -> char {
    if d == 0 {
        '0'
    } else if d == 1 {
        '1'
    } else if d == 2 {
        '2'
    } else if d == 3 {
        '3'
    } else if d == 4 {
        '4'
    } else if d == 5 {
        '5'
    } else if d == 6 {
        '6'
    } else if d == 7 {
        '7'
    } else if d == 8 {
        '8'
    } else {
        '9'
    }
}

/// The decimal numeral of `n`, without sign and without leading zeros.
pub open spec fn decimal(n: nat) -> Seq<char>
    decreases n,
{
    if n < 10 {
        seq![digit(n)]
    } else {
        decimal(n / 10).push(digit(n % 10))
    }
}

/// A numeral is not empty and holds decimal digits only.
pub proof fn lemma_decimal_digits(n: nat)
    ensures
        decimal(n).len() >= 1,
        forall|i: int| 0 <= i < decimal(n).len() ==> '0' <= #[trigger] decimal(n)[i] <= '9',
    decreases n,
{
    if n >= 10 {
        lemma_decimal_digits(n / 10);
    }
}

/// Whether `s` holds two slashes in a row.
pub open spec fn has_double_slash(s: Seq<char>) -> bool {
    exists|i: int| 0 <= i < s.len() - 1 && #[trigger] s[i] == '/' && s[i + 1] == '/'
}

/// Whether `s` starts with a slash.
pub open spec fn starts_with_slash(s: Seq<char>) -> bool {
    s.len() > 0 && s[0] == '/'
}

/// Whether `s` ends with a slash.
pub open spec fn ends_with_slash(s: Seq<char>) -> bool {
    s.len() > 0 && s.last() == '/'
}

/// Two strings joined hold a double slash exactly where one of them holds
/// one, or where the first ends with a slash and the second starts with one.
pub proof fn lemma_double_slash_concat(a: Seq<char>, b: Seq<char>)
    ensures
        has_double_slash(a + b) <==> has_double_slash(a) || has_double_slash(b) || (
        ends_with_slash(a) && starts_with_slash(b)),
{
    let joined = a + b;
    if has_double_slash(a) {
        let i = choose|i: int| 0 <= i < a.len() - 1 && #[trigger] a[i] == '/' && a[i + 1] == '/';
        assert(joined[i] == '/' && joined[i + 1] == '/');
    }
    if has_double_slash(b) {
        let i = choose|i: int| 0 <= i < b.len() - 1 && #[trigger] b[i] == '/' && b[i + 1] == '/';
        assert(joined[a.len() + i] == '/' && joined[a.len() + i + 1] == '/');
    }
    if ends_with_slash(a) && starts_with_slash(b) {
        assert(joined[a.len() - 1] == '/' && joined[a.len() - 1 + 1] == '/');
    }
    if has_double_slash(joined) {
        let i = choose|i: int|
            0 <= i < joined.len() - 1 && #[trigger] joined[i] == '/' && joined[i + 1] == '/';
        if i + 1 < a.len() {
            assert(a[i] == '/' && a[i + 1] == '/');
        } else if i >= a.len() {
            assert(b[i - a.len()] == '/' && b[i - a.len() + 1] == '/');
        }
    }
}

/// The one-character string that holds the digit for `d`.
fn digit_str(d: u8) -> (s: &'static str)
    requires
        d < 10,
    ensures
        s@ == seq![digit(d as nat)],
{
    proof {
        reveal_strlit("0");
        reveal_strlit("1");
        reveal_strlit("2");
        reveal_strlit("3");
        reveal_strlit("4");
        reveal_strlit("5");
        reveal_strlit("6");
        reveal_strlit("7");
        reveal_strlit("8");
        reveal_strlit("9");
    }
    match d {
        0 => "0",
        1 => "1",
        2 => "2",
        3 => "3",
        4 => "4",
        5 => "5",
        6 => "6",
        7 => "7",
        8 => "8",
        _ => "9",
    }
}

/// Appends the decimal numeral of `n` to `out`.
pub fn push_decimal(out: &mut String, n: u8)
    ensures
        final(out)@ == old(out)@ + decimal(n as nat),
    decreases n,
{
    if n >= 10 {
        push_decimal(out, n / 10);
    }
    out.append(digit_str(n % 10));
}

} // verus!
