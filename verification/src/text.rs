//! Small verified text utilities: decimal rendering of counters,
//! ASCII case folding, case-insensitive substring search, and string
//! equality, all specified over `Seq<char>` views.

use vstd::prelude::*;
use vstd::string::StrSliceExecFns;

verus! {

/// The character for one decimal digit value.
pub open spec fn digit_char(d: int) -> char {
    if d == 0 {
        '0'
    } else if d == 1 {
        '1'
    } else if d == 2 {
        '2'
    } else if d == 3 {
        '3'
    } else if d == 4 {
        '4'
    } else if d == 5 {
        '5'
    } else if d == 6 {
        '6'
    } else if d == 7 {
        '7'
    } else if d == 8 {
        '8'
    } else {
        '9'
    }
}

/// Decimal digits of a non-negative number, most significant first,
/// empty for zero.
pub open spec fn dec_digits(n: int) -> Seq<char>
    decreases n,
{
    if n <= 0 {
        Seq::<char>::empty()
    } else {
        dec_digits(n / 10).push(digit_char(n % 10))
    }
}

/// The usual decimal rendering: digits of `n`, with `"0"` for zero.
pub open spec fn dec_rep(n: int) -> Seq<char> {
    if n == 0 {
        seq!['0']
    } else {
        dec_digits(n)
    }
}

/// The digit characters of `ds`, read back to front.
pub open spec fn rev_digit_chars(ds: Seq<u8>) -> Seq<char> {
    Seq::new(ds.len(), |i: int| digit_char(ds[ds.len() - 1 - i] as int))
}

/// One decimal digit as a string slice.
pub fn digit_str(d: u8) -> (r: &'static str)
    requires
        d < 10,
    ensures
        r@ == seq![digit_char(d as int)],
{
    proof {
        reveal_strlit("0");
        reveal_strlit("1");
        reveal_strlit("2");
        reveal_strlit("3");
        reveal_strlit("4");
        reveal_strlit("5");
        reveal_strlit("6");
        reveal_strlit("7");
        reveal_strlit("8");
        reveal_strlit("9");
    }
    let r: &'static str = match d {
        0 => "0",
        1 => "1",
        2 => "2",
        3 => "3",
        4 => "4",
        5 => "5",
        6 => "6",
        7 => "7",
        8 => "8",
        _ => "9",
    };
    proof {
        assert(r@ =~= seq![digit_char(d as int)]);
    }
    r
}

/// Renders a number in decimal, exactly as `dec_rep` describes.
pub fn u32_to_dec(n: u32) -> (s: String)
    ensures
        s@ == dec_rep(n as int),
{
    if n == 0 {
        let s = digit_str(0).to_owned();
        proof {
            assert(s@ =~= dec_rep(0));
        }
        return s;
    }
    let mut digits: Vec<u8> = Vec::new();
    let mut m: u32 = n;
    proof {
        assert(dec_digits(n as int) =~= dec_digits(n as int) + rev_digit_chars(digits@));
    }
    while m > 0
        invariant
            forall|i: int| 0 <= i < digits@.len() ==> digits@[i] < 10,
            dec_digits(n as int) == dec_digits(m as int) + rev_digit_chars(digits@),
            m == 0 ==> digits@.len() > 0,
        decreases m,
    {
        let ghost ds0 = digits@;
        let d: u8 = (m % 10) as u8;
        digits.push(d);
        proof {
            assert(rev_digit_chars(ds0.push(d)) =~= seq![digit_char(d as int)] + rev_digit_chars(
                ds0,
            ));
            assert(dec_digits(m as int) == dec_digits(m as int / 10).push(
                digit_char(m as int % 10),
            ));
            assert(dec_digits(m as int) + rev_digit_chars(ds0) =~= dec_digits((m / 10) as int)
                + rev_digit_chars(digits@));
        }
        m = m / 10;
    }
    proof {
        assert(dec_digits(n as int) =~= rev_digit_chars(digits@));
    }
    let mut s = String::new();
    let len = digits.len();
    let mut k: usize = 0;
    while k < len
        invariant
            len == digits@.len(),
            len > 0,
            forall|i: int| 0 <= i < digits@.len() ==> digits@[i] < 10,
            dec_digits(n as int) == rev_digit_chars(digits@),
            k <= len,
            s@ == rev_digit_chars(digits@).subrange(0, k as int),
        decreases len - k,
    {
        let idx = len - 1 - k;
        let d = digits[idx];
        s.append(digit_str(d));
        proof {
            assert(s@ =~= rev_digit_chars(digits@).subrange(0, k as int + 1));
        }
        k += 1;
    }
    proof {
        assert(rev_digit_chars(digits@).subrange(0, len as int) =~= rev_digit_chars(digits@));
        assert(s@ == dec_rep(n as int));
    }
    s
}

/// ASCII case folding of one character: upper-case letters become
/// lower-case, everything else is unchanged.
pub open spec fn lower_char(c: char) -> char {
    if 65 <= c as u32 && c as u32 <= 90 {
        (((c as u32) + 32) as u8) as char
    } else {
        c
    }
}

/// ASCII case folding of a character sequence.
pub open spec fn lower_chars(s: Seq<char>) -> Seq<char> {
    s.map_values(|c: char| lower_char(c))
}

/// Executable ASCII case folding of one character.
pub fn lower_char_ex(c: char) -> (r: char)
    ensures
        r == lower_char(c),
{
    let u: u32 = c as u32;
    if 65 <= u && u <= 90 {
        ((u + 32) as u8) as char
    } else {
        c
    }
}

/// `needle` occurs in `hay` starting at position `i`.
pub open spec fn contains_at(hay: Seq<char>, needle: Seq<char>, i: int) -> bool {
    0 <= i && i + needle.len() <= hay.len() && hay.subrange(i, i + needle.len()) == needle
}

/// `needle` occurs somewhere in `hay`.
pub open spec fn contains_token(hay: Seq<char>, needle: Seq<char>) -> bool {
    exists|i: int| contains_at(hay, needle, i)
}

fn match_at(s: &str, needle: &str, i: usize) -> (r: bool)
    requires
        i + needle@.len() <= s@.len(),
    ensures
        r == contains_at(lower_chars(s@), needle@, i as int),
{
    let n = s.unicode_len();
    let m = needle.unicode_len();
    let mut j: usize = 0;
    while j < m
        invariant
            n == s@.len(),
            i + m <= n,
            m == needle@.len(),
            j <= m,
            forall|k: int| 0 <= k < j ==> lower_chars(s@)[i + k] == needle@[k],
        decreases m - j,
    {
        let c = lower_char_ex(s.get_char(i + j));
        let d = needle.get_char(j);
        if c != d {
            proof {
                assert(!contains_at(lower_chars(s@), needle@, i as int)) by {
                    if contains_at(lower_chars(s@), needle@, i as int) {
                        assert(lower_chars(s@).subrange(
                            i as int,
                            i as int + needle@.len(),
                        )[j as int] == needle@[j as int]);
                    }
                }
            }
            return false;
        }
        j += 1;
    }
    proof {
        assert(lower_chars(s@).subrange(i as int, i as int + needle@.len()) =~= needle@);
    }
    true
}

/// Case-insensitive search: does `needle` (given in lower case) occur in
/// the ASCII-folded `s`?
pub fn contains_ci(s: &str, needle: &str) -> (r: bool)
    ensures
        r == contains_token(lower_chars(s@), needle@),
{
    let n = s.unicode_len();
    let m = needle.unicode_len();
    if m > n {
        proof {
            assert(forall|i: int| !contains_at(lower_chars(s@), needle@, i));
        }
        return false;
    }
    if m == 0 {
        proof {
            assert(contains_at(lower_chars(s@), needle@, 0)) by {
                assert(lower_chars(s@).subrange(0, 0) =~= needle@);
            }
        }
        return true;
    }
    let mut i: usize = 0;
    while i <= n - m
        invariant
            n == s@.len(),
            m == needle@.len(),
            0 < m <= n,
            i <= n - m + 1,
            forall|j: int| 0 <= j < i ==> !contains_at(lower_chars(s@), needle@, j),
        decreases n - i,
    {
        if match_at(s, needle, i) {
            return true;
        }
        i += 1;
    }
    proof {
        assert(forall|j: int| !contains_at(lower_chars(s@), needle@, j));
    }
    false
}

/// String-slice equality, specified over the views.
pub fn str_eq(a: &str, b: &str) -> (r: bool)
    ensures
        r == (a@ == b@),
{
    let x: String = a.to_owned();
    let y: String = b.to_owned();
    x == y
}

} // verus!
