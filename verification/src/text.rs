//! Text helpers: decimal rendering of integers, ASCII case folding, and
//! string building with contracts over the character sequence.

use vstd::prelude::*;

verus! {

/// The character of a decimal digit.
pub open spec fn digit_char(d: nat) -> char
    recommends
        d < 10,
{
    (48 + d) as char
}

/// The usual decimal rendering of `n`: no sign, no leading zeros, `"0"` for zero.
pub open spec fn decimal(n: nat) -> Seq<char>
    decreases n,
{
    if n < 10 {
        seq![digit_char(n)]
    } else {
        decimal(n / 10).push(digit_char(n % 10))
    }
}

/// Whether `c` is one of the ten decimal digit characters.
pub open spec fn is_digit_char(c: char) -> bool {
    '0' <= c && c <= '9'
}

/// The number that a sequence of decimal digit characters denotes.
pub open spec fn decimal_value(s: Seq<char>) -> nat
    decreases s.len(),
{
    if s.len() == 0 {
        0
    } else {
        decimal_value(s.drop_last()) * 10 + ((s.last() as int - 48) as nat)
    }
}

/// Appends `c` to `s`.
#[verifier::external_body]
pub(crate) fn push_char(s: &mut String, c: char)
    ensures
        final(s)@ == old(s)@.push(c),
{
    s.push(c);
}

/// Appends the decimal rendering of `n` to `s`.
pub fn push_decimal(s: &mut String, n: u32)
    ensures
        final(s)@ == old(s)@ + decimal(n as nat),
    decreases n,
{
    if n >= 10 {
        push_decimal(s, n / 10);
    }
    let d: u32 = n % 10;
    let c: char = (48u8 + (d as u8)) as char;
    assert(c == digit_char(d as nat));
    push_char(s, c);
    proof {
        if n >= 10 {
            assert(decimal(n as nat) == decimal((n / 10) as nat).push(digit_char((n % 10) as nat)));
        }
    }
}

/// The decimal rendering of `n`, as `n.to_string()` writes it.
pub fn u32_to_decimal(n: u32) -> (res: String)
    ensures
        res@ == decimal(n as nat),
{
    let mut s = String::new();
    push_decimal(&mut s, n);
    assert(s@ =~= decimal(n as nat));
    s
}


/// Decimal law: the rendering of `n` is made of digits, starts with a nonzero
/// digit unless `n` is zero, and reads back as `n`.
pub proof fn lemma_decimal_reads_back(n: nat)
    ensures
        decimal(n).len() >= 1,
        forall|i: int| 0 <= i < decimal(n).len() ==> is_digit_char(#[trigger] decimal(n)[i]),
        n > 0 ==> decimal(n)[0] != '0',
        decimal_value(decimal(n)) == n,
    decreases n,
{
    assert(digit_char(n % 10) as int == 48 + n % 10);
    if n < 10 {
        assert(decimal(n).drop_last() =~= Seq::<char>::empty());
        assert(decimal_value(Seq::<char>::empty()) == 0);
        assert(decimal(n).last() == digit_char(n));
        assert(decimal_value(decimal(n)) == decimal_value(decimal(n).drop_last()) * 10 + ((
        decimal(n).last() as int - 48) as nat));
    } else {
        lemma_decimal_reads_back(n / 10);
        let s = decimal(n);
        assert(s.drop_last() =~= decimal(n / 10));
        assert forall|i: int| 0 <= i < s.len() implies is_digit_char(#[trigger] s[i]) by {
            if i < s.len() - 1 {
                assert(s[i] == decimal(n / 10)[i]);
            }
        }
        assert(s[0] == decimal(n / 10)[0]);
        assert(s.last() == digit_char(n % 10));
        assert(decimal_value(s) == decimal_value(s.drop_last()) * 10 + ((s.last() as int - 48) as nat));
    }
}

/// The code of `c` with ASCII capitals mapped to small letters.
pub open spec fn ascii_lower_code(c: char) -> u32 {
    if 65 <= (c as u32) && (c as u32) <= 90 {
        (c as u32 + 32) as u32
    } else {
        c as u32
    }
}

/// Whether two texts are equal once ASCII letters are taken without case, as
/// `str::eq_ignore_ascii_case` decides.
pub open spec fn eq_ignore_ascii_case(a: Seq<char>, b: Seq<char>) -> bool {
    &&& a.len() == b.len()
    &&& forall|i: int| 0 <= i < a.len() ==> ascii_lower_code(#[trigger] a[i]) == ascii_lower_code(
        b[i],
    )
}

fn lower_code(c: char) -> (res: u32)
    ensures
        res == ascii_lower_code(c),
{
    let v: u32 = c as u32;
    if 65 <= v && v <= 90 {
        v + 32
    } else {
        v
    }
}

/// Compares two texts with ASCII letters taken without case.
pub fn str_eq_ignore_ascii_case(a: &str, b: &str) -> (res: bool)
    ensures
        res == eq_ignore_ascii_case(a@, b@),
{
    let n: usize = a.unicode_len();
    if n != b.unicode_len() {
        return false;
    }
    let mut i: usize = 0;
    while i < n
        invariant
            n == a@.len(),
            n == b@.len(),
            i <= n,
            forall|j: int| 0 <= j < i ==> ascii_lower_code(#[trigger] a@[j]) == ascii_lower_code(b@[j]),
        decreases n - i,
    {
        if lower_code(a.get_char(i)) != lower_code(b.get_char(i)) {
            return false;
        }
        i = i + 1;
    }
    true
}


/// Case folding touches ASCII capitals only: a capital maps to its small letter,
/// every other character to itself.
pub proof fn lemma_ascii_lower_code(c: char)
    ensures
        65 <= (c as u32) <= 90 ==> ascii_lower_code(c) == (c as int) + 32,
        !(65 <= (c as u32) <= 90) ==> ascii_lower_code(c) == c as u32,
{
}

/// Texts equal without regard to ASCII case have the same length and agree,
/// after case folding, at every position; and texts that agree so are equal in
/// that sense.
pub proof fn lemma_eq_ignore_ascii_case_everywhere(a: Seq<char>, b: Seq<char>)
    ensures
        eq_ignore_ascii_case(a, b) ==> a.len() == b.len(),
        eq_ignore_ascii_case(a, b) ==> forall|i: int|
            0 <= i < a.len() ==> ascii_lower_code(#[trigger] a[i]) == ascii_lower_code(b[i]),
        (a.len() == b.len() && forall|i: int|
            0 <= i < a.len() ==> ascii_lower_code(#[trigger] a[i]) == ascii_lower_code(b[i]))
            ==> eq_ignore_ascii_case(a, b),
{
}

/// A text equal to another without regard to ASCII case differs from it at most
/// in the case of ASCII letters: each character is the other's, or the other's
/// with the case of an ASCII letter changed.
pub proof fn lemma_eq_ignore_ascii_case_letters(a: Seq<char>, b: Seq<char>, i: int)
    requires
        eq_ignore_ascii_case(a, b),
        0 <= i < a.len(),
    ensures
        a[i] == b[i] || (65 <= (a[i] as u32) <= 90 && (b[i] as int) == (a[i] as int) + 32) || (65
            <= (b[i] as u32) <= 90 && (a[i] as int) == (b[i] as int) + 32),
{
    lemma_same_lower_code(a[i], b[i]);
}

/// A character folds to a small ASCII letter exactly when it is that letter or
/// the matching capital.
pub proof fn lemma_folds_to_small_letter(c: char, small: char)
    requires
        97 <= (small as u32) <= 122,
    ensures
        ascii_lower_code(c) == ascii_lower_code(small) <==> (c == small || (c as int) == (small as int)
            - 32),
{
    if ascii_lower_code(c) == ascii_lower_code(small) {
        lemma_same_lower_code(c, small);
    }
}

proof fn lemma_same_lower_code(c: char, d: char)
    requires
        ascii_lower_code(c) == ascii_lower_code(d),
    ensures
        c == d || (65 <= (c as u32) <= 90 && (d as int) == (c as int) + 32) || (65 <= (d as u32) <= 90
            && (c as int) == (d as int) + 32),
{
}

} // verus!
