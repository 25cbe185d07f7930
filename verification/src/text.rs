//! Character-level helpers: decimal numbers and matching inside a text.
//!
//! Texts are handled as sequences of `char`; executable code works on a
//! `Vec<char>` obtained once from a `&str`.

use vstd::prelude::*;
use vstd::string::*;

verus! {

/// `c` is one of the ten ASCII digits.
pub open spec fn is_digit(c: char) -> bool {
    '0' <= c && c <= '9'
}

/// The digit that stands for `d`, for `d < 10`.
pub open spec fn digit_char(d: nat) -> char {
    if d == 0 {
        '0'
    } else if d == 1 {
        '1'
    } else if d == 2 {
        '2'
    } else if d == 3 {
        '3'
    } else if d == 4 {
        '4'
    } else if d == 5 {
        '5'
    } else if d == 6 {
        '6'
    } else if d == 7 {
        '7'
    } else if d == 8 {
        '8'
    } else {
        '9'
    }
}

/// The value of a digit; meaningful where `is_digit(c)`.
pub open spec fn digit_value(c: char) -> nat {
    if c == '0' {
        0
    } else if c == '1' {
        1
    } else if c == '2' {
        2
    } else if c == '3' {
        3
    } else if c == '4' {
        4
    } else if c == '5' {
        5
    } else if c == '6' {
        6
    } else if c == '7' {
        7
    } else if c == '8' {
        8
    } else {
        9
    }
}

/// The decimal numeral of `n`, without leading zeros.
pub open spec fn decimal(n: nat) -> Seq<char>
    decreases n,
{
    if n < 10 {
        seq![digit_char(n)]
    } else {
        decimal(n / 10).push(digit_char(n % 10))
    }
}

/// Every character of `s` is a digit.
pub open spec fn all_digits(s: Seq<char>) -> bool {
    forall|i: int| 0 <= i < s.len() ==> is_digit(#[trigger] s[i])
}

/// The number that a sequence of digits denotes, most significant digit first.
pub open spec fn number(s: Seq<char>) -> nat
    decreases s.len(),
{
    if s.len() == 0 {
        0
    } else {
        number(s.drop_last()) * 10 + digit_value(s.last())
    }
}

/// `pat` stands in `text` at position `i`.
pub open spec fn has_at(text: Seq<char>, i: int, pat: Seq<char>) -> bool {
    &&& 0 <= i
    &&& i + pat.len() <= text.len()
    &&& forall|j: int| 0 <= j < pat.len() ==> text[i + j] == #[trigger] pat[j]
}

/// The length of the longest run of digits that starts at position `i`.
pub open spec fn digit_run(text: Seq<char>, i: int) -> nat
    decreases text.len() - i,
{
    if 0 <= i < text.len() && is_digit(text[i]) {
        1 + digit_run(text, i + 1)
    } else {
        0
    }
}

/// A numeral is made of digits, is not empty, and denotes its number.
pub proof fn lemma_decimal(n: nat)
    ensures
        decimal(n).len() >= 1,
        all_digits(decimal(n)),
        number(decimal(n)) == n,
    decreases n,
{
    if n < 10 {
        assert(number(decimal(n).drop_last()) == 0);
    } else {
        lemma_decimal(n / 10);
        let d = decimal(n / 10);
        assert(decimal(n).drop_last() =~= d);
    }
}

/// Different numbers have different numerals.
pub proof fn lemma_decimal_injective(a: nat, b: nat)
    requires
        decimal(a) == decimal(b),
    ensures
        a == b,
{
    lemma_decimal(a);
    lemma_decimal(b);
}

/// The digits of a run, and the character that ends it.
pub proof fn lemma_digit_run(text: Seq<char>, i: int)
    requires
        0 <= i <= text.len(),
    ensures
        i + digit_run(text, i) <= text.len(),
        forall|j: int| i <= j < i + digit_run(text, i) ==> is_digit(#[trigger] text[j]),
        i + digit_run(text, i) < text.len() ==> !is_digit(text[i + digit_run(text, i)]),
    decreases text.len() - i,
{
    if i < text.len() && is_digit(text[i]) {
        lemma_digit_run(text, i + 1);
    }
}

/// A run of `len` digits that a non-digit (or the end) follows is the longest.
pub proof fn lemma_digit_run_exact(text: Seq<char>, i: int, len: nat)
    requires
        0 <= i,
        i + len <= text.len(),
        forall|j: int| i <= j < i + len ==> is_digit(#[trigger] text[j]),
        i + len < text.len() ==> !is_digit(text[i + len]),
    ensures
        digit_run(text, i) == len,
    decreases len,
{
    if len > 0 {
        lemma_digit_run_exact(text, i + 1, (len - 1) as nat);
    }
}

/// The characters of a string slice, in order.
pub fn chars_of(s: &str) -> (r: Vec<char>)
    ensures
        r@ == s@,
{
    let mut out: Vec<char> = Vec::new();
    for c in it: s.chars()
        invariant
            out@ == it.seq().take(it.index()),
    {
        out.push(c);
    }
    out
}

/// Whether two string slices hold the same characters.
pub fn same_text(a: &str, b: &str) -> (r: bool)
    ensures
        r == (a@ == b@),
{
    let x = a.to_owned();
    let y = b.to_owned();
    x == y
}

/// The one-character text of a digit.
fn digit_text(d: usize) -> (r: &'static str)
    requires
        d < 10,
    ensures
        r@ == seq![digit_char(d as nat)],
{
    proof {
        reveal_strlit("0");
        reveal_strlit("1");
        reveal_strlit("2");
        reveal_strlit("3");
        reveal_strlit("4");
        reveal_strlit("5");
        reveal_strlit("6");
        reveal_strlit("7");
        reveal_strlit("8");
        reveal_strlit("9");
    }
    let r = if d == 0 {
        "0"
    } else if d == 1 {
        "1"
    } else if d == 2 {
        "2"
    } else if d == 3 {
        "3"
    } else if d == 4 {
        "4"
    } else if d == 5 {
        "5"
    } else if d == 6 {
        "6"
    } else if d == 7 {
        "7"
    } else if d == 8 {
        "8"
    } else {
        "9"
    };
    r
}

/// Appends the decimal numeral of `n` to `out`.
pub fn push_decimal(out: &mut String, n: usize)
    ensures
        final(out)@ == old(out)@ + decimal(n as nat),
    decreases n,
{
    if n >= 10 {
        push_decimal(out, n / 10);
    }
    out.append(digit_text(n % 10));
    proof {
        if n >= 10 {
            assert(old(out)@ + decimal((n / 10) as nat) + seq![digit_char((n % 10) as nat)]
                =~= old(out)@ + decimal(n as nat));
        }
    }
}

/// Whether `pat` stands in `text` at position `i`.
pub fn matches_at(text: &Vec<char>, i: usize, pat: &Vec<char>) -> (r: bool)
    ensures
        r == has_at(text@, i as int, pat@),
{
    if pat.len() > text.len() || i > text.len() - pat.len() {
        return false;
    }
    let mut j: usize = 0;
    while j < pat.len()
        invariant
            j <= pat.len(),
            i + pat.len() <= text.len(),
            forall|k: int| 0 <= k < j ==> text@[i + k] == #[trigger] pat@[k],
        decreases pat.len() - j,
    {
        if text[i + j] != pat[j] {
            return false;
        }
        j += 1;
    }
    true
}

/// The length of the longest run of digits that starts at position `i`.
pub fn count_digits(text: &Vec<char>, i: usize) -> (r: usize)
    ensures
        r == digit_run(text@, i as int),
        i <= text.len() ==> i + r <= text.len(),
{
    if i > text.len() {
        return 0;
    }
    let mut j: usize = i;
    while j < text.len() && '0' <= text[j] && text[j] <= '9'
        invariant
            i <= j <= text.len(),
            forall|k: int| i <= k < j ==> is_digit(#[trigger] text@[k]),
        decreases text.len() - j,
    {
        j += 1;
    }
    proof {
        lemma_digit_run_exact(text@, i as int, (j - i) as nat);
    }
    j - i
}

/// The value of the digit `c`.
fn digit_of(c: char) -> (r: usize)
    requires
        is_digit(c),
    ensures
        r == digit_value(c),
        r < 10,
{
    if c == '0' {
        0
    } else if c == '1' {
        1
    } else if c == '2' {
        2
    } else if c == '3' {
        3
    } else if c == '4' {
        4
    } else if c == '5' {
        5
    } else if c == '6' {
        6
    } else if c == '7' {
        7
    } else if c == '8' {
        8
    } else {
        9
    }
}

/// The number that the characters from position `from` to the end denote:
/// `Some` exactly when there is at least one character, all are digits, and
/// the number fits.
pub fn read_number(text: &Vec<char>, from: usize) -> (r: Option<usize>)
    ensures
        r is Some <==> from < text.len() && all_digits(text@.skip(from as int)) && number(
            text@.skip(from as int),
        ) <= usize::MAX,
        r matches Some(v) ==> v == number(text@.skip(from as int)),
{
    if from >= text.len() {
        return None;
    }
    let ghost tail = text@.skip(from as int);
    let mut acc: usize = 0;
    let mut j: usize = from;
    while j < text.len()
        invariant
            from <= j <= text.len(),
            tail == text@.skip(from as int),
            all_digits(tail.take(j - from)),
            acc == number(tail.take(j - from)),
        decreases text.len() - j,
    {
        let c = text[j];
        let ghost upto = tail.take(j - from + 1);
        proof {
            assert(upto.drop_last() =~= tail.take(j - from));
        }
        if !('0' <= c && c <= '9') {
            proof {
                assert(tail[j - from] == c);
            }
            return None;
        }
        let d = digit_of(c);
        if acc > (usize::MAX - d) / 10 {
            proof {
                lemma_number_grows(tail, j - from + 1);
            }
            return None;
        }
        acc = acc * 10 + d;
        j += 1;
    }
    proof {
        assert(tail.take(j - from) =~= tail);
    }
    Some(acc)
}

/// A numeral denotes at least what any of its beginnings denotes.
pub proof fn lemma_number_grows(s: Seq<char>, k: int)
    requires
        0 <= k <= s.len(),
    ensures
        number(s.take(k)) <= number(s),
    decreases s.len() - k,
{
    if k < s.len() {
        lemma_number_grows(s, k + 1);
        let t = s.take(k + 1);
        assert(t.drop_last() =~= s.take(k));
    } else {
        assert(s.take(k) =~= s);
    }
}

} // verus!
