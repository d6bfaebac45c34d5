//! Small verified text helpers used to build diagnostic messages.

use vstd::prelude::*;

verus! {

/// Whether `c` carries the Unicode `White_Space` property.
pub open spec fn is_white_space(c: char) -> bool {
    let n = c as u32;
    ||| 0x09 <= n <= 0x0D
    ||| n == 0x20
    ||| n == 0x85
    ||| n == 0xA0
    ||| n == 0x1680
    ||| 0x2000 <= n <= 0x200A
    ||| n == 0x2028
    ||| n == 0x2029
    ||| n == 0x202F
    ||| n == 0x205F
    ||| n == 0x3000
}

/// Whether every character of `s` is white space (the empty text is blank).
pub open spec fn is_blank_text(s: Seq<char>) -> bool {
    forall|i: int| 0 <= i < s.len() ==> is_white_space(#[trigger] s[i])
}

/// Number of white-space characters at the start of `s`.
pub open spec fn blank_prefix_len(s: Seq<char>) -> nat
    decreases s.len(),
{
    if s.len() == 0 || !is_white_space(s[0]) {
        0
    } else {
        1 + blank_prefix_len(s.drop_first())
    }
}

/// Number of white-space characters at the end of `s`.
pub open spec fn blank_suffix_len(s: Seq<char>) -> nat
    decreases s.len(),
{
    if s.len() == 0 || !is_white_space(s.last()) {
        0
    } else {
        1 + blank_suffix_len(s.drop_last())
    }
}

/// `s` without the white space at its two ends.
pub open spec fn trimmed_text(s: Seq<char>) -> Seq<char> {
    let rest = s.subrange(blank_prefix_len(s) as int, s.len() as int);
    rest.subrange(0, rest.len() - blank_suffix_len(rest))
}

/// The character that writes the digit `d`.
pub open spec fn digit_char(d: nat) -> char {
    if d == 0 {
        '0'
    } else if d == 1 {
        '1'
    } else if d == 2 {
        '2'
    } else if d == 3 {
        '3'
    } else if d == 4 {
        '4'
    } else if d == 5 {
        '5'
    } else if d == 6 {
        '6'
    } else if d == 7 {
        '7'
    } else if d == 8 {
        '8'
    } else {
        '9'
    }
}

/// The decimal numeral of `n`, without leading zeros.
pub open spec fn decimal_text(n: nat) -> Seq<char>
    decreases n,
{
    if n < 10 {
        seq![digit_char(n)]
    } else {
        decimal_text(n / 10).push(digit_char(n % 10))
    }
}

/// The decimal numeral of `n`, with a minus sign when `n` is negative.
pub open spec fn signed_decimal_text(n: int) -> Seq<char> {
    if n < 0 {
        seq!['-'] + decimal_text((-n) as nat)
    } else {
        decimal_text(n as nat)
    }
}

/// How an optional number is written: `Some(<number>)` or `None`.
pub open spec fn optional_number_text(n: Option<i32>) -> Seq<char> {
    match n {
        Some(v) => "Some("@ + signed_decimal_text(v as int) + ")"@,
        None => "None"@,
    }
}

/// Decides whether `c` is a white-space character.
pub fn char_is_white_space(c: char) -> (b: bool)
    ensures
        b == is_white_space(c),
{
    let n: u32 = c as u32;
    (0x09 <= n && n <= 0x0D) || n == 0x20 || n == 0x85 || n == 0xA0 || n == 0x1680 || (0x2000 <= n
        && n <= 0x200A) || n == 0x2028 || n == 0x2029 || n == 0x202F || n == 0x205F || n == 0x3000
}

/// Decides whether `s` holds nothing but white space.
pub fn is_blank(s: &str) -> (b: bool)
    ensures
        b == is_blank_text(s@),
{
    let n = s.unicode_len();
    let mut i: usize = 0;
    while i < n
        invariant
            n == s@.len(),
            i <= n,
            forall|j: int| 0 <= j < i ==> is_white_space(#[trigger] s@[j]),
        decreases n - i,
    {
        if !char_is_white_space(s.get_char(i)) {
            return false;
        }
        i += 1;
    }
    true
}

proof fn lemma_blank_prefix_step(s: Seq<char>, i: int)
    requires
        0 <= i < s.len(),
        is_white_space(s[i]),
    ensures
        blank_prefix_len(s.subrange(i, s.len() as int)) == 1 + blank_prefix_len(
            s.subrange(i + 1, s.len() as int),
        ),
{
    let tail = s.subrange(i, s.len() as int);
    assert(tail[0] == s[i]);
    assert(tail.drop_first() =~= s.subrange(i + 1, s.len() as int));
}

proof fn lemma_blank_suffix_step(s: Seq<char>, j: int)
    requires
        0 < j <= s.len(),
        is_white_space(s[j - 1]),
    ensures
        blank_suffix_len(s.subrange(0, j)) == 1 + blank_suffix_len(s.subrange(0, j - 1)),
{
    let head = s.subrange(0, j);
    assert(head.last() == s[j - 1]);
    assert(head.drop_last() =~= s.subrange(0, j - 1));
}

/// Copies `s` without the white space at its two ends.
pub fn trimmed(s: &str) -> (t: String)
    ensures
        t@ == trimmed_text(s@),
{
    let n = s.unicode_len();
    let mut start: usize = 0;
    assert(s@.subrange(0, n as int) =~= s@);
    while start < n && char_is_white_space(s.get_char(start))
        invariant
            n == s@.len(),
            start <= n,
            blank_prefix_len(s@) == start + blank_prefix_len(s@.subrange(start as int, n as int)),
        decreases n - start,
    {
        proof {
            lemma_blank_prefix_step(s@, start as int);
        }
        start += 1;
    }
    assert(blank_prefix_len(s@) == start) by {
        let tail = s@.subrange(start as int, n as int);
        if start < n {
            assert(tail[0] == s@[start as int]);
        }
    }
    let rest = s.substring_char(start, n);
    let m = n - start;
    let mut end: usize = m;
    assert(rest@.subrange(0, m as int) =~= rest@);
    while end > 0 && char_is_white_space(rest.get_char(end - 1))
        invariant
            m == rest@.len(),
            end <= m,
            blank_suffix_len(rest@) == (m - end) + blank_suffix_len(rest@.subrange(0, end as int)),
        decreases end,
    {
        proof {
            lemma_blank_suffix_step(rest@, end as int);
        }
        end -= 1;
    }
    assert(blank_suffix_len(rest@) == m - end) by {
        let head = rest@.subrange(0, end as int);
        if end > 0 {
            assert(head.last() == rest@[end - 1]);
        }
    }
    String::from_str(rest.substring_char(0, end))
}

/// The one-character text of a digit.
fn digit_str(d: u64) -> (s: &'static str)
    requires
        d < 10,
    ensures
        s@ == seq![digit_char(d as nat)],
{
    proof {
        reveal_strlit("0");
        reveal_strlit("1");
        reveal_strlit("2");
        reveal_strlit("3");
        reveal_strlit("4");
        reveal_strlit("5");
        reveal_strlit("6");
        reveal_strlit("7");
        reveal_strlit("8");
        reveal_strlit("9");
    }
    let s = if d == 0 {
        "0"
    } else if d == 1 {
        "1"
    } else if d == 2 {
        "2"
    } else if d == 3 {
        "3"
    } else if d == 4 {
        "4"
    } else if d == 5 {
        "5"
    } else if d == 6 {
        "6"
    } else if d == 7 {
        "7"
    } else if d == 8 {
        "8"
    } else {
        "9"
    };
    assert(s@ =~= seq![digit_char(d as nat)]);
    s
}

/// Writes `n` in decimal.
pub fn decimal(n: u64) -> (s: String)
    ensures
        s@ == decimal_text(n as nat),
    decreases n,
{
    if n < 10 {
        String::from_str(digit_str(n))
    } else {
        let mut s = decimal(n / 10);
        s.append(digit_str(n % 10));
        assert(s@ =~= decimal_text((n / 10) as nat).push(digit_char((n % 10) as nat)));
        s
    }
}

/// Writes a signed number in decimal.
pub fn signed_decimal(n: i32) -> (s: String)
    ensures
        s@ == signed_decimal_text(n as int),
{
    if n < 0 {
        let magnitude: u64 = (-(n as i64)) as u64;
        let mut s = String::from_str("-");
        proof {
            reveal_strlit("-");
        }
        let digits = decimal(magnitude);
        s.append(digits.as_str());
        assert(s@ =~= seq!['-'] + decimal_text((-n) as nat));
        s
    } else {
        decimal(n as u64)
    }
}

/// Writes an optional number as `Some(<number>)` or `None`.
pub fn optional_number(n: Option<i32>) -> (s: String)
    ensures
        s@ == optional_number_text(n),
{
    match n {
        Some(v) => {
            let mut s = String::from_str("Some(");
            let digits = signed_decimal(v);
            s.append(digits.as_str());
            s.append(")");
            s
        },
        None => String::from_str("None"),
    }
}

/// The text itself, or a dash when it is empty.
pub open spec fn or_dash_text(s: Seq<char>) -> Seq<char> {
    if s.len() == 0 {
        "-"@
    } else {
        s
    }
}

/// Returns the text, or a dash in place of an empty text.
pub fn or_dash(s: String) -> (t: String)
    ensures
        t@ == or_dash_text(s@),
{
    if s.as_str().unicode_len() == 0 {
        String::from_str("-")
    } else {
        s
    }
}

} // verus!
