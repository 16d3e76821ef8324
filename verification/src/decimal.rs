//! Numbers written in decimal digits.

use vstd::prelude::*;

verus! {

/// The character of a decimal digit.
pub open spec fn digit_char(d: nat) -> char
    recommends
        d < 10,
{
    (('0' as u8) + (d as u8)) as char
}

/// A number written in decimal digits, without sign and without leading zeros.
pub open spec fn decimal_text(n: nat) -> Seq<char>
    decreases n,
{
    if n < 10 {
        seq![digit_char(n)]
    } else {
        decimal_text(n / 10).push(digit_char(n % 10))
    }
}

/// The text of one decimal digit.
fn digit_str(d: u64) -> (r: &'static str)
    requires
        d < 10,
    ensures
        r@ == seq![digit_char(d as nat)],
{
    proof {
        reveal_strlit("0");
        reveal_strlit("1");
        reveal_strlit("2");
        reveal_strlit("3");
        reveal_strlit("4");
        reveal_strlit("5");
        reveal_strlit("6");
        reveal_strlit("7");
        reveal_strlit("8");
        reveal_strlit("9");
    }
    let r = if d == 0 {
        "0"
    } else if d == 1 {
        "1"
    } else if d == 2 {
        "2"
    } else if d == 3 {
        "3"
    } else if d == 4 {
        "4"
    } else if d == 5 {
        "5"
    } else if d == 6 {
        "6"
    } else if d == 7 {
        "7"
    } else if d == 8 {
        "8"
    } else {
        "9"
    };
    r
}

/// Writes a number in decimal digits.
pub fn decimal(n: u64) -> (r: String)
    ensures
        r@ == decimal_text(n as nat),
    decreases n,
{
    let d = digit_str(n % 10);
    if n < 10 {
        String::from_str(d)
    } else {
        let r = decimal(n / 10).concat(d);
        r
    }
}

/// Whether the character is a decimal digit.
pub open spec fn is_digit(c: char) -> bool {
    '0' <= c && c <= '9'
}

/// The number that a decimal digit stands for.
pub open spec fn digit_value(c: char) -> int {
    (c as int) - ('0' as int)
}

/// Whether the text is made of decimal digits only.
pub open spec fn all_digits(s: Seq<char>) -> bool {
    forall|i: int| 0 <= i < s.len() ==> is_digit(#[trigger] s[i])
}

/// The number that a text of decimal digits stands for; leading zeros count
/// for nothing.
pub open spec fn digits_value(s: Seq<char>) -> int
    decreases s.len(),
{
    if s.len() == 0 {
        0
    } else {
        digits_value(s.drop_last()) * 10 + digit_value(s.last())
    }
}

/// The text behind a sign: behind a leading `+`, and behind a leading `-`
/// where the number may be negative.
pub open spec fn unsigned_part(s: Seq<char>, may_be_negative: bool) -> Seq<char> {
    if s.len() > 0 && (s[0] == '+' || (may_be_negative && s[0] == '-')) {
        s.subrange(1, s.len() as int)
    } else {
        s
    }
}

/// The number that a text stands for: an optional sign followed by at least
/// one decimal digit and nothing else. Any other text stands for none.
pub open spec fn decimal_value(s: Seq<char>, may_be_negative: bool) -> Option<int> {
    let body = unsigned_part(s, may_be_negative);
    if body.len() == 0 || !all_digits(body) {
        None
    } else if may_be_negative && s[0] == '-' {
        Some(-digits_value(body))
    } else {
        Some(digits_value(body))
    }
}

/// The signed 64-bit number that a text stands for, if it stands for one
/// that fits.
pub open spec fn parsed_i64(s: Seq<char>) -> Option<i64> {
    match decimal_value(s, true) {
        Some(v) => if i64::MIN <= v && v <= i64::MAX {
            Some(v as i64)
        } else {
            None
        },
        None => None,
    }
}

/// The unsigned 16-bit number that a text stands for, if it stands for one
/// that fits.
pub open spec fn parsed_u16(s: Seq<char>) -> Option<u16> {
    match decimal_value(s, false) {
        Some(v) => if v <= u16::MAX {
            Some(v as u16)
        } else {
            None
        },
        None => None,
    }
}

/// The size that a text stands for, if it stands for one that fits.
pub open spec fn parsed_usize(s: Seq<char>) -> Option<usize> {
    match decimal_value(s, false) {
        Some(v) => if v <= usize::MAX {
            Some(v as usize)
        } else {
            None
        },
        None => None,
    }
}

/// The digits of a text stand for no less than the first of them do.
pub proof fn lemma_digits_value_grows(s: Seq<char>, n: int)
    requires
        all_digits(s),
        0 <= n <= s.len(),
    ensures
        0 <= digits_value(s.subrange(0, n)) <= digits_value(s),
    decreases s.len() - n,
{
    if n == s.len() {
        assert(s.subrange(0, n) =~= s);
        lemma_digits_value_positive(s);
    } else {
        lemma_digits_value_grows(s, n + 1);
        let longer = s.subrange(0, n + 1);
        assert(longer.drop_last() =~= s.subrange(0, n));
    }
}

/// A text of digits stands for a number that is not negative.
pub proof fn lemma_digits_value_positive(s: Seq<char>)
    requires
        all_digits(s),
    ensures
        0 <= digits_value(s),
    decreases s.len(),
{
    if s.len() > 0 {
        lemma_digits_value_positive(s.drop_last());
    }
}

/// A number written in decimal digits reads back as itself: the text is
/// made of digits only, has no sign, and stands for the number.
pub proof fn lemma_decimal_reads_back(n: nat)
    ensures
        decimal_text(n).len() > 0,
        all_digits(decimal_text(n)),
        digits_value(decimal_text(n)) == n,
        decimal_value(decimal_text(n), true) == Some(n as int),
        decimal_value(decimal_text(n), false) == Some(n as int),
    decreases n,
{
    let text = decimal_text(n);
    if n < 10 {
        assert(digits_value(text.drop_last()) == 0);
    } else {
        lemma_decimal_reads_back(n / 10);
        let front = decimal_text(n / 10);
        assert(text.drop_last() =~= front);
    }
}

/// Reads the digits of `s` from position `from` on. Gives the number they
/// stand for, or nothing where there is no digit, where something else than
/// a digit occurs, or where the number is above `limit`.
fn read_digits(s: &str, from: usize, limit: u128) -> (r: Option<u128>)
    requires
        from <= s@.len(),
        limit <= u64::MAX,
    ensures
        ({
            let body = s@.subrange(from as int, s@.len() as int);
            match r {
                Some(v) => body.len() > 0 && all_digits(body) && v == digits_value(body) && v
                    <= limit,
                None => body.len() == 0 || !all_digits(body) || digits_value(body) > limit,
            }
        }),
{
    let n: usize = s.unicode_len();
    let ghost body = s@.subrange(from as int, s@.len() as int);
    if from == n {
        return None;
    }
    let mut acc: u128 = 0;
    let mut i: usize = from;
    while i < n
        invariant
            from <= i <= n,
            n == s@.len(),
            body == s@.subrange(from as int, s@.len() as int),
            all_digits(body.subrange(0, i - from)),
            acc == digits_value(body.subrange(0, i - from)),
            acc <= limit,
            limit <= u64::MAX,
        decreases n - i,
    {
        let c = s.get_char(i);
        if !('0' <= c && c <= '9') {
            assert(!is_digit(body[i - from]));
            return None;
        }
        let d: u128 = ((c as u8) - ('0' as u8)) as u128;
        let ghost longer = body.subrange(0, i - from + 1);
        proof {
            assert(longer.drop_last() =~= body.subrange(0, i - from));
            assert(all_digits(longer));
        }
        acc = acc * 10 + d;
        if acc > limit {
            proof {
                if all_digits(body) {
                    lemma_digits_value_grows(body, i - from + 1);
                }
            }
            return None;
        }
        i += 1;
    }
    proof {
        assert(body.subrange(0, i - from) =~= body);
    }
    Some(acc)
}

/// Reads a signed 64-bit number written in decimal digits.
pub fn parse_i64(s: &str) -> (r: Option<i64>)
    ensures
        r == parsed_i64(s@),
{
    let n: usize = s.unicode_len();
    if n == 0 {
        return None;
    }
    let first = s.get_char(0);
    if first == '-' {
        match read_digits(s, 1, 0x8000_0000_0000_0000u128) {
            Some(v) => Some((-(v as i128)) as i64),
            None => None,
        }
    } else if first == '+' {
        match read_digits(s, 1, 0x7fff_ffff_ffff_ffffu128) {
            Some(v) => Some(v as i64),
            None => None,
        }
    } else {
        proof {
            assert(s@.subrange(0, s@.len() as int) =~= s@);
        }
        match read_digits(s, 0, 0x7fff_ffff_ffff_ffffu128) {
            Some(v) => Some(v as i64),
            None => None,
        }
    }
}

/// Reads an unsigned 16-bit number written in decimal digits.
pub fn parse_u16(s: &str) -> (r: Option<u16>)
    ensures
        r == parsed_u16(s@),
{
    let n: usize = s.unicode_len();
    if n == 0 {
        return None;
    }
    let from: usize = if s.get_char(0) == '+' {
        1
    } else {
        0
    };
    proof {
        assert(s@.subrange(0, s@.len() as int) =~= s@);
    }
    match read_digits(s, from, 0xffffu128) {
        Some(v) => Some(v as u16),
        None => None,
    }
}

/// Reads a size written in decimal digits.
pub fn parse_usize(s: &str) -> (r: Option<usize>)
    ensures
        r == parsed_usize(s@),
{
    let n: usize = s.unicode_len();
    if n == 0 {
        return None;
    }
    let from: usize = if s.get_char(0) == '+' {
        1
    } else {
        0
    };
    proof {
        assert(s@.subrange(0, s@.len() as int) =~= s@);
    }
    match read_digits(s, from, usize::MAX as u128) {
        Some(v) => Some(v as usize),
        None => None,
    }
}

} // verus!
