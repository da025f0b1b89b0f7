//! Decimal text of integers, and the parsing of unsigned decimal request fields.

use vstd::prelude::*;

verus! {

/// The character of a decimal digit `d` (`0 <= d < 10`).
pub open spec fn digit_char(d: int) -> char {
    if d == 0 {
        '0'
    } else if d == 1 {
        '1'
    } else if d == 2 {
        '2'
    } else if d == 3 {
        '3'
    } else if d == 4 {
        '4'
    } else if d == 5 {
        '5'
    } else if d == 6 {
        '6'
    } else if d == 7 {
        '7'
    } else if d == 8 {
        '8'
    } else {
        '9'
    }
}

/// Whether `c` is one of the ASCII digits `0` to `9`.
pub open spec fn is_digit(c: char) -> bool {
    '0' <= c && c <= '9'
}

/// The value of a digit character.
pub open spec fn digit_value(c: char) -> int {
    (c as int) - ('0' as int)
}

/// The shortest decimal text of a natural number (no sign, no leading zeros).
pub open spec fn decimal(n: nat) -> Seq<char>
    decreases n,
{
    if n < 10 {
        seq![digit_char(n as int)]
    } else {
        decimal(n / 10).push(digit_char((n % 10) as int))
    }
}

/// The decimal text of an integer: a `-` before the digits of a negative one.
pub open spec fn signed_decimal(n: int) -> Seq<char> {
    if n < 0 {
        seq!['-'] + decimal((-n) as nat)
    } else {
        decimal(n as nat)
    }
}

/// The value of a text of decimal digits, most significant first.
pub open spec fn digits_value(s: Seq<char>) -> int
    decreases s.len(),
{
    if s.len() == 0 {
        0
    } else {
        digits_value(s.drop_last()) * 10 + digit_value(s.last())
    }
}

/// Whether every character of `s` is a decimal digit.
pub open spec fn all_digits(s: Seq<char>) -> bool {
    forall|i: int| 0 <= i < s.len() ==> is_digit(#[trigger] s[i])
}

/// The digits of an unsigned number's text: one leading `+` is allowed and dropped.
pub open spec fn unsigned_digits(s: Seq<char>) -> Seq<char> {
    if s.len() > 0 && s[0] == '+' {
        s.drop_first()
    } else {
        s
    }
}

/// What parsing `s` as a `u64` gives, as `str::parse::<u64>` does: an optional `+`,
/// then at least one decimal digit and nothing else, of a value that fits in 64 bits.
pub open spec fn parsed_unsigned(s: Seq<char>) -> Option<u64> {
    let d = unsigned_digits(s);
    if d.len() > 0 && all_digits(d) && digits_value(d) <= u64::MAX {
        Some(digits_value(d) as u64)
    } else {
        None
    }
}

proof fn lemma_digit_char(d: int)
    requires
        0 <= d < 10,
    ensures
        is_digit(digit_char(d)),
        digit_value(digit_char(d)) == d,
{
}

/// The decimal text of `n` is a nonempty text of digits whose value is `n`.
pub proof fn lemma_decimal(n: nat)
    ensures
        decimal(n).len() > 0,
        all_digits(decimal(n)),
        digits_value(decimal(n)) == n,
    decreases n,
{
    if n < 10 {
        lemma_digit_char(n as int);
        let t = decimal(n);
        assert(t.drop_last() =~= Seq::<char>::empty());
        assert(digits_value(t.drop_last()) == 0);
        assert(t.last() == digit_char(n as int));
        assert(digits_value(t) == digit_value(digit_char(n as int)));
    } else {
        lemma_decimal(n / 10);
        lemma_digit_char((n % 10) as int);
        let t = decimal(n);
        assert(t.drop_last() =~= decimal(n / 10));
        assert(t.last() == digit_char((n % 10) as int));
        assert(digits_value(t) == digits_value(decimal(n / 10)) * 10 + digit_value(t.last()));
        assert(n == (n / 10) * 10 + n % 10);
        assert forall|i: int| 0 <= i < t.len() implies is_digit(#[trigger] t[i]) by {
            if i < t.len() - 1 {
                assert(t[i] == decimal(n / 10)[i]);
            }
        }
    }
}

/// Parsing the decimal text of a number gives the number back, with or
/// without a leading `+`.
pub proof fn parse_inverts_text(n: u64)
    ensures
        parsed_unsigned(decimal(n as nat)) == Some(n),
        parsed_unsigned(seq!['+'] + decimal(n as nat)) == Some(n),
{
    lemma_decimal(n as nat);
    let t = decimal(n as nat);
    assert(is_digit(t[0]));
    assert(unsigned_digits(t) == t);
    let p = seq!['+'] + t;
    assert(p.drop_first() =~= t);
    assert(unsigned_digits(p) == t);
}

/// The value of a signed decimal text: a leading `-` negates the digits after it.
pub open spec fn signed_value(s: Seq<char>) -> int {
    if s.len() > 0 && s[0] == '-' {
        -digits_value(s.drop_first())
    } else {
        digits_value(s)
    }
}

/// The text of an integer is nonempty, starts with `-` exactly when the integer
/// is negative, is made of digits after that sign, and reads back as the integer.
pub proof fn signed_text_reads_back(n: int)
    ensures
        signed_decimal(n).len() > 0,
        (signed_decimal(n)[0] == '-') <==> n < 0,
        n < 0 ==> all_digits(signed_decimal(n).drop_first()),
        n >= 0 ==> all_digits(signed_decimal(n)),
        signed_value(signed_decimal(n)) == n,
{
    if n < 0 {
        lemma_decimal((-n) as nat);
        let t = signed_decimal(n);
        assert(t.drop_first() =~= decimal((-n) as nat));
        assert(t[0] == '-');
    } else {
        lemma_decimal(n as nat);
        let t = decimal(n as nat);
        assert(is_digit(t[0]));
    }
}

fn digit_str(d: u64) -> (res: &'static str)
    requires
        d < 10,
    ensures
        res@ == seq![digit_char(d as int)],
{
    proof {
        reveal_strlit("0");
        reveal_strlit("1");
        reveal_strlit("2");
        reveal_strlit("3");
        reveal_strlit("4");
        reveal_strlit("5");
        reveal_strlit("6");
        reveal_strlit("7");
        reveal_strlit("8");
        reveal_strlit("9");
    }
    if d == 0 {
        "0"
    } else if d == 1 {
        "1"
    } else if d == 2 {
        "2"
    } else if d == 3 {
        "3"
    } else if d == 4 {
        "4"
    } else if d == 5 {
        "5"
    } else if d == 6 {
        "6"
    } else if d == 7 {
        "7"
    } else if d == 8 {
        "8"
    } else {
        "9"
    }
}

/// The decimal text of `n`, as `format!("{}", n)` writes it.
pub fn unsigned_text(n: u64) -> (res: String)
    ensures
        res@ == decimal(n as nat),
    decreases n,
{
    if n < 10 {
        String::from_str(digit_str(n))
    } else {
        let mut head = unsigned_text(n / 10);
        head.append(digit_str(n % 10));
        head
    }
}

/// The decimal text of `n`, as `format!("{}", n)` writes it.
pub fn signed_text(n: i64) -> (res: String)
    ensures
        res@ == signed_decimal(n as int),
{
    if n < 0 {
        let magnitude: u64 = (0i128 - (n as i128)) as u64;
        let digits = unsigned_text(magnitude);
        proof {
            reveal_strlit("-");
        }
        let mut res = String::from_str("-");
        res.append(digits.as_str());
        res
    } else {
        unsigned_text(n as u64)
    }
}

/// Parses a request field the way `str::parse::<u64>` does; `None` where it fails.
pub fn parse_unsigned(text: &str) -> (res: Option<u64>)
    ensures
        res == parsed_unsigned(text@),
{
    let len = text.unicode_len();
    let mut start: usize = 0;
    if len > 0 && text.get_char(0) == '+' {
        start = 1;
    }
    let ghost d = unsigned_digits(text@);
    assert(d =~= text@.subrange(start as int, len as int));
    if start == len {
        return None;
    }
    let mut acc: u64 = 0;
    let mut overflow = false;
    let mut i = start;
    assert(d.take(0) =~= Seq::<char>::empty());
    while i < len
        invariant
            start <= i <= len,
            len == text@.len(),
            d == text@.subrange(start as int, len as int),
            d == unsigned_digits(text@),
            all_digits(d.take(i - start)),
            !overflow ==> acc == digits_value(d.take(i - start)),
            overflow ==> digits_value(d.take(i - start)) > u64::MAX,
        decreases len - i,
    {
        let c = text.get_char(i);
        assert(d[i - start] == c);
        if c < '0' || c > '9' {
            assert(!is_digit(d[i - start]));
            assert(!all_digits(d));
            assert(unsigned_digits(text@) == d);
            return None;
        }
        let digit: u64 = ((c as u32) - ('0' as u32)) as u64;
        let ghost before = d.take(i - start);
        let ghost after = d.take(i - start + 1);
        assert(after.drop_last() =~= before);
        assert(after.last() == c);
        assert forall|k: int| 0 <= k < after.len() implies is_digit(#[trigger] after[k]) by {
            if k < before.len() {
                assert(after[k] == before[k]);
            }
        }
        if !overflow {
            match acc.checked_mul(10) {
                Some(m) => match m.checked_add(digit) {
                    Some(v) => {
                        acc = v;
                    },
                    None => {
                        overflow = true;
                    },
                },
                None => {
                    overflow = true;
                },
            }
        }
        i = i + 1;
    }
    assert(d.take(len - start) =~= d);
    if overflow {
        None
    } else {
        Some(acc)
    }
}

} // verus!
