use vstd::prelude::*;
use vstd::string::*;

verus! {

pub open spec fn is_decimal_digit(c: char) -> bool {
    '0' <= c && c <= '9'
}

pub open spec fn digit_value(c: char) -> int {
    c as int - '0' as int
}

pub open spec fn all_decimal_digits(s: Seq<char>) -> bool {
    forall|i: int| 0 <= i < s.len() ==> is_decimal_digit(#[trigger] s[i])
}

/// The integer a sequence of decimal digits denotes, most significant first.
pub open spec fn decimal_value(s: Seq<char>) -> int
    decreases s.len(),
{
    if s.len() == 0 {
        0
    } else {
        decimal_value(s.drop_last()) * 10 + digit_value(s.last())
    }
}

/// The `u16` a string denotes: an optional leading '+', then at least one
/// decimal digit, the whole no greater than `u16::MAX` — the grammar
/// `str::parse::<u16>` accepts.
pub open spec fn u16_numeral(s: Seq<char>) -> Option<u16> {
    let digits: Seq<char> = if s.len() > 0 && s[0] == '+' {
        s.subrange(1, s.len() as int)
    } else {
        s
    };
    if digits.len() > 0 && all_decimal_digits(digits) && decimal_value(digits) <= u16::MAX {
        Some(decimal_value(digits) as u16)
    } else {
        None
    }
}

pub proof fn lemma_decimal_value_nonneg(s: Seq<char>)
    requires
        all_decimal_digits(s),
    ensures
        decimal_value(s) >= 0,
    decreases s.len(),
{
    if s.len() > 0 {
        assert(all_decimal_digits(s.drop_last()));
        lemma_decimal_value_nonneg(s.drop_last());
    }
}

/// Reading one more digit multiplies the prefix's value by ten and adds it.
pub proof fn lemma_decimal_value_step(s: Seq<char>, k: int)
    requires
        0 <= k < s.len(),
    ensures
        decimal_value(s.subrange(0, k + 1)) == decimal_value(s.subrange(0, k)) * 10 + digit_value(
            s[k],
        ),
{
    assert(s.subrange(0, k + 1).drop_last() =~= s.subrange(0, k));
    assert(s.subrange(0, k + 1).last() == s[k]);
}

/// A digit sequence's value never falls below the value of any prefix.
pub proof fn lemma_decimal_value_monotone(s: Seq<char>, k: int)
    requires
        0 <= k <= s.len(),
        all_decimal_digits(s),
    ensures
        decimal_value(s.subrange(0, k)) <= decimal_value(s),
    decreases s.len() - k,
{
    if k == s.len() {
        assert(s.subrange(0, k) =~= s);
    } else {
        lemma_decimal_value_step(s, k);
        assert(all_decimal_digits(s.subrange(0, k)));
        lemma_decimal_value_nonneg(s.subrange(0, k));
        lemma_decimal_value_monotone(s, k + 1);
    }
}

/// Parses a decimal `u16`, accepting exactly the strings whose model
/// `u16_numeral` accepts and returning exactly the value it denotes.
pub fn parse_u16(s: &str) -> (r: Option<u16>)
    ensures
        r == u16_numeral(s@),
{
    let len = s.unicode_len();
    if len == 0 {
        return None;
    }
    let first = s.get_char(0);
    let start: usize = if first == '+' {
        1
    } else {
        0
    };
    let ghost digits: Seq<char> = if s@[0] == '+' {
        s@.subrange(1, s@.len() as int)
    } else {
        s@
    };
    proof {
        assert(s@.subrange(0, s@.len() as int) =~= s@);
        assert(digits =~= s@.subrange(start as int, len as int));
    }
    if start == len {
        return None;
    }
    let mut value: u32 = 0;
    let mut i: usize = start;
    while i < len
        invariant
            start <= i <= len,
            len == s@.len(),
            0 < len,
            start == (if s@[0] == '+' {
                1int
            } else {
                0int
            }),
            digits == (if s@[0] == '+' {
                s@.subrange(1, s@.len() as int)
            } else {
                s@
            }),
            digits == s@.subrange(start as int, len as int),
            digits.len() == len - start,
            forall|j: int| 0 <= j < len - start ==> digits[j] == s@[j + start],
            all_decimal_digits(digits.subrange(0, i - start)),
            value == decimal_value(digits.subrange(0, i - start)),
            value <= 0xFFFF,
        decreases len - i,
    {
        let c = s.get_char(i);
        let cu = c as u32;
        let ghost k = i - start;
        if !(('0' as u32) <= cu && cu <= ('9' as u32)) {
            proof {
                assert(digits[k as int] == c);
                assert(!is_decimal_digit(digits[k as int]));
            }
            return None;
        }
        let d: u32 = cu - ('0' as u32);
        let next: u32 = value * 10 + d;
        proof {
            lemma_decimal_value_step(digits, k as int);
            assert(digits.subrange(0, k + 1).drop_last() =~= digits.subrange(0, k as int));
        }
        if next > 0xFFFF {
            proof {
                if all_decimal_digits(digits) {
                    lemma_decimal_value_monotone(digits, k + 1);
                }
            }
            return None;
        }
        value = next;
        i = i + 1;
    }
    proof {
        assert(digits.subrange(0, len - start) =~= digits);
    }
    Some(value as u16)
}

pub open spec fn digit_char(d: int) -> char {
    (d + '0' as int) as char
}

/// The canonical decimal representation of a non-negative integer, most
/// significant digit first, without sign or leading zeroes.
pub open spec fn decimal_digits(n: int) -> Seq<char>
    decreases n,
{
    if n < 10 {
        seq![digit_char(n)]
    } else {
        decimal_digits(n / 10) + seq![digit_char(n % 10)]
    }
}

/// The canonical representation of a non-negative integer is made of digits
/// only, is never empty, and denotes the integer itself.
pub proof fn lemma_decimal_digits_denote(n: int)
    requires
        0 <= n,
    ensures
        all_decimal_digits(decimal_digits(n)),
        decimal_digits(n).len() >= 1,
        decimal_value(decimal_digits(n)) == n,
        is_decimal_digit(decimal_digits(n)[0]),
    decreases n,
{
    if n < 10 {
        let s = decimal_digits(n);
        assert(s.drop_last() =~= Seq::<char>::empty());
        assert(s.last() == digit_char(n));
        assert(digit_char(n) as int == n + '0' as int);
        assert(decimal_value(Seq::<char>::empty()) == 0);
    } else {
        lemma_decimal_digits_denote(n / 10);
        let s = decimal_digits(n);
        assert(s.drop_last() =~= decimal_digits(n / 10));
        assert(s.last() == digit_char(n % 10));
        assert(digit_char(n % 10) as int == n % 10 + '0' as int);
    }
}

/// Law: printing a `u16` and parsing the result gives the value back.
pub proof fn lemma_decimal_round_trip(n: u16)
    ensures
        u16_numeral(decimal_digits(n as int)) == Some(n),
{
    lemma_decimal_digits_denote(n as int);
    let s = decimal_digits(n as int);
    assert(s[0] != '+');
    assert(decimal_value(s) <= u16::MAX);
}

/// Prints a `u16` in decimal, exactly as its model `decimal_digits` says.
pub fn u16_to_decimal(n: u16) -> (r: String)
    ensures
        r@ == decimal_digits(n as int),
    decreases n,
{
    let d: u16 = n % 10;
    let digit: &str = match d {
        0 => "0",
        1 => "1",
        2 => "2",
        3 => "3",
        4 => "4",
        5 => "5",
        6 => "6",
        7 => "7",
        8 => "8",
        _ => "9",
    };
    proof {
        reveal_strlit("0");
        reveal_strlit("1");
        reveal_strlit("2");
        reveal_strlit("3");
        reveal_strlit("4");
        reveal_strlit("5");
        reveal_strlit("6");
        reveal_strlit("7");
        reveal_strlit("8");
        reveal_strlit("9");
        assert(digit@ =~= seq![digit_char(d as int)]);
    }
    if n < 10 {
        digit.to_owned()
    } else {
        let mut r = u16_to_decimal(n / 10);
        r.append(digit);
        r
    }
}

} // verus!
