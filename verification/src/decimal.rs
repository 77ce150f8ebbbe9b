//! Decimal notation for identifiers: how one is written in a listing and how
//! one is read from a command-line argument.

use vstd::prelude::*;
use vstd::std_specs::iter::IteratorSpec;

verus! {

/// Whether `c` is one of the ten ASCII digits.
pub open spec fn is_digit(c: char) -> bool {
    '0' <= c <= '9'
}

/// The number that an ASCII digit stands for.
pub open spec fn digit_value(c: char) -> nat
    recommends
        is_digit(c),
{
    (c as u32 - '0' as u32) as nat
}

/// The character that stands for the digit `d`.
pub open spec fn digit_char(d: nat) -> char
    recommends
        d < 10,
{
    if d == 0 {
        '0'
    } else if d == 1 {
        '1'
    } else if d == 2 {
        '2'
    } else if d == 3 {
        '3'
    } else if d == 4 {
        '4'
    } else if d == 5 {
        '5'
    } else if d == 6 {
        '6'
    } else if d == 7 {
        '7'
    } else if d == 8 {
        '8'
    } else {
        '9'
    }
}

/// The decimal notation of `n`: most significant digit first, no sign, no
/// leading zero (but for zero itself, which is written `0`).
pub open spec fn decimal(n: nat) -> Seq<char>
    decreases n,
{
    if n < 10 {
        seq![digit_char(n)]
    } else {
        decimal(n / 10).push(digit_char(n % 10))
    }
}

/// Whether every character of `s` is an ASCII digit.
pub open spec fn all_digits(s: Seq<char>) -> bool {
    forall|i: int| 0 <= i < s.len() ==> is_digit(#[trigger] s[i])
}

/// The number that a string of digits denotes, read from the left; the empty
/// string denotes zero.
pub open spec fn digits_value(s: Seq<char>) -> nat
    decreases s.len(),
{
    if s.len() == 0 {
        0
    } else {
        digits_value(s.drop_last()) * 10 + digit_value(s.last())
    }
}

/// What is left of `s` once a single leading `+` has been taken away.
pub open spec fn unsigned_part(s: Seq<char>) -> Seq<char> {
    if s.len() > 0 && s[0] == '+' {
        s.skip(1)
    } else {
        s
    }
}

/// The number that `s` denotes: an optional `+` followed by one or more ASCII
/// digits and nothing else. Any other text denotes no number.
pub open spec fn parse_decimal(s: Seq<char>) -> Option<nat> {
    let body = unsigned_part(s);
    if body.len() > 0 && all_digits(body) {
        Some(digits_value(body))
    } else {
        None
    }
}

/// The identifier that `s` denotes: the number it denotes, where that number
/// fits the machine word.
pub open spec fn parse_id_spec(s: Seq<char>) -> Option<usize> {
    match parse_decimal(s) {
        Some(n) => if n <= usize::MAX {
            Some(n as usize)
        } else {
            None
        },
        None => None,
    }
}

/// Appending a character to a digit string shifts its value by one decimal
/// place and adds the new digit.
pub proof fn lemma_digits_value_push(s: Seq<char>, c: char)
    ensures
        digits_value(s.push(c)) == digits_value(s) * 10 + digit_value(c),
{
    assert(s.push(c).drop_last() =~= s);
}

/// A digit string denotes at least as much as any of its prefixes.
pub proof fn lemma_digits_value_prefix(s: Seq<char>, k: int)
    requires
        0 <= k <= s.len(),
    ensures
        digits_value(s.take(k)) <= digits_value(s),
    decreases s.len() - k,
{
    if k == s.len() {
        assert(s.take(k) =~= s);
    } else {
        lemma_digits_value_prefix(s, k + 1);
        assert(s.take(k + 1) =~= s.take(k).push(s[k]));
        lemma_digits_value_push(s.take(k), s[k]);
    }
}

/// The decimal notation of a number is a non-empty string of digits that
/// denotes that number.
pub proof fn lemma_decimal_digits(n: nat)
    ensures
        decimal(n).len() > 0,
        all_digits(decimal(n)),
        digits_value(decimal(n)) == n,
    decreases n,
{
    if n < 10 {
        lemma_digits_value_push(Seq::<char>::empty(), digit_char(n));
        assert(decimal(n) =~= Seq::<char>::empty().push(digit_char(n)));
    } else {
        lemma_decimal_digits(n / 10);
        lemma_digits_value_push(decimal(n / 10), digit_char(n % 10));
    }
}

/// Reading what was written gives the number back: an identifier shown in a
/// listing can be typed in as it stands.
pub proof fn lemma_parse_of_decimal(n: nat)
    ensures
        parse_decimal(decimal(n)) == Some(n),
        n <= usize::MAX ==> parse_id_spec(decimal(n)) == Some(n as usize),
{
    lemma_decimal_digits(n);
    assert(is_digit(decimal(n)[0]));
}

/// The one-character text of the digit `d`.
fn digit_text(d: usize) -> (text: &'static str)
    requires
        d < 10,
    ensures
        text@ == seq![digit_char(d as nat)],
{
    proof {
        reveal_strlit("0");
        reveal_strlit("1");
        reveal_strlit("2");
        reveal_strlit("3");
        reveal_strlit("4");
        reveal_strlit("5");
        reveal_strlit("6");
        reveal_strlit("7");
        reveal_strlit("8");
        reveal_strlit("9");
    }
    let text = if d == 0 {
        "0"
    } else if d == 1 {
        "1"
    } else if d == 2 {
        "2"
    } else if d == 3 {
        "3"
    } else if d == 4 {
        "4"
    } else if d == 5 {
        "5"
    } else if d == 6 {
        "6"
    } else if d == 7 {
        "7"
    } else if d == 8 {
        "8"
    } else {
        "9"
    };
    assert(text@ =~= seq![digit_char(d as nat)]);
    text
}

/// Writes `n` in decimal notation.
pub fn to_decimal(n: usize) -> (text: String)
    ensures
        text@ == decimal(n as nat),
    decreases n,
{
    if n < 10 {
        digit_text(n).to_owned()
    } else {
        let mut text = to_decimal(n / 10);
        text.append(digit_text(n % 10));
        text
    }
}

/// Reads an identifier from `text`: an optional `+`, then one or more ASCII
/// digits, whose value fits the machine word. Anything else, the empty text
/// and a lone sign included, is no identifier.
pub fn parse_id(text: &str) -> (id: Option<usize>)
    ensures
        id == parse_id_spec(text@),
{
    let ghost body = unsigned_part(text@);
    let ghost mut taken: int = 0;
    let mut value: usize = 0;
    let mut any: bool = false;
    let mut it = text.chars();
    match it.next() {
        None => {
            return None;
        },
        Some(c) => {
            if c == '+' {
                assert(it.remaining() =~= body.skip(0));
            } else if c >= '0' && c <= '9' {
                value = (c as u32 - '0' as u32) as usize;
                any = true;
                proof {
                    taken = 1;
                    assert(body.take(1) =~= Seq::<char>::empty().push(c));
                    lemma_digits_value_push(Seq::<char>::empty(), c);
                }
            } else {
                assert(!is_digit(body[0]));
                return None;
            }
        },
    }
    loop
        invariant
            it.obeys_prophetic_iter_laws(),
            it.decrease() is Some,
            body == unsigned_part(text@),
            0 <= taken <= body.len(),
            it.remaining() == body.skip(taken),
            all_digits(body.take(taken)),
            value == digits_value(body.take(taken)),
            any == (taken > 0),
        decreases it.decrease()->0,
    {
        match it.next() {
            None => {
                assert(body.take(taken) =~= body);
                return if any {
                    Some(value)
                } else {
                    None
                };
            },
            Some(c) => {
                assert(c == body[taken]);
                if c >= '0' && c <= '9' {
                    let digit: usize = (c as u32 - '0' as u32) as usize;
                    let shifted: Option<usize> = value.checked_mul(10);
                    let next: Option<usize> = match shifted {
                        Some(v) => v.checked_add(digit),
                        None => None,
                    };
                    proof {
                        assert(body.take(taken + 1) =~= body.take(taken).push(c));
                        lemma_digits_value_push(body.take(taken), c);
                        lemma_digits_value_prefix(body, taken + 1);
                    }
                    match next {
                        Some(v) => {
                            value = v;
                            any = true;
                            proof {
                                taken = taken + 1;
                            }
                        },
                        None => {
                            return None;
                        },
                    }
                } else {
                    assert(!is_digit(body[taken]));
                    return None;
                }
            },
        }
    }
}

} // verus!
