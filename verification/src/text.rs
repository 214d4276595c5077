//! Decimal numbers, and fields that commas part.

use vstd::prelude::*;
#[allow(unused_imports)]
use vstd::string::*;
#[allow(unused_imports)]
use crate::search;

verus! {

/// The character of the decimal digit `d`.
pub open spec fn digit(d: nat) -> char
    recommends
        d < 10,
{
    if d == 0 {
        '0'
    } else if d == 1 {
        '1'
    } else if d == 2 {
        '2'
    } else if d == 3 {
        '3'
    } else if d == 4 {
        '4'
    } else if d == 5 {
        '5'
    } else if d == 6 {
        '6'
    } else if d == 7 {
        '7'
    } else if d == 8 {
        '8'
    } else {
        '9'
    }
}

/// The decimal digits of `n`, without leading zeros.
pub open spec fn digits(n: nat) -> Seq<char>
    decreases n,
{
    if n < 10 {
        seq![digit(n)]
    } else {
        digits(n / 10).push(digit(n % 10))
    }
}

/// The number `n` in decimal notation.
pub open spec fn decimal(n: int) -> Seq<char> {
    if n < 0 {
        seq!['-'] + digits((-n) as nat)
    } else {
        digits(n as nat)
    }
}

/// Appends one decimal digit to `out`.
fn push_digit(out: &mut String, d: u64)
    requires
        d < 10,
    ensures
        final(out)@ == old(out)@.push(digit(d as nat)),
{
    let text: &str = match d {
        0 => "0",
        1 => "1",
        2 => "2",
        3 => "3",
        4 => "4",
        5 => "5",
        6 => "6",
        7 => "7",
        8 => "8",
        _ => "9",
    };
    proof {
        reveal_strlit("0");
        reveal_strlit("1");
        reveal_strlit("2");
        reveal_strlit("3");
        reveal_strlit("4");
        reveal_strlit("5");
        reveal_strlit("6");
        reveal_strlit("7");
        reveal_strlit("8");
        reveal_strlit("9");
        assert(text@ =~= seq![digit(d as nat)]);
        assert(old(out)@ + seq![digit(d as nat)] =~= old(out)@.push(digit(d as nat)));
    }
    out.append(text);
}

/// Appends the decimal digits of `n` to `out`.
fn push_digits(out: &mut String, n: u64)
    ensures
        final(out)@ == old(out)@ + digits(n as nat),
    decreases n,
{
    if n >= 10 {
        push_digits(out, n / 10);
    }
    push_digit(out, n % 10);
    proof {
        assert(out@ =~= old(out)@ + digits(n as nat));
    }
}

/// Writes `n` in decimal notation.
pub fn to_decimal(n: i64) -> (text: String)
    ensures
        text@ == decimal(n as int),
{
    let mut text = String::new();
    if n < 0 {
        let magnitude: u64 = (-(n + 1)) as u64 + 1;
        text.append("-");
        proof {
            reveal_strlit("-");
            assert(text@ =~= seq!['-']);
        }
        push_digits(&mut text, magnitude);
    } else {
        push_digits(&mut text, n as u64);
        assert(text@ =~= digits(n as nat));
    }
    text
}

/// The number that a sequence of decimal digits stands for.
pub open spec fn digits_value(s: Seq<char>) -> nat
    decreases s.len(),
{
    if s.len() == 0 {
        0
    } else {
        10 * digits_value(s.drop_last()) + ((s.last() as int) - ('0' as int)) as nat
    }
}

/// Reading the digits of a number gives the number back.
pub proof fn lemma_digits_value(n: nat)
    ensures
        digits_value(digits(n)) == n,
        digits(n).len() > 0,
        digits(n)[0] != '-',
    decreases n,
{
    reveal_with_fuel(digits_value, 2);
    if n < 10 {
        assert(digits(n).drop_last() =~= Seq::<char>::empty());
    } else {
        lemma_digits_value(n / 10);
        assert(digits(n).drop_last() =~= digits(n / 10));
    }
}

/// Different numbers have different decimal notations.
pub proof fn lemma_decimal_injective(a: int, b: int)
    requires
        decimal(a) == decimal(b),
    ensures
        a == b,
{
    let x: nat = if a < 0 { (-a) as nat } else { a as nat };
    let y: nat = if b < 0 { (-b) as nat } else { b as nat };
    lemma_digits_value(x);
    lemma_digits_value(y);
    if a < 0 {
        assert(decimal(a)[0] == '-');
        assert(decimal(a).drop_first() =~= digits(x));
    }
    if b < 0 {
        assert(decimal(b)[0] == '-');
        assert(decimal(b).drop_first() =~= digits(y));
    }
}

/// A comma.
pub open spec fn comma() -> spec_fn(char) -> bool {
    |c: char| c == ','
}

/// The second of the fields into which commas part `s`, or `None` where `s` has no comma.
pub open spec fn second_field(s: Seq<char>) -> Option<Seq<char>> {
    match search::first_index(s, comma()) {
        None => None,
        Some(i) => {
            let rest = s.skip(i + 1);
            match search::first_index(rest, comma()) {
                None => Some(rest),
                Some(j) => Some(rest.take(j)),
            }
        },
    }
}

/// The index of the first comma of `s` at or after `from`, or the length of `s`.
fn next_comma(s: &str, from: usize, len: usize) -> (at: usize)
    requires
        from <= len,
        len == s@.len(),
    ensures
        from <= at <= len,
        forall|j: int| from <= j < at ==> s@[j] != ',',
        at < len ==> s@[at as int] == ',',
{
    let mut at: usize = from;
    while at < len && s.get_char(at) != ','
        invariant
            from <= at <= len,
            len == s@.len(),
            forall|j: int| from <= j < at ==> s@[j] != ',',
        decreases len - at,
    {
        at += 1;
    }
    at
}

/// Cuts the second comma-separated field out of `s`.
pub fn cut_second_field(s: &str) -> (field: Option<String>)
    ensures
        match field {
            Some(text) => second_field(s@) == Some(text@),
            None => second_field(s@) is None,
        },
{
    let len: usize = s.unicode_len();
    let start: usize = next_comma(s, 0, len);
    if start == len {
        assert(search::first_index(s@, comma()) is None);
        return None;
    }
    let end: usize = next_comma(s, start + 1, len);
    proof {
        let rest = s@.skip(start + 1);
        assert(search::is_first(s@, comma(), start as int));
        search::lemma_first_found(s@, comma(), start as int);
        if end < len {
            assert(search::is_first(rest, comma(), end - start - 1));
            search::lemma_first_found(rest, comma(), end - start - 1);
            assert(s@.subrange(start + 1, end as int) =~= rest.take(end - start - 1));
        } else {
            assert(search::first_index(rest, comma()) is None);
            assert(s@.subrange(start + 1, end as int) =~= rest);
        }
    }
    Some(s.substring_char(start + 1, end).to_owned())
}

/// The characters of an optional string.
pub open spec fn chars<S: View<V = Seq<char>>>(text: Option<S>) -> Option<Seq<char>> {
    match text {
        Some(text) => Some(text@),
        None => None,
    }
}

/// Tells whether two strings hold the same characters.
pub fn same_text(a: &String, b: &String) -> (same: bool)
    ensures
        same == (a@ == b@),
{
    *a == *b
}

} // verus!
