//! Small text helpers: decimal rendering of integers and joining words.
use vstd::prelude::*;
use vstd::string::*;

verus! {

/// `String::push` appends one character at the end of the string.
pub assume_specification[ String::push ](s: &mut String, ch: char)
    ensures
        final(s)@ == old(s)@.push(ch),
;

/// The character of a decimal digit `d` (for `d < 10`).
pub open spec fn digit_char(d: nat) -> char {
    if d == 0 { '0' }
    else if d == 1 { '1' }
    else if d == 2 { '2' }
    else if d == 3 { '3' }
    else if d == 4 { '4' }
    else if d == 5 { '5' }
    else if d == 6 { '6' }
    else if d == 7 { '7' }
    else if d == 8 { '8' }
    else { '9' }
}

/// The value of a decimal digit character, `None` for any other character.
pub open spec fn digit_value(c: char) -> Option<nat> {
    if c == '0' { Some(0nat) }
    else if c == '1' { Some(1nat) }
    else if c == '2' { Some(2nat) }
    else if c == '3' { Some(3nat) }
    else if c == '4' { Some(4nat) }
    else if c == '5' { Some(5nat) }
    else if c == '6' { Some(6nat) }
    else if c == '7' { Some(7nat) }
    else if c == '8' { Some(8nat) }
    else if c == '9' { Some(9nat) }
    else { None }
}

/// The usual decimal rendering of a natural number, without leading zeros.
pub open spec fn decimal(n: nat) -> Seq<char>
    decreases n,
{
    if n < 10 {
        seq![digit_char(n)]
    } else {
        decimal(n / 10).push(digit_char(n % 10))
    }
}

/// The decimal rendering of an integer, with a leading `-` when negative.
pub open spec fn signed_decimal(i: int) -> Seq<char> {
    if i < 0 {
        seq!['-'] + decimal((-i) as nat)
    } else {
        decimal(i as nat)
    }
}

/// Reads a string of decimal digits back as a number (`None` if a
/// character is not a digit).
pub open spec fn read_decimal(s: Seq<char>) -> Option<nat>
    decreases s.len(),
{
    if s.len() == 0 {
        Some(0nat)
    } else {
        match (read_decimal(s.drop_last()), digit_value(s.last())) {
            (Some(high), Some(low)) => Some(high * 10 + low),
            _ => None,
        }
    }
}

/// Words joined by single spaces, as `[String]::join(" ")` does.
pub open spec fn join_words(words: Seq<Seq<char>>) -> Seq<char>
    decreases words.len(),
{
    if words.len() == 0 {
        Seq::empty()
    } else if words.len() == 1 {
        words[0]
    } else {
        join_words(words.drop_last()) + seq![' '] + words.last()
    }
}

proof fn lemma_digit_roundtrip(d: nat)
    requires
        d < 10,
    ensures
        digit_value(digit_char(d)) == Some(d),
{
}

/// Reading back the decimal rendering of `n` gives `n`: the rendering is
/// made of digits only, and two numbers never share a rendering.
pub proof fn lemma_decimal_roundtrip(n: nat)
    ensures
        read_decimal(decimal(n)) == Some(n),
        decimal(n).len() >= 1,
    decreases n,
{
    if n < 10 {
        lemma_digit_roundtrip(n);
        let s = decimal(n);
        assert(s.drop_last() =~= Seq::<char>::empty());
        assert(read_decimal(s.drop_last()) == Some(0nat));
        assert(s.last() == digit_char(n));
    } else {
        lemma_decimal_roundtrip(n / 10);
        lemma_digit_roundtrip(n % 10);
        let s = decimal(n);
        assert(s.drop_last() =~= decimal(n / 10));
        assert(s.last() == digit_char(n % 10));
        assert(n == (n / 10) * 10 + n % 10);
    }
}

/// Rendering two numbers gives the same text only when they are equal.
pub proof fn lemma_decimal_injective(a: nat, b: nat)
    requires
        decimal(a) == decimal(b),
    ensures
        a == b,
{
    lemma_decimal_roundtrip(a);
    lemma_decimal_roundtrip(b);
}

/// The character of the digit `d`.
pub fn digit_to_char(d: u64) -> (c: char)
    requires
        d < 10,
    ensures
        c == digit_char(d as nat),
{
    match d {
        0 => '0',
        1 => '1',
        2 => '2',
        3 => '3',
        4 => '4',
        5 => '5',
        6 => '6',
        7 => '7',
        8 => '8',
        _ => '9',
    }
}

/// Appends the decimal rendering of `n` to `s`.
pub fn push_decimal(s: &mut String, n: u64)
    ensures
        final(s)@ == old(s)@ + decimal(n as nat),
    decreases n,
{
    if n >= 10 {
        push_decimal(s, n / 10);
    }
    let c = digit_to_char(n % 10);
    s.push(c);
    proof {
        if n < 10 {
            assert(decimal(n as nat) =~= seq![digit_char(n as nat)]);
        }
    }
}

/// The decimal rendering of an unsigned number (what `to_string` prints).
pub fn decimal_string(n: u64) -> (s: String)
    ensures
        s@ == decimal(n as nat),
{
    let mut s = String::new();
    push_decimal(&mut s, n);
    assert(s@ =~= decimal(n as nat));
    s
}

/// The decimal rendering of a signed number (what `to_string` prints).
pub fn signed_decimal_string(i: i64) -> (s: String)
    ensures
        s@ == signed_decimal(i as int),
{
    let mut s = String::new();
    if i < 0 {
        s.push('-');
        let magnitude: u64 = if i == i64::MIN {
            9223372036854775808u64
        } else {
            (-i) as u64
        };
        push_decimal(&mut s, magnitude);
    } else {
        push_decimal(&mut s, i as u64);
        assert(s@ =~= decimal(i as nat));
    }
    s
}

/// The strings of `parts` joined by single spaces.
pub fn join_with_spaces(parts: &Vec<String>) -> (s: String)
    ensures
        s@ == join_words(parts.deep_view()),
{
    let mut s = String::new();
    let mut i: usize = 0;
    while i < parts.len()
        invariant
            i <= parts.len(),
            s@ == join_words(parts.deep_view().take(i as int)),
        decreases parts.len() - i,
    {
        let ghost words = parts.deep_view();
        assert(words.take(i + 1).drop_last() =~= words.take(i as int));
        if i > 0 {
            s.push(' ');
        } else {
            assert(words.take(1) =~= seq![words[0]]);
        }
        s.append(parts[i].as_str());
        i = i + 1;
    }
    assert(parts.deep_view().take(parts.len() as int) =~= parts.deep_view());
    s
}

} // verus!
