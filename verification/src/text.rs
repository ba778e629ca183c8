//! Building blocks for generated source text: concatenation, the shapes of
//! call expressions, and the rendering of integers.

use vstd::prelude::*;
use vstd::string::*;

verus! {

/// `receiver.method()`.
pub open spec fn call0_text(receiver: Seq<char>, method: Seq<char>) -> Seq<char> {
    receiver + "."@ + method + "()"@
}

/// `receiver.method(arg)`.
pub open spec fn call1_text(receiver: Seq<char>, method: Seq<char>, arg: Seq<char>) -> Seq<char> {
    receiver + "."@ + method + "("@ + arg + ")"@
}

/// `receiver.method(first, second)`.
pub open spec fn call2_text(
    receiver: Seq<char>,
    method: Seq<char>,
    first: Seq<char>,
    second: Seq<char>,
) -> Seq<char> {
    receiver + "."@ + method + "("@ + first + ", "@ + second + ")"@
}

/// Two pieces of text, one after the other.
pub fn concat2(a: &str, b: &str) -> (r: String)
    ensures
        r@ == a@ + b@,
{
    String::from_str(a).concat(b)
}

/// Three pieces of text, one after the other.
pub fn concat3(a: &str, b: &str, c: &str) -> (r: String)
    ensures
        r@ == a@ + b@ + c@,
{
    String::from_str(a).concat(b).concat(c)
}

/// Renders the call of a method without arguments.
pub fn call0(receiver: &str, method: &str) -> (r: String)
    ensures
        r@ == call0_text(receiver@, method@),
{
    String::from_str(receiver).concat(".").concat(method).concat("()")
}

/// Renders the call of a method with one argument.
pub fn call1(receiver: &str, method: &str, arg: &str) -> (r: String)
    ensures
        r@ == call1_text(receiver@, method@, arg@),
{
    String::from_str(receiver).concat(".").concat(method).concat("(").concat(arg).concat(")")
}

/// Renders the call of a method with two arguments.
pub fn call2(receiver: &str, method: &str, first: &str, second: &str) -> (r: String)
    ensures
        r@ == call2_text(receiver@, method@, first@, second@),
{
    String::from_str(receiver).concat(".").concat(method).concat("(").concat(first).concat(
        ", ",
    ).concat(second).concat(")")
}

/// `function(arg)`.
pub open spec fn apply1_text(function: Seq<char>, arg: Seq<char>) -> Seq<char> {
    function + "("@ + arg + ")"@
}

/// `function(first, second)`.
pub open spec fn apply2_text(function: Seq<char>, first: Seq<char>, second: Seq<char>) -> Seq<
    char,
> {
    function + "("@ + first + ", "@ + second + ")"@
}

/// Renders the call of a function with one argument.
pub fn apply1(function: &str, arg: &str) -> (r: String)
    ensures
        r@ == apply1_text(function@, arg@),
{
    String::from_str(function).concat("(").concat(arg).concat(")")
}

/// Renders the call of a function with two arguments.
pub fn apply2(function: &str, first: &str, second: &str) -> (r: String)
    ensures
        r@ == apply2_text(function@, first@, second@),
{
    String::from_str(function).concat("(").concat(first).concat(", ").concat(second).concat(")")
}

/// The views of a list of texts, in order.
pub open spec fn text_views(texts: Seq<String>) -> Seq<Seq<char>> {
    Seq::new(texts.len(), |i: int| texts[i]@)
}

/// A list of two texts.
pub fn pair_of(first: String, second: String) -> (r: Vec<String>)
    ensures
        text_views(r@) == seq![first@, second@],
{
    let mut r: Vec<String> = Vec::new();
    r.push(first);
    r.push(second);
    assert(text_views(r@) =~= seq![first@, second@]);
    r
}

/// The character that stands for a digit below sixteen: `0` to `9`, then `a` to `f`.
pub open spec fn digit_char(d: nat) -> char {
    if d == 0 {
        '0'
    } else if d == 1 {
        '1'
    } else if d == 2 {
        '2'
    } else if d == 3 {
        '3'
    } else if d == 4 {
        '4'
    } else if d == 5 {
        '5'
    } else if d == 6 {
        '6'
    } else if d == 7 {
        '7'
    } else if d == 8 {
        '8'
    } else if d == 9 {
        '9'
    } else if d == 10 {
        'a'
    } else if d == 11 {
        'b'
    } else if d == 12 {
        'c'
    } else if d == 13 {
        'd'
    } else if d == 14 {
        'e'
    } else {
        'f'
    }
}

/// The digits of `n` in base sixteen if `hex` holds and in base ten if not,
/// most significant first, without leading zeros; zero is the single digit `0`.
pub open spec fn digits_text(n: nat, hex: bool) -> Seq<char>
    decreases n,
{
    if hex {
        if n < 16 {
            seq![digit_char(n)]
        } else {
            digits_text(n / 16, hex) + seq![digit_char(n % 16)]
        }
    } else {
        if n < 10 {
            seq![digit_char(n)]
        } else {
            digits_text(n / 10, hex) + seq![digit_char(n % 10)]
        }
    }
}

/// A natural number in decimal.
pub open spec fn decimal_text(n: nat) -> Seq<char> {
    digits_text(n, false)
}

/// An integer in decimal, with a leading minus sign below zero.
pub open spec fn signed_decimal_text(i: int) -> Seq<char> {
    if i < 0 {
        "-"@ + decimal_text((-i) as nat)
    } else {
        decimal_text(i as nat)
    }
}

/// A natural number in hexadecimal, with the prefix `0x` and lower-case digits.
pub open spec fn hex_text(n: nat) -> Seq<char> {
    "0x"@ + digits_text(n, true)
}

/// The 64-bit pattern that holds `i` in two's complement, read as a natural number.
pub open spec fn twos_complement_64(i: int) -> nat {
    if i < 0 {
        (i + 0x1_0000_0000_0000_0000) as nat
    } else {
        i as nat
    }
}

/// The text of one digit.
fn digit_str(d: u64) -> (r: &'static str)
    requires
        d < 16,
    ensures
        r@ == seq![digit_char(d as nat)],
{
    proof {
        reveal_strlit("0");
        reveal_strlit("1");
        reveal_strlit("2");
        reveal_strlit("3");
        reveal_strlit("4");
        reveal_strlit("5");
        reveal_strlit("6");
        reveal_strlit("7");
        reveal_strlit("8");
        reveal_strlit("9");
        reveal_strlit("a");
        reveal_strlit("b");
        reveal_strlit("c");
        reveal_strlit("d");
        reveal_strlit("e");
        reveal_strlit("f");
    }
    let r = if d == 0 {
        "0"
    } else if d == 1 {
        "1"
    } else if d == 2 {
        "2"
    } else if d == 3 {
        "3"
    } else if d == 4 {
        "4"
    } else if d == 5 {
        "5"
    } else if d == 6 {
        "6"
    } else if d == 7 {
        "7"
    } else if d == 8 {
        "8"
    } else if d == 9 {
        "9"
    } else if d == 10 {
        "a"
    } else if d == 11 {
        "b"
    } else if d == 12 {
        "c"
    } else if d == 13 {
        "d"
    } else if d == 14 {
        "e"
    } else {
        "f"
    };
    assert(r@ =~= seq![digit_char(d as nat)]);
    r
}

/// Renders `n` in base sixteen if `hex` holds and in base ten if not.
fn render_digits(n: u64, hex: bool) -> (r: String)
    ensures
        r@ == digits_text(n as nat, hex),
    decreases n,
{
    if hex {
        if n < 16 {
            String::from_str(digit_str(n))
        } else {
            render_digits(n / 16, hex).concat(digit_str(n % 16))
        }
    } else {
        if n < 10 {
            String::from_str(digit_str(n))
        } else {
            render_digits(n / 10, hex).concat(digit_str(n % 10))
        }
    }
}

/// Renders an unsigned integer in decimal.
pub fn render_unsigned_decimal(n: u64) -> (r: String)
    ensures
        r@ == decimal_text(n as nat),
{
    render_digits(n, false)
}

/// Renders a signed integer in decimal.
pub fn render_signed_decimal(i: i64) -> (r: String)
    ensures
        r@ == signed_decimal_text(i as int),
{
    if i < 0 {
        let magnitude: u64 = ((-(i + 1)) as u64) + 1;
        String::from_str("-").concat(render_digits(magnitude, false).as_str())
    } else {
        render_digits(i as u64, false)
    }
}

/// Renders an unsigned integer in hexadecimal.
pub fn render_unsigned_hex(n: u64) -> (r: String)
    ensures
        r@ == hex_text(n as nat),
{
    String::from_str("0x").concat(render_digits(n, true).as_str())
}

/// Renders the two's-complement pattern of a signed integer in hexadecimal.
pub fn render_signed_hex(i: i64) -> (r: String)
    ensures
        r@ == hex_text(twos_complement_64(i as int)),
{
    let pattern: u64 = if i < 0 {
        u64::MAX - ((-(i + 1)) as u64)
    } else {
        i as u64
    };
    render_unsigned_hex(pattern)
}

} // verus!
