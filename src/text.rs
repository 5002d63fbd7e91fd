use vstd::prelude::*;
use vstd::string::*;

verus! {

/// The character of a decimal digit.
pub open spec fn digit_char(d: nat) -> char {
    if d == 0 {
        '0'
    } else if d == 1 {
        '1'
    } else if d == 2 {
        '2'
    } else if d == 3 {
        '3'
    } else if d == 4 {
        '4'
    } else if d == 5 {
        '5'
    } else if d == 6 {
        '6'
    } else if d == 7 {
        '7'
    } else if d == 8 {
        '8'
    } else {
        '9'
    }
}

pub open spec fn is_digit(c: char) -> bool {
    '0' <= c <= '9'
}

/// `n` written in decimal, without leading zeros ("0" for zero).
pub open spec fn decimal(n: nat) -> Seq<char>
    decreases n,
{
    if n < 10 {
        seq![digit_char(n)]
    } else {
        decimal(n / 10).push(digit_char(n % 10))
    }
}

/// `size / divisor` in hundredths, rounded to the nearest, ties to even.
pub open spec fn hundredths(size: nat, divisor: nat) -> nat {
    let q = (size * 100) / divisor;
    let r = (size * 100) % divisor;
    if 2 * r > divisor || (2 * r == divisor && q % 2 == 1) {
        q + 1
    } else {
        q
    }
}

/// The text shown for `size` bytes scaled by `divisor` under unit `name`:
/// the quotient with exactly two decimals, a space, and the unit.
pub open spec fn size_text(size: u64, divisor: u64, name: Seq<char>) -> Seq<char> {
    let h = hundredths(size as nat, divisor as nat);
    decimal(h / 100) + seq!['.', digit_char((h % 100) / 10), digit_char(h % 10), ' '] + name
}

/// `t` reads as digits, a point, two digits, a space and one of the unit
/// labels "KB", "MB", "GB".
pub open spec fn is_size_text(t: Seq<char>) -> bool {
    let n = t.len() as int;
    &&& n >= 7
    &&& forall|i: int| 0 <= i < n - 6 ==> is_digit(#[trigger] t[i])
    &&& t[n - 6] == '.'
    &&& is_digit(t[n - 5])
    &&& is_digit(t[n - 4])
    &&& t[n - 3] == ' '
    &&& t[n - 2] == 'K' || t[n - 2] == 'M' || t[n - 2] == 'G'
    &&& t[n - 1] == 'B'
}

proof fn lemma_digit_char(d: nat)
    ensures
        is_digit(digit_char(d)),
{
}

/// A decimal numeral is non-empty and made of digits only.
pub proof fn lemma_decimal_digits(n: nat)
    ensures
        decimal(n).len() >= 1,
        forall|i: int| 0 <= i < decimal(n).len() ==> is_digit(#[trigger] decimal(n)[i]),
    decreases n,
{
    lemma_digit_char(n % 10);
    if n >= 10 {
        lemma_decimal_digits(n / 10);
    } else {
        lemma_digit_char(n);
    }
}

/// Any text built from a unit label has the shape of a size.
pub proof fn lemma_size_text_shape(size: u64, divisor: u64, name: Seq<char>)
    requires
        name == seq!['K', 'B'] || name == seq!['M', 'B'] || name == seq!['G', 'B'],
    ensures
        is_size_text(size_text(size, divisor, name)),
{
    let h = hundredths(size as nat, divisor as nat);
    let head = decimal(h / 100);
    let mid = seq!['.', digit_char((h % 100) / 10), digit_char(h % 10), ' '];
    let t = size_text(size, divisor, name);
    lemma_decimal_digits(h / 100);
    lemma_digit_char((h % 100) / 10);
    lemma_digit_char(h % 10);
    assert(t == head + mid + name);
    let n = t.len() as int;
    assert(n == head.len() + 6);
    assert forall|i: int| 0 <= i < n - 6 implies is_digit(#[trigger] t[i]) by {
        assert(t[i] == head[i]);
    }
}

/// The literal of one decimal digit.
fn digit_str(d: u128) -> (r: &'static str)
    requires
        d < 10,
    ensures
        r@ == seq![digit_char(d as nat)],
{
    proof {
        reveal_strlit("0");
        reveal_strlit("1");
        reveal_strlit("2");
        reveal_strlit("3");
        reveal_strlit("4");
        reveal_strlit("5");
        reveal_strlit("6");
        reveal_strlit("7");
        reveal_strlit("8");
        reveal_strlit("9");
    }
    if d == 0 {
        "0"
    } else if d == 1 {
        "1"
    } else if d == 2 {
        "2"
    } else if d == 3 {
        "3"
    } else if d == 4 {
        "4"
    } else if d == 5 {
        "5"
    } else if d == 6 {
        "6"
    } else if d == 7 {
        "7"
    } else if d == 8 {
        "8"
    } else {
        "9"
    }
}

/// Appends `n` in decimal to `out`.
fn push_decimal(out: &mut String, n: u128)
    ensures
        final(out)@ == old(out)@ + decimal(n as nat),
    decreases n,
{
    if n >= 10 {
        push_decimal(out, n / 10);
    }
    let d = digit_str(n % 10);
    out.append(d);
    assert(out@ =~= old(out)@ + decimal(n as nat));
}

/// Renders `size` bytes scaled by `divisor` under the unit `name`.
pub fn render(size: u64, divisor: u64, name: &str) -> (r: String)
    requires
        divisor > 0,
    ensures
        r@ == size_text(size, divisor, name@),
{
    let scaled: u128 = (size as u128) * 100;
    let d: u128 = divisor as u128;
    let q: u128 = scaled / d;
    let rem: u128 = scaled % d;
    let h: u128 = if 2 * rem > d || (2 * rem == d && q % 2 == 1) {
        q + 1
    } else {
        q
    };
    assert(h as nat == hundredths(size as nat, divisor as nat));
    let mut out = String::new();
    push_decimal(&mut out, h / 100);
    out.append(".");
    out.append(digit_str((h % 100) / 10));
    out.append(digit_str(h % 10));
    out.append(" ");
    out.append(name);
    proof {
        reveal_strlit(".");
        reveal_strlit(" ");
        assert(out@ =~= size_text(size, divisor, name@));
    }
    out
}

} // verus!
