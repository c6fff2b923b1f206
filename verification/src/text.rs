//! Text building blocks: appending characters, decimal digits and
//! fixed-point amounts with two decimal places.

use vstd::prelude::*;

verus! {

/// The character of a decimal digit `d` (0 through 9).
pub open spec fn digit_char(d: int) -> char {
    if d == 0 {
        '0'
    } else if d == 1 {
        '1'
    } else if d == 2 {
        '2'
    } else if d == 3 {
        '3'
    } else if d == 4 {
        '4'
    } else if d == 5 {
        '5'
    } else if d == 6 {
        '6'
    } else if d == 7 {
        '7'
    } else if d == 8 {
        '8'
    } else {
        '9'
    }
}

/// The decimal notation of `n`, without leading zeros ("0" for zero).
pub open spec fn decimal_digits(n: nat) -> Seq<char>
    decreases n,
{
    if n < 10 {
        seq![digit_char(n as int)]
    } else {
        decimal_digits(n / 10).push(digit_char((n % 10) as int))
    }
}

/// The absolute value of an integer.
pub open spec fn abs(v: int) -> nat {
    if v < 0 {
        (-v) as nat
    } else {
        v as nat
    }
}

/// What follows the whole part in `hundredths_text`: nothing for a whole
/// amount, else a point and the fractional digits without a trailing zero.
pub open spec fn fraction_text(frac: nat) -> Seq<char> {
    if frac == 0 {
        seq![]
    } else if frac % 10 == 0 {
        seq!['.', digit_char((frac / 10) as int)]
    } else {
        seq!['.', digit_char((frac / 10) as int), digit_char((frac % 10) as int)]
    }
}

/// The decimal notation of `v / 100`: a minus sign for negative amounts, the
/// whole part, and then, only when the amount is not whole, a point and one
/// or two fractional digits with no trailing zero.
pub open spec fn hundredths_text(v: int) -> Seq<char> {
    let a = abs(v);
    let sign: Seq<char> = if v < 0 {
        seq!['-']
    } else {
        seq![]
    };
    sign + decimal_digits(a / 100) + fraction_text(a % 100)
}

proof fn lemma_digit_char_injective(a: int, b: int)
    requires
        0 <= a < 10,
        0 <= b < 10,
        digit_char(a) == digit_char(b),
    ensures
        a == b,
{
}

proof fn lemma_digit_char_not_mark(d: int)
    requires
        0 <= d < 10,
    ensures
        digit_char(d) != '.',
        digit_char(d) != '-',
{
}

/// The decimal notation of a number has at least one digit, at least two
/// from 10 on, and nothing but digits.
pub proof fn lemma_decimal_digits_shape(n: nat)
    ensures
        decimal_digits(n).len() >= 1,
        n >= 10 ==> decimal_digits(n).len() >= 2,
        forall|i: int|
            0 <= i < decimal_digits(n).len() ==> decimal_digits(n)[i] != '.' && decimal_digits(n)[i]
                != '-',
    decreases n,
{
    if n < 10 {
        lemma_digit_char_not_mark(n as int);
    } else {
        lemma_decimal_digits_shape(n / 10);
        lemma_digit_char_not_mark((n % 10) as int);
    }
}

/// Two numbers with the same decimal notation are equal.
pub proof fn law_decimal_digits_injective(a: nat, b: nat)
    requires
        decimal_digits(a) == decimal_digits(b),
    ensures
        a == b,
    decreases a,
{
    lemma_decimal_digits_shape(a);
    lemma_decimal_digits_shape(b);
    if a < 10 && b < 10 {
        assert(decimal_digits(a)[0] == digit_char(a as int));
        assert(decimal_digits(b)[0] == digit_char(b as int));
        lemma_digit_char_injective(a as int, b as int);
    } else if a >= 10 && b >= 10 {
        let da = decimal_digits(a);
        let db = decimal_digits(b);
        assert(da.drop_last() =~= decimal_digits(a / 10));
        assert(db.drop_last() =~= decimal_digits(b / 10));
        law_decimal_digits_injective(a / 10, b / 10);
        assert(da.last() == digit_char((a % 10) as int));
        assert(db.last() == digit_char((b % 10) as int));
        lemma_digit_char_injective((a % 10) as int, (b % 10) as int);
    }
}

proof fn lemma_unsigned_text_injective(a: nat, b: nat)
    requires
        decimal_digits(a / 100) + fraction_text(a % 100) == decimal_digits(b / 100) + fraction_text(
            b % 100,
        ),
    ensures
        a == b,
{
    let wa = decimal_digits(a / 100);
    let wb = decimal_digits(b / 100);
    let fa = fraction_text(a % 100);
    let fb = fraction_text(b % 100);
    let t = wa + fa;
    lemma_decimal_digits_shape(a / 100);
    lemma_decimal_digits_shape(b / 100);
    if wa.len() < wb.len() {
        if fa.len() == 0 {
            assert(t.len() == wa.len());
            assert(t.len() >= wb.len());
        } else {
            assert(t[wa.len() as int] == '.');
            assert((wb + fb)[wa.len() as int] == wb[wa.len() as int]);
        }
        assert(false);
    } else if wb.len() < wa.len() {
        if fb.len() == 0 {
            assert((wb + fb).len() == wb.len());
        } else {
            assert((wb + fb)[wb.len() as int] == '.');
            assert(t[wb.len() as int] == wa[wb.len() as int]);
        }
        assert(false);
    }
    assert(wa =~= t.subrange(0, wa.len() as int));
    assert(wb =~= (wb + fb).subrange(0, wb.len() as int));
    law_decimal_digits_injective(a / 100, b / 100);
    assert(fa =~= t.subrange(wa.len() as int, t.len() as int));
    assert(fb =~= (wb + fb).subrange(wb.len() as int, (wb + fb).len() as int));
    let x = a % 100;
    let y = b % 100;
    if x != 0 && y != 0 {
        assert(fa[1] == digit_char((x / 10) as int));
        assert(fb[1] == digit_char((y / 10) as int));
        lemma_digit_char_injective((x / 10) as int, (y / 10) as int);
        if x % 10 != 0 {
            assert(fa[2] == digit_char((x % 10) as int));
            assert(fb[2] == digit_char((y % 10) as int));
            lemma_digit_char_injective((x % 10) as int, (y % 10) as int);
        }
    }
}

/// Distinct amounts never render alike: the text of an amount in hundredths
/// determines the amount.
pub proof fn law_hundredths_text_injective(v: int, w: int)
    requires
        hundredths_text(v) == hundredths_text(w),
    ensures
        v == w,
{
    let a = abs(v);
    let b = abs(w);
    let ua = decimal_digits(a / 100) + fraction_text(a % 100);
    let ub = decimal_digits(b / 100) + fraction_text(b % 100);
    lemma_decimal_digits_shape(a / 100);
    lemma_decimal_digits_shape(b / 100);
    assert(ua[0] == decimal_digits(a / 100)[0]);
    assert(ub[0] == decimal_digits(b / 100)[0]);
    let sv: Seq<char> = if v < 0 { seq!['-'] } else { seq![] };
    let sw: Seq<char> = if w < 0 { seq!['-'] } else { seq![] };
    assert(hundredths_text(v) =~= sv + ua);
    assert(hundredths_text(w) =~= sw + ub);
    if v < 0 && w >= 0 {
        assert((sv + ua)[0] == '-');
        assert((sw + ub)[0] == ub[0]);
        assert(false);
    } else if v >= 0 && w < 0 {
        assert((sw + ub)[0] == '-');
        assert((sv + ua)[0] == ua[0]);
        assert(false);
    }
    if v < 0 {
        assert(ua =~= (sv + ua).subrange(1, (sv + ua).len() as int));
        assert(ub =~= (sw + ub).subrange(1, (sw + ub).len() as int));
    } else {
        assert(ua =~= sv + ua);
        assert(ub =~= sw + ub);
    }
    lemma_unsigned_text_injective(a, b);
}

/// Appends one character: `String::push` from std.
#[verifier::external_body]
pub(crate) fn push_char(s: &mut String, c: char)
    ensures
        final(s)@ == old(s)@.push(c),
{
    s.push(c)
}

/// The character of the decimal digit `d`.
pub fn digit(d: u64) -> (c: char)
    requires
        d < 10,
    ensures
        c == digit_char(d as int),
{
    match d {
        0 => '0',
        1 => '1',
        2 => '2',
        3 => '3',
        4 => '4',
        5 => '5',
        6 => '6',
        7 => '7',
        8 => '8',
        _ => '9',
    }
}

/// Appends the decimal notation of `n` to `s`.
pub fn push_decimal(s: &mut String, n: u64)
    ensures
        final(s)@ == old(s)@ + decimal_digits(n as nat),
    decreases n,
{
    if n >= 10 {
        push_decimal(s, n / 10);
    }
    push_char(s, digit(n % 10));
}

/// Appends the decimal notation of `v / 100` to `s` (see `hundredths_text`).
pub fn push_hundredths(s: &mut String, v: i64)
    ensures
        final(s)@ == old(s)@ + hundredths_text(v as int),
{
    let a: u64 = if v < 0 {
        push_char(s, '-');
        ((-(v + 1)) as u64) + 1
    } else {
        v as u64
    };
    assert(a as nat == abs(v as int));
    push_decimal(s, a / 100);
    let frac: u64 = a % 100;
    if frac != 0 {
        push_char(s, '.');
        push_char(s, digit(frac / 10));
        if frac % 10 != 0 {
            push_char(s, digit(frac % 10));
        }
    }
    assert(final(s)@ =~= old(s)@ + hundredths_text(v as int));
}

/// The decimal notation of `v / 100` as a new string.
pub fn hundredths_to_string(v: i64) -> (s: String)
    ensures
        s@ == hundredths_text(v as int),
{
    let mut s = String::new();
    push_hundredths(&mut s, v);
    assert(s@ =~= hundredths_text(v as int));
    s
}

} // verus!
