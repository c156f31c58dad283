use vstd::prelude::*;

verus! {

/// The character of a decimal digit `d` (for `d < 10`).
pub open spec fn digit_char(d: nat) -> char {
    (d + 48) as char
}

/// `n` written in decimal, without leading zeros (what `{}` prints).
pub open spec fn decimal(n: nat) -> Seq<char>
    decreases n,
{
    if n < 10 {
        seq![digit_char(n)]
    } else {
        decimal(n / 10).push(digit_char(n % 10))
    }
}

/// `n` in decimal, padded with a zero to at least two digits (what `{:02}` prints).
pub open spec fn zero_padded2(n: nat) -> Seq<char> {
    if n < 10 {
        seq!['0'] + decimal(n)
    } else {
        decimal(n)
    }
}

/// Whether a byte is an ASCII decimal digit.
pub open spec fn is_digit(b: u8) -> bool {
    48 <= b <= 57
}

pub open spec fn all_digits(s: Seq<u8>) -> bool {
    forall|i: int| 0 <= i < s.len() ==> is_digit(#[trigger] s[i])
}

/// The number that a run of ASCII digits spells.
pub open spec fn digits_value(s: Seq<u8>) -> nat
    decreases s.len(),
{
    if s.len() == 0 {
        0
    } else {
        digits_value(s.drop_last()) * 10 + (s.last() - 48) as nat
    }
}

/// The number that an unsigned integer's `from_str` reads from `s`, before the
/// target type's range is checked: an optional `+`, then one or more digits.
pub open spec fn unsigned_value(s: Seq<u8>) -> Option<nat> {
    let digits = if s.len() > 0 && s[0] == 43 {
        s.drop_first()
    } else {
        s
    };
    if digits.len() > 0 && all_digits(digits) {
        Some(digits_value(digits))
    } else {
        None
    }
}

/// The ASCII bytes of a string of ASCII characters.
pub open spec fn ascii_bytes(s: Seq<char>) -> Seq<u8> {
    s.map_values(|c: char| c as u8)
}

fn digit_char_exec(d: u64) -> (c: char)
    requires
        d < 10,
    ensures
        c == digit_char(d as nat),
{
    ((d as u8) + 48u8) as char
}

/// Calls std's `String::push`, trusted to append `c` as the string's last
/// character and change nothing else.
#[verifier::external_body]
pub(crate) fn push_char(s: &mut String, c: char)
    ensures
        final(s)@ == old(s)@.push(c),
{
    s.push(c);
}

/// Appends `n` in decimal to `s`.
pub fn push_decimal(s: &mut String, n: u64)
    ensures
        final(s)@ == old(s)@ + decimal(n as nat),
    decreases n,
{
    if n >= 10 {
        push_decimal(s, n / 10);
    }
    push_char(s, digit_char_exec(n % 10));
    assert(final(s)@ =~= old(s)@ + decimal(n as nat)) by {
        reveal_with_fuel(decimal, 1);
    }
}

/// Appends `n` in decimal, zero-padded to two digits, to `s`.
pub fn push_zero_padded2(s: &mut String, n: u64)
    ensures
        final(s)@ == old(s)@ + zero_padded2(n as nat),
{
    if n < 10 {
        push_char(s, '0');
    }
    push_decimal(s, n);
    assert(final(s)@ =~= old(s)@ + zero_padded2(n as nat));
}

/// `n` in decimal.
pub fn decimal_string(n: u64) -> (r: String)
    ensures
        r@ == decimal(n as nat),
{
    let mut s = String::new();
    push_decimal(&mut s, n);
    assert(s@ =~= decimal(n as nat));
    s
}

proof fn lemma_digits_value_take_monotone(s: Seq<u8>, i: int, j: int)
    requires
        0 <= i <= j <= s.len(),
    ensures
        digits_value(s.take(i)) <= digits_value(s.take(j)),
    decreases j - i,
{
    if i < j {
        lemma_digits_value_take_monotone(s, i, j - 1);
        assert(s.take(j).drop_last() =~= s.take(j - 1));
    }
}

/// Reads the unsigned decimal number in bytes `start..end` of `s`, as an unsigned
/// integer's `from_str` does: `None` unless the field is an optional `+` followed by
/// one or more digits whose value is at most `max`.
pub fn parse_unsigned_field(s: &[u8], start: usize, end: usize, max: u64) -> (r: Option<u64>)
    requires
        start <= end <= s@.len(),
    ensures
        r is Some <==> (unsigned_value(s@.subrange(start as int, end as int)) matches Some(v)
            && v <= max),
        r matches Some(v) ==> unsigned_value(s@.subrange(start as int, end as int)) == Some(
            v as nat,
        ),
{
    let ghost field = s@.subrange(start as int, end as int);
    let mut first = start;
    if start < end && s[start] == 43u8 {
        first = start + 1;
    }
    let ghost digits = s@.subrange(first as int, end as int);
    assert(digits =~= (if field.len() > 0 && field[0] == 43 {
        field.drop_first()
    } else {
        field
    }));
    if first == end {
        return None;
    }
    let mut acc: u128 = 0;
    let mut i: usize = first;
    while i < end
        invariant
            first <= i <= end <= s@.len(),
            first < end,
            digits == s@.subrange(first as int, end as int),
            field == s@.subrange(start as int, end as int),
            digits == (if field.len() > 0 && field[0] == 43 {
                field.drop_first()
            } else {
                field
            }),
            all_digits(digits.take(i - first)),
            acc as nat == digits_value(digits.take(i - first)),
            acc <= max,
        decreases end - i,
    {
        let b = s[i];
        let ghost k = i - first;
        if b < 48u8 || b > 57u8 {
            assert(!is_digit(digits[k]));
            return None;
        }
        assert(digits.take(k + 1).drop_last() =~= digits.take(k));
        assert(all_digits(digits.take(k + 1)));
        acc = acc * 10 + (b - 48u8) as u128;
        i = i + 1;
        if acc > max as u128 {
            proof {
                if all_digits(digits) {
                    lemma_digits_value_take_monotone(digits, k + 1, digits.len() as int);
                    assert(digits.take(digits.len() as int) =~= digits);
                }
            }
            return None;
        }
    }
    assert(digits.take(i - first) =~= digits);
    Some(acc as u64)
}

proof fn lemma_digits_value_push(s: Seq<u8>, b: u8)
    ensures
        digits_value(s.push(b)) == digits_value(s) * 10 + (b - 48) as nat,
{
    assert(s.push(b).drop_last() =~= s);
}

/// Reading back a number written in decimal gives the number.
pub proof fn lemma_decimal_reads_back(n: nat)
    ensures
        all_digits(ascii_bytes(decimal(n))),
        ascii_bytes(decimal(n)).len() > 0,
        unsigned_value(ascii_bytes(decimal(n))) == Some(n),
    decreases n,
{
    let s = ascii_bytes(decimal(n));
    if n < 10 {
        assert(s =~= seq![(n + 48) as u8]);
        assert(s.drop_last() =~= Seq::<u8>::empty());
        reveal_with_fuel(digits_value, 2);
        assert(digits_value(s) == n);
        assert(is_digit(s[0]));
    } else {
        lemma_decimal_reads_back(n / 10);
        let t = ascii_bytes(decimal(n / 10));
        assert(s =~= t.push(((n % 10) + 48) as u8));
        assert(is_digit(t[0]));
        assert(digits_value(t) == n / 10);
        lemma_digits_value_push(t, ((n % 10) + 48) as u8);
        assert(digits_value(s) == n);
        assert(s[0] == t[0]);
    }
}

/// Reading back a number written with `{:02}` gives the number.
pub proof fn lemma_zero_padded_reads_back(n: nat)
    ensures
        unsigned_value(ascii_bytes(zero_padded2(n))) == Some(n),
{
    lemma_decimal_reads_back(n);
    if n < 10 {
        let s = ascii_bytes(zero_padded2(n));
        assert(s =~= seq![48u8, (n + 48) as u8]);
        assert(s.drop_last() =~= seq![48u8]);
        assert(s.drop_last().drop_last() =~= Seq::<u8>::empty());
        reveal_with_fuel(digits_value, 3);
        assert(digits_value(s.drop_last()) == 0);
        assert(digits_value(s) == n);
        assert(all_digits(s));
    }
}

/// A number below 100 written with `{:02}` takes exactly two characters.
pub proof fn lemma_zero_padded_two_chars(n: nat)
    requires
        n < 100,
    ensures
        zero_padded2(n).len() == 2,
        zero_padded2(n) == seq![digit_char(n / 10), digit_char(n % 10)],
        digit_char(n / 10) as u8 == 48 + n / 10,
        digit_char(n % 10) as u8 == 48 + n % 10,
{
    reveal_with_fuel(decimal, 2);
    assert(zero_padded2(n) =~= seq![digit_char(n / 10), digit_char(n % 10)]);
}

} // verus!
