//! Numerals as the nodes write them: digits in a radix, read into `u64`, and
//! the decimal form of an integer.

use vstd::prelude::*;
use vstd::string::*;

verus! {

/// Why a text is not a numeral that fits in 64 bits.
#[derive(Clone, Copy, Debug, PartialEq, Eq, Structural)]
pub enum NumeralError {
    /// The text has no digits at all.
    Empty,
    /// The text lacks the prefix that its notation asks for.
    MissingPrefix,
    /// A character is not a digit of the radix. A sign is no digit.
    InvalidDigit,
    /// The digits read so far already exceed `u64::MAX`.
    Overflow,
}

/// The value of `c` as a digit in `radix`: `0`-`9`, then letters of either
/// case from ten upwards, as long as the value stays below the radix.
pub open spec fn digit_of(c: char, radix: nat) -> Option<nat> {
    let code = c as u32;
    let raw: nat = if 48 <= code <= 57 {
        (code - 48) as nat
    } else if 97 <= code <= 122 {
        (code - 87) as nat
    } else if 65 <= code <= 90 {
        (code - 55) as nat
    } else {
        36
    };
    if raw < radix {
        Some(raw)
    } else {
        None
    }
}

/// The number that `digits` denote in `radix`, most significant digit first.
/// A character that is no digit counts as zero.
pub open spec fn numeral_value(digits: Seq<char>, radix: nat) -> nat
    decreases digits.len(),
{
    if digits.len() == 0 {
        0
    } else {
        let last = match digit_of(digits.last(), radix) {
            Some(d) => d,
            None => 0,
        };
        numeral_value(digits.drop_last(), radix) * radix + last
    }
}

/// How many characters at the start of `s` are digits of `radix`.
pub open spec fn digit_run(s: Seq<char>, radix: nat) -> nat
    decreases s.len(),
{
    if s.len() > 0 && digit_of(s[0], radix) is Some {
        1 + digit_run(s.skip(1), radix)
    } else {
        0
    }
}

/// The reading of `s` as an unsigned numeral in `radix`: one or more digits
/// and nothing else, worth no more than `u64::MAX`.
///
/// Where the text is no such numeral, the first fault from the left
/// decides: the reading overflows as soon as the leading digits exceed
/// `u64::MAX`, and is otherwise invalid if a character that is no digit
/// follows them.
pub open spec fn unsigned_of(s: Seq<char>, radix: nat) -> Result<u64, NumeralError> {
    let leading = s.take(digit_run(s, radix) as int);
    if s.len() == 0 {
        Err(NumeralError::Empty)
    } else if numeral_value(leading, radix) > u64::MAX {
        Err(NumeralError::Overflow)
    } else if leading.len() < s.len() {
        Err(NumeralError::InvalidDigit)
    } else {
        Ok(numeral_value(leading, radix) as u64)
    }
}

/// The digit run of `s` is at least `k` when the first `k` characters are
/// digits, and exactly `k` when the run cannot go on after them.
pub proof fn lemma_digit_run(s: Seq<char>, radix: nat, k: nat)
    requires
        k <= s.len(),
        forall|j: int| 0 <= j < k ==> digit_of(#[trigger] s[j], radix) is Some,
    ensures
        k <= digit_run(s, radix) <= s.len(),
        (k == s.len() || digit_of(s[k as int], radix) is None) ==> digit_run(s, radix) == k,
    decreases s.len(),
{
    if s.len() > 0 && digit_of(s[0], radix) is Some {
        let rest = s.skip(1);
        if k > 0 {
            assert forall|j: int| 0 <= j < k - 1 implies digit_of(
                #[trigger] rest[j],
                radix,
            ) is Some by {
                assert(rest[j] == s[j + 1]);
            }
            if k < s.len() {
                assert(rest[k - 1] == s[k as int]);
            }
            lemma_digit_run(rest, radix, (k - 1) as nat);
        } else {
            lemma_digit_run(rest, radix, 0);
        }
    }
}

/// Every character within the digit run of `s` is a digit.
pub proof fn lemma_run_holds_digits(s: Seq<char>, radix: nat)
    ensures
        digit_run(s, radix) <= s.len(),
        forall|j: int| 0 <= j < digit_run(s, radix) ==> digit_of(#[trigger] s[j], radix) is Some,
    decreases s.len(),
{
    if s.len() > 0 && digit_of(s[0], radix) is Some {
        let rest = s.skip(1);
        lemma_run_holds_digits(rest, radix);
        assert forall|j: int| 0 <= j < digit_run(s, radix) implies digit_of(
            #[trigger] s[j],
            radix,
        ) is Some by {
            if j > 0 {
                assert(s[j] == rest[j - 1]);
            }
        }
    }
}

/// Whether `s` is a numeral in `radix`: one or more digits and nothing
/// else.
pub open spec fn is_numeral(s: Seq<char>, radix: nat) -> bool {
    s.len() > 0 && forall|j: int| 0 <= j < s.len() ==> digit_of(#[trigger] s[j], radix) is Some
}

/// A text is read as a number exactly where it is a numeral that fits in 64
/// bits, and then as the number that its digits denote.
pub proof fn lemma_unsigned_of_numerals(s: Seq<char>, radix: nat)
    ensures
        unsigned_of(s, radix) is Ok <==> is_numeral(s, radix) && numeral_value(s, radix)
            <= u64::MAX,
        unsigned_of(s, radix) matches Ok(n) ==> n == numeral_value(s, radix),
{
    lemma_run_holds_digits(s, radix);
    if is_numeral(s, radix) {
        lemma_digit_run(s, radix, s.len());
    }
    if digit_run(s, radix) == s.len() {
        assert(s.take(s.len() as int) =~= s);
    }
}

/// A numeral is worth at least as much as any of its prefixes.
pub proof fn lemma_value_of_prefix(digits: Seq<char>, radix: nat, k: nat)
    requires
        k <= digits.len(),
        radix >= 1,
    ensures
        numeral_value(digits.take(k as int), radix) <= numeral_value(digits, radix),
    decreases digits.len() - k,
{
    if k == digits.len() {
        assert(digits.take(k as int) =~= digits);
    } else {
        let shorter = digits.drop_last();
        assert(shorter.take(k as int) =~= digits.take(k as int));
        lemma_value_of_prefix(shorter, radix, k);
        let high = numeral_value(shorter, radix);
        assert(high * radix >= high) by (nonlinear_arith)
            requires
                radix >= 1,
                high >= 0,
        ;
    }
}

/// The digit value of `c` in `radix`, as `char::to_digit` gives it.
pub fn digit(c: char, radix: u32) -> (r: Option<u32>)
    requires
        2 <= radix <= 36,
    ensures
        r is Some <==> digit_of(c, radix as nat) is Some,
        r matches Some(d) ==> digit_of(c, radix as nat) == Some(d as nat),
{
    let code: u32 = c as u32;
    let raw: u32 = if 48 <= code && code <= 57 {
        code - 48
    } else if 97 <= code && code <= 122 {
        code - 87
    } else if 65 <= code && code <= 90 {
        code - 55
    } else {
        36
    };
    if raw < radix {
        Some(raw)
    } else {
        None
    }
}

/// Reads `s` as an unsigned numeral in `radix`.
pub fn parse_unsigned(s: &str, radix: u32) -> (r: Result<u64, NumeralError>)
    requires
        2 <= radix <= 36,
    ensures
        r == unsigned_of(s@, radix as nat),
{
    let n: usize = s.unicode_len();
    if n == 0 {
        return Err(NumeralError::Empty);
    }
    let ghost digits = s@;
    let mut i: usize = 0;
    let mut acc: u64 = 0;
    while i < n
        invariant
            2 <= radix <= 36,
            n == s@.len(),
            i <= n,
            digits == s@,
            digits.len() > 0,
            forall|j: int| 0 <= j < i ==> digit_of(#[trigger] digits[j], radix as nat) is Some,
            acc == numeral_value(digits.take(i as int), radix as nat),
        decreases n - i,
    {
        let c: char = s.get_char(i);
        let ghost k: int = i as int;
        let ghost longer = digits.take(k + 1);
        proof {
            assert(longer.drop_last() =~= digits.take(k));
            assert(longer.last() == c);
        }
        match digit(c, radix) {
            None => {
                proof {
                    lemma_digit_run(digits, radix as nat, k as nat);
                }
                return Err(NumeralError::InvalidDigit);
            },
            Some(d) => {
                assert(0 <= acc * radix <= 36 * u64::MAX) by (nonlinear_arith)
                    requires
                        0 <= acc <= u64::MAX,
                        0 <= radix <= 36,
                ;
                let widened: u128 = acc as u128 * radix as u128 + d as u128;
                assert(widened == numeral_value(longer, radix as nat));
                if widened > u64::MAX as u128 {
                    proof {
                        assert forall|j: int| 0 <= j < k + 1 implies digit_of(
                            #[trigger] digits[j],
                            radix as nat,
                        ) is Some by {}
                        lemma_digit_run(digits, radix as nat, (k + 1) as nat);
                        let run = digit_run(digits, radix as nat);
                        let leading = digits.take(run as int);
                        assert(leading.take(k + 1) =~= longer);
                        lemma_value_of_prefix(leading, radix as nat, (k + 1) as nat);
                    }
                    return Err(NumeralError::Overflow);
                }
                acc = widened as u64;
            },
        }
        i += 1;
    }
    proof {
        lemma_digit_run(digits, radix as nat, n as nat);
        assert(digits.take(n as int) =~= digits);
    }
    Ok(acc)
}

/// The character that writes the digit `d`: `0`-`9`, then lower-case letters.
pub open spec fn digit_char(d: nat) -> char {
    if d < 10 {
        (48 + d) as char
    } else {
        (87 + d) as char
    }
}

/// The numeral of `n` in `radix`, without sign or leading zeros; zero is `0`.
pub open spec fn numeral_of(n: nat, radix: nat) -> Seq<char>
    decreases n,
{
    if n < radix || radix < 2 {
        seq![digit_char(n)]
    } else {
        proof {
            assert(n / radix < n) by (nonlinear_arith)
                requires
                    n >= radix,
                    radix >= 2,
            ;
        }
        numeral_of(n / radix, radix).push(digit_char(n % radix))
    }
}

/// The decimal numeral of `n`.
pub open spec fn decimal_of(n: nat) -> Seq<char> {
    numeral_of(n, 10)
}

/// Every character of a numeral is a digit of its radix, and together they
/// are worth the number that was written.
pub proof fn lemma_numeral_of_digits(n: nat, radix: nat)
    requires
        2 <= radix <= 36,
    ensures
        numeral_of(n, radix).len() > 0,
        forall|j: int|
            0 <= j < numeral_of(n, radix).len() ==> digit_of(
                #[trigger] numeral_of(n, radix)[j],
                radix,
            ) is Some,
        numeral_value(numeral_of(n, radix), radix) == n,
    decreases n,
{
    let text = numeral_of(n, radix);
    if n < radix {
        assert(digit_of(digit_char(n), radix) == Some(n));
        assert(text.drop_last() =~= Seq::<char>::empty());
        assert(numeral_value(text.drop_last(), radix) == 0);
        assert(0 * radix == 0) by (nonlinear_arith);
    } else {
        let high = n / radix;
        let low = n % radix;
        assert(high < n && n == high * radix + low && low < radix) by (nonlinear_arith)
            requires
                n >= radix,
                radix >= 2,
                high == n / radix,
                low == n % radix,
        ;
        lemma_numeral_of_digits(high, radix);
        assert(digit_of(digit_char(low), radix) == Some(low));
        assert(text.drop_last() =~= numeral_of(high, radix));
        assert(text.last() == digit_char(low));
    }
}

/// Reading a numeral back gives the number that was written, for every
/// number that fits in 64 bits.
pub proof fn lemma_numeral_round_trip(n: u64, radix: nat)
    requires
        2 <= radix <= 36,
    ensures
        unsigned_of(numeral_of(n as nat, radix), radix) == Ok::<u64, NumeralError>(n),
{
    let text = numeral_of(n as nat, radix);
    lemma_numeral_of_digits(n as nat, radix);
    lemma_digit_run(text, radix, text.len());
    assert(text.take(text.len() as int) =~= text);
}

/// The text of one decimal digit.
fn digit_text(d: u128) -> (r: &'static str)
    requires
        d < 10,
    ensures
        r@ == seq![digit_char(d as nat)],
{
    proof {
        reveal_strlit("0");
        reveal_strlit("1");
        reveal_strlit("2");
        reveal_strlit("3");
        reveal_strlit("4");
        reveal_strlit("5");
        reveal_strlit("6");
        reveal_strlit("7");
        reveal_strlit("8");
        reveal_strlit("9");
    }
    let r: &'static str = match d {
        0 => "0",
        1 => "1",
        2 => "2",
        3 => "3",
        4 => "4",
        5 => "5",
        6 => "6",
        7 => "7",
        8 => "8",
        _ => "9",
    };
    assert(r@ =~= seq![digit_char(d as nat)]);
    r
}

/// Appends the decimal numeral of `n` to `text`.
pub fn push_decimal(text: &mut String, n: u128)
    ensures
        final(text)@ == old(text)@ + decimal_of(n as nat),
    decreases n,
{
    if n < 10 {
        text.append(digit_text(n));
        assert(text@ =~= old(text)@ + decimal_of(n as nat));
    } else {
        push_decimal(text, n / 10);
        text.append(digit_text(n % 10));
        assert(text@ =~= old(text)@ + decimal_of(n as nat));
    }
}

/// Writes `n` in decimal.
pub fn decimal_string(n: u128) -> (r: String)
    ensures
        r@ == decimal_of(n as nat),
{
    let mut text = String::new();
    push_decimal(&mut text, n);
    assert(text@ =~= decimal_of(n as nat));
    text
}

/// The decimal numeral of `n`, with a minus sign before it where `n` is
/// negative.
pub open spec fn signed_decimal_of(n: int) -> Seq<char> {
    if n < 0 {
        seq!['-'] + decimal_of((-n) as nat)
    } else {
        decimal_of(n as nat)
    }
}

/// Appends the decimal numeral of `n`, with its sign where it is negative.
pub fn push_signed_decimal(text: &mut String, n: i64)
    ensures
        final(text)@ == old(text)@ + signed_decimal_of(n as int),
{
    if n < 0 {
        proof {
            reveal_strlit("-");
            assert("-"@ =~= seq!['-']);
        }
        text.append("-");
        push_decimal(text, (-(n as i128)) as u128);
        assert(text@ =~= old(text)@ + signed_decimal_of(n as int));
    } else {
        push_decimal(text, n as u128);
    }
}

} // verus!
