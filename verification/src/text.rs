//! Text helpers: decoding argument bytes, comparing and building strings,
//! reading and writing decimal numbers.
use vstd::prelude::*;
use vstd::utf8::*;

verus! {

/// `String::push` appends one character.
pub assume_specification[ String::push ](s: &mut String, ch: char)
    ensures
        final(s)@ == old(s)@.push(ch),
;

/// `str == str` holds exactly when both hold the same characters.
pub assume_specification[ <str as PartialEq<str>>::eq ](a: &str, b: &str) -> (r: bool)
    ensures
        r == (a@ == b@),
;

/// The texts of a list of strings.
pub open spec fn texts(v: Seq<String>) -> Seq<Seq<char>> {
    Seq::new(v.len(), |i: int| v[i]@)
}

/// Appends one string to a list.
pub fn push_text(list: &mut Vec<String>, s: String)
    ensures
        texts(final(list)@) == texts(old(list)@).push(s@),
{
    list.push(s);
    proof {
        assert(texts(list@) =~= texts(old(list)@).push(s@));
    }
}

/// What an optional string holds.
pub open spec fn text_of(s: Option<String>) -> Option<Seq<char>> {
    match s {
        Some(s) => Some(s@),
        None => None,
    }
}

/// `std::str::from_utf8`: the bytes read as text. It succeeds exactly on
/// well-formed UTF-8, and the text then holds the characters that the bytes
/// encode.
#[verifier::external_body]
pub(crate) fn utf8_text(bytes: &[u8]) -> (r: Option<&str>)
    ensures
        r is Some <==> valid_utf8(bytes@),
        r is Some ==> r->0@ == decode_utf8(bytes@),
{
    std::str::from_utf8(bytes).ok()
}

/// Why a text is not a number in range.
#[derive(Debug, Clone, Copy, PartialEq, Eq, Structural)]
pub enum NumberFault {
    /// The text is empty.
    Empty,
    /// A character is not a decimal digit, or the text is a lone sign.
    InvalidDigit,
    /// The number does not fit the target.
    TooLarge,
}

/// The value of a decimal digit.
pub open spec fn digit_value(c: char) -> Option<nat> {
    if '0' <= c && c <= '9' {
        Some((c as nat - '0' as nat) as nat)
    } else {
        None
    }
}

/// Reads `digits` from left to right on top of `acc`. The first character
/// that is no digit, or that takes the number above `max`, decides the fault.
pub open spec fn read_digits(digits: Seq<char>, acc: nat, max: nat) -> Result<nat, NumberFault>
    decreases digits.len(),
{
    if digits.len() == 0 {
        Ok(acc)
    } else {
        match digit_value(digits[0]) {
            None => Err(NumberFault::InvalidDigit),
            Some(d) => if acc * 10 + d > max {
                Err(NumberFault::TooLarge)
            } else {
                read_digits(digits.skip(1), acc * 10 + d, max)
            },
        }
    }
}

/// The unsigned decimal number that `text` spells, if it is at most `max`:
/// an optional `+`, then one or more digits.
pub open spec fn decimal(text: Seq<char>, max: nat) -> Result<nat, NumberFault> {
    if text.len() == 0 {
        Err(NumberFault::Empty)
    } else if text.len() == 1 && text[0] == '+' {
        Err(NumberFault::InvalidDigit)
    } else if text[0] == '+' {
        read_digits(text.skip(1), 0, max)
    } else {
        read_digits(text, 0, max)
    }
}

/// The value of a character as a digit, or zero if it is none.
pub open spec fn digit_or_zero(c: char) -> nat {
    match digit_value(c) {
        Some(d) => d,
        None => 0,
    }
}

/// The number that a sequence of decimal digits spells, most significant
/// digit first.
pub open spec fn digits_number(digits: Seq<char>) -> nat
    decreases digits.len(),
{
    if digits.len() == 0 {
        0
    } else {
        digits_number(digits.drop_last()) * 10 + digit_or_zero(digits.last())
    }
}

/// Whether every character is a decimal digit.
pub open spec fn all_digits(digits: Seq<char>) -> bool {
    forall|i: int| 0 <= i < digits.len() ==> digit_value(#[trigger] digits[i]) is Some
}

/// A text without its plus sign, if it begins with one.
pub open spec fn unsigned_part(text: Seq<char>) -> Seq<char> {
    if text.len() > 0 && text[0] == '+' {
        text.skip(1)
    } else {
        text
    }
}

/// The number that `digits` spell behind the digits of `acc`.
spec fn extended(acc: nat, digits: Seq<char>) -> nat
    decreases digits.len(),
{
    if digits.len() == 0 {
        acc
    } else {
        extended(acc * 10 + digit_or_zero(digits[0]), digits.skip(1))
    }
}

/// One more digit at the end makes the number ten times as large, and adds
/// the digit.
proof fn lemma_extended_push(acc: nat, digits: Seq<char>, c: char)
    ensures
        extended(acc, digits.push(c)) == extended(acc, digits) * 10 + digit_or_zero(c),
    decreases digits.len(),
{
    let longer = digits.push(c);
    if digits.len() == 0 {
        assert(longer.skip(1) =~= Seq::<char>::empty());
        assert(extended(acc * 10 + digit_or_zero(c), longer.skip(1)) == acc * 10 + digit_or_zero(c));
    } else {
        assert(longer.skip(1) =~= digits.skip(1).push(c));
        lemma_extended_push(acc * 10 + digit_or_zero(digits[0]), digits.skip(1), c);
    }
}

/// Reading from the left gives the number that the digits spell.
proof fn lemma_extended_number(digits: Seq<char>)
    ensures
        extended(0, digits) == digits_number(digits),
    decreases digits.len(),
{
    if digits.len() > 0 {
        lemma_extended_number(digits.drop_last());
        lemma_extended_push(0, digits.drop_last(), digits.last());
        assert(digits.drop_last().push(digits.last()) =~= digits);
    }
}

/// Further digits never make a number smaller, and a larger start gives a
/// larger number.
proof fn lemma_extended_grows(acc: nat, digits: Seq<char>)
    ensures
        acc <= extended(acc, digits),
    decreases digits.len(),
{
    if digits.len() > 0 {
        lemma_extended_grows(acc * 10 + digit_or_zero(digits[0]), digits.skip(1));
    }
}

/// Reading succeeds exactly on digits that stay in range, and gives the
/// number that they spell.
proof fn lemma_read_digits(digits: Seq<char>, acc: nat, max: nat)
    requires
        acc <= max,
    ensures
        read_digits(digits, acc, max) is Ok <==> all_digits(digits) && extended(acc, digits)
            <= max,
        read_digits(digits, acc, max) matches Ok(n) ==> n == extended(acc, digits),
    decreases digits.len(),
{
    if digits.len() > 0 {
        let tail = digits.skip(1);
        match digit_value(digits[0]) {
            None => {},
            Some(d) => {
                let next = acc * 10 + d;
                lemma_extended_grows(next, tail);
                if next <= max {
                    lemma_read_digits(tail, next, max);
                    assert(all_digits(digits) <==> all_digits(tail)) by {
                        if all_digits(tail) {
                            assert forall|i: int| 0 <= i < digits.len() implies digit_value(
                                #[trigger] digits[i],
                            ) is Some by {
                                if i > 0 {
                                    assert(digits[i] == tail[i - 1]);
                                }
                            }
                        }
                        if all_digits(digits) {
                            assert forall|i: int| 0 <= i < tail.len() implies digit_value(
                                #[trigger] tail[i],
                            ) is Some by {
                                assert(tail[i] == digits[i + 1]);
                            }
                        }
                    }
                }
            },
        }
    }
}

/// A text is a number in range exactly if, behind an optional plus sign, it
/// holds one or more decimal digits that spell a number of at most `max`;
/// that number is its value.
pub proof fn law_decimal(text: Seq<char>, max: nat)
    ensures
        decimal(text, max) is Ok <==> unsigned_part(text).len() > 0 && all_digits(
            unsigned_part(text),
        ) && digits_number(unsigned_part(text)) <= max,
        decimal(text, max) matches Ok(n) ==> n == digits_number(unsigned_part(text)),
{
    let digits = unsigned_part(text);
    lemma_read_digits(digits, 0, max);
    lemma_extended_number(digits);
    if text.len() > 0 && text[0] != '+' {
        assert(digits == text);
    }
    if text.len() == 1 && text[0] == '+' {
        assert(digits.len() == 0);
    }
}

/// Parses an unsigned decimal number that is at most `max`.
pub fn parse_decimal(text: &str, max: u64) -> (r: Result<u64, NumberFault>)
    ensures
        r matches Ok(n) ==> n <= max && decimal(text@, max as nat) == Ok::<nat, NumberFault>(
            n as nat,
        ),
        r matches Err(fault) ==> decimal(text@, max as nat) == Err::<nat, NumberFault>(fault),
{
    let len: usize = text.unicode_len();
    if len == 0 {
        return Err(NumberFault::Empty);
    }
    let first: char = text.get_char(0);
    if len == 1 && first == '+' {
        return Err(NumberFault::InvalidDigit);
    }
    let start: usize = if first == '+' { 1 } else { 0 };
    let mut i: usize = start;
    let mut acc: u64 = 0;
    proof {
        assert(text@.skip(0) =~= text@);
    }
    while i < len
        invariant
            start <= i <= len,
            len == text@.len(),
            acc <= max,
            decimal(text@, max as nat) == read_digits(text@.skip(i as int), acc as nat, max as nat),
        decreases len - i,
    {
        let c: char = text.get_char(i);
        proof {
            assert(text@.skip(i as int)[0] == c);
            assert(text@.skip(i as int).skip(1) =~= text@.skip(i + 1));
        }
        if c < '0' || c > '9' {
            return Err(NumberFault::InvalidDigit);
        }
        let d: u64 = (c as u64) - ('0' as u64);
        if acc > max / 10 {
            return Err(NumberFault::TooLarge);
        }
        let tens: u64 = acc * 10;
        if d > max - tens {
            return Err(NumberFault::TooLarge);
        }
        acc = tens + d;
        i = i + 1;
    }
    Ok(acc)
}

/// The character of a decimal digit.
pub open spec fn digit_char(d: nat) -> char
    recommends
        d < 10,
{
    if d == 0 {
        '0'
    } else if d == 1 {
        '1'
    } else if d == 2 {
        '2'
    } else if d == 3 {
        '3'
    } else if d == 4 {
        '4'
    } else if d == 5 {
        '5'
    } else if d == 6 {
        '6'
    } else if d == 7 {
        '7'
    } else if d == 8 {
        '8'
    } else {
        '9'
    }
}

/// The decimal spelling of a number, without sign or leading zeros.
pub open spec fn decimal_text(n: nat) -> Seq<char>
    decreases n,
{
    if n < 10 {
        seq![digit_char(n)]
    } else {
        decimal_text(n / 10).push(digit_char(n % 10))
    }
}

/// The spelling of a number holds digits only, at least one, and spells the
/// number.
proof fn lemma_decimal_text(n: nat)
    ensures
        decimal_text(n).len() > 0,
        all_digits(decimal_text(n)),
        digits_number(decimal_text(n)) == n,
    decreases n,
{
    if n < 10 {
        let one = seq![digit_char(n)];
        assert(one.drop_last() =~= Seq::<char>::empty());
        assert(digits_number(one.drop_last()) == 0);
        assert(digit_or_zero(one.last()) == n);
    } else {
        lemma_decimal_text(n / 10);
        let front = decimal_text(n / 10);
        let all = front.push(digit_char(n % 10));
        assert(all.drop_last() =~= front);
        assert(digit_or_zero(all.last()) == n % 10);
        assert forall|i: int| 0 <= i < all.len() implies digit_value(#[trigger] all[i]) is Some by {
            if i < front.len() {
                assert(all[i] == front[i]);
            }
        }
    }
}

/// A number that is written and read again is the same number.
pub proof fn law_decimal_round_trip(n: nat, max: nat)
    requires
        n <= max,
    ensures
        decimal(decimal_text(n), max) == Ok::<nat, NumberFault>(n),
{
    lemma_decimal_text(n);
    let text = decimal_text(n);
    assert(digit_value(text[0]) is Some);
    law_decimal(text, max);
}

fn digit_of(d: u64) -> (c: char)
    requires
        d < 10,
    ensures
        c == digit_char(d as nat),
{
    if d == 0 {
        '0'
    } else if d == 1 {
        '1'
    } else if d == 2 {
        '2'
    } else if d == 3 {
        '3'
    } else if d == 4 {
        '4'
    } else if d == 5 {
        '5'
    } else if d == 6 {
        '6'
    } else if d == 7 {
        '7'
    } else if d == 8 {
        '8'
    } else {
        '9'
    }
}

/// Appends the decimal spelling of `n` to `out`.
pub fn push_decimal(out: &mut String, n: u64)
    ensures
        final(out)@ == old(out)@ + decimal_text(n as nat),
    decreases n,
{
    if n >= 10 {
        push_decimal(out, n / 10);
    }
    out.push(digit_of(n % 10));
}

/// The decimal spelling of `n`.
pub fn decimal_string(n: u64) -> (r: String)
    ensures
        r@ == decimal_text(n as nat),
{
    let mut out = String::new();
    push_decimal(&mut out, n);
    out
}

/// `count` copies of `c`.
pub open spec fn repeated(c: char, count: nat) -> Seq<char> {
    Seq::new(count, |i: int| c)
}

/// Appends `count` copies of `c` to `out`.
pub fn push_repeated(out: &mut String, c: char, count: usize)
    ensures
        final(out)@ == old(out)@ + repeated(c, count as nat),
{
    let mut i: usize = 0;
    while i < count
        invariant
            i <= count,
            out@ == old(out)@ + repeated(c, i as nat),
        decreases count - i,
    {
        out.push(c);
        i = i + 1;
        proof {
            assert(out@ =~= old(out)@ + repeated(c, i as nat));
        }
    }
}

/// Why a text is not a decimal fraction.
#[derive(Debug, Clone, Copy, PartialEq, Eq, Structural)]
pub enum FractionFault {
    /// The text is empty.
    Empty,
    /// The text does not follow the grammar.
    Invalid,
}

/// Whether a character is a decimal digit.
pub open spec fn is_digit(c: char) -> bool {
    '0' <= c && c <= '9'
}

/// Whether `c` is the lower-case ASCII letter `letter`, in either case.
pub open spec fn is_letter(c: char, letter: char) -> bool {
    c == letter || c as int + 32 == letter as int
}

/// Whether a text is `word`, whatever the case of its letters.
pub open spec fn is_word(text: Seq<char>, word: Seq<char>) -> bool {
    text.len() == word.len() && forall|i: int|
        0 <= i < text.len() ==> is_letter(#[trigger] text[i], word[i])
}

/// The place of the first character at or behind `from` that is no digit,
/// or the length of the text if only digits follow.
pub open spec fn digits_end(text: Seq<char>, from: int) -> int
    decreases text.len() - from,
{
    if 0 <= from < text.len() && is_digit(text[from]) {
        digits_end(text, from + 1)
    } else {
        from
    }
}

/// Whether a text is an exponent: `e` or `E`, an optional sign, and one or
/// more digits.
pub open spec fn is_exponent(text: Seq<char>) -> bool {
    &&& text.len() >= 2
    &&& is_letter(text[0], 'e')
    &&& {
        let start: int = if text[1] == '+' || text[1] == '-' {
            2
        } else {
            1
        };
        start < text.len() && digits_end(text, start) == text.len()
    }
}

/// Whether a text is an unsigned decimal number: digits with at most one
/// point among them and at least one digit, and maybe an exponent behind.
pub open spec fn is_number(text: Seq<char>) -> bool {
    let whole = digits_end(text, 0);
    let pointed = whole < text.len() && text[whole] == '.';
    let end = if pointed {
        digits_end(text, whole + 1)
    } else {
        whole
    };
    let digits = if pointed {
        end - 1
    } else {
        end
    };
    digits > 0 && (end == text.len() || is_exponent(text.skip(end)))
}

/// Whether a text spells a floating-point number: an optional sign, and then
/// `inf`, `infinity` or `nan` in any case, or an unsigned decimal number.
pub open spec fn is_fraction(text: Seq<char>) -> bool {
    let body = if text.len() > 0 && (text[0] == '+' || text[0] == '-') {
        text.skip(1)
    } else {
        text
    };
    ||| is_word(body, seq!['i', 'n', 'f'])
    ||| is_word(body, seq!['i', 'n', 'f', 'i', 'n', 'i', 't', 'y'])
    ||| is_word(body, seq!['n', 'a', 'n'])
    ||| is_number(body)
}

/// What stands in the way of reading a text as a floating-point number.
pub open spec fn fraction_fault(text: Seq<char>) -> Option<FractionFault> {
    if text.len() == 0 {
        Some(FractionFault::Empty)
    } else if is_fraction(text) {
        None
    } else {
        Some(FractionFault::Invalid)
    }
}

/// The place of the first character at or behind `from` that is no digit.
fn skip_digits(text: &str, from: usize, len: usize) -> (end: usize)
    requires
        from <= len,
        len == text@.len(),
    ensures
        end == digits_end(text@, from as int),
        from <= end <= len,
{
    let mut i: usize = from;
    while i < len
        invariant
            from <= i <= len,
            len == text@.len(),
            digits_end(text@, from as int) == digits_end(text@, i as int),
        decreases len - i,
    {
        let c: char = text.get_char(i);
        if c < '0' || c > '9' {
            return i;
        }
        i = i + 1;
    }
    i
}

/// Whether the text from `from` on is `word`, whatever the case of its
/// letters.
fn matches_word(text: &str, from: usize, len: usize, word: &str) -> (r: bool)
    requires
        from <= len,
        len == text@.len(),
        forall|i: int| 0 <= i < word@.len() ==> 'a' <= #[trigger] word@[i] <= 'z',
    ensures
        r == is_word(text@.skip(from as int), word@),
{
    let n: usize = word.unicode_len();
    if len - from != n {
        return false;
    }
    let ghost body = text@.skip(from as int);
    let mut i: usize = 0;
    while i < n
        invariant
            i <= n,
            n == word@.len(),
            len == text@.len(),
            len - from == n,
            body == text@.skip(from as int),
            forall|k: int| 0 <= k < word@.len() ==> 'a' <= #[trigger] word@[k] <= 'z',
            forall|k: int| 0 <= k < i ==> is_letter(#[trigger] body[k], word@[k]),
        decreases n - i,
    {
        let c: char = text.get_char(from + i);
        let w: char = word.get_char(i);
        assert(body[i as int] == c);
        let same: bool = c == w || (c as u32) + 32 == (w as u32);
        if !same {
            return false;
        }
        i = i + 1;
    }
    true
}

/// Whether the text from `from` on is one of the words for a number that
/// has no digits.
fn special_follows(text: &str, from: usize, len: usize) -> (r: bool)
    requires
        from <= len,
        len == text@.len(),
    ensures
        r == ({
            let body = text@.skip(from as int);
            ||| is_word(body, seq!['i', 'n', 'f'])
            ||| is_word(body, seq!['i', 'n', 'f', 'i', 'n', 'i', 't', 'y'])
            ||| is_word(body, seq!['n', 'a', 'n'])
        }),
{
    proof {
        reveal_strlit("inf");
        reveal_strlit("infinity");
        reveal_strlit("nan");
        assert("inf"@ =~= seq!['i', 'n', 'f']);
        assert("infinity"@ =~= seq!['i', 'n', 'f', 'i', 'n', 'i', 't', 'y']);
        assert("nan"@ =~= seq!['n', 'a', 'n']);
    }
    matches_word(text, from, len, "inf") || matches_word(text, from, len, "infinity")
        || matches_word(text, from, len, "nan")
}

/// Whether the text from `from` on is an exponent.
fn exponent_follows(text: &str, from: usize, len: usize) -> (r: bool)
    requires
        from <= len,
        len == text@.len(),
    ensures
        r == is_exponent(text@.skip(from as int)),
{
    let ghost tail = text@.skip(from as int);
    if len - from < 2 {
        return false;
    }
    let mark: char = text.get_char(from);
    assert(tail[0] == mark);
    if !(mark == 'e' || mark == 'E') {
        return false;
    }
    let sign: char = text.get_char(from + 1);
    assert(tail[1] == sign);
    let start: usize = if sign == '+' || sign == '-' {
        from + 2
    } else {
        from + 1
    };
    if start >= len {
        return false;
    }
    let stop: usize = skip_digits(text, start, len);
    proof {
        lemma_digits_end_skip(text@, from as int, start as int);
    }
    stop == len
}

/// Whether the text from `from` on is an unsigned decimal number.
fn number_follows(text: &str, from: usize, len: usize) -> (r: bool)
    requires
        from <= len,
        len == text@.len(),
    ensures
        r == is_number(text@.skip(from as int)),
{
    let ghost body = text@.skip(from as int);
    let whole: usize = skip_digits(text, from, len);
    proof {
        lemma_digits_end_skip(text@, from as int, from as int);
        if whole < len {
            assert(body[whole - from] == text@[whole as int]);
        }
    }
    let pointed: bool = whole < len && text.get_char(whole) == '.';
    let end: usize = if pointed {
        skip_digits(text, whole + 1, len)
    } else {
        whole
    };
    proof {
        if pointed {
            lemma_digits_end_skip(text@, from as int, whole + 1);
        }
        assert(body.skip(end - from) =~= text@.skip(end as int));
    }
    let digits: usize = if pointed {
        end - from - 1
    } else {
        end - from
    };
    digits > 0 && (end == len || exponent_follows(text, end, len))
}

/// Says whether a text spells a floating-point number, and if not, why.
pub fn check_fraction(text: &str) -> (r: Result<(), FractionFault>)
    ensures
        fraction_fault(text@) is None ==> r is Ok,
        fraction_fault(text@) matches Some(fault) ==> r == Err::<(), FractionFault>(fault),
{
    let len: usize = text.unicode_len();
    if len == 0 {
        return Err(FractionFault::Empty);
    }
    let first: char = text.get_char(0);
    let from: usize = if first == '+' || first == '-' {
        1
    } else {
        0
    };
    proof {
        assert(text@.skip(0) =~= text@);
    }
    if special_follows(text, from, len) || number_follows(text, from, len) {
        Ok(())
    } else {
        Err(FractionFault::Invalid)
    }
}

/// Digits end at the same character whether the text is looked at whole or
/// from `cut` on.
proof fn lemma_digits_end_skip(text: Seq<char>, cut: int, from: int)
    requires
        0 <= cut <= from <= text.len(),
    ensures
        digits_end(text.skip(cut), from - cut) == digits_end(text, from) - cut,
    decreases text.len() - from,
{
    let tail = text.skip(cut);
    if from < text.len() {
        assert(tail[from - cut] == text[from]);
        if is_digit(text[from]) {
            lemma_digits_end_skip(text, cut, from + 1);
        }
    }
}

} // verus!
