//! What texts, identifiers and spans of time are, told by their characters, bits and nanoseconds.

use crate::ids::Uuid;
use crate::time::Duration;
use vstd::arithmetic::div_mod::{lemma_div_denominator, lemma_fundamental_div_mod};
use vstd::arithmetic::power::{lemma_pow_positive, pow};
use vstd::prelude::*;

verus! {

/// The code of a character of white space.
pub open spec fn is_white(code: int) -> bool {
    ||| 0x9 <= code <= 0xd
    ||| code == 0x20
    ||| code == 0x85
    ||| code == 0xa0
    ||| code == 0x1680
    ||| 0x2000 <= code <= 0x200a
    ||| code == 0x2028
    ||| code == 0x2029
    ||| code == 0x202f
    ||| code == 0x205f
    ||| code == 0x3000
}

/// A text is blank exactly when each of its characters is white space, so one text after another is
/// blank exactly when both are.
pub proof fn law_a_text_is_blank_character_by_character(
    first: &str,
    second: &str,
    both: &str,
    r1: bool,
    r2: bool,
    r: bool,
)
    requires
        call_ensures(crate::text::blank, (first,), r1),
        call_ensures(crate::text::blank, (second,), r2),
        call_ensures(crate::text::blank, (both,), r),
        both@ == first@ + second@,
    ensures
        r1 <==> forall|i: int| 0 <= i < first@.len() ==> is_white(#[trigger] first@[i] as int),
        r <==> r1 && r2,
{
    assert forall|i: int| 0 <= i < first@.len() implies (is_white(#[trigger] first@[i] as int)
        <==> crate::text::is_white_space(first@[i])) by {}
    if r {
        assert forall|i: int| 0 <= i < first@.len() implies crate::text::is_white_space(
            #[trigger] first@[i],
        ) by {
            assert(both@[i] == first@[i]);
        }
        assert forall|i: int| 0 <= i < second@.len() implies crate::text::is_white_space(
            #[trigger] second@[i],
        ) by {
            assert(both@[first@.len() + i] == second@[i]);
        }
    }
    if r1 && r2 {
        assert forall|i: int| 0 <= i < both@.len() implies crate::text::is_white_space(
            #[trigger] both@[i],
        ) by {
            if i < first@.len() {
                assert(both@[i] == first@[i]);
            } else {
                assert(both@[i] == second@[i - first@.len()]);
            }
        }
    }
}

/// The number that decimal digits stand for.
pub open spec fn number_of(digits: Seq<char>) -> int
    decreases digits.len(),
{
    if digits.len() == 0 {
        0
    } else {
        number_of(digits.drop_last()) * 10 + (digits.last() as int - '0' as int)
    }
}

/// The decimal text of a number is made of digits, reads as the number, and begins with a zero only
/// if it is nothing else. It is put behind the text that is there.
pub proof fn law_decimals_read_as_their_number(text: &mut String, n: u8)
    requires
        call_ensures(crate::text::append_decimal, (text, n), ()),
    ensures
        final(text)@ == old(text)@ + crate::text::decimal(n),
        crate::text::decimal(n).len() > 0,
        forall|i: int|
            0 <= i < crate::text::decimal(n).len() ==> '0' <= #[trigger] crate::text::decimal(n)[i]
                <= '9',
        crate::text::decimal(n).len() > 1 ==> crate::text::decimal(n)[0] != '0',
        number_of(crate::text::decimal(n)) == n,
{
    let digits = seq!['0', '1', '2', '3', '4', '5', '6', '7', '8', '9'];
    assert forall|k: int| 0 <= k < 10 implies #[trigger] digits[k] as int == k + '0' as int by {}
    let d = crate::text::decimal(n);
    let ones = digits[n as int % 10];
    let tens = digits[n as int / 10 % 10];
    let hundreds = digits[n as int / 100];
    reveal_with_fuel(number_of, 4);
    if n < 10 {
        assert(d.drop_last() =~= seq![]);
    } else if n < 100 {
        assert(d.drop_last() =~= seq![tens]);
        assert(seq![tens].drop_last() =~= seq![]);
    } else {
        assert(d.drop_last() =~= seq![hundreds, tens]);
        assert(seq![hundreds, tens].drop_last() =~= seq![hundreds]);
        assert(seq![hundreds].drop_last() =~= seq![]);
    }
}

/// The text of an identifier has 36 characters: hyphens at four places, and lower-case hexadecimal
/// digits everywhere else.
pub proof fn law_an_identifier_is_written_in_groups(id: Uuid, r: String)
    requires
        call_ensures(Uuid::to_text, (&id,), r),
    ensures
        r@.len() == 36,
        forall|i: int|
            0 <= i < 36 ==> (#[trigger] r@[i] == '-' <==> i == 8 || i == 13 || i == 18 || i == 23),
        forall|i: int|
            0 <= i < 36 && #[trigger] r@[i] != '-' ==> '0' <= r@[i] <= '9' || 'a' <= r@[i] <= 'f',
{
    let digits = seq![
        '0', '1', '2', '3', '4', '5', '6', '7', '8', '9', 'a', 'b', 'c', 'd', 'e', 'f',
    ];
    assert forall|k: int| 0 <= k < 16 implies ('0' <= #[trigger] digits[k] <= '9' || 'a'
        <= digits[k] <= 'f') by {}
    assert forall|i: int|
        0 <= i < 36 && i != 8 && i != 13 && i != 18 && i != 23 implies exists|k: int|
        0 <= k < 16 && #[trigger] r@[i] == #[trigger] digits[k] by {
        let d = id.bits as int / pow(16, (31 - (i - crate::ids::hyphens_before(i))) as nat) % 16;
        assert(r@[i] == digits[d]);
    }
}

/// The first `k` digits of two identifiers are the same, so the bits that these show are too.
proof fn lemma_same_digits(a: u128, b: u128, k: int)
    requires
        crate::ids::hyphenated(a) == crate::ids::hyphenated(b),
        0 <= k <= 32,
    ensures
        a as int / pow(16, (32 - k) as nat) == b as int / pow(16, (32 - k) as nat),
    decreases k,
{
    if k == 0 {
        reveal_with_fuel(pow, 33);
        assert(pow(16, 32) == 0x1_0000_0000_0000_0000_0000_0000_0000_0000);
        vstd::arithmetic::div_mod::lemma_basic_div(a as int, pow(16, 32));
        vstd::arithmetic::div_mod::lemma_basic_div(b as int, pow(16, 32));
    } else {
        lemma_same_digits(a, b, k - 1);
        let m = pow(16, (32 - k) as nat);
        lemma_pow_positive(16, (32 - k) as nat);
        reveal_with_fuel(pow, 2);
        assert(pow(16, (32 - (k - 1)) as nat) == 16 * m);
        vstd::arithmetic::mul::lemma_mul_is_commutative(16, m);
        lemma_div_denominator(a as int, m, 16);
        lemma_div_denominator(b as int, m, 16);
        lemma_fundamental_div_mod(a as int / m, 16);
        lemma_fundamental_div_mod(b as int / m, 16);
        let digit = k - 1;
        let at = if digit < 8 {
            digit
        } else if digit < 12 {
            digit + 1
        } else if digit < 16 {
            digit + 2
        } else if digit < 20 {
            digit + 3
        } else {
            digit + 4
        };
        assert(at - crate::ids::hyphens_before(at) == digit);
        assert(crate::ids::hyphenated(a)[at] == crate::ids::hyphenated(b)[at]);
        assert(31 - digit == 32 - k);
        assert(crate::ids::hyphenated(a)[at] == crate::ids::hex_digit(a, digit));
        assert(crate::ids::hyphenated(b)[at] == crate::ids::hex_digit(b, digit));
        lemma_digits_differ(a as int / m % 16, b as int / m % 16);
    }
}

proof fn lemma_digits_differ(i: int, j: int)
    requires
        0 <= i < 16,
        0 <= j < 16,
        seq![
            '0', '1', '2', '3', '4', '5', '6', '7', '8', '9', 'a', 'b', 'c', 'd', 'e', 'f',
        ][i] == seq![
            '0', '1', '2', '3', '4', '5', '6', '7', '8', '9', 'a', 'b', 'c', 'd', 'e', 'f',
        ][j],
    ensures
        i == j,
{
}

/// Identifiers with the same text are the same.
pub proof fn law_a_text_belongs_to_one_identifier(a: Uuid, b: Uuid, r1: String, r2: String)
    requires
        call_ensures(Uuid::to_text, (&a,), r1),
        call_ensures(Uuid::to_text, (&b,), r2),
    ensures
        r1@ == r2@ <==> a.bits == b.bits,
{
    if r1@ == r2@ {
        lemma_same_digits(a.bits, b.bits, 32);
        reveal_with_fuel(pow, 1);
        assert(pow(16, 0) == 1);
    }
}

/// An identifier has the bits that it is made of; the nil one has none.
pub proof fn law_an_identifier_has_its_bits(bits: u128, r: Uuid, nil: Uuid)
    requires
        call_ensures(Uuid::from_u128, (bits,), r),
        call_ensures(Uuid::nil, (), nil),
    ensures
        r.bits == bits,
        nil.bits == 0,
{
}

/// The whole span in nanoseconds.
pub open spec fn total_nanos(span: Duration) -> int {
    span.secs * 1_000_000_000 + span.nanos
}

/// A span is as long as the seconds or milliseconds that it is made of, and has less than a second
/// of nanoseconds beyond its seconds.
pub proof fn law_a_span_is_as_long_as_it_says(n: u64, from_secs: Duration, from_millis: Duration)
    requires
        call_ensures(Duration::from_secs, (n,), from_secs),
        call_ensures(Duration::from_millis, (n,), from_millis),
    ensures
        total_nanos(from_secs) == n * 1_000_000_000,
        total_nanos(from_millis) == n * 1_000_000,
        from_secs.nanos < 1_000_000_000,
        from_millis.nanos < 1_000_000_000,
{
}

/// The microseconds of a span are as many as are in it whole; nothing is left over exactly when
/// they make up the span.
pub proof fn law_micros_are_counted_whole(span: Duration, micros: u128, whole: bool)
    requires
        call_ensures(Duration::as_micros, (&span,), micros),
        call_ensures(Duration::whole_micros, (&span,), whole),
    ensures
        micros * 1000 <= total_nanos(span) < micros * 1000 + 1000,
        whole <==> micros * 1000 == total_nanos(span),
{
}

} // verus!
