//! Fixed-capacity strings of the enclave records.
//!
//! Every textual field of a record is a `heapless::String<256>`: it lives
//! inline in the record and never holds more than 256 bytes of UTF-8.
//! Verus sees such a string only through `text_of`, the characters it holds.
use vstd::prelude::*;
use vstd::string::StringSliceAdditionalSpecFns;

verus! {

#[verifier::external_type_specification]
#[verifier::external_body]
pub struct ExHeaplessString<const N: usize>(heapless::String<N>);

/// The capacity, in bytes, of every text field of a record.
pub const TEXT_CAPACITY: usize = 256;

/// The text type of the records: a string of at most 256 bytes.
pub type Text = heapless::String<256>;

/// The characters that a `heapless::String<256>` holds.
pub uninterp spec fn text_of(s: heapless::String<256>) -> Seq<char>;

/// The character of a decimal digit `d` (0 to 9).
pub open spec fn digit_char(d: int) -> char {
    (d + 48) as char
}

/// The decimal digits of a natural number, most significant first, without
/// leading zeros (zero itself is the single digit `0`).
pub open spec fn natural_digits(n: nat) -> Seq<char>
    decreases n,
{
    if n < 10 {
        seq![digit_char(n as int)]
    } else {
        natural_digits(n / 10).push(digit_char((n % 10) as int))
    }
}

/// The text of an integer in decimal: a `-` before the digits of its
/// magnitude when it is negative.
pub open spec fn decimal_text(v: int) -> Seq<char> {
    if v < 0 {
        seq!['-'] + natural_digits((-v) as nat)
    } else {
        natural_digits(v as nat)
    }
}

/// Whether `c` is one of the decimal digits `0` to `9`.
pub open spec fn is_digit(c: char) -> bool {
    '0' <= c && c <= '9'
}

/// The number that a sequence of decimal digits denotes, most significant
/// first (zero for the empty sequence).
pub open spec fn digits_value(s: Seq<char>) -> int
    decreases s.len(),
{
    if s.len() == 0 {
        0
    } else {
        digits_value(s.drop_last()) * 10 + (s.last() as int - 48)
    }
}

/// The number that a decimal text denotes: a leading `-` negates the digits
/// after it.
pub open spec fn read_decimal(s: Seq<char>) -> int {
    if s.len() > 0 && s[0] == '-' {
        -digits_value(s.drop_first())
    } else {
        digits_value(s)
    }
}

/// The digits of a natural number are a non-empty sequence of decimal
/// digits that denotes the number.
pub proof fn lemma_natural_digits_denote(n: nat)
    ensures
        natural_digits(n).len() >= 1,
        forall|i: int| 0 <= i < natural_digits(n).len() ==> is_digit(#[trigger] natural_digits(n)[i]),
        digits_value(natural_digits(n)) == n,
    decreases n,
{
    if n < 10 {
        let s = natural_digits(n);
        assert(s.drop_last() =~= Seq::<char>::empty());
        assert(digits_value(Seq::<char>::empty()) == 0);
        assert(s.last() == digit_char(n as int));
        assert(digit_char(n as int) as int == n + 48);
        assert(digits_value(s) == digits_value(s.drop_last()) * 10 + (s.last() as int - 48));
    } else {
        lemma_natural_digits_denote(n / 10);
        let s = natural_digits(n);
        assert(s.drop_last() =~= natural_digits(n / 10));
        assert(s.last() == digit_char((n % 10) as int));
        assert(digit_char((n % 10) as int) as int == (n % 10) + 48);
        assert(digits_value(s) == digits_value(s.drop_last()) * 10 + (s.last() as int - 48));
        assert((n / 10) * 10 + n % 10 == n);
    }
}

/// Decimal text reads back: the text of every integer denotes that integer,
/// so distinct integers have distinct texts.
pub proof fn lemma_decimal_text_reads_back(v: int)
    ensures
        read_decimal(decimal_text(v)) == v,
        decimal_text(v).len() >= 1,
{
    if v < 0 {
        let n = (-v) as nat;
        lemma_natural_digits_denote(n);
        assert((seq!['-'] + natural_digits(n)).drop_first() =~= natural_digits(n));
    } else {
        lemma_natural_digits_denote(v as nat);
        assert(is_digit(natural_digits(v as nat)[0]));
    }
}

/// Trusted: `heapless::String::<256>::from(&str)`. It copies the bytes of `s`
/// into a new string, and panics when they do not fit in 256 bytes, which
/// `requires` rules out. The new string holds exactly the characters of `s`.
#[verifier::external_body]
pub(crate) fn text_from_str(s: &str) -> (r: Text)
    requires
        s.spec_bytes().len() <= TEXT_CAPACITY,
    ensures
        text_of(r) == s@,
{
    heapless::String::from(s)
}

/// Trusted: `heapless::String::<256>::from(i32)`. It writes the value with
/// `core::fmt`'s `{}` formatting of `i32` (decimal, a leading `-` when
/// negative); at most 11 bytes, so the `unwrap` in it never fires.
#[verifier::external_body]
pub(crate) fn text_from_i32(v: i32) -> (r: Text)
    ensures
        text_of(r) == decimal_text(v as int),
{
    heapless::String::from(v)
}

/// Trusted: `PartialEq::eq` of `heapless::String`, which compares the two
/// strings as `str`: true exactly when they hold the same characters.
#[verifier::external_body]
pub(crate) fn text_eq(a: &Text, b: &Text) -> (r: bool)
    ensures
        r == (text_of(*a) == text_of(*b)),
{
    a == b
}

/// Trusted: `Clone::clone` of `heapless::String`, which copies the bytes: the
/// copy holds the same characters.
#[verifier::external_body]
pub(crate) fn text_clone(a: &Text) -> (r: Text)
    ensures
        text_of(r) == text_of(*a),
{
    a.clone()
}

} // verus!
