//! Reading a disk size.

use vstd::prelude::*;

use crate::collections;
use crate::text;

verus! {

/// A disk size, as far as it can be read without rounding a fraction.
#[derive(Debug, PartialEq)]
pub enum Quantity {
    /// Whole MiB, rounded up.
    Mib(u32),
    /// A number with a fraction or an exponent, and the bytes in its unit.
    Decimal { number: String, unit_bytes: u64 },
}

#[verifier::ext_equal]
pub enum QuantityView {
    Mib(u32),
    Decimal { number: Seq<char>, unit_bytes: u64 },
}

impl View for Quantity {
    type V = QuantityView;

    open spec fn view(&self) -> QuantityView {
        match *self {
            Quantity::Mib(n) => QuantityView::Mib(n),
            Quantity::Decimal { number, unit_bytes } => QuantityView::Decimal {
                number: number@,
                unit_bytes,
            },
        }
    }
}

/// Why a text is no disk size. Each holds the text, trimmed.
#[derive(Debug, PartialEq)]
pub enum QuantityError {
    Invalid(String),
    Negative(String),
}

#[verifier::ext_equal]
pub enum QuantityErrorView {
    Invalid(Seq<char>),
    Negative(Seq<char>),
}

impl View for QuantityError {
    type V = QuantityErrorView;

    open spec fn view(&self) -> QuantityErrorView {
        match *self {
            QuantityError::Invalid(q) => QuantityErrorView::Invalid(q@),
            QuantityError::Negative(q) => QuantityErrorView::Negative(q@),
        }
    }
}

/// What a quantity error says.
pub open spec fn quantity_error_text(e: QuantityErrorView) -> Seq<char> {
    match e {
        QuantityErrorView::Invalid(q) => "invalid quantity "@ + text::debug_text(q),
        QuantityErrorView::Negative(q) => "quantity "@ + text::debug_text(q)
            + " must be non-negative"@,
    }
}

impl QuantityError {
    /// The error in words.
    pub fn message(&self) -> (out: String)
        ensures
            out@ == quantity_error_text(self@),
    {
        match self {
            QuantityError::Invalid(q) => "invalid quantity ".to_owned().concat(
                text::debug(q.as_str()).as_str(),
            ),
            QuantityError::Negative(q) => "quantity ".to_owned().concat(
                text::debug(q.as_str()).as_str(),
            ).concat(" must be non-negative"),
        }
    }
}

pub const GIB: u64 = 1_073_741_824;

pub const MIB: u64 = 1_048_576;

pub const KIB: u64 = 1024;

pub const GB: u64 = 1_000_000_000;

pub const MB: u64 = 1_000_000;

/// `q` without the last `n` characters.
pub open spec fn cut(q: Seq<char>, n: int) -> Seq<char> {
    q.take(q.len() - n)
}

/// A size's number, with the white space round it, and the bytes in its unit.
pub open spec fn number_and_unit(q: Seq<char>) -> (Seq<char>, u64) {
    if text::has_suffix(q, "Gi"@) {
        (cut(q, "Gi"@.len() as int), GIB)
    } else if text::has_suffix(q, "Mi"@) {
        (cut(q, "Mi"@.len() as int), MIB)
    } else if text::has_suffix(q, "Ki"@) {
        (cut(q, "Ki"@.len() as int), KIB)
    } else if text::has_suffix(q, "G"@) {
        (cut(q, "G"@.len() as int), GB)
    } else if text::has_suffix(q, "M"@) {
        (cut(q, "M"@.len() as int), MB)
    } else {
        (q, 1)
    }
}

fn split_unit(q: &str) -> (r: (String, u64))
    ensures
        (r.0@, r.1) == number_and_unit(q@),
{
    if let Some(n) = text::strip_suffix(q, "Gi") {
        (n, GIB)
    } else if let Some(n) = text::strip_suffix(q, "Mi") {
        (n, MIB)
    } else if let Some(n) = text::strip_suffix(q, "Ki") {
        (n, KIB)
    } else if let Some(n) = text::strip_suffix(q, "G") {
        (n, GB)
    } else if let Some(n) = text::strip_suffix(q, "M") {
        (n, MB)
    } else {
        (q.to_owned(), 1)
    }
}

/// Whether all characters are digits.
pub open spec fn only_digits(s: Seq<char>) -> bool {
    forall|i: int| 0 <= i < s.len() ==> text::is_digit(#[trigger] s[i])
}

fn has_only_digits(s: &str) -> (r: bool)
    ensures
        r == only_digits(s@),
{
    let chars = text::chars_of(s);
    let mut i: usize = 0;
    while i < chars.len()
        invariant
            i <= chars.len(),
            chars@ == s@,
            forall|k: int| 0 <= k < i ==> text::is_digit(#[trigger] chars@[k]),
        decreases chars.len() - i,
    {
        let c = chars[i];
        if !('0' <= c && c <= '9') {
            assert(!text::is_digit(s@[i as int]));
            return false;
        }
        i = i + 1;
    }
    true
}

/// Whether a number is marked as negative.
pub open spec fn is_negative(s: Seq<char>) -> bool {
    s.len() > 0 && s[0] == '-'
}

/// A number without its sign.
pub open spec fn magnitude(s: Seq<char>) -> Seq<char> {
    if s.len() > 0 && (s[0] == '-' || s[0] == '+') {
        s.skip(1)
    } else {
        s
    }
}

fn split_sign(s: &str) -> (r: (bool, String))
    ensures
        r.0 == is_negative(s@),
        r.1@ == magnitude(s@),
{
    proof {
        reveal_strlit("-");
        reveal_strlit("+");
    }
    if let Some(rest) = text::strip_prefix(s, "-") {
        assert(s@[0] == "-"@[0]);
        return (true, rest);
    }
    assert(s@.len() > 0 && s@[0] == '-' ==> s@.take(1) =~= "-"@);
    if let Some(rest) = text::strip_prefix(s, "+") {
        assert(s@[0] == "+"@[0]);
        return (false, rest);
    }
    assert(s@.len() > 0 && s@[0] == '+' ==> s@.take(1) =~= "+"@);
    (false, s.to_owned())
}

/// Whether `m` is digits with at most one point among them, and at least one digit.
pub open spec fn is_mantissa(m: Seq<char>) -> bool {
    match text::split_once_at(m, '.') {
        None => m.len() > 0 && only_digits(m),
        Some((whole, fraction)) => {
            &&& only_digits(whole)
            &&& only_digits(fraction)
            &&& whole.len() + fraction.len() > 0
        },
    }
}

/// Whether a number in lower case, without its sign, is written with digits: a
/// mantissa, and where there is an `e`, a whole number with or without a sign.
pub open spec fn is_decimal(s: Seq<char>) -> bool {
    match text::split_once_at(s, 'e') {
        None => is_mantissa(s),
        Some((m, e)) => {
            &&& is_mantissa(m)
            &&& magnitude(e).len() > 0
            &&& only_digits(magnitude(e))
        },
    }
}

fn mantissa(m: &str) -> (r: bool)
    ensures
        r == is_mantissa(m@),
{
    match text::split_once(m, '.') {
        None => !m.is_empty() && has_only_digits(m),
        Some((whole, fraction)) => has_only_digits(whole.as_str()) && has_only_digits(
            fraction.as_str(),
        ) && (!whole.as_str().is_empty() || !fraction.as_str().is_empty()),
    }
}

fn is_decimal_number(s: &str) -> (r: bool)
    ensures
        r == is_decimal(s@),
{
    match text::split_once(s, 'e') {
        None => mantissa(s),
        Some((m, e)) => {
            let (_, digits) = split_sign(e.as_str());
            mantissa(m.as_str()) && !digits.as_str().is_empty() && has_only_digits(
                digits.as_str(),
            )
        },
    }
}

/// The number before the exponent, where there is one.
pub open spec fn before_exponent(s: Seq<char>) -> Seq<char> {
    match text::split_once_at(s, 'e') {
        Some((m, _)) => m,
        None => s,
    }
}

/// Whether a number in lower case, without its sign, is zero: no digit before its
/// exponent is another.
pub open spec fn is_zero(s: Seq<char>) -> bool {
    forall|i: int|
        0 <= i < before_exponent(s).len() ==> #[trigger] before_exponent(s)[i] == '0'
            || before_exponent(s)[i] == '.'
}

fn zero(s: &str) -> (r: bool)
    ensures
        r == is_zero(s@),
{
    let head = match text::split_once(s, 'e') {
        Some((m, _)) => m,
        None => s.to_owned(),
    };
    let chars = text::chars_of(head.as_str());
    let mut i: usize = 0;
    while i < chars.len()
        invariant
            i <= chars.len(),
            chars@ == before_exponent(s@),
            forall|k: int|
                0 <= k < i ==> #[trigger] before_exponent(s@)[k] == '0' || before_exponent(s@)[k]
                    == '.',
        decreases chars.len() - i,
    {
        if chars[i] != '0' && chars[i] != '.' {
            assert(before_exponent(s@)[i as int] != '0');
            return false;
        }
        i = i + 1;
    }
    true
}

/// The number that a row of digits stands for.
pub open spec fn digits_value(s: Seq<char>) -> nat
    decreases s.len(),
{
    if s.len() == 0 {
        0
    } else {
        10 * digits_value(s.drop_last()) + (s.last() as nat - '0' as nat) as nat
    }
}

/// More digits stand for no smaller a number.
proof fn digits_value_grows(s: Seq<char>, n: int)
    requires
        0 <= n <= s.len(),
    ensures
        digits_value(s.take(n)) <= digits_value(s),
    decreases s.len(),
{
    if n == s.len() {
        assert(s.take(n) =~= s);
    } else {
        digits_value_grows(s.drop_last(), n);
        assert(s.drop_last().take(n) =~= s.take(n));
    }
}

/// A number of bytes that is too many for 32 bits of MiB, whatever its unit.
const TOO_MANY: u64 = 4_503_599_627_370_496;

/// The number that `s` stands for, or nothing where it is past the limit.
fn read_digits(s: &str) -> (r: Option<u64>)
    requires
        only_digits(s@),
    ensures
        r matches Some(n) ==> n == digits_value(s@) && n <= TOO_MANY,
        r is None ==> digits_value(s@) > TOO_MANY,
{
    let chars = text::chars_of(s);
    let mut n: u64 = 0;
    let mut i: usize = 0;
    assert(s@.take(0) =~= Seq::empty());
    while i < chars.len()
        invariant
            i <= chars.len(),
            chars@ == s@,
            only_digits(s@),
            n == digits_value(s@.take(i as int)),
            n <= TOO_MANY,
        decreases chars.len() - i,
    {
        let c = chars[i];
        assert(text::is_digit(s@[i as int]));
        proof {
            let t = s@.take(i + 1);
            assert(t.drop_last() =~= s@.take(i as int));
            assert(t.last() == s@[i as int]);
        }
        n = n * 10 + (c as u8 - 48) as u64;
        i = i + 1;
        if n > TOO_MANY {
            proof {
                digits_value_grows(s@, i as int);
            }
            return None;
        }
    }
    assert(s@.take(i as int) =~= s@);
    Some(n)
}

/// So many whole MiB, or as many as 32 bits hold.
pub open spec fn capped_mib(bytes: int) -> u32 {
    let mib = (bytes + MIB - 1) / (MIB as int);
    if mib > u32::MAX {
        u32::MAX
    } else {
        mib as u32
    }
}

fn mib_of(n: Option<u64>, unit: u64, Ghost(value): Ghost<nat>) -> (r: u32)
    requires
        n matches Some(v) ==> v == value && v <= TOO_MANY,
        n is None ==> value > TOO_MANY,
        1 <= unit <= GIB,
    ensures
        r == capped_mib(value * unit),
{
    match n {
        Some(v) => {
            assert(0 <= v * unit <= TOO_MANY * GIB) by (nonlinear_arith)
                requires
                    0 <= v <= TOO_MANY,
                    1 <= unit <= GIB,
            ;
            let bytes: u128 = v as u128 * unit as u128;
            let mib: u128 = (bytes + 1_048_575) / 1_048_576;
            if mib > 4_294_967_295 {
                u32::MAX
            } else {
                mib as u32
            }
        },
        None => {
            assert(value * unit >= value) by (nonlinear_arith)
                requires
                    1 <= unit,
                    value >= 0,
            ;
            u32::MAX
        },
    }
}

/// What comes of a disk size, given the whole text, trimmed: a number and a unit. The
/// number is a whole one, or has a fraction or an exponent, or stands for infinity,
/// which is as much as can be; a negative one, and what stands for no number, is
/// refused.
pub open spec fn quantity_outcome(q: Seq<char>) -> Result<QuantityView, QuantityErrorView> {
    let number = text::trimmed(number_and_unit(q).0);
    let unit = number_and_unit(q).1;
    let m = text::lowered(magnitude(number));
    if m.len() > 0 && only_digits(m) {
        if is_negative(number) && digits_value(m) > 0 {
            Err(QuantityErrorView::Negative(q))
        } else {
            Ok(QuantityView::Mib(capped_mib(digits_value(m) * unit)))
        }
    } else if m == "inf"@ || m == "infinity"@ {
        if is_negative(number) {
            Err(QuantityErrorView::Negative(q))
        } else {
            Ok(QuantityView::Mib(u32::MAX))
        }
    } else if m == "nan"@ {
        Err(QuantityErrorView::Negative(q))
    } else if is_decimal(m) {
        if is_negative(number) && !is_zero(m) {
            Err(QuantityErrorView::Negative(q))
        } else {
            Ok(QuantityView::Decimal { number, unit_bytes: unit })
        }
    } else {
        Err(QuantityErrorView::Invalid(q))
    }
}

/// Reads a disk size (`4Gi`, `512Mi`, `2G`) in whole MiB, rounded up. Only the
/// suffixes that a disk size sensibly has are known.
pub fn quantity_to_mib(size: &str) -> (r: Result<Quantity, QuantityError>)
    ensures
        collections::res(r) == quantity_outcome(text::trimmed(size@)),
{
    let q = text::trim(size);
    let (padded, unit_bytes) = split_unit(q.as_str());
    let number = text::trim(padded.as_str());
    let (negative, unsigned) = split_sign(number.as_str());
    let m = text::lower(unsigned.as_str());
    if !m.as_str().is_empty() && has_only_digits(m.as_str()) {
        let n = read_digits(m.as_str());
        if negative && !matches!(n, Some(0)) {
            return Err(QuantityError::Negative(q));
        }
        return Ok(Quantity::Mib(mib_of(n, unit_bytes, Ghost(digits_value(m@)))));
    }
    if text::same(m.as_str(), "inf") || text::same(m.as_str(), "infinity") {
        if negative {
            return Err(QuantityError::Negative(q));
        }
        return Ok(Quantity::Mib(u32::MAX));
    }
    if text::same(m.as_str(), "nan") {
        return Err(QuantityError::Negative(q));
    }
    if is_decimal_number(m.as_str()) {
        if negative && !zero(m.as_str()) {
            return Err(QuantityError::Negative(q));
        }
        return Ok(Quantity::Decimal { number, unit_bytes });
    }
    Err(QuantityError::Invalid(q))
}

/// A size in whole MiB is at least what the text asked for, and less than one MiB
/// more, where 32 bits can hold it.
pub proof fn rounding_is_up_and_tight(bytes: int)
    requires
        0 <= bytes <= u32::MAX * MIB,
    ensures
        capped_mib(bytes) * MIB >= bytes,
        capped_mib(bytes) * MIB < bytes + MIB,
{
}

/// A numeral stands for its number.
proof fn a_numeral_stands_for_its_number(n: nat)
    ensures
        only_digits(text::dec(n)),
        digits_value(text::dec(n)) == n,
        text::dec(n).len() > 0,
    decreases n,
{
    let s = text::dec(n);
    text::dec_nonempty(n);
    if n >= 10 {
        a_numeral_stands_for_its_number(n / 10);
        assert(s.drop_last() =~= text::dec(n / 10));
        assert(s.last() == text::digit(n % 10));
    } else {
        assert(s.drop_last() =~= Seq::empty());
        assert(digits_value(s.drop_last()) == 0);
        assert(s.last() == text::digit(n));
    }
}

/// Whether a disk size was read as so many bytes, in whole MiB, rounded up; what is too
/// much for 32 bits is as much as those hold.
pub open spec fn is_read_as(r: Result<QuantityView, QuantityErrorView>, bytes: int) -> bool {
    &&& r is Ok
    &&& r->Ok_0 is Mib
    &&& r->Ok_0->Mib_0 < u32::MAX ==> bytes <= r->Ok_0->Mib_0 * 1_048_576 < bytes + 1_048_576
    &&& r->Ok_0->Mib_0 == u32::MAX ==> bytes > (u32::MAX - 1) * 1_048_576
}

/// A whole size is read in the unit behind it: `Gi`, `Mi` and `Ki` are powers of 1024
/// bytes, `G` and `M` powers of 1000, and nothing is bytes.
pub proof fn a_whole_size_is_read_in_its_unit(n: nat)
    ensures
        is_read_as(quantity_outcome(text::dec(n) + "Gi"@), n as int * 1_073_741_824),
        is_read_as(quantity_outcome(text::dec(n) + "Mi"@), n as int * 1_048_576),
        is_read_as(quantity_outcome(text::dec(n) + "Ki"@), n as int * 1024),
        is_read_as(quantity_outcome(text::dec(n) + "G"@), n as int * 1_000_000_000),
        is_read_as(quantity_outcome(text::dec(n) + "M"@), n as int * 1_000_000),
        is_read_as(quantity_outcome(text::dec(n)), n as int),
{
    numbers_are_cut(n);
    a_whole_number_is_read(text::dec(n) + "Gi"@, n, GIB);
    a_whole_number_is_read(text::dec(n) + "Mi"@, n, MIB);
    a_whole_number_is_read(text::dec(n) + "Ki"@, n, KIB);
    a_whole_number_is_read(text::dec(n) + "G"@, n, GB);
    a_whole_number_is_read(text::dec(n) + "M"@, n, MB);
    a_whole_number_is_read(text::dec(n), n, 1);
}

/// What is read of a numeral and a unit.
proof fn a_whole_number_is_read(q: Seq<char>, n: nat, unit: u64)
    requires
        number_and_unit(q) == (text::dec(n), unit),
        unit >= 1,
    ensures
        is_read_as(quantity_outcome(q), n * unit),
{
    let s = text::dec(n);
    a_numeral_stands_for_its_number(n);
    assert(text::is_digit(s[0]));
    assert(text::is_digit(s.last()));
    assert(text::trimmed(s) == s);
    assert(magnitude(s) == s);
    assert(text::lowered(s) =~= s);
    assert(n * unit >= 0) by (nonlinear_arith)
        requires
            unit >= 1,
    ;
    assert(quantity_outcome(q) == Ok::<QuantityView, QuantityErrorView>(
        QuantityView::Mib(capped_mib(n * unit)),
    ));
}

/// A numeral and a unit are told apart.
proof fn numbers_are_cut(n: nat)
    ensures
        number_and_unit(text::dec(n) + "Gi"@) == (text::dec(n), GIB),
        number_and_unit(text::dec(n) + "Mi"@) == (text::dec(n), MIB),
        number_and_unit(text::dec(n) + "Ki"@) == (text::dec(n), KIB),
        number_and_unit(text::dec(n) + "G"@) == (text::dec(n), GB),
        number_and_unit(text::dec(n) + "M"@) == (text::dec(n), MB),
        number_and_unit(text::dec(n)) == (text::dec(n), 1u64),
{
    reveal_strlit("Gi");
    reveal_strlit("Mi");
    reveal_strlit("Ki");
    reveal_strlit("G");
    reveal_strlit("M");
    let s = text::dec(n);
    a_numeral_stands_for_its_number(n);
    assert(text::is_digit(s.last()));
    ends(s, "Gi"@);
    ends(s, "Mi"@);
    ends(s, "Ki"@);
    ends(s, "G"@);
    ends(s, "M"@);
    assert("Gi"@[0] == 'G' && "Mi"@[0] == 'M' && "Ki"@[0] == 'K');
    assert("Gi"@[1] == 'i' && "Mi"@[1] == 'i' && "Ki"@[1] == 'i');
    assert("G"@[0] == 'G' && "M"@[0] == 'M');
    not_ending(s + "Mi"@, "Gi"@, 0);
    not_ending(s + "Ki"@, "Gi"@, 0);
    not_ending(s + "Ki"@, "Mi"@, 0);
    not_ending(s + "G"@, "Gi"@, 1);
    not_ending(s + "G"@, "Mi"@, 1);
    not_ending(s + "G"@, "Ki"@, 1);
    not_ending(s + "M"@, "Gi"@, 1);
    not_ending(s + "M"@, "Mi"@, 1);
    not_ending(s + "M"@, "Ki"@, 1);
    not_ending(s + "M"@, "G"@, 0);
    if s.len() >= 2 {
        not_ending(s, "Gi"@, 1);
        not_ending(s, "Mi"@, 1);
        not_ending(s, "Ki"@, 1);
    }
    not_ending(s, "G"@, 0);
    not_ending(s, "M"@, 0);
}

/// What a text is, without the suffix that was put behind it.
proof fn ends(s: Seq<char>, suffix: Seq<char>)
    ensures
        text::has_suffix(s + suffix, suffix),
        cut(s + suffix, suffix.len() as int) == s,
{
    assert((s + suffix).skip(s.len() as int) =~= suffix);
    assert(cut(s + suffix, suffix.len() as int) =~= s);
}

/// A text does not end with what differs from its end.
proof fn not_ending(s: Seq<char>, suffix: Seq<char>, i: int)
    requires
        0 <= i < suffix.len() <= s.len(),
        s[s.len() - suffix.len() + i] != suffix[i],
    ensures
        !text::has_suffix(s, suffix),
{
    assert(s.skip(s.len() - suffix.len())[i] == s[s.len() - suffix.len() + i]);
}

/// A disk size below zero is refused, whatever its unit.
pub proof fn a_size_below_zero_is_refused(q: Seq<char>, n: nat, unit: u64)
    requires
        n > 0,
        number_and_unit(q) == (seq!['-'] + text::dec(n), unit),
    ensures
        quantity_outcome(q) == Err::<QuantityView, QuantityErrorView>(
            QuantityErrorView::Negative(q),
        ),
{
    let d = text::dec(n);
    let s = seq!['-'] + d;
    a_numeral_stands_for_its_number(n);
    assert(text::is_digit(d.last()));
    assert(s.last() == d.last());
    assert(s[0] == '-');
    assert(text::trimmed(s) == s);
    assert(s.skip(1) =~= d);
    assert(text::lowered(d) =~= d) by {
        assert forall|i: int| 0 <= i < d.len() implies text::lowered(d)[i] == d[i] by {
            assert(text::is_digit(d[i]));
        }
    }
}

} // verus!
