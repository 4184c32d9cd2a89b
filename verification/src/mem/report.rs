//! Human-readable rendering of byte counts in binary (IEC) units.

use crate::mem::ledger::tagged_allocation;
use crate::mem::ledger::total_allocation;
use crate::mem::ledger::Counts;
use crate::mem::ledger::Ledger;
use crate::mem::tag::tag_at;
use crate::mem::tag::tag_name;
use crate::mem::tag::MemoryTag;
use crate::mem::tag::TAG_COUNT;
use vstd::prelude::*;
use vstd::string::StrSliceExecFns;
use vstd::string::StringExecFns;

verus! {

pub const KIB: u128 = 0x400;

pub const MIB: u128 = 0x10_0000;

pub const GIB: u128 = 0x4000_0000;

pub const TIB: u128 = 0x100_0000_0000;

pub const PIB: u128 = 0x4_0000_0000_0000;

pub const EIB: u128 = 0x1000_0000_0000_0000;

pub const ZIB: u128 = 0x40_0000_0000_0000_0000;

pub const YIB: u128 = 0x1_0000_0000_0000_0000_0000;

/// The character of a decimal digit.
pub open spec fn digit_char(d: nat) -> char {
    if d == 0 {
        '0'
    } else if d == 1 {
        '1'
    } else if d == 2 {
        '2'
    } else if d == 3 {
        '3'
    } else if d == 4 {
        '4'
    } else if d == 5 {
        '5'
    } else if d == 6 {
        '6'
    } else if d == 7 {
        '7'
    } else if d == 8 {
        '8'
    } else {
        '9'
    }
}

/// The decimal numeral of a natural number, without leading zeros.
pub open spec fn decimal(n: nat) -> Seq<char>
    decreases n,
{
    if n < 10 {
        seq![digit_char(n)]
    } else {
        decimal(n / 10).push(digit_char(n % 10))
    }
}

/// The digits after the decimal point of `num / den`, for a denominator that is a power
/// of two and a numerator below it. Each decimal place halves the denominator: the next
/// digit of `num / den` is the whole part of `5 * num / (den / 2)`, and what is left of
/// that division is the numerator of the places that follow. The expansion is exact and
/// ends when nothing is left.
pub open spec fn fraction_digits(num: nat, den: nat) -> Seq<char>
    decreases den,
{
    if num == 0 || den <= 1 {
        Seq::empty()
    } else {
        let half = den / 2;
        seq![digit_char(5 * num / half)] + fraction_digits(5 * num % half, half)
    }
}

/// The number that a decimal digit stands for.
pub open spec fn digit_value(c: char) -> nat {
    if c == '1' {
        1
    } else if c == '2' {
        2
    } else if c == '3' {
        3
    } else if c == '4' {
        4
    } else if c == '5' {
        5
    } else if c == '6' {
        6
    } else if c == '7' {
        7
    } else if c == '8' {
        8
    } else if c == '9' {
        9
    } else {
        0
    }
}

/// The number that a run of decimal digits stands for, read as a whole number.
pub open spec fn digits_value(digits: Seq<char>) -> nat
    decreases digits.len(),
{
    if digits.len() == 0 {
        0
    } else {
        10 * digits_value(digits.drop_last()) + digit_value(digits.last())
    }
}

/// Ten to the power of `places`.
pub open spec fn pow10(places: nat) -> nat
    decreases places,
{
    if places == 0 {
        1
    } else {
        10 * pow10((places - 1) as nat)
    }
}

/// A digit before a run of digits counts for as many powers of ten as the run is long.
proof fn lemma_value_of_prepended(digit: char, rest: Seq<char>)
    ensures
        digits_value(seq![digit] + rest) == digit_value(digit) * pow10(rest.len()) + digits_value(
            rest,
        ),
    decreases rest.len(),
{
    let all = seq![digit] + rest;
    let high = digit_value(digit);
    if rest.len() == 0 {
        assert(all.drop_last() =~= Seq::<char>::empty());
        assert(all.last() == digit);
        assert(digits_value(all) == 10 * digits_value(all.drop_last()) + high);
        assert(pow10(rest.len()) == 1);
        assert(high * pow10(rest.len()) == high) by (nonlinear_arith)
            requires
                pow10(rest.len()) == 1,
        ;
    } else {
        let shorter = pow10(rest.drop_last().len());
        assert(all.drop_last() =~= seq![digit] + rest.drop_last());
        assert(all.last() == rest.last());
        lemma_value_of_prepended(digit, rest.drop_last());
        assert(digits_value(all) == 10 * digits_value(all.drop_last()) + digit_value(rest.last()));
        assert(digits_value(rest) == 10 * digits_value(rest.drop_last()) + digit_value(
            rest.last(),
        ));
        assert(pow10(rest.len()) == 10 * shorter);
        assert(10 * (high * shorter) == high * pow10(rest.len())) by (nonlinear_arith)
            requires
                pow10(rest.len()) == 10 * shorter,
        ;
    }
}

/// The decimal numeral of a number stands for that number, has at least one digit, and
/// begins with a zero only where the number is zero.
pub proof fn lemma_decimal_value(n: nat)
    ensures
        digits_value(decimal(n)) == n,
        decimal(n).len() >= 1,
        n > 0 ==> decimal(n)[0] != '0',
    decreases n,
{
    if n < 10 {
        assert(decimal(n).drop_last() =~= Seq::<char>::empty());
        assert(digits_value(decimal(n).drop_last()) == 0);
    } else {
        lemma_decimal_value(n / 10);
        assert(decimal(n).drop_last() =~= decimal(n / 10));
        assert(decimal(n)[0] == decimal(n / 10)[0]);
    }
}

/// The fraction digits are exact: for a denominator that is a power of two and a
/// numerator below it, the digits, read as a whole number, are to the power of ten of
/// their count as the numerator is to the denominator. A numerator other than zero has
/// at least one digit.
pub proof fn lemma_fraction_value(num: nat, den: nat)
    requires
        power_of_two(den),
        num < den,
    ensures
        digits_value(fraction_digits(num, den)) * den == num * pow10(
            fraction_digits(num, den).len(),
        ),
        num > 0 ==> fraction_digits(num, den).len() >= 1,
    decreases den,
{
    if num == 0 || den <= 1 {
        assert(digits_value(fraction_digits(num, den)) * den == 0) by (nonlinear_arith)
            requires
                digits_value(fraction_digits(num, den)) == 0,
        ;
        assert(num * pow10(0) == 0) by (nonlinear_arith)
            requires
                num == 0,
        ;
    } else {
        let half = den / 2;
        let digit = 5 * num / half;
        let left = 5 * num % half;
        assert(digit < 10 && left < half && 5 * num == half * digit + left) by (nonlinear_arith)
            requires
                digit == 5 * num / half,
                left == 5 * num % half,
                half >= 1,
                5 * num < 10 * half,
        ;
        lemma_fraction_value(left, half);
        let rest = fraction_digits(left, half);
        lemma_value_of_prepended(digit_char(digit), rest);
        let scale = pow10(rest.len());
        let value = digits_value(rest);
        assert((digit * scale + value) * den == num * (10 * scale)) by (nonlinear_arith)
            requires
                value * half == left * scale,
                5 * num == half * digit + left,
                den == 2 * half,
        ;
    }
}

/// Size in bytes of the largest unit that `bytes` reaches, down to the single byte.
pub open spec fn unit_size(bytes: u128) -> u128 {
    if bytes >= YIB {
        YIB
    } else if bytes >= ZIB {
        ZIB
    } else if bytes >= EIB {
        EIB
    } else if bytes >= PIB {
        PIB
    } else if bytes >= TIB {
        TIB
    } else if bytes >= GIB {
        GIB
    } else if bytes >= MIB {
        MIB
    } else if bytes >= KIB {
        KIB
    } else {
        1
    }
}

/// The unit's symbol as it follows the number, with the separating space.
pub open spec fn unit_suffix(unit: u128) -> Seq<char> {
    if unit == YIB {
        " YiB"@
    } else if unit == ZIB {
        " ZiB"@
    } else if unit == EIB {
        " EiB"@
    } else if unit == PIB {
        " PiB"@
    } else if unit == TIB {
        " TiB"@
    } else if unit == GIB {
        " GiB"@
    } else if unit == MIB {
        " MiB"@
    } else if unit == KIB {
        " KiB"@
    } else {
        " B"@
    }
}

/// The text of a byte count: the count divided by its unit, as a whole number where the
/// division is exact and with every digit of the fraction where it is not, then a space
/// and the unit's symbol.
pub open spec fn format_bytes_spec(bytes: u128) -> Seq<char> {
    let unit = unit_size(bytes);
    let whole = decimal((bytes / unit) as nat);
    let rest = (bytes % unit) as nat;
    if rest == 0 {
        whole + unit_suffix(unit)
    } else {
        whole + seq!['.'] + fraction_digits(rest, unit as nat) + unit_suffix(unit)
    }
}

/// Whether a number is a power of two.
pub open spec fn power_of_two(n: nat) -> bool
    decreases n,
{
    n == 1 || (n >= 2 && n % 2 == 0 && power_of_two(n / 2))
}

proof fn lemma_units_are_powers_of_two()
    ensures
        power_of_two(1),
        power_of_two(KIB as nat),
        power_of_two(MIB as nat),
        power_of_two(GIB as nat),
        power_of_two(TIB as nat),
        power_of_two(PIB as nat),
        power_of_two(EIB as nat),
        power_of_two(ZIB as nat),
        power_of_two(YIB as nat),
{
    reveal_with_fuel(power_of_two, 11);
    assert(power_of_two(KIB as nat));
    assert forall|n: nat| #[trigger] power_of_two(n) && n >= 1 implies power_of_two(1024 * n) by {
        assert(power_of_two(2 * n));
        assert(power_of_two(4 * n));
        assert(power_of_two(8 * n));
        assert(power_of_two(16 * n));
        assert(power_of_two(32 * n));
        assert(power_of_two(64 * n));
        assert(power_of_two(128 * n));
        assert(power_of_two(256 * n));
        assert(power_of_two(512 * n));
        assert(power_of_two(1024 * n));
    }
    assert(MIB == 1024 * KIB);
    assert(power_of_two(MIB as nat));
    assert(GIB == 1024 * MIB);
    assert(power_of_two(GIB as nat));
    assert(TIB == 1024 * GIB);
    assert(power_of_two(TIB as nat));
    assert(PIB == 1024 * TIB);
    assert(power_of_two(PIB as nat));
    assert(EIB == 1024 * PIB);
    assert(power_of_two(EIB as nat));
    assert(ZIB == 1024 * EIB);
    assert(power_of_two(ZIB as nat));
    assert(YIB == 1024 * ZIB);
    assert(power_of_two(YIB as nat));
}

/// The unit of a byte count is the largest that the count reaches: it is a power of
/// two, a count of at least one byte is at least one unit, and a count below the
/// largest unit is less than 1024 units.
pub proof fn lemma_unit_is_largest(bytes: u128)
    ensures
        power_of_two(unit_size(bytes) as nat),
        1 <= unit_size(bytes) <= YIB,
        bytes >= 1 ==> unit_size(bytes) <= bytes,
        unit_size(bytes) < YIB ==> bytes < 1024 * unit_size(bytes),
{
    lemma_units_are_powers_of_two();
}

fn digit_str(d: u128) -> (s: &'static str)
    requires
        d < 10,
    ensures
        s@ == seq![digit_char(d as nat)],
{
    proof {
        reveal_strlit("0");
        reveal_strlit("1");
        reveal_strlit("2");
        reveal_strlit("3");
        reveal_strlit("4");
        reveal_strlit("5");
        reveal_strlit("6");
        reveal_strlit("7");
        reveal_strlit("8");
        reveal_strlit("9");
    }
    let s = if d == 0 {
        "0"
    } else if d == 1 {
        "1"
    } else if d == 2 {
        "2"
    } else if d == 3 {
        "3"
    } else if d == 4 {
        "4"
    } else if d == 5 {
        "5"
    } else if d == 6 {
        "6"
    } else if d == 7 {
        "7"
    } else if d == 8 {
        "8"
    } else {
        "9"
    };
    assert(s@ =~= seq![digit_char(d as nat)]);
    s
}

/// Appends the decimal numeral of `n`.
pub(crate) fn push_decimal(out: &mut String, n: u128)
    ensures
        final(out)@ == old(out)@ + decimal(n as nat),
    decreases n,
{
    if n >= 10 {
        push_decimal(out, n / 10);
    }
    out.append(digit_str(n % 10));
    assert(out@ =~= old(out)@ + decimal(n as nat));
}

/// Appends the digits after the decimal point of `num / den`.
fn push_fraction(out: &mut String, num: u128, den: u128)
    requires
        num < den <= YIB,
        power_of_two(den as nat),
    ensures
        final(out)@ == old(out)@ + fraction_digits(num as nat, den as nat),
{
    let mut n = num;
    let mut d = den;
    assert(out@ + fraction_digits(n as nat, d as nat) =~= old(out)@ + fraction_digits(
        num as nat,
        den as nat,
    ));
    while n != 0
        invariant
            n < d <= YIB,
            power_of_two(d as nat),
            out@ + fraction_digits(n as nat, d as nat) == old(out)@ + fraction_digits(
                num as nat,
                den as nat,
            ),
        decreases d,
    {
        let half = d / 2;
        let scaled = 5 * n;
        assert(half >= 1 && d == 2 * half);
        let digit = scaled / half;
        let left = scaled % half;
        assert(digit < 10 && left < half) by (nonlinear_arith)
            requires
                digit == scaled / half,
                left == scaled % half,
                half >= 1,
                scaled < 10 * half,
        ;
        let ghost before = out@;
        out.append(digit_str(digit));
        assert(out@ + fraction_digits(left as nat, half as nat) =~= before + fraction_digits(
            n as nat,
            d as nat,
        ));
        n = left;
        d = half;
    }
    assert(out@ + fraction_digits(n as nat, d as nat) =~= out@);
}

/// The largest unit that `bytes` reaches, with its symbol.
fn select_unit(bytes: u128) -> (unit: (u128, &'static str))
    ensures
        unit.0 == unit_size(bytes),
        unit.1@ == unit_suffix(unit.0),
        1 <= unit.0 <= YIB,
        power_of_two(unit.0 as nat),
{
    proof {
        lemma_units_are_powers_of_two();
    }
    if bytes >= YIB {
        (YIB, " YiB")
    } else if bytes >= ZIB {
        (ZIB, " ZiB")
    } else if bytes >= EIB {
        (EIB, " EiB")
    } else if bytes >= PIB {
        (PIB, " PiB")
    } else if bytes >= TIB {
        (TIB, " TiB")
    } else if bytes >= GIB {
        (GIB, " GiB")
    } else if bytes >= MIB {
        (MIB, " MiB")
    } else if bytes >= KIB {
        (KIB, " KiB")
    } else {
        (1, " B")
    }
}

/// Renders a byte count in the largest binary unit that it reaches: `0 B`, `1 KiB`,
/// `1.5 KiB`. A count that is not a whole number of units is written with its exact
/// decimal fraction.
pub fn format_bytes(bytes: u128) -> (text: String)
    ensures
        text@ == format_bytes_spec(bytes),
{
    let (unit, suffix) = select_unit(bytes);
    let mut text = String::new();
    push_decimal(&mut text, bytes / unit);
    let rest = bytes % unit;
    if rest != 0 {
        text.append(".");
        proof {
            reveal_strlit(".");
            assert("."@ =~= seq!['.']);
        }
        push_fraction(&mut text, rest, unit);
    }
    text.append(suffix);
    assert(text@ =~= format_bytes_spec(bytes));
    text
}


/// Width of the label column of a usage report: the length of the longest label.
pub const LABEL_WIDTH: usize = 16;

/// Width of the amount column that the rule of a usage report spans: the length of the
/// longest amount that is a whole number of units, fifteen digits, a space and a symbol
/// of three letters.
pub const AMOUNT_WIDTH: usize = 19;

/// A run of one character.
pub open spec fn repeated(c: char, count: nat) -> Seq<char> {
    Seq::new(count, |i: int| c)
}

/// A label set flush right in the label column. A label longer than the column is not
/// cut.
pub open spec fn aligned(label: Seq<char>) -> Seq<char> {
    if label.len() < LABEL_WIDTH {
        repeated(' ', (LABEL_WIDTH - label.len()) as nat) + label
    } else {
        label
    }
}

/// One row of a usage report: a tab, the label flush right, a colon and a space, the
/// amount, and a line feed.
pub open spec fn report_row(label: Seq<char>, bytes: u128) -> Seq<char> {
    seq!['\t'] + aligned(label) + seq![':', ' '] + format_bytes_spec(bytes) + seq!['\n']
}

/// The rows of the first `upto` tags, in enumeration order.
pub open spec fn tag_rows(tagged: Seq<u128>, upto: nat) -> Seq<char>
    decreases upto,
{
    if upto == 0 {
        Seq::empty()
    } else {
        let index = (upto - 1) as nat;
        tag_rows(tagged, index) + report_row(tag_name(tag_at(index).unwrap()), tagged[index as int])
    }
}

/// The rule between the tags and the total: a tab, dashes over the label column, the
/// separator and the amount column, and a line feed.
pub open spec fn report_rule() -> Seq<char> {
    seq!['\t'] + repeated('-', (LABEL_WIDTH + 2 + AMOUNT_WIDTH) as nat) + seq!['\n']
}

/// The usage report of a ledger: a heading, one row for each tag in enumeration order,
/// a rule, and a row for the total.
pub open spec fn memory_usage_spec(counts: Counts) -> Seq<char> {
    "System mempory use (tagged):\n"@ + tag_rows(counts.tagged, TAG_COUNT as nat) + report_rule()
        + report_row("Total"@, counts.total)
}

/// A numeral has no more digits than a power of ten that exceeds its number.
proof fn lemma_decimal_length(n: nat, places: nat)
    requires
        places >= 1,
        n < pow10(places),
    ensures
        decimal(n).len() <= places,
    decreases n,
{
    if n >= 10 {
        assert(places >= 2) by {
            if places == 1 {
                assert(pow10(1) == 10 * pow10(0));
            }
        }
        lemma_decimal_length(n / 10, (places - 1) as nat);
    }
}

/// The amount column holds every amount that is a whole number of units.
pub proof fn lemma_whole_amount_width(bytes: u128)
    requires
        bytes % unit_size(bytes) == 0,
    ensures
        format_bytes_spec(bytes).len() <= AMOUNT_WIDTH,
{
    reveal_strlit(" YiB");
    reveal_strlit(" ZiB");
    reveal_strlit(" EiB");
    reveal_strlit(" PiB");
    reveal_strlit(" TiB");
    reveal_strlit(" GiB");
    reveal_strlit(" MiB");
    reveal_strlit(" KiB");
    reveal_strlit(" B");
    let unit = unit_size(bytes);
    let whole = (bytes / unit) as nat;
    assert(whole < 0x1_0000_0000_0000) by {
        if unit == YIB {
            assert(bytes / YIB < 0x1_0000_0000_0000);
        } else if unit == ZIB {
            assert(bytes / ZIB < 1024);
        } else if unit == EIB {
            assert(bytes / EIB < 1024);
        } else if unit == PIB {
            assert(bytes / PIB < 1024);
        } else if unit == TIB {
            assert(bytes / TIB < 1024);
        } else if unit == GIB {
            assert(bytes / GIB < 1024);
        } else if unit == MIB {
            assert(bytes / MIB < 1024);
        } else if unit == KIB {
            assert(bytes / KIB < 1024);
        } else {
            assert(bytes / 1 < 1024);
        }
    }
    assert(pow10(15) == 1_000_000_000_000_000) by {
        reveal_with_fuel(pow10, 16);
    }
    lemma_decimal_length(whole, 15);
}

/// The label column is as wide as the longest label: no tag's name and not the label
/// of the total is longer, and the longest tag name fills it.
pub proof fn lemma_label_width(tag: MemoryTag)
    ensures
        tag_name(tag).len() <= LABEL_WIDTH,
        "Total"@.len() <= LABEL_WIDTH,
        tag_name(MemoryTag::BinarySearchTree).len() == LABEL_WIDTH,
{
    reveal_strlit("Unknown");
    reveal_strlit("Array");
    reveal_strlit("Vector");
    reveal_strlit("Map");
    reveal_strlit("CircularQueue");
    reveal_strlit("BinarySearchTree");
    reveal_strlit("String");
    reveal_strlit("Application");
    reveal_strlit("Job");
    reveal_strlit("Texture");
    reveal_strlit("Material");
    reveal_strlit("Renderer");
    reveal_strlit("Game");
    reveal_strlit("Transform");
    reveal_strlit("Entity");
    reveal_strlit("EntityNode");
    reveal_strlit("Scene");
    reveal_strlit("Total");
}

/// Appends `count` times the one character of `piece`.
fn push_repeated(out: &mut String, piece: &str, c: char, count: usize)
    requires
        piece@ == seq![c],
    ensures
        final(out)@ == old(out)@ + repeated(c, count as nat),
{
    let mut i: usize = 0;
    assert(out@ =~= old(out)@ + repeated(c, 0));
    while i < count
        invariant
            i <= count,
            piece@ == seq![c],
            out@ == old(out)@ + repeated(c, i as nat),
        decreases count - i,
    {
        out.append(piece);
        i = i + 1;
        assert(out@ =~= old(out)@ + repeated(c, i as nat));
    }
}

/// Appends one row of a usage report.
fn push_row(out: &mut String, label: &str, bytes: u128)
    ensures
        final(out)@ == old(out)@ + report_row(label@, bytes),
{
    proof {
        reveal_strlit("\t");
        reveal_strlit(" ");
        reveal_strlit(": ");
        reveal_strlit("\n");
    }
    out.append("\t");
    let len = label.unicode_len();
    if len < LABEL_WIDTH {
        assert(" "@ =~= seq![' ']);
        push_repeated(out, " ", ' ', LABEL_WIDTH - len);
    }
    out.append(label);
    out.append(": ");
    let amount = format_bytes(bytes);
    out.append(amount.as_str());
    out.append("\n");
    assert(out@ =~= old(out)@ + report_row(label@, bytes));
}

/// The usage report of the ledger: a heading, one row for each tag in enumeration
/// order, a rule of dashes, and a row for the total. The labels stand flush right in a
/// column as wide as the longest of them.
pub fn get_memory_usage(ledger: &Ledger) -> (report: String)
    requires
        ledger.wf(),
    ensures
        report@ == memory_usage_spec(ledger@),
{
    let mut out = String::from_str("System mempory use (tagged):\n");
    let mut i: usize = 0;
    assert(out@ =~= "System mempory use (tagged):\n"@ + tag_rows(ledger@.tagged, 0));
    while i < TAG_COUNT
        invariant
            i <= TAG_COUNT,
            ledger.wf(),
            out@ == "System mempory use (tagged):\n"@ + tag_rows(ledger@.tagged, i as nat),
        decreases TAG_COUNT - i,
    {
        match MemoryTag::from_repr(i) {
            Some(tag) => {
                let bytes = tagged_allocation(ledger, tag);
                push_row(&mut out, tag.name(), bytes);
            },
            None => {},
        }
        i = i + 1;
        assert(out@ =~= "System mempory use (tagged):\n"@ + tag_rows(ledger@.tagged, i as nat));
    }
    proof {
        reveal_strlit("\t");
        reveal_strlit("-");
        reveal_strlit("\n");
    }
    out.append("\t");
    assert("-"@ =~= seq!['-']);
    push_repeated(&mut out, "-", '-', LABEL_WIDTH + 2 + AMOUNT_WIDTH);
    out.append("\n");
    push_row(&mut out, "Total", total_allocation(ledger));
    assert(out@ =~= memory_usage_spec(ledger@));
    out
}

} // verus!
