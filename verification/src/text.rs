//! Numbers as text: decimal, signed decimal and four-digit hexadecimal.

use vstd::prelude::*;

verus! {

/// The lower-case digit that stands for `d`.
pub open spec fn digit(d: int) -> char {
    "0123456789abcdef"@[d]
}

/// `n` in decimal, without leading zeros.
pub open spec fn decimal(n: nat) -> Seq<char>
    decreases n,
{
    if n < 10 {
        seq![digit(n as int)]
    } else {
        decimal(n / 10).push(digit((n % 10) as int))
    }
}

/// `n` in decimal, with a minus sign where it is negative.
pub open spec fn signed_decimal(n: int) -> Seq<char> {
    if n < 0 {
        seq!['-'] + decimal((-n) as nat)
    } else {
        decimal(n as nat)
    }
}

/// A 16-bit number in hexadecimal, as exactly four digits.
pub open spec fn hex4(n: u16) -> Seq<char> {
    seq![
        digit(n as int / 4096),
        digit(n as int / 256 % 16),
        digit(n as int / 16 % 16),
        digit(n as int % 16),
    ]
}

/// The contents of lines of text.
pub open spec fn lines_view(lines: Seq<String>) -> Seq<Seq<char>> {
    lines.map_values(|line: String| line@)
}

/// `s` is the usual way to write `n`: decimal digits that sum up to it, without leading
/// zeros.
pub open spec fn is_decimal_of(s: Seq<char>, n: int) -> bool {
    &&& s.len() > 0
    &&& forall|i: int| 0 <= i < s.len() ==> '0' <= #[trigger] s[i] <= '9'
    &&& s[0] == '0' ==> s.len() == 1
    &&& s.fold_left(0int, |value: int, c: char| value * 10 + (c as int - '0' as int)) == n
}

/// `s` is the usual way to write `n`, with a minus sign if it is negative.
pub open spec fn is_signed_decimal_of(s: Seq<char>, n: int) -> bool {
    if n < 0 {
        s.len() > 0 && s[0] == '-' && is_decimal_of(s.skip(1), -n)
    } else {
        is_decimal_of(s, n)
    }
}

/// `s` is `n` in four lower-case hexadecimal digits.
pub open spec fn is_hex4_of(s: Seq<char>, n: int) -> bool {
    &&& s.len() == 4
    &&& forall|i: int|
        0 <= i < s.len() ==> '0' <= #[trigger] s[i] <= '9' || 'a' <= s[i] <= 'f'
    &&& s.fold_left(
        0int,
        |value: int, c: char|
            value * 16 + if c <= '9' {
                c as int - '0' as int
            } else {
                c as int - 'a' as int + 10
            },
    ) == n
}

/// `text` is `before`, then `n` in decimal, then `after`.
pub open spec fn tells(text: Seq<char>, before: Seq<char>, n: int, after: Seq<char>) -> bool {
    exists|s: Seq<char>| #[trigger] is_decimal_of(s, n) && text == before + s + after
}

/// `text` is `before`, then `n` in decimal, then `between`, then `m` in decimal, then `after`.
pub open spec fn tells_two(
    text: Seq<char>,
    before: Seq<char>,
    n: int,
    between: Seq<char>,
    m: int,
    after: Seq<char>,
) -> bool {
    exists|s: Seq<char>| #[trigger] is_decimal_of(s, n) && tells(text, before + s + between, m, after)
}

/// Decimal text reads back as the number that it was made of.
pub proof fn law_decimal_reads_back(n: nat)
    ensures
        is_decimal_of(decimal(n), n as int),
    decreases n,
{
    let value = |value: int, c: char| value * 10 + (c as int - '0' as int);
    let s = decimal(n);
    lemma_digits((n % 10) as int);
    if n < 10 {
        assert(s.drop_last() =~= Seq::empty());
        assert(s.drop_last().fold_left(0int, value) == 0);
        assert(s.fold_left(0int, value) == value(s.drop_last().fold_left(0int, value), s.last()));
    } else {
        law_decimal_reads_back(n / 10);
        assert(s.drop_last() =~= decimal(n / 10));
        assert(s.fold_left(0int, value) == value(s.drop_last().fold_left(0int, value), s.last()));
        if decimal(n / 10)[0] == '0' {
            let t = decimal(n / 10);
            assert(t.drop_last() =~= Seq::empty());
            assert(t.drop_last().fold_left(0int, value) == 0);
            assert(t.fold_left(0int, value) == value(
                t.drop_last().fold_left(0int, value),
                t.last(),
            ));
        }
    }
}

/// Signed decimal text reads back as the number that it was made of.
pub proof fn law_signed_decimal_reads_back(n: int)
    ensures
        is_signed_decimal_of(signed_decimal(n), n),
{
    if n < 0 {
        law_decimal_reads_back((-n) as nat);
        assert(signed_decimal(n).skip(1) =~= decimal((-n) as nat));
    } else {
        law_decimal_reads_back(n as nat);
    }
}

/// Four-digit hexadecimal text reads back as the number that it was made of.
pub proof fn law_hex4_reads_back(n: u16)
    ensures
        is_hex4_of(hex4(n), n as int),
{
    let value = |value: int, c: char|
        value * 16 + if c <= '9' {
            c as int - '0' as int
        } else {
            c as int - 'a' as int + 10
        };
    let (a, b, c, d) = (n as int / 4096, n as int / 256 % 16, n as int / 16 % 16, n as int % 16);
    lemma_digits(a);
    lemma_digits(b);
    lemma_digits(c);
    lemma_digits(d);
    let s0 = Seq::<char>::empty();
    let s1 = s0.push(digit(a));
    let s2 = s1.push(digit(b));
    let s3 = s2.push(digit(c));
    let s4 = s3.push(digit(d));
    assert(s1.drop_last() =~= s0);
    assert(s2.drop_last() =~= s1);
    assert(s3.drop_last() =~= s2);
    assert(s4.drop_last() =~= s3);
    assert(s0.fold_left(0int, value) == 0);
    assert(s1.fold_left(0int, value) == a);
    assert(s2.fold_left(0int, value) == a * 16 + b);
    assert(s3.fold_left(0int, value) == (a * 16 + b) * 16 + c);
    assert(s4.fold_left(0int, value) == n);
    assert(hex4(n) =~= s4);
}

/// Lines are taken as they are, in their order.
pub proof fn law_lines_are_taken_in_order(lines: Seq<String>, i: int)
    requires
        0 <= i < lines.len(),
    ensures
        lines_view(lines).len() == lines.len(),
        lines_view(lines)[i] == lines[i]@,
{
}

/// The digits that hexadecimal text is made of.
pub proof fn lemma_digits(d: int)
    requires
        0 <= d < 16,
    ensures
        0 <= d < 10 ==> digit(d) as int == '0' as int + d,
        10 <= d < 16 ==> digit(d) as int == 'a' as int + (d - 10),
{
    reveal_strlit("0123456789abcdef");
}

fn push_digit(out: &mut String, d: u16)
    requires
        d < 16,
    ensures
        final(out)@ == old(out)@.push(digit(d as int)),
{
    let text = match d {
        0 => "0",
        1 => "1",
        2 => "2",
        3 => "3",
        4 => "4",
        5 => "5",
        6 => "6",
        7 => "7",
        8 => "8",
        9 => "9",
        10 => "a",
        11 => "b",
        12 => "c",
        13 => "d",
        14 => "e",
        _ => "f",
    };
    proof {
        reveal_strlit("0123456789abcdef");
        reveal_strlit("0");
        reveal_strlit("1");
        reveal_strlit("2");
        reveal_strlit("3");
        reveal_strlit("4");
        reveal_strlit("5");
        reveal_strlit("6");
        reveal_strlit("7");
        reveal_strlit("8");
        reveal_strlit("9");
        reveal_strlit("a");
        reveal_strlit("b");
        reveal_strlit("c");
        reveal_strlit("d");
        reveal_strlit("e");
        reveal_strlit("f");
    }
    out.append(text);
    assert(out@ =~= old(out)@.push(digit(d as int)));
}

/// Appends `n` in decimal.
pub fn push_decimal(out: &mut String, n: u64)
    ensures
        final(out)@ == old(out)@ + decimal(n as nat),
    decreases n,
{
    if n >= 10 {
        push_decimal(out, n / 10);
    }
    push_digit(out, (n % 10) as u16);
    assert(out@ =~= old(out)@ + decimal(n as nat));
}

/// Appends `n` in decimal, with its sign.
pub fn push_signed(out: &mut String, n: i32)
    ensures
        final(out)@ == old(out)@ + signed_decimal(n as int),
{
    if n < 0 {
        proof {
            reveal_strlit("-");
        }
        out.append("-");
        push_decimal(out, (-(n as i64)) as u64);
        assert(out@ =~= old(out)@ + signed_decimal(n as int));
    } else {
        push_decimal(out, n as u64);
    }
}

/// Appends `n` as four hexadecimal digits.
pub fn push_hex4(out: &mut String, n: u16)
    ensures
        final(out)@ == old(out)@ + hex4(n),
{
    push_digit(out, n / 4096);
    push_digit(out, n / 256 % 16);
    push_digit(out, n / 16 % 16);
    push_digit(out, n % 16);
    assert(out@ =~= old(out)@ + hex4(n));
}

/// Text that is put together around a decimal number tells that number.
pub proof fn lemma_tells(before: Seq<char>, n: nat, after: Seq<char>)
    ensures
        tells(before + decimal(n) + after, before, n as int, after),
        before + decimal(n) + Seq::empty() == before + decimal(n),
{
    law_decimal_reads_back(n);
    assert(before + decimal(n) + Seq::empty() =~= before + decimal(n));
}

/// Text that is put together around two decimal numbers tells both.
pub proof fn lemma_tells_two(
    before: Seq<char>,
    n: nat,
    between: Seq<char>,
    m: nat,
    after: Seq<char>,
)
    ensures
        tells_two(
            before + decimal(n) + between + decimal(m) + after,
            before,
            n as int,
            between,
            m as int,
            after,
        ),
{
    law_decimal_reads_back(n);
    lemma_tells(before + decimal(n) + between, m, after);
}

/// Different numbers have different texts.
pub proof fn law_different_numbers_have_different_texts(n: nat, m: nat)
    requires
        n != m,
    ensures
        decimal(n) != decimal(m),
{
    law_decimal_reads_back(n);
    law_decimal_reads_back(m);
}

} // verus!
