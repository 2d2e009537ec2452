//! Hexadecimal text for the diagnostic messages sent over the UART.
use vstd::prelude::*;

verus! {

/// The ASCII character of a hexadecimal digit `d < 16`.
pub open spec fn hex_digit(d: int, upper: bool) -> u8 {
    if d < 10 {
        (48 + d) as u8
    } else if upper {
        (55 + d) as u8
    } else {
        (87 + d) as u8
    }
}

/// The hexadecimal digits of `v`, most significant first, without leading
/// zeros (`0` is the single digit `0`).
pub open spec fn hex_seq(v: nat, upper: bool) -> Seq<u8>
    decreases v,
{
    if v < 16 {
        seq![hex_digit(v as int, upper)]
    } else {
        hex_seq(v / 16, upper).push(hex_digit(v as int % 16, upper))
    }
}

/// `s` with zeros in front up to a length of `width`.
pub open spec fn zero_pad(s: Seq<u8>, width: nat) -> Seq<u8> {
    if s.len() >= width {
        s
    } else {
        Seq::new((width - s.len()) as nat, |i: int| 48u8) + s
    }
}

/// The text that `{:0width$x}` (lower case) or `{:0width$X}` (upper case)
/// gives for `v`.
pub open spec fn hex_text(v: u32, width: nat, upper: bool) -> Seq<u8> {
    zero_pad(hex_seq(v as nat, upper), width)
}

fn digit_char(d: u32, upper: bool) -> (c: u8)
    requires
        d < 16,
    ensures
        c == hex_digit(d as int, upper),
{
    if d < 10 {
        (48 + d) as u8
    } else if upper {
        (55 + d) as u8
    } else {
        (87 + d) as u8
    }
}

/// Format `v` in hexadecimal, padded with zeros to at least `width` digits.
pub fn hex_digits(v: u32, width: usize, upper: bool) -> (s: Vec<u8>)
    ensures
        s@ == hex_text(v, width as nat, upper),
{
    let mut acc: Vec<u8> = Vec::new();
    let mut cur: u32 = v;
    assert(pow16(0) == 1);
    while cur >= 16
        invariant
            hex_seq(v as nat, upper) == hex_seq(cur as nat, upper) + acc@,
            acc@.len() <= 8,
            cur as nat * pow16(acc@.len()) <= v,
        decreases cur,
    {
        let d = cur % 16;
        proof {
            assert(hex_seq(cur as nat, upper) == hex_seq((cur / 16) as nat, upper).push(
                hex_digit(d as int, upper),
            ));
            assert(hex_seq((cur / 16) as nat, upper).push(hex_digit(d as int, upper)) + acc@
                =~= hex_seq((cur / 16) as nat, upper) + acc@.insert(0, hex_digit(d as int, upper)));
            lemma_pow16_step(cur as nat, acc@.len(), v as nat);
        }
        acc.insert(0, digit_char(d, upper));
        cur = cur / 16;
    }
    proof {
        assert(hex_seq(v as nat, upper) =~= acc@.insert(0, hex_digit(cur as int, upper)));
    }
    acc.insert(0, digit_char(cur, upper));
    let ghost digits = acc@;
    while acc.len() < width
        invariant
            digits == hex_seq(v as nat, upper),
            digits.len() <= 9,
            acc@ == Seq::new((acc@.len() - digits.len()) as nat, |i: int| 48u8) + digits,
            acc@.len() >= digits.len(),
            acc@.len() < width ==> acc@.len() < usize::MAX,
            acc@.len() <= width || acc@.len() == digits.len(),
        decreases width - acc.len(),
    {
        acc.insert(0, 48u8);
        assert(acc@ =~= Seq::new((acc@.len() - digits.len()) as nat, |i: int| 48u8) + digits);
    }
    proof {
        if digits.len() >= width {
            assert(acc@ =~= digits);
        } else {
            assert(acc@ =~= zero_pad(digits, width as nat));
        }
    }
    acc
}

/// `16^n`.
pub open spec fn pow16(n: nat) -> nat
    decreases n,
{
    if n == 0 {
        1
    } else {
        16 * pow16((n - 1) as nat)
    }
}

proof fn lemma_pow16_step(cur: nat, n: nat, v: nat)
    requires
        cur >= 16,
        cur * pow16(n) <= v,
        v < 0x1_0000_0000,
        n <= 8,
    ensures
        (cur / 16) * pow16(n + 1) <= v,
        n + 1 <= 8,
{
    assert(pow16(n + 1) == 16 * pow16(n));
    assert((cur / 16) * (16 * pow16(n)) <= cur * pow16(n)) by (nonlinear_arith)
        requires
            cur >= 16,
    ;
    if n == 8 {
        reveal_with_fuel(pow16, 9);
        assert(cur * pow16(8) >= 16 * 0x1_0000_0000) by (nonlinear_arith)
            requires
                cur >= 16,
                pow16(8) == 0x1_0000_0000,
        ;
    }
}

/// The value of an ASCII hexadecimal digit (`0`-`9`, `a`-`f`, `A`-`F`),
/// and -1 for any other byte.
pub open spec fn hex_char_value(c: u8) -> int {
    if 48 <= c <= 57 {
        c - 48
    } else if 97 <= c <= 102 {
        c - 87
    } else if 65 <= c <= 70 {
        c - 55
    } else {
        -1
    }
}

/// `c` is a decimal digit, or a hexadecimal letter of the requested case.
pub open spec fn is_hex_char(c: u8, upper: bool) -> bool {
    (48 <= c <= 57) || (upper && 65 <= c <= 70) || (!upper && 97 <= c <= 102)
}

/// The number that a string of hexadecimal digits denotes, most significant
/// digit first.
pub open spec fn parse_hex(s: Seq<u8>) -> int
    decreases s.len(),
{
    if s.len() == 0 {
        0
    } else {
        16 * parse_hex(s.drop_last()) + hex_char_value(s.last())
    }
}

proof fn lemma_digit_value(d: int, upper: bool)
    requires
        0 <= d < 16,
    ensures
        hex_char_value(hex_digit(d, upper)) == d,
        is_hex_char(hex_digit(d, upper), upper),
{
}

proof fn lemma_hex_seq_parses(v: nat, upper: bool)
    ensures
        parse_hex(hex_seq(v, upper)) == v,
        forall|i: int|
            0 <= i < hex_seq(v, upper).len() ==> is_hex_char(#[trigger] hex_seq(v, upper)[i], upper),
    decreases v,
{
    if v < 16 {
        let s = hex_seq(v, upper);
        lemma_digit_value(v as int, upper);
        assert(s.drop_last() =~= Seq::<u8>::empty());
        assert(parse_hex(s.drop_last()) == 0);
        assert(s.last() == hex_digit(v as int, upper));
    } else {
        lemma_digit_value(v as int % 16, upper);
        lemma_hex_seq_parses(v / 16, upper);
        let p = hex_seq(v / 16, upper);
        let s = hex_seq(v, upper);
        assert(s.drop_last() =~= p);
        assert(16 * (v / 16) + v % 16 == v);
        assert forall|i: int| 0 <= i < s.len() implies is_hex_char(#[trigger] s[i], upper) by {
            if i < p.len() {
                assert(s[i] == p[i]);
            }
        }
    }
}

proof fn lemma_parse_zero_prefix(k: nat, s: Seq<u8>)
    ensures
        parse_hex(Seq::new(k, |i: int| 48u8) + s) == parse_hex(s),
    decreases s.len(), k,
{
    let z = Seq::new(k, |i: int| 48u8);
    if s.len() == 0 {
        assert(z + s =~= z);
        if k > 0 {
            assert(z.drop_last() =~= Seq::new((k - 1) as nat, |i: int| 48u8));
            lemma_parse_zero_prefix((k - 1) as nat, Seq::<u8>::empty());
            assert(Seq::new((k - 1) as nat, |i: int| 48u8) + Seq::<u8>::empty() =~= Seq::new(
                (k - 1) as nat,
                |i: int| 48u8,
            ));
        }
    } else {
        lemma_parse_zero_prefix(k, s.drop_last());
        assert((z + s).drop_last() =~= z + s.drop_last());
    }
}

proof fn lemma_hex_seq_leading(v: nat, upper: bool)
    ensures
        hex_seq(v, upper).len() >= 1,
        hex_seq(v, upper).len() > 1 ==> v >= 16,
        v >= 1 ==> hex_seq(v, upper)[0] != 48,
    decreases v,
{
    if v >= 16 {
        lemma_hex_seq_leading(v / 16, upper);
        assert(hex_seq(v, upper)[0] == hex_seq(v / 16, upper)[0]);
    }
}

/// The text of [`hex_digits`] consists of hexadecimal digits of the
/// requested case, read as a base-16 number gives back `v`, and is exactly
/// as long as it must be: at least `width` and at least one digit long,
/// and where it is longer than `width` it has no leading zero (but for the
/// single digit of zero).
pub proof fn lemma_hex_text_parses(v: u32, width: nat, upper: bool)
    ensures
        parse_hex(hex_text(v, width, upper)) == v,
        hex_text(v, width, upper).len() >= width,
        hex_text(v, width, upper).len() >= 1,
        hex_text(v, width, upper).len() > width && hex_text(v, width, upper).len() > 1
            ==> hex_text(v, width, upper)[0] != 48,
        forall|i: int|
            0 <= i < hex_text(v, width, upper).len() ==> is_hex_char(
                #[trigger] hex_text(v, width, upper)[i],
                upper,
            ),
{
    let s = hex_seq(v as nat, upper);
    lemma_hex_seq_parses(v as nat, upper);
    lemma_hex_seq_leading(v as nat, upper);
    if s.len() < width {
        let k = (width - s.len()) as nat;
        lemma_parse_zero_prefix(k, s);
        let t = Seq::new(k, |i: int| 48u8) + s;
        assert forall|i: int| 0 <= i < t.len() implies is_hex_char(#[trigger] t[i], upper) by {
            if i >= k {
                assert(t[i] == s[i - k]);
            }
        }
    }
}

} // verus!
