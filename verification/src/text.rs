//! Small operations on strings: comparison and the writing of numbers.
use vstd::prelude::*;
use vstd::string::StringExecFns;

verus! {

/// Whether two strings hold the same characters.
pub fn str_eq(a: &str, b: &str) -> (r: bool)
    ensures
        r == (a@ == b@),
{
    a.to_owned() == b.to_owned()
}

/// The character that writes the digit `d` in a base up to sixteen.
pub open spec fn digit_char(d: nat) -> char {
    if d == 0 {
        '0'
    } else if d == 1 {
        '1'
    } else if d == 2 {
        '2'
    } else if d == 3 {
        '3'
    } else if d == 4 {
        '4'
    } else if d == 5 {
        '5'
    } else if d == 6 {
        '6'
    } else if d == 7 {
        '7'
    } else if d == 8 {
        '8'
    } else if d == 9 {
        '9'
    } else if d == 10 {
        'a'
    } else if d == 11 {
        'b'
    } else if d == 12 {
        'c'
    } else if d == 13 {
        'd'
    } else if d == 14 {
        'e'
    } else {
        'f'
    }
}

/// `n` written in decimal, without leading zeros; zero is written `0`.
pub open spec fn decimal(n: nat) -> Seq<char>
    decreases n,
{
    if n < 10 {
        seq![digit_char(n)]
    } else {
        decimal(n / 10).push(digit_char(n % 10))
    }
}

/// `n` written in lower-case hexadecimal, without leading zeros.
pub open spec fn hex(n: nat) -> Seq<char>
    decreases n,
{
    if n < 16 {
        seq![digit_char(n)]
    } else {
        hex(n / 16).push(digit_char(n % 16))
    }
}

fn digit_str(d: u64) -> (r: &'static str)
    requires
        d < 16,
    ensures
        r@ == seq![digit_char(d as nat)],
{
    proof {
        reveal_strlit("0");
        reveal_strlit("1");
        reveal_strlit("2");
        reveal_strlit("3");
        reveal_strlit("4");
        reveal_strlit("5");
        reveal_strlit("6");
        reveal_strlit("7");
        reveal_strlit("8");
        reveal_strlit("9");
        reveal_strlit("a");
        reveal_strlit("b");
        reveal_strlit("c");
        reveal_strlit("d");
        reveal_strlit("e");
        reveal_strlit("f");
    }
    let r = if d == 0 {
        "0"
    } else if d == 1 {
        "1"
    } else if d == 2 {
        "2"
    } else if d == 3 {
        "3"
    } else if d == 4 {
        "4"
    } else if d == 5 {
        "5"
    } else if d == 6 {
        "6"
    } else if d == 7 {
        "7"
    } else if d == 8 {
        "8"
    } else if d == 9 {
        "9"
    } else if d == 10 {
        "a"
    } else if d == 11 {
        "b"
    } else if d == 12 {
        "c"
    } else if d == 13 {
        "d"
    } else if d == 14 {
        "e"
    } else {
        "f"
    };
    assert(r@ =~= seq![digit_char(d as nat)]);
    r
}

fn write_decimal(n: u64, out: &mut String)
    ensures
        final(out)@ == old(out)@ + decimal(n as nat),
    decreases n,
{
    if n >= 10 {
        write_decimal(n / 10, out);
    }
    out.append(digit_str(n % 10));
    assert(out@ =~= old(out)@ + decimal(n as nat));
}

fn write_hex(n: u64, out: &mut String)
    ensures
        final(out)@ == old(out)@ + hex(n as nat),
    decreases n,
{
    if n >= 16 {
        write_hex(n / 16, out);
    }
    out.append(digit_str(n % 16));
    assert(out@ =~= old(out)@ + hex(n as nat));
}

/// Writes `n` in decimal.
pub fn to_decimal(n: u64) -> (r: String)
    ensures
        r@ == decimal(n as nat),
{
    let mut out = String::new();
    write_decimal(n, &mut out);
    assert(out@ =~= decimal(n as nat));
    out
}

/// Writes `n` in lower-case hexadecimal.
pub fn to_hex(n: u64) -> (r: String)
    ensures
        r@ == hex(n as nat),
{
    let mut out = String::new();
    write_hex(n, &mut out);
    assert(out@ =~= hex(n as nat));
    out
}

/// `s` with every occurrence of `from` replaced by `to`. Occurrences are
/// found from the left and do not overlap. Where `from` is empty, nothing
/// is replaced.
pub open spec fn replaced(s: Seq<char>, from: Seq<char>, to: Seq<char>) -> Seq<char>
    decreases s.len(),
{
    if from.len() == 0 || s.len() < from.len() {
        s
    } else if s.subrange(0, from.len() as int) == from {
        to + replaced(s.skip(from.len() as int), from, to)
    } else {
        seq![s[0]] + replaced(s.skip(1), from, to)
    }
}

/// Replaces every occurrence of `from` in `s` by `to`.
pub fn replace_all(s: &str, from: &str, to: &str) -> (r: String)
    ensures
        r@ == replaced(s@, from@, to@),
{
    let n = s.unicode_len();
    let m = from.unicode_len();
    if m == 0 {
        return s.to_owned();
    }
    let mut out = String::new();
    let mut i: usize = 0;
    assert(s@.skip(0) =~= s@);
    assert(out@ + replaced(s@, from@, to@) =~= replaced(s@, from@, to@));
    while i < n && n - i >= m
        invariant
            i <= n,
            n == s@.len(),
            m == from@.len(),
            m > 0,
            out@ + replaced(s@.skip(i as int), from@, to@) == replaced(s@, from@, to@),
        decreases n - i,
    {
        let ghost rest = s@.skip(i as int);
        let ghost before = out@;
        if str_eq(s.substring_char(i, i + m), from) {
            assert(rest.subrange(0, m as int) =~= s@.subrange(i as int, i + m));
            assert(rest.skip(m as int) =~= s@.skip(i + m));
            out.append(to);
            assert((before + to@) + replaced(s@.skip(i + m), from@, to@) =~= before + (to@
                + replaced(rest.skip(m as int), from@, to@)));
            i += m;
        } else {
            assert(rest.subrange(0, m as int) =~= s@.subrange(i as int, i + m));
            assert(rest.skip(1) =~= s@.skip(i + 1));
            out.append(s.substring_char(i, i + 1));
            assert(s@.subrange(i as int, i + 1) =~= seq![rest[0]]);
            assert((before + seq![rest[0]]) + replaced(s@.skip(i + 1), from@, to@) =~= before + (
            seq![rest[0]] + replaced(rest.skip(1), from@, to@)));
            i += 1;
        }
    }
    let ghost before = out@;
    out.append(s.substring_char(i, n));
    assert(s@.subrange(i as int, n as int) =~= s@.skip(i as int));
    out
}

/// A digit is written by a character of its own, and none is the
/// character `$`.
pub proof fn lemma_digit_chars(a: nat, b: nat)
    requires
        a < 16,
        b < 16,
    ensures
        digit_char(a) == digit_char(b) ==> a == b,
        digit_char(a) != '$',
{
}

/// A number in decimal has one digit below ten and more from ten on,
/// and nothing but digits.
pub proof fn lemma_decimal_digits(n: nat)
    ensures
        decimal(n).len() >= 1,
        n < 10 ==> decimal(n).len() == 1,
        n >= 10 ==> decimal(n).len() >= 2,
        forall|i: int| 0 <= i < decimal(n).len() ==> decimal(n)[i] != '$',
    decreases n,
{
    if n >= 10 {
        lemma_decimal_digits(n / 10);
        lemma_digit_chars(n % 10, 0);
    } else {
        lemma_digit_chars(n, 0);
    }
}

/// Two numbers are written alike in decimal only where they are equal.
pub proof fn lemma_decimal_injective(a: nat, b: nat)
    requires
        decimal(a) == decimal(b),
    ensures
        a == b,
    decreases a,
{
    lemma_decimal_digits(a);
    lemma_decimal_digits(b);
    if a < 10 && b < 10 {
        assert(decimal(a)[0] == digit_char(a));
        assert(decimal(b)[0] == digit_char(b));
        lemma_digit_chars(a, b);
    } else if a >= 10 && b >= 10 {
        assert(decimal(a).drop_last() =~= decimal(a / 10));
        assert(decimal(b).drop_last() =~= decimal(b / 10));
        assert(decimal(a).last() == digit_char(a % 10));
        assert(decimal(b).last() == digit_char(b % 10));
        lemma_decimal_injective(a / 10, b / 10);
        lemma_digit_chars(a % 10, b % 10);
    } else {
        assert(decimal(a).len() != decimal(b).len());
    }
}

/// A number in hexadecimal has one digit below sixteen and more from
/// sixteen on, and nothing but digits.
pub proof fn lemma_hex_digits(n: nat)
    ensures
        hex(n).len() >= 1,
        n < 16 ==> hex(n).len() == 1,
        n >= 16 ==> hex(n).len() >= 2,
        forall|i: int| 0 <= i < hex(n).len() ==> hex(n)[i] != '$',
    decreases n,
{
    if n >= 16 {
        lemma_hex_digits(n / 16);
        lemma_digit_chars(n % 16, 0);
    } else {
        lemma_digit_chars(n, 0);
    }
}

/// Two numbers are written alike in hexadecimal only where they are
/// equal.
pub proof fn lemma_hex_injective(a: nat, b: nat)
    requires
        hex(a) == hex(b),
    ensures
        a == b,
    decreases a,
{
    lemma_hex_digits(a);
    lemma_hex_digits(b);
    if a < 16 && b < 16 {
        assert(hex(a)[0] == digit_char(a));
        assert(hex(b)[0] == digit_char(b));
        lemma_digit_chars(a, b);
    } else if a >= 16 && b >= 16 {
        assert(hex(a).drop_last() =~= hex(a / 16));
        assert(hex(b).drop_last() =~= hex(b / 16));
        assert(hex(a).last() == digit_char(a % 16));
        assert(hex(b).last() == digit_char(b % 16));
        lemma_hex_injective(a / 16, b / 16);
        lemma_digit_chars(a % 16, b % 16);
    } else {
        assert(hex(a).len() != hex(b).len());
    }
}

/// A text that ends in a `$` and a part without `$` is split in one way
/// only: where `head1 + "$" + tail1` is `head2 + "$" + tail2` and neither
/// tail holds a `$`, the heads are equal and the tails are equal.
pub proof fn lemma_split_at_last_sigil(
    head1: Seq<char>,
    tail1: Seq<char>,
    head2: Seq<char>,
    tail2: Seq<char>,
)
    requires
        head1 + seq!['$'] + tail1 == head2 + seq!['$'] + tail2,
        forall|i: int| 0 <= i < tail1.len() ==> tail1[i] != '$',
        forall|i: int| 0 <= i < tail2.len() ==> tail2[i] != '$',
    ensures
        head1 == head2,
        tail1 == tail2,
{
    let a = head1 + seq!['$'] + tail1;
    let b = head2 + seq!['$'] + tail2;
    assert(a.len() == b.len());
    let front1 = head1 + seq!['$'];
    let front2 = head2 + seq!['$'];
    if head1.len() < head2.len() {
        let i = head2.len() as int;
        assert(b[i] == front2[i]);
        assert(front1.len() == head1.len() + 1);
        assert(front2.len() == head2.len() + 1);
        assert(a.len() == front1.len() + tail1.len());
        assert(b.len() == front2.len() + tail2.len());
        assert(0 <= i - front1.len() < tail1.len());
        assert(a[i] == tail1[i - front1.len()]);
    } else if head2.len() < head1.len() {
        let i = head1.len() as int;
        assert(a[i] == front1[i]);
        assert(front1.len() == head1.len() + 1);
        assert(front2.len() == head2.len() + 1);
        assert(a.len() == front1.len() + tail1.len());
        assert(b.len() == front2.len() + tail2.len());
        assert(0 <= i - front2.len() < tail2.len());
        assert(b[i] == tail2[i - front2.len()]);
    }
    assert(head1 =~= a.subrange(0, head1.len() as int));
    assert(head2 =~= b.subrange(0, head2.len() as int));
    assert(tail1 =~= a.subrange((head1.len() + 1) as int, a.len() as int));
    assert(tail2 =~= b.subrange((head2.len() + 1) as int, b.len() as int));
}

/// A text that begins with a part without `$` and a `$` is split in one
/// way only.
pub proof fn lemma_split_at_first_sigil(
    head1: Seq<char>,
    tail1: Seq<char>,
    head2: Seq<char>,
    tail2: Seq<char>,
)
    requires
        head1 + seq!['$'] + tail1 == head2 + seq!['$'] + tail2,
        forall|i: int| 0 <= i < head1.len() ==> head1[i] != '$',
        forall|i: int| 0 <= i < head2.len() ==> head2[i] != '$',
    ensures
        head1 == head2,
        tail1 == tail2,
{
    let a = head1 + seq!['$'] + tail1;
    let b = head2 + seq!['$'] + tail2;
    assert(a.len() == b.len());
    let front1 = head1 + seq!['$'];
    let front2 = head2 + seq!['$'];
    if head1.len() < head2.len() {
        let i = head1.len() as int;
        assert(a[i] == front1[i]);
        assert(b[i] == front2[i]);
    } else if head2.len() < head1.len() {
        let i = head2.len() as int;
        assert(b[i] == front2[i]);
        assert(a[i] == front1[i]);
    }
    assert(head1 =~= a.subrange(0, head1.len() as int));
    assert(head2 =~= b.subrange(0, head2.len() as int));
    assert(tail1 =~= a.subrange((head1.len() + 1) as int, a.len() as int));
    assert(tail2 =~= b.subrange((head2.len() + 1) as int, b.len() as int));
}

} // verus!
