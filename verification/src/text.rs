//! Numerals and byte text.

use vstd::prelude::*;

verus! {

/// The digits of `n` in the given base, most significant first and without
/// leading zeros.
pub open spec fn numeral(n: nat, base: nat) -> Seq<u8>
    recommends
        2 <= base <= 10,
    decreases n,
{
    if n < base || base < 2 {
        seq![(48 + n) as u8]
    } else {
        proof {
            lemma_quotient_is_smaller(n, base);
        }
        numeral(n / base, base).push((48 + n % base) as u8)
    }
}

/// The number that a sequence of digits stands for.
pub open spec fn numeral_value(digits: Seq<u8>, base: nat) -> int
    decreases digits.len(),
{
    if digits.len() == 0 {
        0
    } else {
        numeral_value(digits.drop_last(), base) * base + (digits.last() - 48)
    }
}

/// Dividing makes a number smaller.
pub proof fn lemma_quotient_is_smaller(n: nat, base: nat)
    requires
        2 <= base <= n,
    ensures
        0 < n / base < n,
{
    assert(0 < n / base < n) by (nonlinear_arith)
        requires
            2 <= base <= n,
    ;
}

/// A numeral stands for the number that it was made of.
pub proof fn law_numeral_value(n: nat, base: nat)
    requires
        2 <= base <= 10,
    ensures
        numeral_value(numeral(n, base), base) == n,
    decreases n,
{
    let s = numeral(n, base);
    if n < base {
        assert(s.drop_last() =~= Seq::<u8>::empty());
        assert(numeral_value(s.drop_last(), base) == 0);
        assert(0 * base == 0) by (nonlinear_arith);
    } else {
        lemma_quotient_is_smaller(n, base);
        law_numeral_value(n / base, base);
        assert(s.drop_last() =~= numeral(n / base, base));
        vstd::arithmetic::div_mod::lemma_fundamental_div_mod(n as int, base as int);
        assert((n / base) * base == base * (n / base)) by (nonlinear_arith);
    }
}

/// Every byte of a numeral is a digit of its base, and there is at least one.
pub proof fn law_numeral_digits(n: nat, base: nat)
    requires
        2 <= base <= 10,
    ensures
        numeral(n, base).len() > 0,
        forall|i: int| 0 <= i < numeral(n, base).len() ==> 48 <= #[trigger] numeral(
            n,
            base,
        )[i] < 48 + base,
    decreases n,
{
    if n >= base {
        lemma_quotient_is_smaller(n, base);
        law_numeral_digits(n / base, base);
    }
}

/// A number below a power of its base has no more digits than the exponent.
pub proof fn lemma_numeral_len(n: nat, base: nat, k: nat)
    requires
        2 <= base <= 10,
        k >= 1,
        n < vstd::arithmetic::power::pow(base as int, k),
    ensures
        1 <= numeral(n, base).len() <= k,
    decreases k,
{
    if n >= base {
        if k == 1 {
            vstd::arithmetic::power::lemma_pow1(base as int);
            assert(false);
        }
        lemma_quotient_is_smaller(n, base);
        reveal(vstd::arithmetic::power::pow);
        let p = vstd::arithmetic::power::pow(base as int, (k - 1) as nat);
        assert(vstd::arithmetic::power::pow(base as int, k) == base * p);
        assert(n / base < p) by (nonlinear_arith)
            requires
                n < base * p,
                base >= 2,
        ;
        lemma_numeral_len(n / base, base, (k - 1) as nat);
    }
}

/// The decimal numeral of a 64-bit number has at most twenty digits.
pub proof fn lemma_decimal_len(value: u64)
    ensures
        1 <= numeral(value as nat, 10).len() <= 20,
{
    assert(value < vstd::arithmetic::power::pow(10, 20)) by {
        reveal_with_fuel(vstd::arithmetic::power::pow, 21);
    }
    lemma_numeral_len(value as nat, 10, 20);
}

/// The octal numeral of a 32-bit number has at most eleven digits.
pub proof fn lemma_octal_len(value: u32)
    ensures
        1 <= numeral(value as nat, 8).len() <= 11,
{
    assert(value < vstd::arithmetic::power::pow(8, 11)) by {
        reveal_with_fuel(vstd::arithmetic::power::pow, 12);
    }
    lemma_numeral_len(value as nat, 8, 11);
}

/// One digit taken off the low end of `v` goes in front of those taken before.
proof fn lemma_take_digit(whole: Seq<u8>, v: nat, base: nat, tmp: Seq<u8>, len: int, next: Seq<u8>)
    requires
        2 <= base <= 10,
        v > 0,
        0 <= len < tmp.len(),
        whole == numeral(v, base) + tmp.take(len).reverse(),
        next == tmp.update(len, (48 + v % base) as u8),
    ensures
        v >= base ==> whole == numeral(v / base, base) + next.take(len + 1).reverse(),
        v < base ==> whole == next.take(len + 1).reverse() && v / base == 0,
{
    let taken = next.take(len + 1).reverse();
    assert(taken =~= seq![(48 + v % base) as u8] + tmp.take(len).reverse());
    if v < base {
        vstd::arithmetic::div_mod::lemma_small_mod(v, base);
        vstd::arithmetic::div_mod::lemma_basic_div(v as int, base as int);
        assert(whole =~= taken);
    } else {
        assert(whole =~= numeral(v / base, base) + taken);
    }
}

/// Writes the decimal numeral of `value` at the start of `buf`, and returns
/// how many bytes it takes.
pub fn decimal_digits(value: u64, buf: &mut [u8]) -> (r: usize)
    requires
        old(buf)@.len() >= numeral(value as nat, 10).len(),
    ensures
        r == numeral(value as nat, 10).len(),
        final(buf)@ == numeral(value as nat, 10) + old(buf)@.skip(r as int),
{
    let ghost whole = numeral(value as nat, 10);
    proof {
        lemma_decimal_len(value);
    }
    if value == 0 {
        buf[0] = 48;
        assert(buf@ =~= whole + old(buf)@.skip(1));
        return 1;
    }
    let mut value: u64 = value;
    let mut tmp: [u8; 20] = [0u8; 20];
    let mut len: usize = 0;
    assert(whole =~= whole + tmp@.take(0).reverse());
    while value != 0
        invariant
            len <= 20,
            whole.len() <= 20,
            value != 0 ==> whole == numeral(value as nat, 10) + tmp@.take(len as int).reverse(),
            value != 0 ==> len < whole.len(),
            value == 0 ==> whole == tmp@.take(len as int).reverse(),
        decreases value,
    {
        let ghost v = value as nat;
        let ghost before = tmp@;
        proof {
            law_numeral_digits(v, 10);
        }
        tmp[len] = 48 + (value % 10) as u8;
        value = value / 10;
        proof {
            lemma_take_digit(whole, v, 10, before, len as int, tmp@);
        }
        len += 1;
        proof {
            law_numeral_digits(value as nat, 10);
        }
    }
    reverse_into(&tmp, len, buf);
    len
}

/// Writes the octal numeral of `value` at the start of `buf`, and returns how
/// many bytes it takes.
pub fn octal_digits(value: u32, buf: &mut [u8]) -> (r: usize)
    requires
        old(buf)@.len() >= numeral(value as nat, 8).len(),
    ensures
        r == numeral(value as nat, 8).len(),
        final(buf)@ == numeral(value as nat, 8) + old(buf)@.skip(r as int),
{
    let ghost whole = numeral(value as nat, 8);
    proof {
        lemma_octal_len(value);
    }
    if value == 0 {
        buf[0] = 48;
        assert(buf@ =~= whole + old(buf)@.skip(1));
        return 1;
    }
    let mut value: u32 = value;
    let mut tmp: [u8; 16] = [0u8; 16];
    let mut len: usize = 0;
    assert(whole =~= whole + tmp@.take(0).reverse());
    while value != 0
        invariant
            len <= 16,
            whole.len() <= 11,
            value != 0 ==> whole == numeral(value as nat, 8) + tmp@.take(len as int).reverse(),
            value != 0 ==> len < whole.len(),
            value == 0 ==> whole == tmp@.take(len as int).reverse(),
        decreases value,
    {
        let ghost v = value as nat;
        let ghost before = tmp@;
        proof {
            law_numeral_digits(v, 8);
        }
        assert(value & 7 == value % 8 && value >> 3 == value / 8) by (bit_vector);
        tmp[len] = 48 + (value & 7) as u8;
        value = value >> 3;
        proof {
            lemma_take_digit(whole, v, 8, before, len as int, tmp@);
        }
        len += 1;
        proof {
            law_numeral_digits(value as nat, 8);
        }
    }
    reverse_into(&tmp, len, buf);
    len
}

/// Writes the first `len` bytes of `tmp`, last first, at the start of `buf`.
fn reverse_into<const N: usize>(tmp: &[u8; N], len: usize, buf: &mut [u8])
    requires
        len <= N,
        len <= old(buf)@.len(),
    ensures
        final(buf)@ == tmp@.take(len as int).reverse() + old(buf)@.skip(len as int),
{
    let mut idx: usize = 0;
    while idx < len
        invariant
            idx <= len,
            len <= N,
            len <= buf@.len(),
            buf@.len() == old(buf)@.len(),
            forall|j: int| 0 <= j < idx ==> buf@[j] == tmp@[len - 1 - j],
            forall|j: int| idx <= j < buf@.len() ==> buf@[j] == old(buf)@[j],
        decreases len - idx,
    {
        buf[idx] = tmp[len - 1 - idx];
        idx += 1;
    }
    assert(buf@ =~= tmp@.take(len as int).reverse() + old(buf)@.skip(len as int));
}

/// Copies `src` into `buf`, from place `at` on.
pub fn copy_at(buf: &mut [u8], at: usize, src: &[u8])
    requires
        at + src@.len() <= old(buf)@.len(),
    ensures
        final(buf)@ == old(buf)@.take(at as int) + src@ + old(buf)@.skip(at + src@.len()),
{
    let total: usize = buf.len();
    let mut i: usize = 0;
    while i < src.len()
        invariant
            i <= src@.len(),
            at + src@.len() <= total,
            buf@.len() == total,
            buf@.len() == old(buf)@.len(),
            forall|j: int| 0 <= j < i ==> #[trigger] buf@[at + j] == src@[j],
            forall|j: int| 0 <= j < at ==> buf@[j] == old(buf)@[j],
            forall|j: int| at + i <= j < buf@.len() ==> buf@[j] == old(buf)@[j],
        decreases src@.len() - i,
    {
        buf[at + i] = src[i];
        i += 1;
    }
    proof {
        let want = old(buf)@.take(at as int) + src@ + old(buf)@.skip(at + src@.len());
        assert forall|j: int| 0 <= j < buf@.len() implies buf@[j] == want[j] by {
            if at <= j < at + src@.len() {
                assert(buf@[at + (j - at)] == src@[j - at]);
            }
        }
        assert(buf@ =~= want);
    }
}

/// The decimal digit of `d`.
pub open spec fn digit(d: nat) -> char {
    (48 + d) as char
}

/// The decimal text of `n`.
pub open spec fn decimal(n: nat) -> Seq<char>
    decreases n,
{
    if n < 10 {
        seq![digit(n)]
    } else {
        decimal(n / 10).push(digit(n % 10))
    }
}

/// The decimal text of `n`, with a sign if it is negative.
pub open spec fn signed_decimal(n: int) -> Seq<char> {
    if n < 0 {
        "-"@ + decimal((-n) as nat)
    } else {
        decimal(n as nat)
    }
}

/// The decimal text of `n` has the same digits as its numeral.
pub proof fn law_decimal_is_numeral(n: nat)
    ensures
        decimal(n).len() == numeral(n, 10).len(),
        forall|i: int| 0 <= i < decimal(n).len() ==> #[trigger] decimal(n)[i] as u8 == numeral(
            n,
            10,
        )[i],
    decreases n,
{
    if n >= 10 {
        law_decimal_is_numeral(n / 10);
    }
}

fn digit_text(d: u64) -> (r: &'static str)
    requires
        d < 10,
    ensures
        r@ == seq![digit(d as nat)],
{
    proof {
        reveal_strlit("0");
        reveal_strlit("1");
        reveal_strlit("2");
        reveal_strlit("3");
        reveal_strlit("4");
        reveal_strlit("5");
        reveal_strlit("6");
        reveal_strlit("7");
        reveal_strlit("8");
        reveal_strlit("9");
    }
    let r: &'static str = match d {
        0 => "0",
        1 => "1",
        2 => "2",
        3 => "3",
        4 => "4",
        5 => "5",
        6 => "6",
        7 => "7",
        8 => "8",
        _ => "9",
    };
    assert(r@ =~= seq![digit(d as nat)]);
    r
}

/// Adds the decimal text of `n` to `out`.
pub fn append_decimal(out: &mut String, n: u64)
    ensures
        final(out)@ == old(out)@ + decimal(n as nat),
    decreases n,
{
    let ghost before = out@;
    if n >= 10 {
        append_decimal(out, n / 10);
    }
    out.append(digit_text(n % 10));
    assert(out@ =~= before + decimal(n as nat));
}

/// Adds the decimal text of `n` to `out`, with a sign if it is negative.
pub fn append_signed(out: &mut String, n: i32)
    ensures
        final(out)@ == old(out)@ + signed_decimal(n as int),
{
    let ghost before = out@;
    if n < 0 {
        out.append("-");
        append_decimal(out, (-(n as i64)) as u64);
        assert(out@ =~= before + signed_decimal(n as int));
    } else {
        append_decimal(out, n as u64);
    }
}

/// A numeral does not begin with a zero, unless zero is the number.
pub proof fn law_no_leading_zero(n: nat, base: nat)
    requires
        2 <= base <= 10,
    ensures
        n > 0 ==> numeral(n, base)[0] != 48,
        n == 0 ==> numeral(n, base) == seq![48u8],
    decreases n,
{
    if n >= base {
        lemma_quotient_is_smaller(n, base);
        law_no_leading_zero(n / base, base);
        law_numeral_digits(n / base, base);
        assert(numeral(n, base)[0] == numeral(n / base, base)[0]);
    }
}

/// A negative number is written with a sign before the digits of its opposite, and
/// any other without.
pub proof fn law_sign(n: nat)
    ensures
        signed_decimal(n as int) == decimal(n),
        n > 0 ==> signed_decimal(-n) == seq!['-'] + decimal(n),
{
    reveal_strlit("-");
    assert("-"@ =~= seq!['-']);
}

} // verus!
