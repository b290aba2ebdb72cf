//! Verified decimal numerals: parsing header directive values as `i64`, and
//! the decimal text of an `i64` for use in finding messages.

use vstd::prelude::*;

verus! {

/// `c` is an ASCII decimal digit.
pub open spec fn is_digit(c: char) -> bool {
    48 <= c as u32 && c as u32 <= 57
}

/// Numeric value of the digit `c`.
pub open spec fn digit_val(c: char) -> int {
    c as u32 - 48
}

/// Every character of `s` is a decimal digit.
pub open spec fn all_digits(s: Seq<char>) -> bool {
    forall|j: int| 0 <= j < s.len() ==> is_digit(s[j])
}

/// Value of a digit string read in base ten.
pub open spec fn digits_val(s: Seq<char>) -> int
    decreases s.len(),
{
    if s.len() == 0 {
        0
    } else {
        digits_val(s.drop_last()) * 10 + digit_val(s.last())
    }
}

/// `s` is a decimal numeral: an optional sign followed by one or more
/// digits. This is the grammar `i64` parsing accepts, ranges aside.
pub open spec fn numeral_ok(s: Seq<char>) -> bool {
    if s.len() == 0 {
        false
    } else if s[0] == '+' || s[0] == '-' {
        s.len() > 1 && all_digits(s.drop_first())
    } else {
        all_digits(s)
    }
}

/// Signed value of a decimal numeral (meaningful when [`numeral_ok`]).
pub open spec fn numeral_val(s: Seq<char>) -> int {
    if s.len() > 0 && s[0] == '-' {
        -digits_val(s.drop_first())
    } else if s.len() > 0 && s[0] == '+' {
        digits_val(s.drop_first())
    } else {
        digits_val(s)
    }
}

/// Ten to the power `n`.
pub open spec fn pow10(n: nat) -> int
    decreases n,
{
    if n == 0 {
        1
    } else {
        10 * pow10((n - 1) as nat)
    }
}

proof fn lemma_pow10_pos(n: nat)
    ensures
        pow10(n) >= 1,
    decreases n,
{
    if n > 0 {
        lemma_pow10_pos((n - 1) as nat);
    }
}

proof fn lemma_pow10_mono(a: nat, b: nat)
    requires
        a <= b,
    ensures
        pow10(a) <= pow10(b),
    decreases b,
{
    if a < b {
        lemma_pow10_mono(a, (b - 1) as nat);
        lemma_pow10_pos((b - 1) as nat);
    }
}

proof fn lemma_pow10_vals()
    ensures
        pow10(18) == 1000000000000000000,
        pow10(19) == 10000000000000000000,
{
    assert(pow10(0) == 1);
    assert(pow10(1) == 10);
    assert(pow10(2) == 100);
    assert(pow10(3) == 1000);
    assert(pow10(4) == 10000);
    assert(pow10(5) == 100000);
    assert(pow10(6) == 1000000);
    assert(pow10(7) == 10000000);
    assert(pow10(8) == 100000000);
    assert(pow10(9) == 1000000000);
    assert(pow10(10) == 10000000000);
    assert(pow10(11) == 100000000000);
    assert(pow10(12) == 1000000000000);
    assert(pow10(13) == 10000000000000);
    assert(pow10(14) == 100000000000000);
    assert(pow10(15) == 1000000000000000);
    assert(pow10(16) == 10000000000000000);
    assert(pow10(17) == 100000000000000000);
    assert(pow10(18) == 1000000000000000000);
    assert(pow10(19) == 10000000000000000000);
}

proof fn lemma_digits_val_bounds(s: Seq<char>)
    requires
        all_digits(s),
    ensures
        0 <= digits_val(s) < pow10(s.len()),
    decreases s.len(),
{
    if s.len() > 0 {
        assert(all_digits(s.drop_last())) by {
            assert(forall|j: int| 0 <= j < s.len() - 1 ==> s.drop_last()[j] == s[j]);
        }
        lemma_digits_val_bounds(s.drop_last());
        assert(is_digit(s.last()));
    }
}

proof fn lemma_digits_val_lower(s: Seq<char>)
    requires
        all_digits(s),
        s.len() > 0,
        digit_val(s[0]) >= 1,
    ensures
        digits_val(s) >= pow10((s.len() - 1) as nat),
    decreases s.len(),
{
    assert(is_digit(s[0]));
    if s.len() == 1 {
        assert(digit_val(s[0]) >= 1);
    } else {
        assert(all_digits(s.drop_last())) by {
            assert(forall|j: int| 0 <= j < s.len() - 1 ==> s.drop_last()[j] == s[j]);
        }
        assert(s.drop_last()[0] == s[0]);
        lemma_digits_val_lower(s.drop_last());
        lemma_pow10_pos((s.len() - 2) as nat);
        assert(is_digit(s.last()));
        let p = pow10((s.len() - 2) as nat);
        assert(digits_val(s.drop_last()) >= p);
        assert(digits_val(s.drop_last()) * 10 >= p * 10) by (nonlinear_arith)
            requires
                digits_val(s.drop_last()) >= p,
        ;
        assert(pow10((s.len() - 1) as nat) == 10 * p);
        assert(digits_val(s) == digits_val(s.drop_last()) * 10 + digit_val(s.last()));
    }
}

proof fn lemma_zeros_val(s: Seq<char>)
    requires
        forall|j: int| 0 <= j < s.len() ==> digit_val(s[j]) == 0,
    ensures
        digits_val(s) == 0,
    decreases s.len(),
{
    if s.len() > 0 {
        assert(forall|j: int| 0 <= j < s.len() - 1 ==> s.drop_last()[j] == s[j]);
        lemma_zeros_val(s.drop_last());
        assert(digit_val(s.last()) == 0);
    }
}

proof fn lemma_zeros_prefix(s: Seq<char>, k: int)
    requires
        0 <= k <= s.len(),
        forall|j: int| 0 <= j < k ==> digit_val(s[j]) == 0,
    ensures
        digits_val(s) == digits_val(s.skip(k)),
    decreases s.len(),
{
    if k == 0 {
        assert(s.skip(0) =~= s);
    } else if s.len() == k {
        lemma_zeros_val(s);
        assert(s.skip(k) =~= Seq::<char>::empty());
    } else {
        assert(forall|j: int| 0 <= j < s.len() - 1 ==> s.drop_last()[j] == s[j]);
        lemma_zeros_prefix(s.drop_last(), k);
        assert(s.drop_last().skip(k) =~= s.skip(k).drop_last());
        assert(s.skip(k).last() == s.last());
        assert(s.skip(k).len() > 0);
    }
}

/// Parse `s` as a decimal `i64`, exactly as the standard numeral grammar
/// reads it: `Some` precisely when `s` is an optionally signed digit string
/// whose value fits in an `i64`.
#[verifier::rlimit(60)]
pub fn parse_i64(s: &str) -> (r: Option<i64>)
    ensures
        r is Some <==> numeral_ok(s@) && i64::MIN <= numeral_val(s@) <= i64::MAX,
        r is Some ==> r->0 as int == numeral_val(s@),
{
    proof {
        lemma_pow10_vals();
    }
    let n = s.unicode_len();
    if n == 0 {
        return None;
    }
    let c0 = s.get_char(0);
    let neg = c0 == '-';
    let start: usize = if c0 == '-' || c0 == '+' {
        1
    } else {
        0
    };
    if start == n {
        return None;
    }
    let mut i: usize = start;
    while i < n
        invariant
            start <= i <= n,
            start <= 1,
            n == s@.len(),
            start == 1 ==> (s@[0] == '+' || s@[0] == '-'),
            start == 0 ==> !(s@[0] == '+' || s@[0] == '-'),
            forall|j: int| start <= j < i ==> is_digit(s@[j]),
        decreases n - i,
    {
        let c = s.get_char(i);
        let v = c as u32;
        if !(48 <= v && v <= 57) {
            proof {
                assert(!is_digit(s@[i as int]));
                if start == 1 {
                    assert(s@.drop_first()[i - 1] == s@[i as int]);
                    assert(!is_digit(s@.drop_first()[i - 1]));
                    assert(!all_digits(s@.drop_first()));
                } else {
                    assert(!all_digits(s@));
                }
                assert(!numeral_ok(s@));
            }
            return None;
        }
        i = i + 1;
    }
    let ghost digits = s@.subrange(start as int, n as int);
    proof {
        assert(forall|j: int| 0 <= j < digits.len() ==> digits[j] == s@[start + j]);
        assert(all_digits(digits));
        if start == 1 {
            assert(digits =~= s@.drop_first());
        } else {
            assert(digits =~= s@);
        }
        assert(numeral_ok(s@));
    }
    let mut z: usize = start;
    while z < n && s.get_char(z) as u32 == 48
        invariant
            start <= z <= n,
            n == s@.len(),
            forall|j: int| start <= j < z ==> digit_val(s@[j]) == 0,
        decreases n - z,
    {
        z = z + 1;
    }
    let ghost sig = s@.subrange(z as int, n as int);
    proof {
        assert(forall|j: int| 0 <= j < sig.len() ==> sig[j] == s@[z + j]);
        assert(all_digits(sig));
        assert(digits.skip(z - start) =~= sig);
        lemma_zeros_prefix(digits, z - start);
        assert(digits_val(digits) == digits_val(sig));
        lemma_digits_val_bounds(sig);
    }
    let k = n - z;
    if k > 19 {
        proof {
            assert(z < n);
            assert(sig[0] == s@[z as int]);
            assert(is_digit(sig[0]));
            assert(digit_val(sig[0]) >= 1);
            lemma_digits_val_lower(sig);
            lemma_pow10_mono(19, (sig.len() - 1) as nat);
            assert(digits_val(sig) >= pow10(19));
        }
        return None;
    }
    let mut acc: u64 = 0;
    let mut p: usize = z;
    while p < n
        invariant
            z <= p <= n,
            n == s@.len(),
            n - z <= 19,
            sig == s@.subrange(z as int, n as int),
            all_digits(sig),
            forall|j: int| z <= j < n ==> is_digit(s@[j]),
            acc == digits_val(s@.subrange(z as int, p as int)),
            pow10(18) == 1000000000000000000,
            pow10(19) == 10000000000000000000,
        decreases n - p,
    {
        let ghost pre = s@.subrange(z as int, p as int);
        proof {
            assert(forall|j: int| 0 <= j < pre.len() ==> pre[j] == s@[z + j]);
            assert(all_digits(pre));
            lemma_digits_val_bounds(pre);
            lemma_pow10_mono(pre.len() as nat, 18);
            assert(acc < pow10(18));
        }
        let c = s.get_char(p);
        let d = ((c as u32) - 48) as u64;
        proof {
            assert(is_digit(s@[p as int]));
            assert(d <= 9);
        }
        acc = acc * 10 + d;
        proof {
            let pre1 = s@.subrange(z as int, p + 1);
            assert(pre1.drop_last() =~= pre);
            assert(pre1.last() == s@[p as int]);
        }
        p = p + 1;
    }
    proof {
        assert(acc == digits_val(sig));
        assert(digits_val(digits) == acc);
        if neg {
            assert(numeral_val(s@) == -(acc as int));
        } else {
            assert(numeral_val(s@) == acc as int);
        }
    }
    if neg {
        if acc <= 9223372036854775807u64 {
            Some(-(acc as i64))
        } else if acc == 9223372036854775808u64 {
            Some(i64::MIN)
        } else {
            None
        }
    } else {
        if acc <= 9223372036854775807u64 {
            Some(acc as i64)
        } else {
            None
        }
    }
}

/// The decimal digit character for value `d`.
pub open spec fn dec_digit(d: int) -> char {
    ((48 + d) as u32) as char
}

/// Decimal digits of the non-negative integer `n`, no leading zeros.
pub open spec fn dec_str_nat(n: int) -> Seq<char>
    recommends
        n >= 0,
    decreases n,
{
    if n < 10 {
        seq![dec_digit(n)]
    } else {
        dec_str_nat(n / 10).push(dec_digit(n % 10))
    }
}

/// Decimal text of the integer `n`: digits, with a leading `-` when
/// negative.
pub open spec fn dec_str(n: int) -> Seq<char> {
    if n < 0 {
        seq!['-'] + dec_str_nat(-n)
    } else {
        dec_str_nat(n)
    }
}

/// Relies on std's `Display` for `i64`: it writes the decimal digits of the
/// value with no leading zeros, preceded by `-` when the value is negative.
#[verifier::external_body]
pub fn i64_to_string(n: i64) -> (r: String)
    ensures
        r@ == dec_str(n as int),
{
    format!("{}", n)
}

} // verus!
