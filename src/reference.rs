//! Payment reference numbers: a base number followed by a mod-10 check digit
//! computed with the repeating weights 7, 3, 1 from the rightmost digit.
use vstd::arithmetic::div_mod::lemma_add_mod_noop;
use vstd::prelude::*;

verus! {

/// The value of a decimal digit; any other character counts as zero.
pub open spec fn digit_value(c: char) -> nat {
    if '0' <= c && c <= '9' {
        (c as nat - '0' as nat) as nat
    } else {
        0
    }
}

/// The weight of the digit at position `i`, counted from the right from zero.
pub open spec fn weight(i: int) -> nat {
    if i % 3 == 0 {
        7
    } else if i % 3 == 1 {
        3
    } else {
        1
    }
}

/// The weighted sum of the first `k` characters of `s`, each weighted by its
/// position from the right end of the whole of `s`.
pub open spec fn weighted_prefix(s: Seq<char>, k: int) -> nat
    decreases k,
{
    if k <= 0 {
        0
    } else {
        weighted_prefix(s, k - 1) + digit_value(s[k - 1]) * weight(s.len() - k)
    }
}

/// The weighted digit sum of `s`.
pub open spec fn weighted_sum(s: Seq<char>) -> nat {
    weighted_prefix(s, s.len() as int)
}

/// The check digit of `s`: zero when the weighted sum is a multiple of ten,
/// otherwise what is missing to the next multiple of ten.
pub open spec fn check_digit(s: Seq<char>) -> nat {
    if weighted_sum(s) % 10 == 0 {
        0
    } else {
        (10 - weighted_sum(s) % 10) as nat
    }
}

/// The character of a decimal digit.
pub open spec fn digit_char(d: nat) -> char
    recommends
        d < 10,
{
    (('0' as nat) + d) as char
}

/// `base` followed by its check digit.
pub open spec fn with_check_digit(base: Seq<char>) -> Seq<char> {
    base.push(digit_char(check_digit(base)))
}

/// The decimal digit `d` as a one-character string.
fn digit_text(d: u8) -> (r: &'static str)
    requires
        d < 10,
    ensures
        r@ == seq![digit_char(d as nat)],
{
    proof {
        reveal_strlit("0");
        reveal_strlit("1");
        reveal_strlit("2");
        reveal_strlit("3");
        reveal_strlit("4");
        reveal_strlit("5");
        reveal_strlit("6");
        reveal_strlit("7");
        reveal_strlit("8");
        reveal_strlit("9");
    }
    let r = match d {
        0 => "0",
        1 => "1",
        2 => "2",
        3 => "3",
        4 => "4",
        5 => "5",
        6 => "6",
        7 => "7",
        8 => "8",
        _ => "9",
    };
    assert(r@ =~= seq![digit_char(d as nat)]);
    r
}

/// Computes the check digit of `number` with the weights 7, 3, 1 repeating
/// from the rightmost digit; a character that is not a decimal digit counts
/// as zero.
pub fn calculate_check_digit(number: &str) -> (r: u8)
    ensures
        r as nat == check_digit(number@),
        r < 10,
{
    let n = number.unicode_len();
    let mut i: usize = 0;
    let mut acc: u8 = 0;
    while i < n
        invariant
            n == number@.len(),
            i <= n,
            acc < 10,
            acc as nat == weighted_prefix(number@, i as int) % 10,
        decreases n - i,
    {
        let c = number.get_char(i);
        let d: u8 = if '0' <= c && c <= '9' {
            (c as u32 - '0' as u32) as u8
        } else {
            0
        };
        let pos: usize = n - 1 - i;
        let w: u8 = if pos % 3 == 0 {
            7
        } else if pos % 3 == 1 {
            3
        } else {
            1
        };
        assert(d <= 9 && w <= 7);
        assert(d * w <= 63) by (nonlinear_arith)
            requires
                d <= 9,
                w <= 7,
        ;
        let prod: u8 = d * w;
        proof {
            assert(d as nat == digit_value(c));
            assert(w as nat == weight(number@.len() - (i + 1)));
            assert(weighted_prefix(number@, i + 1) == weighted_prefix(number@, i as int) + prod);
            lemma_add_mod_noop(weighted_prefix(number@, i as int) as int, prod as int, 10);
            assert((prod as int) % 10 == prod % 10);
        }
        acc = (acc + prod % 10) % 10;
        i = i + 1;
    }
    if acc == 0 {
        0
    } else {
        10 - acc
    }
}

/// Turns a base number into a payment reference by appending its check digit.
pub fn generate_reference_number(base: &str) -> (r: String)
    ensures
        r@ == with_check_digit(base@),
{
    let d = calculate_check_digit(base);
    let mut r = String::from_str(base);
    r.append(digit_text(d));
    r
}

/// The decimal digits of `n`, without leading zeros.
pub open spec fn decimal(n: nat) -> Seq<char>
    decreases n,
{
    if n < 10 {
        seq![digit_char(n)]
    } else {
        decimal(n / 10).push(digit_char(n % 10))
    }
}

/// `k` zero digits.
pub open spec fn zeros(k: int) -> Seq<char> {
    Seq::new(if k < 0 { 0 } else { k as nat }, |i: int| '0')
}

/// The digits `s`, preceded by as many zeros as make it `w` characters long.
pub open spec fn zero_padded(s: Seq<char>, w: int) -> Seq<char> {
    zeros(w - s.len()) + s
}

/// `n` in decimal, with a minus sign when negative, zero-padded to at least
/// `w` characters with the sign counted in the width.
pub open spec fn int_text(n: int, w: int) -> Seq<char> {
    if n < 0 {
        seq!['-'] + zero_padded(decimal((-n) as nat), w - 1)
    } else {
        zero_padded(decimal(n as nat), w)
    }
}

/// The decimal digits of `n`.
pub fn decimal_text(n: u64) -> (r: String)
    ensures
        r@ == decimal(n as nat),
    decreases n,
{
    if n < 10 {
        String::from_str(digit_text(n as u8))
    } else {
        let mut s = decimal_text(n / 10);
        s.append(digit_text((n % 10) as u8));
        s
    }
}

/// `s` preceded by as many zeros as make it at least `w` characters long.
fn zero_pad(s: String, w: usize) -> (r: String)
    ensures
        r@ == zero_padded(s@, w as int),
{
    let n = s.as_str().unicode_len();
    let mut r = String::new();
    let mut k: usize = n;
    while k < w
        invariant
            n == s@.len(),
            n <= k,
            k == n || k <= w,
            r@ == zeros(k - n),
        decreases w - k,
    {
        proof {
            reveal_strlit("0");
        }
        r.append("0");
        assert(r@ =~= zeros(k + 1 - n));
        k = k + 1;
    }
    assert(r@ =~= zeros(w - n)) by {
        if n < w {
            assert(k == w);
        }
    }
    r.append(s.as_str());
    r
}

/// `n` in decimal, zero-padded to at least `w` characters; a negative number
/// has its minus sign in front of the zeros and counted in the width.
pub fn int_to_text(n: i64, w: usize) -> (r: String)
    requires
        w >= 1,
    ensures
        r@ == int_text(n as int, w as int),
{
    if n < 0 {
        let magnitude: u64 = (-(n as i128)) as u64;
        let digits = zero_pad(decimal_text(magnitude), w - 1);
        let mut r = String::from_str("-");
        r.append(digits.as_str());
        proof {
            reveal_strlit("-");
        }
        assert(r@ =~= int_text(n as int, w as int));
        r
    } else {
        zero_pad(decimal_text(n as u64), w)
    }
}

/// The base of a household's payment reference for a year: the year followed
/// by the household id zero-padded to five digits.
pub open spec fn reference_base(year: int, household_id: int) -> Seq<char> {
    int_text(year, 1) + int_text(household_id, 5)
}

/// The payment reference of a household's invoice for a year.
pub open spec fn household_reference(year: int, household_id: int) -> Seq<char> {
    with_check_digit(reference_base(year, household_id))
}

/// The invoice number of a household's invoice for a year: the year, a dash
/// and the household id zero-padded to three digits.
pub open spec fn household_invoice_number(year: int, household_id: int) -> Seq<char> {
    int_text(year, 1) + seq!['-'] + int_text(household_id, 3)
}

/// The payment reference of a household's invoice for `year`.
pub fn reference_for_household(year: i32, household_id: i64) -> (r: String)
    ensures
        r@ == household_reference(year as int, household_id as int),
{
    let mut base = int_to_text(year as i64, 1);
    let id = int_to_text(household_id, 5);
    base.append(id.as_str());
    generate_reference_number(base.as_str())
}

/// The invoice number of a household's invoice for `year`.
pub fn invoice_number_for_household(year: i32, household_id: i64) -> (r: String)
    ensures
        r@ == household_invoice_number(year as int, household_id as int),
{
    let mut r = int_to_text(year as i64, 1);
    proof {
        reveal_strlit("-");
    }
    r.append("-");
    let id = int_to_text(household_id, 3);
    r.append(id.as_str());
    r
}

} // verus!
