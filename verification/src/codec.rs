//! Checksummed account-number codec.
//!
//! An account number is 18 characters: the region tag `NL`, a two-digit
//! check number, the product tag `OPEN`, and a ten-character decimal
//! digit block (generation fixes the first of those digits to `0` and
//! draws the other nine at random). The check number is `98 - (n % 97)`
//! where `n` is the decimal integer formed by a fixed numeric prefix,
//! the ten digits, and a fixed numeric suffix.

use vstd::prelude::*;
use vstd::arithmetic::div_mod::{
    lemma_add_mod_noop, lemma_mod_equivalence, lemma_mul_mod_noop_general, lemma_small_mod,
};
use vstd::arithmetic::mul::lemma_mul_is_associative;
use rand::Rng;

verus! {

/// Whether `c` is a decimal digit.
pub open spec fn is_digit(c: char) -> bool {
    48 <= c as int && c as int <= 57
}

/// Numeric value of a digit character.
pub open spec fn digit_val(c: char) -> int {
    c as int - 48
}

/// Whether every character of `s` is a decimal digit.
pub open spec fn all_digits(s: Seq<char>) -> bool {
    forall|i: int| 0 <= i < s.len() ==> is_digit(s[i])
}

/// Numeric value of a digit string, most significant digit first.
pub open spec fn digits_val(s: Seq<char>) -> int
    decreases s.len(),
{
    if s.len() == 0 {
        0
    } else {
        digits_val(s.drop_last()) * 10 + digit_val(s.last())
    }
}

/// Ten to the power `n`.
pub open spec fn pow10(n: nat) -> int
    decreases n,
{
    if n == 0 {
        1
    } else {
        10 * pow10((n - 1) as nat)
    }
}

/// The decimal integer checked against 97: fixed prefix, the value of
/// the ten-digit block, fixed suffix.
pub open spec fn spec_check_input(d: int) -> int {
    242514230000000000000000 + d * 1000000 + 232100
}

/// The two-digit check number over a ten-character digit block.
pub open spec fn spec_check_nr(digits: Seq<char>) -> int {
    98 - spec_check_input(digits_val(digits)) % 97
}

/// A well-formed account number: `NL`, two check digits that match the
/// check number recomputed over the trailing ten digits, `OPEN`, and
/// the ten-digit block itself.
pub open spec fn spec_valid_account(s: Seq<char>) -> bool {
    &&& s.len() == 18
    &&& s[0] == 'N'
    &&& s[1] == 'L'
    &&& is_digit(s[2])
    &&& is_digit(s[3])
    &&& s[4] == 'O'
    &&& s[5] == 'P'
    &&& s[6] == 'E'
    &&& s[7] == 'N'
    &&& all_digits(s.subrange(8, 18))
    &&& digit_val(s[2]) * 10 + digit_val(s[3]) == spec_check_nr(s.subrange(8, 18))
}

/// A string accepted as the `from` side of a transfer: the `cash`
/// sentinel that stands for an external counterparty, or a well-formed
/// account number.
pub open spec fn spec_valid_from(s: Seq<char>) -> bool {
    s == "cash"@ || spec_valid_account(s)
}

proof fn lemma_digits_val_bounds(s: Seq<char>)
    requires
        all_digits(s),
    ensures
        0 <= digits_val(s) < pow10(s.len()),
    decreases s.len(),
{
    if s.len() > 0 {
        lemma_digits_val_bounds(s.drop_last());
    }
}

proof fn lemma_pow10_ten()
    ensures
        pow10(10) == 10000000000,
{
    reveal_with_fuel(pow10, 11);
}

proof fn lemma_pow10_increases(a: nat, b: nat)
    requires
        a <= b,
    ensures
        1 <= pow10(a) <= pow10(b),
    decreases b,
{
    if a < b {
        lemma_pow10_increases(a, (b - 1) as nat);
    } else if a > 0 {
        lemma_pow10_increases((a - 1) as nat, (b - 1) as nat);
    }
}

/// Whether `c` is a decimal digit.
fn is_digit_exec(c: char) -> (r: bool)
    ensures
        r == is_digit(c),
{
    let v = c as u32;
    48 <= v && v <= 57
}

/// One digit as a one-character string.
fn digit_to_str(d: u8) -> (r: &'static str)
    requires
        d < 10,
    ensures
        r@.len() == 1,
        is_digit(r@[0]),
        digit_val(r@[0]) == d as int,
{
    proof {
        reveal_strlit("0");
        reveal_strlit("1");
        reveal_strlit("2");
        reveal_strlit("3");
        reveal_strlit("4");
        reveal_strlit("5");
        reveal_strlit("6");
        reveal_strlit("7");
        reveal_strlit("8");
        reveal_strlit("9");
    }
    match d {
        0 => "0",
        1 => "1",
        2 => "2",
        3 => "3",
        4 => "4",
        5 => "5",
        6 => "6",
        7 => "7",
        8 => "8",
        _ => "9",
    }
}

/// Numeric value of a ten-character digit block.
fn digits_value(digits: &str) -> (v: u64)
    requires
        digits@.len() == 10,
        all_digits(digits@),
    ensures
        v as int == digits_val(digits@),
{
    let mut v: u64 = 0;
    let mut i: usize = 0;
    while i < 10
        invariant
            0 <= i <= 10,
            digits@.len() == 10,
            all_digits(digits@),
            v as int == digits_val(digits@.subrange(0, i as int)),
            (v as int) < pow10(i as nat),
        decreases 10 - i,
    {
        let c = digits.get_char(i);
        assert(is_digit(digits@[i as int]));
        let d: u32 = (c as u32) - 48;
        proof {
            let pre = digits@.subrange(0, i as int);
            let post = digits@.subrange(0, i as int + 1);
            assert(post.drop_last() =~= pre);
            assert(post.last() == digits@[i as int]);
            lemma_digits_val_bounds(post);
            lemma_pow10_ten();
            lemma_pow10_increases(i as nat + 1, 10);
        }
        v = v * 10 + (d as u64);
        i = i + 1;
    }
    assert(digits@.subrange(0, 10) =~= digits@);
    v
}

/// The check number over a ten-character digit block, as a number.
fn check_nr_value(digits: &str) -> (c: u8)
    requires
        digits@.len() == 10,
        all_digits(digits@),
    ensures
        c as int == spec_check_nr(digits@),
        2 <= c <= 98,
{
    let v = digits_value(digits);
    proof {
        lemma_digits_val_bounds(digits@);
        lemma_pow10_ten();
    }
    let n: u128 = 242514230000000000000000u128 + (v as u128) * 1000000 + 232100;
    let check: u128 = 98 - n % 97;
    check as u8
}

/// The check number over a ten-character digit block, left padded to
/// two digits.
pub fn get_check_nr(digits: &str) -> (r: String)
    requires
        digits@.len() == 10,
        all_digits(digits@),
    ensures
        r@.len() == 2,
        is_digit(r@[0]),
        is_digit(r@[1]),
        digit_val(r@[0]) * 10 + digit_val(r@[1]) == spec_check_nr(digits@),
{
    let c = check_nr_value(digits);
    let tens: u8 = c / 10;
    let ones: u8 = c % 10;
    let ts = digit_to_str(tens);
    let os = digit_to_str(ones);
    let mut r = String::from_str(ts);
    r.append(os);
    assert(r@ =~= ts@ + os@);
    r
}

/// An account number built over a ten-character digit block: `NL`, the
/// check number, `OPEN`, the block.
pub fn open_account(digits: &str) -> (r: String)
    requires
        digits@.len() == 10,
        all_digits(digits@),
    ensures
        spec_valid_account(r@),
        r@.subrange(8, 18) == digits@,
{
    let check = get_check_nr(digits);
    let mut r = String::from_str("NL");
    r.append(check.as_str());
    r.append("OPEN");
    r.append(digits);
    proof {
        reveal_strlit("NL");
        reveal_strlit("OPEN");
        assert(r@ =~= "NL"@ + check@ + "OPEN"@ + digits@);
        assert(r@.subrange(8, 18) =~= digits@);
    }
    r
}

/// Whether `account` is a well-formed account number.
pub fn valid_open_account(account: String) -> (r: bool)
    ensures
        r == spec_valid_account(account@),
{
    let s: &str = account.as_str();
    if s.unicode_len() != 18 {
        return false;
    }
    if s.get_char(0) != 'N' || s.get_char(1) != 'L' {
        return false;
    }
    if s.get_char(4) != 'O' || s.get_char(5) != 'P' || s.get_char(6) != 'E' || s.get_char(7)
        != 'N' {
        return false;
    }
    let c2 = s.get_char(2);
    let c3 = s.get_char(3);
    if !is_digit_exec(c2) || !is_digit_exec(c3) {
        return false;
    }
    let mut i: usize = 8;
    while i < 18
        invariant
            8 <= i <= 18,
            s@ == account@,
            s@.len() == 18,
            forall|j: int| 8 <= j < i ==> is_digit(s@[j]),
        decreases 18 - i,
    {
        if !is_digit_exec(s.get_char(i)) {
            assert(!all_digits(account@.subrange(8, 18))) by {
                assert(account@.subrange(8, 18)[i - 8] == account@[i as int]);
            }
            return false;
        }
        i = i + 1;
    }
    let block: &str = s.substring_char(8, 18);
    assert(all_digits(block@)) by {
        assert(forall|j: int| 0 <= j < 10 ==> block@[j] == account@[j + 8]);
    }
    let c = check_nr_value(block);
    let embedded: u32 = ((c2 as u32) - 48) * 10 + ((c3 as u32) - 48);
    embedded == (c as u32)
}

/// Whether `from` is refused as the paying side of a transfer: the
/// `cash` sentinel is always accepted, anything else must be a
/// well-formed account number.
pub fn invalid_from(from: String) -> (r: bool)
    ensures
        r == !spec_valid_from(from@),
{
    let cash = String::from_str("cash");
    if from == cash {
        false
    } else {
        !valid_open_account(from)
    }
}

/// Relies on rand's `thread_rng` and `Rng::gen_range`: a value drawn
/// from the half-open range handed to it, so strictly below ten.
#[verifier::external_body]
fn random_digit() -> (d: u8)
    ensures
        d < 10,
{
    rand::thread_rng().gen_range(0u8..10u8)
}

/// Relies on uuid's `Uuid::new_v4` and its display form: a fresh v4
/// identifier rendered in the 36-character hyphenated format.
#[verifier::external_body]
pub fn get_id() -> (r: String)
    ensures
        r@.len() == 36,
{
    uuid::Uuid::new_v4().to_string()
}

/// A fresh account number: the first digit of the block is fixed to
/// zero, the other nine are drawn at random.
pub fn new_account() -> (r: String)
    ensures
        spec_valid_account(r@),
        r@[8] == '0',
{
    let mut ds = String::from_str("0");
    proof {
        reveal_strlit("0");
    }
    let mut i: usize = 0;
    while i < 9
        invariant
            0 <= i <= 9,
            ds@.len() == 1 + i,
            ds@[0] == '0',
            all_digits(ds@),
        decreases 9 - i,
    {
        let d = random_digit();
        let dstr = digit_to_str(d);
        let ghost pre = ds@;
        ds.append(dstr);
        assert(all_digits(ds@)) by {
            assert(forall|j: int| 0 <= j < pre.len() ==> ds@[j] == pre[j]);
            assert(ds@[pre.len() as int] == dstr@[0]);
        }
        i = i + 1;
    }
    let r = open_account(ds.as_str());
    assert(r@[8] == r@.subrange(8, 18)[0]);
    r
}

/// Sixty-eight to the power `n`; 68 inverts 10 modulo 97, which is what
/// makes the check number sensitive to every digit.
spec fn pow68(n: nat) -> int
    decreases n,
{
    if n == 0 {
        1
    } else {
        68 * pow68((n - 1) as nat)
    }
}

proof fn lemma_pow10_adds(a: nat, b: nat)
    ensures
        pow10(a + b) == pow10(a) * pow10(b),
    decreases a,
{
    if a == 0 {
    } else {
        lemma_pow10_adds((a - 1) as nat, b);
        lemma_mul_is_associative(10, pow10((a - 1) as nat), pow10(b));
    }
}

proof fn lemma_pow10_inverse(n: nat)
    ensures
        (pow10(n) * pow68(n)) % 97 == 1,
    decreases n,
{
    if n == 0 {
        lemma_small_mod(1, 97);
    } else {
        let a = pow10((n - 1) as nat);
        let b = pow68((n - 1) as nat);
        lemma_pow10_inverse((n - 1) as nat);
        assert((10 * a) * (68 * b) == 680 * (a * b)) by (nonlinear_arith);
        lemma_mul_mod_noop_general(680, a * b, 97);
        lemma_small_mod(1, 97);
    }
}

proof fn lemma_pos_delta_pow10_mod(delta: int, n: nat)
    requires
        0 < delta < 97,
    ensures
        (delta * pow10(n)) % 97 != 0,
{
    if (delta * pow10(n)) % 97 == 0 {
        let x = delta * pow10(n);
        lemma_mul_is_associative(delta, pow10(n), pow68(n));
        lemma_mul_mod_noop_general(x, pow68(n), 97);
        assert((x * pow68(n)) % 97 == 0) by {
            lemma_small_mod(0, 97);
        }
        lemma_mul_mod_noop_general(delta, pow10(n) * pow68(n), 97);
        lemma_pow10_inverse(n);
        lemma_small_mod(delta as nat, 97);
        assert(delta % 97 == 0);
    }
}

proof fn lemma_delta_pow10_mod(delta: int, n: nat)
    requires
        -97 < delta < 97,
        delta != 0,
    ensures
        (delta * pow10(n)) % 97 != 0,
{
    if delta > 0 {
        lemma_pos_delta_pow10_mod(delta, n);
    } else {
        lemma_pos_delta_pow10_mod(-delta, n);
        let x = (-delta) * pow10(n);
        if (delta * pow10(n)) % 97 == 0 {
            assert(delta * pow10(n) == -((-delta) * pow10(n))) by (nonlinear_arith);
            lemma_add_mod_noop(x, -x, 97);
            lemma_small_mod(0, 97);
            lemma_small_mod((x % 97) as nat, 97);
            assert(x % 97 == 0);
        }
    }
}

proof fn lemma_digits_val_diff(a: Seq<char>, b: Seq<char>, j: int)
    requires
        a.len() == b.len(),
        0 <= j < a.len(),
        forall|i: int| 0 <= i < a.len() && i != j ==> a[i] == b[i],
    ensures
        digits_val(a) - digits_val(b) == (digit_val(a[j]) - digit_val(b[j])) * pow10(
            (a.len() - 1 - j) as nat,
        ),
    decreases a.len(),
{
    let delta = digit_val(a[j]) - digit_val(b[j]);
    if j == a.len() - 1 {
        assert(a.drop_last() =~= b.drop_last());
    } else {
        assert(a.last() == b.last());
        lemma_digits_val_diff(a.drop_last(), b.drop_last(), j);
        let p = pow10((a.len() - 2 - j) as nat);
        assert((delta * p) * 10 == delta * (p * 10)) by {
            lemma_mul_is_associative(delta, p, 10);
        }
    }
}

/// Mutating any single character of the trailing ten-digit block of a
/// well-formed account number always breaks validity: the difference
/// the mutation makes to the checked integer is a nonzero digit delta
/// times a power of ten, and no such number is divisible by 97, so the
/// recomputed check number moves away from the embedded one.
pub proof fn lemma_single_digit_mutation(s1: Seq<char>, s2: Seq<char>, p: int)
    requires
        spec_valid_account(s1),
        s2.len() == 18,
        8 <= p < 18,
        forall|i: int| 0 <= i < 18 && i != p ==> s2[i] == s1[i],
        is_digit(s2[p]),
        s2[p] != s1[p],
    ensures
        !spec_valid_account(s2),
{
    if spec_valid_account(s2) {
        let d1 = s1.subrange(8, 18);
        let d2 = s2.subrange(8, 18);
        let j = p - 8;
        assert(d1[j] == s1[p] && d2[j] == s2[p]);
        assert(forall|i: int| 0 <= i < 10 && i != j ==> d1[i] == d2[i]);
        let v1 = digits_val(d1);
        let v2 = digits_val(d2);
        lemma_digits_val_diff(d1, d2, j);
        let delta = digit_val(d1[j]) - digit_val(d2[j]);
        assert(delta != 0);
        assert(-10 < delta < 10);
        let n1 = spec_check_input(v1);
        let n2 = spec_check_input(v2);
        assert(s2[2] == s1[2] && s2[3] == s1[3]);
        assert(spec_check_nr(d1) == spec_check_nr(d2));
        assert(n1 % 97 == n2 % 97);
        lemma_mod_equivalence(n1, n2, 97);
        assert(n1 - n2 == (v1 - v2) * 1000000);
        assert((delta * pow10((9 - j) as nat)) * 1000000 == delta * (pow10((9 - j) as nat)
            * pow10(6))) by {
            assert(pow10(6) == 1000000) by {
                reveal_with_fuel(pow10, 7);
            }
            lemma_mul_is_associative(delta, pow10((9 - j) as nat), 1000000);
        }
        lemma_pow10_adds((9 - j) as nat, 6);
        assert(n1 - n2 == delta * pow10((15 - j) as nat));
        lemma_delta_pow10_mod(delta, (15 - j) as nat);
    }
}

} // verus!
