//! Numbers and text as they travel in message fields: ASCII bytes.

use vstd::prelude::*;

verus! {

pub open spec fn is_digit(b: u8) -> bool {
    48 <= b <= 57
}

pub open spec fn all_digits(s: Seq<u8>) -> bool {
    forall|i: int| 0 <= i < s.len() ==> is_digit(#[trigger] s[i])
}

/// The value of a run of decimal digits, most significant first.
pub open spec fn digits_value(s: Seq<u8>) -> int
    decreases s.len(),
{
    if s.len() == 0 {
        0
    } else {
        digits_value(s.drop_last()) * 10 + (s.last() - 48)
    }
}

/// An integer written as an optional `-` followed by one or more digits.
pub open spec fn int_of(s: Seq<u8>) -> Option<int> {
    if s.len() > 0 && s[0] == 45 {
        let d = s.subrange(1, s.len() as int);
        if d.len() > 0 && all_digits(d) {
            Some(-digits_value(d))
        } else {
            None
        }
    } else if s.len() > 0 && all_digits(s) {
        Some(digits_value(s))
    } else {
        None
    }
}

/// The integer of a field, where it fits in `i64`.
pub open spec fn i64_of(s: Seq<u8>) -> Option<i64> {
    match int_of(s) {
        Some(x) => if i64::MIN <= x <= i64::MAX {
            Some(x as i64)
        } else {
            None
        },
        None => None,
    }
}

/// A decimal number as carried on the wire: `units / 10^scale`, or the
/// explicit "unset" marker (an empty field), which is distinct from zero.
#[derive(Clone, Copy, Debug, PartialEq, Eq, Structural)]
pub enum Decimal {
    Unset,
    Value { units: i64, scale: usize },
}

pub open spec fn is_first_dot(s: Seq<u8>, k: int) -> bool {
    0 <= k < s.len() && s[k] == 46 && forall|j: int| 0 <= j < k ==> s[j] != 46
}

/// A decimal field: empty for unset; otherwise an integer, optionally followed
/// by `.` and one or more fraction digits, the whole fitting in `i64` units.
pub open spec fn decimal_of(s: Seq<u8>) -> Option<Decimal> {
    if s.len() == 0 {
        Some(Decimal::Unset)
    } else if exists|k: int| is_first_dot(s, k) {
        let k = choose|k: int| is_first_dot(s, k);
        let frac = s.subrange(k + 1, s.len() as int);
        if frac.len() > 0 && all_digits(frac) {
            match i64_of(s.subrange(0, k) + frac) {
                Some(u) => Some(Decimal::Value { units: u, scale: frac.len() as usize }),
                None => None,
            }
        } else {
            None
        }
    } else {
        match i64_of(s) {
            Some(u) => Some(Decimal::Value { units: u, scale: 0 }),
            None => None,
        }
    }
}

/// The shortest decimal digits of `n`.
pub open spec fn nat_text(n: nat) -> Seq<u8>
    decreases n,
{
    if n < 10 {
        seq![(48 + n) as u8]
    } else {
        nat_text(n / 10).push((48 + n % 10) as u8)
    }
}

/// How an integer field is written: `-` for negatives, then the digits.
pub open spec fn int_text(n: int) -> Seq<u8> {
    if n < 0 {
        seq![45u8] + nat_text((-n) as nat)
    } else {
        nat_text(n as nat)
    }
}

proof fn lemma_digits_value_prefix(s: Seq<u8>, k: int)
    requires
        all_digits(s),
        0 <= k <= s.len(),
    ensures
        digits_value(s.subrange(0, k)) <= digits_value(s),
    decreases s.len(),
{
    if k < s.len() {
        let t = s.drop_last();
        assert(all_digits(t)) by {
            assert forall|i: int| 0 <= i < t.len() implies is_digit(#[trigger] t[i]) by {
                assert(t[i] == s[i]);
            }
        }
        lemma_digits_value_prefix(t, k);
        assert(t.subrange(0, k) =~= s.subrange(0, k));
        assert(digits_value(s) == digits_value(t) * 10 + (s.last() - 48));
        assert(is_digit(s[s.len() - 1]));
        lemma_digits_value_nonneg(t);
    } else {
        assert(s.subrange(0, k) =~= s);
    }
}

proof fn lemma_digits_value_nonneg(s: Seq<u8>)
    requires
        all_digits(s),
    ensures
        digits_value(s) >= 0,
    decreases s.len(),
{
    if s.len() > 0 {
        let t = s.drop_last();
        assert forall|i: int| 0 <= i < t.len() implies is_digit(#[trigger] t[i]) by {
            assert(t[i] == s[i]);
        }
        lemma_digits_value_nonneg(t);
        assert(is_digit(s[s.len() - 1]));
    }
}

proof fn lemma_nat_text(n: nat)
    ensures
        nat_text(n).len() > 0,
        all_digits(nat_text(n)),
        digits_value(nat_text(n)) == n,
    decreases n,
{
    if n >= 10 {
        lemma_nat_text(n / 10);
        let s = nat_text(n);
        assert(s.drop_last() =~= nat_text(n / 10));
        assert forall|i: int| 0 <= i < s.len() implies is_digit(#[trigger] s[i]) by {
            if i < s.len() - 1 {
                assert(s[i] == nat_text(n / 10)[i]);
            }
        }
        assert(digits_value(s) == digits_value(nat_text(n / 10)) * 10 + (n % 10));
        assert(n == (n / 10) * 10 + n % 10);
    } else {
        let s = nat_text(n);
        assert(is_digit(s[0]));
        assert(s.drop_last() =~= Seq::<u8>::empty());
        assert(digits_value(s) == digits_value(s.drop_last()) * 10 + (s.last() - 48));
    }
}

/// Reading back what an integer field was written as gives the integer.
pub proof fn int_text_round_trip(n: int)
    ensures
        int_of(int_text(n)) == Some(n),
{
    if n < 0 {
        let m = (-n) as nat;
        lemma_nat_text(m);
        let s = int_text(n);
        assert(s.subrange(1, s.len() as int) =~= nat_text(m));
    } else {
        lemma_nat_text(n as nat);
        assert(nat_text(n as nat)[0] != 45);
    }
}

/// Copies `v[lo..hi]`.
pub fn copy_range(v: &Vec<u8>, lo: usize, hi: usize) -> (r: Vec<u8>)
    requires
        lo <= hi <= v.len(),
    ensures
        r@ == v@.subrange(lo as int, hi as int),
{
    let mut r: Vec<u8> = Vec::new();
    let mut i: usize = lo;
    while i < hi
        invariant
            lo <= i <= hi <= v.len(),
            r@ == v@.subrange(lo as int, i as int),
        decreases hi - i,
    {
        r.push(v[i]);
        i = i + 1;
        assert(r@ =~= v@.subrange(lo as int, i as int));
    }
    r
}

/// Copies `v`.
pub fn copy_bytes(v: &Vec<u8>) -> (r: Vec<u8>)
    ensures
        r@ == v@,
{
    let r = copy_range(v, 0, v.len());
    assert(r@ =~= v@);
    r
}

/// Reads `v[lo..]` as digits, giving their value where it is at most `2^63`.
fn digits_from(v: &Vec<u8>, lo: usize) -> (r: Option<u64>)
    requires
        lo < v.len(),
    ensures
        match r {
            Some(m) => all_digits(v@.subrange(lo as int, v.len() as int)) && m as int
                == digits_value(v@.subrange(lo as int, v.len() as int)) && m <= 0x8000_0000_0000_0000,
            None => !all_digits(v@.subrange(lo as int, v.len() as int)) || digits_value(
                v@.subrange(lo as int, v.len() as int),
            ) > 0x8000_0000_0000_0000,
        },
{
    let n: usize = v.len();
    let mut acc: u64 = 0;
    let mut i: usize = lo;
    while i < n
        invariant
            lo <= i <= n == v.len(),
            all_digits(v@.subrange(lo as int, i as int)),
            acc as int == digits_value(v@.subrange(lo as int, i as int)),
            acc <= 0x8000_0000_0000_0000,
        decreases n - i,
    {
        let b = v[i];
        let ghost whole = v@.subrange(lo as int, n as int);
        if b < 48 || b > 57 {
            assert(!is_digit(whole[i - lo]));
            return None;
        }
        let d: u64 = (b - 48) as u64;
        let ghost next = v@.subrange(lo as int, i + 1);
        assert(next.drop_last() =~= v@.subrange(lo as int, i as int));
        assert(all_digits(next)) by {
            assert forall|j: int| 0 <= j < next.len() implies is_digit(#[trigger] next[j]) by {
                if j < next.len() - 1 {
                    assert(next[j] == v@.subrange(lo as int, i as int)[j]);
                }
            }
        }
        if acc > (0x8000_0000_0000_0000 - d) / 10 {
            assert(acc * 10 + d > 0x8000_0000_0000_0000) by (nonlinear_arith)
                requires
                    acc > (0x8000_0000_0000_0000 - d) / 10,
                    d <= 9,
            ;
            proof {
                if all_digits(whole) {
                    lemma_digits_value_prefix(whole, i + 1 - lo);
                    assert(whole.subrange(0, i + 1 - lo) =~= next);
                }
            }
            return None;
        }
        assert(acc * 10 + d <= 0x8000_0000_0000_0000) by (nonlinear_arith)
            requires
                acc <= (0x8000_0000_0000_0000 - d) / 10,
                d <= 9,
        ;
        acc = acc * 10 + d;
        i = i + 1;
    }
    assert(v@.subrange(lo as int, i as int) =~= v@.subrange(lo as int, v.len() as int));
    Some(acc)
}

/// Parses an integer field.
pub fn parse_i64(s: &Vec<u8>) -> (r: Option<i64>)
    ensures
        r == i64_of(s@),
{
    let n: usize = s.len();
    if n == 0 {
        return None;
    }
    if s[0] == 45 {
        if n == 1 {
            return None;
        }
        match digits_from(s, 1) {
            Some(m) => {
                if m == 0x8000_0000_0000_0000 {
                    Some(i64::MIN)
                } else {
                    Some(-(m as i64))
                }
            },
            None => None,
        }
    } else {
        assert(s@.subrange(0, n as int) =~= s@);
        match digits_from(s, 0) {
            Some(m) => {
                if m > 0x7fff_ffff_ffff_ffff {
                    None
                } else {
                    Some(m as i64)
                }
            },
            None => None,
        }
    }
}

/// Whether every byte of `v` is a digit.
pub fn is_all_digits(v: &Vec<u8>) -> (r: bool)
    ensures
        r == all_digits(v@),
{
    let mut i: usize = 0;
    while i < v.len()
        invariant
            i <= v.len(),
            forall|j: int| 0 <= j < i ==> is_digit(#[trigger] v@[j]),
        decreases v.len() - i,
    {
        if v[i] < 48 || v[i] > 57 {
            assert(!is_digit(v@[i as int]));
            return false;
        }
        i = i + 1;
    }
    true
}

/// Parses a decimal field, keeping an empty field as [`Decimal::Unset`].
pub fn parse_decimal(s: &Vec<u8>) -> (r: Option<Decimal>)
    ensures
        r == decimal_of(s@),
{
    let n: usize = s.len();
    if n == 0 {
        return Some(Decimal::Unset);
    }
    let mut k: usize = 0;
    while k < n && s[k] != 46
        invariant
            k <= n == s.len(),
            forall|j: int| 0 <= j < k ==> s@[j] != 46,
        decreases n - k,
    {
        k = k + 1;
    }
    if k == n {
        assert(!exists|c: int| is_first_dot(s@, c));
        match parse_i64(s) {
            Some(u) => Some(Decimal::Value { units: u, scale: 0 }),
            None => None,
        }
    } else {
        assert(is_first_dot(s@, k as int));
        let ghost c = choose|c: int| is_first_dot(s@, c);
        assert(c == k);
        let mut frac = copy_range(s, k + 1, n);
        if frac.len() == 0 || !is_all_digits(&frac) {
            return None;
        }
        let scale: usize = frac.len();
        let mut joined = copy_range(s, 0, k);
        joined.append(&mut frac);
        match parse_i64(&joined) {
            Some(u) => Some(Decimal::Value { units: u, scale }),
            None => None,
        }
    }
}

/// Writes a non-negative integer as its decimal digits.
fn nat_to_text(n: u64) -> (r: Vec<u8>)
    ensures
        r@ == nat_text(n as nat),
    decreases n,
{
    if n < 10 {
        let r: Vec<u8> = vec![(48 + n) as u8];
        assert(r@ =~= nat_text(n as nat));
        r
    } else {
        let mut r = nat_to_text(n / 10);
        r.push((48 + n % 10) as u8);
        r
    }
}

/// Writes an integer field.
pub fn int_to_text(n: i64) -> (r: Vec<u8>)
    ensures
        r@ == int_text(n as int),
{
    if n < 0 {
        let m: u64 = if n == i64::MIN {
            0x8000_0000_0000_0000
        } else {
            (-n) as u64
        };
        let mut r: Vec<u8> = vec![45u8];
        let mut d = nat_to_text(m);
        r.append(&mut d);
        assert(r@ =~= int_text(n as int));
        r
    } else {
        nat_to_text(n as u64)
    }
}

} // verus!
