use vstd::prelude::*;
use crate::types::Coin;

verus! {

// ASCII bytes that the fee reader tests for.
pub const DIGIT_0: u8 = 48;
pub const DIGIT_9: u8 = 57;
pub const LOWER_A: u8 = 97;
pub const LOWER_Z: u8 = 122;
pub const UPPER_A: u8 = 65;
pub const UPPER_Z: u8 = 90;
pub const SLASH: u8 = 47;
pub const DOT: u8 = 46;
pub const UNDERSCORE: u8 = 95;
pub const HYPHEN: u8 = 45;

/// The text `required: `, which precedes the required fee in a node's fee-rejection log.
pub open spec fn fee_marker() -> Seq<u8> {
    seq![114u8, 101, 113, 117, 105, 114, 101, 100, 58, 32]
}

pub open spec fn marker_at(s: Seq<u8>, i: int) -> bool {
    0 <= i && i + fee_marker().len() <= s.len() && s.subrange(i, i + fee_marker().len())
        == fee_marker()
}

/// The first position at or after `i` where the marker starts.
pub open spec fn find_marker_from(s: Seq<u8>, i: int) -> Option<int>
    decreases s.len() - i,
{
    if i < 0 || i + fee_marker().len() > s.len() {
        None
    } else if marker_at(s, i) {
        Some(i)
    } else {
        find_marker_from(s, i + 1)
    }
}

pub open spec fn is_digit(b: u8) -> bool {
    DIGIT_0 <= b && b <= DIGIT_9
}

pub open spec fn is_denom_byte(b: u8) -> bool {
    is_digit(b) || (LOWER_A <= b && b <= LOWER_Z) || (UPPER_A <= b && b <= UPPER_Z) || b == SLASH || b
        == DOT || b == UNDERSCORE || b == HYPHEN
}

/// End of the run of digits that starts at `i`.
pub open spec fn digits_end(s: Seq<u8>, i: int) -> int
    decreases s.len() - i,
{
    if i < 0 || i >= s.len() || !is_digit(s[i]) {
        i
    } else {
        digits_end(s, i + 1)
    }
}

/// End of the run of denomination bytes that starts at `i`.
pub open spec fn denom_end(s: Seq<u8>, i: int) -> int
    decreases s.len() - i,
{
    if i < 0 || i >= s.len() || !is_denom_byte(s[i]) {
        i
    } else {
        denom_end(s, i + 1)
    }
}

/// The number that a sequence of decimal digits writes.
pub open spec fn digits_value(d: Seq<u8>) -> nat
    decreases d.len(),
{
    if d.len() == 0 {
        0
    } else {
        digits_value(d.drop_last()) * 10 + (d.last() - DIGIT_0) as nat
    }
}

/// The fee named in a log: after the first marker, an amount in decimal digits
/// that fits in `u128`, then a non-empty denomination.
pub open spec fn required_fee(s: Seq<u8>) -> Option<(nat, Seq<u8>)> {
    match find_marker_from(s, 0) {
        None => None,
        Some(m) => {
            let a = m + fee_marker().len();
            let d = digits_end(s, a);
            let e = denom_end(s, d);
            if d == a || e == d || digits_value(s.subrange(a, d)) > u128::MAX {
                None
            } else {
                Some((digits_value(s.subrange(a, d)), s.subrange(d, e)))
            }
        },
    }
}

pub open spec fn coin_view(c: Option<Coin>) -> Option<(nat, Seq<u8>)> {
    match c {
        None => None,
        Some(c) => Some((c.amount as nat, c.denom@)),
    }
}

proof fn lemma_find_marker_bound(s: Seq<u8>, i: int)
    ensures
        find_marker_from(s, i) matches Some(m) ==> i <= m && marker_at(s, m),
    decreases s.len() - i,
{
    if !(i < 0 || i + fee_marker().len() > s.len()) && !marker_at(s, i) {
        lemma_find_marker_bound(s, i + 1);
    }
}

proof fn lemma_digits_end_bound(s: Seq<u8>, i: int)
    requires
        0 <= i <= s.len(),
    ensures
        i <= digits_end(s, i) <= s.len(),
        forall|k: int| i <= k < digits_end(s, i) ==> is_digit(#[trigger] s[k]),
    decreases s.len() - i,
{
    if i < s.len() && is_digit(s[i]) {
        lemma_digits_end_bound(s, i + 1);
    }
}

proof fn lemma_denom_end_bound(s: Seq<u8>, i: int)
    requires
        0 <= i <= s.len(),
    ensures
        i <= denom_end(s, i) <= s.len(),
    decreases s.len() - i,
{
    if i < s.len() && is_denom_byte(s[i]) {
        lemma_denom_end_bound(s, i + 1);
    }
}

/// Appending digits never makes the written number smaller.
proof fn lemma_digits_value_grows(s: Seq<u8>, a: int, j: int, k: int)
    requires
        0 <= a <= j <= k <= s.len(),
        forall|x: int| a <= x < k ==> is_digit(#[trigger] s[x]),
    ensures
        digits_value(s.subrange(a, j)) <= digits_value(s.subrange(a, k)),
    decreases k - j,
{
    if j < k {
        lemma_digits_value_grows(s, a, j, k - 1);
        assert(s.subrange(a, k).drop_last() =~= s.subrange(a, k - 1));
    }
}

fn marker_matches_at(b: &[u8], i: usize) -> (r: bool)
    requires
        i + fee_marker().len() <= b@.len(),
    ensures
        r == marker_at(b@, i as int),
{
    let m: Vec<u8> = vec![114u8, 101, 113, 117, 105, 114, 101, 100, 58, 32];
    assert(m@ =~= fee_marker());
    let len = b.len();
    let mut k: usize = 0;
    while k < m.len()
        invariant
            k <= m@.len(),
            m@ == fee_marker(),
            i + fee_marker().len() <= b@.len(),
            len == b@.len(),
            forall|j: int| 0 <= j < k ==> b@[i + j] == m@[j],
        decreases m@.len() - k,
    {
        if b[i + k] != m[k] {
            assert(b@.subrange(i as int, i + fee_marker().len())[k as int] != fee_marker()[k as int]);
            return false;
        }
        k = k + 1;
    }
    assert(b@.subrange(i as int, i + fee_marker().len()) =~= fee_marker());
    true
}

fn find_marker(b: &[u8]) -> (r: Option<usize>)
    ensures
        match find_marker_from(b@, 0) {
            None => r is None,
            Some(m) => r == Some(m as usize),
        },
{
    let n: usize = 10;
    let mut i: usize = 0;
    while i <= b.len() && n <= b.len() - i
        invariant
            n == fee_marker().len(),
            i <= b@.len(),
            find_marker_from(b@, 0) == find_marker_from(b@, i as int),
        decreases b@.len() - i,
    {
        if marker_matches_at(b, i) {
            return Some(i);
        }
        i = i + 1;
    }
    None
}

fn scan_digits(b: &[u8], start: usize) -> (r: usize)
    requires
        start <= b@.len(),
    ensures
        r == digits_end(b@, start as int),
{
    let mut i: usize = start;
    while i < b.len() && DIGIT_0 <= b[i] && b[i] <= DIGIT_9
        invariant
            start <= i <= b@.len(),
            digits_end(b@, start as int) == digits_end(b@, i as int),
        decreases b@.len() - i,
    {
        i = i + 1;
    }
    i
}

fn scan_denom(b: &[u8], start: usize) -> (r: usize)
    requires
        start <= b@.len(),
    ensures
        r == denom_end(b@, start as int),
{
    let mut i: usize = start;
    while i < b.len() && (DIGIT_0 <= b[i] && b[i] <= DIGIT_9 || LOWER_A <= b[i] && b[i] <= LOWER_Z || UPPER_A
        <= b[i] && b[i] <= UPPER_Z || b[i] == SLASH || b[i] == DOT || b[i] == UNDERSCORE || b[i] == HYPHEN)
        invariant
            start <= i <= b@.len(),
            denom_end(b@, start as int) == denom_end(b@, i as int),
        decreases b@.len() - i,
    {
        i = i + 1;
    }
    i
}

/// Reads the decimal number written by `b[start..end]`, all digits.
fn read_amount(b: &[u8], start: usize, end: usize) -> (r: Option<u128>)
    requires
        start <= end <= b@.len(),
        forall|k: int| start <= k < end ==> is_digit(#[trigger] b@[k]),
    ensures
        match r {
            Some(v) => v as nat == digits_value(b@.subrange(start as int, end as int)),
            None => digits_value(b@.subrange(start as int, end as int)) > u128::MAX,
        },
{
    let mut acc: u128 = 0;
    let mut i: usize = start;
    assert(b@.subrange(start as int, start as int) =~= Seq::<u8>::empty());
    while i < end
        invariant
            start <= i <= end <= b@.len(),
            forall|k: int| start <= k < end ==> is_digit(#[trigger] b@[k]),
            acc as nat == digits_value(b@.subrange(start as int, i as int)),
        decreases end - i,
    {
        let ghost next = b@.subrange(start as int, i + 1);
        assert(next.drop_last() =~= b@.subrange(start as int, i as int));
        assert(is_digit(b@[i as int]));
        let d: u128 = (b[i] - DIGIT_0) as u128;
        let shifted = acc.checked_mul(10);
        match shifted {
            None => {
                proof {
                    lemma_digits_value_grows(b@, start as int, i + 1, end as int);
                }
                return None;
            },
            Some(s) => {
                match s.checked_add(d) {
                    None => {
                        proof {
                            lemma_digits_value_grows(b@, start as int, i + 1, end as int);
                        }
                        return None;
                    },
                    Some(v) => {
                        acc = v;
                    },
                }
            },
        }
        i = i + 1;
    }
    Some(acc)
}

/// Reads the required fee from a node's fee-rejection log, when the log names
/// one after the marker.
pub fn parse_required_fee(log: &[u8]) -> (r: Option<Coin>)
    ensures
        coin_view(r) == required_fee(log@),
{
    let n: usize = 10;
    assert(fee_marker().len() == n);
    let len = log.len();
    match find_marker(log) {
        None => None,
        Some(m) => {
            proof {
                lemma_find_marker_bound(log@, 0);
            }
            let a = m + n;
            let d = scan_digits(log, a);
            proof {
                lemma_digits_end_bound(log@, a as int);
            }
            let e = scan_denom(log, d);
            proof {
                lemma_denom_end_bound(log@, d as int);
            }
            if d == a || e == d {
                return None;
            }
            match read_amount(log, a, d) {
                None => None,
                Some(amount) => {
                    let mut denom: Vec<u8> = Vec::new();
                    let mut k: usize = d;
                    while k < e
                        invariant
                            d <= k <= e <= log@.len(),
                            denom@ == log@.subrange(d as int, k as int),
                        decreases e - k,
                    {
                        denom.push(log[k]);
                        k = k + 1;
                        assert(denom@ =~= log@.subrange(d as int, k as int));
                    }
                    Some(Coin { amount, denom })
                },
            }
        },
    }
}

} // verus!
