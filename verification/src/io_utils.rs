//! The recovery-line format: generating and reading back known accounts.
//!
//! A wallet is summarized as a single text line,
//! `<placeholder-marker>;<key-leaf-count>`.  No cryptographic seed is
//! serialized — the marker spells that out — so reading the line back only
//! restores the count of addresses to re-derive, not any key material.
//! This is a known-incomplete legacy format, preserved as it is; the file
//! I/O around it lives outside the library, which works on the line's
//! bytes.

use vstd::prelude::*;

use crate::error::RecoveryError;

verus! {

/// Delimiter used to separate the marker from the count.
pub const DELIMITER: u8 = 59;

/// The decimal digits of `n`, most significant first, as ASCII bytes.
pub open spec fn spec_decimal(n: nat) -> Seq<u8>
    decreases n,
{
    if n < 10 {
        seq![(48 + n) as u8]
    } else {
        spec_decimal((n / 10) as nat) + seq![(48 + n % 10) as u8]
    }
}

/// The numeric value denoted by ASCII bytes read as decimal digits, most
/// significant first.  Meaningful when every byte is a digit; total
/// regardless.
pub open spec fn spec_decimal_value(s: Seq<u8>) -> int
    decreases s.len(),
{
    if s.len() == 0 {
        0
    } else {
        spec_decimal_value(s.drop_last()) * 10 + (s.last() - 48)
    }
}

/// A non-empty, all-digit byte string.
pub open spec fn spec_is_digits(s: Seq<u8>) -> bool {
    s.len() > 0 && forall|j: int| 0 <= j < s.len() ==> 48 <= #[trigger] s[j] <= 57
}

/// ASCII whitespace, the kind a read-back line can carry at its edges.
pub open spec fn spec_is_ws(b: u8) -> bool {
    b == 32 || b == 9 || b == 10 || b == 13
}

/// `s` with leading ASCII whitespace removed.
pub open spec fn spec_trim_front(s: Seq<u8>) -> Seq<u8>
    decreases s.len(),
{
    if s.len() > 0 && spec_is_ws(s[0]) {
        spec_trim_front(s.drop_first())
    } else {
        s
    }
}

/// `s` with trailing ASCII whitespace removed.
pub open spec fn spec_trim_back(s: Seq<u8>) -> Seq<u8>
    decreases s.len(),
{
    if s.len() > 0 && spec_is_ws(s.last()) {
        spec_trim_back(s.drop_last())
    } else {
        s
    }
}

/// `s` with ASCII whitespace removed from both ends.
pub open spec fn spec_trim(s: Seq<u8>) -> Seq<u8> {
    spec_trim_back(spec_trim_front(s))
}

/// `s` splits into exactly two delimiter-free parts around one delimiter.
pub open spec fn spec_split2(s: Seq<u8>, a: Seq<u8>, b: Seq<u8>) -> bool {
    &&& s == a + seq![DELIMITER] + b
    &&& !a.contains(DELIMITER)
    &&& !b.contains(DELIMITER)
}

/// The placeholder marker of a recovery line.  It spells "THERE IS NO
/// SEED": this wallet stores no seed at all.
pub open spec fn spec_recovery_marker() -> Seq<u8> {
    seq![84u8, 72u8, 69u8, 82u8, 69u8, 32u8, 73u8, 83u8, 32u8, 78u8, 79u8, 32u8, 83u8, 69u8, 69u8, 68u8]
}

/// A complete recovery line for a wallet whose key leaf is `n`: the
/// marker, the delimiter, the count in decimal.
pub open spec fn spec_recovery_line(n: nat) -> Seq<u8> {
    spec_recovery_marker() + seq![DELIMITER] + spec_decimal(n)
}

/// The value of a digit string is never negative.
proof fn lemma_decimal_value_nonneg(s: Seq<u8>)
    requires
        forall|j: int| 0 <= j < s.len() ==> 48 <= #[trigger] s[j] <= 57,
    ensures
        spec_decimal_value(s) >= 0,
    decreases s.len(),
{
    if s.len() > 0 {
        lemma_decimal_value_nonneg(s.drop_last());
    }
}

/// Every prefix of a digit string denotes at most the whole string's
/// value.
proof fn lemma_decimal_value_prefix(s: Seq<u8>, i: int)
    requires
        forall|j: int| 0 <= j < s.len() ==> 48 <= #[trigger] s[j] <= 57,
        0 <= i <= s.len(),
    ensures
        spec_decimal_value(s.take(i)) <= spec_decimal_value(s),
    decreases s.len() - i,
{
    if i == s.len() {
        assert(s.take(i) =~= s);
    } else {
        assert(s.take(i + 1).drop_last() =~= s.take(i));
        lemma_decimal_value_nonneg(s.take(i));
        lemma_decimal_value_prefix(s, i + 1);
    }
}

/// The decimal rendering of `n` denotes `n` and is made of digits.
pub proof fn lemma_decimal_round_trip(n: nat)
    ensures
        spec_is_digits(spec_decimal(n)),
        spec_decimal_value(spec_decimal(n)) == n,
    decreases n,
{
    if n < 10 {
        assert(spec_decimal(n).drop_last() =~= Seq::<u8>::empty());
        assert(spec_decimal(n).last() == (48 + n) as u8);
        assert((48 + n) as u8 == 48 + n);
        assert(spec_decimal_value(Seq::<u8>::empty()) == 0);
    } else {
        lemma_decimal_round_trip((n / 10) as nat);
        assert(spec_decimal(n).drop_last() =~= spec_decimal((n / 10) as nat));
        assert(spec_decimal(n).last() == (48 + n % 10) as u8);
        assert((48 + n % 10) as u8 == 48 + n % 10);
        assert(spec_decimal_value(spec_decimal(n)) == (n / 10) * 10 + n % 10);
    }
}

/// The decimal digits of `n`, most significant first, as ASCII bytes.
pub fn u64_to_decimal(n: u64) -> (r: Vec<u8>)
    ensures
        r@ == spec_decimal(n as nat),
    decreases n,
{
    if n < 10 {
        let mut v: Vec<u8> = Vec::new();
        v.push(48 + n as u8);
        proof {
            assert(v@ =~= spec_decimal(n as nat));
        }
        v
    } else {
        let mut v = u64_to_decimal(n / 10);
        v.push(48 + (n % 10) as u8);
        proof {
            assert(v@ =~= spec_decimal(n as nat));
        }
        v
    }
}

/// Reads a non-empty all-digit byte string as a decimal u64.  Returns the
/// denoted value exactly when the string is such a numeral and its value
/// fits in 64 bits.
pub fn parse_decimal(s: &Vec<u8>) -> (r: Option<u64>)
    ensures
        r matches Some(v) ==> spec_is_digits(s@) && v == spec_decimal_value(s@),
        r is Some <==> spec_is_digits(s@) && spec_decimal_value(s@) <= u64::MAX,
{
    let n = s.len();
    if n == 0 {
        return None;
    }
    let mut acc: u64 = 0;
    let mut i: usize = 0;
    while i < n
        invariant
            0 < n <= s@.len(),
            n == s@.len(),
            i <= n,
            forall|j: int| 0 <= j < i ==> 48 <= #[trigger] s@[j] <= 57,
            acc == spec_decimal_value(s@.take(i as int)),
        decreases n - i,
    {
        let b = s[i];
        if b < 48 || b > 57 {
            return None;
        }
        let d = (b - 48) as u64;
        proof {
            assert(s@.take(i + 1).drop_last() =~= s@.take(i as int));
        }
        if acc > (u64::MAX - d) / 10 {
            proof {
                if spec_is_digits(s@) {
                    lemma_decimal_value_prefix(s@, i + 1);
                    assert(acc * 10 + d == spec_decimal_value(s@.take(i + 1)));
                    assert(10 * ((u64::MAX - d) / 10) + (u64::MAX - d) % 10 == u64::MAX - d);
                    assert(acc * 10 >= ((u64::MAX - d) / 10 + 1) * 10) by (nonlinear_arith)
                        requires
                            acc > (u64::MAX - d) / 10,
                    ;
                    assert(spec_decimal_value(s@) > u64::MAX);
                }
            }
            return None;
        }
        proof {
            assert(acc * 10 <= ((u64::MAX - d) / 10) * 10) by (nonlinear_arith)
                requires
                    acc <= (u64::MAX - d) / 10,
            ;
            assert(10 * ((u64::MAX - d) / 10) + (u64::MAX - d) % 10 == u64::MAX - d);
        }
        acc = acc * 10 + d;
        i = i + 1;
    }
    proof {
        assert(s@.take(n as int) =~= s@);
        lemma_decimal_value_nonneg(s@);
    }
    Some(acc)
}

/// `s` with ASCII whitespace removed from both ends.
pub fn trim_ascii(s: &Vec<u8>) -> (r: Vec<u8>)
    ensures
        r@ == spec_trim(s@),
{
    let n = s.len();
    proof {
        assert(s@.skip(0) =~= s@);
    }
    let mut lo: usize = 0;
    while lo < n && is_ws(s[lo])
        invariant
            lo <= n,
            n == s@.len(),
            spec_trim_front(s@) == spec_trim_front(s@.skip(lo as int)),
        decreases n - lo,
    {
        proof {
            assert(s@.skip(lo as int).drop_first() =~= s@.skip(lo + 1));
        }
        lo = lo + 1;
    }
    proof {
        if lo < n {
            assert(s@.skip(lo as int)[0] == s@[lo as int]);
        }
        assert(spec_trim_front(s@) =~= s@.skip(lo as int));
    }
    let mut hi: usize = n;
    while hi > lo && is_ws(s[hi - 1])
        invariant
            lo <= hi <= n,
            n == s@.len(),
            spec_trim_front(s@) == s@.skip(lo as int),
            spec_trim_back(s@.skip(lo as int)) == spec_trim_back(s@.subrange(lo as int, hi as int)),
        decreases hi,
    {
        proof {
            let cur = s@.subrange(lo as int, hi as int);
            assert(cur.last() == s@[hi - 1]);
            assert(cur.drop_last() =~= s@.subrange(lo as int, hi - 1));
        }
        hi = hi - 1;
    }
    let mut r: Vec<u8> = Vec::new();
    let mut i: usize = lo;
    while i < hi
        invariant
            lo <= i <= hi <= n,
            n == s@.len(),
            r@ =~= s@.subrange(lo as int, i as int),
        decreases hi - i,
    {
        r.push(s[i]);
        i = i + 1;
    }
    proof {
        let cur = s@.subrange(lo as int, hi as int);
        if hi > lo {
            assert(cur.last() == s@[hi - 1]);
        }
        assert(spec_trim_back(cur) == cur);
        assert(r@ =~= cur);
    }
    r
}

/// ASCII whitespace.
fn is_ws(b: u8) -> (r: bool)
    ensures
        r == spec_is_ws(b),
{
    b == 32 || b == 9 || b == 10 || b == 13
}

/// The recovery line for a wallet whose key leaf is `key_leaf`, without a
/// line terminator: the no-seed marker, the delimiter, and the count of
/// addresses to re-derive.
pub fn format_recovery_line(key_leaf: u64) -> (r: Vec<u8>)
    ensures
        r@ == spec_recovery_line(key_leaf as nat),
{
    let mut r: Vec<u8> = Vec::new();
    r.push(84);
    r.push(72);
    r.push(69);
    r.push(82);
    r.push(69);
    r.push(32);
    r.push(73);
    r.push(83);
    r.push(32);
    r.push(78);
    r.push(79);
    r.push(32);
    r.push(83);
    r.push(69);
    r.push(69);
    r.push(68);
    r.push(DELIMITER);
    let mut digits = u64_to_decimal(key_leaf);
    r.append(&mut digits);
    proof {
        assert(r@ =~= spec_recovery_line(key_leaf as nat));
    }
    r
}

/// Reads a recovery line back: the line must split into exactly two parts
/// around one delimiter, and the second part, with surrounding whitespace
/// removed, must be a decimal count that fits in 64 bits.  The first part
/// is not interpreted — no seed is stored in it.
pub fn parse_recovery_line(line: &Vec<u8>) -> (r: Result<u64, RecoveryError>)
    ensures
        r == Err::<u64, RecoveryError>(RecoveryError::MalformedEntry) <==> !(exists|
            a: Seq<u8>,
            b: Seq<u8>,
        | #[trigger] spec_split2(line@, a, b)),
        r matches Ok(v) ==> exists|a: Seq<u8>, b: Seq<u8>| #[trigger] spec_split2(line@, a, b)
            && spec_is_digits(spec_trim(b)) && v == spec_decimal_value(spec_trim(b)),
        r is Ok <==> exists|a: Seq<u8>, b: Seq<u8>| #[trigger] spec_split2(line@, a, b)
            && spec_is_digits(spec_trim(b)) && spec_decimal_value(spec_trim(b)) <= u64::MAX,
{
    let n = line.len();
    let mut i: usize = 0;
    let mut first: Option<usize> = None;
    let mut second: bool = false;
    while i < n
        invariant
            i <= n,
            n == line@.len(),
            first matches Some(p) ==> p < i && line@[p as int] == DELIMITER && (forall|j: int|
                0 <= j < p ==> #[trigger] line@[j] != DELIMITER),
            first is None ==> !second && (forall|j: int|
                0 <= j < i ==> #[trigger] line@[j] != DELIMITER),
            second ==> exists|j: int|
                {
                    &&& first matches Some(p) && p < j < i
                    &&& 0 <= j < line@.len()
                    &&& #[trigger] line@[j] == DELIMITER
                },
            first matches Some(p) ==> second || (forall|j: int|
                p < j < i ==> #[trigger] line@[j] != DELIMITER),
        decreases n - i,
    {
        if line[i] == DELIMITER {
            match first {
                None => {
                    first = Some(i);
                },
                Some(_) => {
                    second = true;
                },
            }
        }
        i = i + 1;
    }
    let p = match first {
        None => {
            proof {
                lemma_no_delimiter_no_split(line@);
            }
            return Err(RecoveryError::MalformedEntry);
        },
        Some(p) => {
            if second {
                proof {
                    lemma_two_delimiters_no_split(line@, p as int);
                }
                return Err(RecoveryError::MalformedEntry);
            }
            p
        },
    };
    let ghost ga = line@.take(p as int);
    let ghost gb = line@.skip(p + 1);
    proof {
        assert(line@ =~= ga + seq![DELIMITER] + gb);
        assert forall|j: int| 0 <= j < gb.len() implies #[trigger] gb[j] != DELIMITER by {
            assert(gb[j] == line@[p + 1 + j]);
        }
        assert(!ga.contains(DELIMITER));
        assert(!gb.contains(DELIMITER));
        assert(spec_split2(line@, ga, gb));
    }
    let mut part: Vec<u8> = Vec::new();
    let mut k: usize = p + 1;
    while k < n
        invariant
            p + 1 <= k <= n,
            n == line@.len(),
            part@ =~= line@.subrange(p + 1, k as int),
        decreases n - k,
    {
        part.push(line[k]);
        k = k + 1;
    }
    proof {
        assert(part@ =~= gb);
    }
    let trimmed = trim_ascii(&part);
    match parse_decimal(&trimmed) {
        Some(v) => {
            proof {
                lemma_split2_unique(line@, ga, gb);
            }
            Ok(v)
        },
        None => {
            proof {
                lemma_split2_unique(line@, ga, gb);
            }
            Err(RecoveryError::InvalidCount)
        },
    }
}

/// Reading a generated recovery line back yields the count it was
/// generated from: the line splits into exactly the marker and the
/// digits, the digits carry no surrounding whitespace, and they denote
/// the key leaf.  Together with the contract of `parse_recovery_line`,
/// a line written by `format_recovery_line` always reads back as `Ok`
/// of the same count.
pub proof fn lemma_recovery_line_round_trip(n: u64)
    ensures
        spec_split2(spec_recovery_line(n as nat), spec_recovery_marker(), spec_decimal(n as nat)),
        spec_trim(spec_decimal(n as nat)) == spec_decimal(n as nat),
        spec_is_digits(spec_decimal(n as nat)),
        spec_decimal_value(spec_decimal(n as nat)) == n,
{
    lemma_decimal_round_trip(n as nat);
    let marker = spec_recovery_marker();
    let digits = spec_decimal(n as nat);
    assert forall|j: int| 0 <= j < marker.len() implies marker[j] != DELIMITER by {
        assert(marker.len() == 16);
    }
    assert(!marker.contains(DELIMITER));
    assert forall|j: int| 0 <= j < digits.len() implies digits[j] != DELIMITER by {
        assert(48 <= digits[j] <= 57);
    }
    assert(!digits.contains(DELIMITER));
    assert(spec_recovery_line(n as nat) == marker + seq![DELIMITER] + digits);
    assert(!spec_is_ws(digits[0]));
    assert(spec_trim_front(digits) == digits);
    assert(!spec_is_ws(digits.last()));
    assert(spec_trim_back(digits) == digits);
}

/// A line without a delimiter admits no two-part split.
proof fn lemma_no_delimiter_no_split(s: Seq<u8>)
    requires
        forall|j: int| 0 <= j < s.len() ==> #[trigger] s[j] != DELIMITER,
    ensures
        !(exists|a: Seq<u8>, b: Seq<u8>| #[trigger] spec_split2(s, a, b)),
{
    assert forall|a: Seq<u8>, b: Seq<u8>| !(#[trigger] spec_split2(s, a, b)) by {
        if spec_split2(s, a, b) {
            assert(s[a.len() as int] == DELIMITER);
        }
    }
}

/// A line with two delimiters admits no two-part split either.
proof fn lemma_two_delimiters_no_split(s: Seq<u8>, p: int)
    requires
        0 <= p < s.len(),
        s[p] == DELIMITER,
        exists|j: int| p < j < s.len() && #[trigger] s[j] == DELIMITER,
    ensures
        !(exists|a: Seq<u8>, b: Seq<u8>| #[trigger] spec_split2(s, a, b)),
{
    let q = choose|j: int| p < j < s.len() && #[trigger] s[j] == DELIMITER;
    assert forall|a: Seq<u8>, b: Seq<u8>| !(#[trigger] spec_split2(s, a, b)) by {
        if spec_split2(s, a, b) {
            let l = a.len() as int;
            if p < l {
                assert(a[p] == s[p]);
                assert(a.contains(DELIMITER));
            } else if q > l {
                assert(b[q - l - 1] == s[q]);
                assert(b.contains(DELIMITER));
            }
        }
    }
}

/// The two-part split of a line is unique.
proof fn lemma_split2_unique(s: Seq<u8>, a: Seq<u8>, b: Seq<u8>)
    requires
        spec_split2(s, a, b),
    ensures
        forall|a2: Seq<u8>, b2: Seq<u8>| #[trigger] spec_split2(s, a2, b2) ==> a2 == a && b2 == b,
{
    assert forall|a2: Seq<u8>, b2: Seq<u8>| #[trigger] spec_split2(s, a2, b2) implies a2 == a && b2
        == b by {
        let l = a.len() as int;
        let l2 = a2.len() as int;
        if l < l2 {
            assert(a2[l] == s[l]);
            assert(a2.contains(DELIMITER));
        } else if l2 < l {
            assert(a[l2] == s[l2]);
            assert(a.contains(DELIMITER));
        }
        assert forall|i: int| 0 <= i < l implies a2[i] == a[i] by {
            assert(a[i] == s[i]);
            assert(a2[i] == s[i]);
        }
        assert(a2 =~= a);
        assert(l2 == l);
        assert(s.len() == (a + seq![DELIMITER] + b).len());
        assert(s.len() == (a2 + seq![DELIMITER] + b2).len());
        assert(b2.len() == b.len());
        assert forall|i: int| 0 <= i < b.len() implies b2[i] == b[i] by {
            assert(b[i] == (a + seq![DELIMITER] + b)[l + 1 + i]);
            assert(b2[i] == (a2 + seq![DELIMITER] + b2)[l2 + 1 + i]);
        }
        assert(b2 =~= b);
    }
}

} // verus!
