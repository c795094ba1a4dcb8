//! Decimal numerals and qualified-name helpers over character sequences.
use vstd::prelude::*;

verus! {

/// The character of a decimal digit.
pub open spec fn digit_char(d: nat) -> char {
    if d == 0 { '0' }
    else if d == 1 { '1' }
    else if d == 2 { '2' }
    else if d == 3 { '3' }
    else if d == 4 { '4' }
    else if d == 5 { '5' }
    else if d == 6 { '6' }
    else if d == 7 { '7' }
    else if d == 8 { '8' }
    else { '9' }
}

pub open spec fn is_digit(c: char) -> bool {
    '0' <= c && c <= '9'
}

pub open spec fn digit_value(c: char) -> nat {
    ((c as u32) - ('0' as u32)) as nat
}

/// The shortest decimal numeral of `n`.
pub open spec fn decimal(n: nat) -> Seq<char>
    decreases n,
{
    if n < 10 {
        seq![digit_char(n)]
    } else {
        decimal(n / 10).push(digit_char(n % 10))
    }
}

/// A non-empty sequence of decimal digits.
pub open spec fn is_numeral(s: Seq<char>) -> bool {
    s.len() > 0 && forall|i: int| 0 <= i < s.len() ==> is_digit(#[trigger] s[i])
}

/// The value of a sequence of decimal digits.
pub open spec fn numeral_value(s: Seq<char>) -> nat
    decreases s.len(),
{
    if s.len() == 0 {
        0
    } else {
        numeral_value(s.drop_last()) * 10 + digit_value(s.last())
    }
}

proof fn lemma_digit_char(d: nat)
    requires
        d < 10,
    ensures
        is_digit(digit_char(d)),
        digit_value(digit_char(d)) == d,
{
}

/// Reading the decimal numeral of `n` gives `n` back.
pub proof fn lemma_decimal_round_trip(n: nat)
    ensures
        is_numeral(decimal(n)),
        numeral_value(decimal(n)) == n,
    decreases n,
{
    if n < 10 {
        lemma_digit_char(n);
        assert(decimal(n).drop_last() =~= Seq::<char>::empty());
        assert(numeral_value(decimal(n).drop_last()) == 0);
    } else {
        lemma_decimal_round_trip(n / 10);
        lemma_digit_char(n % 10);
        let s = decimal(n);
        assert(s.drop_last() =~= decimal(n / 10));
        assert(s.last() == digit_char(n % 10));
        assert(numeral_value(s) == (n / 10) * 10 + n % 10);
        assert((n / 10) * 10 + n % 10 == n) by (nonlinear_arith);
        assert forall|i: int| 0 <= i < s.len() implies is_digit(#[trigger] s[i]) by {
            if i < s.len() - 1 {
                assert(s[i] == decimal(n / 10)[i]);
            }
        }
    }
}

fn digit_str(d: u64) -> (r: &'static str)
    requires
        d < 10,
    ensures
        r@ == seq![digit_char(d as nat)],
{
    proof {
        reveal_strlit("0");
        reveal_strlit("1");
        reveal_strlit("2");
        reveal_strlit("3");
        reveal_strlit("4");
        reveal_strlit("5");
        reveal_strlit("6");
        reveal_strlit("7");
        reveal_strlit("8");
        reveal_strlit("9");
    }
    if d == 0 { "0" }
    else if d == 1 { "1" }
    else if d == 2 { "2" }
    else if d == 3 { "3" }
    else if d == 4 { "4" }
    else if d == 5 { "5" }
    else if d == 6 { "6" }
    else if d == 7 { "7" }
    else if d == 8 { "8" }
    else { "9" }
}

/// Writes `n` as a decimal numeral.
pub fn format_decimal(n: u64) -> (r: String)
    ensures
        r@ == decimal(n as nat),
    decreases n,
{
    if n < 10 {
        String::from_str(digit_str(n))
    } else {
        let mut s = format_decimal(n / 10);
        s.append(digit_str(n % 10));
        s
    }
}

/// Reads a decimal numeral that fits in a `u32`.
pub fn parse_u32(s: &str) -> (r: Option<u32>)
    ensures
        r == (if is_numeral(s@) && numeral_value(s@) <= u32::MAX {
            Some(numeral_value(s@) as u32)
        } else {
            None::<u32>
        }),
{
    let n = s.unicode_len();
    if n == 0 {
        return None;
    }
    let mut acc: u64 = 0;
    let mut i: usize = 0;
    while i < n
        invariant
            n == s@.len(),
            i <= n,
            acc == numeral_value(s@.take(i as int)),
            acc <= u32::MAX,
            forall|j: int| 0 <= j < i ==> is_digit(#[trigger] s@[j]),
        decreases n - i,
    {
        let c = s.get_char(i);
        if !('0' <= c && c <= '9') {
            return None;
        }
        let d = (c as u32 - '0' as u32) as u64;
        assert(s@.take(i + 1).drop_last() =~= s@.take(i as int));
        acc = acc * 10 + d;
        i = i + 1;
        if acc > u32::MAX as u64 {
            proof {
                if is_numeral(s@) {
                    lemma_prefix_value_bound(s@, i as int);
                }
            }
            return None;
        }
    }
    assert(s@.take(n as int) =~= s@);
    Some(acc as u32)
}

/// A longer run of digits never reads as a smaller number.
proof fn lemma_prefix_value_bound(s: Seq<char>, k: int)
    requires
        0 <= k <= s.len(),
        is_numeral(s),
    ensures
        numeral_value(s.take(k)) <= numeral_value(s),
    decreases s.len() - k,
{
    if k < s.len() {
        lemma_prefix_value_bound(s, k + 1);
        assert(s.take(k + 1).drop_last() =~= s.take(k));
    } else {
        assert(s.take(k) =~= s);
    }
}

/// Index of the last `:` among the first `i` characters, or -1.
pub open spec fn colon_before(s: Seq<char>, i: int) -> int
    decreases i,
{
    if i <= 0 {
        -1
    } else if s[i - 1] == ':' {
        i - 1
    } else {
        colon_before(s, i - 1)
    }
}

/// The local part of a qualified name: what follows its last `:`.
pub open spec fn local_part(s: Seq<char>) -> Seq<char> {
    s.subrange(colon_before(s, s.len() as int) + 1, s.len() as int)
}

proof fn lemma_colon_before_range(s: Seq<char>, i: int)
    requires
        0 <= i <= s.len(),
    ensures
        -1 <= colon_before(s, i) < i,
    decreases i,
{
    if i > 0 {
        lemma_colon_before_range(s, i - 1);
    }
}

/// Skipping characters other than `:` leaves the last colon where it was.
proof fn lemma_colon_before_skip(s: Seq<char>, k: int, i: int)
    requires
        0 <= k <= i <= s.len(),
        forall|j: int| k <= j < i ==> s[j] != ':',
    ensures
        colon_before(s, i) == colon_before(s, k),
    decreases i - k,
{
    if i > k {
        lemma_colon_before_skip(s, k, i - 1);
    }
}

/// The local part of `prefix:local` is `local` when `local` holds no colon.
pub proof fn lemma_local_part_of_prefixed(prefix: Seq<char>, local: Seq<char>)
    requires
        forall|j: int| 0 <= j < local.len() ==> local[j] != ':',
    ensures
        local_part(prefix + seq![':'] + local) == local,
{
    let s = prefix + seq![':'] + local;
    let p = prefix.len() as int;
    assert forall|j: int| p + 1 <= j < s.len() implies s[j] != ':' by {
        assert(s[j] == local[j - p - 1]);
    }
    lemma_colon_before_skip(s, p + 1, s.len() as int);
    assert(s[p] == ':');
    assert(s.subrange(p + 1, s.len() as int) =~= local);
}

/// A name without a colon is its own local part.
pub proof fn lemma_local_part_plain(s: Seq<char>)
    requires
        forall|j: int| 0 <= j < s.len() ==> s[j] != ':',
    ensures
        local_part(s) == s,
{
    lemma_colon_before_skip(s, 0, s.len() as int);
    assert(s.subrange(0, s.len() as int) =~= s);
}

/// Whether the local part of the qualified name `qname` is `local`.
pub fn has_local_part(qname: &str, local: &str) -> (r: bool)
    ensures
        r == (local_part(qname@) == local@),
{
    let n = qname.unicode_len();
    let mut i: usize = n;
    while i > 0
        invariant
            n == qname@.len(),
            i <= n,
            colon_before(qname@, n as int) == colon_before(qname@, i as int),
        ensures
            i <= n,
            colon_before(qname@, n as int) == colon_before(qname@, i as int),
            i == 0 || qname@[i - 1] == ':',
        decreases i,
    {
        if qname.get_char(i - 1) == ':' {
            break;
        }
        i = i - 1;
    }
    proof {
        lemma_colon_before_range(qname@, i as int);
    }
    assert(colon_before(qname@, n as int) + 1 == i);
    let tail = String::from_str(qname.substring_char(i, n));
    let want = String::from_str(local);
    tail == want
}

} // verus!
