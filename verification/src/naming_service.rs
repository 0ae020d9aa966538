//! Unique names: a name that is already taken gets the numeric suffix `(n)`
//! one past the largest that the existing names claim: the name itself claims
//! 1, and `name(k)` claims `k + 1`, so next to `Task(5)` a new `Task` becomes
//! `Task(6)`.

use crate::text::{push_char, str_equal};
use vstd::prelude::*;
use vstd::seq_lib::to_multiset_contains;

verus! {

/// Whether `c` is one of the ASCII digits `0`..`9`.
pub open spec fn is_decimal_digit(c: char) -> bool {
    48 <= (c as u32) && (c as u32) <= 57
}

/// The value of an ASCII digit.
pub open spec fn digit_value(c: char) -> nat {
    ((c as u32) - 48) as nat
}

/// The character that writes the digit `d` (for `d < 10`).
pub open spec fn digit_char(d: nat) -> char {
    ((d + 48) as u32) as char
}

/// Whether every character of `s` is a decimal digit.
pub open spec fn all_digits(s: Seq<char>) -> bool {
    forall|i: int| 0 <= i < s.len() ==> is_decimal_digit(#[trigger] s[i])
}

/// The value of a string of decimal digits, read from the left.
pub open spec fn digits_value(s: Seq<char>) -> nat
    decreases s.len(),
{
    if s.len() == 0 {
        0
    } else {
        digits_value(s.drop_last()) * 10 + digit_value(s.last())
    }
}

/// What `str::parse::<u32>` gives: an optional `+`, then one or more decimal
/// digits whose value fits in a `u32`; anything else is no number.
pub open spec fn parse_u32(s: Seq<char>) -> Option<u32> {
    let d = if s.len() > 0 && s[0] == '+' {
        s.drop_first()
    } else {
        s
    };
    if d.len() > 0 && all_digits(d) && digits_value(d) <= u32::MAX {
        Some(digits_value(d) as u32)
    } else {
        None
    }
}

/// What `str::parse::<i32>` gives: an optional `+` or `-`, then one or more
/// decimal digits whose value, with the sign, fits in an `i32`; anything else
/// is no number.
pub open spec fn parse_i32(s: Seq<char>) -> Option<i32> {
    if s.len() > 0 && s[0] == '-' {
        let d = s.drop_first();
        if d.len() > 0 && all_digits(d) && digits_value(d) <= 0x8000_0000 {
            Some((0 - digits_value(d)) as i32)
        } else {
            None
        }
    } else {
        match parse_u32(s) {
            Some(v) => if v <= 0x7fff_ffff {
                Some(v as i32)
            } else {
                None
            },
            None => None,
        }
    }
}

/// The decimal text of `n`, without leading zeros (what `format!("{}", n)` writes).
pub open spec fn decimal(n: nat) -> Seq<char>
    decreases n,
{
    if n < 10 {
        seq![digit_char(n)]
    } else {
        decimal(n / 10).push(digit_char(n % 10))
    }
}

/// The text between `target(` and the closing `)` of `other`, when `other` is
/// `target` followed by a parenthesised part.
pub open spec fn suffix_part(target: Seq<char>, other: Seq<char>) -> Option<Seq<char>> {
    if other.len() >= target.len() + 2 && other.take(target.len() as int) == target
        && other[target.len() as int] == '(' && other.last() == ')' {
        Some(other.subrange((target.len() + 1) as int, other.len() - 1))
    } else {
        None
    }
}

/// The least suffix that `other` leaves free for `target`: 1 when `other` is
/// `target` itself, `n + 1` when `other` is `target(n)`, 0 otherwise.
pub open spec fn suffix_claim(target: Seq<char>, other: Seq<char>) -> nat {
    if other == target {
        1
    } else {
        match suffix_part(target, other) {
            Some(p) => match parse_u32(p) {
                Some(n) => (n + 1) as nat,
                None => 0,
            },
            None => 0,
        }
    }
}

/// The largest claim that any of `others` makes on the suffix of `target`.
pub open spec fn next_suffix(target: Seq<char>, others: Seq<Seq<char>>) -> nat
    decreases others.len(),
{
    if others.len() == 0 {
        0
    } else {
        let rest = next_suffix(target, others.drop_last());
        let c = suffix_claim(target, others.last());
        if c > rest {
            c
        } else {
            rest
        }
    }
}

/// `target` itself when no other name claims a suffix, else `target(k)` with
/// `k` the largest claim.
pub open spec fn unique_name(target: Seq<char>, others: Seq<Seq<char>>) -> Seq<char> {
    let k = next_suffix(target, others);
    if k == 0 {
        target
    } else {
        target + seq!['('] + decimal(k) + seq![')']
    }
}

/// Whether no other name claims a suffix beyond what a `u32` holds.
pub open spec fn claims_fit(target: Seq<char>, others: Seq<Seq<char>>) -> bool {
    forall|i: int| 0 <= i < others.len() ==> suffix_claim(target, #[trigger] others[i]) <= u32::MAX
}

/// The texts of a sequence of strings.
pub open spec fn texts(s: Seq<String>) -> Seq<Seq<char>> {
    s.map_values(|x: String| x@)
}

/// Every name asks no more than the chosen suffix, and some name asks
/// exactly that much unless it is 0.
pub proof fn lemma_next_suffix_bounds(target: Seq<char>, others: Seq<Seq<char>>)
    ensures
        forall|i: int|
            0 <= i < others.len() ==> suffix_claim(target, #[trigger] others[i]) <= next_suffix(
                target,
                others,
            ),
        next_suffix(target, others) == 0 || exists|i: int|
            0 <= i < others.len() && suffix_claim(target, #[trigger] others[i]) == next_suffix(
                target,
                others,
            ),
    decreases others.len(),
{
    if others.len() > 0 {
        let rest = others.drop_last();
        lemma_next_suffix_bounds(target, rest);
        assert forall|i: int| 0 <= i < others.len() implies suffix_claim(
            target,
            #[trigger] others[i],
        ) <= next_suffix(target, others) by {
            if i < others.len() - 1 {
                assert(others[i] == rest[i]);
            }
        }
        if next_suffix(target, others) != 0 {
            if suffix_claim(target, others.last()) > next_suffix(target, rest) {
                assert(suffix_claim(target, others[others.len() - 1]) == next_suffix(
                    target,
                    others,
                ));
            } else {
                let i = choose|i: int|
                    0 <= i < rest.len() && suffix_claim(target, #[trigger] rest[i]) == next_suffix(
                        target,
                        rest,
                    );
                assert(others[i] == rest[i]);
            }
        }
    }
}

/// A list of names whose every name is among those of another list claims no
/// larger suffix than that list.
proof fn lemma_next_suffix_of_fewer_names(target: Seq<char>, a: Seq<Seq<char>>, b: Seq<Seq<char>>)
    requires
        forall|i: int| 0 <= i < a.len() ==> b.contains(#[trigger] a[i]),
    ensures
        next_suffix(target, a) <= next_suffix(target, b),
{
    lemma_next_suffix_bounds(target, a);
    lemma_next_suffix_bounds(target, b);
    if next_suffix(target, a) != 0 {
        let i = choose|i: int|
            0 <= i < a.len() && suffix_claim(target, #[trigger] a[i]) == next_suffix(target, a);
        assert(b.contains(a[i]));
        let j = choose|j: int| 0 <= j < b.len() && b[j] == a[i];
        assert(suffix_claim(target, b[j]) <= next_suffix(target, b));
    }
}

/// The order of the other names does not matter: other names that are a
/// rearrangement of each other (the same names, each as often) make the same
/// unique name.
pub proof fn lemma_unique_name_ignores_order(target: Seq<char>, others: Seq<Seq<char>>, rearranged: Seq<Seq<char>>)
    requires
        rearranged.to_multiset() == others.to_multiset(),
    ensures
        unique_name(target, rearranged) == unique_name(target, others),
        claims_fit(target, rearranged) == claims_fit(target, others),
{
    assert forall|i: int| 0 <= i < others.len() implies rearranged.contains(#[trigger] others[i]) by {
        to_multiset_contains(others, others[i]);
        to_multiset_contains(rearranged, others[i]);
    }
    assert forall|i: int| 0 <= i < rearranged.len() implies others.contains(#[trigger] rearranged[i]) by {
        to_multiset_contains(others, rearranged[i]);
        to_multiset_contains(rearranged, rearranged[i]);
    }
    lemma_next_suffix_of_fewer_names(target, others, rearranged);
    lemma_next_suffix_of_fewer_names(target, rearranged, others);
    assert forall|i: int| 0 <= i < rearranged.len() && claims_fit(target, others) implies suffix_claim(
        target,
        #[trigger] rearranged[i],
    ) <= u32::MAX by {
        let j = choose|j: int| 0 <= j < others.len() && others[j] == rearranged[i];
    }
    assert forall|i: int| 0 <= i < others.len() && claims_fit(target, rearranged) implies suffix_claim(
        target,
        #[trigger] others[i],
    ) <= u32::MAX by {
        let j = choose|j: int| 0 <= j < rearranged.len() && rearranged[j] == others[i];
    }
}

/// Extending a digit string never lowers its value.
pub proof fn lemma_digits_value_prefix(s: Seq<char>, k: int)
    requires
        0 <= k <= s.len(),
    ensures
        digits_value(s.take(k)) <= digits_value(s),
    decreases s.len(),
{
    if k < s.len() {
        lemma_digits_value_prefix(s.drop_last(), k);
        assert(s.drop_last().take(k) =~= s.take(k));
    } else {
        assert(s.take(k) =~= s);
    }
}

/// The decimal text of `n` is all digits, has no sign, and reads back as `n`.
pub proof fn lemma_decimal_reads_back(n: nat)
    ensures
        decimal(n).len() > 0,
        all_digits(decimal(n)),
        decimal(n)[0] != '+',
        digits_value(decimal(n)) == n,
    decreases n,
{
    if n < 10 {
        assert(digits_value(decimal(n)) == digits_value(decimal(n).drop_last()) * 10 + digit_value(
            decimal(n).last(),
        ));
        assert(decimal(n).drop_last() =~= Seq::<char>::empty());
    } else {
        lemma_decimal_reads_back(n / 10);
        let d = decimal(n);
        assert(d.drop_last() =~= decimal(n / 10));
        assert forall|i: int| 0 <= i < d.len() implies is_decimal_digit(#[trigger] d[i]) by {
            if i < d.len() - 1 {
                assert(d[i] == decimal(n / 10)[i]);
            }
        }
        assert(n == (n / 10) * 10 + n % 10) by (nonlinear_arith);
    }
}

/// The unique name is taken by none of the other names.
pub proof fn lemma_unique_name_is_free(target: Seq<char>, others: Seq<Seq<char>>)
    requires
        claims_fit(target, others),
    ensures
        forall|i: int| 0 <= i < others.len() ==> others[i] != unique_name(target, others),
{
    lemma_next_suffix_bounds(target, others);
    let k = next_suffix(target, others);
    let r = unique_name(target, others);
    assert forall|i: int| 0 <= i < others.len() implies others[i] != r by {
        if others[i] == r {
            if k == 0 {
                assert(suffix_claim(target, others[i]) == 1);
            } else {
                lemma_decimal_reads_back(k);
                let tl = target.len();
                assert(r.take(tl as int) =~= target);
                assert(r.len() == tl + 2 + decimal(k).len());
                assert(r[tl as int] == '(');
                assert(r.subrange((tl + 1) as int, r.len() - 1) =~= decimal(k));
                assert(suffix_part(target, r) == Some(decimal(k)));
                assert(r != target);
                assert(parse_u32(decimal(k)) == Some(k as u32));
                assert(suffix_claim(target, r) == k + 1);
            }
        }
    }
}

/// The name is kept as it is exactly when no other name claims a suffix for it;
/// in particular it is kept when no other name equals it or carries a suffix of it.
pub proof fn lemma_unique_name_kept(target: Seq<char>, others: Seq<Seq<char>>)
    ensures
        (unique_name(target, others) == target) <==> (forall|i: int|
            0 <= i < others.len() ==> suffix_claim(target, #[trigger] others[i]) == 0),
{
    lemma_next_suffix_bounds(target, others);
    let k = next_suffix(target, others);
    if k != 0 {
        assert(unique_name(target, others).len() > target.len());
    }
}

/// Reads a `u32` from the characters `from..to` of `s`, as `str::parse::<u32>` does.
fn parse_u32_range(s: &str, from: usize, to: usize) -> (r: Option<u32>)
    requires
        from <= to <= s@.len(),
    ensures
        r == parse_u32(s@.subrange(from as int, to as int)),
{
    let ghost t = s@.subrange(from as int, to as int);
    let mut j = from;
    if j < to && s.get_char(j) == '+' {
        j = j + 1;
    }
    let start = j;
    let ghost d = s@.subrange(start as int, to as int);
    assert(d =~= (if t.len() > 0 && t[0] == '+' {
        t.drop_first()
    } else {
        t
    }));
    if start == to {
        return None;
    }
    let mut value: u64 = 0;
    while j < to
        invariant
            start <= j <= to <= s@.len(),
            d == s@.subrange(start as int, to as int),
            t == s@.subrange(from as int, to as int),
            d == (if t.len() > 0 && t[0] == '+' {
                t.drop_first()
            } else {
                t
            }),
            value == digits_value(d.take(j - start)),
            value <= u32::MAX,
            all_digits(d.take(j - start)),
        decreases to - j,
    {
        let c = s.get_char(j);
        let ghost k = j - start;
        assert(d[k] == c);
        if !((c as u32) >= 48 && (c as u32) <= 57) {
            assert(!is_decimal_digit(d[k]));
            assert(!all_digits(d));
            assert(parse_u32(t) == None::<u32>);
            return None;
        }
        let digit = (c as u32 - 48) as u64;
        value = value * 10 + digit;
        assert(d.take(k + 1).drop_last() =~= d.take(k));
        assert(d.take(k + 1).last() == c);
        assert forall|i: int| 0 <= i < k + 1 implies is_decimal_digit(#[trigger] d.take(k + 1)[i]) by {
            if i < k {
                assert(d.take(k + 1)[i] == d.take(k)[i]);
            }
        }
        assert(value == digits_value(d.take(k + 1)));
        j = j + 1;
        if value > u32::MAX as u64 {
            proof {
                lemma_digits_value_prefix(d, j - start);
            }
            assert(digits_value(d) > u32::MAX);
            assert(parse_u32(t) == None::<u32>);
            return None;
        }
    }
    assert(d.take(d.len() as int) =~= d);
    Some(value as u32)
}

/// Reads a `u32` as `str::parse::<u32>` does.
pub fn parse_u32_text(s: &str) -> (r: Option<u32>)
    ensures
        r == parse_u32(s@),
{
    let n = s.unicode_len();
    assert(s@.subrange(0, n as int) =~= s@);
    parse_u32_range(s, 0, n)
}

/// Reads an `i32` as `str::parse::<i32>` does.
pub fn parse_i32_text(s: &str) -> (r: Option<i32>)
    ensures
        r == parse_i32(s@),
{
    let n = s.unicode_len();
    if n > 0 && s.get_char(0) == '-' {
        let ghost d = s@.drop_first();
        assert(s@.subrange(1, n as int) =~= d);
        if n > 1 && s.get_char(1) == '+' {
            assert(!is_decimal_digit(d[0]));
            return None;
        }
        match parse_u32_range(s, 1, n) {
            Some(v) => {
                if v <= 0x8000_0000 {
                    let w: i64 = 0 - (v as i64);
                    Some(w as i32)
                } else {
                    None
                }
            },
            None => None,
        }
    } else {
        assert(s@.subrange(0, n as int) =~= s@);
        match parse_u32_range(s, 0, n) {
            Some(v) => {
                if v <= 0x7fff_ffff {
                    Some(v as i32)
                } else {
                    None
                }
            },
            None => None,
        }
    }
}

/// The suffix number in `other`, when `other` reads `target(n)`.
fn suffix_number(target: &str, other: &str) -> (r: Option<u32>)
    ensures
        r == (match suffix_part(target@, other@) {
            Some(p) => parse_u32(p),
            None => None,
        }),
{
    let tl = target.unicode_len();
    let ol = other.unicode_len();
    if ol < 2 || ol - 2 < tl {
        return None;
    }
    let mut j: usize = 0;
    while j < tl
        invariant
            tl == target@.len(),
            ol == other@.len(),
            tl + 2 <= ol,
            0 <= j <= tl,
            forall|i: int| 0 <= i < j ==> other@[i] == target@[i],
        decreases tl - j,
    {
        if other.get_char(j) != target.get_char(j) {
            assert(other@.take(tl as int)[j as int] != target@[j as int]);
            return None;
        }
        j = j + 1;
    }
    assert(other@.take(tl as int) =~= target@);
    if other.get_char(tl) != '(' {
        return None;
    }
    if other.get_char(ol - 1) != ')' {
        return None;
    }
    parse_u32_range(other, tl + 1, ol - 1)
}

/// The suffix that `other` claims for `target` (see [`suffix_claim`]).
fn claim_of(target: &str, other: &str) -> (c: u64)
    ensures
        c == suffix_claim(target@, other@),
{
    if str_equal(other, target) {
        return 1;
    }
    match suffix_number(target, other) {
        Some(n) => n as u64 + 1,
        None => 0,
    }
}

/// Appends the decimal text of `n`.
fn push_decimal(s: &mut String, n: u32)
    ensures
        final(s)@ == old(s)@ + decimal(n as nat),
    decreases n,
{
    if n >= 10 {
        push_decimal(s, n / 10);
    }
    let d = (n % 10) as u8;
    let c = (48u8 + d) as char;
    assert(c == digit_char((n % 10) as nat));
    push_char(s, c);
    assert(s@ =~= old(s)@ + decimal(n as nat));
}

/// Whether no name of `other_names` claims a suffix for `target_name` beyond
/// what a `u32` holds (the condition under which
/// [`modify_name_with_count_of_equals`] can count the suffix).
pub fn name_suffixes_fit(target_name: &str, other_names: &[String]) -> (r: bool)
    ensures
        r == claims_fit(target_name@, texts(other_names@)),
{
    let ghost names = texts(other_names@);
    let mut i: usize = 0;
    while i < other_names.len()
        invariant
            names == texts(other_names@),
            0 <= i <= other_names@.len(),
            forall|j: int| 0 <= j < i ==> suffix_claim(target_name@, #[trigger] names[j]) <= u32::MAX,
        decreases other_names@.len() - i,
    {
        let claim = claim_of(target_name, other_names[i].as_str());
        assert(names[i as int] == other_names@[i as int]@);
        if claim > u32::MAX as u64 {
            return false;
        }
        i = i + 1;
    }
    true
}

/// Makes `target_name` unique among `other_names`.
///
/// A name that no other name takes is kept. Otherwise the result is
/// `target_name(k)`, where `k` is one more than the largest `n` of any
/// `target_name(n)` among the other names, and at least 1 when the bare name is
/// taken. The result differs from every other name (see
/// [`lemma_unique_name_is_free`]).
pub fn modify_name_with_count_of_equals(target_name: &str, other_names: &[String]) -> (res: String)
    requires
        claims_fit(target_name@, texts(other_names@)),
    ensures
        res@ == unique_name(target_name@, texts(other_names@)),
{
    let ghost names = texts(other_names@);
    let mut next: u32 = 0;
    let mut i: usize = 0;
    while i < other_names.len()
        invariant
            names == texts(other_names@),
            claims_fit(target_name@, names),
            0 <= i <= other_names@.len(),
            next == next_suffix(target_name@, names.take(i as int)),
        decreases other_names@.len() - i,
    {
        let other = other_names[i].as_str();
        let claim = claim_of(target_name, other);
        assert(names.take(i + 1).drop_last() =~= names.take(i as int));
        assert(names.take(i + 1).last() == names[i as int]);
        assert(names[i as int] == other@);
        if claim > next as u64 {
            next = claim as u32;
        }
        i = i + 1;
    }
    assert(names.take(other_names@.len() as int) =~= names);
    let mut res = String::from_str(target_name);
    if next == 0 {
        return res;
    }
    push_char(&mut res, '(');
    push_decimal(&mut res, next);
    push_char(&mut res, ')');
    assert(res@ =~= unique_name(target_name@, names));
    res
}

} // verus!
