//! Request targets.
//!
//! A request target is the text a client puts after the method on the request
//! line, for example `/eval?wait=250`. The server reads three things from it:
//! the path (everything before the first `?`), the query string (what stands
//! between the first and the second `?`) and the `wait` parameter of the query
//! string. All of it is stated over the bytes of the target.

use vstd::prelude::*;
use vstd::slice::slice_subrange;
use vstd::string::StringSliceAdditionalSpecFns;

verus! {

/// `?`, which ends the path.
pub const QUERY_MARK: u8 = 0x3f;

/// `&`, which separates the parameters of a query string.
pub const PARAM_MARK: u8 = 0x26;

/// `+`, the one sign a number may carry.
pub const PLUS_SIGN: u8 = 0x2b;

/// `0`, the first of the ten decimal digits.
pub const DIGIT_ZERO: u8 = 0x30;

/// `9`, the last of the ten decimal digits.
pub const DIGIT_NINE: u8 = 0x39;

/// Position of the first `mark` in `s`, or the length of `s` when `s` holds none.
pub open spec fn first_index(s: Seq<u8>, mark: u8) -> int {
    match s.index_of_first(mark) {
        Some(i) => i,
        None => s.len() as int,
    }
}

/// The path of a target: its bytes before the first `?`.
pub open spec fn path_part(target: Seq<u8>) -> Seq<u8> {
    target.take(first_index(target, QUERY_MARK))
}

/// The query string of a target: the bytes after the first `?`, up to the next
/// `?` if there is one. A target without `?` has no query string.
pub open spec fn query_part(target: Seq<u8>) -> Option<Seq<u8>> {
    let mark = first_index(target, QUERY_MARK);
    if mark < target.len() {
        let rest = target.skip(mark + 1);
        Some(rest.take(first_index(rest, QUERY_MARK)))
    } else {
        None
    }
}

/// What follows `prefix` in the first `&`-separated piece of `query` that
/// begins with `prefix`. Later pieces are not looked at once one has matched.
pub open spec fn first_param(query: Seq<u8>, prefix: Seq<u8>) -> Option<Seq<u8>>
    decreases query.len(),
{
    let end = first_index(query, PARAM_MARK);
    let piece = query.take(end);
    if prefix.is_prefix_of(piece) {
        Some(piece.skip(prefix.len() as int))
    } else if 0 <= end < query.len() {
        first_param(query.skip(end + 1), prefix)
    } else {
        None
    }
}

/// Whether `b` is one of the ten decimal digits.
pub open spec fn is_digit(b: u8) -> bool {
    DIGIT_ZERO <= b <= DIGIT_NINE
}

/// Whether every byte of `s` is a decimal digit.
pub open spec fn all_digits(s: Seq<u8>) -> bool {
    forall|i: int| 0 <= i < s.len() ==> is_digit(#[trigger] s[i])
}

/// The number that a string of decimal digits writes, most significant digit
/// first.
pub open spec fn decimal_value(digits: Seq<u8>) -> nat
    decreases digits.len(),
{
    if digits.len() == 0 {
        0
    } else {
        10 * decimal_value(digits.drop_last()) + (digits.last() - DIGIT_ZERO) as nat
    }
}

/// `text` without its leading `+`, if it has one.
pub open spec fn unsigned_part(text: Seq<u8>) -> Seq<u8> {
    if text.len() > 0 && text[0] == PLUS_SIGN {
        text.skip(1)
    } else {
        text
    }
}

/// The number that `text` writes: an optional `+`, then one or more decimal
/// digits and nothing else, with a value that a `u64` can hold. Any other text
/// writes no number.
pub open spec fn parse_decimal(text: Seq<u8>) -> Option<u64> {
    let digits = unsigned_part(text);
    if digits.len() > 0 && all_digits(digits) && decimal_value(digits) <= u64::MAX {
        Some(decimal_value(digits) as u64)
    } else {
        None
    }
}

/// The bytes `wait=`, which open the parameter that asks for a delay.
pub open spec fn wait_prefix() -> Seq<u8> {
    "wait=".spec_bytes()
}

/// The delay, in milliseconds, that a target asks for: the number written by
/// the first `wait=` parameter of its query string. A target without a query
/// string, without such a parameter, or whose first such parameter writes no
/// number, asks for none.
pub open spec fn wait_millis(target: Seq<u8>) -> Option<u64> {
    match query_part(target) {
        Some(query) => match first_param(query, wait_prefix()) {
            Some(text) => parse_decimal(text),
            None => None,
        },
        None => None,
    }
}

/// `first_index` is the one position that has no `mark` before it and either
/// holds `mark` or is the end of `s`.
pub proof fn lemma_first_index(s: Seq<u8>, mark: u8, i: int)
    requires
        0 <= i <= s.len(),
        forall|j: int| 0 <= j < i ==> s[j] != mark,
        i < s.len() ==> s[i] == mark,
    ensures
        first_index(s, mark) == i,
{
    s.index_of_first_ensures(mark);
    if i < s.len() {
        assert(s.contains(mark));
    } else {
        assert(!s.contains(mark));
    }
}

/// A string of digits writes at least what any of its prefixes writes.
pub proof fn lemma_decimal_value_grows(digits: Seq<u8>, n: int)
    requires
        0 <= n <= digits.len(),
        all_digits(digits),
    ensures
        decimal_value(digits.take(n)) <= decimal_value(digits),
    decreases digits.len() - n,
{
    if n == digits.len() {
        assert(digits.take(n) =~= digits);
    } else {
        lemma_decimal_value_grows(digits, n + 1);
        let longer = digits.take(n + 1);
        assert(longer.drop_last() =~= digits.take(n));
        assert(is_digit(digits[n]));
        assert(longer.last() == digits[n]);
    }
}

/// Finds the first `mark` in `s`: the position that has no `mark` before it
/// and holds `mark`, or the length of `s` when `s` holds none.
pub fn find_first(s: &[u8], mark: u8) -> (at: usize)
    ensures
        at == first_index(s@, mark),
        at <= s@.len(),
        forall|j: int| 0 <= j < at ==> s@[j] != mark,
        at < s@.len() ==> s@[at as int] == mark,
{
    let mut i: usize = 0;
    while i < s.len() && s[i] != mark
        invariant
            i <= s@.len(),
            forall|j: int| 0 <= j < i ==> s@[j] != mark,
        decreases s@.len() - i,
    {
        i += 1;
    }
    proof {
        lemma_first_index(s@, mark, i as int);
    }
    i
}

/// Whether `s` begins with `prefix`.
pub fn begins_with(s: &[u8], prefix: &[u8]) -> (yes: bool)
    ensures
        yes == prefix@.is_prefix_of(s@),
{
    if prefix.len() > s.len() {
        return false;
    }
    let mut i: usize = 0;
    while i < prefix.len()
        invariant
            i <= prefix@.len() <= s@.len(),
            forall|j: int| 0 <= j < i ==> s@[j] == prefix@[j],
        decreases prefix@.len() - i,
    {
        if s[i] != prefix[i] {
            proof {
                let head = s@.subrange(0, prefix@.len() as int);
                assert(head[i as int] != prefix@[i as int]);
            }
            return false;
        }
        i += 1;
    }
    true
}

/// Whether `a` and `b` hold the same bytes.
pub fn same_bytes(a: &[u8], b: &[u8]) -> (yes: bool)
    ensures
        yes == (a@ == b@),
{
    if a.len() != b.len() {
        return false;
    }
    let mut i: usize = 0;
    while i < a.len()
        invariant
            i <= a@.len() == b@.len(),
            forall|j: int| 0 <= j < i ==> a@[j] == b@[j],
        decreases a@.len() - i,
    {
        if a[i] != b[i] {
            return false;
        }
        i += 1;
    }
    proof {
        assert(a@ =~= b@);
    }
    true
}

/// The path of `target`.
pub fn path_of(target: &[u8]) -> (path: &[u8])
    ensures
        path@ == path_part(target@),
{
    let end: usize = find_first(target, QUERY_MARK);
    slice_subrange(target, 0, end)
}

/// The query string of `target`, if it has one.
pub fn query_of(target: &[u8]) -> (query: Option<&[u8]>)
    ensures
        match query {
            Some(q) => query_part(target@) == Some(q@),
            None => query_part(target@) is None,
        },
{
    let mark: usize = find_first(target, QUERY_MARK);
    if mark < target.len() {
        let rest = slice_subrange(target, mark + 1, target.len());
        let end: usize = find_first(rest, QUERY_MARK);
        Some(slice_subrange(rest, 0, end))
    } else {
        None
    }
}

/// The value of the first parameter of `query` that begins with `prefix`.
pub fn param_value<'a>(query: &'a [u8], prefix: &[u8]) -> (value: Option<&'a [u8]>)
    ensures
        match value {
            Some(v) => first_param(query@, prefix@) == Some(v@),
            None => first_param(query@, prefix@) is None,
        },
{
    let mut rest: &[u8] = query;
    loop
        invariant
            first_param(rest@, prefix@) == first_param(query@, prefix@),
        decreases rest@.len(),
    {
        let end: usize = find_first(rest, PARAM_MARK);
        let piece = slice_subrange(rest, 0, end);
        if begins_with(piece, prefix) {
            return Some(slice_subrange(piece, prefix.len(), piece.len()));
        }
        if end >= rest.len() {
            return None;
        }
        rest = slice_subrange(rest, end + 1, rest.len());
    }
}

/// Reads the number that `text` writes.
pub fn parse_number(text: &[u8]) -> (value: Option<u64>)
    ensures
        value == parse_decimal(text@),
{
    let start: usize = if text.len() > 0 && text[0] == PLUS_SIGN {
        1
    } else {
        0
    };
    let digits = slice_subrange(text, start, text.len());
    assert(digits@ == unsigned_part(text@));
    if digits.len() == 0 {
        return None;
    }
    let mut value: u64 = 0;
    let mut i: usize = 0;
    while i < digits.len()
        invariant
            i <= digits@.len(),
            digits@ == unsigned_part(text@),
            all_digits(digits@.take(i as int)),
            value == decimal_value(digits@.take(i as int)),
        decreases digits@.len() - i,
    {
        let b: u8 = digits[i];
        if b < DIGIT_ZERO || b > DIGIT_NINE {
            assert(!is_digit(digits@[i as int]));
            return None;
        }
        let d: u64 = (b - DIGIT_ZERO) as u64;
        proof {
            let longer = digits@.take(i + 1);
            assert(longer.drop_last() =~= digits@.take(i as int));
            assert(longer.last() == b);
            assert(decimal_value(longer) == 10 * value + d);
            assert forall|j: int| 0 <= j < longer.len() implies is_digit(#[trigger] longer[j]) by {
                if j < i {
                    assert(longer[j] == digits@.take(i as int)[j]);
                }
            }
        }
        if value > (u64::MAX - d) / 10 {
            proof {
                if all_digits(digits@) {
                    lemma_decimal_value_grows(digits@, i + 1);
                }
            }
            return None;
        }
        value = value * 10 + d;
        i += 1;
    }
    proof {
        assert(digits@.take(i as int) =~= digits@);
    }
    Some(value)
}

/// The delay, in milliseconds, that `target` asks for.
pub fn wait_of(target: &[u8]) -> (wait: Option<u64>)
    ensures
        wait == wait_millis(target@),
{
    match query_of(target) {
        Some(query) => match param_value(query, "wait=".as_bytes()) {
            Some(text) => parse_number(text),
            None => None,
        },
        None => None,
    }
}

} // verus!
