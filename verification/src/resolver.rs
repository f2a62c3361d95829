//! Resolution of a user-supplied node identifier.
//!
//! An identifier is either the decimal rendering of a node id, which is used
//! as it stands, or a name, which the provider has to look up.

use vstd::prelude::*;
use vstd::std_specs::iter::IteratorSpec;

verus! {

broadcast use vstd::string::group_string_axioms;

/// Whether `c` is one of the ten ASCII decimal digits.
pub open spec fn is_digit(c: char) -> bool {
    '0' <= c <= '9'
}

/// The number that the digit `c` stands for.
pub open spec fn digit_value(c: char) -> int {
    c as int - '0' as int
}

/// Whether `s` consists of decimal digits only.
pub open spec fn all_digits(s: Seq<char>) -> bool {
    forall|i: int| 0 <= i < s.len() ==> is_digit(#[trigger] s[i])
}

/// The number that the digit string `s` denotes in base ten; zero for the
/// empty string.
pub open spec fn digits_value(s: Seq<char>) -> int
    decreases s.len(),
{
    if s.len() == 0 {
        0
    } else {
        10 * digits_value(s.drop_last()) + digit_value(s.last())
    }
}

/// The integer that `s` denotes: an optional sign, `+` or `-`, followed by
/// one or more decimal digits. Anything else denotes no integer.
pub open spec fn spec_parse_int(s: Seq<char>) -> Option<int> {
    if s.len() > 0 && s[0] == '-' {
        let body = s.subrange(1, s.len() as int);
        if body.len() > 0 && all_digits(body) {
            Some(-digits_value(body))
        } else {
            None
        }
    } else {
        let body = if s.len() > 0 && s[0] == '+' {
            s.subrange(1, s.len() as int)
        } else {
            s
        };
        if body.len() > 0 && all_digits(body) {
            Some(digits_value(body))
        } else {
            None
        }
    }
}

/// The node id that the identifier `s` spells out, if it spells one: `s`
/// denotes an integer that is not negative and fits in 64 bits.
pub open spec fn spec_node_id(s: Seq<char>) -> Option<i64> {
    match spec_parse_int(s) {
        Some(v) => if 0 <= v <= i64::MAX {
            Some(v as i64)
        } else {
            None
        },
        None => None,
    }
}

/// A digit string is worth at least as much as any of its prefixes, and is
/// never negative.
pub proof fn lemma_digits_value_monotone(s: Seq<char>, k: int)
    requires
        all_digits(s),
        0 <= k <= s.len(),
    ensures
        0 <= digits_value(s.subrange(0, k)) <= digits_value(s),
    decreases s.len() - k,
{
    if k == s.len() {
        assert(s.subrange(0, k) =~= s);
        lemma_digits_value_nonnegative(s);
    } else {
        lemma_digits_value_monotone(s, k + 1);
        let longer = s.subrange(0, k + 1);
        assert(longer.drop_last() =~= s.subrange(0, k));
        assert(is_digit(s[k]));
        assert(longer.last() == s[k]);
        lemma_digits_value_nonnegative(s.subrange(0, k));
    }
}

/// A digit string never denotes a negative number.
pub proof fn lemma_digits_value_nonnegative(s: Seq<char>)
    requires
        all_digits(s),
    ensures
        0 <= digits_value(s),
    decreases s.len(),
{
    if s.len() > 0 {
        assert(is_digit(s[s.len() - 1]));
        lemma_digits_value_nonnegative(s.drop_last());
    }
}

/// Once a prefix of the digits is worth more than 64 bits hold, the whole
/// string spells no node id.
proof fn lemma_overflow_is_no_id(s: Seq<char>, start: int, k: int)
    requires
        0 <= start <= 1,
        start < k <= s.len(),
        start == 1 <==> (s[0] == '-' || s[0] == '+'),
        all_digits(s.subrange(start, k)),
        digits_value(s.subrange(start, k)) > i64::MAX,
    ensures
        spec_node_id(s) is None,
{
    let body = s.subrange(start, s.len() as int);
    if all_digits(body) {
        lemma_digits_value_monotone(body, k - start);
        assert(body.subrange(0, k - start) =~= s.subrange(start, k));
    }
    if start == 0 {
        assert(body =~= s);
    }
}

/// Reads `node` as a node id.
///
/// Returns the id when `node` is an optional sign followed by decimal
/// digits and the number is neither negative nor too large for 64 bits;
/// returns `None` for every other string, which is then a name.
pub fn parse_node_id(node: &str) -> (id: Option<i64>)
    ensures
        id == spec_node_id(node@),
{
    let mut it = node.chars();
    let mut negative = false;
    let mut value: i64 = 0;
    let mut any_digit = false;
    let mut at_start = true;
    let ghost mut seen: Seq<char> = Seq::empty();
    let ghost mut start: int = 0;
    loop
        invariant
            it.obeys_prophetic_iter_laws(),
            it.decrease() is Some,
            seen + it.remaining() == node@,
            0 <= start <= seen.len(),
            start <= 1,
            at_start <==> seen.len() == 0,
            start == 1 ==> (seen[0] == '-' || seen[0] == '+'),
            start == 0 && !at_start ==> seen[0] != '-' && seen[0] != '+',
            negative <==> (start == 1 && seen[0] == '-'),
            all_digits(seen.subrange(start, seen.len() as int)),
            any_digit <==> seen.len() > start,
            value == digits_value(seen.subrange(start, seen.len() as int)),
            0 <= value,
        ensures
            seen == node@,
        decreases it.decrease()->0,
    {
        let ghost before = seen;
        let ghost rest = it.remaining();
        match it.next() {
            None => {
                proof {
                    assert(seen =~= node@);
                }
                break;
            },
            Some(c) => {
                proof {
                    seen = seen.push(c);
                    assert(seen + it.remaining() =~= before + rest);
                    assert(node@.subrange(0, seen.len() as int) =~= seen);
                }
                if at_start && (c == '-' || c == '+') {
                    negative = c == '-';
                    proof {
                        start = 1;
                        assert(seen.subrange(1, 1) =~= Seq::<char>::empty());
                    }
                } else if '0' <= c && c <= '9' {
                    let d: i64 = (c as u32 - '0' as u32) as i64;
                    let ghost body = seen.subrange(start, seen.len() as int);
                    proof {
                        assert(body.drop_last() =~= before.subrange(start, before.len() as int));
                        assert(body.last() == c);
                        assert forall|i: int| 0 <= i < body.len() implies is_digit(
                            #[trigger] body[i],
                        ) by {
                            if i < body.len() - 1 {
                                assert(body[i] == body.drop_last()[i]);
                            }
                        }
                    }
                    if value > (i64::MAX - d) / 10 {
                        proof {
                            assert(node@.subrange(start, seen.len() as int) =~= body);
                            assert(node@[0] == seen[0]);
                            assert(digits_value(body) == 10 * value + d);
                            lemma_overflow_is_no_id(node@, start, seen.len() as int);
                        }
                        return None;
                    }
                    value = value * 10 + d;
                    any_digit = true;
                } else {
                    proof {
                        let whole = node@.subrange(start, node@.len() as int);
                        assert(whole[seen.len() - 1 - start] == c);
                        assert(!is_digit(c));
                    }
                    return None;
                }
                at_start = false;
            },
        }
    }
    proof {
        assert(start == 0 ==> seen.subrange(0, seen.len() as int) =~= seen);
    }
    if !any_digit {
        None
    } else if negative {
        if value == 0 {
            Some(0)
        } else {
            None
        }
    } else {
        Some(value)
    }
}

/// The node that a name resolves to: the first of the nodes that the
/// provider lists under the name, or none when the listing is empty.
pub fn first_match(ids: &Vec<i64>) -> (id: Option<i64>)
    ensures
        id == if ids@.len() == 0 {
            None
        } else {
            Some(ids@[0])
        },
{
    if ids.len() == 0 {
        None
    } else {
        Some(ids[0])
    }
}

} // verus!
