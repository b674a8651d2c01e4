//! Lists given in configuration as maps from positions to values (`{"0": a, "1": b}`,
//! as environment variables spell them), and the list such a map stands for.

use vstd::prelude::*;
use crate::text::views;

verus! {

/// An ASCII decimal digit.
pub open spec fn is_digit(c: char) -> bool {
    '0' <= c && c <= '9'
}

/// The number that a sequence of decimal digits spells.
pub open spec fn decimal_value(s: Seq<char>) -> int
    decreases s.len(),
{
    if s.len() == 0 {
        0
    } else {
        decimal_value(s.drop_last()) * 10 + (s.last() as int - 48)
    }
}

/// Whether every character is a decimal digit.
pub open spec fn all_digits(s: Seq<char>) -> bool {
    forall|i: int| 0 <= i < s.len() ==> is_digit(#[trigger] s[i])
}

/// The position a key names, read as `usize::from_str` reads it: decimal digits after an
/// optional `+`, at least one, within the range of `usize`.
pub open spec fn parse_index(s: Seq<char>) -> Option<int> {
    let digits = if s.len() > 0 && s[0] == '+' { s.drop_first() } else { s };
    if digits.len() > 0 && all_digits(digits) && decimal_value(digits) <= usize::MAX {
        Some(decimal_value(digits))
    } else {
        None
    }
}

/// The digits of a longer number spell at least as much as those of its prefix.
proof fn lemma_decimal_grows(s: Seq<char>, k: int)
    requires
        0 <= k <= s.len(),
        all_digits(s),
    ensures
        decimal_value(s.take(k)) <= decimal_value(s),
        0 <= decimal_value(s),
    decreases s.len(),
{
    if s.len() > 0 {
        assert(all_digits(s.drop_last()));
        if k < s.len() {
            assert(s.drop_last().take(k) =~= s.take(k));
            lemma_decimal_grows(s.drop_last(), k);
        } else {
            assert(s.take(k) =~= s);
            lemma_decimal_grows(s.drop_last(), 0);
        }
        assert(is_digit(s.last()));
    }
}

/// Reads a key as a position.
pub fn parse_index_exec(s: &str) -> (r: Option<usize>)
    ensures
        match r {
            Some(n) => parse_index(s@) == Some(n as int),
            None => parse_index(s@) is None,
        },
{
    let n = s.unicode_len();
    let ghost t = s@;
    let mut start: usize = 0;
    if n > 0 && s.get_char(0) == '+' {
        start = 1;
    }
    let ghost digits = if t.len() > 0 && t[0] == '+' { t.drop_first() } else { t };
    assert(digits =~= t.subrange(start as int, n as int));
    if start >= n {
        return None;
    }
    let mut acc: usize = 0;
    let mut i: usize = start;
    while i < n
        invariant
            t == s@,
            n == t.len(),
            start <= i <= n,
            digits == t.subrange(start as int, n as int),
            digits == (if t.len() > 0 && t[0] == '+' { t.drop_first() } else { t }),
            forall|k: int| start <= k < i ==> is_digit(#[trigger] t[k]),
            acc as int == decimal_value(t.subrange(start as int, i as int)),
        decreases n - i,
    {
        let c = s.get_char(i);
        let ghost pre = t.subrange(start as int, i as int);
        let ghost next = t.subrange(start as int, i + 1);
        assert(next.drop_last() =~= pre);
        assert(next.last() == c);
        if !('0' <= c && c <= '9') {
            assert(digits[i - start] == c);
            assert(!is_digit(digits[i - start]));
            assert(!all_digits(digits));
            assert(parse_index(s@) is None);
            return None;
        }
        let d: usize = ((c as u32) - 48) as usize;
        let stepped = match acc.checked_mul(10) {
            Some(m) => m.checked_add(d),
            None => None,
        };
        match stepped {
            Some(v) => {
                acc = v;
            },
            None => {
                proof {
                    assert(decimal_value(next) == acc * 10 + d);
                    assert(decimal_value(next) > usize::MAX);
                    if all_digits(digits) {
                        lemma_decimal_grows(digits, (i + 1 - start) as int);
                        assert(digits.take((i + 1 - start) as int) =~= next);
                        assert(decimal_value(digits) > usize::MAX);
                    }
                    assert(parse_index(s@) is None);
                }
                return None;
            },
        }
        i = i + 1;
    }
    assert(t.subrange(start as int, n as int) =~= digits);
    Some(acc)
}

/// The positions and values that entries name: for each position, the value of the
/// last entry naming it; an entry whose key names no position is left out.
pub open spec fn index_map(entries: Seq<(String, String)>) -> Map<int, Seq<char>>
    decreases entries.len(),
{
    if entries.len() == 0 {
        Map::empty()
    } else {
        let m = index_map(entries.drop_last());
        match parse_index(entries.last().0@) {
            Some(n) => m.insert(n, entries.last().1@),
            None => m,
        }
    }
}

/// A position is in the map exactly when some entry's key names it, and its value is that
/// of the last entry naming it.
pub proof fn lemma_last_entry_wins(entries: Seq<(String, String)>, n: int)
    ensures
        index_map(entries).dom().contains(n)
            <==> exists|i: int| 0 <= i < entries.len() && #[trigger] parse_index(entries[i].0@) == Some(n),
        forall|i: int| 0 <= i < entries.len() && #[trigger] parse_index(entries[i].0@) == Some(n)
            && (forall|j: int| i < j < entries.len() ==> #[trigger] parse_index(entries[j].0@) != Some(n))
            ==> index_map(entries)[n] == entries[i].1@,
    decreases entries.len(),
{
    if entries.len() > 0 {
        let rest = entries.drop_last();
        let last = entries.len() - 1;
        lemma_last_entry_wins(rest, n);
        assert forall|i: int| 0 <= i < rest.len() implies #[trigger] rest[i] == entries[i] by {}
        if exists|i: int| 0 <= i < rest.len() && #[trigger] parse_index(rest[i].0@) == Some(n) {
            let i = choose|i: int| 0 <= i < rest.len() && #[trigger] parse_index(rest[i].0@) == Some(n);
            assert(parse_index(entries[i].0@) == Some(n));
        }
        if exists|i: int| 0 <= i < entries.len() && #[trigger] parse_index(entries[i].0@) == Some(n) {
            let i = choose|i: int| 0 <= i < entries.len() && #[trigger] parse_index(entries[i].0@) == Some(n);
            if i < last {
                assert(parse_index(rest[i].0@) == Some(n));
            } else {
                assert(entries.last() == entries[i]);
            }
        }
        assert forall|i: int| 0 <= i < entries.len() && #[trigger] parse_index(entries[i].0@) == Some(n)
            && (forall|j: int| i < j < entries.len() ==> #[trigger] parse_index(entries[j].0@) != Some(n))
            implies index_map(entries)[n] == entries[i].1@ by {
            if i < last {
                assert(parse_index(entries[last].0@) != Some(n));
                assert(entries.last() == entries[last]);
                assert(parse_index(rest[i].0@) == Some(n));
                assert forall|j: int| i < j < rest.len() implies #[trigger] parse_index(rest[j].0@) != Some(n) by {
                    assert(rest[j] == entries[j]);
                }
            } else {
                assert(entries.last() == entries[i]);
            }
        }
    }
}

/// `keys` lists the positions of `m` in increasing order, and `values` their values.
pub open spec fn lists_in_order(keys: Seq<usize>, values: Seq<Seq<char>>, m: Map<int, Seq<char>>) -> bool {
    &&& keys.len() == values.len()
    &&& forall|i: int, j: int| 0 <= i < j < keys.len() ==> #[trigger] keys[i] < #[trigger] keys[j]
    &&& forall|i: int| 0 <= i < keys.len() ==> m.dom().contains(#[trigger] keys[i] as int) && values[i] == m[keys[i] as int]
    &&& forall|x: int| m.dom().contains(x) ==> exists|i: int| 0 <= i < keys.len() && #[trigger] keys[i] as int == x
}

/// Sets position `n` to `v` in the ordered lists.
fn place(keys: &mut Vec<usize>, values: &mut Vec<String>, n: usize, v: String, Ghost(m): Ghost<Map<int, Seq<char>>>)
    requires
        lists_in_order(old(keys)@, views(old(values)@), m),
    ensures
        lists_in_order(final(keys)@, views(final(values)@), m.insert(n as int, v@)),
{
    let ghost k0 = keys@;
    let ghost w0 = views(values@);
    let mut i: usize = 0;
    while i < keys.len()
        invariant_except_break
            keys@ == k0,
            i <= k0.len(),
            forall|k: int| 0 <= k < i ==> k0[k] < n,
        ensures
            keys@ == k0,
            i <= k0.len(),
            forall|k: int| 0 <= k < i ==> k0[k] < n,
            i < k0.len() ==> k0[i as int] >= n,
        decreases k0.len() - i,
    {
        if keys[i] >= n {
            break;
        }
        i = i + 1;
    }
    let ghost m2 = m.insert(n as int, v@);
    if i < keys.len() && keys[i] == n {
        let ghost vals0 = values@;
        values.set(i, v);
        proof {
            assert(views(values@) =~= w0.update(i as int, v@));
            assert forall|k: int| 0 <= k < keys@.len() implies m2.dom().contains(#[trigger] keys@[k] as int)
                && views(values@)[k] == m2[keys@[k] as int] by {
                if k != i as int {
                    if k < i as int {
                        assert(k0[k] < k0[i as int]);
                    } else {
                        assert(k0[i as int] < k0[k]);
                    }
                }
            }
            assert forall|x: int| m2.dom().contains(x) implies exists|j: int| 0 <= j < keys@.len() && #[trigger] keys@[j] as int == x by {
                if x != n as int {
                    assert(m.dom().contains(x));
                }
            }
        }
    } else {
        keys.insert(i, n);
        values.insert(i, v);
        proof {
            let k1 = keys@;
            assert(k1 =~= k0.insert(i as int, n));
            assert(views(values@) =~= w0.insert(i as int, v@));
            assert forall|a: int, b: int| 0 <= a < b < k1.len() implies #[trigger] k1[a] < #[trigger] k1[b] by {
                if b < i as int {
                    assert(k0[a] < k0[b]);
                } else if b == i as int {
                    assert(k0[a] < n);
                } else if a < i as int {
                    assert(k0[a] < n);
                    assert(k0[i as int] > n);
                    if b - 1 > i as int {
                        assert(k0[i as int] < k0[b - 1]);
                    }
                } else if a == i as int {
                    assert(k0[i as int] > n);
                    if b - 1 > i as int {
                        assert(k0[i as int] < k0[b - 1]);
                    }
                } else {
                    assert(k0[a - 1] < k0[b - 1]);
                }
            }
            assert forall|k: int| 0 <= k < k1.len() implies m2.dom().contains(#[trigger] k1[k] as int)
                && views(values@)[k] == m2[k1[k] as int] by {
                if k < i as int {
                    assert(k0[k] < n);
                } else if k > i as int {
                    assert(k0[i as int] > n);
                    if k - 1 > i as int {
                        assert(k0[i as int] < k0[k - 1]);
                    }
                }
            }
            assert forall|x: int| m2.dom().contains(x) implies exists|j: int| 0 <= j < k1.len() && #[trigger] k1[j] as int == x by {
                if x == n as int {
                    assert(k1[i as int] as int == x);
                } else {
                    assert(m.dom().contains(x));
                    let j = choose|j: int| 0 <= j < k0.len() && #[trigger] k0[j] as int == x;
                    if j < i as int {
                        assert(k1[j] == k0[j]);
                    } else {
                        assert(k1[j + 1] == k0[j]);
                    }
                }
            }
        }
    }
}

/// The positions that entries name, in increasing order, with their values: for each
/// position, the value of the last entry naming it; entries whose key names no position
/// are left out.
pub fn order_by_index(entries: &Vec<(String, String)>) -> (r: (Vec<usize>, Vec<String>))
    ensures
        lists_in_order(r.0@, views(r.1@), index_map(entries@)),
{
    let mut keys: Vec<usize> = Vec::new();
    let mut values: Vec<String> = Vec::new();
    let mut i: usize = 0;
    proof {
        assert(entries@.take(0) =~= Seq::<(String, String)>::empty());
        assert(views(values@) =~= Seq::<Seq<char>>::empty());
    }
    while i < entries.len()
        invariant
            i <= entries@.len(),
            lists_in_order(keys@, views(values@), index_map(entries@.take(i as int))),
        decreases entries@.len() - i,
    {
        let ghost before = index_map(entries@.take(i as int));
        assert(entries@.take(i + 1).drop_last() =~= entries@.take(i as int));
        assert(entries@.take(i + 1).last() == entries@[i as int]);
        let key = &entries[i].0;
        match parse_index_exec(key.as_str()) {
            Some(n) => {
                let v = entries[i].1.clone();
                place(&mut keys, &mut values, n, v, Ghost(before));
            },
            None => {},
        }
        i = i + 1;
    }
    assert(entries@.take(entries@.len() as int) =~= entries@);
    (keys, values)
}

/// The list that a map from positions to values stands for: the values in increasing
/// order of position.
pub fn indexed_list(entries: &Vec<(String, String)>) -> (r: Vec<String>)
    ensures
        exists|keys: Seq<usize>| lists_in_order(keys, views(r@), index_map(entries@)),
{
    let (keys, values) = order_by_index(entries);
    values
}

} // verus!
