//! Whitespace-separated words, as `str::split_whitespace` yields them.

use vstd::prelude::*;
use crate::text::push_char;

verus! {

broadcast use vstd::seq_lib::group_seq_properties;

/// Unicode white space (the `White_Space` property that `char::is_whitespace` tests).
pub open spec fn is_space(c: char) -> bool {
    let v = c as u32;
    ||| (0x09 <= v <= 0x0D)
    ||| v == 0x20
    ||| v == 0x85
    ||| v == 0xA0
    ||| v == 0x1680
    ||| (0x2000 <= v <= 0x200A)
    ||| v == 0x2028
    ||| v == 0x2029
    ||| v == 0x202F
    ||| v == 0x205F
    ||| v == 0x3000
}

/// Whether a character is Unicode white space.
pub fn char_is_space(c: char) -> (r: bool)
    ensures
        r == is_space(c),
{
    let v = c as u32;
    (0x09 <= v && v <= 0x0D) || v == 0x20 || v == 0x85 || v == 0xA0 || v == 0x1680
        || (0x2000 <= v && v <= 0x200A) || v == 0x2028 || v == 0x2029 || v == 0x202F
        || v == 0x205F || v == 0x3000
}

/// `s[a..b]` is a word of `s`: a non-empty run of non-space characters with space or
/// the end of the text on both sides.
pub open spec fn word_at(s: Seq<char>, a: int, b: int) -> bool {
    &&& 0 <= a < b <= s.len()
    &&& forall|k: int| a <= k < b ==> !is_space(#[trigger] s[k])
    &&& (a == 0 || is_space(s[a - 1]))
    &&& (b == s.len() || is_space(s[b]))
}

/// `w` is one of the words of `s`.
pub open spec fn has_word(s: Seq<char>, w: Seq<char>) -> bool {
    exists|a: int, b: int| word_at(s, a, b) && s.subrange(a, b) == w
}

/// Every word of `required` is a word of `available`.
pub open spec fn words_covered(available: Seq<char>, required: Seq<char>) -> bool {
    forall|a: int, b: int| word_at(required, a, b) ==> has_word(available, required.subrange(a, b))
}

/// Splits a text into its words, in order.
pub fn split_words(s: &str) -> (out: Vec<String>)
    ensures
        forall|k: int| 0 <= k < out@.len() ==> has_word(s@, #[trigger] out@[k]@),
        forall|a: int, b: int| word_at(s@, a, b) ==> exists|k: int| 0 <= k < out@.len() && #[trigger] out@[k]@ == s@.subrange(a, b),
{
    let n = s.unicode_len();
    let ghost t = s@;
    let mut out: Vec<String> = Vec::new();
    let mut cur = String::new();
    let mut start: usize = 0;
    let mut i: usize = 0;
    while i < n
        invariant
            n == t.len(),
            t == s@,
            start <= i <= n,
            cur@ == t.subrange(start as int, i as int),
            forall|k: int| start <= k < i ==> !is_space(#[trigger] t[k]),
            start == 0 || is_space(t[start - 1]),
            forall|k: int| 0 <= k < out@.len() ==> has_word(t, #[trigger] out@[k]@),
            forall|a: int, b: int| word_at(t, a, b) && b < i ==> exists|k: int| 0 <= k < out@.len() && #[trigger] out@[k]@ == t.subrange(a, b),
        decreases n - i,
    {
        let c = s.get_char(i);
        if char_is_space(c) {
            if start < i {
                proof {
                    assert(word_at(t, start as int, i as int));
                }
                let ghost before = out@;
                out.push(cur);
                proof {
                    assert(out@[out@.len() - 1]@ == t.subrange(start as int, i as int));
                    assert forall|a: int, b: int| word_at(t, a, b) && b < i + 1 implies exists|k: int|
                        0 <= k < out@.len() && #[trigger] out@[k]@ == t.subrange(a, b) by {
                        if b == i {
                            if a < start {
                                assert(is_space(t[start - 1]));
                                assert(!is_space(t[start - 1]));
                            } else if a > start {
                                assert(!is_space(t[a - 1]));
                            }
                            assert(out@[out@.len() - 1]@ == t.subrange(a, b));
                        } else {
                            let k = choose|k: int| 0 <= k < before.len() && #[trigger] before[k]@ == t.subrange(a, b);
                            assert(out@[k] == before[k]);
                        }
                    }
                }
            } else {
                proof {
                    assert forall|a: int, b: int| word_at(t, a, b) && b < i + 1 implies exists|k: int|
                        0 <= k < out@.len() && #[trigger] out@[k]@ == t.subrange(a, b) by {
                        if b == i {
                            assert(a < b);
                            assert(!is_space(t[a]));
                            if a < start {
                                assert(false);
                            } else {
                                assert(false);
                            }
                        }
                    }
                }
            }
            cur = String::new();
            start = i + 1;
            assert(cur@ =~= t.subrange(start as int, (i + 1) as int));
        } else {
            push_char(&mut cur, c);
            assert(cur@ =~= t.subrange(start as int, (i + 1) as int));
            assert forall|a: int, b: int| word_at(t, a, b) && b < i + 1 implies exists|k: int|
                0 <= k < out@.len() && #[trigger] out@[k]@ == t.subrange(a, b) by {
                if b == i {
                    assert(is_space(t[b]));
                }
            }
        }
        i = i + 1;
    }
    if start < n {
        proof {
            assert(word_at(t, start as int, n as int));
        }
        let ghost before = out@;
        out.push(cur);
        proof {
            assert forall|a: int, b: int| word_at(t, a, b) implies exists|k: int|
                0 <= k < out@.len() && #[trigger] out@[k]@ == t.subrange(a, b) by {
                if b == n {
                    if a < start {
                        assert(!is_space(t[start - 1]));
                    } else if a > start {
                        assert(!is_space(t[a - 1]));
                    }
                    assert(out@[out@.len() - 1]@ == t.subrange(a, b));
                } else {
                    let k = choose|k: int| 0 <= k < before.len() && #[trigger] before[k]@ == t.subrange(a, b);
                    assert(out@[k] == before[k]);
                }
            }
            assert forall|k: int| 0 <= k < out@.len() implies has_word(t, #[trigger] out@[k]@) by {
                if k < before.len() {
                    assert(out@[k] == before[k]);
                }
            }
        }
    } else {
        proof {
            assert forall|a: int, b: int| word_at(t, a, b) implies exists|k: int|
                0 <= k < out@.len() && #[trigger] out@[k]@ == t.subrange(a, b) by {
                if b == n {
                    assert(!is_space(t[b - 1]));
                    assert(start == n);
                    if n > 0 {
                        assert(is_space(t[n - 1]));
                    }
                }
            }
        }
    }
    out
}

/// Whether a list of strings holds the given text.
fn contains_text(list: &Vec<String>, w: &String) -> (r: bool)
    ensures
        r == exists|k: int| 0 <= k < list@.len() && #[trigger] list@[k]@ == w@,
{
    let n = list.len();
    for i in 0..n
        invariant
            n == list@.len(),
            forall|k: int| 0 <= k < i ==> #[trigger] list@[k]@ != w@,
    {
        if list[i] == *w {
            return true;
        }
    }
    false
}

/// Whether every word of `required` is a word of `available`.
pub fn covers_words(available: &str, required: &str) -> (r: bool)
    ensures
        r == words_covered(available@, required@),
{
    let have = split_words(available);
    let want = split_words(required);
    let n = want.len();
    for i in 0..n
        invariant
            n == want@.len(),
            forall|k: int| 0 <= k < i ==> has_word(available@, #[trigger] want@[k]@),
            forall|k: int| 0 <= k < have@.len() ==> has_word(available@, #[trigger] have@[k]@),
            forall|a: int, b: int| word_at(available@, a, b) ==> exists|k: int| 0 <= k < have@.len() && #[trigger] have@[k]@ == available@.subrange(a, b),
            forall|k: int| 0 <= k < want@.len() ==> has_word(required@, #[trigger] want@[k]@),
            forall|a: int, b: int| word_at(required@, a, b) ==> exists|k: int| 0 <= k < want@.len() && #[trigger] want@[k]@ == required@.subrange(a, b),
    {
        if !contains_text(&have, &want[i]) {
            proof {
                assert(has_word(required@, want@[i as int]@));
                let (a, b) = choose|a: int, b: int| word_at(required@, a, b) && required@.subrange(a, b) == want@[i as int]@;
                if has_word(available@, want@[i as int]@) {
                    let (c, d) = choose|c: int, d: int| word_at(available@, c, d) && available@.subrange(c, d) == want@[i as int]@;
                    let k = choose|k: int| 0 <= k < have@.len() && #[trigger] have@[k]@ == available@.subrange(c, d);
                    assert(have@[k]@ == want@[i as int]@);
                }
                assert(!words_covered(available@, required@));
            }
            return false;
        }
        proof {
            let k = choose|k: int| 0 <= k < have@.len() && #[trigger] have@[k]@ == want@[i as int]@;
            assert(has_word(available@, have@[k]@));
        }
    }
    proof {
        assert forall|a: int, b: int| word_at(required@, a, b) implies has_word(available@, required@.subrange(a, b)) by {
            let k = choose|k: int| 0 <= k < want@.len() && #[trigger] want@[k]@ == required@.subrange(a, b);
            assert(has_word(available@, want@[k]@));
        }
    }
    true
}

/// A scope covers itself: a key passes a check for exactly the words it carries.
pub proof fn lemma_scope_covers_itself(s: Seq<char>)
    ensures
        words_covered(s, s),
{
    assert forall|a: int, b: int| word_at(s, a, b) implies has_word(s, s.subrange(a, b)) by {
        assert(word_at(s, a, b) && s.subrange(a, b) == s.subrange(a, b));
    }
}

/// Requiring no words is always satisfied, whatever scope the key carries.
pub proof fn lemma_empty_requirement(available: Seq<char>)
    ensures
        words_covered(available, Seq::empty()),
{
}

} // verus!
