//! Character and byte helpers shared by the token and checksum code.

use vstd::prelude::*;
use vstd::utf8::*;

verus! {

broadcast use vstd::seq_lib::group_seq_properties;

/// Appends one character to a string (`String::push`).
#[verifier::external_body]
pub(crate) fn push_char(s: &mut String, c: char)
    ensures
        final(s)@ == old(s)@.push(c),
{
    s.push(c);
}

/// The UTF-8 bytes of a character sequence.
pub open spec fn utf8(s: Seq<char>) -> Seq<u8> {
    encode_utf8(s)
}

/// Every character of `s` is an ASCII character.
pub open spec fn all_ascii(s: Seq<char>) -> bool {
    forall|i: int| 0 <= i < s.len() ==> (#[trigger] s[i] as u32) < 128
}

/// UTF-8 encoding distributes over concatenation.
pub proof fn lemma_utf8_concat(a: Seq<char>, b: Seq<char>)
    ensures
        utf8(a + b) == utf8(a) + utf8(b),
    decreases a.len(),
{
    if a.len() == 0 {
        assert(a + b =~= b);
    } else {
        assert((a + b).drop_first() =~= a.drop_first() + b);
        lemma_utf8_concat(a.drop_first(), b);
    }
}

/// The encoding of an ASCII sequence has one byte per character.
pub proof fn lemma_utf8_ascii(s: Seq<char>)
    requires
        all_ascii(s),
    ensures
        utf8(s) =~= Seq::new(s.len(), |i: int| (s[i] as u32) as u8),
    decreases s.len(),
{
    if s.len() > 0 {
        assert(all_ascii(s.drop_first()));
        lemma_utf8_ascii(s.drop_first());
        let v = s[0] as u32;
        assert(v < 128);
        assert(v < 128 ==> (v & 0x7F) as u8 == v as u8) by (bit_vector);
        assert(utf8(s) =~= seq![(s[0] as u32) as u8] + utf8(s.drop_first()));
    }
}

/// Two character sequences are equal exactly when their encodings are.
pub proof fn lemma_utf8_injective(a: Seq<char>, b: Seq<char>)
    ensures
        (utf8(a) == utf8(b)) <==> (a == b),
{
    encode_utf8_decode_utf8(a);
    encode_utf8_decode_utf8(b);
}


/// The pieces of `s` between occurrences of `sep`, as `str::split` yields them
/// (an empty text gives one empty piece).
pub open spec fn split_on(s: Seq<char>, sep: char) -> Seq<Seq<char>>
    decreases s.len(),
{
    if s.len() == 0 {
        seq![Seq::<char>::empty()]
    } else {
        let rest = split_on(s.drop_last(), sep);
        if s.last() == sep {
            rest.push(Seq::<char>::empty())
        } else {
            rest.update(rest.len() - 1, rest.last().push(s.last()))
        }
    }
}

/// The pieces joined back with `sep` between them.
pub open spec fn join_with(pieces: Seq<Seq<char>>, sep: char) -> Seq<char>
    decreases pieces.len(),
{
    if pieces.len() <= 1 {
        if pieces.len() == 0 {
            Seq::<char>::empty()
        } else {
            pieces[0]
        }
    } else {
        join_with(pieces.drop_last(), sep) + seq![sep] + pieces.last()
    }
}

/// `s` holds no occurrence of `c`.
pub open spec fn lacks(s: Seq<char>, c: char) -> bool {
    forall|i: int| 0 <= i < s.len() ==> #[trigger] s[i] != c
}

/// Splitting always gives at least one piece.
pub proof fn lemma_split_nonempty(s: Seq<char>, sep: char)
    ensures
        split_on(s, sep).len() >= 1,
    decreases s.len(),
{
    if s.len() > 0 {
        lemma_split_nonempty(s.drop_last(), sep);
    }
}

/// A text without the separator is a single piece.
pub proof fn lemma_split_lacking(s: Seq<char>, sep: char)
    requires
        lacks(s, sep),
    ensures
        split_on(s, sep) == seq![s],
    decreases s.len(),
{
    if s.len() > 0 {
        assert(lacks(s.drop_last(), sep));
        lemma_split_lacking(s.drop_last(), sep);
        assert(s.drop_last().push(s.last()) =~= s);
        assert(split_on(s, sep) =~= seq![s]);
    } else {
        assert(s =~= Seq::<char>::empty());
    }
}

/// Splitting `x`, a separator and `b` gives the pieces of `x` followed by those of `b`.
pub proof fn lemma_split_concat(x: Seq<char>, b: Seq<char>, sep: char)
    ensures
        split_on(x + seq![sep] + b, sep) == split_on(x, sep) + split_on(b, sep),
    decreases b.len(),
{
    let t = x + seq![sep] + b;
    lemma_split_nonempty(x, sep);
    lemma_split_nonempty(b, sep);
    if b.len() == 0 {
        assert(t.drop_last() =~= x);
        assert(split_on(b, sep) =~= seq![Seq::<char>::empty()]);
        assert(split_on(t, sep) =~= split_on(x, sep) + split_on(b, sep));
    } else {
        let b2 = b.drop_last();
        assert(t.drop_last() =~= x + seq![sep] + b2);
        lemma_split_concat(x, b2, sep);
        lemma_split_nonempty(b2, sep);
        let l = split_on(x, sep);
        let r = split_on(b2, sep);
        if b.last() == sep {
            assert(split_on(t, sep) =~= l + split_on(b, sep));
        } else {
            assert((l + r).last() == r.last());
            assert((l + r).update((l + r).len() - 1, r.last().push(b.last())) =~= l + r.update(
                r.len() - 1,
                r.last().push(b.last()),
            ));
        }
    }
}

/// Joining the pieces of a split gives the text back.
pub proof fn lemma_join_split(s: Seq<char>, sep: char)
    ensures
        join_with(split_on(s, sep), sep) == s,
    decreases s.len(),
{
    if s.len() > 0 {
        let s2 = s.drop_last();
        lemma_join_split(s2, sep);
        lemma_split_nonempty(s2, sep);
        let r = split_on(s2, sep);
        if s.last() == sep {
            assert(r.push(Seq::<char>::empty()).drop_last() =~= r);
            assert(s2 + seq![sep] + Seq::<char>::empty() =~= s);
        } else {
            let u = r.update(r.len() - 1, r.last().push(s.last()));
            assert(u.drop_last() =~= r.drop_last());
            if r.len() == 1 {
                assert(s2 =~= r[0]);
                assert(u[0] =~= s);
            } else {
                assert(join_with(r, sep) == join_with(r.drop_last(), sep) + seq![sep] + r.last());
                assert(join_with(u, sep) == join_with(u.drop_last(), sep) + seq![sep] + u.last());
                assert(u.last() == r.last().push(s.last()));
                assert(s =~= s2.push(s.last()));
                assert(join_with(u, sep) =~= s);
            }
        }
    } else {
        assert(s =~= Seq::<char>::empty());
    }
}

/// The views of a list of strings.
pub open spec fn views(v: Seq<String>) -> Seq<Seq<char>> {
    v.map_values(|x: String| x@)
}

/// Splits a string on a character, as `str::split` does.
pub fn split_char(s: &str, sep: char) -> (pieces: Vec<String>)
    ensures
        views(pieces@) == split_on(s@, sep),
{
    let n = s.unicode_len();
    let mut pieces: Vec<String> = Vec::new();
    let mut cur = String::new();
    let mut i: usize = 0;
    while i < n
        invariant
            n == s@.len(),
            i <= n,
            views(pieces@).push(cur@) == split_on(s@.take(i as int), sep),
        decreases n - i,
    {
        let c = s.get_char(i);
        let ghost before = views(pieces@).push(cur@);
        assert(s@.take(i + 1).drop_last() =~= s@.take(i as int));
        if c == sep {
            pieces.push(cur);
            cur = String::new();
            assert(views(pieces@).push(cur@) =~= before.push(Seq::<char>::empty()));
        } else {
            push_char(&mut cur, c);
            assert(views(pieces@).push(cur@) =~= before.update(before.len() - 1, before.last().push(c)));
        }
        i = i + 1;
    }
    assert(s@.take(n as int) =~= s@);
    pieces.push(cur);
    assert(views(pieces@) =~= split_on(s@, sep));
    pieces
}

/// The decimal digits of `n`, most significant first, without leading zeros.
pub open spec fn decimal(n: nat) -> Seq<char>
    decreases n,
{
    if n < 10 {
        seq![(48 + n) as char]
    } else {
        decimal(n / 10).push((48 + n % 10) as char)
    }
}

/// Appends the decimal digits of `n` to `s`.
pub fn push_decimal(s: &mut String, n: usize)
    ensures
        final(s)@ == old(s)@ + decimal(n as nat),
    decreases n,
{
    let ghost start = s@;
    if n >= 10 {
        push_decimal(s, n / 10);
    }
    let d: u8 = (n % 10) as u8;
    let ghost mid = s@;
    push_char(s, (48 + d) as char);
    proof {
        if n >= 10 {
            assert(mid == start + decimal((n / 10) as nat));
            assert(s@ =~= start + decimal(n as nat));
        } else {
            assert(s@ =~= start + decimal(n as nat));
        }
    }
}

} // verus!
