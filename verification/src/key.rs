//! The parts of an API key and its token format.
//!
//! A full token reads `{namespace}_{tag}_{short_key}{long_key}{checksum}`, or
//! `{namespace}_{short_key}{long_key}{checksum}` for a key without a tag. The short
//! key is 12 bytes, the long key 24 and the checksum six characters.

use vstd::prelude::*;
use vstd::utf8::*;
use vstd::string::StringSliceAdditionalSpecFns;
use crate::text::{
    push_char, utf8, all_ascii, split_on, join_with, lacks, split_char, views, lemma_split_nonempty,
    lemma_split_lacking, lemma_split_concat, lemma_join_split, lemma_utf8_concat, lemma_utf8_ascii,
};
use crate::crypto::{checksum_text, get_checksum, lemma_checksum_text_shape, generate_random_alphanumeric, is_alphanumeric, pad_zeros6, base62, crc32, joined_bytes};
use crate::errors::ApiKeyServiceError;

verus! {

broadcast use vstd::seq_lib::group_seq_properties;

/// The parts of an API key.
#[derive(Debug)]
pub struct ApiKeyParts {
    pub namespace: String,
    pub tag: Option<String>,
    pub short_key: String,
    pub long_key: String,
}

/// The abstract value of [`ApiKeyParts`].
pub struct ApiKeyPartsView {
    pub namespace: Seq<char>,
    pub tag: Option<Seq<char>>,
    pub short_key: Seq<char>,
    pub long_key: Seq<char>,
}

/// The view of an optional string.
pub open spec fn opt_view(o: Option<String>) -> Option<Seq<char>> {
    match o {
        Some(s) => Some(s@),
        None => None,
    }
}

impl View for ApiKeyParts {
    type V = ApiKeyPartsView;

    open spec fn view(&self) -> ApiKeyPartsView {
        ApiKeyPartsView {
            namespace: self.namespace@,
            tag: opt_view(self.tag),
            short_key: self.short_key@,
            long_key: self.long_key@,
        }
    }
}

/// The tag text, or the empty text for a key without a tag.
pub open spec fn tag_or_empty(tag: Option<Seq<char>>) -> Seq<char> {
    match tag {
        Some(t) => t,
        None => Seq::<char>::empty(),
    }
}

/// The checksum of key parts: the checksum text of namespace, tag (or nothing),
/// short key and long key, cut to six characters.
pub open spec fn key_checksum(p: ApiKeyPartsView) -> Seq<char> {
    checksum_text(seq![p.namespace, tag_or_empty(p.tag), p.short_key, p.long_key]).take(6)
}

/// The full token of key parts.
pub open spec fn key_token(p: ApiKeyPartsView) -> Seq<char> {
    match p.tag {
        Some(t) => p.namespace + seq!['_'] + t + seq!['_'] + p.short_key + p.long_key + key_checksum(p),
        None => p.namespace + seq!['_'] + p.short_key + p.long_key + key_checksum(p),
    }
}

/// The key blob of a token: its last `_`-separated piece.
pub open spec fn token_blob(t: Seq<char>) -> Seq<char> {
    split_on(t, '_').last()
}

/// The token has the shape that parsing slices: two or three pieces with a 42-byte blob.
pub open spec fn token_has_key_shape(t: Seq<char>) -> bool {
    let n = split_on(t, '_').len();
    &&& (n == 2 || n == 3)
    &&& utf8(token_blob(t)).len() == 42
}

/// Parsing can slice the token's blob at bytes 12 and 36 without splitting a character.
pub open spec fn token_sliceable(t: Seq<char>) -> bool {
    token_has_key_shape(t) ==> {
        let b = utf8(token_blob(t));
        is_char_boundary(b, 12) && is_char_boundary(b, 36)
    }
}

/// The parts that the token's pieces name, before the checksum is checked.
pub open spec fn token_parts(t: Seq<char>) -> ApiKeyPartsView {
    let ps = split_on(t, '_');
    let b = utf8(token_blob(t));
    ApiKeyPartsView {
        namespace: ps[0],
        tag: if ps.len() == 3 { Some(ps[1]) } else { None },
        short_key: decode_utf8(b.subrange(0, 12)),
        long_key: decode_utf8(b.subrange(12, 36)),
    }
}

/// The checksum that the token carries: the blob's last six bytes.
pub open spec fn token_checksum(t: Seq<char>) -> Seq<char> {
    decode_utf8(utf8(token_blob(t)).subrange(36, 42))
}

/// What parsing a token gives: the parts it names when it has the key shape, its blob
/// splits at bytes 12 and 36 between characters, and its checksum matches the parts;
/// else `InvalidKey`.
pub open spec fn parse_token(t: Seq<char>) -> Result<ApiKeyPartsView, ApiKeyServiceError> {
    if token_has_key_shape(t) && token_sliceable(t) && key_checksum(token_parts(t)) == token_checksum(t) {
        Ok(token_parts(t))
    } else {
        Err(ApiKeyServiceError::InvalidKey)
    }
}

/// Key parts that a token can carry and give back: no `_` in any part, a 12-byte short
/// key and a 24-byte long key.
pub open spec fn well_formed_parts(p: ApiKeyPartsView) -> bool {
    &&& lacks(p.namespace, '_')
    &&& lacks(tag_or_empty(p.tag), '_')
    &&& lacks(p.short_key, '_')
    &&& lacks(p.long_key, '_')
    &&& utf8(p.short_key).len() == 12
    &&& utf8(p.long_key).len() == 24
}

/// The view of a parse result.
pub open spec fn parsed_view(r: Result<ApiKeyParts, ApiKeyServiceError>) -> Result<ApiKeyPartsView, ApiKeyServiceError> {
    match r {
        Ok(p) => Ok(p@),
        Err(e) => Err(e),
    }
}

/// The checksum of key parts is six alphanumeric ASCII characters.
pub proof fn lemma_key_checksum_shape(p: ApiKeyPartsView)
    ensures
        key_checksum(p).len() == 6,
        all_ascii(key_checksum(p)),
        lacks(key_checksum(p), '_'),
{
    let items = seq![p.namespace, tag_or_empty(p.tag), p.short_key, p.long_key];
    lemma_checksum_text_shape(items);
    assert(checksum_text(items).take(6) =~= checksum_text(items));
    assert forall|i: int| 0 <= i < 6 implies #[trigger] key_checksum(p)[i] != '_' by {
        assert(is_alphanumeric(checksum_text(items)[i]));
    }
}

/// Appends a string slice to a string.
fn append_str(s: &mut String, t: &str)
    ensures
        final(s)@ == old(s)@ + t@,
{
    s.append(t);
}

/// Within a valid encoding cut at a character boundary, a later boundary of the whole is
/// a boundary of the rest.
proof fn lemma_boundary_in_rest(b: Seq<u8>, cut: int, at: int)
    requires
        valid_utf8(b),
        0 < cut < at < b.len(),
        is_char_boundary(b, cut),
        is_char_boundary(b, at),
    ensures
        is_char_boundary(b.subrange(cut, b.len() as int), at - cut),
{
    let rest = b.subrange(cut, b.len() as int);
    valid_utf8_split(b, cut);
    is_char_boundary_iff_not_is_continuation_byte(b, at);
    is_char_boundary_iff_not_is_continuation_byte(rest, at - cut);
    assert(rest[at - cut] == b[at]);
}

impl ApiKeyParts {
    /// Builds key parts from their four components.
    pub fn new(namespace: String, tag: Option<String>, short_key: String, long_key: String) -> (p: Self)
        ensures
            p.namespace == namespace,
            p.tag == tag,
            p.short_key == short_key,
            p.long_key == long_key,
    {
        ApiKeyParts { namespace, tag, short_key, long_key }
    }

    /// The checksum of the parts: the base62 CRC-32 of namespace, tag, short key and long
    /// key, zero-padded and cut to six characters.
    pub fn checksum(&self) -> (s: String)
        ensures
            s@ == key_checksum(self@),
            s@.len() == 6,
    {
        let tag: &str = match &self.tag {
            Some(t) => t.as_str(),
            None => "",
        };
        proof {
            reveal_strlit("");
        }
        let mut items: Vec<&str> = Vec::new();
        items.push(self.namespace.as_str());
        items.push(tag);
        items.push(self.short_key.as_str());
        items.push(self.long_key.as_str());
        proof {
            assert(tag@ == tag_or_empty(self@.tag));
            assert(items@.map_values(|x: &str| x@) =~= seq![
                self.namespace@,
                tag_or_empty(self@.tag),
                self.short_key@,
                self.long_key@,
            ]);
            lemma_key_checksum_shape(self@);
        }
        let full = get_checksum(items.as_slice());
        let len = full.as_str().unicode_len();
        if len <= 6 {
            proof {
                assert(full@.take(6) =~= full@);
            }
            full
        } else {
            full.as_str().substring_char(0, 6).to_owned()
        }
    }

    /// The full token: namespace, tag (when there is one), then short key, long key and
    /// checksum.
    pub fn token(&self) -> (s: String)
        ensures
            s@ == key_token(self@),
    {
        let cks = self.checksum();
        let mut s = self.namespace.clone();
        push_char(&mut s, '_');
        match &self.tag {
            Some(tag) => {
                append_str(&mut s, tag.as_str());
                push_char(&mut s, '_');
            },
            None => {},
        }
        append_str(&mut s, self.short_key.as_str());
        append_str(&mut s, self.long_key.as_str());
        append_str(&mut s, cks.as_str());
        s
    }

    /// Parses a token into its parts. Fails with `InvalidKey` when the token does not have
    /// two or three `_`-separated pieces, when its key blob is not 42 bytes long, when
    /// byte 12 or 36 of the blob falls inside a character, or when the checksum it
    /// carries does not match its parts.
    pub fn from_token(token: &str) -> (r: Result<Self, ApiKeyServiceError>)
        ensures
            parsed_view(r) == parse_token(token@),
    {
        let parts = split_char(token, '_');
        proof {
            lemma_split_nonempty(token@, '_');
        }
        let n = parts.len();
        if n != 2 && n != 3 {
            return Err(ApiKeyServiceError::InvalidKey);
        }
        let namespace = parts[0].clone();
        let tag = if n == 3 {
            Some(parts[1].clone())
        } else {
            None
        };
        let blob: &str = parts[n - 1].as_str();
        proof {
            assert(views(parts@)[n - 1] == parts@[n - 1]@);
            assert(blob@ == token_blob(token@));
        }
        if blob.as_bytes().len() != 42 {
            return Err(ApiKeyServiceError::InvalidKey);
        }
        if !(blob.is_char_boundary(12) && blob.is_char_boundary(36)) {
            proof {
                assert(blob.spec_bytes() == utf8(token_blob(token@)));
                assert(token_has_key_shape(token@));
                assert(!token_sliceable(token@));
            }
            return Err(ApiKeyServiceError::InvalidKey);
        }
        let ghost b = utf8(token_blob(token@));
        proof {
            assert(views(parts@).len() == parts@.len());
            assert(blob.spec_bytes() == b);
            assert(split_on(token@, '_').len() == n);
            assert(utf8(token_blob(token@)).len() == 42);
            assert(token_has_key_shape(token@));
            encode_utf8_valid_utf8(token_blob(token@));
            lemma_boundary_in_rest(b, 12, 36);
        }
        let (short, rest) = blob.split_at(12);
        let (long, cks) = rest.split_at(24);
        proof {
            assert(b.subrange(12, 42).subrange(0, 24) =~= b.subrange(12, 36));
            assert(b.subrange(12, 42).subrange(24, 30) =~= b.subrange(36, 42));
            encode_utf8_decode_utf8(short@);
            encode_utf8_decode_utf8(long@);
            encode_utf8_decode_utf8(cks@);
            assert(views(parts@)[0] == parts@[0]@);
            assert(n == 3 ==> views(parts@)[1] == parts@[1]@);
        }
        let key_parts = Self::new(namespace, tag, short.to_owned(), long.to_owned());
        proof {
            assert(key_parts@ == token_parts(token@));
        }
        let expected = key_parts.checksum();
        let carried = cks.to_owned();
        if !(expected == carried) {
            return Err(ApiKeyServiceError::InvalidKey);
        }
        Ok(key_parts)
    }

    /// Generates new parts in the given namespace and tag, with a random 12-character
    /// short key and a random 24-character long key, both alphanumeric.
    pub fn generate(namespace: &str, tag: Option<&str>) -> (p: Self)
        ensures
            p@.namespace == namespace@,
            p@.tag == (match tag { Some(t) => Some(t@), None => None::<Seq<char>> }),
            p@.short_key.len() == 12,
            p@.long_key.len() == 24,
            forall|i: int| 0 <= i < 12 ==> is_alphanumeric(#[trigger] p@.short_key[i]),
            forall|i: int| 0 <= i < 24 ==> is_alphanumeric(#[trigger] p@.long_key[i]),
    {
        let tag_owned: Option<String> = match tag {
            Some(t) => Some(t.to_owned()),
            None => None,
        };
        Self::new(
            namespace.to_owned(),
            tag_owned,
            generate_random_alphanumeric(12),
            generate_random_alphanumeric(24),
        )
    }
}


/// The encoding of `a + b` has a character boundary where the encoding of `a` ends.
proof fn lemma_boundary_at_join(a: Seq<char>, b: Seq<char>)
    ensures
        is_char_boundary(utf8(a + b), utf8(a).len() as int),
    decreases a.len(),
{
    let bytes = utf8(a + b);
    encode_utf8_valid_utf8(a + b);
    if a.len() == 0 {
        assert(utf8(a).len() == 0);
    } else {
        encode_utf8_first_scalar(a + b);
        assert(pop_first_scalar(bytes) =~= utf8((a + b).drop_first()));
        assert((a + b).drop_first() =~= a.drop_first() + b);
        assert((a + b)[0] == a[0]);
        lemma_boundary_at_join(a.drop_first(), b);
        lemma_utf8_concat(a, b);
        assert(utf8(a).len() == encode_scalar(a[0] as u32).len() + utf8(a.drop_first()).len());
    }
}

/// A concatenation lacks a character when both sides do.
proof fn lemma_lacks_concat(a: Seq<char>, b: Seq<char>, c: char)
    requires
        lacks(a, c),
        lacks(b, c),
    ensures
        lacks(a + b, c),
{
    assert forall|i: int| 0 <= i < (a + b).len() implies #[trigger] (a + b)[i] != c by {
        if i >= a.len() {
            assert((a + b)[i] == b[i - a.len()]);
        }
    }
}

/// Token round trip: parsing the token of well-formed key parts gives those parts back.
pub proof fn lemma_token_round_trip(p: ApiKeyPartsView)
    requires
        well_formed_parts(p),
    ensures
        token_sliceable(key_token(p)),
        parse_token(key_token(p)) == Ok::<ApiKeyPartsView, ApiKeyServiceError>(p),
{
    let cks = key_checksum(p);
    lemma_key_checksum_shape(p);
    lemma_utf8_ascii(cks);
    let sl = p.short_key + p.long_key;
    let blob = sl + cks;
    lemma_lacks_concat(p.short_key, p.long_key, '_');
    lemma_lacks_concat(sl, cks, '_');
    lemma_split_lacking(blob, '_');
    lemma_split_lacking(p.namespace, '_');
    let t = key_token(p);
    match p.tag {
        Some(tg) => {
            lemma_split_lacking(tg, '_');
            lemma_split_concat(tg, blob, '_');
            lemma_split_concat(p.namespace, tg + seq!['_'] + blob, '_');
            assert(t =~= p.namespace + seq!['_'] + (tg + seq!['_'] + blob));
            assert(split_on(t, '_') =~= seq![p.namespace, tg, blob]);
        },
        None => {
            lemma_split_concat(p.namespace, blob, '_');
            assert(t =~= p.namespace + seq!['_'] + blob);
            assert(split_on(t, '_') =~= seq![p.namespace, blob]);
        },
    }
    assert(token_blob(t) == blob);
    lemma_utf8_concat(p.short_key, p.long_key);
    lemma_utf8_concat(sl, cks);
    let b = utf8(blob);
    assert(utf8(cks).len() == 6);
    assert(b.len() == 42);
    lemma_boundary_at_join(sl, cks);
    assert(blob =~= p.short_key + (p.long_key + cks));
    lemma_boundary_at_join(p.short_key, p.long_key + cks);
    assert(b.subrange(0, 12) =~= utf8(p.short_key));
    assert(b.subrange(12, 36) =~= utf8(p.long_key));
    assert(b.subrange(36, 42) =~= utf8(cks));
    encode_utf8_decode_utf8(p.short_key);
    encode_utf8_decode_utf8(p.long_key);
    encode_utf8_decode_utf8(cks);
    assert(token_parts(t) == p);
}

/// A token that parses is the token of the parts it parses to.
pub proof fn lemma_parsed_token_is_canonical(t: Seq<char>)
    requires
        parse_token(t) is Ok,
    ensures
        key_token(token_parts(t)) == t,
{
    let ps = split_on(t, '_');
    let p = token_parts(t);
    let blob = token_blob(t);
    let b = utf8(blob);
    lemma_join_split(t, '_');
    encode_utf8_valid_utf8(blob);
    encode_utf8_decode_utf8(blob);
    decode_utf8_split(b, 12);
    valid_utf8_split(b, 12);
    let rest = b.subrange(12, 42);
    lemma_boundary_in_rest(b, 12, 36);
    decode_utf8_split(rest, 24);
    assert(rest.subrange(0, 24) =~= b.subrange(12, 36));
    assert(rest.subrange(24, 30) =~= b.subrange(36, 42));
    assert(b.subrange(12, b.len() as int) =~= rest);
    assert(blob =~= p.short_key + p.long_key + key_checksum(p));
    if ps.len() == 3 {
        assert(ps.drop_last().drop_last() =~= seq![ps[0]]);
        assert(join_with(ps.drop_last(), '_') == join_with(ps.drop_last().drop_last(), '_') + seq!['_'] + ps[1]);
        assert(join_with(ps, '_') == join_with(ps.drop_last(), '_') + seq!['_'] + ps[2]);
        assert(key_token(p) =~= t);
    } else {
        assert(ps.drop_last() =~= seq![ps[0]]);
        assert(join_with(ps, '_') == join_with(ps.drop_last(), '_') + seq!['_'] + ps[1]);
        assert(key_token(p) =~= t);
    }
}

/// A key's checksum is the CRC-32 of the bytes of its namespace, its tag (nothing for an
/// untagged key), its short key and its long key, one after the other, written in base62
/// and padded on the left with zeros to six characters.
pub proof fn lemma_key_checksum_is_crc(p: ApiKeyPartsView)
    ensures
        key_checksum(p) == pad_zeros6(base62(crc32(
            utf8(p.namespace) + utf8(tag_or_empty(p.tag)) + utf8(p.short_key) + utf8(p.long_key)) as nat)),
{
    let items = seq![p.namespace, tag_or_empty(p.tag), p.short_key, p.long_key];
    lemma_checksum_text_shape(items);
    assert(checksum_text(items).take(6) =~= checksum_text(items));
    let s0 = Seq::<Seq<char>>::empty();
    let s1 = seq![p.namespace];
    let s2 = seq![p.namespace, tag_or_empty(p.tag)];
    let s3 = seq![p.namespace, tag_or_empty(p.tag), p.short_key];
    assert(s1.drop_last() =~= s0);
    assert(s2.drop_last() =~= s1);
    assert(s3.drop_last() =~= s2);
    assert(items.drop_last() =~= s3);
    assert(joined_bytes(s0) =~= Seq::<u8>::empty());
    assert(joined_bytes(s1) =~= utf8(p.namespace));
    assert(joined_bytes(s2) =~= utf8(p.namespace) + utf8(tag_or_empty(p.tag)));
    assert(joined_bytes(s3) =~= utf8(p.namespace) + utf8(tag_or_empty(p.tag)) + utf8(p.short_key));
    assert(joined_bytes(items) =~= utf8(p.namespace) + utf8(tag_or_empty(p.tag)) + utf8(p.short_key) + utf8(p.long_key));
}

/// A token is its namespace, `_`, its tag and `_` when it has one, then its short key,
/// its long key and its six-character checksum, with nothing between them.
pub proof fn lemma_token_layout(p: ApiKeyPartsView)
    ensures
        key_token(p) == p.namespace + seq!['_'] + (if p.tag is Some { tag_or_empty(p.tag) + seq!['_'] } else { Seq::<char>::empty() })
            + p.short_key + p.long_key + key_checksum(p),
        key_checksum(p).len() == 6,
{
    lemma_key_checksum_shape(p);
    if p.tag is Some {
        assert(key_token(p) =~= p.namespace + seq!['_'] + (tag_or_empty(p.tag) + seq!['_']) + p.short_key + p.long_key + key_checksum(p));
    } else {
        assert(key_token(p) =~= p.namespace + seq!['_'] + Seq::<char>::empty() + p.short_key + p.long_key + key_checksum(p));
    }
}

} // verus!
