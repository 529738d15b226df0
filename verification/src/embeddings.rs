//! Local embeddings: the features a text is hashed into, and the names of cached
//! vectors. The vector arithmetic (floating point) stays with the caller.
use vstd::prelude::*;

use sha2::Digest;

use crate::harness::{path_join, path_joined};
use crate::text::{
    byte_len, byte_len_capped, chars_of, extend_chars, extend_str, is_alphanumeric, lowercase,
    spec_is_alphanumeric, spec_lowercase, split_ws, str_eq, string_of, trim, trim_vec, views,
    words,
};

verus! {

// ─── SHA-256 ────────────────────────────────────────────────────────────────

/// The SHA-256 digest of the UTF-8 bytes of a text.
pub uninterp spec fn spec_sha256(text: Seq<char>) -> Seq<u8>;

/// `sha2::Sha256` over the text's bytes: its 32-byte digest.
#[verifier::external_body]
fn sha256_of(text: &str) -> (r: Vec<u8>)
    ensures
        r@ == spec_sha256(text@),
        r@.len() == 32,
{
    let mut hasher = sha2::Sha256::new();
    hasher.update(text.as_bytes());
    hasher.finalize().to_vec()
}

pub open spec fn hex_digit(d: nat) -> char {
    if d < 10 {
        ((d + 48) as u8) as char
    } else {
        ((d + 87) as u8) as char
    }
}

/// Lower-case hexadecimal, two digits a byte (`format!("{:02x}", b)` for each).
pub open spec fn hex_of(bytes: Seq<u8>) -> Seq<char>
    decreases bytes.len(),
{
    if bytes.len() == 0 {
        seq![]
    } else {
        hex_of(bytes.drop_last()) + seq![
            hex_digit((bytes.last() / 16) as nat),
            hex_digit((bytes.last() % 16) as nat),
        ]
    }
}

fn hex_char(d: u8) -> (c: char)
    requires
        d < 16,
    ensures
        c == hex_digit(d as nat),
{
    if d < 10 {
        (d + 48) as char
    } else {
        (d + 87) as char
    }
}

/// The SHA-256 digest of a text in hexadecimal.
pub fn hash_text(text: &str) -> (r: String)
    ensures
        r@ == hex_of(spec_sha256(text@)),
{
    let digest = sha256_of(text);
    let mut out: Vec<char> = Vec::new();
    let mut i: usize = 0;
    while i < digest.len()
        invariant
            i <= digest@.len(),
            out@ == hex_of(digest@.take(i as int)),
        decreases digest@.len() - i,
    {
        let b = digest[i];
        out.push(hex_char(b / 16));
        out.push(hex_char(b % 16));
        assert(digest@.take(i + 1).drop_last() =~= digest@.take(i as int));
        assert(out@ =~= hex_of(digest@.take(i + 1)));
        i += 1;
    }
    assert(digest@.take(digest@.len() as int) =~= digest@);
    string_of(&out)
}

/// The number eight bytes denote read little-endian (`u64::from_le_bytes`).
pub open spec fn le_value(b: Seq<u8>) -> nat
    decreases b.len(),
{
    if b.len() == 0 {
        0
    } else {
        b[0] as nat + 256 * le_value(b.drop_first())
    }
}

/// The bucket a feature falls in: the first eight bytes of its digest read
/// little-endian, modulo the number of buckets.
pub open spec fn feature_bucket(feature: Seq<char>, dimensions: nat) -> nat {
    le_value(spec_sha256(feature).take(8)) % dimensions
}

pub fn feature_index(feature: &str, dimensions: usize) -> (r: usize)
    requires
        dimensions > 0,
    ensures
        r == feature_bucket(feature@, dimensions as nat),
{
    let d = sha256_of(feature);
    let ghost b = d@.take(8);
    let mut v: u64 = 0;
    let mut k: usize = 8;
    assert(b.skip(8) =~= Seq::<u8>::empty());
    while k > 0
        invariant
            k <= 8,
            d@.len() == 32,
            b == d@.take(8),
            v == le_value(b.skip(k as int)),
            v < pow256((8 - k) as nat),
        decreases k,
    {
        let byte = d[k - 1];
        proof {
            assert(b.skip(k - 1)[0] == byte);
            assert(b.skip(k - 1).drop_first() =~= b.skip(k as int));
            lemma_pow256_step((8 - k) as nat);
            assert(v * 256 + byte < pow256((8 - k + 1) as nat)) by (nonlinear_arith)
                requires
                    v < pow256((8 - k) as nat),
                    byte < 256,
                    pow256((8 - k + 1) as nat) == pow256((8 - k) as nat) * 256,
            ;
            lemma_pow256_le_8((8 - k + 1) as nat);
        }
        v = v * 256 + byte as u64;
        k -= 1;
    }
    assert(b.skip(0) =~= b);
    (v % (dimensions as u64)) as usize
}

pub open spec fn pow256(n: nat) -> nat
    decreases n,
{
    if n == 0 {
        1
    } else {
        256 * pow256((n - 1) as nat)
    }
}

proof fn lemma_pow256_step(n: nat)
    ensures
        pow256(n + 1) == pow256(n) * 256,
{
}

proof fn lemma_pow256_le_8(n: nat)
    requires
        n <= 8,
    ensures
        pow256(n) <= pow256(8),
        pow256(8) == 0x1_0000_0000_0000_0000,
    decreases 8 - n,
{
    reveal_with_fuel(pow256, 9);
    if n < 8 {
        lemma_pow256_le_8(n + 1);
    }
}

// ─── Text to features ───────────────────────────────────────────────────────

/// Text lower-cased, with every character that is not a letter or digit made a
/// space.
pub open spec fn normalized_text(text: Seq<char>) -> Seq<char> {
    spec_lowercase(text).map_values(|c: char| if spec_is_alphanumeric(c) { c } else { ' ' })
}

pub fn normalize_text(text: &str) -> (r: String)
    ensures
        r@ == normalized_text(text@),
{
    let lower = lowercase(text);
    let cs = chars_of(lower.as_str());
    let mut out: Vec<char> = Vec::new();
    let mut i: usize = 0;
    while i < cs.len()
        invariant
            i <= cs@.len(),
            cs@ == spec_lowercase(text@),
            out@ == normalized_text(text@).take(i as int),
        decreases cs@.len() - i,
    {
        let c = cs[i];
        out.push(if is_alphanumeric(c) { c } else { ' ' });
        assert(out@ =~= normalized_text(text@).take(i + 1));
        i += 1;
    }
    assert(normalized_text(text@).take(cs@.len() as int) =~= normalized_text(text@));
    string_of(&out)
}

pub open spec fn ends_with_seq(s: Seq<char>, suffix: Seq<char>) -> bool {
    s.len() >= suffix.len() && s.skip(s.len() - suffix.len()) == suffix
}

/// A token stemmed: trimmed, then `-ies` made `-y` (beyond four bytes), `-ing` cut
/// (beyond five) or a final `s` cut (beyond four).
pub open spec fn stem(token: Seq<char>) -> Seq<char> {
    let t = trim(token);
    if ends_with_seq(t, "ies"@) && byte_len(t) > 4 {
        t.take(t.len() - 3) + "y"@
    } else if ends_with_seq(t, "ing"@) && byte_len(t) > 5 {
        t.take(t.len() - 3)
    } else if ends_with_seq(t, "s"@) && byte_len(t) > 4 {
        t.take(t.len() - 1)
    } else {
        t
    }
}

fn ends_with_str(t: &Vec<char>, suffix: &str) -> (b: bool)
    ensures
        b == ends_with_seq(t@, suffix@),
{
    let sfx = chars_of(suffix);
    if sfx.len() > t.len() {
        return false;
    }
    let off = t.len() - sfx.len();
    let mut i: usize = 0;
    while i < sfx.len()
        invariant
            i <= sfx@.len(),
            off + sfx@.len() == t@.len(),
            off + sfx.len() == t.len(),
            sfx@ == suffix@,
            forall|k: int| 0 <= k < i ==> t@[off + k] == sfx@[k],
        decreases sfx@.len() - i,
    {
        if t[off + i] != sfx[i] {
            assert(t@.skip(off as int)[i as int] != sfx@[i as int]);
            return false;
        }
        i += 1;
    }
    assert(t@.skip(off as int) =~= sfx@);
    true
}

pub fn normalize_token(token: &str) -> (r: String)
    ensures
        r@ == stem(token@),
{
    let t = trim_vec(&chars_of(token));
    let n = byte_len_capped(&t, 6);
    proof {
        reveal_strlit("y");
        reveal_strlit("ies");
        reveal_strlit("ing");
        reveal_strlit("s");
    }
    if ends_with_str(&t, "ies") && n > 4 {
        let mut out = crate::text::slice_vec(&t, 0, t.len() - 3);
        extend_str(&mut out, "y");
        return string_of(&out);
    }
    if ends_with_str(&t, "ing") && n > 5 {
        return string_of(&crate::text::slice_vec(&t, 0, t.len() - 3));
    }
    if ends_with_str(&t, "s") && n > 4 {
        return string_of(&crate::text::slice_vec(&t, 0, t.len() - 1));
    }
    string_of(&t)
}

pub open spec fn strings_view(v: Seq<String>) -> Seq<Seq<char>> {
    v.map_values(|s: String| s@)
}

/// The stems of the words of at least three bytes, leaving out empty stems.
pub open spec fn tokens_of(ws: Seq<Seq<char>>) -> Seq<Seq<char>>
    decreases ws.len(),
{
    if ws.len() == 0 {
        seq![]
    } else {
        let rest = tokens_of(ws.drop_last());
        let w = ws.last();
        if byte_len(w) >= 3 && stem(w).len() > 0 {
            rest.push(stem(w))
        } else {
            rest
        }
    }
}

pub fn tokenize(text: &str) -> (r: Vec<String>)
    ensures
        strings_view(r@) == tokens_of(words(text@)),
{
    let ws = split_ws(&chars_of(text));
    let ghost all = views(ws@);
    let mut out: Vec<String> = Vec::new();
    let mut i: usize = 0;
    assert(all.take(0) =~= Seq::<Seq<char>>::empty());
    assert(strings_view(out@) =~= Seq::<Seq<char>>::empty());
    while i < ws.len()
        invariant
            i <= ws@.len(),
            all == views(ws@),
            all == words(text@),
            strings_view(out@) == tokens_of(all.take(i as int)),
        decreases ws@.len() - i,
    {
        let w = &ws[i];
        assert(all[i as int] == w@);
        assert(all.take(i + 1).drop_last() =~= all.take(i as int));
        assert(all.take(i + 1).last() == w@);
        if byte_len_capped(w, 3) >= 3 {
            let ws_str = string_of(w);
            let t = normalize_token(ws_str.as_str());
            if chars_of(t.as_str()).len() > 0 {
                let ghost before = out@;
                out.push(t);
                assert(strings_view(out@) =~= strings_view(before).push(t@));
            }
        }
        i += 1;
    }
    assert(all.take(ws@.len() as int) =~= all);
    out
}

/// The runs of `n` consecutive characters of a token, or the token itself when it
/// takes at most `n` bytes.
pub open spec fn ngrams(token: Seq<char>, n: nat) -> Seq<Seq<char>> {
    if byte_len(token) <= n {
        seq![token]
    } else if token.len() < n {
        seq![]
    } else {
        Seq::new((token.len() - n + 1) as nat, |i: int| token.subrange(i, i + n))
    }
}

pub fn character_ngrams(token: &str, n: usize) -> (r: Vec<String>)
    requires
        n > 0,
    ensures
        strings_view(r@) == ngrams(token@, n as nat),
{
    let t = chars_of(token);
    if crate::text::byte_len_le(&t, n) {
        let mut r: Vec<String> = Vec::new();
        r.push(String::from_str(token));
        assert(strings_view(r@) =~= ngrams(token@, n as nat));
        return r;
    }
    let mut r: Vec<String> = Vec::new();
    if t.len() < n {
        assert(strings_view(r@) =~= ngrams(token@, n as nat));
        return r;
    }
    let count = t.len() - n + 1;
    let mut i: usize = 0;
    while i < count
        invariant
            i <= count,
            count == t@.len() - n + 1,
            count + n == t.len() + 1,
            t@.len() >= n,
            !(byte_len(token@) <= n),
            t@ == token@,
            strings_view(r@) == ngrams(token@, n as nat).take(i as int),
        decreases count - i,
    {
        let g = crate::text::slice_vec(&t, i, i + n);
        let gs = string_of(&g);
        let ghost before = r@;
        r.push(gs);
        assert(strings_view(r@) =~= strings_view(before).push(gs@));
        assert(ngrams(token@, n as nat).take(i + 1) =~= ngrams(token@, n as nat).take(i as int).push(
            token@.subrange(i as int, i + n),
        ));
        i += 1;
    }
    assert(ngrams(token@, n as nat).take(count as int) =~= ngrams(token@, n as nat));
    r
}

/// A feature of a text: the bucket it adds weight to, and whether it is a whole token
/// (weight 1) or one of its trigrams (weight 0.35).
#[derive(Clone, Copy, Debug, PartialEq, Eq)]
pub struct Feature {
    pub index: usize,
    pub whole_token: bool,
}

pub open spec fn gram_features(grams: Seq<Seq<char>>, dimensions: nat) -> Seq<Feature>
    decreases grams.len(),
{
    if grams.len() == 0 {
        seq![]
    } else {
        gram_features(grams.drop_last(), dimensions).push(
            Feature { index: feature_bucket(grams.last(), dimensions) as usize, whole_token: false },
        )
    }
}

/// Each token's feature, followed by those of its trigrams, token after token.
pub open spec fn features_of(tokens: Seq<Seq<char>>, dimensions: nat) -> Seq<Feature>
    decreases tokens.len(),
{
    if tokens.len() == 0 {
        seq![]
    } else {
        let t = tokens.last();
        features_of(tokens.drop_last(), dimensions) + seq![
            Feature { index: feature_bucket(t, dimensions) as usize, whole_token: true },
        ] + gram_features(ngrams(t, 3), dimensions)
    }
}

/// Embeddings hashed from a text's tokens, cached under a directory.
#[derive(Clone, Debug)]
pub struct LocalCachedEmbeddings {
    pub dimensions: usize,
    pub cache_dir: String,
}

impl LocalCachedEmbeddings {
    /// Embeddings of 128 dimensions cached under `cache_dir`.
    pub fn new(cache_dir: String) -> (e: Self)
        ensures
            e.dimensions == 128,
            e.cache_dir == cache_dir,
    {
        LocalCachedEmbeddings { dimensions: 128, cache_dir }
    }

    /// The features a text adds to its vector, in order.
    pub fn features(&self, text: &str) -> (r: Vec<Feature>)
        requires
            self.dimensions > 0,
        ensures
            r@ == features_of(
                tokens_of(words(normalized_text(text@))),
                self.dimensions as nat,
            ),
    {
        let normalized = normalize_text(text);
        let tokens = tokenize(normalized.as_str());
        let ghost ts = strings_view(tokens@);
        let mut out: Vec<Feature> = Vec::new();
        let mut i: usize = 0;
        assert(ts.take(0) =~= Seq::<Seq<char>>::empty());
        while i < tokens.len()
            invariant
                i <= tokens@.len(),
                self.dimensions > 0,
                ts == strings_view(tokens@),
                out@ == features_of(ts.take(i as int), self.dimensions as nat),
            decreases tokens@.len() - i,
        {
            let token = tokens[i].as_str();
            let ghost before = out@;
            out.push(Feature { index: feature_index(token, self.dimensions), whole_token: true });
            let grams = character_ngrams(token, 3);
            let ghost gs = strings_view(grams@);
            let ghost mid = out@;
            let mut j: usize = 0;
            assert(gs.take(0) =~= Seq::<Seq<char>>::empty());
            while j < grams.len()
                invariant
                    j <= grams@.len(),
                    self.dimensions > 0,
                    gs == strings_view(grams@),
                    out@ == mid + gram_features(gs.take(j as int), self.dimensions as nat),
                decreases grams@.len() - j,
            {
                let idx = feature_index(grams[j].as_str(), self.dimensions);
                out.push(Feature { index: idx, whole_token: false });
                assert(gs.take(j + 1).drop_last() =~= gs.take(j as int));
                assert(gs.take(j + 1).last() == grams@[j as int]@);
                assert(out@ =~= mid + gram_features(gs.take(j + 1), self.dimensions as nat));
                j += 1;
            }
            assert(gs.take(grams@.len() as int) =~= gs);
            assert(ts.take(i + 1).drop_last() =~= ts.take(i as int));
            assert(ts.take(i + 1).last() == token@);
            assert(out@ =~= features_of(ts.take(i + 1), self.dimensions as nat));
            i += 1;
        }
        assert(ts.take(tokens@.len() as int) =~= ts);
        out
    }

    /// Where the vector cached under a key is kept: the key's hash, `.json`, in the
    /// cache directory.
    pub fn cache_path(&self, cache_key: &str) -> (r: String)
        ensures
            r@ == path_joined(self.cache_dir@, hex_of(spec_sha256(cache_key@)) + ".json"@),
    {
        let h = hash_text(cache_key);
        let mut name = chars_of(h.as_str());
        extend_str(&mut name, ".json");
        let name_s = string_of(&name);
        path_join(self.cache_dir.as_str(), name_s.as_str())
    }

    /// Whether a cached vector can be used for a text: it was made from the same text
    /// (by hash) and has the right number of dimensions.
    pub fn cache_matches(&self, cached_hash: &str, cached_len: usize, text: &str) -> (b: bool)
        ensures
            b == (cached_hash@ == hex_of(spec_sha256(text@)) && cached_len == self.dimensions),
    {
        let h = hash_text(text);
        str_eq(cached_hash, h.as_str()) && cached_len == self.dimensions
    }
}

} // verus!
