//! Content-addressed cache keys, and the shape of a cache entry.
//!
//! A key is the SHA-256 of everything that decides what a translation
//! means: the source, its identifier, the language hint, the provider, the
//! model and the prompt version.

use crate::compiler::{
    copy_optional, prompt_version, CompileMetadata, CompileMetadataView, CompileResult,
    CompileResultView, PROMPT_VERSION,
};
use crate::provider::{
    format_provider, parse_provider, provider_of_tag, provider_tag, Provider,
};
use crate::text::{chars_of, push_str, string_of};
use sha2::{Digest, Sha256};
use vstd::prelude::*;
use vstd::utf8::{encode_utf8, encode_utf8_decode_utf8};

verus! {

/// The SHA-256 digest of `data`.
pub uninterp spec fn sha256(data: Seq<u8>) -> Seq<u8>;

/// `Sha256::digest` of the `sha2` crate: the digest of `data`, which is a
/// function of the bytes alone and is 32 bytes long.
#[verifier::external_body]
fn sha256_digest(data: &Vec<u8>) -> (digest: Vec<u8>)
    ensures
        digest@ == sha256(data@),
        digest@.len() == 32,
{
    Sha256::digest(data).to_vec()
}

/// The hexadecimal digit for `n`, which is below sixteen, in lower case.
pub open spec fn hex_digit(n: int) -> char {
    if n < 10 {
        ((48 + n) as u8) as char
    } else {
        ((87 + n) as u8) as char
    }
}

/// `bytes` in hexadecimal, two lower-case digits for each byte.
pub open spec fn lower_hex(bytes: Seq<u8>) -> Seq<char>
    decreases bytes.len(),
{
    if bytes.len() == 0 {
        Seq::empty()
    } else {
        lower_hex(bytes.drop_last()).push(hex_digit(bytes.last() as int / 16)).push(
            hex_digit(bytes.last() as int % 16),
        )
    }
}

/// The hexadecimal form of bytes has two digits for each byte.
pub proof fn lemma_lower_hex_len(bytes: Seq<u8>)
    ensures
        lower_hex(bytes).len() == 2 * bytes.len(),
    decreases bytes.len(),
{
    if bytes.len() > 0 {
        lemma_lower_hex_len(bytes.drop_last());
    }
}

proof fn lemma_hex_digit_injective(a: int, b: int)
    requires
        0 <= a < 16,
        0 <= b < 16,
        hex_digit(a) == hex_digit(b),
    ensures
        a == b,
{
    assert(hex_digit(a) as u32 == if a < 10 {
        48 + a
    } else {
        87 + a
    });
    assert(hex_digit(b) as u32 == if b < 10 {
        48 + b
    } else {
        87 + b
    });
}

/// Different bytes have different hexadecimal forms.
pub proof fn lemma_lower_hex_injective(x: Seq<u8>, y: Seq<u8>)
    requires
        lower_hex(x) == lower_hex(y),
    ensures
        x == y,
    decreases x.len(),
{
    lemma_lower_hex_len(x);
    lemma_lower_hex_len(y);
    if x.len() == 0 {
        assert(x =~= y);
    } else {
        let hx = lower_hex(x);
        let hy = lower_hex(y);
        let px = lower_hex(x.drop_last());
        let py = lower_hex(y.drop_last());
        lemma_lower_hex_len(x.drop_last());
        lemma_lower_hex_len(y.drop_last());
        assert(hx[hx.len() - 1] == hex_digit(x.last() as int % 16));
        assert(hx[hx.len() - 2] == hex_digit(x.last() as int / 16));
        assert(hy[hy.len() - 1] == hex_digit(y.last() as int % 16));
        assert(hy[hy.len() - 2] == hex_digit(y.last() as int / 16));
        lemma_hex_digit_injective(x.last() as int % 16, y.last() as int % 16);
        lemma_hex_digit_injective(x.last() as int / 16, y.last() as int / 16);
        assert(x.last() == y.last());
        assert(px =~= hx.take(hx.len() - 2));
        assert(py =~= hy.take(hy.len() - 2));
        lemma_lower_hex_injective(x.drop_last(), y.drop_last());
        assert(x =~= x.drop_last().push(x.last()));
        assert(y =~= y.drop_last().push(y.last()));
    }
}

fn hex_digit_of(n: u8) -> (c: char)
    requires
        n < 16,
    ensures
        c == hex_digit(n as int),
{
    if n < 10 {
        (48 + n) as char
    } else {
        (87 + n) as char
    }
}

/// `bytes` in hexadecimal, in lower case.
pub fn to_lower_hex(bytes: &Vec<u8>) -> (r: String)
    ensures
        r@ == lower_hex(bytes@),
{
    let mut out: Vec<char> = Vec::new();
    let mut i: usize = 0;
    while i < bytes.len()
        invariant
            i <= bytes.len(),
            out@ == lower_hex(bytes@.take(i as int)),
        decreases bytes.len() - i,
    {
        let b = bytes[i];
        out.push(hex_digit_of(b / 16));
        out.push(hex_digit_of(b % 16));
        proof {
            let p = bytes@.take(i + 1);
            assert(p.drop_last() == bytes@.take(i as int));
            assert(p.last() == b);
        }
        i += 1;
    }
    assert(bytes@.take(bytes.len() as int) == bytes@);
    string_of(&out)
}

/// The text that is hashed into a key: the six parts, each set off from
/// the next by a marker line.
pub open spec fn key_text(
    source_text: Seq<char>,
    source_id: Seq<char>,
    kind_hint: Seq<char>,
    provider: Provider,
    model: Seq<char>,
) -> Seq<char> {
    source_text + "\n--source-id--\n"@ + source_id + "\n--kind--\n"@ + kind_hint
        + "\n--provider--\n"@ + provider_tag(provider) + "\n--model--\n"@ + model
        + "\n--prompt-version--\n"@ + prompt_version()
}

/// The bytes that are hashed into a key.
pub open spec fn key_material(
    source_text: Seq<char>,
    source_id: Seq<char>,
    kind_hint: Seq<char>,
    provider: Provider,
    model: Seq<char>,
) -> Seq<u8> {
    encode_utf8(key_text(source_text, source_id, kind_hint, provider, model))
}

/// The cache key: the SHA-256 of the key material, in hexadecimal.
pub open spec fn cache_key_spec(
    source_text: Seq<char>,
    source_id: Seq<char>,
    kind_hint: Seq<char>,
    provider: Provider,
    model: Seq<char>,
) -> Seq<char> {
    lower_hex(sha256(key_material(source_text, source_id, kind_hint, provider, model)))
}

/// The key under which a translation is cached.  It is 64 hexadecimal
/// digits, and depends on nothing but the five arguments and the prompt
/// version.
pub fn cache_key(
    source_text: &str,
    source_id: &str,
    kind_hint: &str,
    provider: Provider,
    model: &str,
) -> (key: String)
    ensures
        key@ == cache_key_spec(source_text@, source_id@, kind_hint@, provider, model@),
        key@.len() == 64,
{
    let mut text: Vec<char> = Vec::new();
    push_str(&mut text, source_text);
    push_str(&mut text, "\n--source-id--\n");
    push_str(&mut text, source_id);
    push_str(&mut text, "\n--kind--\n");
    push_str(&mut text, kind_hint);
    push_str(&mut text, "\n--provider--\n");
    let tag = format_provider(provider);
    push_str(&mut text, tag.as_str());
    push_str(&mut text, "\n--model--\n");
    push_str(&mut text, model);
    push_str(&mut text, "\n--prompt-version--\n");
    push_str(&mut text, PROMPT_VERSION);
    assert(text@ =~= key_text(source_text@, source_id@, kind_hint@, provider, model@));
    let material = string_of(&text);
    let digest = sha256_digest(&material.as_str().as_bytes_vec());
    proof {
        lemma_lower_hex_len(digest@);
    }
    to_lower_hex(&digest)
}

/// The same source, identifier, hint, provider and model always give the
/// same key.
pub proof fn lemma_cache_key_deterministic(
    text_a: Seq<char>,
    id_a: Seq<char>,
    hint_a: Seq<char>,
    provider_a: Provider,
    model_a: Seq<char>,
    text_b: Seq<char>,
    id_b: Seq<char>,
    hint_b: Seq<char>,
    provider_b: Provider,
    model_b: Seq<char>,
)
    requires
        text_a == text_b,
        id_a == id_b,
        hint_a == hint_b,
        provider_a == provider_b,
        model_a == model_b,
    ensures
        cache_key_spec(text_a, id_a, hint_a, provider_a, model_a) == cache_key_spec(
            text_b,
            id_b,
            hint_b,
            provider_b,
            model_b,
        ),
{
}

/// Two candidates share a key only where SHA-256 gives one digest for
/// the material of both.
pub proof fn lemma_keys_collide_only_with_digests(
    source_text: Seq<char>,
    source_id: Seq<char>,
    kind_hint: Seq<char>,
    provider_a: Provider,
    model_a: Seq<char>,
    provider_b: Provider,
    model_b: Seq<char>,
)
    ensures
        cache_key_spec(source_text, source_id, kind_hint, provider_a, model_a) == cache_key_spec(
            source_text,
            source_id,
            kind_hint,
            provider_b,
            model_b,
        ) <==> sha256(key_material(source_text, source_id, kind_hint, provider_a, model_a))
            == sha256(key_material(source_text, source_id, kind_hint, provider_b, model_b)),
{
    let da = sha256(key_material(source_text, source_id, kind_hint, provider_a, model_a));
    let db = sha256(key_material(source_text, source_id, kind_hint, provider_b, model_b));
    if lower_hex(da) == lower_hex(db) {
        lemma_lower_hex_injective(da, db);
    }
}

proof fn lemma_cancel(a: Seq<char>, x: Seq<char>, y: Seq<char>, b: Seq<char>)
    requires
        a + x + b == a + y + b,
    ensures
        x == y,
{
    let l = a + x + b;
    let r = a + y + b;
    assert(l.len() == r.len());
    assert(x.len() == y.len());
    assert forall|i: int| 0 <= i < x.len() implies x[i] == y[i] by {
        assert(l[a.len() + i] == x[i]);
        assert(r[a.len() + i] == y[i]);
    }
    assert(x =~= y);
}

/// For one source, identifier and hint, two candidates that differ in
/// provider or model are hashed from different material.
pub proof fn lemma_key_material_isolated(
    source_text: Seq<char>,
    source_id: Seq<char>,
    kind_hint: Seq<char>,
    provider_a: Provider,
    model_a: Seq<char>,
    provider_b: Provider,
    model_b: Seq<char>,
)
    requires
        provider_a != provider_b || model_a != model_b,
    ensures
        key_material(source_text, source_id, kind_hint, provider_a, model_a) != key_material(
            source_text,
            source_id,
            kind_hint,
            provider_b,
            model_b,
        ),
{
    let ta = key_text(source_text, source_id, kind_hint, provider_a, model_a);
    let tb = key_text(source_text, source_id, kind_hint, provider_b, model_b);
    let head = source_text + "\n--source-id--\n"@ + source_id + "\n--kind--\n"@ + kind_hint
        + "\n--provider--\n"@;
    let tail = "\n--prompt-version--\n"@ + prompt_version();
    let mid_a = provider_tag(provider_a) + "\n--model--\n"@ + model_a;
    let mid_b = provider_tag(provider_b) + "\n--model--\n"@ + model_b;
    assert(ta =~= head + mid_a + tail);
    assert(tb =~= head + mid_b + tail);
    if ta == tb {
        lemma_cancel(head, mid_a, mid_b, tail);
        reveal_strlit("ollama");
        reveal_strlit("openai-compatible");
        if provider_a != provider_b {
            assert(mid_a[1] == provider_tag(provider_a)[1]);
            assert(mid_b[1] == provider_tag(provider_b)[1]);
            assert(false);
        } else {
            let lead = provider_tag(provider_a) + "\n--model--\n"@;
            assert(mid_a =~= lead + model_a + Seq::<char>::empty());
            assert(mid_b =~= lead + model_b + Seq::<char>::empty());
            lemma_cancel(lead, model_a, model_b, Seq::empty());
            assert(false);
        }
    }
    encode_utf8_decode_utf8(ta);
    encode_utf8_decode_utf8(tb);
}

// ---------------------------------------------------------------------------
// Entries
// ---------------------------------------------------------------------------

/// What one cache file holds.
#[derive(Debug, Clone, PartialEq, Eq)]
pub struct CacheEntry {
    pub javascript: String,
    pub provider: Option<String>,
    pub model: Option<String>,
    pub prompt_version: String,
}

/// A cache entry as plain text.
pub struct CacheEntryView {
    pub javascript: Seq<char>,
    pub provider: Option<Seq<char>>,
    pub model: Option<Seq<char>>,
    pub prompt_version: Seq<char>,
}

impl DeepView for CacheEntry {
    type V = CacheEntryView;

    open spec fn deep_view(&self) -> CacheEntryView {
        CacheEntryView {
            javascript: self.javascript@,
            provider: self.provider.deep_view(),
            model: self.model.deep_view(),
            prompt_version: self.prompt_version@,
        }
    }
}

/// The entry that is written for a result.
pub open spec fn entry_of(result: CompileResultView) -> CacheEntryView {
    CacheEntryView {
        javascript: result.javascript,
        provider: match result.metadata.provider {
            Some(p) => Some(provider_tag(p)),
            None => None,
        },
        model: result.metadata.model,
        prompt_version: result.metadata.prompt_version,
    }
}

/// The result that an entry is read as: what was written, marked as a
/// cache hit.
pub open spec fn result_of(entry: CacheEntryView) -> CompileResultView {
    CompileResultView {
        javascript: entry.javascript,
        metadata: CompileMetadataView {
            provider: match entry.provider {
                Some(tag) => Some(provider_of_tag(tag)),
                None => None,
            },
            model: entry.model,
            prompt_version: entry.prompt_version,
            cache_hit: true,
        },
    }
}

impl CacheEntry {
    /// The entry that is written for a result.
    pub fn from_result(result: &CompileResult) -> (entry: CacheEntry)
        ensures
            entry.deep_view() == entry_of(result.deep_view()),
    {
        CacheEntry {
            javascript: result.javascript.clone(),
            provider: match result.metadata.provider {
                Some(p) => Some(format_provider(p)),
                None => None,
            },
            model: copy_optional(&result.metadata.model),
            prompt_version: result.metadata.prompt_version.clone(),
        }
    }

    /// The result that this entry is read as: a cache hit.
    pub fn into_result(self) -> (result: CompileResult)
        ensures
            result.deep_view() == result_of(self.deep_view()),
    {
        let provider = match &self.provider {
            Some(tag) => Some(parse_provider(tag.as_str())),
            None => None,
        };
        CompileResult {
            javascript: self.javascript,
            metadata: CompileMetadata {
                provider,
                model: self.model,
                prompt_version: self.prompt_version,
                cache_hit: true,
            },
        }
    }
}

/// What is read back from the cache is what was written, marked as a
/// cache hit.
pub proof fn lemma_entry_round_trip(result: CompileResultView)
    ensures
        result_of(entry_of(result)) == (CompileResultView {
            metadata: CompileMetadataView { cache_hit: true, ..result.metadata },
            ..result
        }),
{
    reveal_strlit("ollama");
    reveal_strlit("openai-compatible");
    if result.metadata.provider == Some(Provider::OpenAiCompatible) {
        assert("openai-compatible"@.len() != "ollama"@.len());
    }
}

// ---------------------------------------------------------------------------
// The file-backed store
// ---------------------------------------------------------------------------

/// The place of a cache that keeps one file for each key under a root
/// directory.
#[derive(Debug, Clone)]
pub struct FileCompileCache {
    root: String,
}

/// The path of the entry for `key` under `root`.
pub open spec fn entry_path_spec(root: Seq<char>, key: Seq<char>) -> Seq<char> {
    if root.len() == 0 || root.last() == '/' {
        root + key + ".json"@
    } else {
        root + "/"@ + key + ".json"@
    }
}

/// The root of the cache under a home directory.
pub open spec fn root_under(home: Seq<char>) -> Seq<char> {
    if home.len() == 0 || home.last() == '/' {
        home + ".klumo/cache/compile"@
    } else {
        home + "/.klumo/cache/compile"@
    }
}

impl FileCompileCache {
    /// The root directory.
    pub closed spec fn root_spec(&self) -> Seq<char> {
        self.root@
    }

    /// The cache under the directory `root`.
    pub fn new(root: String) -> (cache: FileCompileCache)
        ensures
            cache.root_spec() == root@,
    {
        FileCompileCache { root }
    }

    /// The root of the cache where the home directory is known.
    pub fn default_root_under(home: &str) -> (root: String)
        ensures
            root@ == root_under(home@),
    {
        let mut out = chars_of(home);
        if out.len() == 0 || out[out.len() - 1] == '/' {
            push_str(&mut out, ".klumo/cache/compile");
        } else {
            push_str(&mut out, "/.klumo/cache/compile");
        }
        string_of(&out)
    }

    /// The root directory.
    pub fn root(&self) -> (root: &str)
        ensures
            root@ == self.root_spec(),
    {
        self.root.as_str()
    }

    /// The file that holds the entry for `key`.
    pub fn entry_path(&self, key: &str) -> (path: String)
        ensures
            path@ == entry_path_spec(self.root_spec(), key@),
    {
        let mut out = chars_of(self.root.as_str());
        if !(out.len() == 0 || out[out.len() - 1] == '/') {
            push_str(&mut out, "/");
        }
        push_str(&mut out, key);
        push_str(&mut out, ".json");
        string_of(&out)
    }
}

} // verus!
