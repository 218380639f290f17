//! Digest computation for cache key generation.
//!
//! A cache key is the lowercase hex text of the SHA-256 hash of the JSON
//! encoding of the command's arguments followed by the JSON encoding of the
//! selected environment variables. Encoding the arguments as a JSON array
//! keeps `["echo", "a b"]` and `["echo", "a", "b"]` apart.

use vstd::prelude::*;

use sha2::Digest;

use crate::env::EnvVars;
use crate::error::MemoError;
use crate::text::push_char;

verus! {

/// Bytes that `serde_json::to_vec` produces for a list of strings.
pub uninterp spec fn json_of_args(args: Seq<Seq<char>>) -> Seq<u8>;

/// Bytes that `serde_json::to_vec` produces for a map from strings to
/// optional strings (a JSON object, keys in ascending order).
pub uninterp spec fn json_of_env(env: Map<Seq<char>, Option<Seq<char>>>) -> Seq<u8>;

/// The SHA-256 hash of `data` as computed by `sha2::Sha256`.
pub uninterp spec fn sha256_of(data: Seq<u8>) -> Seq<u8>;

/// Serializes the arguments with `serde_json::to_vec`: the bytes are the
/// JSON encoding of the argument list. `to_vec` fails only where a
/// `Serialize` impl fails or a map has keys that are not strings; strings
/// written to a `Vec` never fail, so the result is `Ok`.
#[verifier::external_body]
fn args_to_json(args: &[String]) -> (res: Result<Vec<u8>, serde_json::Error>)
    ensures
        res is Ok,
        res matches Ok(v) ==> v@ == json_of_args(args.deep_view()),
{
    serde_json::to_vec(args)
}

/// Serializes the variables with `serde_json::to_vec`, as the ordered map
/// `BTreeMap<String, Option<String>>` that they denote: the bytes are the
/// JSON encoding of that map. Its keys are strings and its values optional
/// strings, written to a `Vec`, so `to_vec` does not fail and the result is
/// `Ok`.
#[verifier::external_body]
fn env_to_json(env: &EnvVars) -> (res: Result<Vec<u8>, serde_json::Error>)
    ensures
        res is Ok,
        res matches Ok(v) ==> v@ == json_of_env(env@),
{
    let map: std::collections::BTreeMap<String, Option<String>> = env.entries.iter().cloned().collect();
    serde_json::to_vec(&map)
}

/// SHA-256 of `data` (`sha2::Sha256::digest`): the named hash, 32 bytes long.
#[verifier::external_body]
fn sha256(data: &[u8]) -> (res: Vec<u8>)
    ensures
        res@ == sha256_of(data@),
        res@.len() == 32,
{
    sha2::Sha256::digest(data).to_vec()
}

/// The lowercase hex digit for a value below 16.
pub open spec fn hex_digit(n: int) -> char {
    if n < 10 {
        (48 + n) as char
    } else {
        (87 + n) as char
    }
}

/// Lowercase hex text of `data`: two digits per byte, high half first.
pub open spec fn hex_lower(data: Seq<u8>) -> Seq<char> {
    Seq::new(
        2 * data.len(),
        |i: int|
            if i % 2 == 0 {
                hex_digit((data[i / 2] / 16) as int)
            } else {
                hex_digit((data[i / 2] % 16) as int)
            },
    )
}

/// Whether `c` is a lowercase hex digit.
pub open spec fn is_hex_lower_char(c: char) -> bool {
    ('0' <= c && c <= '9') || ('a' <= c && c <= 'f')
}

/// The cache key of a command line and its selected environment.
pub open spec fn cache_key(args: Seq<Seq<char>>, env: Map<Seq<char>, Option<Seq<char>>>) -> Seq<
    char,
> {
    hex_lower(sha256_of(json_of_args(args) + json_of_env(env)))
}

fn hex_char(n: u8) -> (c: char)
    requires
        n < 16,
    ensures
        c == hex_digit(n as int),
{
    if n < 10 {
        (48u8 + n) as char
    } else {
        (87u8 + n) as char
    }
}

/// Lowercase hex encoding of `data`.
pub fn encode_hex(data: &[u8]) -> (res: String)
    ensures
        res@ == hex_lower(data@),
{
    let mut res = String::new();
    let n = data.len();
    let mut i: usize = 0;
    while i < n
        invariant
            n == data@.len(),
            i <= n,
            res@ =~= hex_lower(data@.take(i as int)),
        decreases n - i,
    {
        let b = data[i];
        push_char(&mut res, hex_char(b / 16));
        push_char(&mut res, hex_char(b % 16));
        proof {
            let next = hex_lower(data@.take(i + 1));
            let prev = hex_lower(data@.take(i as int));
            assert forall|k: int| 0 <= k < 2 * i implies next[k] == prev[k] by {
                assert(data@.take(i + 1)[k / 2] == data@.take(i as int)[k / 2]);
            }
            assert(data@.take(i + 1)[i as int] == b);
            assert(next[2 * i] == hex_digit((b / 16) as int)) by {
                assert((2 * i) / 2 == i);
                assert((2 * i) % 2 == 0);
            }
            assert(next[2 * i + 1] == hex_digit((b % 16) as int)) by {
                assert((2 * i + 1) / 2 == i);
                assert((2 * i + 1) % 2 == 1);
            }
        }
        i = i + 1;
    }
    assert(data@.take(n as int) =~= data@);
    res
}

/// Whether `text` is a digest as the cache writes it: 64 lowercase hex digits.
pub open spec fn is_digest_text(text: Seq<char>) -> bool {
    text.len() == 64 && forall|i: int| 0 <= i < text.len() ==> is_hex_lower_char(#[trigger] text[i])
}

/// Hex text has two digits per byte, each a lowercase hex digit.
pub proof fn lemma_hex_lower_format(data: Seq<u8>)
    ensures
        hex_lower(data).len() == 2 * data.len(),
        forall|i: int| 0 <= i < hex_lower(data).len() ==> is_hex_lower_char(#[trigger] hex_lower(data)[i]),
{
    assert forall|i: int| 0 <= i < hex_lower(data).len() implies is_hex_lower_char(#[trigger] hex_lower(data)[i]) by {
        let b = data[i / 2];
        assert(b / 16 < 16 && b % 16 < 16);
    }
}

/// The hex digit of a value below 16 gives the value back.
proof fn lemma_hex_digit_injective(a: int, b: int)
    requires
        0 <= a < 16,
        0 <= b < 16,
        hex_digit(a) == hex_digit(b),
    ensures
        a == b,
{
    assert((48 + a) as char as int == 48 + a);
    assert((48 + b) as char as int == 48 + b);
    assert((87 + a) as char as int == 87 + a);
    assert((87 + b) as char as int == 87 + b);
}

/// Different byte strings have different hex texts: the hex text of a hash
/// identifies the hash.
pub proof fn lemma_hex_lower_injective(a: Seq<u8>, b: Seq<u8>)
    requires
        hex_lower(a) == hex_lower(b),
    ensures
        a == b,
{
    assert(a.len() == b.len()) by {
        assert(hex_lower(a).len() == 2 * a.len());
        assert(hex_lower(b).len() == 2 * b.len());
    }
    assert forall|k: int| 0 <= k < a.len() implies a[k] == b[k] by {
        let hi = 2 * k;
        let lo = 2 * k + 1;
        assert(hi / 2 == k && hi % 2 == 0);
        assert(lo / 2 == k && lo % 2 == 1);
        assert(hex_lower(a)[hi] == hex_lower(b)[hi]);
        assert(hex_lower(a)[lo] == hex_lower(b)[lo]);
        assert(hex_lower(a)[hi] == hex_digit((a[k] / 16) as int));
        assert(hex_lower(b)[hi] == hex_digit((b[k] / 16) as int));
        assert(hex_lower(a)[lo] == hex_digit((a[k] % 16) as int));
        assert(hex_lower(b)[lo] == hex_digit((b[k] % 16) as int));
        lemma_hex_digit_injective((a[k] / 16) as int, (b[k] / 16) as int);
        lemma_hex_digit_injective((a[k] % 16) as int, (b[k] % 16) as int);
        assert(a[k] == 16 * (a[k] / 16) + a[k] % 16);
        assert(b[k] == 16 * (b[k] / 16) + b[k] % 16);
    }
    assert(a =~= b);
}

/// The same command line and the same environment always give the same key.
pub proof fn lemma_cache_key_deterministic(
    args1: Seq<Seq<char>>,
    env1: Map<Seq<char>, Option<Seq<char>>>,
    args2: Seq<Seq<char>>,
    env2: Map<Seq<char>, Option<Seq<char>>>,
)
    requires
        args1 == args2,
        env1 == env2,
    ensures
        cache_key(args1, env1) == cache_key(args2, env2),
{
}

/// Hashes the two encodings, one after the other, and gives the hash as
/// lowercase hex text.
pub fn digest_of_encodings(encoded_args: &[u8], encoded_env: &[u8]) -> (res: String)
    ensures
        res@ == hex_lower(sha256_of(encoded_args@ + encoded_env@)),
        is_digest_text(res@),
{
    let mut data: Vec<u8> = Vec::new();
    let mut i: usize = 0;
    while i < encoded_args.len()
        invariant
            i <= encoded_args@.len(),
            data@ =~= encoded_args@.take(i as int),
        decreases encoded_args@.len() - i,
    {
        data.push(encoded_args[i]);
        i = i + 1;
    }
    let mut j: usize = 0;
    while j < encoded_env.len()
        invariant
            j <= encoded_env@.len(),
            data@ =~= encoded_args@ + encoded_env@.take(j as int),
        decreases encoded_env@.len() - j,
    {
        data.push(encoded_env[j]);
        j = j + 1;
    }
    assert(data@ =~= encoded_args@ + encoded_env@);
    let hash = sha256(data.as_slice());
    proof {
        lemma_hex_lower_format(hash@);
    }
    encode_hex(hash.as_slice())
}

/// Compute the cache key for command arguments and environment variables.
///
/// Returns the lowercase hex text of the SHA-256 hash of the JSON encodings
/// of `args` and `env`: always `Ok`, 64 lowercase hex digits, and a
/// function of `args` and `env` alone.
pub fn compute_digest(args: &[String], env: &EnvVars) -> (res: Result<String, MemoError>)
    ensures
        res matches Ok(d) && d@ == cache_key(args.deep_view(), env@) && is_digest_text(d@),
{
    let encoded_args = match args_to_json(args) {
        Ok(v) => v,
        Err(e) => return Err(MemoError::Json(e)),
    };
    let encoded_env = match env_to_json(env) {
        Ok(v) => v,
        Err(e) => return Err(MemoError::Json(e)),
    };
    Ok(digest_of_encodings(encoded_args.as_slice(), encoded_env.as_slice()))
}

} // verus!
