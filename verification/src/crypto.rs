use vstd::prelude::*;
use vstd::utf8::encode_utf8;
use crate::error::TokenError;
use hmac::Mac;
use sha2::Digest;

verus! {

/// The SHA-256 digest of a byte string, named but otherwise unspecified:
/// it depends on the input alone.
pub uninterp spec fn sha256_of(msg: Seq<u8>) -> Seq<u8>;

/// The HMAC-SHA-512 tag over a message under a key, named but otherwise
/// unspecified: it depends on the key and the message alone.
pub uninterp spec fn hmac_sha512_of(key: Seq<u8>, msg: Seq<u8>) -> Seq<u8>;

/// The standard padded base64 rendering of a byte string.
pub uninterp spec fn base64_encoding_of(data: Seq<u8>) -> Seq<char>;

/// The bytes a text decodes to under standard base64, when it is valid.
pub uninterp spec fn base64_decoding_of(text: Seq<char>) -> Option<Seq<u8>>;

/// Relies on sha2::Sha256::digest: the 32-byte digest is a function of the
/// input bytes alone.
#[verifier::external_body]
fn sha256(data: &[u8]) -> (r: Vec<u8>)
    ensures
        r@ == sha256_of(data@),
        r@.len() == 32,
{
    let digest = <sha2::Sha256 as Digest>::digest(data);
    digest.to_vec()
}

/// Relies on hmac::Hmac over sha2::Sha512: the 64-byte tag is a function of
/// the key and the message alone; a key of any length is accepted, since HMAC
/// hashes or pads it itself.
#[verifier::external_body]
fn hmac_sha512(key: &[u8], msg: &[u8]) -> (r: Vec<u8>)
    ensures
        r@ == hmac_sha512_of(key@, msg@),
        r@.len() == 64,
{
    let mut mac = <hmac::Hmac<sha2::Sha512> as Mac>::new_from_slice(key)
        .expect("HMAC accepts any key length");
    mac.update(msg);
    mac.finalize().into_bytes().to_vec()
}

/// Relies on base64::encode: standard alphabet with padding, four output
/// characters per three-byte group, and base64::decode inverts it.
#[verifier::external_body]
fn base64_encode(data: &[u8]) -> (r: String)
    ensures
        r@ == base64_encoding_of(data@),
        r@.len() == 4 * ((data@.len() + 2) / 3),
        base64_decoding_of(r@) == Some(data@),
{
    base64::encode(data)
}

/// Relies on base64::decode: it returns the decoded bytes exactly when the
/// text is valid standard base64, as a function of the text alone.
#[verifier::external_body]
fn base64_decode(text: &str) -> (r: Option<Vec<u8>>)
    ensures
        r is Some <==> base64_decoding_of(text@) is Some,
        r is Some ==> r->0@ == base64_decoding_of(text@)->0,
{
    base64::decode(text).ok()
}

/// Relies on std's String::from_utf8: bytes below 0x80 are valid UTF-8 and
/// decode to the characters with the same values.
#[verifier::external_body]
fn ascii_to_string(v: Vec<u8>) -> (r: String)
    requires
        forall|i: int| 0 <= i < v@.len() ==> v@[i] < 128,
    ensures
        r@ == v@.map_values(|b: u8| b as char),
{
    String::from_utf8(v).expect("bytes below 0x80 are valid UTF-8")
}

/// The decimal digits of `n` as ASCII bytes, most significant first.
pub open spec fn dec_digits(n: nat) -> Seq<u8>
    decreases n,
{
    if n < 10 {
        seq![(48 + n) as u8]
    } else {
        dec_digits(n / 10) + seq![(48 + n % 10) as u8]
    }
}

/// The decimal digits of `n` as characters.
pub open spec fn dec_chars(n: nat) -> Seq<char> {
    dec_digits(n).map_values(|b: u8| b as char)
}

proof fn lemma_dec_digits_ascii(n: nat)
    ensures
        forall|i: int| 0 <= i < dec_digits(n).len() ==> 48 <= #[trigger] dec_digits(n)[i] <= 57,
    decreases n,
{
    if n < 10 {
        assert(dec_digits(n) =~= seq![(48 + n) as u8]);
    } else {
        lemma_dec_digits_ascii(n / 10);
        let prefix = dec_digits(n / 10);
        let whole = dec_digits(n);
        assert(whole =~= prefix + seq![(48 + n % 10) as u8]);
        assert forall|i: int| 0 <= i < whole.len() implies 48 <= #[trigger] whole[i] <= 57 by {
            if i < prefix.len() {
                assert(whole[i] == prefix[i]);
            } else {
                assert(whole[i] == (48 + n % 10) as u8);
            }
        }
    }
}

fn u64_to_dec(n: u64) -> (r: Vec<u8>)
    ensures
        r@ == dec_digits(n as nat),
    decreases n,
{
    if n < 10 {
        let mut v: Vec<u8> = Vec::new();
        v.push(48 + (n as u8));
        proof {
            assert(v@ =~= dec_digits(n as nat));
        }
        v
    } else {
        let mut v = u64_to_dec(n / 10);
        v.push(48 + ((n % 10) as u8));
        proof {
            assert(v@ =~= dec_digits(n as nat));
        }
        v
    }
}

/// Renders `n` in decimal, exactly as the signed message embeds the nonce.
pub fn u64_to_string(n: u64) -> (r: String)
    ensures
        r@ == dec_chars(n as nat),
{
    let digits = u64_to_dec(n);
    proof {
        lemma_dec_digits_ascii(n as nat);
    }
    ascii_to_string(digits)
}

fn append_bytes(dst: &mut Vec<u8>, src: &[u8])
    ensures
        final(dst)@ == old(dst)@ + src@,
{
    let n = src.len();
    let mut k: usize = 0;
    while k < n
        invariant
            k <= n,
            n == src@.len(),
            dst@ == old(dst)@ + src@.take(k as int),
        decreases n - k,
    {
        dst.push(src[k]);
        proof {
            assert(old(dst)@ + src@.take(k + 1) =~= (old(dst)@ + src@.take(k as int)).push(
                src@[k as int],
            ));
        }
        k += 1;
    }
    proof {
        assert(src@.take(n as int) =~= src@);
    }
}

/// The byte string that is MAC'd: the UTF-8 bytes of the path, followed by
/// the SHA-256 digest of the decimal nonce immediately followed by the
/// serialized body, with no separator anywhere.
pub open spec fn signed_material(path: Seq<char>, body: Seq<char>, nonce: nat) -> Seq<u8> {
    encode_utf8(path) + sha256_of(dec_digits(nonce) + encode_utf8(body))
}

/// The signature text the server expects for a request: the HMAC-SHA-512 tag
/// over the signed material, under the base64-decoded secret, rendered in
/// base64. Meaningful when the secret decodes to a non-empty key.
pub open spec fn spec_signature(path: Seq<char>, body: Seq<char>, nonce: nat, key_b64: Seq<char>) -> Seq<char> {
    base64_encoding_of(hmac_sha512_of(base64_decoding_of(key_b64)->0, signed_material(path, body, nonce)))
}

/// Builds the material to be MAC'd from the path, the serialized body and
/// the nonce. This construction never fails; the fallible shape is kept so
/// the signing pipeline composes uniformly.
pub fn get_inner_sign(path: &str, data: String, nonce: u64) -> (r: Result<Vec<u8>, TokenError>)
    ensures
        r is Ok,
        r->Ok_0@ == signed_material(path@, data@, nonce as nat),
{
    let mut message = u64_to_dec(nonce);
    append_bytes(&mut message, data.as_str().as_bytes());
    let hashed = sha256(message.as_slice());
    let mut res: Vec<u8> = Vec::new();
    append_bytes(&mut res, path.as_bytes());
    append_bytes(&mut res, hashed.as_slice());
    proof {
        assert(Seq::<u8>::empty() + encode_utf8(path@) =~= encode_utf8(path@));
    }
    Ok(res)
}

/// MACs the given material under the base64-encoded secret and renders the
/// tag in base64. Fails with `Encoding` when the secret is not valid base64
/// and with `Key` when it decodes to an empty key; succeeds otherwise.
pub fn get_sign(key: &str, input: Vec<u8>) -> (r: Result<String, TokenError>)
    ensures
        r is Ok <==> (base64_decoding_of(key@) is Some && base64_decoding_of(key@)->0.len() > 0),
        r is Ok ==> r->Ok_0@ == base64_encoding_of(
            hmac_sha512_of(base64_decoding_of(key@)->0, input@),
        ),
        r is Ok ==> base64_decoding_of(r->Ok_0@) == Some(
            hmac_sha512_of(base64_decoding_of(key@)->0, input@),
        ),
        r is Ok ==> base64_encoding_of(base64_decoding_of(r->Ok_0@)->0) == r->Ok_0@,
        r is Ok ==> r->Ok_0@.len() == 88,
        base64_decoding_of(key@) is None ==> r == Err::<String, TokenError>(TokenError::Encoding),
        base64_decoding_of(key@) is Some && base64_decoding_of(key@)->0.len() == 0 ==> r
            == Err::<String, TokenError>(TokenError::Key),
{
    match base64_decode(key) {
        None => Err(TokenError::Encoding),
        Some(decoded) => {
            if decoded.len() == 0 {
                Err(TokenError::Key)
            } else {
                let mac = hmac_sha512(decoded.as_slice(), input.as_slice());
                Ok(base64_encode(mac.as_slice()))
            }
        },
    }
}

/// Computes the signature for (path, body, nonce) under the base64-encoded
/// secret, with the error split of `get_sign`.
pub fn sign(path: &str, body: String, nonce: u64, key: &str) -> (r: Result<String, TokenError>)
    ensures
        r is Ok <==> (base64_decoding_of(key@) is Some && base64_decoding_of(key@)->0.len() > 0),
        r is Ok ==> r->Ok_0@ == spec_signature(path@, body@, nonce as nat, key@),
        r is Ok ==> base64_encoding_of(base64_decoding_of(r->Ok_0@)->0) == r->Ok_0@,
        r is Ok ==> r->Ok_0@.len() == 88,
        base64_decoding_of(key@) is None ==> r == Err::<String, TokenError>(TokenError::Encoding),
        base64_decoding_of(key@) is Some && base64_decoding_of(key@)->0.len() == 0 ==> r
            == Err::<String, TokenError>(TokenError::Key),
{
    let inner = match get_inner_sign(path, body, nonce) {
        Ok(v) => v,
        Err(e) => {
            return Err(e);
        },
    };
    get_sign(key, inner)
}

/// Law: the signature is determined by the path, the body, the nonce and the
/// secret alone; two computations over identical inputs yield the identical
/// signature text.
pub proof fn lemma_sign_deterministic(
    path: Seq<char>,
    body: Seq<char>,
    nonce: nat,
    key: Seq<char>,
    s1: Seq<char>,
    s2: Seq<char>,
)
    requires
        s1 == spec_signature(path, body, nonce, key),
        s2 == spec_signature(path, body, nonce, key),
    ensures
        s1 == s2,
{
}

} // verus!
