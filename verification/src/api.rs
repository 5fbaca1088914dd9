use vstd::prelude::*;
use vstd::string::StringExecFns;
use crate::crypto::{
    base64_decoding_of, dec_chars, sign, spec_signature, u64_to_string,
};
use crate::error::{KrakenError, TokenError};

verus! {

/// True when every character of `s` is a decimal digit.
pub open spec fn all_digits(s: Seq<char>) -> bool {
    forall|i: int| 0 <= i < s.len() ==> 48 <= (#[trigger] s[i]) as u32 <= 57
}

/// The application/x-www-form-urlencoded rendering of a list of key-value
/// pairs, as serde_urlencoded produces it.
pub uninterp spec fn form_encoding_of(pairs: Seq<(Seq<char>, Seq<char>)>) -> Seq<char>;

/// Relies on serde_urlencoded::to_string: it percent-encodes each key and
/// value and joins them with '=' and '&', as a function of the pairs alone;
/// on a list of string pairs serialization has no failure path.
#[verifier::external_body]
fn form_encode(pairs: &Vec<(String, String)>) -> (r: Option<String>)
    ensures
        r is Some,
        r is Some ==> r->0@ == form_encoding_of(pairs.deep_view()),
{
    serde_urlencoded::to_string(pairs).ok()
}

/// Whether the one-time-code generator accepts a seed: acceptance is a
/// function of the seed alone (it must be valid unpadded base32).
pub uninterp spec fn totp_seed_ok(seed: Seq<char>) -> bool;

/// Relies on boringauth's TOTPBuilder and TOTP::generate: with the default
/// configuration the code is exactly six characters drawn from the digits
/// 0 to 9; building succeeds exactly when the seed is valid unpadded base32,
/// which depends on the seed alone.
#[verifier::external_body]
fn totp_now(seed: &str) -> (r: Option<String>)
    ensures
        r is Some <==> totp_seed_ok(seed@),
        r is Some ==> r->0@.len() == 6,
        r is Some ==> all_digits(r->0@),
{
    match boringauth::oath::TOTPBuilder::new().base32_key(seed).finalize() {
        Ok(t) => Some(t.generate()),
        Err(_) => None,
    }
}

#[verifier::external_type_specification]
#[verifier::external_body]
pub struct ExSystemTime(std::time::SystemTime);

/// Relies on std's SystemTime::now: a reading of the wall clock.
#[verifier::external_body]
fn system_time_now() -> (r: std::time::SystemTime) {
    std::time::SystemTime::now()
}

/// Relies on std's SystemTime::duration_since, measured from the Unix epoch;
/// None when the clock reads earlier than the epoch.
#[verifier::external_body]
fn time_since_epoch(t: &std::time::SystemTime) -> (r: Option<std::time::Duration>) {
    t.duration_since(std::time::UNIX_EPOCH).ok()
}

/// Relies on std's Duration::as_millis, truncated to 64 bits.
#[verifier::external_body]
fn duration_to_millis(d: &std::time::Duration) -> (r: u64) {
    d.as_millis() as u64
}

/// The wire shape of the token endpoint's answer: `result` and `error` are
/// each present or absent independently, so validation is still owed.
pub struct KrakenResponse {
    pub result: Option<String>,
    pub error: Option<Vec<String>>,
}

impl KrakenResponse {
    /// Reads the response as a tagged union. A lone `result` is success; a
    /// lone `error` carries the server's messages verbatim and in order; a
    /// response with both or neither populated is a protocol violation and
    /// is surfaced as such rather than resolved to one branch.
    pub fn to_result(self) -> (r: Result<String, TokenError>)
        ensures
            (match r {
                Ok(tok) => self.result is Some && self.error is None && tok@ == self.result->0@,
                Err(TokenError::Api(k)) => self.result is None && self.error is Some && k@
                    == self.error->0.deep_view(),
                Err(TokenError::Protocol) => (self.result is Some && self.error is Some) || (
                self.result is None && self.error is None),
                Err(_) => false,
            }),
    {
        match (self.result, self.error) {
            (Some(res), None) => Ok(res),
            (None, Some(errs)) => Err(TokenError::Api(KrakenError::new(errs))),
            _ => Err(TokenError::Protocol),
        }
    }
}

/// The material that is both signed and transmitted: the nonce and the
/// current one-time code.
pub struct FormData {
    pub nonce: u64,
    pub otp: String,
}

/// The canonical serialized body for a nonce and a one-time code: the
/// URL-encoded form of the pairs ("nonce", nonce in decimal), ("otp", code).
pub open spec fn spec_body(nonce: nat, otp: Seq<char>) -> Seq<char> {
    form_encoding_of(seq![("nonce"@, dec_chars(nonce)), ("otp"@, otp)])
}

/// One fully signed request, assembled immediately before transport and
/// never persisted.
pub struct SignedRequest {
    /// The version-relative endpoint path; it is exactly what the signature covers.
    pub path: String,
    /// The serialized body; the signature covers exactly this text.
    pub body: String,
    /// The nonce embedded in the signed material.
    pub nonce: u64,
    /// The base64 signature for the `API-Sign` header.
    pub sign: String,
    /// The account's API key for the `API-Key` header.
    pub key: String,
}

/// One authentication attempt against the venue: credentials bound at
/// construction, a fresh nonce fixed at construction, one signature and at
/// most one token over its lifetime.
pub struct Kraken {
    token: Option<String>,
    sign: Option<String>,
    nonce: u64,
    secret: String,
    key: String,
    totp: String,
}

impl Kraken {
    /// The account identifier sent as the `API-Key` header.
    pub closed spec fn spec_key(&self) -> Seq<char> {
        self.key@
    }

    /// The base64-encoded signing secret.
    pub closed spec fn spec_secret(&self) -> Seq<char> {
        self.secret@
    }

    /// The base32-encoded seed for one-time codes.
    pub closed spec fn spec_totp(&self) -> Seq<char> {
        self.totp@
    }

    /// The nonce fixed for this attempt.
    pub closed spec fn spec_nonce(&self) -> u64 {
        self.nonce
    }

    /// The signature once the attempt has reached its signed state.
    pub closed spec fn spec_sign(&self) -> Option<Seq<char>> {
        match self.sign {
            Some(s) => Some(s@),
            None => None,
        }
    }

    /// The token once the attempt has succeeded.
    pub closed spec fn spec_token(&self) -> Option<Seq<char>> {
        match self.token {
            Some(t) => Some(t@),
            None => None,
        }
    }

    /// The token endpoint below the API version.
    pub fn token_path() -> (r: &'static str)
        ensures
            r@ == "/private/GetWebSocketsToken"@,
    {
        "/private/GetWebSocketsToken"
    }

    /// The API version prefix of every private endpoint.
    pub fn api_version() -> (r: &'static str)
        ensures
            r@ == "/0"@,
    {
        "/0"
    }

    /// The version-relative path the signature covers. One canonical wire
    /// format is fixed here: the URL-encoded body is signed over this path.
    pub fn signed_path() -> (r: String)
        ensures
            r@ == "/0"@ + "/private/GetWebSocketsToken"@,
    {
        let mut p = Self::api_version().to_owned();
        p.append(Self::token_path());
        p
    }

    /// Binds the credentials and fixes a fresh nonce for this attempt. The
    /// credentials are never placed in any observability sink.
    pub fn new(key: String, secret: String, totp: String) -> (r: Self)
        ensures
            r.spec_key() == key@,
            r.spec_secret() == secret@,
            r.spec_totp() == totp@,
            r.spec_sign() is None,
            r.spec_token() is None,
    {
        let nonce = Kraken::get_nonce();
        Kraken { key, secret, totp, sign: None, nonce, token: None }
    }

    /// Milliseconds of wall-clock time since the Unix epoch, used as the
    /// nonce; reads 0 when the clock stands before the epoch, instead of
    /// failing. Strict growth across attempts holds only as far as the
    /// clock's does.
    pub fn get_nonce() -> u64 {
        let now = system_time_now();
        match time_since_epoch(&now) {
            Some(d) => duration_to_millis(&d),
            None => 0,
        }
    }

    /// Obtains the current one-time code for the configured seed: six
    /// decimal digits on success, `Otp` exactly when the generator rejects
    /// the seed.
    pub fn get_auth(&self) -> (r: Result<String, TokenError>)
        ensures
            r is Ok <==> totp_seed_ok(self.spec_totp()),
            r is Ok ==> r->Ok_0@.len() == 6 && all_digits(r->Ok_0@),
            r is Err ==> r->Err_0 == TokenError::Otp,
    {
        match totp_now(self.totp.as_str()) {
            Some(code) => Ok(code),
            None => Err(TokenError::Otp),
        }
    }

    /// Assembles the request body material from the instance's nonce and
    /// the current one-time code.
    pub fn get_formdata(&self) -> (r: Result<FormData, TokenError>)
        ensures
            r is Ok <==> totp_seed_ok(self.spec_totp()),
            r is Ok ==> r->Ok_0.nonce == self.spec_nonce(),
            r is Ok ==> r->Ok_0.otp@.len() == 6 && all_digits(r->Ok_0.otp@),
            r is Err ==> r->Err_0 == TokenError::Otp,
    {
        match self.get_auth() {
            Ok(otp) => Ok(FormData { nonce: self.nonce, otp }),
            Err(e) => Err(e),
        }
    }

    /// Serializes the body in the one canonical wire format, the URL-encoded
    /// form over ("nonce", "otp"); this never fails. The same text must be
    /// signed and transmitted; both take it from here.
    pub fn encode_body(data: &FormData) -> (r: Result<String, TokenError>)
        ensures
            r is Ok,
            r->Ok_0@ == spec_body(data.nonce as nat, data.otp@),
    {
        let mut pairs: Vec<(String, String)> = Vec::new();
        pairs.push(("nonce".to_owned(), u64_to_string(data.nonce)));
        pairs.push(("otp".to_owned(), data.otp.clone()));
        proof {
            assert(pairs.deep_view() =~= seq![
                ("nonce"@, dec_chars(data.nonce as nat)),
                ("otp"@, data.otp@),
            ]);
        }
        match form_encode(&pairs) {
            Some(s) => Ok(s),
            None => Err(TokenError::Encoding),
        }
    }

    /// Signs the given serialized body for this attempt and records the
    /// signature: the Created-to-Signed transition, with the body taken as
    /// given so that exactly the signed text can be transmitted.
    pub fn prepare_from_body(&mut self, body: String) -> (r: Result<SignedRequest, TokenError>)
        ensures
            r is Ok <==> (base64_decoding_of(old(self).spec_secret()) is Some
                && base64_decoding_of(old(self).spec_secret())->0.len() > 0),
            r is Ok ==> ({
                let sp = "/0"@ + "/private/GetWebSocketsToken"@;
                &&& r->Ok_0.path@ == sp
                &&& r->Ok_0.body@ == body@
                &&& r->Ok_0.nonce == old(self).spec_nonce()
                &&& r->Ok_0.key@ == old(self).spec_key()
                &&& r->Ok_0.sign@ == spec_signature(
                    sp,
                    body@,
                    old(self).spec_nonce() as nat,
                    old(self).spec_secret(),
                )
                &&& r->Ok_0.sign@.len() == 88
                &&& final(self).spec_sign() == Some(r->Ok_0.sign@)
            }),
            base64_decoding_of(old(self).spec_secret()) is None ==> r->Err_0
                == TokenError::Encoding,
            (base64_decoding_of(old(self).spec_secret()) is Some && base64_decoding_of(
                old(self).spec_secret(),
            )->0.len() == 0) ==> r->Err_0 == TokenError::Key,
            final(self).spec_key() == old(self).spec_key(),
            final(self).spec_secret() == old(self).spec_secret(),
            final(self).spec_totp() == old(self).spec_totp(),
            final(self).spec_nonce() == old(self).spec_nonce(),
            final(self).spec_token() == old(self).spec_token(),
            r is Err ==> final(self).spec_sign() == old(self).spec_sign(),
    {
        let path = Self::signed_path();
        let signature = match sign(path.as_str(), body.clone(), self.nonce, self.secret.as_str()) {
            Ok(s) => s,
            Err(e) => {
                return Err(e);
            },
        };
        self.sign = Some(signature.clone());
        Ok(SignedRequest {
            path,
            body,
            nonce: self.nonce,
            sign: signature,
            key: self.key.clone(),
        })
    }

    /// Builds the one signed request of this attempt from a one-time code:
    /// serializes the body once and signs exactly that text.
    pub fn prepare_with_otp(&mut self, otp: String) -> (r: Result<SignedRequest, TokenError>)
        ensures
            r is Ok <==> (base64_decoding_of(old(self).spec_secret()) is Some
                && base64_decoding_of(old(self).spec_secret())->0.len() > 0),
            r is Ok ==> ({
                let sp = "/0"@ + "/private/GetWebSocketsToken"@;
                let body = spec_body(old(self).spec_nonce() as nat, otp@);
                &&& r->Ok_0.path@ == sp
                &&& r->Ok_0.body@ == body
                &&& r->Ok_0.nonce == old(self).spec_nonce()
                &&& r->Ok_0.key@ == old(self).spec_key()
                &&& r->Ok_0.sign@ == spec_signature(
                    sp,
                    body,
                    old(self).spec_nonce() as nat,
                    old(self).spec_secret(),
                )
                &&& r->Ok_0.sign@.len() == 88
                &&& final(self).spec_sign() == Some(r->Ok_0.sign@)
            }),
            base64_decoding_of(old(self).spec_secret()) is None ==> r->Err_0
                == TokenError::Encoding,
            (base64_decoding_of(old(self).spec_secret()) is Some && base64_decoding_of(
                old(self).spec_secret(),
            )->0.len() == 0) ==> r->Err_0 == TokenError::Key,
            final(self).spec_key() == old(self).spec_key(),
            final(self).spec_secret() == old(self).spec_secret(),
            final(self).spec_totp() == old(self).spec_totp(),
            final(self).spec_nonce() == old(self).spec_nonce(),
            final(self).spec_token() == old(self).spec_token(),
            r is Err ==> final(self).spec_sign() == old(self).spec_sign(),
    {
        let data = FormData { nonce: self.nonce, otp };
        let body = match Self::encode_body(&data) {
            Ok(b) => b,
            Err(e) => {
                return Err(e);
            },
        };
        self.prepare_from_body(body)
    }

    /// Runs the whole Created-to-Signed step: obtains the one-time code,
    /// serializes the body, signs it, and hands back the request to POST.
    /// The signature always covers exactly the body of the result.
    pub fn prepare(&mut self) -> (r: Result<SignedRequest, TokenError>)
        ensures
            r is Ok <==> (totp_seed_ok(old(self).spec_totp()) && base64_decoding_of(
                old(self).spec_secret(),
            ) is Some && base64_decoding_of(old(self).spec_secret())->0.len() > 0),
            r is Ok ==> (exists|otp: Seq<char>|
                otp.len() == 6 && all_digits(otp) && r->Ok_0.body@ == spec_body(
                    old(self).spec_nonce() as nat,
                    otp,
                )),
            r is Ok ==> ({
                let sp = "/0"@ + "/private/GetWebSocketsToken"@;
                &&& r->Ok_0.path@ == sp
                &&& r->Ok_0.nonce == old(self).spec_nonce()
                &&& r->Ok_0.key@ == old(self).spec_key()
                &&& r->Ok_0.sign@ == spec_signature(
                    sp,
                    r->Ok_0.body@,
                    old(self).spec_nonce() as nat,
                    old(self).spec_secret(),
                )
                &&& r->Ok_0.sign@.len() == 88
                &&& final(self).spec_sign() == Some(r->Ok_0.sign@)
            }),
            !totp_seed_ok(old(self).spec_totp()) ==> r->Err_0 == TokenError::Otp,
            (totp_seed_ok(old(self).spec_totp()) && base64_decoding_of(
                old(self).spec_secret(),
            ) is None) ==> r->Err_0 == TokenError::Encoding,
            (totp_seed_ok(old(self).spec_totp()) && base64_decoding_of(
                old(self).spec_secret(),
            ) is Some && base64_decoding_of(old(self).spec_secret())->0.len() == 0) ==> r->Err_0
                == TokenError::Key,
            final(self).spec_key() == old(self).spec_key(),
            final(self).spec_secret() == old(self).spec_secret(),
            final(self).spec_totp() == old(self).spec_totp(),
            final(self).spec_nonce() == old(self).spec_nonce(),
            final(self).spec_token() == old(self).spec_token(),
            r is Err ==> final(self).spec_sign() == old(self).spec_sign(),
    {
        let otp = match self.get_auth() {
            Ok(code) => code,
            Err(e) => {
                return Err(e);
            },
        };
        let ghost otp_view = otp@;
        let r = self.prepare_with_otp(otp);
        proof {
            if r is Ok {
                assert(r->Ok_0.body@ == spec_body(old(self).spec_nonce() as nat, otp_view));
                assert(exists|otp: Seq<char>|
                    otp.len() == 6 && all_digits(otp) && r->Ok_0.body@ == spec_body(
                        old(self).spec_nonce() as nat,
                        otp,
                    ));
            }
        }
        r
    }

    /// Interprets the response and stores the token: the terminal transition
    /// to Authenticated or Failed, with the validation of `to_result`.
    pub fn finish(self, response: KrakenResponse) -> (r: Result<Kraken, TokenError>)
        ensures
            (match r {
                Ok(k) => response.result is Some && response.error is None && k.spec_token()
                    == Some(response.result->0@) && k.spec_key() == self.spec_key()
                    && k.spec_secret() == self.spec_secret() && k.spec_totp() == self.spec_totp()
                    && k.spec_nonce() == self.spec_nonce() && k.spec_sign() == self.spec_sign(),
                Err(TokenError::Api(k)) => response.result is None && response.error is Some && k@
                    == response.error->0.deep_view(),
                Err(TokenError::Protocol) => (response.result is Some && response.error is Some)
                    || (response.result is None && response.error is None),
                Err(_) => false,
            }),
    {
        match response.to_result() {
            Ok(tok) => {
                Ok(Kraken { token: Some(tok), ..self })
            },
            Err(e) => Err(e),
        }
    }

    /// The token once the attempt has succeeded.
    pub fn token(&self) -> (r: &Option<String>)
        ensures
            r is Some <==> self.spec_token() is Some,
            r is Some ==> r->0@ == self.spec_token()->0,
    {
        &self.token
    }
}

} // verus!
