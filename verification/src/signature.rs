//! Webhook signatures: which header carries one, and whether it is valid.
use vstd::prelude::*;
use vstd::utf8::{encode_utf8, encode_utf8_decode_utf8};
use hmac::{Hmac, Mac};
use sha2::Sha256;
use subtle::ConstantTimeEq;
use crate::text::str_eq;

verus! {

/// The HMAC-SHA256 tag of `message` under `key` (RFC 2104 with SHA-256).
pub uninterp spec fn hmac_sha256(key: Seq<u8>, message: Seq<u8>) -> Seq<u8>;

/// The lower-case hexadecimal digit for a value below sixteen.
pub open spec fn hex_digit(d: nat) -> char {
    seq!['0', '1', '2', '3', '4', '5', '6', '7', '8', '9', 'a', 'b', 'c', 'd', 'e', 'f'][d as int]
}

/// Bytes in lower-case hexadecimal, two digits per byte, high half first.
pub open spec fn hex_lower(bytes: Seq<u8>) -> Seq<char>
    decreases bytes.len(),
{
    if bytes.len() == 0 {
        Seq::empty()
    } else {
        seq![hex_digit((bytes[0] / 16) as nat), hex_digit((bytes[0] % 16) as nat)] + hex_lower(
            bytes.drop_first(),
        )
    }
}

/// Hexadecimal takes two digits per byte.
pub proof fn hex_lower_len(bytes: Seq<u8>)
    ensures
        hex_lower(bytes).len() == 2 * bytes.len(),
    decreases bytes.len(),
{
    if bytes.len() > 0 {
        hex_lower_len(bytes.drop_first());
    }
}

/// The signature that a provider computes for `body` with `secret`: the
/// HMAC-SHA256 of the body's UTF-8 bytes under the secret's, in hex.
pub open spec fn expected_signature(secret: Seq<char>, body: Seq<char>) -> Seq<char> {
    hex_lower(hmac_sha256(encode_utf8(secret), encode_utf8(body)))
}

/// Whether a body with this signature is accepted under `secret`: always
/// where no secret is configured, else when the signature is the expected one.
pub open spec fn hmac_accepts(body: Seq<char>, signature: Seq<char>, secret: Seq<char>) -> bool {
    secret.len() == 0 || signature == expected_signature(secret, body)
}

/// `Hmac::<Sha256>::new_from_slice`, `update` and `finalize`: the HMAC-SHA256
/// tag of `message` under `key`. The key may have any length.
#[verifier::external_body]
fn hmac_sha256_tag(key: &[u8], message: &[u8]) -> (r: Vec<u8>)
    ensures
        r@ == hmac_sha256(key@, message@),
        r@.len() == 32,
{
    let mut mac = <Hmac<Sha256> as Mac>::new_from_slice(key).expect("HMAC accepts keys of any length");
    mac.update(message);
    mac.finalize().into_bytes().to_vec()
}

/// `hex::encode`: the bytes in lower-case hexadecimal.
#[verifier::external_body]
fn hex_encode(data: &[u8]) -> (r: String)
    ensures
        r@ == hex_lower(data@),
{
    hex::encode(data)
}

/// `ConstantTimeEq::ct_eq` on byte slices, read as a `bool`: whether the two
/// slices are equal, in time that does not depend on their contents.
#[verifier::external_body]
fn constant_time_eq(a: &[u8], b: &[u8]) -> (r: bool)
    ensures
        r == (a@ == b@),
{
    a.ct_eq(b).into()
}

/// Checks an HMAC-SHA256 webhook signature. With an empty secret every
/// signature is accepted (verification is off); otherwise the signature must
/// be the lower-case hex tag of the body, compared in constant time.
pub fn verify_hmac(body: &str, signature: &str, secret: &str) -> (r: bool)
    ensures
        r == hmac_accepts(body@, signature@, secret@),
        secret@.len() > 0 && r ==> signature@.len() == 64,
{
    if secret.is_empty() {
        return true;
    }
    let tag = hmac_sha256_tag(secret.as_bytes(), body.as_bytes());
    let expected = hex_encode(tag.as_slice());
    let r = constant_time_eq(expected.as_str().as_bytes(), signature.as_bytes());
    proof {
        encode_utf8_decode_utf8(expected@);
        encode_utf8_decode_utf8(signature@);
        hex_lower_len(tag@);
    }
    r
}

/// The secrets and the deployment that decide which webhooks are trusted.
pub struct WebhookSecrets {
    /// The Flutterwave signing secret; empty where none is configured.
    pub flutterwave: String,
    /// The Paystack signing secret; empty where none is configured.
    pub paystack: String,
    /// The deployment's environment name (`production` where none is set).
    pub app_env: String,
}

/// The header that carries a provider's signature.
pub open spec fn signature_header_of(provider: Seq<char>) -> Seq<char> {
    if provider == "paystack"@ {
        "x-paystack-signature"@
    } else if provider == "flutterwave"@ {
        "verif-hash"@
    } else {
        "x-signature"@
    }
}

/// Whether a webhook of `provider` with this body and signature is trusted:
/// Flutterwave and Paystack bodies must carry their HMAC signature, while
/// other providers are trusted only outside production.
pub open spec fn signature_accepted(
    provider: Seq<char>,
    body: Seq<char>,
    signature: Seq<char>,
    flutterwave_secret: Seq<char>,
    paystack_secret: Seq<char>,
    app_env: Seq<char>,
) -> bool {
    if provider == "flutterwave"@ {
        hmac_accepts(body, signature, flutterwave_secret)
    } else if provider == "paystack"@ {
        hmac_accepts(body, signature, paystack_secret)
    } else {
        app_env != "production"@
    }
}

/// The name of the header that carries the signature of `provider`.
pub fn signature_header(provider: &str) -> (r: &'static str)
    ensures
        r@ == signature_header_of(provider@),
{
    if str_eq(provider, "paystack") {
        "x-paystack-signature"
    } else if str_eq(provider, "flutterwave") {
        "verif-hash"
    } else {
        "x-signature"
    }
}

/// Whether a webhook of `provider` with this body and signature is trusted.
pub fn verify_signature(provider: &str, body: &str, signature: &str, secrets: &WebhookSecrets) -> (r: bool)
    ensures
        r == signature_accepted(
            provider@,
            body@,
            signature@,
            secrets.flutterwave@,
            secrets.paystack@,
            secrets.app_env@,
        ),
        provider@ == "flutterwave"@ && secrets.flutterwave@.len() > 0 && r ==> signature@.len() == 64,
        provider@ == "paystack"@ && secrets.paystack@.len() > 0 && r ==> signature@.len() == 64,
{
    proof {
        reveal_strlit("flutterwave");
        reveal_strlit("paystack");
        assert("flutterwave"@.len() != "paystack"@.len());
    }
    if str_eq(provider, "flutterwave") {
        verify_hmac(body, signature, secrets.flutterwave.as_str())
    } else if str_eq(provider, "paystack") {
        verify_hmac(body, signature, secrets.paystack.as_str())
    } else {
        !str_eq(secrets.app_env.as_str(), "production")
    }
}

/// Each signed provider is checked with its own secret only: a Flutterwave
/// webhook is accepted exactly when no Flutterwave secret is set or its
/// signature is the lower-case hex HMAC-SHA256 of the body under that
/// secret, whatever the Paystack secret and the environment are; and
/// likewise for Paystack. Every other provider is accepted exactly outside
/// production, whatever the secrets, body and signature.
pub proof fn each_provider_is_checked_with_its_own_secret(
    body: Seq<char>,
    signature: Seq<char>,
    flutterwave_secret: Seq<char>,
    paystack_secret: Seq<char>,
    app_env: Seq<char>,
    provider: Seq<char>,
)
    ensures
        signature_accepted("flutterwave"@, body, signature, flutterwave_secret, paystack_secret, app_env)
            <==> (flutterwave_secret.len() == 0 || signature == hex_lower(
            hmac_sha256(encode_utf8(flutterwave_secret), encode_utf8(body)),
        )),
        signature_accepted("paystack"@, body, signature, flutterwave_secret, paystack_secret, app_env)
            <==> (paystack_secret.len() == 0 || signature == hex_lower(
            hmac_sha256(encode_utf8(paystack_secret), encode_utf8(body)),
        )),
        provider != "flutterwave"@ && provider != "paystack"@ ==> (signature_accepted(
            provider,
            body,
            signature,
            flutterwave_secret,
            paystack_secret,
            app_env,
        ) <==> app_env != "production"@),
        signature_header_of("paystack"@) == "x-paystack-signature"@,
        signature_header_of("flutterwave"@) == "verif-hash"@,
        provider != "flutterwave"@ && provider != "paystack"@ ==> signature_header_of(provider)
            == "x-signature"@,
{
    reveal_strlit("flutterwave");
    reveal_strlit("paystack");
    assert("flutterwave"@.len() != "paystack"@.len());
}

/// Signatures are only checked where a secret is configured: with an empty
/// secret every body and signature is accepted, and with a secret exactly
/// the expected signature is. Providers other than Flutterwave and Paystack
/// are accepted or refused by the environment alone, whatever the body and
/// signature.
pub proof fn signature_policy(
    provider: Seq<char>,
    body: Seq<char>,
    signature: Seq<char>,
    other_signature: Seq<char>,
    secret: Seq<char>,
    app_env: Seq<char>,
)
    ensures
        hmac_accepts(body, signature, Seq::empty()),
        secret.len() > 0 ==> (hmac_accepts(body, signature, secret) <==> signature
            == expected_signature(secret, body)),
        provider != "flutterwave"@ && provider != "paystack"@ ==> (signature_accepted(
            provider,
            body,
            signature,
            secret,
            secret,
            app_env,
        ) <==> signature_accepted(provider, Seq::empty(), other_signature, secret, secret, app_env)),
{
}

} // verus!
