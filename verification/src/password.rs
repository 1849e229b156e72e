//! The password value that configuration requests carry on the wire.

use vstd::prelude::*;
use vstd::string::*;
use vstd::utf8::*;

verus! {

/// The MD5 digest of a run of bytes, as `md5::compute` gives it.
pub uninterp spec fn md5_of(data: Seq<u8>) -> Seq<u8>;

/// The standard, padded base64 text of a run of bytes, as `base64::encode`
/// gives it.
pub uninterp spec fn base64_of(data: Seq<u8>) -> Seq<char>;

/// Calls `md5::compute` and hands out the sixteen bytes of its digest.
/// Trusted: the result is the MD5 digest of `data`, which depends on the
/// bytes alone.
#[verifier::external_body]
fn md5_digest(data: &[u8]) -> (r: [u8; 16])
    ensures
        r@ == md5_of(data@),
{
    md5::compute(data).0
}

/// Calls `base64::encode`. Trusted: the result is the base64 text of `data`
/// in the standard alphabet with padding. The call fails where the length
/// of that text does not fit in `usize`, so such inputs are left out.
#[verifier::external_body]
fn base64_text(data: &[u8]) -> (r: String)
    requires
        (data@.len() / 3) * 4 + 4 <= usize::MAX,
    ensures
        r@ == base64_of(data@),
{
    base64::encode(data)
}

/// The wire value that stands for a plaintext password: the base64 text of
/// the MD5 digest of its UTF-8 bytes.
pub open spec fn digest_text(plaintext: Seq<char>) -> Seq<char> {
    base64_of(md5_of(encode_utf8(plaintext)))
}

/// A digested password. It is made from a plaintext and only ever written
/// to the wire; the plaintext cannot be had back from it.
#[derive(Debug, PartialEq, Eq)]
pub struct Password(String);

impl View for Password {
    type V = Seq<char>;

    open spec fn view(&self) -> Seq<char> {
        self.text()@
    }
}

impl Clone for Password {
    fn clone(&self) -> (r: Self)
        ensures
            r@ == self@,
    {
        Password(self.0.clone())
    }
}

impl Password {
    /// The string that holds the wire value.
    pub closed spec fn text(self) -> String {
        self.0
    }

    /// Digests a plaintext password into its wire value.
    pub fn hash(password: &str) -> (r: Password)
        ensures
            r@ == digest_text(password@),
    {
        let digest = md5_digest(password.as_bytes());
        Password(base64_text(digest.as_slice()))
    }

    /// Takes a wire value as it was received.
    pub fn from_wire(text: String) -> (r: Password)
        ensures
            r@ == text@,
    {
        Password(text)
    }

    /// The wire value.
    pub fn as_str(&self) -> (r: &str)
        ensures
            r@ == self@,
    {
        self.0.as_str()
    }
}

impl From<Password> for String {
    fn from(p: Password) -> (r: String) {
        p.0
    }
}

impl vstd::std_specs::convert::FromSpecImpl<Password> for String {
    open spec fn obeys_from_spec() -> bool {
        true
    }

    open spec fn from_spec(p: Password) -> String {
        p.text()
    }
}

} // verus!
