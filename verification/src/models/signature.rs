//! A user's visual signature.
//!
//! A [`Signature`] is the image a trainee or signer registers once and that the
//! PDF export stamps onto their reports. [`Signature::new`] is the single gate
//! that keeps junk out: it rejects an empty image, anything larger than
//! [`MAX_BYTES`], and bytes that are not the declared format (today only PNG,
//! recognised by its magic number).

use vstd::prelude::*;

use crate::errors::DomainError;
use crate::models::time::Timestamp;
use crate::textual::{debug_quoted, decimal, push_debug_quoted, push_decimal};

verus! {

/// The largest signature image accepted, in bytes (256 KiB).
pub const MAX_BYTES: usize = 262144;

/// The 8-byte signature every PNG file begins with.
pub open spec fn png_magic() -> Seq<u8> {
    seq![0x89u8, 0x50u8, 0x4Eu8, 0x47u8, 0x0Du8, 0x0Au8, 0x1Au8, 0x0Au8]
}

/// Whether `bytes` begins with the PNG magic number.
pub open spec fn starts_with_png_magic(bytes: Seq<u8>) -> bool {
    bytes.len() >= 8 && bytes.take(8) == png_magic()
}

/// Why `bytes` are refused as a signature image, when they are: empty, over
/// [`MAX_BYTES`], or not a PNG.
pub open spec fn signature_refusal(bytes: Seq<u8>) -> Seq<char> {
    if bytes.len() == 0 {
        "signature image is empty"@
    } else if bytes.len() > MAX_BYTES {
        "signature image is "@ + decimal(bytes.len()) + " bytes, over the "@ + decimal(
            MAX_BYTES as nat,
        ) + "-byte limit"@
    } else {
        "signature image is not a valid PNG"@
    }
}

/// The image format of a [`Signature`].
#[derive(Debug, Clone, Copy, PartialEq, Eq, Structural)]
pub enum SignatureFormat {
    /// A PNG raster image.
    Png,
}

impl SignatureFormat {
    /// The canonical lowercase token this format is persisted and sent as.
    pub fn as_str(&self) -> (r: &'static str)
        ensures
            r@ == seq!['p', 'n', 'g'],
    {
        proof {
            reveal_strlit("png");
        }
        "png"
    }

    /// Parse the canonical token back into a format; anything but `"png"` is
    /// [`DomainError::Invalid`].
    pub fn parse(token: &str) -> (r: Result<SignatureFormat, DomainError>)
        ensures
            r is Ok <==> token@ == seq!['p', 'n', 'g'],
            r matches Ok(f) ==> f == SignatureFormat::Png,
            r matches Err(e) ==> e is Invalid && e.message() == "unsupported signature format "@
                + debug_quoted(token@),
    {
        let n = token.unicode_len();
        if n == 3 && token.get_char(0) == 'p' && token.get_char(1) == 'n' && token.get_char(2)
            == 'g' {
            assert(token@ =~= seq!['p', 'n', 'g']);
            Ok(SignatureFormat::Png)
        } else {
            let mut message = String::from_str("unsupported signature format ");
            push_debug_quoted(&mut message, token);
            Err(DomainError::Invalid(message))
        }
    }
}

/// A validated signature image: its [format](SignatureFormat) and raw bytes.
#[derive(Debug)]
pub struct Signature {
    format: SignatureFormat,
    bytes: Vec<u8>,
}

/// Whether `bytes` is acceptable as a signature image of `format`.
pub open spec fn acceptable_signature(format: SignatureFormat, bytes: Seq<u8>) -> bool {
    &&& bytes.len() > 0
    &&& bytes.len() <= MAX_BYTES
    &&& match format {
        SignatureFormat::Png => starts_with_png_magic(bytes),
    }
}

impl Signature {
    /// The largest signature image accepted, in bytes.
    pub const MAX_BYTES: usize = MAX_BYTES;

    /// The image format.
    pub closed spec fn format_spec(&self) -> SignatureFormat {
        self.format
    }

    /// The raw image bytes.
    pub closed spec fn bytes_spec(&self) -> Seq<u8> {
        self.bytes@
    }

    /// Validate `bytes` as an image of `format` and wrap them.
    ///
    /// Fails with [`DomainError::Invalid`] if the image is empty, exceeds
    /// [`MAX_BYTES`], or does not begin with the magic number of the declared
    /// `format`.
    pub fn new(format: SignatureFormat, bytes: Vec<u8>) -> (r: Result<Signature, DomainError>)
        ensures
            r is Ok <==> acceptable_signature(format, bytes@),
            r matches Ok(s) ==> s.format_spec() == format && s.bytes_spec() == bytes@,
            r matches Err(e) ==> e is Invalid && e.message() == signature_refusal(bytes@),
    {
        if bytes.len() == 0 {
            return Err(DomainError::Invalid(String::from_str("signature image is empty")));
        }
        if bytes.len() > MAX_BYTES {
            let mut message = String::from_str("signature image is ");
            push_decimal(&mut message, bytes.len() as u64);
            message.append(" bytes, over the ");
            push_decimal(&mut message, MAX_BYTES as u64);
            message.append("-byte limit");
            return Err(DomainError::Invalid(message));
        }
        match format {
            SignatureFormat::Png => {
                if !has_png_magic(&bytes) {
                    return Err(
                        DomainError::Invalid(String::from_str("signature image is not a valid PNG")),
                    );
                }
            },
        }
        Ok(Signature { format, bytes })
    }

    /// Reconstitute a signature from already-stored parts, skipping validation.
    ///
    /// Storage uses this to rebuild a row it previously wrote through
    /// [`new`](Self::new); application logic builds fresh signatures with `new`.
    pub fn from_stored(format: SignatureFormat, bytes: Vec<u8>) -> (r: Signature)
        ensures
            r.format_spec() == format,
            r.bytes_spec() == bytes@,
    {
        Signature { format, bytes }
    }

    /// The image format.
    pub fn format(&self) -> (r: SignatureFormat)
        ensures
            r == self.format_spec(),
    {
        self.format
    }

    /// The raw image bytes.
    pub fn bytes(&self) -> (r: &[u8])
        ensures
            r@ == self.bytes_spec(),
    {
        self.bytes.as_slice()
    }
}

impl Clone for Signature {
    fn clone(&self) -> (r: Signature)
        ensures
            r.format_spec() == self.format_spec(),
            r.bytes_spec() == self.bytes_spec(),
    {
        Signature { format: self.format, bytes: self.bytes.clone() }
    }
}

impl PartialEq for Signature {
    fn eq(&self, other: &Signature) -> (r: bool) {
        self.format == other.format && bytes_equal(self.bytes.as_slice(), other.bytes.as_slice())
    }
}

impl vstd::std_specs::cmp::PartialEqSpecImpl for Signature {
    open spec fn obeys_eq_spec() -> bool {
        true
    }

    open spec fn eq_spec(&self, other: &Signature) -> bool {
        self.format_spec() == other.format_spec() && self.bytes_spec() == other.bytes_spec()
    }
}

impl Eq for Signature {}

/// Whether two byte strings are equal.
fn bytes_equal(a: &[u8], b: &[u8]) -> (r: bool)
    ensures
        r == (a@ == b@),
{
    if a.len() != b.len() {
        return false;
    }
    let mut i: usize = 0;
    while i < a.len()
        invariant
            a@.len() == b@.len(),
            i <= a@.len(),
            forall|j: int| 0 <= j < i ==> a@[j] == b@[j],
        decreases a.len() - i,
    {
        if a[i] != b[i] {
            return false;
        }
        i = i + 1;
    }
    assert(a@ =~= b@);
    true
}

/// Whether `bytes` begins with the PNG magic number.
fn has_png_magic(bytes: &Vec<u8>) -> (r: bool)
    ensures
        r == starts_with_png_magic(bytes@),
{
    if bytes.len() < 8 {
        return false;
    }
    let r = bytes[0] == 0x89 && bytes[1] == 0x50 && bytes[2] == 0x4E && bytes[3] == 0x47
        && bytes[4] == 0x0D && bytes[5] == 0x0A && bytes[6] == 0x1A && bytes[7] == 0x0A;
    assert(r == (bytes@.take(8) =~= png_magic()));
    r
}

/// A [`Signature`] as held in storage, paired with the instant it was last set.
#[derive(Debug)]
pub struct StoredSignature {
    /// The stored signature image.
    pub signature: Signature,
    /// When the signature was last set, in UTC.
    pub updated_at: Timestamp,
}

impl Clone for StoredSignature {
    fn clone(&self) -> (r: StoredSignature)
        ensures
            r.signature.format_spec() == self.signature.format_spec(),
            r.signature.bytes_spec() == self.signature.bytes_spec(),
            r.updated_at == self.updated_at,
    {
        StoredSignature { signature: self.signature.clone(), updated_at: self.updated_at }
    }
}

} // verus!
