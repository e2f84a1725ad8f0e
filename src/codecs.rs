//! Data formats for record bodies: raw bytes and plain text.
use crate::sink::{sink_step, KekWrite};
use vstd::prelude::*;
use vstd::slice::slice_to_vec;

verus! {

/// What `String::from_utf8_lossy` makes of a byte sequence.
pub uninterp spec fn lossy_text(b: Seq<u8>) -> Seq<char>;

/// Relies on `String::from_utf8_lossy`: the text of `data`, with each invalid
/// sequence replaced; a valid UTF-8 encoding gives back its text.
#[verifier::external_body]
fn text_of(data: &[u8]) -> (r: String)
    ensures
        r@ == lossy_text(data@),
        forall|s: Seq<char>| data@ == vstd::utf8::encode_utf8(s) ==> r@ == s,
{
    String::from_utf8_lossy(data).to_string()
}

/// A data format that records of a channel may use.
pub trait DataFormat {
    /// The format's identifier.
    spec fn spec_id() -> u64;

    /// The format's media type.
    spec fn spec_media_type() -> Seq<char>;

    /// The format's identifier: standard formats are below 2^32, application formats above.
    fn id() -> (r: u64)
        ensures
            r == Self::spec_id(),
    ;

    /// The media type of the format, for information.
    fn media_type() -> (r: &'static str)
        ensures
            r@ == Self::spec_media_type(),
    ;
}

/// A value that can be written in data format `D`.
pub trait Encodable<D: DataFormat> {
    /// The bytes that encode the value in format `D`.
    spec fn encoding(&self) -> Seq<u8>;

    /// Writes the value, encoded in format `d`, into `w`.
    fn encode(&self, d: &D, w: &mut KekWrite) -> (r: Result<usize, std::io::Error>)
        ensures
            sink_step(old(w)@, final(w)@, self.encoding()),
    ;
}

/// A value that can be read back from bytes in data format `D`.
pub trait Decodable<D: DataFormat, T> {
    /// Decodes `data`, in format `d`.
    fn decode(d: &D, data: &[u8]) -> Result<T, std::io::Error>;
}

/// Raw bytes, written as they are.
pub struct RawBinDataFormat;

impl DataFormat for RawBinDataFormat {
    open spec fn spec_id() -> u64 {
        2
    }

    open spec fn spec_media_type() -> Seq<char> {
        "application/octet-stream"@
    }

    /// Returns 2.
    fn id() -> (r: u64) {
        2
    }

    /// Returns "application/octet-stream".
    fn media_type() -> (r: &'static str) {
        proof {
            reveal_strlit("application/octet-stream");
        }
        "application/octet-stream"
    }
}

impl<'a> Encodable<RawBinDataFormat> for &'a [u8] {
    open spec fn encoding(&self) -> Seq<u8> {
        self@
    }

    fn encode(&self, d: &RawBinDataFormat, w: &mut KekWrite) -> (r: Result<usize, std::io::Error>) {
        w.write(*self)
    }
}

impl Encodable<RawBinDataFormat> for Vec<u8> {
    open spec fn encoding(&self) -> Seq<u8> {
        self@
    }

    fn encode(&self, d: &RawBinDataFormat, w: &mut KekWrite) -> (r: Result<usize, std::io::Error>) {
        w.write(self.as_slice())
    }
}

impl Decodable<RawBinDataFormat, Vec<u8>> for Vec<u8> {
    /// A copy of `data`.
    fn decode(d: &RawBinDataFormat, data: &[u8]) -> (r: Result<Vec<u8>, std::io::Error>)
        ensures
            r is Ok && r->Ok_0@ == data@,
    {
        Ok(slice_to_vec(data))
    }
}

/// Unstructured UTF-8 text.
pub struct PlainTextDataFormat;

impl DataFormat for PlainTextDataFormat {
    open spec fn spec_id() -> u64 {
        3
    }

    open spec fn spec_media_type() -> Seq<char> {
        "text/plain"@
    }

    /// Returns 3.
    fn id() -> (r: u64) {
        3
    }

    /// Returns "text/plain".
    fn media_type() -> (r: &'static str) {
        proof {
            reveal_strlit("text/plain");
        }
        "text/plain"
    }
}

impl<'a> Encodable<PlainTextDataFormat> for &'a str {
    open spec fn encoding(&self) -> Seq<u8> {
        vstd::utf8::encode_utf8(self@)
    }

    fn encode(&self, d: &PlainTextDataFormat, w: &mut KekWrite) -> (r: Result<usize, std::io::Error>) {
        w.write(self.as_bytes())
    }
}

impl Encodable<PlainTextDataFormat> for String {
    open spec fn encoding(&self) -> Seq<u8> {
        vstd::utf8::encode_utf8(self@)
    }

    fn encode(&self, d: &PlainTextDataFormat, w: &mut KekWrite) -> (r: Result<usize, std::io::Error>) {
        w.write(self.as_str().as_bytes())
    }
}

impl Decodable<PlainTextDataFormat, String> for String {
    /// The text of `data`, invalid sequences replaced.
    fn decode(d: &PlainTextDataFormat, data: &[u8]) -> (r: Result<String, std::io::Error>)
        ensures
            r is Ok && r->Ok_0@ == lossy_text(data@),
            forall|s: Seq<char>| data@ == vstd::utf8::encode_utf8(s) ==> r->Ok_0@ == s,
    {
        Ok(text_of(data))
    }
}

} // verus!
