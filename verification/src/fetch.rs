//! What is fetched, as text: the decoding of a page's bytes.

use vstd::prelude::*;

verus! {

/// An encoding that a site serves its pages in, other than the one that the
/// transport finds out by itself.
#[derive(Debug, Clone, Copy, PartialEq, Eq)]
pub enum Encoding {
    Gbk,
}

/// The text that GBK-encoded bytes decode to, malformed sequences replaced.
pub uninterp spec fn gbk_decoded(bytes: Seq<u8>) -> Seq<char>;

/// `Encoding::decode` of the encoding_rs crate, for its GBK encoding: the
/// decoded text. The contract only names the result.
#[verifier::external_body]
pub(crate) fn decode_gbk(bytes: &[u8]) -> (out: String)
    ensures
        out@ == gbk_decoded(bytes@),
{
    let (text, _, _) = encoding_rs::GBK.decode(bytes);
    text.into_owned()
}

/// The text of a page from its bytes, in the encoding that its site needs.
pub open spec fn decoded(bytes: Seq<u8>, encoding: Encoding) -> Seq<char> {
    match encoding {
        Encoding::Gbk => gbk_decoded(bytes),
    }
}

/// Decodes the bytes of a page in the encoding that its site needs.
pub fn decode_body(bytes: &Vec<u8>, encoding: Encoding) -> (out: String)
    ensures
        out@ == decoded(bytes@, encoding),
{
    match encoding {
        Encoding::Gbk => decode_gbk(bytes.as_slice()),
    }
}

} // verus!
