use vstd::prelude::*;

verus! {

/// The padded base64 text of a byte string, in the standard alphabet.
pub uninterp spec fn base64_text(bytes: Seq<u8>) -> Seq<char>;

/// `data_encoding::BASE64.encode`: the padded base64 text of `bytes`. The
/// text depends on the bytes alone.
#[verifier::external_body]
pub(crate) fn base64_encode(bytes: &Vec<u8>) -> (r: String)
    ensures
        r@ == base64_text(bytes@),
{
    data_encoding::BASE64.encode(bytes.as_slice())
}

} // verus!
