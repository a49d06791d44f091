//! Base64 text of bytes, as the `base64` crate writes it.

use vstd::prelude::*;

verus! {

/// The text that the `base64` crate's standard engine writes for some bytes.
pub uninterp spec fn base64_of(bytes: Seq<u8>) -> Seq<char>;

/// Whether the encoded text of `n` bytes can be held in memory.
pub open spec fn encodable(n: int) -> bool {
    (n + 2) / 3 * 4 <= isize::MAX
}

/// `base64`'s `STANDARD.encode` writes bytes in the standard alphabet with padding; the
/// text is only named here. It panics where the text would be too long to hold.
#[verifier::external_body]
pub(crate) fn base64_text(bytes: &[u8]) -> (text: String)
    requires
        encodable(bytes@.len() as int),
    ensures
        text@ == base64_of(bytes@),
{
    base64::Engine::encode(&base64::engine::general_purpose::STANDARD, bytes)
}

} // verus!
