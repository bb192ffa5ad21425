//! Texts that come back from the renderer as bytes. A buffer is either
//! handed over, and gone once it is read, or only lent.

use vstd::prelude::*;

verus! {

/// The text that `String::from_utf8_lossy` makes of a run of bytes.
pub uninterp spec fn lossy_text(bytes: Seq<u8>) -> Seq<char>;

/// `String::from_utf8_lossy`, its result made an owned `String`. Trusted: the
/// contract claims that the text depends on the bytes alone, and that bytes
/// which are well-formed UTF-8 come out as the text they encode; of
/// ill-formed bytes it claims nothing more.
#[verifier::external_body]
fn decode_lossy(bytes: &[u8]) -> (r: String)
    ensures
        r@ == lossy_text(bytes@),
        vstd::utf8::valid_utf8(bytes@) ==> r@ == vstd::utf8::decode_utf8(bytes@),
{
    String::from_utf8_lossy(bytes).into_owned()
}

/// The text of a buffer that may be absent: empty where there is none, else
/// the bytes read as UTF-8 with ill-formed parts replaced.
pub open spec fn text_of(buffer: Option<Seq<u8>>) -> Seq<char> {
    match buffer {
        None => Seq::empty(),
        Some(b) => lossy_text(b),
    }
}

/// Whether a buffer is present and holds well-formed UTF-8.
pub open spec fn is_well_formed(buffer: Option<Seq<u8>>) -> bool {
    match buffer {
        None => false,
        Some(b) => vstd::utf8::valid_utf8(b),
    }
}

/// A lent buffer as plain bytes.
pub open spec fn lent(buffer: Option<&[u8]>) -> Option<Seq<u8>> {
    match buffer {
        None => None,
        Some(b) => Some(b@),
    }
}

/// A buffer that was handed over as plain bytes.
pub open spec fn handed_over(buffer: Option<Vec<u8>>) -> Option<Seq<u8>> {
    match buffer {
        None => None,
        Some(b) => Some(b@),
    }
}

/// The text of a buffer that the renderer handed over, without its closing
/// zero. The buffer is used up.
pub fn ptr_into_string(buffer: Option<Vec<u8>>) -> (r: String)
    ensures
        r@ == text_of(handed_over(buffer)),
        is_well_formed(handed_over(buffer)) ==> r@ == vstd::utf8::decode_utf8(buffer->Some_0@),
{
    match buffer {
        None => String::new(),
        Some(b) => decode_lossy(b.as_slice()),
    }
}

/// The text of a buffer that the renderer keeps, without its closing zero.
pub fn ptr_clone_to_string(buffer: Option<&[u8]>) -> (r: String)
    ensures
        r@ == text_of(lent(buffer)),
        is_well_formed(lent(buffer)) ==> r@ == vstd::utf8::decode_utf8(buffer->Some_0@),
{
    match buffer {
        None => String::new(),
        Some(b) => decode_lossy(b),
    }
}

} // verus!
