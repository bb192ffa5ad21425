//! Texts that cross to the renderer, which reads them up to the first zero
//! byte: a text that holds one is refused.

use vstd::prelude::*;

verus! {

/// The argument that a refusal is about.
#[derive(Debug, Clone, Copy, PartialEq, Eq, Structural)]
pub enum Argument {
    Identifier,
    Title,
    Filters,
    Path,
    FileName,
    FilePathName,
    Criteria,
    Icon,
    BeginLocale,
    EndLocale,
}

/// Why a call was refused.
#[derive(Debug, Clone, Copy, PartialEq, Eq, Structural)]
pub enum DialogError {
    /// The named argument holds a zero byte.
    InvalidArgument(Argument),
}

/// Whether the UTF-8 form of `text` holds a zero byte.
pub open spec fn has_nul(text: Seq<char>) -> bool {
    vstd::utf8::encode_utf8(text).contains(0u8)
}

/// Whether a text that may be absent is present and holds a zero byte.
pub open spec fn opt_has_nul(text: Option<Seq<char>>) -> bool {
    match text {
        Some(t) => has_nul(t),
        None => false,
    }
}

/// An optional text as plain characters.
pub open spec fn opt_text(text: Option<String>) -> Option<Seq<char>> {
    match text {
        Some(t) => Some(t@),
        None => None,
    }
}

/// An optional borrowed text as plain characters.
pub open spec fn opt_str(text: Option<&str>) -> Option<Seq<char>> {
    match text {
        Some(t) => Some(t@),
        None => None,
    }
}

/// Whether `text` holds a zero byte.
pub fn contains_nul(text: &str) -> (r: bool)
    ensures
        r == has_nul(text@),
{
    let bytes = text.as_bytes();
    let mut i: usize = 0;
    while i < bytes.len()
        invariant
            i <= bytes.len(),
            bytes@ == vstd::utf8::encode_utf8(text@),
            forall|h: int| 0 <= h < i ==> bytes@[h] != 0u8,
        decreases bytes.len() - i,
    {
        if bytes[i] == 0 {
            return true;
        }
        i += 1;
    }
    false
}

/// Whether `text` is present and holds a zero byte.
pub fn opt_contains_nul(text: &Option<String>) -> (r: bool)
    ensures
        r == opt_has_nul(opt_text(*text)),
{
    match text {
        Some(t) => contains_nul(t.as_str()),
        None => false,
    }
}

/// An owned copy of a text that may be absent.
pub fn opt_owned(text: Option<&str>) -> (r: Option<String>)
    ensures
        opt_text(r) == opt_str(text),
{
    match text {
        Some(t) => Some(t.to_owned()),
        None => None,
    }
}

} // verus!
