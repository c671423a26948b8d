use vstd::prelude::*;
use vstd::string::*;

verus! {

/// The UTF-16 code units of one character.
pub open spec fn utf16_of_char(c: char) -> Seq<u16> {
    let n = c as u32;
    if n < 0x10000 {
        seq![n as u16]
    } else {
        let m = (n - 0x10000) as u32;
        seq![(0xD800 + m / 0x400) as u16, (0xDC00 + m % 0x400) as u16]
    }
}

/// The UTF-16 encoding of a character sequence.
pub open spec fn utf16_of(s: Seq<char>) -> Seq<u16>
    decreases s.len(),
{
    if s.len() == 0 {
        Seq::empty()
    } else {
        utf16_of(s.drop_last()) + utf16_of_char(s.last())
    }
}

/// No unit but possibly the last one is a nul.
pub open spec fn nul_only_at_end(u: Seq<u16>) -> bool {
    forall|i: int| 0 <= i < u.len() - 1 ==> u[i] != 0
}

/// A unit sequence with a nul terminator, added unless one is already last.
pub open spec fn nul_terminated(u: Seq<u16>) -> Seq<u16> {
    if u.len() > 0 && u.last() == 0 {
        u
    } else {
        u.push(0)
    }
}

/// Relies on `widestring::U16String::from_str` and `into_vec`: the UTF-16
/// encoding of the string, with no terminator added.
#[verifier::external_body]
pub(crate) fn encode_wide(s: &str) -> (r: Vec<u16>)
    ensures
        r@ == utf16_of(s@),
{
    widestring::U16String::from_str(s).into_vec()
}

/// Relies on `widestring::U16CString::from_str` and `into_vec_with_nul`: the
/// nul-terminated UTF-16 encoding, refused when a nul stands before the end.
#[verifier::external_body]
pub(crate) fn encode_wide_c(s: &str) -> (r: Option<Vec<u16>>)
    ensures
        r.is_some() == nul_only_at_end(utf16_of(s@)),
        r matches Some(v) ==> v@ == nul_terminated(utf16_of(s@)),
{
    match widestring::U16CString::from_str(s) {
        Ok(w) => Some(w.into_vec_with_nul()),
        Err(_) => None,
    }
}

/// The nul-terminated wide form of a name, as the service manager takes it.
pub fn wide_name(s: &str) -> (r: Vec<u16>)
    ensures
        r@ == utf16_of(s@).push(0),
{
    let mut v = encode_wide(s);
    v.push(0);
    v
}

/// The text that lossy UTF-16 decoding gives for a unit sequence.
pub uninterp spec fn utf16_lossy(units: Seq<u16>) -> Seq<char>;

/// Relies on `String::from_utf16_lossy`: the decoded text, with invalid
/// units replaced; the result depends on the units alone, and every unit
/// decodes to at least part of a character, so units give some text.
#[verifier::external_body]
fn decode_wide_lossy(units: &[u16]) -> (r: String)
    ensures
        r@ == utf16_lossy(units@),
        units@.len() > 0 ==> r@.len() > 0,
{
    String::from_utf16_lossy(units)
}

/// The text of a system message: the units the lookup wrote, decoded, or
/// "Unknown error" when it wrote none.
pub fn message_text(units: &Vec<u16>) -> (r: String)
    ensures
        units@.len() > 0 ==> r@ == utf16_lossy(units@) && r@.len() > 0,
        units@.len() == 0 ==> r@ == "Unknown error"@,
{
    if units.len() > 0 {
        decode_wide_lossy(units.as_slice())
    } else {
        String::from_str("Unknown error")
    }
}

} // verus!
