//! Text that crosses the border to the driver.
use vstd::prelude::*;
use vstd::utf8::{decode_utf8, encode_utf8, valid_utf8};

verus! {

/// A zero byte in a string that the driver would take for its end: where the first one is, and
/// the bytes of the string.
#[derive(Clone, Debug)]
pub struct NulError {
    pub position: usize,
    pub bytes: Vec<u8>,
}

/// The error as a mathematical value.
#[verifier::ext_equal]
pub struct NulErrorView {
    pub position: int,
    pub bytes: Seq<u8>,
}

impl View for NulError {
    type V = NulErrorView;

    open spec fn view(&self) -> NulErrorView {
        NulErrorView { position: self.position as int, bytes: self.bytes@ }
    }
}

/// The encoded string holds a zero byte.
pub open spec fn has_nul(text: Seq<char>) -> bool {
    exists|i: int| 0 <= i < encode_utf8(text).len() && encode_utf8(text)[i] == 0
}

/// `position` is the place of the first zero byte of the encoded string.
pub open spec fn is_first_nul(text: Seq<char>, position: int) -> bool {
    &&& 0 <= position < encode_utf8(text).len()
    &&& encode_utf8(text)[position] == 0
    &&& forall|i: int| 0 <= i < position ==> encode_utf8(text)[i] != 0
}

/// What is wrong with a string that holds a zero byte.
pub open spec fn nul_error(text: Seq<char>) -> NulErrorView {
    NulErrorView {
        position: choose|position: int| is_first_nul(text, position),
        bytes: encode_utf8(text),
    }
}

/// The place of the first zero byte of a string.
pub fn find_nul(text: &str) -> (position: Option<usize>)
    ensures
        position is Some <==> has_nul(text@),
        position matches Some(position) ==> is_first_nul(text@, position as int),
{
    let bytes = text.as_bytes();
    for i in 0..bytes.len()
        invariant
            bytes@ == encode_utf8(text@),
            forall|j: int| 0 <= j < i ==> bytes@[j] != 0,
    {
        if bytes[i] == 0 {
            return Some(i);
        }
    }
    None
}

/// Refuses a string that the driver could not take whole.
pub fn reject_nul(text: &str) -> (result: Result<(), NulError>)
    ensures
        result is Err <==> has_nul(text@),
        result matches Err(error) ==> error@ == nul_error(text@),
{
    match find_nul(text) {
        Some(position) => {
            let ghost first = choose|p: int| is_first_nul(text@, p);
            assert(is_first_nul(text@, position as int));
            assert(first == position);
            let bytes = vstd::slice::slice_to_vec(text.as_bytes());
            Err(NulError { position, bytes })
        },
        None => Ok(()),
    }
}

/// What `String::from_utf8_lossy` makes of a byte sequence.
pub uninterp spec fn utf8_lossy(bytes: Seq<u8>) -> Seq<char>;

/// Calls `String::from_utf8_lossy` and takes ownership of the result. Trusted: the text depends
/// on the bytes alone, and bytes that are valid UTF-8 come back as the text they encode. How
/// invalid sequences are grouped into replacement characters is left to the name.
#[verifier::external_body]
fn from_utf8_lossy(bytes: &[u8]) -> (text: String)
    ensures
        text@ == utf8_lossy(bytes@),
        valid_utf8(bytes@) ==> text@ == decode_utf8(bytes@),
{
    String::from_utf8_lossy(bytes).into_owned()
}

/// The text of an information log of which the driver has written `length` bytes into `buffer`:
/// all of them but the last.
pub open spec fn log_text(buffer: Seq<u8>, length: int) -> Seq<char> {
    utf8_lossy(buffer.subrange(0, length - 1))
}

/// Reads the text of an information log.
pub fn read_log(buffer: &Vec<u8>, length: i32) -> (text: String)
    requires
        1 <= length <= buffer@.len() + 1,
    ensures
        text@ == log_text(buffer@, length as int),
        valid_utf8(buffer@.subrange(0, length - 1)) ==> text@ == decode_utf8(
            buffer@.subrange(0, length - 1),
        ),
{
    from_utf8_lossy(vstd::slice::slice_subrange(buffer.as_slice(), 0, (length - 1) as usize))
}

} // verus!
