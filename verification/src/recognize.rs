//! Recognising what an upload holds from its first bytes, with libmagic.
use vstd::prelude::*;
use crate::error::PasteError;

verus! {

/// A libmagic cookie whose database is loaded, with the flags that say what
/// it reports (a MIME type, or file extensions).
#[verifier::external_body]
pub struct Recognizer {
    pub cookie: magic::Cookie<magic::cookie::Load>,
}

/// The text of every error that a failed recognition gives: libmagic's
/// `magic_buffer` reported a failure.
pub open spec fn recognition_failure_text() -> Seq<char> {
    "magic cookie error in `libmagic` function magic_buffer"@
}

/// Whether `e` is the error of a failed recognition.
pub open spec fn is_recognition_failure(e: PasteError) -> bool {
    e matches PasteError::MagicError(m) && m@ == recognition_failure_text()
}

/// `magic::Cookie::buffer` on `bytes`, its error rendered as text. Claimed:
/// a failure is the error that the crate's `cookie::Error` displays for
/// `magic_buffer`. What libmagic reports on success depends on the database
/// that was loaded into the cookie and on its flags, which Verus does not
/// see, so nothing is claimed of it.
#[verifier::external_body]
pub(crate) fn recognize(rec: &Recognizer, bytes: &[u8]) -> (r: Result<String, PasteError>)
    ensures
        r matches Err(e) ==> is_recognition_failure(e),
{
    match rec.cookie.buffer(bytes) {
        Ok(s) => Ok(s),
        Err(e) => Err(PasteError::MagicError(e.to_string())),
    }
}

} // verus!
