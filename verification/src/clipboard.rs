//! The clipboard boundary: a platform clipboard handle is optional, and its
//! absence is recoverable, never fatal.

use vstd::prelude::*;
use crate::errors::{ErrorView, PasswordError};

verus! {

/// The platform clipboard handle of the arboard crate; opaque here.
#[verifier::external_type_specification]
#[verifier::external_body]
pub struct ExClipboard(arboard::Clipboard);

/// Relies on arboard::Clipboard::new: a handle where the platform offers a
/// clipboard, and nothing where it does not (absence is recoverable).
#[verifier::external_body]
pub fn get_clipboard() -> Option<arboard::Clipboard> {
    arboard::Clipboard::new().ok()
}

/// Relies on arboard::Clipboard::set_text: places the text onto the
/// clipboard; a rejected write comes back as the error's description.
#[verifier::external_body]
fn clipboard_set_text(clipboard: &mut arboard::Clipboard, text: String) -> Result<(), String> {
    clipboard.set_text(text).map_err(|e| e.to_string())
}

/// Copies an entry identifier to the clipboard. This is synchronous and
/// clipboard-only — no subprocess — so it is not deduplicated through the
/// registry: a duplicate copy of the same text cannot race meaningfully.
/// Without a handle it fails with `ClipboardUnavailable`; a rejected write
/// fails with `ClipboardError` carrying the clipboard's description.
pub fn copy_id(clipboard: &mut Option<arboard::Clipboard>, pass_id: String) -> (r: Result<
    (),
    PasswordError,
>)
    ensures
        (*old(clipboard)) is None ==> (r matches Err(e) && e@ == ErrorView::ClipboardUnavailable),
        (*old(clipboard)) is Some ==> (r is Ok || (r matches Err(e) && e@ is ClipboardError)),
{
    match clipboard {
        Option::Some(handle) => match clipboard_set_text(handle, pass_id) {
            Ok(()) => Ok(()),
            Err(description) => Err(PasswordError::ClipboardError(description)),
        },
        Option::None => Err(PasswordError::ClipboardUnavailable),
    }
}

} // verus!
