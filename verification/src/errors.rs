//! The failure taxonomy of the store: fatal misconfiguration, missing
//! clipboard, clipboard write failure, and failures of the external
//! credential tool.

use vstd::prelude::*;
use crate::text::str_eq;

verus! {

/// What can go wrong in this library.
///
/// `StoreUnresolvable` is fatal to catalog construction: no home directory
/// means no store root. The rest are reported and retryable.
#[derive(Debug, Clone)]
pub enum PasswordError {
    /// The home directory, and with it the store root, cannot be determined.
    StoreUnresolvable,
    /// No usable clipboard handle exists.
    ClipboardUnavailable,
    /// The clipboard rejected a write; the payload is its description.
    ClipboardError(String),
    /// The external credential tool could not run or reported failure; the
    /// payload is its error output or exit-status description, verbatim.
    PassError(String),
    /// The external decryption backend could not decrypt an entry file; the
    /// payload is its description. Reported as status, retryable.
    DecryptionFailed(String),
}

/// The view of an error: the same shape over character sequences.
pub enum ErrorView {
    StoreUnresolvable,
    ClipboardUnavailable,
    ClipboardError(Seq<char>),
    PassError(Seq<char>),
    DecryptionFailed(Seq<char>),
}

impl View for PasswordError {
    type V = ErrorView;

    open spec fn view(&self) -> ErrorView {
        match self {
            PasswordError::StoreUnresolvable => ErrorView::StoreUnresolvable,
            PasswordError::ClipboardUnavailable => ErrorView::ClipboardUnavailable,
            PasswordError::ClipboardError(s) => ErrorView::ClipboardError(s@),
            PasswordError::PassError(s) => ErrorView::PassError(s@),
            PasswordError::DecryptionFailed(s) => ErrorView::DecryptionFailed(s@),
        }
    }
}

impl PartialEq for PasswordError {
    fn eq(&self, other: &Self) -> (r: bool) {
        match (self, other) {
            (PasswordError::StoreUnresolvable, PasswordError::StoreUnresolvable) => true,
            (PasswordError::ClipboardUnavailable, PasswordError::ClipboardUnavailable) => true,
            (PasswordError::ClipboardError(a), PasswordError::ClipboardError(b)) => str_eq(
                a.as_str(),
                b.as_str(),
            ),
            (PasswordError::PassError(a), PasswordError::PassError(b)) => str_eq(
                a.as_str(),
                b.as_str(),
            ),
            (PasswordError::DecryptionFailed(a), PasswordError::DecryptionFailed(b)) => str_eq(
                a.as_str(),
                b.as_str(),
            ),
            _ => false,
        }
    }
}

impl vstd::std_specs::cmp::PartialEqSpecImpl for PasswordError {
    open spec fn obeys_eq_spec() -> bool {
        true
    }

    open spec fn eq_spec(&self, other: &Self) -> bool {
        self@ == other@
    }
}

} // verus!
