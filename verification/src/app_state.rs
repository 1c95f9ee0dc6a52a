//! What the whole process is configured with.

use vstd::prelude::*;
use vstd::utf8::encode_utf8;

verus! {

/// The configuration that every handler is given: it is read once, when the
/// process starts, and never changes.
#[derive(Clone, Debug, PartialEq, Eq)]
pub struct AppState {
    /// The secret with which session tokens are signed and checked.
    pub jwt_secret: String,
}

impl AppState {
    /// The signing secret as the bytes that sign.
    pub open spec fn secret_bytes(&self) -> Seq<u8> {
        encode_utf8(self.jwt_secret@)
    }
}

} // verus!
