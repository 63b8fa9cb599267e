//! Logging in: through the server's web page, or through its JSON interface.

use vstd::prelude::*;

pub mod native;
pub mod subprocess;
pub mod webview;

verus! {

/// The length of a session id in bytes.
pub const SESSION_ID_LEN: usize = 56;

} // verus!
