//! What the crate asks of the machine it runs on, through outside crates.
//! Nothing is promised of these answers: they differ from machine to
//! machine.

use vstd::prelude::*;

verus! {

/// `hostname::get`, with the name converted to text (bytes that are not
/// UTF-8 are replaced). Trusted, with no contract: `None` when the system
/// call fails, otherwise whatever name the system reports.
#[verifier::external_body]
pub(crate) fn os_host_name() -> Option<String> {
    match hostname::get() {
        Ok(name) => Some(name.to_string_lossy().to_string()),
        Err(_) => None,
    }
}

/// `whoami::username`: the name of the user running the process, or the
/// crate's fallback name when the system does not tell. Trusted, with no
/// contract.
#[verifier::external_body]
pub(crate) fn current_user_name() -> String {
    whoami::username()
}

} // verus!
