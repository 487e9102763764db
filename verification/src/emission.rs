//! Observable emissions: the audible side effects of an evaluation. They are
//! lines on standard output, carry no data back into the library, and are not
//! part of the error path.

use std::io::Write;
use vstd::prelude::*;

verus! {

/// Relies on `std::io::stdout` (via `writeln`): writes one line to standard
/// output. Nothing is promised of it, and nothing in the library depends on
/// it.
#[verifier::external_body]
pub(crate) fn emit(message: &str) {
    let _ = writeln!(std::io::stdout(), "{}", message);
}

} // verus!
