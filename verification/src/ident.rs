//! Fresh identifiers.

use vstd::prelude::*;

verus! {

/// A random identifier, as text.
///
/// Calls `uuid::Uuid::new_v4` and renders it with `to_string`. Nothing is
/// claimed of the value: it is drawn from the operating system's generator,
/// and two draws may even coincide. `uuid` aborts when that generator
/// fails.
#[verifier::external_body]
pub(crate) fn fresh_id() -> (id: String) {
    uuid::Uuid::new_v4().to_string()
}

} // verus!
