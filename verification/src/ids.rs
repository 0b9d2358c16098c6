//! Identifiers attached to log records and genome acknowledgements.
//!
//! The identifiers themselves come from the `uuid` crate; the crate's logic
//! only carries them through, so the type is declared opaquely and the one
//! constructor is trusted.

use vstd::prelude::*;

verus! {

#[verifier::external_type_specification]
#[verifier::external_body]
pub struct ExUuid(uuid::Uuid);

/// Relies on `uuid::Uuid::new_v4`: a freshly drawn random identifier.
/// The value is random, so nothing is assumed of it. The call can fail
/// only if the operating system's random generator itself fails.
#[verifier::external_body]
pub(crate) fn new_uuid() -> uuid::Uuid {
    uuid::Uuid::new_v4()
}

} // verus!
