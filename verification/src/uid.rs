use vstd::prelude::*;
use uuid::Uuid;

verus! {

/// A random identifier from `Uuid::new_v4`, as the `u128` whose big-endian
/// bytes are the uuid's little-endian bytes (so that identifiers compare as
/// their byte arrays do). The uuid is random: nothing is stated of it.
#[verifier::external_body]
pub(crate) fn new_uid() -> (uid: u128) {
    u128::from_be_bytes(Uuid::new_v4().to_bytes_le())
}

} // verus!
