//! Event keys: the 64-bit routing address derived from an event descriptor.

use vstd::prelude::*;
use vstd::std_specs::hash::DefaultHasherAdditionalSpecFns;
use std::collections::hash_map::DefaultHasher;
use std::hash::{Hash, Hasher};

verus! {

/// `Hash::hash`: lets the descriptor write itself into the hasher. What a
/// descriptor writes is up to its own `Hash` implementation, so nothing is
/// claimed of the hasher's state afterwards.
#[verifier::external_body]
fn feed<T: Hash>(event: &T, state: &mut DefaultHasher) {
    event.hash(state)
}

/// The key of an event descriptor: the digest of what the descriptor writes
/// into a fresh `DefaultHasher`.
///
/// What is written is the descriptor's own business, so the key is known
/// only as the digest of some sequence of writes. Descriptors that hash
/// alike get the same key; distinct descriptors may collide, and nothing
/// here detects that.
pub fn event_key<T: Hash>(event: &T) -> (key: u64)
    ensures
        exists|written: Seq<Seq<u8>>| key == #[trigger] DefaultHasher::spec_finish(written),
{
    let mut hasher = DefaultHasher::new();
    feed(event, &mut hasher);
    hasher.finish()
}

} // verus!
