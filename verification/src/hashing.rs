use std::collections::hash_map::DefaultHasher;
use std::hash::{Hash, Hasher};
use vstd::prelude::*;
use vstd::std_specs::hash::DefaultHasherAdditionalSpecFns;

verus! {

/// `t.hash(state)`: feeds `t` to `state` as `t`'s `Hash` impl does. Nothing is
/// claimed of what is written: that is up to the impl of `T`.
#[verifier::external_body]
fn feed<T: Hash>(t: &T, state: &mut DefaultHasher) {
    t.hash(state);
}

/// The hash of `t` under a new `DefaultHasher`: `t` is fed to a fresh hasher,
/// whose digest is returned.
pub fn hash_one<T: Hash>(t: &T) -> (r: u64)
    ensures
        exists|writes: Seq<Seq<u8>>| r == DefaultHasher::spec_finish(writes),
{
    let mut s = DefaultHasher::new();
    feed(t, &mut s);
    let r = s.finish();
    assert(r == DefaultHasher::spec_finish(s@));
    r
}

} // verus!
