//! Opaque 32-byte identities (public keys, record addresses).

use vstd::prelude::*;

verus! {

/// An opaque 32-byte identity: an account address, a public key, or a
/// derived record address. Only equality is ever asked of it.
#[derive(Clone, Copy, Debug)]
pub struct Identity {
    pub bytes: [u8; 32],
}

impl Identity {
    /// True when every byte is zero: the placeholder identity (e.g. a
    /// payment mint that has not been chosen yet, or a tree address
    /// before any tree exists).
    pub open spec fn is_placeholder(self) -> bool {
        forall|i: int| 0 <= i < 32 ==> self.bytes[i] == 0u8
    }
}

impl Default for Identity {
    /// The all-zero placeholder identity.
    fn default() -> (r: Identity)
        ensures
            r.is_placeholder(),
    {
        Identity { bytes: [0u8; 32] }
    }
}

impl PartialEq for Identity {
    fn eq(&self, other: &Identity) -> (r: bool) {
        let mut i: usize = 0;
        while i < 32
            invariant
                0 <= i <= 32,
                forall|k: int| 0 <= k < i ==> self.bytes[k] == other.bytes[k],
            decreases 32 - i,
        {
            if self.bytes[i] != other.bytes[i] {
                assert(self.bytes@ != other.bytes@);
                return false;
            }
            i += 1;
        }
        assert(self.bytes@ =~= other.bytes@);
        true
    }
}

impl Eq for Identity {}

impl vstd::std_specs::cmp::PartialEqSpecImpl for Identity {
    open spec fn obeys_eq_spec() -> bool {
        true
    }

    open spec fn eq_spec(&self, other: &Identity) -> bool {
        self.bytes@ == other.bytes@
    }
}

/// Two identities are the same value exactly when their byte views agree.
pub proof fn lemma_identity_eq_is_byte_eq(a: Identity, b: Identity)
    ensures
        (a == b) <==> (a.bytes@ == b.bytes@),
{
    if a.bytes@ == b.bytes@ {
        assert(a.bytes =~= b.bytes);
    }
}

} // verus!
