//! Authorization gate: mutations require the caller to be the owner.

use vstd::prelude::*;
use crate::errors::ErrorCode;
use crate::identity::Identity;

verus! {

/// A mutation request is authorized exactly when the proven signer is
/// the identity stored as the record's owner.
pub open spec fn is_authorized(signer: Identity, owner: Identity) -> bool {
    signer == owner
}

/// Reject a mutation whose signer is not the stored owner. Runs before
/// any field is mutated, so a rejection leaves no partial side effects.
pub fn check_owner(signer: &Identity, owner: &Identity) -> (r: Result<(), ErrorCode>)
    ensures
        r is Ok <==> is_authorized(*signer, *owner),
        r is Err ==> r == Err::<(), ErrorCode>(ErrorCode::Unauthorized),
{
    let same = signer == owner;
    proof {
        crate::identity::lemma_identity_eq_is_byte_eq(*signer, *owner);
    }
    if same {
        Ok(())
    } else {
        Err(ErrorCode::Unauthorized)
    }
}

} // verus!
