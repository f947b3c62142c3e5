use vstd::prelude::*;

use crate::account::AccountId;

verus! {

/// The outcome of checking a request's signer against the identity that the
/// requested operation demands.
#[derive(Clone, Copy, PartialEq, Eq, Structural, Debug)]
pub enum Authorization {
    Authorized,
    Unauthorized,
}

/// A request is authorized exactly when the signer that submitted it is the
/// required identity: the depositor itself for a deposit, the vault's stored
/// authority for a withdrawal or a lock toggle.
pub fn verify(request_signer: AccountId, required: AccountId) -> (r: Authorization)
    ensures
        r == Authorization::Authorized <==> request_signer == required,
{
    if request_signer == required {
        Authorization::Authorized
    } else {
        Authorization::Unauthorized
    }
}

} // verus!
