use vstd::prelude::*;

use crate::error::DispatchError;

verus! {

/// An account of the chain, by its 32-byte public key.
#[derive(Clone, Copy, Debug, PartialEq, Eq)]
pub struct AccountId(pub [u8; 32]);

/// Who a dispatchable call comes from.
#[derive(Clone, Copy, Debug, PartialEq, Eq)]
pub enum Origin {
    /// The chain itself (sudo, governance).
    Root,
    /// A transaction signed by an account.
    Signed(AccountId),
    /// An unsigned transaction.
    Unsigned,
}

/// The account that signed `origin`, or `BadOrigin` when it is not signed.
pub open spec fn spec_ensure_signed(origin: Origin) -> Result<AccountId, DispatchError> {
    match origin {
        Origin::Signed(who) => Ok(who),
        _ => Err(DispatchError::BadOrigin),
    }
}

/// `Ok` when `origin` is the root origin, `BadOrigin` otherwise.
pub open spec fn spec_ensure_root(origin: Origin) -> Result<(), DispatchError> {
    match origin {
        Origin::Root => Ok(()),
        _ => Err(DispatchError::BadOrigin),
    }
}

/// Accepts a signed origin and gives back its account.
pub fn ensure_signed(origin: Origin) -> (r: Result<AccountId, DispatchError>)
    ensures
        r == spec_ensure_signed(origin),
{
    match origin {
        Origin::Signed(who) => Ok(who),
        _ => Err(DispatchError::BadOrigin),
    }
}

/// Accepts the root origin only.
pub fn ensure_root(origin: Origin) -> (r: Result<(), DispatchError>)
    ensures
        r == spec_ensure_root(origin),
{
    match origin {
        Origin::Root => Ok(()),
        _ => Err(DispatchError::BadOrigin),
    }
}

} // verus!
