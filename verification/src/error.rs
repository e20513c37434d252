use vstd::prelude::*;

verus! {

/// The pallet's own errors.
#[derive(Clone, Copy, Debug, PartialEq, Eq)]
pub enum Error {
    /// The Move VM could not be created from the pallet's storage and event handler.
    InvalidVMConfig,
    /// The VM refused the pallet's gas limit.
    InvalidGasAmountMaxValue,
    /// The VM refused to build a transaction from the script and its arguments.
    ScriptValidationError,
}

/// Why a dispatchable call failed.
#[derive(Clone, Copy, Debug, PartialEq, Eq)]
pub enum DispatchError {
    /// The call came from an origin that it does not accept.
    BadOrigin,
    /// One of the pallet's own errors.
    Module(Error),
    /// An error raised outside the pallet (by the currency, or by the mapping of
    /// the VM's outcome), carried through by its code.
    Other(u64),
}

/// What a successful call reports about itself: the weight that the VM charged, if any.
#[derive(Clone, Copy, Debug, PartialEq, Eq)]
pub struct PostDispatchInfo {
    pub actual_weight: Option<u64>,
}

/// The outcome of one dispatchable call.
pub type DispatchOutcome = Result<PostDispatchInfo, DispatchError>;

/// The outcome of a call that did its work and reports no weight of its own.
pub open spec fn spec_done() -> DispatchOutcome {
    Ok(PostDispatchInfo { actual_weight: None })
}

} // verus!
