use vstd::prelude::*;

verus! {

/// The limits under which every transaction of the pallet is run by the Move VM.
#[derive(Clone, Copy, Debug, PartialEq, Eq)]
pub struct GasLimit {
    pub max_gas_amount: u64,
    pub gas_unit_price: u64,
}

/// The largest amount of gas a transaction may use: a thousandth of `u64::MAX`,
/// less a margin of 42 units.
pub open spec fn spec_max_gas_amount() -> int {
    u64::MAX as int / 1000 - 42
}

/// The price of one unit of gas.
pub open spec fn spec_gas_unit_price() -> int {
    1
}

/// The gas limit of every transaction of the pallet.
pub open spec fn spec_gas_limit() -> GasLimit {
    GasLimit {
        max_gas_amount: spec_max_gas_amount() as u64,
        gas_unit_price: spec_gas_unit_price() as u64,
    }
}

/// The gas limit that the pallet asks the VM to run each transaction under.
pub fn get_move_gas_limit() -> (limit: GasLimit)
    ensures
        limit.max_gas_amount == spec_max_gas_amount(),
        limit.gas_unit_price == spec_gas_unit_price(),
        limit == spec_gas_limit(),
{
    let max_gas_amount: u64 = (u64::MAX / 1000) - 42;
    let gas_unit_price: u64 = 1;
    GasLimit { max_gas_amount, gas_unit_price }
}

} // verus!
