use vstd::prelude::*;

use crate::error::{DispatchError, DispatchOutcome, Error, PostDispatchInfo, spec_done};
use crate::event::RawEvent;
use move_core_types::language_storage::TypeTag;
use crate::gas::{GasLimit, get_move_gas_limit, spec_gas_limit};
use crate::origin::{AccountId, Origin, ensure_root, ensure_signed, spec_ensure_root, spec_ensure_signed};
use crate::tx::{
    ModuleSender, ModuleTx, ScriptTx, module_tx, script_tx, spec_core_code_address,
    spec_script_args, std_module_tx,
};

verus! {

/// The amount that the balance test deposits back to its caller.
pub const TEST_DEPOSIT: u128 = 9999999;

/// The dispatchable calls of the pallet, and the end-of-block hook.
#[derive(Debug, PartialEq, Eq)]
pub enum Call {
    /// Withdraws `balance` from the caller, then deposits `TEST_DEPOSIT` back.
    TransTest { origin: Origin, target: AccountId, balance: u128 },
    /// Runs a Move script signed by the caller.
    Execute { origin: Origin, script_bc: Vec<u8>, args: Option<Vec<u64>> },
    /// Publishes a Move module under the caller's address.
    Publish { origin: Origin, module_bc: Vec<u8> },
    /// Publishes a Move module at the standard library's address (root only).
    PublishStd { origin: Origin, module_bc: Vec<u8> },
    /// The end of block `block`: the VM's caches are cleared.
    Finalize { block: u64 },
}

/// The weight that each dispatchable call declares.
pub const CALL_WEIGHT: u64 = 10_000;

/// The weight declared for `call`: every dispatchable call declares
/// `CALL_WEIGHT`; the end-of-block hook is no dispatchable and declares none.
pub open spec fn spec_call_weight(call: Call) -> Option<u64> {
    match call {
        Call::Finalize { .. } => None,
        _ => Some(CALL_WEIGHT),
    }
}

/// The weight declared for a call.
pub fn call_weight(call: &Call) -> (w: Option<u64>)
    ensures
        w == spec_call_weight(*call),
{
    match call {
        Call::Finalize { .. } => None,
        _ => Some(CALL_WEIGHT),
    }
}

/// Where the pallet stands in the call it is serving.
#[derive(Debug, PartialEq, Eq)]
pub enum Phase {
    /// No call is being served.
    Idle,
    /// The balance test waits for the withdrawal from `who`.
    TransWithdraw { who: AccountId },
    /// The balance test waits for the deposit to `who`.
    TransDeposit { who: AccountId },
    /// The balance test waits for the settlement.
    TransSettle,
    /// `execute` waits for the VM.
    ExecuteVm { who: AccountId, script_bc: Vec<u8>, args: Option<Vec<u64>> },
    /// `execute` waits for the gas value.
    ExecuteGas { who: AccountId, script_bc: Vec<u8>, args: Option<Vec<u64>> },
    /// `execute` waits for the script transaction.
    ExecuteTx,
    /// `execute` waits for the script to run.
    ExecuteRun,
    /// `publish` waits for the VM.
    PublishVm { who: AccountId, module_bc: Vec<u8> },
    /// `publish` waits for the gas value.
    PublishGas { who: AccountId, module_bc: Vec<u8> },
    /// `publish` waits for the module to be published.
    PublishRun { who: AccountId },
    /// `publish_std` waits for the VM.
    PublishStdVm { module_bc: Vec<u8> },
    /// `publish_std` waits for the gas value.
    PublishStdGas { module_bc: Vec<u8> },
    /// `publish_std` waits for the module to be published.
    PublishStdRun,
    /// The end-of-block hook waits for the VM.
    FinalizeVm,
    /// The end-of-block hook waits for the VM's caches to be cleared.
    FinalizeClear,
}

/// What the runtime reports to the pallet: a new call, or the result of the
/// outside work that the pallet asked for last.
#[derive(Debug, PartialEq, Eq)]
pub enum Input {
    Dispatch(Call),
    /// Whether the Move VM could be had (taken from its cache or created).
    VmReady(bool),
    /// Whether the VM accepted the gas limit.
    GasReady(bool),
    /// Whether the VM accepted the script transaction.
    TxReady(bool),
    /// The outcome of running the transaction, as the VM's result maps it.
    Ran(DispatchOutcome),
    VmCleared,
    Withdrawn(Result<(), DispatchError>),
    Deposited,
    /// Whether the deposit could be settled; the pallet goes on either way.
    Settled(bool),
}

/// The outside work that the pallet asks the runtime for next.
#[derive(Debug, PartialEq, Eq)]
pub enum Action {
    /// Take the Move VM from its cache, creating it on first use.
    GetOrCreateVm,
    /// Build the VM's gas value from this limit.
    MakeGas(GasLimit),
    /// Build this script transaction.
    MakeScriptTx(ScriptTx),
    /// Run the script transaction under the gas value built before.
    ExecuteScript,
    /// Publish this module under the gas value built before.
    PublishModule(ModuleTx),
    /// Clear the VM's caches.
    ClearVm,
    /// Withdraw `amount` from `who` for a transfer, allowing the account to die.
    Withdraw { who: AccountId, amount: u128 },
    /// Deposit `amount` to `who`, creating the account if need be.
    DepositCreating { who: AccountId, amount: u128 },
    /// Settle the deposit just made against `who`.
    Settle { who: AccountId },
    /// The call is over, with this outcome.
    Finish(DispatchOutcome),
    /// The input does not fit where the pallet stands; nothing changes.
    Ignore,
}

/// The call is over with outcome `r`: the pallet is idle again.
pub open spec fn finishes(next: Phase, action: Action, r: DispatchOutcome) -> bool {
    &&& next == Phase::Idle
    &&& action == Action::Finish(r)
}

/// Where a call goes once its origin is accepted: straight to the gas value
/// when the VM was had before (`gas_phase`), else to asking for the VM
/// (`vm_phase`).
pub open spec fn to_vm_or_gas(
    vm_ready: bool,
    vm_phase: Phase,
    gas_phase: Phase,
    next: Phase,
    action: Action,
) -> bool {
    if vm_ready {
        next == gas_phase && action == Action::MakeGas(spec_gas_limit())
    } else {
        next == vm_phase && action == Action::GetOrCreateVm
    }
}

/// How an idle pallet starts serving `call`: it checks the origin first, and
/// then asks for the VM, unless it had the VM before (or, in the balance
/// test, asks for the withdrawal).
pub open spec fn dispatch_rel(vm_ready: bool, call: Call, next: Phase, action: Action) -> bool {
    match call {
        Call::TransTest { origin, target, balance } => match spec_ensure_signed(origin) {
            Ok(who) => next == (Phase::TransWithdraw { who }) && action == (Action::Withdraw {
                who,
                amount: balance,
            }),
            Err(e) => finishes(next, action, Err(e)),
        },
        Call::Execute { origin, script_bc, args } => match spec_ensure_signed(origin) {
            Ok(who) => to_vm_or_gas(
                vm_ready,
                Phase::ExecuteVm { who, script_bc, args },
                Phase::ExecuteGas { who, script_bc, args },
                next,
                action,
            ),
            Err(e) => finishes(next, action, Err(e)),
        },
        Call::Publish { origin, module_bc } => match spec_ensure_signed(origin) {
            Ok(who) => to_vm_or_gas(
                vm_ready,
                Phase::PublishVm { who, module_bc },
                Phase::PublishGas { who, module_bc },
                next,
                action,
            ),
            Err(e) => finishes(next, action, Err(e)),
        },
        Call::PublishStd { origin, module_bc } => match spec_ensure_root(origin) {
            Ok(_) => to_vm_or_gas(
                vm_ready,
                Phase::PublishStdVm { module_bc },
                Phase::PublishStdGas { module_bc },
                next,
                action,
            ),
            Err(e) => finishes(next, action, Err(e)),
        },
        Call::Finalize { block } => if vm_ready {
            next == Phase::FinalizeClear && action == Action::ClearVm
        } else {
            next == Phase::FinalizeVm && action == Action::GetOrCreateVm
        },
    }
}

/// The outcome of a call whose VM could not be had.
pub open spec fn vm_failed() -> DispatchOutcome {
    Err(DispatchError::Module(Error::InvalidVMConfig))
}

/// The outcome of a call whose gas limit the VM refused.
pub open spec fn gas_failed() -> DispatchOutcome {
    Err(DispatchError::Module(Error::InvalidGasAmountMaxValue))
}

/// The outcome of a call whose script transaction the VM refused.
pub open spec fn tx_failed() -> DispatchOutcome {
    Err(DispatchError::Module(Error::ScriptValidationError))
}

/// One step of the pallet: standing at `phase`, having had the VM before
/// when `vm_ready`, and given `input`, it moves to `next` and asks for
/// `action`.
pub open spec fn step_rel(
    vm_ready: bool,
    phase: Phase,
    input: Input,
    next: Phase,
    action: Action,
) -> bool {
    match (phase, input) {
        (Phase::Idle, Input::Dispatch(call)) => dispatch_rel(vm_ready, call, next, action),
        (Phase::TransWithdraw { who }, Input::Withdrawn(r)) => match r {
            Ok(_) => next == (Phase::TransDeposit { who }) && action == (Action::DepositCreating {
                who,
                amount: TEST_DEPOSIT,
            }),
            Err(e) => finishes(next, action, Err(e)),
        },
        (Phase::TransDeposit { who }, Input::Deposited) => next == Phase::TransSettle && action
            == (Action::Settle { who }),
        (Phase::TransSettle, Input::Settled(_)) => finishes(next, action, spec_done()),
        (Phase::ExecuteVm { who, script_bc, args }, Input::VmReady(ok)) => if ok {
            next == (Phase::ExecuteGas { who, script_bc, args }) && action == Action::MakeGas(
                spec_gas_limit(),
            )
        } else {
            finishes(next, action, vm_failed())
        },
        (Phase::ExecuteGas { who, script_bc, args }, Input::GasReady(ok)) => if ok {
            &&& next == Phase::ExecuteTx
            &&& action matches Action::MakeScriptTx(tx)
            &&& tx.script_bc == script_bc
            &&& tx.args@ == spec_script_args(args)
            &&& tx.senders@ == seq![who]
            &&& tx.type_args@ == Seq::<TypeTag>::empty()
        } else {
            finishes(next, action, gas_failed())
        },
        (Phase::ExecuteTx, Input::TxReady(ok)) => if ok {
            next == Phase::ExecuteRun && action == Action::ExecuteScript
        } else {
            finishes(next, action, tx_failed())
        },
        (Phase::ExecuteRun, Input::Ran(r)) => finishes(next, action, r),
        (Phase::PublishVm { who, module_bc }, Input::VmReady(ok)) => if ok {
            next == (Phase::PublishGas { who, module_bc }) && action == Action::MakeGas(
                spec_gas_limit(),
            )
        } else {
            finishes(next, action, vm_failed())
        },
        (Phase::PublishGas { who, module_bc }, Input::GasReady(ok)) => if ok {
            next == (Phase::PublishRun { who }) && action == Action::PublishModule(
                ModuleTx { module_bc, sender: ModuleSender::Account(who) },
            )
        } else {
            finishes(next, action, gas_failed())
        },
        (Phase::PublishRun { who }, Input::Ran(r)) => finishes(next, action, r),
        (Phase::PublishStdVm { module_bc }, Input::VmReady(ok)) => if ok {
            next == (Phase::PublishStdGas { module_bc }) && action == Action::MakeGas(
                spec_gas_limit(),
            )
        } else {
            finishes(next, action, vm_failed())
        },
        (Phase::PublishStdGas { module_bc }, Input::GasReady(ok)) => if ok {
            &&& next == Phase::PublishStdRun
            &&& action matches Action::PublishModule(tx)
            &&& tx.module_bc == module_bc
            &&& tx.sender matches ModuleSender::Address(a)
            &&& a@ == spec_core_code_address()
        } else {
            finishes(next, action, gas_failed())
        },
        (Phase::PublishStdRun, Input::Ran(r)) => finishes(next, action, r),
        (Phase::FinalizeVm, Input::VmReady(ok)) => ok && next == Phase::FinalizeClear && action
            == Action::ClearVm,
        (Phase::FinalizeClear, Input::VmCleared) => finishes(next, action, spec_done()),
        (p, _) => next == p && action == Action::Ignore,
    }
}

/// The events that one step records: a publication, when the VM ran a
/// publication successfully; nothing otherwise.
pub open spec fn emitted(phase: Phase, input: Input) -> Seq<RawEvent> {
    match (phase, input) {
        (Phase::PublishRun { who }, Input::Ran(Ok(_))) => seq![RawEvent::ModulePublished(who)],
        (Phase::PublishStdRun, Input::Ran(Ok(_))) => seq![RawEvent::StdModulePublished],
        _ => Seq::empty(),
    }
}

/// Whether the pallet has had the VM after the step: a VM, once had, stays;
/// it is had from the first time the runtime reports it ready while the
/// pallet waits for it; a failed creation leaves it unhad.
pub open spec fn vm_after(vm_ready: bool, phase: Phase, input: Input) -> bool {
    vm_ready || (input == Input::VmReady(true) && (phase is ExecuteVm || phase is PublishVm
        || phase is PublishStdVm || phase is FinalizeVm))
}

/// The end-of-block hook cannot go on without a VM: the runtime stops there.
pub open spec fn halts(phase: Phase, input: Input) -> bool {
    phase == Phase::FinalizeVm && input == Input::VmReady(false)
}

/// How an idle pallet starts serving `call`.
fn start(vm_ready: bool, call: Call) -> (r: (Phase, Action))
    ensures
        dispatch_rel(vm_ready, call, r.0, r.1),
{
    match call {
        Call::TransTest { origin, target: _, balance } => match ensure_signed(origin) {
            Ok(who) => (Phase::TransWithdraw { who }, Action::Withdraw { who, amount: balance }),
            Err(e) => (Phase::Idle, Action::Finish(Err(e))),
        },
        Call::Execute { origin, script_bc, args } => match ensure_signed(origin) {
            Ok(who) => if vm_ready {
                (Phase::ExecuteGas { who, script_bc, args }, Action::MakeGas(get_move_gas_limit()))
            } else {
                (Phase::ExecuteVm { who, script_bc, args }, Action::GetOrCreateVm)
            },
            Err(e) => (Phase::Idle, Action::Finish(Err(e))),
        },
        Call::Publish { origin, module_bc } => match ensure_signed(origin) {
            Ok(who) => if vm_ready {
                (Phase::PublishGas { who, module_bc }, Action::MakeGas(get_move_gas_limit()))
            } else {
                (Phase::PublishVm { who, module_bc }, Action::GetOrCreateVm)
            },
            Err(e) => (Phase::Idle, Action::Finish(Err(e))),
        },
        Call::PublishStd { origin, module_bc } => match ensure_root(origin) {
            Ok(_) => if vm_ready {
                (Phase::PublishStdGas { module_bc }, Action::MakeGas(get_move_gas_limit()))
            } else {
                (Phase::PublishStdVm { module_bc }, Action::GetOrCreateVm)
            },
            Err(e) => (Phase::Idle, Action::Finish(Err(e))),
        },
        Call::Finalize { block: _ } => if vm_ready {
            (Phase::FinalizeClear, Action::ClearVm)
        } else {
            (Phase::FinalizeVm, Action::GetOrCreateVm)
        },
    }
}

/// One step of the pallet; the third result is the event it records, if any,
/// and the fourth whether the pallet has had the VM after it.
pub fn step(vm_ready: bool, phase: Phase, input: Input) -> (r: (Phase, Action, Option<RawEvent>, bool))
    requires
        !halts(phase, input),
    ensures
        step_rel(vm_ready, phase, input, r.0, r.1),
        r.3 == vm_after(vm_ready, phase, input),
        emitted(phase, input) == match r.2 {
            Some(ev) => seq![ev],
            None => Seq::<RawEvent>::empty(),
        },
{
    match (phase, input) {
        (Phase::Idle, Input::Dispatch(call)) => {
            let (next, action) = start(vm_ready, call);
            (next, action, None, vm_ready)
        },
        (Phase::TransWithdraw { who }, Input::Withdrawn(r)) => match r {
            Ok(_) => (
                Phase::TransDeposit { who },
                Action::DepositCreating { who, amount: TEST_DEPOSIT },
                None,
                vm_ready,
            ),
            Err(e) => (Phase::Idle, Action::Finish(Err(e)), None, vm_ready),
        },
        (Phase::TransDeposit { who }, Input::Deposited) => (
            Phase::TransSettle,
            Action::Settle { who },
            None,
            vm_ready,
        ),
        (Phase::TransSettle, Input::Settled(_)) => (
            Phase::Idle,
            Action::Finish(Ok(PostDispatchInfo { actual_weight: None })),
            None,
            vm_ready,
        ),
        (Phase::ExecuteVm { who, script_bc, args }, Input::VmReady(ok)) => if ok {
            (Phase::ExecuteGas { who, script_bc, args }, Action::MakeGas(get_move_gas_limit()), None, true)
        } else {
            (Phase::Idle, Action::Finish(Err(DispatchError::Module(Error::InvalidVMConfig))), None, vm_ready)
        },
        (Phase::ExecuteGas { who, script_bc, args }, Input::GasReady(ok)) => if ok {
            (Phase::ExecuteTx, Action::MakeScriptTx(script_tx(who, script_bc, args)), None, vm_ready)
        } else {
            (
                Phase::Idle,
                Action::Finish(Err(DispatchError::Module(Error::InvalidGasAmountMaxValue))),
                None,
                vm_ready,
            )
        },
        (Phase::ExecuteTx, Input::TxReady(ok)) => if ok {
            (Phase::ExecuteRun, Action::ExecuteScript, None, vm_ready)
        } else {
            (
                Phase::Idle,
                Action::Finish(Err(DispatchError::Module(Error::ScriptValidationError))),
                None,
                vm_ready,
            )
        },
        (Phase::ExecuteRun, Input::Ran(r)) => (Phase::Idle, Action::Finish(r), None, vm_ready),
        (Phase::PublishVm { who, module_bc }, Input::VmReady(ok)) => if ok {
            (Phase::PublishGas { who, module_bc }, Action::MakeGas(get_move_gas_limit()), None, true)
        } else {
            (Phase::Idle, Action::Finish(Err(DispatchError::Module(Error::InvalidVMConfig))), None, vm_ready)
        },
        (Phase::PublishGas { who, module_bc }, Input::GasReady(ok)) => if ok {
            (Phase::PublishRun { who }, Action::PublishModule(module_tx(who, module_bc)), None, vm_ready)
        } else {
            (
                Phase::Idle,
                Action::Finish(Err(DispatchError::Module(Error::InvalidGasAmountMaxValue))),
                None,
                vm_ready,
            )
        },
        (Phase::PublishRun { who }, Input::Ran(r)) => match r {
            Ok(info) => (
                Phase::Idle,
                Action::Finish(Ok(info)),
                Some(RawEvent::ModulePublished(who)),
                vm_ready,
            ),
            Err(e) => (Phase::Idle, Action::Finish(Err(e)), None, vm_ready),
        },
        (Phase::PublishStdVm { module_bc }, Input::VmReady(ok)) => if ok {
            (Phase::PublishStdGas { module_bc }, Action::MakeGas(get_move_gas_limit()), None, true)
        } else {
            (Phase::Idle, Action::Finish(Err(DispatchError::Module(Error::InvalidVMConfig))), None, vm_ready)
        },
        (Phase::PublishStdGas { module_bc }, Input::GasReady(ok)) => if ok {
            (Phase::PublishStdRun, Action::PublishModule(std_module_tx(module_bc)), None, vm_ready)
        } else {
            (
                Phase::Idle,
                Action::Finish(Err(DispatchError::Module(Error::InvalidGasAmountMaxValue))),
                None,
                vm_ready,
            )
        },
        (Phase::PublishStdRun, Input::Ran(r)) => match r {
            Ok(info) => (Phase::Idle, Action::Finish(Ok(info)), Some(RawEvent::StdModulePublished), vm_ready),
            Err(e) => (Phase::Idle, Action::Finish(Err(e)), None, vm_ready),
        },
        (Phase::FinalizeVm, Input::VmReady(_)) => (Phase::FinalizeClear, Action::ClearVm, None, true),
        (Phase::FinalizeClear, Input::VmCleared) => (
            Phase::Idle,
            Action::Finish(Ok(PostDispatchInfo { actual_weight: None })),
            None,
            vm_ready,
        ),
        (p, _) => (p, Action::Ignore, None, vm_ready),
    }
}

} // verus!
