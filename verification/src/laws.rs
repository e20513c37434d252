use vstd::prelude::*;

use crate::dispatch::{Action, Call, Input, Phase, emitted, spec_call_weight, step_rel, vm_after};
use crate::error::{DispatchError, DispatchOutcome, Error, PostDispatchInfo};
use crate::event::{MoveEventArguments, RawEvent, spec_move_event};
use crate::gas::{GasLimit, spec_gas_limit};
use crate::origin::{AccountId, Origin, spec_ensure_root, spec_ensure_signed};
use crate::tx::{ModuleSender, ModuleTx, ScriptArg, ScriptTx, spec_script_args};

verus! {

/// Only a signed account may run a script, publish a module or run the
/// balance test, and only the root origin may publish at the standard
/// library's address: any other origin ends the call at once with
/// `BadOrigin`, before any outside work and without an event.
pub proof fn law_origin_is_checked_first(vm_ready: bool, call: Call, next: Phase, action: Action)
    requires
        step_rel(vm_ready, Phase::Idle, Input::Dispatch(call), next, action),
    ensures
        call matches Call::PublishStd { origin, .. } && origin != Origin::Root ==> (next == Phase::Idle && action == Action::Finish(Err(DispatchError::BadOrigin))),
        call matches Call::Publish { origin, .. } && !(origin is Signed) ==> (next == Phase::Idle && action == Action::Finish(Err(DispatchError::BadOrigin))),
        call matches Call::Execute { origin, .. } && !(origin is Signed) ==> (next == Phase::Idle && action == Action::Finish(Err(DispatchError::BadOrigin))),
        call matches Call::TransTest { origin, .. } && !(origin is Signed) ==> (next == Phase::Idle && action == Action::Finish(Err(DispatchError::BadOrigin))),
        emitted(Phase::Idle, Input::Dispatch(call)) == Seq::<RawEvent>::empty(),
{
}

/// A step records an event only when the VM reports that a publication
/// succeeded: `ModulePublished` with the publishing account, or
/// `StdModulePublished`. It never records more than one.
pub proof fn law_events_only_for_successful_publications(phase: Phase, input: Input)
    ensures
        emitted(phase, input).len() <= 1,
        emitted(phase, input).len() == 1 <==> ((phase is PublishRun || phase is PublishStdRun)
            && input matches Input::Ran(Ok(_))),
        phase matches Phase::PublishRun { who } ==> (input matches Input::Ran(Ok(_)) ==> emitted(
            phase,
            input,
        ) == seq![RawEvent::ModulePublished(who)]),
        (phase is PublishStdRun && input matches Input::Ran(Ok(_))) ==> emitted(phase, input)
            == seq![RawEvent::StdModulePublished],
{
}

/// Every transaction is run under the same gas limit: a thousandth of
/// `u64::MAX` less 42 units, at a unit price of 1.
pub proof fn law_gas_limit_is_fixed(
    vm_ready: bool,
    phase: Phase,
    input: Input,
    next: Phase,
    limit: GasLimit,
)
    requires
        step_rel(vm_ready, phase, input, next, Action::MakeGas(limit)),
    ensures
        limit == spec_gas_limit(),
        limit.max_gas_amount == u64::MAX / 1000 - 42,
        limit.gas_unit_price == 1,
{
}

/// A call is over exactly when the pallet is idle again: a step that ends
/// the call leaves the pallet idle, and a step that leaves the pallet idle
/// ends the call, unless it ignored its input.
pub proof fn law_finish_returns_to_idle(
    vm_ready: bool,
    phase: Phase,
    input: Input,
    next: Phase,
    action: Action,
)
    requires
        step_rel(vm_ready, phase, input, next, action),
    ensures
        action is Finish ==> next == Phase::Idle,
        next == Phase::Idle && !(action is Ignore) ==> action is Finish,
{
}

/// An input that does not fit where the pallet stands changes nothing and
/// asks for nothing; in particular an idle pallet ignores everything but a
/// new call.
pub proof fn law_unfit_input_is_ignored(
    vm_ready: bool,
    phase: Phase,
    input: Input,
    next: Phase,
    action: Action,
)
    requires
        step_rel(vm_ready, phase, input, next, action),
    ensures
        action is Ignore ==> next == phase && emitted(phase, input) == Seq::<RawEvent>::empty(),
        phase == Phase::Idle && !(input is Dispatch) ==> action is Ignore && next == Phase::Idle,
{
}

/// Once outside work fails (no VM, gas refused, transaction refused, the
/// withdrawal or the run failed), the call ends with that failure and the
/// pallet asks for no further work.
pub proof fn law_failure_ends_the_call(
    vm_ready: bool,
    phase: Phase,
    input: Input,
    next: Phase,
    action: Action,
)
    requires
        step_rel(vm_ready, phase, input, next, action),
        !(phase is FinalizeVm),
        input == Input::VmReady(false) || input == Input::GasReady(false) || input
            == Input::TxReady(false) || input matches Input::Ran(Err(_)) || input matches Input::Withdrawn(Err(_)),
        !(action is Ignore),
    ensures
        next == Phase::Idle,
        action matches Action::Finish(Err(_)),
        input == Input::VmReady(false) ==> action == Action::Finish(
            Err(DispatchError::Module(Error::InvalidVMConfig)),
        ),
        input == Input::GasReady(false) ==> action == Action::Finish(
            Err(DispatchError::Module(Error::InvalidGasAmountMaxValue)),
        ),
        input == Input::TxReady(false) ==> action == Action::Finish(
            Err(DispatchError::Module(Error::ScriptValidationError)),
        ),
        input matches Input::Ran(Err(e)) ==> action == Action::Finish(Err(e)),
        input matches Input::Withdrawn(Err(e)) ==> action == Action::Finish(Err(e)),
        emitted(phase, input) == Seq::<RawEvent>::empty(),
{
}

/// The first publication by a signed account whose outside steps all
/// succeed asks for the VM, then for the gas value, then publishes the module under the
/// account's address, ends with the VM's outcome and records
/// `ModulePublished` for the account.
pub proof fn law_successful_publication(
    who: AccountId,
    module_bc: Vec<u8>,
    info: PostDispatchInfo,
    p1: Phase,
    a1: Action,
    p2: Phase,
    a2: Action,
    p3: Phase,
    a3: Action,
    p4: Phase,
    a4: Action,
)
    requires
        step_rel(
            false,
            Phase::Idle,
            Input::Dispatch(Call::Publish { origin: Origin::Signed(who), module_bc }),
            p1,
            a1,
        ),
        step_rel(false, p1, Input::VmReady(true), p2, a2),
        step_rel(true, p2, Input::GasReady(true), p3, a3),
        step_rel(true, p3, Input::Ran(Ok(info)), p4, a4),
    ensures
        a1 == Action::GetOrCreateVm,
        a2 == Action::MakeGas(spec_gas_limit()),
        a3 == Action::PublishModule(ModuleTx { module_bc, sender: ModuleSender::Account(who) }),
        a4 == Action::Finish(Ok(info)),
        p4 == Phase::Idle,
        emitted(p3, Input::Ran(Ok(info))) == seq![RawEvent::ModulePublished(who)],
{
}

/// The first publication by the root origin whose outside steps all succeed
/// publishes the module at the standard library's address and records
/// `StdModulePublished`.
pub proof fn law_successful_std_publication(
    module_bc: Vec<u8>,
    info: PostDispatchInfo,
    p1: Phase,
    a1: Action,
    p2: Phase,
    a2: Action,
    p3: Phase,
    a3: Action,
    p4: Phase,
    a4: Action,
)
    requires
        step_rel(
            false,
            Phase::Idle,
            Input::Dispatch(Call::PublishStd { origin: Origin::Root, module_bc }),
            p1,
            a1,
        ),
        step_rel(false, p1, Input::VmReady(true), p2, a2),
        step_rel(true, p2, Input::GasReady(true), p3, a3),
        step_rel(true, p3, Input::Ran(Ok(info)), p4, a4),
    ensures
        a1 == Action::GetOrCreateVm,
        a2 == Action::MakeGas(spec_gas_limit()),
        a3 matches Action::PublishModule(tx) && tx.module_bc == module_bc && (tx.sender matches ModuleSender::Address(a)
            && is_core_code_address(a)),
        a4 == Action::Finish(Ok(info)),
        p4 == Phase::Idle,
        emitted(p3, Input::Ran(Ok(info))) == seq![RawEvent::StdModulePublished],
{
}

/// The first script run by a signed account asks for the VM, then for the gas
/// value, then for a transaction of the script whose arguments are the
/// call's arguments in order (none when it gives none) and whose only
/// signer is the account, then runs it and ends with the VM's outcome,
/// recording no event of its own.
pub proof fn law_script_execution(
    who: AccountId,
    script_bc: Vec<u8>,
    args: Option<Vec<u64>>,
    r: DispatchOutcome,
    p1: Phase,
    a1: Action,
    p2: Phase,
    a2: Action,
    p3: Phase,
    a3: Action,
    p4: Phase,
    a4: Action,
    p5: Phase,
    a5: Action,
)
    requires
        step_rel(
            false,
            Phase::Idle,
            Input::Dispatch(Call::Execute { origin: Origin::Signed(who), script_bc, args }),
            p1,
            a1,
        ),
        step_rel(false, p1, Input::VmReady(true), p2, a2),
        step_rel(true, p2, Input::GasReady(true), p3, a3),
        step_rel(true, p3, Input::TxReady(true), p4, a4),
        step_rel(true, p4, Input::Ran(r), p5, a5),
    ensures
        a1 == Action::GetOrCreateVm,
        a2 == Action::MakeGas(spec_gas_limit()),
        a3 matches Action::MakeScriptTx(tx) && script_tx_is(tx, who, script_bc, args),
        a4 == Action::ExecuteScript,
        a5 == Action::Finish(r),
        p5 == Phase::Idle,
        emitted(p4, Input::Ran(r)) == Seq::<RawEvent>::empty(),
{
}

/// Whether or not the VM was had, the balance test withdraws exactly the
/// given balance from the signed caller, then deposits 9999999 back to the caller and settles it, and ends
/// successfully whether or not the settlement went through.
pub proof fn law_balance_test(
    vm_ready: bool,
    who: AccountId,
    target: AccountId,
    balance: u128,
    settled: bool,
    p1: Phase,
    a1: Action,
    p2: Phase,
    a2: Action,
    p3: Phase,
    a3: Action,
    p4: Phase,
    a4: Action,
)
    requires
        step_rel(
            vm_ready,
            Phase::Idle,
            Input::Dispatch(Call::TransTest { origin: Origin::Signed(who), target, balance }),
            p1,
            a1,
        ),
        step_rel(vm_ready, p1, Input::Withdrawn(Ok(())), p2, a2),
        step_rel(vm_ready, p2, Input::Deposited, p3, a3),
        step_rel(vm_ready, p3, Input::Settled(settled), p4, a4),
    ensures
        a1 == (Action::Withdraw { who, amount: balance }),
        a2 == (Action::DepositCreating { who, amount: 9999999u128 }),
        a3 == (Action::Settle { who }),
        a4 == Action::Finish(Ok(PostDispatchInfo { actual_weight: None })),
        p4 == Phase::Idle,
{
}

/// At the end of the first block the pallet takes the VM and clears its
/// caches.
pub proof fn law_finalize_clears_vm(
    block: u64,
    p1: Phase,
    a1: Action,
    p2: Phase,
    a2: Action,
    p3: Phase,
    a3: Action,
)
    requires
        step_rel(false, Phase::Idle, Input::Dispatch(Call::Finalize { block }), p1, a1),
        step_rel(false, p1, Input::VmReady(true), p2, a2),
        step_rel(true, p2, Input::VmCleared, p3, a3),
    ensures
        a1 == Action::GetOrCreateVm,
        a2 == Action::ClearVm,
        a3 == Action::Finish(Ok(PostDispatchInfo { actual_weight: None })),
        p3 == Phase::Idle,
{
}

/// A VM, once had, stays had, whatever comes next.
pub proof fn law_vm_once_had_stays(phase: Phase, input: Input)
    ensures
        vm_after(true, phase, input),
{
}

/// The VM is had from the first time the runtime reports it ready while the
/// pallet waits for it; a failed creation is not kept, so the next call asks
/// again.
pub proof fn law_vm_had_on_first_success(phase: Phase)
    ensures
        (phase is ExecuteVm || phase is PublishVm || phase is PublishStdVm || phase is FinalizeVm)
            ==> vm_after(false, phase, Input::VmReady(true)),
        !vm_after(false, phase, Input::VmReady(false)),
{
}

/// Once the VM was had, no call asks for it again: the pallet goes straight
/// to the gas value (or, at the end of a block, to clearing the VM), so a
/// later call cannot fail for want of a VM.
pub proof fn law_had_vm_is_not_asked_again(call: Call, next: Phase, action: Action)
    requires
        step_rel(true, Phase::Idle, Input::Dispatch(call), next, action),
    ensures
        action != Action::GetOrCreateVm,
        !(next is ExecuteVm || next is PublishVm || next is PublishStdVm || next is FinalizeVm),
        call matches Call::Finalize { .. } ==> next == Phase::FinalizeClear && action
            == Action::ClearVm,
{
}

/// A later publication by a signed account, once the VM was had, goes
/// straight to the gas value, publishes the module under the account's
/// address and, when it succeeds, records `ModulePublished` for the account.
pub proof fn law_later_publication(
    who: AccountId,
    module_bc: Vec<u8>,
    info: PostDispatchInfo,
    p1: Phase,
    a1: Action,
    p2: Phase,
    a2: Action,
    p3: Phase,
    a3: Action,
)
    requires
        step_rel(
            true,
            Phase::Idle,
            Input::Dispatch(Call::Publish { origin: Origin::Signed(who), module_bc }),
            p1,
            a1,
        ),
        step_rel(true, p1, Input::GasReady(true), p2, a2),
        step_rel(true, p2, Input::Ran(Ok(info)), p3, a3),
    ensures
        a1 == Action::MakeGas(spec_gas_limit()),
        a2 == Action::PublishModule(ModuleTx { module_bc, sender: ModuleSender::Account(who) }),
        a3 == Action::Finish(Ok(info)),
        p3 == Phase::Idle,
        emitted(p2, Input::Ran(Ok(info))) == seq![RawEvent::ModulePublished(who)],
{
}

/// Every dispatchable call declares a weight of 10_000; the end-of-block
/// hook declares none.
pub proof fn law_declared_weight(call: Call)
    ensures
        call is Finalize ==> spec_call_weight(call) is None,
        !(call is Finalize) ==> spec_call_weight(call) == Some(10_000u64),
{
}

/// A run of the pallet: at each index `i` below the length of `inputs`, the
/// pallet stood at `phases[i]` with the had-VM flag `flags[i]`, took
/// `inputs[i]`, asked for `actions[i]` and moved to `phases[i + 1]` with the
/// flag `flags[i + 1]`.
pub open spec fn is_run(
    flags: Seq<bool>,
    phases: Seq<Phase>,
    inputs: Seq<Input>,
    actions: Seq<Action>,
) -> bool {
    &&& flags.len() == inputs.len() + 1
    &&& phases.len() == inputs.len() + 1
    &&& actions.len() == inputs.len()
    &&& forall|i: int|
        0 <= i < inputs.len() ==> {
            &&& step_rel(flags[i], phases[i], inputs[i], #[trigger] phases[i + 1], actions[i])
            &&& flags[i + 1] == vm_after(flags[i], phases[i], inputs[i])
        }
}

proof fn lemma_flag_stays(flags: Seq<bool>, phases: Seq<Phase>, inputs: Seq<Input>, actions: Seq<Action>, i: int, j: int)
    requires
        is_run(flags, phases, inputs, actions),
        0 <= i <= j < flags.len(),
        flags[i],
    ensures
        flags[j],
    decreases j - i,
{
    if i < j {
        assert(step_rel(flags[i], phases[i], inputs[i], phases[i + 1], actions[i]));
        lemma_flag_stays(flags, phases, inputs, actions, i + 1, j);
    }
}

/// Over any run of the pallet the had-VM flag only moves from unset to set,
/// never back: it is set on a step exactly when the runtime reported the VM
/// ready while the pallet waited for it; a reported failure leaves it unset,
/// so the next call asks for the VM again (no call goes on to the gas value
/// or to clearing the VM while it is unset); and while it is set, no call
/// asks for the VM.
pub proof fn law_vm_flag_over_runs(
    flags: Seq<bool>,
    phases: Seq<Phase>,
    inputs: Seq<Input>,
    actions: Seq<Action>,
)
    requires
        is_run(flags, phases, inputs, actions),
    ensures
        forall|i: int, j: int| 0 <= i <= j < flags.len() && #[trigger] flags[i] ==> #[trigger] flags[j],
        forall|i: int|
            0 <= i < inputs.len() && !flags[i] && #[trigger] flags[i + 1] ==> inputs[i]
                == Input::VmReady(true) && (phases[i] is ExecuteVm || phases[i] is PublishVm
                || phases[i] is PublishStdVm || phases[i] is FinalizeVm),
        forall|i: int|
            0 <= i < inputs.len() && !flags[i] && #[trigger] inputs[i] == Input::VmReady(false)
                ==> !flags[i + 1],
        forall|i: int|
            0 <= i < inputs.len() && flags[i] && #[trigger] phases[i] == Phase::Idle ==> actions[i]
                != Action::GetOrCreateVm,
        forall|i: int|
            0 <= i < inputs.len() && !flags[i] && #[trigger] phases[i] == Phase::Idle ==> !(
            actions[i] is MakeGas) && !(actions[i] is ClearVm),
{
    assert forall|i: int|
        0 <= i < inputs.len() && !flags[i] && #[trigger] phases[i] == Phase::Idle implies !(
        actions[i] is MakeGas) && !(actions[i] is ClearVm) by {
        assert(step_rel(flags[i], phases[i], inputs[i], phases[i + 1], actions[i]));
    }
    assert forall|i: int, j: int| 0 <= i <= j < flags.len() && #[trigger] flags[i] implies #[trigger] flags[j] by {
        lemma_flag_stays(flags, phases, inputs, actions, i, j);
    }
    assert forall|i: int|
        0 <= i < inputs.len() && flags[i] && #[trigger] phases[i] == Phase::Idle implies actions[i]
            != Action::GetOrCreateVm by {
        assert(step_rel(flags[i], phases[i], inputs[i], phases[i + 1], actions[i]));
    }
    assert forall|i: int|
        0 <= i < inputs.len() && !flags[i] && #[trigger] flags[i + 1] implies inputs[i]
            == Input::VmReady(true) && (phases[i] is ExecuteVm || phases[i] is PublishVm
            || phases[i] is PublishStdVm || phases[i] is FinalizeVm) by {
        assert(step_rel(flags[i], phases[i], inputs[i], phases[i + 1], actions[i]));
    }
    assert forall|i: int|
        0 <= i < inputs.len() && !flags[i] && #[trigger] inputs[i] == Input::VmReady(false)
            implies !flags[i + 1] by {
        assert(step_rel(flags[i], phases[i], inputs[i], phases[i + 1], actions[i]));
    }
}

/// `tx` is the script transaction of an `execute` by `who`: the script's
/// bytecode as given; as many arguments as the call gave, each the call's
/// argument at the same index as a `u64` argument with its value unchanged
/// (none when the call gave none); no type arguments; `who` as its only
/// signer.
pub open spec fn script_tx_is(tx: ScriptTx, who: AccountId, script_bc: Vec<u8>, args: Option<Vec<u64>>) -> bool {
    &&& tx.script_bc == script_bc
    &&& match args {
        Some(v) => {
            &&& tx.args@.len() == v@.len()
            &&& forall|i: int| 0 <= i < v@.len() ==> #[trigger] tx.args@[i] == ScriptArg::U64(v@[i])
        },
        None => tx.args@.len() == 0,
    }
    &&& tx.type_args@.len() == 0
    &&& tx.senders@.len() == 1
    &&& tx.senders@[0] == who
}

/// The script arguments of a call are as many as the call's arguments, each
/// the call's argument at the same index as a `u64` argument with its value
/// unchanged; a call without arguments gives none.
pub proof fn law_script_args_keep_each_value(v: Vec<u64>)
    ensures
        spec_script_args(Some(v)).len() == v@.len(),
        forall|i: int| 0 <= i < v@.len() ==> #[trigger] spec_script_args(Some(v))[i] == ScriptArg::U64(v@[i]),
        spec_script_args(None).len() == 0,
{
}

/// The pallet event that records a Move event carries the Move event's guid,
/// sequence number, type tag and message, each in its own place.
pub proof fn law_move_event_fields(e: MoveEventArguments)
    ensures
        spec_move_event(e) matches RawEvent::Event(guid, seq_num, ty_tag, message) && guid == e.guid
            && seq_num == e.seq_num && ty_tag == e.ty_tag && message == e.message,
{
}

/// A script run by a signed account once the VM was had goes straight to the
/// gas value, then asks for the script transaction of the call (its
/// arguments in order and unchanged, no type arguments, the account as only
/// signer), runs it and ends with the VM's outcome, recording nothing.
pub proof fn law_later_script_execution(
    who: AccountId,
    script_bc: Vec<u8>,
    args: Option<Vec<u64>>,
    r: DispatchOutcome,
    p1: Phase,
    a1: Action,
    p2: Phase,
    a2: Action,
    p3: Phase,
    a3: Action,
    p4: Phase,
    a4: Action,
)
    requires
        step_rel(
            true,
            Phase::Idle,
            Input::Dispatch(Call::Execute { origin: Origin::Signed(who), script_bc, args }),
            p1,
            a1,
        ),
        step_rel(true, p1, Input::GasReady(true), p2, a2),
        step_rel(true, p2, Input::TxReady(true), p3, a3),
        step_rel(true, p3, Input::Ran(r), p4, a4),
    ensures
        a1 matches Action::MakeGas(l) && l.max_gas_amount == u64::MAX / 1000 - 42
            && l.gas_unit_price == 1,
        a2 matches Action::MakeScriptTx(tx) && script_tx_is(tx, who, script_bc, args),
        a3 == Action::ExecuteScript,
        a4 == Action::Finish(r),
        p4 == Phase::Idle,
        emitted(p3, Input::Ran(r)) == Seq::<RawEvent>::empty(),
{
}

/// `a` is the standard library's address: fifteen zero bytes and a one.
pub open spec fn is_core_code_address(a: [u8; 16]) -> bool {
    &&& a@.len() == 16
    &&& forall|i: int| 0 <= i < 15 ==> #[trigger] a@[i] == 0u8
    &&& a@[15] == 1u8
}

/// A publication at the standard library's address by the root origin, once
/// the VM was had, goes straight to the gas value, publishes the module at
/// the standard library's address, ends with the VM's outcome and, on
/// success, records `StdModulePublished`; on failure it records nothing.
pub proof fn law_later_std_publication(
    module_bc: Vec<u8>,
    r: DispatchOutcome,
    p1: Phase,
    a1: Action,
    p2: Phase,
    a2: Action,
    p3: Phase,
    a3: Action,
)
    requires
        step_rel(
            true,
            Phase::Idle,
            Input::Dispatch(Call::PublishStd { origin: Origin::Root, module_bc }),
            p1,
            a1,
        ),
        step_rel(true, p1, Input::GasReady(true), p2, a2),
        step_rel(true, p2, Input::Ran(r), p3, a3),
    ensures
        a1 matches Action::MakeGas(l) && l.max_gas_amount == u64::MAX / 1000 - 42
            && l.gas_unit_price == 1,
        a2 matches Action::PublishModule(tx) && tx.module_bc == module_bc && (tx.sender matches ModuleSender::Address(a)
            && is_core_code_address(a)),
        a3 == Action::Finish(r),
        p3 == Phase::Idle,
        r is Ok ==> emitted(p2, Input::Ran(r)) == seq![RawEvent::StdModulePublished],
        r is Err ==> emitted(p2, Input::Ran(r)) == Seq::<RawEvent>::empty(),
{
}

/// A signed origin gives back exactly the account that signed it; the root
/// and the unsigned origins are refused with `BadOrigin`.
pub proof fn law_ensure_signed(origin: Origin, who: AccountId)
    ensures
        spec_ensure_signed(origin) == Ok::<AccountId, DispatchError>(who) <==> origin == Origin::Signed(who),
        !(origin is Signed) ==> spec_ensure_signed(origin) == Err::<AccountId, DispatchError>(DispatchError::BadOrigin),
{
}

/// Only the root origin is accepted as root; every other origin is refused
/// with `BadOrigin`.
pub proof fn law_ensure_root(origin: Origin)
    ensures
        spec_ensure_root(origin) is Ok <==> origin == Origin::Root,
        origin != Origin::Root ==> spec_ensure_root(origin) == Err::<(), DispatchError>(DispatchError::BadOrigin),
{
}

} // verus!
