use move_core_types::language_storage::TypeTag;
use sp_mvm::dispatch::{call_weight, Action, Call, Input, Phase, CALL_WEIGHT, TEST_DEPOSIT};
use sp_mvm::error::{DispatchError, Error, PostDispatchInfo};
use sp_mvm::event::{MoveEventArguments, RawEvent};
use sp_mvm::gas::{get_move_gas_limit, GasLimit};
use sp_mvm::origin::{ensure_root, ensure_signed, AccountId, Origin};
use sp_mvm::pallet::MovePallet;
use sp_mvm::tx::{script_args, ModuleSender, ModuleTx, ScriptArg, ScriptTx};

const ALICE: AccountId = AccountId([7u8; 32]);

fn core_address() -> [u8; 16] {
    let mut a = [0u8; 16];
    a[15] = 1;
    a
}

fn expected_gas() -> GasLimit {
    GasLimit { max_gas_amount: 18_446_744_073_709_509, gas_unit_price: 1 }
}

fn weight(w: u64) -> PostDispatchInfo {
    PostDispatchInfo { actual_weight: Some(w) }
}

#[test]
fn gas_limit_is_a_thousandth_of_max_less_42() {
    let g = get_move_gas_limit();
    assert_eq!(g.max_gas_amount, u64::MAX / 1000 - 42);
    assert_eq!(g, expected_gas());
}

#[test]
fn ensure_signed_accepts_only_signed() {
    assert_eq!(ensure_signed(Origin::Signed(ALICE)), Ok(ALICE));
    assert_eq!(ensure_signed(Origin::Root), Err(DispatchError::BadOrigin));
    assert_eq!(ensure_signed(Origin::Unsigned), Err(DispatchError::BadOrigin));
}

#[test]
fn ensure_root_accepts_only_root() {
    assert_eq!(ensure_root(Origin::Root), Ok(()));
    assert_eq!(ensure_root(Origin::Signed(ALICE)), Err(DispatchError::BadOrigin));
    assert_eq!(ensure_root(Origin::Unsigned), Err(DispatchError::BadOrigin));
}

#[test]
fn script_args_keep_order_and_default_to_none() {
    assert_eq!(script_args(None), vec![]);
    assert_eq!(script_args(Some(vec![])), vec![]);
    assert_eq!(
        script_args(Some(vec![3, 1, 2])),
        vec![ScriptArg::U64(3), ScriptArg::U64(1), ScriptArg::U64(2)]
    );
}

#[test]
fn publish_by_signed_account_records_module_published() {
    let mut p = MovePallet::new();
    let a = p.handle(Input::Dispatch(Call::Publish {
        origin: Origin::Signed(ALICE),
        module_bc: vec![1, 2, 3],
    }));
    assert_eq!(a, Action::GetOrCreateVm);
    assert_eq!(p.handle(Input::VmReady(true)), Action::MakeGas(expected_gas()));
    assert_eq!(
        p.handle(Input::GasReady(true)),
        Action::PublishModule(ModuleTx {
            module_bc: vec![1, 2, 3],
            sender: ModuleSender::Account(ALICE)
        })
    );
    assert!(p.events().is_empty());
    assert_eq!(p.handle(Input::Ran(Ok(weight(5)))), Action::Finish(Ok(weight(5))));
    assert_eq!(p.events(), &vec![RawEvent::ModulePublished(ALICE)]);
    assert_eq!(p.phase(), &Phase::Idle);
}

#[test]
fn failed_publication_records_nothing() {
    let mut p = MovePallet::new();
    p.handle(Input::Dispatch(Call::Publish { origin: Origin::Signed(ALICE), module_bc: vec![9] }));
    p.handle(Input::VmReady(true));
    p.handle(Input::GasReady(true));
    let a = p.handle(Input::Ran(Err(DispatchError::Other(4001))));
    assert_eq!(a, Action::Finish(Err(DispatchError::Other(4001))));
    assert!(p.events().is_empty());
    assert_eq!(p.phase(), &Phase::Idle);
}

#[test]
fn publish_std_goes_to_the_core_code_address() {
    let mut p = MovePallet::new();
    assert_eq!(
        p.handle(Input::Dispatch(Call::PublishStd { origin: Origin::Root, module_bc: vec![4] })),
        Action::GetOrCreateVm
    );
    assert_eq!(p.handle(Input::VmReady(true)), Action::MakeGas(expected_gas()));
    assert_eq!(
        p.handle(Input::GasReady(true)),
        Action::PublishModule(ModuleTx {
            module_bc: vec![4],
            sender: ModuleSender::Address(core_address())
        })
    );
    assert_eq!(p.handle(Input::Ran(Ok(weight(1)))), Action::Finish(Ok(weight(1))));
    assert_eq!(p.events(), &vec![RawEvent::StdModulePublished]);
}

#[test]
fn publish_std_refuses_a_signed_account() {
    let mut p = MovePallet::new();
    let a = p.handle(Input::Dispatch(Call::PublishStd {
        origin: Origin::Signed(ALICE),
        module_bc: vec![4],
    }));
    assert_eq!(a, Action::Finish(Err(DispatchError::BadOrigin)));
    assert_eq!(p.phase(), &Phase::Idle);
    assert!(p.events().is_empty());
}

#[test]
fn publish_and_execute_refuse_root_and_unsigned() {
    for origin in [Origin::Root, Origin::Unsigned] {
        let mut p = MovePallet::new();
        let a = p.handle(Input::Dispatch(Call::Publish { origin, module_bc: vec![] }));
        assert_eq!(a, Action::Finish(Err(DispatchError::BadOrigin)));
        let a = p.handle(Input::Dispatch(Call::Execute {
            origin,
            script_bc: vec![],
            args: None,
        }));
        assert_eq!(a, Action::Finish(Err(DispatchError::BadOrigin)));
        let a = p.handle(Input::Dispatch(Call::TransTest {
            origin,
            target: ALICE,
            balance: 1,
        }));
        assert_eq!(a, Action::Finish(Err(DispatchError::BadOrigin)));
        assert_eq!(p.phase(), &Phase::Idle);
    }
}

#[test]
fn execute_builds_the_script_transaction() {
    let mut p = MovePallet::new();
    p.handle(Input::Dispatch(Call::Execute {
        origin: Origin::Signed(ALICE),
        script_bc: vec![0xa1, 0x1c],
        args: Some(vec![10, 20]),
    }));
    assert_eq!(p.handle(Input::VmReady(true)), Action::MakeGas(expected_gas()));
    assert_eq!(
        p.handle(Input::GasReady(true)),
        Action::MakeScriptTx(ScriptTx {
            script_bc: vec![0xa1, 0x1c],
            args: vec![ScriptArg::U64(10), ScriptArg::U64(20)],
            type_args: vec![],
            senders: vec![ALICE],
        })
    );
    assert_eq!(p.handle(Input::TxReady(true)), Action::ExecuteScript);
    assert_eq!(p.handle(Input::Ran(Ok(weight(77)))), Action::Finish(Ok(weight(77))));
    assert!(p.events().is_empty());
}

#[test]
fn execute_without_args_gives_no_arguments() {
    let mut p = MovePallet::new();
    p.handle(Input::Dispatch(Call::Execute {
        origin: Origin::Signed(ALICE),
        script_bc: vec![5],
        args: None,
    }));
    p.handle(Input::VmReady(true));
    assert_eq!(
        p.handle(Input::GasReady(true)),
        Action::MakeScriptTx(ScriptTx {
            script_bc: vec![5],
            args: vec![],
            type_args: vec![],
            senders: vec![ALICE]
        })
    );
}

#[test]
fn missing_vm_is_invalid_vm_config() {
    let mut p = MovePallet::new();
    p.handle(Input::Dispatch(Call::Execute {
        origin: Origin::Signed(ALICE),
        script_bc: vec![5],
        args: None,
    }));
    assert_eq!(
        p.handle(Input::VmReady(false)),
        Action::Finish(Err(DispatchError::Module(Error::InvalidVMConfig)))
    );
    assert_eq!(p.phase(), &Phase::Idle);
}

#[test]
fn refused_gas_is_invalid_gas_amount() {
    let mut p = MovePallet::new();
    p.handle(Input::Dispatch(Call::Publish { origin: Origin::Signed(ALICE), module_bc: vec![] }));
    p.handle(Input::VmReady(true));
    assert_eq!(
        p.handle(Input::GasReady(false)),
        Action::Finish(Err(DispatchError::Module(Error::InvalidGasAmountMaxValue)))
    );
    assert!(p.events().is_empty());
}

#[test]
fn refused_script_is_script_validation_error() {
    let mut p = MovePallet::new();
    p.handle(Input::Dispatch(Call::Execute {
        origin: Origin::Signed(ALICE),
        script_bc: vec![5],
        args: Some(vec![1]),
    }));
    p.handle(Input::VmReady(true));
    p.handle(Input::GasReady(true));
    assert_eq!(
        p.handle(Input::TxReady(false)),
        Action::Finish(Err(DispatchError::Module(Error::ScriptValidationError)))
    );
    assert_eq!(p.phase(), &Phase::Idle);
}

#[test]
fn unfit_inputs_are_ignored() {
    let mut p = MovePallet::new();
    assert_eq!(p.handle(Input::VmReady(true)), Action::Ignore);
    assert_eq!(p.handle(Input::Ran(Ok(weight(1)))), Action::Ignore);
    assert_eq!(p.phase(), &Phase::Idle);
    p.handle(Input::Dispatch(Call::Publish { origin: Origin::Signed(ALICE), module_bc: vec![] }));
    assert_eq!(p.handle(Input::GasReady(true)), Action::Ignore);
    assert_eq!(p.handle(Input::Dispatch(Call::Finalize { block: 1 })), Action::Ignore);
    assert_eq!(
        p.phase(),
        &Phase::PublishVm { who: ALICE, module_bc: vec![] }
    );
    assert!(p.events().is_empty());
}

#[test]
fn balance_test_withdraws_then_deposits() {
    let mut p = MovePallet::new();
    let bob = AccountId([2u8; 32]);
    assert_eq!(
        p.handle(Input::Dispatch(Call::TransTest {
            origin: Origin::Signed(ALICE),
            target: bob,
            balance: 500
        })),
        Action::Withdraw { who: ALICE, amount: 500 }
    );
    assert_eq!(
        p.handle(Input::Withdrawn(Ok(()))),
        Action::DepositCreating { who: ALICE, amount: 9_999_999 }
    );
    assert_eq!(TEST_DEPOSIT, 9_999_999);
    assert_eq!(p.handle(Input::Deposited), Action::Settle { who: ALICE });
    assert_eq!(
        p.handle(Input::Settled(false)),
        Action::Finish(Ok(PostDispatchInfo { actual_weight: None }))
    );
}

#[test]
fn balance_test_stops_when_withdrawal_fails() {
    let mut p = MovePallet::new();
    p.handle(Input::Dispatch(Call::TransTest {
        origin: Origin::Signed(ALICE),
        target: ALICE,
        balance: 500,
    }));
    assert_eq!(
        p.handle(Input::Withdrawn(Err(DispatchError::Other(3)))),
        Action::Finish(Err(DispatchError::Other(3)))
    );
    assert_eq!(p.phase(), &Phase::Idle);
}

#[test]
fn finalize_clears_the_vm() {
    let mut p = MovePallet::new();
    assert_eq!(p.handle(Input::Dispatch(Call::Finalize { block: 12 })), Action::GetOrCreateVm);
    assert_eq!(p.handle(Input::VmReady(true)), Action::ClearVm);
    assert_eq!(
        p.handle(Input::VmCleared),
        Action::Finish(Ok(PostDispatchInfo { actual_weight: None }))
    );
    assert_eq!(p.phase(), &Phase::Idle);
}

#[test]
fn move_events_are_recorded_in_order() {
    let mut p = MovePallet::new();
    p.deposit_move_event(MoveEventArguments {
        guid: vec![1],
        seq_num: 0,
        ty_tag: TypeTag::U64,
        message: vec![42],
    });
    p.deposit_move_event(MoveEventArguments {
        guid: vec![1],
        seq_num: 1,
        ty_tag: TypeTag::Bool,
        message: vec![],
    });
    assert_eq!(
        p.events(),
        &vec![
            RawEvent::Event(vec![1], 0, TypeTag::U64, vec![42]),
            RawEvent::Event(vec![1], 1, TypeTag::Bool, vec![]),
        ]
    );
}

#[test]
fn move_events_during_a_publication_come_first() {
    let mut p = MovePallet::new();
    p.handle(Input::Dispatch(Call::Publish { origin: Origin::Signed(ALICE), module_bc: vec![1] }));
    p.handle(Input::VmReady(true));
    p.handle(Input::GasReady(true));
    p.deposit_move_event(MoveEventArguments {
        guid: vec![],
        seq_num: 3,
        ty_tag: TypeTag::Address,
        message: vec![7],
    });
    p.handle(Input::Ran(Ok(weight(2))));
    assert_eq!(
        p.events(),
        &vec![
            RawEvent::Event(vec![], 3, TypeTag::Address, vec![7]),
            RawEvent::ModulePublished(ALICE),
        ]
    );
}

#[test]
fn a_had_vm_is_not_asked_for_again() {
    let mut p = MovePallet::new();
    assert!(!p.vm_ready());
    p.handle(Input::Dispatch(Call::Publish { origin: Origin::Signed(ALICE), module_bc: vec![1] }));
    p.handle(Input::VmReady(true));
    assert!(p.vm_ready());
    p.handle(Input::GasReady(true));
    p.handle(Input::Ran(Ok(weight(1))));
    assert_eq!(
        p.handle(Input::Dispatch(Call::Publish {
            origin: Origin::Signed(ALICE),
            module_bc: vec![2]
        })),
        Action::MakeGas(expected_gas())
    );
    assert_eq!(
        p.handle(Input::GasReady(true)),
        Action::PublishModule(ModuleTx { module_bc: vec![2], sender: ModuleSender::Account(ALICE) })
    );
    assert_eq!(p.handle(Input::Ran(Ok(weight(3)))), Action::Finish(Ok(weight(3))));
    assert_eq!(
        p.events(),
        &vec![RawEvent::ModulePublished(ALICE), RawEvent::ModulePublished(ALICE)]
    );
    assert_eq!(p.handle(Input::Dispatch(Call::Finalize { block: 2 })), Action::ClearVm);
    assert_eq!(
        p.handle(Input::VmCleared),
        Action::Finish(Ok(PostDispatchInfo { actual_weight: None }))
    );
    assert!(p.vm_ready());
}

#[test]
fn a_failed_vm_creation_is_tried_again() {
    let mut p = MovePallet::new();
    p.handle(Input::Dispatch(Call::Execute {
        origin: Origin::Signed(ALICE),
        script_bc: vec![5],
        args: None,
    }));
    p.handle(Input::VmReady(false));
    assert!(!p.vm_ready());
    assert_eq!(
        p.handle(Input::Dispatch(Call::Execute {
            origin: Origin::Signed(ALICE),
            script_bc: vec![5],
            args: None,
        })),
        Action::GetOrCreateVm
    );
}

#[test]
fn dispatchable_calls_declare_ten_thousand() {
    assert_eq!(CALL_WEIGHT, 10_000);
    let calls = vec![
        Call::TransTest { origin: Origin::Signed(ALICE), target: ALICE, balance: 1 },
        Call::Execute { origin: Origin::Signed(ALICE), script_bc: vec![], args: None },
        Call::Publish { origin: Origin::Signed(ALICE), module_bc: vec![] },
        Call::PublishStd { origin: Origin::Root, module_bc: vec![] },
    ];
    for c in &calls {
        assert_eq!(call_weight(c), Some(10_000));
    }
    assert_eq!(call_weight(&Call::Finalize { block: 3 }), None);
}

#[test]
fn run_events_come_before_the_publication_event() {
    let mut p = MovePallet::new();
    p.handle(Input::Dispatch(Call::PublishStd { origin: Origin::Root, module_bc: vec![1] }));
    p.handle(Input::VmReady(true));
    p.handle(Input::GasReady(true));
    let a = p.handle_run(
        Ok(weight(9)),
        vec![
            MoveEventArguments { guid: vec![1, 2], seq_num: 7, ty_tag: TypeTag::Bool, message: vec![3] },
            MoveEventArguments { guid: vec![4], seq_num: 8, ty_tag: TypeTag::U8, message: vec![] },
        ],
    );
    assert_eq!(a, Action::Finish(Ok(weight(9))));
    assert_eq!(
        p.events(),
        &vec![
            RawEvent::Event(vec![1, 2], 7, TypeTag::Bool, vec![3]),
            RawEvent::Event(vec![4], 8, TypeTag::U8, vec![]),
            RawEvent::StdModulePublished,
        ]
    );
}

#[test]
fn run_events_are_kept_when_the_run_fails() {
    let mut p = MovePallet::new();
    p.handle(Input::Dispatch(Call::Publish { origin: Origin::Signed(ALICE), module_bc: vec![1] }));
    p.handle(Input::VmReady(true));
    p.handle(Input::GasReady(true));
    let a = p.handle_run(
        Err(DispatchError::Other(2)),
        vec![MoveEventArguments { guid: vec![], seq_num: 0, ty_tag: TypeTag::U64, message: vec![5] }],
    );
    assert_eq!(a, Action::Finish(Err(DispatchError::Other(2))));
    assert_eq!(p.events(), &vec![RawEvent::Event(vec![], 0, TypeTag::U64, vec![5])]);
}
