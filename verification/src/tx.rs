use vstd::prelude::*;

use move_core_types::language_storage::TypeTag;

use crate::origin::AccountId;

verus! {

/// An argument of a Move script.
#[derive(Clone, Copy, Debug, PartialEq, Eq)]
pub enum ScriptArg {
    U64(u64),
}

/// A script transaction as the pallet asks the VM to build it: the script's
/// bytecode, its arguments, its type arguments and its signers.
#[derive(Debug, PartialEq, Eq)]
pub struct ScriptTx {
    pub script_bc: Vec<u8>,
    pub args: Vec<ScriptArg>,
    pub type_args: Vec<TypeTag>,
    pub senders: Vec<AccountId>,
}

/// The address under which a module is published.
#[derive(Clone, Copy, Debug, PartialEq, Eq)]
pub enum ModuleSender {
    /// The address of the account that signed the call.
    Account(AccountId),
    /// A fixed Move address, by its bytes.
    Address([u8; 16]),
}

/// A module transaction: the module's bytecode and the address it is published under.
#[derive(Debug, PartialEq, Eq)]
pub struct ModuleTx {
    pub module_bc: Vec<u8>,
    pub sender: ModuleSender,
}

/// The script arguments made of the call's optional `u64` arguments: each one,
/// in order, as a `u64` argument; none at all when the call gives none.
pub open spec fn spec_script_args(args: Option<Vec<u64>>) -> Seq<ScriptArg> {
    match args {
        Some(v) => v@.map_values(|x: u64| ScriptArg::U64(x)),
        None => Seq::empty(),
    }
}

/// Builds the script arguments of a call.
pub fn script_args(args: Option<Vec<u64>>) -> (r: Vec<ScriptArg>)
    ensures
        r@ == spec_script_args(args),
{
    match args {
        None => Vec::new(),
        Some(v) => {
            let mut r: Vec<ScriptArg> = Vec::new();
            let n = v.len();
            for i in 0..n
                invariant
                    n == v.len(),
                    r@ == v@.take(i as int).map_values(|x: u64| ScriptArg::U64(x)),
            {
                r.push(ScriptArg::U64(v[i]));
                assert(v@.take(i + 1) =~= v@.take(i as int).push(v@[i as int]));
            }
            assert(v@.take(n as int) =~= v@);
            r
        },
    }
}

/// The bytes of the address at which the Move standard library lives:
/// fifteen zero bytes and a one.
pub open spec fn spec_core_code_address() -> Seq<u8> {
    seq![0u8, 0u8, 0u8, 0u8, 0u8, 0u8, 0u8, 0u8, 0u8, 0u8, 0u8, 0u8, 0u8, 0u8, 0u8, 1u8]
}

/// The bytes of `move_core_types::language_storage::CORE_CODE_ADDRESS`, which
/// that crate defines as `AccountAddress::new` of fifteen zero bytes and a one;
/// `into_bytes` hands back the bytes that `new` was given.
#[verifier::external_body]
fn core_code_address() -> (a: [u8; 16])
    ensures
        a@ == spec_core_code_address(),
{
    move_core_types::language_storage::CORE_CODE_ADDRESS.into_bytes()
}

/// The script transaction of an `execute` call by `who`.
pub fn script_tx(who: AccountId, script_bc: Vec<u8>, args: Option<Vec<u64>>) -> (tx: ScriptTx)
    ensures
        tx.script_bc == script_bc,
        tx.args@ == spec_script_args(args),
        tx.type_args@ == Seq::<TypeTag>::empty(),
        tx.senders@ == seq![who],
{
    let args = script_args(args);
    let type_args: Vec<TypeTag> = Vec::new();
    let mut senders: Vec<AccountId> = Vec::new();
    senders.push(who);
    ScriptTx { script_bc, args, type_args, senders }
}

/// The module transaction of a `publish` call by `who`.
pub fn module_tx(who: AccountId, module_bc: Vec<u8>) -> (tx: ModuleTx)
    ensures
        tx.module_bc == module_bc,
        tx.sender == ModuleSender::Account(who),
{
    ModuleTx { module_bc, sender: ModuleSender::Account(who) }
}

/// The module transaction of a `publish_std` call: the module goes to the
/// standard library's address.
pub fn std_module_tx(module_bc: Vec<u8>) -> (tx: ModuleTx)
    ensures
        tx.module_bc == module_bc,
        tx.sender matches ModuleSender::Address(a) && a@ == spec_core_code_address(),
{
    ModuleTx { module_bc, sender: ModuleSender::Address(core_code_address()) }
}

} // verus!
