use vstd::prelude::*;

use move_core_types::language_storage::TypeTag;

use crate::origin::AccountId;

verus! {

/// The Move type tag of an event that a script emits; the pallet carries it
/// through unread.
#[verifier::external_type_specification]
#[verifier::external_body]
pub struct ExTypeTag(TypeTag);

/// An event that the Move VM emits while it runs a script.
#[derive(Debug, PartialEq, Eq)]
pub struct MoveEventArguments {
    pub guid: Vec<u8>,
    pub seq_num: u64,
    pub ty_tag: TypeTag,
    pub message: Vec<u8>,
}

/// The events that the pallet records.
#[derive(Debug, PartialEq, Eq)]
pub enum RawEvent {
    /// An event of a Move script: its guid, sequence number, type and message.
    Event(Vec<u8>, u64, TypeTag, Vec<u8>),
    /// A module was published by the given account.
    ModulePublished(AccountId),
    /// A module was published at the standard library's address.
    StdModulePublished,
}

/// The pallet event that records a Move event.
pub open spec fn spec_move_event(e: MoveEventArguments) -> RawEvent {
    RawEvent::Event(e.guid, e.seq_num, e.ty_tag, e.message)
}

/// Turns a Move event into the pallet event that records it, field for field.
pub fn move_event(e: MoveEventArguments) -> (ev: RawEvent)
    ensures
        ev == spec_move_event(e),
{
    RawEvent::Event(e.guid, e.seq_num, e.ty_tag, e.message)
}

} // verus!
