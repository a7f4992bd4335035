//! The registry as a state machine over mathematical values.
//!
//! A storage slot is `Uninitialized` until `initialize` creates the record,
//! and `Active` from then on; nothing ever empties it again. `Corrupt` stands
//! for a slot whose bytes are there but cannot be read back as a record. Each
//! operation is a function from the slot before the call to either the slot
//! after it or the error that left it untouched.

use vstd::prelude::*;

use crate::error::ContractError;

verus! {

/// The persisted record: who created the registry, and the addresses in the
/// order in which they were added.
pub struct StateView {
    pub owner: Seq<char>,
    pub address_registry: Seq<Seq<char>>,
}

/// What the storage slot holds.
pub enum SlotView {
    /// Nothing was saved yet.
    Uninitialized,
    /// Something was saved that is no readable record.
    Corrupt,
    /// The record.
    Active(StateView),
}

/// One call of `append`: who made it, and the address to add.
pub struct AppendCall {
    pub caller: Seq<char>,
    pub address: Seq<char>,
}

impl SlotView {
    /// Creates the record with `caller` as owner and `first_address` as the
    /// only entry. Any slot that already holds something refuses.
    pub open spec fn initialize(self, caller: Seq<char>, first_address: Seq<char>) -> Result<
        SlotView,
        ContractError,
    > {
        match self {
            SlotView::Uninitialized => Ok(
                SlotView::Active(
                    StateView { owner: caller, address_registry: seq![first_address] },
                ),
            ),
            _ => Err(ContractError::StateAlreadyExists),
        }
    }

    /// Adds `address` behind the entries that are there. `caller` is part of
    /// the call and has no say in its outcome: nobody is turned away.
    pub open spec fn append(self, caller: Seq<char>, address: Seq<char>) -> Result<
        SlotView,
        ContractError,
    > {
        match self {
            SlotView::Uninitialized => Err(ContractError::StateNotFound),
            SlotView::Corrupt => Err(ContractError::SerializationError),
            SlotView::Active(state) => Ok(
                SlotView::Active(
                    StateView {
                        owner: state.owner,
                        address_registry: state.address_registry.push(address),
                    },
                ),
            ),
        }
    }

    /// The addresses in insertion order.
    pub open spec fn list(self) -> Result<Seq<Seq<char>>, ContractError> {
        match self {
            SlotView::Uninitialized => Err(ContractError::StateNotFound),
            SlotView::Corrupt => Err(ContractError::SerializationError),
            SlotView::Active(state) => Ok(state.address_registry),
        }
    }

    /// The slot after `calls` were made one after the other, the first of
    /// them first. A call that fails leaves the slot as it was.
    pub open spec fn append_all(self, calls: Seq<AppendCall>) -> SlotView
        decreases calls.len(),
    {
        if calls.len() == 0 {
            self
        } else {
            let before = self.append_all(calls.drop_last());
            match before.append(calls.last().caller, calls.last().address) {
                Ok(after) => after,
                Err(_) => before,
            }
        }
    }
}

/// The addresses of `calls`, in the order of the calls.
pub open spec fn addresses_of(calls: Seq<AppendCall>) -> Seq<Seq<char>> {
    Seq::new(calls.len(), |i: int| calls[i].address)
}

} // verus!
