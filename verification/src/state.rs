//! The persisted record and the storage slot that holds it.

use vstd::prelude::*;

use crate::error::ContractError;
use crate::model::{StateView, SlotView};

verus! {

/// The text of each string of `strings`, in order.
pub open spec fn texts(strings: Seq<String>) -> Seq<Seq<char>> {
    Seq::new(strings.len(), |i: int| strings[i]@)
}

/// The registry's record.
#[derive(Debug, PartialEq, Eq)]
pub struct State {
    /// The account that created the registry.
    pub owner: String,
    /// The addresses, oldest first. Duplicates and empty strings are kept.
    pub address_registry: Vec<String>,
}

impl View for State {
    type V = StateView;

    open spec fn view(&self) -> StateView {
        StateView { owner: self.owner@, address_registry: texts(self.address_registry@) }
    }
}

impl Clone for State {
    fn clone(&self) -> (res: Self)
        ensures
            res@ == self@,
    {
        State { owner: self.owner.clone(), address_registry: self.address_registry.clone() }
    }
}

/// The one storage slot of a registry, as a load finds it.
#[derive(Debug, PartialEq, Eq)]
pub enum Slot {
    /// No record was saved yet.
    Uninitialized,
    /// The slot holds bytes that do not decode to a record.
    Corrupt,
    /// The slot holds this record.
    Active(State),
}

impl View for Slot {
    type V = SlotView;

    open spec fn view(&self) -> SlotView {
        match self {
            Slot::Uninitialized => SlotView::Uninitialized,
            Slot::Corrupt => SlotView::Corrupt,
            Slot::Active(state) => SlotView::Active(state@),
        }
    }
}

impl Clone for Slot {
    fn clone(&self) -> (res: Self)
        ensures
            res@ == self@,
    {
        match self {
            Slot::Uninitialized => Slot::Uninitialized,
            Slot::Corrupt => Slot::Corrupt,
            Slot::Active(state) => Slot::Active(state.clone()),
        }
    }
}

impl Slot {
    /// A slot in which nothing was saved yet.
    pub fn new() -> (slot: Slot)
        ensures
            slot == Slot::Uninitialized,
    {
        Slot::Uninitialized
    }

    /// The record in the slot.
    pub fn load(&self) -> (res: Result<&State, ContractError>)
        ensures
            match *self {
                Slot::Uninitialized => res == Err::<&State, _>(ContractError::StateNotFound),
                Slot::Corrupt => res == Err::<&State, _>(ContractError::SerializationError),
                Slot::Active(state) => res == Ok::<_, ContractError>(&state),
            },
    {
        match self {
            Slot::Uninitialized => Err(ContractError::StateNotFound),
            Slot::Corrupt => Err(ContractError::SerializationError),
            Slot::Active(state) => Ok(state),
        }
    }

    /// Puts `state` in the slot, in place of whatever it held.
    pub fn save(&mut self, state: State)
        ensures
            *final(self) == Slot::Active(state),
    {
        *self = Slot::Active(state);
    }
}

} // verus!
