//! The typed requests that reach the registry, and its one reply.

use vstd::prelude::*;

use crate::state::texts;

verus! {

/// What the host tells of the call in progress: the identity of the account
/// that sent the message. `init` records it as the owner; nothing else ever
/// looks at it.
#[derive(Debug, PartialEq, Eq)]
pub struct Env {
    pub sender: String,
}

impl Clone for Env {
    fn clone(&self) -> (res: Self)
        ensures
            res == *self,
    {
        Env { sender: self.sender.clone() }
    }
}

/// Creates the registry with its first address.
#[derive(Debug, PartialEq, Eq)]
pub struct InitMsg {
    pub ipfs_address: String,
}

impl Clone for InitMsg {
    fn clone(&self) -> (res: Self)
        ensures
            res == *self,
    {
        InitMsg { ipfs_address: self.ipfs_address.clone() }
    }
}

/// The requests that change the registry.
#[derive(Debug, PartialEq, Eq)]
pub enum HandleMsg {
    /// Adds one address at the end of the list.
    AddFileAddress { ipfs_address: String },
}

impl Clone for HandleMsg {
    fn clone(&self) -> (res: Self)
        ensures
            res == *self,
    {
        match self {
            HandleMsg::AddFileAddress { ipfs_address } => HandleMsg::AddFileAddress {
                ipfs_address: ipfs_address.clone(),
            },
        }
    }
}

/// The requests that only read the registry.
#[derive(Clone, Copy, Debug, PartialEq, Eq)]
pub enum QueryMsg {
    /// Asks for every address, oldest first.
    ListAll {},
}

/// The answer to `QueryMsg::ListAll`.
#[derive(Debug, PartialEq, Eq)]
pub struct FileAddressResponse {
    pub address_registry: Vec<String>,
}

impl View for FileAddressResponse {
    type V = Seq<Seq<char>>;

    open spec fn view(&self) -> Seq<Seq<char>> {
        texts(self.address_registry@)
    }
}

impl Clone for FileAddressResponse {
    fn clone(&self) -> (res: Self)
        ensures
            res@ == self@,
    {
        FileAddressResponse { address_registry: self.address_registry.clone() }
    }
}

} // verus!
