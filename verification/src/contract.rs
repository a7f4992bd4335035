//! The operations of the registry on its storage slot.
//!
//! Each one loads the slot, decides, and saves at most once; one that fails
//! has written nothing.

use vstd::prelude::*;

use crate::error::ContractError;
use crate::msg::{Env, FileAddressResponse, HandleMsg, InitMsg, QueryMsg};
use crate::state::{texts, State, Slot};

verus! {

/// Creates the registry: the sender of the message becomes its owner and the
/// address in the message its first entry. A slot that already holds anything
/// is left alone and reported as `StateAlreadyExists`.
pub fn init(slot: &mut Slot, env: Env, msg: InitMsg) -> (res: Result<(), ContractError>)
    ensures
        match old(slot)@.initialize(env.sender@, msg.ipfs_address@) {
            Ok(created) => res is Ok && final(slot)@ == created,
            Err(e) => res == Err::<(), _>(e) && *final(slot) == *old(slot),
        },
{
    match slot {
        Slot::Uninitialized => {},
        _ => {
            return Err(ContractError::StateAlreadyExists);
        },
    }
    let mut initial_registry: Vec<String> = Vec::new();
    initial_registry.push(msg.ipfs_address);
    let state = State { owner: env.sender, address_registry: initial_registry };
    proof {
        assert(state@.address_registry =~= seq![msg.ipfs_address@]);
    }
    slot.save(state);
    Ok(())
}

/// Carries out a request that changes the registry.
pub fn handle(slot: &mut Slot, env: Env, msg: HandleMsg) -> (res: Result<(), ContractError>)
    ensures
        match msg {
            HandleMsg::AddFileAddress { ipfs_address } => match old(slot)@.append(
                env.sender@,
                ipfs_address@,
            ) {
                Ok(grown) => res is Ok && final(slot)@ == grown,
                Err(e) => res == Err::<(), _>(e) && *final(slot) == *old(slot),
            },
        },
{
    match msg {
        HandleMsg::AddFileAddress { ipfs_address } => try_add_file(slot, env, ipfs_address),
    }
}

/// Adds `ipfs_address` at the end of the list, whoever sent the message and
/// whatever the address is. Fails with `StateNotFound` before `init`, and
/// with `SerializationError` on a slot that cannot be read.
pub fn try_add_file(slot: &mut Slot, env: Env, ipfs_address: String) -> (res: Result<
    (),
    ContractError,
>)
    ensures
        match old(slot)@.append(env.sender@, ipfs_address@) {
            Ok(grown) => res is Ok && final(slot)@ == grown,
            Err(e) => res == Err::<(), _>(e) && *final(slot) == *old(slot),
        },
{
    match slot {
        Slot::Uninitialized => Err(ContractError::StateNotFound),
        Slot::Corrupt => Err(ContractError::SerializationError),
        Slot::Active(state) => {
            let ghost before = state.address_registry@;
            state.address_registry.push(ipfs_address);
            proof {
                assert(texts(state.address_registry@) =~= texts(before).push(ipfs_address@));
            }
            Ok(())
        },
    }
}

/// Answers a request that only reads the registry.
pub fn query(slot: &Slot, msg: QueryMsg) -> (res: Result<FileAddressResponse, ContractError>)
    ensures
        match msg {
            QueryMsg::ListAll {  } => match slot@.list() {
                Ok(addresses) => res matches Ok(response) && response@ == addresses,
                Err(e) => res == Err::<FileAddressResponse, _>(e),
            },
        },
{
    match msg {
        QueryMsg::ListAll {  } => query_file(slot),
    }
}

/// Every address of the registry, oldest first. Fails with `StateNotFound`
/// before `init`, and with `SerializationError` on a slot that cannot be
/// read.
pub fn query_file(slot: &Slot) -> (res: Result<FileAddressResponse, ContractError>)
    ensures
        match slot@.list() {
            Ok(addresses) => res matches Ok(response) && response@ == addresses,
            Err(e) => res == Err::<FileAddressResponse, _>(e),
        },
{
    let state = slot.load()?;
    Ok(FileAddressResponse { address_registry: state.address_registry.clone() })
}

} // verus!
