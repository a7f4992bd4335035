//! What holds of every history of calls, proved from the model.

use vstd::prelude::*;

use crate::error::ContractError;
use crate::model::{addresses_of, AppendCall, StateView, SlotView};

verus! {

/// A registry that was just created lists its first address and nothing
/// else.
pub proof fn lemma_init_then_list(caller: Seq<char>, first_address: Seq<char>)
    ensures
        SlotView::Uninitialized.initialize(caller, first_address) matches Ok(created)
            && created.list() == Ok::<Seq<Seq<char>>, ContractError>(seq![first_address]),
{
}

/// On a record, a run of appends all succeed: the owner stays who it was, and
/// the list is the old list followed by the new addresses in the order of the
/// calls, whoever made them and whether or not an address was there before.
pub proof fn lemma_appends_extend(state: StateView, calls: Seq<AppendCall>)
    ensures
        SlotView::Active(state).append_all(calls) == SlotView::Active(
            StateView {
                owner: state.owner,
                address_registry: state.address_registry + addresses_of(calls),
            },
        ),
    decreases calls.len(),
{
    if calls.len() == 0 {
        assert(state.address_registry + addresses_of(calls) =~= state.address_registry);
    } else {
        lemma_appends_extend(state, calls.drop_last());
        assert((state.address_registry + addresses_of(calls.drop_last())).push(
            calls.last().address,
        ) =~= state.address_registry + addresses_of(calls));
    }
}

/// After `initialize` and then any number of appends, `list` gives the first
/// address followed by the appended ones in the order of the calls: one entry
/// more than there were appends.
pub proof fn lemma_appends_keep_order(
    caller: Seq<char>,
    first_address: Seq<char>,
    calls: Seq<AppendCall>,
)
    ensures
        SlotView::Uninitialized.initialize(caller, first_address) matches Ok(created) && {
            let listed = created.append_all(calls).list();
            &&& listed == Ok::<Seq<Seq<char>>, ContractError>(
                seq![first_address] + addresses_of(calls),
            )
            &&& listed->Ok_0.len() == calls.len() + 1
            &&& listed->Ok_0[0] == first_address
            &&& forall|i: int| 0 <= i < calls.len() ==> listed->Ok_0[i + 1] == calls[i].address
        },
{
    let state = StateView { owner: caller, address_registry: seq![first_address] };
    lemma_appends_extend(state, calls);
}

/// An append on a record succeeds for every caller, the owner or anyone
/// else, and the outcome is the same for all of them: the owner is kept and
/// the address shows at the end of the list.
pub proof fn lemma_append_open_to_all(
    slot: SlotView,
    caller: Seq<char>,
    other: Seq<char>,
    address: Seq<char>,
)
    requires
        slot is Active,
    ensures
        slot.append(caller, address) == slot.append(other, address),
        slot.append(caller, address) matches Ok(grown) && {
            &&& grown is Active
            &&& grown->Active_0.owner == slot->Active_0.owner
            &&& grown.list() == Ok::<Seq<Seq<char>>, ContractError>(
                slot->Active_0.address_registry.push(address),
            )
        },
{
}

/// Before `initialize`, `append` and `list` both fail with `StateNotFound`.
pub proof fn lemma_nothing_before_init(caller: Seq<char>, address: Seq<char>)
    ensures
        SlotView::Uninitialized.append(caller, address) == Err::<SlotView, ContractError>(
            ContractError::StateNotFound,
        ),
        SlotView::Uninitialized.list() == Err::<Seq<Seq<char>>, ContractError>(
            ContractError::StateNotFound,
        ),
{
}

/// Once `initialize` has succeeded, every later `initialize` fails with
/// `StateAlreadyExists`, also after appends and whoever asks.
pub proof fn lemma_second_init_refused(
    caller: Seq<char>,
    first_address: Seq<char>,
    calls: Seq<AppendCall>,
    again: Seq<char>,
    address: Seq<char>,
)
    ensures
        SlotView::Uninitialized.initialize(caller, first_address) matches Ok(created) && {
            &&& created.initialize(again, address) == Err::<SlotView, ContractError>(
                ContractError::StateAlreadyExists,
            )
            &&& created.append_all(calls).initialize(again, address) == Err::<
                SlotView,
                ContractError,
            >(ContractError::StateAlreadyExists)
        },
{
    let state = StateView { owner: caller, address_registry: seq![first_address] };
    lemma_appends_extend(state, calls);
}

/// A registry never loses what it holds: after `initialize` and any appends
/// the owner is still the caller of `initialize`, the list is not empty, and
/// each list on the way is a prefix of every later one.
pub proof fn lemma_registry_only_grows(
    caller: Seq<char>,
    first_address: Seq<char>,
    earlier: Seq<AppendCall>,
    later: Seq<AppendCall>,
)
    ensures
        SlotView::Uninitialized.initialize(caller, first_address) matches Ok(created) && {
            let then = created.append_all(earlier);
            let now = then.append_all(later);
            &&& then is Active
            &&& now is Active
            &&& then->Active_0.owner == caller
            &&& now->Active_0.owner == caller
            &&& then->Active_0.address_registry.len() >= 1
            &&& then->Active_0.address_registry.is_prefix_of(now->Active_0.address_registry)
        },
{
    let state = StateView { owner: caller, address_registry: seq![first_address] };
    lemma_appends_extend(state, earlier);
    let then = SlotView::Active(state).append_all(earlier);
    lemma_appends_extend(then->Active_0, later);
}

} // verus!
