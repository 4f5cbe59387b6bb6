//! What holds of the registry whatever is asked of it, proved from the
//! model of the operations.

use crate::digest::sha256_digest;
use crate::identity::sentinel;
use crate::metadata::MetadataPartView;
use crate::model::{run, txids, Call, Error, StateView};
use vstd::prelude::*;

verus! {

/// Every call leaves a registry that meets the invariant, as long as the
/// transaction ids and the token ids have not run out.
pub proof fn law_call_keeps_invariant(state: StateView, caller: Seq<u8>, call: Call)
    requires
        state.inv(),
        state.txid < u128::MAX,
        state.tokens.len() < u64::MAX,
    ensures
        state.after(caller, call).inv(),
{
}

/// No call changes the custodians, the whitelist, the two dates or the mint
/// window.
pub proof fn law_call_keeps_terms(state: StateView, caller: Seq<u8>, call: Call)
    ensures
        state.after(caller, call).custodians == state.custodians,
        state.after(caller, call).white_list == state.white_list,
        state.after(caller, call).begin_date == state.begin_date,
        state.after(caller, call).end_date == state.end_date,
        state.after(caller, call).window == state.window,
{
}

/// The call neither burns the token `token_id` nor sends it to the sentinel
/// identity by a plain transfer.
pub open spec fn spares(call: Call, token_id: u64) -> bool {
    match call {
        Call::Burn { token_id: burned } => burned != token_id,
        Call::TransferFrom { from, to, token_id: moved } => moved != token_id || to != sentinel(),
        _ => true,
    }
}

/// A token whose owner is a real identity keeps a real owner through every
/// call but its own burn and a plain transfer of it to the sentinel
/// identity.
pub proof fn law_owner_stays_real(state: StateView, caller: Seq<u8>, call: Call, token_id: u64)
    requires
        state.valid_id(token_id),
        state.tokens[token_id as int].owner != sentinel(),
        spares(call, token_id),
    ensures
        state.after(caller, call).valid_id(token_id),
        state.after(caller, call).tokens[token_id as int].owner != sentinel(),
{
}

/// A token that is never burned, nor sent to the sentinel identity by a
/// plain transfer, is never owned by the sentinel identity: whatever calls
/// are made, in whatever order, its owner stays a real identity.
pub proof fn law_unburned_owner_is_real(
    state: StateView,
    calls: Seq<(Seq<u8>, Call)>,
    token_id: u64,
)
    requires
        state.valid_id(token_id),
        state.tokens[token_id as int].owner != sentinel(),
        forall|k: int| 0 <= k < calls.len() ==> spares((#[trigger] calls[k]).1, token_id),
    ensures
        run(state, calls).valid_id(token_id),
        run(state, calls).owner_of(token_id) is Ok,
        run(state, calls).owner_of(token_id)->Ok_0 != sentinel(),
    decreases calls.len(),
{
    if calls.len() > 0 {
        let earlier = calls.drop_last();
        assert forall|k: int| 0 <= k < earlier.len() implies spares(
            (#[trigger] earlier[k]).1,
            token_id,
        ) by {
            assert(earlier[k] == calls[k]);
        }
        law_unburned_owner_is_real(state, earlier, token_id);
        assert(spares(calls[calls.len() - 1].1, token_id));
        law_owner_stays_real(run(state, earlier), calls.last().0, calls.last().1, token_id);
    }
}

/// A token minted to a real identity is owned by a real identity.
pub proof fn law_minted_owner_is_real(
    state: StateView,
    to: Seq<u8>,
    metadata: Seq<MetadataPartView>,
    content: Seq<u8>,
    digest: Seq<u8>,
)
    requires
        state.inv(),
        state.tokens.len() < u64::MAX,
        to != sentinel(),
    ensures
        state.minted(to, metadata, content, digest).owner_of(state.tokens.len() as u64) == Ok::<
            Seq<u8>,
            Error,
        >(to),
        state.minted(to, metadata, content, digest).tokens[state.tokens.len() as int].owner
            != sentinel(),
{
}

/// After a transfer that succeeds, safe or not, the token belongs to its
/// new owner and has no approved delegate.
pub proof fn law_transfer_clears_approval(
    state: StateView,
    caller: Seq<u8>,
    from: Seq<u8>,
    to: Seq<u8>,
    token_id: u64,
)
    requires
        state.inv(),
    ensures
        state.transfer_outcome(caller, from, token_id) is Ok ==> {
            &&& state.transferred(to, token_id).tokens[token_id as int].approved is None
            &&& state.transferred(to, token_id).tokens[token_id as int].owner == to
        },
        state.safe_transfer_outcome(caller, from, to, token_id) is Ok ==> {
            &&& state.transfer_outcome(caller, from, token_id) is Ok
            &&& to != sentinel()
        },
{
}

/// A burn of an existing token succeeds exactly when the caller owns the
/// token. An approved delegate, an operator of the owner or a custodian who
/// is not the owner is refused as unauthorized, and nothing changes.
pub proof fn law_burn_is_owner_only(state: StateView, caller: Seq<u8>, token_id: u64)
    requires
        state.inv(),
        state.valid_id(token_id),
    ensures
        state.burn_outcome(caller, token_id) is Ok <==> state.tokens[token_id as int].owner
            == caller,
        state.tokens[token_id as int].owner != caller ==> {
            &&& state.burn_outcome(caller, token_id) == Err::<u128, Error>(Error::Unauthorized)
            &&& state.after(caller, Call::Burn { token_id }) == state
        },
{
}

/// A call that succeeds returns the transaction id of the registry and
/// moves it on by one; a call that is refused leaves the registry as it was.
pub proof fn law_call_advances_once(state: StateView, caller: Seq<u8>, call: Call)
    requires
        state.txid < u128::MAX,
    ensures
        match state.txid_of(caller, call) {
            Some(txid) => txid == state.txid && state.after(caller, call).txid == state.txid + 1,
            None => state.after(caller, call) == state,
        },
{
}

/// The transaction ids that a run of calls returns count up by one from
/// that of the registry, without a gap: the calls that are refused take
/// none.
pub proof fn law_txids_count_up(state: StateView, calls: Seq<(Seq<u8>, Call)>)
    requires
        state.txid + calls.len() <= u128::MAX,
    ensures
        txids(state, calls).len() <= calls.len(),
        run(state, calls).txid == state.txid + txids(state, calls).len(),
        forall|k: int|
            0 <= k < txids(state, calls).len() ==> #[trigger] txids(state, calls)[k] == state.txid
                + k,
    decreases calls.len(),
{
    if calls.len() > 0 {
        law_txids_count_up(state, calls.drop_last());
        law_call_advances_once(run(state, calls.drop_last()), calls.last().0, calls.last().1);
    }
}

/// The transaction ids that a run of calls returns rise strictly.
pub proof fn law_txids_rise(state: StateView, calls: Seq<(Seq<u8>, Call)>, i: int, j: int)
    requires
        state.txid + calls.len() <= u128::MAX,
        0 <= i < j < txids(state, calls).len(),
    ensures
        txids(state, calls)[i] < txids(state, calls)[j],
{
    law_txids_count_up(state, calls);
}

/// After a mint the new token has the next id and belongs to the identity
/// that it was minted to, and there is one token more.
pub proof fn law_mint_adds_one(
    state: StateView,
    to: Seq<u8>,
    metadata: Seq<MetadataPartView>,
    content: Seq<u8>,
)
    requires
        state.inv(),
        state.tokens.len() < u64::MAX,
    ensures
        state.minted(to, metadata, content, sha256_digest(content)).tokens.len()
            == state.tokens.len() + 1,
        state.minted(to, metadata, content, sha256_digest(content)).owner_of(
            state.tokens.len() as u64,
        ) == Ok::<Seq<u8>, Error>(to),
        state.minted(to, metadata, content, sha256_digest(content)).hashes.last()
            == sha256_digest(content),
        forall|i: int|
            0 <= i < state.tokens.len() ==> {
                &&& state.minted(to, metadata, content, sha256_digest(content)).tokens[i]
                    == state.tokens[i]
                &&& state.minted(to, metadata, content, sha256_digest(content)).hashes[i]
                    == state.hashes[i]
            },
{
}

/// No call takes a token away or changes what was fixed when it was
/// minted: its id, its metadata and its content.
pub proof fn law_token_is_fixed(state: StateView, caller: Seq<u8>, call: Call, token_id: u64)
    requires
        state.valid_id(token_id),
    ensures
        state.after(caller, call).tokens.len() >= state.tokens.len(),
        state.after(caller, call).tokens[token_id as int].id == state.tokens[token_id as int].id,
        state.after(caller, call).tokens[token_id as int].metadata
            == state.tokens[token_id as int].metadata,
        state.after(caller, call).tokens[token_id as int].content
            == state.tokens[token_id as int].content,
{
}

/// No call changes an entry of the content-hash index or takes one away.
pub proof fn law_index_is_write_once(state: StateView, caller: Seq<u8>, call: Call, token_id: u64)
    requires
        state.inv(),
        state.valid_id(token_id),
    ensures
        state.after(caller, call).hashes.len() >= state.hashes.len(),
        state.after(caller, call).hashes[token_id as int] == state.hashes[token_id as int],
{
}

/// A blanket approval of the sentinel identity grants nothing to anyone:
/// the grants stay as they were, and whoever was not allowed to move a
/// token before is not allowed after.
pub proof fn law_sentinel_grants_no_one(
    state: StateView,
    caller: Seq<u8>,
    other: Seq<u8>,
    from: Seq<u8>,
    token_id: u64,
)
    requires
        state.inv(),
        state.valid_id(token_id),
    ensures
        state.approval_set(caller, sentinel(), true).operators == state.operators,
        state.approval_set(caller, sentinel(), true).authorized(other, from, token_id)
            == state.authorized(other, from, token_id),
        state.transfer_outcome(other, from, token_id) == Err::<u128, Error>(Error::Unauthorized)
            ==> state.approval_set(caller, sentinel(), true).transfer_outcome(other, from, token_id)
            == Err::<u128, Error>(Error::Unauthorized),
{
}

/// Only a custodian changes the custodians: an identity that is none is
/// refused where it asks for a change, and none of the calls that give out
/// a transaction id changes them.
pub proof fn law_custodians_change_by_custodians_only(
    state: StateView,
    caller: Seq<u8>,
    call: Call,
)
    ensures
        !state.custodians.contains(caller) ==> state.admin_outcome(caller) == Err::<(), Error>(
            Error::Unauthorized,
        ),
        state.after(caller, call).custodians == state.custodians,
{
}

/// What is kept of a registry across a restart makes the same registry
/// again: the same owners and approvals, the same grants, the same
/// transaction id and the same content-hash index.
pub proof fn law_restore_after_snapshot(state: StateView)
    requires
        state.inv(),
    ensures
        state.stable().restorable(),
        state.stable().restored() == state,
        state.stable().restored().inv(),
{
}

} // verus!
