use vstd::prelude::*;
use crate::addr::zero_addr;
use crate::contract::{
    buy_check, buy_next, init_check, init_state, owner_of_check, payouts, prize_coin,
    settle_check, settle_next, spec_is_owner_or_approved, transfer_check, transfer_next,
};
use crate::errors::Error;
use crate::msg::{EnvV, InitMsg, PaymentV};
use crate::state::{count_owned, nominal_coin, CoinV, ItemV, StateV};

verus! {

/// When every ticket of a sequence belongs to `owner`, that account's
/// balance is the whole sequence.
pub proof fn lemma_count_all_owned(items: Seq<ItemV>, owner: Seq<u8>)
    requires
        forall|i: int| 0 <= i < items.len() ==> (#[trigger] items[i]).owner == owner,
    ensures
        count_owned(items, owner) == items.len(),
    decreases items.len(),
{
    if items.len() > 0 {
        lemma_count_all_owned(items.drop_last(), owner);
    }
}

/// Replacing one ticket changes an account's balance exactly by what that
/// ticket contributed before and contributes after the replacement.
pub proof fn lemma_count_owned_update(items: Seq<ItemV>, i: int, it: ItemV, owner: Seq<u8>)
    requires
        0 <= i < items.len(),
    ensures
        count_owned(items.update(i, it), owner) == count_owned(items, owner) - (
        if items[i].owner == owner {
            1int
        } else {
            0int
        }) + (
        if it.owner == owner {
            1int
        } else {
            0int
        }),
    decreases items.len(),
{
    let u = items.update(i, it);
    if i == items.len() - 1 {
        assert(u.drop_last() =~= items.drop_last());
    } else {
        assert(u.drop_last() =~= items.drop_last().update(i, it));
        lemma_count_owned_update(items.drop_last(), i, it, owner);
    }
}

/// Right after creation every ticket belongs to the lottery module and
/// carries the nominal unit value, except the golden ticket, which carries
/// the whole attached creation amount.
pub proof fn lemma_creation_seeds_tickets(env: EnvV, msg: InitMsg)
    requires
        init_check(env, msg) is None,
    ensures
        init_state(env, msg).items.len() == msg.items_count,
        forall|i: int|
            0 <= i < msg.items_count ==> (#[trigger] init_state(env, msg).items[i]).owner
                == env.contract_address,
        forall|i: int|
            0 <= i < msg.items_count && i != msg.golden ==> (#[trigger] init_state(
                env,
                msg,
            ).items[i]).value == nominal_coin(),
        init_state(env, msg).items[msg.golden as int].value == prize_coin(env),
        init_state(env, msg).wf(),
{
}

/// Right after creation the lottery module's own balance is the full
/// ticket count: no ticket has been sold yet.
pub proof fn lemma_fresh_lottery_balance(env: EnvV, msg: InitMsg)
    requires
        init_check(env, msg) is None,
    ensures
        count_owned(init_state(env, msg).items, env.contract_address) == msg.items_count,
{
    lemma_count_all_owned(init_state(env, msg).items, env.contract_address);
}

/// An ownership lookup for a ticket id at or past the ticket count fails
/// with the not-found error.
pub proof fn lemma_owner_of_out_of_range(s: StateV, token_id: u32)
    requires
        s.items.len() <= token_id as int,
    ensures
        owner_of_check(s, token_id) == Some(Error::NotFound),
{
}

/// After a successful transfer of a ticket from `from` to a different
/// account `to`, the ticket's owner reads back as `to`, `from`'s balance
/// has decreased by exactly one, and `to`'s balance has increased by
/// exactly one.  (A transfer from an account to itself succeeds too, but
/// leaves both balances as they were.)
pub proof fn lemma_transfer_updates_balances(
    s: StateV,
    sender: Seq<u8>,
    from: Seq<u8>,
    to: Seq<u8>,
    token_id: u32,
)
    requires
        transfer_check(s, sender, from, to, token_id) is None,
        from != to,
    ensures
        owner_of_check(transfer_next(s, to, token_id), token_id) is None,
        transfer_next(s, to, token_id).items[token_id as int].owner == to,
        count_owned(transfer_next(s, to, token_id).items, to) == count_owned(s.items, to) + 1,
        count_owned(transfer_next(s, to, token_id).items, from) == count_owned(s.items, from)
            - 1,
{
    let i = token_id as int;
    let it = ItemV { owner: to, ..s.items[i] };
    lemma_count_owned_update(s.items, i, it, to);
    lemma_count_owned_update(s.items, i, it, from);
}

/// A transfer attempted by a caller who is neither the ticket's owner nor
/// in its approved set fails with the authorization error; by the transfer
/// engine's contract such a failure leaves ownership unchanged.
pub proof fn lemma_unauthorized_transfer_rejected(
    s: StateV,
    sender: Seq<u8>,
    from: Seq<u8>,
    to: Seq<u8>,
    token_id: u32,
)
    requires
        to != zero_addr(),
        (token_id as int) < s.items.len(),
        !spec_is_owner_or_approved(s.items[token_id as int], sender),
    ensures
        transfer_check(s, sender, from, to, token_id) == Some(Error::Authorization),
{
}

/// A sufficiently funded purchase hands the ticket to the buyer whatever
/// its prior owner was, and the ticket's owner then reads back as the
/// buyer.  (The buyer is a real signer, so never the zero-address
/// sentinel.)
pub proof fn lemma_purchase_overrides_owner(
    s: StateV,
    sender: Seq<u8>,
    funds: Seq<CoinV>,
    token_id: u32,
)
    requires
        buy_check(s, funds, token_id) is None,
        sender != zero_addr(),
    ensures
        buy_next(s, sender, funds, token_id).items[token_id as int].owner == sender,
        owner_of_check(buy_next(s, sender, funds, token_id), token_id) is None,
{
}

/// Settlement pays each sold ticket exactly once: the emitted payments are
/// precisely the tickets whose owner differs from the lottery module, in
/// ticket order, each instructing the module to send that ticket's
/// recorded value to that owner.
pub proof fn lemma_settlement_pays_each_sold_ticket_once(items: Seq<ItemV>, contract: Seq<u8>)
    ensures
        payouts(items, contract) == items.filter(|it: ItemV| it.owner != contract).map_values(
            |it: ItemV| PaymentV { from: contract, to: it.owner, amount: it.value },
        ),
    decreases items.len(),
{
    reveal(Seq::filter);
    let sold = |it: ItemV| it.owner != contract;
    let pay = |it: ItemV| PaymentV { from: contract, to: it.owner, amount: it.value };
    if items.len() == 0 {
        assert(payouts(items, contract) =~= items.filter(sold).map_values(pay));
    } else {
        let prev = items.drop_last();
        lemma_settlement_pays_each_sold_ticket_once(prev, contract);
        if sold(items.last()) {
            assert(payouts(items, contract) =~= payouts(prev, contract).push(pay(items.last())));
            assert(items.filter(sold) == prev.filter(sold).push(items.last()));
            assert(items.filter(sold).map_values(pay) =~= prev.filter(sold).map_values(pay).push(
                pay(items.last()),
            ));
        } else {
            assert(payouts(items, contract) =~= payouts(prev, contract));
            assert(items.filter(sold) == prev.filter(sold));
        }
        assert(payouts(items, contract) =~= items.filter(sold).map_values(pay));
    }
}

/// Tickets the lottery module still owns emit no payment: the number of
/// payments plus the module's own balance is the whole ticket count.
pub proof fn lemma_payout_count(items: Seq<ItemV>, contract: Seq<u8>)
    ensures
        payouts(items, contract).len() + count_owned(items, contract) == items.len(),
    decreases items.len(),
{
    if items.len() > 0 {
        lemma_payout_count(items.drop_last(), contract);
    }
}

/// Settlement is one-shot: the state a successful settlement leaves behind
/// is settled, with every ticket as it was, and by the settlement
/// contract any further settlement call on it fails with the settled-state
/// error and emits nothing — payments are never duplicated.
pub proof fn lemma_settlement_is_one_shot(s: StateV)
    requires
        settle_check(s) is None,
    ensures
        settle_next(s).ended,
        settle_next(s).items == s.items,
        settle_check(settle_next(s)) == Some(Error::AlreadySettled),
{
}

} // verus!
