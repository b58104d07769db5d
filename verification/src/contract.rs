use vstd::prelude::*;
use crate::addr::{Addr, zero_addr};
use crate::errors::Error;
use crate::msg::{
    coin_views, Env, EnvV, HandleMsg, InitMsg, Payment, PaymentV, QueryAnswer, QueryMsg, Response,
    ResponseV,
};
use crate::state::{
    count_owned, nominal_coin, spec_ticket_denom, ticket_denom, Coin, CoinV, Item, ItemV, State,
    StateV,
};

verus! {

// ---------------------------------------------------------------------------
// The specification layer: each operation is pinned down by a `check`
// function that says which error, if any, the call fails with, and a `next`
// function that says the state a successful call leaves behind.
// ---------------------------------------------------------------------------

/// The prize coin the creation call seeds the golden ticket with: the first
/// attached amount, in the ticket denomination.
pub open spec fn prize_coin(env: EnvV) -> CoinV {
    CoinV { denom: spec_ticket_denom(), amount: env.sent_funds[0].amount }
}

/// Which error, if any, lottery creation fails with: the ticket count must
/// be positive, the golden index must name one of the tickets, and at least
/// one currency amount must be attached.
pub open spec fn init_check(env: EnvV, msg: InitMsg) -> Option<Error> {
    if msg.items_count == 0 || msg.golden >= msg.items_count || env.sent_funds.len() == 0 {
        Some(Error::Validation)
    } else {
        None
    }
}

/// The freshly created lottery: `items_count` tickets, each owned by the
/// lottery module itself, every value the nominal unit except the golden
/// ticket, which carries the whole attached amount; the creator is recorded
/// as contract owner, the escrow ledger starts empty, and the lottery is
/// active.
pub open spec fn init_state(env: EnvV, msg: InitMsg) -> StateV {
    StateV {
        items: Seq::new(
            msg.items_count as nat,
            |i: int|
                ItemV {
                    id: i as u32,
                    value: if i == msg.golden as int {
                        prize_coin(env)
                    } else {
                        nominal_coin()
                    },
                    owner: env.contract_address,
                    approved: Seq::empty(),
                },
        ),
        contract_owner: env.sender,
        winning_prize: prize_coin(env),
        deposit: 0,
        ended: false,
    }
}

/// Whether `addr` may move a ticket: it is the recorded owner or stands in
/// the ticket's approved set.
pub open spec fn spec_is_owner_or_approved(item: ItemV, addr: Seq<u8>) -> bool {
    addr == item.owner || item.approved.contains(addr)
}

/// Which error, if any, a transfer of ticket `token_id` from `from` to
/// `to`, initiated by `sender`, fails with.  The conditions are checked in
/// this order: `to` must not be the zero-address sentinel (a transfer is
/// not a burn), the ticket must exist, the caller must be its owner or
/// approved for it, and `from` must be its recorded owner.
pub open spec fn transfer_check(
    s: StateV,
    sender: Seq<u8>,
    from: Seq<u8>,
    to: Seq<u8>,
    token_id: u32,
) -> Option<Error> {
    if to == zero_addr() {
        Some(Error::Validation)
    } else if s.items.len() <= token_id as int {
        Some(Error::NotFound)
    } else if !spec_is_owner_or_approved(s.items[token_id as int], sender) {
        Some(Error::Authorization)
    } else if from != s.items[token_id as int].owner {
        Some(Error::OwnerMismatch)
    } else {
        None
    }
}

/// The state a successful transfer leaves behind: the ticket's owner field
/// is overwritten with `to` and nothing else changes.
pub open spec fn transfer_next(s: StateV, to: Seq<u8>, token_id: u32) -> StateV {
    StateV {
        items: s.items.update(
            token_id as int,
            ItemV { owner: to, ..s.items[token_id as int] },
        ),
        ..s
    }
}

/// Which error, if any, a purchase of ticket `token_id` fails with: the
/// first attached amount must reach the minimal unit floor, the ticket
/// must exist, and the escrow ledger must be able to record the payment.
pub open spec fn buy_check(s: StateV, funds: Seq<CoinV>, token_id: u32) -> Option<Error> {
    if funds.len() == 0 || funds[0].amount < 1 {
        Some(Error::Validation)
    } else if s.items.len() <= token_id as int {
        Some(Error::NotFound)
    } else if s.deposit + funds[0].amount > u128::MAX {
        Some(Error::Validation)
    } else {
        None
    }
}

/// The state a successful purchase leaves behind: the ticket's owner field
/// is overwritten with the buyer — whoever owned it before — and the
/// attached amount is recorded in the escrow ledger.
pub open spec fn buy_next(s: StateV, sender: Seq<u8>, funds: Seq<CoinV>, token_id: u32) -> StateV {
    StateV {
        items: s.items.update(
            token_id as int,
            ItemV { owner: sender, ..s.items[token_id as int] },
        ),
        deposit: (s.deposit + funds[0].amount) as u128,
        ..s
    }
}

/// Which error, if any, settlement fails with: only re-entry after the
/// lottery was settled.
pub open spec fn settle_check(s: StateV) -> Option<Error> {
    if s.ended {
        Some(Error::AlreadySettled)
    } else {
        None
    }
}

/// The state a successful settlement leaves behind: the record is marked
/// settled and nothing else changes.
pub open spec fn settle_next(s: StateV) -> StateV {
    StateV { ended: true, ..s }
}

/// The payment instructions settlement emits: one per ticket whose
/// recorded owner differs from the lottery module's own address, in ticket
/// order, transferring that ticket's recorded value from the module to
/// that owner.  Tickets still owned by the module emit none.
pub open spec fn payouts(items: Seq<ItemV>, contract: Seq<u8>) -> Seq<PaymentV>
    decreases items.len(),
{
    if items.len() == 0 {
        Seq::empty()
    } else {
        payouts(items.drop_last(), contract) + if items.last().owner != contract {
            seq![PaymentV { from: contract, to: items.last().owner, amount: items.last().value }]
        } else {
            Seq::empty()
        }
    }
}

/// A `Result` of an operation, with the response replaced by its model.
pub open spec fn outcome_view(r: Result<Response, Error>) -> Result<ResponseV, Error> {
    match r {
        Ok(resp) => Ok(resp@),
        Err(e) => Err(e),
    }
}

/// The full contract of one transfer call: on success the state steps to
/// [`transfer_next`] and the response carries no payments and the caller's
/// payload; on failure the state is untouched and the error is the one
/// [`transfer_check`] names.
pub open spec fn transfer_outcome(
    pre: StateV,
    post: StateV,
    sender: Seq<u8>,
    from: Seq<u8>,
    to: Seq<u8>,
    token_id: u32,
    data: Seq<u8>,
    r: Result<ResponseV, Error>,
) -> bool {
    match r {
        Ok(resp) => {
            &&& transfer_check(pre, sender, from, to, token_id) is None
            &&& post == transfer_next(pre, to, token_id)
            &&& resp.messages.len() == 0
            &&& resp.data == Some(data)
        },
        Err(e) => {
            &&& transfer_check(pre, sender, from, to, token_id) == Some(e)
            &&& post == pre
        },
    }
}

/// The full contract of one purchase call, over [`buy_check`] and
/// [`buy_next`].
pub open spec fn buy_outcome(
    pre: StateV,
    post: StateV,
    sender: Seq<u8>,
    funds: Seq<CoinV>,
    token_id: u32,
    r: Result<ResponseV, Error>,
) -> bool {
    match r {
        Ok(resp) => {
            &&& buy_check(pre, funds, token_id) is None
            &&& post == buy_next(pre, sender, funds, token_id)
            &&& resp.messages.len() == 0
            &&& resp.data is None
        },
        Err(e) => {
            &&& buy_check(pre, funds, token_id) == Some(e)
            &&& post == pre
        },
    }
}

/// The full contract of one settlement call, over [`settle_check`],
/// [`settle_next`] and [`payouts`].
pub open spec fn settle_outcome(
    pre: StateV,
    post: StateV,
    contract: Seq<u8>,
    r: Result<ResponseV, Error>,
) -> bool {
    match r {
        Ok(resp) => {
            &&& settle_check(pre) is None
            &&& post == settle_next(pre)
            &&& resp.messages == payouts(pre.items, contract)
            &&& resp.data is None
        },
        Err(e) => {
            &&& settle_check(pre) == Some(e)
            &&& post == pre
        },
    }
}

// ---------------------------------------------------------------------------
// Init Handler
// ---------------------------------------------------------------------------

/// Creates the lottery: mints `msg.items_count` tickets owned by the
/// lottery module, seeds ticket `msg.golden` with the whole attached
/// amount, and records the creator as contract owner.  Fails with a
/// validation error, creating no state, when the count is zero, the golden
/// index is out of range, or no funds are attached.
pub fn init(env: &Env, msg: &InitMsg) -> (r: Result<State, Error>)
    ensures
        (match r {
            Ok(s) => init_check(env@, *msg) is None && s@ == init_state(env@, *msg) && s@.wf(),
            Err(e) => init_check(env@, *msg) == Some(e),
        }),
{
    if msg.items_count == 0 || msg.golden >= msg.items_count || env.sent_funds.len() == 0 {
        return Err(Error::Validation);
    }
    let prize = Coin { denom: ticket_denom(), amount: env.sent_funds[0].amount };

    let mut items: Vec<Item> = Vec::new();
    let mut i: u32 = 0;
    while i < msg.items_count
        invariant
            0 <= i <= msg.items_count,
            msg.golden < msg.items_count,
            env@.sent_funds.len() > 0,
            prize@ == prize_coin(env@),
            items@.len() == i as int,
            forall|j: int|
                0 <= j < i as int ==> (#[trigger] items@[j])@ == init_state(env@, *msg).items[j],
        decreases msg.items_count - i,
    {
        let value = if i == msg.golden {
            prize.clone()
        } else {
            Coin { denom: ticket_denom(), amount: 1 }
        };
        items.push(Item { id: i, value, owner: env.contract_address.clone(), approved: Vec::new() });
        i += 1;
    }

    let state = State {
        items,
        contract_owner: env.sender.clone(),
        winning_prize: prize,
        deposit: 0,
        ended: false,
    };
    proof {
        assert(state@.items =~= init_state(env@, *msg).items);
        assert(state@ =~= init_state(env@, *msg));
    }
    Ok(state)
}

// ---------------------------------------------------------------------------
// Transfer Engine
// ---------------------------------------------------------------------------

/// Whether `addr` may move this ticket on the owner's behalf.
pub fn is_owner_or_approved(item: &Item, addr: &Addr) -> (r: bool)
    ensures
        r == spec_is_owner_or_approved(item@, addr@),
{
    if addr.addr_eq(&item.owner) {
        return true;
    }
    let n = item.approved.len();
    let mut i: usize = 0;
    while i < n
        invariant
            n == item.approved@.len(),
            0 <= i <= n,
            forall|j: int| 0 <= j < i ==> item@.approved[j] != addr@,
        decreases n - i,
    {
        if item.approved[i].addr_eq(addr) {
            proof {
                assert(item@.approved[i as int] == addr@);
            }
            return true;
        }
        i += 1;
    }
    proof {
        assert(!item@.approved.contains(addr@));
    }
    false
}

/// Whether ticket `token_id` lies within the ticket sequence.
pub fn is_token_id_valid(token_id: u32, state: &State) -> (r: bool)
    ensures
        r == ((token_id as int) < state@.items.len()),
{
    (token_id as usize) < state.items.len()
}

/// Overwrites the recorded owner of ticket `token_id` with `to`.  No other
/// field of any ticket changes.
pub fn perform_transfer(state: &mut State, to: &Addr, token_id: u32)
    requires
        (token_id as int) < old(state)@.items.len(),
    ensures
        final(state)@ == transfer_next(old(state)@, to@, token_id),
{
    let idx = token_id as usize;
    state.items[idx].owner = to.clone();
    proof {
        assert(state@.items =~= transfer_next(old(state)@, to@, token_id).items);
        assert(state@ =~= transfer_next(old(state)@, to@, token_id));
    }
}

/// Moves ownership of ticket `token_id` from `from` to `to` on behalf of
/// `sender`, handing the opaque `data` payload back unchanged on success.
/// Each failure leaves the state untouched and names its reason: a zero
/// `to` address is a validation error, a ticket outside the sequence is
/// not found, a caller who is neither owner nor approved lacks
/// authorization, and a `from` that is not the recorded owner is a
/// mismatch.
pub fn safe_transfer_from_with_data(
    state: &mut State,
    sender: &Addr,
    from: &Addr,
    to: &Addr,
    token_id: u32,
    data: Vec<u8>,
) -> (r: Result<Response, Error>)
    ensures
        old(state)@.wf() ==> final(state)@.wf(),
        (match r {
            Ok(resp) => {
                &&& transfer_check(old(state)@, sender@, from@, to@, token_id) is None
                &&& final(state)@ == transfer_next(old(state)@, to@, token_id)
                &&& resp@.messages.len() == 0
                &&& resp@.data == Some(data@)
            },
            Err(e) => {
                &&& transfer_check(old(state)@, sender@, from@, to@, token_id) == Some(e)
                &&& final(state)@ == old(state)@
            },
        }),
{
    if to.is_zero() {
        return Err(Error::Validation);
    }
    if !is_token_id_valid(token_id, state) {
        return Err(Error::NotFound);
    }
    let idx = token_id as usize;
    if !is_owner_or_approved(&state.items[idx], sender) {
        return Err(Error::Authorization);
    }
    if !from.addr_eq(&state.items[idx].owner) {
        return Err(Error::OwnerMismatch);
    }
    perform_transfer(state, to, token_id);
    Ok(Response { messages: Vec::new(), data: Some(data) })
}

/// [`safe_transfer_from_with_data`] with an empty payload.
pub fn safe_transfer_from(
    state: &mut State,
    sender: &Addr,
    from: &Addr,
    to: &Addr,
    token_id: u32,
) -> (r: Result<Response, Error>)
    ensures
        old(state)@.wf() ==> final(state)@.wf(),
        (match r {
            Ok(resp) => {
                &&& transfer_check(old(state)@, sender@, from@, to@, token_id) is None
                &&& final(state)@ == transfer_next(old(state)@, to@, token_id)
                &&& resp@.messages.len() == 0
                &&& resp@.data == Some(Seq::<u8>::empty())
            },
            Err(e) => {
                &&& transfer_check(old(state)@, sender@, from@, to@, token_id) == Some(e)
                &&& final(state)@ == old(state)@
            },
        }),
{
    safe_transfer_from_with_data(state, sender, from, to, token_id, Vec::new())
}

/// The unsafe transfer variant.  No distinct burn or callback path exists
/// in this design, so it behaves exactly as [`safe_transfer_from`].
pub fn transfer_from(
    state: &mut State,
    sender: &Addr,
    from: &Addr,
    to: &Addr,
    token_id: u32,
) -> (r: Result<Response, Error>)
    ensures
        old(state)@.wf() ==> final(state)@.wf(),
        (match r {
            Ok(resp) => {
                &&& transfer_check(old(state)@, sender@, from@, to@, token_id) is None
                &&& final(state)@ == transfer_next(old(state)@, to@, token_id)
                &&& resp@.messages.len() == 0
                &&& resp@.data == Some(Seq::<u8>::empty())
            },
            Err(e) => {
                &&& transfer_check(old(state)@, sender@, from@, to@, token_id) == Some(e)
                &&& final(state)@ == old(state)@
            },
        }),
{
    safe_transfer_from(state, sender, from, to, token_id)
}

// ---------------------------------------------------------------------------
// Ticket Sale Handler
// ---------------------------------------------------------------------------

/// Purchases ticket `token_id` for the caller.  Unlike the transfer
/// engine, purchasing is deliberately open to any sufficiently funded
/// caller: the ticket's owner field is overwritten with `sender` whoever
/// owned it before, and the attached amount joins the escrow ledger.
/// Fails with a validation error when no funds are attached, the first
/// attached amount is below the minimal unit, or the escrow ledger cannot
/// record the payment; with a not-found error when the ticket does not
/// exist.  Every failure leaves the state untouched.
pub fn buy_ticket(
    state: &mut State,
    sender: &Addr,
    sent_funds: &Vec<Coin>,
    token_id: u32,
) -> (r: Result<Response, Error>)
    ensures
        old(state)@.wf() ==> final(state)@.wf(),
        (match r {
            Ok(resp) => {
                &&& buy_check(old(state)@, coin_views(sent_funds@), token_id) is None
                &&& final(state)@ == buy_next(
                    old(state)@,
                    sender@,
                    coin_views(sent_funds@),
                    token_id,
                )
                &&& resp@.messages.len() == 0
                &&& resp@.data is None
            },
            Err(e) => {
                &&& buy_check(old(state)@, coin_views(sent_funds@), token_id) == Some(e)
                &&& final(state)@ == old(state)@
            },
        }),
{
    if sent_funds.len() == 0 {
        return Err(Error::Validation);
    }
    let amount = sent_funds[0].amount;
    if amount < 1 {
        return Err(Error::Validation);
    }
    if !is_token_id_valid(token_id, state) {
        return Err(Error::NotFound);
    }
    if state.deposit > u128::MAX - amount {
        return Err(Error::Validation);
    }
    state.deposit = state.deposit + amount;
    perform_transfer(state, sender, token_id);
    proof {
        assert(state@ =~= buy_next(old(state)@, sender@, coin_views(sent_funds@), token_id));
    }
    Ok(Response { messages: Vec::new(), data: None })
}

// ---------------------------------------------------------------------------
// Lottery Settlement
// ---------------------------------------------------------------------------

/// Closes the lottery: marks the record settled and emits one payment per
/// ticket whose recorded owner differs from the lottery module's own
/// address, each transferring that ticket's recorded value from the module
/// to that owner.  Tickets the module still owns were never sold and emit
/// nothing.  A second call finds the record settled, changes nothing and
/// fails with the settled-state error, so payments are never duplicated.
pub fn end_lottery(state: &mut State, contract_address: &Addr) -> (r: Result<Response, Error>)
    ensures
        old(state)@.wf() ==> final(state)@.wf(),
        (match r {
            Ok(resp) => {
                &&& settle_check(old(state)@) is None
                &&& final(state)@ == settle_next(old(state)@)
                &&& resp@.messages == payouts(old(state)@.items, contract_address@)
                &&& resp@.data is None
            },
            Err(e) => {
                &&& settle_check(old(state)@) == Some(e)
                &&& final(state)@ == old(state)@
            },
        }),
{
    if state.ended {
        return Err(Error::AlreadySettled);
    }
    let mut messages: Vec<Payment> = Vec::new();
    let n = state.items.len();
    let mut i: usize = 0;
    while i < n
        invariant
            n == state@.items.len(),
            *state == *old(state),
            0 <= i <= n,
            messages@.map_values(|p: Payment| p@) =~= payouts(
                state@.items.take(i as int),
                contract_address@,
            ),
        decreases n - i,
    {
        let item = &state.items[i];
        proof {
            assert(state@.items.take(i as int + 1).drop_last() =~= state@.items.take(i as int));
            assert(state@.items.take(i as int + 1).last() == state@.items[i as int]);
        }
        if !item.owner.addr_eq(contract_address) {
            messages.push(
                Payment {
                    from: contract_address.clone(),
                    to: item.owner.clone(),
                    amount: item.value.clone(),
                },
            );
        }
        i += 1;
    }
    state.ended = true;
    proof {
        assert(old(state)@.items.take(n as int) =~= old(state)@.items);
        assert(state@ =~= settle_next(old(state)@));
    }
    Ok(Response { messages, data: None })
}

// ---------------------------------------------------------------------------
// Query Service
// ---------------------------------------------------------------------------

/// Which error, if any, an ownership lookup of ticket `token_id` fails
/// with: a ticket outside the sequence is not found, and one whose
/// recorded owner is the zero-address sentinel has been redeemed and has
/// no owner to report.
pub open spec fn owner_of_check(s: StateV, token_id: u32) -> Option<Error> {
    if s.items.len() <= token_id as int {
        Some(Error::NotFound)
    } else if s.items[token_id as int].owner == zero_addr() {
        Some(Error::AlreadyRedeemed)
    } else {
        None
    }
}

/// Counts the tickets whose recorded owner is `owner`; zero is a valid
/// result.  The zero-address sentinel is not a legitimate query subject
/// and is rejected with a validation error.
pub fn balance_of(state: &State, owner: &Addr) -> (r: Result<u32, Error>)
    requires
        state@.wf(),
    ensures
        (match r {
            Ok(n) => owner@ != zero_addr() && n == count_owned(state@.items, owner@),
            Err(e) => owner@ == zero_addr() && e == Error::Validation,
        }),
{
    if owner.is_zero() {
        return Err(Error::Validation);
    }
    let n = state.items.len();
    let mut count: u32 = 0;
    let mut i: usize = 0;
    while i < n
        invariant
            state@.wf(),
            n == state@.items.len(),
            0 <= i <= n,
            count == count_owned(state@.items.take(i as int), owner@),
            count <= i,
        decreases n - i,
    {
        proof {
            assert(state@.items.take(i as int + 1).drop_last() =~= state@.items.take(i as int));
            assert(state@.items.take(i as int + 1).last() == state@.items[i as int]);
        }
        if state.items[i].owner.addr_eq(owner) {
            count = count + 1;
        }
        i += 1;
    }
    proof {
        assert(state@.items.take(n as int) =~= state@.items);
    }
    Ok(count)
}

/// Reports the current owner of ticket `token_id`.  A ticket outside the
/// sequence is not found; one whose owner is the zero-address sentinel is
/// reported as already redeemed rather than handing the sentinel out.
pub fn owner_of(state: &State, token_id: u32) -> (r: Result<Addr, Error>)
    ensures
        (match r {
            Ok(a) => owner_of_check(state@, token_id) is None && a@ == state@.items[
                token_id as int
            ].owner,
            Err(e) => owner_of_check(state@, token_id) == Some(e),
        }),
{
    if !is_token_id_valid(token_id, state) {
        return Err(Error::NotFound);
    }
    let owner = state.items[token_id as usize].owner.clone();
    if owner.is_zero() {
        return Err(Error::AlreadyRedeemed);
    }
    Ok(owner)
}

// ---------------------------------------------------------------------------
// Routing
// ---------------------------------------------------------------------------

/// Routes a mutating message to the transfer engine, the ticket sale
/// handler or settlement, behaving exactly as the routed operation does.
pub fn handle(state: &mut State, env: &Env, msg: HandleMsg) -> (r: Result<Response, Error>)
    ensures
        old(state)@.wf() ==> final(state)@.wf(),
        (match msg {
            HandleMsg::SafeTransferFrom { from, to, token_id } => transfer_outcome(
                old(state)@,
                final(state)@,
                env@.sender,
                from@,
                to@,
                token_id,
                Seq::empty(),
                outcome_view(r),
            ),
            HandleMsg::BuyTicket { token_id } => buy_outcome(
                old(state)@,
                final(state)@,
                env@.sender,
                env@.sent_funds,
                token_id,
                outcome_view(r),
            ),
            HandleMsg::EndLottery {  } => settle_outcome(
                old(state)@,
                final(state)@,
                env@.contract_address,
                outcome_view(r),
            ),
        }),
{
    match msg {
        HandleMsg::SafeTransferFrom { from, to, token_id } => safe_transfer_from(
            state,
            &env.sender,
            &from,
            &to,
            token_id,
        ),
        HandleMsg::BuyTicket { token_id } => buy_ticket(
            state,
            &env.sender,
            &env.sent_funds,
            token_id,
        ),
        HandleMsg::EndLottery {  } => end_lottery(state, &env.contract_address),
    }
}

/// Routes a read-only query; never mutates.
pub fn query(state: &State, msg: &QueryMsg) -> (r: Result<QueryAnswer, Error>)
    requires
        state@.wf(),
    ensures
        (match *msg {
            QueryMsg::BalanceOf { owner } => (match r {
                Ok(a) => owner@ != zero_addr() && (a matches QueryAnswer::Balance(n) && n
                    == count_owned(state@.items, owner@)),
                Err(e) => owner@ == zero_addr() && e == Error::Validation,
            }),
            QueryMsg::OwnerOf { token_id } => (match r {
                Ok(a) => owner_of_check(state@, token_id) is None && (a
                    matches QueryAnswer::Owner(ad) && ad@ == state@.items[token_id as int].owner),
                Err(e) => owner_of_check(state@, token_id) == Some(e),
            }),
        }),
{
    match msg {
        QueryMsg::BalanceOf { owner } => {
            match balance_of(state, owner) {
                Ok(n) => Ok(QueryAnswer::Balance(n)),
                Err(e) => Err(e),
            }
        },
        QueryMsg::OwnerOf { token_id } => {
            match owner_of(state, *token_id) {
                Ok(a) => Ok(QueryAnswer::Owner(a)),
                Err(e) => Err(e),
            }
        },
    }
}

} // verus!
