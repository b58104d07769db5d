use lottery::addr::Addr;
use lottery::contract::{
    balance_of, buy_ticket, end_lottery, handle, init, owner_of, query, safe_transfer_from,
    safe_transfer_from_with_data, transfer_from,
};
use lottery::errors::Error;
use lottery::msg::{Env, HandleMsg, InitMsg, QueryAnswer, QueryMsg};
use lottery::state::{Coin, State};

fn addr(tag: u8) -> Addr {
    Addr { bytes: vec![tag; 8] }
}

fn coin(amount: u128) -> Coin {
    Coin { denom: "uscrt".to_string(), amount }
}

fn env(contract: u8, sender: u8, amounts: &[u128]) -> Env {
    Env {
        contract_address: addr(contract),
        sender: addr(sender),
        sent_funds: amounts.iter().map(|a| coin(*a)).collect(),
    }
}

const MODULE: u8 = 9;
const DEPLOYER: u8 = 1;
const ALICE: u8 = 2;
const BOB: u8 = 3;

/// Three tickets, the middle one golden, 500 units attached.
fn fresh_lottery() -> State {
    init(&env(MODULE, DEPLOYER, &[500]), &InitMsg { items_count: 3, golden: 1 }).unwrap()
}

#[test]
fn init_creates_tickets() {
    let state = fresh_lottery();
    assert_eq!(state.items.len(), 3);
    for (i, item) in state.items.iter().enumerate() {
        assert_eq!(item.id, i as u32);
        assert_eq!(item.owner.bytes, vec![MODULE; 8]);
        assert!(item.approved.is_empty());
        assert_eq!(item.value.denom, "uscrt");
    }
    assert_eq!(state.items[0].value.amount, 1);
    assert_eq!(state.items[1].value.amount, 500);
    assert_eq!(state.items[2].value.amount, 1);
    assert_eq!(state.contract_owner.bytes, vec![DEPLOYER; 8]);
    assert_eq!(state.winning_prize.amount, 500);
    assert_eq!(state.winning_prize.denom, "uscrt");
    assert_eq!(state.deposit, 0);
    assert!(!state.ended);
}

#[test]
fn init_rejects_zero_items() {
    let r = init(&env(MODULE, DEPLOYER, &[500]), &InitMsg { items_count: 0, golden: 0 });
    assert_eq!(r.unwrap_err(), Error::Validation);
}

#[test]
fn init_rejects_golden_out_of_range() {
    let r = init(&env(MODULE, DEPLOYER, &[500]), &InitMsg { items_count: 3, golden: 3 });
    assert_eq!(r.unwrap_err(), Error::Validation);
}

#[test]
fn init_rejects_missing_funds() {
    let r = init(&env(MODULE, DEPLOYER, &[]), &InitMsg { items_count: 3, golden: 1 });
    assert_eq!(r.unwrap_err(), Error::Validation);
}

#[test]
fn balance_of_module_after_creation() {
    let state = fresh_lottery();
    assert_eq!(balance_of(&state, &addr(MODULE)).unwrap(), 3);
    assert_eq!(balance_of(&state, &addr(ALICE)).unwrap(), 0);
}

#[test]
fn balance_of_zero_address_rejected() {
    let state = fresh_lottery();
    assert_eq!(balance_of(&state, &addr(0)).unwrap_err(), Error::Validation);
}

#[test]
fn owner_of_out_of_range_not_found() {
    let state = fresh_lottery();
    assert_eq!(owner_of(&state, 3).unwrap_err(), Error::NotFound);
    assert_eq!(owner_of(&state, u32::MAX).unwrap_err(), Error::NotFound);
}

#[test]
fn owner_of_redeemed_rejected() {
    let mut state = fresh_lottery();
    state.items[1].owner = addr(0);
    assert_eq!(owner_of(&state, 1).unwrap_err(), Error::AlreadyRedeemed);
    assert_eq!(owner_of(&state, 0).unwrap().bytes, vec![MODULE; 8]);
}

#[test]
fn transfer_moves_ownership_and_balances() {
    let mut state = fresh_lottery();
    let r = safe_transfer_from(&mut state, &addr(MODULE), &addr(MODULE), &addr(ALICE), 2);
    let resp = r.unwrap();
    assert!(resp.messages.is_empty());
    assert_eq!(resp.data, Some(vec![]));
    assert_eq!(owner_of(&state, 2).unwrap().bytes, vec![ALICE; 8]);
    assert_eq!(balance_of(&state, &addr(MODULE)).unwrap(), 2);
    assert_eq!(balance_of(&state, &addr(ALICE)).unwrap(), 1);
}

#[test]
fn transfer_carries_payload_unchanged() {
    let mut state = fresh_lottery();
    let payload = vec![7u8, 8, 9];
    let r = safe_transfer_from_with_data(
        &mut state,
        &addr(MODULE),
        &addr(MODULE),
        &addr(ALICE),
        0,
        payload.clone(),
    );
    assert_eq!(r.unwrap().data, Some(payload));
}

#[test]
fn transfer_to_zero_address_rejected() {
    let mut state = fresh_lottery();
    let r = safe_transfer_from(&mut state, &addr(MODULE), &addr(MODULE), &addr(0), 1);
    assert_eq!(r.unwrap_err(), Error::Validation);
    assert_eq!(owner_of(&state, 1).unwrap().bytes, vec![MODULE; 8]);
}

#[test]
fn transfer_unauthorized_rejected() {
    let mut state = fresh_lottery();
    let r = safe_transfer_from(&mut state, &addr(ALICE), &addr(MODULE), &addr(BOB), 1);
    assert_eq!(r.unwrap_err(), Error::Authorization);
    assert_eq!(owner_of(&state, 1).unwrap().bytes, vec![MODULE; 8]);
    assert_eq!(balance_of(&state, &addr(MODULE)).unwrap(), 3);
}

#[test]
fn transfer_wrong_from_rejected() {
    let mut state = fresh_lottery();
    let r = safe_transfer_from(&mut state, &addr(MODULE), &addr(ALICE), &addr(BOB), 1);
    assert_eq!(r.unwrap_err(), Error::OwnerMismatch);
    assert_eq!(owner_of(&state, 1).unwrap().bytes, vec![MODULE; 8]);
}

#[test]
fn transfer_out_of_range_not_found() {
    let mut state = fresh_lottery();
    let r = safe_transfer_from(&mut state, &addr(MODULE), &addr(MODULE), &addr(ALICE), 3);
    assert_eq!(r.unwrap_err(), Error::NotFound);
}

#[test]
fn transfer_from_behaves_as_safe_variant() {
    let mut state = fresh_lottery();
    let r = transfer_from(&mut state, &addr(MODULE), &addr(MODULE), &addr(ALICE), 1);
    assert_eq!(r.unwrap().data, Some(vec![]));
    assert_eq!(owner_of(&state, 1).unwrap().bytes, vec![ALICE; 8]);
    let r = transfer_from(&mut state, &addr(BOB), &addr(ALICE), &addr(BOB), 1);
    assert_eq!(r.unwrap_err(), Error::Authorization);
}

#[test]
fn buy_ticket_assigns_buyer() {
    let mut state = fresh_lottery();
    let resp = buy_ticket(&mut state, &addr(ALICE), &vec![coin(1)], 1).unwrap();
    assert!(resp.messages.is_empty());
    assert_eq!(resp.data, None);
    assert_eq!(owner_of(&state, 1).unwrap().bytes, vec![ALICE; 8]);
}

#[test]
fn buy_ticket_overrides_prior_buyer() {
    let mut state = fresh_lottery();
    buy_ticket(&mut state, &addr(ALICE), &vec![coin(1)], 1).unwrap();
    buy_ticket(&mut state, &addr(BOB), &vec![coin(1)], 1).unwrap();
    assert_eq!(owner_of(&state, 1).unwrap().bytes, vec![BOB; 8]);
    assert_eq!(balance_of(&state, &addr(ALICE)).unwrap(), 0);
    assert_eq!(balance_of(&state, &addr(BOB)).unwrap(), 1);
}

#[test]
fn buy_ticket_records_deposit() {
    let mut state = fresh_lottery();
    buy_ticket(&mut state, &addr(ALICE), &vec![coin(40)], 0).unwrap();
    buy_ticket(&mut state, &addr(BOB), &vec![coin(2)], 2).unwrap();
    assert_eq!(state.deposit, 42);
}

#[test]
fn buy_ticket_insufficient_funds_rejected() {
    let mut state = fresh_lottery();
    let r = buy_ticket(&mut state, &addr(ALICE), &vec![coin(0)], 1);
    assert_eq!(r.unwrap_err(), Error::Validation);
    let r = buy_ticket(&mut state, &addr(ALICE), &vec![], 1);
    assert_eq!(r.unwrap_err(), Error::Validation);
    assert_eq!(owner_of(&state, 1).unwrap().bytes, vec![MODULE; 8]);
}

#[test]
fn buy_ticket_out_of_range_not_found() {
    let mut state = fresh_lottery();
    let r = buy_ticket(&mut state, &addr(ALICE), &vec![coin(1)], 7);
    assert_eq!(r.unwrap_err(), Error::NotFound);
}

#[test]
fn buy_ticket_deposit_overflow_rejected() {
    let mut state = fresh_lottery();
    state.deposit = u128::MAX;
    let r = buy_ticket(&mut state, &addr(ALICE), &vec![coin(1)], 1);
    assert_eq!(r.unwrap_err(), Error::Validation);
    assert_eq!(state.deposit, u128::MAX);
    assert_eq!(owner_of(&state, 1).unwrap().bytes, vec![MODULE; 8]);
}

#[test]
fn end_lottery_pays_sold_tickets() {
    let mut state = fresh_lottery();
    buy_ticket(&mut state, &addr(ALICE), &vec![coin(1)], 1).unwrap();
    let resp = end_lottery(&mut state, &addr(MODULE)).unwrap();
    assert_eq!(resp.messages.len(), 1);
    assert_eq!(resp.messages[0].from.bytes, vec![MODULE; 8]);
    assert_eq!(resp.messages[0].to.bytes, vec![ALICE; 8]);
    assert_eq!(resp.messages[0].amount.amount, 500);
    assert_eq!(resp.messages[0].amount.denom, "uscrt");
    assert_eq!(resp.data, None);
    assert!(state.ended);
}

#[test]
fn end_lottery_pays_every_sold_ticket_in_order() {
    let mut state = fresh_lottery();
    buy_ticket(&mut state, &addr(BOB), &vec![coin(1)], 2).unwrap();
    buy_ticket(&mut state, &addr(ALICE), &vec![coin(1)], 0).unwrap();
    let resp = end_lottery(&mut state, &addr(MODULE)).unwrap();
    assert_eq!(resp.messages.len(), 2);
    assert_eq!(resp.messages[0].to.bytes, vec![ALICE; 8]);
    assert_eq!(resp.messages[0].amount.amount, 1);
    assert_eq!(resp.messages[1].to.bytes, vec![BOB; 8]);
    assert_eq!(resp.messages[1].amount.amount, 1);
}

#[test]
fn end_lottery_without_sales_pays_nothing() {
    let mut state = fresh_lottery();
    let resp = end_lottery(&mut state, &addr(MODULE)).unwrap();
    assert!(resp.messages.is_empty());
    assert!(state.ended);
}

#[test]
fn end_lottery_second_call_rejected() {
    let mut state = fresh_lottery();
    buy_ticket(&mut state, &addr(ALICE), &vec![coin(1)], 1).unwrap();
    end_lottery(&mut state, &addr(MODULE)).unwrap();
    let r = end_lottery(&mut state, &addr(MODULE));
    assert_eq!(r.unwrap_err(), Error::AlreadySettled);
    assert_eq!(owner_of(&state, 1).unwrap().bytes, vec![ALICE; 8]);
    assert!(state.ended);
}

#[test]
fn handle_routes_transfer() {
    let mut state = fresh_lottery();
    let msg = HandleMsg::SafeTransferFrom { from: addr(MODULE), to: addr(ALICE), token_id: 0 };
    let resp = handle(&mut state, &env(MODULE, MODULE, &[]), msg).unwrap();
    assert_eq!(resp.data, Some(vec![]));
    assert_eq!(owner_of(&state, 0).unwrap().bytes, vec![ALICE; 8]);
}

#[test]
fn handle_routes_purchase() {
    let mut state = fresh_lottery();
    let resp = handle(
        &mut state,
        &env(MODULE, ALICE, &[25]),
        HandleMsg::BuyTicket { token_id: 1 },
    )
    .unwrap();
    assert_eq!(resp.data, None);
    assert_eq!(owner_of(&state, 1).unwrap().bytes, vec![ALICE; 8]);
    assert_eq!(state.deposit, 25);
}

#[test]
fn handle_routes_settlement() {
    let mut state = fresh_lottery();
    buy_ticket(&mut state, &addr(ALICE), &vec![coin(1)], 1).unwrap();
    let resp = handle(&mut state, &env(MODULE, BOB, &[]), HandleMsg::EndLottery {}).unwrap();
    assert_eq!(resp.messages.len(), 1);
    assert_eq!(resp.messages[0].to.bytes, vec![ALICE; 8]);
    assert!(state.ended);
}

#[test]
fn query_routes_balance() {
    let state = fresh_lottery();
    let r = query(&state, &QueryMsg::BalanceOf { owner: addr(MODULE) }).unwrap();
    assert!(matches!(r, QueryAnswer::Balance(3)));
}

#[test]
fn query_routes_owner() {
    let state = fresh_lottery();
    let r = query(&state, &QueryMsg::OwnerOf { token_id: 2 }).unwrap();
    match r {
        QueryAnswer::Owner(a) => assert_eq!(a.bytes, vec![MODULE; 8]),
        QueryAnswer::Balance(_) => panic!("wrong answer kind"),
    }
    let r = query(&state, &QueryMsg::OwnerOf { token_id: 9 });
    assert_eq!(r.unwrap_err(), Error::NotFound);
}

#[test]
fn approved_delegate_can_transfer() {
    let mut state = fresh_lottery();
    state.items[1].approved.push(addr(ALICE));
    let r = safe_transfer_from(&mut state, &addr(ALICE), &addr(MODULE), &addr(BOB), 1);
    assert!(r.is_ok());
    assert_eq!(owner_of(&state, 1).unwrap().bytes, vec![BOB; 8]);
}
