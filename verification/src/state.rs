use vstd::prelude::*;
use crate::addr::Addr;

verus! {

/// The denomination every ticket value and the prize are expressed in.
pub open spec fn spec_ticket_denom() -> Seq<char> {
    "uscrt"@
}

/// The denomination every ticket value and the prize are expressed in, as a
/// fresh owned string.
pub fn ticket_denom() -> (s: String)
    ensures
        s@ == spec_ticket_denom(),
{
    String::from_str("uscrt")
}

/// A currency amount with its denomination.
#[derive(Debug)]
pub struct Coin {
    pub denom: String,
    pub amount: u128,
}

/// Mathematical model of a [`Coin`].
#[verifier::ext_equal]
pub struct CoinV {
    pub denom: Seq<char>,
    pub amount: u128,
}

impl View for Coin {
    type V = CoinV;

    open spec fn view(&self) -> CoinV {
        CoinV { denom: self.denom@, amount: self.amount }
    }
}

impl Clone for Coin {
    fn clone(&self) -> (r: Coin)
        ensures
            r@ == self@,
    {
        Coin { denom: self.denom.clone(), amount: self.amount }
    }
}

/// The model of the nominal unit value every ticket starts with.
pub open spec fn nominal_coin() -> CoinV {
    CoinV { denom: spec_ticket_denom(), amount: 1 }
}

/// One numbered lottery entry: its id doubles as its position in the ticket
/// sequence, `value` is what settlement pays its final holder, `owner` is
/// the account it currently belongs to, and `approved` lists the accounts
/// allowed to transfer it on the owner's behalf (no operation of this design
/// populates it, so it stays empty until delegation is implemented).
#[derive(Debug)]
pub struct Item {
    pub id: u32,
    pub value: Coin,
    pub owner: Addr,
    pub approved: Vec<Addr>,
}

/// Mathematical model of an [`Item`].
#[verifier::ext_equal]
pub struct ItemV {
    pub id: u32,
    pub value: CoinV,
    pub owner: Seq<u8>,
    pub approved: Seq<Seq<u8>>,
}

impl View for Item {
    type V = ItemV;

    open spec fn view(&self) -> ItemV {
        ItemV {
            id: self.id,
            value: self.value@,
            owner: self.owner@,
            approved: self.approved@.map_values(|a: Addr| a@),
        }
    }
}

/// The single persisted record holding all lottery state.
#[derive(Debug)]
pub struct State {
    pub items: Vec<Item>,
    pub contract_owner: Addr,
    pub winning_prize: Coin,
    pub deposit: u128,
    pub ended: bool,
}

/// Mathematical model of a [`State`].
#[verifier::ext_equal]
pub struct StateV {
    pub items: Seq<ItemV>,
    pub contract_owner: Seq<u8>,
    pub winning_prize: CoinV,
    pub deposit: u128,
    pub ended: bool,
}

impl View for State {
    type V = StateV;

    open spec fn view(&self) -> StateV {
        StateV {
            items: self.items@.map_values(|it: Item| it@),
            contract_owner: self.contract_owner@,
            winning_prize: self.winning_prize@,
            deposit: self.deposit,
            ended: self.ended,
        }
    }
}

impl StateV {
    /// Well-formedness of the persisted record: ticket ids are the
    /// contiguous range `0..n-1`, so each id doubles as its index, and the
    /// ticket count fits the 32-bit id space.
    pub open spec fn wf(self) -> bool {
        &&& self.items.len() <= u32::MAX as int
        &&& forall|i: int| 0 <= i < self.items.len() ==> (#[trigger] self.items[i]).id == i as u32
    }
}

/// How many tickets of `items` are currently recorded as belonging to
/// `owner`.
pub open spec fn count_owned(items: Seq<ItemV>, owner: Seq<u8>) -> nat
    decreases items.len(),
{
    if items.len() == 0 {
        0
    } else {
        count_owned(items.drop_last(), owner) + if items.last().owner == owner {
            1nat
        } else {
            0nat
        }
    }
}

} // verus!
