use vstd::prelude::*;
use crate::addr::Addr;
use crate::state::{Coin, CoinV};

verus! {

/// The model of a list of attached coins.
pub open spec fn coin_views(coins: Seq<Coin>) -> Seq<CoinV> {
    coins.map_values(|c: Coin| c@)
}

/// What the host tells the ledger about the call being executed: the
/// account the lottery module itself runs under, the account that signed
/// the call, and the funds attached to it, in the order the host delivers
/// them.
#[derive(Debug)]
pub struct Env {
    pub contract_address: Addr,
    pub sender: Addr,
    pub sent_funds: Vec<Coin>,
}

/// Mathematical model of an [`Env`].
#[verifier::ext_equal]
pub struct EnvV {
    pub contract_address: Seq<u8>,
    pub sender: Seq<u8>,
    pub sent_funds: Seq<CoinV>,
}

impl View for Env {
    type V = EnvV;

    open spec fn view(&self) -> EnvV {
        EnvV {
            contract_address: self.contract_address@,
            sender: self.sender@,
            sent_funds: coin_views(self.sent_funds@),
        }
    }
}

/// The creation message: how many tickets to mint and which one carries
/// the prize.
#[derive(Clone, Copy, PartialEq, Eq, Structural)]
pub struct InitMsg {
    pub items_count: u32,
    pub golden: u32,
}

/// The mutating messages the ledger routes on.
#[derive(Debug)]
pub enum HandleMsg {
    SafeTransferFrom { from: Addr, to: Addr, token_id: u32 },
    BuyTicket { token_id: u32 },
    EndLottery {},
}

/// The read-only queries.
#[derive(Debug)]
pub enum QueryMsg {
    BalanceOf { owner: Addr },
    OwnerOf { token_id: u32 },
}

/// What a read-only query answers with.
#[derive(Debug)]
pub enum QueryAnswer {
    Balance(u32),
    Owner(Addr),
}

/// One outbound payment instruction for the host to execute as part of the
/// same atomic commit.
#[derive(Debug)]
pub struct Payment {
    pub from: Addr,
    pub to: Addr,
    pub amount: Coin,
}

/// Mathematical model of a [`Payment`].
#[verifier::ext_equal]
pub struct PaymentV {
    pub from: Seq<u8>,
    pub to: Seq<u8>,
    pub amount: CoinV,
}

impl View for Payment {
    type V = PaymentV;

    open spec fn view(&self) -> PaymentV {
        PaymentV { from: self.from@, to: self.to@, amount: self.amount@ }
    }
}

/// What a successful mutating call hands back to the host: the payment
/// instructions to execute atomically with the state change, and an opaque
/// payload for the caller.
#[derive(Debug)]
pub struct Response {
    pub messages: Vec<Payment>,
    pub data: Option<Vec<u8>>,
}

/// Mathematical model of a [`Response`].
#[verifier::ext_equal]
pub struct ResponseV {
    pub messages: Seq<PaymentV>,
    pub data: Option<Seq<u8>>,
}

impl View for Response {
    type V = ResponseV;

    open spec fn view(&self) -> ResponseV {
        ResponseV {
            messages: self.messages@.map_values(|p: Payment| p@),
            data: match self.data {
                Some(d) => Some(d@),
                None => None,
            },
        }
    }
}

} // verus!
