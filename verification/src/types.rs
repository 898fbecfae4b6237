//! Plain values that the host hands to an operation: what was paid, who
//! called, and when.
use vstd::prelude::*;

verus! {

/// An amount of one denomination.
#[derive(Debug, PartialEq, Eq)]
pub struct Coin {
    pub denom: String,
    pub amount: u128,
}

/// A [`Coin`] as a mathematical value.
pub struct CoinView {
    pub denom: Seq<char>,
    pub amount: nat,
}

impl View for Coin {
    type V = CoinView;

    open spec fn view(&self) -> CoinView {
        CoinView { denom: self.denom@, amount: self.amount as nat }
    }
}

impl Clone for Coin {
    fn clone(&self) -> (res: Self)
        ensures
            res == *self,
    {
        Coin { denom: self.denom.clone(), amount: self.amount }
    }
}

/// Builds a coin of `amount` units of `denom`.
pub fn coin(amount: u128, denom: &str) -> (c: Coin)
    ensures
        c@ == (CoinView { denom: denom@, amount: amount as nat }),
{
    Coin { denom: denom.to_owned(), amount }
}

/// Who called, and the coins sent along with the call.
#[derive(Debug, Clone, PartialEq, Eq)]
pub struct MessageInfo {
    pub sender: String,
    pub funds: Vec<Coin>,
}

/// A [`MessageInfo`] as a mathematical value.
pub struct MessageInfoView {
    pub sender: Seq<char>,
    pub funds: Seq<CoinView>,
}

impl View for MessageInfo {
    type V = MessageInfoView;

    open spec fn view(&self) -> MessageInfoView {
        MessageInfoView {
            sender: self.sender@,
            funds: self.funds@.map_values(|c: Coin| c@),
        }
    }
}

/// The block in which the call runs.
#[derive(Debug, Clone, PartialEq, Eq)]
pub struct BlockInfo {
    /// Number of blocks before this one.
    pub height: u64,
    /// Time of the block's creation, in nanoseconds since the Unix epoch.
    pub time: u64,
    pub chain_id: String,
}

/// The pool's own place on the chain.
#[derive(Debug, Clone, PartialEq, Eq)]
pub struct ContractInfo {
    pub address: String,
}

/// Where and when the call runs.
#[derive(Debug, Clone, PartialEq, Eq)]
pub struct Env {
    pub block: BlockInfo,
    pub contract: ContractInfo,
}

/// An [`Env`] as a mathematical value: the block's height and time, and the
/// pool's own address.
pub struct EnvView {
    pub height: u64,
    pub time: u64,
    pub contract: Seq<char>,
}

impl View for Env {
    type V = EnvView;

    open spec fn view(&self) -> EnvView {
        EnvView {
            height: self.block.height,
            time: self.block.time,
            contract: self.contract.address@,
        }
    }
}

} // verus!
