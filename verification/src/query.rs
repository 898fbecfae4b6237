//! What the pool asks of the LP share contract, and what comes back.
use vstd::prelude::*;
use cosmwasm_std::Timestamp;
use crate::types::BlockInfo;

verus! {

/// A read-only question to the LP share contract.
#[derive(Debug, Clone, PartialEq, Eq)]
pub enum LPQueryMsg {
    /// How many shares exist.
    TotalSupply {},
    /// How many shares exist, and how many of `owner`'s shares `spender` may
    /// spend, until when.
    AllowanceAndTotalSupply { owner: String, spender: String },
}

/// An [`LPQueryMsg`] as a mathematical value.
pub enum LPQueryMsgView {
    TotalSupply,
    AllowanceAndTotalSupply { owner: Seq<char>, spender: Seq<char> },
}

impl View for LPQueryMsg {
    type V = LPQueryMsgView;

    open spec fn view(&self) -> LPQueryMsgView {
        match self {
            LPQueryMsg::TotalSupply {} => LPQueryMsgView::TotalSupply,
            LPQueryMsg::AllowanceAndTotalSupply { owner, spender } => {
                LPQueryMsgView::AllowanceAndTotalSupply { owner: owner@, spender: spender@ }
            },
        }
    }
}

/// A question together with the contract to put it to.
#[derive(Debug, Clone, PartialEq, Eq)]
pub struct LPQuery {
    pub contract_addr: String,
    pub msg: LPQueryMsg,
}

/// An [`LPQuery`] as a mathematical value.
pub struct LPQueryView {
    pub contract_addr: Seq<char>,
    pub msg: LPQueryMsgView,
}

impl View for LPQuery {
    type V = LPQueryView;

    open spec fn view(&self) -> LPQueryView {
        LPQueryView { contract_addr: self.contract_addr@, msg: self.msg@ }
    }
}

/// The point at which an approval ends.
#[derive(Debug, Clone, Copy, PartialEq, Eq, Structural)]
pub enum Expiration {
    /// Ends once the block height has reached this height.
    AtHeight(u64),
    /// Ends once the block time has reached this time, in nanoseconds since
    /// the Unix epoch.
    AtTime(u64),
    /// Never ends.
    Never {},
}

impl Expiration {
    /// Whether the approval has ended in a block of the given height and
    /// time.
    pub open spec fn expired_at(self, height: u64, time: u64) -> bool {
        match self {
            Expiration::AtHeight(h) => height >= h,
            Expiration::AtTime(t) => time >= t,
            Expiration::Never {} => false,
        }
    }
}

/// Calls `cw20::Expiration::is_expired`, which `cw20` has from `cw_utils`, on
/// the same expiration and block. An expiration at a height has passed once
/// the block's height has reached it, one at a time once the block's time
/// has reached it, and `Never` has not passed in any block.
#[verifier::external_body]
pub(crate) fn is_expired(expires: &Expiration, block: &BlockInfo) -> (expired: bool)
    ensures
        expired == expires.expired_at(block.height, block.time),
{
    let at = cosmwasm_std::BlockInfo {
        height: block.height,
        time: Timestamp::from_nanos(block.time),
        chain_id: block.chain_id.clone(),
    };
    let until = match expires {
        Expiration::AtHeight(h) => cw20::Expiration::AtHeight(*h),
        Expiration::AtTime(t) => cw20::Expiration::AtTime(Timestamp::from_nanos(*t)),
        Expiration::Never {} => cw20::Expiration::Never {},
    };
    until.is_expired(&at)
}

/// The LP share contract's answer to `AllowanceAndTotalSupply`.
#[derive(Debug, Clone, Copy, PartialEq, Eq, Structural)]
pub struct AllowanceAndTotalSupplyResponse {
    pub total_supply: u128,
    pub allowance: u128,
    pub expires: Expiration,
}

/// An answer of the LP share contract.
#[derive(Debug, Clone, Copy, PartialEq, Eq, Structural)]
pub enum LPQueryResponse {
    /// The answer to `TotalSupply`.
    TotalSupply(u128),
    /// The answer to `AllowanceAndTotalSupply`.
    AllowanceAndTotalSupply(AllowanceAndTotalSupplyResponse),
}

} // verus!
