//! What an operation hands back for the host to carry out.
use vstd::prelude::*;
use crate::types::{Coin, CoinView};

verus! {

/// One action that the host carries out once the operation has succeeded.
#[derive(Debug, Clone, PartialEq, Eq)]
#[allow(inconsistent_fields)]
pub enum Effect {
    /// Have the LP share contract mint `amount` shares to `recipient`.
    Mint { lp_contract: String, recipient: String, amount: u128 },
    /// Have the LP share contract burn `amount` of `owner`'s shares.
    BurnFrom { lp_contract: String, owner: String, amount: u128 },
    /// Transfer `amount` out of the pool's funds to `to_address`.
    Send { to_address: String, amount: Coin },
}

/// An [`Effect`] as a mathematical value.
#[allow(inconsistent_fields)]
pub enum EffectView {
    Mint { lp_contract: Seq<char>, recipient: Seq<char>, amount: nat },
    BurnFrom { lp_contract: Seq<char>, owner: Seq<char>, amount: nat },
    Send { to_address: Seq<char>, amount: CoinView },
}

impl EffectView {
    /// The amount that the effect moves.
    pub open spec fn amount(self) -> nat {
        match self {
            EffectView::Mint { amount, .. } => amount,
            EffectView::BurnFrom { amount, .. } => amount,
            EffectView::Send { amount, .. } => amount.amount,
        }
    }
}

impl View for Effect {
    type V = EffectView;

    open spec fn view(&self) -> EffectView {
        match self {
            Effect::Mint { lp_contract, recipient, amount } => EffectView::Mint {
                lp_contract: lp_contract@,
                recipient: recipient@,
                amount: *amount as nat,
            },
            Effect::BurnFrom { lp_contract, owner, amount } => EffectView::BurnFrom {
                lp_contract: lp_contract@,
                owner: owner@,
                amount: *amount as nat,
            },
            Effect::Send { to_address, amount } => EffectView::Send {
                to_address: to_address@,
                amount: amount@,
            },
        }
    }
}

/// What an attribute says: text, or an amount, which the host writes in
/// decimal.
#[derive(Debug, Clone, PartialEq, Eq)]
pub enum AttributeValue {
    Text(String),
    Amount(u128),
}

/// An [`AttributeValue`] as a mathematical value.
pub enum AttributeValueView {
    Text(Seq<char>),
    Amount(nat),
}

impl View for AttributeValue {
    type V = AttributeValueView;

    open spec fn view(&self) -> AttributeValueView {
        match self {
            AttributeValue::Text(text) => AttributeValueView::Text(text@),
            AttributeValue::Amount(amount) => AttributeValueView::Amount(*amount as nat),
        }
    }
}

/// A key and a value that a successful operation reports of itself, for the
/// host's event log.
#[derive(Debug, Clone, PartialEq, Eq)]
pub struct Attribute {
    pub key: String,
    pub value: AttributeValue,
}

/// An [`Attribute`] as a mathematical value.
pub struct AttributeView {
    pub key: Seq<char>,
    pub value: AttributeValueView,
}

impl AttributeView {
    /// The attribute `key` with the text `text`.
    pub open spec fn text(key: Seq<char>, text: Seq<char>) -> AttributeView {
        AttributeView { key, value: AttributeValueView::Text(text) }
    }

    /// The attribute `key` with the amount `amount`.
    pub open spec fn amount(key: Seq<char>, amount: nat) -> AttributeView {
        AttributeView { key, value: AttributeValueView::Amount(amount) }
    }

    /// The amount that the attribute reports can be held in 128 bits.
    pub open spec fn fits(self) -> bool {
        self.value matches AttributeValueView::Amount(amount) ==> amount <= u128::MAX
    }
}

impl View for Attribute {
    type V = AttributeView;

    open spec fn view(&self) -> AttributeView {
        AttributeView { key: self.key@, value: self.value@ }
    }
}

/// What a successful operation hands back: the effects, in the order in
/// which the host carries them out, and the attributes, in the order in
/// which it logs them.
#[derive(Debug, Clone, PartialEq, Eq)]
pub struct Response {
    pub messages: Vec<Effect>,
    pub attributes: Vec<Attribute>,
}

/// A [`Response`] as a mathematical value.
pub struct ResponseView {
    pub messages: Seq<EffectView>,
    pub attributes: Seq<AttributeView>,
}

impl ResponseView {
    /// The response without effects and attributes.
    pub open spec fn empty() -> ResponseView {
        ResponseView { messages: Seq::empty(), attributes: Seq::empty() }
    }

    /// Every amount of the effects and of the attributes can be held in 128
    /// bits.
    pub open spec fn fits(self) -> bool {
        &&& forall|i: int|
            0 <= i < self.messages.len() ==> (#[trigger] self.messages[i]).amount() <= u128::MAX
        &&& forall|i: int| 0 <= i < self.attributes.len() ==> (#[trigger] self.attributes[i]).fits()
    }
}

impl View for Response {
    type V = ResponseView;

    open spec fn view(&self) -> ResponseView {
        ResponseView {
            messages: self.messages@.map_values(|e: Effect| e@),
            attributes: self.attributes@.map_values(|a: Attribute| a@),
        }
    }
}

impl Response {
    /// A response without effects and attributes.
    pub fn new() -> (response: Response)
        ensures
            response@ == ResponseView::empty(),
    {
        let response = Response { messages: Vec::new(), attributes: Vec::new() };
        assert(response@.messages =~= Seq::<EffectView>::empty());
        assert(response@.attributes =~= Seq::<AttributeView>::empty());
        response
    }

    /// The response with `effect` added after the effects it holds.
    pub fn add_message(self, effect: Effect) -> (response: Response)
        ensures
            response@ == (ResponseView { messages: self@.messages.push(effect@), ..self@ }),
    {
        let mut messages = self.messages;
        messages.push(effect);
        let response = Response { messages, attributes: self.attributes };
        assert(response@.messages =~= self@.messages.push(effect@));
        response
    }

    /// The response with the attribute of `key` and `value` added after the
    /// attributes it holds.
    pub fn add_attribute(self, key: String, value: AttributeValue) -> (response: Response)
        ensures
            response@ == (ResponseView {
                attributes: self@.attributes.push(AttributeView { key: key@, value: value@ }),
                ..self@
            }),
    {
        let mut attributes = self.attributes;
        attributes.push(Attribute { key, value });
        let response = Response { messages: self.messages, attributes };
        assert(response@.attributes =~= self@.attributes.push(
            AttributeView { key: key@, value: value@ },
        ));
        response
    }
}

} // verus!
