//! Results of matching two orders, and what each party sends and receives.
//!
//! `direction` is `true` where party 0 (for an external match: the internal
//! party) sells the base token and buys the quote token.

use crate::fixed_point::{lemma_scaled_floor_exact, lemma_scaled_floor_monotone, precision_factor,
    scaled_floor, FixedPoint};
use crate::primitives::{Address, Amount, OrderSide};
use crate::scalar::{modulus, Scalar};
use crate::uint256::pow2_128;
use vstd::prelude::*;

verus! {

/// The result of matching two orders inside the pool.
#[derive(Clone, Copy, Debug, PartialEq, Eq, Structural, Hash)]
pub struct MatchResult {
    /// The quote token of the pair
    pub quote_mint: Address,
    /// The base token of the pair
    pub base_mint: Address,
    /// The amount of the quote token exchanged
    pub quote_amount: Amount,
    /// The amount of the base token exchanged
    pub base_amount: Amount,
    /// `true` where party 0 sells the base and buys the quote
    pub direction: bool,
    /// Index (0 for `false`, 1 for `true`) of the order that the match fills
    /// completely
    pub min_amount_order_index: bool,
}

impl MatchResult {
    /// What a party on the given side gives up.
    pub open spec fn spec_send_mint_amount(&self, side: OrderSide) -> (Address, Amount) {
        match side {
            OrderSide::Buy => (self.quote_mint, self.quote_amount),
            OrderSide::Sell => (self.base_mint, self.base_amount),
        }
    }

    /// What a party on the given side takes in.
    pub open spec fn spec_receive_mint_amount(&self, side: OrderSide) -> (Address, Amount) {
        match side {
            OrderSide::Buy => (self.base_mint, self.base_amount),
            OrderSide::Sell => (self.quote_mint, self.quote_amount),
        }
    }

    /// The token and amount that a party on the given side sends: a buyer
    /// sends the quote, a seller the base.
    pub fn send_mint_amount(&self, side: OrderSide) -> (r: (Address, Amount))
        ensures
            r == self.spec_send_mint_amount(side),
    {
        match side {
            OrderSide::Buy => (self.quote_mint, self.quote_amount),
            OrderSide::Sell => (self.base_mint, self.base_amount),
        }
    }

    /// The token and amount that a party on the given side receives: a buyer
    /// receives the base, a seller the quote.
    pub fn receive_mint_amount(&self, side: OrderSide) -> (r: (Address, Amount))
        ensures
            r == self.spec_receive_mint_amount(side),
    {
        match side {
            OrderSide::Buy => (self.base_mint, self.base_amount),
            OrderSide::Sell => (self.quote_mint, self.quote_amount),
        }
    }
}

impl Default for MatchResult {
    fn default() -> (r: MatchResult)
        ensures
            r.quote_mint@ == 0,
            r.base_mint@ == 0,
            r.quote_amount == 0,
            r.base_amount == 0,
            !r.direction,
            !r.min_amount_order_index,
    {
        MatchResult {
            quote_mint: Address::zero(),
            base_mint: Address::zero(),
            quote_amount: 0,
            base_amount: 0,
            direction: false,
            min_amount_order_index: false,
        }
    }
}

/// What one side sends is what the other side receives, for every match
/// result and both sides.
pub proof fn lemma_match_symmetry(m: MatchResult, side: OrderSide)
    ensures
        m.spec_send_mint_amount(side) == m.spec_receive_mint_amount(side.spec_opposite()),
        m.spec_receive_mint_amount(side) == m.spec_send_mint_amount(side.spec_opposite()),
        m.spec_send_mint_amount(OrderSide::Buy) == m.spec_receive_mint_amount(OrderSide::Sell),
        m.spec_send_mint_amount(OrderSide::Sell) == m.spec_receive_mint_amount(OrderSide::Buy),
{
}

/// Where in a wallet a settlement writes.
#[derive(Clone, Copy, Debug, PartialEq, Eq, Structural, Hash)]
pub struct OrderSettlementIndices {
    /// Index of the balance that the wallet sends from
    pub balance_send: usize,
    /// Index of the balance that the wallet receives into
    pub balance_receive: usize,
    /// Index of the order that is matched
    pub order: usize,
}

/// The result of matching an order of the pool against an outside party.
#[derive(Clone, Copy, Debug, PartialEq, Eq, Structural, Hash)]
pub struct ExternalMatchResult {
    /// The quote token of the pair
    pub quote_mint: Address,
    /// The base token of the pair
    pub base_mint: Address,
    /// The amount of the quote token exchanged
    pub quote_amount: Amount,
    /// The amount of the base token exchanged
    pub base_amount: Amount,
    /// `true` where the external party buys the base
    pub direction: bool,
}

impl ExternalMatchResult {
    /// What the external party takes in.
    pub open spec fn spec_external_party_receive(&self) -> (Address, Amount) {
        if self.direction {
            (self.base_mint, self.base_amount)
        } else {
            (self.quote_mint, self.quote_amount)
        }
    }

    /// What the external party gives up.
    pub open spec fn spec_external_party_send(&self) -> (Address, Amount) {
        if self.direction {
            (self.quote_mint, self.quote_amount)
        } else {
            (self.base_mint, self.base_amount)
        }
    }

    /// The side that the internal party is on.
    pub open spec fn spec_internal_party_side(&self) -> OrderSide {
        if self.direction {
            OrderSide::Sell
        } else {
            OrderSide::Buy
        }
    }

    /// The same match seen from inside the pool, the internal party being
    /// party 0.
    pub open spec fn spec_to_match_result(&self) -> MatchResult {
        MatchResult {
            quote_mint: self.quote_mint,
            base_mint: self.base_mint,
            quote_amount: self.quote_amount,
            base_amount: self.base_amount,
            direction: self.direction,
            min_amount_order_index: false,
        }
    }

    /// The token and amount that the external party receives: the base where
    /// it buys the base, else the quote.
    pub fn external_party_receive(&self) -> (r: (Address, Amount))
        ensures
            r == self.spec_external_party_receive(),
    {
        if self.direction {
            (self.base_mint, self.base_amount)
        } else {
            (self.quote_mint, self.quote_amount)
        }
    }

    /// The token and amount that the external party sends: the quote where it
    /// buys the base, else the base.
    pub fn external_party_send(&self) -> (r: (Address, Amount))
        ensures
            r == self.spec_external_party_send(),
    {
        if self.direction {
            (self.quote_mint, self.quote_amount)
        } else {
            (self.base_mint, self.base_amount)
        }
    }

    /// The side of the internal party: it sells where the external party
    /// buys the base.
    pub fn internal_party_side(&self) -> (r: OrderSide)
        ensures
            r == self.spec_internal_party_side(),
    {
        if self.direction {
            OrderSide::Sell
        } else {
            OrderSide::Buy
        }
    }

    /// The match as a `MatchResult` in which the internal party is party 0.
    /// The index of the filled order has no meaning here and is `false`.
    pub fn to_match_result(&self) -> (r: MatchResult)
        ensures
            r == self.spec_to_match_result(),
    {
        MatchResult {
            quote_mint: self.quote_mint,
            base_mint: self.base_mint,
            quote_amount: self.quote_amount,
            base_amount: self.base_amount,
            direction: self.direction,
            min_amount_order_index: false,
        }
    }

    /// The match result without the index of the filled order.
    pub open spec fn spec_from_match_result(value: MatchResult) -> ExternalMatchResult {
        ExternalMatchResult {
            quote_mint: value.quote_mint,
            base_mint: value.base_mint,
            quote_amount: value.quote_amount,
            base_amount: value.base_amount,
            direction: value.direction,
        }
    }
}

impl Default for ExternalMatchResult {
    fn default() -> (r: ExternalMatchResult)
        ensures
            r.quote_mint@ == 0,
            r.base_mint@ == 0,
            r.quote_amount == 0,
            r.base_amount == 0,
            !r.direction,
    {
        ExternalMatchResult {
            quote_mint: Address::zero(),
            base_mint: Address::zero(),
            quote_amount: 0,
            base_amount: 0,
            direction: false,
        }
    }
}

impl From<MatchResult> for ExternalMatchResult {
    fn from(value: MatchResult) -> (r: ExternalMatchResult) {
        ExternalMatchResult {
            quote_mint: value.quote_mint,
            base_mint: value.base_mint,
            quote_amount: value.quote_amount,
            base_amount: value.base_amount,
            direction: value.direction,
        }
    }
}

impl vstd::std_specs::convert::FromSpecImpl<MatchResult> for ExternalMatchResult {
    open spec fn obeys_from_spec() -> bool {
        true
    }

    open spec fn from_spec(value: MatchResult) -> ExternalMatchResult {
        ExternalMatchResult::spec_from_match_result(value)
    }
}

/// The external party and the internal party are counterparties: what one
/// sends the other receives, and the projection to a `MatchResult` keeps it
/// so.
pub proof fn lemma_external_match_consistent(m: ExternalMatchResult)
    ensures
        m.spec_external_party_receive() == m.spec_to_match_result().spec_send_mint_amount(
            m.spec_internal_party_side(),
        ),
        m.spec_external_party_send() == m.spec_to_match_result().spec_receive_mint_amount(
            m.spec_internal_party_side(),
        ),
        ExternalMatchResult::spec_from_match_result(m.spec_to_match_result()) == m,
{
}

/// A match whose base amount is chosen at settlement, between two bounds.
#[derive(Clone, Copy, Debug, PartialEq, Eq, Structural, Hash)]
pub struct BoundedMatchResult {
    /// The quote token of the pair
    pub quote_mint: Address,
    /// The base token of the pair
    pub base_mint: Address,
    /// The price, in quote per base
    pub price: FixedPoint,
    /// The least base amount that may be settled
    pub min_base_amount: Amount,
    /// The greatest base amount that may be settled
    pub max_base_amount: Amount,
    /// `true` where the external party buys the base
    pub direction: bool,
}

impl BoundedMatchResult {
    /// Whether the price is well formed.
    pub open spec fn wf(&self) -> bool {
        self.price.wf()
    }

    /// The quote amount that goes with a base amount.
    pub open spec fn spec_quote_amount(&self, base_amount: Amount) -> Amount {
        scaled_floor(self.price.repr@, base_amount as nat) as u128
    }

    /// The match that results from settling a base amount.
    pub open spec fn spec_to_external_match_result(&self, base_amount: Amount)
        -> ExternalMatchResult {
        ExternalMatchResult {
            quote_mint: self.quote_mint,
            base_mint: self.base_mint,
            quote_amount: self.spec_quote_amount(base_amount),
            base_amount,
            direction: self.direction,
        }
    }

    /// The quote amount for a base amount: price times base, rounded down.
    pub fn quote_amount(&self, base_amount: Amount) -> (r: Amount)
        requires
            self.wf(),
        ensures
            r == self.spec_quote_amount(base_amount),
    {
        self.price.floor_mul(base_amount)
    }

    /// The token and amount that the external party receives at a base
    /// amount.
    pub fn external_party_receive(&self, base_amount: Amount) -> (r: (Address, Amount))
        requires
            self.wf(),
        ensures
            r == self.spec_to_external_match_result(base_amount).spec_external_party_receive(),
    {
        if self.direction {
            (self.base_mint, base_amount)
        } else {
            (self.quote_mint, self.quote_amount(base_amount))
        }
    }

    /// The token and amount that the external party sends at a base amount.
    pub fn external_party_send(&self, base_amount: Amount) -> (r: (Address, Amount))
        requires
            self.wf(),
        ensures
            r == self.spec_to_external_match_result(base_amount).spec_external_party_send(),
    {
        if self.direction {
            (self.quote_mint, self.quote_amount(base_amount))
        } else {
            (self.base_mint, base_amount)
        }
    }

    /// The external match that settling the given base amount produces.
    pub fn to_external_match_result(&self, base_amount: Amount) -> (r: ExternalMatchResult)
        requires
            self.wf(),
        ensures
            r == self.spec_to_external_match_result(base_amount),
    {
        ExternalMatchResult {
            quote_mint: self.quote_mint,
            base_mint: self.base_mint,
            quote_amount: self.quote_amount(base_amount),
            base_amount,
            direction: self.direction,
        }
    }
}

impl Default for BoundedMatchResult {
    fn default() -> (r: BoundedMatchResult)
        ensures
            r.wf(),
            r.quote_mint@ == 0,
            r.base_mint@ == 0,
            r.price.repr@ == 0,
            r.min_base_amount == 0,
            r.max_base_amount == 0,
            !r.direction,
    {
        BoundedMatchResult {
            quote_mint: Address::zero(),
            base_mint: Address::zero(),
            price: FixedPoint::from_repr(Scalar::zero()),
            min_base_amount: 0,
            max_base_amount: 0,
            direction: false,
        }
    }
}

/// The quote amount is the integer part of price times base wherever that
/// product stays below the field order and its integer part fits an amount.
pub proof fn lemma_quote_amount_is_floor(m: BoundedMatchResult, base_amount: Amount)
    requires
        m.price.repr@ * (base_amount as nat) < modulus(),
        (m.price.repr@ * (base_amount as nat)) / precision_factor() < pow2_128(),
    ensures
        m.spec_quote_amount(base_amount) == (m.price.repr@ * (base_amount as nat))
            / precision_factor(),
{
    lemma_scaled_floor_exact(m.price.repr@, base_amount as nat);
}

/// On that range the quote amount does not decrease as the base amount
/// grows.
pub proof fn lemma_quote_amount_monotone(m: BoundedMatchResult, b1: Amount, b2: Amount)
    requires
        b1 <= b2,
        m.price.repr@ * (b2 as nat) < modulus(),
        (m.price.repr@ * (b2 as nat)) / precision_factor() < pow2_128(),
    ensures
        m.spec_quote_amount(b1) <= m.spec_quote_amount(b2),
{
    lemma_scaled_floor_monotone(m.price.repr@, b1 as nat, b2 as nat);
}

} // verus!
