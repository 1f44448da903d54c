//! Buying tokens.
//!
//! A purchase is priced and checked in full before anything moves. It then
//! takes three steps that only the host can take: the platform's fee is
//! transferred to the treasury, the rest to the vault's collecting wallet,
//! and the tokens are issued to the buyer. The host reports how each step
//! went. The accounts change when the third step has succeeded, all at once;
//! where a step fails the purchase is over and the accounts are as they
//! were.

use crate::accounts::{Mint, Wallet};
use crate::address::Address;
use crate::curve::lemma_price_fits;
use crate::error::TokenError;
use crate::state::mint_authority::{Issuance, MintAuthority};
use crate::state::oracle::ViewershipOracle;
use crate::state::platform_config::PlatformConfig;
use crate::state::token_vault::TokenVault;
use vstd::prelude::*;

verus! {

/// The platform's fee is this many parts of the total cost ...
pub const FEE_NUMERATOR: u64 = 25;

/// ... out of this many.
pub const FEE_DENOMINATOR: u64 = 1000;

/// The accounts of a purchase.
#[derive(Clone, Copy, Debug, PartialEq, Eq)]
pub struct PurchaseToken {
    /// Who buys, and what they can pay with.
    pub buyer: Wallet,
    pub platform_config: PlatformConfig,
    pub mint_authority: MintAuthority,
    /// The token, and how many units of it circulate.
    pub mint: Mint,
    /// The buyer's token account, which receives the units.
    pub buyer_token_account: Address,
    pub token_vault: TokenVault,
    pub oracle: ViewershipOracle,
}

/// What a purchase costs, where the money goes, and how it leaves the
/// token.
#[derive(Clone, Copy, Debug, PartialEq, Eq)]
pub struct PurchaseQuote {
    /// Units bought.
    pub amount_tokens: u64,
    /// The price of one unit, at the supply before the purchase.
    pub price_per_token: u64,
    /// The price times the units bought.
    pub total_cost: u64,
    /// The part of the total cost that goes to the treasury.
    pub platform_fee: u64,
    /// The part of the total cost that goes to the vault.
    pub vault_amount: u64,
    /// The supply after the purchase.
    pub new_supply: u64,
    /// What the vault will have collected after the purchase.
    pub new_total_collected: u64,
    /// Whether the vault will then have reached its liquidity threshold.
    pub liquidity_ready: bool,
}

/// The platform's fee on a total cost: 2.5 %, rounded down.
pub open spec fn fee_of(total_cost: nat) -> nat {
    total_cost * (FEE_NUMERATOR as nat) / (FEE_DENOMINATOR as nat)
}

/// What is left of a total cost for the vault.
pub open spec fn vault_share_of(total_cost: nat) -> nat {
    (total_cost - fee_of(total_cost)) as nat
}

/// The fee is no more than the cost, and the two parts add up to the cost
/// exactly.
pub proof fn lemma_fee_split_is_exact(total_cost: nat)
    ensures
        fee_of(total_cost) <= total_cost,
        fee_of(total_cost) + vault_share_of(total_cost) == total_cost,
{
}

/// Splits a total cost into the platform's fee and the vault's share. The
/// split is refused where 25 times the cost leaves 64 bits.
pub fn split_cost(total_cost: u64) -> (r: Result<(u64, u64), TokenError>)
    ensures
        total_cost * FEE_NUMERATOR <= u64::MAX ==> r == Ok::<(u64, u64), TokenError>(
            (fee_of(total_cost as nat) as u64, vault_share_of(total_cost as nat) as u64),
        ),
        total_cost * FEE_NUMERATOR > u64::MAX ==> r == Err::<(u64, u64), TokenError>(
            TokenError::SupplyOverflow,
        ),
        r matches Ok((fee, rest)) ==> fee + rest == total_cost,
{
    match total_cost.checked_mul(FEE_NUMERATOR) {
        None => Err(TokenError::SupplyOverflow),
        Some(scaled) => {
            let fee: u64 = scaled / FEE_DENOMINATOR;
            Ok((fee, total_cost - fee))
        },
    }
}

/// How a purchase of `amount_tokens` units is judged on the accounts `ctx`,
/// and what it comes to.
///
/// An amount of zero is invalid. The purchase overflows where the new
/// supply, the price, the total cost or 25 times the total cost leaves 64
/// bits. The buyer must hold the total cost. Last, what the vault has
/// collected must stay within 64 bits.
pub open spec fn quote_of(ctx: PurchaseToken, amount_tokens: u64) -> Result<
    PurchaseQuote,
    TokenError,
> {
    let supply = ctx.mint.supply as nat;
    let price = ctx.oracle.price_at(supply);
    let total_cost = price * (amount_tokens as nat);
    let platform_fee = fee_of(total_cost);
    let vault_amount = vault_share_of(total_cost);
    let new_total_collected = ctx.token_vault.total_collected + vault_amount;
    if amount_tokens == 0 {
        Err(TokenError::InvalidAmount)
    } else if supply + amount_tokens > u64::MAX || ctx.oracle.overflows_at(supply) || total_cost
        > u64::MAX || total_cost * FEE_NUMERATOR > u64::MAX {
        Err(TokenError::SupplyOverflow)
    } else if ctx.buyer.lamports < total_cost {
        Err(TokenError::InsufficientFunds)
    } else if new_total_collected > u64::MAX {
        Err(TokenError::SupplyOverflow)
    } else {
        Ok(
            PurchaseQuote {
                amount_tokens,
                price_per_token: price as u64,
                total_cost: total_cost as u64,
                platform_fee: platform_fee as u64,
                vault_amount: vault_amount as u64,
                new_supply: (supply + amount_tokens) as u64,
                new_total_collected: new_total_collected as u64,
                liquidity_ready: new_total_collected >= ctx.token_vault.liquidity_threshold,
            },
        )
    }
}

/// A purchase that would take the supply out of 64 bits is refused as an
/// overflow.
pub proof fn lemma_supply_overflow_is_refused(ctx: PurchaseToken, amount_tokens: u64)
    requires
        ctx.mint.supply + amount_tokens > u64::MAX,
    ensures
        quote_of(ctx, amount_tokens) == Err::<PurchaseQuote, TokenError>(
            TokenError::SupplyOverflow,
        ),
{
}

/// What an accepted purchase comes to adds up: the total cost is the price
/// times the units bought, the fee and the vault's share make up the total
/// cost, the supply grows by the units bought, and the vault's record grows
/// by its share, so that it never goes down.
pub proof fn lemma_quote_adds_up(ctx: PurchaseToken, amount_tokens: u64)
    requires
        quote_of(ctx, amount_tokens) is Ok,
    ensures
        ({
            let q = quote_of(ctx, amount_tokens)->Ok_0;
            &&& amount_tokens > 0
            &&& q.amount_tokens == amount_tokens
            &&& q.price_per_token == ctx.oracle.price_at(ctx.mint.supply as nat)
            &&& q.total_cost == q.price_per_token * amount_tokens
            &&& q.total_cost <= ctx.buyer.lamports
            &&& q.platform_fee == q.total_cost * 25 / 1000
            &&& q.platform_fee + q.vault_amount == q.total_cost
            &&& q.new_supply == ctx.mint.supply + amount_tokens
            &&& q.new_total_collected == ctx.token_vault.total_collected + q.vault_amount
            &&& q.new_total_collected >= ctx.token_vault.total_collected
            &&& q.liquidity_ready <==> q.new_total_collected >= ctx.token_vault.liquidity_threshold
        }),
{
    lemma_price_fits(
        ctx.oracle.view_count as nat,
        ctx.mint.supply as nat,
        ctx.oracle.price_params.k as nat,
        ctx.oracle.price_params.m as nat,
    );
}

/// Prices a purchase and checks it, without changing anything.
pub fn quote(ctx: &PurchaseToken, amount_tokens: u64) -> (r: Result<PurchaseQuote, TokenError>)
    ensures
        r == quote_of(*ctx, amount_tokens),
{
    if amount_tokens == 0 {
        return Err(TokenError::InvalidAmount);
    }
    let supply: u64 = ctx.mint.supply;
    let new_supply: u64 = match supply.checked_add(amount_tokens) {
        Some(s) => s,
        None => {
            return Err(TokenError::SupplyOverflow);
        },
    };
    let price: u64 = match ctx.oracle.calculate_price(supply) {
        Ok(p) => p,
        Err(e) => {
            return Err(e);
        },
    };
    let total_cost: u64 = match price.checked_mul(amount_tokens) {
        Some(t) => t,
        None => {
            return Err(TokenError::SupplyOverflow);
        },
    };
    let (platform_fee, vault_amount) = match split_cost(total_cost) {
        Ok(parts) => parts,
        Err(e) => {
            return Err(e);
        },
    };
    if ctx.buyer.lamports < total_cost {
        return Err(TokenError::InsufficientFunds);
    }
    let mut vault: TokenVault = ctx.token_vault;
    match vault.collect(vault_amount) {
        Ok(()) => {},
        Err(e) => {
            return Err(e);
        },
    }
    Ok(
        PurchaseQuote {
            amount_tokens,
            price_per_token: price,
            total_cost,
            platform_fee,
            vault_amount,
            new_supply,
            new_total_collected: vault.total_collected,
            liquidity_ready: vault.liquidity_ready(),
        },
    )
}

/// The accounts as a purchase leaves them once it is settled: the buyer has
/// paid the total cost, the units circulate, and the vault has recorded its
/// share. Nothing else changes.
pub open spec fn settled(ctx: PurchaseToken, quote: PurchaseQuote) -> PurchaseToken {
    PurchaseToken {
        buyer: Wallet { lamports: (ctx.buyer.lamports - quote.total_cost) as u64, ..ctx.buyer },
        mint: Mint { supply: quote.new_supply, ..ctx.mint },
        token_vault: TokenVault {
            total_collected: quote.new_total_collected,
            ..ctx.token_vault
        },
        ..ctx
    }
}

/// How far a purchase has come.
#[derive(Clone, Copy, Debug, PartialEq, Eq, Structural)]
pub enum PurchaseStage {
    /// The fee is to be transferred to the treasury.
    PayPlatform,
    /// The vault's share is to be transferred to the collecting wallet.
    PayVault,
    /// The units are to be issued to the buyer.
    IssueTokens,
    /// All three steps succeeded and the accounts were updated.
    Settled,
    /// A step failed. The accounts are as they were before the purchase, and
    /// the host undoes the steps that it had taken.
    Aborted,
}

/// How the host fared with the step that it was asked to take.
#[derive(Clone, Copy, Debug, PartialEq, Eq, Structural)]
pub enum Outcome {
    Succeeded,
    Failed,
}

/// What the host is asked to do next.
#[derive(Clone, Copy, Debug, PartialEq, Eq)]
pub enum PurchaseAction {
    /// Move `lamports` base units from one wallet to another.
    Transfer { from: Address, to: Address, lamports: u64 },
    /// Credit units of the token.
    Issue(Issuance),
    /// Nothing: the purchase is over.
    Nothing,
}

/// The stage that follows `stage` when the host reports `outcome`.
pub open spec fn stage_after(stage: PurchaseStage, outcome: Outcome) -> PurchaseStage {
    match stage {
        PurchaseStage::Settled => PurchaseStage::Settled,
        PurchaseStage::Aborted => PurchaseStage::Aborted,
        PurchaseStage::PayPlatform => match outcome {
            Outcome::Succeeded => PurchaseStage::PayVault,
            Outcome::Failed => PurchaseStage::Aborted,
        },
        PurchaseStage::PayVault => match outcome {
            Outcome::Succeeded => PurchaseStage::IssueTokens,
            Outcome::Failed => PurchaseStage::Aborted,
        },
        PurchaseStage::IssueTokens => match outcome {
            Outcome::Succeeded => PurchaseStage::Settled,
            Outcome::Failed => PurchaseStage::Aborted,
        },
    }
}

/// What the host is asked to do at a stage of a purchase on the accounts
/// `ctx` that came to `quote`.
pub open spec fn action_at(stage: PurchaseStage, ctx: PurchaseToken, quote: PurchaseQuote) -> PurchaseAction {
    match stage {
        PurchaseStage::PayPlatform => PurchaseAction::Transfer {
            from: ctx.buyer.key,
            to: ctx.platform_config.platform_wallet,
            lamports: quote.platform_fee,
        },
        PurchaseStage::PayVault => PurchaseAction::Transfer {
            from: ctx.buyer.key,
            to: ctx.token_vault.sol_vault_wallet,
            lamports: quote.vault_amount,
        },
        PurchaseStage::IssueTokens => PurchaseAction::Issue(
            Issuance {
                mint: ctx.mint.key,
                destination: ctx.buyer_token_account,
                amount: quote.amount_tokens,
                authority_bump: ctx.mint_authority.bump,
            },
        ),
        PurchaseStage::Settled => PurchaseAction::Nothing,
        PurchaseStage::Aborted => PurchaseAction::Nothing,
    }
}

/// A purchase under way. It is opened by `handler`, which has priced and
/// checked it, and moved on by `advance`.
#[derive(Clone, Copy, Debug, PartialEq, Eq)]
pub struct Purchase {
    accounts: PurchaseToken,
    quote: PurchaseQuote,
    stage: PurchaseStage,
}

impl Purchase {
    /// While steps are left to take, the quote is the one that the accounts
    /// give.
    #[verifier::type_invariant]
    pub closed spec fn well_formed(&self) -> bool {
        self.stage == PurchaseStage::PayPlatform || self.stage == PurchaseStage::PayVault
            || self.stage == PurchaseStage::IssueTokens ==> quote_of(
            self.accounts,
            self.quote.amount_tokens,
        ) == Ok::<PurchaseQuote, TokenError>(self.quote)
    }

    /// The accounts: as they were when the purchase was opened, until it is
    /// settled; then as the purchase has left them.
    pub closed spec fn spec_accounts(&self) -> PurchaseToken {
        self.accounts
    }

    /// What the purchase comes to.
    pub closed spec fn spec_quote(&self) -> PurchaseQuote {
        self.quote
    }

    /// How far the purchase has come.
    pub closed spec fn spec_stage(&self) -> PurchaseStage {
        self.stage
    }

    /// The purchase after the host has reported `outcome` for the step that
    /// it was asked to take.
    pub closed spec fn after(&self, outcome: Outcome) -> Purchase {
        Purchase {
            accounts: if self.stage == PurchaseStage::IssueTokens && outcome
                == Outcome::Succeeded {
                settled(self.accounts, self.quote)
            } else {
                self.accounts
            },
            quote: self.quote,
            stage: stage_after(self.stage, outcome),
        }
    }

    /// The purchase after the host has reported these outcomes, one after
    /// the other.
    pub closed spec fn after_all(&self, outcomes: Seq<Outcome>) -> Purchase
        decreases outcomes.len(),
    {
        if outcomes.len() == 0 {
            *self
        } else {
            self.after_all(outcomes.drop_last()).after(outcomes.last())
        }
    }

    #[verifier::when_used_as_spec(spec_accounts)]
    pub fn accounts(&self) -> (r: PurchaseToken)
        ensures
            r == self.spec_accounts(),
    {
        self.accounts
    }

    #[verifier::when_used_as_spec(spec_quote)]
    pub fn quote(&self) -> (r: PurchaseQuote)
        ensures
            r == self.spec_quote(),
    {
        self.quote
    }

    #[verifier::when_used_as_spec(spec_stage)]
    pub fn stage(&self) -> (r: PurchaseStage)
        ensures
            r == self.spec_stage(),
    {
        self.stage
    }

    /// What the host is asked to do next.
    pub fn next_action(&self) -> (r: PurchaseAction)
        ensures
            r == action_at(self.stage(), self.accounts(), self.quote()),
    {
        match self.stage {
            PurchaseStage::PayPlatform => PurchaseAction::Transfer {
                from: self.accounts.buyer.key,
                to: self.accounts.platform_config.platform_wallet,
                lamports: self.quote.platform_fee,
            },
            PurchaseStage::PayVault => PurchaseAction::Transfer {
                from: self.accounts.buyer.key,
                to: self.accounts.token_vault.sol_vault_wallet,
                lamports: self.quote.vault_amount,
            },
            PurchaseStage::IssueTokens => PurchaseAction::Issue(
                self.accounts.mint_authority.issue(
                    self.accounts.mint.key,
                    self.accounts.buyer_token_account,
                    self.quote.amount_tokens,
                ),
            ),
            PurchaseStage::Settled => PurchaseAction::Nothing,
            PurchaseStage::Aborted => PurchaseAction::Nothing,
        }
    }

    /// Takes the host's report on the step that it was asked to take.
    ///
    /// A success leads to the next step, and after the last step to the
    /// settled accounts. A failure ends the purchase and leaves the accounts
    /// as they were. A purchase that is over stays as it is.
    pub fn advance(&mut self, outcome: Outcome)
        ensures
            *final(self) == old(self).after(outcome),
            final(self).stage() == stage_after(old(self).stage(), outcome),
            final(self).quote() == old(self).quote(),
            old(self).stage() == PurchaseStage::IssueTokens && outcome == Outcome::Succeeded
                ==> final(self).accounts() == settled(old(self).accounts(), old(self).quote()),
            !(old(self).stage() == PurchaseStage::IssueTokens && outcome == Outcome::Succeeded)
                ==> final(self).accounts() == old(self).accounts(),
    {
        proof {
            use_type_invariant(&*self);
        }
        let next: Purchase = match self.stage {
            PurchaseStage::Settled => *self,
            PurchaseStage::Aborted => *self,
            PurchaseStage::PayPlatform => match outcome {
                Outcome::Succeeded => Purchase {
                    accounts: self.accounts,
                    quote: self.quote,
                    stage: PurchaseStage::PayVault,
                },
                Outcome::Failed => Purchase {
                    accounts: self.accounts,
                    quote: self.quote,
                    stage: PurchaseStage::Aborted,
                },
            },
            PurchaseStage::PayVault => match outcome {
                Outcome::Succeeded => Purchase {
                    accounts: self.accounts,
                    quote: self.quote,
                    stage: PurchaseStage::IssueTokens,
                },
                Outcome::Failed => Purchase {
                    accounts: self.accounts,
                    quote: self.quote,
                    stage: PurchaseStage::Aborted,
                },
            },
            PurchaseStage::IssueTokens => match outcome {
                Outcome::Succeeded => {
                    let mut accounts: PurchaseToken = self.accounts;
                    accounts.buyer.lamports = accounts.buyer.lamports - self.quote.total_cost;
                    accounts.mint.supply = self.quote.new_supply;
                    accounts.token_vault.total_collected = self.quote.new_total_collected;
                    Purchase { accounts, quote: self.quote, stage: PurchaseStage::Settled }
                },
                Outcome::Failed => Purchase {
                    accounts: self.accounts,
                    quote: self.quote,
                    stage: PurchaseStage::Aborted,
                },
            },
        };
        *self = next;
    }

    /// What one report does to a purchase: the stage moves on, the quote
    /// stays, and the accounts change only when the issuance has succeeded.
    pub proof fn lemma_after(self, outcome: Outcome)
        ensures
            self.after(outcome).stage() == stage_after(self.stage(), outcome),
            self.after(outcome).quote() == self.quote(),
            self.stage() == PurchaseStage::IssueTokens && outcome == Outcome::Succeeded
                ==> self.after(outcome).accounts() == settled(self.accounts(), self.quote()),
            !(self.stage() == PurchaseStage::IssueTokens && outcome == Outcome::Succeeded)
                ==> self.after(outcome).accounts() == self.accounts(),
            self.after_all(seq![outcome]) == self.after(outcome),
    {
        let one = seq![outcome];
        assert(one.drop_last() =~= Seq::<Outcome>::empty());
        assert(self.after_all(one.drop_last()) == self) by {
            reveal_with_fuel(Purchase::after_all, 2);
        }
    }

    /// A purchase that is over never changes again.
    pub proof fn lemma_over_is_final(self, outcome: Outcome)
        requires
            self.stage() == PurchaseStage::Settled || self.stage() == PurchaseStage::Aborted,
        ensures
            self.after(outcome) == self,
    {
    }

    /// A failed issuance leaves the accounts untouched, though both
    /// transfers went before it: the vault has collected no more than
    /// before, and the purchase is aborted.
    pub proof fn lemma_failed_issuance_changes_nothing(self)
        requires
            self.stage() == PurchaseStage::IssueTokens,
        ensures
            self.after(Outcome::Failed).stage() == PurchaseStage::Aborted,
            self.after(Outcome::Failed).accounts() == self.accounts(),
            self.after(Outcome::Failed).accounts().token_vault.total_collected
                == self.accounts().token_vault.total_collected,
    {
    }

    /// A purchase is all or nothing. Whatever the host reports from the
    /// first step on, the purchase is settled exactly where the first three
    /// reports are successes, and then the accounts are the settled ones; in
    /// every other case the accounts are as they were when the purchase was
    /// opened.
    pub proof fn lemma_purchase_is_atomic(self, outcomes: Seq<Outcome>)
        requires
            self.stage() == PurchaseStage::PayPlatform,
        ensures
            self.after_all(outcomes).quote() == self.quote(),
            self.after_all(outcomes).stage() == PurchaseStage::Settled <==> all_succeeded(
                outcomes,
            ),
            all_succeeded(outcomes) ==> self.after_all(outcomes).accounts() == settled(
                self.accounts(),
                self.quote(),
            ),
            !all_succeeded(outcomes) ==> self.after_all(outcomes).accounts() == self.accounts(),
    {
        self.lemma_stage_after_all(outcomes);
    }

    proof fn lemma_stage_after_all(self, outcomes: Seq<Outcome>)
        requires
            self.stage == PurchaseStage::PayPlatform,
        ensures
            self.after_all(outcomes).quote == self.quote,
            self.after_all(outcomes).stage == stage_reached(outcomes),
            self.after_all(outcomes).accounts == if all_succeeded(outcomes) {
                settled(self.accounts, self.quote)
            } else {
                self.accounts
            },
            stage_reached(outcomes) == PurchaseStage::Settled <==> all_succeeded(outcomes),
        decreases outcomes.len(),
    {
        lemma_stage_reached(outcomes);
        if outcomes.len() > 0 {
            let before = outcomes.drop_last();
            self.lemma_stage_after_all(before);
            lemma_stage_reached(before);
            if before.len() >= 3 {
                assert(before[0] == outcomes[0]);
                assert(before[1] == outcomes[1]);
                assert(before[2] == outcomes[2]);
            }
        }
    }
}

/// The three steps of a purchase were all reported as successes.
pub open spec fn all_succeeded(outcomes: Seq<Outcome>) -> bool {
    outcomes.len() >= 3 && outcomes[0] == Outcome::Succeeded && outcomes[1] == Outcome::Succeeded
        && outcomes[2] == Outcome::Succeeded
}

/// The stage that a purchase has reached after these reports, counted from
/// its first step.
pub open spec fn stage_reached(outcomes: Seq<Outcome>) -> PurchaseStage
    decreases outcomes.len(),
{
    if outcomes.len() == 0 {
        PurchaseStage::PayPlatform
    } else {
        stage_after(stage_reached(outcomes.drop_last()), outcomes.last())
    }
}

/// Opens a purchase of `amount_tokens` units on the accounts `ctx`.
///
/// The purchase is priced and checked first. Where it is refused there is
/// no purchase, so nothing is transferred and nothing is issued. Where it is
/// accepted it stands at its first step, on the accounts as they were given.
pub fn handler(ctx: PurchaseToken, amount_tokens: u64) -> (r: Result<Purchase, TokenError>)
    ensures
        match quote_of(ctx, amount_tokens) {
            Ok(q) => r matches Ok(p) && p.stage() == PurchaseStage::PayPlatform && p.accounts()
                == ctx && p.quote() == q,
            Err(e) => r == Err::<Purchase, TokenError>(e),
        },
        amount_tokens == 0 ==> r == Err::<Purchase, TokenError>(TokenError::InvalidAmount),
        ctx.mint.supply + amount_tokens > u64::MAX ==> r == Err::<Purchase, TokenError>(
            TokenError::SupplyOverflow,
        ),
{
    match quote(&ctx, amount_tokens) {
        Ok(q) => Ok(Purchase { accounts: ctx, quote: q, stage: PurchaseStage::PayPlatform }),
        Err(e) => Err(e),
    }
}

/// Which reports lead to which stage: each step is reached by successes
/// alone, and the purchase is settled by three successes, whatever follows
/// them.
pub proof fn lemma_stage_reached(outcomes: Seq<Outcome>)
    ensures
        stage_reached(outcomes) == PurchaseStage::PayPlatform <==> outcomes.len() == 0,
        stage_reached(outcomes) == PurchaseStage::PayVault <==> outcomes.len() == 1 && outcomes[0]
            == Outcome::Succeeded,
        stage_reached(outcomes) == PurchaseStage::IssueTokens <==> outcomes.len() == 2
            && outcomes[0] == Outcome::Succeeded && outcomes[1] == Outcome::Succeeded,
        stage_reached(outcomes) == PurchaseStage::Settled <==> all_succeeded(outcomes),
    decreases outcomes.len(),
{
    if outcomes.len() > 0 {
        let before = outcomes.drop_last();
        lemma_stage_reached(before);
        if before.len() >= 1 {
            assert(before[0] == outcomes[0]);
        }
        if before.len() >= 2 {
            assert(before[1] == outcomes[1]);
        }
        if before.len() >= 3 {
            assert(before[2] == outcomes[2]);
        }
    }
}

} // verus!
