use crate::address::Address;
use crate::curve::{
    calculate_price,
    lemma_price_is_monotonic,
    price_formula,
    price_outcome,
    price_overflows,
};
use crate::error::TokenError;
use crate::state::platform_config::PlatformConfig;
use vstd::prelude::*;

verus! {

/// The two factors of a token's bonding curve.
#[derive(Clone, Copy, Debug, PartialEq, Eq)]
pub struct PriceParameters {
    /// Factor of the quadratic term, in units of 10^-12.
    pub k: u64,
    /// Factor of the view term, in units of 10^-6.
    pub m: u64,
}

/// The factor `k` that a new oracle starts with.
pub const DEFAULT_K: u64 = 1;

/// The factor `m` that a new oracle starts with.
pub const DEFAULT_M: u64 = 100;

/// A token's oracle: how often its content was viewed, and the factors of
/// its curve. The price is computed from these whenever it is asked for, and
/// stored nowhere.
#[derive(Clone, Copy, Debug, PartialEq, Eq)]
pub struct ViewershipOracle {
    /// The token that this oracle belongs to.
    pub mint: Address,
    /// Views counted so far. It never goes down.
    pub view_count: u64,
    /// When the view count was last written, in seconds of Unix time.
    pub last_updated: i64,
    pub price_params: PriceParameters,
    pub bump: u8,
}

/// One report of a view count: who made it, under which configuration of
/// the platform, and when.
#[derive(Clone, Copy, Debug, PartialEq, Eq)]
pub struct ViewReport {
    pub config: PlatformConfig,
    pub caller: Address,
    pub new_view_count: u64,
    pub now: i64,
}

impl ViewershipOracle {
    /// Bytes that the stored record takes: a tag of 8 bytes, the mint, the
    /// view count, the time, the two factors and the bump.
    pub const INIT_SPACE: usize = 8 + 32 + 8 + 8 + 16 + 1;

    /// The oracle of a new token: no views yet, and the default factors.
    pub fn new(mint: Address, now: i64, bump: u8) -> (r: ViewershipOracle)
        ensures
            r == (ViewershipOracle {
                mint,
                view_count: 0,
                last_updated: now,
                price_params: PriceParameters { k: DEFAULT_K, m: DEFAULT_M },
                bump,
            }),
    {
        ViewershipOracle {
            mint,
            view_count: 0,
            last_updated: now,
            price_params: PriceParameters { k: DEFAULT_K, m: DEFAULT_M },
            bump,
        }
    }

    /// The price of one token at a circulating supply, by the curve.
    pub open spec fn price_at(self, supply: nat) -> nat {
        price_formula(
            self.view_count as nat,
            supply,
            self.price_params.k as nat,
            self.price_params.m as nat,
        )
    }

    /// Whether the price at a circulating supply is beyond 64 bits.
    pub open spec fn overflows_at(self, supply: nat) -> bool {
        price_overflows(
            self.view_count as nat,
            supply,
            self.price_params.k as nat,
            self.price_params.m as nat,
        )
    }

    /// What asking for the price at a circulating supply gives: the price,
    /// or the refusal of a price that is beyond 64 bits.
    pub open spec fn price_outcome_at(self, supply: nat) -> Result<u64, TokenError> {
        price_outcome(
            self.view_count as nat,
            supply,
            self.price_params.k as nat,
            self.price_params.m as nat,
        )
    }

    /// The price of one token at a circulating supply. It is refused exactly
    /// where it is beyond 64 bits.
    pub fn calculate_price(&self, supply: u64) -> (r: Result<u64, TokenError>)
        ensures
            r == self.price_outcome_at(supply as nat),
            r is Ok ==> self.price_at(supply as nat) <= u64::MAX,
    {
        calculate_price(self.view_count, supply, self.price_params.k, self.price_params.m)
    }

    /// How an update answers: it is refused to anyone but the oracle
    /// authority, and then where the new count is less than the one held.
    pub open spec fn update_outcome(
        self,
        config: PlatformConfig,
        caller: Address,
        new_view_count: u64,
    ) -> Result<(), TokenError> {
        if caller != config.oracle_authority {
            Err(TokenError::UnauthorizedOracleUpdate)
        } else if new_view_count < self.view_count {
            Err(TokenError::InvalidViewCount)
        } else {
            Ok(())
        }
    }

    /// The oracle after an update: unchanged where the update is refused,
    /// else with the new count and the time of the update.
    pub open spec fn after_update(
        self,
        config: PlatformConfig,
        caller: Address,
        new_view_count: u64,
        now: i64,
    ) -> ViewershipOracle {
        if self.update_outcome(config, caller, new_view_count) is Ok {
            ViewershipOracle {
                mint: self.mint,
                view_count: new_view_count,
                last_updated: now,
                price_params: self.price_params,
                bump: self.bump,
            }
        } else {
            self
        }
    }

    /// Writes a new view count, reported by `caller` at the time `now`.
    pub fn update_view_count(
        &mut self,
        config: &PlatformConfig,
        caller: &Address,
        new_view_count: u64,
        now: i64,
    ) -> (r: Result<(), TokenError>)
        ensures
            r == old(self).update_outcome(*config, *caller, new_view_count),
            *final(self) == old(self).after_update(*config, *caller, new_view_count, now),
            final(self).view_count >= old(self).view_count,
    {
        if *caller != config.oracle_authority {
            return Err(TokenError::UnauthorizedOracleUpdate);
        }
        if new_view_count < self.view_count {
            return Err(TokenError::InvalidViewCount);
        }
        self.view_count = new_view_count;
        self.last_updated = now;
        Ok(())
    }

    /// Writes the view count of a report, as `update_view_count` does.
    pub fn apply(&mut self, report: &ViewReport) -> (r: Result<(), TokenError>)
        ensures
            r == old(self).update_outcome(report.config, report.caller, report.new_view_count),
            *final(self) == old(self).after_report(*report),
    {
        self.update_view_count(&report.config, &report.caller, report.new_view_count, report.now)
    }

    /// The oracle after one report.
    pub open spec fn after_report(self, report: ViewReport) -> ViewershipOracle {
        self.after_update(report.config, report.caller, report.new_view_count, report.now)
    }

    /// The oracle after a run of reports, each applied to what the one
    /// before it left.
    pub open spec fn after_reports(self, reports: Seq<ViewReport>) -> ViewershipOracle
        decreases reports.len(),
    {
        if reports.len() == 0 {
            self
        } else {
            self.after_reports(reports.drop_last()).after_report(reports.last())
        }
    }

    /// The view count never goes down: along any run of reports, accepted or
    /// refused, by whomever and under whatever configuration, the count
    /// after more reports is at least the count after fewer.
    pub proof fn lemma_view_count_never_decreases(
        self,
        reports: Seq<ViewReport>,
        fewer: int,
        more: int,
    )
        requires
            0 <= fewer <= more <= reports.len(),
        ensures
            self.after_reports(reports.take(fewer)).view_count <= self.after_reports(
                reports.take(more),
            ).view_count,
        decreases more,
    {
        if fewer < more {
            self.lemma_view_count_never_decreases(reports, fewer, more - 1);
            assert(reports.take(more).drop_last() =~= reports.take(more - 1));
        }
    }

    /// A report of a count below the one held is refused, to the oracle
    /// authority as an invalid view count, and leaves the oracle as it was.
    pub proof fn lemma_lower_count_is_refused(
        self,
        config: PlatformConfig,
        caller: Address,
        new_view_count: u64,
        now: i64,
    )
        requires
            caller == config.oracle_authority,
            new_view_count < self.view_count,
        ensures
            self.update_outcome(config, caller, new_view_count) == Err::<(), TokenError>(
                TokenError::InvalidViewCount,
            ),
            self.after_update(config, caller, new_view_count, now) == self,
    {
    }

    /// A report by anyone but the oracle authority is refused as
    /// unauthorized, whatever it reports, and leaves the oracle as it was.
    pub proof fn lemma_stranger_is_refused(
        self,
        config: PlatformConfig,
        caller: Address,
        new_view_count: u64,
        now: i64,
    )
        requires
            caller != config.oracle_authority,
        ensures
            self.update_outcome(config, caller, new_view_count) == Err::<(), TokenError>(
                TokenError::UnauthorizedOracleUpdate,
            ),
            self.after_update(config, caller, new_view_count, now) == self,
    {
    }

    /// The price that the oracle gives never falls when the supply grows or
    /// when a report is accepted, and a price that is refused stays refused.
    pub proof fn lemma_price_never_falls(
        self,
        later: ViewershipOracle,
        supply: nat,
        more_supply: nat,
    )
        requires
            later.price_params == self.price_params,
            self.view_count <= later.view_count,
            supply <= more_supply,
        ensures
            self.price_at(supply) <= later.price_at(more_supply),
            self.overflows_at(supply) ==> later.overflows_at(more_supply),
    {
        lemma_price_is_monotonic(
            self.view_count as nat,
            supply,
            later.view_count as nat,
            more_supply,
            self.price_params.k as nat,
            self.price_params.m as nat,
        );
    }
}

} // verus!
