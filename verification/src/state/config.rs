//! Program-wide configuration: authorities, fee rates, token templates.

use vstd::prelude::*;
use vstd::std_specs::cmp::{PartialEqIs, PartialEqSpec, PartialOrdIs, PartialOrdSpec};
use core::fmt::Debug;
use crate::errors::PredictionMarketError;
use crate::pubkey::Pubkey;
use crate::utils::{decimal_unit, ten_to};

verus! {

/// The configuration every market operation reads and none of them changes.
#[derive(Clone, Copy, Debug, PartialEq, Eq)]
pub struct Config {
    /// The administrator.
    pub authority: Pubkey,
    /// The administrator-to-be, until that party accepts.
    pub pending_authority: Pubkey,
    /// Where the platform's fees go.
    pub team_wallet: Pubkey,
    /// The platform's fee on a buy, in basis points.
    pub platform_buy_fee: u64,
    /// The platform's fee on a sell, in basis points.
    pub platform_sell_fee: u64,
    /// The liquidity providers' fee on a buy, in basis points.
    pub lp_buy_fee: u64,
    /// The liquidity providers' fee on a sell, in basis points.
    pub lp_sell_fee: u64,
    /// How many tokens of each outcome a new market mints.
    pub token_supply_config: u64,
    /// The number of decimals of the outcome tokens.
    pub token_decimals_config: u8,
    /// How many tokens of each outcome a new market puts on its curve.
    pub initial_real_token_reserves_config: u64,
    /// The least collateral a market must hold.
    pub min_sol_liquidity: u64,
    /// Whether the configuration has been written.
    pub initialized: bool,
}

impl Config {
    /// What is wrong with the token settings, if anything: a token unit
    /// beyond 64 bits; a supply that is not a whole number of tokens; or a
    /// supply below the initial reserves times their number of whole
    /// tokens.
    pub open spec fn validation_error(self) -> Option<PredictionMarketError> {
        let unit = ten_to(self.token_decimals_config as nat);
        if unit > u64::MAX {
            Some(PredictionMarketError::ArithmeticError)
        } else if self.token_supply_config as nat % unit != 0 {
            Some(PredictionMarketError::ValueInvalid)
        } else if (self.token_supply_config as nat) < (self.initial_real_token_reserves_config
            as nat / unit) * self.initial_real_token_reserves_config as nat {
            Some(PredictionMarketError::InvalidAmount)
        } else {
            None
        }
    }

    /// Checks the token settings of a configuration that is about to be
    /// written.
    pub fn validate(&self) -> (out: Result<(), PredictionMarketError>)
        ensures
            out == (match self.validation_error() {
                Some(e) => Err::<(), PredictionMarketError>(e),
                None => Ok::<(), PredictionMarketError>(()),
            }),
    {
        let unit: u64 = match decimal_unit(self.token_decimals_config) {
            Some(unit) => unit,
            None => {
                return Err(PredictionMarketError::ArithmeticError);
            },
        };
        proof {
            crate::utils::lemma_ten_to_grows(0, self.token_decimals_config as nat);
        }
        if self.token_supply_config % unit != 0 {
            return Err(PredictionMarketError::ValueInvalid);
        }
        let whole: u64 = self.initial_real_token_reserves_config / unit;
        proof {
            assert(0 <= whole * self.initial_real_token_reserves_config <= u128::MAX)
                by (nonlinear_arith)
                requires
                    0 <= whole <= u64::MAX,
                    0 <= self.initial_real_token_reserves_config <= u64::MAX,
            ;
        }
        let floor: u128 = whole as u128 * self.initial_real_token_reserves_config as u128;
        if (self.token_supply_config as u128) < floor {
            return Err(PredictionMarketError::InvalidAmount);
        }
        Ok(())
    }
}

/// Whether `value` equals one of `options`.
pub open spec fn is_listed<T: PartialEq>(options: Seq<T>, value: T) -> bool {
    exists|i: int| 0 <= i < options.len() && (#[trigger] options[i]).is_eq(&value)
}

/// Looks `value` up among `options`.
fn find_listed<T: PartialEq>(options: &Vec<T>, value: &T) -> (found: bool)
    ensures
        T::obeys_eq_spec() ==> found == is_listed(options@, *value),
{
    let mut i: usize = 0;
    while i < options.len()
        invariant
            i <= options.len(),
            T::obeys_eq_spec() ==> forall|j: int|
                0 <= j < i ==> !(#[trigger] options@[j]).is_eq(value),
        decreases options.len() - i,
    {
        if options[i] == *value {
            proof {
                assert(T::obeys_eq_spec() ==> options@[i as int].is_eq(value));
            }
            return true;
        }
        i += 1;
    }
    false
}

/// The values a setting may take: those of a range, or those of a list.
#[derive(Debug, PartialEq, Eq)]
pub enum AmountConfig<T: PartialEq + PartialOrd + Debug> {
    /// Every value from `min` to `max`, both included; a bound that is
    /// absent does not restrict.
    Range { min: Option<T>, max: Option<T> },
    /// The values listed.
    Enum(Vec<T>),
}

impl<T: PartialEq + PartialOrd + Debug> AmountConfig<T> {
    /// Whether `value` passes, and if not, why: it lies below the range,
    /// above it, or is not among the values listed.
    pub open spec fn verdict(self, value: T) -> Result<(), PredictionMarketError> {
        match self {
            AmountConfig::Range { min, max } => {
                if min matches Some(least) && value.is_lt(&least) {
                    Err(PredictionMarketError::ValueTooSmall)
                } else if max matches Some(most) && value.is_gt(&most) {
                    Err(PredictionMarketError::ValueTooLarge)
                } else {
                    Ok(())
                }
            },
            AmountConfig::Enum(options) => {
                if is_listed(options@, value) {
                    Ok(())
                } else {
                    Err(PredictionMarketError::ValueInvalid)
                }
            },
        }
    }

    /// Checks `value` against the admissible values.
    ///
    /// The result is stated for types whose comparisons are the ones their
    /// specification gives, as those of the integers are.
    pub fn validate(&self, value: &T) -> (out: Result<(), PredictionMarketError>)
        ensures
            T::obeys_eq_spec() && T::obeys_partial_cmp_spec() ==> out == self.verdict(*value),
    {
        match self {
            AmountConfig::Range { min, max } => {
                if let Some(least) = min {
                    if *value < *least {
                        return Err(PredictionMarketError::ValueTooSmall);
                    }
                }
                if let Some(most) = max {
                    if *value > *most {
                        return Err(PredictionMarketError::ValueTooLarge);
                    }
                }
                Ok(())
            },
            AmountConfig::Enum(options) => {
                if find_listed(options, value) {
                    Ok(())
                } else {
                    Err(PredictionMarketError::ValueInvalid)
                }
            },
        }
    }
}

} // verus!
