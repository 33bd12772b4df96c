//! The split of the tracked balance into a hot and a cold pool.
//!
//! The hot pool serves deductions and is kept small. The cold pool is
//! sweep-only: moving funds out of it takes the approval of several signers.
//! Deposits may move a hot surplus into the cold pool, never the other way.
use vstd::prelude::*;

use crate::address::AddressKey;
use crate::errors::VaultError;
use crate::host::{addresses, read_addresses};

verus! {

/// Default drift tolerance, in basis points of the total balance.
pub const DEFAULT_REBALANCE_THRESHOLD_BPS: u32 = 500;

/// Basis points in the whole.
pub const BPS_DENOMINATOR: i128 = 10_000;

/// Configuration of the hot/cold split.
#[derive(Debug, PartialEq)]
pub struct ColdConfig {
    /// Target share of the total balance kept hot, in basis points.
    pub hot_bps: u32,
    /// Drift from the target, in basis points, that is tolerated.
    pub rebalance_threshold_bps: u32,
    /// Who may propose and approve cold sweeps.
    pub cold_signers: soroban_sdk::Vec<soroban_sdk::Address>,
    /// How many distinct signers must approve a cold sweep.
    pub cold_threshold: u32,
}

/// The current split. `hot + cold` is the vault's tracked balance.
#[derive(Clone, Copy, Debug, PartialEq)]
pub struct ColdBalances {
    /// What deductions are served from.
    pub hot: i128,
    /// What only a sweep may move.
    pub cold: i128,
}

/// A pending request to move funds out of the cold pool.
#[derive(Debug, PartialEq)]
pub struct PendingColdSweep {
    /// How much is to be moved.
    pub amount: i128,
    /// Where it is to be moved.
    pub destination: AddressKey,
    /// Who has approved so far.
    pub approvals: soroban_sdk::Vec<soroban_sdk::Address>,
    /// When it was proposed.
    pub proposed_at: u64,
}

/// Whether a value fits an `i128`.
pub open spec fn fits_i128(x: int) -> bool {
    i128::MIN <= x <= i128::MAX
}

/// The quotient, rounded towards zero.
pub open spec fn truncated_quotient(x: int, d: int) -> int {
    if x >= 0 && d > 0 {
        x / d
    } else if x >= 0 {
        -(x / (-d))
    } else if d > 0 {
        -((-x) / d)
    } else {
        (-x) / (-d)
    }
}

/// Whether two of the signers are the same address.
pub open spec fn has_duplicate(signers: Seq<Option<AddressKey>>) -> bool {
    exists|i: int, j: int|
        0 <= i < j < signers.len() && #[trigger] signers[i] is Some && signers[i]
            == #[trigger] signers[j]
}

/// Why a configuration is inconsistent, if it is.
pub open spec fn split_refusal(
    hot_bps: u32,
    rebalance_threshold_bps: u32,
    signers: Seq<Option<AddressKey>>,
    cold_threshold: u32,
) -> Option<VaultError> {
    if hot_bps == 0 || hot_bps > BPS_DENOMINATOR {
        Some(VaultError::InvalidHotBps)
    } else if rebalance_threshold_bps == 0 || rebalance_threshold_bps > BPS_DENOMINATOR {
        Some(VaultError::InvalidRebalanceThreshold)
    } else if signers.len() == 0 {
        Some(VaultError::ColdSignersEmpty)
    } else if cold_threshold == 0 || cold_threshold > signers.len() {
        Some(VaultError::InvalidColdThreshold)
    } else if has_duplicate(signers) {
        Some(VaultError::DuplicateColdSigner)
    } else if signers.len() > 1 && signers.contains(None) {
        Some(VaultError::MalformedItem)
    } else {
        None
    }
}

/// Checks a configuration whose signers are given as plain addresses. `None`
/// among them stands for a value that is no address.
#[verifier::loop_isolation(false)]
pub fn validate_split(
    hot_bps: u32,
    rebalance_threshold_bps: u32,
    signers: &Vec<Option<AddressKey>>,
    cold_threshold: u32,
) -> (result: Result<(), VaultError>)
    ensures
        result == (match split_refusal(
            hot_bps,
            rebalance_threshold_bps,
            signers@,
            cold_threshold,
        ) {
            Some(error) => Err::<(), VaultError>(error),
            None => Ok(()),
        }),
{
    if hot_bps == 0 || hot_bps > BPS_DENOMINATOR as u32 {
        return Err(VaultError::InvalidHotBps);
    }
    if rebalance_threshold_bps == 0 || rebalance_threshold_bps > BPS_DENOMINATOR as u32 {
        return Err(VaultError::InvalidRebalanceThreshold);
    }
    let len: usize = signers.len();
    if len == 0 {
        return Err(VaultError::ColdSignersEmpty);
    }
    if cold_threshold == 0 || cold_threshold as usize > len {
        return Err(VaultError::InvalidColdThreshold);
    }
    let mut malformed: bool = false;
    let mut i: usize = 0;
    while i < len
        invariant
            i <= len,
            len == signers@.len(),
            malformed == (exists|k: int| 0 <= k < i && #[trigger] signers@[k] is None),
            forall|k: int, l: int|
                0 <= k < i && k < l < len && #[trigger] signers@[k] is Some ==> signers@[k]
                    != #[trigger] signers@[l],
        decreases len - i,
    {
        match signers[i] {
            Some(signer) => {
                let mut j: usize = i + 1;
                while j < len
                    invariant
                        i < j <= len,
                        len == signers@.len(),
                        signers@[i as int] == Some(signer),
                        forall|l: int| i < l < j ==> signers@[i as int] != #[trigger] signers@[l],
                    decreases len - j,
                {
                    match signers[j] {
                        Some(other) => {
                            if signer == other {
                                assert(signers@[i as int] == signers@[j as int]);
                                return Err(VaultError::DuplicateColdSigner);
                            }
                        },
                        None => {},
                    }
                    j = j + 1;
                }
            },
            None => {
                malformed = true;
            },
        }
        i = i + 1;
    }
    assert(malformed == signers@.contains(None));
    if len > 1 && malformed {
        return Err(VaultError::MalformedItem);
    }
    Ok(())
}

/// Returns whether `addr` stands in a list of signers.
pub fn lists_signer(signers: &Vec<Option<AddressKey>>, addr: &AddressKey) -> (found: bool)
    ensures
        found == signers@.contains(Some(*addr)),
{
    let mut i: usize = 0;
    while i < signers.len()
        invariant
            i <= signers.len(),
            forall|k: int| 0 <= k < i ==> signers@[k] != Some(*addr),
        decreases signers.len() - i,
    {
        match signers[i] {
            Some(signer) => {
                if signer == *addr {
                    assert(signers@[i as int] == Some(*addr));
                    return true;
                }
            },
            None => {},
        }
        i = i + 1;
    }
    false
}

impl ColdConfig {
    /// The configured signers as plain addresses.
    pub open spec fn signers(self) -> Seq<Option<AddressKey>> {
        addresses(self.cold_signers)
    }

    /// Why the configuration is inconsistent, if it is.
    pub open spec fn refusal(self) -> Option<VaultError> {
        split_refusal(
            self.hot_bps,
            self.rebalance_threshold_bps,
            self.signers(),
            self.cold_threshold,
        )
    }

    /// Checks that the configuration is consistent. Reads no storage and no
    /// balances. A signer that is listed twice is refused: it would count twice
    /// towards the threshold.
    pub fn validate(&self) -> (result: Result<(), VaultError>)
        ensures
            result == (match self.refusal() {
                Some(error) => Err::<(), VaultError>(error),
                None => Ok(()),
            }),
    {
        validate_split(
            self.hot_bps,
            self.rebalance_threshold_bps,
            &read_addresses(&self.cold_signers),
            self.cold_threshold,
        )
    }

    /// Returns whether `addr` is a configured cold signer.
    pub fn is_cold_signer(&self, addr: &AddressKey) -> (found: bool)
        ensures
            found == self.signers().contains(Some(*addr)),
    {
        lists_signer(&read_addresses(&self.cold_signers), addr)
    }
}

impl ColdBalances {
    /// The sum of both pools.
    pub open spec fn sum(self) -> int {
        self.hot + self.cold
    }

    /// Returns the total balance of this split.
    pub fn total(&self) -> (result: Result<i128, VaultError>)
        ensures
            result == (if fits_i128(self.sum()) {
                Ok::<i128, VaultError>(self.sum() as i128)
            } else {
                Err(VaultError::Overflow)
            }),
    {
        match self.hot.checked_add(self.cold) {
            Some(total) => Ok(total),
            None => Err(VaultError::Overflow),
        }
    }
}

/// A product with the basis-point denominator is never the least `i128`, so
/// dividing it by anything but zero stays in range.
proof fn lemma_share_in_range(hot: i128, total: i128)
    requires
        total != 0,
        fits_i128(hot * BPS_DENOMINATOR),
    ensures
        fits_i128(truncated_quotient(hot * BPS_DENOMINATOR, total as int)),
{
    let x: int = hot * BPS_DENOMINATOR;
    let d: int = total as int;
    let m: int = if x >= 0 {
        x
    } else {
        -x
    };
    let e: int = if d > 0 {
        d
    } else {
        -d
    };
    assert(x != i128::MIN) by {
        assert(x % 10_000 == 0) by (nonlinear_arith)
            requires
                x == hot * 10_000,
        ;
        assert(-170141183460469231731687303715884105728int % 10_000 != 0);
    }
    assert(0 <= m / e <= m) by (nonlinear_arith)
        requires
            m >= 0,
            e >= 1,
    ;
}

/// The hot pool's share of `total` in basis points, rounded towards zero.
pub open spec fn share_bps(hot: i128, total: i128) -> int {
    truncated_quotient(hot * BPS_DENOMINATOR, total as int)
}

/// Computes the hot pool's share of `total` in basis points, or zero where
/// there is no balance at all.
pub fn hot_share_bps(hot: i128, total: i128) -> (result: Result<i128, VaultError>)
    ensures
        result == (if total == 0 {
            Ok::<i128, VaultError>(0)
        } else if fits_i128(hot * BPS_DENOMINATOR) {
            Ok(share_bps(hot, total) as i128)
        } else {
            Err(VaultError::Overflow)
        }),
        result is Ok && total != 0 ==> result->Ok_0 == share_bps(hot, total),
{
    if total == 0 {
        return Ok(0);
    }
    match hot.checked_mul(BPS_DENOMINATOR) {
        Some(scaled) => {
            proof {
                lemma_share_in_range(hot, total);
            }
            match scaled.checked_div(total) {
                Some(share) => Ok(share),
                None => Err(VaultError::Overflow),
            }
        },
        None => Err(VaultError::Overflow),
    }
}

/// The hot amount for `total`, rounded down: a remainder stays cold.
pub open spec fn target_hot_amount(total: i128, hot_bps: u32) -> int {
    (total * hot_bps) / (BPS_DENOMINATOR as int)
}

/// Computes the hot amount of the initial split of `total`.
pub fn target_hot_pub(total: i128, hot_bps: u32) -> (result: Result<i128, VaultError>)
    ensures
        result == (if fits_i128(total * hot_bps) {
            Ok::<i128, VaultError>(target_hot_amount(total, hot_bps) as i128)
        } else {
            Err(VaultError::Overflow)
        }),
        result matches Ok(hot) ==> hot == target_hot_amount(total, hot_bps),
{
    target_hot(total, hot_bps)
}

/// Computes the hot amount that `hot_bps` asks for, rounded down: a remainder
/// stays in the cold pool, which so never gets less than its share.
pub fn target_hot(total: i128, hot_bps: u32) -> (result: Result<i128, VaultError>)
    ensures
        result == (if fits_i128(total * hot_bps) {
            Ok::<i128, VaultError>(target_hot_amount(total, hot_bps) as i128)
        } else {
            Err(VaultError::Overflow)
        }),
        result matches Ok(hot) ==> hot == target_hot_amount(total, hot_bps),
{
    match total.checked_mul(hot_bps as i128) {
        Some(scaled) => match scaled.checked_div_euclid(BPS_DENOMINATOR) {
            Some(hot) => Ok(hot),
            None => Err(VaultError::Overflow),
        },
        None => Err(VaultError::Overflow),
    }
}

/// Whether the drift of the hot share from its target can be computed.
pub open spec fn drift_fits(balances: ColdBalances, config: ColdConfig) -> bool {
    fits_i128(balances.sum()) && balances.sum() != 0 && fits_i128(balances.hot * BPS_DENOMINATOR)
        ==> share_bps(balances.hot, balances.sum() as i128) - config.hot_bps > i128::MIN
}

/// The split after a deposit: a hot share above its target by more than the
/// tolerance is cut back to the target, anything else stays as it is. So does a
/// hot pool that holds no more than its target amount, as where the total is
/// negative: there is nothing in it to move.
pub open spec fn rebalanced(balances: ColdBalances, config: ColdConfig) -> Result<
    ColdBalances,
    VaultError,
> {
    let total = balances.sum();
    let new_hot = target_hot_amount(total as i128, config.hot_bps);
    if !fits_i128(total) {
        Err(VaultError::Overflow)
    } else if total == 0 {
        Ok(balances)
    } else if !fits_i128(balances.hot * BPS_DENOMINATOR) {
        Err(VaultError::Overflow)
    } else if share_bps(balances.hot, total as i128) - config.hot_bps
        <= config.rebalance_threshold_bps {
        Ok(balances)
    } else if !fits_i128(total * config.hot_bps) {
        Err(VaultError::Overflow)
    } else if balances.hot <= new_hot {
        Ok(balances)
    } else {
        Ok(ColdBalances { hot: new_hot as i128, cold: (total - new_hot) as i128 })
    }
}

/// Where the total is negative, a hot share above its target means that the hot
/// pool holds no more than its target amount.
pub(crate) proof fn lemma_negative_total_stays(hot: i128, total: i128, hot_bps: u32)
    requires
        total < 0,
        share_bps(hot, total) > hot_bps,
    ensures
        hot <= target_hot_amount(total, hot_bps),
{
    let x: int = hot * BPS_DENOMINATOR;
    let d: int = -(total as int);
    if x >= 0 {
        assert(x / d >= 0) by (nonlinear_arith)
            requires
                x >= 0,
                d > 0,
        ;
    } else {
        let share: int = (-x) / d;
        assert(share * d <= -x) by (nonlinear_arith)
            requires
                share == (-x) / d,
                d > 0,
        ;
        assert((hot_bps + 1) * d <= share * d) by (nonlinear_arith)
            requires
                hot_bps + 1 <= share,
                d > 0,
        ;
        assert((hot_bps + 1) * d == d - total * hot_bps) by (nonlinear_arith)
            requires
                d == -(total as int),
        ;
    }
}

/// Returns the rebalanced split where the hot share has drifted above its target
/// by more than the tolerance, else the split as it is. Cold funds are never
/// pulled into the hot pool: a hot deficit is left alone.
pub fn maybe_rebalance(balances: &ColdBalances, config: &ColdConfig) -> (result: Result<
    ColdBalances,
    VaultError,
>)
    requires
        drift_fits(*balances, *config),
    ensures
        result == rebalanced(*balances, *config),
{
    let total: i128 = match balances.total() {
        Ok(total) => total,
        Err(error) => return Err(error),
    };
    if total == 0 {
        return Ok(*balances);
    }
    let current_share: i128 = match hot_share_bps(balances.hot, total) {
        Ok(share) => share,
        Err(error) => return Err(error),
    };
    let target_share: i128 = config.hot_bps as i128;
    let offset: i128 = current_share - target_share;
    let drift: i128 = if offset < 0 {
        -offset
    } else {
        offset
    };
    if drift <= config.rebalance_threshold_bps as i128 {
        return Ok(*balances);
    }
    if current_share <= target_share {
        return Ok(*balances);
    }
    let new_hot: i128 = match target_hot(total, config.hot_bps) {
        Ok(hot) => hot,
        Err(error) => return Err(error),
    };
    if balances.hot <= new_hot {
        return Ok(*balances);
    }
    proof {
        if total < 0 {
            lemma_negative_total_stays(balances.hot, total, config.hot_bps);
        }
        assert(total * config.hot_bps >= 0) by (nonlinear_arith)
            requires
                total > 0,
                config.hot_bps >= 0,
        ;
    }
    let moved: i128 = balances.hot - new_hot;
    let new_cold: i128 = balances.cold + moved;
    Ok(ColdBalances { hot: new_hot, cold: new_cold })
}

} // verus!
