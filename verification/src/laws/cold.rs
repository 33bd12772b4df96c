//! Laws of the hot/cold split.
use vstd::prelude::*;

use crate::address::AddressKey;
use crate::cold_storage::{
    drift_fits, fits_i128, lemma_negative_total_stays, rebalanced, share_bps, split_refusal,
    target_hot_amount, ColdBalances, ColdConfig, BPS_DENOMINATOR, DEFAULT_REBALANCE_THRESHOLD_BPS,
};
use crate::errors::VaultError;
use crate::host::addresses;

verus! {

/// The target hot amount is the share rounded down, so the remainder of less
/// than one unit stays cold; and it lies between nothing and the whole.
pub proof fn law_remainder_stays_cold(total: i128, hot_bps: u32)
    ensures
        target_hot_amount(total, hot_bps) * BPS_DENOMINATOR <= total * hot_bps,
        total * hot_bps < (target_hot_amount(total, hot_bps) + 1) * BPS_DENOMINATOR,
        total >= 0 && hot_bps <= BPS_DENOMINATOR ==> 0 <= target_hot_amount(total, hot_bps)
            <= total,
{
    let scaled: int = total * hot_bps;
    assert(scaled == (scaled / 10_000) * 10_000 + scaled % 10_000);
    if total >= 0 && hot_bps <= BPS_DENOMINATOR {
        assert(0 <= scaled <= total * 10_000) by (nonlinear_arith)
            requires
                scaled == total * hot_bps,
                0 <= hot_bps <= 10_000,
                total >= 0,
        ;
    }
}

/// Rebalancing moves funds between the pools and neither makes nor loses any.
pub proof fn law_rebalance_keeps_total(balances: ColdBalances, config: ColdConfig)
    ensures
        rebalanced(balances, config) matches Ok(after) ==> after.sum() == balances.sum(),
{
    if rebalanced(balances, config) is Ok && fits_i128(balances.sum()) {
        law_remainder_stays_cold(balances.sum() as i128, config.hot_bps);
    }
}

/// A hot share above the target is above the target amount.
proof fn lemma_surplus(hot: i128, total: i128, hot_bps: u32)
    requires
        total > 0,
        share_bps(hot, total) > hot_bps,
    ensures
        hot > 0,
        target_hot_amount(total, hot_bps) < hot,
{
    let scaled: int = hot * BPS_DENOMINATOR;
    if hot <= 0 {
        assert((-scaled) / (total as int) >= 0) by (nonlinear_arith)
            requires
                -scaled >= 0,
                total > 0,
        ;
        assert(0int / (total as int) == 0) by (nonlinear_arith)
            requires
                total > 0,
        ;
        assert(share_bps(hot, total) <= 0);
    }
    let share: int = scaled / (total as int);
    assert(share * total <= scaled) by (nonlinear_arith)
        requires
            share == scaled / (total as int),
            total > 0,
    ;
    assert((hot_bps + 1) * total <= share * total) by (nonlinear_arith)
        requires
            hot_bps + 1 <= share,
            total > 0,
    ;
    assert((hot_bps + 1) * total == total * hot_bps + total) by (nonlinear_arith);
    law_remainder_stays_cold(total, hot_bps);
}

/// Rebalancing never pulls cold funds into the hot pool: the cold pool does not
/// shrink and the hot pool does not grow.
pub proof fn law_rebalance_never_pulls_from_cold(balances: ColdBalances, config: ColdConfig)
    ensures
        rebalanced(balances, config) matches Ok(after) ==> after.cold >= balances.cold && after.hot
            <= balances.hot,
{
    law_rebalance_keeps_total(balances, config);
}

/// A hot share at or below its target is left as it is, however far below it
/// lies.
pub proof fn law_rebalance_leaves_a_deficit(balances: ColdBalances, config: ColdConfig)
    requires
        balances.sum() != 0,
        fits_i128(balances.sum()),
        share_bps(balances.hot, balances.sum() as i128) <= config.hot_bps,
    ensures
        rebalanced(balances, config) matches Ok(after) ==> after == balances,
{
}

/// A hot share that exceeds its target by more than the tolerance is cut back to
/// the target amount, wherever the amounts fit and there is something to share.
pub proof fn law_rebalance_cuts_a_surplus_back(balances: ColdBalances, config: ColdConfig)
    requires
        balances.sum() > 0,
        fits_i128(balances.sum()),
        fits_i128(balances.hot * BPS_DENOMINATOR),
        fits_i128(balances.sum() * config.hot_bps),
        share_bps(balances.hot, balances.sum() as i128)
            > config.hot_bps + config.rebalance_threshold_bps,
    ensures
        rebalanced(balances, config) matches Ok(after) && after.hot == target_hot_amount(
            balances.sum() as i128,
            config.hot_bps,
        ) && after.hot < balances.hot,
{
    lemma_surplus(balances.hot, balances.sum() as i128, config.hot_bps);
}

/// A share is a quotient that is rounded towards zero: what it stands for is no
/// further from zero than the hot pool, and less than one part away from it.
pub proof fn law_share_is_the_quotient(hot: i128, total: i128)
    requires
        total != 0,
    ensures
        ({
            let scaled = hot * 10_000;
            let covered = share_bps(hot, total) * total;
            let part = if total > 0 {
                total as int
            } else {
                -(total as int)
            };
            &&& scaled >= 0 ==> 0 <= covered <= scaled < covered + part
            &&& scaled <= 0 ==> covered - part < scaled <= covered <= 0
        }),
{
    let x: int = hot * 10_000;
    let d: int = total as int;
    let m: int = if x >= 0 {
        x
    } else {
        -x
    };
    let e: int = if d > 0 {
        d
    } else {
        -d
    };
    let q: int = m / e;
    assert(0 <= q * e <= m < q * e + e) by (nonlinear_arith)
        requires
            q == m / e,
            m >= 0,
            e > 0,
    ;
    let share: int = share_bps(hot, total);
    assert(share == q || share == -q);
    assert(q * e == (-q) * (-e)) by (nonlinear_arith);
    assert((-q) * e == -(q * e)) by (nonlinear_arith);
    assert(q * (-e) == -(q * e)) by (nonlinear_arith);
}

/// A share exceeds a limit exactly when the hot pool reaches what one point more
/// than the limit stands for.
proof fn lemma_share_exceeds(hot: i128, total: i128, limit: int)
    requires
        total != 0,
        limit >= 0,
    ensures
        total > 0 ==> (share_bps(hot, total) > limit <==> hot * 10_000 >= (limit + 1) * total),
        total < 0 ==> (share_bps(hot, total) > limit <==> hot * 10_000 <= (limit + 1) * total),
{
    law_share_is_the_quotient(hot, total);
    let share: int = share_bps(hot, total);
    let d: int = total as int;
    if share > limit {
        assert(d > 0 ==> share * d >= (limit + 1) * d) by (nonlinear_arith)
            requires
                share >= limit + 1,
        ;
        assert(d < 0 ==> share * d <= (limit + 1) * d) by (nonlinear_arith)
            requires
                share >= limit + 1,
        ;
        assert(d > 0 ==> share * d > 0) by (nonlinear_arith)
            requires
                share > 0,
        ;
        assert(d < 0 ==> share * d < 0) by (nonlinear_arith)
            requires
                share > 0,
        ;
    } else {
        assert(d > 0 ==> share * d + d <= (limit + 1) * d) by (nonlinear_arith)
            requires
                share <= limit,
        ;
        assert(d < 0 ==> share * d + d >= (limit + 1) * d) by (nonlinear_arith)
            requires
                share <= limit,
        ;
        assert(d > 0 ==> (limit + 1) * d > 0) by (nonlinear_arith)
            requires
                limit >= 0,
        ;
        assert(d < 0 ==> (limit + 1) * d < 0) by (nonlinear_arith)
            requires
                limit >= 0,
        ;
    }
}

/// Within the configured tolerance nothing moves: wherever the total and the
/// scaled hot amount fit, and the hot pool does not reach one point more than
/// target and tolerance together stand for, the split is returned as it is.
pub proof fn law_tolerated_drift_moves_nothing(balances: ColdBalances, config: ColdConfig)
    requires
        i128::MIN <= balances.hot + balances.cold <= i128::MAX,
        i128::MIN <= balances.hot * 10_000 <= i128::MAX,
        balances.hot + balances.cold > 0,
        balances.hot * 10_000 < (config.hot_bps + config.rebalance_threshold_bps + 1) * (
        balances.hot + balances.cold),
    ensures
        rebalanced(balances, config) == Ok::<ColdBalances, VaultError>(balances),
{
    lemma_share_exceeds(
        balances.hot,
        (balances.hot + balances.cold) as i128,
        config.hot_bps + config.rebalance_threshold_bps,
    );
}

/// Beyond the configured tolerance the hot pool keeps the largest amount that does
/// not exceed its target share of the total, and all the rest is cold.
pub proof fn law_surplus_beyond_the_tolerance_moves(balances: ColdBalances, config: ColdConfig)
    requires
        0 < balances.hot + balances.cold <= i128::MAX,
        balances.hot * 10_000 <= i128::MAX,
        (balances.hot + balances.cold) * config.hot_bps <= i128::MAX,
        balances.hot * 10_000 >= (config.hot_bps + config.rebalance_threshold_bps + 1) * (
        balances.hot + balances.cold),
    ensures
        rebalanced(balances, config) matches Ok(after) && {
            let total = balances.hot + balances.cold;
            &&& after.hot + after.cold == total
            &&& after.hot * 10_000 <= total * config.hot_bps
            &&& total * config.hot_bps < (after.hot + 1) * 10_000
        },
{
    let total: int = balances.hot + balances.cold;
    let limit: int = config.hot_bps + config.rebalance_threshold_bps;
    lemma_share_exceeds(balances.hot, total as i128, limit);
    assert(total * config.hot_bps >= 0 && (limit + 1) * total > 0) by (nonlinear_arith)
        requires
            total > 0,
            config.hot_bps >= 0,
            limit >= 0,
    ;
    law_rebalance_cuts_a_surplus_back(balances, config);
    law_rebalance_keeps_total(balances, config);
    law_remainder_stays_cold(total as i128, config.hot_bps);
}

/// An empty split, and one whose total is negative, stays as it is, as far as the
/// amounts fit.
pub proof fn law_nothing_moves_without_a_positive_total(balances: ColdBalances, config: ColdConfig)
    requires
        i128::MIN <= balances.hot + balances.cold <= 0,
        balances.hot + balances.cold != 0 ==> i128::MIN <= balances.hot * 10_000 <= i128::MAX,
        balances.hot + balances.cold != 0 ==> i128::MIN <= (balances.hot + balances.cold)
            * config.hot_bps,
    ensures
        rebalanced(balances, config) == Ok::<ColdBalances, VaultError>(balances),
{
    let total: int = balances.hot + balances.cold;
    if total < 0 {
        assert(total * config.hot_bps <= 0) by (nonlinear_arith)
            requires
                total < 0,
                config.hot_bps >= 0,
        ;
        if share_bps(balances.hot, total as i128) > config.hot_bps {
            lemma_negative_total_stays(balances.hot, total as i128, config.hot_bps);
        }
    }
}

/// Rebalancing fails for nothing but an amount that does not fit: the total, the
/// scaled hot amount, or, where the drift is beyond the tolerance, the scaled
/// target.
pub proof fn law_rebalance_fails_on_overflow_only(balances: ColdBalances, config: ColdConfig)
    ensures
        ({
            let total = balances.hot + balances.cold;
            let limit = config.hot_bps + config.rebalance_threshold_bps;
            let scaled = balances.hot * 10_000;
            let beyond = if total > 0 {
                scaled >= (limit + 1) * total
            } else {
                scaled <= (limit + 1) * total
            };
            let target = total * config.hot_bps;
            rebalanced(balances, config) == Err::<ColdBalances, VaultError>(VaultError::Overflow)
                <==> {
                ||| !(i128::MIN <= total <= i128::MAX)
                ||| total != 0 && !(i128::MIN <= scaled <= i128::MAX)
                ||| total != 0 && beyond && !(i128::MIN <= target <= i128::MAX)
            }
        }),
        rebalanced(balances, config) matches Err(error) ==> error == VaultError::Overflow,
{
    let total: int = balances.hot + balances.cold;
    if i128::MIN <= total <= i128::MAX && total != 0 {
        lemma_share_exceeds(
            balances.hot,
            total as i128,
            config.hot_bps + config.rebalance_threshold_bps,
        );
    }
}

/// A configuration is refused, in this order, for a hot share or a tolerance that
/// is nothing or more than the whole, for having no signers, for a threshold that
/// is nothing or more than all of them, for a signer that stands twice, and, with
/// several signers, for one that is no address.
pub proof fn law_configuration_refusals(
    hot_bps: u32,
    rebalance_threshold_bps: u32,
    signers: Seq<Option<AddressKey>>,
    cold_threshold: u32,
)
    ensures
        ({
            let refusal = split_refusal(hot_bps, rebalance_threshold_bps, signers, cold_threshold);
            let twice = exists|i: int, j: int|
                0 <= i < j < signers.len() && #[trigger] signers[i] is Some && signers[i]
                    == #[trigger] signers[j];
            let malformed = exists|i: int| 0 <= i < signers.len() && #[trigger] signers[i] is None;
            if !(1 <= hot_bps <= 10_000) {
                refusal == Some(VaultError::InvalidHotBps)
            } else if !(1 <= rebalance_threshold_bps <= 10_000) {
                refusal == Some(VaultError::InvalidRebalanceThreshold)
            } else if signers.len() == 0 {
                refusal == Some(VaultError::ColdSignersEmpty)
            } else if !(1 <= cold_threshold <= signers.len()) {
                refusal == Some(VaultError::InvalidColdThreshold)
            } else if twice {
                refusal == Some(VaultError::DuplicateColdSigner)
            } else if signers.len() > 1 && malformed {
                refusal == Some(VaultError::MalformedItem)
            } else {
                refusal is None
            }
        }),
{
    if exists|i: int| 0 <= i < signers.len() && #[trigger] signers[i] is None {
        let i: int = choose|i: int| 0 <= i < signers.len() && #[trigger] signers[i] is None;
        assert(signers[i] == None::<AddressKey>);
    }
}

/// A configuration is judged by its own fields, and its signers are the addresses
/// of its list.
pub proof fn law_configuration_is_judged_by_its_fields(config: ColdConfig)
    ensures
        config.signers() == addresses(config.cold_signers),
        config.refusal() == split_refusal(
            config.hot_bps,
            config.rebalance_threshold_bps,
            addresses(config.cold_signers),
            config.cold_threshold,
        ),
{
}

/// The target is the largest amount that does not exceed the share of the total;
/// amounts fit where they lie in the range of their type; both pools make up the
/// total.
pub proof fn law_targets_and_totals(balances: ColdBalances, total: i128, hot_bps: u32, x: int)
    ensures
        target_hot_amount(total, hot_bps) * 10_000 <= total * hot_bps,
        total * hot_bps < (target_hot_amount(total, hot_bps) + 1) * 10_000,
        balances.sum() == balances.hot + balances.cold,
        fits_i128(x) <==> -0x8000_0000_0000_0000_0000_0000_0000_0000 <= x
            <= 0x7fff_ffff_ffff_ffff_ffff_ffff_ffff_ffff,
        BPS_DENOMINATOR == 10_000,
        DEFAULT_REBALANCE_THRESHOLD_BPS == 500,
{
    law_remainder_stays_cold(total, hot_bps);
}

/// The drift can be computed for every split but those at the very edge of the
/// range.
pub proof fn law_drift_can_be_computed(balances: ColdBalances, config: ColdConfig)
    requires
        i128::MIN + 0x1_0000_0000 < balances.hot * 10_000 < i128::MAX - 0x1_0000_0000,
    ensures
        drift_fits(balances, config),
{
    let total: int = balances.hot + balances.cold;
    if i128::MIN <= total <= i128::MAX && total != 0 {
        let share: int = share_bps(balances.hot, total as i128);
        law_share_is_the_quotient(balances.hot, total as i128);
        assert(total > 0 ==> share >= -(i128::MAX - 0x1_0000_0000)) by (nonlinear_arith)
            requires
                share * total > -(i128::MAX - 0x1_0000_0000),
        ;
        assert(total < 0 ==> share >= -(i128::MAX - 0x1_0000_0000)) by (nonlinear_arith)
            requires
                share * total < i128::MAX - 0x1_0000_0000,
        ;
    }
}

/// One rebalancing settles the split: a second one changes nothing.
pub proof fn law_rebalance_settles(balances: ColdBalances, config: ColdConfig)
    ensures
        rebalanced(balances, config) matches Ok(after) ==> rebalanced(after, config) == Ok::<
            ColdBalances,
            VaultError,
        >(after),
{
    law_rebalance_keeps_total(balances, config);
    if rebalanced(balances, config) is Ok && rebalanced(balances, config) != Ok::<
        ColdBalances,
        VaultError,
    >(balances) {
        let total: int = balances.sum();
        let bps: int = config.hot_bps as int;
        let after: ColdBalances = rebalanced(balances, config)->Ok_0;
        if total < 0 {
            lemma_negative_total_stays(balances.hot, total as i128, config.hot_bps);
        }
        lemma_surplus(balances.hot, total as i128, config.hot_bps);
        law_remainder_stays_cold(total as i128, config.hot_bps);
        assert(total * bps >= 0) by (nonlinear_arith)
            requires
                total >= 0,
                bps >= 0,
        ;
        let scaled: int = after.hot * BPS_DENOMINATOR;
        assert(0 <= scaled <= total * bps);
        assert(scaled / total <= bps) by (nonlinear_arith)
            requires
                scaled <= total * bps,
                total > 0,
        ;
    }
}

/// A configuration that passes validation keeps a part hot, tolerates a drift,
/// and asks for at least one and at most all of its signers, no two of which
/// are the same.
pub proof fn law_valid_config_is_sound(config: ColdConfig)
    requires
        config.refusal() is None,
    ensures
        0 < config.hot_bps <= BPS_DENOMINATOR,
        0 < config.rebalance_threshold_bps <= BPS_DENOMINATOR,
        0 < config.cold_threshold <= config.signers().len(),
        config.signers().no_duplicates(),
{
    assert forall|i: int, j: int|
        0 <= i < config.signers().len() && 0 <= j < config.signers().len() && i
            != j implies config.signers()[i] != config.signers()[j] by {
        let (low, high) = if i < j {
            (i, j)
        } else {
            (j, i)
        };
        if config.signers()[low] is None {
            assert(config.signers().contains(None));
        }
    }
}

} // verus!
