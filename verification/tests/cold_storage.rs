use callora_vault::address::AddressKey;
use callora_vault::cold_storage::{
    hot_share_bps, lists_signer, maybe_rebalance, target_hot, target_hot_pub, validate_split,
    ColdBalances, ColdConfig, PendingColdSweep, BPS_DENOMINATOR, DEFAULT_REBALANCE_THRESHOLD_BPS,
};
use callora_vault::errors::VaultError;
use soroban_sdk::xdr::{self, ScAddress};
use soroban_sdk::{Address, Env, IntoVal, TryFromVal, Val, Vec};

/// A contract address made from `seed`.
fn addr(env: &Env, seed: u8) -> Address {
    Address::try_from_val(env, &ScAddress::Contract(xdr::Hash([seed; 32]))).unwrap()
}

/// The plain value of an address.
fn key(address: &Address) -> AddressKey {
    let mut strkey = [0u8; 56];
    address.to_string().copy_into_slice(&mut strkey);
    AddressKey { strkey }
}

fn one_signer(env: &Env) -> Vec<Address> {
    let mut v = Vec::new(env);
    v.push_back(addr(env, 1));
    v
}

#[test]
fn hot_share_bps_zero_total_is_zero() {
    assert_eq!(hot_share_bps(0, 0).unwrap(), 0);
}

#[test]
fn hot_share_bps_basic() {
    // 2000/10000 = 20%
    assert_eq!(hot_share_bps(2000, 10_000).unwrap(), 2000);
}

#[test]
fn target_hot_basic() {
    assert_eq!(target_hot(10_000, 2000).unwrap(), 2000);
    // floor behavior: remainder stays in cold
    assert_eq!(target_hot(9_999, 2000).unwrap(), 1999);
}

#[test]
fn maybe_rebalance_within_tolerance_is_noop() {
    let env = Env::default();
    let config = ColdConfig {
        hot_bps: 2000,
        rebalance_threshold_bps: 500,
        cold_signers: one_signer(&env),
        cold_threshold: 1,
    };
    // hot share = 2200/10000 = 22%, target 20%, drift 2% <= 5% tolerance
    let balances = ColdBalances { hot: 2200, cold: 7800 };
    let result = maybe_rebalance(&balances, &config).unwrap();
    assert_eq!(result, balances);
}

#[test]
fn maybe_rebalance_excess_hot_moves_to_cold() {
    let env = Env::default();
    let config = ColdConfig {
        hot_bps: 2000,
        rebalance_threshold_bps: 500,
        cold_signers: one_signer(&env),
        cold_threshold: 1,
    };
    // hot share = 5000/10000 = 50%, target 20%, drift 30% > 5% tolerance
    let balances = ColdBalances { hot: 5000, cold: 5000 };
    let result = maybe_rebalance(&balances, &config).unwrap();
    assert_eq!(result.hot, 2000);
    assert_eq!(result.cold, 8000);
    assert_eq!(result.total().unwrap(), balances.total().unwrap());
}

#[test]
fn maybe_rebalance_hot_deficit_does_not_auto_pull_from_cold() {
    let env = Env::default();
    let config = ColdConfig {
        hot_bps: 5000,
        rebalance_threshold_bps: 500,
        cold_signers: one_signer(&env),
        cold_threshold: 1,
    };
    // hot share = 1000/10000 = 10%, target 50%, drift 40% > 5% tolerance,
    // but hot is below target, so nothing is pulled from cold.
    let balances = ColdBalances { hot: 1000, cold: 9000 };
    let result = maybe_rebalance(&balances, &config).unwrap();
    assert_eq!(result, balances);
}

#[test]
fn maybe_rebalance_zero_total_is_noop() {
    let env = Env::default();
    let config = ColdConfig {
        hot_bps: 2000,
        rebalance_threshold_bps: 500,
        cold_signers: one_signer(&env),
        cold_threshold: 1,
    };
    let balances = ColdBalances { hot: 0, cold: 0 };
    let result = maybe_rebalance(&balances, &config).unwrap();
    assert_eq!(result, balances);
}

#[test]
fn cold_config_validate_rejects_zero_hot_bps() {
    let env = Env::default();
    let config = ColdConfig {
        hot_bps: 0,
        rebalance_threshold_bps: 500,
        cold_signers: one_signer(&env),
        cold_threshold: 1,
    };
    assert_eq!(config.validate(), Err(VaultError::InvalidHotBps));
}

#[test]
fn cold_config_validate_rejects_hot_bps_over_max() {
    let env = Env::default();
    let config = ColdConfig {
        hot_bps: 10_001,
        rebalance_threshold_bps: 500,
        cold_signers: one_signer(&env),
        cold_threshold: 1,
    };
    assert_eq!(config.validate(), Err(VaultError::InvalidHotBps));
}

#[test]
fn cold_config_validate_rejects_empty_signers() {
    let env = Env::default();
    let config = ColdConfig {
        hot_bps: 2000,
        rebalance_threshold_bps: 500,
        cold_signers: Vec::new(&env),
        cold_threshold: 1,
    };
    assert_eq!(config.validate(), Err(VaultError::ColdSignersEmpty));
}

#[test]
fn cold_config_validate_rejects_threshold_over_signer_count() {
    let env = Env::default();
    let config = ColdConfig {
        hot_bps: 2000,
        rebalance_threshold_bps: 500,
        cold_signers: one_signer(&env),
        cold_threshold: 2,
    };
    assert_eq!(config.validate(), Err(VaultError::InvalidColdThreshold));
}

#[test]
fn cold_config_validate_rejects_zero_threshold() {
    let env = Env::default();
    let config = ColdConfig {
        hot_bps: 2000,
        rebalance_threshold_bps: 500,
        cold_signers: one_signer(&env),
        cold_threshold: 0,
    };
    assert_eq!(config.validate(), Err(VaultError::InvalidColdThreshold));
}

#[test]
fn cold_config_validate_rejects_duplicate_signers() {
    let env = Env::default();
    let shared = addr(&env, 1);
    let config = ColdConfig {
        hot_bps: 2000,
        rebalance_threshold_bps: 500,
        cold_signers: {
            let mut v = Vec::new(&env);
            v.push_back(shared.clone());
            v.push_back(shared);
            v
        },
        cold_threshold: 1,
    };
    assert_eq!(config.validate(), Err(VaultError::DuplicateColdSigner));
}

#[test]
fn cold_config_validate_accepts_valid_config() {
    let env = Env::default();
    let config = ColdConfig {
        hot_bps: 2000,
        rebalance_threshold_bps: 500,
        cold_signers: {
            let mut v = Vec::new(&env);
            v.push_back(addr(&env, 1));
            v.push_back(addr(&env, 2));
            v.push_back(addr(&env, 3));
            v
        },
        cold_threshold: 2,
    };
    assert!(config.validate().is_ok());
}

#[test]
fn cold_balances_total_overflow_is_caught() {
    let balances = ColdBalances { hot: i128::MAX, cold: 1 };
    assert_eq!(balances.total(), Err(VaultError::Overflow));
}

fn config(signers: Vec<Address>, threshold: u32) -> ColdConfig {
    ColdConfig {
        hot_bps: 2_000,
        rebalance_threshold_bps: DEFAULT_REBALANCE_THRESHOLD_BPS,
        cold_signers: signers,
        cold_threshold: threshold,
    }
}

#[test]
fn drift_tolerance_must_be_within_the_whole() {
    let env = Env::default();
    let mut config = config(one_signer(&env), 1);
    config.rebalance_threshold_bps = 0;
    assert_eq!(config.validate(), Err(VaultError::InvalidRebalanceThreshold));
    config.rebalance_threshold_bps = 10_001;
    assert_eq!(config.validate(), Err(VaultError::InvalidRebalanceThreshold));
    config.rebalance_threshold_bps = 10_000;
    assert_eq!(config.validate(), Ok(()));
    assert_eq!(BPS_DENOMINATOR, 10_000);
}

#[test]
fn signers_are_found_by_their_address() {
    let env = Env::default();
    let signers = Vec::from_array(&env, [addr(&env, 7), addr(&env, 8)]);
    let config = config(signers, 2);
    assert!(config.is_cold_signer(&key(&addr(&env, 7))));
    assert!(config.is_cold_signer(&key(&addr(&env, 8))));
    assert!(!config.is_cold_signer(&key(&addr(&env, 9))));
}

#[test]
fn account_and_contract_addresses_differ() {
    let env = Env::default();
    let account = ScAddress::Account(xdr::AccountId(xdr::PublicKey::PublicKeyTypeEd25519(
        xdr::Uint256([7; 32]),
    )));
    let account = Address::try_from_val(&env, &account).unwrap();
    assert_eq!(key(&account).strkey[0], b'G');
    assert_eq!(key(&addr(&env, 7)).strkey[0], b'C');
    let config = config(Vec::from_array(&env, [account.clone(), addr(&env, 7)]), 1);
    assert_eq!(config.validate(), Ok(()));
    assert!(config.is_cold_signer(&key(&account)));
}

#[test]
fn value_that_is_no_address_is_refused_among_signers() {
    let env = Env::default();
    let mut vals: Vec<Val> = Vec::new(&env);
    vals.push_back(addr(&env, 1).to_val());
    vals.push_back(5u32.into_val(&env));
    let signers = Vec::<Address>::try_from_val(&env, &vals.to_val()).unwrap();
    let config = config(signers, 1);
    assert_eq!(config.validate(), Err(VaultError::MalformedItem));
    assert!(config.is_cold_signer(&key(&addr(&env, 1))));
}

#[test]
fn plain_signers_are_checked_alike() {
    let signer = AddressKey { strkey: [1; 56] };
    let other = AddressKey { strkey: [2; 56] };
    let list = vec![Some(signer), None, Some(signer)];
    assert_eq!(validate_split(1, 1, &list, 3), Err(VaultError::DuplicateColdSigner));
    assert_eq!(validate_split(1, 1, &vec![None], 1), Ok(()));
    assert_eq!(validate_split(1, 1, &vec![Some(signer), Some(other)], 2), Ok(()));
    assert!(lists_signer(&list, &signer));
    assert!(!lists_signer(&list, &other));
}

#[test]
fn shares_round_towards_zero() {
    assert_eq!(hot_share_bps(1, 3), Ok(3_333));
    assert_eq!(hot_share_bps(-1, 3), Ok(-3_333));
    assert_eq!(hot_share_bps(1, -3), Ok(-3_333));
    assert_eq!(hot_share_bps(i128::MAX, 1), Err(VaultError::Overflow));
    assert_eq!(hot_share_bps(i128::MAX, 0), Ok(0));
}

#[test]
fn targets_round_down() {
    assert_eq!(target_hot_pub(9_999, 2_000), Ok(1_999));
    assert_eq!(target_hot_pub(0, 2_000), Ok(0));
    assert_eq!(target_hot(-9_999, 2_000), Ok(-2_000));
    assert_eq!(target_hot(i128::MAX, 2), Err(VaultError::Overflow));
}

#[test]
fn rebalancing_settles_and_keeps_the_total() {
    let env = Env::default();
    let config = config(one_signer(&env), 1);
    let before = ColdBalances { hot: 9_999, cold: 1 };
    let after = maybe_rebalance(&before, &config).unwrap();
    assert_eq!(after, ColdBalances { hot: 2_000, cold: 8_000 });
    assert_eq!(after.total(), before.total());
    assert_eq!(maybe_rebalance(&after, &config).unwrap(), after);
    let odd = maybe_rebalance(&ColdBalances { hot: 9_999, cold: 0 }, &config).unwrap();
    assert_eq!(odd, ColdBalances { hot: 1_999, cold: 8_000 });
}

#[test]
fn rebalancing_leaves_a_negative_total_alone() {
    let env = Env::default();
    let config = config(one_signer(&env), 1);
    for balances in [
        ColdBalances { hot: -9_999, cold: 0 },
        ColdBalances { hot: -5, cold: -5 },
        ColdBalances { hot: 10, cold: -20 },
    ] {
        assert_eq!(maybe_rebalance(&balances, &config).unwrap(), balances);
    }
}

#[test]
fn tolerance_is_inclusive() {
    let env = Env::default();
    let config = config(one_signer(&env), 1);
    let at = ColdBalances { hot: 2_500, cold: 7_500 };
    assert_eq!(maybe_rebalance(&at, &config).unwrap(), at);
    let above = ColdBalances { hot: 2_501, cold: 7_499 };
    let after = maybe_rebalance(&above, &config).unwrap();
    assert_eq!(after, ColdBalances { hot: 2_000, cold: 8_000 });
}

#[test]
fn rebalancing_reports_overflow() {
    let env = Env::default();
    let config = config(one_signer(&env), 1);
    let sum = ColdBalances { hot: i128::MAX, cold: 1 };
    assert_eq!(maybe_rebalance(&sum, &config), Err(VaultError::Overflow));
    let share = ColdBalances { hot: i128::MAX, cold: 0 };
    assert_eq!(maybe_rebalance(&share, &config), Err(VaultError::Overflow));
}

#[test]
fn pending_cold_sweep_holds_its_approvals() {
    let env = Env::default();
    let sweep = PendingColdSweep {
        amount: 5,
        destination: key(&addr(&env, 3)),
        approvals: one_signer(&env),
        proposed_at: 9,
    };
    assert_eq!(sweep.approvals.len(), 1);
    assert_eq!((sweep.amount, sweep.proposed_at), (5, 9));
    assert_eq!(sweep.destination, key(&addr(&env, 3)));
}
