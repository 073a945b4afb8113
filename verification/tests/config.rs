use ramm_sui_deploy::error::RAMMDeploymentError;
use ramm_sui_deploy::ledger::{ObjectID, SuiAddress};
use ramm_sui_deploy::types::{
    is_recognized_env, AssetConfig, RAMMDeploymentConfig, RAMMPkgAddrSrc, ASSET_MIN_DECIMAL_PLACES,
};

fn address(tail: u8) -> SuiAddress {
    let mut bytes = [0u8; 32];
    bytes[31] = tail;
    SuiAddress::new(bytes)
}

fn asset(name: &str, decimals: u8) -> AssetConfig {
    AssetConfig {
        asset_type: name.to_string(),
        aggregator_address: address(7),
        minimum_trade_amount: 1000,
        decimal_places: decimals,
    }
}

fn config(env: &str, count: u8, assets: Vec<AssetConfig>) -> RAMMDeploymentConfig {
    RAMMDeploymentConfig {
        target_env: env.to_string(),
        ramm_pkg_addr_or_path: RAMMPkgAddrSrc::FromPkgPublication("./ramm-pkg".to_string()),
        asset_count: count,
        fee_collection_address: address(1),
        assets,
    }
}

#[test]
fn valid_config_is_accepted() {
    let cfg = config("testnet", 2, vec![asset("0xA::usdc::USDC", 6), asset("0xA::eth::ETH", 8)]);
    assert!(cfg.validate_ramm_cfg());
}

#[test]
fn every_recognized_environment_is_accepted() {
    for env in ["active", "testnet", "mainnet"] {
        assert!(config(env, 1, vec![asset("0x2::sui::SUI", 9)]).validate_ramm_cfg());
        assert!(is_recognized_env(env));
    }
}

#[test]
fn unrecognized_environment_is_rejected() {
    for env in ["devnet", "", "Testnet", "testnet ", "localnet"] {
        assert!(!config(env, 1, vec![asset("0x2::sui::SUI", 9)]).validate_ramm_cfg());
        assert!(!is_recognized_env(env));
    }
}

#[test]
fn count_mismatch_is_rejected() {
    let more = config("testnet", 3, vec![asset("a", 6), asset("b", 8)]);
    assert!(!more.validate_ramm_cfg());
    let fewer = config("testnet", 1, vec![asset("a", 6), asset("b", 8)]);
    assert!(!fewer.validate_ramm_cfg());
}

#[test]
fn zero_assets_are_rejected() {
    assert!(!config("testnet", 0, vec![]).validate_ramm_cfg());
}

#[test]
fn decimal_places_at_the_threshold_are_accepted() {
    assert_eq!(ASSET_MIN_DECIMAL_PLACES, 4);
    assert!(config("mainnet", 1, vec![asset("a", 4)]).validate_ramm_cfg());
}

#[test]
fn decimal_places_under_the_threshold_are_rejected() {
    assert!(!config("mainnet", 1, vec![asset("a", 3)]).validate_ramm_cfg());
    assert!(!config("mainnet", 2, vec![asset("a", 9), asset("b", 0)]).validate_ramm_cfg());
    assert!(!config("mainnet", 2, vec![asset("a", 3), asset("b", 9)]).validate_ramm_cfg());
}

#[test]
fn count_is_compared_without_wrapping() {
    let mut assets = Vec::new();
    for _ in 0..257 {
        assets.push(asset("a", 6));
    }
    assert!(!config("testnet", 1, assets).validate_ramm_cfg());
    let mut full = Vec::new();
    for _ in 0..255 {
        full.push(asset("a", 6));
    }
    assert!(config("testnet", 255, full).validate_ramm_cfg());
}

#[test]
fn validated_hands_a_valid_request_on() {
    let cfg = config("active", 1, vec![asset("a", 6)]);
    let same = cfg.clone();
    assert_eq!(cfg.validated(), Ok(same));
}

#[test]
fn validated_rejects_an_invalid_request() {
    let cfg = config("nowhere", 1, vec![asset("a", 6)]);
    assert_eq!(cfg.validated(), Err(RAMMDeploymentError::InvalidConfigData));
}

#[test]
fn package_source_is_an_identifier_or_a_path() {
    let id = ObjectID::new([3u8; 32]);
    assert_eq!(
        RAMMPkgAddrSrc::from_text(Some(id), "0x0303".to_string()),
        RAMMPkgAddrSrc::FromTomlConfig(id)
    );
    assert_eq!(
        RAMMPkgAddrSrc::from_text(None, "../ramm-sui".to_string()),
        RAMMPkgAddrSrc::FromPkgPublication("../ramm-sui".to_string())
    );
}

#[test]
fn validation_accepts_exactly_the_requests_that_meet_every_condition() {
    let envs = ["active", "testnet", "mainnet", "devnet", ""];
    for env in envs {
        for count in 0u8..4 {
            for len in 0usize..4 {
                for low in [None, Some(0usize), Some(len.saturating_sub(1))] {
                    let mut assets = Vec::new();
                    for i in 0..len {
                        let decimals = if low == Some(i) { 3 } else { 4 + i as u8 };
                        assets.push(asset("a", decimals));
                    }
                    let all_enough = assets.iter().all(|a| a.decimal_places >= ASSET_MIN_DECIMAL_PLACES);
                    let expected = count as usize == len
                        && count > 0
                        && ["active", "testnet", "mainnet"].contains(&env)
                        && all_enough;
                    assert_eq!(config(env, count, assets).validate_ramm_cfg(), expected);
                }
            }
        }
    }
}
