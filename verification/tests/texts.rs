use ramm_sui_deploy::assent::assent_from_reply;
use ramm_sui_deploy::error::{ProtocolViolation, RAMMDeploymentError};
use ramm_sui_deploy::first_coin;
use ramm_sui_deploy::ledger::{Coin, ObjectDigest, ObjectID};
use ramm_sui_deploy::faucet::{AssetConfig, FaucetData, RAMMDeploymentConfig};
use ramm_sui_deploy::text::{decimal, hex, tabs, text_equal};
use ramm_sui_deploy::UserAssent;

#[test]
fn texts_are_compared_by_their_characters() {
    assert!(text_equal("", ""));
    assert!(text_equal("yes\n", "yes\n"));
    assert!(!text_equal("yes", "yes\n"));
    assert!(!text_equal("Yes\n", "yes\n"));
}

#[test]
fn tabs_repeat_the_tab_character() {
    assert_eq!(tabs(0), "");
    assert_eq!(tabs(1), "\t");
    assert_eq!(tabs(3), "\t\t\t");
}

#[test]
fn decimal_writes_numbers_as_std_does() {
    for n in [0u64, 1, 9, 10, 11, 99, 100, 101, 1000, 65535, 4294967296, u64::MAX - 1, u64::MAX] {
        assert_eq!(decimal(n), n.to_string());
    }
    assert_eq!(decimal(18446744073709551615), "18446744073709551615");
    assert_eq!(decimal(1203), "1203");
}

#[test]
fn hex_writes_two_lower_case_digits_per_byte() {
    let mut bytes = [0u8; 32];
    assert_eq!(hex(&bytes), format!("0x{}", "00".repeat(32)));
    bytes[0] = 0xAB;
    bytes[1] = 0x0C;
    bytes[31] = 0xF9;
    assert_eq!(hex(&bytes), format!("0xab0c{}f9", "00".repeat(29)));
    let all: Vec<u8> = (0..32).map(|i| (i * 8 + 7) as u8).collect();
    let mut counted = [0u8; 32];
    counted.copy_from_slice(&all);
    let expected: String = all.iter().map(|b| format!("{:02x}", b)).collect();
    assert_eq!(hex(&counted), format!("0x{}", expected));
}

#[test]
fn yes_accepts_no_rejects_and_anything_else_asks_again() {
    assert_eq!(assent_from_reply("yes\n"), Some(UserAssent::Accepted));
    assert_eq!(assent_from_reply("no\n"), Some(UserAssent::Rejected));
    for other in ["", "yes", "no", "y\n", "YES\n", "yes\r\n", " yes\n", "maybe\n", "\n"] {
        assert_eq!(assent_from_reply(other), None);
    }
}

fn faucet() -> FaucetData {
    FaucetData { package_id: "0x76a5".to_string(), module_name: "test_coins".to_string() }
}

#[test]
fn faucet_data_is_written_under_its_heading() {
    assert_eq!(faucet().faucet_data_fmt(1), "faucet data:\n\tpackage ID: 0x76a5\n\tmodule name: test_coins\n");
    assert_eq!(
        faucet().faucet_data_fmt(2),
        "\tfaucet data:\n\t\tpackage ID: 0x76a5\n\t\tmodule name: test_coins\n"
    );
}

fn textual_asset(name: &str, amount: u64, decimals: u8) -> AssetConfig {
    AssetConfig {
        asset_name: name.to_string(),
        aggregator_address: "0xa61".to_string(),
        minimum_trade_amount: amount,
        decimal_places: decimals,
    }
}

#[test]
fn textual_asset_is_written_under_its_heading() {
    assert_eq!(
        textual_asset("BTC", 1000, 8).asset_cfg_fmt(3),
        "\t\tasset data:\n\t\t\tasset name: BTC\n\t\t\taggregator address: 0xa61\n\
         \t\t\tminimum trade amount: 1000\n\t\t\tdecimal places: 8\n"
    );
}

#[test]
fn textual_configuration_is_written_with_nested_data_indented() {
    let cfg = RAMMDeploymentConfig {
        faucet_data: faucet(),
        asset_count: 2,
        fee_collection_address: "0xfee".to_string(),
        assets: vec![textual_asset("BTC", 1000, 8), textual_asset("ETH", 0, 255)],
    };
    let expected = format!(
        "RAMM Deployment Configuration:\n\tasset list:\n{}{}{}\tfee collection address: 0xfee\n\tasset count: 2",
        textual_asset("BTC", 1000, 8).asset_cfg_fmt(3),
        textual_asset("ETH", 0, 255).asset_cfg_fmt(3),
        faucet().faucet_data_fmt(2)
    );
    assert_eq!(cfg.to_text(), expected);
    assert!(cfg.to_text().contains("\t\t\tdecimal places: 255\n\tfaucet data:\n\t\tpackage ID: "));
    let empty = RAMMDeploymentConfig { assets: vec![], asset_count: 0, ..cfg };
    assert_eq!(
        empty.to_text(),
        "RAMM Deployment Configuration:\n\tasset list:\n\tfaucet data:\n\t\tpackage ID: 0x76a5\n\
         \t\tmodule name: test_coins\n\tfee collection address: 0xfee\n\tasset count: 0"
    );
}

#[test]
fn first_coin_pays() {
    let coin = |tail: u8| Coin {
        coin_object_id: ObjectID::new([tail; 32]),
        version: tail as u64,
        digest: ObjectDigest::new([tail; 32]),
        balance: 1,
    };
    assert_eq!(first_coin(&vec![coin(4), coin(5), coin(6)]), Ok(coin(4)));
    assert_eq!(first_coin(&vec![coin(9)]), Ok(coin(9)));
    assert_eq!(
        first_coin(&vec![]),
        Err(RAMMDeploymentError::ProtocolInvariant(ProtocolViolation::NoGasCoin))
    );
}
