use ramm_sui_deploy::error::{ProtocolViolation, RAMMDeploymentError};
use ramm_sui_deploy::ledger::{ObjectID, SuiAddress};
use ramm_sui_deploy::types::{AssetConfig, AssetLabels, ConfigLabels, RAMMDeploymentConfig, RAMMPkgAddrSrc};

fn holder(tail: u8) -> SuiAddress {
    let mut bytes = [0u8; 32];
    bytes[31] = tail;
    SuiAddress::new(bytes)
}

fn long_hex(tail: &str) -> String {
    format!("0x{}{}", "00".repeat(31), tail)
}

fn usdc() -> AssetConfig {
    AssetConfig {
        asset_type: "0xA::usdc::USDC".to_string(),
        aggregator_address: holder(0xA1),
        minimum_trade_amount: 1000,
        decimal_places: 6,
    }
}

fn eth() -> AssetConfig {
    AssetConfig {
        asset_type: "0xA::eth::ETH".to_string(),
        aggregator_address: holder(0xA2),
        minimum_trade_amount: 1,
        decimal_places: 8,
    }
}

fn shown(source: RAMMPkgAddrSrc) -> RAMMDeploymentConfig {
    RAMMDeploymentConfig {
        target_env: "testnet".to_string(),
        ramm_pkg_addr_or_path: source,
        asset_count: 2,
        fee_collection_address: holder(0xFE),
        assets: vec![usdc(), eth()],
    }
}

#[test]
fn asset_is_laid_out_under_plain_labels() {
    let expected = format!(
        "\t\tasset data:\n\t\t\tasset type: 0xA::usdc::USDC\n\t\t\taggregator address: {}\n\
         \t\t\tminimum trade amount: 1000\n\t\t\tdecimal places: 6\n",
        long_hex("a1")
    );
    assert_eq!(usdc().asset_cfg_layout(3, &AssetLabels::plain()), expected);
    let flat = format!(
        "asset data:\n\tasset type: 0xA::eth::ETH\n\taggregator address: {}\n\
         \tminimum trade amount: 1\n\tdecimal places: 8\n",
        long_hex("a2")
    );
    assert_eq!(eth().asset_cfg_layout(1, &AssetLabels::plain()), flat);
}

#[test]
fn configuration_with_a_path_is_laid_out_under_plain_labels() {
    let cfg = shown(RAMMPkgAddrSrc::FromPkgPublication("./ramm-pkg".to_string()));
    let expected = format!(
        "RAMM Deployment Configuration:\n\tTarget environment: testnet\n\tFee collection address: {}\n\
         \tList of assets:\n\tAsset count: 2\n{}{}\
         \tRAMM package ID to be obtained from publishing library at path: ./ramm-pkg\n\
         End of RAMM Deployment Configuration\n",
        long_hex("fe"),
        usdc().asset_cfg_layout(3, &AssetLabels::plain()),
        eth().asset_cfg_layout(3, &AssetLabels::plain()),
    );
    assert_eq!(cfg.layout(&ConfigLabels::plain()), expected);
}

#[test]
fn configuration_with_a_package_is_laid_out_under_plain_labels() {
    let mut cfg = shown(RAMMPkgAddrSrc::FromTomlConfig(ObjectID::new([0x5d; 32])));
    cfg.assets.clear();
    cfg.asset_count = 0;
    let expected = format!(
        "RAMM Deployment Configuration:\n\tTarget environment: testnet\n\tFee collection address: {}\n\
         \tList of assets:\n\tAsset count: 0\n\tRAMM package address: 0x{}\n\
         End of RAMM Deployment Configuration\n",
        long_hex("fe"),
        "5d".repeat(32),
    );
    assert_eq!(cfg.layout(&ConfigLabels::plain()), expected);
}

#[test]
fn labels_are_wrapped_when_colours_are_on_and_plain_when_they_are_off() {
    colored::control::set_override(true);
    let labels = ConfigLabels::painted();
    assert_eq!(labels.title, "\u{1b}[100mRAMM Deployment Configuration\u{1b}[0m");
    assert_eq!(labels.end, "\u{1b}[100mEnd of RAMM Deployment Configuration\u{1b}[0m");
    assert_eq!(labels.target_env, "\u{1b}[32mTarget environment\u{1b}[0m");
    assert_eq!(labels.fee_collection_address, "\u{1b}[32mFee collection address\u{1b}[0m");
    assert_eq!(labels.assets, "\u{1b}[32mList of assets\u{1b}[0m");
    assert_eq!(labels.asset_count, "\u{1b}[32mAsset count\u{1b}[0m");
    assert_eq!(labels.package_address, "\u{1b}[32mRAMM package address\u{1b}[0m");
    assert_eq!(
        labels.package_path,
        "\u{1b}[32mRAMM package ID to be obtained from publishing library at path\u{1b}[0m"
    );
    assert_eq!(labels.asset.heading, "\u{1b}[35masset data\u{1b}[0m");
    assert_eq!(labels.asset.asset_type, "\u{1b}[36masset type\u{1b}[0m");
    assert_eq!(labels.asset.aggregator_address, "\u{1b}[36maggregator address\u{1b}[0m");
    assert_eq!(labels.asset.minimum_trade_amount, "\u{1b}[36mminimum trade amount\u{1b}[0m");
    assert_eq!(labels.asset.decimal_places, "\u{1b}[36mdecimal places\u{1b}[0m");
    assert_eq!(labels.asset, AssetLabels::painted());

    let cfg = shown(RAMMPkgAddrSrc::FromPkgPublication("./ramm-pkg".to_string()));
    assert_eq!(cfg.to_text(), cfg.layout(&labels));
    assert_eq!(usdc().asset_cfg_fmt(3), usdc().asset_cfg_layout(3, &labels.asset));
    assert!(usdc().asset_cfg_fmt(3).starts_with("\t\t\u{1b}[35masset data\u{1b}[0m:\n\t\t\t\u{1b}[36m"));

    colored::control::set_override(false);
    assert_eq!(ConfigLabels::painted(), ConfigLabels::plain());
    assert_eq!(AssetLabels::painted(), AssetLabels::plain());
    assert_eq!(cfg.to_text(), cfg.layout(&ConfigLabels::plain()));
    assert_eq!(usdc().asset_cfg_fmt(3), usdc().asset_cfg_layout(3, &AssetLabels::plain()));
    colored::control::unset_override();
}

#[test]
fn errors_say_what_went_wrong_and_why() {
    let cause = || "the cause".to_string();
    let cases = vec![
        (
            RAMMDeploymentError::TOMLFileReadError(cause()),
            "Error reading the TOML config file into a `String`: the cause",
        ),
        (RAMMDeploymentError::CLIError(cause()), "Error parsing the executable's user input: the cause"),
        (
            RAMMDeploymentError::NoTOMLConfigProvided,
            "No TOML config file provided - it is mandatory to provide one.",
        ),
        (RAMMDeploymentError::TOMLParseError(cause()), "Failed to parse the TOML config data: the cause"),
        (RAMMDeploymentError::InvalidConfigData, "The parsed TOML config has bad data."),
        (
            RAMMDeploymentError::SuibaseWorkdirError(cause()),
            "Failed to fetch Suibase workdir specified in config: the cause",
        ),
        (
            RAMMDeploymentError::RpcUrlSelectionError(cause()),
            "Failed to get the RPC URL for the selected workdir: the cause",
        ),
        (
            RAMMDeploymentError::BuildSuiClientFromRpcUrlError(cause()),
            "Failed to build a Sui client from the selected RPC URL: the cause",
        ),
        (
            RAMMDeploymentError::SuiClientActiveAddressError(cause()),
            "Failed to fetch the active address of the Sui client: the cause",
        ),
        (
            RAMMDeploymentError::KeystorePathnameError(cause()),
            "Failed to fetch pathname of file-based keystore: the cause",
        ),
        (RAMMDeploymentError::KeystoreOpenError(cause()), "Failed to open file-based keystore: the cause"),
        (RAMMDeploymentError::PkgBuildError(cause()), "Failed to build the RAMM package: the cause"),
        (
            RAMMDeploymentError::PublishTxError(cause()),
            "Failed to build publication transaction for RAMM library: the cause",
        ),
        (RAMMDeploymentError::TxSignatureError(cause()), "Failed to sign transaction: the cause"),
        (RAMMDeploymentError::TxBlockExecutionError(cause()), "Failed to execute transaction block: the cause"),
        (RAMMDeploymentError::NewRammTxError(cause()), "Failed to build RAMM creation tx: the cause"),
        (
            RAMMDeploymentError::CapObjectQueryError(cause()),
            "Failed to fetch data for capability object: the cause",
        ),
        (
            RAMMDeploymentError::AggregatorDataQueryError(cause()),
            "Failed to fetch aggregator object data. Node response: the cause",
        ),
        (
            RAMMDeploymentError::AggregatorObjectResponseError(cause()),
            "There is an issue with Aggregator object data: the cause",
        ),
        (
            RAMMDeploymentError::AggregatorObjectOwnerError,
            "The `owner` field of Aggregator object *must* be requested; it was `None`.",
        ),
        (
            RAMMDeploymentError::CoinQueryError(cause()),
            "Failed to fetch coin object from active address to pay for PTB: the cause",
        ),
        (RAMMDeploymentError::GasPriceQueryError(cause()), "Failed to fetch gas price for the PTB: the cause"),
    ];
    for (error, message) in cases {
        assert_eq!(error.message(), message);
    }
}

#[test]
fn protocol_violations_say_what_was_found() {
    let cases = vec![
        (ProtocolViolation::MissingEffects, "the response to the transaction holds no effects"),
        (
            ProtocolViolation::PublishedPackageCount { found: 2 },
            "publication should create exactly 1 immutable object, but created 2",
        ),
        (
            ProtocolViolation::SharedObjectCount { found: 0 },
            "the RAMM creation should result in exactly 1 new shared object, but resulted in 0",
        ),
        (
            ProtocolViolation::CapabilityCount { found: 13 },
            "the RAMM creation should result in exactly 2 objects owned by the sender, but resulted in 13",
        ),
        (ProtocolViolation::CapabilityIsPackage, "the capability object is a package"),
        (
            ProtocolViolation::UnknownCapabilityType { name: "UpgradeCap".to_string() },
            "the type of the capability object is neither capability: UpgradeCap",
        ),
        (
            ProtocolViolation::AggregatorCount { expected: 2, found: 10 },
            "the number of aggregator objects asked for was 2, but the number returned was 10",
        ),
        (
            ProtocolViolation::AggregatorNotShared { index: 1 },
            "the aggregator object is not shared, for the asset at position 1",
        ),
        (ProtocolViolation::NoGasCoin, "no coins are associated to the active address"),
        (ProtocolViolation::UnexpectedEvent, "a reply arrived that the current step did not ask for"),
    ];
    for (broken, message) in cases {
        assert_eq!(broken.message(), message);
        assert_eq!(
            RAMMDeploymentError::ProtocolInvariant(broken).message(),
            format!("Protocol invariant violated: {}", message)
        );
    }
}
