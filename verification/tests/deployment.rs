use ramm_sui_deploy::add_assets_and_init_ramm;
use ramm_sui_deploy::aggregators::AggregatorResponse;
use ramm_sui_deploy::capabilities::{ObjectType, RAMMObjectArgs, RAMMObjectIDs};
use ramm_sui_deploy::effects::{ExecutionStatus, TransactionEffects, TransactionResponse};
use ramm_sui_deploy::error::{ProtocolViolation, RAMMDeploymentError};
use ramm_sui_deploy::ledger::{
    Coin, ObjectArg, ObjectDigest, ObjectID, ObjectRef, OwnedObjectRef, Owner, SuiAddress,
};
use ramm_sui_deploy::new_ramm_tx;
use ramm_sui_deploy::pipeline::{Action, Event, Stage};
use ramm_sui_deploy::ramm_deployment_step;
use ramm_sui_deploy::transaction::{
    Argument, CallArg, MoveCallArgument, ProgrammableMoveCall, TransactionData, CREATE_RAMM_GAS_BUDGET,
    RAMM_PTB_GAS_BUDGET,
};
use ramm_sui_deploy::types::{AssetConfig, RAMMDeploymentConfig, RAMMPkgAddrSrc};

fn account(tail: u16) -> SuiAddress {
    let mut bytes = [0u8; 32];
    bytes[30] = (tail >> 8) as u8;
    bytes[31] = (tail & 0xff) as u8;
    SuiAddress::new(bytes)
}

fn ident(tail: u8) -> ObjectID {
    let mut bytes = [0u8; 32];
    bytes[0] = 0xCD;
    bytes[31] = tail;
    ObjectID::new(bytes)
}

fn named(tail: u8, version: u64) -> ObjectRef {
    ObjectRef { object_id: ident(tail), version, digest: ObjectDigest::new([tail; 32]) }
}

fn created_object(tail: u8, version: u64, owner: Owner) -> OwnedObjectRef {
    OwnedObjectRef { owner, reference: named(tail, version) }
}

fn success(created: Vec<OwnedObjectRef>) -> TransactionResponse {
    TransactionResponse { effects: Some(TransactionEffects { status: ExecutionStatus::Success, created }) }
}

fn request(source: RAMMPkgAddrSrc) -> RAMMDeploymentConfig {
    RAMMDeploymentConfig {
        target_env: "testnet".to_string(),
        ramm_pkg_addr_or_path: source,
        asset_count: 2,
        fee_collection_address: account(0xFEE),
        assets: vec![
            AssetConfig {
                asset_type: "0xA::usdc::USDC".to_string(),
                aggregator_address: account(0xA61),
                minimum_trade_amount: 1000,
                decimal_places: 6,
            },
            AssetConfig {
                asset_type: "0xA::eth::ETH".to_string(),
                aggregator_address: account(0xA62),
                minimum_trade_amount: 1,
                decimal_places: 8,
            },
        ],
    }
}

fn publishing() -> RAMMDeploymentConfig {
    request(RAMMPkgAddrSrc::FromPkgPublication("./ramm-pkg".to_string()))
}

fn shared_aggregator(version: u64) -> AggregatorResponse {
    AggregatorResponse::Object { owner: Some(Owner::Shared { initial_shared_version: version }) }
}

fn gas_coin() -> Coin {
    Coin { coin_object_id: ident(0xC0), version: 21, digest: ObjectDigest::new([0xC0; 32]), balance: 9_000_000_000 }
}

fn objects() -> RAMMObjectArgs {
    RAMMObjectArgs {
        ramm: ObjectArg::SharedObject { id: ident(0x20), initial_shared_version: 4, mutable: true },
        admin_cap: ObjectArg::ImmOrOwnedObject(named(0x30, 4)),
        new_asset_cap: ObjectArg::ImmOrOwnedObject(named(0x10, 4)),
    }
}

fn aggregator_inputs(cfg: &RAMMDeploymentConfig) -> Vec<ObjectArg> {
    vec![
        ObjectArg::SharedObject {
            id: ObjectID::from_address(cfg.assets[0].aggregator_address),
            initial_shared_version: 11,
            mutable: false,
        },
        ObjectArg::SharedObject {
            id: ObjectID::from_address(cfg.assets[1].aggregator_address),
            initial_shared_version: 12,
            mutable: false,
        },
    ]
}

fn call(function: &str, type_arguments: Vec<&str>, arguments: Vec<u16>) -> ProgrammableMoveCall {
    ProgrammableMoveCall {
        package: ident(0x99),
        module: "ramm".to_string(),
        function: function.to_string(),
        type_arguments: type_arguments.into_iter().map(|t| t.to_string()).collect(),
        arguments: arguments.into_iter().map(Argument::Input).collect(),
    }
}

fn build(cfg: &RAMMDeploymentConfig, aggregators: Vec<ObjectArg>) -> Result<TransactionData, RAMMDeploymentError> {
    let o = objects();
    add_assets_and_init_ramm(
        cfg,
        account(1),
        ident(0x99),
        o.ramm,
        o.admin_cap,
        o.new_asset_cap,
        aggregators,
        gas_coin(),
        750,
    )
}

#[test]
fn creation_call_takes_the_fee_collection_address() {
    let cfg = publishing();
    let call = new_ramm_tx(&cfg, &account(1), ident(0x99));
    assert_eq!(call.sender, account(1));
    assert_eq!(call.package, ident(0x99));
    assert_eq!(call.module, "ramm");
    assert_eq!(call.function, "new_ramm");
    assert!(call.type_arguments.is_empty());
    assert_eq!(call.arguments, vec![MoveCallArgument::Address(account(0xFEE))]);
    assert_eq!(call.gas, None);
    assert_eq!(call.gas_budget, 100_000_000);
    assert_eq!(CREATE_RAMM_GAS_BUDGET, 100_000_000);
}

#[test]
fn move_call_needs_valid_identifiers() {
    let made = ProgrammableMoveCall::new(ident(1), "ramm", "add_asset_to_ramm", vec![], vec![]);
    assert_eq!(
        made,
        Some(ProgrammableMoveCall {
            package: ident(1),
            module: "ramm".to_string(),
            function: "add_asset_to_ramm".to_string(),
            type_arguments: vec![],
            arguments: vec![],
        })
    );
    assert!(ProgrammableMoveCall::new(ident(1), "_x", "A9_", vec![], vec![]).is_some());
    assert!(ProgrammableMoveCall::new(ident(1), "<SELF>", "f", vec![], vec![]).is_some());
    for bad in ["", "_", "9lives", "with space", "dash-ed", "ramm::new", "caf\u{e9}", "<self>"] {
        assert_eq!(ProgrammableMoveCall::new(ident(1), bad, "f", vec![], vec![]), None);
        assert_eq!(ProgrammableMoveCall::new(ident(1), "ramm", bad, vec![], vec![]), None);
    }
}

#[test]
fn batch_for_two_assets_is_two_additions_and_one_initialization() {
    let cfg = publishing();
    let tx = build(&cfg, aggregator_inputs(&cfg)).unwrap();
    let o = objects();
    let a = aggregator_inputs(&cfg);
    assert_eq!(tx.sender, account(1));
    assert_eq!(tx.gas_payment, vec![gas_coin().object_ref()]);
    assert_eq!(tx.gas_budget, 100_000_000);
    assert_eq!(RAMM_PTB_GAS_BUDGET, 100_000_000);
    assert_eq!(tx.gas_price, 750);
    assert_eq!(
        tx.transaction.inputs,
        vec![
            CallArg::Object(o.ramm),
            CallArg::Object(o.admin_cap),
            CallArg::Object(o.new_asset_cap),
            CallArg::Object(a[0]),
            CallArg::PureU64(1000),
            CallArg::PureU8(6),
            CallArg::Object(a[1]),
            CallArg::PureU64(1),
            CallArg::PureU8(8),
        ]
    );
    assert_eq!(
        tx.transaction.commands,
        vec![
            call("add_asset_to_ramm", vec!["0xA::usdc::USDC"], vec![0, 3, 4, 5, 1, 2]),
            call("add_asset_to_ramm", vec!["0xA::eth::ETH"], vec![0, 6, 7, 8, 1, 2]),
            call("initialize_ramm", vec![], vec![0, 1, 2]),
        ]
    );
}

#[test]
fn batch_has_one_addition_per_asset_and_ends_with_the_initialization() {
    for n in [1usize, 3, 17, 255] {
        let mut cfg = publishing();
        cfg.assets = (0..n)
            .map(|i| AssetConfig {
                asset_type: format!("0xA::coin{}::COIN", i),
                aggregator_address: account(i as u16),
                minimum_trade_amount: i as u64,
                decimal_places: 9,
            })
            .collect();
        cfg.asset_count = n as u8;
        let aggregators: Vec<ObjectArg> = (0..n)
            .map(|i| ObjectArg::SharedObject {
                id: ObjectID::from_address(account(i as u16)),
                initial_shared_version: i as u64,
                mutable: false,
            })
            .collect();
        let tx = build(&cfg, aggregators.clone()).unwrap().transaction;
        assert_eq!(tx.commands.len(), n + 1);
        assert_eq!(tx.inputs.len(), 3 + 3 * n);
        for i in 0..n {
            let command = &tx.commands[i];
            assert_eq!(command.function, "add_asset_to_ramm");
            assert_eq!(command.type_arguments, vec![format!("0xA::coin{}::COIN", i)]);
            assert_eq!(command.arguments.len(), 6);
            let Argument::Input(slot) = command.arguments[1];
            assert_eq!(tx.inputs[slot as usize], CallArg::Object(aggregators[i]));
            let Argument::Input(slot) = command.arguments[2];
            assert_eq!(tx.inputs[slot as usize], CallArg::PureU64(i as u64));
            let Argument::Input(slot) = command.arguments[3];
            assert_eq!(tx.inputs[slot as usize], CallArg::PureU8(9));
        }
        let last = &tx.commands[n];
        assert_eq!(last.function, "initialize_ramm");
        assert_eq!(last.arguments, vec![Argument::Input(0), Argument::Input(1), Argument::Input(2)]);
        assert_eq!(tx.commands.iter().filter(|c| c.function == "initialize_ramm").count(), 1);
    }
}

#[test]
fn batch_is_not_built_for_an_invalid_request() {
    let mut cfg = publishing();
    cfg.asset_count = 3;
    assert_eq!(build(&cfg, aggregator_inputs(&cfg)), Err(RAMMDeploymentError::InvalidConfigData));
}

#[test]
fn batch_needs_one_aggregator_per_asset() {
    let cfg = publishing();
    let mut short = aggregator_inputs(&cfg);
    short.pop();
    assert_eq!(
        build(&cfg, short),
        Err(RAMMDeploymentError::ProtocolInvariant(ProtocolViolation::AggregatorCount { expected: 2, found: 1 }))
    );
}

fn creation_response(sender: SuiAddress) -> TransactionResponse {
    success(vec![
        created_object(0x10, 4, Owner::AddressOwner(sender)),
        created_object(0x20, 4, Owner::Shared { initial_shared_version: 4 }),
        created_object(0x30, 4, Owner::AddressOwner(sender)),
    ])
}

/// Runs a deployment of `cfg` up to the point where the aggregators are to be read.
fn until_aggregators(cfg: &RAMMDeploymentConfig, sender: SuiAddress) -> Stage {
    let (stage, action) = ramm_deployment_step(cfg, Stage::Start, Event::Begin);
    assert_eq!(stage, Stage::AwaitingClient);
    assert_eq!(action, Action::Connect { target_env: "testnet".to_string() });

    let (stage, action) = ramm_deployment_step(cfg, stage, Event::ClientReady { address: sender });
    assert_eq!(stage, Stage::AwaitingPublication { sender });
    match action {
        Action::Publish(publication) => {
            assert_eq!(publication.sender, sender);
            assert_eq!(publication.package_path, "./ramm-pkg");
            assert_eq!(publication.gas, None);
            assert_eq!(publication.gas_budget, 500_000_000);
        }
        other => panic!("expected a publication, got {:?}", other),
    }

    let published = success(vec![
        created_object(0x98, 1, Owner::AddressOwner(sender)),
        created_object(0x99, 1, Owner::Immutable),
    ]);
    let (stage, action) = ramm_deployment_step(cfg, stage, Event::Executed(published));
    assert_eq!(stage, Stage::AwaitingCreation { sender, package: ident(0x99) });
    assert_eq!(action, Action::Call(new_ramm_tx(cfg, &sender, ident(0x99))));

    let (stage, action) = ramm_deployment_step(cfg, stage, Event::Executed(creation_response(sender)));
    assert_eq!(
        stage,
        Stage::AwaitingCapabilityType {
            sender,
            package: ident(0x99),
            ramm: objects().ramm,
            first: ObjectArg::ImmOrOwnedObject(named(0x10, 4)),
            second: ObjectArg::ImmOrOwnedObject(named(0x30, 4)),
        }
    );
    assert_eq!(action, Action::ReadObjectType { id: ident(0x10) });

    let observed = ObjectType::Struct { name: "RAMMNewAssetCap".to_string() };
    let (stage, action) = ramm_deployment_step(cfg, stage, Event::ObjectTypeRead(observed));
    assert_eq!(stage, Stage::AwaitingAggregators { sender, package: ident(0x99), objects: objects() });
    assert_eq!(
        action,
        Action::ReadObjects {
            ids: vec![ObjectID::from_address(account(0xA61)), ObjectID::from_address(account(0xA62))]
        }
    );
    stage
}

#[test]
fn deployment_publishes_creates_resolves_and_populates() {
    let cfg = publishing();
    let sender = account(1);
    let stage = until_aggregators(&cfg, sender);

    let answers = vec![shared_aggregator(11), shared_aggregator(12)];
    let (stage, action) = ramm_deployment_step(&cfg, stage, Event::ObjectsRead(answers));
    assert_eq!(
        stage,
        Stage::AwaitingCoins {
            sender,
            package: ident(0x99),
            objects: objects(),
            aggregators: aggregator_inputs(&cfg)
        }
    );
    assert_eq!(action, Action::ReadCoins { owner: sender });

    let second_coin = Coin { coin_object_id: ident(0xC1), ..gas_coin() };
    let (stage, action) = ramm_deployment_step(&cfg, stage, Event::CoinsRead(vec![gas_coin(), second_coin]));
    assert_eq!(
        stage,
        Stage::AwaitingGasPrice {
            sender,
            package: ident(0x99),
            objects: objects(),
            aggregators: aggregator_inputs(&cfg),
            coin: gas_coin()
        }
    );
    assert_eq!(action, Action::ReadGasPrice);

    let (stage, action) = ramm_deployment_step(&cfg, stage, Event::GasPriceRead(750));
    assert_eq!(stage, Stage::AwaitingPopulation { objects: objects() });
    let expected = build(&cfg, aggregator_inputs(&cfg)).unwrap();
    assert_eq!(expected.transaction.commands.len(), 3);
    assert_eq!(expected.transaction.commands[0].function, "add_asset_to_ramm");
    assert_eq!(expected.transaction.commands[1].function, "add_asset_to_ramm");
    assert_eq!(expected.transaction.commands[2].function, "initialize_ramm");
    assert_eq!(action, Action::Submit(expected));

    let (stage, action) = ramm_deployment_step(&cfg, stage, Event::Executed(success(vec![])));
    assert_eq!(
        stage,
        Stage::Done {
            ids: RAMMObjectIDs { ramm: ident(0x20), admin_cap: ident(0x30), new_asset_cap: ident(0x10) }
        }
    );
    assert_eq!(action, Action::Stop);
    assert!(stage.is_terminal());
}

#[test]
fn unshared_aggregator_ends_the_deployment_before_any_batch() {
    let cfg = publishing();
    let sender = account(1);
    let stage = until_aggregators(&cfg, sender);

    let owned = AggregatorResponse::Object { owner: Some(Owner::AddressOwner(account(5))) };
    let (stage, action) = ramm_deployment_step(&cfg, stage, Event::ObjectsRead(vec![shared_aggregator(11), owned]));
    assert_eq!(
        stage,
        Stage::Failed {
            error: RAMMDeploymentError::ProtocolInvariant(ProtocolViolation::AggregatorNotShared { index: 1 })
        }
    );
    assert_eq!(action, Action::Stop);

    let failed = stage.clone();
    let (stage, action) = ramm_deployment_step(&cfg, stage, Event::CoinsRead(vec![gas_coin()]));
    assert_eq!(stage, failed);
    assert_eq!(action, Action::Stop);
    let (stage, action) = ramm_deployment_step(&cfg, stage, Event::GasPriceRead(750));
    assert_eq!(stage, failed);
    assert_eq!(action, Action::Stop);
}

#[test]
fn configured_package_is_used_without_publication() {
    let cfg = request(RAMMPkgAddrSrc::FromTomlConfig(ident(0x77)));
    let sender = account(1);
    let (stage, _) = ramm_deployment_step(&cfg, Stage::Start, Event::Begin);
    let (stage, action) = ramm_deployment_step(&cfg, stage, Event::ClientReady { address: sender });
    assert_eq!(stage, Stage::AwaitingCreation { sender, package: ident(0x77) });
    assert_eq!(action, Action::Call(new_ramm_tx(&cfg, &sender, ident(0x77))));
}

#[test]
fn invalid_request_is_rejected_before_anything_is_sent() {
    let mut cfg = publishing();
    cfg.target_env = "devnet".to_string();
    let (stage, action) = ramm_deployment_step(&cfg, Stage::Start, Event::Begin);
    assert_eq!(stage, Stage::Failed { error: RAMMDeploymentError::InvalidConfigData });
    assert_eq!(action, Action::Stop);
}

#[test]
fn too_few_capabilities_fail_before_any_type_is_read() {
    let cfg = publishing();
    let sender = account(1);
    let at_creation = || Stage::AwaitingCreation { sender, package: ident(0x99) };
    let ramm = created_object(0x20, 4, Owner::Shared { initial_shared_version: 4 });

    let (stage, action) = ramm_deployment_step(&cfg, at_creation(), Event::Executed(success(vec![ramm])));
    assert_eq!(
        stage,
        Stage::Failed {
            error: RAMMDeploymentError::ProtocolInvariant(ProtocolViolation::CapabilityCount { found: 0 })
        }
    );
    assert_eq!(action, Action::Stop);

    let one = success(vec![ramm, created_object(0x10, 4, Owner::AddressOwner(sender))]);
    let (stage, action) = ramm_deployment_step(&cfg, at_creation(), Event::Executed(one));
    assert_eq!(
        stage,
        Stage::Failed {
            error: RAMMDeploymentError::ProtocolInvariant(ProtocolViolation::CapabilityCount { found: 1 })
        }
    );
    assert_eq!(action, Action::Stop);
}

#[test]
fn unknown_capability_type_ends_the_deployment() {
    let cfg = publishing();
    let sender = account(1);
    let stage = Stage::AwaitingCapabilityType {
        sender,
        package: ident(0x99),
        ramm: objects().ramm,
        first: objects().new_asset_cap,
        second: objects().admin_cap,
    };
    let observed = ObjectType::Struct { name: "UpgradeCap".to_string() };
    let (stage, action) = ramm_deployment_step(&cfg, stage, Event::ObjectTypeRead(observed));
    assert_eq!(
        stage,
        Stage::Failed {
            error: RAMMDeploymentError::ProtocolInvariant(ProtocolViolation::UnknownCapabilityType {
                name: "UpgradeCap".to_string()
            })
        }
    );
    assert_eq!(action, Action::Stop);
}

#[test]
fn failed_operation_ends_the_deployment_with_its_error() {
    let cfg = publishing();
    let error = RAMMDeploymentError::CapObjectQueryError("timeout".to_string());
    let stage = Stage::AwaitingCapabilityType {
        sender: account(1),
        package: ident(0x99),
        ramm: objects().ramm,
        first: objects().new_asset_cap,
        second: objects().admin_cap,
    };
    let (stage, action) = ramm_deployment_step(&cfg, stage, Event::Failed(error.clone()));
    assert_eq!(stage, Stage::Failed { error });
    assert_eq!(action, Action::Stop);
}

#[test]
fn reply_that_was_not_asked_for_ends_the_deployment() {
    let cfg = publishing();
    let (stage, action) = ramm_deployment_step(&cfg, Stage::Start, Event::GasPriceRead(1));
    assert_eq!(
        stage,
        Stage::Failed { error: RAMMDeploymentError::ProtocolInvariant(ProtocolViolation::UnexpectedEvent) }
    );
    assert_eq!(action, Action::Stop);
    let (stage, _) = ramm_deployment_step(&cfg, Stage::AwaitingClient, Event::Begin);
    assert!(matches!(stage, Stage::Failed { .. }));
}

#[test]
fn no_coin_ends_the_deployment() {
    let cfg = publishing();
    let stage = Stage::AwaitingCoins {
        sender: account(1),
        package: ident(0x99),
        objects: objects(),
        aggregators: aggregator_inputs(&cfg),
    };
    let (stage, action) = ramm_deployment_step(&cfg, stage, Event::CoinsRead(vec![]));
    assert_eq!(
        stage,
        Stage::Failed { error: RAMMDeploymentError::ProtocolInvariant(ProtocolViolation::NoGasCoin) }
    );
    assert_eq!(action, Action::Stop);
}

#[test]
fn aborted_batch_ends_the_deployment_in_failure() {
    let cfg = publishing();
    let aborted = TransactionResponse {
        effects: Some(TransactionEffects {
            status: ExecutionStatus::Failure { error: "InsufficientGas".to_string() },
            created: vec![],
        }),
    };
    let stage = Stage::AwaitingPopulation { objects: objects() };
    let (stage, action) = ramm_deployment_step(&cfg, stage, Event::Executed(aborted));
    assert_eq!(
        stage,
        Stage::Failed { error: RAMMDeploymentError::TxBlockExecutionError("InsufficientGas".to_string()) }
    );
    assert_eq!(action, Action::Stop);
}

#[test]
fn finished_deployment_stays_finished() {
    let cfg = publishing();
    let ids = RAMMObjectIDs { ramm: ident(1), admin_cap: ident(2), new_asset_cap: ident(3) };
    let (stage, action) = ramm_deployment_step(&cfg, Stage::Done { ids }, Event::Begin);
    assert_eq!(stage, Stage::Done { ids });
    assert_eq!(action, Action::Stop);
    let (stage, action) =
        ramm_deployment_step(&cfg, stage, Event::Failed(RAMMDeploymentError::NoTOMLConfigProvided));
    assert_eq!(stage, Stage::Done { ids });
    assert_eq!(action, Action::Stop);
}
