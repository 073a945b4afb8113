//! The transactions of a deployment, as plain descriptions of what is to be
//! signed and submitted: the call that creates the RAMM, and the batched
//! transaction that adds every asset and then initializes the RAMM.

use vstd::prelude::*;
use vstd::string::*;

use crate::capabilities::RAMMObjectArgs;
use crate::error::{violation, ErrorView, ProtocolViolation, ProtocolViolationView, RAMMDeploymentError};
use crate::identifier::{identifier_is_valid, is_valid_identifier};
use crate::ledger::{Coin, ObjectArg, ObjectID, ObjectRef, SuiAddress};
use crate::types::{AssetConfigView, RAMMDeploymentConfig, RAMMDeploymentConfigView};

verus! {

/// Gas budget, in MIST, of the transaction that creates the RAMM.
pub const CREATE_RAMM_GAS_BUDGET: u64 = 100_000_000;

/// Gas budget, in MIST, of the batched transaction that adds the assets and
/// initializes the RAMM.
pub const RAMM_PTB_GAS_BUDGET: u64 = 100_000_000;

/// Name of the module of the RAMM package that creates and initializes RAMMs.
pub open spec fn ramm_module_name() -> Seq<char> {
    "ramm"@
}

/// Name of the function that creates a RAMM.
pub open spec fn new_ramm_name() -> Seq<char> {
    "new_ramm"@
}

/// Name of the function that adds an asset to a RAMM.
pub open spec fn add_asset_name() -> Seq<char> {
    "add_asset_to_ramm"@
}

/// Name of the function that initializes a RAMM.
pub open spec fn initialize_name() -> Seq<char> {
    "initialize_ramm"@
}

/// A value passed to a function called on its own.
#[derive(Clone, Copy, Debug, PartialEq, Eq)]
pub enum MoveCallArgument {
    Address(SuiAddress),
}

/// A single call of a function of a published package, to be built into a
/// transaction of its own.
#[derive(Clone, Debug, PartialEq, Eq)]
pub struct MoveCallRequest {
    pub sender: SuiAddress,
    pub package: ObjectID,
    pub module: String,
    pub function: String,
    pub type_arguments: Vec<String>,
    pub arguments: Vec<MoveCallArgument>,
    /// The coin to pay with; `None` leaves the choice to the client.
    pub gas: Option<ObjectID>,
    pub gas_budget: u64,
}

/// The views of a list of texts, in order.
pub open spec fn text_views(texts: Seq<String>) -> Seq<Seq<char>> {
    texts.map_values(|t: String| t@)
}

/// [`MoveCallRequest`] as a mathematical value.
pub ghost struct MoveCallRequestView {
    pub sender: SuiAddress,
    pub package: ObjectID,
    pub module: Seq<char>,
    pub function: Seq<char>,
    pub type_arguments: Seq<Seq<char>>,
    pub arguments: Seq<MoveCallArgument>,
    pub gas: Option<ObjectID>,
    pub gas_budget: u64,
}

impl View for MoveCallRequest {
    type V = MoveCallRequestView;

    open spec fn view(&self) -> MoveCallRequestView {
        MoveCallRequestView {
            sender: self.sender,
            package: self.package,
            module: self.module@,
            function: self.function@,
            type_arguments: text_views(self.type_arguments@),
            arguments: self.arguments@,
            gas: self.gas,
            gas_budget: self.gas_budget,
        }
    }
}

/// The call that creates a RAMM: `ramm::new_ramm` of the package, with the
/// fee collection address as its one argument, no chosen gas coin and a fixed
/// budget.
pub open spec fn ramm_creation(
    fee_collection_address: SuiAddress,
    client_address: SuiAddress,
    ramm_pkg_id: ObjectID,
) -> MoveCallRequestView {
    MoveCallRequestView {
        sender: client_address,
        package: ramm_pkg_id,
        module: ramm_module_name(),
        function: new_ramm_name(),
        type_arguments: Seq::empty(),
        arguments: seq![MoveCallArgument::Address(fee_collection_address)],
        gas: None,
        gas_budget: CREATE_RAMM_GAS_BUDGET,
    }
}

/// Describes the transaction that creates the RAMM.
pub fn new_ramm_tx(dplymt_cfg: &RAMMDeploymentConfig, client_address: &SuiAddress, ramm_pkg_id: ObjectID) -> (request:
    MoveCallRequest)
    ensures
        request@ == ramm_creation(dplymt_cfg@.fee_collection_address, *client_address, ramm_pkg_id),
{
    let mut arguments: Vec<MoveCallArgument> = Vec::new();
    arguments.push(MoveCallArgument::Address(dplymt_cfg.fee_collection_address));
    let request = MoveCallRequest {
        sender: *client_address,
        package: ramm_pkg_id,
        module: String::from_str("ramm"),
        function: String::from_str("new_ramm"),
        type_arguments: Vec::new(),
        arguments,
        gas: None,
        gas_budget: CREATE_RAMM_GAS_BUDGET,
    };
    assert(request@.type_arguments =~= Seq::empty());
    assert(request@.arguments =~= seq![MoveCallArgument::Address(dplymt_cfg@.fee_collection_address)]);
    request
}

/// The coin that pays for the batched transaction: the first of the sender's
/// coins. A sender without coins cannot pay.
pub open spec fn gas_coin(coins: Seq<Coin>) -> Result<Coin, ErrorView> {
    if coins.len() == 0 {
        Err(violation(ProtocolViolationView::NoGasCoin))
    } else {
        Ok(coins[0])
    }
}

/// Chooses the coin that pays for the batched transaction.
pub fn first_coin(coins: &Vec<Coin>) -> (coin: Result<Coin, RAMMDeploymentError>)
    ensures
        crate::error::outcome(coin) == gas_coin(coins@),
{
    if coins.len() == 0 {
        Err(RAMMDeploymentError::ProtocolInvariant(ProtocolViolation::NoGasCoin))
    } else {
        Ok(coins[0])
    }
}

/// An input of a batched transaction.
#[derive(Clone, Copy, Debug, PartialEq, Eq)]
pub enum CallArg {
    Object(ObjectArg),
    PureU64(u64),
    PureU8(u8),
}

/// An argument of a call in a batched transaction: the input at a position
/// of the transaction's list of inputs.
#[derive(Clone, Copy, Debug, PartialEq, Eq)]
pub enum Argument {
    Input(u16),
}

/// A call of a function of a published package, inside a batched transaction.
#[derive(Clone, Debug, PartialEq, Eq)]
pub struct ProgrammableMoveCall {
    pub package: ObjectID,
    pub module: String,
    pub function: String,
    pub type_arguments: Vec<String>,
    pub arguments: Vec<Argument>,
}

/// [`ProgrammableMoveCall`] as a mathematical value.
pub ghost struct MoveCallView {
    pub package: ObjectID,
    pub module: Seq<char>,
    pub function: Seq<char>,
    pub type_arguments: Seq<Seq<char>>,
    pub arguments: Seq<Argument>,
}

impl View for ProgrammableMoveCall {
    type V = MoveCallView;

    open spec fn view(&self) -> MoveCallView {
        MoveCallView {
            package: self.package,
            module: self.module@,
            function: self.function@,
            type_arguments: text_views(self.type_arguments@),
            arguments: self.arguments@,
        }
    }
}

impl ProgrammableMoveCall {
    /// A call of `module::function` of `package`, if both names are valid
    /// Move identifiers.
    pub fn new(
        package: ObjectID,
        module: &str,
        function: &str,
        type_arguments: Vec<String>,
        arguments: Vec<Argument>,
    ) -> (call: Option<ProgrammableMoveCall>)
        ensures
            call is Some <==> is_valid_identifier(module@) && is_valid_identifier(function@),
            call is Some ==> call->Some_0@ == (MoveCallView {
                package,
                module: module@,
                function: function@,
                type_arguments: text_views(type_arguments@),
                arguments: arguments@,
            }),
    {
        if identifier_is_valid(module) && identifier_is_valid(function) {
            Some(
                ProgrammableMoveCall {
                    package,
                    module: String::from_str(module),
                    function: String::from_str(function),
                    type_arguments,
                    arguments,
                },
            )
        } else {
            None
        }
    }
}

/// The views of a list of calls, in order.
pub open spec fn call_views(calls: Seq<ProgrammableMoveCall>) -> Seq<MoveCallView> {
    calls.map_values(|c: ProgrammableMoveCall| c@)
}

/// A batched transaction: inputs registered once and shared by all calls,
/// and the calls in the order in which they run. Either every call takes
/// effect or none does.
#[derive(Clone, Debug, PartialEq, Eq)]
pub struct ProgrammableTransaction {
    pub inputs: Vec<CallArg>,
    pub commands: Vec<ProgrammableMoveCall>,
}

/// [`ProgrammableTransaction`] as a mathematical value.
pub ghost struct ProgrammableTransactionView {
    pub inputs: Seq<CallArg>,
    pub commands: Seq<MoveCallView>,
}

impl View for ProgrammableTransaction {
    type V = ProgrammableTransactionView;

    open spec fn view(&self) -> ProgrammableTransactionView {
        ProgrammableTransactionView { inputs: self.inputs@, commands: call_views(self.commands@) }
    }
}

/// A batched transaction together with its sender and what pays for it.
#[derive(Clone, Debug, PartialEq, Eq)]
pub struct TransactionData {
    pub sender: SuiAddress,
    pub gas_payment: Vec<ObjectRef>,
    pub transaction: ProgrammableTransaction,
    pub gas_budget: u64,
    pub gas_price: u64,
}

/// [`TransactionData`] as a mathematical value.
pub ghost struct TransactionDataView {
    pub sender: SuiAddress,
    pub gas_payment: Seq<ObjectRef>,
    pub transaction: ProgrammableTransactionView,
    pub gas_budget: u64,
    pub gas_price: u64,
}

impl View for TransactionData {
    type V = TransactionDataView;

    open spec fn view(&self) -> TransactionDataView {
        TransactionDataView {
            sender: self.sender,
            gas_payment: self.gas_payment@,
            transaction: self.transaction@,
            gas_budget: self.gas_budget,
            gas_price: self.gas_price,
        }
    }
}

/// Position of the RAMM among the inputs of the batched transaction.
pub const RAMM_SLOT: u16 = 0;

/// Position of the admin capability among the inputs.
pub const ADMIN_CAP_SLOT: u16 = 1;

/// Position of the new-asset capability among the inputs.
pub const NEW_ASSET_CAP_SLOT: u16 = 2;

/// The three inputs that every call of the batched transaction shares.
pub open spec fn persistent_slots() -> Seq<Argument> {
    seq![Argument::Input(RAMM_SLOT), Argument::Input(ADMIN_CAP_SLOT), Argument::Input(NEW_ASSET_CAP_SLOT)]
}

/// The inputs of the batched transaction: the RAMM, the admin capability and
/// the new-asset capability, then for each asset, in order, its aggregator,
/// its minimum trade amount and its decimal places.
pub open spec fn populate_inputs(
    objects: RAMMObjectArgs,
    assets: Seq<AssetConfigView>,
    aggregators: Seq<ObjectArg>,
) -> Seq<CallArg> {
    Seq::new(
        (3 + 3 * assets.len()) as nat,
        |k: int|
            if k == 0 {
                CallArg::Object(objects.ramm)
            } else if k == 1 {
                CallArg::Object(objects.admin_cap)
            } else if k == 2 {
                CallArg::Object(objects.new_asset_cap)
            } else if (k - 3) % 3 == 0 {
                CallArg::Object(aggregators[(k - 3) / 3])
            } else if (k - 3) % 3 == 1 {
                CallArg::PureU64(assets[(k - 3) / 3].minimum_trade_amount)
            } else {
                CallArg::PureU8(assets[(k - 3) / 3].decimal_places)
            },
    )
}

/// The call that adds the asset at `index`: its type is the type argument,
/// and the values are the RAMM, the asset's aggregator, its minimum trade
/// amount, its decimal places, the admin capability and the new-asset
/// capability.
pub open spec fn add_asset_call(ramm_package_id: ObjectID, asset: AssetConfigView, index: int) -> MoveCallView {
    MoveCallView {
        package: ramm_package_id,
        module: ramm_module_name(),
        function: add_asset_name(),
        type_arguments: seq![asset.asset_type],
        arguments: seq![
            Argument::Input(RAMM_SLOT),
            Argument::Input((3 + 3 * index) as u16),
            Argument::Input((4 + 3 * index) as u16),
            Argument::Input((5 + 3 * index) as u16),
            Argument::Input(ADMIN_CAP_SLOT),
            Argument::Input(NEW_ASSET_CAP_SLOT),
        ],
    }
}

/// The call that initializes the RAMM: it takes the three shared inputs and
/// nothing else.
pub open spec fn initialize_call(ramm_package_id: ObjectID) -> MoveCallView {
    MoveCallView {
        package: ramm_package_id,
        module: ramm_module_name(),
        function: initialize_name(),
        type_arguments: Seq::empty(),
        arguments: persistent_slots(),
    }
}

/// The calls of the batched transaction: one call per asset that adds it, in
/// the order of the asset list, and then the call that initializes the RAMM.
pub open spec fn populate_commands(ramm_package_id: ObjectID, assets: Seq<AssetConfigView>) -> Seq<MoveCallView> {
    Seq::new(assets.len(), |i: int| add_asset_call(ramm_package_id, assets[i], i)).push(
        initialize_call(ramm_package_id),
    )
}

/// The batched transaction that adds the assets and initializes the RAMM.
pub open spec fn populate_transaction(
    assets: Seq<AssetConfigView>,
    client_address: SuiAddress,
    ramm_package_id: ObjectID,
    objects: RAMMObjectArgs,
    aggregators: Seq<ObjectArg>,
    coin: Coin,
    gas_price: u64,
) -> TransactionDataView {
    TransactionDataView {
        sender: client_address,
        gas_payment: seq![coin.spec_object_ref()],
        transaction: ProgrammableTransactionView {
            inputs: populate_inputs(objects, assets, aggregators),
            commands: populate_commands(ramm_package_id, assets),
        },
        gas_budget: RAMM_PTB_GAS_BUDGET,
        gas_price,
    }
}

/// What building the batched transaction yields: a request that is not valid
/// is rejected; there must be one aggregator per asset; otherwise the
/// transaction is [`populate_transaction`].
pub open spec fn populate_outcome(
    cfg: RAMMDeploymentConfigView,
    client_address: SuiAddress,
    ramm_package_id: ObjectID,
    objects: RAMMObjectArgs,
    aggregators: Seq<ObjectArg>,
    coin: Coin,
    gas_price: u64,
) -> Result<TransactionDataView, ErrorView> {
    if !cfg.valid() {
        Err(ErrorView::InvalidConfigData)
    } else if aggregators.len() != cfg.assets.len() {
        Err(
            violation(
                ProtocolViolationView::AggregatorCount {
                    expected: cfg.assets.len() as usize,
                    found: aggregators.len() as usize,
                },
            ),
        )
    } else {
        Ok(populate_transaction(cfg.assets, client_address, ramm_package_id, objects, aggregators, coin, gas_price))
    }
}

/// The outcome of building a transaction: the transaction and the error by
/// their views.
pub open spec fn built(r: Result<TransactionData, RAMMDeploymentError>) -> Result<TransactionDataView, ErrorView> {
    match r {
        Ok(tx) => Ok(tx@),
        Err(error) => Err(error@),
    }
}

/// The names of the RAMM module and of its functions are valid identifiers.
pub proof fn lemma_ramm_names_are_identifiers()
    ensures
        is_valid_identifier(ramm_module_name()),
        is_valid_identifier(new_ramm_name()),
        is_valid_identifier(add_asset_name()),
        is_valid_identifier(initialize_name()),
{
    reveal_strlit("ramm");
    reveal_strlit("new_ramm");
    reveal_strlit("add_asset_to_ramm");
    reveal_strlit("initialize_ramm");
}

/// For N assets the batched transaction holds exactly N calls that add an
/// asset, one per asset and in the order of the asset list, followed by
/// exactly one call that initializes the RAMM. The arguments of that last
/// call are exactly the three shared inputs, which are the RAMM, the admin
/// capability and the new-asset capability.
pub proof fn lemma_batch_shape(
    assets: Seq<AssetConfigView>,
    client_address: SuiAddress,
    ramm_package_id: ObjectID,
    objects: RAMMObjectArgs,
    aggregators: Seq<ObjectArg>,
    coin: Coin,
    gas_price: u64,
)
    ensures
        ({
            let tx = populate_transaction(
                assets,
                client_address,
                ramm_package_id,
                objects,
                aggregators,
                coin,
                gas_price,
            ).transaction;
            &&& tx.commands.len() == assets.len() + 1
            &&& forall|i: int|
                0 <= i < assets.len() ==> {
                    &&& (#[trigger] tx.commands[i]).function == add_asset_name()
                    &&& tx.commands[i].type_arguments == seq![assets[i].asset_type]
                }
            &&& tx.commands[assets.len() as int].function == initialize_name()
            &&& tx.commands[assets.len() as int].arguments == persistent_slots()
            &&& add_asset_name() != initialize_name()
            &&& tx.inputs[RAMM_SLOT as int] == CallArg::Object(objects.ramm)
            &&& tx.inputs[ADMIN_CAP_SLOT as int] == CallArg::Object(objects.admin_cap)
            &&& tx.inputs[NEW_ASSET_CAP_SLOT as int] == CallArg::Object(objects.new_asset_cap)
        }),
{
    reveal_strlit("add_asset_to_ramm");
    reveal_strlit("initialize_ramm");
    assert(add_asset_name().len() == 17);
    assert(initialize_name().len() == 15);
}

/// Assets and aggregators are paired by position: in the call that adds the
/// asset at `index`, the arguments are the RAMM, the input that holds the
/// aggregator at `index`, the inputs that hold the asset's own minimum trade
/// amount and decimal places, and the two capabilities.
pub proof fn lemma_asset_call_inputs(
    assets: Seq<AssetConfigView>,
    ramm_package_id: ObjectID,
    objects: RAMMObjectArgs,
    aggregators: Seq<ObjectArg>,
    index: int,
)
    requires
        assets.len() <= u8::MAX,
        0 <= index < assets.len(),
    ensures
        ({
            let inputs = populate_inputs(objects, assets, aggregators);
            let call = populate_commands(ramm_package_id, assets)[index];
            let slot = |k: int| inputs[call.arguments[k]->Input_0 as int];
            &&& call.arguments.len() == 6
            &&& slot(0) == CallArg::Object(objects.ramm)
            &&& slot(1) == CallArg::Object(aggregators[index])
            &&& slot(2) == CallArg::PureU64(assets[index].minimum_trade_amount)
            &&& slot(3) == CallArg::PureU8(assets[index].decimal_places)
            &&& slot(4) == CallArg::Object(objects.admin_cap)
            &&& slot(5) == CallArg::Object(objects.new_asset_cap)
        }),
{
}

/// A call of `function` of the RAMM module.
fn ramm_move_call(
    ramm_package_id: ObjectID,
    function: &str,
    type_arguments: Vec<String>,
    arguments: Vec<Argument>,
) -> (call: ProgrammableMoveCall)
    requires
        is_valid_identifier(function@),
    ensures
        call@ == (MoveCallView {
            package: ramm_package_id,
            module: ramm_module_name(),
            function: function@,
            type_arguments: text_views(type_arguments@),
            arguments: arguments@,
        }),
{
    proof {
        lemma_ramm_names_are_identifiers();
    }
    ProgrammableMoveCall::new(ramm_package_id, "ramm", function, type_arguments, arguments).unwrap()
}

/// Builds the batched transaction that adds every asset of the request to the
/// RAMM and then initializes it.
///
/// The RAMM and its two capabilities are registered once, as the first three
/// inputs, and every call refers to them. The calls run in order, and the
/// initialization comes last: a RAMM cannot be initialized before all of its
/// assets are in.
pub fn add_assets_and_init_ramm(
    dplymt_cfg: &RAMMDeploymentConfig,
    client_address: SuiAddress,
    ramm_package_id: ObjectID,
    ramm_obj_arg: ObjectArg,
    admin_cap_obj_arg: ObjectArg,
    new_asset_cap_obj_arg: ObjectArg,
    aggr_obj_args: Vec<ObjectArg>,
    coin: Coin,
    gas_price: u64,
) -> (tx: Result<TransactionData, RAMMDeploymentError>)
    ensures
        built(tx) == populate_outcome(
            dplymt_cfg@,
            client_address,
            ramm_package_id,
            RAMMObjectArgs { ramm: ramm_obj_arg, admin_cap: admin_cap_obj_arg, new_asset_cap: new_asset_cap_obj_arg },
            aggr_obj_args@,
            coin,
            gas_price,
        ),
{
    if !dplymt_cfg.validate_ramm_cfg() {
        return Err(RAMMDeploymentError::InvalidConfigData);
    }
    if aggr_obj_args.len() != dplymt_cfg.assets.len() {
        return Err(
            RAMMDeploymentError::ProtocolInvariant(
                ProtocolViolation::AggregatorCount {
                    expected: dplymt_cfg.assets.len(),
                    found: aggr_obj_args.len(),
                },
            ),
        );
    }
    let ghost objects = RAMMObjectArgs {
        ramm: ramm_obj_arg,
        admin_cap: admin_cap_obj_arg,
        new_asset_cap: new_asset_cap_obj_arg,
    };
    let ghost assets = dplymt_cfg@.assets;
    let ghost all_inputs = populate_inputs(objects, assets, aggr_obj_args@);
    let ghost all_commands = populate_commands(ramm_package_id, assets);
    let count: usize = dplymt_cfg.assets.len();
    assert(count <= 255);

    let mut inputs: Vec<CallArg> = Vec::new();
    inputs.push(CallArg::Object(ramm_obj_arg));
    inputs.push(CallArg::Object(admin_cap_obj_arg));
    inputs.push(CallArg::Object(new_asset_cap_obj_arg));
    let mut commands: Vec<ProgrammableMoveCall> = Vec::new();

    let mut i: usize = 0;
    while i < count
        invariant
            i <= count,
            count == dplymt_cfg.assets.len(),
            count == aggr_obj_args.len(),
            count <= 255,
            assets == dplymt_cfg@.assets,
            all_inputs == populate_inputs(objects, assets, aggr_obj_args@),
            all_commands == populate_commands(ramm_package_id, assets),
            objects.ramm == ramm_obj_arg,
            objects.admin_cap == admin_cap_obj_arg,
            objects.new_asset_cap == new_asset_cap_obj_arg,
            inputs@.len() == 3 + 3 * i,
            forall|k: int| 0 <= k < inputs@.len() ==> inputs@[k] == all_inputs[k],
            commands@.len() == i,
            forall|k: int| 0 <= k < i ==> (#[trigger] commands@[k])@ == all_commands[k],
        decreases count - i,
    {
        let asset = &dplymt_cfg.assets[i];
        let base: u16 = (3 + 3 * i) as u16;
        inputs.push(CallArg::Object(aggr_obj_args[i]));
        inputs.push(CallArg::PureU64(asset.minimum_trade_amount));
        inputs.push(CallArg::PureU8(asset.decimal_places));

        let mut type_arguments: Vec<String> = Vec::new();
        type_arguments.push(asset.asset_type.clone());
        let mut arguments: Vec<Argument> = Vec::new();
        arguments.push(Argument::Input(RAMM_SLOT));
        arguments.push(Argument::Input(base));
        arguments.push(Argument::Input(base + 1));
        arguments.push(Argument::Input(base + 2));
        arguments.push(Argument::Input(ADMIN_CAP_SLOT));
        arguments.push(Argument::Input(NEW_ASSET_CAP_SLOT));
        proof {
            lemma_ramm_names_are_identifiers();
            assert(assets[i as int] == dplymt_cfg.assets@[i as int]@);
            assert(text_views(type_arguments@) =~= seq![assets[i as int].asset_type]);
            assert(arguments@ =~= add_asset_call(ramm_package_id, assets[i as int], i as int).arguments);
        }
        let call = ramm_move_call(ramm_package_id, "add_asset_to_ramm", type_arguments, arguments);
        assert(call@ == all_commands[i as int]);
        commands.push(call);
        i += 1;
    }

    let mut arguments: Vec<Argument> = Vec::new();
    arguments.push(Argument::Input(RAMM_SLOT));
    arguments.push(Argument::Input(ADMIN_CAP_SLOT));
    arguments.push(Argument::Input(NEW_ASSET_CAP_SLOT));
    let type_arguments: Vec<String> = Vec::new();
    proof {
        lemma_ramm_names_are_identifiers();
        assert(text_views(type_arguments@) =~= Seq::empty());
        assert(arguments@ =~= persistent_slots());
    }
    let call = ramm_move_call(ramm_package_id, "initialize_ramm", type_arguments, arguments);
    commands.push(call);

    let mut gas_payment: Vec<ObjectRef> = Vec::new();
    gas_payment.push(coin.object_ref());
    let tx = TransactionData {
        sender: client_address,
        gas_payment,
        transaction: ProgrammableTransaction { inputs, commands },
        gas_budget: RAMM_PTB_GAS_BUDGET,
        gas_price,
    };
    proof {
        assert(tx@.gas_payment =~= seq![coin.spec_object_ref()]);
        assert(tx@.transaction.inputs =~= all_inputs);
        assert(tx@.transaction.commands =~= all_commands);
    }
    Ok(tx)
}

} // verus!
