//! The deployment as a state machine.
//!
//! A deployment is a strict sequence of network operations, each of which
//! needs what the one before it returned. The library decides; the caller
//! performs. [`ramm_deployment_step`] takes the stage reached and the reply to
//! the last operation, and returns the next stage with the next operation to
//! perform. The first failure ends the deployment: nothing is retried and
//! nothing already on the ledger is undone.

use vstd::prelude::*;

use crate::aggregators::{
    aggregator_args, aggregator_ids, aggregator_object_ids, build_aggr_obj_args, response_views,
    AggregatorResponse, AggregatorResponseView,
};
use crate::capabilities::{
    assign_cap_obj_args, assigned_capabilities, collect_created_objects, created_objects, ObjectType,
    ObjectTypeView, RAMMObjectArgs, RAMMObjectIDs,
};
use crate::effects::{Ownership, ResponseView, TransactionResponse};
use crate::error::{violation, ErrorView, ProtocolViolation, ProtocolViolationView, RAMMDeploymentError};
use crate::ledger::{Coin, ObjectArg, ObjectID, Owner, SuiAddress};
use crate::package::{
    get_ramm_id_from_tx_response, package_of_response, publication, publish_tx, PublishRequest, PublishRequestView,
};
use crate::transaction::{
    add_assets_and_init_ramm, first_coin, gas_coin, new_ramm_tx, populate_outcome, populate_transaction,
    ramm_creation, MoveCallRequest, MoveCallRequestView, TransactionData, TransactionDataView,
};
use crate::types::{RAMMDeploymentConfig, RAMMDeploymentConfigView, RAMMPkgAddrSrc, RAMMPkgAddrSrcView};

verus! {

/// How far a deployment has come, with what the steps so far have yielded.
#[derive(Clone, Debug, PartialEq, Eq)]
pub enum Stage {
    /// Nothing has happened yet.
    Start,
    /// The client for the target environment is being set up.
    AwaitingClient,
    /// The package is being published.
    AwaitingPublication { sender: SuiAddress },
    /// The RAMM is being created.
    AwaitingCreation { sender: SuiAddress, package: ObjectID },
    /// The type of the first capability is being read.
    AwaitingCapabilityType {
        sender: SuiAddress,
        package: ObjectID,
        ramm: ObjectArg,
        first: ObjectArg,
        second: ObjectArg,
    },
    /// The aggregators are being read.
    AwaitingAggregators { sender: SuiAddress, package: ObjectID, objects: RAMMObjectArgs },
    /// The sender's coins are being read.
    AwaitingCoins { sender: SuiAddress, package: ObjectID, objects: RAMMObjectArgs, aggregators: Vec<ObjectArg> },
    /// The reference gas price is being read.
    AwaitingGasPrice {
        sender: SuiAddress,
        package: ObjectID,
        objects: RAMMObjectArgs,
        aggregators: Vec<ObjectArg>,
        coin: Coin,
    },
    /// The batched transaction is being executed.
    AwaitingPopulation { objects: RAMMObjectArgs },
    /// The RAMM is deployed.
    Done { ids: RAMMObjectIDs },
    /// The deployment has failed.
    Failed { error: RAMMDeploymentError },
}

/// [`Stage`] as a mathematical value.
pub ghost enum StageView {
    Start,
    AwaitingClient,
    AwaitingPublication { sender: SuiAddress },
    AwaitingCreation { sender: SuiAddress, package: ObjectID },
    AwaitingCapabilityType {
        sender: SuiAddress,
        package: ObjectID,
        ramm: ObjectArg,
        first: ObjectArg,
        second: ObjectArg,
    },
    AwaitingAggregators { sender: SuiAddress, package: ObjectID, objects: RAMMObjectArgs },
    AwaitingCoins { sender: SuiAddress, package: ObjectID, objects: RAMMObjectArgs, aggregators: Seq<ObjectArg> },
    AwaitingGasPrice {
        sender: SuiAddress,
        package: ObjectID,
        objects: RAMMObjectArgs,
        aggregators: Seq<ObjectArg>,
        coin: Coin,
    },
    AwaitingPopulation { objects: RAMMObjectArgs },
    Done { ids: RAMMObjectIDs },
    Failed { error: ErrorView },
}

impl View for Stage {
    type V = StageView;

    open spec fn view(&self) -> StageView {
        match *self {
            Stage::Start => StageView::Start,
            Stage::AwaitingClient => StageView::AwaitingClient,
            Stage::AwaitingPublication { sender } => StageView::AwaitingPublication { sender },
            Stage::AwaitingCreation { sender, package } => StageView::AwaitingCreation { sender, package },
            Stage::AwaitingCapabilityType { sender, package, ramm, first, second } => {
                StageView::AwaitingCapabilityType { sender, package, ramm, first, second }
            },
            Stage::AwaitingAggregators { sender, package, objects } => {
                StageView::AwaitingAggregators { sender, package, objects }
            },
            Stage::AwaitingCoins { sender, package, objects, aggregators } => {
                StageView::AwaitingCoins { sender, package, objects, aggregators: aggregators@ }
            },
            Stage::AwaitingGasPrice { sender, package, objects, aggregators, coin } => {
                StageView::AwaitingGasPrice { sender, package, objects, aggregators: aggregators@, coin }
            },
            Stage::AwaitingPopulation { objects } => StageView::AwaitingPopulation { objects },
            Stage::Done { ids } => StageView::Done { ids },
            Stage::Failed { error } => StageView::Failed { error: error@ },
        }
    }
}

impl StageView {
    /// Whether the deployment has ended, in success or in failure.
    pub open spec fn is_terminal(self) -> bool {
        self is Done || self is Failed
    }
}

impl Stage {
    /// Whether the deployment has ended, in success or in failure.
    pub fn is_terminal(&self) -> (ended: bool)
        ensures
            ended == self@.is_terminal(),
    {
        match self {
            Stage::Done { .. } => true,
            Stage::Failed { .. } => true,
            _ => false,
        }
    }
}

/// The reply to an operation.
#[derive(Clone, Debug, PartialEq, Eq)]
pub enum Event {
    /// The deployment is to start.
    Begin,
    /// The client is set up, and this is the active address.
    ClientReady { address: SuiAddress },
    /// A transaction was submitted, and this is the response.
    Executed(TransactionResponse),
    /// An object's type was read.
    ObjectTypeRead(ObjectType),
    /// The batched read of objects was answered.
    ObjectsRead(Vec<AggregatorResponse>),
    /// The coins of an address were read.
    CoinsRead(Vec<Coin>),
    /// The reference gas price was read.
    GasPriceRead(u64),
    /// The operation failed.
    Failed(RAMMDeploymentError),
}

/// [`Event`] as a mathematical value.
pub ghost enum EventView {
    Begin,
    ClientReady { address: SuiAddress },
    Executed(ResponseView),
    ObjectTypeRead(ObjectTypeView),
    ObjectsRead(Seq<AggregatorResponseView>),
    CoinsRead(Seq<Coin>),
    GasPriceRead(u64),
    Failed(ErrorView),
}

impl View for Event {
    type V = EventView;

    open spec fn view(&self) -> EventView {
        match *self {
            Event::Begin => EventView::Begin,
            Event::ClientReady { address } => EventView::ClientReady { address },
            Event::Executed(response) => EventView::Executed(response@),
            Event::ObjectTypeRead(observed) => EventView::ObjectTypeRead(observed@),
            Event::ObjectsRead(responses) => EventView::ObjectsRead(response_views(responses@)),
            Event::CoinsRead(coins) => EventView::CoinsRead(coins@),
            Event::GasPriceRead(price) => EventView::GasPriceRead(price),
            Event::Failed(error) => EventView::Failed(error@),
        }
    }
}

/// The operation to perform next.
#[derive(Clone, Debug, PartialEq, Eq)]
pub enum Action {
    /// Set up a client for the environment, with its active address and its
    /// keystore.
    Connect { target_env: String },
    /// Compile the package, then build, sign and submit its publication.
    Publish(PublishRequest),
    /// Build, sign and submit a single call.
    Call(MoveCallRequest),
    /// Read the type of an object.
    ReadObjectType { id: ObjectID },
    /// Read these objects with their owners, in one batch.
    ReadObjects { ids: Vec<ObjectID> },
    /// Read the coins of an address.
    ReadCoins { owner: SuiAddress },
    /// Read the reference gas price.
    ReadGasPrice,
    /// Sign and submit a batched transaction.
    Submit(TransactionData),
    /// Nothing is left to do.
    Stop,
}

/// [`Action`] as a mathematical value.
pub ghost enum ActionView {
    Connect { target_env: Seq<char> },
    Publish(PublishRequestView),
    Call(MoveCallRequestView),
    ReadObjectType { id: ObjectID },
    ReadObjects { ids: Seq<ObjectID> },
    ReadCoins { owner: SuiAddress },
    ReadGasPrice,
    Submit(TransactionDataView),
    Stop,
}

impl View for Action {
    type V = ActionView;

    open spec fn view(&self) -> ActionView {
        match *self {
            Action::Connect { target_env } => ActionView::Connect { target_env: target_env@ },
            Action::Publish(request) => ActionView::Publish(request@),
            Action::Call(request) => ActionView::Call(request@),
            Action::ReadObjectType { id } => ActionView::ReadObjectType { id },
            Action::ReadObjects { ids } => ActionView::ReadObjects { ids: ids@ },
            Action::ReadCoins { owner } => ActionView::ReadCoins { owner },
            Action::ReadGasPrice => ActionView::ReadGasPrice,
            Action::Submit(tx) => ActionView::Submit(tx@),
            Action::Stop => ActionView::Stop,
        }
    }
}

/// The deployment ends in failure.
pub open spec fn fails(error: ErrorView) -> (StageView, ActionView) {
    (StageView::Failed { error }, ActionView::Stop)
}

/// The RAMM is to be created from the package `package`.
pub open spec fn creates(cfg: RAMMDeploymentConfigView, sender: SuiAddress, package: ObjectID) -> (
    StageView,
    ActionView,
) {
    (
        StageView::AwaitingCreation { sender, package },
        ActionView::Call(ramm_creation(cfg.fee_collection_address, sender, package)),
    )
}

/// The stage that follows `stage` on `event`, and the operation to perform.
///
/// A deployment that has ended stays as it is. A failed operation ends the
/// deployment with its error, and so does a reply that the stage did not ask
/// for. Otherwise:
/// - at the start, a request that is not valid is rejected before anything is
///   sent; a valid one has the client set up;
/// - with the client ready, the configured package is used as it is, or the
///   package at the configured path is published;
/// - the publication yields the package, and the RAMM is created from it;
/// - the creation yields the RAMM and the two capabilities, and the type of
///   the first capability is read;
/// - that type assigns the capabilities their roles, and the aggregators are
///   read;
/// - the aggregators are resolved, and the sender's coins are read;
/// - the first coin pays, and the gas price is read;
/// - the batched transaction is built and submitted;
/// - its execution completes the deployment.
pub open spec fn advance(cfg: RAMMDeploymentConfigView, stage: StageView, event: EventView) -> (
    StageView,
    ActionView,
) {
    if stage.is_terminal() {
        (stage, ActionView::Stop)
    } else if event is Failed {
        fails(event->Failed_0)
    } else {
        match (stage, event) {
            (StageView::Start, EventView::Begin) => {
                if cfg.valid() {
                    (StageView::AwaitingClient, ActionView::Connect { target_env: cfg.target_env })
                } else {
                    fails(ErrorView::InvalidConfigData)
                }
            },
            (StageView::AwaitingClient, EventView::ClientReady { address }) => {
                match cfg.ramm_pkg_addr_or_path {
                    RAMMPkgAddrSrcView::FromTomlConfig(package) => creates(cfg, address, package),
                    RAMMPkgAddrSrcView::FromPkgPublication(path) => (
                        StageView::AwaitingPublication { sender: address },
                        ActionView::Publish(publication(path, address)),
                    ),
                }
            },
            (StageView::AwaitingPublication { sender }, EventView::Executed(response)) => {
                match package_of_response(response) {
                    Ok(package) => creates(cfg, sender, package),
                    Err(error) => fails(error),
                }
            },
            (StageView::AwaitingCreation { sender, package }, EventView::Executed(response)) => {
                match response.created() {
                    Err(error) => fails(error),
                    Ok(created) => match created_objects(created, sender) {
                        Err(error) => fails(error),
                        Ok((ramm, (first, second))) => (
                            StageView::AwaitingCapabilityType { sender, package, ramm, first, second },
                            ActionView::ReadObjectType { id: first.spec_id() },
                        ),
                    },
                }
            },
            (
                StageView::AwaitingCapabilityType { sender, package, ramm, first, second },
                EventView::ObjectTypeRead(observed),
            ) => {
                match assigned_capabilities(first, second, observed) {
                    Err(error) => fails(error),
                    Ok((admin_cap, new_asset_cap)) => (
                        StageView::AwaitingAggregators {
                            sender,
                            package,
                            objects: RAMMObjectArgs { ramm, admin_cap, new_asset_cap },
                        },
                        ActionView::ReadObjects { ids: aggregator_ids(cfg.assets) },
                    ),
                }
            },
            (StageView::AwaitingAggregators { sender, package, objects }, EventView::ObjectsRead(responses)) => {
                match aggregator_args(cfg.assets, responses) {
                    Err(error) => fails(error),
                    Ok(aggregators) => (
                        StageView::AwaitingCoins { sender, package, objects, aggregators },
                        ActionView::ReadCoins { owner: sender },
                    ),
                }
            },
            (StageView::AwaitingCoins { sender, package, objects, aggregators }, EventView::CoinsRead(coins)) => {
                match gas_coin(coins) {
                    Err(error) => fails(error),
                    Ok(coin) => (
                        StageView::AwaitingGasPrice { sender, package, objects, aggregators, coin },
                        ActionView::ReadGasPrice,
                    ),
                }
            },
            (
                StageView::AwaitingGasPrice { sender, package, objects, aggregators, coin },
                EventView::GasPriceRead(gas_price),
            ) => {
                match populate_outcome(cfg, sender, package, objects, aggregators, coin, gas_price) {
                    Err(error) => fails(error),
                    Ok(tx) => (StageView::AwaitingPopulation { objects }, ActionView::Submit(tx)),
                }
            },
            (StageView::AwaitingPopulation { objects }, EventView::Executed(response)) => {
                match response.created() {
                    Err(error) => fails(error),
                    Ok(_) => (StageView::Done { ids: objects.spec_ids() }, ActionView::Stop),
                }
            },
            _ => fails(violation(ProtocolViolationView::UnexpectedEvent)),
        }
    }
}

impl StageView {
    /// What holds of every stage that a deployment of `cfg` reaches from the
    /// start: once anything has been sent, the request is known to be valid;
    /// the RAMM is a shared object taken mutably, and the capabilities are
    /// owned objects; and once the aggregators are resolved, there is one per
    /// asset, each the asset's own aggregator as a shared object that is not
    /// taken mutably.
    pub open spec fn coherent(self, cfg: RAMMDeploymentConfigView) -> bool {
        match self {
            StageView::Start => true,
            StageView::Done { .. } => true,
            StageView::Failed { .. } => true,
            StageView::AwaitingClient => cfg.valid(),
            StageView::AwaitingPublication { .. } => cfg.valid(),
            StageView::AwaitingCreation { .. } => cfg.valid(),
            StageView::AwaitingCapabilityType { ramm, first, second, .. } => {
                &&& cfg.valid()
                &&& ramm matches ObjectArg::SharedObject { mutable: true, .. }
                &&& first is ImmOrOwnedObject
                &&& second is ImmOrOwnedObject
            },
            StageView::AwaitingAggregators { objects, .. } => cfg.valid() && roles_coherent(objects),
            StageView::AwaitingCoins { objects, aggregators, .. } => {
                &&& cfg.valid()
                &&& roles_coherent(objects)
                &&& aggregators_coherent(cfg, aggregators)
            },
            StageView::AwaitingGasPrice { objects, aggregators, .. } => {
                &&& cfg.valid()
                &&& roles_coherent(objects)
                &&& aggregators_coherent(cfg, aggregators)
            },
            StageView::AwaitingPopulation { objects } => cfg.valid() && roles_coherent(objects),
        }
    }
}

/// The RAMM is a shared object taken mutably, and both capabilities are
/// owned objects.
pub open spec fn roles_coherent(objects: RAMMObjectArgs) -> bool {
    &&& objects.ramm matches ObjectArg::SharedObject { mutable: true, .. }
    &&& objects.admin_cap is ImmOrOwnedObject
    &&& objects.new_asset_cap is ImmOrOwnedObject
}

/// There is one aggregator per asset, each the asset's own aggregator as a
/// shared object that is not taken mutably.
pub open spec fn aggregators_coherent(cfg: RAMMDeploymentConfigView, aggregators: Seq<ObjectArg>) -> bool {
    &&& aggregators.len() == cfg.assets.len()
    &&& forall|i: int|
        0 <= i < aggregators.len() ==> {
            &&& (#[trigger] aggregators[i]) matches ObjectArg::SharedObject { id, mutable, .. }
            &&& id == ObjectID::of_address(cfg.assets[i].aggregator_address)
            &&& !mutable
        }
}

/// A deployment that has ended stays as it is, and asks for nothing more.
pub proof fn lemma_ended_deployment_stays(cfg: RAMMDeploymentConfigView, stage: StageView, event: EventView)
    requires
        stage.is_terminal(),
    ensures
        advance(cfg, stage, event) == (stage, ActionView::Stop),
{
}

/// Every stage that a deployment reaches from the start is coherent: a step
/// from a coherent stage leads to a coherent stage.
pub proof fn lemma_steps_keep_coherence(cfg: RAMMDeploymentConfigView, stage: StageView, event: EventView)
    requires
        stage.coherent(cfg),
    ensures
        advance(cfg, stage, event).0.coherent(cfg),
{
    match (stage, event) {
        (StageView::AwaitingCreation { sender, package }, EventView::Executed(response)) => {
            if let Ok(created) = response.created() {
                if created_objects(created, sender) is Ok {
                    let shared = Ownership::Shared.among(created);
                    created.lemma_filter_pred(|o: crate::ledger::OwnedObjectRef| Ownership::Shared.admits(o.owner), 0);
                }
            }
        },
        (StageView::AwaitingAggregators { .. }, EventView::ObjectsRead(responses)) => {
            if let Ok(aggregators) = aggregator_args(cfg.assets, responses) {
                assert forall|i: int| 0 <= i < aggregators.len() implies {
                    &&& (#[trigger] aggregators[i]) matches ObjectArg::SharedObject { id, mutable, .. }
                    &&& id == ObjectID::of_address(cfg.assets[i].aggregator_address)
                    &&& !mutable
                } by {
                    if !(crate::aggregators::aggregator_arg(cfg.assets, responses, i) is Ok) {
                        crate::aggregators::lemma_unshared_aggregator_fails(cfg.assets, responses, i);
                    }
                }
            }
        },
        _ => {},
    }
}

/// A request that is not valid is rejected at the start, before anything is
/// sent to the network.
pub proof fn lemma_invalid_request_sends_nothing(cfg: RAMMDeploymentConfigView)
    requires
        !cfg.valid(),
    ensures
        advance(cfg, StageView::Start, EventView::Begin) == fails(ErrorView::InvalidConfigData),
{
}

/// A configured package is used as it is: once the client is ready the RAMM
/// is created from it at once, and nothing is published.
pub proof fn lemma_configured_package_is_used(cfg: RAMMDeploymentConfigView, package: ObjectID, sender: SuiAddress)
    requires
        cfg.ramm_pkg_addr_or_path == RAMMPkgAddrSrcView::FromTomlConfig(package),
    ensures
        advance(cfg, StageView::AwaitingClient, EventView::ClientReady { address: sender }) == (
            StageView::AwaitingCreation { sender, package },
            ActionView::Call(ramm_creation(cfg.fee_collection_address, sender, package)),
        ),
{
}

/// If the creation did not report exactly two objects owned by the sender,
/// the deployment fails at once: the type of no object is read.
pub proof fn lemma_capability_count_ends_deployment(
    cfg: RAMMDeploymentConfigView,
    sender: SuiAddress,
    package: ObjectID,
    created: Seq<crate::ledger::OwnedObjectRef>,
)
    requires
        Ownership::OwnedBy(sender).among(created).len() != 2,
    ensures
        ({
            let next = advance(
                cfg,
                StageView::AwaitingCreation { sender, package },
                EventView::Executed(ResponseView::Executed { created }),
            );
            next.0 is Failed && next.1 is Stop
        }),
{
}

/// A single aggregator that is not shared ends the deployment when the
/// aggregators are resolved: no coin is read and no batched transaction is
/// built or submitted.
pub proof fn lemma_unshared_aggregator_ends_deployment(
    cfg: RAMMDeploymentConfigView,
    sender: SuiAddress,
    package: ObjectID,
    objects: RAMMObjectArgs,
    responses: Seq<AggregatorResponseView>,
    index: int,
)
    requires
        0 <= index < responses.len(),
        !(responses[index] matches AggregatorResponseView::Object { owner: Some(Owner::Shared { .. }) }),
    ensures
        ({
            let next = advance(
                cfg,
                StageView::AwaitingAggregators { sender, package, objects },
                EventView::ObjectsRead(responses),
            );
            next.0 is Failed && next.1 is Stop
        }),
{
    crate::aggregators::lemma_unshared_aggregator_fails(cfg.assets, responses, index);
}

/// A batched transaction is submitted in one place only: when the gas price
/// arrives, after the aggregators were resolved and a coin was chosen. What
/// is submitted is the transaction of that stage's objects, aggregators and
/// coin, for a valid request with one aggregator per asset.
pub proof fn lemma_submission_follows_resolution(cfg: RAMMDeploymentConfigView, stage: StageView, event: EventView)
    requires
        advance(cfg, stage, event).1 is Submit,
    ensures
        stage is AwaitingGasPrice,
        event is GasPriceRead,
        cfg.valid(),
        stage->AwaitingGasPrice_aggregators.len() == cfg.assets.len(),
        advance(cfg, stage, event).1->Submit_0 == populate_transaction(
            cfg.assets,
            stage->AwaitingGasPrice_sender,
            stage->AwaitingGasPrice_package,
            stage->AwaitingGasPrice_objects,
            stage->AwaitingGasPrice_aggregators,
            stage->AwaitingGasPrice_coin,
            event->GasPriceRead_0,
        ),
        advance(cfg, stage, event).0 == (StageView::AwaitingPopulation {
            objects: stage->AwaitingGasPrice_objects,
        }),
{
}

/// In a coherent deployment, the arrival of the gas price always leads to the
/// submission of the batched transaction.
pub proof fn lemma_gas_price_leads_to_submission(cfg: RAMMDeploymentConfigView, stage: StageView, gas_price: u64)
    requires
        stage.coherent(cfg),
        stage is AwaitingGasPrice,
    ensures
        advance(cfg, stage, EventView::GasPriceRead(gas_price)).1 is Submit,
{
}

impl StageView {
    /// How far the stage is along the deployment. The stages come in one
    /// order, and a deployment that has ended is past all of them.
    pub open spec fn rank(self) -> nat {
        match self {
            StageView::Start => 0,
            StageView::AwaitingClient => 1,
            StageView::AwaitingPublication { .. } => 2,
            StageView::AwaitingCreation { .. } => 3,
            StageView::AwaitingCapabilityType { .. } => 4,
            StageView::AwaitingAggregators { .. } => 5,
            StageView::AwaitingCoins { .. } => 6,
            StageView::AwaitingGasPrice { .. } => 7,
            StageView::AwaitingPopulation { .. } => 8,
            StageView::Done { .. } => 9,
            StageView::Failed { .. } => 9,
        }
    }

    /// Whether `action` is the operation whose reply the stage waits for. A
    /// deployment that has ended waits for nothing.
    pub open spec fn awaits(self, action: ActionView) -> bool {
        match self {
            StageView::Start => false,
            StageView::AwaitingClient => action is Connect,
            StageView::AwaitingPublication { sender } => {
                action matches ActionView::Publish(request) && request.sender == sender
            },
            StageView::AwaitingCreation { sender, package } => {
                action matches ActionView::Call(request) && request.sender == sender && request.package
                    == package
            },
            StageView::AwaitingCapabilityType { first, .. } => {
                action == ActionView::ReadObjectType { id: first.spec_id() }
            },
            StageView::AwaitingAggregators { .. } => action is ReadObjects,
            StageView::AwaitingCoins { sender, .. } => action == ActionView::ReadCoins { owner: sender },
            StageView::AwaitingGasPrice { .. } => action is ReadGasPrice,
            StageView::AwaitingPopulation { .. } => action is Submit,
            StageView::Done { .. } => action is Stop,
            StageView::Failed { .. } => action is Stop,
        }
    }
}

/// The operations come in one order: every step of a deployment that has not
/// ended leads to a later stage, so that a deployment ends after at most nine
/// steps; and the operation that a step asks for is the one whose reply the
/// stage it leads to waits for.
pub proof fn lemma_steps_go_forward(cfg: RAMMDeploymentConfigView, stage: StageView, event: EventView)
    ensures
        !stage.is_terminal() ==> advance(cfg, stage, event).0.rank() > stage.rank(),
        advance(cfg, stage, event).0.rank() <= 9,
        advance(cfg, stage, event).0.awaits(advance(cfg, stage, event).1),
{
}

/// A deployment is completed in one place only: when the batched transaction
/// has been carried out. The identifiers reported are those of the RAMM and
/// of the capabilities that the batched transaction was built with.
pub proof fn lemma_completion_follows_population(cfg: RAMMDeploymentConfigView, stage: StageView, event: EventView)
    requires
        !(stage is Done),
        advance(cfg, stage, event).0 is Done,
    ensures
        stage is AwaitingPopulation,
        event matches EventView::Executed(ResponseView::Executed { .. }),
        advance(cfg, stage, event).0 == (StageView::Done {
            ids: stage->AwaitingPopulation_objects.spec_ids(),
        }),
{
}

/// The stage that a deployment reaches when every operation succeeds: the
/// package is published and found, the RAMM is created, the type of the
/// first capability is observed, the aggregators are read, the coins are
/// read, the gas price is read, and the batched transaction is carried out.
pub open spec fn undisturbed(
    cfg: RAMMDeploymentConfigView,
    sender: SuiAddress,
    published: Seq<crate::ledger::OwnedObjectRef>,
    created: Seq<crate::ledger::OwnedObjectRef>,
    observed: ObjectTypeView,
    answers: Seq<AggregatorResponseView>,
    coins: Seq<Coin>,
    gas_price: u64,
) -> StageView {
    let began = advance(cfg, StageView::Start, EventView::Begin).0;
    let connected = advance(cfg, began, EventView::ClientReady { address: sender }).0;
    let with_package = match cfg.ramm_pkg_addr_or_path {
        RAMMPkgAddrSrcView::FromTomlConfig(_) => connected,
        RAMMPkgAddrSrcView::FromPkgPublication(_) => advance(
            cfg,
            connected,
            EventView::Executed(ResponseView::Executed { created: published }),
        ).0,
    };
    let with_ramm = advance(cfg, with_package, EventView::Executed(ResponseView::Executed { created })).0;
    let with_roles = advance(cfg, with_ramm, EventView::ObjectTypeRead(observed)).0;
    let with_aggregators = advance(cfg, with_roles, EventView::ObjectsRead(answers)).0;
    let with_coin = advance(cfg, with_aggregators, EventView::CoinsRead(coins)).0;
    let submitted = advance(cfg, with_coin, EventView::GasPriceRead(gas_price)).0;
    advance(cfg, submitted, EventView::Executed(ResponseView::Executed { created: Seq::empty() })).0
}

/// A deployment in which nothing fails is completed. For a valid request, if
/// the publication creates one immutable object, the creation creates one
/// shared object and two objects owned by the sender, the type observed is
/// one of the two capability types, every aggregator is shared, and the
/// sender has a coin, then the deployment ends in success. The RAMM reported
/// is the shared object, and the capabilities are the two owned objects: in
/// the order reported if the admin type was observed, and swapped otherwise.
pub proof fn lemma_undisturbed_deployment_completes(
    cfg: RAMMDeploymentConfigView,
    sender: SuiAddress,
    published: Seq<crate::ledger::OwnedObjectRef>,
    created: Seq<crate::ledger::OwnedObjectRef>,
    name: Seq<char>,
    answers: Seq<AggregatorResponseView>,
    coins: Seq<Coin>,
    gas_price: u64,
)
    requires
        cfg.valid(),
        Ownership::Immutable.among(published).len() == 1,
        Ownership::Shared.among(created).len() == 1,
        Ownership::OwnedBy(sender).among(created).len() == 2,
        name == crate::capabilities::admin_cap_name() || name == crate::capabilities::new_asset_cap_name(),
        answers.len() == cfg.assets.len(),
        forall|i: int|
            0 <= i < answers.len() ==> (#[trigger] answers[i]) matches AggregatorResponseView::Object {
                owner: Some(Owner::Shared { .. }),
            },
        coins.len() > 0,
    ensures
        ({
            let end = undisturbed(
                cfg,
                sender,
                published,
                created,
                ObjectTypeView::Struct { name },
                answers,
                coins,
                gas_price,
            );
            let owned = Ownership::OwnedBy(sender).among(created);
            let admin_first = name == crate::capabilities::admin_cap_name();
            &&& end is Done
            &&& end->ids.ramm == Ownership::Shared.among(created)[0].reference.object_id
            &&& end->ids.admin_cap == owned[if admin_first { 0int } else { 1int }].reference.object_id
            &&& end->ids.new_asset_cap == owned[if admin_first { 1int } else { 0int }].reference.object_id
        }),
{
    crate::capabilities::lemma_capability_names_differ();
    crate::aggregators::lemma_shared_aggregators_resolve(cfg.assets, answers);
}

/// Ends the deployment with `error`.
fn fail(error: RAMMDeploymentError) -> (next: (Stage, Action))
    ensures
        (next.0@, next.1@) == fails(error@),
{
    (Stage::Failed { error }, Action::Stop)
}

/// Ends the deployment because the reply is not one that the stage asked for.
fn unexpected() -> (next: (Stage, Action))
    ensures
        (next.0@, next.1@) == fails(violation(ProtocolViolationView::UnexpectedEvent)),
{
    fail(RAMMDeploymentError::ProtocolInvariant(ProtocolViolation::UnexpectedEvent))
}

/// Goes on to the creation of the RAMM from the package `package`.
fn create(dplymt_cfg: &RAMMDeploymentConfig, sender: SuiAddress, package: ObjectID) -> (next: (Stage, Action))
    ensures
        (next.0@, next.1@) == creates(dplymt_cfg@, sender, package),
{
    (Stage::AwaitingCreation { sender, package }, Action::Call(new_ramm_tx(dplymt_cfg, &sender, package)))
}

/// Takes one step of the deployment of the RAMM that `dplymt_cfg` describes:
/// from the stage reached and the reply to the last operation, to the next
/// stage and the operation to perform next.
pub fn ramm_deployment_step(dplymt_cfg: &RAMMDeploymentConfig, stage: Stage, event: Event) -> (next: (Stage, Action))
    ensures
        (next.0@, next.1@) == advance(dplymt_cfg@, stage@, event@),
{
    if stage.is_terminal() {
        return (stage, Action::Stop);
    }
    match event {
        Event::Failed(error) => fail(error),
        Event::Begin => match stage {
            Stage::Start => {
                if dplymt_cfg.validate_ramm_cfg() {
                    (Stage::AwaitingClient, Action::Connect { target_env: dplymt_cfg.target_env.clone() })
                } else {
                    fail(RAMMDeploymentError::InvalidConfigData)
                }
            },
            _ => unexpected(),
        },
        Event::ClientReady { address } => match stage {
            Stage::AwaitingClient => match &dplymt_cfg.ramm_pkg_addr_or_path {
                RAMMPkgAddrSrc::FromTomlConfig(package) => create(dplymt_cfg, address, *package),
                RAMMPkgAddrSrc::FromPkgPublication(path) => (
                    Stage::AwaitingPublication { sender: address },
                    Action::Publish(publish_tx(path.clone(), address)),
                ),
            },
            _ => unexpected(),
        },
        Event::Executed(response) => match stage {
            Stage::AwaitingPublication { sender } => match get_ramm_id_from_tx_response(&response) {
                Ok(package) => create(dplymt_cfg, sender, package),
                Err(error) => fail(error),
            },
            Stage::AwaitingCreation { sender, package } => match response.created() {
                Err(error) => fail(error),
                Ok(created) => match collect_created_objects(created, sender) {
                    Err(error) => fail(error),
                    Ok((ramm, (first, second))) => (
                        Stage::AwaitingCapabilityType { sender, package, ramm, first, second },
                        Action::ReadObjectType { id: first.id() },
                    ),
                },
            },
            Stage::AwaitingPopulation { objects } => match response.created() {
                Err(error) => fail(error),
                Ok(_) => (Stage::Done { ids: objects.ids() }, Action::Stop),
            },
            _ => unexpected(),
        },
        Event::ObjectTypeRead(observed) => match stage {
            Stage::AwaitingCapabilityType { sender, package, ramm, first, second } => {
                match assign_cap_obj_args(first, second, &observed) {
                    Err(error) => fail(error),
                    Ok((admin_cap, new_asset_cap)) => (
                        Stage::AwaitingAggregators {
                            sender,
                            package,
                            objects: RAMMObjectArgs { ramm, admin_cap, new_asset_cap },
                        },
                        Action::ReadObjects { ids: aggregator_object_ids(dplymt_cfg) },
                    ),
                }
            },
            _ => unexpected(),
        },
        Event::ObjectsRead(responses) => match stage {
            Stage::AwaitingAggregators { sender, package, objects } => {
                match build_aggr_obj_args(dplymt_cfg, &responses) {
                    Err(error) => fail(error),
                    Ok(aggregators) => (
                        Stage::AwaitingCoins { sender, package, objects, aggregators },
                        Action::ReadCoins { owner: sender },
                    ),
                }
            },
            _ => unexpected(),
        },
        Event::CoinsRead(coins) => match stage {
            Stage::AwaitingCoins { sender, package, objects, aggregators } => {
                match first_coin(&coins) {
                    Err(error) => fail(error),
                    Ok(coin) => (
                        Stage::AwaitingGasPrice { sender, package, objects, aggregators, coin },
                        Action::ReadGasPrice,
                    ),
                }
            },
            _ => unexpected(),
        },
        Event::GasPriceRead(gas_price) => match stage {
            Stage::AwaitingGasPrice { sender, package, objects, aggregators, coin } => {
                match add_assets_and_init_ramm(
                    dplymt_cfg,
                    sender,
                    package,
                    objects.ramm,
                    objects.admin_cap,
                    objects.new_asset_cap,
                    aggregators,
                    coin,
                    gas_price,
                ) {
                    Err(error) => fail(error),
                    Ok(tx) => (Stage::AwaitingPopulation { objects }, Action::Submit(tx)),
                }
            },
            _ => unexpected(),
        },
    }
}

} // verus!
