//! The aggregator resolver: every asset names the object that prices it, and
//! each of these objects must be shared to be usable as a read-only input.
//!
//! All aggregators are read in one batch. The resolver turns the answers into
//! transaction inputs, one per asset and in the order of the asset list: the
//! batched transaction pairs assets and aggregators by position.

use vstd::prelude::*;

use crate::error::{violation, ErrorView, ProtocolViolation, ProtocolViolationView, RAMMDeploymentError};
use crate::ledger::{ObjectArg, ObjectID, Owner};
use crate::types::{AssetConfigView, RAMMDeploymentConfig};

verus! {

/// The answer of the batched read for one object.
#[derive(Clone, Debug, PartialEq, Eq)]
pub enum AggregatorResponse {
    /// The object's data, with its owner if the owner was asked for.
    Object { owner: Option<Owner> },
    /// The node could not provide the object.
    Error { message: String },
}

/// [`AggregatorResponse`] as a mathematical value.
pub ghost enum AggregatorResponseView {
    Object { owner: Option<Owner> },
    Error { message: Seq<char> },
}

impl View for AggregatorResponse {
    type V = AggregatorResponseView;

    open spec fn view(&self) -> AggregatorResponseView {
        match *self {
            AggregatorResponse::Object { owner } => AggregatorResponseView::Object { owner },
            AggregatorResponse::Error { message } => AggregatorResponseView::Error { message: message@ },
        }
    }
}

/// The views of a list of answers, in order.
pub open spec fn response_views(responses: Seq<AggregatorResponse>) -> Seq<AggregatorResponseView> {
    responses.map_values(|r: AggregatorResponse| r@)
}

/// The identifiers of the aggregator objects, one per asset and in order.
pub open spec fn aggregator_ids(assets: Seq<AssetConfigView>) -> Seq<ObjectID> {
    assets.map_values(|a: AssetConfigView| ObjectID::of_address(a.aggregator_address))
}

/// The input that the aggregator of the asset at `index` becomes, given the
/// answer for it: a shared object that is not borrowed mutably. An answer
/// without data or without owner is an error of its own; an aggregator that
/// is not shared breaks the protocol.
pub open spec fn aggregator_arg(assets: Seq<AssetConfigView>, responses: Seq<AggregatorResponseView>, index: int) -> Result<
    ObjectArg,
    ErrorView,
> {
    match responses[index] {
        AggregatorResponseView::Error { message } => Err(ErrorView::AggregatorObjectResponseError(message)),
        AggregatorResponseView::Object { owner: None } => Err(ErrorView::AggregatorObjectOwnerError),
        AggregatorResponseView::Object { owner: Some(Owner::Shared { initial_shared_version }) } => Ok(
            ObjectArg::SharedObject {
                id: aggregator_ids(assets)[index],
                initial_shared_version,
                mutable: false,
            },
        ),
        AggregatorResponseView::Object { owner: Some(_) } => Err(
            violation(ProtocolViolationView::AggregatorNotShared { index: index as usize }),
        ),
    }
}

/// Whether `index` is the first position whose aggregator cannot be used.
pub open spec fn is_first_failure(
    assets: Seq<AssetConfigView>,
    responses: Seq<AggregatorResponseView>,
    index: int,
) -> bool {
    &&& 0 <= index < responses.len()
    &&& aggregator_arg(assets, responses, index) is Err
    &&& forall|j: int| 0 <= j < index ==> (#[trigger] aggregator_arg(assets, responses, j)) is Ok
}

/// The inputs that the aggregators become. There must be one answer per
/// asset. If any aggregator cannot be used, the whole resolution fails with
/// the error of the first such aggregator, and no partial list is produced.
pub open spec fn aggregator_args(assets: Seq<AssetConfigView>, responses: Seq<AggregatorResponseView>) -> Result<
    Seq<ObjectArg>,
    ErrorView,
> {
    if responses.len() != assets.len() {
        Err(
            violation(
                ProtocolViolationView::AggregatorCount {
                    expected: assets.len() as usize,
                    found: responses.len() as usize,
                },
            ),
        )
    } else if exists|i: int| is_first_failure(assets, responses, i) {
        let first = choose|i: int| is_first_failure(assets, responses, i);
        Err(aggregator_arg(assets, responses, first)->Err_0)
    } else {
        Ok(Seq::new(assets.len(), |i: int| aggregator_arg(assets, responses, i)->Ok_0))
    }
}

/// The outcome of a resolution: the inputs as a sequence, the error by its
/// view.
pub open spec fn resolution(r: Result<Vec<ObjectArg>, RAMMDeploymentError>) -> Result<Seq<ObjectArg>, ErrorView> {
    match r {
        Ok(args) => Ok(args@),
        Err(error) => Err(error@),
    }
}

/// Lists the identifiers of the aggregator objects to read, one per asset and
/// in the order of the asset list.
pub fn aggregator_object_ids(dplymt_cfg: &RAMMDeploymentConfig) -> (ids: Vec<ObjectID>)
    ensures
        ids@ == aggregator_ids(dplymt_cfg@.assets),
{
    let mut ids: Vec<ObjectID> = Vec::new();
    let mut i: usize = 0;
    while i < dplymt_cfg.assets.len()
        invariant
            i <= dplymt_cfg.assets.len(),
            ids@.len() == i,
            forall|k: int| 0 <= k < i ==> ids@[k] == aggregator_ids(dplymt_cfg@.assets)[k],
        decreases dplymt_cfg.assets.len() - i,
    {
        ids.push(ObjectID::from_address(dplymt_cfg.assets[i].aggregator_address));
        i += 1;
    }
    assert(ids@ =~= aggregator_ids(dplymt_cfg@.assets));
    ids
}

/// Turns the answer for the aggregator of the asset at `index` into an input.
fn aggregator_obj_arg(dplymt_cfg: &RAMMDeploymentConfig, responses: &Vec<AggregatorResponse>, index: usize) -> (arg:
    Result<ObjectArg, RAMMDeploymentError>)
    requires
        index < responses.len(),
        responses.len() == dplymt_cfg.assets.len(),
    ensures
        crate::error::outcome(arg) == aggregator_arg(dplymt_cfg@.assets, response_views(responses@), index as int),
{
    match &responses[index] {
        AggregatorResponse::Error { message } => Err(
            RAMMDeploymentError::AggregatorObjectResponseError(message.clone()),
        ),
        AggregatorResponse::Object { owner: None } => Err(RAMMDeploymentError::AggregatorObjectOwnerError),
        AggregatorResponse::Object { owner: Some(Owner::Shared { initial_shared_version }) } => Ok(
            ObjectArg::SharedObject {
                id: ObjectID::from_address(dplymt_cfg.assets[index].aggregator_address),
                initial_shared_version: *initial_shared_version,
                mutable: false,
            },
        ),
        AggregatorResponse::Object { owner: Some(_) } => Err(
            RAMMDeploymentError::ProtocolInvariant(ProtocolViolation::AggregatorNotShared { index }),
        ),
    }
}

/// Resolves the aggregators of all assets from the answers of the batched
/// read, which must hold one answer per asset, in the order of the asset list.
pub fn build_aggr_obj_args(dplymt_cfg: &RAMMDeploymentConfig, responses: &Vec<AggregatorResponse>) -> (args: Result<
    Vec<ObjectArg>,
    RAMMDeploymentError,
>)
    ensures
        resolution(args) == aggregator_args(dplymt_cfg@.assets, response_views(responses@)),
{
    let ghost assets = dplymt_cfg@.assets;
    let ghost answers = response_views(responses@);
    if responses.len() != dplymt_cfg.assets.len() {
        return Err(
            RAMMDeploymentError::ProtocolInvariant(
                ProtocolViolation::AggregatorCount {
                    expected: dplymt_cfg.assets.len(),
                    found: responses.len(),
                },
            ),
        );
    }
    let mut args: Vec<ObjectArg> = Vec::new();
    let mut i: usize = 0;
    while i < responses.len()
        invariant
            i <= responses.len(),
            responses.len() == dplymt_cfg.assets.len(),
            assets == dplymt_cfg@.assets,
            answers == response_views(responses@),
            args@.len() == i,
            forall|k: int|
                0 <= k < i ==> (#[trigger] aggregator_arg(assets, answers, k)) == Ok::<ObjectArg, ErrorView>(
                    args@[k],
                ),
        decreases responses.len() - i,
    {
        match aggregator_obj_arg(dplymt_cfg, responses, i) {
            Ok(arg) => {
                args.push(arg);
            },
            Err(error) => {
                proof {
                    assert(is_first_failure(assets, answers, i as int));
                    let first = choose|k: int| is_first_failure(assets, answers, k);
                    assert(first == i) by {
                        if first < i {
                            assert(aggregator_arg(assets, answers, first) is Ok);
                        } else if first > i {
                            assert(aggregator_arg(assets, answers, i as int) is Ok);
                        }
                    }
                }
                return Err(error);
            },
        }
        i += 1;
    }
    proof {
        assert forall|k: int| !is_first_failure(assets, answers, k) by {
            if 0 <= k < answers.len() {
                assert(aggregator_arg(assets, answers, k) is Ok);
            }
        }
        assert(args@ =~= Seq::new(assets.len(), |k: int| aggregator_arg(assets, answers, k)->Ok_0));
    }
    Ok(args)
}

/// With one answer per asset and every aggregator shared, resolution
/// succeeds: it yields one input per asset, in the order of the asset list,
/// each the asset's own aggregator as a shared object that is not borrowed
/// mutably.
pub proof fn lemma_shared_aggregators_resolve(assets: Seq<AssetConfigView>, responses: Seq<AggregatorResponseView>)
    requires
        responses.len() == assets.len(),
        forall|i: int|
            0 <= i < responses.len() ==> (#[trigger] responses[i]) matches AggregatorResponseView::Object {
                owner: Some(Owner::Shared { .. }),
            },
    ensures
        aggregator_args(assets, responses) is Ok,
        aggregator_args(assets, responses)->Ok_0.len() == assets.len(),
        forall|i: int|
            0 <= i < assets.len() ==> (#[trigger] aggregator_args(assets, responses)->Ok_0[i])
                == (ObjectArg::SharedObject {
                id: ObjectID::of_address(assets[i].aggregator_address),
                initial_shared_version: responses[i]->Object_owner->Some_0->initial_shared_version,
                mutable: false,
            }),
{
    assert forall|k: int| !is_first_failure(assets, responses, k) by {
        if 0 <= k < responses.len() {
            assert(responses[k] matches AggregatorResponseView::Object { owner: Some(Owner::Shared { .. }) });
        }
    }
}

/// A single aggregator that is not shared makes the whole resolution fail,
/// whatever the other answers are.
pub proof fn lemma_unshared_aggregator_fails(
    assets: Seq<AssetConfigView>,
    responses: Seq<AggregatorResponseView>,
    index: int,
)
    requires
        0 <= index < responses.len(),
        !(responses[index] matches AggregatorResponseView::Object { owner: Some(Owner::Shared { .. }) }),
    ensures
        aggregator_args(assets, responses) is Err,
{
    if responses.len() == assets.len() {
        lemma_failure_has_first(assets, responses, index);
    }
}

/// If the aggregator at `index` cannot be used, some position is the first
/// whose aggregator cannot be used.
proof fn lemma_failure_has_first(assets: Seq<AssetConfigView>, responses: Seq<AggregatorResponseView>, index: int)
    requires
        0 <= index < responses.len(),
        aggregator_arg(assets, responses, index) is Err,
    ensures
        exists|i: int| is_first_failure(assets, responses, i),
    decreases index,
{
    if forall|j: int| 0 <= j < index ==> (#[trigger] aggregator_arg(assets, responses, j)) is Ok {
        assert(is_first_failure(assets, responses, index));
    } else {
        let j = choose|j: int| 0 <= j < index && !((#[trigger] aggregator_arg(assets, responses, j)) is Ok);
        lemma_failure_has_first(assets, responses, j);
    }
}

} // verus!
