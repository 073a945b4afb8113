//! The package resolver: the identifier of the RAMM package is either the one
//! configured, or that of the one immutable object which publication created.

use vstd::prelude::*;

use crate::effects::{Ownership, TransactionResponse};
use crate::error::{violation, ErrorView, ProtocolViolation, ProtocolViolationView, RAMMDeploymentError, outcome};
use crate::ledger::{ObjectID, OwnedObjectRef, SuiAddress};

verus! {

/// Gas budget, in MIST, of the transaction that publishes the RAMM package.
pub const PACKAGE_PUBLICATION_GAS_BUDGET: u64 = 500_000_000;

/// What is needed to build the transaction that publishes a package: the
/// package is compiled from `package_path`, together with the identifiers of
/// its published dependencies.
#[derive(Clone, Debug, PartialEq, Eq)]
pub struct PublishRequest {
    pub sender: SuiAddress,
    pub package_path: String,
    /// The coin to pay with; `None` leaves the choice to the client.
    pub gas: Option<ObjectID>,
    pub gas_budget: u64,
}

/// [`PublishRequest`] as a mathematical value.
pub ghost struct PublishRequestView {
    pub sender: SuiAddress,
    pub package_path: Seq<char>,
    pub gas: Option<ObjectID>,
    pub gas_budget: u64,
}

impl View for PublishRequest {
    type V = PublishRequestView;

    open spec fn view(&self) -> PublishRequestView {
        PublishRequestView {
            sender: self.sender,
            package_path: self.package_path@,
            gas: self.gas,
            gas_budget: self.gas_budget,
        }
    }
}

/// The publication of the package at `package_path` by `client_address`: no
/// gas coin is chosen, and the budget is fixed.
pub open spec fn publication(package_path: Seq<char>, client_address: SuiAddress) -> PublishRequestView {
    PublishRequestView {
        sender: client_address,
        package_path,
        gas: None,
        gas_budget: PACKAGE_PUBLICATION_GAS_BUDGET,
    }
}

/// Describes the transaction that publishes the package at `package_path`.
pub fn publish_tx(package_path: String, client_address: SuiAddress) -> (request: PublishRequest)
    ensures
        request@ == publication(package_path@, client_address),
{
    PublishRequest {
        sender: client_address,
        package_path,
        gas: None,
        gas_budget: PACKAGE_PUBLICATION_GAS_BUDGET,
    }
}

/// The published package among the objects that publication created: the only
/// immutable one. Any other number of immutable objects breaks the protocol.
pub open spec fn published_package(created: Seq<OwnedObjectRef>) -> Result<ObjectID, ErrorView> {
    let immutable = Ownership::Immutable.among(created);
    if immutable.len() == 1 {
        Ok(immutable[0].reference.object_id)
    } else {
        Err(violation(ProtocolViolationView::PublishedPackageCount { found: immutable.len() as usize }))
    }
}

/// The package identifier that a publication's response yields.
pub open spec fn package_of_response(response: crate::effects::ResponseView) -> Result<ObjectID, ErrorView> {
    match response.created() {
        Ok(created) => published_package(created),
        Err(error) => Err(error),
    }
}

/// Finds the identifier of the published package among the created objects.
pub fn get_ramm_id_from_created(created: &Vec<OwnedObjectRef>) -> (id: Result<ObjectID, RAMMDeploymentError>)
    ensures
        outcome(id) == published_package(created@),
{
    let immutable = Ownership::Immutable.select(created);
    if immutable.len() == 1 {
        Ok(immutable[0].object_id())
    } else {
        Err(RAMMDeploymentError::ProtocolInvariant(
            ProtocolViolation::PublishedPackageCount { found: immutable.len() },
        ))
    }
}

/// Finds the identifier of the published package in the response to the
/// publication.
pub fn get_ramm_id_from_tx_response(response: &TransactionResponse) -> (id: Result<ObjectID, RAMMDeploymentError>)
    ensures
        outcome(id) == package_of_response(response@),
{
    match response.created() {
        Ok(created) => get_ramm_id_from_created(created),
        Err(error) => Err(error),
    }
}

} // verus!
