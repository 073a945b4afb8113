//! What a submitted transaction reports back, and the selection of the
//! objects it created by their ownership.

use vstd::prelude::*;

use crate::error::{violation, ErrorView, ProtocolViolation, ProtocolViolationView, RAMMDeploymentError};
use crate::ledger::{OwnedObjectRef, Owner, SuiAddress};

verus! {

/// Whether the ledger carried a transaction out, or aborted it and why.
#[derive(Clone, Debug, PartialEq, Eq)]
pub enum ExecutionStatus {
    Success,
    Failure { error: String },
}

/// The effects of an executed transaction, as far as the deployment reads
/// them.
#[derive(Clone, Debug, PartialEq, Eq)]
pub struct TransactionEffects {
    pub status: ExecutionStatus,
    /// The objects that the transaction created, in the order reported.
    pub created: Vec<OwnedObjectRef>,
}

/// The response to a submitted transaction. The effects are there whenever
/// they were asked for.
#[derive(Clone, Debug, PartialEq, Eq)]
pub struct TransactionResponse {
    pub effects: Option<TransactionEffects>,
}

/// [`TransactionResponse`] as a mathematical value.
pub ghost enum ResponseView {
    /// No effects came with the response.
    Missing,
    /// The ledger aborted the transaction for the given reason.
    Aborted { reason: Seq<char> },
    /// The transaction was carried out and created these objects.
    Executed { created: Seq<OwnedObjectRef> },
}

impl View for TransactionResponse {
    type V = ResponseView;

    open spec fn view(&self) -> ResponseView {
        match self.effects {
            None => ResponseView::Missing,
            Some(effects) => match effects.status {
                ExecutionStatus::Failure { error } => ResponseView::Aborted { reason: error@ },
                ExecutionStatus::Success => ResponseView::Executed { created: effects.created@ },
            },
        }
    }
}

impl ResponseView {
    /// The objects that a successful transaction created. A response without
    /// effects breaks the protocol; an aborted transaction is an execution
    /// error that carries the ledger's reason.
    pub open spec fn created(self) -> Result<Seq<OwnedObjectRef>, ErrorView> {
        match self {
            ResponseView::Missing => Err(violation(ProtocolViolationView::MissingEffects)),
            ResponseView::Aborted { reason } => Err(ErrorView::TxBlockExecutionError(reason)),
            ResponseView::Executed { created } => Ok(created),
        }
    }
}

impl TransactionResponse {
    /// The objects that the transaction created, if it was carried out.
    pub fn created(&self) -> (objects: Result<&Vec<OwnedObjectRef>, RAMMDeploymentError>)
        ensures
            match self@.created() {
                Ok(created) => objects is Ok && objects->Ok_0@ == created,
                Err(error) => objects is Err && objects->Err_0@ == error,
            },
    {
        match &self.effects {
            None => Err(RAMMDeploymentError::ProtocolInvariant(ProtocolViolation::MissingEffects)),
            Some(effects) => match &effects.status {
                ExecutionStatus::Failure { error } => {
                    Err(RAMMDeploymentError::TxBlockExecutionError(error.clone()))
                },
                ExecutionStatus::Success => Ok(&effects.created),
            },
        }
    }
}

/// A kind of ownership by which created objects are told apart.
#[derive(Clone, Copy, Debug, PartialEq, Eq)]
pub enum Ownership {
    /// Frozen objects: published packages.
    Immutable,
    /// Shared objects.
    Shared,
    /// Objects owned by this account.
    OwnedBy(SuiAddress),
}

impl Ownership {
    /// Whether an object with the given owner is of this kind.
    pub open spec fn admits(self, owner: Owner) -> bool {
        match self {
            Ownership::Immutable => owner is Immutable,
            Ownership::Shared => owner is Shared,
            Ownership::OwnedBy(address) => owner == Owner::AddressOwner(address),
        }
    }

    /// The objects of this kind among `created`, in their order.
    pub open spec fn among(self, created: Seq<OwnedObjectRef>) -> Seq<OwnedObjectRef> {
        created.filter(|o: OwnedObjectRef| self.admits(o.owner))
    }

    /// Whether an object with the given owner is of this kind.
    pub fn holds(&self, owner: &Owner) -> (admitted: bool)
        ensures
            admitted == self.admits(*owner),
    {
        match self {
            Ownership::Immutable => owner.is_immutable(),
            Ownership::Shared => owner.is_shared(),
            Ownership::OwnedBy(address) => owner.is_address(address),
        }
    }

    /// Selects the objects of this kind among `created`, keeping their order.
    pub fn select(&self, created: &Vec<OwnedObjectRef>) -> (chosen: Vec<OwnedObjectRef>)
        ensures
            chosen@ == self.among(created@),
    {
        let ghost keep = |o: OwnedObjectRef| self.admits(o.owner);
        let mut chosen: Vec<OwnedObjectRef> = Vec::new();
        let mut i: usize = 0;
        proof {
            reveal(Seq::filter);
            assert(created@.take(0) =~= Seq::<OwnedObjectRef>::empty());
        }
        while i < created.len()
            invariant
                i <= created.len(),
                keep == |o: OwnedObjectRef| self.admits(o.owner),
                chosen@ == created@.take(i as int).filter(keep),
            decreases created.len() - i,
        {
            let object = created[i];
            proof {
                reveal(Seq::filter);
                assert(created@.take(i + 1).drop_last() =~= created@.take(i as int));
                assert(created@.take(i + 1).last() == object);
            }
            if self.holds(&object.owner) {
                chosen.push(object);
            }
            i += 1;
        }
        assert(created@.take(i as int) =~= created@);
        chosen
    }
}

} // verus!
