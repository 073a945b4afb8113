//! Resolution of what the creation of a RAMM produced: the shared RAMM object
//! and its two capabilities.
//!
//! The creation reports three new objects with their owners and nothing else.
//! The shared one is the RAMM. The two owned by the sender are the admin
//! capability and the new-asset capability, in an order that is not known.
//! The type of the first is queried, and decides the role of both: this rests
//! on the RAMM package creating exactly one capability of each type.

use vstd::pervasive::unreached;
use vstd::prelude::*;

use crate::effects::Ownership;
use crate::error::{violation, ErrorView, ProtocolViolation, ProtocolViolationView, RAMMDeploymentError, outcome};
use crate::ledger::{ObjectArg, ObjectID, OwnedObjectRef, SuiAddress};
use crate::text::text_equal;

verus! {

/// Simple name of the type of the admin capability.
pub open spec fn admin_cap_name() -> Seq<char> {
    "RAMMAdminCap"@
}

/// Simple name of the type of the new-asset capability.
pub open spec fn new_asset_cap_name() -> Seq<char> {
    "RAMMNewAssetCap"@
}

/// The declared type of an on-chain object.
#[derive(Clone, Debug, PartialEq, Eq)]
pub enum ObjectType {
    /// The object is a package.
    Package,
    /// The object is a struct with this simple name.
    Struct { name: String },
}

/// [`ObjectType`] as a mathematical value.
pub ghost enum ObjectTypeView {
    Package,
    Struct { name: Seq<char> },
}

impl View for ObjectType {
    type V = ObjectTypeView;

    open spec fn view(&self) -> ObjectTypeView {
        match *self {
            ObjectType::Package => ObjectTypeView::Package,
            ObjectType::Struct { name } => ObjectTypeView::Struct { name: name@ },
        }
    }
}

/// The RAMM and its capabilities, as inputs of later transactions.
#[derive(Clone, Copy, Debug, PartialEq, Eq)]
pub struct RAMMObjectArgs {
    pub ramm: ObjectArg,
    pub admin_cap: ObjectArg,
    pub new_asset_cap: ObjectArg,
}

/// The identifiers of the RAMM and of its capabilities.
#[derive(Clone, Copy, Debug, PartialEq, Eq)]
pub struct RAMMObjectIDs {
    pub ramm: ObjectID,
    pub admin_cap: ObjectID,
    pub new_asset_cap: ObjectID,
}

impl RAMMObjectArgs {
    pub open spec fn spec_ids(&self) -> RAMMObjectIDs {
        RAMMObjectIDs {
            ramm: self.ramm.spec_id(),
            admin_cap: self.admin_cap.spec_id(),
            new_asset_cap: self.new_asset_cap.spec_id(),
        }
    }

    /// The identifiers of the three objects.
    #[verifier::when_used_as_spec(spec_ids)]
    pub fn ids(&self) -> (ids: RAMMObjectIDs)
        ensures
            ids == self.spec_ids(),
    {
        RAMMObjectIDs {
            ramm: self.ramm.id(),
            admin_cap: self.admin_cap.id(),
            new_asset_cap: self.new_asset_cap.id(),
        }
    }
}

/// The RAMM among the created objects: the only shared one, taken as a
/// mutable input, since adding assets and initializing both change it.
pub open spec fn ramm_object(created: Seq<OwnedObjectRef>) -> Result<ObjectArg, ErrorView> {
    let shared = Ownership::Shared.among(created);
    if shared.len() == 1 {
        Ok(
            ObjectArg::SharedObject {
                id: shared[0].reference.object_id,
                initial_shared_version: shared[0].owner->initial_shared_version,
                mutable: true,
            },
        )
    } else {
        Err(violation(ProtocolViolationView::SharedObjectCount { found: shared.len() as usize }))
    }
}

/// The two capabilities among the created objects, in the order reported:
/// the objects owned by `client_address`, of which there must be two.
pub open spec fn capability_objects(created: Seq<OwnedObjectRef>, client_address: SuiAddress) -> Result<
    (ObjectArg, ObjectArg),
    ErrorView,
> {
    let owned = Ownership::OwnedBy(client_address).among(created);
    if owned.len() == 2 {
        Ok((ObjectArg::ImmOrOwnedObject(owned[0].reference), ObjectArg::ImmOrOwnedObject(owned[1].reference)))
    } else {
        Err(violation(ProtocolViolationView::CapabilityCount { found: owned.len() as usize }))
    }
}

/// The roles of the two capabilities, as (admin, new-asset), given the type
/// observed for `first`. The one observation decides both roles. A type that
/// is neither capability breaks the protocol, and no role is guessed.
pub open spec fn assigned_capabilities(first: ObjectArg, second: ObjectArg, observed: ObjectTypeView) -> Result<
    (ObjectArg, ObjectArg),
    ErrorView,
> {
    match observed {
        ObjectTypeView::Package => Err(violation(ProtocolViolationView::CapabilityIsPackage)),
        ObjectTypeView::Struct { name } => {
            if name == admin_cap_name() {
                Ok((first, second))
            } else if name == new_asset_cap_name() {
                Ok((second, first))
            } else {
                Err(violation(ProtocolViolationView::UnknownCapabilityType { name }))
            }
        },
    }
}

/// What the creation of a RAMM yields before any query: the RAMM, and the
/// two capabilities in the order reported.
pub open spec fn created_objects(created: Seq<OwnedObjectRef>, client_address: SuiAddress) -> Result<
    (ObjectArg, (ObjectArg, ObjectArg)),
    ErrorView,
> {
    match ramm_object(created) {
        Err(error) => Err(error),
        Ok(ramm) => match capability_objects(created, client_address) {
            Err(error) => Err(error),
            Ok(capabilities) => Ok((ramm, capabilities)),
        },
    }
}

/// The RAMM and its capabilities by role, given the type observed for the
/// first capability.
pub open spec fn resolved_objects(
    created: Seq<OwnedObjectRef>,
    client_address: SuiAddress,
    observed: ObjectTypeView,
) -> Result<RAMMObjectArgs, ErrorView> {
    match created_objects(created, client_address) {
        Err(error) => Err(error),
        Ok((ramm, (first, second))) => match assigned_capabilities(first, second, observed) {
            Err(error) => Err(error),
            Ok((admin_cap, new_asset_cap)) => Ok(RAMMObjectArgs { ramm, admin_cap, new_asset_cap }),
        },
    }
}

/// Finds the RAMM among the objects that its creation reported.
pub fn build_ramm_obj_arg(created: &Vec<OwnedObjectRef>) -> (ramm: Result<ObjectArg, RAMMDeploymentError>)
    ensures
        outcome(ramm) == ramm_object(created@),
{
    let shared = Ownership::Shared.select(created);
    if shared.len() != 1 {
        return Err(
            RAMMDeploymentError::ProtocolInvariant(
                ProtocolViolation::SharedObjectCount { found: shared.len() },
            ),
        );
    }
    proof {
        created@.lemma_filter_pred(|o: OwnedObjectRef| Ownership::Shared.admits(o.owner), 0);
    }
    match shared[0].owner {
        crate::ledger::Owner::Shared { initial_shared_version } => Ok(
            ObjectArg::SharedObject { id: shared[0].object_id(), initial_shared_version, mutable: true },
        ),
        _ => unreached(),
    }
}

/// Finds the two capabilities among the objects that the creation of the RAMM
/// reported, without telling them apart.
pub fn collect_cap_obj_args(created: &Vec<OwnedObjectRef>, client_address: SuiAddress) -> (capabilities: Result<
    (ObjectArg, ObjectArg),
    RAMMDeploymentError,
>)
    ensures
        outcome(capabilities) == capability_objects(created@, client_address),
{
    let owned = Ownership::OwnedBy(client_address).select(created);
    if owned.len() == 2 {
        Ok((ObjectArg::ImmOrOwnedObject(owned[0].reference), ObjectArg::ImmOrOwnedObject(owned[1].reference)))
    } else {
        Err(RAMMDeploymentError::ProtocolInvariant(ProtocolViolation::CapabilityCount { found: owned.len() }))
    }
}

/// Tells the two capabilities apart by the type observed for `first`, and
/// returns them as (admin, new-asset).
pub fn assign_cap_obj_args(first: ObjectArg, second: ObjectArg, observed: &ObjectType) -> (capabilities: Result<
    (ObjectArg, ObjectArg),
    RAMMDeploymentError,
>)
    ensures
        outcome(capabilities) == assigned_capabilities(first, second, observed@),
{
    match observed {
        ObjectType::Package => Err(
            RAMMDeploymentError::ProtocolInvariant(ProtocolViolation::CapabilityIsPackage),
        ),
        ObjectType::Struct { name } => {
            if text_equal(name.as_str(), "RAMMAdminCap") {
                Ok((first, second))
            } else if text_equal(name.as_str(), "RAMMNewAssetCap") {
                Ok((second, first))
            } else {
                Err(
                    RAMMDeploymentError::ProtocolInvariant(
                        ProtocolViolation::UnknownCapabilityType { name: name.clone() },
                    ),
                )
            }
        },
    }
}

/// Finds the RAMM and the two capabilities, in the order reported, among the
/// objects that the creation reported. Everything that can fail without the
/// type query fails here.
pub fn collect_created_objects(created: &Vec<OwnedObjectRef>, client_address: SuiAddress) -> (objects: Result<
    (ObjectArg, (ObjectArg, ObjectArg)),
    RAMMDeploymentError,
>)
    ensures
        outcome(objects) == created_objects(created@, client_address),
{
    match build_ramm_obj_arg(created) {
        Err(error) => Err(error),
        Ok(ramm) => match collect_cap_obj_args(created, client_address) {
            Err(error) => Err(error),
            Ok(capabilities) => Ok((ramm, capabilities)),
        },
    }
}

/// Finds the two capabilities among the created objects and tells them apart
/// by the type observed for the first: returns (admin, new-asset).
pub fn build_ramm_cap_obj_args(
    created: &Vec<OwnedObjectRef>,
    client_address: SuiAddress,
    observed: &ObjectType,
) -> (capabilities: Result<(ObjectArg, ObjectArg), RAMMDeploymentError>)
    ensures
        outcome(capabilities) == match capability_objects(created@, client_address) {
            Err(error) => Err(error),
            Ok((first, second)) => assigned_capabilities(first, second, observed@),
        },
{
    match collect_cap_obj_args(created, client_address) {
        Err(error) => Err(error),
        Ok((first, second)) => assign_cap_obj_args(first, second, observed),
    }
}

/// Resolves the RAMM and its capabilities from the objects that the creation
/// reported and the type observed for the first capability.
pub fn build_ramm_obj_args(
    created: &Vec<OwnedObjectRef>,
    client_address: SuiAddress,
    observed: &ObjectType,
) -> (objects: Result<RAMMObjectArgs, RAMMDeploymentError>)
    ensures
        outcome(objects) == resolved_objects(created@, client_address, observed@),
{
    match collect_created_objects(created, client_address) {
        Err(error) => Err(error),
        Ok((ramm, (first, second))) => match assign_cap_obj_args(first, second, observed) {
            Err(error) => Err(error),
            Ok((admin_cap, new_asset_cap)) => Ok(RAMMObjectArgs { ramm, admin_cap, new_asset_cap }),
        },
    }
}

/// The admin capability and the new-asset capability have different type
/// names, so one observation can stand for only one of them.
pub proof fn lemma_capability_names_differ()
    ensures
        admin_cap_name() != new_asset_cap_name(),
{
    reveal_strlit("RAMMAdminCap");
    reveal_strlit("RAMMNewAssetCap");
    assert(admin_cap_name().len() == 12);
    assert(new_asset_cap_name().len() == 15);
}

/// The one observation decides both roles: the admin type observed for the
/// first capability makes the pair (first, second); the new-asset type makes
/// it (second, first), the same pair swapped; any other type name is a
/// protocol violation and assigns nothing.
pub proof fn lemma_observation_decides_roles(first: ObjectArg, second: ObjectArg, name: Seq<char>)
    ensures
        assigned_capabilities(first, second, ObjectTypeView::Struct { name: admin_cap_name() }) == Ok::<
            (ObjectArg, ObjectArg),
            ErrorView,
        >((first, second)),
        assigned_capabilities(first, second, ObjectTypeView::Struct { name: new_asset_cap_name() }) == Ok::<
            (ObjectArg, ObjectArg),
            ErrorView,
        >((second, first)),
        name != admin_cap_name() && name != new_asset_cap_name() ==> assigned_capabilities(
            first,
            second,
            ObjectTypeView::Struct { name },
        ) == Err::<(ObjectArg, ObjectArg), ErrorView>(
            violation(ProtocolViolationView::UnknownCapabilityType { name }),
        ),
{
    lemma_capability_names_differ();
}

/// With any number of sender-owned objects other than two, resolution fails
/// whatever type a query would observe: no query is needed to know it.
pub proof fn lemma_capability_count_decides(
    created: Seq<OwnedObjectRef>,
    client_address: SuiAddress,
    observed: ObjectTypeView,
)
    requires
        Ownership::OwnedBy(client_address).among(created).len() != 2,
    ensures
        created_objects(created, client_address) is Err,
        resolved_objects(created, client_address, observed) == Err::<RAMMObjectArgs, ErrorView>(
            created_objects(created, client_address)->Err_0,
        ),
{
}

} // verus!
