//! Plain-data model of the ledger values that the deployment steps read and
//! produce: addresses, object identifiers, ownership, and the references that
//! name an object as a transaction input.
//!
//! Every type here is `Copy` and holds only bytes and integers, so two values
//! are equal in a contract exactly when their fields are equal.

use vstd::prelude::*;

verus! {

/// Byte-wise comparison of two 32-byte arrays.
pub fn bytes_equal(a: &[u8; 32], b: &[u8; 32]) -> (same: bool)
    ensures
        same == (*a == *b),
{
    let mut i: usize = 0;
    while i < 32
        invariant
            i <= 32,
            forall|k: int| 0 <= k < i ==> a[k] == b[k],
        decreases 32 - i,
    {
        if a[i] != b[i] {
            return false;
        }
        i += 1;
    }
    assert(*a =~= *b);
    true
}

/// The address of an account.
#[derive(Clone, Copy, Debug, PartialEq, Eq)]
pub struct SuiAddress {
    pub bytes: [u8; 32],
}

impl SuiAddress {
    pub fn new(bytes: [u8; 32]) -> (addr: SuiAddress)
        ensures
            addr.bytes == bytes,
    {
        SuiAddress { bytes }
    }

    pub fn equals(&self, other: &SuiAddress) -> (same: bool)
        ensures
            same == (*self == *other),
    {
        bytes_equal(&self.bytes, &other.bytes)
    }
}

/// The identifier that the ledger assigns to an object or to a published
/// package.
#[derive(Clone, Copy, Debug, PartialEq, Eq)]
pub struct ObjectID {
    pub bytes: [u8; 32],
}

impl ObjectID {
    pub fn new(bytes: [u8; 32]) -> (id: ObjectID)
        ensures
            id.bytes == bytes,
    {
        ObjectID { bytes }
    }

    /// The object identifier with the same bytes as `address`.
    pub fn from_address(address: SuiAddress) -> (id: ObjectID)
        ensures
            id == ObjectID::of_address(address),
    {
        ObjectID { bytes: address.bytes }
    }

    pub open spec fn of_address(address: SuiAddress) -> ObjectID {
        ObjectID { bytes: address.bytes }
    }

    pub fn equals(&self, other: &ObjectID) -> (same: bool)
        ensures
            same == (*self == *other),
    {
        bytes_equal(&self.bytes, &other.bytes)
    }
}

/// The digest of one version of an object.
#[derive(Clone, Copy, Debug, PartialEq, Eq)]
pub struct ObjectDigest {
    pub bytes: [u8; 32],
}

impl ObjectDigest {
    pub fn new(bytes: [u8; 32]) -> (digest: ObjectDigest)
        ensures
            digest.bytes == bytes,
    {
        ObjectDigest { bytes }
    }
}

/// Identifier, version and digest: what names one version of an object.
#[derive(Clone, Copy, Debug, PartialEq, Eq)]
pub struct ObjectRef {
    pub object_id: ObjectID,
    pub version: u64,
    pub digest: ObjectDigest,
}

/// Who may use an object.
#[derive(Clone, Copy, Debug, PartialEq, Eq)]
pub enum Owner {
    /// Exclusively owned by an account.
    AddressOwner(SuiAddress),
    /// Owned by another object.
    ObjectOwner(SuiAddress),
    /// Shared; usable by anyone from the given version on.
    Shared { initial_shared_version: u64 },
    /// Frozen; a published package is immutable.
    Immutable,
}

impl Owner {
    pub fn is_shared(&self) -> (shared: bool)
        ensures
            shared == (*self is Shared),
    {
        match self {
            Owner::Shared { .. } => true,
            _ => false,
        }
    }

    pub fn is_immutable(&self) -> (immutable: bool)
        ensures
            immutable == (*self is Immutable),
    {
        match self {
            Owner::Immutable => true,
            _ => false,
        }
    }

    /// Whether the object belongs to the account `address` itself; an object
    /// owned by another object never does.
    pub fn is_address(&self, address: &SuiAddress) -> (owned: bool)
        ensures
            owned == (*self == Owner::AddressOwner(*address)),
    {
        match self {
            Owner::AddressOwner(a) => a.equals(address),
            _ => false,
        }
    }
}

/// An object as a transaction's effects list it: its reference and its owner
/// after the transaction.
#[derive(Clone, Copy, Debug, PartialEq, Eq)]
pub struct OwnedObjectRef {
    pub owner: Owner,
    pub reference: ObjectRef,
}

impl OwnedObjectRef {
    pub fn object_id(&self) -> (id: ObjectID)
        ensures
            id == self.reference.object_id,
    {
        self.reference.object_id
    }

    pub fn version(&self) -> (version: u64)
        ensures
            version == self.reference.version,
    {
        self.reference.version
    }
}

/// An object in the form in which a transaction takes it as an input.
#[derive(Clone, Copy, Debug, PartialEq, Eq)]
pub enum ObjectArg {
    /// An immutable object, or one owned by the sender.
    ImmOrOwnedObject(ObjectRef),
    /// A shared object, borrowed mutably or not.
    SharedObject { id: ObjectID, initial_shared_version: u64, mutable: bool },
}

impl ObjectArg {
    pub open spec fn spec_id(&self) -> ObjectID {
        match *self {
            ObjectArg::ImmOrOwnedObject(r) => r.object_id,
            ObjectArg::SharedObject { id, .. } => id,
        }
    }

    #[verifier::when_used_as_spec(spec_id)]
    pub fn id(&self) -> (id: ObjectID)
        ensures
            id == self.spec_id(),
    {
        match self {
            ObjectArg::ImmOrOwnedObject(r) => r.object_id,
            ObjectArg::SharedObject { id, .. } => *id,
        }
    }
}

/// A coin that can pay for gas.
#[derive(Clone, Copy, Debug, PartialEq, Eq)]
pub struct Coin {
    pub coin_object_id: ObjectID,
    pub version: u64,
    pub digest: ObjectDigest,
    pub balance: u64,
}

impl Coin {
    pub open spec fn spec_object_ref(&self) -> ObjectRef {
        ObjectRef { object_id: self.coin_object_id, version: self.version, digest: self.digest }
    }

    #[verifier::when_used_as_spec(spec_object_ref)]
    pub fn object_ref(&self) -> (r: ObjectRef)
        ensures
            r == self.spec_object_ref(),
    {
        ObjectRef { object_id: self.coin_object_id, version: self.version, digest: self.digest }
    }
}

} // verus!
