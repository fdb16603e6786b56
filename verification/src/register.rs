//! Requests on a register, the mutable data object that sections attest to:
//! how each request is classified for authorisation, where it is routed, and
//! which response reports its failure.

use vstd::prelude::*;
use sn_data_types::register::{Register, RegisterOp};
use sn_data_types::PublicKey;
use xor_name::XorName;

verus! {

/// `xor_name::XorName`: a 256-bit network name.
#[verifier::external_type_specification]
#[verifier::external_body]
pub struct ExXorName(xor_name::XorName);

/// `sn_data_types::PublicKey`: the key of a user or owner.
#[verifier::external_type_specification]
#[verifier::external_body]
pub struct ExPublicKey(sn_data_types::PublicKey);

/// `sn_data_types::register::Register`: a register with its policy and entries.
#[verifier::external_type_specification]
#[verifier::external_body]
pub struct ExRegister(sn_data_types::register::Register);

/// `sn_data_types::register::RegisterOp`: one edit of a register.
#[verifier::external_type_specification]
#[verifier::external_body]
#[verifier::reject_recursive_types(T)]
pub struct ExRegisterOp<T>(sn_data_types::register::RegisterOp<T>);

/// Address of a register.
#[derive(Debug, Clone, Copy, PartialEq, Eq, PartialOrd, Hash)]
pub enum Address {
    /// Public namespace.
    Public {
        /// Name.
        name: XorName,
        /// Tag.
        tag: u64,
    },
    /// Private namespace.
    Private {
        /// Name.
        name: XorName,
        /// Tag.
        tag: u64,
    },
}

impl Address {
    /// The name part of the address.
    pub open spec fn spec_name(self) -> XorName {
        match self {
            Address::Public { name, .. } => name,
            Address::Private { name, .. } => name,
        }
    }

    /// Returns the name.
    pub fn name(&self) -> (name: XorName)
        ensures
            name == self.spec_name(),
    {
        match self {
            Address::Public { name, .. } => *name,
            Address::Private { name, .. } => *name,
        }
    }

    /// Returns true if public.
    pub fn is_public(&self) -> (public: bool)
        ensures
            public == (*self is Public),
    {
        match self {
            Address::Public { .. } => true,
            Address::Private { .. } => false,
        }
    }
}

/// A position in a register's entries.
#[derive(Debug, Clone, Copy, PartialEq, Eq, PartialOrd, Hash)]
pub enum Index {
    /// Counted from the first entry.
    FromStart(u64),
    /// Counted back from the end.
    FromEnd(u64),
}

/// User that can access a register.
#[derive(Debug, Clone, Copy, PartialEq, Eq, PartialOrd, Hash)]
pub enum User {
    /// Any user.
    Anyone,
    /// User identified by its public key.
    Key(PublicKey),
}

/// How a request on data is authorised.
#[derive(Debug, Clone, Copy, PartialEq, Eq, Structural)]
pub enum DataAuthKind {
    /// A read of public data.
    PublicRead,
    /// A read of private data.
    PrivateRead,
    /// A write.
    Write,
}

/// The access categorisation of a request.
#[derive(Debug, Clone, Copy, PartialEq, Eq, Structural)]
pub enum AuthorisationKind {
    /// A request on data.
    Data(DataAuthKind),
}

/// The report of a command that failed.
#[derive(Debug, PartialEq, Eq)]
pub enum CmdError<E> {
    /// A command on data failed with this error.
    Data(E),
}

/// The report of a register query that failed, by the kind of query.
#[derive(Debug, PartialEq, Eq)]
pub enum QueryResponse<E> {
    /// Getting the register failed.
    GetRegister(E),
    /// Getting a range of entries failed.
    GetRegisterRange(E),
    /// Getting the last entry failed.
    GetRegisterLastEntry(E),
    /// Getting the public policy failed.
    GetRegisterPublicPolicy(E),
    /// Getting the private policy failed.
    GetRegisterPrivatePolicy(E),
    /// Getting a user's permissions failed.
    GetRegisterUserPermissions(E),
    /// Getting the owner failed.
    GetRegisterOwner(E),
}

/// A read of a register.
#[derive(Clone, Copy, PartialEq, Eq, PartialOrd, Hash)]
pub enum RegisterRead {
    /// Get Register from the network.
    Get(Address),
    /// Get a range of entries from an Register object on the network.
    GetRange {
        /// Register address.
        address: Address,
        /// Range of entries to fetch, from the first index up to the second.
        range: (Index, Index),
    },
    /// Get last entry from the Register.
    GetLastEntry(Address),
    /// List current policy
    GetPublicPolicy(Address),
    /// List current policy
    GetPrivatePolicy(Address),
    /// Get current permissions for a specified user(s).
    GetUserPermissions {
        /// Register address.
        address: Address,
        /// User to get permissions for.
        user: User,
    },
    /// Get current owner.
    GetOwner(Address),
}

impl RegisterRead {
    /// The address of the register that the request reads.
    pub open spec fn address(self) -> Address {
        match self {
            RegisterRead::Get(address) => address,
            RegisterRead::GetRange { address, .. } => address,
            RegisterRead::GetLastEntry(address) => address,
            RegisterRead::GetPublicPolicy(address) => address,
            RegisterRead::GetPrivatePolicy(address) => address,
            RegisterRead::GetUserPermissions { address, .. } => address,
            RegisterRead::GetOwner(address) => address,
        }
    }

    /// The name under which the request is shown.
    pub open spec fn spec_label(self) -> &'static str {
        match self {
            RegisterRead::Get(_) => "RegisterRead::GetRegister",
            RegisterRead::GetRange { .. } => "RegisterRead::GetRegisterRange",
            RegisterRead::GetLastEntry(_) => "RegisterRead::GetRegisterLastEntry",
            RegisterRead::GetPublicPolicy(_) => "RegisterRead::GetRegisterPublicPolicy",
            RegisterRead::GetPrivatePolicy(_) => "RegisterRead::GetRegisterPrivatePolicy",
            RegisterRead::GetUserPermissions { .. } => "RegisterRead::GetUserPermissions",
            RegisterRead::GetOwner(_) => "RegisterRead::GetOwner",
        }
    }

    /// Creates a response containing an error, with the response variant
    /// corresponding to the request variant.
    pub fn error<E>(&self, error: E) -> (response: QueryResponse<E>)
        ensures
            response == match *self {
                RegisterRead::Get(_) => QueryResponse::GetRegister(error),
                RegisterRead::GetRange { .. } => QueryResponse::GetRegisterRange(error),
                RegisterRead::GetLastEntry(_) => QueryResponse::GetRegisterLastEntry(error),
                RegisterRead::GetPublicPolicy(_) => QueryResponse::GetRegisterPublicPolicy(error),
                RegisterRead::GetPrivatePolicy(_) => QueryResponse::GetRegisterPrivatePolicy(error),
                RegisterRead::GetUserPermissions { .. } => QueryResponse::GetRegisterUserPermissions(
                    error,
                ),
                RegisterRead::GetOwner(_) => QueryResponse::GetRegisterOwner(error),
            },
    {
        match self {
            RegisterRead::Get(_) => QueryResponse::GetRegister(error),
            RegisterRead::GetRange { .. } => QueryResponse::GetRegisterRange(error),
            RegisterRead::GetLastEntry(_) => QueryResponse::GetRegisterLastEntry(error),
            RegisterRead::GetPublicPolicy(_) => QueryResponse::GetRegisterPublicPolicy(error),
            RegisterRead::GetPrivatePolicy(_) => QueryResponse::GetRegisterPrivatePolicy(error),
            RegisterRead::GetUserPermissions { .. } => QueryResponse::GetRegisterUserPermissions(
                error,
            ),
            RegisterRead::GetOwner(_) => QueryResponse::GetRegisterOwner(error),
        }
    }

    /// Returns the access categorisation of the request: a public read where
    /// the register is public, a private read where it is private.
    pub fn authorisation_kind(&self) -> (kind: AuthorisationKind)
        ensures
            kind == AuthorisationKind::Data(
                if self.address() is Public {
                    DataAuthKind::PublicRead
                } else {
                    DataAuthKind::PrivateRead
                },
            ),
    {
        let address = match self {
            RegisterRead::Get(address) => address,
            RegisterRead::GetRange { address, .. } => address,
            RegisterRead::GetLastEntry(address) => address,
            RegisterRead::GetPublicPolicy(address) => address,
            RegisterRead::GetPrivatePolicy(address) => address,
            RegisterRead::GetUserPermissions { address, .. } => address,
            RegisterRead::GetOwner(address) => address,
        };
        if address.is_public() {
            AuthorisationKind::Data(DataAuthKind::PublicRead)
        } else {
            AuthorisationKind::Data(DataAuthKind::PrivateRead)
        }
    }

    /// Returns the address of the destination for request: the name of the
    /// register that it reads.
    pub fn dst_address(&self) -> (name: XorName)
        ensures
            name == self.address().spec_name(),
    {
        match self {
            RegisterRead::Get(address) => address.name(),
            RegisterRead::GetRange { address, .. } => address.name(),
            RegisterRead::GetLastEntry(address) => address.name(),
            RegisterRead::GetPublicPolicy(address) => address.name(),
            RegisterRead::GetPrivatePolicy(address) => address.name(),
            RegisterRead::GetUserPermissions { address, .. } => address.name(),
            RegisterRead::GetOwner(address) => address.name(),
        }
    }

    /// The name under which the request is shown: the kind of request,
    /// without its address.
    pub fn label(&self) -> (label: String)
        ensures
            label@ == self.spec_label()@,
    {
        match self {
            RegisterRead::Get(_) => "RegisterRead::GetRegister".to_owned(),
            RegisterRead::GetRange { .. } => "RegisterRead::GetRegisterRange".to_owned(),
            RegisterRead::GetLastEntry(_) => "RegisterRead::GetRegisterLastEntry".to_owned(),
            RegisterRead::GetPublicPolicy(_) => "RegisterRead::GetRegisterPublicPolicy".to_owned(),
            RegisterRead::GetPrivatePolicy(_) => "RegisterRead::GetRegisterPrivatePolicy".to_owned(),
            RegisterRead::GetUserPermissions { .. } => "RegisterRead::GetUserPermissions".to_owned(),
            RegisterRead::GetOwner(_) => "RegisterRead::GetOwner".to_owned(),
        }
    }
}

/// The address under which `Register::address` says a register is stored.
pub uninterp spec fn register_address(data: Register) -> Address;

/// The owner that `Register::owner` reports.
pub uninterp spec fn register_owner(data: Register) -> PublicKey;

/// The address that an edit carries in its `address` field.
pub uninterp spec fn edit_address(op: RegisterOp<Vec<u8>>) -> Address;

/// `Register::address`: the address kept with the register's entries, given
/// variant for variant in this library's `Address`. Trusted: a function of
/// the register alone.
#[verifier::external_body]
fn address_of_register(data: &Register) -> (address: Address)
    ensures
        address == register_address(*data),
{
    match *data.address() {
        sn_data_types::register::Address::Public { name, tag } => Address::Public { name, tag },
        sn_data_types::register::Address::Private { name, tag } => Address::Private { name, tag },
    }
}

/// `Register::owner`: the owner named in the register's policy. Trusted: a
/// function of the register alone.
#[verifier::external_body]
fn owner_of_register(data: &Register) -> (owner: PublicKey)
    ensures
        owner == register_owner(*data),
{
    data.owner()
}

/// The `address` field of a `RegisterOp`, given variant for variant in this
/// library's `Address`. Trusted: a function of the edit alone.
#[verifier::external_body]
fn address_of_edit(op: &RegisterOp<Vec<u8>>) -> (address: Address)
    ensures
        address == edit_address(*op),
{
    match op.address {
        sn_data_types::register::Address::Public { name, tag } => Address::Public { name, tag },
        sn_data_types::register::Address::Private { name, tag } => Address::Private { name, tag },
    }
}

/// A write to a register.
#[derive(PartialEq, Eq)]
pub enum RegisterWrite {
    /// Create a new Register on the network.
    New(Register),
    /// Edit the Register (insert/remove entry).
    Edit(RegisterOp<Vec<u8>>),
    /// Delete a private Register.
    ///
    /// This operation MUST return an error if applied to public Register. Only the current
    /// owner(s) can perform this action.
    Delete(Address),
}

impl RegisterWrite {
    /// The address of the register that the request writes to.
    pub open spec fn address(self) -> Address {
        match self {
            RegisterWrite::New(data) => register_address(data),
            RegisterWrite::Edit(op) => edit_address(op),
            RegisterWrite::Delete(address) => address,
        }
    }

    /// The name under which the request is shown.
    pub open spec fn spec_label(self) -> &'static str {
        match self {
            RegisterWrite::New(_) => "RegisterWrite::NewRegister",
            RegisterWrite::Edit(_) => "RegisterWrite::EditRegister",
            RegisterWrite::Delete(_) => "RegisterWrite::DeleteRegister",
        }
    }

    /// Creates a response containing an error, with the response variant
    /// corresponding to the request variant.
    pub fn error<E>(&self, error: E) -> (response: CmdError<E>)
        ensures
            response == CmdError::Data(error),
    {
        CmdError::Data(error)
    }

    /// Returns the access categorisation of the request: every write is a write.
    pub fn authorisation_kind(&self) -> (kind: AuthorisationKind)
        ensures
            kind == AuthorisationKind::Data(DataAuthKind::Write),
    {
        AuthorisationKind::Data(DataAuthKind::Write)
    }

    /// Returns the address of the destination for request: the name of the
    /// register that it writes to.
    pub fn dst_address(&self) -> (name: XorName)
        ensures
            name == self.address().spec_name(),
    {
        match self {
            RegisterWrite::New(data) => address_of_register(data).name(),
            RegisterWrite::Edit(op) => address_of_edit(op).name(),
            RegisterWrite::Delete(address) => address.name(),
        }
    }

    /// Owner of the RegisterWrite: that of the register it creates; an edit
    /// or a deletion names none.
    pub fn owner(&self) -> (owner: Option<PublicKey>)
        ensures
            owner == match *self {
                RegisterWrite::New(data) => Some(register_owner(data)),
                _ => None,
            },
    {
        match self {
            RegisterWrite::New(data) => Some(owner_of_register(data)),
            _ => None,
        }
    }

    /// The name under which the request is shown: the kind of request,
    /// without its content.
    pub fn label(&self) -> (label: String)
        ensures
            label@ == self.spec_label()@,
    {
        match self {
            RegisterWrite::New(_) => "RegisterWrite::NewRegister".to_owned(),
            RegisterWrite::Edit(_) => "RegisterWrite::EditRegister".to_owned(),
            RegisterWrite::Delete(_) => "RegisterWrite::DeleteRegister".to_owned(),
        }
    }
}

} // verus!
