//! The errors that end a deployment.
//!
//! A failure of the network, of the keystore or of the file system reaches the
//! library as the message of whatever reported it; a violated assumption about
//! the shape of a transaction's result is a [`ProtocolViolation`].

use vstd::prelude::*;
use vstd::string::*;

use crate::text::{decimal, decimal_text};

verus! {

/// An assumption about the ledger's answers that did not hold. None of these
/// is recoverable: the contract deployed, or the ledger itself, no longer
/// behaves as the deployment expects.
#[derive(Clone, Debug, PartialEq, Eq)]
pub enum ProtocolViolation {
    /// A transaction's response came without its effects.
    MissingEffects,
    /// Publication did not create exactly one immutable object.
    PublishedPackageCount { found: usize },
    /// Creation of the RAMM did not create exactly one shared object.
    SharedObjectCount { found: usize },
    /// Creation of the RAMM did not create exactly two objects owned by the
    /// sender.
    CapabilityCount { found: usize },
    /// The object queried to tell the capabilities apart is a package, not a
    /// struct.
    CapabilityIsPackage,
    /// The object queried to tell the capabilities apart has a type that is
    /// neither capability.
    UnknownCapabilityType { name: String },
    /// The batched read answered with another number of objects than asked for.
    AggregatorCount { expected: usize, found: usize },
    /// The aggregator at this position of the asset list is not shared.
    AggregatorNotShared { index: usize },
    /// The sender owns no coin to pay for gas.
    NoGasCoin,
    /// A reply arrived that the current step did not ask for.
    UnexpectedEvent,
}

/// [`ProtocolViolation`] as a mathematical value.
pub ghost enum ProtocolViolationView {
    MissingEffects,
    PublishedPackageCount { found: usize },
    SharedObjectCount { found: usize },
    CapabilityCount { found: usize },
    CapabilityIsPackage,
    UnknownCapabilityType { name: Seq<char> },
    AggregatorCount { expected: usize, found: usize },
    AggregatorNotShared { index: usize },
    NoGasCoin,
    UnexpectedEvent,
}

impl View for ProtocolViolation {
    type V = ProtocolViolationView;

    open spec fn view(&self) -> ProtocolViolationView {
        match *self {
            ProtocolViolation::MissingEffects => ProtocolViolationView::MissingEffects,
            ProtocolViolation::PublishedPackageCount { found } => {
                ProtocolViolationView::PublishedPackageCount { found }
            },
            ProtocolViolation::SharedObjectCount { found } => {
                ProtocolViolationView::SharedObjectCount { found }
            },
            ProtocolViolation::CapabilityCount { found } => {
                ProtocolViolationView::CapabilityCount { found }
            },
            ProtocolViolation::CapabilityIsPackage => ProtocolViolationView::CapabilityIsPackage,
            ProtocolViolation::UnknownCapabilityType { name } => {
                ProtocolViolationView::UnknownCapabilityType { name: name@ }
            },
            ProtocolViolation::AggregatorCount { expected, found } => {
                ProtocolViolationView::AggregatorCount { expected, found }
            },
            ProtocolViolation::AggregatorNotShared { index } => {
                ProtocolViolationView::AggregatorNotShared { index }
            },
            ProtocolViolation::NoGasCoin => ProtocolViolationView::NoGasCoin,
            ProtocolViolation::UnexpectedEvent => ProtocolViolationView::UnexpectedEvent,
        }
    }
}

/// Why a deployment stopped.
#[derive(Clone, Debug, PartialEq, Eq)]
pub enum RAMMDeploymentError {
    TOMLFileReadError(String),
    CLIError(String),
    NoTOMLConfigProvided,
    TOMLParseError(String),
    InvalidConfigData,
    SuibaseWorkdirError(String),
    RpcUrlSelectionError(String),
    BuildSuiClientFromRpcUrlError(String),
    SuiClientActiveAddressError(String),
    KeystorePathnameError(String),
    KeystoreOpenError(String),
    PkgBuildError(String),
    PublishTxError(String),
    TxSignatureError(String),
    TxBlockExecutionError(String),
    NewRammTxError(String),
    CapObjectQueryError(String),
    AggregatorDataQueryError(String),
    AggregatorObjectResponseError(String),
    AggregatorObjectOwnerError,
    CoinQueryError(String),
    GasPriceQueryError(String),
    ProtocolInvariant(ProtocolViolation),
}

/// [`RAMMDeploymentError`] as a mathematical value.
pub ghost enum ErrorView {
    TOMLFileReadError(Seq<char>),
    CLIError(Seq<char>),
    NoTOMLConfigProvided,
    TOMLParseError(Seq<char>),
    InvalidConfigData,
    SuibaseWorkdirError(Seq<char>),
    RpcUrlSelectionError(Seq<char>),
    BuildSuiClientFromRpcUrlError(Seq<char>),
    SuiClientActiveAddressError(Seq<char>),
    KeystorePathnameError(Seq<char>),
    KeystoreOpenError(Seq<char>),
    PkgBuildError(Seq<char>),
    PublishTxError(Seq<char>),
    TxSignatureError(Seq<char>),
    TxBlockExecutionError(Seq<char>),
    NewRammTxError(Seq<char>),
    CapObjectQueryError(Seq<char>),
    AggregatorDataQueryError(Seq<char>),
    AggregatorObjectResponseError(Seq<char>),
    AggregatorObjectOwnerError,
    CoinQueryError(Seq<char>),
    GasPriceQueryError(Seq<char>),
    ProtocolInvariant(ProtocolViolationView),
}

impl View for RAMMDeploymentError {
    type V = ErrorView;

    open spec fn view(&self) -> ErrorView {
        match *self {
            RAMMDeploymentError::TOMLFileReadError(m) => ErrorView::TOMLFileReadError(m@),
            RAMMDeploymentError::CLIError(m) => ErrorView::CLIError(m@),
            RAMMDeploymentError::NoTOMLConfigProvided => ErrorView::NoTOMLConfigProvided,
            RAMMDeploymentError::TOMLParseError(m) => ErrorView::TOMLParseError(m@),
            RAMMDeploymentError::InvalidConfigData => ErrorView::InvalidConfigData,
            RAMMDeploymentError::SuibaseWorkdirError(m) => ErrorView::SuibaseWorkdirError(m@),
            RAMMDeploymentError::RpcUrlSelectionError(m) => ErrorView::RpcUrlSelectionError(m@),
            RAMMDeploymentError::BuildSuiClientFromRpcUrlError(m) => {
                ErrorView::BuildSuiClientFromRpcUrlError(m@)
            },
            RAMMDeploymentError::SuiClientActiveAddressError(m) => {
                ErrorView::SuiClientActiveAddressError(m@)
            },
            RAMMDeploymentError::KeystorePathnameError(m) => ErrorView::KeystorePathnameError(m@),
            RAMMDeploymentError::KeystoreOpenError(m) => ErrorView::KeystoreOpenError(m@),
            RAMMDeploymentError::PkgBuildError(m) => ErrorView::PkgBuildError(m@),
            RAMMDeploymentError::PublishTxError(m) => ErrorView::PublishTxError(m@),
            RAMMDeploymentError::TxSignatureError(m) => ErrorView::TxSignatureError(m@),
            RAMMDeploymentError::TxBlockExecutionError(m) => ErrorView::TxBlockExecutionError(m@),
            RAMMDeploymentError::NewRammTxError(m) => ErrorView::NewRammTxError(m@),
            RAMMDeploymentError::CapObjectQueryError(m) => ErrorView::CapObjectQueryError(m@),
            RAMMDeploymentError::AggregatorDataQueryError(m) => {
                ErrorView::AggregatorDataQueryError(m@)
            },
            RAMMDeploymentError::AggregatorObjectResponseError(m) => {
                ErrorView::AggregatorObjectResponseError(m@)
            },
            RAMMDeploymentError::AggregatorObjectOwnerError => {
                ErrorView::AggregatorObjectOwnerError
            },
            RAMMDeploymentError::CoinQueryError(m) => ErrorView::CoinQueryError(m@),
            RAMMDeploymentError::GasPriceQueryError(m) => ErrorView::GasPriceQueryError(m@),
            RAMMDeploymentError::ProtocolInvariant(v) => ErrorView::ProtocolInvariant(v@),
        }
    }
}

impl ProtocolViolationView {
    /// What the violation is, in words.
    pub open spec fn message(self) -> Seq<char> {
        match self {
            ProtocolViolationView::MissingEffects => "the response to the transaction holds no effects"@,
            ProtocolViolationView::PublishedPackageCount { found } => {
                "publication should create exactly 1 immutable object, but created "@ + decimal_text(
                    found as nat,
                )
            },
            ProtocolViolationView::SharedObjectCount { found } => {
                "the RAMM creation should result in exactly 1 new shared object, but resulted in "@
                    + decimal_text(found as nat)
            },
            ProtocolViolationView::CapabilityCount { found } => {
                "the RAMM creation should result in exactly 2 objects owned by the sender, but resulted in "@
                    + decimal_text(found as nat)
            },
            ProtocolViolationView::CapabilityIsPackage => "the capability object is a package"@,
            ProtocolViolationView::UnknownCapabilityType { name } => {
                "the type of the capability object is neither capability: "@ + name
            },
            ProtocolViolationView::AggregatorCount { expected, found } => {
                "the number of aggregator objects asked for was "@ + decimal_text(expected as nat)
                    + ", but the number returned was "@ + decimal_text(found as nat)
            },
            ProtocolViolationView::AggregatorNotShared { index } => {
                "the aggregator object is not shared, for the asset at position "@ + decimal_text(
                    index as nat,
                )
            },
            ProtocolViolationView::NoGasCoin => "no coins are associated to the active address"@,
            ProtocolViolationView::UnexpectedEvent => "a reply arrived that the current step did not ask for"@,
        }
    }
}

impl ProtocolViolation {
    /// Says in words what the violation is.
    pub fn message(&self) -> (text: String)
        ensures
            text@ == self@.message(),
    {
        match self {
            ProtocolViolation::MissingEffects => String::from_str(
                "the response to the transaction holds no effects",
            ),
            ProtocolViolation::PublishedPackageCount { found } => String::from_str(
                "publication should create exactly 1 immutable object, but created ",
            ).concat(decimal(*found as u64).as_str()),
            ProtocolViolation::SharedObjectCount { found } => String::from_str(
                "the RAMM creation should result in exactly 1 new shared object, but resulted in ",
            ).concat(decimal(*found as u64).as_str()),
            ProtocolViolation::CapabilityCount { found } => String::from_str(
                "the RAMM creation should result in exactly 2 objects owned by the sender, but resulted in ",
            ).concat(decimal(*found as u64).as_str()),
            ProtocolViolation::CapabilityIsPackage => String::from_str("the capability object is a package"),
            ProtocolViolation::UnknownCapabilityType { name } => String::from_str(
                "the type of the capability object is neither capability: ",
            ).concat(name.as_str()),
            ProtocolViolation::AggregatorCount { expected, found } => String::from_str(
                "the number of aggregator objects asked for was ",
            ).concat(decimal(*expected as u64).as_str()).concat(", but the number returned was ").concat(
                decimal(*found as u64).as_str(),
            ),
            ProtocolViolation::AggregatorNotShared { index } => String::from_str(
                "the aggregator object is not shared, for the asset at position ",
            ).concat(decimal(*index as u64).as_str()),
            ProtocolViolation::NoGasCoin => String::from_str("no coins are associated to the active address"),
            ProtocolViolation::UnexpectedEvent => String::from_str(
                "a reply arrived that the current step did not ask for",
            ),
        }
    }
}

impl ErrorView {
    /// What went wrong, in words, with the cause where there is one.
    pub open spec fn message(self) -> Seq<char> {
        match self {
            ErrorView::TOMLFileReadError(cause) => "Error reading the TOML config file into a `String`: "@ + cause,
            ErrorView::CLIError(cause) => "Error parsing the executable's user input: "@ + cause,
            ErrorView::TOMLParseError(cause) => "Failed to parse the TOML config data: "@ + cause,
            ErrorView::SuibaseWorkdirError(cause) => "Failed to fetch Suibase workdir specified in config: "@ + cause,
            ErrorView::RpcUrlSelectionError(cause) => "Failed to get the RPC URL for the selected workdir: "@ + cause,
            ErrorView::BuildSuiClientFromRpcUrlError(cause) => "Failed to build a Sui client from the selected RPC URL: "@ + cause,
            ErrorView::SuiClientActiveAddressError(cause) => "Failed to fetch the active address of the Sui client: "@ + cause,
            ErrorView::KeystorePathnameError(cause) => "Failed to fetch pathname of file-based keystore: "@ + cause,
            ErrorView::KeystoreOpenError(cause) => "Failed to open file-based keystore: "@ + cause,
            ErrorView::PkgBuildError(cause) => "Failed to build the RAMM package: "@ + cause,
            ErrorView::PublishTxError(cause) => "Failed to build publication transaction for RAMM library: "@ + cause,
            ErrorView::TxSignatureError(cause) => "Failed to sign transaction: "@ + cause,
            ErrorView::TxBlockExecutionError(cause) => "Failed to execute transaction block: "@ + cause,
            ErrorView::NewRammTxError(cause) => "Failed to build RAMM creation tx: "@ + cause,
            ErrorView::CapObjectQueryError(cause) => "Failed to fetch data for capability object: "@ + cause,
            ErrorView::AggregatorDataQueryError(cause) => "Failed to fetch aggregator object data. Node response: "@ + cause,
            ErrorView::AggregatorObjectResponseError(cause) => "There is an issue with Aggregator object data: "@ + cause,
            ErrorView::CoinQueryError(cause) => "Failed to fetch coin object from active address to pay for PTB: "@ + cause,
            ErrorView::GasPriceQueryError(cause) => "Failed to fetch gas price for the PTB: "@ + cause,
            ErrorView::NoTOMLConfigProvided => "No TOML config file provided - it is mandatory to provide one."@,
            ErrorView::InvalidConfigData => "The parsed TOML config has bad data."@,
            ErrorView::AggregatorObjectOwnerError => "The `owner` field of Aggregator object *must* be requested; it was `None`."@,
            ErrorView::ProtocolInvariant(broken) => "Protocol invariant violated: "@ + broken.message(),
        }
    }
}

impl RAMMDeploymentError {
    /// Says in words what went wrong, with the cause where there is one.
    pub fn message(&self) -> (text: String)
        ensures
            text@ == self@.message(),
    {
        match self {
            RAMMDeploymentError::TOMLFileReadError(cause) => String::from_str("Error reading the TOML config file into a `String`: ").concat(cause.as_str()),
            RAMMDeploymentError::CLIError(cause) => String::from_str("Error parsing the executable's user input: ").concat(cause.as_str()),
            RAMMDeploymentError::TOMLParseError(cause) => String::from_str("Failed to parse the TOML config data: ").concat(cause.as_str()),
            RAMMDeploymentError::SuibaseWorkdirError(cause) => String::from_str("Failed to fetch Suibase workdir specified in config: ").concat(cause.as_str()),
            RAMMDeploymentError::RpcUrlSelectionError(cause) => String::from_str("Failed to get the RPC URL for the selected workdir: ").concat(cause.as_str()),
            RAMMDeploymentError::BuildSuiClientFromRpcUrlError(cause) => String::from_str("Failed to build a Sui client from the selected RPC URL: ").concat(cause.as_str()),
            RAMMDeploymentError::SuiClientActiveAddressError(cause) => String::from_str("Failed to fetch the active address of the Sui client: ").concat(cause.as_str()),
            RAMMDeploymentError::KeystorePathnameError(cause) => String::from_str("Failed to fetch pathname of file-based keystore: ").concat(cause.as_str()),
            RAMMDeploymentError::KeystoreOpenError(cause) => String::from_str("Failed to open file-based keystore: ").concat(cause.as_str()),
            RAMMDeploymentError::PkgBuildError(cause) => String::from_str("Failed to build the RAMM package: ").concat(cause.as_str()),
            RAMMDeploymentError::PublishTxError(cause) => String::from_str("Failed to build publication transaction for RAMM library: ").concat(cause.as_str()),
            RAMMDeploymentError::TxSignatureError(cause) => String::from_str("Failed to sign transaction: ").concat(cause.as_str()),
            RAMMDeploymentError::TxBlockExecutionError(cause) => String::from_str("Failed to execute transaction block: ").concat(cause.as_str()),
            RAMMDeploymentError::NewRammTxError(cause) => String::from_str("Failed to build RAMM creation tx: ").concat(cause.as_str()),
            RAMMDeploymentError::CapObjectQueryError(cause) => String::from_str("Failed to fetch data for capability object: ").concat(cause.as_str()),
            RAMMDeploymentError::AggregatorDataQueryError(cause) => String::from_str("Failed to fetch aggregator object data. Node response: ").concat(cause.as_str()),
            RAMMDeploymentError::AggregatorObjectResponseError(cause) => String::from_str("There is an issue with Aggregator object data: ").concat(cause.as_str()),
            RAMMDeploymentError::CoinQueryError(cause) => String::from_str("Failed to fetch coin object from active address to pay for PTB: ").concat(cause.as_str()),
            RAMMDeploymentError::GasPriceQueryError(cause) => String::from_str("Failed to fetch gas price for the PTB: ").concat(cause.as_str()),
            RAMMDeploymentError::NoTOMLConfigProvided => String::from_str("No TOML config file provided - it is mandatory to provide one."),
            RAMMDeploymentError::InvalidConfigData => String::from_str("The parsed TOML config has bad data."),
            RAMMDeploymentError::AggregatorObjectOwnerError => String::from_str("The `owner` field of Aggregator object *must* be requested; it was `None`."),
            RAMMDeploymentError::ProtocolInvariant(broken) => {
                String::from_str("Protocol invariant violated: ").concat(broken.message().as_str())
            },
        }
    }
}

/// The view of a fallible result: the value as it is, the error by its view.
pub open spec fn outcome<T>(r: Result<T, RAMMDeploymentError>) -> Result<T, ErrorView> {
    match r {
        Ok(value) => Ok(value),
        Err(error) => Err(error@),
    }
}

/// The error view of a protocol violation.
pub open spec fn violation(v: ProtocolViolationView) -> ErrorView {
    ErrorView::ProtocolInvariant(v)
}

} // verus!
