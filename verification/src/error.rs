//! The errors that an operation of the sale contract returns.
use vstd::prelude::*;
use vstd::string::*;

verus! {

/// The error type of `cosmwasm_std`. The library hands it on to the caller
/// and never looks inside.
#[verifier::external_type_specification]
#[verifier::external_body]
pub struct ExStdError(cosmwasm_std::StdError);

/// A failed call. No command is ever returned together with one.
#[derive(Debug)]
pub enum ContractError {
    /// An error of the host's standard library.
    Std(cosmwasm_std::StdError),
    /// The caller is not the stored owner.
    Unauthorized,
    /// The requested payout exceeds the available balance.
    InvalidQuantity,
    /// A purchase failed for a reason without a name of its own.
    BuyError,
    /// An answer was not of the kind of the question asked at its place.
    UnknownError,
    /// The message has no handler in this variant of the contract.
    NotImplemented,
    /// No funds were attached to a purchase.
    CoinMismatch,
    /// The token ledger cannot cover a purchase.
    InsufficientCoinsInContract,
}

/// Which error a [`ContractError`] is, without what it carries.
#[derive(Clone, Copy, Debug, PartialEq, Eq, Structural)]
pub enum ErrorKind {
    Std,
    Unauthorized,
    InvalidQuantity,
    BuyError,
    UnknownError,
    NotImplemented,
    CoinMismatch,
    InsufficientCoinsInContract,
}

impl View for ContractError {
    type V = ErrorKind;

    open spec fn view(&self) -> ErrorKind {
        match *self {
            ContractError::Std(_) => ErrorKind::Std,
            ContractError::Unauthorized => ErrorKind::Unauthorized,
            ContractError::InvalidQuantity => ErrorKind::InvalidQuantity,
            ContractError::BuyError => ErrorKind::BuyError,
            ContractError::UnknownError => ErrorKind::UnknownError,
            ContractError::NotImplemented => ErrorKind::NotImplemented,
            ContractError::CoinMismatch => ErrorKind::CoinMismatch,
            ContractError::InsufficientCoinsInContract => ErrorKind::InsufficientCoinsInContract,
        }
    }
}

impl ErrorKind {
    /// The message of an error of this kind. `Std` has none of its own: its
    /// text is that of the error it carries.
    pub open spec fn message(self) -> Seq<char> {
        match self {
            ErrorKind::Std => Seq::<char>::empty(),
            ErrorKind::Unauthorized => "Unauthorized"@,
            ErrorKind::InvalidQuantity => "quantity is invalid"@,
            ErrorKind::BuyError => "Buy Error"@,
            ErrorKind::UnknownError => "Unknown Error"@,
            ErrorKind::NotImplemented => "Not implemented"@,
            ErrorKind::CoinMismatch => "Only uluna should be passed"@,
            ErrorKind::InsufficientCoinsInContract => "Not enough coins remain in contract"@,
        }
    }
}

impl ContractError {
    /// Which error this is.
    pub fn kind(&self) -> (k: ErrorKind)
        ensures
            k == self@,
    {
        match self {
            ContractError::Std(_) => ErrorKind::Std,
            ContractError::Unauthorized => ErrorKind::Unauthorized,
            ContractError::InvalidQuantity => ErrorKind::InvalidQuantity,
            ContractError::BuyError => ErrorKind::BuyError,
            ContractError::UnknownError => ErrorKind::UnknownError,
            ContractError::NotImplemented => ErrorKind::NotImplemented,
            ContractError::CoinMismatch => ErrorKind::CoinMismatch,
            ContractError::InsufficientCoinsInContract => ErrorKind::InsufficientCoinsInContract,
        }
    }

    /// The message shown to a user. For `Std` it is the text of the carried
    /// error, of which nothing is stated.
    pub fn to_string(&self) -> (s: String)
        ensures
            !(self@ is Std) ==> s@ == self@.message(),
    {
        match self {
            ContractError::Std(e) => std_error_text(e),
            ContractError::Unauthorized => String::from_str("Unauthorized"),
            ContractError::InvalidQuantity => String::from_str("quantity is invalid"),
            ContractError::BuyError => String::from_str("Buy Error"),
            ContractError::UnknownError => String::from_str("Unknown Error"),
            ContractError::NotImplemented => String::from_str("Not implemented"),
            ContractError::CoinMismatch => String::from_str("Only uluna should be passed"),
            ContractError::InsufficientCoinsInContract => String::from_str(
                "Not enough coins remain in contract",
            ),
        }
    }
}

/// The text that `cosmwasm_std::StdError`'s `Display` impl writes. Nothing is
/// claimed of it.
#[verifier::external_body]
pub(crate) fn std_error_text(e: &cosmwasm_std::StdError) -> (s: String) {
    format!("{}", e)
}

/// An error without structure that carries `msg`: what
/// `cosmwasm_std::StdError::generic_err` makes of it. Nothing is claimed of
/// it.
#[verifier::external_body]
pub(crate) fn generic_err(msg: &str) -> (e: cosmwasm_std::StdError) {
    cosmwasm_std::StdError::generic_err(msg)
}

} // verus!
