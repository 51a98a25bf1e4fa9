//! The ways in which an invocation of the endpoint fails.
use vstd::prelude::*;

verus! {

/// Why an invocation of the endpoint failed.
///
/// An invocation that fails changes nothing: it returns one of these values and no
/// response.
#[derive(Clone, Debug, PartialEq, Eq)]
pub enum ContractError {
    /// The address given at construction is not one that the host chain accepts.
    InvalidAddress,
    /// The registry was read before any gateway address was stored in it.
    GatewayNotConfigured,
    /// An inbound message came from a caller that is not the configured gateway.
    Unauthorized {},
    /// An inbound payload is not UTF-8 text; `error` describes the failure to decode
    /// it.
    DecodeError { error: String },
    /// The operation is reserved and does nothing yet.
    NotImplemented,
}

/// A [`ContractError`] with its text as a sequence of characters.
pub enum ErrorView {
    InvalidAddress,
    GatewayNotConfigured,
    Unauthorized,
    DecodeError { error: Seq<char> },
    NotImplemented,
}

impl View for ContractError {
    type V = ErrorView;

    open spec fn view(&self) -> ErrorView {
        match self {
            ContractError::InvalidAddress => ErrorView::InvalidAddress,
            ContractError::GatewayNotConfigured => ErrorView::GatewayNotConfigured,
            ContractError::Unauthorized {  } => ErrorView::Unauthorized,
            ContractError::DecodeError { error } => ErrorView::DecodeError { error: error@ },
            ContractError::NotImplemented => ErrorView::NotImplemented,
        }
    }
}

} // verus!
