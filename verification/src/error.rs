//! The service's closed error taxonomy and its single mapping to HTTP
//! status codes.

use vstd::prelude::*;

verus! {

/// One variant per failure class; each carries a human-readable detail.
#[derive(Debug)]
pub enum AppError {
    /// A malformed or unparseable request field.
    InvalidInput(String),
    /// A failure reported by the remote ledger RPC collaborator.
    SolanaRpc(String),
    /// A malformed or internally inconsistent private key.
    Keypair(String),
    /// A failure to construct a program instruction.
    Transaction(String),
    /// A request body that is not valid JSON.
    JsonError(String),
    /// Anything unclassified.
    Internal(String),
}

impl AppError {
    /// The HTTP status that each failure class maps to: client errors are
    /// 400, remote-collaborator failures are 502, the rest is 500.
    pub open spec fn spec_status(&self) -> u16 {
        match self {
            AppError::InvalidInput(_) => 400,
            AppError::SolanaRpc(_) => 502,
            AppError::Keypair(_) => 400,
            AppError::Transaction(_) => 400,
            AppError::JsonError(_) => 400,
            AppError::Internal(_) => 500,
        }
    }

    pub open spec fn spec_detail(&self) -> Seq<char> {
        match self {
            AppError::InvalidInput(m) => m@,
            AppError::SolanaRpc(m) => m@,
            AppError::Keypair(m) => m@,
            AppError::Transaction(m) => m@,
            AppError::JsonError(m) => m@,
            AppError::Internal(m) => m@,
        }
    }

    pub fn status_code(&self) -> (r: u16)
        ensures
            r == self.spec_status(),
    {
        match self {
            AppError::InvalidInput(_) => 400,
            AppError::SolanaRpc(_) => 502,
            AppError::Keypair(_) => 400,
            AppError::Transaction(_) => 400,
            AppError::JsonError(_) => 400,
            AppError::Internal(_) => 500,
        }
    }

    /// The short name of the failure class, as the envelope prefixes it.
    pub fn kind_text(&self) -> (r: String)
        ensures
            self is InvalidInput ==> r@ == "Invalid input"@,
            self is SolanaRpc ==> r@ == "Solana RPC error"@,
            self is Keypair ==> r@ == "Keypair error"@,
            self is Transaction ==> r@ == "Transaction failed"@,
            self is JsonError ==> r@ == "JSON error"@,
            self is Internal ==> r@ == "Internal server error"@,
    {
        match self {
            AppError::InvalidInput(_) => "Invalid input".to_owned(),
            AppError::SolanaRpc(_) => "Solana RPC error".to_owned(),
            AppError::Keypair(_) => "Keypair error".to_owned(),
            AppError::Transaction(_) => "Transaction failed".to_owned(),
            AppError::JsonError(_) => "JSON error".to_owned(),
            AppError::Internal(_) => "Internal server error".to_owned(),
        }
    }

    pub fn detail(&self) -> (r: &String)
        ensures
            r@ == self.spec_detail(),
    {
        match self {
            AppError::InvalidInput(m) => m,
            AppError::SolanaRpc(m) => m,
            AppError::Keypair(m) => m,
            AppError::Transaction(m) => m,
            AppError::JsonError(m) => m,
            AppError::Internal(m) => m,
        }
    }
}

} // verus!
