//! Request and response shapes of the HTTP surface, and the uniform
//! response envelope.

use vstd::prelude::*;

verus! {

/// The uniform envelope: `data` is present iff `success`, `error` iff not.
pub struct ApiResponse<T> {
    pub success: bool,
    pub data: Option<T>,
    pub error: Option<String>,
}

impl<T> ApiResponse<T> {
    pub fn success(data: T) -> (r: Self)
        ensures
            r.success == true,
            r.data == Some(data),
            r.error is None,
    {
        Self { success: true, data: Some(data), error: None }
    }

    pub fn error(error: String) -> (r: Self)
        ensures
            r.success == false,
            r.data is None,
            r.error == Some(error),
    {
        Self { success: false, data: None, error: Some(error) }
    }
}

pub struct GenerateKeypairRequest {}

pub struct KeypairResponse {
    pub pubkey: String,
    pub secret: String,
}

pub struct BalanceRequest {
    pub address: String,
    pub token_mint: Option<String>,
}

pub struct BalanceResponse {
    pub balance: u64,
    pub decimals: Option<u8>,
}

/// The live token-balance figures reported by the ledger RPC endpoint for
/// one token account: a decimal amount string and the mint's decimals.
pub struct TokenAmount {
    pub amount: String,
    pub decimals: u8,
}

pub struct CreateTokenRequest {
    pub mint_authority: String,
    pub mint: String,
    pub decimals: u8,
}

pub struct CreateTokenResponse {
    pub mint_address: String,
    pub transaction_signature: String,
}

pub struct MintTokenRequest {
    pub mint: String,
    pub destination: String,
    pub authority: String,
    pub amount: u64,
}

pub struct MintTokenResponse {
    pub transaction_signature: String,
    pub recipient_token_account: String,
}

pub struct SignMessageRequest {
    pub message: String,
    pub secret: String,
}

pub struct SignMessageResponse {
    pub signature: String,
    pub public_key: String,
    pub message: String,
}

pub struct VerifyMessageRequest {
    pub message: String,
    pub signature: String,
    pub pubkey: String,
}

pub struct VerifyMessageResponse {
    pub valid: bool,
    pub message: String,
    pub pubkey: String,
}

pub struct SendSolRequest {
    pub from: String,
    pub to: String,
    pub lamports: u64,
}

pub struct SendSolResponse {
    pub transaction_signature: String,
}

pub struct SendTokenRequest {
    pub destination: String,
    pub mint: String,
    pub owner: String,
    pub amount: u64,
}

pub struct SendTokenResponse {
    pub transaction_signature: String,
}

/// One account reference of an instruction descriptor: position carries
/// meaning, so the order of these in a response must not change.
pub struct AccountInfo {
    pub pubkey: String,
    pub is_signer: bool,
    pub is_writable: bool,
}

/// An unsigned, unsubmitted description of an on-chain operation: target
/// program, ordered account list, base-64 payload bytes.
pub struct InstructionResponse {
    pub program_id: String,
    pub accounts: Vec<AccountInfo>,
    pub instruction_data: String,
}

} // verus!
