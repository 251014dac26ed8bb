//! The service layer: keypair generation, message signing and
//! verification, balance-query preparation, and the four instruction
//! builders. Every descriptor's program, account order, signer/writable
//! flags and payload bytes are pinned exactly.

use vstd::prelude::*;

use crate::codec::{b58_of, b64_of, is_b58_of_len, Address};
use crate::config::{spec_commitment_of, CommitmentLevel, Config};
use crate::error::AppError;
use crate::instructions::{
    ata_of, create_account_data, create_account_data_bytes, create_associated_account_data,
    create_associated_account_data_bytes, derive_associated_account, initialize_mint_data,
    initialize_mint_data_bytes, mint_to_data, mint_to_data_bytes, native_transfer_data,
    native_transfer_data_bytes, spec_system_program_id, spec_token_program_id, system_program_id,
    token_program_id, token_transfer_data, token_transfer_data_bytes, MINT_ACCOUNT_SIZE,
};
use crate::keys::{ed25519_verifies, keypair_accepts, sig_of, KeyPair};
use crate::models::{
    AccountInfo, BalanceRequest, BalanceResponse, CreateTokenRequest, InstructionResponse,
    KeypairResponse, MintTokenRequest, SendSolRequest, SendTokenRequest, SignMessageRequest,
    SignMessageResponse, TokenAmount, VerifyMessageRequest, VerifyMessageResponse,
};
use crate::utils;

verus! {

/// The stateless core of the service: the validated configuration it was
/// built from. The network handle to the configured RPC endpoint lives
/// with the caller, which hands RPC outcomes back in.
pub struct SolanaService {
    pub rpc_url: String,
    pub commitment: CommitmentLevel,
    pub timeout_seconds: u64,
}

/// The account to query for a balance request: the address itself for a
/// native balance, the derived associated token account for a token one.
pub enum BalanceQuery {
    Native { address: Address },
    Token { token_account: Address },
}

/// What a successful create-mint descriptor holds for a request and a rent
/// value: the token program, the two signing writable accounts, and the
/// concatenated create-account and initialize-mint payloads.
pub open spec fn create_token_descriptor_ok(
    resp: InstructionResponse,
    request: CreateTokenRequest,
    rent: u64,
) -> bool {
    &&& resp.program_id@ == b58_of(spec_token_program_id())
    &&& resp.accounts@.len() == 2
    &&& resp.accounts@[0].pubkey@ == request.mint_authority@
    &&& resp.accounts@[0].is_signer == true
    &&& resp.accounts@[0].is_writable == true
    &&& resp.accounts@[1].pubkey@ == request.mint@
    &&& resp.accounts@[1].is_signer == true
    &&& resp.accounts@[1].is_writable == true
    &&& exists|auth: Seq<u8>|
        #![auto]
        auth.len() == 32 && b58_of(auth) == request.mint_authority@ && resp.instruction_data@
            == b64_of(
            create_account_data(rent, MINT_ACCOUNT_SIZE, spec_token_program_id())
                + initialize_mint_data(request.decimals, auth, auth),
        )
}

impl SolanaService {
    /// Builds the service from configuration; the commitment string selects
    /// one of the three levels, anything unknown meaning the middle one.
    pub fn new(config: Config) -> (r: Result<SolanaService, AppError>)
        ensures
            r is Ok,
            r matches Ok(s) ==> (s.commitment == spec_commitment_of(config.commitment@)
                && s.rpc_url@ == config.rpc_url@ && s.timeout_seconds == config.timeout_seconds),
    {
        let processed = "processed".to_owned();
        let finalized = "finalized".to_owned();
        let commitment = if config.commitment == processed {
            CommitmentLevel::Processed
        } else if config.commitment == finalized {
            CommitmentLevel::Finalized
        } else {
            CommitmentLevel::Confirmed
        };
        Ok(
            SolanaService {
                rpc_url: config.rpc_url,
                commitment,
                timeout_seconds: config.timeout_seconds,
            },
        )
    }

    /// Generates a fresh keypair and returns both halves in base-58: the
    /// secret is the full 64 bytes, the pubkey their second half (and so
    /// 32 to 44 characters of text).
    pub fn generate_keypair(&self) -> (r: KeypairResponse)
        ensures
            exists|b: Seq<u8>|
                #[trigger] keypair_accepts(b) && b.len() == 64 && r.secret@ == b58_of(b)
                    && r.pubkey@ == b58_of(b.subrange(32, 64)),
            32 <= r.pubkey@.len() <= 44,
    {
        let kp = KeyPair::generate();
        let pubkey = kp.public_key().to_base58();
        let secret = kp.to_base58();
        proof {
            assert(keypair_accepts(kp@) && kp@.len() == 64 && secret@ == b58_of(kp@) && pubkey@
                == b58_of(kp@.subrange(32, 64)));
        }
        KeypairResponse { pubkey, secret }
    }

    /// Resolves which account a balance request asks about, decoding every
    /// address field first.
    pub fn prepare_balance_query(&self, request: &BalanceRequest) -> (r: Result<
        BalanceQuery,
        AppError,
    >)
        ensures
            request.token_mint is None ==> (r is Ok <==> is_b58_of_len(request.address@, 32)),
            request.token_mint matches Some(m) ==> (r is Ok <==> is_b58_of_len(request.address@, 32)
                && is_b58_of_len(m@, 32)),
            r matches Ok(q) ==> match q {
                BalanceQuery::Native { address } => request.token_mint is None && b58_of(address@)
                    == request.address@,
                BalanceQuery::Token { token_account } => request.token_mint matches Some(m)
                    && exists|o: Seq<u8>, mi: Seq<u8>|
                    #![auto]
                    o.len() == 32 && mi.len() == 32 && b58_of(o) == request.address@ && b58_of(mi)
                        == m@ && token_account@ == ata_of(o, mi),
            },
            r matches Err(e) ==> e matches AppError::InvalidInput(_),
    {
        let address = match utils::parse_pubkey(request.address.as_str()) {
            Ok(a) => a,
            Err(e) => {
                return Err(e);
            },
        };
        match &request.token_mint {
            Some(mint_text) => {
                let mint = match utils::parse_pubkey(mint_text.as_str()) {
                    Ok(m) => m,
                    Err(e) => {
                        return Err(e);
                    },
                };
                let token_account = derive_associated_account(&address, &mint);
                proof {
                    assert(address@.len() == 32 && mint@.len() == 32 && b58_of(address@)
                        == request.address@ && b58_of(mint@) == request.token_mint->0@
                        && token_account@ == ata_of(address@, mint@));
                }
                Ok(BalanceQuery::Token { token_account })
            },
            None => Ok(BalanceQuery::Native { address }),
        }
    }

    /// Shapes the outcome of a native-balance RPC round trip: a remote
    /// failure surfaces as a gateway error, never as a balance.
    pub fn sol_balance_from_rpc(&self, outcome: Result<u64, String>) -> (r: Result<
        BalanceResponse,
        AppError,
    >)
        ensures
            outcome matches Ok(v) ==> (r matches Ok(resp) && resp.balance == v && resp.decimals
                is None),
            outcome matches Err(m) ==> (r matches Err(e) && e matches AppError::SolanaRpc(s) && s@
                == m@),
    {
        match outcome {
            Ok(v) => Ok(BalanceResponse { balance: v, decimals: None }),
            Err(m) => Err(AppError::SolanaRpc(m)),
        }
    }

    /// Shapes the outcome of a token-balance RPC round trip. An absent
    /// account is a remote error and surfaces as a gateway error — it is
    /// never conflated with a zero balance; likewise a reported amount that
    /// is not a valid in-range decimal is a failure of the remote
    /// collaborator, never a balance.
    pub fn token_balance_from_rpc(&self, outcome: Result<TokenAmount, String>) -> (r: Result<
        BalanceResponse,
        AppError,
    >)
        ensures
            outcome matches Ok(ta) ==> match utils::parsed_u64(ta.amount@) {
                Some(v) => r matches Ok(resp) && resp.balance == v && resp.decimals == Some(
                    ta.decimals,
                ),
                None => r matches Err(e) && e is SolanaRpc,
            },
            outcome matches Err(m) ==> (r matches Err(e) && e matches AppError::SolanaRpc(s) && s@
                == m@),
    {
        match outcome {
            Ok(ta) => match utils::parse_u64(ta.amount.as_str()) {
                Some(balance) => Ok(BalanceResponse { balance, decimals: Some(ta.decimals) }),
                None => Err(
                    AppError::SolanaRpc("malformed token amount in RPC reply".to_owned()),
                ),
            },
            Err(m) => Err(AppError::SolanaRpc(m)),
        }
    }

    /// Builds the create-mint descriptor: the token program, the two
    /// signing writable accounts, and the concatenated create-account and
    /// initialize-mint payloads. `rent` is the live rent-exemption minimum
    /// for a mint account, queried from the ledger by the caller.
    pub fn create_token(&self, request: &CreateTokenRequest, rent: u64) -> (r: Result<
        InstructionResponse,
        AppError,
    >)
        ensures
            r is Ok <==> is_b58_of_len(request.mint_authority@, 32) && is_b58_of_len(
                request.mint@,
                32,
            ),
            r matches Ok(resp) ==> create_token_descriptor_ok(resp, *request, rent),
            r matches Err(e) ==> e matches AppError::InvalidInput(_),
    {
        let mint_authority = match utils::parse_pubkey(request.mint_authority.as_str()) {
            Ok(a) => a,
            Err(e) => {
                return Err(e);
            },
        };
        let mint = match utils::parse_pubkey(request.mint.as_str()) {
            Ok(a) => a,
            Err(e) => {
                return Err(e);
            },
        };
        let token_program = token_program_id();
        let mut data = create_account_data_bytes(rent, MINT_ACCOUNT_SIZE, &token_program);
        let mut init = initialize_mint_data_bytes(request.decimals, &mint_authority,
            &mint_authority);
        data.append(&mut init);
        let mut accounts: Vec<AccountInfo> = Vec::new();
        accounts.push(
            AccountInfo {
                pubkey: mint_authority.to_base58(),
                is_signer: true,
                is_writable: true,
            },
        );
        accounts.push(AccountInfo { pubkey: mint.to_base58(), is_signer: true, is_writable: true });
        let resp = InstructionResponse {
            program_id: token_program.to_base58(),
            accounts,
            instruction_data: crate::codec::encode_base64(&data),
        };
        proof {
            assert(mint_authority@.len() == 32 && b58_of(mint_authority@)
                == request.mint_authority@ && resp.instruction_data@ == b64_of(
                create_account_data(rent, MINT_ACCOUNT_SIZE, spec_token_program_id())
                    + initialize_mint_data(request.decimals, mint_authority@, mint_authority@),
            ));
        }
        Ok(resp)
    }

    /// Builds the create-mint descriptor from a request and the outcome of
    /// the rent-exemption query. Input validation decides first: a
    /// malformed address is an invalid-input error whatever the ledger
    /// answered, a remote failure surfaces as a gateway error only for
    /// well-formed requests, and nothing partial is ever returned.
    pub fn create_token_from_rpc(
        &self,
        request: &CreateTokenRequest,
        rent_outcome: Result<u64, String>,
    ) -> (r: Result<InstructionResponse, AppError>)
        ensures
            !(is_b58_of_len(request.mint_authority@, 32) && is_b58_of_len(request.mint@, 32)) ==> (
            r matches Err(e) && e matches AppError::InvalidInput(_)),
            is_b58_of_len(request.mint_authority@, 32) && is_b58_of_len(request.mint@, 32)
                ==> match rent_outcome {
                Ok(rent) => r matches Ok(resp) && create_token_descriptor_ok(resp, *request, rent),
                Err(m) => r matches Err(e) && e matches AppError::SolanaRpc(s) && s@ == m@,
            },
    {
        if let Err(e) = utils::parse_pubkey(request.mint_authority.as_str()) {
            return Err(e);
        }
        if let Err(e) = utils::parse_pubkey(request.mint.as_str()) {
            return Err(e);
        }
        match rent_outcome {
            Ok(rent) => self.create_token(request, rent),
            Err(m) => Err(AppError::SolanaRpc(m)),
        }
    }

    /// Builds the mint-to descriptor: the token program; the authority
    /// (signer), the mint and the destination's associated token account
    /// (both writable); and the concatenated idempotent
    /// create-associated-account and mint-to payloads (a no-op on-chain
    /// when the account already exists).
    pub fn mint_token(&self, request: &MintTokenRequest) -> (r: Result<
        InstructionResponse,
        AppError,
    >)
        ensures
            r is Ok <==> is_b58_of_len(request.authority@, 32) && is_b58_of_len(request.mint@, 32)
                && is_b58_of_len(request.destination@, 32),
            r matches Ok(resp) ==> ({
                &&& resp.program_id@ == b58_of(spec_token_program_id())
                &&& resp.accounts@.len() == 3
                &&& resp.accounts@[0].pubkey@ == request.authority@
                &&& resp.accounts@[0].is_signer == true
                &&& resp.accounts@[0].is_writable == false
                &&& resp.accounts@[1].pubkey@ == request.mint@
                &&& resp.accounts@[1].is_signer == false
                &&& resp.accounts@[1].is_writable == true
                &&& resp.accounts@[2].is_signer == false
                &&& resp.accounts@[2].is_writable == true
                &&& exists|d: Seq<u8>, mi: Seq<u8>|
                    #![auto]
                    d.len() == 32 && mi.len() == 32 && b58_of(d) == request.destination@ && b58_of(
                        mi,
                    ) == request.mint@ && resp.accounts@[2].pubkey@ == b58_of(ata_of(d, mi))
                &&& resp.instruction_data@ == b64_of(
                    create_associated_account_data() + mint_to_data(request.amount),
                )
            }),
            r matches Err(e) ==> e matches AppError::InvalidInput(_),
    {
        let authority = match utils::parse_pubkey(request.authority.as_str()) {
            Ok(a) => a,
            Err(e) => {
                return Err(e);
            },
        };
        let mint = match utils::parse_pubkey(request.mint.as_str()) {
            Ok(a) => a,
            Err(e) => {
                return Err(e);
            },
        };
        let destination = match utils::parse_pubkey(request.destination.as_str()) {
            Ok(a) => a,
            Err(e) => {
                return Err(e);
            },
        };
        let destination_token_account = derive_associated_account(&destination, &mint);
        let mut data = create_associated_account_data_bytes();
        let mut mint_ix = mint_to_data_bytes(request.amount);
        data.append(&mut mint_ix);
        let mut accounts: Vec<AccountInfo> = Vec::new();
        accounts.push(
            AccountInfo { pubkey: authority.to_base58(), is_signer: true, is_writable: false },
        );
        accounts.push(AccountInfo { pubkey: mint.to_base58(), is_signer: false, is_writable: true });
        accounts.push(
            AccountInfo {
                pubkey: destination_token_account.to_base58(),
                is_signer: false,
                is_writable: true,
            },
        );
        let resp = InstructionResponse {
            program_id: token_program_id().to_base58(),
            accounts,
            instruction_data: crate::codec::encode_base64(&data),
        };
        proof {
            assert(destination@.len() == 32 && mint@.len() == 32 && b58_of(destination@)
                == request.destination@ && b58_of(mint@) == request.mint@
                && resp.accounts@[2].pubkey@ == b58_of(ata_of(destination@, mint@)));
        }
        Ok(resp)
    }

    /// Signs a message with a base-58 private key; the response carries the
    /// base-64 signature, the embedded public key in base-58, and the
    /// message itself. A fresh signature verifies under that public key.
    pub fn sign_message(&self, request: SignMessageRequest) -> (r: Result<
        SignMessageResponse,
        AppError,
    >)
        ensures
            r is Ok <==> exists|b: Seq<u8>| #[trigger]
                keypair_accepts(b) && b58_of(b) == request.secret@,
            r matches Ok(resp) ==> exists|b: Seq<u8>|
                #![auto]
                keypair_accepts(b) && b.len() == 64 && b58_of(b) == request.secret@
                    && resp.signature@ == b64_of(sig_of(b, request.message@)) && resp.public_key@
                    == b58_of(b.subrange(32, 64)) && resp.message@ == request.message@
                    && ed25519_verifies(b.subrange(32, 64), request.message@, sig_of(b, request.message@)),
            r matches Err(e) ==> e matches AppError::Keypair(_),
    {
        let keypair = match utils::keypair_from_base58(request.secret.as_str()) {
            Ok(kp) => kp,
            Err(e) => {
                return Err(e);
            },
        };
        let signature = keypair.sign(request.message.as_str());
        let public_key = keypair.public_key().to_base58();
        let resp = SignMessageResponse {
            signature: signature.to_base64(),
            public_key,
            message: request.message,
        };
        proof {
            assert(keypair_accepts(keypair@) && keypair@.len() == 64 && b58_of(keypair@)
                == request.secret@ && resp.signature@ == b64_of(sig_of(keypair@, resp.message@))
                && resp.public_key@ == b58_of(keypair@.subrange(32, 64)));
        }
        Ok(resp)
    }

    /// Verifies a signature over a message under a public key; a mismatch
    /// is a `false` verdict in a successful response, never an error.
    pub fn verify_message(&self, request: VerifyMessageRequest) -> (r: Result<
        VerifyMessageResponse,
        AppError,
    >)
        ensures
            r is Ok <==> is_b58_of_len(request.pubkey@, 32) && is_b58_of_len(request.signature@, 64),
            r matches Ok(resp) ==> ({
                &&& resp.message@ == request.message@
                &&& resp.pubkey@ == request.pubkey@
                &&& exists|p: Seq<u8>, sg: Seq<u8>|
                    #![auto]
                    p.len() == 32 && sg.len() == 64 && b58_of(p) == request.pubkey@ && b58_of(sg)
                        == request.signature@ && resp.valid == ed25519_verifies(
                        p,
                        request.message@,
                        sg,
                    )
            }),
            r matches Err(e) ==> e matches AppError::InvalidInput(_),
    {
        let pubkey = match utils::parse_pubkey(request.pubkey.as_str()) {
            Ok(a) => a,
            Err(e) => {
                return Err(e);
            },
        };
        let signature = match utils::parse_signature(request.signature.as_str()) {
            Ok(s) => s,
            Err(e) => {
                return Err(e);
            },
        };
        let valid = crate::keys::verify_signature(&pubkey, request.message.as_str(), &signature);
        let resp = VerifyMessageResponse { valid, message: request.message, pubkey: request.pubkey };
        proof {
            assert(pubkey@.len() == 32 && signature@.len() == 64 && b58_of(pubkey@) == resp.pubkey@
                && b58_of(signature@) == request.signature@ && resp.valid == ed25519_verifies(
                pubkey@,
                resp.message@,
                signature@,
            ));
        }
        Ok(resp)
    }

    /// Builds the native-transfer descriptor: the system program, the
    /// funding signer and the writable recipient, and the transfer payload.
    pub fn send_sol(&self, request: &SendSolRequest) -> (r: Result<InstructionResponse, AppError>)
        ensures
            r is Ok <==> is_b58_of_len(request.from@, 32) && is_b58_of_len(request.to@, 32),
            r matches Ok(resp) ==> ({
                &&& resp.program_id@ == b58_of(spec_system_program_id())
                &&& resp.accounts@.len() == 2
                &&& resp.accounts@[0].pubkey@ == request.from@
                &&& resp.accounts@[0].is_signer == true
                &&& resp.accounts@[0].is_writable == true
                &&& resp.accounts@[1].pubkey@ == request.to@
                &&& resp.accounts@[1].is_signer == false
                &&& resp.accounts@[1].is_writable == true
                &&& resp.instruction_data@ == b64_of(native_transfer_data(request.lamports))
            }),
            r matches Err(e) ==> e matches AppError::InvalidInput(_),
    {
        let from = match utils::parse_pubkey(request.from.as_str()) {
            Ok(a) => a,
            Err(e) => {
                return Err(e);
            },
        };
        let to = match utils::parse_pubkey(request.to.as_str()) {
            Ok(a) => a,
            Err(e) => {
                return Err(e);
            },
        };
        let data = native_transfer_data_bytes(request.lamports);
        let mut accounts: Vec<AccountInfo> = Vec::new();
        accounts.push(AccountInfo { pubkey: from.to_base58(), is_signer: true, is_writable: true });
        accounts.push(AccountInfo { pubkey: to.to_base58(), is_signer: false, is_writable: true });
        Ok(
            InstructionResponse {
                program_id: system_program_id().to_base58(),
                accounts,
                instruction_data: crate::codec::encode_base64(&data),
            },
        )
    }

    /// Builds the token-transfer descriptor: the token program; the owner's
    /// and destination's associated token accounts (writable) and the owner
    /// (signer); and the transfer payload.
    pub fn send_token(&self, request: &SendTokenRequest) -> (r: Result<
        InstructionResponse,
        AppError,
    >)
        ensures
            r is Ok <==> is_b58_of_len(request.owner@, 32) && is_b58_of_len(request.mint@, 32)
                && is_b58_of_len(request.destination@, 32),
            r matches Ok(resp) ==> ({
                &&& resp.program_id@ == b58_of(spec_token_program_id())
                &&& resp.accounts@.len() == 3
                &&& resp.accounts@[0].is_signer == false
                &&& resp.accounts@[0].is_writable == true
                &&& resp.accounts@[1].is_signer == false
                &&& resp.accounts@[1].is_writable == true
                &&& resp.accounts@[2].pubkey@ == request.owner@
                &&& resp.accounts@[2].is_signer == true
                &&& resp.accounts@[2].is_writable == false
                &&& exists|o: Seq<u8>, d: Seq<u8>, mi: Seq<u8>|
                    #![auto]
                    o.len() == 32 && d.len() == 32 && mi.len() == 32 && b58_of(o) == request.owner@
                        && b58_of(d) == request.destination@ && b58_of(mi) == request.mint@
                        && resp.accounts@[0].pubkey@ == b58_of(ata_of(o, mi))
                        && resp.accounts@[1].pubkey@ == b58_of(ata_of(d, mi))
                &&& resp.instruction_data@ == b64_of(token_transfer_data(request.amount))
            }),
            r matches Err(e) ==> e matches AppError::InvalidInput(_),
    {
        let owner = match utils::parse_pubkey(request.owner.as_str()) {
            Ok(a) => a,
            Err(e) => {
                return Err(e);
            },
        };
        let mint = match utils::parse_pubkey(request.mint.as_str()) {
            Ok(a) => a,
            Err(e) => {
                return Err(e);
            },
        };
        let destination = match utils::parse_pubkey(request.destination.as_str()) {
            Ok(a) => a,
            Err(e) => {
                return Err(e);
            },
        };
        let owner_token_account = derive_associated_account(&owner, &mint);
        let destination_token_account = derive_associated_account(&destination, &mint);
        let data = token_transfer_data_bytes(request.amount);
        let mut accounts: Vec<AccountInfo> = Vec::new();
        accounts.push(
            AccountInfo {
                pubkey: owner_token_account.to_base58(),
                is_signer: false,
                is_writable: true,
            },
        );
        accounts.push(
            AccountInfo {
                pubkey: destination_token_account.to_base58(),
                is_signer: false,
                is_writable: true,
            },
        );
        accounts.push(
            AccountInfo { pubkey: owner.to_base58(), is_signer: true, is_writable: false },
        );
        let resp = InstructionResponse {
            program_id: token_program_id().to_base58(),
            accounts,
            instruction_data: crate::codec::encode_base64(&data),
        };
        proof {
            assert(owner@.len() == 32 && destination@.len() == 32 && mint@.len() == 32 && b58_of(
                owner@,
            ) == request.owner@ && b58_of(destination@) == request.destination@ && b58_of(mint@)
                == request.mint@ && resp.accounts@[0].pubkey@ == b58_of(ata_of(owner@, mint@))
                && resp.accounts@[1].pubkey@ == b58_of(ata_of(destination@, mint@)));
        }
        Ok(resp)
    }
}

} // verus!
