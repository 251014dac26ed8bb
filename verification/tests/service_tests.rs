use base64::Engine as _;
use solana_sdk::signer::Signer as _;
use solana_http_service::codec::Address;
use solana_http_service::config::Config;
use solana_http_service::error::AppError;
use solana_http_service::models::{
    BalanceRequest, CreateTokenRequest, MintTokenRequest, SendSolRequest, SendTokenRequest,
    SignMessageRequest, TokenAmount, VerifyMessageRequest,
};
use solana_http_service::services::{BalanceQuery, SolanaService};

fn service() -> SolanaService {
    SolanaService::new(Config {
        rpc_url: "http://localhost:8899".to_owned(),
        commitment: "confirmed".to_owned(),
        timeout_seconds: 30,
    })
    .unwrap_or_else(|_| panic!("service construction never fails"))
}

fn b64decode(s: &str) -> Vec<u8> {
    base64::engine::general_purpose::STANDARD
        .decode(s)
        .expect("valid base64")
}

fn addr(byte: u8) -> String {
    bs58::encode(&[byte; 32]).into_string()
}

#[test]
fn generated_keypair_shape() {
    let resp = service().generate_keypair();
    assert!(resp.pubkey.len() >= 32 && resp.pubkey.len() <= 44);
    let pk = bs58::decode(&resp.pubkey).into_vec().expect("valid base58");
    assert_eq!(pk.len(), 32);
    let secret = bs58::decode(&resp.secret).into_vec().expect("valid base58");
    assert_eq!(secret.len(), 64);
    assert_eq!(&secret[32..], pk.as_slice());
}

#[test]
fn sign_then_verify_round_trip() {
    let svc = service();
    let kp = svc.generate_keypair();
    let signed = svc
        .sign_message(SignMessageRequest {
            message: "hello".to_owned(),
            secret: kp.secret.clone(),
        })
        .expect("valid secret signs");
    assert_eq!(signed.message, "hello");
    assert_eq!(signed.public_key, kp.pubkey);
    let sig_bytes = b64decode(&signed.signature);
    assert_eq!(sig_bytes.len(), 64);

    let verdict = svc
        .verify_message(VerifyMessageRequest {
            message: "hello".to_owned(),
            signature: bs58::encode(&sig_bytes).into_string(),
            pubkey: kp.pubkey.clone(),
        })
        .expect("well-formed fields verify");
    assert!(verdict.valid);
    assert_eq!(verdict.message, "hello");
    assert_eq!(verdict.pubkey, kp.pubkey);
}

#[test]
fn tampered_signature_is_false_not_error() {
    let svc = service();
    let kp = svc.generate_keypair();
    let signed = svc
        .sign_message(SignMessageRequest {
            message: "hello".to_owned(),
            secret: kp.secret.clone(),
        })
        .expect("valid secret signs");
    let mut sig_bytes = b64decode(&signed.signature);
    sig_bytes[0] ^= 0x01;
    let verdict = svc
        .verify_message(VerifyMessageRequest {
            message: "hello".to_owned(),
            signature: bs58::encode(&sig_bytes).into_string(),
            pubkey: kp.pubkey.clone(),
        })
        .expect("well-formed fields verify");
    assert!(!verdict.valid);
}

#[test]
fn wrong_private_key_verifies_false() {
    let svc = service();
    let kp_right = svc.generate_keypair();
    let kp_wrong = svc.generate_keypair();
    let signed = svc
        .sign_message(SignMessageRequest {
            message: "payload".to_owned(),
            secret: kp_wrong.secret,
        })
        .expect("valid secret signs");
    let sig_bytes = b64decode(&signed.signature);
    let verdict = svc
        .verify_message(VerifyMessageRequest {
            message: "payload".to_owned(),
            signature: bs58::encode(&sig_bytes).into_string(),
            pubkey: kp_right.pubkey,
        })
        .expect("well-formed fields verify");
    assert!(!verdict.valid);
}

#[test]
fn sign_message_determinism_matches_sdk() {
    let sdk_kp = solana_sdk::signature::Keypair::new();
    let secret = bs58::encode(&sdk_kp.to_bytes()).into_string();
    let signed = service()
        .sign_message(SignMessageRequest {
            message: "abc".to_owned(),
            secret,
        })
        .expect("valid secret signs");
    let sdk_sig = sdk_kp.sign_message("abc".as_bytes());
    assert_eq!(b64decode(&signed.signature), sdk_sig.as_ref().to_vec());
    assert_eq!(signed.public_key, sdk_kp.pubkey().to_string());
}

#[test]
fn malformed_secret_is_keypair_error() {
    let svc = service();
    let err = svc
        .sign_message(SignMessageRequest {
            message: "hello".to_owned(),
            secret: "0O0O0O".to_owned(),
        })
        .err()
        .expect("invalid base58 must fail");
    assert!(matches!(err, AppError::Keypair(_)));
    assert_eq!(err.status_code(), 400);

    let short = bs58::encode(&[7u8; 12]).into_string();
    let err = svc
        .sign_message(SignMessageRequest {
            message: "hello".to_owned(),
            secret: short,
        })
        .err()
        .expect("short keys must fail");
    assert!(matches!(err, AppError::Keypair(_)));

    let mut bytes = [0u8; 64];
    bytes[0] = 1;
    let inconsistent = bs58::encode(&bytes).into_string();
    let err = svc
        .sign_message(SignMessageRequest {
            message: "hello".to_owned(),
            secret: inconsistent,
        })
        .err()
        .expect("inconsistent keypair must fail");
    assert!(matches!(err, AppError::Keypair(_)));
}

#[test]
fn malformed_addresses_are_invalid_input() {
    let svc = service();
    let err = svc
        .send_sol(&SendSolRequest {
            from: "not-base58-!!".to_owned(),
            to: addr(2),
            lamports: 5,
        })
        .err()
        .expect("malformed sender must fail");
    assert!(matches!(err, AppError::InvalidInput(_)));
    assert_eq!(err.status_code(), 400);

    let short = bs58::encode(&[1u8; 8]).into_string();
    let err = svc
        .verify_message(VerifyMessageRequest {
            message: "m".to_owned(),
            signature: bs58::encode(&[0u8; 64]).into_string(),
            pubkey: short,
        })
        .err()
        .expect("short pubkey must fail");
    assert!(matches!(err, AppError::InvalidInput(_)));

    let err = svc
        .verify_message(VerifyMessageRequest {
            message: "m".to_owned(),
            signature: bs58::encode(&[0u8; 63]).into_string(),
            pubkey: addr(1),
        })
        .err()
        .expect("short signature must fail");
    assert!(matches!(err, AppError::InvalidInput(_)));
}

#[test]
fn send_sol_matches_sdk_layout() {
    let from_bytes = [3u8; 32];
    let to_bytes = [4u8; 32];
    let resp = service()
        .send_sol(&SendSolRequest {
            from: bs58::encode(&from_bytes).into_string(),
            to: bs58::encode(&to_bytes).into_string(),
            lamports: 1000,
        })
        .expect("valid addresses build");

    assert_eq!(resp.program_id, solana_sdk::system_program::id().to_string());
    assert_eq!(resp.accounts.len(), 2);
    assert_eq!(resp.accounts[0].pubkey, bs58::encode(&from_bytes).into_string());
    assert!(resp.accounts[0].is_signer && resp.accounts[0].is_writable);
    assert_eq!(resp.accounts[1].pubkey, bs58::encode(&to_bytes).into_string());
    assert!(!resp.accounts[1].is_signer && resp.accounts[1].is_writable);

    let sdk_ix = solana_sdk::system_instruction::transfer(
        &solana_sdk::pubkey::Pubkey::from(from_bytes),
        &solana_sdk::pubkey::Pubkey::from(to_bytes),
        1000,
    );
    assert_eq!(b64decode(&resp.instruction_data), sdk_ix.data);
}

#[test]
fn create_token_matches_sdk_layout() {
    let authority_bytes = [5u8; 32];
    let mint_bytes = [6u8; 32];
    let rent: u64 = 1_461_600;
    let resp = service()
        .create_token(
            &CreateTokenRequest {
                mint_authority: bs58::encode(&authority_bytes).into_string(),
                mint: bs58::encode(&mint_bytes).into_string(),
                decimals: 9,
            },
            rent,
        )
        .expect("valid addresses build");

    assert_eq!(
        resp.program_id,
        "TokenkegQfeZyiNwAJbNbGKPFXCWuBvf9Ss623VQ5DA"
    );
    assert_eq!(resp.accounts.len(), 2);
    assert!(resp.accounts[0].is_signer && resp.accounts[0].is_writable);
    assert!(resp.accounts[1].is_signer && resp.accounts[1].is_writable);
    assert_eq!(resp.accounts[0].pubkey, bs58::encode(&authority_bytes).into_string());
    assert_eq!(resp.accounts[1].pubkey, bs58::encode(&mint_bytes).into_string());

    let token_program: solana_sdk::pubkey::Pubkey =
        "TokenkegQfeZyiNwAJbNbGKPFXCWuBvf9Ss623VQ5DA".parse().unwrap();
    let sdk_create = solana_sdk::system_instruction::create_account(
        &solana_sdk::pubkey::Pubkey::from(authority_bytes),
        &solana_sdk::pubkey::Pubkey::from(mint_bytes),
        rent,
        82,
        &token_program,
    );
    // Initialize-mint payload: tag 0, decimals, mint authority, then the
    // freeze authority (same key) behind a presence byte.
    let mut expected = sdk_create.data.clone();
    expected.push(0);
    expected.push(9);
    expected.extend_from_slice(&authority_bytes);
    expected.push(1);
    expected.extend_from_slice(&authority_bytes);
    assert_eq!(b64decode(&resp.instruction_data), expected);
}

#[test]
fn mint_token_layout_and_accounts() {
    let authority = [7u8; 32];
    let mint = [8u8; 32];
    let destination = [9u8; 32];
    let resp = service()
        .mint_token(&MintTokenRequest {
            mint: bs58::encode(&mint).into_string(),
            destination: bs58::encode(&destination).into_string(),
            authority: bs58::encode(&authority).into_string(),
            amount: 77,
        })
        .expect("valid addresses build");

    assert_eq!(
        resp.program_id,
        "TokenkegQfeZyiNwAJbNbGKPFXCWuBvf9Ss623VQ5DA"
    );
    assert_eq!(resp.accounts.len(), 3);
    assert!(resp.accounts[0].is_signer && !resp.accounts[0].is_writable);
    assert!(!resp.accounts[1].is_signer && resp.accounts[1].is_writable);
    assert!(!resp.accounts[2].is_signer && resp.accounts[2].is_writable);
    assert_eq!(resp.accounts[0].pubkey, bs58::encode(&authority).into_string());
    assert_eq!(resp.accounts[1].pubkey, bs58::encode(&mint).into_string());
    let expected_ata = spl_associated_token_account::get_associated_token_address(
        &solana_sdk::pubkey::Pubkey::from(destination),
        &solana_sdk::pubkey::Pubkey::from(mint),
    );
    assert_eq!(resp.accounts[2].pubkey, expected_ata.to_string());

    // Idempotent create-associated-account payload (its tag byte) then
    // mint-to: tag 7 and the amount in little-endian bytes.
    let token_program: solana_sdk::pubkey::Pubkey =
        "TokenkegQfeZyiNwAJbNbGKPFXCWuBvf9Ss623VQ5DA".parse().unwrap();
    let sdk_create_ata =
        spl_associated_token_account::instruction::create_associated_token_account_idempotent(
            &solana_sdk::pubkey::Pubkey::from(authority),
            &solana_sdk::pubkey::Pubkey::from(destination),
            &solana_sdk::pubkey::Pubkey::from(mint),
            &token_program,
        );
    let mut expected = sdk_create_ata.data.clone();
    expected.push(7);
    expected.extend_from_slice(&77u64.to_le_bytes());
    assert_eq!(b64decode(&resp.instruction_data), expected);
}

#[test]
fn send_token_layout_and_accounts() {
    let owner = [10u8; 32];
    let mint = [11u8; 32];
    let destination = [12u8; 32];
    let resp = service()
        .send_token(&SendTokenRequest {
            destination: bs58::encode(&destination).into_string(),
            mint: bs58::encode(&mint).into_string(),
            owner: bs58::encode(&owner).into_string(),
            amount: 500,
        })
        .expect("valid addresses build");

    assert_eq!(
        resp.program_id,
        "TokenkegQfeZyiNwAJbNbGKPFXCWuBvf9Ss623VQ5DA"
    );
    assert_eq!(resp.accounts.len(), 3);
    let owner_pk = solana_sdk::pubkey::Pubkey::from(owner);
    let mint_pk = solana_sdk::pubkey::Pubkey::from(mint);
    let dest_pk = solana_sdk::pubkey::Pubkey::from(destination);
    let owner_ata = spl_associated_token_account::get_associated_token_address(&owner_pk, &mint_pk);
    let dest_ata = spl_associated_token_account::get_associated_token_address(&dest_pk, &mint_pk);
    assert_eq!(resp.accounts[0].pubkey, owner_ata.to_string());
    assert!(!resp.accounts[0].is_signer && resp.accounts[0].is_writable);
    assert_eq!(resp.accounts[1].pubkey, dest_ata.to_string());
    assert!(!resp.accounts[1].is_signer && resp.accounts[1].is_writable);
    assert_eq!(resp.accounts[2].pubkey, bs58::encode(&owner).into_string());
    assert!(resp.accounts[2].is_signer && !resp.accounts[2].is_writable);

    let mut expected = vec![3u8];
    expected.extend_from_slice(&500u64.to_le_bytes());
    assert_eq!(b64decode(&resp.instruction_data), expected);
}

#[test]
fn create_token_validation_decides_before_rent() {
    let svc = service();
    let bad = CreateTokenRequest {
        mint_authority: "!!".to_owned(),
        mint: addr(6),
        decimals: 9,
    };
    let err = svc
        .create_token_from_rpc(&bad, Err("connection refused".to_owned()))
        .err()
        .expect("a malformed address must fail");
    assert!(matches!(err, AppError::InvalidInput(_)));
    assert_eq!(err.status_code(), 400);

    let good = CreateTokenRequest {
        mint_authority: addr(5),
        mint: addr(6),
        decimals: 9,
    };
    let err = svc
        .create_token_from_rpc(&good, Err("connection refused".to_owned()))
        .err()
        .expect("a failed rent query must surface");
    assert!(matches!(err, AppError::SolanaRpc(_)));
    assert_eq!(err.status_code(), 502);

    let built = svc
        .create_token_from_rpc(&good, Ok(1000))
        .expect("valid request and rent build");
    let direct = svc.create_token(&good, 1000).expect("valid request builds");
    assert_eq!(built.instruction_data, direct.instruction_data);
    assert_eq!(built.program_id, direct.program_id);
}

#[test]
fn balance_query_preparation() {
    let svc = service();
    let native = svc
        .prepare_balance_query(&BalanceRequest {
            address: addr(1),
            token_mint: None,
        })
        .expect("valid address prepares");
    assert!(matches!(native, BalanceQuery::Native { .. }));

    let token = svc
        .prepare_balance_query(&BalanceRequest {
            address: addr(1),
            token_mint: Some(addr(2)),
        })
        .expect("valid addresses prepare");
    let expected = spl_associated_token_account::get_associated_token_address(
        &solana_sdk::pubkey::Pubkey::from([1u8; 32]),
        &solana_sdk::pubkey::Pubkey::from([2u8; 32]),
    );
    match token {
        BalanceQuery::Token { token_account } => {
            assert_eq!(token_account.to_base58(), expected.to_string());
        }
        BalanceQuery::Native { .. } => panic!("token mint must select a token query"),
    }

    let err = svc
        .prepare_balance_query(&BalanceRequest {
            address: "##".to_owned(),
            token_mint: None,
        })
        .err()
        .expect("malformed address must fail");
    assert!(matches!(err, AppError::InvalidInput(_)));
}

#[test]
fn missing_token_account_is_gateway_error_not_zero() {
    let svc = service();
    let err = svc
        .token_balance_from_rpc(Err("AccountNotFound".to_owned()))
        .err()
        .expect("remote failure must surface");
    assert!(matches!(err, AppError::SolanaRpc(_)));
    assert_eq!(err.status_code(), 502);

    let ok = svc
        .token_balance_from_rpc(Ok(TokenAmount {
            amount: "2500".to_owned(),
            decimals: 6,
        }))
        .expect("reported balances pass through");
    assert_eq!(ok.balance, 2500);
    assert_eq!(ok.decimals, Some(6));

    let err = svc
        .token_balance_from_rpc(Ok(TokenAmount {
            amount: "not-a-number".to_owned(),
            decimals: 6,
        }))
        .err()
        .expect("a malformed amount is a remote failure, never a balance");
    assert!(matches!(err, AppError::SolanaRpc(_)));
    assert_eq!(err.status_code(), 502);

    let sol = svc
        .sol_balance_from_rpc(Ok(123_456))
        .expect("reported balances pass through");
    assert_eq!(sol.balance, 123_456);
    assert_eq!(sol.decimals, None);
}

#[test]
fn associated_account_derivation_is_pure() {
    let owner = Address::from_bytes(vec![21u8; 32]).unwrap();
    let mint = Address::from_bytes(vec![22u8; 32]).unwrap();
    let first = solana_http_service::instructions::derive_associated_account(&owner, &mint);
    let second = solana_http_service::instructions::derive_associated_account(&owner, &mint);
    assert_eq!(first.to_base58(), second.to_base58());
    let expected = spl_associated_token_account::get_associated_token_address(
        &solana_sdk::pubkey::Pubkey::from([21u8; 32]),
        &solana_sdk::pubkey::Pubkey::from([22u8; 32]),
    );
    assert_eq!(first.to_base58(), expected.to_string());
}
