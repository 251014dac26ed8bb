use solana_http_service::codec::Address;
use solana_http_service::config::{CommitmentLevel, Config};
use solana_http_service::error::AppError;
use solana_http_service::models::ApiResponse;
use solana_http_service::services::SolanaService;
use solana_http_service::utils::{
    address_round_trip, keypair_from_base58, parse_pubkey, parse_signature, parse_u64,
};

#[test]
fn address_decode_encode_round_trips() {
    for byte in [0u8, 1, 77, 255] {
        let bytes = vec![byte; 32];
        let a = Address::from_bytes(bytes.clone()).unwrap();
        let text = a.to_base58();
        let decoded = parse_pubkey(&text).expect("every 32-byte value decodes");
        assert_eq!(decoded.to_base58(), text);
        assert_eq!(decoded.as_slice(), bytes.as_slice());
        let again = address_round_trip(&a);
        assert_eq!(again.as_slice(), bytes.as_slice());
    }
}

#[test]
fn parse_pubkey_rejects_malformed_text() {
    assert!(matches!(
        parse_pubkey("l0l"),
        Err(AppError::InvalidInput(_))
    ));
    let short = bs58::encode(&[1u8; 31]).into_string();
    assert!(matches!(
        parse_pubkey(&short),
        Err(AppError::InvalidInput(_))
    ));
    let long = bs58::encode(&[1u8; 33]).into_string();
    assert!(matches!(
        parse_pubkey(&long),
        Err(AppError::InvalidInput(_))
    ));
}

#[test]
fn parse_signature_accepts_exactly_64_bytes() {
    let good = bs58::encode(&[9u8; 64]).into_string();
    let sig = parse_signature(&good).expect("64-byte signatures decode");
    assert_eq!(sig.as_slice(), &[9u8; 64]);
    let short = bs58::encode(&[9u8; 63]).into_string();
    assert!(matches!(
        parse_signature(&short),
        Err(AppError::InvalidInput(_))
    ));
    assert!(matches!(
        parse_signature("!!"),
        Err(AppError::InvalidInput(_))
    ));
}

#[test]
fn keypair_from_base58_checks_consistency() {
    let kp = solana_sdk::signature::Keypair::new();
    let text = bs58::encode(&kp.to_bytes()).into_string();
    let parsed = keypair_from_base58(&text).expect("a real keypair parses");
    assert_eq!(parsed.as_slice(), kp.to_bytes().as_slice());

    assert!(matches!(
        keypair_from_base58("####"),
        Err(AppError::Keypair(_))
    ));
    let zeros = bs58::encode(&[0u8; 64]).into_string();
    assert!(matches!(
        keypair_from_base58(&zeros),
        Err(AppError::Keypair(_))
    ));
}

#[test]
fn decimal_parse_matches_std() {
    for text in [
        "0",
        "123",
        "+42",
        "",
        "+",
        "abc",
        "12x",
        " 1",
        "18446744073709551615",
        "18446744073709551616",
        "99999999999999999999999",
        "000123",
    ] {
        let expected = text.parse::<u64>().ok();
        assert_eq!(parse_u64(text), expected, "input {:?}", text);
    }
}

#[test]
fn commitment_levels_parse_with_default() {
    let mk = |level: &str| {
        SolanaService::new(Config {
            rpc_url: "http://localhost:8899".to_owned(),
            commitment: level.to_owned(),
            timeout_seconds: 30,
        })
        .unwrap_or_else(|_| panic!("service construction never fails"))
    };
    assert!(matches!(mk("processed").commitment, CommitmentLevel::Processed));
    assert!(matches!(mk("finalized").commitment, CommitmentLevel::Finalized));
    assert!(matches!(mk("confirmed").commitment, CommitmentLevel::Confirmed));
    assert!(matches!(mk("anything-else").commitment, CommitmentLevel::Confirmed));
}

#[test]
fn envelope_shape() {
    let ok: ApiResponse<u64> = ApiResponse::success(7);
    assert!(ok.success);
    assert_eq!(ok.data, Some(7));
    assert!(ok.error.is_none());

    let bad: ApiResponse<u64> = ApiResponse::error("boom".to_owned());
    assert!(!bad.success);
    assert!(bad.data.is_none());
    assert_eq!(bad.error.as_deref(), Some("boom"));
}

#[test]
fn error_status_codes_follow_taxonomy() {
    assert_eq!(AppError::InvalidInput("x".to_owned()).status_code(), 400);
    assert_eq!(AppError::Keypair("x".to_owned()).status_code(), 400);
    assert_eq!(AppError::Transaction("x".to_owned()).status_code(), 400);
    assert_eq!(AppError::JsonError("x".to_owned()).status_code(), 400);
    assert_eq!(AppError::SolanaRpc("x".to_owned()).status_code(), 502);
    assert_eq!(AppError::Internal("x".to_owned()).status_code(), 500);
    let e = AppError::InvalidInput("bad field".to_owned());
    assert_eq!(e.kind_text(), "Invalid input");
    assert_eq!(e.detail().as_str(), "bad field");
}

#[test]
fn program_id_text_matches_chain_constants() {
    let token = solana_http_service::instructions::token_program_id();
    assert_eq!(token.to_base58(), "TokenkegQfeZyiNwAJbNbGKPFXCWuBvf9Ss623VQ5DA");
    let system = solana_http_service::instructions::system_program_id();
    assert_eq!(system.to_base58(), solana_sdk::system_program::id().to_string());
}
