use webwallet::address::Address;
use webwallet::chain_adapter::{ChainAdapter, SolanaAdapter};
use webwallet::json::{JsonNumber, JsonValue};
use webwallet::secret::SecretBytes;
use webwallet::solana_balance::SolanaBalance;
use webwallet::solana_rpc::{build_get_balance_request, parse_get_balance_response};
use webwallet::solana_signer::{sign_message, SolanaSignature, SolanaSigningError};
use webwallet::solana_transaction::{SolanaTransfer, SolanaTransferError};
use webwallet::solana_wallet::{
    generate_solana_wallet, wallet_from_secret_key, SolanaPublicAddress, SolanaSecretKey,
};

fn hex_bytes<const N: usize>(text: &str) -> [u8; N] {
    let mut out = [0u8; N];
    for (i, byte) in out.iter_mut().enumerate() {
        *byte = u8::from_str_radix(&text[2 * i..2 * i + 2], 16).expect("hex digit pair");
    }
    out
}

fn rfc8032_secret() -> [u8; 32] {
    hex_bytes("9d61b19deffd5a60ba844af492ec2cc44449c5697b326919703bac031cae7f60")
}

fn test_recipient() -> SolanaPublicAddress {
    SolanaPublicAddress::new(Address::new("11111111111111111111111111111111".to_string()))
}

fn text(value: &str) -> String {
    value.to_string()
}

#[test]
fn stores_lamports() {
    let balance = SolanaBalance::new(500);

    assert_eq!(balance.lamports(), 500);
}

#[test]
fn lamports_per_sol_is_one_billion() {
    assert_eq!(SolanaBalance::LAMPORTS_PER_SOL, 1_000_000_000);
}

#[test]
fn solana_secret_key_reports_length() {
    let secret = SolanaSecretKey::new(SecretBytes::new(vec![1, 2, 3, 4]));

    assert_eq!(secret.len(), 4);
}

#[test]
fn solana_secret_key_debug_output_is_redacted() {
    let secret = SolanaSecretKey::new(SecretBytes::new(vec![1, 2, 3, 4]));
    let debug_output = secret.debug_string();

    assert_eq!(debug_output, "SolanaSecretKey(<redacted>)");
    assert!(!debug_output.contains("1"));
    assert!(!debug_output.contains("2"));
    assert!(!debug_output.contains("3"));
    assert!(!debug_output.contains("4"));
    assert!(debug_output.contains("redacted"));
}

#[test]
fn solana_secret_key_exposes_bytes_for_internal_use() {
    let secret = SolanaSecretKey::new(SecretBytes::new(vec![1, 2, 3, 4]));

    assert_eq!(secret.as_bytes(), &[1, 2, 3, 4]);
    assert_eq!(secret.expose_secret_bytes_for_signing_only(), &[1, 2, 3, 4]);
}

#[test]
fn solana_public_address_exposes_string() {
    let address =
        SolanaPublicAddress::new(Address::new("11111111111111111111111111111111".to_string()));

    assert_eq!(address.as_str(), "11111111111111111111111111111111");
}

#[test]
fn solana_public_address_debug_output_is_allowed() {
    let address =
        SolanaPublicAddress::new(Address::new("11111111111111111111111111111111".to_string()));

    let debug_output = format!("{address:?}");

    assert!(debug_output.contains("11111111111111111111111111111111"));
}

#[test]
fn generated_solana_wallet_has_public_address() {
    let wallet = generate_solana_wallet().expect("random source should be available");

    assert!(!wallet.public_address().as_str().is_empty());
}

#[test]
fn generated_solana_wallet_has_32_byte_secret_key() {
    let wallet = generate_solana_wallet().expect("random source should be available");

    assert_eq!(wallet.secret_key().len(), 32);
}

#[test]
fn generated_solana_wallet_public_address_is_valid_for_solana_adapter() {
    let wallet = generate_solana_wallet().expect("random source should be available");
    let adapter = SolanaAdapter;
    let address = Address::new(wallet.public_address().as_str().to_string());

    assert!(adapter.is_valid_address(&address));
}

#[test]
fn generated_solana_wallet_debug_output_redacts_secret() {
    let wallet = generate_solana_wallet().expect("random source should be available");
    let debug_output = wallet.debug_string();

    assert!(debug_output.contains("GeneratedSolanaWallet"));
    assert!(debug_output.contains("public_address"));
    assert!(debug_output.contains("redacted"));
    assert!(!debug_output.contains("secret_key: SolanaSecretKey"));
}

#[test]
fn wallet_from_known_secret_key_has_known_address() {
    let wallet = wallet_from_secret_key(rfc8032_secret());

    assert_eq!(wallet.public_address().as_str(), "FVen3X669xLzsi6N2V91DoiyzHzg1uAgqiT8jZ9nS96Z");
    assert_eq!(wallet.secret_key().as_bytes(), &rfc8032_secret());
}

#[test]
fn wallet_from_zero_secret_key_is_valid_for_solana_adapter() {
    let wallet = wallet_from_secret_key([0u8; 32]);
    let address = Address::new(wallet.public_address().as_str().to_string());

    assert!(SolanaAdapter.is_valid_address(&address));
}

#[test]
fn generated_wallet_debug_string_shows_address() {
    let wallet = wallet_from_secret_key(rfc8032_secret());

    assert_eq!(
        wallet.debug_string(),
        "GeneratedSolanaWallet { public_address: SolanaPublicAddress { address: Address(\"FVen3X669xLzsi6N2V91DoiyzHzg1uAgqiT8jZ9nS96Z\") }, secret_key: \"<redacted>\" }"
    );
}

#[test]
fn signing_message_returns_64_byte_signature() {
    let wallet = generate_solana_wallet().expect("random source should be available");
    let signature = sign_message(&wallet, b"hello").expect("message should sign");

    assert_eq!(signature.as_bytes().len(), 64);
}

#[test]
fn signature_debug_output_does_not_include_secret_words() {
    let wallet = generate_solana_wallet().expect("random source should be available");
    let signature = sign_message(&wallet, b"hello").expect("message should sign");
    let debug_output = signature.debug_string();

    assert!(debug_output.contains("SolanaSignature"));
    assert!(!debug_output.contains("secret"));
    assert!(!debug_output.contains("private"));
    assert!(!debug_output.contains("mnemonic"));
    assert!(!debug_output.contains("password"));
}

#[test]
fn signing_does_not_modify_wallet_public_address() {
    let wallet = generate_solana_wallet().expect("random source should be available");
    let before = wallet.public_address().as_str().to_string();

    let _signature = sign_message(&wallet, b"hello").expect("message should sign");

    assert_eq!(wallet.public_address().as_str(), before);
}

#[test]
fn signing_matches_rfc8032_test_vector() {
    let wallet = wallet_from_secret_key(rfc8032_secret());
    let signature = sign_message(&wallet, b"").expect("message should sign");
    let expected: [u8; 64] = hex_bytes(
        "e5564300c360ac729086e2cc806e828a84877f1eb8e5d974d873e065224901555fb8821590a33bacc61e39701cf9b46bd25bf5f0595bbe24655141438e7a100b",
    );

    assert!(signature == SolanaSignature::new(expected));
    assert_eq!(signature.as_bytes(), &expected);
}

#[test]
fn signing_is_deterministic() {
    let wallet = generate_solana_wallet().expect("random source should be available");
    let first = sign_message(&wallet, b"message").expect("message should sign");
    let second = sign_message(&wallet, b"message").expect("message should sign");

    assert_eq!(first.as_bytes(), second.as_bytes());
}

#[test]
fn signature_exposes_its_bytes() {
    let signature = SolanaSignature::new([9u8; 64]);

    assert_eq!(signature.as_bytes(), &[9u8; 64]);
    assert_eq!(signature.debug_string(), "SolanaSignature(<64 bytes>)");
}

#[test]
fn signing_error_for_short_secret_key() {
    assert_eq!(SolanaSigningError::InvalidSecretKeyLength, SolanaSigningError::InvalidSecretKeyLength);
}

#[test]
fn solana_transfer_exposes_recipient() {
    let recipient = test_recipient();
    let transfer = SolanaTransfer::new(recipient.clone(), 1_000_000);

    assert_eq!(transfer.recipient(), &recipient);
}

#[test]
fn solana_transfer_exposes_lamports() {
    let transfer = SolanaTransfer::new(test_recipient(), 1_000_000);

    assert_eq!(transfer.lamports(), 1_000_000);
}

#[test]
fn solana_transfer_debug_output_does_not_include_secret_words() {
    let transfer = SolanaTransfer::new(test_recipient(), 1_000_000);
    let debug_output = format!("{transfer:?}");

    assert!(debug_output.contains("SolanaTransfer"));
    assert!(debug_output.contains("recipient"));
    assert!(debug_output.contains("lamports"));
    assert!(!debug_output.contains("secret"));
    assert!(!debug_output.contains("private"));
    assert!(!debug_output.contains("mnemonic"));
    assert!(!debug_output.contains("password"));
}

#[test]
fn transfer_error_messages_are_clear() {
    assert_eq!(
        SolanaTransferError::BlankRecipient.message(),
        "Recipient address cannot be blank"
    );

    assert_eq!(
        SolanaTransferError::ZeroLamports.message(),
        "Transfer amount must be greater than zero"
    );
}

#[test]
fn valid_transfer_passes_validation() {
    let transfer = SolanaTransfer::new(test_recipient(), 1_000_000);

    assert_eq!(transfer.validate(), Ok(()));
}

#[test]
fn transfer_rejects_blank_recipient() {
    let recipient = SolanaPublicAddress::new(Address::new("".to_string()));
    let transfer = SolanaTransfer::new(recipient, 1_000_000);

    assert_eq!(transfer.validate(), Err(SolanaTransferError::BlankRecipient));
}

#[test]
fn transfer_rejects_zero_lamports() {
    let transfer = SolanaTransfer::new(test_recipient(), 0);

    assert_eq!(transfer.validate(), Err(SolanaTransferError::ZeroLamports));
}

#[test]
fn blank_recipient_is_reported_before_zero_amount() {
    let recipient = SolanaPublicAddress::new(Address::new(" \n".to_string()));
    let transfer = SolanaTransfer::new(recipient, 0);

    assert_eq!(transfer.validate(), Err(SolanaTransferError::BlankRecipient));
}

#[test]
fn builds_get_balance_request_json() {
    let address =
        SolanaPublicAddress::new(Address::new("11111111111111111111111111111111".to_string()));

    let request = build_get_balance_request(&address);

    let JsonValue::Object(members) = &request else { panic!("request should be an object") };
    let field = |key: &str| request.get(key).unwrap_or_else(|| panic!("missing {key}"));
    assert_eq!(members.len(), 4);
    assert!(matches!(field("jsonrpc"), JsonValue::String(v) if v == "2.0"));
    assert!(matches!(field("id"), JsonValue::Number(JsonNumber::Unsigned(1))));
    assert!(matches!(field("method"), JsonValue::String(v) if v == "getBalance"));
    let JsonValue::Array(params) = field("params") else { panic!("params should be an array") };
    assert!(matches!(&params[0], JsonValue::String(v) if v == address.as_str()));
}

fn balance_response(result: JsonValue) -> JsonValue {
    JsonValue::Object(vec![
        (text("jsonrpc"), JsonValue::String(text("2.0"))),
        (text("result"), result),
        (text("id"), JsonValue::Number(JsonNumber::Unsigned(1))),
    ])
}

#[test]
fn parses_get_balance_response_json() {
    let response = balance_response(JsonValue::Object(vec![
        (
            text("context"),
            JsonValue::Object(vec![(text("slot"), JsonValue::Number(JsonNumber::Unsigned(1)))]),
        ),
        (text("value"), JsonValue::Number(JsonNumber::Unsigned(5_000_000_000u64))),
    ]));

    let balance =
        parse_get_balance_response(&response).expect("response should include balance");

    assert_eq!(balance.lamports(), 5_000_000_000);
    assert_eq!(balance.lamports(), 5 * SolanaBalance::LAMPORTS_PER_SOL);
}

#[test]
fn returns_none_when_balance_value_is_missing() {
    let response = balance_response(JsonValue::Object(vec![(
        text("context"),
        JsonValue::Object(vec![(text("slot"), JsonValue::Number(JsonNumber::Unsigned(1)))]),
    )]));

    assert_eq!(parse_get_balance_response(&response), None);
}

#[test]
fn returns_none_when_response_contains_error() {
    let response = JsonValue::Object(vec![
        (text("jsonrpc"), JsonValue::String(text("2.0"))),
        (
            text("error"),
            JsonValue::Object(vec![
                (text("code"), JsonValue::Number(JsonNumber::Negative(-32602))),
                (text("message"), JsonValue::String(text("Invalid params"))),
            ]),
        ),
        (text("id"), JsonValue::Number(JsonNumber::Unsigned(1))),
    ]);

    assert_eq!(parse_get_balance_response(&response), None);
}

#[test]
fn returns_none_when_balance_is_not_an_unsigned_integer() {
    let negative = balance_response(JsonValue::Object(vec![(
        text("value"),
        JsonValue::Number(JsonNumber::Negative(-5)),
    )]));
    let fractional = balance_response(JsonValue::Object(vec![(
        text("value"),
        JsonValue::Number(JsonNumber::Float(text("1.5"))),
    )]));
    let textual = balance_response(JsonValue::Object(vec![(
        text("value"),
        JsonValue::String(text("500")),
    )]));

    assert_eq!(parse_get_balance_response(&negative), None);
    assert_eq!(parse_get_balance_response(&fractional), None);
    assert_eq!(parse_get_balance_response(&textual), None);
}

#[test]
fn json_lookup_takes_first_member_with_key() {
    let object = JsonValue::Object(vec![
        (text("value"), JsonValue::Number(JsonNumber::Unsigned(1))),
        (text("value"), JsonValue::Number(JsonNumber::Unsigned(2))),
    ]);

    assert_eq!(object.get("value").and_then(|v| v.as_u64()), Some(1));
    assert!(object.get("missing").is_none());
    assert!(JsonValue::Null.get("value").is_none());
}

#[test]
fn wallet_debug_output_quotes_the_address_and_hides_the_key() {
    let wallet = wallet_from_secret_key(rfc8032_secret());

    assert_eq!(
        wallet.debug_string(),
        "GeneratedSolanaWallet { public_address: SolanaPublicAddress { address: Address(\"FVen3X669xLzsi6N2V91DoiyzHzg1uAgqiT8jZ9nS96Z\") }, secret_key: \"<redacted>\" }"
    );
    assert!(!wallet.debug_string().contains("secret_key: SolanaSecretKey"));
}
