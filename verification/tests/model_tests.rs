use vault_core::bitcoin_net::to_bitcoin_network;
use vault_core::boundary::error_envelope;
use vault_core::boundary::init_status;
use vault_core::boundary::json_escape;
use vault_core::boundary::release_string;
use vault_core::boundary::version;
use vault_core::decimal::i32_to_decimal;
use vault_core::decimal::u64_to_decimal;
use vault_core::CoreError;
use vault_core::NetworkSelector;
use vault_core::RecoveryType;
use vault_core::VaultTemplate;

#[test]
fn test_vault_template_delay_blocks() {
    assert_eq!(VaultTemplate::savings().delay_blocks(), 1008);
    assert_eq!(VaultTemplate::spending().delay_blocks(), 144);
}

#[test]
fn template_ids_are_stable() {
    assert_eq!(VaultTemplate::savings().template_id(), "savings_v1");
    assert_eq!(VaultTemplate::spending().template_id(), "spending_v1");
    let custom = VaultTemplate::Custom {
        delay_blocks: 4032,
        recovery_type: RecoveryType::MultiSig,
    };
    assert_eq!(custom.template_id(), "custom_v1");
    assert_eq!(custom.delay_blocks(), 4032);
}

#[test]
fn test_network_conversion() {
    assert_eq!(
        bitcoin::Network::Bitcoin,
        to_bitcoin_network(&NetworkSelector::Mainnet)
    );
    assert_eq!(
        bitcoin::Network::Testnet,
        to_bitcoin_network(&NetworkSelector::Testnet)
    );
    assert_eq!(
        bitcoin::Network::Signet,
        to_bitcoin_network(&NetworkSelector::Signet)
    );
    assert_eq!(
        bitcoin::Network::Regtest,
        to_bitcoin_network(&NetworkSelector::Regtest)
    );
}

#[test]
fn network_from_code_accepts_exactly_the_four_codes() {
    assert!(matches!(
        NetworkSelector::from_code(0),
        Ok(NetworkSelector::Mainnet)
    ));
    assert!(matches!(
        NetworkSelector::from_code(1),
        Ok(NetworkSelector::Testnet)
    ));
    assert!(matches!(
        NetworkSelector::from_code(2),
        Ok(NetworkSelector::Signet)
    ));
    assert!(matches!(
        NetworkSelector::from_code(3),
        Ok(NetworkSelector::Regtest)
    ));
    for code in [-1, 4, 999, i32::MIN, i32::MAX] {
        match NetworkSelector::from_code(code) {
            Err(CoreError::InvalidInput(s)) => {
                assert_eq!(s, format!("Invalid network value: {}", code));
            }
            other => panic!("code {} was not rejected: {:?}", code, other),
        }
    }
}

#[test]
fn network_codes_roundtrip() {
    let all = [
        NetworkSelector::Mainnet,
        NetworkSelector::Testnet,
        NetworkSelector::Signet,
        NetworkSelector::Regtest,
    ];
    for n in all {
        assert_eq!(NetworkSelector::from_code(n.code()).unwrap(), n);
    }
}

#[test]
fn error_codes_are_pinned() {
    assert_eq!(CoreError::InvalidXpub(String::new()).code(), 1001);
    assert_eq!(CoreError::InvalidAddress(String::new()).code(), 1002);
    assert_eq!(
        CoreError::NetworkMismatch {
            expected: "mainnet".to_string(),
            actual: "testnet".to_string(),
        }
        .code(),
        1003
    );
    assert_eq!(CoreError::PsbtError(String::new()).code(), 2001);
    assert_eq!(
        CoreError::InsufficientFunds {
            needed: 0,
            available: 0,
        }
        .code(),
        2002
    );
    assert_eq!(CoreError::PolicyViolation(String::new()).code(), 2003);
    assert_eq!(CoreError::DerivationError(String::new()).code(), 3001);
    assert_eq!(CoreError::MetadataError(String::new()).code(), 3002);
    assert_eq!(CoreError::SerializationError(String::new()).code(), 4001);
    assert_eq!(CoreError::InvalidInput(String::new()).code(), 4002);
}

#[test]
fn error_messages_embed_their_data() {
    let err = CoreError::InsufficientFunds {
        needed: 5000,
        available: 1200,
    };
    assert_eq!(
        err.message(),
        "Insufficient funds: need 5000 sats, have 1200 sats"
    );
    let err = CoreError::NetworkMismatch {
        expected: "mainnet".to_string(),
        actual: "signet".to_string(),
    };
    assert_eq!(err.message(), "Invalid network: expected mainnet, got signet");
    let err = CoreError::InvalidXpub("xpub661no".to_string());
    assert_eq!(err.message(), "Invalid xpub format: xpub661no");
}

#[test]
fn decimal_rendering_is_exact() {
    assert_eq!(u64_to_decimal(0), "0");
    assert_eq!(u64_to_decimal(9), "9");
    assert_eq!(u64_to_decimal(10), "10");
    assert_eq!(u64_to_decimal(1008), "1008");
    assert_eq!(u64_to_decimal(u64::MAX), "18446744073709551615");
    assert_eq!(i32_to_decimal(0), "0");
    assert_eq!(i32_to_decimal(-1), "-1");
    assert_eq!(i32_to_decimal(-42), "-42");
    assert_eq!(i32_to_decimal(i32::MIN), "-2147483648");
    assert_eq!(i32_to_decimal(i32::MAX), "2147483647");
}

#[test]
fn error_envelope_is_exact() {
    let err = CoreError::InvalidXpub("bad".to_string());
    assert_eq!(
        error_envelope(&err),
        "{\"error\":true,\"code\":1001,\"message\":\"Invalid xpub format: bad\"}"
    );
    let err = CoreError::MetadataError("Empty metadata bytes".to_string());
    assert_eq!(
        error_envelope(&err),
        "{\"error\":true,\"code\":3002,\"message\":\"Invalid metadata encoding: Empty metadata bytes\"}"
    );
}

#[test]
fn json_escaping_matches_serde_json() {
    let tricky = [
        "plain",
        "say \"no\"",
        "back\\slash",
        "line\nbreak\ttab\rret",
        "ctl\u{01}\u{08}\u{0C}\u{1F}end",
        "unicode \u{00FC}\u{03C0} stays",
        "",
    ];
    for s in tricky {
        let quoted = serde_json::to_string(s).unwrap();
        assert_eq!(format!("\"{}\"", json_escape(s)), quoted, "escaping {:?}", s);
    }
}

#[test]
fn error_envelope_parses_as_json() {
    let err = CoreError::PolicyViolation("limit \"daily\"\nexceeded".to_string());
    let envelope = error_envelope(&err);
    let value: serde_json::Value = serde_json::from_str(&envelope).unwrap();
    assert_eq!(value["error"], serde_json::Value::Bool(true));
    assert_eq!(value["code"], serde_json::Value::from(2003));
    assert_eq!(
        value["message"],
        serde_json::Value::from("Policy violation: limit \"daily\"\nexceeded")
    );
}

#[test]
fn test_vault_init_valid_networks() {
    assert_eq!(init_status(0), 0);
    assert_eq!(init_status(1), 0);
    assert_eq!(init_status(2), 0);
    assert_eq!(init_status(3), 0);
}

#[test]
fn test_vault_init_invalid_network() {
    assert_eq!(init_status(4), -1);
    assert_eq!(init_status(-1), -1);
    assert_eq!(init_status(999), -1);
}

#[test]
fn test_vault_version() {
    let v = version();
    assert!(v.contains('.'));
    assert_eq!(v, "0.1.0");
}

#[test]
fn null_handle_release_is_a_noop() {
    release_string(None);
    release_string(Some("owned".to_string()));
}
