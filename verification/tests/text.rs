use hello_contract::context::CallContext;
use hello_contract::decimal::u128_to_decimal;
use hello_contract::state::Hello;
use hello_contract::text::{data_set_event, donation_ack, donation_event, greeting};

#[test]
fn test_hello_exact_text() {
    let context = CallContext {
        signer: "bob".to_string(),
        predecessor: "bob".to_string(),
        attached_deposit: 0,
        block_timestamp: 1,
    };
    let contract = Hello::new(None, &context);
    let result = contract.hello("World".to_string());
    assert_eq!(result, "Hello, World! This is Hello contract.");
    assert!(result.contains("Hello, World!"));
}

#[test]
fn test_greeting_empty_name() {
    assert_eq!(greeting(""), "Hello, ! This is Hello contract.");
}

#[test]
fn test_data_set_event_line() {
    assert_eq!(
        data_set_event("test_key", "test_value"),
        "DATA_SET: {\"key\": \"test_key\", \"value\": \"test_value\"}"
    );
}

#[test]
fn test_set_data_returns_event_line() {
    let context = CallContext {
        signer: "alice".to_string(),
        predecessor: "alice".to_string(),
        attached_deposit: 0,
        block_timestamp: 1,
    };
    let mut contract = Hello::new(None, &context);
    let log = contract.set_data(&context, "k".to_string(), "v".to_string()).unwrap();
    assert_eq!(log, "DATA_SET: {\"key\": \"k\", \"value\": \"v\"}");
}

#[test]
fn test_event_interpolation_is_verbatim() {
    // Embedded quotes and braces are not escaped; the line is then not
    // well-formed JSON, and that is the documented behavior.
    assert_eq!(
        data_set_event("a\"b", "c}d"),
        "DATA_SET: {\"key\": \"a\"b\", \"value\": \"c}d\"}"
    );
}

#[test]
fn test_donation_event_line() {
    assert_eq!(
        donation_event("bob", 0),
        "DONATION: {\"donor\": \"bob\", \"amount\": \"0\"}"
    );
    assert_eq!(
        donation_event("alice", 1_000_000),
        "DONATION: {\"donor\": \"alice\", \"amount\": \"1000000\"}"
    );
}

#[test]
fn test_donation_ack_text() {
    assert_eq!(donation_ack("alice", 12345), "Thank you alice for donating 12345 yoctoNEAR!");
    assert_eq!(donation_ack("bob", 0), "Thank you bob for donating 0 yoctoNEAR!");
}

#[test]
fn test_decimal_rendering() {
    assert_eq!(u128_to_decimal(0), "0");
    assert_eq!(u128_to_decimal(7), "7");
    assert_eq!(u128_to_decimal(10), "10");
    assert_eq!(u128_to_decimal(120), "120");
    assert_eq!(u128_to_decimal(9_876_543_210), "9876543210");
    assert_eq!(
        u128_to_decimal(u128::MAX),
        "340282366920938463463374607431768211455"
    );
}
