use hello_contract::context::CallContext;
use hello_contract::error::ContractError;
use hello_contract::instance::ContractInstance;
use hello_contract::state::Hello;

fn ctx(who: &str) -> CallContext {
    CallContext {
        signer: who.to_string(),
        predecessor: who.to_string(),
        attached_deposit: 0,
        block_timestamp: 1_600_000_000_000_000_000,
    }
}

#[test]
fn test_new() {
    let contract = Hello::new(None, &ctx("bob"));
    assert_eq!(contract.get_owner(), "bob");
}

#[test]
fn test_hello() {
    let contract = Hello::new(None, &ctx("bob"));
    let result = contract.hello("World".to_string());
    assert!(result.contains("Hello, World!"));
}

#[test]
fn test_set_and_get_data() {
    let context = ctx("bob");
    let mut contract = Hello::new(None, &context);

    let set = contract.set_data(&context, "test_key".to_string(), "test_value".to_string());
    assert!(set.is_ok());
    let result = contract.get_data("test_key".to_string());
    assert_eq!(result, Some("test_value".to_string()));
}

#[test]
fn test_new_explicit_owner_in_state_and_metadata() {
    let contract = Hello::new(Some("alice".to_string()), &ctx("bob"));
    assert_eq!(contract.get_owner(), "alice");
    let metadata = contract.get_metadata();
    assert_eq!(metadata.owner, "alice");
    assert_eq!(metadata.version, "1.0.0");
    assert_eq!(metadata.created_at, 1_600_000_000_000_000_000);
}

#[test]
fn test_new_default_owner_is_signer_not_predecessor() {
    let context = CallContext {
        signer: "carol".to_string(),
        predecessor: "dave".to_string(),
        attached_deposit: 0,
        block_timestamp: 42,
    };
    let contract = Hello::new(None, &context);
    assert_eq!(contract.get_owner(), "carol");
    assert_eq!(contract.get_metadata().owner, "carol");
}

#[test]
fn test_initialize_explicit_owner() {
    let mut instance = ContractInstance::new();
    let context = ctx("bob");
    assert!(instance.initialize(Some("alice".to_string()), &context).is_ok());
    assert_eq!(instance.get_owner(), Ok("alice".to_string()));
    let metadata = instance.get_metadata().unwrap();
    assert_eq!(metadata.owner, "alice");
    assert_eq!(metadata.version, "1.0.0");
}

#[test]
fn test_double_initialize_fails_and_preserves_state() {
    let alice = ctx("alice");
    let mut instance = ContractInstance::new();
    assert!(instance.initialize(Some("alice".to_string()), &alice).is_ok());
    assert!(instance.set_data(&alice, "k".to_string(), "v".to_string()).is_ok());

    let second = instance.initialize(Some("mallory".to_string()), &ctx("mallory"));
    assert_eq!(second, Err(ContractError::AlreadyInitialized));
    assert_eq!(instance.get_owner(), Ok("alice".to_string()));
    assert_eq!(instance.get_data("k".to_string()), Ok(Some("v".to_string())));
}

#[test]
fn test_methods_before_initialize_fail() {
    let context = ctx("alice");
    let mut instance = ContractInstance::new();
    assert_eq!(instance.get_owner(), Err(ContractError::NotInitialized));
    assert!(instance.get_metadata().is_err());
    assert_eq!(instance.get_data("k".to_string()), Err(ContractError::NotInitialized));
    assert_eq!(
        instance.set_data(&context, "k".to_string(), "v".to_string()),
        Err(ContractError::NotInitialized)
    );
    assert_eq!(instance.donate(&context), Err(ContractError::NotInitialized));
}

#[test]
fn test_set_data_by_non_owner_fails() {
    let alice = ctx("alice");
    let bob = ctx("bob");
    let mut contract = Hello::new(Some("alice".to_string()), &alice);
    assert!(contract.set_data(&alice, "kept".to_string(), "old".to_string()).is_ok());

    assert_eq!(
        contract.set_data(&bob, "kept".to_string(), "new".to_string()),
        Err(ContractError::Unauthorized)
    );
    assert_eq!(
        contract.set_data(&bob, "fresh".to_string(), "value".to_string()),
        Err(ContractError::Unauthorized)
    );
    assert_eq!(contract.get_data("kept".to_string()), Some("old".to_string()));
    assert_eq!(contract.get_data("fresh".to_string()), None);
}

#[test]
fn test_overwrite_keeps_last_value() {
    let context = ctx("alice");
    let mut contract = Hello::new(None, &context);
    assert!(contract.set_data(&context, "k".to_string(), "v1".to_string()).is_ok());
    assert!(contract.set_data(&context, "k".to_string(), "v2".to_string()).is_ok());
    assert_eq!(contract.get_data("k".to_string()), Some("v2".to_string()));
}

#[test]
fn test_get_data_absent_key() {
    let context = ctx("alice");
    let mut contract = Hello::new(None, &context);
    assert_eq!(contract.get_data("never".to_string()), None);
    assert!(contract.set_data(&context, "other".to_string(), "v".to_string()).is_ok());
    assert_eq!(contract.get_data("never".to_string()), None);
}

#[test]
fn test_donate_changes_nothing() {
    let alice = ctx("alice");
    let mut contract = Hello::new(None, &alice);
    assert!(contract.set_data(&alice, "k".to_string(), "v".to_string()).is_ok());

    let donor = CallContext {
        signer: "bob".to_string(),
        predecessor: "bob".to_string(),
        attached_deposit: 1_000_000,
        block_timestamp: 99,
    };
    let ack = contract.donate(&donor);
    assert_eq!(ack, "Thank you bob for donating 1000000 yoctoNEAR!");
    assert_eq!(contract.get_data("k".to_string()), Some("v".to_string()));
    assert_eq!(contract.get_owner(), "alice");
    let metadata = contract.get_metadata();
    assert_eq!(metadata.owner, "alice");
    assert_eq!(metadata.created_at, 1_600_000_000_000_000_000);
}

#[test]
fn test_instance_donate_changes_nothing() {
    let alice = ctx("alice");
    let mut instance = ContractInstance::new();
    assert!(instance.initialize(None, &alice).is_ok());
    assert!(instance.set_data(&alice, "k".to_string(), "v".to_string()).is_ok());

    let donor = CallContext {
        signer: "bob".to_string(),
        predecessor: "bob".to_string(),
        attached_deposit: 7,
        block_timestamp: 99,
    };
    let ack = instance.donate(&donor).unwrap();
    assert_eq!(ack, "Thank you bob for donating 7 yoctoNEAR!");
    assert_eq!(instance.get_data("k".to_string()), Ok(Some("v".to_string())));
    assert_eq!(instance.get_owner(), Ok("alice".to_string()));
}

#[test]
fn test_owner_and_intruder_scenario() {
    let alice = ctx("alice");
    let bob = ctx("bob");
    let mut instance = ContractInstance::new();
    assert!(instance.initialize(Some("alice".to_string()), &alice).is_ok());

    assert!(instance.set_data(&alice, "k".to_string(), "v".to_string()).is_ok());
    assert_eq!(instance.get_data("k".to_string()), Ok(Some("v".to_string())));

    assert_eq!(
        instance.set_data(&bob, "k".to_string(), "v2".to_string()),
        Err(ContractError::Unauthorized)
    );
    assert_eq!(instance.get_data("k".to_string()), Ok(Some("v".to_string())));
}

#[test]
fn test_donate_with_event_yields_ack_and_log_line() {
    let alice = ctx("alice");
    let mut contract = Hello::new(None, &alice);
    let donor = CallContext {
        signer: "bob".to_string(),
        predecessor: "bob".to_string(),
        attached_deposit: 250,
        block_timestamp: 99,
    };
    let (ack, event) = contract.donate_with_event(&donor);
    assert_eq!(ack, "Thank you bob for donating 250 yoctoNEAR!");
    assert_eq!(event, "DONATION: {\"donor\": \"bob\", \"amount\": \"250\"}");
    assert_eq!(contract.get_owner(), "alice");

    let mut instance = ContractInstance::new();
    assert_eq!(
        instance.donate_with_event(&donor),
        Err(ContractError::NotInitialized)
    );
    assert!(instance.initialize(Some("alice".to_string()), &alice).is_ok());
    let (ack2, event2) = instance.donate_with_event(&donor).unwrap();
    assert_eq!(ack2, ack);
    assert_eq!(event2, event);
    assert_eq!(instance.get_owner(), Ok("alice".to_string()));
}

#[test]
fn test_instance_hello() {
    let instance = ContractInstance::new();
    assert_eq!(
        instance.hello("World".to_string()),
        Err(ContractError::NotInitialized)
    );

    let mut instance = ContractInstance::new();
    assert!(instance.initialize(None, &ctx("bob")).is_ok());
    assert_eq!(
        instance.hello("World".to_string()),
        Ok("Hello, World! This is Hello contract.".to_string())
    );
}

#[test]
fn test_error_messages() {
    assert_eq!(ContractError::NotInitialized.message(), "The contract is not initialized");
    assert_eq!(
        ContractError::AlreadyInitialized.message(),
        "The contract has already been initialized"
    );
    assert_eq!(ContractError::Unauthorized.message(), "Only the owner can call this method");
}
