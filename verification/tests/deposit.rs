use bridge_assist::bridge::BridgeAssist;
use bridge_assist::error::BridgeError;
use bridge_assist::error::ErrorKind;
use bridge_assist::message::split_message;
use bridge_assist::model::CallContext;
use bridge_assist::model::StorageReadings;
use bridge_assist::model::UsageReading;
use bridge_assist::record::Transaction;

const PRICE: u128 = 10_000_000_000_000_000_000;
const ADDRESS: &str = "0x52908400098527886E0F7030069857D2E4169EE7";
const KEY: &str = "ed25519:6E8sCci9badyRkXb3JoRpBj5p8C6Tw41ELDZoiihKEtp";

fn owner_ctx(attached: u128) -> CallContext {
    CallContext {
        predecessor: "owner.near".to_string(),
        signer: "owner.near".to_string(),
        attached_deposit: attached,
        prepaid_gas: 0,
        block_timestamp: 0,
        account_balance: 0,
    }
}

/// The call that the token contract makes when `signer` sends tokens.
fn token_ctx(signer: &str) -> CallContext {
    CallContext {
        predecessor: "token.near".to_string(),
        signer: signer.to_string(),
        attached_deposit: 0,
        prepaid_gas: 0,
        block_timestamp: 1_700_000_000_999_999_999,
        account_balance: 0,
    }
}

fn user_ctx(user: &str, attached: u128) -> CallContext {
    CallContext {
        predecessor: user.to_string(),
        signer: user.to_string(),
        attached_deposit: attached,
        prepaid_gas: 0,
        block_timestamp: 0,
        account_balance: 0,
    }
}

fn reading(bytes: u64) -> UsageReading {
    UsageReading { before: 0, after: bytes }
}

fn deposit_bridge() -> BridgeAssist {
    let mut bridge = BridgeAssist::init(
        "owner.near".to_string(),
        KEY.to_string(),
        "token.near".to_string(),
        "fees.near".to_string(),
        5_000,
        100,
    )
    .unwrap();
    bridge
        .measure_bytes_for_functions(&StorageReadings {
            register: reading(100),
            ft_on_transfer: reading(200),
            fulfill: reading(50),
            add_chain: reading(20),
        })
        .unwrap();
    bridge.add_chain(&owner_ctx(20 * PRICE), "ETH".to_string()).unwrap();
    bridge.storage_deposit(&user_ctx("alice.near", 100 * PRICE + 500 * PRICE)).unwrap();
    bridge
}

fn message(chain: &str) -> String {
    format!("{}{}", ADDRESS, chain)
}

fn deposit_credit(bridge: &BridgeAssist, user: &str) -> u128 {
    bridge.get_storage_paid_info(user.to_string()).1
}

#[test]
fn deposit_is_journaled_and_kept_in_full() {
    let mut bridge = deposit_bridge();
    let returned =
        bridge.ft_on_transfer(&token_ctx("alice.near"), "alice.near".to_string(), 5_000, message("ETH"));
    assert_eq!(returned, Ok(0));
    assert_eq!(bridge.get_nonce(), 1);
    assert_eq!(bridge.get_transactions_amount_by_user("alice.near".to_string()), 1);
    assert_eq!(
        bridge.get_transaction_by_user("alice.near".to_string(), 0).unwrap(),
        Transaction {
            from_user: "alice.near".to_string(),
            to_user: ADDRESS.to_string(),
            amount: 5_000,
            timestamp: 1_700_000_000,
            from_chain: "NEAR".to_string(),
            to_chain: "ETH".to_string(),
            nonce: 0,
        }
    );
    assert_eq!(deposit_credit(&bridge, "alice.near"), 300 * PRICE);
    assert_eq!(bridge.get_storage_paid_info("alice.near".to_string()).5, 300 * PRICE);
}

#[test]
fn every_deposit_adds_one_to_nonce_and_history() {
    let mut bridge = deposit_bridge();
    bridge.storage_deposit(&user_ctx("bob.near", 100 * PRICE + 200 * PRICE)).unwrap();
    for (round, user) in ["alice.near", "bob.near", "alice.near"].iter().enumerate() {
        let nonce = bridge.get_nonce();
        let length = bridge.get_transactions_amount_by_user(user.to_string());
        bridge.ft_on_transfer(&token_ctx(user), user.to_string(), 1, message("ETH")).unwrap();
        assert_eq!(bridge.get_nonce(), nonce + 1);
        assert_eq!(bridge.get_transactions_amount_by_user(user.to_string()), length + 1);
        let last = bridge.get_transaction_by_user(user.to_string(), length).unwrap();
        assert_eq!(last.nonce, round as u128);
    }
    let history = bridge.get_transactions_by_user("alice.near".to_string());
    assert_eq!(history.iter().map(|record| record.nonce).collect::<Vec<u128>>(), vec![0, 2]);
    assert_eq!(
        bridge.get_transaction_by_user("alice.near".to_string(), 2).unwrap_err(),
        BridgeError::IndexOutOfRange
    );
    assert_eq!(
        bridge.get_transaction_by_user("nobody.near".to_string(), 0).unwrap_err(),
        BridgeError::IndexOutOfRange
    );
    assert_eq!(
        bridge.get_transaction_by_user("alice.near".to_string(), u64::MAX).unwrap_err(),
        BridgeError::IndexOutOfRange
    );
}

#[test]
fn deposit_checks_run_in_order() {
    let mut bridge = deposit_bridge();
    let mut other_token = token_ctx("alice.near");
    other_token.predecessor = "other.near".to_string();
    assert_eq!(
        bridge.ft_on_transfer(&other_token, "bob.near".to_string(), 10_000, "x".to_string()),
        Err(BridgeError::UnsupportedToken)
    );
    assert_eq!(
        bridge.ft_on_transfer(&token_ctx("token.near"), "bob.near".to_string(), 10_000, "x".to_string()),
        Err(BridgeError::DirectCall)
    );
    assert_eq!(
        bridge.ft_on_transfer(&token_ctx("alice.near"), "bob.near".to_string(), 10_000, "x".to_string()),
        Err(BridgeError::SenderNotSigner)
    );
    assert_eq!(
        bridge.ft_on_transfer(&token_ctx("bob.near"), "bob.near".to_string(), 10_000, ADDRESS.to_string()),
        Err(BridgeError::MalformedMessage)
    );
    assert_eq!(
        bridge.ft_on_transfer(&token_ctx("bob.near"), "bob.near".to_string(), 10_000, message("BSC")),
        Err(BridgeError::UnsupportedChain)
    );
    let refused =
        bridge.ft_on_transfer(&token_ctx("bob.near"), "bob.near".to_string(), 10_000, message("ETH"));
    assert_eq!(refused, Err(BridgeError::NotRegistered));
    assert_eq!(refused.unwrap_err().kind(), ErrorKind::InsufficientCredit);
    bridge.storage_deposit(&user_ctx("bob.near", 100 * PRICE + 200 * PRICE - 1)).unwrap();
    assert_eq!(
        bridge.ft_on_transfer(&token_ctx("bob.near"), "bob.near".to_string(), 10_000, message("ETH")),
        Err(BridgeError::InsufficientCredit)
    );
    bridge.storage_deposit(&user_ctx("bob.near", 1)).unwrap();
    assert_eq!(
        bridge.ft_on_transfer(&token_ctx("bob.near"), "bob.near".to_string(), 5_001, message("ETH")),
        Err(BridgeError::OverLimit)
    );
    assert_eq!(bridge.get_nonce(), 0);
    assert_eq!(deposit_credit(&bridge, "bob.near"), 200 * PRICE);
    assert_eq!(bridge.get_transactions_amount_by_user("bob.near".to_string()), 0);
    assert_eq!(
        bridge.ft_on_transfer(&token_ctx("bob.near"), "bob.near".to_string(), 5_000, message("ETH")),
        Ok(0)
    );
}

#[test]
fn long_message_is_split_after_the_address() {
    let mut bridge = deposit_bridge();
    let chain = "C".repeat(258);
    bridge.add_chain(&owner_ctx(20 * PRICE), chain.clone()).unwrap();
    assert_eq!(
        bridge.ft_on_transfer(&token_ctx("alice.near"), "alice.near".to_string(), 1, message(&chain)),
        Ok(0)
    );
    let record = bridge.get_transaction_by_user("alice.near".to_string(), 0).unwrap();
    assert_eq!(record.to_chain, chain);
    assert_eq!(record.to_user, ADDRESS);
}

#[test]
fn split_message_takes_42_bytes_for_the_address() {
    assert_eq!(split_message(&message("ETH")), Some((ADDRESS.to_string(), "ETH".to_string())));
    assert_eq!(split_message(&message("E")), Some((ADDRESS.to_string(), "E".to_string())));
    assert_eq!(split_message(&ADDRESS.to_string()), None);
    assert_eq!(split_message(&"".to_string()), None);
    assert_eq!(split_message(&ADDRESS[..41].to_string()), None);
}

#[test]
fn split_message_respects_character_boundaries() {
    // 41 bytes, then a character of two bytes: byte 42 lies inside it.
    let inside = format!("{}\u{e9}ETH", &ADDRESS[..41]);
    assert_eq!(split_message(&inside), None);
    // 40 bytes, then a character of two bytes: the address ends with it.
    let ends = format!("{}\u{e9}ETH", &ADDRESS[..40]);
    assert_eq!(
        split_message(&ends),
        Some((format!("{}\u{e9}", &ADDRESS[..40]), "ETH".to_string()))
    );
    let chain = format!("{}\u{4e2d}\u{6587}", ADDRESS);
    assert_eq!(
        split_message(&chain),
        Some((ADDRESS.to_string(), "\u{4e2d}\u{6587}".to_string()))
    );
}

#[test]
fn deposit_counter_does_not_wrap() {
    let mut snapshot = deposit_bridge().snapshot();
    snapshot.nonce = u128::MAX - 1;
    let mut bridge = BridgeAssist::restore(snapshot).unwrap();
    assert_eq!(
        bridge.ft_on_transfer(&token_ctx("alice.near"), "alice.near".to_string(), 1, message("ETH")),
        Ok(0)
    );
    assert_eq!(bridge.get_nonce(), u128::MAX);
    assert_eq!(
        bridge.ft_on_transfer(&token_ctx("alice.near"), "alice.near".to_string(), 1, message("ETH")),
        Err(BridgeError::Overflow)
    );
    assert_eq!(bridge.get_nonce(), u128::MAX);
    assert_eq!(bridge.get_transactions_amount_by_user("alice.near".to_string()), 1);
    assert_eq!(deposit_credit(&bridge, "alice.near"), 300 * PRICE);
}
