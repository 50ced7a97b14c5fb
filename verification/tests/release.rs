use bridge_assist::action::Action;
use bridge_assist::action::Attestation;
use bridge_assist::bridge::compute_fee;
use bridge_assist::bridge::BridgeAssist;
use bridge_assist::crypto::SignatureCheck;
use bridge_assist::error::BridgeError;
use bridge_assist::error::ErrorKind;
use bridge_assist::model::CallContext;
use bridge_assist::model::PromiseError;
use bridge_assist::model::PromiseResult;
use bridge_assist::model::StorageBalance;
use bridge_assist::model::StorageReadings;
use bridge_assist::model::UsageReading;
use bridge_assist::model::MIN_TOKEN_STORAGE_DEPOSIT;
use bridge_assist::record::Transaction;

const PRICE: u128 = 10_000_000_000_000_000_000;
const GAS: u64 = 80_000_000_000_000;

fn secret() -> ed25519_dalek::SecretKey {
    ed25519_dalek::SecretKey::from_bytes(&[7u8; 32]).unwrap()
}

fn key_text() -> String {
    let public = ed25519_dalek::PublicKey::from(&secret());
    format!("ed25519:{}", near_sdk::bs58::encode(public.as_bytes()).into_string())
}

fn sign(message: &[u8]) -> Vec<u8> {
    let secret = secret();
    let public = ed25519_dalek::PublicKey::from(&secret);
    let expanded = ed25519_dalek::ExpandedSecretKey::from(&secret);
    expanded.sign(message, &public).to_bytes().to_vec()
}

fn ctx(caller: &str, attached: u128) -> CallContext {
    CallContext {
        predecessor: caller.to_string(),
        signer: caller.to_string(),
        attached_deposit: attached,
        prepaid_gas: GAS,
        block_timestamp: 1_700_000_000_123_456_789,
        account_balance: 0,
    }
}

fn reading(bytes: u64) -> UsageReading {
    UsageReading { before: 1000, after: 1000 + bytes }
}

/// A ledger with fee 5 %, the chain ETH, and measured costs of 100, 200, 250
/// and 20 bytes.
fn bridge_with_fee(fee_numerator: u16) -> BridgeAssist {
    let mut bridge = BridgeAssist::init(
        "owner.near".to_string(),
        key_text(),
        "token.near".to_string(),
        "fees.near".to_string(),
        1_000_000,
        fee_numerator,
    )
    .unwrap();
    bridge
        .measure_bytes_for_functions(&StorageReadings {
            register: reading(100),
            ft_on_transfer: reading(200),
            fulfill: reading(50),
            add_chain: reading(20),
        })
        .unwrap();
    bridge.add_chain(&ctx("owner.near", 20 * PRICE), "ETH".to_string()).unwrap();
    bridge
}

fn bridge() -> BridgeAssist {
    bridge_with_fee(500)
}

fn record() -> Transaction {
    Transaction {
        from_user: "bob.eth".to_string(),
        to_user: "alice.near".to_string(),
        amount: 1000,
        timestamp: 1_700_000_000,
        from_chain: "ETH".to_string(),
        to_chain: "NEAR".to_string(),
        nonce: 7,
    }
}

fn signature_of(bridge: &BridgeAssist, record: &Transaction) -> Vec<u8> {
    sign(&bridge.get_tx_hash(record).unwrap())
}

fn credit_of(bridge: &BridgeAssist, user: &str) -> u128 {
    bridge.get_storage_paid_info(user.to_string()).1
}

fn total_credit(bridge: &BridgeAssist) -> u128 {
    bridge.get_storage_paid_info("nobody".to_string()).5
}

fn register(bridge: &mut BridgeAssist, user: &str, credit: u128) {
    bridge.storage_deposit(&ctx(user, 100 * PRICE + credit)).unwrap();
}

const RECORD_HASH: &str = "2e516796574d85c83e04c70e8de5dc7f46c6aba417e11dc4781646eb573a371c";

#[test]
fn fee_is_the_floor_of_amount_times_ratio() {
    assert_eq!(compute_fee(1000, 500), 50);
    assert_eq!(compute_fee(1000, 0), 0);
    assert_eq!(compute_fee(19, 500), 0);
    assert_eq!(compute_fee(20, 500), 1);
    assert_eq!(compute_fee(39, 500), 1);
    assert_eq!(compute_fee(10_000, 9_999), 9_999);
    assert_eq!(compute_fee(u128::MAX, 9_999), u128::MAX / 10_000 * 9_999 + (u128::MAX % 10_000) * 9_999 / 10_000);
    assert_eq!(compute_fee(u128::MAX, 1), u128::MAX / 10_000);
}

#[test]
fn tx_hash_is_keccak_of_the_bincode_form() {
    let bridge = bridge();
    let hash = bridge.get_tx_hash(&record()).unwrap();
    assert_eq!(hash.len(), 32);
    let hex: String = hash.iter().map(|byte| format!("{:02x}", byte)).collect();
    assert_eq!(hex, RECORD_HASH);
}

#[test]
fn tx_hash_tells_records_apart() {
    let bridge = bridge();
    let first = bridge.get_tx_hash(&record()).unwrap();
    let mut other = record();
    other.nonce = 8;
    assert_ne!(first, bridge.get_tx_hash(&other).unwrap());
    assert_eq!(first, bridge.get_tx_hash(&record()).unwrap());
}

#[test]
fn fulfill_with_fee_asks_for_the_fee_wallet_first() {
    let mut bridge = bridge();
    register(&mut bridge, "alice.near", 250 * PRICE);
    let record = record();
    let signature = signature_of(&bridge, &record);
    let action = bridge.fulfill(&ctx("relayer.near", 1), record, signature).unwrap();
    match action {
        Action::QueryFeeWallet { token, fee_wallet, pending } => {
            assert_eq!(token, "token.near");
            assert_eq!(fee_wallet, "fees.near");
            assert_eq!(pending.current_fee, 50);
            assert_eq!(pending.tx_hash, RECORD_HASH);
            assert_eq!(pending.to_user, "alice.near");
            assert_eq!(pending.storage_paid_for_call, 250 * PRICE);
            assert_eq!(pending.transaction, self::record());
        }
        other => panic!("unexpected action {:?}", other),
    }
    assert!(bridge.is_tx_fulfilled(RECORD_HASH.to_string()));
    assert_eq!(credit_of(&bridge, "alice.near"), 0);
    assert_eq!(total_credit(&bridge), 0);
}

#[test]
fn fulfill_without_fee_dispenses_at_once() {
    let mut bridge = bridge_with_fee(0);
    register(&mut bridge, "alice.near", 300 * PRICE);
    let record = record();
    let signature = signature_of(&bridge, &record);
    let action = bridge.fulfill(&ctx("relayer.near", 1), record, signature).unwrap();
    match action {
        Action::Dispense { token, amount, pending } => {
            assert_eq!(token, "token.near");
            assert_eq!(amount, 1000);
            assert_eq!(pending.current_fee, 0);
            assert_eq!(pending.to_user, "alice.near");
        }
        other => panic!("unexpected action {:?}", other),
    }
    assert_eq!(credit_of(&bridge, "alice.near"), 50 * PRICE);
}

#[test]
fn release_runs_through_to_the_fee_payment() {
    let mut bridge = bridge();
    register(&mut bridge, "alice.near", 250 * PRICE);
    let record = record();
    let signature = signature_of(&bridge, &record);
    let pending = match bridge.fulfill(&ctx("relayer.near", 1), record, signature).unwrap() {
        Action::QueryFeeWallet { pending, .. } => pending,
        other => panic!("unexpected action {:?}", other),
    };
    let answer = Ok(Some(StorageBalance { total: MIN_TOKEN_STORAGE_DEPOSIT, available: 0 }));
    let action = bridge
        .resolve_fulfill(
            answer,
            pending.current_fee,
            &pending.transaction,
            &pending.tx_hash,
            pending.to_user.clone(),
            pending.storage_paid_for_call,
        )
        .unwrap();
    let pending = match action {
        Action::Dispense { token, amount, pending } => {
            assert_eq!(token, "token.near");
            assert_eq!(amount, 950);
            pending
        }
        other => panic!("unexpected action {:?}", other),
    };
    let action = bridge
        .resolve_dispense(
            PromiseResult::Successful,
            &pending.tx_hash,
            &pending.transaction,
            pending.to_user.clone(),
            pending.current_fee,
            pending.storage_paid_for_call,
        )
        .unwrap();
    match action {
        Action::PayFee { token, fee_wallet, amount } => {
            assert_eq!(token, "token.near");
            assert_eq!(fee_wallet, "fees.near");
            assert_eq!(amount, 50);
        }
        other => panic!("unexpected action {:?}", other),
    }
    assert!(bridge.is_tx_fulfilled(RECORD_HASH.to_string()));
    assert_eq!(bridge.get_transactions_amount_by_user("bob.eth".to_string()), 1);
    assert_eq!(bridge.get_transaction_by_user("bob.eth".to_string(), 0).unwrap(), self::record());
    assert_eq!(bridge.get_transactions_amount_by_user("alice.near".to_string()), 0);
    assert_eq!(credit_of(&bridge, "alice.near"), 0);
}

#[test]
fn completed_release_without_fee_pays_none() {
    let mut bridge = bridge_with_fee(0);
    register(&mut bridge, "alice.near", 250 * PRICE);
    let record = record();
    let action = bridge
        .resolve_dispense(
            PromiseResult::Successful,
            &RECORD_HASH.to_string(),
            &record,
            "alice.near".to_string(),
            0,
            250 * PRICE,
        )
        .unwrap();
    assert!(matches!(action, Action::Done));
    assert_eq!(bridge.get_transactions_by_user("bob.eth".to_string()), vec![self::record()]);
}

#[test]
fn second_fulfill_of_the_same_record_is_a_replay() {
    let mut bridge = bridge();
    register(&mut bridge, "alice.near", 500 * PRICE);
    let signature = signature_of(&bridge, &record());
    let first = bridge.fulfill(&ctx("relayer.near", 1), record(), signature.clone());
    assert!(first.is_ok());
    let second = bridge.fulfill(&ctx("relayer.near", 1), record(), signature).unwrap_err();
    assert_eq!(second, BridgeError::DuplicateFulfillment);
    assert_eq!(second.kind(), ErrorKind::Replay);
    assert_eq!(credit_of(&bridge, "alice.near"), 250 * PRICE);
}

#[test]
fn second_fulfill_without_credit_left_is_refused_for_credit() {
    let mut bridge = bridge();
    register(&mut bridge, "alice.near", 250 * PRICE);
    let signature = signature_of(&bridge, &record());
    bridge.fulfill(&ctx("relayer.near", 1), record(), signature.clone()).unwrap();
    let second = bridge.fulfill(&ctx("relayer.near", 1), record(), signature).unwrap_err();
    assert_eq!(second, BridgeError::InsufficientCredit);
    assert_eq!(second.kind(), ErrorKind::InsufficientCredit);
}

#[test]
fn failed_transfer_restores_credit_and_clears_the_mark() {
    let mut bridge = bridge_with_fee(0);
    register(&mut bridge, "alice.near", 300 * PRICE);
    let before = credit_of(&bridge, "alice.near");
    let signature = signature_of(&bridge, &record());
    let pending = match bridge.fulfill(&ctx("relayer.near", 1), record(), signature.clone()).unwrap() {
        Action::Dispense { pending, .. } => pending,
        other => panic!("unexpected action {:?}", other),
    };
    assert_eq!(credit_of(&bridge, "alice.near"), before - 250 * PRICE);
    let action = bridge
        .resolve_dispense(
            PromiseResult::Failed,
            &pending.tx_hash,
            &pending.transaction,
            pending.to_user.clone(),
            pending.current_fee,
            pending.storage_paid_for_call,
        )
        .unwrap();
    assert!(matches!(action, Action::Done));
    assert_eq!(credit_of(&bridge, "alice.near"), before);
    assert_eq!(total_credit(&bridge), before);
    assert!(!bridge.is_tx_fulfilled(RECORD_HASH.to_string()));
    assert_eq!(bridge.get_transactions_amount_by_user("bob.eth".to_string()), 0);
    // The same record can be submitted again.
    assert!(bridge.fulfill(&ctx("relayer.near", 1), record(), signature).is_ok());
}

#[test]
fn unregistered_fee_wallet_rolls_the_release_back() {
    for answer in [
        Ok(None),
        Err(PromiseError::Failed),
        Err(PromiseError::NotReady),
        Ok(Some(StorageBalance { total: MIN_TOKEN_STORAGE_DEPOSIT - 1, available: 0 })),
    ] {
        let mut bridge = bridge();
        register(&mut bridge, "alice.near", 250 * PRICE);
        let signature = signature_of(&bridge, &record());
        let pending = match bridge.fulfill(&ctx("relayer.near", 1), record(), signature).unwrap() {
            Action::QueryFeeWallet { pending, .. } => pending,
            other => panic!("unexpected action {:?}", other),
        };
        let action = bridge
            .resolve_fulfill(
                answer,
                pending.current_fee,
                &pending.transaction,
                &pending.tx_hash,
                pending.to_user.clone(),
                pending.storage_paid_for_call,
            )
            .unwrap();
        assert!(matches!(action, Action::Done));
        assert_eq!(credit_of(&bridge, "alice.near"), 250 * PRICE);
        assert!(!bridge.is_tx_fulfilled(RECORD_HASH.to_string()));
    }
}

#[test]
fn rollback_needs_a_registered_recipient() {
    let mut bridge = bridge();
    let refused = bridge.rollback_state(&RECORD_HASH.to_string(), "ghost.near".to_string(), 5);
    assert_eq!(refused, Err(BridgeError::NotRegistered));
    register(&mut bridge, "alice.near", u128::MAX - 100 * PRICE);
    let refused =
        bridge.rollback_state(&RECORD_HASH.to_string(), "alice.near".to_string(), 100 * PRICE + 1);
    assert_eq!(refused, Err(BridgeError::Overflow));
    let granted =
        bridge.rollback_state(&RECORD_HASH.to_string(), "alice.near".to_string(), 100 * PRICE);
    assert_eq!(granted, Ok(()));
    assert_eq!(credit_of(&bridge, "alice.near"), u128::MAX);
    let mut bridge = self::bridge();
    register(&mut bridge, "alice.near", u128::MAX - 100 * PRICE);
    assert_eq!(credit_of(&bridge, "alice.near"), u128::MAX - 100 * PRICE);
}

#[test]
fn dispense_refuses_a_fee_above_the_amount() {
    let bridge = bridge();
    let refused = bridge
        .dispense_ft_to_user(&record(), &RECORD_HASH.to_string(), 1001, "alice.near".to_string(), 0)
        .unwrap_err();
    assert_eq!(refused, BridgeError::Overflow);
    let action = bridge
        .dispense_ft_to_user(&record(), &RECORD_HASH.to_string(), 1000, "alice.near".to_string(), 0)
        .unwrap();
    match action {
        Action::Dispense { amount, .. } => assert_eq!(amount, 0),
        other => panic!("unexpected action {:?}", other),
    }
}

#[test]
fn fulfill_checks_run_in_order() {
    let mut bridge = bridge();
    register(&mut bridge, "alice.near", 250 * PRICE);
    let good = signature_of(&bridge, &record());

    let refused = bridge.fulfill(&ctx("relayer.near", 0), record(), good.clone()).unwrap_err();
    assert_eq!(refused, BridgeError::RequiresOneYocto);
    let refused = bridge.fulfill(&ctx("relayer.near", 2), record(), good.clone()).unwrap_err();
    assert_eq!(refused, BridgeError::RequiresOneYocto);

    let mut low_gas = ctx("relayer.near", 1);
    low_gas.prepaid_gas = GAS - 1;
    assert_eq!(
        bridge.fulfill(&low_gas, record(), good.clone()).unwrap_err(),
        BridgeError::InsufficientGas
    );

    let mut bad_recipient = record();
    bad_recipient.to_user = "Alice.near".to_string();
    assert_eq!(
        bridge.fulfill(&ctx("relayer.near", 1), bad_recipient, good.clone()).unwrap_err(),
        BridgeError::InvalidRecipient
    );

    let mut wrong_chain = record();
    wrong_chain.to_chain = "ETH".to_string();
    assert_eq!(
        bridge.fulfill(&ctx("relayer.near", 1), wrong_chain, good.clone()).unwrap_err(),
        BridgeError::WrongDestinationChain
    );

    let mut unknown_origin = record();
    unknown_origin.from_chain = "BSC".to_string();
    assert_eq!(
        bridge.fulfill(&ctx("relayer.near", 1), unknown_origin, good.clone()).unwrap_err(),
        BridgeError::UnsupportedOriginChain
    );

    let mut stranger = record();
    stranger.to_user = "carol.near".to_string();
    assert_eq!(
        bridge.fulfill(&ctx("relayer.near", 1), stranger, good.clone()).unwrap_err(),
        BridgeError::NotRegistered
    );

    assert_eq!(
        bridge.fulfill(&ctx("relayer.near", 1), record(), good[..63].to_vec()).unwrap_err(),
        BridgeError::MalformedSignature
    );

    let mut other = record();
    other.amount = 1001;
    let refused = bridge.fulfill(&ctx("relayer.near", 1), other, good.clone()).unwrap_err();
    assert_eq!(refused, BridgeError::WrongSignature);
    assert_eq!(refused.kind(), ErrorKind::Authorization);

    // Nothing changed so far.
    assert_eq!(credit_of(&bridge, "alice.near"), 250 * PRICE);
    assert!(!bridge.is_tx_fulfilled(RECORD_HASH.to_string()));
    assert!(bridge.fulfill(&ctx("relayer.near", 1), record(), good).is_ok());
}

#[test]
fn fulfill_needs_credit_for_the_release() {
    let mut bridge = bridge();
    register(&mut bridge, "alice.near", 250 * PRICE - 1);
    let signature = signature_of(&bridge, &record());
    assert_eq!(
        bridge.fulfill(&ctx("relayer.near", 1), record(), signature).unwrap_err(),
        BridgeError::InsufficientCredit
    );
    assert_eq!(credit_of(&bridge, "alice.near"), 250 * PRICE - 1);
}

#[test]
fn attested_fulfill_decides_on_what_was_found() {
    let mut bridge = bridge();
    register(&mut bridge, "alice.near", 1000 * PRICE);
    let found = |signature: SignatureCheck, tx_hash: Option<&str>| Attestation {
        recipient_valid: true,
        tx_hash: tx_hash.map(|hash| hash.to_string()),
        signature,
    };
    let call = ctx("relayer.near", 1);
    assert_eq!(
        bridge.fulfill_attested(&call, record(), found(SignatureCheck::Accepted, None)).unwrap_err(),
        BridgeError::Serialization
    );
    assert_eq!(
        bridge
            .fulfill_attested(&call, record(), found(SignatureCheck::MalformedKey, Some("ab")))
            .unwrap_err(),
        BridgeError::MalformedRelayerKey
    );
    assert_eq!(
        bridge
            .fulfill_attested(&call, record(), found(SignatureCheck::Rejected, Some("ab")))
            .unwrap_err(),
        BridgeError::WrongSignature
    );
    assert!(bridge
        .fulfill_attested(&call, record(), found(SignatureCheck::Accepted, Some("ab")))
        .is_ok());
    assert!(bridge.is_tx_fulfilled("ab".to_string()));
    assert_eq!(
        bridge
            .fulfill_attested(&call, record(), found(SignatureCheck::Accepted, Some("ab")))
            .unwrap_err(),
        BridgeError::DuplicateFulfillment
    );
}

#[test]
fn attest_reports_recipient_hash_and_signature() {
    let bridge = bridge();
    let signature = signature_of(&bridge, &record());
    let found = bridge.attest(&record(), &signature);
    assert!(found.recipient_valid);
    assert_eq!(found.tx_hash.as_deref(), Some(RECORD_HASH));
    assert_eq!(found.signature, SignatureCheck::Accepted);

    let mut other = record();
    other.to_user = "x".to_string();
    let found = bridge.attest(&other, &signature);
    assert!(!found.recipient_valid);
    assert_ne!(found.tx_hash.as_deref(), Some(RECORD_HASH));
    assert_eq!(found.signature, SignatureCheck::Rejected);
}

#[test]
fn recipient_must_be_an_account_identifier() {
    let bridge = bridge();
    let valid = |id: &str| {
        let mut record = record();
        record.to_user = id.to_string();
        bridge.attest(&record, &Vec::new()).recipient_valid
    };
    for id in ["aa", "a-a", "100", "b-o_w_e-n", "illia.cheapaccounts.near", "a.b-a.ra"] {
        assert!(valid(id), "{}", id);
    }
    assert!(valid(&"a".repeat(64)));
    assert!(!valid(&"a".repeat(65)));
    for id in ["", "a", "A", "Abc", "-near", "near-", ".near", "near.", "a..near", "a_-b", "a b", "a+b", "\u{e9}\u{e9}", "0x52908400098527886E0F7030069857D2E4169EE7"] {
        assert!(!valid(id), "{}", id);
    }
}

#[test]
fn relayer_key_off_the_curve_refuses_every_release() {
    let mut seen_off_curve = false;
    for byte in 0..=255u8 {
        let base = bridge();
        let mut snapshot = base.snapshot();
        let mut key = vec![0u8];
        key.extend([byte; 32]);
        let on_curve = ed25519_dalek::PublicKey::from_bytes(&key[1..]).is_ok();
        snapshot.relayer_role = key;
        let mut bridge = BridgeAssist::restore(snapshot).unwrap();
        register(&mut bridge, "alice.near", 250 * PRICE);
        let refused = bridge
            .fulfill(&ctx("relayer.near", 1), record(), signature_of(&base, &record()))
            .unwrap_err();
        if on_curve {
            assert_eq!(refused, BridgeError::WrongSignature);
        } else {
            assert_eq!(refused, BridgeError::MalformedRelayerKey);
            assert_eq!(refused.kind(), ErrorKind::Configuration);
            seen_off_curve = true;
        }
    }
    assert!(seen_off_curve);
}
