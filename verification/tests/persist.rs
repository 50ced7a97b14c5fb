use bridge_assist::bridge::BridgeAssist;
use bridge_assist::snapshot::Snapshot;
use bridge_assist::credit::CreditLedger;
use bridge_assist::journal::Journal;
use bridge_assist::keys::distinct;
use bridge_assist::model::CallContext;
use bridge_assist::model::StorageCosts;
use bridge_assist::model::StorageReadings;
use bridge_assist::model::UsageReading;
use bridge_assist::record::Transaction;
use bridge_assist::registry::ChainRegistry;
use bridge_assist::replay::ReplaySet;

const BYTE: u128 = 10_000_000_000_000_000_000;
const A_KEY: &str = "ed25519:6E8sCci9badyRkXb3JoRpBj5p8C6Tw41ELDZoiihKEtp";

fn from(user: &str, attached: u128) -> CallContext {
    CallContext {
        predecessor: user.to_string(),
        signer: user.to_string(),
        attached_deposit: attached,
        prepaid_gas: 0,
        block_timestamp: 3_000_000_000,
        account_balance: 0,
    }
}

fn grown(bytes: u64) -> UsageReading {
    UsageReading { before: 0, after: bytes }
}

fn busy_bridge() -> BridgeAssist {
    let mut bridge = BridgeAssist::init(
        "owner.near".to_string(),
        A_KEY.to_string(),
        "token.near".to_string(),
        "fees.near".to_string(),
        5_000,
        100,
    )
    .unwrap();
    bridge
        .measure_bytes_for_functions(&StorageReadings {
            register: grown(1),
            ft_on_transfer: grown(2),
            fulfill: grown(3),
            add_chain: grown(4),
        })
        .unwrap();
    bridge.add_chain(&from("owner.near", 4 * BYTE), "ETH".to_string()).unwrap();
    bridge.add_chain(&from("owner.near", 4 * BYTE), "BSC".to_string()).unwrap();
    bridge.storage_deposit(&from("alice.near", 10 * BYTE)).unwrap();
    bridge.storage_deposit(&from("bob.near", 2 * BYTE)).unwrap();
    let mut token = from("alice.near", 0);
    token.predecessor = "token.near".to_string();
    let message = format!("{}ETH", "0".repeat(42));
    bridge.ft_on_transfer(&token, "alice.near".to_string(), 9, message).unwrap();
    bridge
}

fn sample(nonce: u128) -> Transaction {
    Transaction {
        from_user: "a".to_string(),
        to_user: "b".to_string(),
        amount: 1,
        timestamp: 2,
        from_chain: "c".to_string(),
        to_chain: "d".to_string(),
        nonce,
    }
}

fn strings(items: &[&str]) -> Vec<String> {
    items.iter().map(|item| item.to_string()).collect()
}

#[test]
fn snapshot_holds_the_whole_ledger() {
    let snapshot = busy_bridge().snapshot();
    assert_eq!(snapshot.costs, StorageCosts { register: 1, ft_on_transfer: 2, fulfill: 5, add_chain: 4 });
    assert_eq!(snapshot.owner, "owner.near");
    assert_eq!(snapshot.token, "token.near");
    assert_eq!(snapshot.fee_wallet, "fees.near");
    assert_eq!(snapshot.limit_per_send, 5_000);
    assert_eq!(snapshot.nonce, 1);
    assert_eq!(snapshot.fee_numerator, 100);
    assert_eq!(snapshot.relayer_role.len(), 33);
    assert_eq!(snapshot.available_chains, strings(&["ETH", "BSC"]));
    assert_eq!(snapshot.credit_accounts, strings(&["alice.near", "bob.near"]));
    assert_eq!(snapshot.credit_balances, vec![7 * BYTE, BYTE]);
    assert_eq!(snapshot.journal_accounts, strings(&["alice.near"]));
    assert_eq!(snapshot.journal_logs.len(), 1);
    assert_eq!(snapshot.journal_logs[0].len(), 1);
    assert_eq!(snapshot.journal_logs[0][0].amount, 9);
    assert_eq!(snapshot.journal_logs[0][0].timestamp, 3);
    assert!(snapshot.fulfilled.is_empty());
}

#[test]
fn restore_gives_the_ledger_back() {
    let bridge = busy_bridge();
    let mut restored = BridgeAssist::restore(bridge.snapshot()).unwrap();
    assert_eq!(restored.get_owner(), "owner.near");
    assert_eq!(restored.get_nonce(), 1);
    assert_eq!(restored.supported_chain_list(), strings(&["ETH", "BSC"]));
    assert_eq!(
        restored.get_storage_paid_info("alice.near".to_string()),
        (true, 7 * BYTE, BYTE, 2 * BYTE, 5 * BYTE, 8 * BYTE)
    );
    assert_eq!(
        restored.get_transactions_by_user("alice.near".to_string()),
        bridge.get_transactions_by_user("alice.near".to_string())
    );
    assert!(restored.get_relayer_role().same_as(&bridge.get_relayer_role()));
    // The restored ledger goes on where the first one stood.
    assert!(restored.storage_withdraw(&from("alice.near", 0), 7 * BYTE).is_ok());
    assert_eq!(restored.get_storage_paid_info("bob.near".to_string()).5, BYTE);
}

#[test]
fn restore_refuses_what_is_no_ledger() {
    let good = || busy_bridge().snapshot();
    let refused = |change: &dyn Fn(&mut Snapshot)| {
        let mut snapshot = good();
        change(&mut snapshot);
        BridgeAssist::restore(snapshot).is_none()
    };
    assert!(!refused(&|_| {}));
    assert!(refused(&|s| s.fee_numerator = 10_000));
    assert!(refused(&|s| s.relayer_role[0] = 1));
    assert!(refused(&|s| s.relayer_role.push(0)));
    assert!(refused(&|s| s.available_chains.push("ETH".to_string())));
    assert!(refused(&|s| s.credit_accounts[1] = "alice.near".to_string()));
    assert!(refused(&|s| s.credit_balances.push(0)));
    assert!(refused(&|s| s.credit_balances[1] = u128::MAX));
    assert!(refused(&|s| s.journal_logs.push(Vec::new())));
    assert!(refused(&|s| {
        s.journal_accounts.push("alice.near".to_string());
        s.journal_logs.push(Vec::new());
    }));
    assert!(refused(&|s| {
        s.fulfilled.push("ab".to_string());
        s.fulfilled.push("ab".to_string());
    }));
    assert!(!refused(&|s| {
        s.fulfilled.push("ab".to_string());
        s.fulfilled.push("cd".to_string());
    }));
}

#[test]
fn distinct_finds_repeated_texts() {
    assert!(distinct(&strings(&[])));
    assert!(distinct(&strings(&["a"])));
    assert!(distinct(&strings(&["a", "b", "c"])));
    assert!(!distinct(&strings(&["a", "b", "a"])));
    assert!(!distinct(&strings(&["a", "b", "b"])));
    assert!(!distinct(&strings(&["b", "b"])));
}

#[test]
fn credit_ledger_from_entries() {
    assert!(CreditLedger::from_entries(strings(&["a", "b"]), vec![1]).is_none());
    assert!(CreditLedger::from_entries(strings(&["a", "a"]), vec![1, 2]).is_none());
    assert!(CreditLedger::from_entries(strings(&["a", "b"]), vec![u128::MAX, 1]).is_none());
    let ledger = CreditLedger::from_entries(strings(&["a", "b"]), vec![u128::MAX - 1, 1]).unwrap();
    assert_eq!(ledger.total_credit(), u128::MAX);
    assert_eq!(ledger.get(&"b".to_string()), Some(1));
    assert_eq!(ledger.entries(), (strings(&["a", "b"]), vec![u128::MAX - 1, 1]));
    assert_eq!(CreditLedger::from_entries(Vec::new(), Vec::new()).unwrap().total_credit(), 0);
}

#[test]
fn journal_keeps_histories_apart_and_in_order() {
    let mut journal = Journal::new();
    let a = "a".to_string();
    let b = "b".to_string();
    assert_eq!(journal.len(&a), 0);
    assert_eq!(journal.get(&a, 0), None);
    journal.append(&a, sample(1));
    journal.append(&b, sample(2));
    journal.append(&a, sample(3));
    assert_eq!(journal.len(&a), 2);
    assert_eq!(journal.len(&b), 1);
    assert_eq!(journal.get(&a, 1), Some(sample(3)));
    assert_eq!(journal.get(&a, 2), None);
    assert_eq!(journal.all(&a), vec![sample(1), sample(3)]);
    assert_eq!(journal.all(&"c".to_string()), Vec::new());
    let (accounts, logs) = journal.entries();
    assert_eq!(accounts, strings(&["a", "b"]));
    assert_eq!(logs, vec![vec![sample(1), sample(3)], vec![sample(2)]]);
    let mut copy = Journal::from_entries(accounts, logs).unwrap();
    copy.remove(&a);
    assert_eq!(copy.len(&a), 0);
    assert_eq!(copy.all(&b), vec![sample(2)]);
    assert!(Journal::from_entries(strings(&["a", "a"]), vec![Vec::new(), Vec::new()]).is_none());
    assert!(Journal::from_entries(strings(&["a"]), Vec::new()).is_none());
}

#[test]
fn replay_set_marks_each_hash_once() {
    let mut set = ReplaySet::new();
    let hash = "ab".to_string();
    assert!(!set.contains(&hash));
    assert!(set.insert(&hash));
    assert!(!set.insert(&hash));
    assert!(set.contains(&hash));
    assert!(set.insert(&"cd".to_string()));
    assert_eq!(set.to_vec(), strings(&["ab", "cd"]));
    assert!(set.remove(&hash));
    assert!(!set.remove(&hash));
    assert!(!set.contains(&hash));
    assert_eq!(set.to_vec(), strings(&["cd"]));
    assert!(ReplaySet::from_vec(strings(&["x", "x"])).is_none());
    assert!(ReplaySet::from_vec(strings(&["x", "y"])).unwrap().contains(&"y".to_string()));
}

#[test]
fn chain_registry_lists_in_order() {
    let mut registry = ChainRegistry::new();
    assert!(registry.insert(&"ETH".to_string()));
    assert!(!registry.insert(&"ETH".to_string()));
    assert!(registry.insert(&"BSC".to_string()));
    assert!(registry.insert(&"TON".to_string()));
    assert_eq!(registry.to_vec(), strings(&["ETH", "BSC", "TON"]));
    assert!(registry.remove(&"ETH".to_string()));
    assert!(!registry.remove(&"ETH".to_string()));
    assert_eq!(registry.to_vec(), strings(&["TON", "BSC"]));
    assert!(!registry.contains(&"ETH".to_string()));
    assert!(ChainRegistry::from_vec(strings(&["A", "B", "A"])).is_none());
    assert_eq!(ChainRegistry::from_vec(strings(&["A", "B"])).unwrap().to_vec(), strings(&["A", "B"]));
}
