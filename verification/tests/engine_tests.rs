use payment_gateway::account::{Account, MasterKey};
use payment_gateway::derive::derive_deposit_account;
use payment_gateway::engine::{MarkPaidError, OrderEngine, OrderError, OrderOutcome};
use payment_gateway::invoice::InvoiceStatus;
use payment_gateway::withdraw::WithdrawalError;

fn master() -> MasterKey {
    MasterKey::from_seed(vec![7u8; 32]).unwrap()
}

fn recipient() -> Vec<u8> {
    vec![9u8; 32]
}

fn engine_with_minimum(minimum: u64) -> OrderEngine {
    OrderEngine::new(master(), minimum)
}

#[test]
fn derivation_is_deterministic() {
    let mk = master();
    let order = b"inv-42".to_vec();
    let a = derive_deposit_account(&mk, &recipient(), &order).unwrap();
    let b = derive_deposit_account(&mk, &recipient(), &order).unwrap();
    assert!(a.equals(&b));
    assert_eq!(a.as_bytes(), b.as_bytes());
}

#[test]
fn derivation_matches_direct_hash_chain() {
    let seed = vec![7u8; 32];
    let rec = recipient();
    let order = b"inv-42".to_vec();
    let mk = MasterKey::from_seed(seed.clone()).unwrap();
    let account = derive_deposit_account(&mk, &rec, &order).unwrap();

    let mut step1 = vec![1u8];
    step1.extend(seed);
    step1.extend(rec.clone());
    let h1 = <sha2::Sha256 as sha2::Digest>::digest(&step1);
    let h_order = <sha2::Sha256 as sha2::Digest>::digest(&order);
    let mut step2 = vec![2u8];
    step2.extend(h1);
    step2.extend(h_order);
    let expected = <sha2::Sha256 as sha2::Digest>::digest(&step2).to_vec();
    assert_eq!(account.as_bytes(), &expected);
}

#[test]
fn distinct_pairs_derive_distinct_accounts() {
    let mk = master();
    let mut accounts: Vec<Vec<u8>> = Vec::new();
    for r in 0u8..4 {
        let rec = vec![r; 32];
        for o in 0u8..4 {
            let order = vec![b'o', o, o ^ 0x5a];
            let a = derive_deposit_account(&mk, &rec, &order).unwrap();
            accounts.push(a.as_bytes().clone());
        }
    }
    for i in 0..accounts.len() {
        for j in (i + 1)..accounts.len() {
            assert_ne!(accounts[i], accounts[j]);
        }
    }
}

#[test]
fn derivation_rejects_malformed_recipient() {
    let mk = master();
    let short = vec![9u8; 31];
    let r = derive_deposit_account(&mk, &short, &b"inv".to_vec());
    assert_eq!(r.unwrap_err(), payment_gateway::derive::DeriveError::InvalidRecipient);
}

#[test]
fn derivation_rejects_over_long_order() {
    let mk = master();
    let long_order = vec![0u8; 2049];
    let r = derive_deposit_account(&mk, &recipient(), &long_order);
    assert_eq!(r.unwrap_err(), payment_gateway::derive::DeriveError::InvalidOrder);
}

#[test]
fn account_from_bytes_checks_length() {
    assert!(Account::from_bytes(vec![1u8; 32]).is_some());
    assert!(Account::from_bytes(vec![1u8; 33]).is_none());
    assert!(Account::from_bytes(Vec::new()).is_none());
}

#[test]
fn idempotent_creation() {
    let mut engine = engine_with_minimum(70);
    let order = b"inv-1".to_vec();
    let first = engine
        .create_or_get_order(&recipient(), &order, 100, Some("DOT".to_string()), None, 11)
        .unwrap();
    let created = match first {
        OrderOutcome::NewOrder(inv) => inv,
        _ => panic!("first creation must be NewOrder"),
    };
    assert_eq!(created.status, InvoiceStatus::Unpaid { requested: 100 });
    assert_eq!(created.created_at, 11);
    assert_eq!(created.currency.as_deref(), Some("DOT"));

    let second = engine
        .create_or_get_order(&recipient(), &order, 100, Some("DOT".to_string()), None, 12)
        .unwrap();
    let found = match second {
        OrderOutcome::FoundOrder(inv) => inv,
        _ => panic!("identical replay must be FoundOrder"),
    };
    assert_eq!(found.status, InvoiceStatus::Unpaid { requested: 100 });
    assert_eq!(found.created_at, 11, "replay must not recreate the invoice");

    let status = engine.server_status(true);
    assert_eq!(status.pending_count, 1, "exactly one invoice for the pair");
    assert_eq!(status.paid_count, 0);
}

#[test]
fn collision_detection_keeps_saved_amount() {
    let mut engine = engine_with_minimum(10);
    let order = b"inv-2".to_vec();
    engine.create_or_get_order(&recipient(), &order, 100, None, None, 0).unwrap();
    let r = engine.create_or_get_order(&recipient(), &order, 150, None, None, 1).unwrap();
    match r {
        OrderOutcome::CollidedOrder(inv) => {
            assert_eq!(inv.status, InvoiceStatus::Unpaid { requested: 100 });
        },
        _ => panic!("differing amount on an unpaid order must collide"),
    }
    let stored = engine.get_order(&recipient(), &order).unwrap();
    assert_eq!(stored.status, InvoiceStatus::Unpaid { requested: 100 });
}

#[test]
fn below_minimum_rejection_creates_no_row() {
    let mut engine = engine_with_minimum(70);
    let order = b"inv-3".to_vec();
    let r = engine.create_or_get_order(&recipient(), &order, 69, None, None, 0);
    assert_eq!(r.unwrap_err(), OrderError::BelowMinimum { minimum: 70 });
    assert!(engine.get_order(&recipient(), &order).is_none());
    let status = engine.server_status(false);
    assert_eq!(status.pending_count, 0);
    assert_eq!(status.paid_count, 0);
}

#[test]
fn create_rejects_malformed_recipient_without_side_effect() {
    let mut engine = engine_with_minimum(1);
    let bad = vec![9u8; 16];
    let r = engine.create_or_get_order(&bad, &b"inv".to_vec(), 5, None, None, 0);
    assert_eq!(r.unwrap_err(), OrderError::InvalidRecipient);
    assert_eq!(engine.server_status(true).pending_count, 0);
}

#[test]
fn create_rejects_over_long_order() {
    let mut engine = engine_with_minimum(1);
    let long_order = vec![0u8; 4000];
    let r = engine.create_or_get_order(&recipient(), &long_order, 5, None, None, 0);
    assert_eq!(r.unwrap_err(), OrderError::InvalidOrder);
}

#[test]
fn monotonic_status() {
    let mut engine = engine_with_minimum(10);
    let order = b"inv-4".to_vec();
    engine.create_or_get_order(&recipient(), &order, 100, None, None, 0).unwrap();
    let account = derive_deposit_account(&master(), &recipient(), &order).unwrap();

    let paid = engine.mark_paid(&account, 105).unwrap();
    assert_eq!(paid.status, InvoiceStatus::Paid { received: 105 });

    let replay = engine.mark_paid(&account, 999).unwrap();
    assert_eq!(
        replay.status,
        InvoiceStatus::Paid { received: 105 },
        "a duplicate notification must keep the original paid amount"
    );

    let status = engine.server_status(true);
    assert_eq!(status.pending_count, 0);
    assert_eq!(status.paid_count, 1);
}

#[test]
fn mark_paid_unknown_invoice() {
    let mut engine = engine_with_minimum(10);
    let account = Account::from_bytes(vec![3u8; 32]).unwrap();
    let r = engine.mark_paid(&account, 50);
    assert_eq!(r.unwrap_err(), MarkPaidError::UnknownInvoice);
}

#[test]
fn withdrawal_requires_paid_invoice() {
    let mut engine = engine_with_minimum(10);
    let order = b"inv-5".to_vec();
    let r = engine.prepare_withdrawal(&recipient(), &order, 100, 1);
    assert_eq!(r.unwrap_err(), WithdrawalError::NotPayable);

    engine.create_or_get_order(&recipient(), &order, 100, None, None, 0).unwrap();
    let r = engine.prepare_withdrawal(&recipient(), &order, 100, 1);
    assert_eq!(r.unwrap_err(), WithdrawalError::NotPayable, "unpaid is not payable");
}

#[test]
fn withdrawal_insufficient_balance() {
    let mut engine = engine_with_minimum(10);
    let order = b"inv-6".to_vec();
    engine.create_or_get_order(&recipient(), &order, 100, None, None, 0).unwrap();
    let account = derive_deposit_account(&master(), &recipient(), &order).unwrap();
    engine.mark_paid(&account, 100).unwrap();
    let r = engine.prepare_withdrawal(&recipient(), &order, 3, 5);
    assert_eq!(r.unwrap_err(), WithdrawalError::InsufficientBalance);
}

#[test]
fn withdrawal_idempotence() {
    let mut engine = engine_with_minimum(10);
    let order = b"inv-7".to_vec();
    engine.create_or_get_order(&recipient(), &order, 100, None, None, 0).unwrap();
    let account = derive_deposit_account(&master(), &recipient(), &order).unwrap();
    engine.mark_paid(&account, 104).unwrap();

    let intent = engine.prepare_withdrawal(&recipient(), &order, 104, 4).unwrap();
    assert!(intent.account.equals(&account));
    assert_eq!(intent.amount, 100);
    assert_eq!(intent.recipient.as_bytes(), &recipient());

    let receipt = engine.record_withdrawal(&account).unwrap();
    assert_eq!(receipt.amount, 104);

    let again = engine.prepare_withdrawal(&recipient(), &order, 104, 4);
    assert_eq!(
        again.unwrap_err(),
        WithdrawalError::AlreadyWithdrawn,
        "no second transfer without an intervening balance change"
    );
    let again = engine.record_withdrawal(&account);
    assert_eq!(again.unwrap_err(), WithdrawalError::AlreadyWithdrawn);
}

#[test]
fn serialized_creates_one_new_rest_found() {
    let mut engine = engine_with_minimum(10);
    let order = b"inv-8".to_vec();
    let mut new_orders = 0;
    let mut found_orders = 0;
    for _ in 0..8 {
        match engine.create_or_get_order(&recipient(), &order, 42, None, None, 0).unwrap() {
            OrderOutcome::NewOrder(_) => new_orders += 1,
            OrderOutcome::FoundOrder(_) => found_orders += 1,
            _ => panic!("identical requests never collide"),
        }
    }
    assert_eq!(new_orders, 1);
    assert_eq!(found_orders, 7);
    assert_eq!(engine.server_status(true).pending_count, 1, "no duplicate rows");
}

#[test]
fn modify_order_updates_unpaid_amount() {
    let mut engine = engine_with_minimum(10);
    let order = b"inv-9".to_vec();

    let r = engine.modify_order(&recipient(), &order, 80);
    assert_eq!(r.unwrap_err(), OrderError::UnknownOrder);

    engine.create_or_get_order(&recipient(), &order, 100, None, None, 0).unwrap();
    let r = engine.modify_order(&recipient(), &order, 9);
    assert_eq!(r.unwrap_err(), OrderError::BelowMinimum { minimum: 10 });

    match engine.modify_order(&recipient(), &order, 80).unwrap() {
        OrderOutcome::ModifiedOrder(inv) => {
            assert_eq!(inv.status, InvoiceStatus::Unpaid { requested: 80 });
        },
        _ => panic!("a differing amount on an unpaid order must modify it"),
    }
    let stored = engine.get_order(&recipient(), &order).unwrap();
    assert_eq!(stored.status, InvoiceStatus::Unpaid { requested: 80 });

    match engine.modify_order(&recipient(), &order, 80).unwrap() {
        OrderOutcome::FoundOrder(_) => {},
        _ => panic!("modification to the same amount finds the order"),
    }
}

#[test]
fn modify_order_leaves_paid_invoice_unchanged() {
    let mut engine = engine_with_minimum(10);
    let order = b"inv-10".to_vec();
    engine.create_or_get_order(&recipient(), &order, 100, None, None, 0).unwrap();
    let account = derive_deposit_account(&master(), &recipient(), &order).unwrap();
    engine.mark_paid(&account, 95).unwrap();

    match engine.modify_order(&recipient(), &order, 200).unwrap() {
        OrderOutcome::FoundOrder(inv) => {
            assert_eq!(inv.status, InvoiceStatus::Paid { received: 95 });
        },
        _ => panic!("a paid invoice is immutable under modification"),
    }
    let stored = engine.get_order(&recipient(), &order).unwrap();
    assert_eq!(stored.status, InvoiceStatus::Paid { received: 95 });
}

#[test]
fn orders_are_scoped_per_recipient() {
    let mut engine = engine_with_minimum(1);
    let order = b"inv-11".to_vec();
    let other_recipient = vec![10u8; 32];

    let first = engine.create_or_get_order(&recipient(), &order, 30, None, None, 0).unwrap();
    let second = engine.create_or_get_order(&other_recipient, &order, 40, None, None, 0).unwrap();
    assert!(matches!(first, OrderOutcome::NewOrder(_)));
    assert!(
        matches!(second, OrderOutcome::NewOrder(_)),
        "the same order under another recipient is another invoice"
    );
    assert_eq!(engine.server_status(true).pending_count, 2);

    let a = derive_deposit_account(&master(), &recipient(), &order).unwrap();
    let b = derive_deposit_account(&master(), &other_recipient, &order).unwrap();
    assert!(!a.equals(&b));
}

#[test]
fn minimum_amount_reports_configuration() {
    let engine = engine_with_minimum(70);
    assert_eq!(engine.minimum_amount(), 70);
}

#[test]
fn get_order_rejects_malformed_lookups() {
    let engine = engine_with_minimum(1);
    assert!(engine.get_order(&vec![1u8; 5], &b"inv".to_vec()).is_none());
    assert!(engine.get_order(&recipient(), &vec![0u8; 3000]).is_none());
}

#[test]
fn server_status_reflects_store_and_chain() {
    let mut engine = engine_with_minimum(1);
    assert_eq!(engine.server_status(false).pending_count, 0);
    assert!(!engine.server_status(false).chain_connected);
    assert!(engine.server_status(false).store_reachable);

    engine.create_or_get_order(&recipient(), &b"a".to_vec(), 5, None, None, 0).unwrap();
    engine.create_or_get_order(&recipient(), &b"b".to_vec(), 5, None, None, 0).unwrap();
    let account = derive_deposit_account(&master(), &recipient(), &b"a".to_vec()).unwrap();
    engine.mark_paid(&account, 5).unwrap();

    let status = engine.server_status(true);
    assert_eq!(status.pending_count, 1);
    assert_eq!(status.paid_count, 1);
    assert!(status.chain_connected);
}

#[test]
fn example_scenario() {
    // Amounts carried in hundredths: 0.07 is the minimum, written 7.
    let mut engine = engine_with_minimum(7);
    let order = b"inv-42".to_vec();

    let first = engine.create_or_get_order(&recipient(), &order, 7, None, None, 0).unwrap();
    let account = derive_deposit_account(&master(), &recipient(), &order).unwrap();
    match first {
        OrderOutcome::NewOrder(inv) => {
            assert_eq!(inv.status, InvoiceStatus::Unpaid { requested: 7 });
            assert!(inv.recipient.as_bytes() == &recipient());
        },
        _ => panic!("the first creation at the minimum is a new order"),
    }

    let low_replay = engine.create_or_get_order(&recipient(), &order, 5, None, None, 1);
    assert_eq!(
        low_replay.unwrap_err(),
        OrderError::BelowMinimum { minimum: 7 },
        "the floor is validated before the order is resolved"
    );

    let repeat = engine.create_or_get_order(&recipient(), &order, 8, None, None, 1).unwrap();
    match repeat {
        OrderOutcome::CollidedOrder(inv) => {
            assert_eq!(inv.status, InvoiceStatus::Unpaid { requested: 7 });
        },
        _ => panic!("a differing replayed amount collides"),
    }

    let paid = engine.mark_paid(&account, 71).unwrap();
    assert_eq!(paid.status, InvoiceStatus::Paid { received: 71 });

    engine.prepare_withdrawal(&recipient(), &order, 71, 0).unwrap();
    engine.record_withdrawal(&account).unwrap();
    let second = engine.prepare_withdrawal(&recipient(), &order, 71, 0);
    assert_eq!(second.unwrap_err(), WithdrawalError::AlreadyWithdrawn);
}
