use perps::deposit::{
    after_existing_lookup, after_pending_update, confirm_reply, create_reply, deposit_from_row,
    deposits_from_rows, new_external_ref, require_asset, status_from_text, status_str, ConfirmStep,
    Deposit, DepositRow, DepositStatus,
};
use perps::outcome::DbError;
use perps::records::{Assets, Timestamp};
use rust_decimal::Decimal;

fn row(status: &str, external_ref: &str) -> DepositRow {
    DepositRow {
        id: 1,
        user_id: 2,
        asset_id: 3,
        amount: Decimal::new(12_345, 2),
        status: status.to_string(),
        external_ref: external_ref.to_string(),
        created_at: Timestamp { micros: 10 },
        updated_at: Timestamp { micros: 20 },
    }
}

fn deposit(status: DepositStatus) -> Deposit {
    Deposit {
        id: 7,
        user_id: 8,
        asset_id: 9,
        amount: Decimal::new(500, 0),
        status,
        external_ref: "ref-1".to_string(),
        created_at: Timestamp { micros: 1 },
        updated_at: Timestamp { micros: 2 },
    }
}

#[test]
fn status_texts() {
    assert_eq!(status_str(&DepositStatus::Pending), "pending");
    assert_eq!(status_str(&DepositStatus::Confirmed), "confirmed");
    assert_eq!(status_str(&DepositStatus::Failed), "failed");
}

#[test]
fn stored_status_is_read_back() {
    assert_eq!(status_from_text(&"confirmed".to_string()), DepositStatus::Confirmed);
    assert_eq!(status_from_text(&"pending".to_string()), DepositStatus::Pending);
    assert_eq!(status_from_text(&"failed".to_string()), DepositStatus::Failed);
    assert_eq!(status_from_text(&"CONFIRMED".to_string()), DepositStatus::Pending);
}

#[test]
fn round_trip_of_status_text() {
    for s in [DepositStatus::Pending, DepositStatus::Confirmed, DepositStatus::Failed] {
        assert_eq!(status_from_text(&status_str(&s).to_string()), s);
    }
}

#[test]
fn listed_rows_become_deposits() {
    let d = deposit_from_row(row("confirmed", "abc"));
    assert_eq!(d.status, DepositStatus::Confirmed);
    assert_eq!(d.id, 1);
    assert_eq!(d.external_ref, "abc");
    assert_eq!(d.amount, Decimal::new(12_345, 2));
    let ds = deposits_from_rows(vec![row("pending", "a"), row("confirmed", "b"), row("failed", "c")]);
    assert_eq!(ds.len(), 3);
    assert_eq!(ds[0].status, DepositStatus::Pending);
    assert_eq!(ds[1].status, DepositStatus::Confirmed);
    assert_eq!(ds[2].status, DepositStatus::Failed);
    assert_eq!(ds[1].external_ref, "b");
    assert!(deposits_from_rows(vec![]).is_empty());
}

#[test]
fn update_that_returned_a_row_is_credited() {
    match after_pending_update(Some(row("confirmed", "r"))) {
        ConfirmStep::Credit(d) => {
            assert_eq!(d.status, DepositStatus::Confirmed);
            assert_eq!(d.user_id, 2);
            assert_eq!(d.asset_id, 3);
            assert_eq!(d.amount, Decimal::new(12_345, 2));
        }
        ConfirmStep::LookUp => panic!("expected a credit"),
    }
    assert!(matches!(after_pending_update(None), ConfirmStep::LookUp));
}

#[test]
fn redelivered_confirmation_is_answered_without_credit() {
    let d = after_existing_lookup(Some(row("confirmed", "r"))).ok().unwrap();
    assert_eq!(d.status, DepositStatus::Confirmed);
    assert_eq!(d.id, 1);
}

#[test]
fn unknown_or_failed_deposit_is_a_missing_row() {
    assert!(matches!(after_existing_lookup(None), Err(DbError::RowNotFound)));
    assert!(matches!(after_existing_lookup(Some(row("failed", "r"))), Err(DbError::RowNotFound)));
    assert!(matches!(after_existing_lookup(Some(row("pending", "r"))), Err(DbError::RowNotFound)));
}

#[test]
fn confirm_replies() {
    let e = confirm_reply(Err(DbError::RowNotFound)).err().unwrap();
    assert_eq!((e.status, e.message.as_str()), (404, "unknown or unconfirmable deposit"));
    let e = confirm_reply(Err(DbError::Other("pool timed out".to_string()))).err().unwrap();
    assert_eq!((e.status, e.message.as_str()), (500, "pool timed out"));
    let r = confirm_reply(Ok(deposit(DepositStatus::Confirmed))).ok().unwrap();
    assert_eq!(r.message, "deposit confirmed");
    assert!(r.success);
    assert_eq!(r.data.status, "confirmed");
    assert_eq!(r.data.id, 7);
    assert_eq!(r.data.asset_id, 9);
    assert_eq!(r.data.amount, Decimal::new(500, 0));
    assert_eq!(r.data.external_ref, "ref-1");
}

#[test]
fn create_replies() {
    let r = create_reply(Ok(deposit(DepositStatus::Pending))).ok().unwrap();
    assert_eq!(r.message, "deposit created");
    assert_eq!(r.data.status, "pending");
    let e = create_reply(Err(DbError::Other("duplicate key".to_string()))).err().unwrap();
    assert_eq!((e.status, e.message.as_str()), (500, "duplicate key"));
}

#[test]
fn asset_must_exist() {
    let asset = Assets {
        id: 5,
        name: "USD Coin".to_string(),
        symbol: "USDC".to_string(),
        decimals: 6,
        created_at: Timestamp { micros: 0 },
        updated_at: Timestamp { micros: 0 },
    };
    assert_eq!(require_asset(Ok(Some(asset))).ok().unwrap().symbol, "USDC");
    let e = require_asset(Ok(None)).err().unwrap();
    assert_eq!((e.status, e.message.as_str()), (404, "unknown asset"));
    let e = require_asset(Err(DbError::RowNotFound)).err().unwrap();
    assert_eq!(e.status, 500);
    assert_eq!(e.message, sqlx::Error::RowNotFound.to_string());
}

#[test]
fn external_refs_are_random_uuids() {
    let a = new_external_ref();
    let b = new_external_ref();
    assert_ne!(a, b);
    let parsed = uuid::Uuid::parse_str(&a).unwrap();
    assert_eq!(parsed.get_version_num(), 4);
    assert_eq!(parsed.to_string(), a);
}

#[test]
fn recorded_deposit_is_pending() {
    let d = perps::deposit::pending_deposit(
        1,
        2,
        3,
        Decimal::new(10, 0),
        "r".to_string(),
        Timestamp { micros: 5 },
        Timestamp { micros: 5 },
    );
    assert_eq!(d.status, DepositStatus::Pending);
    assert_eq!((d.id, d.user_id, d.asset_id), (1, 2, 3));
    assert_eq!(create_reply(Ok(d)).ok().unwrap().data.status, "pending");
}

/// Runs one confirmation against an in-memory table with the library's
/// decisions, as the server runs it against Postgres.
fn confirm_in_memory(
    table: &mut std::collections::HashMap<String, DepositRow>,
    credits: &mut Vec<(u128, u128, Decimal)>,
    external_ref: &str,
) -> Result<Deposit, DbError> {
    let copy = |r: &DepositRow| DepositRow {
        id: r.id,
        user_id: r.user_id,
        asset_id: r.asset_id,
        amount: r.amount,
        status: r.status.clone(),
        external_ref: r.external_ref.clone(),
        created_at: r.created_at,
        updated_at: r.updated_at,
    };
    let updated = match table.get_mut(external_ref) {
        Some(r) if r.status == "pending" => {
            r.status = "confirmed".to_string();
            r.updated_at = Timestamp { micros: r.updated_at.micros + 1 };
            Some(copy(r))
        }
        _ => None,
    };
    match after_pending_update(updated) {
        ConfirmStep::Credit(d) => {
            credits.push((d.user_id, d.asset_id, d.amount));
            Ok(d)
        }
        ConfirmStep::LookUp => after_existing_lookup(table.get(external_ref).map(copy)),
    }
}

#[test]
fn confirming_twice_credits_once() {
    let mut table = std::collections::HashMap::new();
    table.insert("r1".to_string(), row("pending", "r1"));
    table.insert("r2".to_string(), row("failed", "r2"));
    let mut credits = Vec::new();
    let first = confirm_in_memory(&mut table, &mut credits, "r1").ok().unwrap();
    let second = confirm_in_memory(&mut table, &mut credits, "r1").ok().unwrap();
    assert_eq!(credits, vec![(2, 3, Decimal::new(12_345, 2))]);
    assert_eq!(first.id, second.id);
    assert_eq!(first.updated_at, second.updated_at);
    assert_eq!(second.status, DepositStatus::Confirmed);
    assert!(matches!(confirm_in_memory(&mut table, &mut credits, "r2"), Err(DbError::RowNotFound)));
    assert!(matches!(confirm_in_memory(&mut table, &mut credits, "nope"), Err(DbError::RowNotFound)));
    assert_eq!(credits.len(), 1);
}
