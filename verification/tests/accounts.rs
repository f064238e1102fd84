use perps::account::{health_status, user_assets_reply, user_profile_reply};
use perps::outcome::DbError;
use perps::records::{Timestamp, User, UserAssets};
use rust_decimal::Decimal;

#[test]
fn health_is_reported() {
    assert_eq!(health_status().status, "healthy!");
}

#[test]
fn profile_replies() {
    let u = User {
        id: 1,
        username: "sam".to_string(),
        email: "sam@example.com".to_string(),
        password: "$argon2id$...".to_string(),
        created_at: Timestamp { micros: 99 },
        updated_at: Timestamp { micros: 100 },
    };
    let r = user_profile_reply(Ok(Some(u))).ok().unwrap();
    assert_eq!(r.message, "user profile fetched successfully");
    assert_eq!((r.data.id, r.data.username.as_str(), r.data.email.as_str()), (1, "sam", "sam@example.com"));
    assert_eq!(r.data.created_at, Timestamp { micros: 99 });
    let e = user_profile_reply(Ok(None)).err().unwrap();
    assert_eq!((e.status, e.message.as_str()), (404, "user not found"));
    let e = user_profile_reply(Err(DbError::Other("down".to_string()))).err().unwrap();
    assert_eq!((e.status, e.message.as_str()), (500, "down"));
}

#[test]
fn balances_are_listed_per_asset() {
    let row = |asset: u128, avail: i64| UserAssets {
        id: asset * 10,
        user_id: 1,
        asset_id: asset,
        available: Decimal::new(avail, 2),
        locked: Decimal::new(0, 0),
        created_at: Timestamp { micros: 1 },
        updated_at: Timestamp { micros: 2 + asset as i64 },
    };
    let r = user_assets_reply(Ok(vec![row(3, 150), row(4, 25)])).ok().unwrap();
    assert_eq!(r.message, "successfully fetched user balances");
    assert!(r.success);
    assert_eq!(r.data.len(), 2);
    assert_eq!(r.data[0].asset_id, 3);
    assert_eq!(r.data[0].available, Decimal::new(150, 2));
    assert_eq!(r.data[1].updated_at, Timestamp { micros: 6 });
    assert!(user_assets_reply(Ok(vec![])).ok().unwrap().data.is_empty());
    let e = user_assets_reply(Err(DbError::RowNotFound)).err().unwrap();
    assert_eq!(e.status, 500);
}
