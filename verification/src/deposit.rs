//! Deposits: their status, the replies of the deposit routes, and the
//! confirmation of a pending deposit with its crediting rule.
use vstd::prelude::*;
use crate::ids::{is_random_uuid, new_v4_id, uuid_hyphenated, uuid_text};
use crate::outcome::{ApiError, DbError, INTERNAL_SERVER_ERROR, NOT_FOUND};
use crate::records::{Assets, Timestamp};

verus! {

/// Lifecycle of a deposit.
#[derive(Clone, Copy, Debug, PartialEq, Eq, Structural)]
pub enum DepositStatus {
    Pending,
    Confirmed,
    Failed,
}

/// The text under which a status is stored and reported.
pub open spec fn status_text(status: DepositStatus) -> Seq<char> {
    match status {
        DepositStatus::Pending => "pending"@,
        DepositStatus::Confirmed => "confirmed"@,
        DepositStatus::Failed => "failed"@,
    }
}

/// The text under which a status is stored and reported.
pub fn status_str(status: &DepositStatus) -> (res: &'static str)
    ensures
        res@ == status_text(*status),
{
    match status {
        DepositStatus::Pending => "pending",
        DepositStatus::Confirmed => "confirmed",
        DepositStatus::Failed => "failed",
    }
}

/// The status that a stored status text names: `pending`, `confirmed` or
/// `failed`; any other text is read as pending.
pub open spec fn status_of_text(text: Seq<char>) -> DepositStatus {
    if text == "confirmed"@ {
        DepositStatus::Confirmed
    } else if text == "failed"@ {
        DepositStatus::Failed
    } else {
        DepositStatus::Pending
    }
}

/// Reads a stored status text as `status_of_text` does.
pub fn status_from_text(text: &String) -> (status: DepositStatus)
    ensures
        status == status_of_text(text@),
{
    let confirmed = "confirmed".to_owned();
    let failed = "failed".to_owned();
    if *text == confirmed {
        DepositStatus::Confirmed
    } else if *text == failed {
        DepositStatus::Failed
    } else {
        DepositStatus::Pending
    }
}

/// A row of `deposits`, with its status as stored text.
pub struct DepositRow {
    pub id: u128,
    pub user_id: u128,
    pub asset_id: u128,
    pub amount: rust_decimal::Decimal,
    pub status: String,
    pub external_ref: String,
    pub created_at: Timestamp,
    pub updated_at: Timestamp,
}

pub struct DepositRowView {
    pub id: u128,
    pub user_id: u128,
    pub asset_id: u128,
    pub amount: rust_decimal::Decimal,
    pub status: Seq<char>,
    pub external_ref: Seq<char>,
    pub created_at: Timestamp,
    pub updated_at: Timestamp,
}

impl View for DepositRow {
    type V = DepositRowView;

    open spec fn view(&self) -> DepositRowView {
        DepositRowView {
            id: self.id,
            user_id: self.user_id,
            asset_id: self.asset_id,
            amount: self.amount,
            status: self.status@,
            external_ref: self.external_ref@,
            created_at: self.created_at,
            updated_at: self.updated_at,
        }
    }
}

/// A deposit of an amount of one asset by one account.
pub struct Deposit {
    pub id: u128,
    pub user_id: u128,
    pub asset_id: u128,
    pub amount: rust_decimal::Decimal,
    pub status: DepositStatus,
    pub external_ref: String,
    pub created_at: Timestamp,
    pub updated_at: Timestamp,
}

pub struct DepositView {
    pub id: u128,
    pub user_id: u128,
    pub asset_id: u128,
    pub amount: rust_decimal::Decimal,
    pub status: DepositStatus,
    pub external_ref: Seq<char>,
    pub created_at: Timestamp,
    pub updated_at: Timestamp,
}

impl View for Deposit {
    type V = DepositView;

    open spec fn view(&self) -> DepositView {
        DepositView {
            id: self.id,
            user_id: self.user_id,
            asset_id: self.asset_id,
            amount: self.amount,
            status: self.status,
            external_ref: self.external_ref@,
            created_at: self.created_at,
            updated_at: self.updated_at,
        }
    }
}

/// The deposit that a row describes, with the given status.
pub open spec fn row_as_deposit(row: DepositRowView, status: DepositStatus) -> DepositView {
    DepositView {
        id: row.id,
        user_id: row.user_id,
        asset_id: row.asset_id,
        amount: row.amount,
        status: status,
        external_ref: row.external_ref,
        created_at: row.created_at,
        updated_at: row.updated_at,
    }
}

fn row_into_deposit(row: DepositRow, status: DepositStatus) -> (d: Deposit)
    ensures
        d@ == row_as_deposit(row@, status),
        d.id == row.id,
        d.user_id == row.user_id,
        d.asset_id == row.asset_id,
        d.amount == row.amount,
        d.status == status,
        d.external_ref@ == row.external_ref@,
        d.created_at == row.created_at,
        d.updated_at == row.updated_at,
{
    Deposit {
        id: row.id,
        user_id: row.user_id,
        asset_id: row.asset_id,
        amount: row.amount,
        status,
        external_ref: row.external_ref,
        created_at: row.created_at,
        updated_at: row.updated_at,
    }
}

/// The deposit that a listed row describes, its status read by `status_of_text`.
pub fn deposit_from_row(row: DepositRow) -> (d: Deposit)
    ensures
        d@ == row_as_deposit(row@, status_of_text(row@.status)),
        d.id == row.id,
        d.user_id == row.user_id,
        d.asset_id == row.asset_id,
        d.amount == row.amount,
        d.status == status_of_text(row.status@),
        d.external_ref@ == row.external_ref@,
        d.created_at == row.created_at,
        d.updated_at == row.updated_at,
{
    let status = status_from_text(&row.status);
    row_into_deposit(row, status)
}

/// Whether the listed deposit `d` carries the fields of its row: the same id,
/// owner, asset, amount, reference and times, and the status its text reads as.
pub open spec fn keeps_row(d: Deposit, row: DepositRow) -> bool {
    &&& d.id == row.id
    &&& d.user_id == row.user_id
    &&& d.asset_id == row.asset_id
    &&& d.amount == row.amount
    &&& d.status == status_of_text(row.status@)
    &&& d.external_ref@ == row.external_ref@
    &&& d.created_at == row.created_at
    &&& d.updated_at == row.updated_at
}

/// The deposits that the rows of one account describe, in the rows' order.
pub fn deposits_from_rows(rows: Vec<DepositRow>) -> (deposits: Vec<Deposit>)
    ensures
        deposits@.len() == rows@.len(),
        forall|i: int|
            0 <= i < rows@.len() ==> #[trigger] deposits@[i]@ == row_as_deposit(
                rows@[i]@,
                status_of_text(rows@[i]@.status),
            ),
        forall|i: int|
            #![trigger deposits@[i]]
            0 <= i < rows@.len() ==> deposits@[i].id == rows@[i].id && deposits@[i].user_id
                == rows@[i].user_id && deposits@[i].asset_id == rows@[i].asset_id
                && deposits@[i].amount == rows@[i].amount && deposits@[i].status == status_of_text(
                rows@[i].status@,
            ) && deposits@[i].external_ref@ == rows@[i].external_ref@ && deposits@[i].created_at
                == rows@[i].created_at && deposits@[i].updated_at == rows@[i].updated_at,
{
    let mut deposits: Vec<Deposit> = Vec::new();
    let mut i: usize = 0;
    while i < rows.len()
        invariant
            i <= rows@.len(),
            deposits@.len() == i,
            forall|j: int|
                0 <= j < i ==> #[trigger] deposits@[j]@ == row_as_deposit(
                    rows@[j]@,
                    status_of_text(rows@[j]@.status),
                ),
            forall|j: int| 0 <= j < i ==> keeps_row(#[trigger] deposits@[j], rows@[j]),
        decreases rows@.len() - i,
    {
        let r = &rows[i];
        let row = DepositRow {
            id: r.id,
            user_id: r.user_id,
            asset_id: r.asset_id,
            amount: r.amount,
            status: r.status.clone(),
            external_ref: r.external_ref.clone(),
            created_at: r.created_at,
            updated_at: r.updated_at,
        };
        deposits.push(deposit_from_row(row));
        i = i + 1;
    }
    deposits
}

/// A deposit just recorded as pending.
pub fn pending_deposit(
    id: u128,
    user_id: u128,
    asset_id: u128,
    amount: rust_decimal::Decimal,
    external_ref: String,
    created_at: Timestamp,
    updated_at: Timestamp,
) -> (d: Deposit)
    ensures
        d.status == DepositStatus::Pending,
        d == (Deposit { id, user_id, asset_id, amount, status: DepositStatus::Pending, external_ref, created_at, updated_at }),
{
    Deposit { id, user_id, asset_id, amount, status: DepositStatus::Pending, external_ref, created_at, updated_at }
}

/// What confirmation does after the update that moves a pending deposit to
/// `confirmed`: credit the deposit that it returned, or look the reference up.
pub enum ConfirmStep {
    Credit(Deposit),
    LookUp,
}

/// The view of a row that a query may have returned.
pub open spec fn row_view(row: Option<DepositRow>) -> Option<DepositRowView> {
    match row {
        Some(r) => Some(r@),
        None => None,
    }
}

/// The deposit confirmed by the update, if it returned a row.
pub open spec fn confirmed_by_update(updated: Option<DepositRowView>) -> Option<DepositView> {
    match updated {
        Some(row) => Some(row_as_deposit(row, DepositStatus::Confirmed)),
        None => None,
    }
}

/// The outcome when the update returned no row: the reference is unknown, or
/// its deposit is not confirmed, and the request fails as a missing row; or it
/// was confirmed before, and that deposit is the answer.
pub open spec fn confirmed_by_lookup(existing: Option<DepositRowView>) -> Option<DepositView> {
    match existing {
        Some(row) => if row.status == "confirmed"@ {
            Some(row_as_deposit(row, DepositStatus::Confirmed))
        } else {
            None
        },
        None => None,
    }
}

/// Decides what follows the update of a pending deposit to `confirmed`:
/// the returned row is credited; with no row, the reference is looked up.
pub fn after_pending_update(updated: Option<DepositRow>) -> (step: ConfirmStep)
    ensures
        match step {
            ConfirmStep::Credit(d) => {
                &&& confirmed_by_update(row_view(updated)) == Some(d@)
                &&& updated matches Some(row) && d.id == row.id && d.user_id == row.user_id
                    && d.asset_id == row.asset_id && d.amount == row.amount && d.status
                    == DepositStatus::Confirmed && d.external_ref@ == row.external_ref@
                    && d.created_at == row.created_at && d.updated_at == row.updated_at
            },
            ConfirmStep::LookUp => updated is None,
        },
{
    match updated {
        Some(row) => ConfirmStep::Credit(row_into_deposit(row, DepositStatus::Confirmed)),
        None => ConfirmStep::LookUp,
    }
}

/// Decides the answer from the looked-up deposit when the update returned no
/// row: a deposit confirmed before is answered again; an unknown reference or
/// a deposit in any other state fails as a missing row.
pub fn after_existing_lookup(existing: Option<DepositRow>) -> (res: Result<Deposit, DbError>)
    ensures
        match res {
            Ok(d) => {
                &&& confirmed_by_lookup(row_view(existing)) == Some(d@)
                &&& existing matches Some(row) && row.status@ == "confirmed"@ && d.id == row.id
                    && d.user_id == row.user_id && d.asset_id == row.asset_id && d.amount
                    == row.amount && d.status == DepositStatus::Confirmed && d.external_ref@
                    == row.external_ref@ && d.created_at == row.created_at && d.updated_at
                    == row.updated_at
            },
            Err(e) => e is RowNotFound && confirmed_by_lookup(row_view(existing))
                is None,
        },
{
    match existing {
        None => Err(DbError::RowNotFound),
        Some(row) => {
            let confirmed = "confirmed".to_owned();
            if row.status == confirmed {
                Ok(row_into_deposit(row, DepositStatus::Confirmed))
            } else {
                Err(DbError::RowNotFound)
            }
        },
    }
}

/// The deposits table, keyed by external reference (unique), and the
/// `user_assets` balances, keyed by account and asset: for each, the amounts
/// credited to its available balance, in the order they were credited (the
/// row's `available` is their sum, which the database computes), and its
/// locked balance.
pub struct DepositStore {
    pub rows: Map<Seq<char>, DepositRowView>,
    pub available: Map<(u128, u128), Seq<rust_decimal::Decimal>>,
    pub locked: Map<(u128, u128), rust_decimal::Decimal>,
}

/// The amounts credited so far to the available balance of `user_id` in
/// `asset_id` (none where the account holds no row for the asset).
pub open spec fn available_credits(store: DepositStore, user_id: u128, asset_id: u128) -> Seq<
    rust_decimal::Decimal,
> {
    if store.available.contains_key((user_id, asset_id)) {
        store.available[(user_id, asset_id)]
    } else {
        Seq::empty()
    }
}

/// `UPDATE user_assets SET available = available + $3 ... WHERE user_id = $1
/// AND asset_id = $2`: `amount` is credited to the available balance of
/// `user_id` in `asset_id` when the account holds a row for the asset (no row
/// is created: the statement then changes nothing); every other balance, and
/// every locked balance, stays as it was.
pub open spec fn credit_available(
    store: DepositStore,
    user_id: u128,
    asset_id: u128,
    amount: rust_decimal::Decimal,
) -> DepositStore {
    if store.available.contains_key((user_id, asset_id)) {
        DepositStore {
            available: store.available.insert(
                (user_id, asset_id),
                store.available[(user_id, asset_id)].push(amount),
            ),
            ..store
        }
    } else {
        store
    }
}

/// The credits to `user_id` in `asset_id` after `amount` was credited there:
/// one more, when the account holds a balance row for the asset.
pub open spec fn credited(
    store: DepositStore,
    user_id: u128,
    asset_id: u128,
    amount: rust_decimal::Decimal,
) -> Seq<rust_decimal::Decimal> {
    if store.available.contains_key((user_id, asset_id)) {
        available_credits(store, user_id, asset_id).push(amount)
    } else {
        Seq::empty()
    }
}

/// `UPDATE deposits SET status='confirmed', updated_at=NOW() WHERE
/// external_ref=$1 AND status='pending' RETURNING ...`: the store after it and
/// the row it returns.
pub open spec fn update_pending(store: DepositStore, external_ref: Seq<char>, now: Timestamp) -> (
    DepositStore,
    Option<DepositRowView>,
) {
    if store.rows.contains_key(external_ref) && store.rows[external_ref].status == "pending"@ {
        let row = DepositRowView {
            status: "confirmed"@,
            updated_at: now,
            ..store.rows[external_ref]
        };
        (DepositStore { rows: store.rows.insert(external_ref, row), ..store }, Some(row))
    } else {
        (store, None)
    }
}

/// `SELECT ... FROM deposits WHERE external_ref=$1`.
pub open spec fn select_by_ref(store: DepositStore, external_ref: Seq<char>) -> Option<DepositRowView> {
    if store.rows.contains_key(external_ref) {
        Some(store.rows[external_ref])
    } else {
        None
    }
}

/// One confirmation of `external_ref` at instant `now`, run in one transaction
/// with the decisions above: the store afterwards and the confirmed deposit
/// (`None`: the request fails). A returned row is credited and committed when
/// the credit and the commit go through (`committed`); otherwise, and whenever
/// no row was returned, the transaction is rolled back and the store is as
/// before.
pub open spec fn confirm_in_store(
    store: DepositStore,
    external_ref: Seq<char>,
    now: Timestamp,
    committed: bool,
) -> (DepositStore, Option<DepositView>) {
    let (updated_store, updated) = update_pending(store, external_ref, now);
    match confirmed_by_update(updated) {
        Some(d) => if committed {
            (credit_available(updated_store, d.user_id, d.asset_id, d.amount), Some(d))
        } else {
            (store, None)
        },
        None => (store, confirmed_by_lookup(select_by_ref(store, external_ref))),
    }
}

/// All or nothing: a confirmation that fails, for whatever reason (unknown or
/// unconfirmable reference, or a credit or commit that did not go through),
/// leaves the deposits and the balances as they were.
pub proof fn failed_confirmation_changes_nothing(
    store: DepositStore,
    external_ref: Seq<char>,
    now: Timestamp,
    committed: bool,
)
    ensures
        confirm_in_store(store, external_ref, now, committed).1 is None ==> confirm_in_store(
            store,
            external_ref,
            now,
            committed,
        ).0 == store,
{
}

/// A deposit is credited exactly when its confirmation finds it pending: then
/// its amount is added to the available balance of its owner in its asset
/// (where the owner holds a balance row for it), no other balance and no locked
/// balance changes, and it is answered as confirmed; in every other case the
/// store is left as it was.
pub proof fn credit_only_on_transition(store: DepositStore, external_ref: Seq<char>, now: Timestamp)
    ensures
        ({
            let (after, answer) = confirm_in_store(store, external_ref, now, true);
            if store.rows.contains_key(external_ref) && store.rows[external_ref].status
                == "pending"@ {
                let row = store.rows[external_ref];
                &&& available_credits(after, row.user_id, row.asset_id) == credited(
                    store,
                    row.user_id,
                    row.asset_id,
                    row.amount,
                )
                &&& forall|user_id: u128, asset_id: u128|
                    (user_id, asset_id) != (row.user_id, row.asset_id) ==> #[trigger] available_credits(
                        after,
                        user_id,
                        asset_id,
                    ) == available_credits(store, user_id, asset_id)
                &&& after.locked == store.locked
                &&& after.rows[external_ref].status == "confirmed"@
                &&& answer matches Some(d) && d.id == row.id && d.status
                    == DepositStatus::Confirmed
            } else {
                after == store
            }
        }),
{
}

/// A re-delivered confirmation is a no-op success: once a confirmation has
/// succeeded, confirming the same reference again changes nothing, credits
/// nothing and answers with the same deposit.
pub proof fn confirmation_is_idempotent(
    store: DepositStore,
    external_ref: Seq<char>,
    first: Timestamp,
    second: Timestamp,
)
    requires
        confirm_in_store(store, external_ref, first, true).1 is Some,
    ensures
        ({
            let (after_first, answer_first) = confirm_in_store(store, external_ref, first, true);
            let (after_second, answer_second) = confirm_in_store(after_first, external_ref, second, true);
            &&& after_second == after_first
            &&& answer_second == answer_first
        }),
{
    let (after_first, answer_first) = confirm_in_store(store, external_ref, first, true);
    assert(after_first.rows.contains_key(external_ref));
    assert(after_first.rows[external_ref].status == "confirmed"@);
    assert("confirmed"@ != "pending"@) by {
        reveal_strlit("confirmed");
        reveal_strlit("pending");
        assert("pending"@.len() != "confirmed"@.len());
    }
}

/// An unknown reference, or one whose deposit is neither pending nor
/// confirmed, is refused as a missing row and changes nothing.
pub proof fn unconfirmable_deposit_is_refused(store: DepositStore, external_ref: Seq<char>, now: Timestamp)
    requires
        !store.rows.contains_key(external_ref) || (store.rows[external_ref].status != "pending"@
            && store.rows[external_ref].status != "confirmed"@),
    ensures
        confirm_in_store(store, external_ref, now, true) == (store, None::<DepositView>),
{
}

/// However often a deposit found pending is confirmed, its amount is credited
/// once to its owner's available balance in its asset (where the owner holds a
/// balance row for it).
pub proof fn repeated_confirmation_credits_once(
    store: DepositStore,
    external_ref: Seq<char>,
    first: Timestamp,
    second: Timestamp,
)
    requires
        store.rows.contains_key(external_ref),
        store.rows[external_ref].status == "pending"@,
    ensures
        ({
            let (after_first, _) = confirm_in_store(store, external_ref, first, true);
            let (after_second, _) = confirm_in_store(after_first, external_ref, second, true);
            let row = store.rows[external_ref];
            available_credits(after_second, row.user_id, row.asset_id) == credited(
                store,
                row.user_id,
                row.asset_id,
                row.amount,
            )
        }),
{
    credit_only_on_transition(store, external_ref, first);
    confirmation_is_idempotent(store, external_ref, first, second);
}

/// `INSERT INTO deposits (...) VALUES (..., 'pending', ...)`: the store with the
/// new pending row, or `None` when its external reference is already taken
/// (the reference is unique, which guards against replays).
pub open spec fn insert_pending(store: DepositStore, row: DepositRowView) -> Option<DepositStore> {
    if store.rows.contains_key(row.external_ref) {
        None
    } else {
        Some(
            DepositStore {
                rows: store.rows.insert(row.external_ref, DepositRowView { status: "pending"@, ..row }),
                ..store
            },
        )
    }
}

/// A deposit recorded under a fresh reference and then confirmed twice is
/// credited exactly once, with its own amount, to its owner's balance in its
/// asset (where the owner holds a balance row for it); recording a second
/// deposit under the same reference is refused.
pub proof fn recorded_deposit_is_credited_once(
    store: DepositStore,
    row: DepositRowView,
    first: Timestamp,
    second: Timestamp,
)
    requires
        !store.rows.contains_key(row.external_ref),
    ensures
        ({
            let recorded = insert_pending(store, row).unwrap();
            let (after_first, answer) = confirm_in_store(recorded, row.external_ref, first, true);
            let (after_second, _) = confirm_in_store(after_first, row.external_ref, second, true);
            &&& insert_pending(recorded, row) is None
            &&& answer matches Some(d) && d.id == row.id && d.status == DepositStatus::Confirmed
            &&& available_credits(after_second, row.user_id, row.asset_id) == credited(
                store,
                row.user_id,
                row.asset_id,
                row.amount,
            )
            &&& after_second.locked == store.locked
        }),
{
    let recorded = insert_pending(store, row).unwrap();
    credit_only_on_transition(recorded, row.external_ref, first);
    confirmation_is_idempotent(recorded, row.external_ref, first, second);
}

/// Whether every row of the store is filed under its own external reference.
pub open spec fn keyed_by_reference(store: DepositStore) -> bool {
    forall|r: Seq<char>| #[trigger] store.rows.contains_key(r) ==> store.rows[r].external_ref == r
}

/// Recording a deposit keeps every row filed under its own reference.
pub proof fn recording_keeps_rows_keyed(store: DepositStore, row: DepositRowView)
    requires
        keyed_by_reference(store),
    ensures
        insert_pending(store, row) matches Some(after) ==> keyed_by_reference(after),
{
}

/// A successful confirmation answers with the deposit stored under the
/// confirmed reference, field for field: its own reference, id, owner, asset,
/// amount and creation time, with the status `Confirmed`; a first confirmation
/// and a re-delivery alike.
pub proof fn confirmation_answers_the_stored_deposit(
    store: DepositStore,
    external_ref: Seq<char>,
    now: Timestamp,
    committed: bool,
)
    requires
        keyed_by_reference(store),
    ensures
        confirm_in_store(store, external_ref, now, committed).1 matches Some(d) ==> {
            &&& store.rows.contains_key(external_ref)
            &&& d.external_ref == external_ref
            &&& d.id == store.rows[external_ref].id
            &&& d.user_id == store.rows[external_ref].user_id
            &&& d.asset_id == store.rows[external_ref].asset_id
            &&& d.amount == store.rows[external_ref].amount
            &&& d.created_at == store.rows[external_ref].created_at
            &&& d.status == DepositStatus::Confirmed
        },
{
}

/// The reference that a deposit reply reports is the one its deposit is stored
/// under: a pending deposit, reported as created, is then confirmed by that
/// reference, and the confirmation answers with that same deposit.
pub proof fn reported_reference_confirms(
    store: DepositStore,
    data: DepositData,
    d: DepositView,
    now: Timestamp,
)
    requires
        keyed_by_reference(store),
        store.rows.contains_key(d.external_ref),
        store.rows[d.external_ref].id == d.id,
        store.rows[d.external_ref].status == "pending"@,
        reports_deposit(data, d),
    ensures
        confirm_in_store(store, data.external_ref@, now, true).1 matches Some(c) && c.id == d.id
            && c.external_ref == d.external_ref && c.status == DepositStatus::Confirmed,
{
}

/// A listed deposit keeps its row's id, owner, asset, amount, reference and
/// times; only the status is read from the row's text.
pub proof fn listed_deposit_keeps_its_row(row: DepositRowView)
    ensures
        ({
            let d = row_as_deposit(row, status_of_text(row.status));
            &&& d.id == row.id
            &&& d.user_id == row.user_id
            &&& d.asset_id == row.asset_id
            &&& d.amount == row.amount
            &&& d.external_ref == row.external_ref
            &&& d.created_at == row.created_at
            &&& d.updated_at == row.updated_at
        }),
{
}

/// A deposit reply reports the deposit's own id, asset, amount, status and
/// reference, whatever its status.
pub proof fn deposit_reply_reports_the_deposit(data: DepositData, d: DepositView)
    requires
        reports_deposit(data, d),
    ensures
        data.id == d.id,
        data.asset_id == d.asset_id,
        data.amount == d.amount,
        data.status@ == status_text(d.status),
        data.external_ref@ == d.external_ref,
{
}

/// Reading back the stored text of a status gives that status again.
pub proof fn listed_status_round_trip(status: DepositStatus)
    ensures
        status_of_text(status_text(status)) == status,
{
    reveal_strlit("pending");
    reveal_strlit("confirmed");
    reveal_strlit("failed");
    assert("pending"@.len() != "confirmed"@.len());
    assert("failed"@.len() != "confirmed"@.len());
    assert("pending"@ != "failed"@) by {
        assert("pending"@[0] != "failed"@[0]);
    }
}

/// Body of `POST /deposit/mock`: the asset, by symbol, and the amount.
pub struct CreatePendingDepositRequestPayload {
    pub asset_symbol: String,
    pub amount: rust_decimal::Decimal,
}

/// Body of `POST /deposit/mock/confirm`: the provider's reference.
pub struct ConfirmDepositRequestPayload {
    pub external_ref: String,
}

/// A deposit as the deposit routes report it.
pub struct DepositData {
    pub id: u128,
    pub asset_id: u128,
    pub amount: rust_decimal::Decimal,
    pub status: String,
    pub external_ref: String,
}

/// Envelope of the deposit routes' success replies.
pub struct DepositResponse {
    pub message: String,
    pub success: bool,
    pub data: DepositData,
}

/// Whether `data` reports `d`.
pub open spec fn reports_deposit(data: DepositData, d: DepositView) -> bool {
    &&& data.id == d.id
    &&& data.asset_id == d.asset_id
    &&& data.amount == d.amount
    &&& data.status@ == status_text(d.status)
    &&& data.external_ref@ == d.external_ref
}

fn deposit_response(message: &str, d: Deposit) -> (r: DepositResponse)
    ensures
        r.message@ == message@,
        r.success,
        reports_deposit(r.data, d@),
        r.data.id == d.id,
        r.data.asset_id == d.asset_id,
        r.data.amount == d.amount,
        r.data.status@ == status_text(d.status),
        r.data.external_ref@ == d.external_ref@,
{
    let status = status_str(&d.status).to_owned();
    DepositResponse {
        message: message.to_owned(),
        success: true,
        data: DepositData {
            id: d.id,
            asset_id: d.asset_id,
            amount: d.amount,
            status,
            external_ref: d.external_ref,
        },
    }
}

/// The asset that a deposit is made in: a failed lookup is a server error with
/// the driver's message; an unknown symbol is `404 unknown asset`.
pub fn require_asset(lookup: Result<Option<Assets>, DbError>) -> (res: Result<Assets, ApiError>)
    ensures
        match lookup {
            Err(e) => res matches Err(r) && r@ == (INTERNAL_SERVER_ERROR, e.text()),
            Ok(None) => res matches Err(r) && r@ == (NOT_FOUND, "unknown asset"@),
            Ok(Some(a)) => res == Ok::<Assets, ApiError>(a),
        },
{
    match lookup {
        Err(e) => Err(e.into_server_error()),
        Ok(None) => Err(ApiError::new(NOT_FOUND, "unknown asset")),
        Ok(Some(a)) => Ok(a),
    }
}

/// A fresh reference for a mock deposit: the text of a random UUID.
pub fn new_external_ref() -> (r: String)
    ensures
        exists|id: u128| is_random_uuid(id) && r@ == uuid_hyphenated(id),
{
    let id = new_v4_id();
    uuid_text(id)
}

/// Reply to `POST /deposit/mock` once the pending deposit was stored (or not).
pub fn create_reply(created: Result<Deposit, DbError>) -> (res: Result<DepositResponse, ApiError>)
    ensures
        match created {
            Err(e) => res matches Err(r) && r@ == (INTERNAL_SERVER_ERROR, e.text()),
            Ok(d) => res matches Ok(r) && r.message@ == "deposit created"@ && r.success
                && reports_deposit(r.data, d@) && r.data.id == d.id && r.data.asset_id
                == d.asset_id && r.data.amount == d.amount && r.data.status@ == status_text(
                d.status,
            ) && r.data.external_ref@ == d.external_ref@,
        },
{
    match created {
        Err(e) => Err(e.into_server_error()),
        Ok(d) => Ok(deposit_response("deposit created", d)),
    }
}

/// Reply to `POST /deposit/mock/confirm`: a missing row (unknown reference or
/// unconfirmable deposit) is `404`, any other failure a server error.
pub fn confirm_reply(confirmed: Result<Deposit, DbError>) -> (res: Result<DepositResponse, ApiError>)
    ensures
        match confirmed {
            Err(DbError::RowNotFound) => res matches Err(r) && r@ == (
                NOT_FOUND,
                "unknown or unconfirmable deposit"@,
            ),
            Err(DbError::Other(m)) => res matches Err(r) && r@ == (INTERNAL_SERVER_ERROR, m@),
            Ok(d) => res matches Ok(r) && r.message@ == "deposit confirmed"@ && r.success
                && reports_deposit(r.data, d@) && r.data.id == d.id && r.data.asset_id
                == d.asset_id && r.data.amount == d.amount && r.data.status@ == status_text(
                d.status,
            ) && r.data.external_ref@ == d.external_ref@,
        },
{
    match confirmed {
        Err(DbError::RowNotFound) => Err(ApiError::new(NOT_FOUND, "unknown or unconfirmable deposit")),
        Err(e) => Err(e.into_server_error()),
        Ok(d) => Ok(deposit_response("deposit confirmed", d)),
    }
}

} // verus!
