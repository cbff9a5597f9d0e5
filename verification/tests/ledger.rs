//! The sale ledger: batch append, recovery, per-id deletion, and the
//! single-flight push cycle with per-item success.

use clubfridge_neo::database::{Credentials, Database, Sale};
use clubfridge_neo::dates::Date;
use clubfridge_neo::running::RunningClubFridge;
use clubfridge_neo::state::{Action, GlobalState, Message, Options};
use clubfridge_neo::vereinsflieger::Client;

fn sale(id: u128, article_id: &str, amount: u32) -> Sale {
    Sale {
        id,
        date: Date { year: 2024, month: 6, day: 19 },
        member_id: "11011".to_string(),
        article_id: article_id.to_string(),
        amount,
    }
}

fn global() -> GlobalState {
    GlobalState { options: Options::default(), self_updated: None, popup: None }
}

fn online_client() -> Client {
    Client::new(Credentials {
        club_id: 1,
        app_key: "app_key".to_string(),
        username: "username".to_string(),
        password: "password".to_string(),
    })
}

fn running_with_sales(sales: Vec<Sale>) -> RunningClubFridge {
    let mut db = Database::new();
    Sale::insert_all(&mut db, sales);
    RunningClubFridge {
        db,
        vereinsflieger: Some(online_client()),
        upload: None,
        user: None,
        input: String::new(),
        sales: Vec::new(),
        pending_sales: None,
        interaction_timeout: None,
    }
}

#[test]
fn append_batch_keeps_every_line_item() {
    let mut db = Database::new();
    Sale::insert_all(&mut db, vec![sale(1, "a", 1)]);
    Sale::insert_all(&mut db, vec![sale(2, "b", 2), sale(3, "c", 3)]);

    let all = Sale::load_all(&db);
    assert_eq!(all.len(), 3);
    assert_eq!(all[0].id, 1);
    assert_eq!(all[1].id, 2);
    assert_eq!(all[1].amount, 2);
    assert_eq!(all[2].id, 3);
    assert_eq!(all[2].article_id, "c");
}

#[test]
fn delete_by_id_keeps_order_of_the_rest() {
    let mut db = Database::new();
    Sale::insert_all(&mut db, vec![sale(1, "a", 1), sale(2, "b", 1), sale(3, "c", 1)]);
    Sale::delete_by_id(&mut db, 2);

    let all = Sale::load_all(&db);
    assert_eq!(all.len(), 2);
    assert_eq!(all[0].id, 1);
    assert_eq!(all[1].id, 3);

    Sale::delete_by_id(&mut db, 99);
    assert_eq!(Sale::load_all(&db).len(), 2);
}

#[test]
fn push_cycle_partial_success_keeps_only_the_rejected_sale() {
    let mut run = running_with_sales(vec![sale(1, "a", 1), sale(2, "b", 1), sale(3, "c", 1)]);
    let mut g = global();
    let today = Date { year: 2024, month: 6, day: 19 };

    let acts = run.update(Message::UploadSalesToVF, &mut g, today);
    assert_eq!(acts.len(), 1);
    assert!(matches!(acts[0], Action::SubmitSale(ref s) if s.id == 1));

    // The first sale is acknowledged: it leaves the ledger, the second goes out.
    let acts = run.update(Message::SaleSubmitted { accepted: true }, &mut g, today);
    assert_eq!(acts.len(), 2);
    assert!(matches!(acts[0], Action::DeleteSale(1)));
    assert!(matches!(acts[1], Action::SubmitSale(ref s) if s.id == 2));

    // The second is rejected: it stays, the third goes out.
    let acts = run.update(Message::SaleSubmitted { accepted: false }, &mut g, today);
    assert_eq!(acts.len(), 1);
    assert!(matches!(acts[0], Action::SubmitSale(ref s) if s.id == 3));

    // The third is acknowledged; the cycle ends.
    let acts = run.update(Message::SaleSubmitted { accepted: true }, &mut g, today);
    assert_eq!(acts.len(), 1);
    assert!(matches!(acts[0], Action::DeleteSale(3)));
    assert!(run.upload.is_none());

    let left = Sale::load_all(&run.db);
    assert_eq!(left.len(), 1);
    assert_eq!(left[0].id, 2);
}

#[test]
fn push_is_single_flight() {
    let mut run = running_with_sales(vec![sale(1, "a", 1), sale(2, "b", 1)]);
    let mut g = global();
    let today = Date { year: 2024, month: 6, day: 19 };

    let first = run.update(Message::UploadSalesToVF, &mut g, today);
    assert_eq!(first.len(), 1);
    assert!(run.upload.is_some());

    // A second trigger while the cycle is in flight submits nothing.
    let second = run.update(Message::UploadSalesToVF, &mut g, today);
    assert!(second.is_empty());
    assert_eq!(run.upload.as_ref().unwrap().pos, 0);
    assert_eq!(Sale::load_all(&run.db).len(), 2);
}

#[test]
fn push_without_sales_or_client_is_a_no_op() {
    let mut g = global();
    let today = Date { year: 2024, month: 6, day: 19 };

    let mut idle = running_with_sales(Vec::new());
    assert!(idle.update(Message::UploadSalesToVF, &mut g, today).is_empty());
    assert!(idle.upload.is_none());

    let mut offline = running_with_sales(vec![sale(1, "a", 1)]);
    offline.vereinsflieger = None;
    assert!(offline.update(Message::UploadSalesToVF, &mut g, today).is_empty());
    assert!(offline.upload.is_none());
}
