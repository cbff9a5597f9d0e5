//! The catalog refresh through the running terminal: raw remote lists in,
//! converted catalog rows and durable-mirror commands out.

use clubfridge_neo::database::{Database, Sale};
use clubfridge_neo::dates::Date;
use clubfridge_neo::decimal::Decimal;
use clubfridge_neo::running::{RunningClubFridge, Sale as CartSale};
use clubfridge_neo::state::{Action, GlobalState, Message, Options};
use clubfridge_neo::vereinsflieger;

fn global() -> GlobalState {
    GlobalState { options: Options::default(), self_updated: None, popup: None }
}

fn today() -> Date {
    Date { year: 2024, month: 6, day: 19 }
}

fn running() -> RunningClubFridge {
    RunningClubFridge {
        db: Database::new(),
        vereinsflieger: None,
        upload: None,
        user: None,
        input: String::new(),
        sales: Vec::new(),
        pending_sales: None,
        interaction_timeout: None,
    }
}

fn raw_price(from: &str, to: &str, price: &str) -> vereinsflieger::Price {
    vereinsflieger::Price {
        valid_from: from.to_string(),
        valid_to: to.to_string(),
        unit_price: price.to_string(),
    }
}

fn raw_key(name: &str) -> vereinsflieger::Key {
    vereinsflieger::Key { name: name.to_string(), title: "Schlüssel".to_string() }
}

#[test]
fn fetched_articles_replace_the_catalog_and_mirror() {
    let mut run = running();
    let mut g = global();

    let raw = vec![
        vereinsflieger::Article {
            article_id: "1".to_string(),
            designation: "Mate".to_string(),
            prices: vec![raw_price("2024-01-01", "2024-12-31", "0.90")],
        },
        vereinsflieger::Article {
            article_id: "2".to_string(),
            designation: "Kaputt".to_string(),
            prices: vec![raw_price("irgendwann", "2024-12-31", "0.90")],
        },
    ];

    let acts = run.update(Message::ArticlesFetched(raw), &mut g, today());

    // The malformed article is dropped, the good one is stored and mirrored.
    assert_eq!(run.db.articles.len(), 1);
    assert_eq!(run.db.articles[0].id, "1");
    assert_eq!(run.db.articles[0].prices[0].unit_price, Decimal { mantissa: 90, scale: 2 });
    assert_eq!(acts.len(), 1);
    assert!(matches!(acts[0], Action::PersistArticles(ref v) if v.len() == 1));
}

#[test]
fn fetched_users_become_one_member_row_per_valid_keycode() {
    let mut run = running();
    let mut g = global();

    let raw = vec![
        vereinsflieger::User {
            member_id: "11011".to_string(),
            first_name: "Tobias".to_string(),
            last_name: "Bieniek".to_string(),
            nickname: "Turbo".to_string(),
            keymanagement: vec![raw_key("0005635570"), raw_key("055FDF2"), raw_key("20 Euro")],
        },
        vereinsflieger::User {
            member_id: "11012".to_string(),
            first_name: "Jane".to_string(),
            last_name: "Doe".to_string(),
            nickname: "".to_string(),
            keymanagement: vec![raw_key("kaputt")],
        },
    ];

    let acts = run.update(Message::UsersFetched(raw), &mut g, today());

    // Both keys of the first user normalize to the same code; the catalog
    // keys members by keycode, so one row survives.  The second user has
    // no valid key and is dropped.
    assert_eq!(run.db.members.len(), 1);
    assert_eq!(run.db.members[0].keycode, "0005635570");
    assert_eq!(run.db.members[0].id, "11011");
    assert_eq!(run.db.members[0].nickname, "Turbo");
    assert_eq!(acts.len(), 1);
    assert!(matches!(acts[0], Action::PersistMembers(ref v) if v.len() == 2));
}

#[test]
fn pull_leaves_the_ledger_alone() {
    let mut run = running();
    let mut g = global();
    Sale::insert_all(
        &mut run.db,
        vec![Sale {
            id: 7,
            date: today(),
            member_id: "11011".to_string(),
            article_id: "1".to_string(),
            amount: 1,
        }],
    );

    run.update(Message::ArticlesFetched(Vec::new()), &mut g, today());
    run.update(Message::UsersFetched(Vec::new()), &mut g, today());

    assert_eq!(Sale::load_all(&run.db).len(), 1);
}

#[test]
fn cart_line_total_is_amount_times_unit_price() {
    let article = clubfridge_neo::database::Article {
        id: "1".to_string(),
        designation: "Mate".to_string(),
        prices: vec![clubfridge_neo::database::Price {
            valid_from: Date { year: 2024, month: 1, day: 1 },
            valid_to: Date { year: 2024, month: 12, day: 31 },
            unit_price: Decimal { mantissa: 90, scale: 2 },
        }],
    };

    let line = CartSale { amount: 3, article };
    assert_eq!(line.total(&today()), Decimal { mantissa: 270, scale: 2 });
    assert_eq!(
        line.total(&Date { year: 2025, month: 1, day: 1 }),
        Decimal { mantissa: 0, scale: 0 }
    );
}
