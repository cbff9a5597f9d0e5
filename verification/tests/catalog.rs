//! The catalog mirror: wholesale replacement with per-row best effort,
//! lookups, price ranges, and the conversion of raw remote records.

use clubfridge_neo::database::{Article, Database, Member, Price};
use clubfridge_neo::dates::{parse_date, today, Date};
use clubfridge_neo::decimal::{parse_decimal, Decimal};
use clubfridge_neo::vereinsflieger;

fn member(keycode: &str, id: &str, firstname: &str) -> Member {
    Member {
        keycode: keycode.to_string(),
        id: id.to_string(),
        firstname: firstname.to_string(),
        lastname: "Doe".to_string(),
        nickname: "".to_string(),
    }
}

fn date(year: i16, month: i8, day: i8) -> Date {
    Date { year, month, day }
}

fn price(from: Date, to: Date, cents: i128) -> Price {
    Price { valid_from: from, valid_to: to, unit_price: Decimal { mantissa: cents, scale: 2 } }
}

#[test]
fn test_duplicate_article_insertion() {
    let article1 = Article {
        id: "1".to_string(),
        designation: "Test Artikel 1".to_string(),
        prices: vec![],
    };

    let article2 = Article {
        id: "1".to_string(),
        designation: "Test Artikel 2".to_string(),
        prices: vec![],
    };

    let articles = vec![article1, article2];

    let mut db = Database::new();
    Article::save_all(&mut db, articles);

    assert_eq!(db.articles.len(), 1);
    assert_eq!(db.articles[0].designation, "Test Artikel 1");
}

#[test]
fn test_duplicate_member_insertion() {
    let member1 = member("0005635570", "1", "John");
    let member2 = member("0005635570", "1", "Jane");

    let members = vec![member1, member2];

    let mut db = Database::new();
    Member::save_all(&mut db, members);

    assert_eq!(db.members.len(), 1);
    assert_eq!(db.members[0].firstname, "John");
}

#[test]
fn replace_members_is_idempotent() {
    let members = vec![
        member("0000000001", "1", "John"),
        member("0000000002", "2", "Jane"),
        member("0000000001", "3", "Jim"),
    ];
    let again = members.clone();

    let mut db = Database::new();
    Member::save_all(&mut db, members);
    let after_once: Vec<(String, String)> =
        db.members.iter().map(|m| (m.keycode.clone(), m.id.clone())).collect();

    Member::save_all(&mut db, again);
    let after_twice: Vec<(String, String)> =
        db.members.iter().map(|m| (m.keycode.clone(), m.id.clone())).collect();

    assert_eq!(after_once, after_twice);
    assert_eq!(after_once.len(), 2);
}

#[test]
fn find_member_by_keycode() {
    let mut db = Database::new();
    Member::save_all(
        &mut db,
        vec![member("0000000001", "1", "John"), member("0000000002", "2", "Jane")],
    );

    let hit = Member::find_by_keycode(&db, &"0000000002".to_string()).unwrap();
    assert_eq!(hit.id, "2");
    assert!(Member::find_by_keycode(&db, &"0000000003".to_string()).is_none());
}

#[test]
fn price_for_date_picks_the_covering_range() {
    let article = Article {
        id: "1".to_string(),
        designation: "Mate".to_string(),
        prices: vec![
            price(date(2024, 1, 1), date(2024, 6, 30), 90),
            price(date(2024, 7, 1), date(2024, 12, 31), 120),
        ],
    };

    assert_eq!(
        article.price_for_date(&date(2024, 3, 15)),
        Some(Decimal { mantissa: 90, scale: 2 })
    );
    assert_eq!(
        article.price_for_date(&date(2024, 7, 1)),
        Some(Decimal { mantissa: 120, scale: 2 })
    );
    assert_eq!(
        article.price_for_date(&date(2024, 12, 31)),
        Some(Decimal { mantissa: 120, scale: 2 })
    );
    assert_eq!(article.price_for_date(&date(2025, 1, 1)), None);
    assert_eq!(article.price_for_date(&date(2023, 12, 31)), None);
}

#[test]
fn current_price_uses_a_real_date() {
    let article = Article {
        id: "1".to_string(),
        designation: "Mate".to_string(),
        prices: vec![price(date(2000, 1, 1), date(2999, 12, 31), 90)],
    };
    assert_eq!(article.current_price(), Some(Decimal { mantissa: 90, scale: 2 }));

    let never = Article { id: "2".to_string(), designation: "Nichts".to_string(), prices: vec![] };
    assert_eq!(never.current_price(), None);
}

#[test]
fn today_is_a_valid_date() {
    let d = today();
    assert!((1..=12).contains(&d.month));
    assert!((1..=31).contains(&d.day));
    assert!(d.year >= 2020);
}

#[test]
fn parse_date_reads_iso_dates() {
    assert_eq!(parse_date("2024-06-19"), Some(date(2024, 6, 19)));
    assert_eq!(parse_date("1999-12-31"), Some(date(1999, 12, 31)));
    assert_eq!(parse_date("2024-02-30"), None);
    assert_eq!(parse_date("not a date"), None);
}

#[test]
fn parse_decimal_reads_prices() {
    assert_eq!(parse_decimal("0.90"), Some(Decimal { mantissa: 90, scale: 2 }));
    assert_eq!(parse_decimal("1.20"), Some(Decimal { mantissa: 120, scale: 2 }));
    assert_eq!(parse_decimal("3"), Some(Decimal { mantissa: 3, scale: 0 }));
    assert_eq!(parse_decimal("-0.5"), Some(Decimal { mantissa: -5, scale: 1 }));
    assert_eq!(parse_decimal("zwanzig"), None);
}

#[test]
fn article_conversion_requires_every_price_to_parse() {
    let good = vereinsflieger::Article {
        article_id: "3800235265659".to_string(),
        designation: "Mate".to_string(),
        prices: vec![vereinsflieger::Price {
            valid_from: "2024-01-01".to_string(),
            valid_to: "2024-12-31".to_string(),
            unit_price: "0.90".to_string(),
        }],
    };
    let converted = Article::try_from(good).unwrap();
    assert_eq!(converted.id, "3800235265659");
    assert_eq!(converted.prices.len(), 1);
    assert_eq!(converted.prices[0].valid_from, date(2024, 1, 1));
    assert_eq!(converted.prices[0].unit_price, Decimal { mantissa: 90, scale: 2 });

    let bad = vereinsflieger::Article {
        article_id: "1".to_string(),
        designation: "Kaputt".to_string(),
        prices: vec![vereinsflieger::Price {
            valid_from: "2024-01-01".to_string(),
            valid_to: "2024-12-31".to_string(),
            unit_price: "kein Preis".to_string(),
        }],
    };
    assert!(Article::try_from(bad).is_none());
}
