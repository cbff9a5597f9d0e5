//! The session state machine: start-up, setup, the scan/checkout loop,
//! the interaction timeout, and the token-lifecycle flow.

use clubfridge_neo::database::{Article, Credentials, Database, Member, Price, Sale};
use clubfridge_neo::dates::Date;
use clubfridge_neo::decimal::Decimal;
use clubfridge_neo::popup::Popup;
use clubfridge_neo::running::RunningClubFridge;
use clubfridge_neo::state::{Action, ClubFridge, GlobalState, Key, Message, Options, State};
use clubfridge_neo::vereinsflieger::{Client, FlowStep, RequestPhase};

fn global() -> GlobalState {
    GlobalState { options: Options::default(), self_updated: None, popup: None }
}

fn today() -> Date {
    Date { year: 2024, month: 6, day: 19 }
}

fn catalog_db() -> Database {
    let mut db = Database::new();
    Member::save_all(
        &mut db,
        vec![Member {
            keycode: "0005635570".to_string(),
            id: "0005635570".to_string(),
            firstname: "John".to_string(),
            lastname: "Doe".to_string(),
            nickname: "".to_string(),
        }],
    );
    let range = |cents: i128| {
        vec![Price {
            valid_from: Date { year: 2000, month: 1, day: 1 },
            valid_to: Date { year: 2999, month: 12, day: 31 },
            unit_price: Decimal { mantissa: cents, scale: 2 },
        }]
    };
    Article::save_all(
        &mut db,
        vec![
            Article {
                id: "3800235265659".to_string(),
                designation: "Mate".to_string(),
                prices: range(90),
            },
            Article {
                id: "3800235266700".to_string(),
                designation: "Limo".to_string(),
                prices: range(120),
            },
        ],
    );
    db
}

fn offline_running(db: Database) -> RunningClubFridge {
    RunningClubFridge {
        db,
        vereinsflieger: None,
        upload: None,
        user: None,
        input: String::new(),
        sales: Vec::new(),
        pending_sales: None,
        interaction_timeout: None,
    }
}

fn scan(run: &mut RunningClubFridge, g: &mut GlobalState, code: &str) -> Vec<Action> {
    for c in code.chars() {
        run.update(Message::KeyPress(Key::Character(c)), g, today());
    }
    run.update(Message::KeyPress(Key::Enter), g, today())
}

#[test]
fn test_initial_state() {
    let (cf, _) = ClubFridge::new(Options::default());
    assert!(matches!(cf.state, State::Starting(_)));
}

#[test]
fn end_to_end_checkout_records_the_cart() {
    let mut run = offline_running(catalog_db());
    let mut g = global();

    // Identify the member.
    let acts = scan(&mut run, &mut g, "0005635570");
    assert!(acts.is_empty());
    assert_eq!(run.user.as_ref().unwrap().id, "0005635570");
    assert_eq!(run.interaction_timeout, Some(60));

    // Two bottles of the first article, one of the second.
    scan(&mut run, &mut g, "3800235265659");
    scan(&mut run, &mut g, "3800235265659");
    scan(&mut run, &mut g, "3800235266700");
    assert_eq!(run.sales.len(), 2);
    assert_eq!(run.sales[0].amount, 2);
    assert_eq!(run.sales[1].amount, 1);

    // Pay: the batch goes to storage, nothing is cleared yet.
    let acts = run.update(Message::Pay, &mut g, today());
    assert_eq!(acts.len(), 1);
    assert!(matches!(acts[0], Action::SaveSales(ref b) if b.len() == 2));
    assert!(run.user.is_some());
    assert_eq!(run.sales.len(), 2);

    // Storage acknowledges: the ledger holds the sales, the cart is done.
    let acts = run.update(Message::SalesSaved, &mut g, today());
    assert!(matches!(acts[0], Action::StartPopupTimer));
    assert!(matches!(acts[1], Action::Dispatch(Message::UploadSalesToVF)));

    let rows = Sale::load_all(&run.db);
    assert_eq!(rows.len(), 2);
    assert_eq!(rows[0].article_id, "3800235265659");
    assert_eq!(rows[0].amount, 2);
    assert_eq!(rows[0].member_id, "0005635570");
    assert_eq!(rows[0].date, today());
    assert_eq!(rows[1].article_id, "3800235266700");
    assert_eq!(rows[1].amount, 1);

    assert!(run.user.is_none());
    assert!(run.sales.is_empty());
    assert_eq!(g.popup.as_ref().unwrap().message, "Danke für deinen Kauf");
}

#[test]
fn unknown_member_and_article_show_notices() {
    let mut run = offline_running(catalog_db());
    let mut g = global();

    let acts = scan(&mut run, &mut g, "0000000099");
    assert!(matches!(acts[0], Action::StartPopupTimer));
    assert!(run.user.is_none());
    assert_eq!(g.popup.as_ref().unwrap().message, "Benutzer nicht gefunden (0000000099)");

    scan(&mut run, &mut g, "0005635570");
    let acts = scan(&mut run, &mut g, "4000000000000");
    assert!(matches!(acts[0], Action::StartPopupTimer));
    assert!(run.sales.is_empty());
    assert_eq!(g.popup.as_ref().unwrap().message, "Artikel nicht gefunden (4000000000000)");
}

#[test]
fn unpriced_article_is_not_sellable() {
    let mut db = catalog_db();
    Article::save_all(
        &mut db,
        vec![Article { id: "1".to_string(), designation: "Alt".to_string(), prices: vec![] }],
    );
    let mut run = offline_running(db);
    let mut g = global();

    scan(&mut run, &mut g, "0005635570");
    let acts = scan(&mut run, &mut g, "1");
    assert!(matches!(acts[0], Action::StartPopupTimer));
    assert!(run.sales.is_empty());
    assert_eq!(g.popup.as_ref().unwrap().message, "Artikel hat keinen Preis (1)");
}

#[test]
fn failed_save_keeps_cart_and_member() {
    let mut run = offline_running(catalog_db());
    let mut g = global();

    scan(&mut run, &mut g, "0005635570");
    scan(&mut run, &mut g, "3800235265659");
    run.update(Message::Pay, &mut g, today());

    let acts = run.update(Message::SavingSalesFailed, &mut g, today());
    assert!(matches!(acts[0], Action::StartPopupTimer));
    assert!(run.user.is_some());
    assert_eq!(run.sales.len(), 1);
    assert!(run.pending_sales.is_none());
    assert!(Sale::load_all(&run.db).is_empty());
}

#[test]
fn timeout_with_empty_cart_cancels() {
    let mut run = offline_running(catalog_db());
    let mut g = global();

    scan(&mut run, &mut g, "0005635570");
    assert_eq!(run.interaction_timeout, Some(60));

    let mut fired = Vec::new();
    for _ in 0..60 {
        fired = run.update(Message::DecrementTimeout, &mut g, today());
    }
    assert!(matches!(fired[0], Action::Dispatch(Message::Cancel)));
    assert!(run.interaction_timeout.is_none());

    let acts = run.update(Message::Cancel, &mut g, today());
    assert!(acts.is_empty());
    assert!(run.user.is_none());
    assert!(run.sales.is_empty());
    assert!(Sale::load_all(&run.db).is_empty());
}

#[test]
fn timeout_with_cart_pays() {
    let mut run = offline_running(catalog_db());
    let mut g = global();

    scan(&mut run, &mut g, "0005635570");
    scan(&mut run, &mut g, "3800235265659");
    let mut fired = Vec::new();
    for _ in 0..60 {
        fired = run.update(Message::DecrementTimeout, &mut g, today());
    }
    assert!(matches!(fired[0], Action::Dispatch(Message::Pay)));
}

#[test]
fn reauthentication_is_transparent_and_single() {
    let mut client = Client::new(Credentials {
        club_id: 1,
        app_key: "app_key".to_string(),
        username: "username".to_string(),
        password: "password".to_string(),
    });
    client.set_access_token("stale".to_string());

    // The cached token is used first.
    let step = client.begin_request();
    assert!(matches!(step, FlowStep::Invoke { ref token, phase: RequestPhase::First } if token == "stale"));

    // The service rejects it: exactly one credential exchange follows.
    let step = client.on_operation_result(RequestPhase::First, true);
    assert!(matches!(step, FlowStep::FetchToken));

    let step = client.on_token_fetched(Some("fresh".to_string()));
    assert!(matches!(step, FlowStep::Invoke { ref token, phase: RequestPhase::Second } if token == "fresh"));

    // The retry succeeds: the caller sees only the result, the fresh token stays.
    let step = client.on_operation_result(RequestPhase::Second, false);
    assert!(matches!(step, FlowStep::Done));
    assert_eq!(client.access_token.as_deref(), Some("fresh"));
}

#[test]
fn rejected_fresh_token_clears_the_cache() {
    let mut client = Client::new(Credentials {
        club_id: 1,
        app_key: "app_key".to_string(),
        username: "username".to_string(),
        password: "password".to_string(),
    });

    let step = client.begin_request();
    assert!(matches!(step, FlowStep::FetchToken));

    client.on_token_fetched(Some("fresh".to_string()));
    let step = client.on_operation_result(RequestPhase::Second, true);
    assert!(matches!(step, FlowStep::FailedAuth));
    assert!(client.access_token.is_none());

    // A failed exchange writes no token either.
    let step = client.on_token_fetched(None);
    assert!(matches!(step, FlowStep::FailedFetch));
    assert!(client.access_token.is_none());
}

#[test]
fn startup_goes_through_migrations_to_running() {
    let (mut cf, acts) = ClubFridge::new(Options::default());
    assert!(matches!(acts[0], Action::ConnectDatabase));
    assert_eq!(cf.global_state.popup.as_ref().unwrap().message, "ClubFridge neo gestartet");

    let mut db = Database::new();
    Credentials {
        club_id: 1,
        app_key: "app_key".to_string(),
        username: "username".to_string(),
        password: "password".to_string(),
    }
    .insert(&mut db);

    let acts = cf.update(Message::DatabaseConnected(db), today());
    assert!(matches!(acts[0], Action::RunMigrations));

    let acts = cf.update(Message::DatabaseMigrated, today());
    assert_eq!(acts.len(), 1);
    let found = match &acts[0] {
        Action::Dispatch(Message::CredentialsFound(c)) => c.clone(),
        _ => panic!("expected a credentials dispatch"),
    };
    assert_eq!(found.club_id, 1);

    let acts = cf.update(Message::CredentialsFound(found), today());
    let startup = match acts.into_iter().next() {
        Some(Action::Dispatch(m)) => m,
        _ => panic!("expected a dispatch"),
    };
    let acts = cf.update(startup, today());
    assert!(matches!(cf.state, State::Running(_)));
    // Online start-up triggers the catalog refresh and the sale push.
    assert_eq!(acts.len(), 2);
}

#[test]
fn startup_without_credentials_goes_to_setup() {
    let (mut cf, _) = ClubFridge::new(Options::default());
    cf.update(Message::DatabaseConnected(Database::new()), today());
    let acts = cf.update(Message::DatabaseMigrated, today());
    let goto = match acts.into_iter().next() {
        Some(Action::Dispatch(m)) => m,
        _ => panic!("expected a dispatch"),
    };
    cf.update(goto, today());
    assert!(matches!(cf.state, State::Setup(_)));
}

#[test]
fn setup_verifies_before_persisting() {
    let (mut cf, _) = ClubFridge::new(Options::default());
    cf.update(Message::DatabaseConnected(Database::new()), today());
    let acts = cf.update(Message::DatabaseMigrated, today());
    let goto = match acts.into_iter().next() {
        Some(Action::Dispatch(m)) => m,
        _ => panic!("expected a dispatch"),
    };
    cf.update(goto, today());

    // A club id that is no number is not even accepted into the field.
    cf.update(Message::SetClubId("zwei".to_string()), today());
    cf.update(Message::SetClubId("2".to_string()), today());
    cf.update(Message::SetAppKey("app_key".to_string()), today());
    cf.update(Message::SetUsername("username".to_string()), today());
    cf.update(Message::SetPassword("geheim".to_string()), today());

    let acts = cf.update(Message::SubmitSetup, today());
    assert!(matches!(acts[0], Action::VerifyCredentials(ref c) if c.club_id == 2));

    // A failed verification keeps the setup screen.
    let acts = cf.update(Message::AuthenticationFailed, today());
    assert!(matches!(acts[0], Action::StartPopupTimer));
    assert!(matches!(cf.state, State::Setup(_)));

    // A successful verification persists first, then starts.
    let acts = cf.update(Message::CredentialsVerified("token".to_string()), today());
    assert!(matches!(acts[0], Action::PersistCredentials(_)));
    let acts = cf.update(Message::CredentialsSaved, today());
    let startup = match acts.into_iter().next() {
        Some(Action::Dispatch(m)) => m,
        _ => panic!("expected a dispatch"),
    };
    let _ = cf.update(startup, today());
    match &cf.state {
        State::Running(r) => {
            assert_eq!(r.db.credentials.as_ref().unwrap().club_id, 2);
            let client = r.vereinsflieger.as_ref().unwrap();
            assert_eq!(client.access_token.as_deref(), Some("token"));
        },
        _ => panic!("expected the running state"),
    }
}

#[test]
fn popup_carries_its_message() {
    let (p, act) = Popup::new("Hallo".to_string()).with_timeout();
    assert_eq!(p.message, "Hallo");
    assert!(matches!(act, Action::StartPopupTimer));
}

#[test]
fn offline_startup_skips_the_remote() {
    let mut options = Options::default();
    options.offline = true;
    let (mut cf, _) = ClubFridge::new(options);

    cf.update(Message::DatabaseConnected(Database::new()), today());
    let acts = cf.update(Message::DatabaseMigrated, today());
    let startup = match acts.into_iter().next() {
        Some(Action::Dispatch(m)) => m,
        _ => panic!("expected a dispatch"),
    };
    let acts = cf.update(startup, today());

    // Offline there is neither a catalog refresh nor a sale push to start.
    assert!(acts.is_empty());
    match &cf.state {
        State::Running(r) => assert!(r.vereinsflieger.is_none()),
        _ => panic!("expected the running state"),
    }
}

#[test]
fn setup_form_is_valid_once_every_field_is_filled() {
    let mut setup = clubfridge_neo::setup::Setup::new(Database::new());
    assert!(!setup.valid());
    setup.club_id = "2".to_string();
    setup.app_key = "app_key".to_string();
    setup.username = "username".to_string();
    assert!(!setup.valid());
    setup.password = "geheim".to_string();
    assert!(setup.valid());
}
