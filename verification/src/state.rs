//! The top of the session state machine: the application options, the
//! global state shared by every screen, the message and action vocabulary,
//! and the dispatcher that sequences Starting, Setup and Running.
//!
//! Every externally triggered event (a keystroke, a timer tick, a completed
//! storage or network operation) arrives as a [`Message`]; handling one
//! mutates the state and returns the [`Action`]s the shell must perform.
//! Events are handled to completion, one at a time, so no two mutations of
//! the interaction state ever race.

use vstd::prelude::*;

use crate::database::{Article, Credentials, Database, Member, Sale};
use crate::dates::Date;
use crate::popup::Popup;
use crate::running::RunningClubFridge;
use crate::setup::Setup;
use crate::starting::StartingClubFridge;
use crate::vereinsflieger;
use crate::vereinsflieger::Client;

verus! {

/// Start-up options of the terminal.
pub struct Options {
    /// Run in fullscreen.
    pub fullscreen: bool,
    /// The connect string of the local database file.
    pub database: String,
    /// Run in offline mode: no network requests at all.
    pub offline: bool,
    /// When an update is available, offer a button that quits the
    /// application (for installations restarted by a supervisor).
    pub update_button: bool,
}

impl Default for Options {
    /// Windowed, online, against the default database file.
    fn default() -> (r: Options)
        ensures
            !r.fullscreen,
            r.database@ == "clubfridge.db?mode=rwc"@,
            !r.offline,
            !r.update_button,
    {
        Options {
            fullscreen: false,
            database: String::from_str("clubfridge.db?mode=rwc"),
            offline: false,
            update_button: false,
        }
    }
}

/// A keyboard event, as the input surface delivers it: scanners type their
/// payload character by character and finish with an accept key.
pub enum Key {
    /// A character was typed.
    Character(char),
    /// The accept key finished the current scan.
    Enter,
}

/// An externally triggered event, handled to completion by
/// [`ClubFridge::update`].
pub enum Message {
    /// The storage was opened and its rows loaded.
    DatabaseConnected(Database),
    /// The storage could not be opened; fatal for this attempt.
    DatabaseConnectionFailed,
    /// The schema migrations ran through.
    DatabaseMigrated,
    /// The schema migrations failed; fatal for this attempt.
    DatabaseMigrationFailed,
    /// Credentials were found in the storage.
    CredentialsFound(Credentials),
    /// No credentials exist; the operator must enter them.
    GotoSetup(Database),

    /// The operator edited the club id field.
    SetClubId(String),
    /// The operator edited the application key field.
    SetAppKey(String),
    /// The operator edited the username field.
    SetUsername(String),
    /// The operator edited the password field.
    SetPassword(String),
    /// The operator submitted the setup form.
    SubmitSetup,
    /// The verification round-trip succeeded and returned this token.
    CredentialsVerified(String),
    /// The credentials were durably stored.
    CredentialsSaved,
    /// Storing the credentials failed.
    CredentialsSaveFailed,
    /// The verification round-trip failed.
    AuthenticationFailed,

    /// Start-up is complete; the terminal enters the scan/checkout loop,
    /// online when a client is carried along.
    StartupComplete(Database, Option<Client>),

    /// A newer version of the application is ready; show the indicator.
    UpdateAvailable(String),
    /// Refresh the catalog from the remote service.
    LoadFromVF,
    /// The remote article list arrived.
    ArticlesFetched(Vec<vereinsflieger::Article>),
    /// The remote member list arrived.
    UsersFetched(Vec<vereinsflieger::User>),
    /// Push the pending sales to the remote service.
    UploadSalesToVF,
    /// One submitted sale was acknowledged (`accepted`) or refused.
    SaleSubmitted { accepted: bool },
    /// A keyboard event arrived.
    KeyPress(Key),
    /// The operator triggered checkout.
    Pay,
    /// The operator cancelled the interaction.
    Cancel,
    /// One second of the interaction countdown passed.
    DecrementTimeout,
    /// The popup auto-dismiss timer expired.
    PopupTimeoutReached,
    /// The checkout batch was durably appended to the ledger.
    SalesSaved,
    /// Appending the checkout batch failed; nothing was cleared.
    SavingSalesFailed,
    /// The application should shut down.
    Shutdown,
}

/// A command for the shell around the core.  Each action stands for one
/// outside effect; the shell performs it and reports the outcome as the
/// message named in the action's documentation.
pub enum Action {
    /// Open the durable storage and load its rows; report
    /// `DatabaseConnected` or `DatabaseConnectionFailed`.
    ConnectDatabase,
    /// Apply the schema migrations idempotently; report `DatabaseMigrated`
    /// or `DatabaseMigrationFailed`.
    RunMigrations,
    /// Feed this message back into the update loop.
    Dispatch(Message),
    /// Verify these credentials against the remote service with one
    /// round-trip; report `CredentialsVerified` or `AuthenticationFailed`.
    VerifyCredentials(Credentials),
    /// Durably store these credentials; report `CredentialsSaved` or
    /// `CredentialsSaveFailed`.
    PersistCredentials(Credentials),
    /// Fetch the full article and member lists from the remote service;
    /// report `ArticlesFetched` and `UsersFetched`, or nothing on failure
    /// (the pull is retried on the next timer tick).
    FetchCatalog,
    /// Durably replace the stored article rows with these.
    PersistArticles(Vec<Article>),
    /// Durably replace the stored member rows with these.
    PersistMembers(Vec<Member>),
    /// Durably append this checkout batch to the ledger, all rows in one
    /// transaction; report `SalesSaved` or `SavingSalesFailed`.
    SaveSales(Vec<Sale>),
    /// Submit this sale to the remote service; report `SaleSubmitted`.
    SubmitSale(Sale),
    /// Durably delete the acknowledged sale with this id.
    DeleteSale(u128),
    /// Arm the popup auto-dismiss timer; report `PopupTimeoutReached`.
    StartPopupTimer,
    /// Close the application.
    Shutdown,
}

/// State shared by every screen: the options, the update indicator, and
/// the popup currently shown, if any.
pub struct GlobalState {
    pub options: Options,
    /// The version an update was found for, if any.
    pub self_updated: Option<String>,
    /// The popup currently shown, if any.
    pub popup: Option<Popup>,
}

impl GlobalState {
    /// Show a popup with the given text, replacing any current one.
    /// Whether it dismisses itself is the caller's choice: transient
    /// notices also issue [`Action::StartPopupTimer`].
    pub fn show_popup(&mut self, message: String)
        ensures
            final(self).popup == Some(Popup { message }),
            final(self).options == old(self).options,
            final(self).self_updated == old(self).self_updated,
    {
        self.popup = Some(Popup::new(message));
    }

    /// Hide the popup, if one is shown.
    pub fn hide_popup(&mut self)
        ensures
            final(self).popup is None,
            final(self).options == old(self).options,
            final(self).self_updated == old(self).self_updated,
    {
        self.popup = None;
    }
}

} // verus!

verus! {

/// The screen the application is on.
pub enum State {
    /// Starting up: connecting to storage, running migrations, looking up
    /// credentials.
    Starting(StartingClubFridge),
    /// Collecting credentials from the operator; reachable only when none
    /// are stored.
    Setup(Setup),
    /// The steady scan/checkout loop.
    Running(RunningClubFridge),
}

/// The whole application state.
pub struct ClubFridge {
    pub global_state: GlobalState,
    pub state: State,
}

/// The text of the start-up notice.
pub open spec fn start_text() -> Seq<char> {
    "ClubFridge neo gestartet"@
}

/// What creating the application establishes: the start-up screen, the
/// start-up notice, and the commands that open the storage and arm the
/// notice timer.
pub open spec fn club_new_post(options: Options, cf: ClubFridge, acts: Seq<Action>) -> bool {
    &&& cf.global_state.options == options
    &&& cf.global_state.self_updated is None
    &&& cf.global_state.popup matches Some(p) && p.message@ == start_text()
    &&& cf.state matches State::Starting(s)
    &&& s.db is None
    &&& !s.migrations_finished
    &&& acts == seq![Action::ConnectDatabase, Action::StartPopupTimer]
}

/// What handling one message does to the application: the screen
/// transitions and the few global events are decided here, everything else
/// is delegated to the current screen.
pub open spec fn top_update_post(
    pre: ClubFridge,
    post: ClubFridge,
    msg: Message,
    acts: Seq<Action>,
    today: crate::dates::Date,
) -> bool {
    match msg {
        Message::GotoSetup(d) => {
            &&& post.global_state == pre.global_state
            &&& post.state matches State::Setup(s)
            &&& s.db == Some(d)
            &&& s.club_id@ == Seq::<char>::empty()
            &&& s.app_key@ == Seq::<char>::empty()
            &&& s.username@ == Seq::<char>::empty()
            &&& s.password@ == Seq::<char>::empty()
            &&& s.pending_token is None
            &&& acts.len() == 0
        },
        Message::StartupComplete(d, client) => {
            &&& post.global_state == pre.global_state
            &&& post.state matches State::Running(r)
            &&& crate::running::running_new_post(d, client, r, acts)
        },
        Message::UpdateAvailable(v) => {
            &&& post.state == pre.state
            &&& post.global_state.options == pre.global_state.options
            &&& post.global_state.popup == pre.global_state.popup
            &&& post.global_state.self_updated == Some(v)
            &&& acts.len() == 0
        },
        Message::PopupTimeoutReached => {
            &&& post.state == pre.state
            &&& post.global_state.options == pre.global_state.options
            &&& post.global_state.self_updated == pre.global_state.self_updated
            &&& post.global_state.popup is None
            &&& acts.len() == 0
        },
        Message::Shutdown => {
            &&& post == pre
            &&& acts == seq![Action::Shutdown]
        },
        _ => {
            match pre.state {
                State::Starting(s0) => {
                    &&& post.state matches State::Starting(s1)
                    &&& crate::starting::starting_update_post(
                        s0,
                        s1,
                        pre.global_state,
                        post.global_state,
                        msg,
                        acts,
                    )
                },
                State::Setup(s0) => {
                    &&& post.state matches State::Setup(s1)
                    &&& crate::setup::setup_update_post(
                        s0,
                        s1,
                        pre.global_state,
                        post.global_state,
                        msg,
                        acts,
                    )
                },
                State::Running(r0) => {
                    &&& post.state matches State::Running(r1)
                    &&& crate::running::running_update_post(
                        r0,
                        r1,
                        pre.global_state,
                        post.global_state,
                        msg,
                        acts,
                        today,
                    )
                },
            }
        },
    }
}

impl ClubFridge {
    /// Create the application in its start-up screen.
    pub fn new(options: Options) -> (r: (ClubFridge, Vec<Action>))
        ensures
            club_new_post(options, r.0, r.1@),
    {
        let global_state = GlobalState {
            options,
            self_updated: None,
            popup: Some(Popup::new(String::from_str("ClubFridge neo gestartet"))),
        };
        let cf = ClubFridge { global_state, state: State::Starting(StartingClubFridge::new()) };
        let acts = vec![Action::ConnectDatabase, Action::StartPopupTimer];
        proof {
            assert(acts@ =~= seq![Action::ConnectDatabase, Action::StartPopupTimer]);
        }
        (cf, acts)
    }

    /// Handle one message.  `today` is the calendar date decisions are
    /// made against; the shell takes it from the clock.
    pub fn update(&mut self, message: Message, today: crate::dates::Date) -> (acts: Vec<Action>)
        ensures
            top_update_post(*old(self), *final(self), message, acts@, today),
    {
        match message {
            Message::GotoSetup(d) => {
                self.state = State::Setup(Setup::new(d));
                Vec::new()
            },
            Message::StartupComplete(d, client) => {
                let (running, acts) = RunningClubFridge::new(d, client);
                self.state = State::Running(running);
                acts
            },
            Message::UpdateAvailable(v) => {
                self.global_state.self_updated = Some(v);
                Vec::new()
            },
            Message::PopupTimeoutReached => {
                self.global_state.hide_popup();
                Vec::new()
            },
            Message::Shutdown => {
                let acts = vec![Action::Shutdown];
                proof {
                    assert(acts@ =~= seq![Action::Shutdown]);
                }
                acts
            },
            msg => {
                match &mut self.state {
                    State::Starting(cf) => cf.update(msg, &mut self.global_state),
                    State::Setup(cf) => cf.update(msg, &mut self.global_state),
                    State::Running(cf) => cf.update(msg, &mut self.global_state, today),
                }
            },
        }
    }
}

} // verus!
