//! The setup screen, reachable only when no credentials exist: the operator
//! enters club id, application key, username and password; on submission
//! one verification round-trip confirms the credentials before anything is
//! persisted; only verified, durably stored credentials lead into the
//! scan/checkout loop.  A failed check shows a transient notice and leaves
//! the screen as it is.

use vstd::prelude::*;

use crate::database::{Credentials, Database};
use crate::digits;
use crate::state::{Action, GlobalState, Message};
use crate::vereinsflieger::Client;

verus! {

/// The state of the setup screen: the storage it will write to, the four
/// form fields, and — between verification and persistence — the token the
/// round-trip returned.
pub struct Setup {
    pub db: Option<Database>,
    pub club_id: String,
    pub app_key: String,
    pub username: String,
    pub password: String,
    /// The access token of a successful verification, until the
    /// credentials are durably stored.
    pub pending_token: Option<String>,
}

/// The credentials the form currently describes, given that the club id
/// parses as a number.
pub open spec fn form_credentials(pre: Setup, cid: u32) -> Credentials {
    Credentials {
        club_id: cid,
        app_key: pre.app_key,
        username: pre.username,
        password: pre.password,
    }
}

/// What handling one message does to the setup screen.
pub open spec fn setup_update_post(
    pre: Setup,
    post: Setup,
    gpre: GlobalState,
    gpost: GlobalState,
    msg: Message,
    acts: Seq<Action>,
) -> bool {
    match msg {
        Message::SetClubId(v) => {
            &&& gpost == gpre
            &&& acts.len() == 0
            &&& (if v@.len() == 0 || digits::parse_u32_spec(v@) is Some {
                post == (Setup { club_id: v, ..pre })
            } else {
                post == pre
            })
        },
        Message::SetAppKey(v) => gpost == gpre && acts.len() == 0 && post == (Setup {
            app_key: v,
            ..pre
        }),
        Message::SetUsername(v) => gpost == gpre && acts.len() == 0 && post == (Setup {
            username: v,
            ..pre
        }),
        Message::SetPassword(v) => gpost == gpre && acts.len() == 0 && post == (Setup {
            password: v,
            ..pre
        }),
        Message::SubmitSetup => {
            match digits::parse_u32_spec(pre.club_id@) {
                Some(cid) => {
                    &&& post == pre
                    &&& gpost.options == gpre.options
                    &&& gpost.self_updated == gpre.self_updated
                    &&& gpost.popup matches Some(p) && p.message@ == "Prüfe Zugangsdaten…"@
                    &&& acts.len() == 1
                    &&& acts[0] matches Action::VerifyCredentials(c)
                    &&& c == form_credentials(pre, cid)
                },
                None => post == pre && gpost == gpre && acts.len() == 0,
            }
        },
        Message::CredentialsVerified(token) => {
            match digits::parse_u32_spec(pre.club_id@) {
                Some(cid) => {
                    &&& gpost == gpre
                    &&& post == (Setup { pending_token: Some(token), ..pre })
                    &&& acts.len() == 1
                    &&& acts[0] matches Action::PersistCredentials(c)
                    &&& c == form_credentials(pre, cid)
                },
                None => {
                    &&& gpost == gpre
                    &&& post == pre
                    &&& acts == seq![Action::Dispatch(Message::AuthenticationFailed)]
                },
            }
        },
        Message::CredentialsSaved => {
            match (pre.pending_token, pre.db, digits::parse_u32_spec(pre.club_id@)) {
                (Some(token), Some(d), Some(cid)) => {
                    &&& gpost == gpre
                    &&& post.db is None
                    &&& post.pending_token is None
                    &&& acts.len() == 1
                    &&& acts[0] matches Action::Dispatch(m)
                    &&& m matches Message::StartupComplete(d2, cl)
                    &&& d2.members == d.members
                    &&& d2.articles == d.articles
                    &&& d2.sales == d.sales
                    &&& d2.credentials == Some(form_credentials(pre, cid))
                    &&& cl matches Some(client)
                    &&& client.credentials == form_credentials(pre, cid)
                    &&& client.access_token == Some(token)
                },
                _ => post == pre && gpost == gpre && acts.len() == 0,
            }
        },
        Message::CredentialsSaveFailed => {
            &&& gpost == gpre
            &&& post == (Setup { pending_token: None, ..pre })
            &&& acts == seq![Action::Dispatch(Message::AuthenticationFailed)]
        },
        Message::AuthenticationFailed => {
            &&& gpost.options == gpre.options
            &&& gpost.self_updated == gpre.self_updated
            &&& gpost.popup matches Some(p) && p.message@ == "Authentifizierung fehlgeschlagen"@
            &&& post == pre
            &&& acts == seq![Action::StartPopupTimer]
        },
        _ => post == pre && gpost == gpre && acts.len() == 0,
    }
}

impl Setup {
    /// A fresh setup screen over the given storage, with empty fields.
    pub fn new(db: Database) -> (r: Setup)
        ensures
            r.db == Some(db),
            r.club_id@ == Seq::<char>::empty(),
            r.app_key@ == Seq::<char>::empty(),
            r.username@ == Seq::<char>::empty(),
            r.password@ == Seq::<char>::empty(),
            r.pending_token is None,
    {
        Setup {
            db: Some(db),
            club_id: String::new(),
            app_key: String::new(),
            username: String::new(),
            password: String::new(),
            pending_token: None,
        }
    }

    /// Whether the form is complete: every field holds something.
    pub fn valid(&self) -> (r: bool)
        ensures
            r == (self.club_id@.len() > 0 && self.app_key@.len() > 0 && self.username@.len() > 0
                && self.password@.len() > 0),
    {
        !self.club_id.as_str().is_empty() && !self.app_key.as_str().is_empty()
            && !self.username.as_str().is_empty() && !self.password.as_str().is_empty()
    }

    /// The credentials the form currently describes, if the club id parses.
    fn credentials(&self) -> (r: Option<Credentials>)
        ensures
            match digits::parse_u32_spec(self.club_id@) {
                Some(cid) => r == Some(form_credentials(*self, cid)),
                None => r is None,
            },
    {
        match digits::parse_u32(self.club_id.as_str()) {
            Some(cid) => Some(
                Credentials {
                    club_id: cid,
                    app_key: self.app_key.clone(),
                    username: self.username.clone(),
                    password: self.password.clone(),
                },
            ),
            None => None,
        }
    }

    /// Handle one message on the setup screen.
    pub fn update(&mut self, message: Message, global: &mut GlobalState) -> (acts: Vec<Action>)
        ensures
            setup_update_post(
                *old(self),
                *final(self),
                *old(global),
                *final(global),
                message,
                acts@,
            ),
    {
        match message {
            Message::SetClubId(v) => {
                if v.as_str().is_empty() || digits::parse_u32(v.as_str()).is_some() {
                    self.club_id = v;
                }
                Vec::new()
            },
            Message::SetAppKey(v) => {
                self.app_key = v;
                Vec::new()
            },
            Message::SetUsername(v) => {
                self.username = v;
                Vec::new()
            },
            Message::SetPassword(v) => {
                self.password = v;
                Vec::new()
            },
            Message::SubmitSetup => {
                match self.credentials() {
                    Some(c) => {
                        global.show_popup(String::from_str("Prüfe Zugangsdaten…"));
                        vec![Action::VerifyCredentials(c)]
                    },
                    None => Vec::new(),
                }
            },
            Message::CredentialsVerified(token) => {
                match self.credentials() {
                    Some(c) => {
                        self.pending_token = Some(token);
                        vec![Action::PersistCredentials(c)]
                    },
                    None => {
                        let acts = vec![Action::Dispatch(Message::AuthenticationFailed)];
                        proof {
                            assert(acts@ =~= seq![
                                Action::Dispatch(Message::AuthenticationFailed),
                            ]);
                        }
                        acts
                    },
                }
            },
            Message::CredentialsSaved => {
                if self.pending_token.is_some() && self.db.is_some() {
                    match self.credentials() {
                        Some(c) => {
                            let token = self.pending_token.take().unwrap();
                            let mut d = self.db.take().unwrap();
                            c.insert(&mut d);
                            let mut client = Client::new(c);
                            client.set_access_token(token);
                            vec![
                                Action::Dispatch(Message::StartupComplete(d, Some(client))),
                            ]
                        },
                        None => Vec::new(),
                    }
                } else {
                    Vec::new()
                }
            },
            Message::CredentialsSaveFailed => {
                self.pending_token = None;
                let acts = vec![Action::Dispatch(Message::AuthenticationFailed)];
                proof {
                    assert(acts@ =~= seq![Action::Dispatch(Message::AuthenticationFailed)]);
                }
                acts
            },
            Message::AuthenticationFailed => {
                global.show_popup(String::from_str("Authentifizierung fehlgeschlagen"));
                let acts = vec![Action::StartPopupTimer];
                proof {
                    assert(acts@ =~= seq![Action::StartPopupTimer]);
                }
                acts
            },
            _ => Vec::new(),
        }
    }
}

} // verus!
