//! The start-up screen: the storage is opened, the schema migrations run,
//! and the stored credentials decide where to go next — straight into the
//! scan/checkout loop (offline, or online with found credentials), or into
//! the setup screen when no credentials exist.
//!
//! A connection or migration failure is terminal for this attempt: it is
//! reported and nothing is retried within this process.

use vstd::prelude::*;

use crate::database::{Credentials, Database};
use crate::state::{Action, GlobalState, Message};
use crate::vereinsflieger::Client;

verus! {

/// The state of the start-up screen.
pub struct StartingClubFridge {
    /// The opened storage, once it is connected.
    pub db: Option<Database>,
    /// Whether the schema migrations have run through.
    pub migrations_finished: bool,
}

/// What handling one message does to the start-up screen.
pub open spec fn starting_update_post(
    pre: StartingClubFridge,
    post: StartingClubFridge,
    gpre: GlobalState,
    gpost: GlobalState,
    msg: Message,
    acts: Seq<Action>,
) -> bool {
    match msg {
        Message::DatabaseConnected(d) => {
            &&& gpost == gpre
            &&& post.db == Some(d)
            &&& post.migrations_finished == pre.migrations_finished
            &&& acts == seq![Action::RunMigrations]
        },
        Message::DatabaseMigrated => {
            &&& gpost == gpre
            &&& post.migrations_finished == true
            &&& match pre.db {
                Some(d) => {
                    if gpre.options.offline {
                        &&& post.db is None
                        &&& acts == seq![
                            Action::Dispatch(Message::StartupComplete(d, None)),
                        ]
                    } else {
                        match d.credentials {
                            Some(c) => {
                                &&& post.db == pre.db
                                &&& acts == seq![
                                    Action::Dispatch(Message::CredentialsFound(c)),
                                ]
                            },
                            None => {
                                &&& post.db is None
                                &&& acts == seq![Action::Dispatch(Message::GotoSetup(d))]
                            },
                        }
                    }
                },
                None => post.db is None && acts.len() == 0,
            }
        },
        Message::CredentialsFound(c) => {
            &&& gpost == gpre
            &&& post.migrations_finished == pre.migrations_finished
            &&& match pre.db {
                Some(d) => {
                    &&& post.db is None
                    &&& acts.len() == 1
                    &&& acts[0] matches Action::Dispatch(m)
                    &&& m matches Message::StartupComplete(d2, cl)
                    &&& d2 == d
                    &&& cl matches Some(client)
                    &&& client.credentials == c
                    &&& client.access_token is None
                },
                None => post == pre && acts.len() == 0,
            }
        },
        _ => post == pre && gpost == gpre && acts.len() == 0,
    }
}

impl StartingClubFridge {
    /// A fresh start-up screen: nothing connected, nothing migrated.
    pub fn new() -> (r: StartingClubFridge)
        ensures
            r.db is None,
            !r.migrations_finished,
    {
        StartingClubFridge { db: None, migrations_finished: false }
    }

    /// Handle one message on the start-up screen.
    pub fn update(&mut self, message: Message, global: &mut GlobalState) -> (acts: Vec<Action>)
        ensures
            starting_update_post(
                *old(self),
                *final(self),
                *old(global),
                *final(global),
                message,
                acts@,
            ),
    {
        match message {
            Message::DatabaseConnected(d) => {
                self.db = Some(d);
                let acts = vec![Action::RunMigrations];
                proof {
                    assert(acts@ =~= seq![Action::RunMigrations]);
                }
                acts
            },
            Message::DatabaseMigrated => {
                self.migrations_finished = true;
                if self.db.is_some() {
                    if global.options.offline {
                        let d = self.db.take().unwrap();
                        let acts = vec![
                            Action::Dispatch(Message::StartupComplete(d, None)),
                        ];
                        proof {
                            assert(acts@ =~= seq![
                                Action::Dispatch(
                                    Message::StartupComplete(old(self).db.unwrap(), None),
                                ),
                            ]);
                        }
                        acts
                    } else {
                        let found = match &self.db {
                            Some(d) => Credentials::find_first(d),
                            None => None,
                        };
                        match found {
                            Some(c) => {
                                let acts = vec![
                                    Action::Dispatch(Message::CredentialsFound(c)),
                                ];
                                proof {
                                    assert(acts@ =~= seq![
                                        Action::Dispatch(
                                            Message::CredentialsFound(
                                                old(self).db.unwrap().credentials.unwrap(),
                                            ),
                                        ),
                                    ]);
                                }
                                acts
                            },
                            None => {
                                let d = self.db.take().unwrap();
                                let acts = vec![Action::Dispatch(Message::GotoSetup(d))];
                                proof {
                                    assert(acts@ =~= seq![
                                        Action::Dispatch(Message::GotoSetup(old(self).db.unwrap())),
                                    ]);
                                }
                                acts
                            },
                        }
                    }
                } else {
                    Vec::new()
                }
            },
            Message::CredentialsFound(c) => {
                match self.db.take() {
                    Some(d) => {
                        let client = Client::new(c);
                        vec![Action::Dispatch(Message::StartupComplete(d, Some(client)))]
                    },
                    None => Vec::new(),
                }
            },
            _ => Vec::new(),
        }
    }
}

} // verus!
