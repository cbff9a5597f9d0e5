//! Core of an unattended retail terminal for a club: members identify
//! themselves with an RFID token, scan article barcodes, and the terminal
//! records each sale in a durable local ledger that is later reconciled with
//! the club's remote accounting service.
//!
//! The crate is organised around plain, fully modelled values: the catalog
//! and the sale ledger live in [`database::Database`], the remote-credential
//! lifecycle in [`vereinsflieger::Client`], and the interaction loop in
//! [`state::ClubFridge`].  Everything that talks to the outside world
//! (storage files, the network, the screen) stays behind small command
//! values ([`state::Action`]) that an unverified shell executes.

pub mod config;
pub mod database;
pub mod dates;
pub mod decimal;
pub mod digits;
pub mod popup;
pub mod running;
pub mod setup;
pub mod starting;
pub mod state;
pub mod vereinsflieger;
