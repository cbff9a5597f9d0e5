//! The remote accounting service, as seen from the core.
//!
//! The record types here mirror the wire shape of the service's list
//! responses: every field is still a plain string, exactly as delivered.
//! Conversion into catalog form lives in [`crate::database`] and
//! [`crate::running`].
//!
//! [`Client`] holds the credentials and the cached access token, and its
//! request flow encodes the token lifecycle: use the cached token first,
//! fetch a fresh one on an authorization failure, retry once, and clear the
//! cache if even the fresh token is rejected.  The network calls themselves
//! are performed outside the core; the flow only decides, step by step, what
//! to do next.

use vstd::prelude::*;

use crate::database::Credentials;

verus! {

/// One RFID key record of a member, as the remote service lists it.
pub struct Key {
    /// The raw keycode, not yet normalized.
    pub name: String,
    /// A free-form label for the key.
    pub title: String,
}

/// One member record, as the remote service lists it.
pub struct User {
    pub member_id: String,
    pub first_name: String,
    pub last_name: String,
    pub nickname: String,
    /// The member's RFID keys; a member may own several.
    pub keymanagement: Vec<Key>,
}

/// One price row of an article, as the remote service lists it: three
/// strings that still have to be parsed.
pub struct Price {
    pub valid_from: String,
    pub valid_to: String,
    pub unit_price: String,
}

/// One article record, as the remote service lists it.
pub struct Article {
    pub article_id: String,
    pub designation: String,
    pub prices: Vec<Price>,
}

// ---------------------------------------------------------------------------
// The token-lifecycle-aware client
// ---------------------------------------------------------------------------

/// Which attempt of a request flow an operation result belongs to.
#[derive(Clone, Copy, PartialEq, Eq, Structural, Debug)]
pub enum RequestPhase {
    /// The operation ran with the cached token.
    First,
    /// The operation ran with a freshly fetched token.
    Second,
}

/// What the shell must do next to advance a request flow.
pub enum FlowStep {
    /// Run the remote operation with this token, then report the outcome
    /// through [`Client::on_operation_result`].
    Invoke { token: String, phase: RequestPhase },
    /// Perform the credential exchange, then report the outcome through
    /// [`Client::on_token_fetched`].
    FetchToken,
    /// The flow is over; hand the operation's own result to the caller
    /// unchanged.
    Done,
    /// The operation was rejected as unauthorized even with a fresh token;
    /// the cached token has been cleared.
    FailedAuth,
    /// The credential exchange itself failed; its error is the caller's
    /// result, and the cache is unchanged.
    FailedFetch,
}

/// Client state for the remote service: the stored credentials and one
/// shared slot for the cached access token.
pub struct Client {
    pub credentials: Credentials,
    pub access_token: Option<String>,
}

/// How a request flow starts: with a cached token the operation runs right
/// away; without one the credential exchange comes first.
pub open spec fn spec_begin_request(c: Client) -> FlowStep {
    match c.access_token {
        Some(t) => FlowStep::Invoke { token: t, phase: RequestPhase::First },
        None => FlowStep::FetchToken,
    }
}

/// How an operation outcome advances the flow.  Anything but an
/// authorization failure ends the flow with the operation's own result; an
/// authorization failure on the first attempt triggers the credential
/// exchange, and one on the second clears the cached token.
pub open spec fn spec_on_operation_result(c: Client, phase: RequestPhase, unauthorized: bool) -> (
    Client,
    FlowStep,
) {
    if !unauthorized {
        (c, FlowStep::Done)
    } else if phase == RequestPhase::First {
        (c, FlowStep::FetchToken)
    } else {
        (Client { access_token: None, ..c }, FlowStep::FailedAuth)
    }
}

/// How the outcome of the credential exchange advances the flow: a fresh
/// token is cached and the operation retried; a failure is returned as-is
/// and writes no token.
pub open spec fn spec_on_token_fetched(c: Client, token: Option<String>) -> (Client, FlowStep) {
    match token {
        Some(t) => (
            Client { access_token: Some(t), ..c },
            FlowStep::Invoke { token: t, phase: RequestPhase::Second },
        ),
        None => (c, FlowStep::FailedFetch),
    }
}

impl Client {
    /// Create a new client with the given credentials and no cached token.
    pub fn new(credentials: Credentials) -> (r: Client)
        ensures
            r.credentials == credentials,
            r.access_token is None,
    {
        Client { credentials, access_token: None }
    }

    /// Save the access token for future requests.
    pub fn set_access_token(&mut self, access_token: String)
        ensures
            final(self).access_token == Some(access_token),
            final(self).credentials == old(self).credentials,
    {
        self.access_token = Some(access_token);
    }

    /// Start a request flow.
    pub fn begin_request(&self) -> (r: FlowStep)
        ensures
            r == spec_begin_request(*self),
    {
        match &self.access_token {
            Some(t) => FlowStep::Invoke { token: t.clone(), phase: RequestPhase::First },
            None => FlowStep::FetchToken,
        }
    }

    /// Advance the flow with the outcome of the remote operation itself:
    /// `unauthorized` says whether the operation was rejected for a bad
    /// token (any other failure is the caller's result, not the flow's).
    pub fn on_operation_result(&mut self, phase: RequestPhase, unauthorized: bool) -> (r: FlowStep)
        ensures
            *final(self) == spec_on_operation_result(*old(self), phase, unauthorized).0,
            r == spec_on_operation_result(*old(self), phase, unauthorized).1,
    {
        if !unauthorized {
            FlowStep::Done
        } else if matches!(phase, RequestPhase::First) {
            FlowStep::FetchToken
        } else {
            self.access_token = None;
            FlowStep::FailedAuth
        }
    }

    /// Advance the flow with the outcome of the credential exchange.
    pub fn on_token_fetched(&mut self, token: Option<String>) -> (r: FlowStep)
        ensures
            *final(self) == spec_on_token_fetched(*old(self), token).0,
            r == spec_on_token_fetched(*old(self), token).1,
    {
        match token {
            Some(t) => {
                self.access_token = Some(t.clone());
                FlowStep::Invoke { token: t, phase: RequestPhase::Second }
            },
            None => FlowStep::FailedFetch,
        }
    }
}

/// Transparent reauthentication, with exactly one credential exchange: when
/// the service rejects the cached token once, the flow fetches one fresh
/// token, retries the operation with it, and — the retry succeeding — ends
/// with the operation's own result and the fresh token cached.  No step of
/// the trace performs a second exchange.
pub proof fn lemma_reauthentication_single_roundtrip(c0: Client, t0: String, t1: String)
    requires
        c0.access_token == Some(t0),
    ensures
        spec_begin_request(c0) == (FlowStep::Invoke { token: t0, phase: RequestPhase::First }),
        ({
            let (c1, s1) = spec_on_operation_result(c0, RequestPhase::First, true);
            &&& c1 == c0
            &&& s1 == FlowStep::FetchToken
            &&& {
                let (c2, s2) = spec_on_token_fetched(c1, Some(t1));
                &&& c2.access_token == Some(t1)
                &&& c2.credentials == c0.credentials
                &&& s2 == (FlowStep::Invoke { token: t1, phase: RequestPhase::Second })
                &&& {
                    let (c3, s3) = spec_on_operation_result(c2, RequestPhase::Second, false);
                    &&& c3 == c2
                    &&& s3 == FlowStep::Done
                }
            }
        }),
{
}

} // verus!
