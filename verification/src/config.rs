//! A plain configuration record with the same shape as the stored
//! credentials; kept for callers that assemble credentials outside the
//! setup flow.

use vstd::prelude::*;

verus! {

/// The access configuration for the remote service.
pub struct Config {
    pub club_id: u32,
    pub app_key: String,
    pub username: String,
    pub password: String,
}

impl Config {
    /// A placeholder configuration, for tests and examples.
    pub fn dummy() -> (r: Config)
        ensures
            r.club_id == 1,
            r.app_key@ == "app_key"@,
            r.username@ == "username"@,
            r.password@ == "password"@,
    {
        Config {
            club_id: 1,
            app_key: String::from_str("app_key"),
            username: String::from_str("username"),
            password: String::from_str("password"),
        }
    }
}

} // verus!
