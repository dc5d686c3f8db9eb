use vstd::prelude::*;

pub mod cli;
pub mod response;

verus! {

/// The endpoint that reports the authenticated account.
pub const ACCOUNT_URL: &'static str = "https://api.Upcloud.com/1.3/account";

/// A client for the account endpoint of the UpCloud REST API, holding the
/// credentials that every request authenticates with.
pub struct UpcloudApi {
    username: String,
    password: String,
}

impl UpcloudApi {
    pub closed spec fn username_view(&self) -> Seq<char> {
        self.username@
    }

    pub closed spec fn password_view(&self) -> Seq<char> {
        self.password@
    }

    /// Stores both credentials verbatim; no validation, no network activity.
    pub fn new(username: &str, password: &str) -> (r: UpcloudApi)
        ensures
            r.username_view() == username@,
            r.password_view() == password@,
    {
        UpcloudApi { username: username.to_string(), password: password.to_string() }
    }

    /// The user name that requests authenticate with.
    pub fn username(&self) -> (r: &str)
        ensures
            r@ == self.username_view(),
    {
        self.username.as_str()
    }

    /// The password that requests authenticate with.
    pub fn password(&self) -> (r: &str)
        ensures
            r@ == self.password_view(),
    {
        self.password.as_str()
    }
}

} // verus!
