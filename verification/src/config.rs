//! The persisted session record: service URL, user name, optional token.

use vstd::prelude::*;

verus! {

/// The session state kept between invocations.
///
/// `api_token` is `None` until a login succeeds; its presence gates every
/// operation that needs authentication under the bearer-token scheme.
#[derive(Debug, Clone, PartialEq, Eq)]
pub struct Config {
    pub api_url: String,
    pub username: String,
    pub api_token: Option<String>,
}

/// The mathematical value of the session record.
pub ghost struct ConfigView {
    pub api_url: Seq<char>,
    pub username: Seq<char>,
    pub api_token: Option<Seq<char>>,
}

impl ConfigView {
    /// All fields can travel inside the persisted JSON record.
    pub open spec fn wf(self) -> bool {
        crate::models::json_safe(self.api_url) && crate::models::json_safe(self.username) && (
        self.api_token matches Some(t) ==> crate::models::json_safe(t))
    }
}

impl View for Config {
    type V = ConfigView;

    open spec fn view(&self) -> ConfigView {
        ConfigView {
            api_url: self.api_url@,
            username: self.username@,
            api_token: match self.api_token {
                Some(t) => Some(t@),
                None => None,
            },
        }
    }
}

impl Config {
    /// The state of a first run, before any login or explicit update.
    pub fn first_run() -> (r: Config)
        ensures
            r.api_url@ == "http://localhost:4030"@,
            r.username@.len() == 0,
            r.api_token is None,
    {
        Config {
            api_url: String::from_str("http://localhost:4030"),
            username: String::new(),
            api_token: None,
        }
    }

    /// Applies an explicit configuration update: each field given replaces
    /// the stored one, each field absent leaves it unchanged; the token is
    /// never touched.
    pub fn with_updates(self, api_url: Option<String>, username: Option<String>) -> (r: Config)
        ensures
            r.api_url == (if api_url is Some { api_url->0 } else { self.api_url }),
            r.username == (if username is Some { username->0 } else { self.username }),
            r.api_token == self.api_token,
    {
        let mut updated = self;
        if let Some(url) = api_url {
            updated.api_url = url;
        }
        if let Some(name) = username {
            updated.username = name;
        }
        updated
    }

    /// Records a successful login: the session now carries the name logged
    /// in under and the token the server issued; the URL is kept.
    pub fn with_login(self, username: String, token: String) -> (r: Config)
        ensures
            r.api_url == self.api_url,
            r.username == username,
            r.api_token == Some(token),
    {
        Config {
            api_url: self.api_url,
            username,
            api_token: Some(token),
        }
    }

    /// Whether the session holds a bearer token.
    pub fn has_token(&self) -> (r: bool)
        ensures
            r == (self.api_token is Some),
    {
        self.api_token.is_some()
    }
}

} // verus!
