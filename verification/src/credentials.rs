//! What one login attempt is given.

use vstd::prelude::*;

verus! {

/// The account to log into and how the browser is to be started.
#[derive(Clone, Debug)]
pub struct LoginCredentials {
    pub email: String,
    pub password: String,
    pub recovery_email: Option<String>,
    pub proxy: Option<String>,
    pub headless: bool,
}

impl LoginCredentials {
    /// The recovery address, where one is given and it is not empty.
    pub open spec fn recovery_text(&self) -> Option<Seq<char>> {
        match self.recovery_email {
            Some(address) => if address@.len() > 0 {
                Some(address@)
            } else {
                None
            },
            None => None,
        }
    }

    /// The proxy address, where one is given and it is not empty.
    pub open spec fn proxy_text(&self) -> Option<Seq<char>> {
        match self.proxy {
            Some(address) => if address@.len() > 0 {
                Some(address@)
            } else {
                None
            },
            None => None,
        }
    }

    /// Whether a recovery address is given and is not empty.
    pub fn has_recovery(&self) -> (given: bool)
        ensures
            given == self.recovery_text().is_some(),
    {
        match &self.recovery_email {
            Some(address) => !address.as_str().is_empty(),
            None => false,
        }
    }
}

impl Default for LoginCredentials {
    /// Empty texts, no recovery address, no proxy, and a visible window.
    fn default() -> (credentials: LoginCredentials)
        ensures
            credentials.email@.len() == 0,
            credentials.password@.len() == 0,
            credentials.recovery_email is None,
            credentials.proxy is None,
            !credentials.headless,
    {
        LoginCredentials {
            email: String::new(),
            password: String::new(),
            recovery_email: None,
            proxy: None,
            headless: false,
        }
    }
}

} // verus!
