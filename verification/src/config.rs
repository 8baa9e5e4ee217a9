//! Connection profiles.
//!
//! A profile names one isolated data collection: an application id, an
//! authentication identity and an optional on-disk storage root. The
//! embedder loads profiles from its configuration file once at startup
//! and hands them to the library; they are never mutated afterwards.

use vstd::prelude::*;

verus! {

/// Credentials for the token-based playground identity.
#[derive(Debug, PartialEq, Eq)]
pub struct OnlinePlayground {
    pub token: String,
}

/// How a profile authenticates against the sync service.
#[derive(Debug, PartialEq, Eq)]
pub enum Identity {
    OnlinePlayground(OnlinePlayground),
}

/// One configured connection profile. A profile is identified by its
/// `app_id`; `name` is only a display nickname.
#[derive(Debug, PartialEq, Eq)]
pub struct Profile {
    pub name: Option<String>,
    pub app_id: String,
    /// Path of the persistent storage root, `None` for temporary storage.
    pub root: Option<String>,
    pub identity: Identity,
}

impl Clone for OnlinePlayground {
    fn clone(&self) -> (r: Self)
        ensures
            r == *self,
    {
        OnlinePlayground { token: self.token.clone() }
    }
}

impl Clone for Identity {
    fn clone(&self) -> (r: Self)
        ensures
            r == *self,
    {
        match self {
            Identity::OnlinePlayground(p) => Identity::OnlinePlayground(p.clone()),
        }
    }
}

fn clone_opt_string(o: &Option<String>) -> (r: Option<String>)
    ensures
        r == *o,
{
    match o {
        Option::Some(s) => Option::Some(s.clone()),
        Option::None => Option::None,
    }
}

impl Clone for Profile {
    fn clone(&self) -> (r: Self)
        ensures
            r == *self,
    {
        Profile {
            name: clone_opt_string(&self.name),
            app_id: self.app_id.clone(),
            root: clone_opt_string(&self.root),
            identity: self.identity.clone(),
        }
    }
}

} // verus!
