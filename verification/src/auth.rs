//! The account side the engine sees: an opaque bearer token holder and
//! the typed profile objects. Sign-in itself and the profile fetch are
//! outside collaborators; the engine only ever receives these values.
use vstd::prelude::*;

verus! {

/// Holds the opaque access token of a signed-in account.
pub struct Authenticator {
    pub access_token: String,
}

impl Authenticator {
    pub fn new() -> (r: Self)
        ensures
            r.access_token@ == Seq::<char>::empty(),
    {
        Authenticator { access_token: String::new() }
    }
}

/// One skin of a profile.
pub struct Skin {
    pub id: String,
    pub state: String,
    pub url: String,
    pub textureKey: String,
    pub variant: String,
}

impl Skin {
    pub fn id(&self) -> (r: &str)
        ensures
            r@ == self.id@,
    {
        self.id.as_str()
    }

    pub fn state(&self) -> (r: &str)
        ensures
            r@ == self.state@,
    {
        self.state.as_str()
    }

    pub fn url(&self) -> (r: &str)
        ensures
            r@ == self.url@,
    {
        self.url.as_str()
    }

    pub fn textureKey(&self) -> (r: &str)
        ensures
            r@ == self.textureKey@,
    {
        self.textureKey.as_str()
    }

    pub fn variant(&self) -> (r: &str)
        ensures
            r@ == self.variant@,
    {
        self.variant.as_str()
    }
}

/// One cape of a profile.
pub struct Cape {
    pub id: String,
    pub state: String,
    pub url: String,
    pub alias: String,
}

impl Cape {
    pub fn id(&self) -> (r: &str)
        ensures
            r@ == self.id@,
    {
        self.id.as_str()
    }

    pub fn state(&self) -> (r: &str)
        ensures
            r@ == self.state@,
    {
        self.state.as_str()
    }

    pub fn url(&self) -> (r: &str)
        ensures
            r@ == self.url@,
    {
        self.url.as_str()
    }

    pub fn alias(&self) -> (r: &str)
        ensures
            r@ == self.alias@,
    {
        self.alias.as_str()
    }
}

} // verus!
