//! Registering an application with an instance, step by step.
//!
//! The library computes each request and takes in each answer; sending is
//! left to the caller:
//!
//! 1. [`Registration::register`] says where the application is to be posted
//!    to, and [`Registration::registered`] takes in what the instance
//!    answered.
//! 2. [`Registration::authorise`] gives the URL that the user is to open in a
//!    browser.
//! 3. [`Registration::create_access_token`] says where the code that came
//!    back is to be posted to, and [`Registration::into_mastodon`] makes the
//!    client of the access token that the instance answered with.
use vstd::prelude::*;
use crate::apps::{AppBuilder, Scopes};
use crate::client::Mastodon;
use crate::errors::Error;
use crate::text::text_of;

verus! {

/// Handles registering your mastodon app to your instance. It is recommended
/// you cache your data struct to avoid registering on every run.
pub struct Registration {
    base: String,
    client_id: Option<String>,
    client_secret: Option<String>,
    redirect: Option<String>,
    scopes: Scopes,
}

/// What an instance answers when an application is registered with it.
#[derive(Clone, Debug)]
pub struct OAuth {
    pub client_id: String,
    pub client_secret: String,
    pub redirect_uri: String,
}

/// What a [`Registration`] stands for.
pub struct Registered {
    pub base: Seq<char>,
    pub client_id: Option<Seq<char>>,
    pub client_secret: Option<Seq<char>>,
    pub redirect: Option<Seq<char>>,
    pub scopes: Scopes,
}

impl Registered {
    /// What is missing for the registration to be complete: the client id
    /// first, then the client secret.
    pub open spec fn missing(self) -> Option<Error> {
        if self.client_id is None {
            Some(Error::ClientIdRequired)
        } else if self.client_secret is None {
            Some(Error::ClientSecretRequired)
        } else {
            None
        }
    }

    /// A registration that holds an id and a secret holds the redirect URI
    /// that came with them.
    pub open spec fn wf(self) -> bool {
        self.client_id is Some && self.client_secret is Some ==> self.redirect is Some
    }

    /// The URL that the user is to open to authorise the application.
    pub open spec fn authorise_url(self) -> Seq<char> {
        self.base + "/oauth/authorize?client_id="@ + self.client_id->0 + "&redirect_uri="@
            + self.redirect->0 + "&scope="@ + self.scopes.text() + "&response_type=code"@
    }

    /// The URL that the code `code` is to be posted to for an access token.
    pub open spec fn token_url(self, code: Seq<char>) -> Seq<char> {
        self.base + "/oauth/token?client_id="@ + self.client_id->0 + "&client_secret="@
            + self.client_secret->0 + "&code="@ + code
            + "&grant_type=authorization_code&redirect_uri="@ + self.redirect->0
    }
}

impl View for Registration {
    type V = Registered;

    closed spec fn view(&self) -> Registered {
        Registered {
            base: self.base@,
            client_id: text_of(self.client_id),
            client_secret: text_of(self.client_secret),
            redirect: text_of(self.redirect),
            scopes: self.scopes,
        }
    }
}

impl Registration {
    #[verifier::type_invariant]
    closed spec fn complete(self) -> bool {
        self@.wf()
    }

    /// Construct a new registration process to the instance of the `base` url.
    ///
    /// ```
    /// use mammut::registration::Registration;
    ///
    /// let registration = Registration::new("https://mastodon.social".to_string());
    /// ```
    pub fn new(base: String) -> (registration: Registration)
        ensures
            registration@ == (Registered {
                base: base@,
                client_id: None,
                client_secret: None,
                redirect: None,
                scopes: Scopes::Read,
            }),
    {
        Registration {
            base,
            client_id: None,
            client_secret: None,
            redirect: None,
            scopes: Scopes::Read,
        }
    }

    /// Begins to register the application with the instance: notes the
    /// scopes that the application asks for, and says where the application
    /// is to be posted to.
    pub fn register(&mut self, app_builder: &AppBuilder) -> (url: String)
        ensures
            url@ == old(self)@.base + "/api/v1/apps"@,
            final(self)@ == (Registered { scopes: app_builder.scopes, ..old(self)@ }),
    {
        proof {
            use_type_invariant(&*self);
        }
        let mut url = self.base.clone();
        url.append("/api/v1/apps");
        self.scopes = app_builder.scopes;
        url
    }

    /// Takes in what the instance answered to the application.
    pub fn registered(&mut self, app: OAuth)
        ensures
            final(self)@ == (Registered {
                client_id: Some(app.client_id@),
                client_secret: Some(app.client_secret@),
                redirect: Some(app.redirect_uri@),
                ..old(self)@
            }),
    {
        proof {
            use_type_invariant(&*self);
        }
        self.redirect = Some(app.redirect_uri);
        self.client_secret = Some(app.client_secret);
        self.client_id = Some(app.client_id);
    }

    /// Whether the application is registered: `Ok` where the registration
    /// holds a client id and a client secret, else the error that names the
    /// first of the two that is missing.
    pub fn is_registered(&self) -> (r: Result<(), Error>)
        ensures
            match r {
                Ok(_) => self@.missing() is None,
                Err(e) => self@.missing() == Some(e),
            },
            self@.wf(),
    {
        proof {
            use_type_invariant(self);
        }
        if self.client_id.is_none() {
            Err(Error::ClientIdRequired)
        } else if self.client_secret.is_none() {
            Err(Error::ClientSecretRequired)
        } else {
            Ok(())
        }
    }

    /// Returns the full url needed for authorisation. This needs to be opened
    /// in a browser.
    pub fn authorise(&self) -> (r: Result<String, Error>)
        ensures
            match r {
                Ok(url) => self@.missing() is None && url@ == self@.authorise_url(),
                Err(e) => self@.missing() == Some(e),
            },
    {
        match self.is_registered() {
            Ok(_) => {},
            Err(e) => {
                return Err(e);
            },
        }
        let mut url = self.base.clone();
        url.append("/oauth/authorize?client_id=");
        url.append(self.client_id.as_ref().unwrap().as_str());
        url.append("&redirect_uri=");
        url.append(self.redirect.as_ref().unwrap().as_str());
        url.append("&scope=");
        url.append(self.scopes.as_str());
        url.append("&response_type=code");
        assert(url@ =~= self@.authorise_url());
        Ok(url)
    }

    /// Says where the code that the authorisation gave is to be posted to for
    /// an access token.
    pub fn create_access_token(&self, code: &str) -> (r: Result<String, Error>)
        ensures
            match r {
                Ok(url) => self@.missing() is None && url@ == self@.token_url(code@),
                Err(e) => self@.missing() == Some(e),
            },
    {
        match self.is_registered() {
            Ok(_) => {},
            Err(e) => {
                return Err(e);
            },
        }
        let mut url = self.base.clone();
        url.append("/oauth/token?client_id=");
        url.append(self.client_id.as_ref().unwrap().as_str());
        url.append("&client_secret=");
        url.append(self.client_secret.as_ref().unwrap().as_str());
        url.append("&code=");
        url.append(code);
        url.append("&grant_type=authorization_code&redirect_uri=");
        url.append(self.redirect.as_ref().unwrap().as_str());
        assert(url@ =~= self@.token_url(code@));
        Ok(url)
    }

    /// Makes the client of a registration and the access token that the
    /// instance answered with.
    pub fn into_mastodon(self, access_token: String) -> (r: Result<Mastodon, Error>)
        ensures
            match r {
                Ok(client) => {
                    &&& self@.missing() is None
                    &&& client.data.base@ == self@.base
                    &&& Some(client.data.client_id@) == self@.client_id
                    &&& Some(client.data.client_secret@) == self@.client_secret
                    &&& Some(client.data.redirect@) == self@.redirect
                    &&& client.data.token == access_token
                },
                Err(e) => self@.missing() == Some(e),
            },
    {
        match self.is_registered() {
            Ok(_) => {},
            Err(e) => {
                return Err(e);
            },
        }
        let Registration { base, client_id, client_secret, redirect, scopes: _ } = self;
        Ok(
            Mastodon::from_registration(
                base,
                client_id.unwrap(),
                client_secret.unwrap(),
                redirect.unwrap(),
                access_token,
            ),
        )
    }
}

} // verus!
