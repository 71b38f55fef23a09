use vstd::prelude::*;

verus! {

/// Builder struct for defining your application.
///
/// ```
/// use mammut::apps::{AppBuilder, Scopes};
///
/// let app = AppBuilder {
///     client_name: "mammut_test",
///     redirect_uris: "urn:ietf:wg:oauth:2.0:oob",
///     scopes: Scopes::Read,
///     website: None,
/// };
/// ```
#[derive(Debug)]
pub struct AppBuilder<'a> {
    /// Name of the application. Will be displayed when the user is deciding to
    /// grant permission.
    pub client_name: &'a str,
    /// Where the user should be redirected after authorization
    /// (for no redirect, use `urn:ietf:wg:oauth:2.0:oob`)
    pub redirect_uris: &'a str,
    /// Permission scope of the application.
    pub scopes: Scopes,
    /// URL to the homepage of your application.
    pub website: Option<&'a str>,
}

/// Permission scope of the application.
#[derive(Debug, Clone, Copy, PartialEq, Eq, Structural)]
pub enum Scopes {
    /// All Permissions, equivalent to `read write follow`
    All,
    /// Only permission to add and remove followers.
    Follow,
    /// Read only permissions.
    Read,
    /// Read & Follow permissions.
    ReadFollow,
    /// Read & Write permissions.
    ReadWrite,
    /// Write only permissions.
    Write,
    /// Write & Follow permissions.
    WriteFollow,
}

impl Scopes {
    /// The scope as it stands in the query of a URL: the permissions, with
    /// `%20` for the space between them.
    pub open spec fn text(self) -> Seq<char> {
        match self {
            Scopes::All => "read%20write%20follow"@,
            Scopes::Follow => "follow"@,
            Scopes::Read => "read"@,
            Scopes::ReadFollow => "read%20follow"@,
            Scopes::ReadWrite => "read%20write"@,
            Scopes::Write => "write"@,
            Scopes::WriteFollow => "write%20follow"@,
        }
    }

    /// The scope as it stands in the query of a URL.
    pub fn as_str(&self) -> (text: &'static str)
        ensures
            text@ == self.text(),
    {
        match self {
            Scopes::All => "read%20write%20follow",
            Scopes::Follow => "follow",
            Scopes::Read => "read",
            Scopes::ReadFollow => "read%20follow",
            Scopes::ReadWrite => "read%20write",
            Scopes::Write => "write",
            Scopes::WriteFollow => "write%20follow",
        }
    }

    /// The scope as it stands in the query of a URL, as a string of its own.
    pub fn to_string(&self) -> (text: String)
        ensures
            text@ == self.text(),
    {
        self.as_str().to_owned()
    }
}

impl<'a> Default for AppBuilder<'a> {
    fn default() -> (app: AppBuilder<'a>)
        ensures
            app.client_name@ == Seq::<char>::empty(),
            app.redirect_uris@ == Seq::<char>::empty(),
            app.scopes == Scopes::Read,
            app.website is None,
    {
        proof {
            reveal_strlit("");
        }
        let app = AppBuilder { client_name: "", redirect_uris: "", scopes: Scopes::Read, website: None };
        assert(app.client_name@ =~= Seq::<char>::empty());
        app
    }
}

impl Default for Scopes {
    fn default() -> (scopes: Scopes)
        ensures
            scopes == Scopes::Read,
    {
        Scopes::Read
    }
}

} // verus!
