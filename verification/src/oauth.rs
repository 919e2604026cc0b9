//! The OAuth resolvers' pure half: consent-screen URL construction and the
//! GitHub rule for choosing a usable email. The HTTP exchanges live outside
//! the library and hand their parsed responses in.

use vstd::prelude::*;
use crate::dtos::GitHubEmail;
use vstd::string::StringExecFns;

verus! {

/// GitHub's consent-screen URL for a client, asking for the `user:email`
/// scope.
pub open spec fn github_authorize_url(client_id: Seq<char>, redirect_uri: Seq<char>) -> Seq<char> {
    "https://github.com/login/oauth/authorize?client_id="@ + client_id + "&redirect_uri="@
        + redirect_uri + "&scope=user:email"@
}

/// Google's consent-screen URL for a client, asking for the
/// `openid email profile` scopes with offline access.
pub open spec fn google_authorize_url(client_id: Seq<char>, redirect_uri: Seq<char>) -> Seq<char> {
    "https://accounts.google.com/o/oauth2/v2/auth?client_id="@ + client_id + "&redirect_uri="@
        + redirect_uri + "&response_type=code&scope=openid%20email%20profile&access_type=offline"@
}

/// The GitHub OAuth client configuration.
#[derive(Debug)]
pub struct GitHubOAuthClient {
    pub client_id: String,
    pub client_secret: String,
    pub redirect_uri: String,
}

impl GitHubOAuthClient {
    pub fn new(client_id: String, client_secret: String, redirect_uri: String) -> (c: Self)
        ensures
            c.client_id@ == client_id@,
            c.client_secret@ == client_secret@,
            c.redirect_uri@ == redirect_uri@,
    {
        GitHubOAuthClient { client_id, client_secret, redirect_uri }
    }

    /// The GitHub authorization URL to redirect the user to.
    pub fn get_authorize_url(&self) -> (r: String)
        ensures
            r@ == github_authorize_url(self.client_id@, self.redirect_uri@),
    {
        String::from_str("https://github.com/login/oauth/authorize?client_id=").concat(
            self.client_id.as_str(),
        ).concat("&redirect_uri=").concat(self.redirect_uri.as_str()).concat("&scope=user:email")
    }
}

/// The Google OAuth client configuration.
#[derive(Debug)]
pub struct GoogleOAuthClient {
    pub client_id: String,
    pub client_secret: String,
    pub redirect_uri: String,
}

impl GoogleOAuthClient {
    pub fn new(client_id: String, client_secret: String, redirect_uri: String) -> (c: Self)
        ensures
            c.client_id@ == client_id@,
            c.client_secret@ == client_secret@,
            c.redirect_uri@ == redirect_uri@,
    {
        GoogleOAuthClient { client_id, client_secret, redirect_uri }
    }

    /// The Google authorization URL to redirect the user to.
    pub fn get_authorize_url(&self) -> (r: String)
        ensures
            r@ == google_authorize_url(self.client_id@, self.redirect_uri@),
    {
        String::from_str("https://accounts.google.com/o/oauth2/v2/auth?client_id=").concat(
            self.client_id.as_str(),
        ).concat("&redirect_uri=").concat(self.redirect_uri.as_str()).concat(
            "&response_type=code&scope=openid%20email%20profile&access_type=offline",
        )
    }
}

/// An email entry GitHub is willing to vouch for.
pub open spec fn is_primary_verified(e: crate::dtos::GitHubEmailView) -> bool {
    e.primary && e.verified
}

/// Whether some entry is flagged both primary and verified.
pub open spec fn has_primary_verified(s: Seq<crate::dtos::GitHubEmailView>) -> bool {
    exists|i: int| 0 <= i < s.len() && is_primary_verified(#[trigger] s[i])
}

/// The first entry flagged both primary and verified, if any: the only email
/// the resolver may use when the profile hides its address.
pub fn select_primary_verified(emails: &Vec<GitHubEmail>) -> (r: Option<String>)
    ensures
        match r {
            Some(e) => exists|i: int|
                0 <= i < emails.deep_view().len() && is_primary_verified(
                    #[trigger] emails.deep_view()[i],
                ) && e@ == emails.deep_view()[i].email && (forall|j: int|
                    0 <= j < i ==> !is_primary_verified(#[trigger] emails.deep_view()[j])),
            None => !has_primary_verified(emails.deep_view()),
        },
{
    let n = emails.len();
    let mut i: usize = 0;
    while i < n
        invariant
            n == emails.deep_view().len(),
            i <= n,
            forall|k: int| 0 <= k < i ==> !is_primary_verified(#[trigger] emails.deep_view()[k]),
        decreases n - i,
    {
        if emails[i].primary && emails[i].verified {
            let e = emails[i].email.clone();
            proof {
                assert(is_primary_verified(emails.deep_view()[i as int]));
            }
            return Some(e);
        }
        i += 1;
    }
    None
}

} // verus!
