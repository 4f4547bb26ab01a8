//! The REST login fallback, minus its HTTP plumbing.
//!
//! The state here decides what each request carries — the form fields
//! of a login, the endpoint for a member list, the auth headers — and
//! what a reply means. Sending and receiving is the HTTP client's
//! concern, outside the library.

use vstd::prelude::*;
use crate::creds::Credentials;
use crate::schema::{spec_short_user_parseable, spec_short_user_rel, spec_short_users_rel, Room, ShortUser};
use crate::wire::{spec_lookup, WireValue};
use crate::ClientError;

verus! {

/// The identity a successful login grants.
#[derive(Clone, Debug, PartialEq, Eq)]
pub struct RestAuth {
    pub user_id: String,
    pub token: String,
}

/// The REST client's decision state: where requests go and who is
/// logged in.
#[derive(Clone, Debug)]
pub struct RestState {
    base_url: String,
    auth: Option<RestAuth>,
}

impl RestState {
    /// The base URL requests are joined to.
    pub closed spec fn spec_base_url(&self) -> Seq<char> {
        self.base_url@
    }

    /// The current login, if any.
    pub closed spec fn spec_auth(&self) -> Option<RestAuth> {
        self.auth
    }

    /// A logged-out client for this host.
    pub fn new(host: &str) -> (r: RestState)
        ensures
            r.spec_base_url() == "https://"@ + host@ + "/api/"@,
            r.spec_auth() is None,
    {
        let mut base_url: String = "https://".to_owned();
        base_url.append(host);
        base_url.append("/api/");
        RestState { base_url, auth: None }
    }

    /// The URL for an endpoint path.
    pub fn url_for(&self, path: &str) -> (r: String)
        ensures
            r@ == self.spec_base_url() + path@,
    {
        let mut url = self.base_url.clone();
        url.append(path);
        url
    }

    /// The credential headers a request must carry, once logged in:
    /// the user id and the auth token.
    pub fn auth_headers(&self) -> (r: Option<(String, String)>)
        ensures
            match r {
                Some(h) => {
                    &&& self.spec_auth() matches Some(a)
                    &&& h.0 == a.user_id
                    &&& h.1 == a.token
                },
                None => self.spec_auth() is None,
            },
    {
        match &self.auth {
            Some(a) => Some((a.user_id.clone(), a.token.clone())),
            None => None,
        }
    }

    /// The resume token of the current login, as credentials.
    pub fn token(&self) -> (r: Option<Credentials>)
        ensures
            match r {
                Some(c) => {
                    &&& self.spec_auth() matches Some(a)
                    &&& c == Credentials::Token(a.token)
                },
                None => self.spec_auth() is None,
            },
    {
        match &self.auth {
            Some(a) => Some(Credentials::Token(a.token.clone())),
            None => None,
        }
    }

    /// Records a successful login and returns the resume token to use
    /// from now on.
    pub fn apply_login(&mut self, auth_token: String, user_id: String) -> (r: Credentials)
        ensures
            final(self).spec_base_url() == old(self).spec_base_url(),
            final(self).spec_auth() == Some(RestAuth { user_id, token: auth_token }),
            r == Credentials::Token(auth_token),
    {
        let token = auth_token.clone();
        self.auth = Some(RestAuth { user_id, token: auth_token });
        Credentials::Token(token)
    }
}

/// The form fields a login request posts: the clear pair, or the
/// resume token.
pub fn login_form(creds: &Credentials) -> (r: Vec<(String, String)>)
    ensures
        match creds {
            Credentials::Clear { user, password } => {
                &&& r@.len() == 2
                &&& r@[0].0@ == "user"@ && r@[0].1 == *user
                &&& r@[1].0@ == "password"@ && r@[1].1 == *password
            },
            Credentials::Token(t) => {
                &&& r@.len() == 1
                &&& r@[0].0@ == "resume"@ && r@[0].1 == *t
            },
        },
{
    let mut form: Vec<(String, String)> = Vec::new();
    match creds {
        Credentials::Clear { user, password } => {
            form.push(("user".to_owned(), user.clone()));
            form.push(("password".to_owned(), password.clone()));
        },
        Credentials::Token(t) => {
            form.push(("resume".to_owned(), t.clone()));
        },
    }
    form
}

/// What the login reply decides: a success carries the token and user
/// id to remember, anything else is a failed login.
pub fn read_login_reply(
    state: &mut RestState,
    reply: Option<(String, String)>,
) -> (r: Result<Credentials, ClientError>)
    ensures
        match reply {
            Some(p) => {
                &&& final(state).spec_auth() == Some(
                    RestAuth { user_id: p.1, token: p.0 },
                )
                &&& final(state).spec_base_url() == old(state).spec_base_url()
                &&& r matches Ok(c) && c == Credentials::Token(p.0)
            },
            None => *final(state) == *old(state) && r matches Err(ClientError::LoginFailed),
        },
{
    match reply {
        Some((auth_token, user_id)) => Ok(state.apply_login(auth_token, user_id)),
        None => Err(ClientError::LoginFailed),
    }
}

/// The member-list endpoint for a room: channels and private groups
/// have one, other rooms have no members to list.
pub fn members_endpoint(room: &Room) -> (r: Option<&'static str>)
    ensures
        match room {
            Room::Chat { .. } => r matches Some(p) && p@ == "v1/channels.members"@,
            Room::Private { .. } => r matches Some(p) && p@ == "v1/groups.members"@,
            _ => r is None,
        },
{
    match room {
        Room::Chat { .. } => Some("v1/channels.members"),
        Room::Private { .. } => Some("v1/groups.members"),
        _ => None,
    }
}


/// Reads a member-list reply: the `members` array of short users.
pub fn members_from_reply(v: &WireValue) -> (r: Option<Vec<ShortUser>>)
    ensures
        match r {
            Some(out) => {
                &&& *v matches WireValue::Obj(ms)
                &&& (spec_lookup(ms@, "members"@) matches Some(WireValue::Arr(a))
                    && spec_short_users_rel(a@, out@))
            },
            None => true,
        },
        r is None ==> !(*v matches WireValue::Obj(ms) && spec_lookup(ms@, "members"@) matches Some(
            WireValue::Arr(a),
        ) && (forall|k: int| 0 <= k < a@.len() ==> spec_short_user_parseable(#[trigger] a@[k]))),
{
    match v.get_field("members") {
        Some(f) => match f {
            WireValue::Arr(a) => {
                let mut out: Vec<ShortUser> = Vec::new();
                let mut i: usize = 0;
                while i < a.len()
                    invariant
                        i <= a.len(),
                        out@.len() == i as int,
                        forall|k: int|
                            0 <= k < i ==> spec_short_user_rel(#[trigger] a@[k], out@[k]),
                    decreases a.len() - i,
                {
                    match ShortUser::from_wire(&a[i]) {
                        Some(u) => {
                            out.push(u);
                        },
                        None => {
                            return None;
                        },
                    }
                    i += 1;
                }
                Some(out)
            },
            _ => None,
        },
        None => None,
    }
}

} // verus!
