use vstd::prelude::*;
use crate::error::ClientError;
use crate::cookies::{cookie_pairs, split_cookie_pairs};
use crate::header::{ascii_chars, header_bytes_of, header_value_text, lemma_visible_bytes_text, visible_bytes, visible_text};

verus! {

/// The authentication endpoint that the login exchange posts to.
pub const AUTH_URL: &'static str = "https://auth.colonq.computer/api/firstfactor";

/// The protected resource a session must be valid for.
pub const TARGET_URL: &'static str = "https://secure.colonq.computer/menu";

/// The origin that stored session cookies are scoped to.
pub const REDEEM_ORIGIN: &'static str = "https://secure.colonq.computer";

/// The endpoint that accepts redeem submissions.
pub const REDEEM_URL: &'static str = "https://secure.colonq.computer/api/redeem";

/// A status in the success range, 200 to 299.
pub open spec fn success_status(status: u16) -> bool {
    200 <= status && status < 300
}

/// Tells whether an HTTP status is a success status.
pub fn is_success_status(status: u16) -> (r: bool)
    ensures
        r == success_status(status),
{
    200 <= status && status < 300
}

/// The persisted logged-in state: the credentials and the session cookies
/// that the authentication server set, as one header text.
#[derive(Debug, Clone)]
pub struct SessionRecord {
    pub username: String,
    pub password: String,
    pub cookies: String,
}

impl SessionRecord {
    /// A record as a login leaves it: a username, and cookie text of visible
    /// characters holding at least one cookie pair.
    pub open spec fn wf(&self) -> bool {
        &&& self.username@.len() > 0
        &&& visible_text(self.cookies@)
        &&& cookie_pairs(self.cookies@).len() > 0
    }
}

/// The body of a login request.
#[derive(Debug, Clone)]
pub struct LoginRequest {
    pub username: String,
    pub password: String,
    pub target_url: String,
}

impl LoginRequest {
    /// A login request for these credentials, aimed at the protected resource.
    pub fn new(username: String, password: String) -> (r: LoginRequest)
        ensures
            r.username@ == username@,
            r.password@ == password@,
            r.target_url@ == TARGET_URL@,
    {
        LoginRequest { username, password, target_url: TARGET_URL.to_owned() }
    }
}

/// Turns the answer of the login endpoint into a session record.
///
/// `status` is the response status and `cookies` the cookie header that the
/// client holds for the response's effective URL, if any cookie was set.
/// A non-success status is an authentication failure. A success without a
/// cookie pair is a login failure too, and no record comes out of either.
/// Otherwise the record keeps the header's text as the session cookies.
pub fn session_from_login(
    username: String,
    password: String,
    status: u16,
    cookies: Option<reqwest::header::HeaderValue>,
) -> (r: Result<SessionRecord, ClientError>)
    requires
        username@.len() > 0,
    ensures
        !success_status(status) ==> (r matches Err(ClientError::Authentication(s)) && s == status),
        success_status(status) && cookies is None ==> r matches Err(ClientError::NoCookie),
        success_status(status) && cookies is Some ==> ({
            let b = header_bytes_of(cookies->Some_0);
            &&& !visible_bytes(b) ==> (r matches Err(ClientError::InvalidSessionFormat))
            &&& visible_bytes(b) && cookie_pairs(ascii_chars(b)).len() == 0 ==> (r matches Err(ClientError::NoCookie))
            &&& visible_bytes(b) && cookie_pairs(ascii_chars(b)).len() > 0 ==> r is Ok
        }),
        r matches Ok(rec) ==> {
            &&& cookies is Some
            &&& rec.username@ == username@
            &&& rec.password@ == password@
            &&& rec.cookies@ == ascii_chars(header_bytes_of(cookies->Some_0))
            &&& rec.wf()
        },
{
    if !is_success_status(status) {
        return Err(ClientError::Authentication(status));
    }
    match cookies {
        None => Err(ClientError::NoCookie),
        Some(v) => match header_value_text(&v) {
            Some(text) => {
                proof {
                    lemma_visible_bytes_text(header_bytes_of(v));
                }
                let pairs = split_cookie_pairs(text.as_str());
                if pairs.len() == 0 {
                    Err(ClientError::NoCookie)
                } else {
                    Ok(SessionRecord { username, password, cookies: text })
                }
            },
            None => Err(ClientError::InvalidSessionFormat),
        },
    }
}

} // verus!
