use crate::roblox::RobloxAPI;
use vstd::prelude::*;
use vstd::string::*;

verus! {

/// The character for a digit from 0 to 9.
pub open spec fn digit_char(d: nat) -> char {
    "0123456789"@[d as int]
}

/// The decimal digits of a natural number, without leading zeros.
pub open spec fn digits(n: nat) -> Seq<char>
    decreases n,
{
    if n < 10 {
        seq![digit_char(n)]
    } else {
        digits(n / 10).push(digit_char(n % 10))
    }
}

/// A whole number written in decimal, with `-` before a negative one.
pub open spec fn decimal_text(n: int) -> Seq<char> {
    if n < 0 {
        seq!['-'] + digits((-n) as nat)
    } else {
        digits(n as nat)
    }
}

/// `format!("{}", n)` for an `i64`, that is its `Display`: the number in
/// decimal, with a minus sign before a negative one and no other padding.
#[verifier::external_body]
fn decimal(n: i64) -> (r: String)
    ensures
        r@ == decimal_text(n as int),
{
    format!("{}", n)
}

/// The HTTP method of a request.
#[derive(Debug, Clone, Copy, PartialEq, Eq, Structural)]
pub enum Method {
    Get,
    Post,
}

/// A request to the Roblox web API: where it goes, the headers it carries
/// (each present or not) and its body.
#[derive(Debug, Clone, PartialEq, Eq)]
pub struct Request {
    pub method: Method,
    pub url: String,
    pub cookie: Option<String>,
    pub accept: Option<String>,
    pub content_type: Option<String>,
    pub body: Option<String>,
}

/// What a `Request` holds, texts as sequences of characters.
pub struct RequestView {
    pub method: Method,
    pub url: Seq<char>,
    pub cookie: Option<Seq<char>>,
    pub accept: Option<Seq<char>>,
    pub content_type: Option<Seq<char>>,
    pub body: Option<Seq<char>>,
}

/// The view of a text that may be absent.
pub open spec fn text_view(text: Option<String>) -> Option<Seq<char>> {
    match text {
        Some(t) => Some(t@),
        None => None,
    }
}

impl View for Request {
    type V = RequestView;

    open spec fn view(&self) -> RequestView {
        RequestView {
            method: self.method,
            url: self.url@,
            cookie: text_view(self.cookie),
            accept: text_view(self.accept),
            content_type: text_view(self.content_type),
            body: text_view(self.body),
        }
    }
}

/// The credential used at Roblox: the session value found on this machine, or
/// else the token of the configuration.
pub open spec fn spec_session_cookie(extracted: Option<Seq<char>>, config_token: Seq<char>) -> Seq<char> {
    match extracted {
        Some(value) => value,
        None => config_token,
    }
}

/// The `Cookie` header that carries a credential: the cookie's name, `=`, and
/// the credential.
pub open spec fn cookie_header(token: Seq<char>) -> Seq<char> {
    ".ROBLOSECURITY="@ + token
}

/// The request that asks who the owner of `token` is.
pub open spec fn auth_request_of(token: Seq<char>) -> RequestView {
    RequestView {
        method: Method::Get,
        url: "https://users.roblox.com/v1/users/authenticated"@,
        cookie: Some(cookie_header(token)),
        accept: Some("application/json"@),
        content_type: None,
        body: None,
    }
}

/// The request that asks for the icon of a universe; it carries no cookie.
pub open spec fn place_icon_request_of(universe_id: i64) -> RequestView {
    RequestView {
        method: Method::Get,
        url: "https://thumbnails.roblox.com/v1/games/icons?universeIds="@ + decimal_text(
            universe_id as int,
        ) + "&size=512x512&format=Png&isCircular=false"@,
        cookie: None,
        accept: None,
        content_type: None,
        body: None,
    }
}

/// The request that asks for the details of a place.
pub open spec fn place_info_request_of(token: Seq<char>, place_id: i64) -> RequestView {
    RequestView {
        method: Method::Get,
        url: "https://games.roblox.com/v1/games/multiget-place-details?placeIds="@ + decimal_text(
            place_id as int,
        ),
        cookie: Some(cookie_header(token)),
        accept: None,
        content_type: None,
        body: None,
    }
}

/// The request that asks for the presence of a user.
pub open spec fn presence_request_of(token: Seq<char>, user_id: i64) -> RequestView {
    RequestView {
        method: Method::Post,
        url: "https://presence.roblox.com/v1/presence/users"@,
        cookie: Some(cookie_header(token)),
        accept: None,
        content_type: Some("application/json"@),
        body: Some("{\"userIds\":["@ + decimal_text(user_id as int) + "]}"@),
    }
}

/// Chooses the credential to use at Roblox.
pub fn session_cookie(extracted: Option<String>, config_token: String) -> (r: String)
    ensures
        r@ == spec_session_cookie(text_view(extracted), config_token@),
{
    match extracted {
        Some(value) => value,
        None => config_token,
    }
}

impl RobloxAPI {
    /// The `Cookie` header that carries this client's token.
    fn cookie(&self) -> (r: String)
        ensures
            r@ == cookie_header(self.token@),
    {
        let mut header = ".ROBLOSECURITY=".to_owned();
        header.append(self.token.as_str());
        header
    }

    /// The request for `get_user_auth_info`.
    pub fn auth_request(&self) -> (r: Request)
        ensures
            r@ == auth_request_of(self.token@),
    {
        Request {
            method: Method::Get,
            url: "https://users.roblox.com/v1/users/authenticated".to_owned(),
            cookie: Some(self.cookie()),
            accept: Some("application/json".to_owned()),
            content_type: None,
            body: None,
        }
    }

    /// The request for `get_place_icon_url`.
    pub fn place_icon_request(&self, universe_id: i64) -> (r: Request)
        ensures
            r@ == place_icon_request_of(universe_id),
    {
        let mut url = "https://thumbnails.roblox.com/v1/games/icons?universeIds=".to_owned();
        let id = decimal(universe_id);
        url.append(id.as_str());
        url.append("&size=512x512&format=Png&isCircular=false");
        Request { method: Method::Get, url, cookie: None, accept: None, content_type: None, body: None }
    }

    /// The request for `get_place_info`.
    pub fn place_info_request(&self, place_id: i64) -> (r: Request)
        ensures
            r@ == place_info_request_of(self.token@, place_id),
    {
        let mut url = "https://games.roblox.com/v1/games/multiget-place-details?placeIds=".to_owned();
        let id = decimal(place_id);
        url.append(id.as_str());
        Request {
            method: Method::Get,
            url,
            cookie: Some(self.cookie()),
            accept: None,
            content_type: None,
            body: None,
        }
    }

    /// The request for `get_user_presence`.
    pub fn presence_request(&self, user_id: i64) -> (r: Request)
        ensures
            r@ == presence_request_of(self.token@, user_id),
    {
        let mut body = "{\"userIds\":[".to_owned();
        let id = decimal(user_id);
        body.append(id.as_str());
        body.append("]}");
        Request {
            method: Method::Post,
            url: "https://presence.roblox.com/v1/presence/users".to_owned(),
            cookie: Some(self.cookie()),
            accept: None,
            content_type: Some("application/json".to_owned()),
            body: Some(body),
        }
    }
}

} // verus!
