use vstd::prelude::*;

verus! {

#[verifier::external_type_specification]
#[verifier::external_body]
pub struct ExValue(serde_json::Value);

/// The document that `serde_json::from_str` reads from a text, if it reads one.
pub uninterp spec fn json_document(text: Seq<char>) -> Option<serde_json::Value>;

/// What indexing a JSON value by a key gives.
pub uninterp spec fn json_member(value: serde_json::Value, key: Seq<char>) -> serde_json::Value;

/// What indexing a JSON value by a position gives.
pub uninterp spec fn json_element(value: serde_json::Value, index: nat) -> serde_json::Value;

/// The integer that `serde_json::Value::as_i64` finds in a JSON value.
pub uninterp spec fn json_integer(value: serde_json::Value) -> Option<i64>;

/// The text that `serde_json::Value::as_str` finds in a JSON value.
pub uninterp spec fn json_text(value: serde_json::Value) -> Option<Seq<char>>;

/// `serde_json::from_str` at type `Value`: the parsed document, or `None` where
/// the parser reports an error. The result is a function of the text alone;
/// the contract only gives it its name.
#[verifier::external_body]
fn parse_document(text: &str) -> (r: Option<serde_json::Value>)
    ensures
        r == json_document(text@),
{
    serde_json::from_str::<serde_json::Value>(text).ok()
}

/// Indexing a `serde_json::Value` by `&str`: the member under that key, or
/// JSON null where the value is no object or has no such key. It never panics.
/// The contract only gives the result its name.
#[verifier::external_body]
fn member<'a>(value: &'a serde_json::Value, key: &str) -> (r: &'a serde_json::Value)
    ensures
        *r == json_member(*value, key@),
{
    &value[key]
}

/// Indexing a `serde_json::Value` by `usize`: the element at that position, or
/// JSON null where the value is no array or is too short. It never panics.
/// The contract only gives the result its name.
#[verifier::external_body]
fn element<'a>(value: &'a serde_json::Value, index: usize) -> (r: &'a serde_json::Value)
    ensures
        *r == json_element(*value, index as nat),
{
    &value[index]
}

/// `serde_json::Value::as_i64`: the number, where the value is an integer that
/// fits `i64`. The contract only gives the result its name.
#[verifier::external_body]
fn integer(value: &serde_json::Value) -> (r: Option<i64>)
    ensures
        r == json_integer(*value),
{
    value.as_i64()
}

/// `serde_json::Value::as_str`: the text, where the value is a string. The
/// contract only gives the result its name.
#[verifier::external_body]
fn text<'a>(value: &'a serde_json::Value) -> (r: Option<&'a str>)
    ensures
        match r {
            Some(s) => json_text(*value) == Some(s@),
            None => json_text(*value) is None,
        },
{
    value.as_str()
}

/// A copy of a text that may be absent.
fn owned(text: Option<&str>) -> (r: Option<String>)
    ensures
        match r {
            Some(s) => text is Some && s@ == text->0@,
            None => text is None,
        },
{
    match text {
        Some(s) => Some(s.to_owned()),
        None => None,
    }
}

/// Why a lookup at Roblox gave nothing: the request failed, the answer was no
/// success, or its body did not have the expected shape.
#[derive(Debug, Clone, Copy, PartialEq, Eq, Structural)]
pub enum RemoteError {
    RemoteUnavailable,
}

/// What came back for a request: the HTTP status and the body's text.
#[derive(Debug, Clone, PartialEq, Eq)]
pub struct Reply {
    pub status: u16,
    pub body: String,
}

/// A place's name and the address of its page.
#[derive(Debug, Clone, PartialEq, Eq)]
pub struct PlaceInfo {
    pub name: String,
    pub url: String,
}

/// What a `PlaceInfo` holds, as sequences of characters.
pub struct PlaceInfoView {
    pub name: Seq<char>,
    pub url: Seq<char>,
}

impl View for PlaceInfo {
    type V = PlaceInfoView;

    open spec fn view(&self) -> PlaceInfoView {
        PlaceInfoView { name: self.name@, url: self.url@ }
    }
}

/// The user that a token belongs to.
#[derive(Debug, Clone, Copy, PartialEq, Eq, Structural)]
pub struct AuthInfo {
    pub id: i64,
}

/// Where a user is: nowhere, on the website, in a game or in Studio.
#[derive(Debug, PartialEq, Eq, Structural, Clone, Copy)]
pub enum PresenceType {
    Offline,
    Online,
    InGame,
    InStudio,
}

/// One reading of a user's presence: where they are, and the place and the
/// universe they are in, as far as Roblox names them.
#[derive(Debug, Clone, Copy, PartialEq, Eq)]
pub struct UserPresence {
    pub presence_type: PresenceType,
    pub place_id: Option<i64>,
    pub universe_id: Option<i64>,
}

/// The body of a reply that can be used: there was a reply and its status is
/// one of success (200 to 299).
pub open spec fn usable_body(reply: Option<Reply>) -> Option<Seq<char>> {
    match reply {
        Some(r) => if 200 <= r.status && r.status < 300 {
            Some(r.body@)
        } else {
            None
        },
        None => None,
    }
}

/// The JSON document in a reply, if the reply can be used and its body parses.
pub open spec fn document_of(reply: Option<Reply>) -> Option<serde_json::Value> {
    match usable_body(reply) {
        Some(text) => json_document(text),
        None => None,
    }
}

/// The presence type that Roblox's numeric code stands for; unknown codes
/// count as offline.
pub open spec fn presence_type_of(code: i64) -> PresenceType {
    if code == 1 {
        PresenceType::Online
    } else if code == 2 {
        PresenceType::InGame
    } else if code == 3 {
        PresenceType::InStudio
    } else {
        PresenceType::Offline
    }
}

/// The presence made of the three fields of a presence entry: it needs the
/// type's code; the two ids may be absent.
pub open spec fn presence_of_fields(
    code: Option<i64>,
    place_id: Option<i64>,
    universe_id: Option<i64>,
) -> Result<UserPresence, RemoteError> {
    match code {
        Some(c) => Ok(UserPresence { presence_type: presence_type_of(c), place_id, universe_id }),
        None => Err(RemoteError::RemoteUnavailable),
    }
}

/// The user id made of the `id` field of an identity document.
pub open spec fn auth_of_field(id: Option<i64>) -> Result<AuthInfo, RemoteError> {
    match id {
        Some(id) => Ok(AuthInfo { id }),
        None => Err(RemoteError::RemoteUnavailable),
    }
}

/// Whether `r` is the place made of the two fields of a place entry: both
/// texts are needed.
pub open spec fn is_place_of_fields(
    r: Result<PlaceInfo, RemoteError>,
    name: Option<Seq<char>>,
    url: Option<Seq<char>>,
) -> bool {
    if name is Some && url is Some {
        r is Ok && r->Ok_0@ == (PlaceInfoView { name: name->0, url: url->0 })
    } else {
        r == Err::<PlaceInfo, RemoteError>(RemoteError::RemoteUnavailable)
    }
}

/// Whether `r` is the icon url made of the `imageUrl` field of an icon entry.
pub open spec fn is_icon_of_field(r: Result<String, RemoteError>, url: Option<Seq<char>>) -> bool {
    if url is Some {
        r is Ok && r->Ok_0@ == url->0
    } else {
        r == Err::<String, RemoteError>(RemoteError::RemoteUnavailable)
    }
}

/// The presence that a reply to a presence lookup holds: the first entry of
/// `userPresences`, read by `userPresenceType`, `placeId` and `universeId`.
pub open spec fn presence_in(reply: Option<Reply>) -> Result<UserPresence, RemoteError> {
    match document_of(reply) {
        Some(doc) => {
            let entry = json_element(json_member(doc, "userPresences"@), 0);
            presence_of_fields(
                json_integer(json_member(entry, "userPresenceType"@)),
                json_integer(json_member(entry, "placeId"@)),
                json_integer(json_member(entry, "universeId"@)),
            )
        },
        None => Err(RemoteError::RemoteUnavailable),
    }
}

/// The user id that a reply to an identity lookup holds, under `id`.
pub open spec fn auth_in(reply: Option<Reply>) -> Result<AuthInfo, RemoteError> {
    match document_of(reply) {
        Some(doc) => auth_of_field(json_integer(json_member(doc, "id"@))),
        None => Err(RemoteError::RemoteUnavailable),
    }
}

/// Whether `r` is the place that a reply to a place lookup holds: the first
/// element of the document, read by `name` and `url`.
pub open spec fn is_place_in(r: Result<PlaceInfo, RemoteError>, reply: Option<Reply>) -> bool {
    match document_of(reply) {
        Some(doc) => {
            let entry = json_element(doc, 0);
            is_place_of_fields(
                r,
                json_text(json_member(entry, "name"@)),
                json_text(json_member(entry, "url"@)),
            )
        },
        None => r == Err::<PlaceInfo, RemoteError>(RemoteError::RemoteUnavailable),
    }
}

/// Whether `r` is the icon url that a reply to an icon lookup holds: the
/// `imageUrl` of the first element of `data`.
pub open spec fn is_icon_in(r: Result<String, RemoteError>, reply: Option<Reply>) -> bool {
    match document_of(reply) {
        Some(doc) => {
            let entry = json_element(json_member(doc, "data"@), 0);
            is_icon_of_field(r, json_text(json_member(entry, "imageUrl"@)))
        },
        None => r == Err::<String, RemoteError>(RemoteError::RemoteUnavailable),
    }
}

/// Reads Roblox's numeric presence code.
pub fn presence_type_from_code(code: i64) -> (r: PresenceType)
    ensures
        r == presence_type_of(code),
{
    if code == 1 {
        PresenceType::Online
    } else if code == 2 {
        PresenceType::InGame
    } else if code == 3 {
        PresenceType::InStudio
    } else {
        PresenceType::Offline
    }
}

/// Makes a presence of the fields found in a presence entry.
pub fn presence_from_fields(
    code: Option<i64>,
    place_id: Option<i64>,
    universe_id: Option<i64>,
) -> (r: Result<UserPresence, RemoteError>)
    ensures
        r == presence_of_fields(code, place_id, universe_id),
{
    match code {
        Some(c) => Ok(
            UserPresence { presence_type: presence_type_from_code(c), place_id, universe_id },
        ),
        None => Err(RemoteError::RemoteUnavailable),
    }
}

/// Makes the user's identity of the field found in an identity document.
pub fn auth_from_field(id: Option<i64>) -> (r: Result<AuthInfo, RemoteError>)
    ensures
        r == auth_of_field(id),
{
    match id {
        Some(id) => Ok(AuthInfo { id }),
        None => Err(RemoteError::RemoteUnavailable),
    }
}

/// Makes a place of the fields found in a place entry.
pub fn place_from_fields(name: Option<String>, url: Option<String>) -> (r: Result<
    PlaceInfo,
    RemoteError,
>)
    ensures
        r is Ok <==> name is Some && url is Some,
        r is Ok ==> r->Ok_0.name == name->0 && r->Ok_0.url == url->0,
        r is Err ==> r->Err_0 == RemoteError::RemoteUnavailable,
{
    match (name, url) {
        (Some(name), Some(url)) => Ok(PlaceInfo { name, url }),
        _ => Err(RemoteError::RemoteUnavailable),
    }
}

/// Makes an icon url of the field found in an icon entry.
pub fn icon_from_field(url: Option<String>) -> (r: Result<String, RemoteError>)
    ensures
        r is Ok <==> url is Some,
        r is Ok ==> r->Ok_0 == url->0,
        r is Err ==> r->Err_0 == RemoteError::RemoteUnavailable,
{
    match url {
        Some(url) => Ok(url),
        None => Err(RemoteError::RemoteUnavailable),
    }
}

/// Reads the JSON document of a reply.
fn read_document(reply: &Option<Reply>) -> (r: Option<serde_json::Value>)
    ensures
        r == document_of(*reply),
{
    match reply {
        Some(rep) => {
            if 200 <= rep.status && rep.status < 300 {
                parse_document(rep.body.as_str())
            } else {
                None
            }
        },
        None => None,
    }
}

/// Access to the Roblox web API on behalf of the owner of `token`.
pub struct RobloxAPI {
    pub token: String,
}

impl RobloxAPI {
    /// Get information about the user from the reply to an identity lookup
    /// (specifically the user id, so that their presence can be asked for).
    /// `None` stands for a request that failed.
    pub fn get_user_auth_info(&self, reply: &Option<Reply>) -> (r: Result<AuthInfo, RemoteError>)
        ensures
            r == auth_in(*reply),
    {
        match read_document(reply) {
            Some(doc) => auth_from_field(integer(member(&doc, "id"))),
            None => Err(RemoteError::RemoteUnavailable),
        }
    }

    /// Reads the icon url from the reply to an icon lookup.
    pub fn get_place_icon_url(&self, reply: &Option<Reply>) -> (r: Result<String, RemoteError>)
        ensures
            is_icon_in(r, *reply),
    {
        match read_document(reply) {
            Some(doc) => {
                let entry = element(member(&doc, "data"), 0);
                icon_from_field(owned(text(member(entry, "imageUrl"))))
            },
            None => Err(RemoteError::RemoteUnavailable),
        }
    }

    /// Reads a place's name and url from the reply to a place lookup.
    pub fn get_place_info(&self, reply: &Option<Reply>) -> (r: Result<PlaceInfo, RemoteError>)
        ensures
            is_place_in(r, *reply),
    {
        match read_document(reply) {
            Some(doc) => {
                let entry = element(&doc, 0);
                let name = owned(text(member(entry, "name")));
                let url = owned(text(member(entry, "url")));
                place_from_fields(name, url)
            },
            None => Err(RemoteError::RemoteUnavailable),
        }
    }

    /// Reads the user's presence from the reply to a presence lookup.
    pub fn get_user_presence(&self, reply: &Option<Reply>) -> (r: Result<UserPresence, RemoteError>)
        ensures
            r == presence_in(*reply),
    {
        match read_document(reply) {
            Some(doc) => {
                let entry = element(member(&doc, "userPresences"), 0);
                let code = integer(member(entry, "userPresenceType"));
                let place_id = integer(member(entry, "placeId"));
                let universe_id = integer(member(entry, "universeId"));
                presence_from_fields(code, place_id, universe_id)
            },
            None => Err(RemoteError::RemoteUnavailable),
        }
    }
}

} // verus!
