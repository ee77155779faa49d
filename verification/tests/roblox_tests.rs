use stateye::request::{session_cookie, Method};
use stateye::roblox::{
    auth_from_field, icon_from_field, place_from_fields, presence_from_fields,
    presence_type_from_code, AuthInfo, PlaceInfo, PresenceType, RemoteError, Reply, RobloxAPI,
};

fn api() -> RobloxAPI {
    RobloxAPI { token: "secret".to_string() }
}

fn ok(body: &str) -> Option<Reply> {
    Some(Reply { status: 200, body: body.to_string() })
}

#[test]
fn presence_codes_map_to_types() {
    assert_eq!(presence_type_from_code(0), PresenceType::Offline);
    assert_eq!(presence_type_from_code(1), PresenceType::Online);
    assert_eq!(presence_type_from_code(2), PresenceType::InGame);
    assert_eq!(presence_type_from_code(3), PresenceType::InStudio);
    assert_eq!(presence_type_from_code(4), PresenceType::Offline);
    assert_eq!(presence_type_from_code(-1), PresenceType::Offline);
    assert_eq!(presence_type_from_code(i64::MAX), PresenceType::Offline);
}

#[test]
fn presence_is_read_from_the_first_entry() {
    let reply = ok(
        "{\"userPresences\":[{\"userPresenceType\":2,\"placeId\":1818,\"universeId\":7,\"lastLocation\":\"x\"},{\"userPresenceType\":3}]}",
    );
    let p = api().get_user_presence(&reply).unwrap();
    assert_eq!(p.presence_type, PresenceType::InGame);
    assert_eq!(p.place_id, Some(1818));
    assert_eq!(p.universe_id, Some(7));
}

#[test]
fn presence_ids_may_be_null_or_absent() {
    let reply = ok("{\"userPresences\":[{\"userPresenceType\":3,\"placeId\":null}]}");
    let p = api().get_user_presence(&reply).unwrap();
    assert_eq!(p.presence_type, PresenceType::InStudio);
    assert_eq!(p.place_id, None);
    assert_eq!(p.universe_id, None);
}

#[test]
fn unknown_presence_code_counts_as_offline() {
    let reply = ok("{\"userPresences\":[{\"userPresenceType\":9,\"placeId\":5,\"universeId\":6}]}");
    let p = api().get_user_presence(&reply).unwrap();
    assert_eq!(p.presence_type, PresenceType::Offline);
    assert_eq!(p.place_id, Some(5));
    assert_eq!(p.universe_id, Some(6));
}

#[test]
fn presence_of_unexpected_shape_is_unavailable() {
    let a = api();
    assert_eq!(a.get_user_presence(&ok("{}")).unwrap_err(), RemoteError::RemoteUnavailable);
    assert_eq!(a.get_user_presence(&ok("{\"userPresences\":[]}")).unwrap_err(), RemoteError::RemoteUnavailable);
    assert_eq!(
        a.get_user_presence(&ok("{\"userPresences\":[{\"userPresenceType\":\"2\"}]}")).unwrap_err(),
        RemoteError::RemoteUnavailable
    );
    assert_eq!(a.get_user_presence(&ok("not json")).unwrap_err(), RemoteError::RemoteUnavailable);
    assert_eq!(a.get_user_presence(&ok("")).unwrap_err(), RemoteError::RemoteUnavailable);
}

#[test]
fn failed_request_or_bad_status_is_unavailable() {
    let a = api();
    let body = "{\"userPresences\":[{\"userPresenceType\":1}]}";
    assert_eq!(a.get_user_presence(&None).unwrap_err(), RemoteError::RemoteUnavailable);
    for status in [199u16, 300, 401, 404, 429, 500] {
        let reply = Some(Reply { status, body: body.to_string() });
        assert_eq!(a.get_user_presence(&reply).unwrap_err(), RemoteError::RemoteUnavailable);
    }
    for status in [200u16, 204, 299] {
        let reply = Some(Reply { status, body: body.to_string() });
        assert_eq!(a.get_user_presence(&reply).unwrap().presence_type, PresenceType::Online);
    }
}

#[test]
fn identity_is_read_from_id() {
    let a = api();
    let info = a.get_user_auth_info(&ok("{\"id\":261,\"name\":\"Shedletsky\"}")).unwrap();
    assert_eq!(info, AuthInfo { id: 261 });
    assert_eq!(a.get_user_auth_info(&ok("{\"name\":\"x\"}")).unwrap_err(), RemoteError::RemoteUnavailable);
    assert_eq!(a.get_user_auth_info(&ok("{\"id\":\"261\"}")).unwrap_err(), RemoteError::RemoteUnavailable);
    assert_eq!(a.get_user_auth_info(&ok("{\"id\":1.5}")).unwrap_err(), RemoteError::RemoteUnavailable);
    assert_eq!(a.get_user_auth_info(&ok("[1]")).unwrap_err(), RemoteError::RemoteUnavailable);
    assert_eq!(a.get_user_auth_info(&None).unwrap_err(), RemoteError::RemoteUnavailable);
    let unauthorised = Some(Reply { status: 401, body: "{\"id\":261}".to_string() });
    assert_eq!(a.get_user_auth_info(&unauthorised).unwrap_err(), RemoteError::RemoteUnavailable);
}

#[test]
fn place_info_is_read_from_the_first_element() {
    let a = api();
    let reply = ok("[{\"placeId\":1818,\"name\":\"Crossroads\",\"url\":\"https://www.roblox.com/games/1818/Crossroads\"}]");
    let place = a.get_place_info(&reply).unwrap();
    assert_eq!(
        place,
        PlaceInfo {
            name: "Crossroads".to_string(),
            url: "https://www.roblox.com/games/1818/Crossroads".to_string()
        }
    );
    assert_eq!(a.get_place_info(&ok("[]")).unwrap_err(), RemoteError::RemoteUnavailable);
    assert_eq!(a.get_place_info(&ok("[{\"name\":\"x\"}]")).unwrap_err(), RemoteError::RemoteUnavailable);
    assert_eq!(a.get_place_info(&ok("[{\"url\":\"x\"}]")).unwrap_err(), RemoteError::RemoteUnavailable);
    assert_eq!(a.get_place_info(&ok("[{\"name\":1,\"url\":\"x\"}]")).unwrap_err(), RemoteError::RemoteUnavailable);
    assert_eq!(a.get_place_info(&ok("{\"name\":\"a\",\"url\":\"b\"}")).unwrap_err(), RemoteError::RemoteUnavailable);
    assert_eq!(a.get_place_info(&None).unwrap_err(), RemoteError::RemoteUnavailable);
}

#[test]
fn icon_url_is_read_from_data() {
    let a = api();
    let reply = ok("{\"data\":[{\"targetId\":7,\"state\":\"Completed\",\"imageUrl\":\"https://tr.rbxcdn.com/abc/512/512/Image/Png\"}]}");
    assert_eq!(a.get_place_icon_url(&reply).unwrap(), "https://tr.rbxcdn.com/abc/512/512/Image/Png");
    assert_eq!(a.get_place_icon_url(&ok("{\"data\":[]}")).unwrap_err(), RemoteError::RemoteUnavailable);
    assert_eq!(a.get_place_icon_url(&ok("{\"data\":[{\"imageUrl\":null}]}")).unwrap_err(), RemoteError::RemoteUnavailable);
    assert_eq!(a.get_place_icon_url(&ok("{\"errors\":[]}")).unwrap_err(), RemoteError::RemoteUnavailable);
    let failed = Some(Reply { status: 503, body: String::new() });
    assert_eq!(a.get_place_icon_url(&failed).unwrap_err(), RemoteError::RemoteUnavailable);
}

#[test]
fn fields_make_values() {
    let p = presence_from_fields(Some(2), None, Some(3)).unwrap();
    assert_eq!(p.presence_type, PresenceType::InGame);
    assert_eq!(p.place_id, None);
    assert_eq!(p.universe_id, Some(3));
    assert_eq!(presence_from_fields(None, Some(1), Some(2)).unwrap_err(), RemoteError::RemoteUnavailable);
    assert_eq!(auth_from_field(Some(-4)).unwrap(), AuthInfo { id: -4 });
    assert_eq!(auth_from_field(None).unwrap_err(), RemoteError::RemoteUnavailable);
    assert_eq!(
        place_from_fields(Some("n".to_string()), Some("u".to_string())).unwrap(),
        PlaceInfo { name: "n".to_string(), url: "u".to_string() }
    );
    assert_eq!(place_from_fields(None, Some("u".to_string())).unwrap_err(), RemoteError::RemoteUnavailable);
    assert_eq!(place_from_fields(Some("n".to_string()), None).unwrap_err(), RemoteError::RemoteUnavailable);
    assert_eq!(icon_from_field(Some("i".to_string())).unwrap(), "i");
    assert_eq!(icon_from_field(None).unwrap_err(), RemoteError::RemoteUnavailable);
}

#[test]
fn identity_request_carries_cookie_and_accept() {
    let r = api().auth_request();
    assert_eq!(r.method, Method::Get);
    assert_eq!(r.url, "https://users.roblox.com/v1/users/authenticated");
    assert_eq!(r.cookie.as_deref(), Some(".ROBLOSECURITY=secret"));
    assert_eq!(r.accept.as_deref(), Some("application/json"));
    assert_eq!(r.content_type, None);
    assert_eq!(r.body, None);
}

#[test]
fn icon_request_names_the_universe_and_no_cookie() {
    let r = api().place_icon_request(4924922222);
    assert_eq!(r.method, Method::Get);
    assert_eq!(
        r.url,
        "https://thumbnails.roblox.com/v1/games/icons?universeIds=4924922222&size=512x512&format=Png&isCircular=false"
    );
    assert_eq!(r.cookie, None);
    assert_eq!(r.accept, None);
    assert_eq!(r.content_type, None);
    assert_eq!(r.body, None);
}

#[test]
fn place_request_names_the_place() {
    let r = api().place_info_request(1818);
    assert_eq!(r.method, Method::Get);
    assert_eq!(r.url, "https://games.roblox.com/v1/games/multiget-place-details?placeIds=1818");
    assert_eq!(r.cookie.as_deref(), Some(".ROBLOSECURITY=secret"));
    assert_eq!(r.body, None);
    let r = api().place_info_request(-5);
    assert_eq!(r.url, "https://games.roblox.com/v1/games/multiget-place-details?placeIds=-5");
    let r = api().place_info_request(0);
    assert_eq!(r.url, "https://games.roblox.com/v1/games/multiget-place-details?placeIds=0");
}

#[test]
fn presence_request_posts_the_user_id() {
    let r = api().presence_request(261);
    assert_eq!(r.method, Method::Post);
    assert_eq!(r.url, "https://presence.roblox.com/v1/presence/users");
    assert_eq!(r.cookie.as_deref(), Some(".ROBLOSECURITY=secret"));
    assert_eq!(r.content_type.as_deref(), Some("application/json"));
    assert_eq!(r.accept, None);
    assert_eq!(r.body.as_deref(), Some("{\"userIds\":[261]}"));
    let r = api().presence_request(i64::MIN);
    assert_eq!(r.body.as_deref(), Some("{\"userIds\":[-9223372036854775808]}"));
}

#[test]
fn credential_prefers_the_extracted_value() {
    assert_eq!(session_cookie(Some("abc".to_string()), "cfg".to_string()), "abc");
    assert_eq!(session_cookie(Some(String::new()), "cfg".to_string()), "");
    assert_eq!(session_cookie(None, "cfg".to_string()), "cfg");
    assert_eq!(session_cookie(None, String::new()), "");
}

#[test]
fn credential_from_the_configuration_is_sent_under_the_cookie_name() {
    let api = RobloxAPI { token: session_cookie(None, "abc".to_string()) };
    assert_eq!(api.auth_request().cookie.as_deref(), Some(".ROBLOSECURITY=abc"));
    assert_eq!(api.place_info_request(1).cookie.as_deref(), Some(".ROBLOSECURITY=abc"));
    assert_eq!(api.presence_request(1).cookie.as_deref(), Some(".ROBLOSECURITY=abc"));
    assert_eq!(api.place_icon_request(1).cookie, None);
    let api = RobloxAPI { token: session_cookie(Some("xyz".to_string()), "abc".to_string()) };
    assert_eq!(api.presence_request(1).cookie.as_deref(), Some(".ROBLOSECURITY=xyz"));
    let api = RobloxAPI { token: "t".to_string() };
    assert_eq!(api.presence_request(42).cookie.as_deref(), Some(".ROBLOSECURITY=t"));
    assert_eq!(api.presence_request(42).body.as_deref(), Some("{\"userIds\":[42]}"));
    let api = RobloxAPI { token: String::new() };
    assert_eq!(api.auth_request().cookie.as_deref(), Some(".ROBLOSECURITY="));
}
