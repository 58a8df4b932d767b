//! The endpoints and the error type on chosen values: each answer, each
//! error, and the laws of the crate on concrete profiles.

use ruma::error::{ApiError, ApiErrorCode};
use ruma::profile::{
    AvatarUrlUpdate, DisplayNameUpdate, GetAvatarUrl, GetDisplayName, Profile, PutAvatarUrl,
    PutAvatarUrlRequest, PutDisplayName, PutDisplayNameRequest, StoredProfile,
};

fn stored(avatar_url: Option<&str>, displayname: Option<&str>) -> StoredProfile {
    StoredProfile {
        avatar_url: avatar_url.map(|s| s.to_string()),
        displayname: displayname.map(|s| s.to_string()),
    }
}

const WRONG_USER: &str = "The given user_id does not correspond to the authenticated user";

#[test]
fn error_codes_and_statuses() {
    assert_eq!(ApiErrorCode::BadJson.status_code(), 400);
    assert_eq!(ApiErrorCode::Forbidden.status_code(), 403);
    assert_eq!(ApiErrorCode::NotFound.status_code(), 404);
    assert_eq!(ApiErrorCode::BadJson.as_string(), "M_BAD_JSON");
    assert_eq!(ApiErrorCode::Forbidden.as_string(), "M_FORBIDDEN");
    assert_eq!(ApiErrorCode::NotFound.as_string(), "M_NOT_FOUND");
}

#[test]
fn error_constructors() {
    let e = ApiError::bad_json(None);
    assert_eq!(e.errcode, ApiErrorCode::BadJson);
    assert_eq!(e.error, "Invalid or missing key-value pairs in JSON.");
    assert_eq!(e.status_code(), 400);

    let e = ApiError::bad_json(Some("no".to_string()));
    assert_eq!(e.errcode, ApiErrorCode::BadJson);
    assert_eq!(e.error, "no");

    let e = ApiError::not_found("gone".to_string());
    assert_eq!(e.errcode, ApiErrorCode::NotFound);
    assert_eq!(e.error, "gone");
    assert_eq!(e.status_code(), 404);

    let e = ApiError::unauthorized("not yours".to_string());
    assert_eq!(e.errcode, ApiErrorCode::Forbidden);
    assert_eq!(e.error, "not yours");
    assert_eq!(e.status_code(), 403);
}

#[test]
fn profile_answers_with_both_fields() {
    let r = Profile.handle("@a:x", Some(stored(Some("mxc://a"), Some("A")))).unwrap();
    assert_eq!(r.avatar_url.as_deref(), Some("mxc://a"));
    assert_eq!(r.displayname.as_deref(), Some("A"));

    let r = Profile.handle("@a:x", Some(stored(None, None))).unwrap();
    assert_eq!(r.avatar_url, None);
    assert_eq!(r.displayname, None);
}

#[test]
fn profile_of_unknown_user() {
    let e = Profile.handle("@nobody:x", None).unwrap_err();
    assert_eq!(e.errcode, ApiErrorCode::NotFound);
    assert_eq!(e.error, "No profile found for @nobody:x");
}

#[test]
fn avatar_url_answers() {
    let r = GetAvatarUrl.handle("@a:x", Some(stored(Some("mxc://a"), None))).unwrap();
    assert_eq!(r.avatar_url, "mxc://a");

    let e = GetAvatarUrl.handle("@a:x", Some(stored(None, Some("A")))).unwrap_err();
    assert_eq!(e.errcode, ApiErrorCode::NotFound);
    assert_eq!(e.error, "No avatar_url found for @a:x");

    let e = GetAvatarUrl.handle("@b:x", None).unwrap_err();
    assert_eq!(e.errcode, ApiErrorCode::NotFound);
    assert_eq!(e.error, "No profile found for @b:x");
}

#[test]
fn displayname_answers() {
    let r = GetDisplayName.handle("@a:x", Some(stored(None, Some("A")))).unwrap();
    assert_eq!(r.displayname, "A");

    let e = GetDisplayName.handle("@a:x", Some(stored(Some("mxc://a"), None))).unwrap_err();
    assert_eq!(e.errcode, ApiErrorCode::NotFound);
    assert_eq!(e.error, "No displayname found for @a:x");

    let e = GetDisplayName.handle("@b:x", None).unwrap_err();
    assert_eq!(e.errcode, ApiErrorCode::NotFound);
    assert_eq!(e.error, "No profile found for @b:x");
}

#[test]
fn put_avatar_url_decisions() {
    let body = || Some(PutAvatarUrlRequest { avatar_url: Some("mxc://new".to_string()) });

    let u = PutAvatarUrl.handle(body(), "@a:x", "@a:x").unwrap();
    assert_eq!(u.user_id, "@a:x");
    assert_eq!(u.avatar_url.as_deref(), Some("mxc://new"));

    let u = PutAvatarUrl
        .handle(Some(PutAvatarUrlRequest { avatar_url: None }), "@a:x", "@a:x")
        .unwrap();
    assert_eq!(u.avatar_url, None);

    let e = PutAvatarUrl.handle(body(), "@a:x", "@b:x").unwrap_err();
    assert_eq!(e.errcode, ApiErrorCode::Forbidden);
    assert_eq!(e.error, WRONG_USER);

    // A malformed body is refused before the user is looked at.
    let e = PutAvatarUrl.handle(None, "@a:x", "@b:x").unwrap_err();
    assert_eq!(e.errcode, ApiErrorCode::BadJson);
    assert_eq!(e.error, "Invalid or missing key-value pairs in JSON.");
    let e = PutAvatarUrl.handle(None, "@a:x", "@a:x").unwrap_err();
    assert_eq!(e.errcode, ApiErrorCode::BadJson);
}

#[test]
fn put_displayname_decisions() {
    let body = || Some(PutDisplayNameRequest { displayname: Some("Bogus".to_string()) });

    let u = PutDisplayName.handle(body(), "@a:x", "@a:x").unwrap();
    assert_eq!(u.user_id, "@a:x");
    assert_eq!(u.displayname.as_deref(), Some("Bogus"));

    let e = PutDisplayName.handle(body(), "@a:x", "@b:x").unwrap_err();
    assert_eq!(e.errcode, ApiErrorCode::Forbidden);
    assert_eq!(e.error, WRONG_USER);
    assert_eq!(e.status_code(), 403);

    let e = PutDisplayName.handle(None, "@a:x", "@a:x").unwrap_err();
    assert_eq!(e.errcode, ApiErrorCode::BadJson);
    assert_eq!(e.status_code(), 400);
}

#[test]
fn apply_writes_one_field_and_keeps_the_other() {
    let u = AvatarUrlUpdate { user_id: "@a:x".to_string(), avatar_url: Some("mxc://n".to_string()) };
    let p = u.apply_to(Some(stored(Some("mxc://o"), Some("A"))));
    assert_eq!(p.avatar_url.as_deref(), Some("mxc://n"));
    assert_eq!(p.displayname.as_deref(), Some("A"));

    let u = DisplayNameUpdate { user_id: "@a:x".to_string(), displayname: None };
    let p = u.apply_to(Some(stored(Some("mxc://o"), Some("A"))));
    assert_eq!(p.avatar_url.as_deref(), Some("mxc://o"));
    assert_eq!(p.displayname, None);

    // Writing to a user without a profile creates one.
    let u = DisplayNameUpdate { user_id: "@a:x".to_string(), displayname: Some("A".to_string()) };
    let p = u.apply_to(None);
    assert_eq!(p.avatar_url, None);
    assert_eq!(p.displayname.as_deref(), Some("A"));
}

#[test]
fn law_read_after_write() {
    let before = Some(stored(None, Some("Carl")));
    let update = PutAvatarUrl
        .handle(Some(PutAvatarUrlRequest { avatar_url: Some("mxc://x".to_string()) }), "@c:x", "@c:x")
        .unwrap();
    let after = update.apply_to(before);
    assert_eq!(GetAvatarUrl.handle("@c:x", Some(after.clone())).unwrap().avatar_url, "mxc://x");
    assert_eq!(GetDisplayName.handle("@c:x", Some(after)).unwrap().displayname, "Carl");

    // Clearing the avatar URL reads back as no avatar URL.
    let update = PutAvatarUrl
        .handle(Some(PutAvatarUrlRequest { avatar_url: None }), "@c:x", "@c:x")
        .unwrap();
    let after = update.apply_to(Some(stored(Some("mxc://x"), None)));
    let e = GetAvatarUrl.handle("@c:x", Some(after)).unwrap_err();
    assert_eq!(e.error, "No avatar_url found for @c:x");

    let update = PutDisplayName
        .handle(Some(PutDisplayNameRequest { displayname: Some("Dee".to_string()) }), "@d:x", "@d:x")
        .unwrap();
    let after = update.apply_to(None);
    assert_eq!(GetDisplayName.handle("@d:x", Some(after.clone())).unwrap().displayname, "Dee");
    let r = Profile.handle("@d:x", Some(after)).unwrap();
    assert_eq!(r.avatar_url, None);
    assert_eq!(r.displayname.as_deref(), Some("Dee"));
}

#[test]
fn law_writes_commute_and_are_idempotent() {
    let avatar = || AvatarUrlUpdate { user_id: "@c:x".to_string(), avatar_url: Some("mxc://u".to_string()) };
    let name = || DisplayNameUpdate { user_id: "@c:x".to_string(), displayname: Some("C".to_string()) };
    let start = || Some(stored(Some("mxc://old"), Some("Old")));

    let one = name().apply_to(Some(avatar().apply_to(start())));
    let two = avatar().apply_to(Some(name().apply_to(start())));
    assert_eq!(one.avatar_url, two.avatar_url);
    assert_eq!(one.displayname, two.displayname);
    assert_eq!(one.avatar_url.as_deref(), Some("mxc://u"));
    assert_eq!(one.displayname.as_deref(), Some("C"));

    let once = avatar().apply_to(start());
    let twice = avatar().apply_to(Some(once.clone()));
    assert_eq!(once.avatar_url, twice.avatar_url);
    assert_eq!(once.displayname, twice.displayname);
}

#[test]
fn law_refusals() {
    // Another user's profile is refused the same way whatever the body asks.
    let a = PutAvatarUrl
        .handle(Some(PutAvatarUrlRequest { avatar_url: Some("mxc://1".to_string()) }), "@a:x", "@b:x")
        .unwrap_err();
    let b = PutAvatarUrl
        .handle(Some(PutAvatarUrlRequest { avatar_url: None }), "@a:x", "@b:x")
        .unwrap_err();
    assert_eq!(a.errcode, b.errcode);
    assert_eq!(a.error, b.error);
}

#[test]
fn law_field_answers_agree_with_profile() {
    for p in [None, Some(stored(None, None)), Some(stored(Some("u"), None)), Some(stored(None, Some("n")))] {
        let whole = Profile.handle("@a:x", p.clone());
        let avatar = GetAvatarUrl.handle("@a:x", p.clone());
        let name = GetDisplayName.handle("@a:x", p.clone());
        match whole {
            Ok(r) => {
                assert_eq!(avatar.ok().map(|a| a.avatar_url), r.avatar_url);
                assert_eq!(name.ok().map(|n| n.displayname), r.displayname);
            }
            Err(e) => {
                assert_eq!(avatar.unwrap_err().error, e.error);
                assert_eq!(name.unwrap_err().error, e.error);
            }
        }
    }
}
