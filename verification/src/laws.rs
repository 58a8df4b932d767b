//! What holds of the profile endpoints together: what a read gives back of a
//! write, what a write leaves alone, and how the endpoints agree.

use vstd::prelude::*;

use crate::error::{bad_json_error, not_found_error, spec_status_code, ApiErrorCode, ApiErrorView};
use crate::profile::{
    avatar_url_answer, displayname_answer, no_avatar_url_message, no_displayname_message,
    profile_answer, put_answer, with_avatar_url, with_displayname, ProfileChange, ProfileFields,
};

verus! {

/// A user who sets their own avatar URL and then reads it back gets what
/// they wrote; where they cleared it, the read answers that there is no
/// avatar URL. Reading the whole profile gives the new avatar URL beside the
/// display name that the user had before.
pub proof fn avatar_url_read_after_write(
    user_id: Seq<char>,
    stored: Option<ProfileFields>,
    value: Option<Seq<char>>,
)
    ensures
        put_answer(Some(value), user_id, user_id) == Ok::<ProfileChange, ApiErrorView>(
            ProfileChange { user_id, value },
        ),
        avatar_url_answer(user_id, Some(with_avatar_url(stored, value))) == match value {
            Some(url) => Ok(url),
            None => Err(not_found_error(no_avatar_url_message(user_id))),
        },
        profile_answer(user_id, Some(with_avatar_url(stored, value))) == Ok::<
            ProfileFields,
            ApiErrorView,
        >(
            ProfileFields {
                avatar_url: value,
                displayname: match stored {
                    Some(p) => p.displayname,
                    None => None,
                },
            },
        ),
{
}

/// A user who sets their own display name and then reads it back gets what
/// they wrote; where they cleared it, the read answers that there is no
/// display name. Reading the whole profile gives the new display name beside
/// the avatar URL that the user had before.
pub proof fn displayname_read_after_write(
    user_id: Seq<char>,
    stored: Option<ProfileFields>,
    value: Option<Seq<char>>,
)
    ensures
        put_answer(Some(value), user_id, user_id) == Ok::<ProfileChange, ApiErrorView>(
            ProfileChange { user_id, value },
        ),
        displayname_answer(user_id, Some(with_displayname(stored, value))) == match value {
            Some(name) => Ok(name),
            None => Err(not_found_error(no_displayname_message(user_id))),
        },
        profile_answer(user_id, Some(with_displayname(stored, value))) == Ok::<
            ProfileFields,
            ApiErrorView,
        >(
            ProfileFields {
                avatar_url: match stored {
                    Some(p) => p.avatar_url,
                    None => None,
                },
                displayname: value,
            },
        ),
{
}

/// Writing the avatar URL of a profile leaves what its display name reads
/// as, and writing the display name leaves what its avatar URL reads as.
pub proof fn writes_leave_the_other_field(user_id: Seq<char>, stored: ProfileFields, value: Option<Seq<char>>)
    ensures
        displayname_answer(user_id, Some(with_avatar_url(Some(stored), value)))
            == displayname_answer(user_id, Some(stored)),
        avatar_url_answer(user_id, Some(with_displayname(Some(stored), value)))
            == avatar_url_answer(user_id, Some(stored)),
{
}

/// Setting the avatar URL and the display name gives a profile that holds
/// both, whichever is written first and whatever the profile held before.
pub proof fn writes_commute(
    stored: Option<ProfileFields>,
    avatar_url: Option<Seq<char>>,
    displayname: Option<Seq<char>>,
)
    ensures
        with_displayname(Some(with_avatar_url(stored, avatar_url)), displayname) == (ProfileFields {
            avatar_url,
            displayname,
        }),
        with_avatar_url(Some(with_displayname(stored, displayname)), avatar_url) == (ProfileFields {
            avatar_url,
            displayname,
        }),
{
}

/// Writing the same value twice leaves the profile as writing it once.
pub proof fn writes_are_idempotent(stored: Option<ProfileFields>, value: Option<Seq<char>>)
    ensures
        ({
            let once = with_avatar_url(stored, value);
            with_avatar_url(Some(once), value) == once
        }),
        ({
            let once = with_displayname(stored, value);
            with_displayname(Some(once), value) == once
        }),
{
}

/// A change to a profile is made exactly when the body was read and the
/// authenticated user is the one the profile belongs to; a change asked of
/// another user's profile is refused in the same way whatever it asks.
pub proof fn put_refusals(
    body: Option<Option<Seq<char>>>,
    other_body: Option<Seq<char>>,
    user_id: Seq<char>,
    authenticated: Seq<char>,
)
    ensures
        put_answer(body, user_id, authenticated) is Ok <==> (body is Some && user_id == authenticated),
        body is None ==> put_answer(body, user_id, authenticated) == Err::<
            ProfileChange,
            ApiErrorView,
        >(bad_json_error()),
        (body is Some && user_id != authenticated) ==> put_answer(body, user_id, authenticated)
            == put_answer(Some(other_body), user_id, authenticated),
{
}

/// The avatar URL and display name endpoints agree with the profile
/// endpoint: each answers with the field that the profile answer holds, and
/// where there is no profile all three answer with the same error.
pub proof fn field_answers_agree_with_profile(user_id: Seq<char>, stored: Option<ProfileFields>)
    ensures
        match profile_answer(user_id, stored) {
            Ok(p) => {
                &&& (avatar_url_answer(user_id, stored) is Ok <==> p.avatar_url is Some)
                &&& (p.avatar_url matches Some(url) ==> avatar_url_answer(user_id, stored) == Ok::<
                    Seq<char>,
                    ApiErrorView,
                >(url))
                &&& (displayname_answer(user_id, stored) is Ok <==> p.displayname is Some)
                &&& (p.displayname matches Some(name) ==> displayname_answer(user_id, stored)
                    == Ok::<Seq<char>, ApiErrorView>(name))
            },
            Err(e) => {
                &&& avatar_url_answer(user_id, stored) == Err::<Seq<char>, ApiErrorView>(e)
                &&& displayname_answer(user_id, stored) == Err::<Seq<char>, ApiErrorView>(e)
            },
        },
{
}

/// A user with no stored profile is answered 404, `M_NOT_FOUND`, "No
/// profile found for" and the user id, by each of the three reads; never
/// with a profile or a field.
pub proof fn no_profile_reads_as_not_found(user_id: Seq<char>)
    ensures
        profile_answer(user_id, None) == Err::<ProfileFields, ApiErrorView>(
            (ApiErrorView { errcode: ApiErrorCode::NotFound, error: "No profile found for "@ + user_id }),
        ),
        avatar_url_answer(user_id, None) == Err::<Seq<char>, ApiErrorView>(
            (ApiErrorView { errcode: ApiErrorCode::NotFound, error: "No profile found for "@ + user_id }),
        ),
        displayname_answer(user_id, None) == Err::<Seq<char>, ApiErrorView>(
            (ApiErrorView { errcode: ApiErrorCode::NotFound, error: "No profile found for "@ + user_id }),
        ),
        spec_status_code(ApiErrorCode::NotFound) == 404,
{
}

/// The profile read answers with exactly the stored profile when there is
/// one, and succeeds only then.
pub proof fn profile_read_gives_the_stored_profile(user_id: Seq<char>, stored: Option<ProfileFields>)
    ensures
        profile_answer(user_id, stored) is Ok <==> stored is Some,
        stored matches Some(p) ==> profile_answer(user_id, stored) == Ok::<ProfileFields, ApiErrorView>(p),
{
}

/// The avatar URL read gives a URL exactly when the stored profile holds
/// that URL; a stored profile without one is answered 404 "No avatar_url
/// found for" and the user id.
pub proof fn avatar_url_read_gives_the_stored_url(
    user_id: Seq<char>,
    stored: Option<ProfileFields>,
    url: Seq<char>,
)
    ensures
        avatar_url_answer(user_id, stored) == Ok::<Seq<char>, ApiErrorView>(url) <==> (stored matches Some(
            p,
        ) && p.avatar_url == Some(url)),
        (stored matches Some(p) && p.avatar_url is None) ==> avatar_url_answer(user_id, stored)
            == Err::<Seq<char>, ApiErrorView>(
            (ApiErrorView {
                errcode: ApiErrorCode::NotFound,
                error: "No avatar_url found for "@ + user_id,
            }),
        ),
{
}

/// The display name read gives a name exactly when the stored profile holds
/// that name; a stored profile without one is answered 404 "No displayname
/// found for" and the user id.
pub proof fn displayname_read_gives_the_stored_name(
    user_id: Seq<char>,
    stored: Option<ProfileFields>,
    name: Seq<char>,
)
    ensures
        displayname_answer(user_id, stored) == Ok::<Seq<char>, ApiErrorView>(name) <==> (stored matches Some(
            p,
        ) && p.displayname == Some(name)),
        (stored matches Some(p) && p.displayname is None) ==> displayname_answer(user_id, stored)
            == Err::<Seq<char>, ApiErrorView>(
            (ApiErrorView {
                errcode: ApiErrorCode::NotFound,
                error: "No displayname found for "@ + user_id,
            }),
        ),
{
}

/// A well-formed change asked of another user's profile is refused with
/// 403, `M_FORBIDDEN` and the message that the user ids do not match,
/// whatever the two ids are; a missing or malformed body is refused with
/// 400, `M_BAD_JSON` and the default message, whoever asks; a well-formed
/// change to one's own profile writes the body's value for that user.
pub proof fn put_answers(value: Option<Seq<char>>, user_id: Seq<char>, authenticated: Seq<char>)
    ensures
        user_id != authenticated ==> put_answer(Some(value), user_id, authenticated) == Err::<
            ProfileChange,
            ApiErrorView,
        >(
            (ApiErrorView {
                errcode: ApiErrorCode::Forbidden,
                error: "The given user_id does not correspond to the authenticated user"@,
            }),
        ),
        put_answer(None, user_id, authenticated) == Err::<ProfileChange, ApiErrorView>(
            (ApiErrorView {
                errcode: ApiErrorCode::BadJson,
                error: "Invalid or missing key-value pairs in JSON."@,
            }),
        ),
        put_answer(Some(value), user_id, user_id) == Ok::<ProfileChange, ApiErrorView>(
            (ProfileChange { user_id, value }),
        ),
        spec_status_code(ApiErrorCode::Forbidden) == 403,
        spec_status_code(ApiErrorCode::BadJson) == 400,
{
}

} // verus!
