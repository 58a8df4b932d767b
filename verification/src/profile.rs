//! The profile endpoints: `/profile/:user_id`, `/profile/:user_id/avatar_url`
//! and `/profile/:user_id/displayname`.
//!
//! Each endpoint here takes what the server has read for the request (the
//! user id of the path, the authenticated user, the parsed body, the profile
//! that the store holds) and decides the answer: a response body, an update
//! for the store to write, or an error.

use vstd::prelude::*;
use vstd::string::*;

use crate::error::{bad_json_error, not_found_error, ApiError, ApiErrorCode, ApiErrorView};

verus! {

// ---------------------------------------------------------------------------
// The model
// ---------------------------------------------------------------------------

/// The two fields of a profile, as sequences of characters.
pub struct ProfileFields {
    pub avatar_url: Option<Seq<char>>,
    pub displayname: Option<Seq<char>>,
}

/// A write that a profile update asks of the store.
pub struct ProfileChange {
    /// The user whose profile is written.
    pub user_id: Seq<char>,
    /// The new value of the field that the update writes.
    pub value: Option<Seq<char>>,
}

/// The characters of an optional string.
pub open spec fn opt_chars(s: Option<String>) -> Option<Seq<char>> {
    match s {
        Some(t) => Some(t@),
        None => None,
    }
}

/// A result, with both of its sides taken by their views.
pub open spec fn result_view<T: View>(r: Result<T, ApiError>) -> Result<T::V, ApiErrorView> {
    match r {
        Ok(t) => Ok(t@),
        Err(e) => Err(e@),
    }
}

/// The message for a user that has no profile.
pub open spec fn no_profile_message(user_id: Seq<char>) -> Seq<char> {
    "No profile found for "@ + user_id
}

/// The message for a profile without an avatar URL.
pub open spec fn no_avatar_url_message(user_id: Seq<char>) -> Seq<char> {
    "No avatar_url found for "@ + user_id
}

/// The message for a profile without a display name.
pub open spec fn no_displayname_message(user_id: Seq<char>) -> Seq<char> {
    "No displayname found for "@ + user_id
}

/// The message for a change asked of another user's profile.
pub open spec fn wrong_user_message() -> Seq<char> {
    "The given user_id does not correspond to the authenticated user"@
}

/// The error for a change asked of another user's profile.
pub open spec fn forbidden_error() -> ApiErrorView {
    ApiErrorView { errcode: ApiErrorCode::Forbidden, error: wrong_user_message() }
}

/// What `GET /profile/:user_id` answers, given the profile that the store
/// holds for the user, if any.
pub open spec fn profile_answer(user_id: Seq<char>, stored: Option<ProfileFields>) -> Result<
    ProfileFields,
    ApiErrorView,
> {
    match stored {
        Some(p) => Ok(p),
        None => Err(not_found_error(no_profile_message(user_id))),
    }
}

/// What `GET /profile/:user_id/avatar_url` answers.
pub open spec fn avatar_url_answer(user_id: Seq<char>, stored: Option<ProfileFields>) -> Result<
    Seq<char>,
    ApiErrorView,
> {
    match stored {
        Some(p) => match p.avatar_url {
            Some(url) => Ok(url),
            None => Err(not_found_error(no_avatar_url_message(user_id))),
        },
        None => Err(not_found_error(no_profile_message(user_id))),
    }
}

/// What `GET /profile/:user_id/displayname` answers.
pub open spec fn displayname_answer(user_id: Seq<char>, stored: Option<ProfileFields>) -> Result<
    Seq<char>,
    ApiErrorView,
> {
    match stored {
        Some(p) => match p.displayname {
            Some(name) => Ok(name),
            None => Err(not_found_error(no_displayname_message(user_id))),
        },
        None => Err(not_found_error(no_profile_message(user_id))),
    }
}

/// What a `PUT` of one profile field decides: `body` is the new value that
/// the parsed body holds, or `None` where the body is missing or malformed;
/// `user_id` names the profile, `authenticated` is the user who asks.
pub open spec fn put_answer(
    body: Option<Option<Seq<char>>>,
    user_id: Seq<char>,
    authenticated: Seq<char>,
) -> Result<ProfileChange, ApiErrorView> {
    match body {
        None => Err(bad_json_error()),
        Some(value) => if user_id == authenticated {
            Ok(ProfileChange { user_id, value })
        } else {
            Err(forbidden_error())
        },
    }
}

/// The profile that the store holds once a new avatar URL has been written
/// over `stored`: the display name stays as it was.
pub open spec fn with_avatar_url(stored: Option<ProfileFields>, value: Option<Seq<char>>) -> ProfileFields {
    ProfileFields {
        avatar_url: value,
        displayname: match stored {
            Some(p) => p.displayname,
            None => None,
        },
    }
}

/// The profile that the store holds once a new display name has been written
/// over `stored`: the avatar URL stays as it was.
pub open spec fn with_displayname(stored: Option<ProfileFields>, value: Option<Seq<char>>) -> ProfileFields {
    ProfileFields {
        avatar_url: match stored {
            Some(p) => p.avatar_url,
            None => None,
        },
        displayname: value,
    }
}

// ---------------------------------------------------------------------------
// Values exchanged with the server
// ---------------------------------------------------------------------------

/// A user's profile as the store holds it.
#[derive(Clone, Debug)]
pub struct StoredProfile {
    /// The user's avatar URL, if they have set one.
    pub avatar_url: Option<String>,
    /// The user's display name, if they have set one.
    pub displayname: Option<String>,
}

impl View for StoredProfile {
    type V = ProfileFields;

    open spec fn view(&self) -> ProfileFields {
        ProfileFields { avatar_url: opt_chars(self.avatar_url), displayname: opt_chars(self.displayname) }
    }
}

/// The profile of a user, if the store holds one, taken by its view.
pub open spec fn stored_view(stored: Option<StoredProfile>) -> Option<ProfileFields> {
    match stored {
        Some(p) => Some(p@),
        None => None,
    }
}

/// The body of the response of `GET /profile/:user_id`.
#[derive(Clone, Debug)]
pub struct ProfileResponse {
    /// The user's avatar URL if they have set one, otherwise not present.
    pub avatar_url: Option<String>,
    /// The user's display name if they have set one, otherwise not present.
    pub displayname: Option<String>,
}

impl View for ProfileResponse {
    type V = ProfileFields;

    open spec fn view(&self) -> ProfileFields {
        ProfileFields { avatar_url: opt_chars(self.avatar_url), displayname: opt_chars(self.displayname) }
    }
}

/// The body of the response of `GET /profile/:user_id/avatar_url`.
#[derive(Clone, Debug)]
pub struct GetAvatarUrlResponse {
    /// The user's avatar URL.
    pub avatar_url: String,
}

impl View for GetAvatarUrlResponse {
    type V = Seq<char>;

    open spec fn view(&self) -> Seq<char> {
        self.avatar_url@
    }
}

/// The body of the response of `GET /profile/:user_id/displayname`.
#[derive(Clone, Debug)]
pub struct GetDisplayNameResponse {
    /// The user's display name.
    pub displayname: String,
}

impl View for GetDisplayNameResponse {
    type V = Seq<char>;

    open spec fn view(&self) -> Seq<char> {
        self.displayname@
    }
}

/// The body of the request of `PUT /profile/:user_id/avatar_url`.
#[derive(Clone, Debug)]
pub struct PutAvatarUrlRequest {
    /// The new avatar URL for this user.
    pub avatar_url: Option<String>,
}

impl View for PutAvatarUrlRequest {
    type V = Option<Seq<char>>;

    open spec fn view(&self) -> Option<Seq<char>> {
        opt_chars(self.avatar_url)
    }
}

/// The body of the request of `PUT /profile/:user_id/displayname`.
#[derive(Clone, Debug)]
pub struct PutDisplayNameRequest {
    /// The new display name for this user.
    pub displayname: Option<String>,
}

impl View for PutDisplayNameRequest {
    type V = Option<Seq<char>>;

    open spec fn view(&self) -> Option<Seq<char>> {
        opt_chars(self.displayname)
    }
}

/// The body of a `PUT`, taken by its view; `None` where it was missing or
/// malformed.
pub open spec fn body_view<T: View>(body: Option<T>) -> Option<T::V> {
    match body {
        Some(b) => Some(b@),
        None => None,
    }
}

/// The store writes that a successful `PUT /profile/:user_id/avatar_url`
/// asks for: set the user's avatar URL (creating the profile if there is
/// none), then bring the user's room memberships up to date with it.
#[derive(Clone, Debug)]
pub struct AvatarUrlUpdate {
    /// The user whose profile is written.
    pub user_id: String,
    /// The new avatar URL; `None` clears it.
    pub avatar_url: Option<String>,
}

impl View for AvatarUrlUpdate {
    type V = ProfileChange;

    open spec fn view(&self) -> ProfileChange {
        ProfileChange { user_id: self.user_id@, value: opt_chars(self.avatar_url) }
    }
}

impl AvatarUrlUpdate {
    /// The profile that the store holds for the user once this update has
    /// been written over `stored`, the profile it held before, if any.
    pub fn apply_to(self, stored: Option<StoredProfile>) -> (written: StoredProfile)
        ensures
            written@ == with_avatar_url(stored_view(stored), self@.value),
    {
        let displayname = match stored {
            Some(p) => p.displayname,
            None => None,
        };
        StoredProfile { avatar_url: self.avatar_url, displayname }
    }
}

/// The store writes that a successful `PUT /profile/:user_id/displayname`
/// asks for: set the user's display name (creating the profile if there is
/// none), then bring the user's room memberships up to date with it.
#[derive(Clone, Debug)]
pub struct DisplayNameUpdate {
    /// The user whose profile is written.
    pub user_id: String,
    /// The new display name; `None` clears it.
    pub displayname: Option<String>,
}

impl View for DisplayNameUpdate {
    type V = ProfileChange;

    open spec fn view(&self) -> ProfileChange {
        ProfileChange { user_id: self.user_id@, value: opt_chars(self.displayname) }
    }
}

impl DisplayNameUpdate {
    /// The profile that the store holds for the user once this update has
    /// been written over `stored`, the profile it held before, if any.
    pub fn apply_to(self, stored: Option<StoredProfile>) -> (written: StoredProfile)
        ensures
            written@ == with_displayname(stored_view(stored), self@.value),
    {
        let avatar_url = match stored {
            Some(p) => p.avatar_url,
            None => None,
        };
        StoredProfile { avatar_url, displayname: self.displayname }
    }
}

// ---------------------------------------------------------------------------
// Messages
// ---------------------------------------------------------------------------

/// `prefix` followed by `user_id`.
fn message_with_user(prefix: &str, user_id: &str) -> (message: String)
    ensures
        message@ == prefix@ + user_id@,
{
    String::from_str(prefix).concat(user_id)
}

/// The not-found error for a user that has no profile.
fn no_profile_error(user_id: &str) -> (err: ApiError)
    ensures
        err@ == not_found_error(no_profile_message(user_id@)),
{
    ApiError::not_found(message_with_user("No profile found for ", user_id))
}

/// Whether the user named in the path is the authenticated user.
fn same_user(user_id: &str, authenticated_user_id: &str) -> (same: bool)
    ensures
        same == (user_id@ == authenticated_user_id@),
{
    let a = String::from_str(user_id);
    let b = String::from_str(authenticated_user_id);
    a == b
}

/// The error for a change asked of another user's profile.
fn wrong_user_error() -> (err: ApiError)
    ensures
        err@ == forbidden_error(),
{
    ApiError::unauthorized(
        String::from_str("The given user_id does not correspond to the authenticated user"),
    )
}

// ---------------------------------------------------------------------------
// The endpoints
// ---------------------------------------------------------------------------

/// The `/profile/:user_id` endpoint.
#[derive(Clone, Copy, Debug)]
pub struct Profile;

impl Profile {
    /// Answers `GET /profile/:user_id` for `user_id`, given the profile that
    /// the store holds for that user, if any: both fields of the profile, or
    /// a not-found error where the user has no profile.
    pub fn handle(&self, user_id: &str, profile: Option<StoredProfile>) -> (res: Result<
        ProfileResponse,
        ApiError,
    >)
        ensures
            result_view(res) == profile_answer(user_id@, stored_view(profile)),
            (profile is None ==> (res matches Err(e) && e.errcode == ApiErrorCode::NotFound
                && e.error@ == "No profile found for "@ + user_id@)),
            (profile matches Some(p) ==> (res matches Ok(r) && r@ == p@)),
    {
        match profile {
            Some(profile) => Ok(
                ProfileResponse { avatar_url: profile.avatar_url, displayname: profile.displayname },
            ),
            None => Err(no_profile_error(user_id)),
        }
    }
}

/// The `GET /profile/:user_id/avatar_url` endpoint.
#[derive(Clone, Copy, Debug)]
pub struct GetAvatarUrl;

impl GetAvatarUrl {
    /// Answers `GET /profile/:user_id/avatar_url` for `user_id`, given the
    /// profile that the store holds for that user, if any: the avatar URL,
    /// or a not-found error where there is no profile or it has no avatar URL.
    pub fn handle(&self, user_id: &str, profile: Option<StoredProfile>) -> (res: Result<
        GetAvatarUrlResponse,
        ApiError,
    >)
        ensures
            result_view(res) == avatar_url_answer(user_id@, stored_view(profile)),
            (profile is None ==> (res matches Err(e) && e.errcode == ApiErrorCode::NotFound
                && e.error@ == "No profile found for "@ + user_id@)),
            ((profile matches Some(p) && p.avatar_url is None) ==> (res matches Err(e)
                && e.errcode == ApiErrorCode::NotFound && e.error@ == "No avatar_url found for "@
                + user_id@)),
            (profile matches Some(p) ==> (p.avatar_url matches Some(url) ==> (res matches Ok(r)
                && r.avatar_url@ == url@))),
    {
        match profile {
            Some(profile) => match profile.avatar_url {
                Some(avatar_url) => Ok(GetAvatarUrlResponse { avatar_url }),
                None => Err(
                    ApiError::not_found(message_with_user("No avatar_url found for ", user_id)),
                ),
            },
            None => Err(no_profile_error(user_id)),
        }
    }
}

/// The `PUT /profile/:user_id/avatar_url` endpoint.
#[derive(Clone, Copy, Debug)]
pub struct PutAvatarUrl;

impl PutAvatarUrl {
    /// Decides `PUT /profile/:user_id/avatar_url`: `body` is the parsed
    /// body, `None` where it was missing or malformed; `user_id` names the
    /// profile and `authenticated_user_id` is the user who asks. A malformed
    /// body is refused first, then a change to another user's profile; else
    /// the answer is the update for the store to write.
    pub fn handle(
        &self,
        body: Option<PutAvatarUrlRequest>,
        user_id: &str,
        authenticated_user_id: &str,
    ) -> (res: Result<AvatarUrlUpdate, ApiError>)
        ensures
            result_view(res) == put_answer(body_view(body), user_id@, authenticated_user_id@),
            (body is None ==> (res matches Err(e) && e.errcode == ApiErrorCode::BadJson
                && e.error@ == "Invalid or missing key-value pairs in JSON."@)),
            ((body is Some && user_id@ != authenticated_user_id@) ==> (res matches Err(e)
                && e.errcode == ApiErrorCode::Forbidden
                && e.error@ == "The given user_id does not correspond to the authenticated user"@)),
            (body matches Some(b) ==> (user_id@ == authenticated_user_id@ ==> (res matches Ok(u)
                && u.user_id@ == user_id@ && u@.value == b@))),
    {
        let request = match body {
            Some(request) => request,
            None => {
                return Err(ApiError::bad_json(None));
            },
        };
        if !same_user(user_id, authenticated_user_id) {
            return Err(wrong_user_error());
        }
        Ok(AvatarUrlUpdate { user_id: String::from_str(user_id), avatar_url: request.avatar_url })
    }
}

/// The `GET /profile/:user_id/displayname` endpoint.
#[derive(Clone, Copy, Debug)]
pub struct GetDisplayName;

impl GetDisplayName {
    /// Answers `GET /profile/:user_id/displayname` for `user_id`, given the
    /// profile that the store holds for that user, if any: the display name,
    /// or a not-found error where there is no profile or it has no display
    /// name.
    pub fn handle(&self, user_id: &str, profile: Option<StoredProfile>) -> (res: Result<
        GetDisplayNameResponse,
        ApiError,
    >)
        ensures
            result_view(res) == displayname_answer(user_id@, stored_view(profile)),
            (profile is None ==> (res matches Err(e) && e.errcode == ApiErrorCode::NotFound
                && e.error@ == "No profile found for "@ + user_id@)),
            ((profile matches Some(p) && p.displayname is None) ==> (res matches Err(e)
                && e.errcode == ApiErrorCode::NotFound && e.error@ == "No displayname found for "@
                + user_id@)),
            (profile matches Some(p) ==> (p.displayname matches Some(name) ==> (res matches Ok(r)
                && r.displayname@ == name@))),
    {
        match profile {
            Some(profile) => match profile.displayname {
                Some(displayname) => Ok(GetDisplayNameResponse { displayname }),
                None => Err(
                    ApiError::not_found(message_with_user("No displayname found for ", user_id)),
                ),
            },
            None => Err(no_profile_error(user_id)),
        }
    }
}

/// The `PUT /profile/:user_id/displayname` endpoint.
#[derive(Clone, Copy, Debug)]
pub struct PutDisplayName;

impl PutDisplayName {
    /// Decides `PUT /profile/:user_id/displayname`: `body` is the parsed
    /// body, `None` where it was missing or malformed; `user_id` names the
    /// profile and `authenticated_user_id` is the user who asks. A malformed
    /// body is refused first, then a change to another user's profile; else
    /// the answer is the update for the store to write.
    pub fn handle(
        &self,
        body: Option<PutDisplayNameRequest>,
        user_id: &str,
        authenticated_user_id: &str,
    ) -> (res: Result<DisplayNameUpdate, ApiError>)
        ensures
            result_view(res) == put_answer(body_view(body), user_id@, authenticated_user_id@),
            (body is None ==> (res matches Err(e) && e.errcode == ApiErrorCode::BadJson
                && e.error@ == "Invalid or missing key-value pairs in JSON."@)),
            ((body is Some && user_id@ != authenticated_user_id@) ==> (res matches Err(e)
                && e.errcode == ApiErrorCode::Forbidden
                && e.error@ == "The given user_id does not correspond to the authenticated user"@)),
            (body matches Some(b) ==> (user_id@ == authenticated_user_id@ ==> (res matches Ok(u)
                && u.user_id@ == user_id@ && u@.value == b@))),
    {
        let request = match body {
            Some(request) => request,
            None => {
                return Err(ApiError::bad_json(None));
            },
        };
        if !same_user(user_id, authenticated_user_id) {
            return Err(wrong_user_error());
        }
        Ok(
            DisplayNameUpdate {
                user_id: String::from_str(user_id),
                displayname: request.displayname,
            },
        )
    }
}

} // verus!
