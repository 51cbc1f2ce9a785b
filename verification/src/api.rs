//! The routes of the service.
//!
//! A route's function takes what the transport read from the request and
//! returns the first step of the exchange; [`resume`] takes the backend's answer
//! and returns the next one.

use crate::clock::now_timestamp;
use crate::db;
use crate::keys::is_valid_key_field;
use crate::model;
use crate::protocol::{Fetched, Pending, Protected, Reply, Step, StoreAnswer, Waiting};
use crate::types::{option_view, AppError, AppErrorView, ProgressState, ProgressUpdate, User};
use vstd::prelude::*;

verus! {

/// The header in which a caller names itself.
pub const AUTH_USER_HEADER: &'static str = "x-auth-user";

/// The header in which a caller presents its credential.
pub const AUTH_KEY_HEADER: &'static str = "x-auth-key";

/// The credentials that the two authentication headers claim. A header that is
/// missing or unreadable, or a name that cannot be embedded in a key, is
/// `Unauthorized`.
pub fn claimed_credentials(user: Fetched<String>, key: Fetched<String>) -> (claimed: Result<
    User,
    AppError,
>)
    ensures
        match model::claimed_credentials(user@, key@) {
            Some(credentials) => claimed matches Ok(found) && found@ == credentials,
            None => claimed matches Err(error) && error@ == AppErrorView::Unauthorized,
        },
{
    match user {
        Fetched::Found(name) => match key {
            Fetched::Found(key) => {
                if is_valid_key_field(name.as_str()) {
                    Ok(User { name, key })
                } else {
                    Err(AppError::Unauthorized)
                }
            },
            _ => Err(AppError::Unauthorized),
        },
        _ => Err(AppError::Unauthorized),
    }
}

/// The name of the caller, given the claimed credentials and what reading the
/// name's credential gave. The caller is known if and only if a credential is
/// stored for the name and equals the claimed one; every other case, a failed
/// read among them, is `Unauthorized`.
pub fn authorize(claimed: User, stored: Fetched<String>) -> (caller: Result<String, AppError>)
    ensures
        model::authorized(claimed@, stored@) ==> (caller matches Ok(name) && name@
            == claimed@.name),
        !model::authorized(claimed@, stored@) ==> (caller matches Err(error) && error@
            == AppErrorView::Unauthorized),
{
    let User { name, key } = claimed;
    match db::get_user(name, stored) {
        Ok(user) => {
            if user.key == key {
                Ok(user.name)
            } else {
                Err(AppError::Unauthorized)
            }
        },
        Err(_) => Err(AppError::Unauthorized),
    }
}

/// The first step of a protected route.
fn protected(user: Fetched<String>, key: Fetched<String>, route: Protected) -> (step: Step)
    ensures
        step@ == model::protected(user@, key@, route@),
{
    match claimed_credentials(user, key) {
        Ok(claimed) => {
            let call = db::find_user(claimed.name.as_str());
            let then = Pending::from_validated(Waiting::Credential { claimed, route });
            Step::Call { call, then }
        },
        Err(error) => Step::Done(Reply::Failure(error)),
    }
}

/// What the request of the authorized caller `username` leads to, at time `now`.
fn admitted(username: String, route: Protected, now: u64) -> (step: Step)
    ensures
        step@ == model::admitted(username@, route@, now),
{
    match route {
        Protected::AuthUser => Step::Done(Reply::Authorized),
        Protected::UpdateProgress { body } => match body {
            Some(update) => {
                if is_valid_key_field(update.document.as_str()) {
                    let document = update.document.clone();
                    let progress = ProgressState::stamped(update, now);
                    let call = db::update_progress(username.as_str(), progress);
                    let then = Pending::from_validated(
                        Waiting::Save { document, timestamp: now },
                    );
                    Step::Call { call, then }
                } else {
                    Step::Done(Reply::Failure(AppError::DocumentNotProvided))
                }
            },
            None => Step::Done(Reply::Failure(AppError::InvalidRequest)),
        },
        Protected::GetProgress { document } => match document {
            Some(document) => {
                if is_valid_key_field(document.as_str()) {
                    let call = db::find_progress(username.as_str(), document.as_str());
                    let then = Pending::from_validated(Waiting::Progress { document });
                    Step::Call { call, then }
                } else {
                    Step::Done(Reply::Failure(AppError::DocumentNotProvided))
                }
            },
            None => Step::Done(Reply::Failure(AppError::DocumentNotProvided)),
        },
    }
}

/// `POST /users/create`. `body` is the user to register, `None` where the
/// request's body could not be read as one.
pub fn create_user(body: Option<User>) -> (step: Step)
    ensures
        step@ == model::create_user(option_view(body)),
        model::sound(step@),
{
    match body {
        Some(user) => {
            if is_valid_key_field(user.name.as_str()) && !user.key.as_str().is_empty() {
                let call = db::find_user(user.name.as_str());
                let then = Pending::from_validated(Waiting::Existing { user });
                Step::Call { call, then }
            } else {
                Step::Done(Reply::Failure(AppError::InvalidRequest))
            }
        },
        None => Step::Done(Reply::Failure(AppError::InvalidRequest)),
    }
}

/// `GET /users/auth`. `user` and `key` are the two authentication headers.
pub fn auth_user(user: Fetched<String>, key: Fetched<String>) -> (step: Step)
    ensures
        step@ == model::auth_user(user@, key@),
        model::sound(step@),
{
    protected(user, key, Protected::AuthUser)
}

/// `PUT /syncs/progress`. `body` is the reported progress, `None` where the
/// request's body could not be read as one.
pub fn update_progress(
    user: Fetched<String>,
    key: Fetched<String>,
    body: Option<ProgressUpdate>,
) -> (step: Step)
    ensures
        step@ == model::update_progress(user@, key@, option_view(body)),
        model::sound(step@),
{
    protected(user, key, Protected::UpdateProgress { body })
}

/// `GET /syncs/progress/:document`. `document` is the path's parameter, `None`
/// where the path has none.
pub fn get_progress(
    user: Fetched<String>,
    key: Fetched<String>,
    document: Option<String>,
) -> (step: Step)
    ensures
        step@ == model::get_progress(user@, key@, option_view(document)),
        model::sound(step@),
{
    protected(user, key, Protected::GetProgress { document })
}

/// `GET /healthcheck`.
pub fn health_check() -> (step: Step)
    ensures
        step@ == model::health_check(),
        model::sound(step@),
{
    Step::Done(Reply::Healthy)
}

/// The step that ends an exchange in failure.
fn fail(error: AppError) -> (step: Step)
    ensures
        step@ == crate::protocol::failed(error@),
{
    Step::Done(Reply::Failure(error))
}

/// Goes on with an exchange: `pending` is what the last step held, `answer` what
/// the backend answered to its call, `now` the time in seconds since the Unix
/// epoch.
pub fn resume_at(pending: Pending, answer: StoreAnswer, now: u64) -> (step: Step)
    ensures
        step@ == model::resume(pending@, answer@, now),
        model::sound(step@),
{
    match pending.into_waiting() {
        Waiting::Credential { claimed, route } => match answer {
            StoreAnswer::Text(stored) => match authorize(claimed, stored) {
                Ok(username) => admitted(username, route, now),
                Err(error) => fail(error),
            },
            _ => fail(AppError::UnknownServerError),
        },
        Waiting::Existing { user } => match answer {
            StoreAnswer::Text(existing) => {
                let username = user.name.clone();
                match db::create_user(user, existing) {
                    Ok(call) => {
                        let then = Pending::from_validated(Waiting::Registration { username });
                        Step::Call { call, then }
                    },
                    Err(error) => fail(error),
                }
            },
            _ => fail(AppError::UnknownServerError),
        },
        Waiting::Registration { username } => match answer {
            StoreAnswer::Written(stored) => match db::written(stored) {
                Ok(_) => Step::Done(Reply::Created { username }),
                Err(error) => fail(error),
            },
            _ => fail(AppError::UnknownServerError),
        },
        Waiting::Save { document, timestamp } => match answer {
            StoreAnswer::Written(stored) => match db::written(stored) {
                Ok(_) => Step::Done(Reply::Saved { document, timestamp }),
                Err(error) => fail(error),
            },
            _ => fail(AppError::UnknownServerError),
        },
        Waiting::Progress { document } => match answer {
            StoreAnswer::Progress(stored) => match db::get_progress(stored) {
                Ok(Some(progress)) => Step::Done(Reply::Progress(progress)),
                Ok(None) => Step::Done(Reply::NoProgress { document }),
                Err(error) => fail(error),
            },
            _ => fail(AppError::UnknownServerError),
        },
    }
}

/// Goes on with an exchange as [`resume_at`] does, at the time that the
/// service's clock shows.
pub fn resume(pending: Pending, answer: StoreAnswer) -> (step: Step)
    ensures
        exists|now: u64| step@ == #[trigger] model::resume(pending@, answer@, now),
        model::sound(step@),
{
    let now = now_timestamp();
    resume_at(pending, answer, now)
}

} // verus!
