//! The two stores that live in the backend: credentials and progress records.
//!
//! Each operation is a call for the backend and a reading of its answer. No key
//! is built anywhere else.

use crate::keys::{doc_key, doc_key_spec, user_key, user_key_spec};
use crate::protocol::{Fetched, StoreCall, StoreCallView};
use crate::types::{AppError, AppErrorView, ProgressState, User, UserView};
use vstd::prelude::*;

verus! {

/// The call that reads the credential stored for `username`.
pub fn find_user(username: &str) -> (call: StoreCall)
    ensures
        call@ == (StoreCallView::ReadText { key: user_key_spec(username@) }),
{
    StoreCall::ReadText { key: user_key(username) }
}

/// Registers `user`, given what reading the name's credential gave: a name that
/// has a credential is refused, and nothing is overwritten; a failed read is the
/// backend's failure; else the credential is to be written.
pub fn create_user(user: User, existing: Fetched<String>) -> (written: Result<StoreCall, AppError>)
    ensures
        match existing {
            Fetched::Found(_) => written matches Err(error) && error@
                == AppErrorView::UsernameAlreadyRegistered,
            Fetched::Failed => written matches Err(error) && error@ == AppErrorView::StoreError,
            Fetched::Absent => written matches Ok(call) && call@ == (StoreCallView::WriteText {
                key: user_key_spec(user@.name),
                value: user@.key,
            }),
        },
{
    match existing {
        Fetched::Found(_) => Err(AppError::UsernameAlreadyRegistered),
        Fetched::Failed => Err(AppError::StoreError),
        Fetched::Absent => {
            let key = user_key(user.name.as_str());
            Ok(StoreCall::WriteText { key, value: user.key })
        },
    }
}

/// The registered user `username`, given what reading the name's credential
/// gave: the name with the stored credential; without a stored credential the
/// name is `Unauthorized`, and a failed read is the backend's failure.
pub fn get_user(username: String, stored: Fetched<String>) -> (user: Result<User, AppError>)
    ensures
        match stored {
            Fetched::Found(key) => user matches Ok(found) && found@ == (UserView {
                name: username@,
                key: key@,
            }),
            Fetched::Absent => user matches Err(error) && error@ == AppErrorView::Unauthorized,
            Fetched::Failed => user matches Err(error) && error@ == AppErrorView::StoreError,
        },
{
    match stored {
        Fetched::Found(key) => Ok(User { name: username, key }),
        Fetched::Absent => Err(AppError::Unauthorized),
        Fetched::Failed => Err(AppError::StoreError),
    }
}

/// The call that stores `progress` as the progress of `user` in the record's
/// document, over whatever is stored there.
pub fn update_progress(user: &str, progress: ProgressState) -> (call: StoreCall)
    ensures
        call@ == (StoreCallView::WriteProgress {
            key: doc_key_spec(user@, progress@.document),
            record: progress@,
        }),
{
    let key = doc_key(user, progress.document.as_str());
    StoreCall::WriteProgress { key, record: progress }
}

/// The call that reads the progress of `user` in `document`.
pub fn find_progress(user: &str, document: &str) -> (call: StoreCall)
    ensures
        call@ == (StoreCallView::ReadProgress { key: doc_key_spec(user@, document@) }),
{
    StoreCall::ReadProgress { key: doc_key(user, document) }
}

/// The stored progress, given what reading its key gave: the record, or `None`
/// where there is none; a failed read is the backend's failure.
pub fn get_progress(stored: Fetched<ProgressState>) -> (progress: Result<
    Option<ProgressState>,
    AppError,
>)
    ensures
        match stored {
            Fetched::Found(record) => progress matches Ok(Some(found)) && found@ == record@,
            Fetched::Absent => progress matches Ok(None),
            Fetched::Failed => progress matches Err(error) && error@ == AppErrorView::StoreError,
        },
{
    match stored {
        Fetched::Found(record) => Ok(Some(record)),
        Fetched::Absent => Ok(None),
        Fetched::Failed => Err(AppError::StoreError),
    }
}

/// The outcome of a write: a value that the backend did not store is the
/// backend's failure.
pub fn written(stored: bool) -> (outcome: Result<(), AppError>)
    ensures
        stored ==> outcome is Ok,
        !stored ==> (outcome matches Err(error) && error@ == AppErrorView::StoreError),
{
    if stored {
        Ok(())
    } else {
        Err(AppError::StoreError)
    }
}

} // verus!
