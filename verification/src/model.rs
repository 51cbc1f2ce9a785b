//! What the service does, said over text and numbers alone.
//!
//! Each function here is the meaning of the function of the same name in
//! [`crate::api`]: the executable one is proved to return exactly this.

use crate::keys::{doc_key_spec, user_key_spec, valid_key_field};
use crate::protocol::{
    failed, Fetched, PendingView, ProtectedView, ReplyView, StepView, StoreAnswerView,
    StoreCallView,
};
use crate::types::{AppErrorView, ProgressUpdateView, UserView};
use vstd::prelude::*;

verus! {

/// The key of `call` is made of identifiers that may be embedded in a key.
pub open spec fn well_keyed(call: StoreCallView) -> bool {
    let key = match call {
        StoreCallView::ReadText { key } => key,
        StoreCallView::ReadProgress { key } => key,
        StoreCallView::WriteText { key, .. } => key,
        StoreCallView::WriteProgress { key, .. } => key,
    };
    ||| exists|name: Seq<char>| valid_key_field(name) && key == #[trigger] user_key_spec(name)
    ||| exists|name: Seq<char>, document: Seq<char>|
        valid_key_field(name) && valid_key_field(document) && key == #[trigger] doc_key_spec(
            name,
            document,
        )
}

/// Where `step` has a call for the backend, its key is made of validated
/// identifiers, and so will the keys of the calls that follow it be.
pub open spec fn sound(step: StepView) -> bool {
    step matches StepView::Call { call, then } ==> well_keyed(call) && then.wf()
}

/// The credentials that the two headers of a request claim: both headers are
/// there and readable, and the name may be embedded in a key.
pub open spec fn claimed_credentials(
    user: Fetched<Seq<char>>,
    key: Fetched<Seq<char>>,
) -> Option<UserView> {
    match (user, key) {
        (Fetched::Found(name), Fetched::Found(key)) => if valid_key_field(name) {
            Some(UserView { name, key })
        } else {
            None
        },
        _ => None,
    }
}

/// The claimed credentials are those of a registered user: a credential is
/// stored for the name, and it is the claimed one, character for character.
pub open spec fn authorized(claimed: UserView, stored: Fetched<Seq<char>>) -> bool {
    stored == Fetched::Found(claimed.key)
}

/// The first step of a protected route: without usable credentials the caller
/// is turned away at once; else the stored credential is read.
pub open spec fn protected(
    user: Fetched<Seq<char>>,
    key: Fetched<Seq<char>>,
    route: ProtectedView,
) -> StepView {
    match claimed_credentials(user, key) {
        Some(claimed) => StepView::Call {
            call: StoreCallView::ReadText { key: user_key_spec(claimed.name) },
            then: PendingView::Credential { claimed, route },
        },
        None => failed(AppErrorView::Unauthorized),
    }
}

/// Registration: a body that cannot be read, a name that cannot be embedded in
/// a key or an empty password is refused at once; else the name's credential is
/// read, to see that there is none yet.
pub open spec fn create_user(body: Option<UserView>) -> StepView {
    match body {
        Some(user) => if valid_key_field(user.name) && user.key.len() > 0 {
            StepView::Call {
                call: StoreCallView::ReadText { key: user_key_spec(user.name) },
                then: PendingView::Existing { user },
            }
        } else {
            failed(AppErrorView::InvalidRequest)
        },
        None => failed(AppErrorView::InvalidRequest),
    }
}

/// The check of a caller's credentials.
pub open spec fn auth_user(user: Fetched<Seq<char>>, key: Fetched<Seq<char>>) -> StepView {
    protected(user, key, ProtectedView::AuthUser)
}

/// Storing a caller's progress.
pub open spec fn update_progress(
    user: Fetched<Seq<char>>,
    key: Fetched<Seq<char>>,
    body: Option<ProgressUpdateView>,
) -> StepView {
    protected(user, key, ProtectedView::UpdateProgress { body })
}

/// Fetching a caller's progress.
pub open spec fn get_progress(
    user: Fetched<Seq<char>>,
    key: Fetched<Seq<char>>,
    document: Option<Seq<char>>,
) -> StepView {
    protected(user, key, ProtectedView::GetProgress { document })
}

/// The health check.
pub open spec fn health_check() -> StepView {
    StepView::Done(ReplyView::Healthy)
}

/// What an authorized caller's request leads to, at time `now`.
pub open spec fn admitted(username: Seq<char>, route: ProtectedView, now: u64) -> StepView {
    match route {
        ProtectedView::AuthUser => StepView::Done(ReplyView::Authorized),
        ProtectedView::UpdateProgress { body } => match body {
            Some(update) => if valid_key_field(update.document) {
                StepView::Call {
                    call: StoreCallView::WriteProgress {
                        key: doc_key_spec(username, update.document),
                        record: update.stamped(now),
                    },
                    then: PendingView::Save { document: update.document, timestamp: now },
                }
            } else {
                failed(AppErrorView::DocumentNotProvided)
            },
            None => failed(AppErrorView::InvalidRequest),
        },
        ProtectedView::GetProgress { document } => match document {
            Some(document) => if valid_key_field(document) {
                StepView::Call {
                    call: StoreCallView::ReadProgress { key: doc_key_spec(username, document) },
                    then: PendingView::Progress { document },
                }
            } else {
                failed(AppErrorView::DocumentNotProvided)
            },
            None => failed(AppErrorView::DocumentNotProvided),
        },
    }
}

/// How an exchange goes on when the backend has answered, at time `now`.
///
/// A failed credential read turns the caller away like a wrong password does;
/// any other failure of the backend is a `StoreError`. An answer of another
/// kind than the call asked for is an `UnknownServerError`.
pub open spec fn resume(pending: PendingView, answer: StoreAnswerView, now: u64) -> StepView {
    match (pending, answer) {
        (PendingView::Credential { claimed, route }, StoreAnswerView::Text(stored)) => {
            if authorized(claimed, stored) {
                admitted(claimed.name, route, now)
            } else {
                failed(AppErrorView::Unauthorized)
            }
        },
        (PendingView::Existing { user }, StoreAnswerView::Text(existing)) => match existing {
            Fetched::Found(_) => failed(AppErrorView::UsernameAlreadyRegistered),
            Fetched::Failed => failed(AppErrorView::StoreError),
            Fetched::Absent => StepView::Call {
                call: StoreCallView::WriteText { key: user_key_spec(user.name), value: user.key },
                then: PendingView::Registration { username: user.name },
            },
        },
        (PendingView::Registration { username }, StoreAnswerView::Written(stored)) => {
            if stored {
                StepView::Done(ReplyView::Created { username })
            } else {
                failed(AppErrorView::StoreError)
            }
        },
        (PendingView::Save { document, timestamp }, StoreAnswerView::Written(stored)) => {
            if stored {
                StepView::Done(ReplyView::Saved { document, timestamp })
            } else {
                failed(AppErrorView::StoreError)
            }
        },
        (PendingView::Progress { document }, StoreAnswerView::Progress(stored)) => match stored {
            Fetched::Found(progress) => StepView::Done(ReplyView::Progress(progress)),
            Fetched::Absent => StepView::Done(ReplyView::NoProgress { document }),
            Fetched::Failed => failed(AppErrorView::StoreError),
        },
        _ => failed(AppErrorView::UnknownServerError),
    }
}

} // verus!
