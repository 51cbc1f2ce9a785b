//! The words in which the service and its driver talk to each other.
//!
//! The service performs no I/O. Serving a call is an exchange: the service names
//! one single-key operation for the backend, the driver performs it and hands the
//! answer back, until the service names the reply for the client.

use crate::keys::{is_valid_key_field, valid_key_field};
use crate::status::status_number;
use crate::types::{
    option_view, AppError, AppErrorView, ProgressState, ProgressStateView, ProgressUpdate,
    ProgressUpdateView, User, UserView,
};
use http::StatusCode;
use vstd::prelude::*;

verus! {

/// What reading one value gave: a header of the request, or the entry under a key.
#[derive(Debug, Clone, PartialEq, Eq)]
pub enum Fetched<T> {
    /// The value is there.
    Found(T),
    /// Nothing is there.
    Absent,
    /// The read itself failed, or what is there cannot be understood.
    Failed,
}

impl<T: View> View for Fetched<T> {
    type V = Fetched<T::V>;

    open spec fn view(&self) -> Fetched<T::V> {
        match self {
            Fetched::Found(value) => Fetched::Found(value@),
            Fetched::Absent => Fetched::Absent,
            Fetched::Failed => Fetched::Failed,
        }
    }
}

/// One single-key operation on the backend.
#[derive(Debug, Clone, PartialEq, Eq)]
pub enum StoreCall {
    /// Read the text under `key`.
    ReadText { key: String },
    /// Read the progress record under `key`.
    ReadProgress { key: String },
    /// Put `value` under `key`, over whatever is there.
    WriteText { key: String, value: String },
    /// Put `record` under `key`, over whatever is there.
    WriteProgress { key: String, record: ProgressState },
}

/// What a [`StoreCall`] holds, as text.
pub enum StoreCallView {
    ReadText { key: Seq<char> },
    ReadProgress { key: Seq<char> },
    WriteText { key: Seq<char>, value: Seq<char> },
    WriteProgress { key: Seq<char>, record: ProgressStateView },
}

impl View for StoreCall {
    type V = StoreCallView;

    open spec fn view(&self) -> StoreCallView {
        match self {
            StoreCall::ReadText { key } => StoreCallView::ReadText { key: key@ },
            StoreCall::ReadProgress { key } => StoreCallView::ReadProgress { key: key@ },
            StoreCall::WriteText { key, value } => StoreCallView::WriteText {
                key: key@,
                value: value@,
            },
            StoreCall::WriteProgress { key, record } => StoreCallView::WriteProgress {
                key: key@,
                record: record@,
            },
        }
    }
}

/// What the backend answered to a [`StoreCall`].
#[derive(Debug, Clone, PartialEq, Eq)]
pub enum StoreAnswer {
    /// The answer to `ReadText`.
    Text(Fetched<String>),
    /// The answer to `ReadProgress`.
    Progress(Fetched<ProgressState>),
    /// The answer to a write: whether the value was stored.
    Written(bool),
}

/// What a [`StoreAnswer`] holds, as text.
pub enum StoreAnswerView {
    Text(Fetched<Seq<char>>),
    Progress(Fetched<ProgressStateView>),
    Written(bool),
}

impl View for StoreAnswer {
    type V = StoreAnswerView;

    open spec fn view(&self) -> StoreAnswerView {
        match self {
            StoreAnswer::Text(text) => StoreAnswerView::Text(text@),
            StoreAnswer::Progress(progress) => StoreAnswerView::Progress(progress@),
            StoreAnswer::Written(stored) => StoreAnswerView::Written(*stored),
        }
    }
}

/// What the client is told.
#[derive(Debug, Clone, PartialEq, Eq)]
pub enum Reply {
    /// A user was registered.
    Created { username: String },
    /// The credentials are those of a registered user.
    Authorized,
    /// A progress record was written at `timestamp`.
    Saved { document: String, timestamp: u64 },
    /// The progress record that is stored.
    Progress(ProgressState),
    /// No progress is stored for `document`.
    NoProgress { document: String },
    /// The service is up.
    Healthy,
    /// The call failed.
    Failure(AppError),
}

/// What a [`Reply`] holds, as text.
pub enum ReplyView {
    Created { username: Seq<char> },
    Authorized,
    Saved { document: Seq<char>, timestamp: u64 },
    Progress(ProgressStateView),
    NoProgress { document: Seq<char> },
    Healthy,
    Failure(AppErrorView),
}

impl View for Reply {
    type V = ReplyView;

    open spec fn view(&self) -> ReplyView {
        match self {
            Reply::Created { username } => ReplyView::Created { username: username@ },
            Reply::Authorized => ReplyView::Authorized,
            Reply::Saved { document, timestamp } => ReplyView::Saved {
                document: document@,
                timestamp: *timestamp,
            },
            Reply::Progress(progress) => ReplyView::Progress(progress@),
            Reply::NoProgress { document } => ReplyView::NoProgress { document: document@ },
            Reply::Healthy => ReplyView::Healthy,
            Reply::Failure(error) => ReplyView::Failure(error@),
        }
    }
}

impl ReplyView {
    /// The number of the HTTP status with which the reply is sent: 201 for a
    /// registration, the failure's own status for a failure, else 200.
    pub open spec fn status(self) -> u16 {
        match self {
            ReplyView::Created { .. } => 201,
            ReplyView::Failure(error) => error.status(),
            _ => 200,
        }
    }
}

impl Reply {
    /// The HTTP status with which the reply is sent.
    pub fn status(&self) -> (status: StatusCode)
        ensures
            status_number(status) == self@.status(),
    {
        let number: u16 = match self {
            Reply::Created { .. } => 201,
            Reply::Failure(error) => return error.status(),
            _ => 200,
        };
        match StatusCode::from_u16(number) {
            Ok(status) => status,
            Err(_) => vstd::pervasive::unreached(),
        }
    }
}

/// What a caller of a protected route asked for; it is looked at once the caller
/// is known.
#[derive(Debug, Clone, PartialEq, Eq)]
pub enum Protected {
    /// Only the check of the credentials.
    AuthUser,
    /// To store progress; `body` is `None` where the request's body could not be read.
    UpdateProgress { body: Option<ProgressUpdate> },
    /// To fetch progress; `document` is `None` where the request names no document.
    GetProgress { document: Option<String> },
}

/// What a [`Protected`] holds, as text.
pub enum ProtectedView {
    AuthUser,
    UpdateProgress { body: Option<ProgressUpdateView> },
    GetProgress { document: Option<Seq<char>> },
}

impl View for Protected {
    type V = ProtectedView;

    open spec fn view(&self) -> ProtectedView {
        match self {
            Protected::AuthUser => ProtectedView::AuthUser,
            Protected::UpdateProgress { body } => ProtectedView::UpdateProgress {
                body: option_view(*body),
            },
            Protected::GetProgress { document } => ProtectedView::GetProgress {
                document: option_view(*document),
            },
        }
    }
}

/// What the service waits for while the backend works on a call.
#[derive(Debug, Clone, PartialEq, Eq)]
pub enum Waiting {
    /// The stored credential of `claimed.name` is being read.
    Credential { claimed: User, route: Protected },
    /// The credential of `user.name` is being read, to see that there is none yet.
    Existing { user: User },
    /// The credential of `username` is being written.
    Registration { username: String },
    /// The progress in `document` is being written, stamped `timestamp`.
    Save { document: String, timestamp: u64 },
    /// The progress in `document` is being read.
    Progress { document: String },
}

/// What the service remembers while the backend works on a call. It is made of
/// validated names only, so whatever key is built from it later is a key of
/// validated names; a driver hands it back as it got it.
#[derive(Debug, PartialEq, Eq)]
pub struct Pending {
    waiting: Waiting,
}

/// What a [`Pending`] or a [`Waiting`] holds, as text.
pub enum PendingView {
    Credential { claimed: UserView, route: ProtectedView },
    Existing { user: UserView },
    Registration { username: Seq<char> },
    Save { document: Seq<char>, timestamp: u64 },
    Progress { document: Seq<char> },
}

impl View for Waiting {
    type V = PendingView;

    open spec fn view(&self) -> PendingView {
        match self {
            Waiting::Credential { claimed, route } => PendingView::Credential {
                claimed: claimed@,
                route: route@,
            },
            Waiting::Existing { user } => PendingView::Existing { user: user@ },
            Waiting::Registration { username } => PendingView::Registration {
                username: username@,
            },
            Waiting::Save { document, timestamp } => PendingView::Save {
                document: document@,
                timestamp: *timestamp,
            },
            Waiting::Progress { document } => PendingView::Progress { document: document@ },
        }
    }
}

impl View for Pending {
    type V = PendingView;

    closed spec fn view(&self) -> PendingView {
        self.waiting@
    }
}

impl Pending {
    #[verifier::type_invariant]
    spec fn validated(self) -> bool {
        self.waiting@.wf()
    }

    /// Wraps up what is waited for; `None` where a name in it may not be
    /// embedded in a key.
    pub fn new(waiting: Waiting) -> (pending: Option<Pending>)
        ensures
            waiting@.wf() ==> (pending matches Some(made) && made@ == waiting@),
            !waiting@.wf() ==> pending is None,
    {
        let valid = match &waiting {
            Waiting::Credential { claimed, .. } => is_valid_key_field(claimed.name.as_str()),
            Waiting::Existing { user } => is_valid_key_field(user.name.as_str()),
            _ => true,
        };
        if valid {
            Some(Pending { waiting })
        } else {
            None
        }
    }

    /// Wraps up what is waited for; the names in it are known to be valid.
    pub(crate) fn from_validated(waiting: Waiting) -> (pending: Pending)
        requires
            waiting@.wf(),
        ensures
            pending@ == waiting@,
    {
        Pending { waiting }
    }

    /// What is waited for. The names in it may be embedded in a key.
    pub fn into_waiting(self) -> (waiting: Waiting)
        ensures
            waiting@ == self@,
            self@.wf(),
    {
        proof {
            use_type_invariant(&self);
        }
        self.waiting
    }
}

impl PendingView {
    /// The names held while the backend works may be embedded in a key.
    pub open spec fn wf(self) -> bool {
        match self {
            PendingView::Credential { claimed, .. } => valid_key_field(claimed.name),
            PendingView::Existing { user } => valid_key_field(user.name),
            _ => true,
        }
    }
}

/// Where an exchange stands: the backend has work to do, or the client has its reply.
#[derive(Debug, PartialEq, Eq)]
pub enum Step {
    /// The driver performs `call` and resumes the exchange with `then` and the answer.
    Call { call: StoreCall, then: Pending },
    /// The exchange is over.
    Done(Reply),
}

/// What a [`Step`] holds, as text.
pub enum StepView {
    Call { call: StoreCallView, then: PendingView },
    Done(ReplyView),
}

impl View for Step {
    type V = StepView;

    open spec fn view(&self) -> StepView {
        match self {
            Step::Call { call, then } => StepView::Call { call: call@, then: then@ },
            Step::Done(reply) => StepView::Done(reply@),
        }
    }
}

/// The step that ends an exchange in failure.
pub open spec fn failed(error: AppErrorView) -> StepView {
    StepView::Done(ReplyView::Failure(error))
}

} // verus!
