//! A backend that never fails, as a mathematical map.
//!
//! The backend offers an atomic read and an atomic write of one key and nothing
//! else. Against this picture of it, [`serve`] says what an exchange replies
//! and what it leaves in the store.

use crate::model;
use crate::protocol::{
    Fetched, PendingView, ReplyView, StepView, StoreAnswerView, StoreCallView,
};
use crate::types::ProgressStateView;
use vstd::prelude::*;

verus! {

/// What is stored under one key. An entry is read back in the form in which it
/// was written.
pub enum Entry {
    Text(Seq<char>),
    Progress(ProgressStateView),
}

/// What the backend holds.
pub type Store = Map<Seq<char>, Entry>;

/// What reading the text under `key` gives. An entry of the other form cannot
/// be understood.
pub open spec fn read_text(store: Store, key: Seq<char>) -> Fetched<Seq<char>> {
    if store.dom().contains(key) {
        match store[key] {
            Entry::Text(text) => Fetched::Found(text),
            Entry::Progress(_) => Fetched::Failed,
        }
    } else {
        Fetched::Absent
    }
}

/// What reading the progress record under `key` gives. An entry of the other
/// form cannot be understood.
pub open spec fn read_progress(store: Store, key: Seq<char>) -> Fetched<ProgressStateView> {
    if store.dom().contains(key) {
        match store[key] {
            Entry::Progress(record) => Fetched::Found(record),
            Entry::Text(_) => Fetched::Failed,
        }
    } else {
        Fetched::Absent
    }
}

/// What the backend holds after `call`, and what it answers. A write replaces
/// the whole entry under its key and touches no other.
pub open spec fn perform(store: Store, call: StoreCallView) -> (Store, StoreAnswerView) {
    match call {
        StoreCallView::ReadText { key } => (store, StoreAnswerView::Text(read_text(store, key))),
        StoreCallView::ReadProgress { key } => (
            store,
            StoreAnswerView::Progress(read_progress(store, key)),
        ),
        StoreCallView::WriteText { key, value } => (
            store.insert(key, Entry::Text(value)),
            StoreAnswerView::Written(true),
        ),
        StoreCallView::WriteProgress { key, record } => (
            store.insert(key, Entry::Progress(record)),
            StoreAnswerView::Written(true),
        ),
    }
}

/// One round of an exchange: the backend performs the call of `step`, and the
/// service goes on with the answer. A finished exchange stays as it is.
pub open spec fn advance(store: Store, step: StepView, now: u64) -> (Store, StepView) {
    match step {
        StepView::Call { call, then } => {
            let (store, answer) = perform(store, call);
            (store, model::resume(then, answer, now))
        },
        StepView::Done(_) => (store, step),
    }
}

/// The most calls that an exchange at `step` may still make.
pub open spec fn calls_left(step: StepView) -> nat {
    match step {
        StepView::Done(_) => 0,
        StepView::Call { then, .. } => match then {
            PendingView::Credential { .. } => 2,
            PendingView::Existing { .. } => 2,
            PendingView::Registration { .. } => 1,
            PendingView::Save { .. } => 1,
            PendingView::Progress { .. } => 1,
        },
    }
}

/// Serving an exchange that starts with `step`, at time `now`: what the backend
/// holds in the end, and the reply.
pub open spec fn serve(store: Store, step: StepView, now: u64) -> (Store, ReplyView)
    decreases calls_left(step),
{
    match step {
        StepView::Done(reply) => (store, reply),
        StepView::Call { .. } => {
            let (store, next) = advance(store, step, now);
            serve(store, next, now)
        },
    }
}

} // verus!
