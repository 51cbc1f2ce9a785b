//! What holds of the service as a whole, proved against a backend that never
//! fails.

use crate::keys::{
    doc_key_spec, lemma_doc_key_injective, lemma_user_key_injective,
    lemma_user_key_is_no_doc_key, user_key_spec, valid_key_field,
};
use crate::model::{self, sound};
use crate::protocol::{
    failed, Fetched, PendingView, ProtectedView, ReplyView, StepView, StoreAnswerView,
};
use crate::store::{advance, calls_left, serve, Entry, Store};
use crate::types::{AppErrorView, ProgressUpdateView, UserView};
use vstd::prelude::*;

verus! {

/// The backend holds `key` as the credential of the user `name`.
pub open spec fn registered(store: Store, name: Seq<char>, key: Seq<char>) -> bool {
    store.dom().contains(user_key_spec(name)) && store[user_key_spec(name)] == Entry::Text(key)
}

/// The backend holds no credential for the user `name`.
pub open spec fn unregistered(store: Store, name: Seq<char>) -> bool {
    !store.dom().contains(user_key_spec(name))
}

/// What a failing backend answers to the call that `pending` waits for.
pub open spec fn failure_for(pending: PendingView) -> StoreAnswerView {
    match pending {
        PendingView::Credential { .. } => StoreAnswerView::Text(Fetched::Failed),
        PendingView::Existing { .. } => StoreAnswerView::Text(Fetched::Failed),
        PendingView::Registration { .. } => StoreAnswerView::Written(false),
        PendingView::Save { .. } => StoreAnswerView::Written(false),
        PendingView::Progress { .. } => StoreAnswerView::Progress(Fetched::Failed),
    }
}

/// Registering a name that may be embedded in a key, with a non-empty password,
/// succeeds where the name is not registered yet, and replies with the name.
/// Registering the name again, with whatever password, is refused as
/// `UsernameAlreadyRegistered` and leaves the first credential in place.
pub proof fn law_registration_happens_once(
    store: Store,
    user: UserView,
    again: Seq<char>,
    now: u64,
    later: u64,
)
    requires
        valid_key_field(user.name),
        user.key.len() > 0,
        again.len() > 0,
        unregistered(store, user.name),
    ensures
        ({
            let (store1, first) = serve(store, model::create_user(Some(user)), now);
            let second_user = UserView { name: user.name, key: again };
            let (store2, second) = serve(store1, model::create_user(Some(second_user)), later);
            &&& first == ReplyView::Created { username: user.name }
            &&& registered(store1, user.name, user.key)
            &&& second == ReplyView::Failure(AppErrorView::UsernameAlreadyRegistered)
            &&& store2 == store1
        }),
{
    reveal_with_fuel(serve, 3);
}

/// The check and the write of a registration are two calls, and the backend may
/// serve another exchange between them. Two registrations of one unregistered
/// name that both read before either writes are both told that the user was
/// created, and the credential of the one that writes last is the one that stays.
pub proof fn law_racing_registrations_both_succeed(
    store: Store,
    first: UserView,
    second: UserView,
    now: u64,
)
    requires
        valid_key_field(first.name),
        second.name == first.name,
        first.key.len() > 0,
        second.key.len() > 0,
        unregistered(store, first.name),
    ensures
        ({
            let (store1, first_waits) = advance(store, model::create_user(Some(first)), now);
            let (store2, second_waits) = advance(store1, model::create_user(Some(second)), now);
            let (store3, first_ends) = advance(store2, first_waits, now);
            let (store4, second_ends) = advance(store3, second_waits, now);
            &&& first_ends == StepView::Done(ReplyView::Created { username: first.name })
            &&& second_ends == StepView::Done(ReplyView::Created { username: first.name })
            &&& registered(store4, first.name, second.key)
        }),
{
}

/// A caller whose name is not registered is `Unauthorized` on every protected
/// route, whatever credential the request carries, and nothing is stored.
pub proof fn law_unregistered_is_unauthorized(
    store: Store,
    name: Seq<char>,
    key: Fetched<Seq<char>>,
    route: ProtectedView,
    now: u64,
)
    requires
        unregistered(store, name),
    ensures
        serve(store, model::protected(Fetched::Found(name), key, route), now) == (
            store,
            ReplyView::Failure(AppErrorView::Unauthorized),
        ),
{
    reveal_with_fuel(serve, 3);
}

/// A registered caller is let in with exactly the stored credential, on every
/// protected route: the request is then served as the caller's. With any other
/// credential the caller is `Unauthorized` and nothing is stored.
pub proof fn law_registered_is_authorized(
    store: Store,
    name: Seq<char>,
    key: Seq<char>,
    supplied: Seq<char>,
    route: ProtectedView,
    now: u64,
)
    requires
        valid_key_field(name),
        registered(store, name, key),
    ensures
        serve(store, model::auth_user(Fetched::Found(name), Fetched::Found(key)), now) == (
            store,
            ReplyView::Authorized,
        ),
        serve(store, model::protected(Fetched::Found(name), Fetched::Found(key), route), now)
            == serve(store, model::admitted(name, route, now), now),
        supplied != key ==> serve(
            store,
            model::protected(Fetched::Found(name), Fetched::Found(supplied), route),
            now,
        ) == (store, ReplyView::Failure(AppErrorView::Unauthorized)),
{
    reveal_with_fuel(serve, 3);
}

/// Every round brings an exchange nearer to its reply, and no exchange makes
/// more than two calls.
pub proof fn law_exchange_makes_at_most_two_calls(store: Store, step: StepView, now: u64)
    requires
        step is Call,
    ensures
        calls_left(advance(store, step, now).1) < calls_left(step) <= 2,
{
}

/// A failure of the backend ends the exchange at once, with no further call:
/// as `Unauthorized` where the caller's credential was being read, else as
/// `StoreError`.
pub proof fn law_backend_failure_ends_the_exchange(pending: PendingView, now: u64)
    ensures
        model::resume(pending, failure_for(pending), now) == failed(
            if pending is Credential {
                AppErrorView::Unauthorized
            } else {
                AppErrorView::StoreError
            },
        ),
{
}

/// Progress that a registered caller stores at time `now` is what the caller
/// reads back: every reported field, and `now` as the time of writing.
pub proof fn law_progress_round_trip(
    store: Store,
    name: Seq<char>,
    key: Seq<char>,
    update: ProgressUpdateView,
    now: u64,
    later: u64,
)
    requires
        valid_key_field(name),
        valid_key_field(update.document),
        registered(store, name, key),
    ensures
        ({
            let user = Fetched::Found(name);
            let key = Fetched::Found(key);
            let (store1, saved) = serve(
                store,
                model::update_progress(user, key, Some(update)),
                now,
            );
            let (store2, fetched) = serve(
                store1,
                model::get_progress(user, key, Some(update.document)),
                later,
            );
            &&& saved == ReplyView::Saved { document: update.document, timestamp: now }
            &&& fetched == ReplyView::Progress(update.stamped(now))
            &&& store2 == store1
        }),
{
    reveal_with_fuel(serve, 3);
    lemma_user_key_is_no_doc_key(name, name, update.document);
}

/// Where nothing was stored for a caller and a document, fetching the progress
/// is no failure: the reply says that there is none.
pub proof fn law_unwritten_progress_is_absent(
    store: Store,
    name: Seq<char>,
    key: Seq<char>,
    document: Seq<char>,
    now: u64,
)
    requires
        valid_key_field(name),
        valid_key_field(document),
        registered(store, name, key),
        !store.dom().contains(doc_key_spec(name, document)),
    ensures
        serve(
            store,
            model::get_progress(Fetched::Found(name), Fetched::Found(key), Some(document)),
            now,
        ) == (store, ReplyView::NoProgress { document }),
{
    reveal_with_fuel(serve, 3);
}

/// A second write for the same caller and document replaces the first as a
/// whole: what is read back is the second report alone.
pub proof fn law_last_write_wins(
    store: Store,
    name: Seq<char>,
    key: Seq<char>,
    first: ProgressUpdateView,
    second: ProgressUpdateView,
    now: u64,
    later: u64,
    last: u64,
)
    requires
        valid_key_field(name),
        valid_key_field(first.document),
        second.document == first.document,
        registered(store, name, key),
    ensures
        ({
            let user = Fetched::Found(name);
            let key = Fetched::Found(key);
            let (store1, _) = serve(store, model::update_progress(user, key, Some(first)), now);
            let (store2, _) = serve(store1, model::update_progress(user, key, Some(second)), later);
            let (_, fetched) = serve(
                store2,
                model::get_progress(user, key, Some(first.document)),
                last,
            );
            &&& fetched == ReplyView::Progress(second.stamped(later))
            &&& store2 == store.insert(
                doc_key_spec(name, first.document),
                Entry::Progress(second.stamped(later)),
            )
        }),
{
    reveal_with_fuel(serve, 3);
    lemma_user_key_is_no_doc_key(name, name, first.document);
    let k = doc_key_spec(name, first.document);
    assert(store.insert(k, Entry::Progress(first.stamped(now))).insert(
        k,
        Entry::Progress(second.stamped(later)),
    ) =~= store.insert(k, Entry::Progress(second.stamped(later))));
}

/// A registration whose name is empty or holds the separator is refused as an
/// `InvalidRequest` before any call to the backend.
pub proof fn law_invalid_name_is_refused(user: UserView)
    requires
        !valid_key_field(user.name),
    ensures
        model::create_user(Some(user)) == failed(AppErrorView::InvalidRequest),
{
}

/// Progress reported for a document whose identifier is empty or holds the
/// separator is refused as `DocumentNotProvided`: once the caller is known, no
/// call to the backend follows.
pub proof fn law_invalid_document_is_not_stored(
    username: Seq<char>,
    update: ProgressUpdateView,
    now: u64,
)
    requires
        !valid_key_field(update.document),
    ensures
        model::admitted(username, ProtectedView::UpdateProgress { body: Some(update) }, now)
            == failed(AppErrorView::DocumentNotProvided),
{
}

/// Fetching the progress in a document whose identifier is missing, empty or
/// holds the separator is refused as `DocumentNotProvided`: once the caller is
/// known, no call to the backend follows.
pub proof fn law_invalid_document_is_not_fetched(
    username: Seq<char>,
    document: Option<Seq<char>>,
    now: u64,
)
    requires
        document matches Some(name) ==> !valid_key_field(name),
    ensures
        model::admitted(username, ProtectedView::GetProgress { document }, now) == failed(
            AppErrorView::DocumentNotProvided,
        ),
{
}

/// No identifier reaches the backend unvalidated: the first step of every route
/// is sound.
pub proof fn law_first_steps_are_sound(
    body: Option<UserView>,
    user: Fetched<Seq<char>>,
    key: Fetched<Seq<char>>,
    route: ProtectedView,
)
    ensures
        sound(model::create_user(body)),
        sound(model::protected(user, key, route)),
        sound(model::health_check()),
{
}

/// No identifier reaches the backend unvalidated: the step that follows a sound
/// step is sound, whatever the backend answered.
pub proof fn law_next_steps_are_sound(pending: PendingView, answer: StoreAnswerView, now: u64)
    requires
        pending.wf(),
    ensures
        sound(model::resume(pending, answer, now)),
{
}

/// A registration leaves every other record as it was: the credential of every
/// other user, and every progress record.
pub proof fn law_registration_keeps_other_records(
    store: Store,
    body: Option<UserView>,
    now: u64,
    other: Seq<char>,
    document: Seq<char>,
)
    requires
        valid_key_field(other),
    ensures
        ({
            let after = serve(store, model::create_user(body), now).0;
            let credential = user_key_spec(other);
            let progress = doc_key_spec(other, document);
            &&& after.dom().contains(progress) == store.dom().contains(progress)
            &&& after[progress] == store[progress]
            &&& !(body matches Some(user) && user.name == other) ==> {
                &&& after.dom().contains(credential) == store.dom().contains(credential)
                &&& after[credential] == store[credential]
            }
        }),
{
    reveal_with_fuel(serve, 3);
    if let Some(user) = body {
        if valid_key_field(user.name) {
            lemma_user_key_is_no_doc_key(user.name, other, document);
            if user.name != other {
                if user_key_spec(user.name) == user_key_spec(other) {
                    lemma_user_key_injective(user.name, other);
                }
            }
        }
    }
}

/// The request reports progress of the user `name` in `document`.
pub open spec fn reports(
    user: Fetched<Seq<char>>,
    route: ProtectedView,
    name: Seq<char>,
    document: Seq<char>,
) -> bool {
    user == Fetched::Found(name) && match route {
        ProtectedView::UpdateProgress { body: Some(update) } => update.document == document,
        _ => false,
    }
}

/// A call to a protected route leaves every other record as it was: every
/// credential, and the progress of every other pair of user and document.
pub proof fn law_protected_routes_keep_other_records(
    store: Store,
    user: Fetched<Seq<char>>,
    key: Fetched<Seq<char>>,
    route: ProtectedView,
    now: u64,
    other: Seq<char>,
    document: Seq<char>,
)
    requires
        valid_key_field(other),
    ensures
        ({
            let after = serve(store, model::protected(user, key, route), now).0;
            let credential = user_key_spec(other);
            let progress = doc_key_spec(other, document);
            &&& after.dom().contains(credential) == store.dom().contains(credential)
            &&& after[credential] == store[credential]
            &&& !reports(user, route, other, document) ==> {
                &&& after.dom().contains(progress) == store.dom().contains(progress)
                &&& after[progress] == store[progress]
            }
        }),
{
    reveal_with_fuel(serve, 3);
    if let Some(claimed) = model::claimed_credentials(user, key) {
        if let ProtectedView::UpdateProgress { body: Some(update) } = route {
            lemma_user_key_is_no_doc_key(other, claimed.name, update.document);
            if doc_key_spec(claimed.name, update.document) == doc_key_spec(other, document) {
                lemma_doc_key_injective(claimed.name, update.document, other, document);
            }
        }
    }
}

} // verus!
