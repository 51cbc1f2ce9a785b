//! Derivation of store keys from client-supplied identifiers.
//!
//! Every record lives under a key made of fixed words and identifiers, joined by
//! `:`. An identifier that held a `:` could reach into another record's key, so
//! identifiers are validated before they are embedded. The lemmas at the end of
//! this module state what validation buys: distinct records never share a key.

use vstd::prelude::*;

verus! {

/// An identifier may be embedded in a store key: it is non-empty and holds no `:`.
pub open spec fn valid_key_field(s: Seq<char>) -> bool {
    s.len() > 0 && !s.contains(':')
}

/// The key under which the credential of `user` is stored.
pub open spec fn user_key_spec(user: Seq<char>) -> Seq<char> {
    "user:"@ + user + ":key"@
}

/// The key under which the progress of `user` in `doc` is stored.
pub open spec fn doc_key_spec(user: Seq<char>, doc: Seq<char>) -> Seq<char> {
    "user:"@ + user + ":document:"@ + doc
}

/// Tells whether `s` may be embedded in a store key.
pub fn is_valid_key_field(s: &str) -> (valid: bool)
    ensures
        valid == valid_key_field(s@),
{
    broadcast use vstd::string::group_string_axioms;

    if s.is_empty() {
        return false;
    }
    let mut free = true;
    for c in it: s.chars()
        invariant
            it.seq() == s@,
            free == (forall|j: int| 0 <= j < it.index() ==> s@[j] != ':'),
    {
        if c == ':' {
            free = false;
        }
    }
    free
}

/// Builds the key under which the credential of `user` is stored.
pub fn user_key(user: &str) -> (key: String)
    ensures
        key@ == user_key_spec(user@),
{
    let mut key = String::from_str("user:");
    key.append(user);
    key.append(":key");
    key
}

/// Builds the key under which the progress of `user` in `doc` is stored.
pub fn doc_key(user: &str, doc: &str) -> (key: String)
    ensures
        key@ == doc_key_spec(user@, doc@),
{
    let mut key = String::from_str("user:");
    key.append(user);
    key.append(":document:");
    key.append(doc);
    key
}

/// Two users have the same credential key only if they are the same user.
pub proof fn lemma_user_key_injective(a: Seq<char>, b: Seq<char>)
    requires
        user_key_spec(a) == user_key_spec(b),
    ensures
        a == b,
{
    reveal_strlit("user:");
    reveal_strlit(":key");
    let ka = user_key_spec(a);
    let kb = user_key_spec(b);
    assert(ka.len() == 9 + a.len());
    assert(kb.len() == 9 + b.len());
    assert forall|i: int| 0 <= i < a.len() implies a[i] == b[i] by {
        assert(ka[5 + i] == a[i]);
        assert(kb[5 + i] == b[i]);
    }
    assert(a =~= b);
}

/// Two (user, document) pairs with separator-free user names have the same
/// progress key only if they are the same pair.
pub proof fn lemma_doc_key_injective(u1: Seq<char>, d1: Seq<char>, u2: Seq<char>, d2: Seq<char>)
    requires
        !u1.contains(':'),
        !u2.contains(':'),
        doc_key_spec(u1, d1) == doc_key_spec(u2, d2),
    ensures
        u1 == u2,
        d1 == d2,
{
    reveal_strlit("user:");
    reveal_strlit(":document:");
    let k1 = doc_key_spec(u1, d1);
    let k2 = doc_key_spec(u2, d2);
    assert(k1.len() == 15 + u1.len() + d1.len());
    assert(k2.len() == 15 + u2.len() + d2.len());
    let n1 = u1.len() as int;
    let n2 = u2.len() as int;
    if n1 < n2 {
        assert(k1[5 + n1] == ':');
        assert(k2[5 + n1] == u2[n1]);
        assert(u2.contains(u2[n1]));
    }
    if n2 < n1 {
        assert(k2[5 + n2] == ':');
        assert(k1[5 + n2] == u1[n2]);
        assert(u1.contains(u1[n2]));
    }
    assert forall|i: int| 0 <= i < u1.len() implies u1[i] == u2[i] by {
        assert(k1[5 + i] == u1[i]);
        assert(k2[5 + i] == u2[i]);
    }
    assert(u1 =~= u2);
    assert forall|i: int| 0 <= i < d1.len() implies d1[i] == d2[i] by {
        assert(k1[15 + n1 + i] == d1[i]);
        assert(k2[15 + n2 + i] == d2[i]);
    }
    assert(d1 =~= d2);
}

/// The credential key of a separator-free user name is no progress key.
pub proof fn lemma_user_key_is_no_doc_key(user: Seq<char>, other: Seq<char>, doc: Seq<char>)
    requires
        !user.contains(':'),
    ensures
        user_key_spec(user) != doc_key_spec(other, doc),
{
    reveal_strlit("user:");
    reveal_strlit(":key");
    reveal_strlit(":document:");
    let k1 = user_key_spec(user);
    let k2 = doc_key_spec(other, doc);
    assert(k1.len() == 9 + user.len());
    assert(k2.len() == 15 + other.len() + doc.len());
    if k1 == k2 {
        let n = other.len() as int;
        assert(n < user.len());
        assert(k2[5 + n] == ':');
        assert(k1[5 + n] == user[n]);
        assert(user.contains(user[n]));
    }
}

} // verus!
