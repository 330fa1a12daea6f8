//! Private sessions: who may open one, and under which pair of identities
//! its record is kept.

use vstd::prelude::*;
use crate::error::ApiError;
use crate::text::lemma_precedes_asymmetric;
use crate::text::lemma_precedes_total;
use crate::text::precedes;
use crate::text::str_lt;

verus! {

/// The two participants of a private session, in the order in which the
/// session's record names them: `user2` never comes before `user1`.
#[derive(Clone, Debug, PartialEq, Eq)]
pub struct SessionPair {
    pub user1: String,
    pub user2: String,
}

/// Two identities in canonical order: the one that comes first in the order
/// of identities stands first.
pub open spec fn canonical_pair(a: Seq<char>, b: Seq<char>) -> (Seq<char>, Seq<char>) {
    if precedes(a, b) {
        (a, b)
    } else {
        (b, a)
    }
}

/// The pair under which the session of `a` and `b` is kept, or why they
/// can have none: only friends may open a private session.
pub open spec fn resolved_session(a: Seq<char>, b: Seq<char>, are_friends: bool) -> Result<
    (Seq<char>, Seq<char>),
    ApiError,
> {
    if are_friends {
        Ok(canonical_pair(a, b))
    } else {
        Err(ApiError::Forbidden)
    }
}

/// Puts two identities in canonical order.
pub fn order_pair(a: String, b: String) -> (pair: (String, String))
    ensures
        (pair.0@, pair.1@) == canonical_pair(a@, b@),
{
    if str_lt(a.as_str(), b.as_str()) {
        (a, b)
    } else {
        (b, a)
    }
}

/// Resolves the private session of `identity_a` and `identity_b`.
/// `are_friends` says whether the two are friends of each other, as the
/// store of friendships has it. Friends get the pair under which their one
/// session is kept; others are refused, and nothing is to be stored for
/// them.
pub fn resolve_session(identity_a: String, identity_b: String, are_friends: bool) -> (resolved:
    Result<SessionPair, ApiError>)
    ensures
        match resolved {
            Ok(pair) => resolved_session(identity_a@, identity_b@, are_friends) == Ok::<
                (Seq<char>, Seq<char>),
                ApiError,
            >((pair.user1@, pair.user2@)),
            Err(e) => resolved_session(identity_a@, identity_b@, are_friends) == Err::<
                (Seq<char>, Seq<char>),
                ApiError,
            >(e),
        },
{
    if !are_friends {
        return Err(ApiError::Forbidden);
    }
    let (user1, user2) = order_pair(identity_a, identity_b);
    Ok(SessionPair { user1, user2 })
}

/// The canonical order of two identities does not depend on the order in
/// which they are given.
pub proof fn lemma_canonical_pair_symmetric(a: Seq<char>, b: Seq<char>)
    ensures
        canonical_pair(a, b) == canonical_pair(b, a),
{
    if precedes(a, b) {
        lemma_precedes_asymmetric(a, b);
    } else if !precedes(b, a) {
        lemma_precedes_total(a, b);
    }
}

/// A canonical pair holds the two identities that it was made of, and its
/// second never comes before its first.
pub proof fn lemma_canonical_pair_ordered(a: Seq<char>, b: Seq<char>)
    ensures
        !precedes(canonical_pair(a, b).1, canonical_pair(a, b).0),
        canonical_pair(a, b) == (a, b) || canonical_pair(a, b) == (b, a),
{
    if precedes(a, b) {
        lemma_precedes_asymmetric(a, b);
    }
}

/// A private session resolves to the same result whichever of the two
/// identities asks, and, being a function of the two identities and their
/// friendship alone, to the same result each time.
pub proof fn lemma_resolve_session_symmetric(a: Seq<char>, b: Seq<char>, are_friends: bool)
    ensures
        resolved_session(a, b, are_friends) == resolved_session(b, a, are_friends),
{
    lemma_canonical_pair_symmetric(a, b);
}

} // verus!
