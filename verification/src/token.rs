//! Where a request carries its token: behind `Bearer ` in the
//! authorization header, or as the parameter `token` of the query of a
//! connection that is being upgraded.

use vstd::prelude::*;
use vstd::string::StrSliceExecFns;
use crate::error::ApiError;

verus! {

/// What goes before the token in an authorization header.
pub open spec fn bearer_prefix() -> Seq<char> {
    "Bearer "@
}

/// What goes before the token in a query parameter.
pub open spec fn token_prefix() -> Seq<char> {
    "token="@
}

/// The text of a string slice that may be missing.
pub open spec fn slice_text(slice: Option<&str>) -> Option<Seq<char>> {
    match slice {
        Some(s) => Some(s@),
        None => None,
    }
}

/// `text` without `prefix`, if it starts with it.
pub open spec fn strip_prefix(text: Seq<char>, prefix: Seq<char>) -> Option<Seq<char>> {
    if prefix.is_prefix_of(text) {
        Some(text.skip(prefix.len() as int))
    } else {
        None
    }
}

/// `text` without `prefix` at its start, however often `prefix` stands
/// there.
pub open spec fn trim_prefix(text: Seq<char>, prefix: Seq<char>) -> Seq<char>
    decreases text.len(),
{
    if prefix.len() > 0 && prefix.is_prefix_of(text) {
        trim_prefix(text.skip(prefix.len() as int), prefix)
    } else {
        text
    }
}

/// The place of the first `&` of `text` at or after `from`, or the length
/// of `text` where there is none.
pub open spec fn next_separator(text: Seq<char>, from: int) -> int
    decreases text.len() - from,
{
    if from < 0 || from >= text.len() {
        text.len() as int
    } else if text[from] == '&' {
        from
    } else {
        next_separator(text, from + 1)
    }
}

/// The token of the part of a query that begins at `from`: the parameters
/// are parted by `&`, and the first one that starts with `token=` gives the
/// token, which is what follows `token=`, however often that stands at its
/// start.
pub open spec fn token_from(query: Seq<char>, from: int) -> Option<Seq<char>>
    decreases query.len() - from,
{
    if from < 0 || from > query.len() {
        None
    } else {
        let end = next_separator(query, from);
        let parameter = query.subrange(from, end);
        if token_prefix().is_prefix_of(parameter) {
            Some(trim_prefix(parameter, token_prefix()))
        } else if end < query.len() {
            proof {
                lemma_next_separator(query, from);
            }
            token_from(query, end + 1)
        } else {
            None
        }
    }
}

/// The next separator lies between `from` and the end of the text, and
/// no `&` stands before it.
pub proof fn lemma_next_separator(text: Seq<char>, from: int)
    requires
        0 <= from <= text.len(),
    ensures
        from <= next_separator(text, from) <= text.len(),
        next_separator(text, from) < text.len() ==> text[next_separator(text, from)] == '&',
        forall|i: int| from <= i < next_separator(text, from) ==> text[i] != '&',
    decreases text.len() - from,
{
    if from < text.len() && text[from] != '&' {
        lemma_next_separator(text, from + 1);
    }
}

/// The characters of `text`.
fn characters(text: &str) -> (chars: Vec<char>)
    ensures
        chars@ == text@,
{
    let mut chars: Vec<char> = Vec::new();
    for c in it: text.chars()
        invariant
            chars@ == it.seq().take(it.index()),
            it.seq() == text@,
    {
        chars.push(c);
    }
    chars
}

/// Whether the part of `text` from `from` to `to` starts with `prefix`.
fn starts_with_at(text: &Vec<char>, from: usize, to: usize, prefix: &Vec<char>) -> (found: bool)
    requires
        from <= to <= text@.len(),
    ensures
        found == prefix@.is_prefix_of(text@.subrange(from as int, to as int)),
{
    if prefix.len() > to - from {
        return false;
    }
    let ghost part = text@.subrange(from as int, to as int);
    let mut i: usize = 0;
    while i < prefix.len()
        invariant
            i <= prefix@.len() <= to - from,
            from <= to <= text@.len(),
            part == text@.subrange(from as int, to as int),
            forall|j: int| 0 <= j < i ==> prefix@[j] == part[j],
        decreases prefix@.len() - i,
    {
        if prefix[i] != text[from + i] {
            assert(prefix@[i as int] != part.subrange(0, prefix@.len() as int)[i as int]);
            return false;
        }
        i += 1;
    }
    assert(prefix@ =~= part.subrange(0, prefix@.len() as int));
    true
}

/// The token of an authorization header: what follows `Bearer `. A header
/// that does not start so carries none.
pub fn bearer_token<'a>(header: &'a str) -> (token: Option<&'a str>)
    ensures
        slice_text(token) == strip_prefix(header@, bearer_prefix()),
{
    let text = characters(header);
    let prefix = characters("Bearer ");
    assert(text@.subrange(0, text@.len() as int) =~= text@);
    if starts_with_at(&text, 0, text.len(), &prefix) {
        let token = header.substring_char(prefix.len(), text.len());
        assert(token@ =~= header@.skip(prefix@.len() as int));
        Some(token)
    } else {
        None
    }
}

/// The token of a query, as [`token_from`] reads it from the start of the
/// query. A query without a parameter that starts with `token=` carries
/// none.
pub fn query_token<'a>(query: &'a str) -> (token: Option<&'a str>)
    ensures
        slice_text(token) == token_from(query@, 0),
{
    let text = characters(query);
    let prefix = characters("token=");
    proof {
        reveal_strlit("token=");
    }
    let mut from: usize = 0;
    loop
        invariant
            from <= text@.len(),
            text@ == query@,
            prefix@ == token_prefix(),
            prefix@.len() == 6,
            token_from(query@, 0) == token_from(query@, from as int),
        decreases text@.len() - from,
    {
        let mut end: usize = from;
        while end < text.len() && text[end] != '&'
            invariant
                from <= end <= text@.len(),
                next_separator(text@, from as int) == next_separator(text@, end as int),
            decreases text@.len() - end,
        {
            end += 1;
        }
        proof {
            lemma_next_separator(text@, from as int);
        }
        if starts_with_at(&text, from, end, &prefix) {
            let ghost parameter = text@.subrange(from as int, end as int);
            let mut start: usize = from;
            while starts_with_at(&text, start, end, &prefix)
                invariant
                    from <= start <= end <= text@.len(),
                    prefix@.len() == 6,
                    trim_prefix(parameter, prefix@) == trim_prefix(
                        text@.subrange(start as int, end as int),
                        prefix@,
                    ),
                decreases end - start,
            {
                proof {
                    let part = text@.subrange(start as int, end as int);
                    assert(part.skip(6) =~= text@.subrange(start + 6, end as int));
                }
                start += 6;
            }
            let token = query.substring_char(start, end);
            return Some(token);
        }
        if end >= text.len() {
            return None;
        }
        from = end + 1;
    }
}

/// The token of a request, given its authorization header if it has one
/// that is text. A request without the header, or with one that carries no
/// token, is unauthorized.
pub fn auth_middleware<'a>(authorization: Option<&'a str>) -> (token: Result<&'a str, ApiError>)
    ensures
        match token {
            Ok(found) => authorization matches Some(header) && strip_prefix(
                header@,
                bearer_prefix(),
            ) == Some(found@),
            Err(e) => e == ApiError::Unauthorized && (authorization matches Some(header)
                ==> strip_prefix(header@, bearer_prefix()) is None),
        },
{
    let found = match authorization {
        Some(header) => bearer_token(header),
        None => None,
    };
    match found {
        Some(token) => Ok(token),
        None => Err(ApiError::Unauthorized),
    }
}

/// The token of a connection that is being upgraded, given the query of
/// its address if it has one. A request without a query, or with one that
/// carries no token, is unauthorized.
pub fn ws_auth_middleware<'a>(query: Option<&'a str>) -> (token: Result<&'a str, ApiError>)
    ensures
        match token {
            Ok(found) => query matches Some(q) && token_from(q@, 0) == Some(found@),
            Err(e) => e == ApiError::Unauthorized && (query matches Some(q) ==> token_from(q@, 0)
                is None),
        },
{
    let found = match query {
        Some(q) => query_token(q),
        None => None,
    };
    match found {
        Some(token) => Ok(token),
        None => Err(ApiError::Unauthorized),
    }
}

} // verus!
