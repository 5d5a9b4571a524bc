//! Validation of GraphQL-exposed names. Every name a declaration exposes
//! to the GraphQL surface is checked to be a legal GraphQL identifier
//! exactly once, at declaration resolution time.

use vstd::prelude::*;

use crate::errors::{Error, ErrorView};

verus! {

/// Whether a character may begin a GraphQL name: a letter or underscore.
pub open spec fn is_graphql_name_start_char(c: char) -> bool {
    c == '_' || ('A' <= c && c <= 'Z') || ('a' <= c && c <= 'z')
}

/// Whether a character may continue a GraphQL name: a letter, digit or
/// underscore.
pub open spec fn is_graphql_name_continue_char(c: char) -> bool {
    is_graphql_name_start_char(c) || ('0' <= c && c <= '9')
}

/// Whether a string is a legal GraphQL identifier: nonempty, beginning
/// with a letter or underscore, continuing with letters, digits and
/// underscores.
pub open spec fn is_valid_graphql_name(s: Seq<char>) -> bool {
    &&& s.len() > 0
    &&& is_graphql_name_start_char(s[0])
    &&& forall|i: int| 1 <= i < s.len() ==> is_graphql_name_continue_char(#[trigger] s[i])
}

fn check_graphql_name_start_char(c: char) -> (r: bool)
    ensures
        r == is_graphql_name_start_char(c),
{
    c == '_' || ('A' <= c && c <= 'Z') || ('a' <= c && c <= 'z')
}

fn check_graphql_name_continue_char(c: char) -> (r: bool)
    ensures
        r == is_graphql_name_continue_char(c),
{
    check_graphql_name_start_char(c) || ('0' <= c && c <= '9')
}

/// Validate a declared GraphQL-exposed name and take a copy of it, or
/// reject it as an illegal identifier.
pub fn mk_graphql_name(name: &str) -> (r: Result<String, Error>)
    ensures
        match r {
            Ok(n) => is_valid_graphql_name(name@) && n@ == name@,
            Err(e) => !is_valid_graphql_name(name@) && e.deep_view() == (ErrorView::InvalidGraphQlName {
                name: name@,
            }),
        },
{
    let len = name.unicode_len();
    if len == 0 || !check_graphql_name_start_char(name.get_char(0)) {
        return Err(Error::InvalidGraphQlName { name: name.to_owned() });
    }
    let mut i: usize = 1;
    while i < len
        invariant
            1 <= i <= len,
            len == name@.len(),
            is_graphql_name_start_char(name@[0]),
            forall|j: int| 1 <= j < i ==> is_graphql_name_continue_char(#[trigger] name@[j]),
        decreases len - i,
    {
        if !check_graphql_name_continue_char(name.get_char(i)) {
            return Err(Error::InvalidGraphQlName { name: name.to_owned() });
        }
        i = i + 1;
    }
    Ok(name.to_owned())
}

} // verus!
