//! The marker that a relaying proxy puts in its user agent, and the
//! identifier that it embeds there.
//!
//! A fetch counts as a view only if its user agent carries the marker
//! `github-camo` somewhere. The identifier is read from a user agent of the
//! form `github-camo (<identifier>)`. The two tests differ on purpose: a user
//! agent that carries the marker anywhere but at its start is accepted, and
//! gets the fixed identifier `non-github`.

use vstd::prelude::*;
use vstd::string::*;
use crate::text::{chars_of, contains, ends_with, find, matches_at, starts_with, without_prefix, without_suffix};

verus! {

/// `github-camo`: the text a user agent must carry for its fetch to count.
pub open spec fn marker() -> Seq<char> {
    seq!['g', 'i', 't', 'h', 'u', 'b', '-', 'c', 'a', 'm', 'o']
}

/// `github-camo (`: what stands before the identifier.
pub open spec fn id_opening() -> Seq<char> {
    marker() + seq![' ', '(']
}

/// `)`: what stands after the identifier.
pub open spec fn id_closing() -> Seq<char> {
    seq![')']
}

/// `non-github`: the identifier of an accepted user agent that does not begin
/// with the marker.
pub open spec fn fallback_id() -> Seq<char> {
    seq!['n', 'o', 'n', '-', 'g', 'i', 't', 'h', 'u', 'b']
}

/// `unknown`: what stands for a user agent or a network address that the
/// request did not supply.
pub open spec fn unknown() -> Seq<char> {
    seq!['u', 'n', 'k', 'n', 'o', 'w', 'n']
}

/// The user agent carries the marker.
pub open spec fn carries_marker(user_agent: Seq<char>) -> bool {
    contains(user_agent, marker())
}

/// The identifier embedded in a user agent.
///
/// Where the user agent begins with the marker, it is the user agent without
/// one leading `github-camo (` and, of what is left, without one trailing `)`;
/// either is left in place where it is absent. Otherwise it is `non-github`.
pub open spec fn camo_id_of(user_agent: Seq<char>) -> Seq<char> {
    if starts_with(user_agent, marker()) {
        without_suffix(without_prefix(user_agent, id_opening()), id_closing())
    } else {
        fallback_id()
    }
}

/// The marker as text.
pub fn marker_text() -> (m: &'static str)
    ensures
        m@ == marker(),
{
    proof {
        reveal_strlit("github-camo");
    }
    "github-camo"
}

/// The opening of an identifier as text.
pub fn id_opening_text() -> (m: &'static str)
    ensures
        m@ == id_opening(),
{
    proof {
        reveal_strlit("github-camo (");
    }
    "github-camo ("
}

/// The fallback identifier as text.
pub fn fallback_id_text() -> (m: &'static str)
    ensures
        m@ == fallback_id(),
{
    proof {
        reveal_strlit("non-github");
    }
    "non-github"
}

/// The stand-in for a missing header or address as text.
pub fn unknown_text() -> (m: &'static str)
    ensures
        m@ == unknown(),
{
    proof {
        reveal_strlit("unknown");
    }
    "unknown"
}

/// Decides whether a fetch with this user agent counts as a view.
pub fn is_camo_agent(user_agent: &str) -> (accepted: bool)
    ensures
        accepted == carries_marker(user_agent@),
{
    let text = chars_of(user_agent);
    let wanted = chars_of(marker_text());
    find(&text, &wanted).is_some()
}

/// Reads the identifier that a user agent embeds.
pub fn camo_id(user_agent: &str) -> (id: String)
    ensures
        id@ == camo_id_of(user_agent@),
{
    let text = chars_of(user_agent);
    let wanted = chars_of(marker_text());
    if !matches_at(&text, &wanted, 0) {
        return fallback_id_text().to_owned();
    }
    let opening = chars_of(id_opening_text());
    let start: usize = if matches_at(&text, &opening, 0) {
        opening.len()
    } else {
        0
    };
    let end: usize = if start < text.len() && text[text.len() - 1] == ')' {
        text.len() - 1
    } else {
        text.len()
    };
    proof {
        let rest = without_prefix(user_agent@, id_opening());
        assert(rest == user_agent@.skip(start as int));
        assert(ends_with(rest, id_closing()) <==> (rest.len() >= 1 && rest.last() == ')')) by {
            if rest.len() >= 1 {
                let tail = rest.subrange(rest.len() - 1, rest.len() as int);
                assert(tail[0] == rest.last());
                if rest.last() == ')' {
                    assert(tail =~= id_closing());
                }
            }
        }
        assert(without_suffix(rest, id_closing()) =~= user_agent@.subrange(
            start as int,
            end as int,
        ));
    }
    user_agent.substring_char(start, end).to_owned()
}

} // verus!
