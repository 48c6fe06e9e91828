//! The beacon handler's decisions: which fetches are accepted, what is
//! recorded for an accepted fetch, and how the fetch is answered once the
//! store has been asked to keep the view.

use vstd::prelude::*;
use crate::camo::{camo_id, camo_id_of, carries_marker, is_camo_agent, unknown, unknown_text};
use crate::event::{NewView, NewViewModel};
use crate::instant::Timestamp;
use crate::reply::Failure;

verus! {

/// The text of an optional string slice.
pub open spec fn text_of_str(value: Option<&str>) -> Option<Seq<char>> {
    match value {
        Some(s) => Some(s@),
        None => None,
    }
}

/// `value`, or `unknown` where the request did not supply it.
pub open spec fn or_unknown(value: Option<Seq<char>>) -> Seq<char> {
    match value {
        Some(text) => text,
        None => unknown(),
    }
}

/// The fetch is accepted: its user agent, or `unknown` in its place,
/// carries the marker.
pub open spec fn is_accepted(user_agent: Option<Seq<char>>) -> bool {
    carries_marker(or_unknown(user_agent))
}

/// What is recorded for an accepted fetch that arrived at `now`.
pub open spec fn recorded(
    user_agent: Option<Seq<char>>,
    remote_addr: Option<Seq<char>>,
    now: int,
) -> NewViewModel {
    NewViewModel {
        ip_address: or_unknown(remote_addr),
        user_agent: or_unknown(user_agent),
        camo_id: camo_id_of(or_unknown(user_agent)),
        timestamp: now,
    }
}

/// How a fetch ends: rejected without a write; failed, where the store did
/// not keep the view; or served.
pub open spec fn outcome_of(accepted: bool, stored: bool) -> Result<(), Failure> {
    if !accepted {
        Err(Failure::ValidationRejected)
    } else if !stored {
        Err(Failure::StoreWriteFailed)
    } else {
        Ok(())
    }
}

/// Decides on a fetch that arrived at `now` with the given `User-Agent`
/// header and network address, either of which may be missing. An accepted
/// fetch yields the view to store; a rejected one yields
/// `ValidationRejected`, and nothing is to be stored for it.
pub fn screen(user_agent: Option<&str>, remote_addr: Option<&str>, now: Timestamp) -> (verdict:
    Result<NewView, Failure>)
    ensures
        verdict is Ok <==> is_accepted(text_of_str(user_agent)),
        verdict matches Ok(view) ==> view@ == recorded(
            text_of_str(user_agent),
            text_of_str(remote_addr),
            now@,
        ),
        verdict matches Err(failure) ==> failure == Failure::ValidationRejected,
{
    let agent: &str = match user_agent {
        Some(text) => text,
        None => unknown_text(),
    };
    if !is_camo_agent(agent) {
        return Err(Failure::ValidationRejected);
    }
    let address: &str = match remote_addr {
        Some(text) => text,
        None => unknown_text(),
    };
    Ok(
        NewView {
            ip_address: address.to_owned(),
            user_agent: agent.to_owned(),
            camo_id: camo_id(agent),
            timestamp: now,
        },
    )
}

/// Closes an accepted fetch once the store has answered: served where the
/// view was stored, `StoreWriteFailed` where it was not.
pub fn conclude(stored: bool) -> (outcome: Result<(), Failure>)
    ensures
        outcome == outcome_of(true, stored),
{
    if stored {
        Ok(())
    } else {
        Err(Failure::StoreWriteFailed)
    }
}

} // verus!
