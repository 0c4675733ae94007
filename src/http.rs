//! What the two read-only endpoints answer.
//!
//! Both endpoints look the requested name up first: an unknown name is
//! answered at once, without touching any cache entry. A known name is read
//! through its cache entry; a cached failure is answered with a fixed message
//! that says nothing of the failure, and a cached success becomes a calendar
//! file named after the entry.
use vstd::prelude::*;
use vstd::string::StringExecFns;
use crate::registry::{CalendarMap, EntryView, has_name};

verus! {

/// What to do once the requested name has been looked up.
#[derive(Clone, Copy, Debug, PartialEq, Eq, Structural)]
pub enum Route {
    /// No entry has the name: answer without reading any cache entry.
    NotFound,
    /// Read the cache entry at this registry index.
    Read(usize),
}

/// The kind of answer an endpoint gives.
#[derive(Clone, Copy, Debug, PartialEq, Eq, Structural)]
pub enum Reply {
    NotFound,
    ServerError,
    Attachment,
}

pub open spec fn status_of(r: Reply) -> u16 {
    match r {
        Reply::NotFound => 404,
        Reply::ServerError => 500,
        Reply::Attachment => 200,
    }
}

pub open spec fn reply_of<T, E>(value: Result<T, E>) -> Reply {
    match value {
        Ok(_) => Reply::Attachment,
        Err(_) => Reply::ServerError,
    }
}

pub open spec fn not_found_text() -> Seq<char> {
    seq!['C', 'o', 'u', 'l', 'd', ' ', 'n', 'o', 't', ' ', 'f', 'i', 'n', 'd', ' ', 'C', 'a', 'l', 'e', 'n', 'd', 'a', 'r']
}

pub open spec fn server_error_text() -> Seq<char> {
    seq!['I', 'n', 't', 'e', 'r', 'n', 'a', 'l', ' ', 'S', 'e', 'r', 'v', 'e', 'r', ' ', 'E', 'r', 'r', 'o', 'r']
}

/// The fixed body of an answer that carries no calendar.
pub open spec fn message_of(r: Reply) -> Seq<char> {
    match r {
        Reply::NotFound => not_found_text(),
        Reply::ServerError => server_error_text(),
        Reply::Attachment => Seq::empty(),
    }
}

pub open spec fn attachment_prefix() -> Seq<char> {
    seq!['a', 't', 't', 'a', 'c', 'h', 'm', 'e', 'n', 't', ';', ' ', 'f', 'i', 'l', 'e', 'n', 'a', 'm', 'e', '=']
}

pub open spec fn ics_suffix() -> Seq<char> {
    seq!['.', 'i', 'c', 's']
}

/// The index of the entry named `name`, when some entry has it.
pub open spec fn index_of(entries: Seq<EntryView>, name: Seq<char>) -> int {
    choose|i: int| 0 <= i < entries.len() && #[trigger] entries[i].name == name
}

/// Where a request for `name` goes.
pub open spec fn route_of(entries: Seq<EntryView>, name: Seq<char>) -> Route {
    if has_name(entries, name) {
        Route::Read(index_of(entries, name) as usize)
    } else {
        Route::NotFound
    }
}

/// Look the requested name up in the registry.
pub fn route(map: &CalendarMap, name: &str) -> (r: Route)
    requires
        map.wf(),
    ensures
        r == route_of(map@, name@),
        r matches Route::Read(i) ==> i < map@.len() && map@[i as int].name == name@,
{
    match map.lookup(name) {
        None => Route::NotFound,
        Some(i) => {
            proof {
                map.lemma_wf_distinct();
                let j = index_of(map@, name@);
                assert(map@[j].name == map@[i as int].name);
            }
            Route::Read(i)
        },
    }
}

/// The answer for a cached value: a calendar on success, a server error on failure.
pub fn reply_for<T, E>(value: &Result<T, E>) -> (r: Reply)
    ensures
        r == reply_of(*value),
{
    match value {
        Ok(_) => Reply::Attachment,
        Err(_) => Reply::ServerError,
    }
}

impl Reply {
    /// The HTTP status code of the answer.
    pub fn status(&self) -> (r: u16)
        ensures
            r == status_of(*self),
    {
        match self {
            Reply::NotFound => 404,
            Reply::ServerError => 500,
            Reply::Attachment => 200,
        }
    }

    /// The fixed body of an answer without a calendar; empty for a calendar.
    pub fn message(&self) -> (r: String)
        ensures
            r@ == message_of(*self),
    {
        proof {
            reveal_strlit("Could not find Calendar");
            reveal_strlit("Internal Server Error");
        }
        match self {
            Reply::NotFound => String::from_str("Could not find Calendar"),
            Reply::ServerError => String::from_str("Internal Server Error"),
            Reply::Attachment => String::new(),
        }
    }
}

/// The media type of a calendar answer.
pub fn content_type() -> (r: String)
    ensures
        r@ == seq!['t', 'e', 'x', 't', '/', 'c', 'a', 'l', 'e', 'n', 'd', 'a', 'r'],
{
    proof {
        reveal_strlit("text/calendar");
    }
    String::from_str("text/calendar")
}

/// The Content-Disposition value that offers the entry as `<name>.ics`.
pub fn content_disposition(name: &str) -> (r: String)
    ensures
        r@ == attachment_prefix() + name@ + ics_suffix(),
{
    proof {
        reveal_strlit("attachment; filename=");
        reveal_strlit(".ics");
    }
    let mut r = String::from_str("attachment; filename=");
    r.append(name);
    r.append(".ics");
    r
}

/// An unknown name is answered with 404 and the fixed not-found message, and
/// the route names no cache entry, so no generator can run for it.
pub proof fn lemma_unknown_name_not_found(entries: Seq<EntryView>, name: Seq<char>)
    requires
        !has_name(entries, name),
    ensures
        route_of(entries, name) == Route::NotFound,
        status_of(Reply::NotFound) == 404,
        message_of(Reply::NotFound) == not_found_text(),
{
}

/// A cached failure is answered with 500 and one fixed message, whatever the
/// failure was: two different errors give the same answer.
pub proof fn lemma_failure_answer_is_fixed<T, E>(e1: E, e2: E)
    ensures
        reply_of(Err::<T, E>(e1)) == Reply::ServerError,
        reply_of(Err::<T, E>(e1)) == reply_of(Err::<T, E>(e2)),
        status_of(reply_of(Err::<T, E>(e1))) == 500,
        message_of(reply_of(Err::<T, E>(e1))) == server_error_text(),
{
}

} // verus!
