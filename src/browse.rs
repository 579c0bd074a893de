use vstd::prelude::*;

use crate::clock::ActivityClock;
use crate::error::{server_error_body, Error, SERVER_ERROR_STATUS};
use crate::listing::{
    entry_faults,
    file_views,
    readable_entries,
    resolve_listing,
    target_dir_spec,
    DirectoryUnreadable,
    EntryProbe,
    Listing,
};

verus! {

/// The query of a listing request: the directory to list, relative to the
/// shared root.
#[derive(Debug, Clone)]
pub struct Browse {
    pub path: String,
}

impl Browse {
    /// A query for `path`.
    pub fn new(path: String) -> (r: Browse)
        ensures
            r.path@ == path@,
    {
        Browse { path }
    }
}

/// The relative path that a request asks for: the query's path, or the
/// shared root (the empty path) when the request carries none.
pub open spec fn requested_path_spec(query: Option<Browse>) -> Seq<char> {
    match query {
        Some(b) => b.path@,
        None => Seq::empty(),
    }
}

/// The relative path that a request asks for.
pub fn requested_path(query: Option<Browse>) -> (r: String)
    ensures
        r@ == requested_path_spec(query),
{
    match query {
        Some(b) => b.path,
        None => String::new(),
    }
}

/// Handles one listing request whose directory was opened and probed, seen at
/// `now`: the clock is touched exactly once, whatever the outcome, and the
/// reply is the resolved listing or the opaque hard failure.
pub fn browse_response_at(
    clock: &mut ActivityClock,
    now: u64,
    opened: &Result<Vec<EntryProbe>, DirectoryUnreadable>,
) -> (r: Result<Listing, Error>)
    ensures
        *final(clock) == old(clock).touched_spec(now),
        opened is Err <==> r is Err,
        opened is Err ==> r == Err::<Listing, Error>(Error::Fail),
        opened is Ok ==> file_views(r->Ok_0.entries@) == readable_entries(opened->Ok_0@),
        opened is Ok ==> r->Ok_0.faults@ == entry_faults(opened->Ok_0@),
{
    clock.touch_at(now);
    resolve_listing(opened)
}

/// Handles one listing request at the present instant; see
/// `browse_response_at`.
pub fn browse_response(
    clock: &mut ActivityClock,
    opened: &Result<Vec<EntryProbe>, DirectoryUnreadable>,
) -> (r: Result<Listing, Error>)
    ensures
        exists|at: u64| *final(clock) == old(clock).touched_spec(at),
        opened is Err <==> r is Err,
        opened is Err ==> r == Err::<Listing, Error>(Error::Fail),
        opened is Ok ==> file_views(r->Ok_0.entries@) == readable_entries(opened->Ok_0@),
        opened is Ok ==> r->Ok_0.faults@ == entry_faults(opened->Ok_0@),
{
    clock.touch();
    resolve_listing(opened)
}

/// Whether `needle` occurs as a contiguous part of `hay`.
pub open spec fn occurs_in(needle: Seq<char>, hay: Seq<char>) -> bool {
    exists|j: int|
        0 <= j && j + needle.len() <= hay.len() && #[trigger] hay.subrange(j, j + needle.len())
            == needle
}

/// A hard listing failure is answered with the server-error status and the
/// fixed body, and that body never holds the path of the directory that was
/// asked for, whatever the root and the relative path.
pub proof fn lemma_hard_failure_is_opaque(base_dir: Seq<char>, path: Seq<char>)
    ensures
        SERVER_ERROR_STATUS == 500,
        !occurs_in(target_dir_spec(base_dir, path), server_error_body()),
{
    reveal_strlit("UNHANDLED_SERVER_ERROR");
    reveal_strlit("/");
    let t = target_dir_spec(base_dir, path);
    let body = server_error_body();
    let k = base_dir.len() as int;
    assert(t[k] == '/');
    if occurs_in(t, body) {
        let j = choose|j: int|
            0 <= j && j + t.len() <= body.len() && #[trigger] body.subrange(j, j + t.len()) == t;
        assert(body.subrange(j, j + t.len())[k] == body[j + k]);
        assert(body[j + k] != '/');
    }
}

} // verus!
