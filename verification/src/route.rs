//! Routing for the HTTP glue around the pool: the decision table that maps
//! one request line to a canned response. The surrounding I/O — accepting a
//! connection, reading the line, writing the response — stays with the
//! caller; only the decision lives here.

use vstd::prelude::*;
use vstd::string::StrSliceExecFns;

verus! {

/// The three ways a request line is answered.
#[derive(Clone, Copy, Debug, PartialEq, Eq, Structural)]
pub enum Route {
    /// The greeting page.
    Root,
    /// The greeting page, after a deliberate delay.
    Sleep,
    /// Anything else: the not-found page.
    NotFound,
}

/// Character-by-character string equality.
pub fn str_eq(a: &str, b: &str) -> (r: bool)
    ensures
        r == (a@ == b@),
{
    let a_len = a.unicode_len();
    let b_len = b.unicode_len();
    if a_len != b_len {
        return false;
    }
    let mut i: usize = 0;
    while i < a_len
        invariant
            a_len == a@.len(),
            a@.len() == b@.len(),
            i <= a_len,
            forall|k: int| 0 <= k < i ==> a@[k] == b@[k],
        decreases a_len - i,
    {
        if a.get_char(i) != b.get_char(i) {
            return false;
        }
        i = i + 1;
    }
    proof {
        assert(a@ =~= b@);
    }
    true
}

/// Where a given request line is routed.
pub open spec fn spec_route(line: Seq<char>) -> Route {
    if line == "GET / HTTP/1.1"@ {
        Route::Root
    } else if line == "GET /sleep HTTP/1.1"@ {
        Route::Sleep
    } else {
        Route::NotFound
    }
}

/// Routes one request line: exactly the two known lines reach a page,
/// everything else is not found.
pub fn route_of(line: &str) -> (r: Route)
    ensures
        r == spec_route(line@),
{
    if str_eq(line, "GET / HTTP/1.1") {
        Route::Root
    } else if str_eq(line, "GET /sleep HTTP/1.1") {
        Route::Sleep
    } else {
        Route::NotFound
    }
}

/// The status line answering each route.
pub open spec fn spec_status_line(r: Route) -> Seq<char> {
    match r {
        Route::Root => "HTTP/1.1 200 OK"@,
        Route::Sleep => "HTTP/1.1 200 OK"@,
        Route::NotFound => "HTTP/1.1 404 NOT FOUND"@,
    }
}

/// The status line for a route: 200 for the two known pages, 404 otherwise.
pub fn status_line(r: Route) -> (s: &'static str)
    ensures
        s@ == spec_status_line(r),
{
    match r {
        Route::Root => "HTTP/1.1 200 OK",
        Route::Sleep => "HTTP/1.1 200 OK",
        Route::NotFound => "HTTP/1.1 404 NOT FOUND",
    }
}

/// The file holding the body answering each route.
pub open spec fn spec_file_name(r: Route) -> Seq<char> {
    match r {
        Route::Root => "templates/hello.html"@,
        Route::Sleep => "templates/hello.html"@,
        Route::NotFound => "templates/404.html"@,
    }
}

/// The body file for a route: the greeting page for the two known pages,
/// the not-found page otherwise.
pub fn file_name(r: Route) -> (s: &'static str)
    ensures
        s@ == spec_file_name(r),
{
    match r {
        Route::Root => "templates/hello.html",
        Route::Sleep => "templates/hello.html",
        Route::NotFound => "templates/404.html",
    }
}

} // verus!
