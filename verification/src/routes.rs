//! Exact-match dispatch: method and path select exactly one of four
//! handlers; everything else falls through to not-found (404).
use vstd::prelude::*;
use vstd::string::StringExecFns;

verus! {

/// The dispatch outcome for one request line.
#[derive(Clone, Copy, Debug, PartialEq, Eq, Structural)]
pub enum Route {
    Hello,
    Users,
    Projects,
    Tasks,
    NotFound,
}

/// The route that a given method and path select: `GET` on one of the four
/// fixed paths reaches its handler, any other combination is not found.
pub open spec fn spec_route(method: Seq<char>, path: Seq<char>) -> Route {
    if method == "GET"@ {
        if path == "/api/hello"@ {
            Route::Hello
        } else if path == "/api/users"@ {
            Route::Users
        } else if path == "/api/projects"@ {
            Route::Projects
        } else if path == "/api/tasks"@ {
            Route::Tasks
        } else {
            Route::NotFound
        }
    } else {
        Route::NotFound
    }
}

/// The status code of a dispatch outcome: matched routes answer 200,
/// an unmatched request line answers 404.
pub open spec fn spec_status(r: Route) -> u16 {
    if r is NotFound {
        404
    } else {
        200
    }
}

fn str_eq(a: &str, b: &str) -> (r: bool)
    ensures
        r == (a@ == b@),
{
    let x = a.to_owned();
    let y = b.to_owned();
    x == y
}

/// Dispatch one request line to a route by exact match on method and path.
pub fn route_of(method: &str, path: &str) -> (r: Route)
    ensures
        r == spec_route(method@, path@),
{
    if str_eq(method, "GET") {
        if str_eq(path, "/api/hello") {
            Route::Hello
        } else if str_eq(path, "/api/users") {
            Route::Users
        } else if str_eq(path, "/api/projects") {
            Route::Projects
        } else if str_eq(path, "/api/tasks") {
            Route::Tasks
        } else {
            Route::NotFound
        }
    } else {
        Route::NotFound
    }
}

/// The HTTP status that a route answers with.
pub fn route_status(r: Route) -> (s: u16)
    ensures
        s == spec_status(r),
{
    match r {
        Route::NotFound => 404,
        _ => 200,
    }
}

/// Every request line outside the four-entry dispatch table is answered
/// with 404, a non-2xx status; the four served routes answer 200.
pub proof fn lemma_unmatched_is_404(method: Seq<char>, path: Seq<char>)
    ensures
        spec_route(method, path) is NotFound ==> spec_status(spec_route(method, path)) == 404,
        !(spec_route(method, path) is NotFound) ==> spec_status(spec_route(method, path)) == 200,
        (spec_route(method, path) is NotFound) <==> !(method == "GET"@ && (path == "/api/hello"@
            || path == "/api/users"@ || path == "/api/projects"@ || path == "/api/tasks"@)),
{
}

} // verus!
