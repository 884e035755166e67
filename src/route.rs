use vstd::prelude::*;
use vstd::string::StrSliceExecFns;

verus! {

/// The one path on which connections are upgraded to the relay.
pub open spec fn relay_path() -> Seq<char> {
    seq!['/', 'w', 's']
}

/// What becomes of an inbound HTTP request.
#[derive(Clone, Copy, Debug, PartialEq, Eq, Structural)]
pub enum Route {
    /// Upgrade the connection and start a relay session on it.
    Upgrade,
    /// Answer with a 404 response.
    NotFound,
}

/// The status code of the answer to a request on any other path.
pub const NOT_FOUND_STATUS: u16 = 404;

/// The status code of the answer to a relay request whose upgrade handshake
/// is malformed or unsupported.
pub const BAD_REQUEST_STATUS: u16 = 400;

/// Routes a request by its path: only the relay path is upgraded.
pub fn route(path: &str) -> (r: Route)
    ensures
        r == (if path@ == relay_path() {
            Route::Upgrade
        } else {
            Route::NotFound
        }),
{
    if path.unicode_len() == 3 && path.get_char(0) == '/' && path.get_char(1) == 'w'
        && path.get_char(2) == 's' {
        assert(path@ =~= relay_path());
        Route::Upgrade
    } else {
        Route::NotFound
    }
}

} // verus!
