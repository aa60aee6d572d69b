//! Decisions taken while the service starts: how long to keep trying the
//! database, whether to load the menu, and how open CORS is.
use vstd::prelude::*;

verus! {

/// Attempts made to reach the database before giving up.
pub const MAX_CONNECT_ATTEMPTS: u32 = 10;

/// Pause between two attempts, in milliseconds.
pub const RETRY_DELAY_MS: u64 = 500;

/// After attempt number `attempt` (counting from 1) failed: the pause
/// before the next one, or `None` once every attempt was spent.
pub fn retry_delay_after(attempt: u32) -> (r: Option<u64>)
    ensures
        r == (if attempt < MAX_CONNECT_ATTEMPTS {
            Some(RETRY_DELAY_MS)
        } else {
            None::<u64>
        }),
{
    if attempt < MAX_CONNECT_ATTEMPTS {
        Some(RETRY_DELAY_MS)
    } else {
        None
    }
}

/// Whether the menu is loaded: only into an empty store, unless a reload is
/// forced.
pub fn should_seed(existing_pizzas: u64, force_reseed: bool) -> (r: bool)
    ensures
        r == (existing_pizzas == 0 || force_reseed),
{
    existing_pizzas == 0 || force_reseed
}

/// `pat` occurs in `s`.
pub open spec fn occurs_in(pat: Seq<char>, s: Seq<char>) -> bool {
    exists|i: int| 0 <= i && i + pat.len() <= s.len() && #[trigger] s.subrange(i, i + pat.len()) == pat
}

/// Relies on `str::contains` with a string pattern: whether `pat` matches
/// a sub-slice of `s`.
#[verifier::external_body]
fn text_contains(s: &str, pat: &str) -> (r: bool)
    ensures
        r == occurs_in(pat@, s@),
{
    s.contains(pat)
}

/// An origin on this machine: any origin may then call the service, with
/// every method and header. Otherwise only that origin, with the usual
/// methods and the content-type and authorization headers.
pub fn cors_allows_any_origin(allow_origin: &str) -> (r: bool)
    ensures
        r == (occurs_in("localhost"@, allow_origin@) || occurs_in("127.0.0.1"@, allow_origin@)),
{
    text_contains(allow_origin, "localhost") || text_contains(allow_origin, "127.0.0.1")
}

} // verus!
