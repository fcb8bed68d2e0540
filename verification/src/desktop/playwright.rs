//! The local browser-automation service: its addresses and the reading of
//! its replies.

use vstd::prelude::*;
use crate::text::{owned, push_str};

verus! {

/// Page content as the service returns it.
#[derive(Debug, Clone)]
pub struct ContentResponse {
    pub content: String,
    pub format: String,
    pub url: String,
    pub title: String,
}

/// Where the service listens.
pub open spec fn service_url() -> Seq<char> {
    "http://127.0.0.1:3100"@
}

/// The address that launches a browser session.
pub fn launch_url() -> (r: String)
    ensures
        r@ == service_url() + "/browser/launch"@,
{
    proof {
        reveal_strlit("http://127.0.0.1:3100/browser/launch");
        reveal_strlit("http://127.0.0.1:3100");
        reveal_strlit("/browser/launch");
        assert("http://127.0.0.1:3100/browser/launch"@ =~= "http://127.0.0.1:3100"@ + "/browser/launch"@);
    }
    owned("http://127.0.0.1:3100/browser/launch")
}

/// The address of an operation (`navigate`, `content`, `close`) on a session.
pub fn session_url(session_id: &str, operation: &str) -> (r: String)
    ensures
        r@ == service_url() + "/browser/"@ + session_id@ + "/"@ + operation@,
{
    proof {
        reveal_strlit("http://127.0.0.1:3100/browser/");
        reveal_strlit("http://127.0.0.1:3100");
        reveal_strlit("/browser/");
        assert("http://127.0.0.1:3100/browser/"@ =~= "http://127.0.0.1:3100"@ + "/browser/"@);
    }
    let mut r = owned("http://127.0.0.1:3100/browser/");
    push_str(&mut r, session_id);
    push_str(&mut r, "/");
    push_str(&mut r, operation);
    r
}

/// What a reply of the service means: its data where it succeeded and
/// carries some; an error naming what is missing where it succeeded
/// without data; else its error, or the default message where it gave none.
pub fn api_outcome<T>(success: bool, data: Option<T>, error: Option<String>, missing: &str, failed: &str) -> (r: Result<T, String>)
    ensures
        success && data is Some ==> r == Ok::<T, String>(data.unwrap()),
        success && data is None ==> (r matches Err(m) && m@ == missing@),
        !success ==> (r matches Err(m) && m@ == match error {
            Some(e) => e@,
            None => failed@,
        }),
{
    if success {
        match data {
            Some(d) => Ok(d),
            None => Err(owned(missing)),
        }
    } else {
        match error {
            Some(e) => Err(e),
            None => Err(owned(failed)),
        }
    }
}

} // verus!
